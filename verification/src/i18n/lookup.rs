//! How `I18nService::t` finds a translation: the cache first, then the
//! requested locale in the database, then English, else a `missing:` marker.
//! The service performs each action and hands back what it got; this module
//! decides the next action.

use vstd::prelude::*;
use crate::text::{opt_string, push_str, same_text};

verus! {

/// The text shown for a translation that exists in no locale:
/// `missing:{locale}.{key}`.
pub open spec fn missing_text(key: Seq<char>, locale: Seq<char>) -> Seq<char> {
    "missing:"@ + locale + "."@ + key
}

/// Builds [`missing_text`].
pub fn missing_translation(key: &str, locale: &str) -> (r: String)
    ensures
        r@ == missing_text(key@, locale@),
{
    let mut r = String::from_str("missing:");
    push_str(&mut r, locale);
    push_str(&mut r, ".");
    push_str(&mut r, key);
    r
}

/// Where a lookup stands.
pub enum LookupState {
    /// Nothing done yet.
    Start,
    /// The cache has been asked.
    CacheRead,
    /// The database has been asked for the requested locale.
    LocaleQueried,
    /// The database has been asked for English.
    EnglishQueried,
    /// The lookup is over.
    Done,
}

/// What the service hands back.
pub enum LookupEvent {
    /// The lookup begins.
    Begin,
    /// What the cache holds for (key, locale).
    Cached(Option<String>),
    /// What the database returned (`None` also when the query failed).
    Row(Option<String>),
}

/// What the service does next.
pub enum LookupAction {
    /// Read the cache for (key, locale).
    ReadCache,
    /// `SELECT value FROM i18n_translations WHERE key = $1 AND locale = $2`.
    QueryLocale,
    /// The same query with `locale = 'en'`.
    QueryEnglish,
    /// Answer with this cached text.
    Return(String),
    /// Cache this text under (key, locale) and answer with it.
    StoreAndReturn(String),
}

/// The events that the service can hand back in a state.
pub open spec fn lookup_event_fits(state: LookupState, event: LookupEvent) -> bool {
    match state {
        LookupState::Start => event is Begin,
        LookupState::CacheRead => event is Cached,
        LookupState::LocaleQueried => event is Row,
        LookupState::EnglishQueried => event is Row,
        LookupState::Done => false,
    }
}

/// What the service hands back, as values.
pub enum LookupEventView {
    Begin,
    Cached(Option<Seq<char>>),
    Row(Option<Seq<char>>),
}

/// What the service does next, as values.
pub enum LookupActionView {
    ReadCache,
    QueryLocale,
    QueryEnglish,
    Return(Seq<char>),
    StoreAndReturn(Seq<char>),
}

impl LookupEvent {
    pub open spec fn view(&self) -> LookupEventView {
        match self {
            LookupEvent::Begin => LookupEventView::Begin,
            LookupEvent::Cached(c) => LookupEventView::Cached(opt_string(*c)),
            LookupEvent::Row(r) => LookupEventView::Row(opt_string(*r)),
        }
    }
}

impl LookupAction {
    pub open spec fn view(&self) -> LookupActionView {
        match self {
            LookupAction::ReadCache => LookupActionView::ReadCache,
            LookupAction::QueryLocale => LookupActionView::QueryLocale,
            LookupAction::QueryEnglish => LookupActionView::QueryEnglish,
            LookupAction::Return(v) => LookupActionView::Return(v@),
            LookupAction::StoreAndReturn(v) => LookupActionView::StoreAndReturn(v@),
        }
    }
}

/// The transitions of a lookup of `key` in `locale`.
pub open spec fn lookup_next(
    key: Seq<char>,
    locale: Seq<char>,
    state: LookupState,
    event: LookupEventView,
) -> (LookupState, LookupActionView) {
    match state {
        LookupState::Start => (LookupState::CacheRead, LookupActionView::ReadCache),
        LookupState::CacheRead => match event {
            LookupEventView::Cached(Some(v)) => (LookupState::Done, LookupActionView::Return(v)),
            _ => (LookupState::LocaleQueried, LookupActionView::QueryLocale),
        },
        LookupState::LocaleQueried => match event {
            LookupEventView::Row(Some(v)) => (LookupState::Done, LookupActionView::StoreAndReturn(v)),
            _ => if locale != "en"@ {
                (LookupState::EnglishQueried, LookupActionView::QueryEnglish)
            } else {
                (LookupState::Done, LookupActionView::StoreAndReturn(missing_text(key, locale)))
            },
        },
        _ => match event {
            LookupEventView::Row(Some(v)) => (LookupState::Done, LookupActionView::StoreAndReturn(v)),
            _ => (LookupState::Done, LookupActionView::StoreAndReturn(missing_text(key, locale))),
        },
    }
}

/// One step of the lookup of `key` in `locale`.
pub fn lookup_step(key: &str, locale: &str, state: LookupState, event: LookupEvent) -> (r: (LookupState, LookupAction))
    requires
        lookup_event_fits(state, event),
    ensures
        (r.0, r.1.view()) == lookup_next(key@, locale@, state, event.view()),
{
    match state {
        LookupState::Start => (LookupState::CacheRead, LookupAction::ReadCache),
        LookupState::CacheRead => match event {
            LookupEvent::Cached(Some(v)) => (LookupState::Done, LookupAction::Return(v)),
            _ => (LookupState::LocaleQueried, LookupAction::QueryLocale),
        },
        LookupState::LocaleQueried => match event {
            LookupEvent::Row(Some(v)) => (LookupState::Done, LookupAction::StoreAndReturn(v)),
            _ => {
                if !same_text(locale, "en") {
                    (LookupState::EnglishQueried, LookupAction::QueryEnglish)
                } else {
                    (LookupState::Done, LookupAction::StoreAndReturn(missing_translation(key, locale)))
                }
            },
        },
        _ => match event {
            LookupEvent::Row(Some(v)) => (LookupState::Done, LookupAction::StoreAndReturn(v)),
            _ => (LookupState::Done, LookupAction::StoreAndReturn(missing_translation(key, locale))),
        },
    }
}

/// The action a lookup ends with when the cache answers `cached` and the
/// locale and English queries answer `locale_row` and `english_row`, after at
/// most `fuel` steps from `state`.
pub open spec fn lookup_drive(
    key: Seq<char>,
    locale: Seq<char>,
    state: LookupState,
    event: LookupEventView,
    cached: Option<Seq<char>>,
    locale_row: Option<Seq<char>>,
    english_row: Option<Seq<char>>,
    fuel: nat,
) -> Option<LookupActionView>
    decreases fuel,
{
    if fuel == 0 {
        None
    } else {
        let (next, action) = lookup_next(key, locale, state, event);
        match action {
            LookupActionView::ReadCache => lookup_drive(key, locale, next, LookupEventView::Cached(cached), cached, locale_row, english_row, (fuel - 1) as nat),
            LookupActionView::QueryLocale => lookup_drive(key, locale, next, LookupEventView::Row(locale_row), cached, locale_row, english_row, (fuel - 1) as nat),
            LookupActionView::QueryEnglish => lookup_drive(key, locale, next, LookupEventView::Row(english_row), cached, locale_row, english_row, (fuel - 1) as nat),
            _ => Some(action),
        }
    }
}

/// The text that a whole lookup gives, from what the cache and the two
/// queries answer: the cached text, else the row for the locale, else (for
/// a locale other than English) the English row, else the `missing:`
/// marker.
pub open spec fn translation_outcome(
    key: Seq<char>,
    locale: Seq<char>,
    cached: Option<Seq<char>>,
    locale_row: Option<Seq<char>>,
    english_row: Option<Seq<char>>,
) -> Seq<char> {
    match cached {
        Some(v) => v,
        None => match locale_row {
            Some(v) => v,
            None => if locale != "en"@ {
                match english_row {
                    Some(v) => v,
                    None => missing_text(key, locale),
                }
            } else {
                missing_text(key, locale)
            },
        },
    }
}

} // verus!

verus! {

/// A lookup ends within four steps. It answers with the cached text, without
/// asking the database and without writing the cache, when the cache holds
/// one; otherwise it caches the text that it answers with. Either way the
/// text is [`translation_outcome`].
pub proof fn lookup_run(
    key: Seq<char>,
    locale: Seq<char>,
    cached: Option<Seq<char>>,
    locale_row: Option<Seq<char>>,
    english_row: Option<Seq<char>>,
)
    ensures
        ({
            let end = lookup_drive(key, locale, LookupState::Start, LookupEventView::Begin, cached, locale_row, english_row, 4);
            let text = translation_outcome(key, locale, cached, locale_row, english_row);
            &&& cached is Some ==> end == Some(LookupActionView::Return(text))
            &&& cached is None ==> end == Some(LookupActionView::StoreAndReturn(text))
        }),
{
    reveal_with_fuel(lookup_drive, 5);
}


/// What a lookup caches, the next lookup of the same key and locale answers
/// from the cache, whatever the database holds by then; after the cache is
/// cleared the next lookup asks the database again.
pub proof fn cached_translation_is_reused(
    cache: Map<(Seq<char>, Seq<char>), Seq<char>>,
    key: Seq<char>,
    locale: Seq<char>,
    stored: Seq<char>,
    locale_row: Option<Seq<char>>,
    english_row: Option<Seq<char>>,
)
    ensures
        ({
            let after = cache.insert((key, locale), stored);
            lookup_drive(key, locale, LookupState::Start, LookupEventView::Begin,
                Some(after[(key, locale)]), locale_row, english_row, 4)
                == Some(LookupActionView::Return(stored))
        }),
        ({
            let cleared = Map::<(Seq<char>, Seq<char>), Seq<char>>::empty();
            !cleared.contains_key((key, locale))
                && lookup_drive(key, locale, LookupState::Start, LookupEventView::Begin,
                    None, locale_row, english_row, 4)
                    == Some(LookupActionView::StoreAndReturn(
                        translation_outcome(key, locale, None, locale_row, english_row)))
        }),
{
    lookup_run(key, locale, Some(stored), locale_row, english_row);
    lookup_run(key, locale, None, locale_row, english_row);
}

} // verus!
