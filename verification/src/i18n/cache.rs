//! The translation cache of the i18n service: translations already looked up,
//! by key and locale.

use vstd::prelude::*;
use crate::text::{copy_string, same_text};

verus! {

/// One cached translation: key, locale, text.
pub struct CachedTranslation {
    pub key: String,
    pub locale: String,
    pub value: String,
}

/// The cached translations, keyed by (key, locale).
pub struct TranslationCache {
    entries: Vec<CachedTranslation>,
}

/// The map that a list of entries stands for; a later entry for the same
/// (key, locale) wins.
pub open spec fn entries_map(s: Seq<CachedTranslation>) -> Map<(Seq<char>, Seq<char>), Seq<char>>
    decreases s.len(),
{
    if s.len() == 0 {
        Map::empty()
    } else {
        entries_map(s.drop_last()).insert((s.last().key@, s.last().locale@), s.last().value@)
    }
}

proof fn lemma_entries_map_push(s: Seq<CachedTranslation>, e: CachedTranslation)
    ensures
        entries_map(s.push(e)) == entries_map(s).insert((e.key@, e.locale@), e.value@),
{
    assert(s.push(e).drop_last() == s);
}

proof fn lemma_entries_map_absent(s: Seq<CachedTranslation>, k: (Seq<char>, Seq<char>))
    requires
        forall|j: int| 0 <= j < s.len() ==> (#[trigger] s[j].key@, s[j].locale@) != k,
    ensures
        !entries_map(s).contains_key(k),
    decreases s.len(),
{
    if s.len() > 0 {
        lemma_entries_map_absent(s.drop_last(), k);
    }
}

proof fn lemma_entries_map_last_match(s: Seq<CachedTranslation>, i: int, k: (Seq<char>, Seq<char>))
    requires
        0 <= i < s.len(),
        (s[i].key@, s[i].locale@) == k,
        forall|j: int| i < j < s.len() ==> (#[trigger] s[j].key@, s[j].locale@) != k,
    ensures
        entries_map(s).contains_key(k),
        entries_map(s)[k] == s[i].value@,
    decreases s.len(),
{
    if i < s.len() - 1 {
        lemma_entries_map_last_match(s.drop_last(), i, k);
    }
}

proof fn lemma_entries_map_update(s: Seq<CachedTranslation>, i: int, e: CachedTranslation)
    requires
        0 <= i < s.len(),
        (s[i].key@, s[i].locale@) == (e.key@, e.locale@),
        forall|j: int| i < j < s.len() ==> (#[trigger] s[j].key@, s[j].locale@) != (e.key@, e.locale@),
    ensures
        entries_map(s.update(i, e)) == entries_map(s).insert((e.key@, e.locale@), e.value@),
    decreases s.len(),
{
    let k = (e.key@, e.locale@);
    if i == s.len() - 1 {
        assert(s.update(i, e).drop_last() == s.drop_last());
        assert(entries_map(s).insert(k, e.value@) =~= entries_map(s.drop_last()).insert(k, e.value@));
    } else {
        lemma_entries_map_update(s.drop_last(), i, e);
        assert(s.update(i, e).drop_last() == s.drop_last().update(i, e));
        let l = s.last();
        let kl = (l.key@, l.locale@);
        assert(kl != k);
        assert(entries_map(s.update(i, e)) =~= entries_map(s).insert(k, e.value@));
    }
}

impl TranslationCache {
    /// The translations held, by (key, locale).
    pub closed spec fn view(&self) -> Map<(Seq<char>, Seq<char>), Seq<char>> {
        entries_map(self.entries@)
    }

    /// An empty cache.
    pub fn new() -> (c: Self)
        ensures
            c.view() == Map::<(Seq<char>, Seq<char>), Seq<char>>::empty(),
    {
        TranslationCache { entries: Vec::new() }
    }

    /// The cached translation of `key` in `locale`.
    pub fn get(&self, key: &str, locale: &str) -> (r: Option<String>)
        ensures
            match r {
                Some(v) => self.view().contains_key((key@, locale@)) && self.view()[(key@, locale@)] == v@,
                None => !self.view().contains_key((key@, locale@)),
            },
    {
        let mut i = self.entries.len();
        while i > 0
            invariant
                i <= self.entries@.len(),
                forall|j: int| i <= j < self.entries@.len() ==>
                    (#[trigger] self.entries@[j].key@, self.entries@[j].locale@) != (key@, locale@),
            decreases i,
        {
            let e = &self.entries[i - 1];
            if same_text(e.key.as_str(), key) && same_text(e.locale.as_str(), locale) {
                proof {
                    lemma_entries_map_last_match(self.entries@, i - 1, (key@, locale@));
                }
                return Some(copy_string(&e.value));
            }
            i = i - 1;
        }
        proof {
            lemma_entries_map_absent(self.entries@, (key@, locale@));
        }
        None
    }

    /// Caches `value` as the translation of `key` in `locale`.
    pub fn insert(&mut self, key: String, locale: String, value: String)
        ensures
            final(self).view() == old(self).view().insert((key@, locale@), value@),
    {
        let ghost k = (key@, locale@);
        let mut i = self.entries.len();
        while i > 0
            invariant
                i <= self.entries@.len(),
                k == (key@, locale@),
                self.entries@ == old(self).entries@,
                forall|j: int| i <= j < self.entries@.len() ==>
                    (#[trigger] self.entries@[j].key@, self.entries@[j].locale@) != k,
            decreases i,
        {
            let found = {
                let e = &self.entries[i - 1];
                same_text(e.key.as_str(), key.as_str()) && same_text(e.locale.as_str(), locale.as_str())
            };
            if found {
                let e = CachedTranslation { key, locale, value };
                proof {
                    lemma_entries_map_update(self.entries@, i - 1, e);
                }
                self.entries.set(i - 1, e);
                return;
            }
            i = i - 1;
        }
        let e = CachedTranslation { key, locale, value };
        proof {
            lemma_entries_map_push(self.entries@, e);
        }
        self.entries.push(e);
    }

    /// Forgets every cached translation.
    pub fn clear(&mut self)
        ensures
            final(self).view() == Map::<(Seq<char>, Seq<char>), Seq<char>>::empty(),
    {
        self.entries = Vec::new();
    }
}

/// What is written to the cache is read back, and a write under one key and
/// locale leaves every other entry as it was; a cleared cache reads nothing.
pub proof fn cache_read_after_write(
    before: TranslationCache,
    after: TranslationCache,
    cleared: TranslationCache,
    key: Seq<char>,
    locale: Seq<char>,
    value: Seq<char>,
    other: (Seq<char>, Seq<char>),
)
    requires
        after.view() == before.view().insert((key, locale), value),
        cleared.view() == Map::<(Seq<char>, Seq<char>), Seq<char>>::empty(),
    ensures
        after.view().contains_key((key, locale)),
        after.view()[(key, locale)] == value,
        other != (key, locale) ==> after.view().contains_key(other) == before.view().contains_key(other),
        other != (key, locale) && before.view().contains_key(other) ==> after.view()[other] == before.view()[other],
        !cleared.view().contains_key(other),
{
}

} // verus!
