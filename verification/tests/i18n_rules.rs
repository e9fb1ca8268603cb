use guest_place::i18n::cache::TranslationCache;
use guest_place::i18n::dictionary::dictionary_pattern;
use guest_place::i18n::locale::locale_from_accept_language;
use guest_place::i18n::lookup::{lookup_step, missing_translation, LookupAction, LookupEvent, LookupState};

#[test]
fn locale_is_first_language_lower_cased() {
    assert_eq!(locale_from_accept_language(Some("ru-RU,ru;q=0.9,en;q=0.8")), "ru-ru");
    assert_eq!(locale_from_accept_language(Some(" EN ;q=1")), "en");
    assert_eq!(locale_from_accept_language(Some("de")), "de");
    assert_eq!(locale_from_accept_language(None), "en");
    assert_eq!(locale_from_accept_language(Some("")), "");
}

#[test]
fn missing_translation_marker() {
    assert_eq!(missing_translation("user.created", "ru"), "missing:ru.user.created");
}

#[test]
fn dictionary_pattern_matches_the_keys_below() {
    assert_eq!(dictionary_pattern("user"), "user.%");
}

#[test]
fn cache_read_after_write() {
    let mut c = TranslationCache::new();
    assert_eq!(c.get("k", "ru"), None);
    c.insert("k".to_string(), "ru".to_string(), "привет".to_string());
    c.insert("k".to_string(), "en".to_string(), "hello".to_string());
    assert_eq!(c.get("k", "ru"), Some("привет".to_string()));
    assert_eq!(c.get("k", "en"), Some("hello".to_string()));
    c.insert("k".to_string(), "ru".to_string(), "здравствуйте".to_string());
    assert_eq!(c.get("k", "ru"), Some("здравствуйте".to_string()));
    assert_eq!(c.get("k", "en"), Some("hello".to_string()));
    c.clear();
    assert_eq!(c.get("k", "ru"), None);
    assert_eq!(c.get("k", "en"), None);
}

fn run(key: &str, locale: &str, cached: Option<&str>, locale_row: Option<&str>, english_row: Option<&str>) -> (String, bool, usize) {
    let mut state = LookupState::Start;
    let mut event = LookupEvent::Begin;
    let mut steps = 0;
    loop {
        steps += 1;
        let (next, action) = lookup_step(key, locale, state, event);
        state = next;
        event = match action {
            LookupAction::ReadCache => LookupEvent::Cached(cached.map(|s| s.to_string())),
            LookupAction::QueryLocale => LookupEvent::Row(locale_row.map(|s| s.to_string())),
            LookupAction::QueryEnglish => LookupEvent::Row(english_row.map(|s| s.to_string())),
            LookupAction::Return(v) => return (v, false, steps),
            LookupAction::StoreAndReturn(v) => return (v, true, steps),
        };
    }
}

#[test]
fn lookup_prefers_cache_then_locale_then_english() {
    assert_eq!(run("a.b", "ru", Some("c"), Some("l"), Some("e")), ("c".to_string(), false, 2));
    assert_eq!(run("a.b", "ru", None, Some("l"), Some("e")), ("l".to_string(), true, 3));
    assert_eq!(run("a.b", "ru", None, None, Some("e")), ("e".to_string(), true, 4));
    assert_eq!(run("a.b", "ru", None, None, None), ("missing:ru.a.b".to_string(), true, 4));
}

#[test]
fn lookup_in_english_skips_the_fallback() {
    assert_eq!(run("a.b", "en", None, None, Some("e")), ("missing:en.a.b".to_string(), true, 3));
}

#[test]
fn cached_translation_is_reused_next_time() {
    let mut c = TranslationCache::new();
    let (text, store, _) = run("x", "ru", c.get("x", "ru").as_deref(), Some("db"), None);
    assert!(store);
    c.insert("x".to_string(), "ru".to_string(), text);
    let (again, store_again, _) = run("x", "ru", c.get("x", "ru").as_deref(), Some("changed"), None);
    assert_eq!(again, "db");
    assert!(!store_again);
    c.clear();
    let (fresh, _, _) = run("x", "ru", c.get("x", "ru").as_deref(), Some("changed"), None);
    assert_eq!(fresh, "changed");
}
