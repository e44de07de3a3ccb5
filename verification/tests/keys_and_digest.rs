use mystbot::digest::search_cache_key;
use mystbot::ids::{generate_random_id, IdGenerator};
use mystbot::keys::cache_key;
use mystbot::module_type::ModuleType;

#[test]
fn cache_key_escapes_separators_and_colons() {
    assert_eq!(
        cache_key("https://a/b.flac", "packed"),
        "++media+https+++a+b.flac+packed"
    );
}

#[test]
fn cache_key_distinguishes_discriminators() {
    let packed = cache_key("https://x/1.flac", "packed");
    let content_type = cache_key("https://x/1.flac", "content_type");
    assert_ne!(packed, content_type);
    assert_eq!(packed, "++media+https+++x+1.flac+packed");
    assert_eq!(content_type, "++media+https+++x+1.flac+content_type");
}

#[test]
fn cache_key_keeps_plain_characters() {
    assert_eq!(cache_key("abc", "n"), "++media+abc+n");
}

#[test]
fn search_cache_key_is_sha1_prefix() {
    // SHA-1("abc") = a9993e364706816aba3e25717850c26c9cd0d89d
    assert_eq!(search_cache_key("abc"), "a9993e364706816a");
}

#[test]
fn search_cache_key_has_fixed_length() {
    let key = search_cache_key("https://x/1.flac");
    assert_eq!(key.chars().count(), 16);
    assert_ne!(key, "https://x/1.flac");
}

#[test]
fn search_cache_keys_differ_for_different_urls() {
    assert_ne!(
        search_cache_key("https://x/1.flac"),
        search_cache_key("https://x/2.flac")
    );
}

#[test]
fn module_type_tags_round_trip() {
    assert_eq!(ModuleType::try_from("yandex"), Some(ModuleType::Yandex));
    assert_eq!(ModuleType::try_from("hifi"), Some(ModuleType::HifiQobuz));
    assert_eq!(ModuleType::try_from("qobuz"), Some(ModuleType::HifiQobuz));
    assert_eq!(ModuleType::try_from("spotify"), None);
    assert_eq!(ModuleType::try_from(""), None);
    assert_eq!(ModuleType::Yandex.as_str(), "yandex");
    assert_eq!(ModuleType::HifiQobuz.as_str(), "hifi");
}

#[test]
fn generated_ids_increase() {
    let mut generator = IdGenerator::new();
    let first = generate_random_id(&mut generator);
    let second = generate_random_id(&mut generator);
    let third = generate_random_id(&mut generator);
    assert!(first != 0);
    assert_eq!(second, first.wrapping_add(1));
    assert_eq!(third, second.wrapping_add(1));
}
