use mystbot::commands::{
    aggregator_result_id, join_words, module_result_id, plan_module_query, route_selection,
    split_on, QueryPlan, SelectionRoute,
};
use mystbot::inline_audio::InlineAudio;
use mystbot::module_type::ModuleType;

fn words(text: &str) -> Vec<String> {
    split_on(text, ' ')
}

#[test]
fn split_keeps_empty_pieces() {
    assert_eq!(split_on("a|b|c", '|'), vec!["a", "b", "c"]);
    assert_eq!(split_on("a||c", '|'), vec!["a", "", "c"]);
    assert_eq!(split_on("", '|'), vec![""]);
    assert_eq!(split_on("abc", '|'), vec!["abc"]);
    assert_eq!(split_on("|", '|'), vec!["", ""]);
}

#[test]
fn join_restores_words() {
    let pieces = words("find me a song");
    assert_eq!(join_words(&pieces, 0), "find me a song");
    assert_eq!(join_words(&pieces, 1), "me a song");
    assert_eq!(join_words(&pieces, 4), "");
}

#[test]
fn result_ids_round_trip_through_routing() {
    let module_id = module_result_id(ModuleType::Yandex, "track9");
    assert_eq!(module_id, "fruityger|yandex|track9");
    match route_selection(&module_id) {
        SelectionRoute::Module { module, id } => {
            assert_eq!(module, ModuleType::Yandex);
            assert_eq!(id, "track9");
        }
        _ => panic!("a module id must route to its module"),
    }

    let aggregator_id = aggregator_result_id("a9993e364706816a");
    assert_eq!(aggregator_id, "lucida|a9993e364706816a");
    match route_selection(&aggregator_id) {
        SelectionRoute::Aggregator { key } => assert_eq!(key, "a9993e364706816a"),
        _ => panic!("an aggregator id must route to the aggregator"),
    }
}

#[test]
fn malformed_selection_ids_are_unknown() {
    assert!(matches!(route_selection("lucida"), SelectionRoute::Unknown));
    assert!(matches!(route_selection("fruityger|spotify|x"), SelectionRoute::Unknown));
    assert!(matches!(route_selection("fruityger|yandex"), SelectionRoute::Unknown));
    assert!(matches!(route_selection("other|x"), SelectionRoute::Unknown));
    assert!(matches!(route_selection(""), SelectionRoute::Unknown));
}

#[test]
fn queries_with_a_service_tag_select_it() {
    match plan_module_query(&words("yandex cold song")) {
        QueryPlan::Search { module, query } => {
            assert_eq!(module, ModuleType::Yandex);
            assert_eq!(query, "cold song");
        }
        _ => panic!("a tagged query must search"),
    }
    match plan_module_query(&words("qobuz hello")) {
        QueryPlan::Search { module, query } => {
            assert_eq!(module, ModuleType::HifiQobuz);
            assert_eq!(query, "hello");
        }
        _ => panic!("a tagged query must search"),
    }
}

#[test]
fn untagged_queries_use_the_default_module() {
    match plan_module_query(&words("cold song")) {
        QueryPlan::Search { module, query } => {
            assert_eq!(module, ModuleType::HifiQobuz);
            assert_eq!(query, "cold song");
        }
        _ => panic!("an untagged query must search the default module"),
    }
}

#[test]
fn empty_queries_ask_for_input() {
    let no_words: Vec<String> = Vec::new();
    assert!(matches!(plan_module_query(&no_words), QueryPlan::AskForQuery));
    assert!(matches!(plan_module_query(&words("yandex")), QueryPlan::AskForQuery));
}

#[test]
fn inline_audio_resolves_defaults() {
    let resolved = InlineAudio::new("https://s.example/placeholder.mp3".to_string())
        .resolve("17".to_string());
    assert_eq!(resolved.id, "17");
    assert_eq!(resolved.mime, "audio/mpeg");
    assert_eq!(resolved.duration, 0);
    assert_eq!(resolved.text, "");
    assert!(resolved.thumbnail.is_none());
}

#[test]
fn inline_audio_keeps_what_is_set() {
    let resolved = InlineAudio::new("https://s.example/placeholder.mp3".to_string())
        .id("fruityger|hifi|t1".to_string())
        .title("Title".to_string())
        .performer("Artist".to_string())
        .mime("audio/flac".to_string())
        .duration(212)
        .thumbnail_option(Some("https://x/cover.jpg".to_string()))
        .reply_markup("Скачиваем...".to_string())
        .resolve("999".to_string());
    assert_eq!(resolved.id, "fruityger|hifi|t1");
    assert_eq!(resolved.title.as_deref(), Some("Title"));
    assert_eq!(resolved.performer.as_deref(), Some("Artist"));
    assert_eq!(resolved.mime, "audio/flac");
    assert_eq!(resolved.duration, 212);
    assert_eq!(resolved.thumbnail.as_deref(), Some("https://x/cover.jpg"));
    assert_eq!(resolved.button_text.as_deref(), Some("Скачиваем..."));
    assert_eq!(resolved.url, "https://s.example/placeholder.mp3");
}
