use mystbot::error::Error;
use mystbot::pipeline::{report_stage, StageMarker};
use mystbot::progress::{ProgressChannel, DEFAULT_PROGRESS_CAPACITY};
use mystbot::track::{track_filename, track_filename_temp};
use mystbot::tracking::{
    event_ids, event_line, event_report, new_events, tracking_update, TrackingEvent,
};

fn event(id: &str, date: &str, service: &str, attribute: &str, place: &str) -> TrackingEvent {
    TrackingEvent {
        id: id.to_string(),
        date_time: date.to_string(),
        service_name: service.to_string(),
        attribute: attribute.to_string(),
        place_name: place.to_string(),
    }
}

/// Progress order: messages sent by one producer come out in send
/// order.
#[test]
fn consumer_sees_send_order() {
    let mut channel = ProgressChannel::new(DEFAULT_PROGRESS_CAPACITY);
    let messages = ["one", "two", "three", "four"];
    for message in messages {
        assert!(channel.send(message.to_string()));
    }
    for message in messages {
        assert_eq!(channel.recv().expect("pending"), message);
    }
    assert!(channel.recv().is_none());
}

#[test]
fn full_channel_refuses_without_losing_order() {
    let mut channel = ProgressChannel::new(2);
    assert!(channel.send("a".to_string()));
    assert!(channel.send("b".to_string()));
    assert!(!channel.send("c".to_string()));
    assert_eq!(channel.recv().expect("pending"), "a");
    assert!(channel.send("c".to_string()));
    assert_eq!(channel.recv().expect("pending"), "b");
    assert_eq!(channel.recv().expect("pending"), "c");
}

#[test]
fn stage_reports_travel_through_the_channel() {
    let mut channel = ProgressChannel::new(DEFAULT_PROGRESS_CAPACITY);
    assert!(report_stage(&mut channel, StageMarker::Fetch, true));
    assert!(report_stage(&mut channel, StageMarker::Process, true));
    assert!(report_stage(&mut channel, StageMarker::Upload, true));
    assert_eq!(channel.recv().expect("pending"), "Скачиваем аудио");
    assert_eq!(channel.recv().expect("pending"), "Добавляем метаданные");
    assert_eq!(channel.recv().expect("pending"), "Загружаем файл");
}

#[test]
fn diff_reports_only_new_events() {
    let last = vec![event("1", "d1", "s", "accepted", "")];
    let current = vec![
        event("1", "d1", "s", "accepted", ""),
        event("2", "d2", "s", "arrived", "Moscow"),
    ];
    let fresh = new_events(&event_ids(&last), &current);
    assert_eq!(fresh.len(), 1);
    assert_eq!(fresh[0].id, "2");
}

#[test]
fn diff_of_identical_histories_is_silent() {
    let current = vec![event("1", "d1", "s", "accepted", "")];
    assert!(tracking_update(&event_ids(&current), &current, "RR1").is_none());
}

#[test]
fn event_lines_name_the_place_only_when_present() {
    let with_place = event("1", "2024-01-01", "post", "arrived", "Moscow");
    assert_eq!(event_line(&with_place), "• 2024-01-01 post - arrived (Moscow)");
    let without_place = event("2", "2024-01-02", "post", "left", "");
    assert_eq!(event_line(&without_place), "• 2024-01-02 post - left");
}

#[test]
fn report_joins_lines_with_soft_breaks() {
    let events = vec![
        event("1", "d1", "s", "a", ""),
        event("2", "d2", "s", "b", "p"),
    ];
    assert_eq!(event_report(&events), "• d1 s - a  \n• d2 s - b (p)");
}

#[test]
fn update_message_carries_header_and_body() {
    let last: Vec<String> = Vec::new();
    let current = vec![event("1", "d1", "s", "a", "")];
    let message = tracking_update(&last, &current, "RR1").expect("new events");
    assert_eq!(
        message,
        "**🔄 Новые обновления для трек номера RR1:**  \n• d1 s - a"
    );
}

#[test]
fn filenames_follow_artist_dash_title() {
    assert_eq!(track_filename("Artist", "Title"), "Artist - Title");
    assert_eq!(track_filename_temp("Artist", "Title"), "Artist - Title_temp");
}

#[test]
fn user_messages_are_fixed_strings() {
    assert_eq!(Error::ProviderUnavailable.user_message(), "Сервис недоступен");
    assert_eq!(Error::StaleReference.user_message(), "Устаревшее сообщение");
    assert_eq!(Error::ProcessingFailure.user_message(), "Не удалось скачать трек");
    assert_eq!(Error::DeliveryRejected.user_message(), "Не удалось скачать трек");
}
