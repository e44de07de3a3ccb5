use mystbot::cache::{CacheStore, CachedMediaHandle};
use mystbot::error::Error;
use mystbot::pipeline::{
    stage_message, AcqAction, AcqState, AcquisitionPipeline, StageMarker,
};
use mystbot::retrier::{
    failure_message, DeliveryRetrier, RetryAction, RetryEvent, RetryState,
};

fn handle(payload: &[u8]) -> CachedMediaHandle {
    CachedMediaHandle {
        payload: payload.to_vec(),
        content_type: "audio/flac".to_string(),
    }
}

/// Scenario: a cache miss runs fetch, process and upload, emits the
/// stage markers in that order and returns the fresh handle; the next
/// acquisition of the same URL without refresh returns the identical
/// handle, makes no provider call and emits nothing.
#[test]
fn miss_then_hit_round_trip() {
    let mut cache = CacheStore::new();
    let url = "https://x/1.flac".to_string();

    let (mut run, action) = AcquisitionPipeline::begin(&cache, url.clone(), false, true);
    assert!(matches!(action, AcqAction::FetchStream));
    assert_eq!(run.state, AcqState::Fetching);
    assert_eq!(run.provider_calls, 1);

    let action = run.on_fetch(true);
    assert!(matches!(action, AcqAction::RunProcessor));
    let action = run.on_process(true);
    assert!(matches!(action, AcqAction::Upload));
    let action = run.on_upload(&mut cache, Some(handle(b"h1")));
    let delivered = match action {
        AcqAction::Finish(h) => h,
        _ => panic!("upload success must finish"),
    };
    assert_eq!(delivered.payload, b"h1".to_vec());
    assert_eq!(run.state, AcqState::Complete);
    assert_eq!(
        run.markers,
        vec![StageMarker::Fetch, StageMarker::Process, StageMarker::Upload]
    );

    // Idempotence: the repeated call is a pure cache read.
    let (second, action) = AcquisitionPipeline::begin(&cache, url.clone(), false, true);
    let cached = match action {
        AcqAction::Finish(h) => h,
        _ => panic!("a populated key must finish at once"),
    };
    assert_eq!(cached.payload, b"h1".to_vec());
    assert_eq!(second.state, AcqState::Complete);
    assert_eq!(second.provider_calls, 0);
    assert!(second.markers.is_empty());
}

#[test]
fn refresh_bypasses_populated_cache() {
    let mut cache = CacheStore::new();
    let url = "https://x/1.flac".to_string();
    cache.put(url.clone(), handle(b"h1"));
    let (run, action) = AcquisitionPipeline::begin(&cache, url, true, true);
    assert!(matches!(action, AcqAction::FetchStream));
    assert_eq!(run.state, AcqState::Fetching);
    assert_eq!(run.provider_calls, 1);
}

#[test]
fn cover_asset_skips_processing() {
    let cache = CacheStore::new();
    let (mut run, action) =
        AcquisitionPipeline::begin(&cache, "https://x/cover.jpg".to_string(), false, false);
    assert!(matches!(action, AcqAction::FetchStream));
    let action = run.on_fetch(true);
    assert!(matches!(action, AcqAction::Upload));
    assert_eq!(run.markers, vec![StageMarker::Fetch, StageMarker::Upload]);
}

#[test]
fn fetch_failure_aborts_with_provider_error() {
    let cache = CacheStore::new();
    let (mut run, _) =
        AcquisitionPipeline::begin(&cache, "https://x/1.flac".to_string(), false, true);
    let action = run.on_fetch(false);
    assert!(matches!(action, AcqAction::Fail(Error::ProviderUnavailable)));
    assert_eq!(run.state, AcqState::Aborted);
}

#[test]
fn processing_failure_aborts_with_processing_error() {
    let cache = CacheStore::new();
    let (mut run, _) =
        AcquisitionPipeline::begin(&cache, "https://x/1.flac".to_string(), false, true);
    run.on_fetch(true);
    let action = run.on_process(false);
    assert!(matches!(action, AcqAction::Fail(Error::ProcessingFailure)));
    assert_eq!(run.state, AcqState::Aborted);
}

#[test]
fn failed_upload_leaves_cache_unwritten() {
    let mut cache = CacheStore::new();
    let url = "https://x/1.flac".to_string();
    let (mut run, _) = AcquisitionPipeline::begin(&cache, url.clone(), false, true);
    run.on_fetch(true);
    run.on_process(true);
    let action = run.on_upload(&mut cache, None);
    assert!(matches!(action, AcqAction::Fail(Error::ProviderUnavailable)));
    assert!(cache.get(&url).is_none());
}

#[test]
fn stage_messages_name_the_asset() {
    assert_eq!(stage_message(StageMarker::Fetch, true), "Скачиваем аудио");
    assert_eq!(stage_message(StageMarker::Fetch, false), "Скачиваем обложку");
    assert_eq!(stage_message(StageMarker::Process, true), "Добавляем метаданные");
    assert_eq!(stage_message(StageMarker::Upload, true), "Загружаем файл");
}

/// Scenario: the first delivery attempt reports that the edit did not
/// apply; the retrier forces a cache bypass on the second attempt and
/// reaches `Delivered` when it succeeds.
#[test]
fn rejected_delivery_forces_refresh_then_succeeds() {
    let mut retrier = DeliveryRetrier::new();
    let action = retrier.step(RetryEvent::Begin);
    assert_eq!(action, RetryAction::RunAcquisition { refresh: false });
    let action = retrier.step(RetryEvent::AcquisitionOk);
    assert_eq!(action, RetryAction::Deliver);
    let action = retrier.step(RetryEvent::DeliveryNotApplied);
    assert_eq!(action, RetryAction::RunAcquisition { refresh: true });
    let action = retrier.step(RetryEvent::AcquisitionOk);
    assert_eq!(action, RetryAction::Deliver);
    let action = retrier.step(RetryEvent::DeliveryApplied);
    assert_eq!(action, RetryAction::Ignore);
    assert_eq!(retrier.state, RetryState::Delivered);
}

/// Scenario: both attempts report that the edit did not apply; the
/// retrier ends `Failed`, asks for the fixed failure string, and no
/// error escapes — further events are ignored.
#[test]
fn two_rejections_fail_the_delivery() {
    let mut retrier = DeliveryRetrier::new();
    let mut acquisitions = 0;
    let events = [
        RetryEvent::Begin,
        RetryEvent::AcquisitionOk,
        RetryEvent::DeliveryNotApplied,
        RetryEvent::AcquisitionOk,
        RetryEvent::DeliveryNotApplied,
    ];
    let mut last = RetryAction::Ignore;
    for event in events {
        last = retrier.step(event);
        if matches!(last, RetryAction::RunAcquisition { .. }) {
            acquisitions += 1;
        }
    }
    assert_eq!(acquisitions, 2);
    assert_eq!(last, RetryAction::ReportFailure);
    assert_eq!(retrier.state, RetryState::Failed);
    assert_eq!(failure_message(), "Не удалось скачать трек");
    // nothing more comes out of a failed delivery
    assert_eq!(retrier.step(RetryEvent::AcquisitionOk), RetryAction::Ignore);
    assert_eq!(retrier.state, RetryState::Failed);
}

/// The retry bound: even under adversarial event orders at most two
/// acquisitions start, and only the second carries the bypass flag.
#[test]
fn at_most_two_acquisitions_whatever_happens() {
    let all_events = [
        RetryEvent::Begin,
        RetryEvent::AcquisitionOk,
        RetryEvent::AcquisitionFailed,
        RetryEvent::DeliveryApplied,
        RetryEvent::DeliveryNotApplied,
    ];
    // walk a few hundred random-ish event sequences
    for seed in 0u64..200 {
        let mut retrier = DeliveryRetrier::new();
        let mut flags: Vec<bool> = Vec::new();
        let mut state = seed;
        for _ in 0..12 {
            state = state.wrapping_mul(6364136223846793005).wrapping_add(1442695040888963407);
            let event = all_events[(state >> 33) as usize % all_events.len()];
            if let RetryAction::RunAcquisition { refresh } = retrier.step(event) {
                flags.push(refresh);
            }
        }
        assert!(flags.len() <= 2);
        if !flags.is_empty() {
            assert!(!flags[0]);
        }
        if flags.len() == 2 {
            assert!(flags[1]);
        }
    }
}

#[test]
fn acquisition_failure_on_first_attempt_forces_refresh() {
    let mut retrier = DeliveryRetrier::new();
    retrier.step(RetryEvent::Begin);
    let action = retrier.step(RetryEvent::AcquisitionFailed);
    assert_eq!(action, RetryAction::RunAcquisition { refresh: true });
    let action = retrier.step(RetryEvent::AcquisitionFailed);
    assert_eq!(action, RetryAction::ReportFailure);
    assert_eq!(retrier.state, RetryState::Failed);
}
