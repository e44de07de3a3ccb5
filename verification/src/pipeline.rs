//! The acquisition pipeline for one asset.
//!
//! An asset (the track's audio, or its cover art) is acquired in
//! stages: cache lookup, provider fetch, tagging/remux (track asset
//! only), upload, cache write.  The fetch, the processor run and the
//! upload suspend on outside work, so the pipeline is an explicit
//! machine: each step consumes the outcome of the work the previous
//! action asked for and answers with the next action.  A cache hit
//! without the refresh flag finishes immediately — no provider call,
//! no stage marker.  The cache is written only after a fully
//! successful fetch, process and upload, so an interrupted attempt
//! never leaves a corrupt entry.

use vstd::prelude::*;
use crate::cache::{CacheStore, CachedMediaHandle, HandleModel};
use crate::error::Error;
use crate::progress::ProgressChannel;

verus! {

/// Ordered stage markers the pipeline emits while it works.
#[derive(Clone, Copy, PartialEq, Eq, Structural, Debug)]
pub enum StageMarker {
    Fetch,
    Process,
    Upload,
}

/// Where one asset's acquisition stands.
#[derive(Clone, Copy, PartialEq, Eq, Structural, Debug)]
pub enum AcqState {
    /// Waiting for the provider fetch the last action asked for.
    Fetching,
    /// Waiting for the tagging/remux step.
    Processing,
    /// Waiting for the media upload.
    Uploading,
    /// Finished; the handle is in `result`.
    Complete,
    /// Gave up; nothing more will be asked for.
    Aborted,
}

/// What the driver must do next.
pub enum AcqAction {
    /// The asset is acquired: hand this handle on.
    Finish(CachedMediaHandle),
    /// Resolve the reference at the source provider and persist the
    /// stream into the scoped working directory.
    FetchStream,
    /// Run the tagging/remux processor over the persisted stream.
    RunProcessor,
    /// Upload the artifact through the delivery sink and return the
    /// handle obtained.
    Upload,
    /// The acquisition failed with this error.
    Fail(Error),
}

/// The stage markers a full acquisition of one kind of asset emits,
/// in order: the cover asset skips the processor.
pub open spec fn full_markers(is_track_asset: bool) -> Seq<StageMarker> {
    if is_track_asset {
        seq![StageMarker::Fetch, StageMarker::Process, StageMarker::Upload]
    } else {
        seq![StageMarker::Fetch, StageMarker::Upload]
    }
}

/// The per-asset acquisition machine.
pub struct AcquisitionPipeline {
    /// Canonical URL of the asset: the cache key.
    pub url: String,
    /// Forced cache bypass for this run.
    pub refresh: bool,
    /// The track asset runs the processor; the cover asset does not.
    pub is_track_asset: bool,
    /// Where the machine stands.
    pub state: AcqState,
    /// The acquired handle, once the machine is complete.
    pub result: Option<CachedMediaHandle>,
    /// How many provider fetches this run asked for.
    pub provider_calls: u64,
    /// Stage markers emitted so far, in order.
    pub markers: Vec<StageMarker>,
}

impl AcquisitionPipeline {
    /// Stage order: along every run the markers are exactly the prefix
    /// of the full stage sequence emitted so far — none after a cache
    /// hit, all of them from the moment the upload was asked for.
    /// `begin` establishes this and every step keeps it.
    pub open spec fn wf(&self) -> bool {
        match self.state {
            AcqState::Fetching => self.markers@ == full_markers(self.is_track_asset).take(1)
                && self.provider_calls == 1 && self.result is None,
            AcqState::Processing => self.is_track_asset && self.markers@ == full_markers(
                true,
            ).take(2) && self.provider_calls == 1 && self.result is None,
            AcqState::Uploading => self.markers@ == full_markers(self.is_track_asset)
                && self.provider_calls == 1 && self.result is None,
            AcqState::Complete => ((self.provider_calls == 0 && self.markers@ == Seq::<
                StageMarker,
            >::empty()) || (self.provider_calls == 1 && self.markers@ == full_markers(
                self.is_track_asset,
            ))) && self.result is Some,
            AcqState::Aborted => true,
        }
    }

    /// Starts acquiring one asset.  Without the refresh flag the cache
    /// is consulted first: a hit finishes at once with the identical
    /// cached handle, no provider call and no stage marker.  A miss,
    /// or a forced refresh, asks the driver for the provider fetch.
    pub fn begin(cache: &CacheStore, url: String, refresh: bool, is_track_asset: bool) -> (r: (
        AcquisitionPipeline,
        AcqAction,
    ))
        ensures
            r.0.wf(),
            r.0.url@ == url@,
            r.0.refresh == refresh,
            r.0.is_track_asset == is_track_asset,
            !refresh && cache@.contains_key(url@) ==> ({
                &&& r.0.state == AcqState::Complete
                &&& r.0.result matches Some(h) && h@ == cache@[url@]
                &&& r.1 matches AcqAction::Finish(h) && h@ == cache@[url@]
                &&& r.0.provider_calls == 0
                &&& r.0.markers@ == Seq::<StageMarker>::empty()
            }),
            refresh || !cache@.contains_key(url@) ==> ({
                &&& r.0.state == AcqState::Fetching
                &&& r.0.result is None
                &&& r.1 is FetchStream
                &&& r.0.provider_calls == 1
                &&& r.0.markers@ == seq![StageMarker::Fetch]
            }),
    {
        if !refresh {
            if let Some(h) = cache.get(&url) {
                let returned = h.duplicate();
                let machine = AcquisitionPipeline {
                    url,
                    refresh,
                    is_track_asset,
                    state: AcqState::Complete,
                    result: Some(h),
                    provider_calls: 0,
                    markers: Vec::new(),
                };
                return (machine, AcqAction::Finish(returned));
            }
        }
        let mut markers: Vec<StageMarker> = Vec::new();
        markers.push(StageMarker::Fetch);
        proof {
            assert(markers@ =~= seq![StageMarker::Fetch]);
            assert(full_markers(is_track_asset).take(1) =~= seq![StageMarker::Fetch]);
        }
        let machine = AcquisitionPipeline {
            url,
            refresh,
            is_track_asset,
            state: AcqState::Fetching,
            result: None,
            provider_calls: 1,
            markers,
        };
        (machine, AcqAction::FetchStream)
    }

    /// The provider fetch came back.  Success moves on to the
    /// processor for the track asset, straight to the upload for the
    /// cover; failure aborts the asset.
    pub fn on_fetch(&mut self, fetched: bool) -> (action: AcqAction)
        requires
            old(self).state == AcqState::Fetching,
        ensures
            old(self).wf() ==> final(self).wf(),
            final(self).url == old(self).url,
            final(self).refresh == old(self).refresh,
            final(self).is_track_asset == old(self).is_track_asset,
            final(self).result == old(self).result,
            final(self).provider_calls == old(self).provider_calls,
            fetched && old(self).is_track_asset ==> final(self).state == AcqState::Processing
                && action is RunProcessor && final(self).markers@ == old(self).markers@.push(
                StageMarker::Process,
            ),
            fetched && !old(self).is_track_asset ==> final(self).state == AcqState::Uploading
                && action is Upload && final(self).markers@ == old(self).markers@.push(
                StageMarker::Upload,
            ),
            !fetched ==> final(self).state == AcqState::Aborted && action == AcqAction::Fail(
                Error::ProviderUnavailable,
            ) && final(self).markers@ == old(self).markers@,
    {
        if fetched {
            proof {
                assert(full_markers(true).take(1).push(StageMarker::Process) =~= full_markers(
                    true,
                ).take(2));
                assert(full_markers(false).take(1).push(StageMarker::Upload) =~= full_markers(
                    false,
                ));
            }
            if self.is_track_asset {
                self.state = AcqState::Processing;
                self.markers.push(StageMarker::Process);
                AcqAction::RunProcessor
            } else {
                self.state = AcqState::Uploading;
                self.markers.push(StageMarker::Upload);
                AcqAction::Upload
            }
        } else {
            self.state = AcqState::Aborted;
            AcqAction::Fail(Error::ProviderUnavailable)
        }
    }

    /// The tagging/remux step came back.  Success moves on to the
    /// upload; failure aborts the asset.
    pub fn on_process(&mut self, processed: bool) -> (action: AcqAction)
        requires
            old(self).state == AcqState::Processing,
        ensures
            old(self).wf() ==> final(self).wf(),
            final(self).url == old(self).url,
            final(self).refresh == old(self).refresh,
            final(self).is_track_asset == old(self).is_track_asset,
            final(self).result == old(self).result,
            final(self).provider_calls == old(self).provider_calls,
            processed ==> final(self).state == AcqState::Uploading && action is Upload
                && final(self).markers@ == old(self).markers@.push(StageMarker::Upload),
            !processed ==> final(self).state == AcqState::Aborted && action == AcqAction::Fail(
                Error::ProcessingFailure,
            ) && final(self).markers@ == old(self).markers@,
    {
        if processed {
            proof {
                assert(full_markers(true).take(2).push(StageMarker::Upload) =~= full_markers(
                    true,
                ));
            }
            self.state = AcqState::Uploading;
            self.markers.push(StageMarker::Upload);
            AcqAction::Upload
        } else {
            self.state = AcqState::Aborted;
            AcqAction::Fail(Error::ProcessingFailure)
        }
    }

    /// The upload came back.  Success stores the fresh handle in the
    /// cache — the only point at which the cache is written — and
    /// finishes; failure aborts the asset and leaves the cache alone.
    pub fn on_upload(&mut self, cache: &mut CacheStore, uploaded: Option<CachedMediaHandle>) -> (action: AcqAction)
        requires
            old(self).state == AcqState::Uploading,
        ensures
            old(self).wf() ==> final(self).wf(),
            final(self).url == old(self).url,
            final(self).refresh == old(self).refresh,
            final(self).is_track_asset == old(self).is_track_asset,
            final(self).provider_calls == old(self).provider_calls,
            final(self).markers@ == old(self).markers@,
            uploaded matches Some(h) ==> ({
                &&& final(self).state == AcqState::Complete
                &&& final(self).result matches Some(stored) && stored@ == h@
                &&& final(cache)@ == old(cache)@.insert(old(self).url@, h@)
                &&& action matches AcqAction::Finish(f) && f@ == h@
            }),
            uploaded is None ==> final(self).state == AcqState::Aborted && action
                == AcqAction::Fail(Error::ProviderUnavailable) && *final(cache) == *old(cache)
                && final(self).result == old(self).result,
    {
        match uploaded {
            Some(h) => {
                let stored = h.duplicate();
                let returned = h.duplicate();
                cache.put(self.url.clone(), stored);
                self.state = AcqState::Complete;
                self.result = Some(h);
                AcqAction::Finish(returned)
            },
            None => {
                self.state = AcqState::Aborted;
                AcqAction::Fail(Error::ProviderUnavailable)
            },
        }
    }
}

/// Law: acquisition is idempotent.  A successful run stores its handle
/// under the asset's URL (the ensures of `on_upload`); the key is then
/// populated with that very handle, so a repeated `begin` for the same
/// URL without the refresh flag answers from the cache alone — the
/// identical handle, zero provider calls, no stage marker (the ensures
/// of `begin` on a populated key).
pub proof fn lemma_repeat_acquisition_is_cached(
    entries: Map<Seq<char>, HandleModel>,
    url: Seq<char>,
    handle: HandleModel,
)
    ensures
        entries.insert(url, handle).contains_key(url),
        entries.insert(url, handle)[url] == handle,
{
}

/// The status text shown for a stage: which asset is being fetched
/// matters, the later stages read the same either way.
pub open spec fn stage_message_spec(marker: StageMarker, is_track_asset: bool) -> Seq<char> {
    match marker {
        StageMarker::Fetch => if is_track_asset {
            "Скачиваем аудио"@
        } else {
            "Скачиваем обложку"@
        },
        StageMarker::Process => "Добавляем метаданные"@,
        StageMarker::Upload => "Загружаем файл"@,
    }
}

/// The status text shown for a stage.
pub fn stage_message(marker: StageMarker, is_track_asset: bool) -> (r: &'static str)
    ensures
        r@ == stage_message_spec(marker, is_track_asset),
{
    match marker {
        StageMarker::Fetch => if is_track_asset {
            "Скачиваем аудио"
        } else {
            "Скачиваем обложку"
        },
        StageMarker::Process => "Добавляем метаданные",
        StageMarker::Upload => "Загружаем файл",
    }
}

/// Offers the stage's status text to the progress channel; a full
/// channel drops nothing from the history, it just refuses.
pub fn report_stage(ch: &mut ProgressChannel, marker: StageMarker, is_track_asset: bool) -> (accepted: bool)
    requires
        old(ch).wf(),
    ensures
        final(ch).wf(),
        accepted == (old(ch).pending().len() < old(ch).spec_capacity()),
        accepted ==> final(ch).sent_log() == old(ch).sent_log().push(
            stage_message_spec(marker, is_track_asset),
        ),
        !accepted ==> final(ch).sent_log() == old(ch).sent_log(),
        final(ch).received_log() == old(ch).received_log(),
        final(ch).spec_capacity() == old(ch).spec_capacity(),
{
    let text = stage_message(marker, is_track_asset);
    ch.send(text.to_owned())
}

} // verus!
