//! Track references and metadata.
//!
//! A `TrackReference` identifies one piece of audio on a source
//! provider and carries its canonical source URL, which doubles as the
//! cache key.  `TrackMetadata` is what ends up in the tagged file and
//! the delivered message.

use vstd::prelude::*;

verus! {

/// Which backend a track reference belongs to: one of the two
/// module-based services, or the multi-service aggregator.
#[derive(Clone, Copy, PartialEq, Eq, Structural, Debug)]
pub enum ProviderTag {
    Yandex,
    HifiQobuz,
    Aggregator,
}

/// Identifier and canonical source URL for one piece of audio.
#[derive(Clone)]
pub struct TrackReference {
    /// Provider-specific opaque id.
    pub id: String,
    /// Which provider resolves this reference.
    pub provider: ProviderTag,
    /// Canonical source URL; the cache key for the audio asset.
    pub url: String,
    /// Cover-art URL, when the provider exposes one.
    pub cover_url: Option<String>,
}

/// Mathematical model of a track reference.
pub ghost struct TrackRefModel {
    pub id: Seq<char>,
    pub provider: ProviderTag,
    pub url: Seq<char>,
    pub cover_url: Option<Seq<char>>,
}

impl View for TrackReference {
    type V = TrackRefModel;

    open spec fn view(&self) -> TrackRefModel {
        TrackRefModel {
            id: self.id@,
            provider: self.provider,
            url: self.url@,
            cover_url: match self.cover_url {
                Some(u) => Some(u@),
                None => None,
            },
        }
    }
}

impl TrackReference {
    /// An owned copy of the reference, equal to the original.
    pub fn duplicate(&self) -> (r: Self)
        ensures
            r@ == self@,
    {
        TrackReference {
            id: self.id.clone(),
            provider: self.provider,
            url: self.url.clone(),
            cover_url: match &self.cover_url {
                Some(u) => Some(u.clone()),
                None => None,
            },
        }
    }
}

/// Title, primary artist and duration of a track.
#[derive(Clone)]
pub struct TrackMetadata {
    pub title: String,
    pub artist: String,
    pub duration_ms: u64,
}

/// Mathematical model of track metadata.
pub ghost struct TrackMetaModel {
    pub title: Seq<char>,
    pub artist: Seq<char>,
    pub duration_ms: u64,
}

impl View for TrackMetadata {
    type V = TrackMetaModel;

    open spec fn view(&self) -> TrackMetaModel {
        TrackMetaModel { title: self.title@, artist: self.artist@, duration_ms: self.duration_ms }
    }
}

impl TrackMetadata {
    /// Ingests provider metadata.  Providers hand over a ranked artist
    /// list; the first entry is the primary artist.  A track with no
    /// listed artist is rejected as a hard validation error rather
    /// than crash later readers.
    pub fn new(title: String, artists: &Vec<String>, duration_ms: u64) -> (r: Option<
        TrackMetadata,
    >)
        ensures
            artists@.len() == 0 ==> r is None,
            artists@.len() > 0 ==> (r matches Some(m) && m@ == (TrackMetaModel {
                title: title@,
                artist: artists@[0]@,
                duration_ms,
            })),
    {
        if artists.len() == 0 {
            None
        } else {
            Some(TrackMetadata { title, artist: artists[0].clone(), duration_ms })
        }
    }
}

impl TrackMetadata {
    /// An owned copy of the metadata, equal to the original.
    pub fn duplicate(&self) -> (r: Self)
        ensures
            r@ == self@,
    {
        TrackMetadata {
            title: self.title.clone(),
            artist: self.artist.clone(),
            duration_ms: self.duration_ms,
        }
    }
}

/// A full search result: reference plus metadata, as stored in the
/// search-result cache.
#[derive(Clone)]
pub struct TrackRecord {
    pub reference: TrackReference,
    pub metadata: TrackMetadata,
}

/// Mathematical model of a track record.
pub ghost struct TrackModel {
    pub reference: TrackRefModel,
    pub metadata: TrackMetaModel,
}

impl View for TrackRecord {
    type V = TrackModel;

    open spec fn view(&self) -> TrackModel {
        TrackModel { reference: self.reference@, metadata: self.metadata@ }
    }
}

impl TrackRecord {
    /// An owned copy of the record, equal to the original.
    pub fn duplicate(&self) -> (r: Self)
        ensures
            r@ == self@,
    {
        TrackRecord { reference: self.reference.duplicate(), metadata: self.metadata.duplicate() }
    }
}

/// The base file name under which a track is persisted while it is
/// processed: `"{artist} - {title}"`.
pub open spec fn track_filename_spec(artist: Seq<char>, title: Seq<char>) -> Seq<char> {
    artist + " - "@ + title
}

/// Builds the working file name for a track.
pub fn track_filename(artist: &str, title: &str) -> (r: String)
    ensures
        r@ == track_filename_spec(artist@, title@),
{
    let mut out = artist.to_owned();
    out.append(" - ");
    out.append(title);
    out
}

/// Builds the temporary working file name used before the remux step:
/// the working file name with a `"_temp"` suffix.
pub fn track_filename_temp(artist: &str, title: &str) -> (r: String)
    ensures
        r@ == track_filename_spec(artist@, title@) + "_temp"@,
{
    let mut out = track_filename(artist, title);
    out.append("_temp");
    out
}

} // verus!
