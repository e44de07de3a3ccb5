//! The media-handle cache.
//!
//! Maps an asset's canonical URL to the handle of a previously uploaded
//! media file, so a repeated acquisition can skip the provider, the
//! processor and the upload entirely.  Entries are immutable once
//! stored and invalidated only by an explicit refresh flag; writes are
//! idempotent overwrites, so two concurrent misses that both fetch and
//! both write leave a content-equivalent entry.
//!
//! The store is backed by a sharded concurrent hash map
//! (`dashmap::DashMap`), the same structure the process shares across
//! request tasks.

use vstd::prelude::*;
use dashmap::DashMap;

verus! {

/// Opaque pointer into the messaging transport's media store, paired
/// with the content type of the uploaded media.
#[derive(Clone)]
pub struct CachedMediaHandle {
    /// The upload handle, in the transport's native wire format.
    pub payload: Vec<u8>,
    /// Content type of the uploaded media.
    pub content_type: String,
}

/// Mathematical model of a cached media handle.
pub ghost struct HandleModel {
    pub payload: Seq<u8>,
    pub content_type: Seq<char>,
}

impl View for CachedMediaHandle {
    type V = HandleModel;

    open spec fn view(&self) -> HandleModel {
        HandleModel { payload: self.payload@, content_type: self.content_type@ }
    }
}

impl CachedMediaHandle {
    /// An owned copy of the handle, equal to the original.
    pub fn duplicate(&self) -> (r: Self)
        ensures
            r@ == self@,
    {
        let payload = self.payload.clone();
        proof {
            assert(payload@ =~= self.payload@);
        }
        CachedMediaHandle { payload, content_type: self.content_type.clone() }
    }
}

#[verifier::external_type_specification]
#[verifier::external_body]
#[verifier::reject_recursive_types(K)]
#[verifier::reject_recursive_types(V)]
#[verifier::reject_recursive_types(S)]
pub struct ExDashMap<K, V, S>(DashMap<K, V, S>);

/// Concurrent map type backing the store.
type MediaMap = DashMap<String, CachedMediaHandle>;

/// The entries a media-handle map holds: key characters to handle
/// model.  Two keys with equal characters are the same entry, matching
/// `String` equality.
pub uninterp spec fn media_map_entries(m: MediaMap) -> Map<Seq<char>, HandleModel>;

/// The model of a store with nothing in it.
pub open spec fn no_entries() -> Map<Seq<char>, HandleModel> {
    Map::empty()
}

/// Relies on `dashmap::DashMap::new`: creates an empty map.
#[verifier::external_body]
fn media_map_new() -> (m: MediaMap)
    ensures
        media_map_entries(m) == no_entries(),
{
    DashMap::new()
}

/// Relies on `dashmap::DashMap::get`: returns the value stored under
/// the key, if there is one.
#[verifier::external_body]
fn media_map_get(m: &MediaMap, key: &String) -> (r: Option<CachedMediaHandle>)
    ensures
        r matches Some(h) ==> media_map_entries(*m).contains_key(key@) && h@ == media_map_entries(
            *m,
        )[key@],
        r is None ==> !media_map_entries(*m).contains_key(key@),
{
    m.get(key).map(|entry| entry.value().clone())
}

/// Relies on `dashmap::DashMap::insert`: stores the value under the
/// key, replacing any previous value held there.
#[verifier::external_body]
fn media_map_insert(m: &mut MediaMap, key: String, value: CachedMediaHandle)
    ensures
        media_map_entries(*final(m)) == media_map_entries(*old(m)).insert(key@, value@),
{
    m.insert(key, value);
}

/// Key/value store from an asset's canonical URL to its uploaded-media
/// handle.
pub struct CacheStore {
    map: MediaMap,
}

impl View for CacheStore {
    type V = Map<Seq<char>, HandleModel>;

    closed spec fn view(&self) -> Map<Seq<char>, HandleModel> {
        media_map_entries(self.map)
    }
}

impl CacheStore {
    /// An empty store.
    pub fn new() -> (r: Self)
        ensures
            r@ == no_entries(),
    {
        CacheStore { map: media_map_new() }
    }

    /// Looks the URL up; `None` is a cache miss.
    pub fn get(&self, url: &String) -> (r: Option<CachedMediaHandle>)
        ensures
            r matches Some(h) ==> self@.contains_key(url@) && h@ == self@[url@],
            r is None ==> !self@.contains_key(url@),
    {
        media_map_get(&self.map, url)
    }

    /// Stores the handle under the URL: an idempotent overwrite.
    pub fn put(&mut self, url: String, handle: CachedMediaHandle)
        ensures
            final(self)@ == old(self)@.insert(url@, handle@),
    {
        media_map_insert(&mut self.map, url, handle);
    }
}

} // verus!
