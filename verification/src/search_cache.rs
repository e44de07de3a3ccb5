//! The search-result cache.
//!
//! The search path stores every surviving result under its compact key
//! so a later selection event can recover the full track; the key is
//! what travels through the transport's length-limited opaque-id field.
//! Results whose keys collide are deduplicated at result-build time,
//! first occurrence wins.  Eviction is a coarse global sweep that
//! clears the whole map; a selection arriving after a sweep is a stale
//! reference, not a crash.

use vstd::prelude::*;
use dashmap::DashMap;
use crate::digest::{search_cache_key, search_key_spec};
use crate::error::Error;
use crate::text::contains_string;
use crate::track::{TrackModel, TrackRecord};

verus! {

/// A search result paired with the compact key under which it is
/// cached and addressed.
pub struct KeyedTrack {
    pub key: String,
    pub record: TrackRecord,
}

/// Mathematical model of a keyed search result.
pub ghost struct KeyedTrackModel {
    pub key: Seq<char>,
    pub record: TrackModel,
}

impl View for KeyedTrack {
    type V = KeyedTrackModel;

    open spec fn view(&self) -> KeyedTrackModel {
        KeyedTrackModel { key: self.key@, record: self.record@ }
    }
}

/// The models of a list of keyed results.
pub open spec fn models_of(v: Seq<KeyedTrack>) -> Seq<KeyedTrackModel> {
    v.map_values(|t: KeyedTrack| t@)
}

/// The keys of a list of keyed-result models, in order.
pub open spec fn keys_of(s: Seq<KeyedTrackModel>) -> Seq<Seq<char>> {
    s.map_values(|t: KeyedTrackModel| t.key)
}

impl KeyedTrack {
    /// An owned copy of the keyed result, equal to the original.
    pub fn duplicate(&self) -> (r: Self)
        ensures
            r@ == self@,
    {
        KeyedTrack { key: self.key.clone(), record: self.record.duplicate() }
    }
}

/// Concurrent map type backing the search-result cache.
type TrackMap = DashMap<String, TrackRecord>;

/// The entries a search-result map holds: key characters to track
/// model.  Two keys with equal characters are the same entry, matching
/// `String` equality.
pub uninterp spec fn track_map_entries(m: TrackMap) -> Map<Seq<char>, TrackModel>;

/// The model of a search-result cache with nothing in it.
pub open spec fn no_results() -> Map<Seq<char>, TrackModel> {
    Map::empty()
}

/// Relies on `dashmap::DashMap::new`: creates an empty map.
#[verifier::external_body]
fn track_map_new() -> (m: TrackMap)
    ensures
        track_map_entries(m) == no_results(),
{
    DashMap::new()
}

/// Relies on `dashmap::DashMap::get`: returns the value stored under
/// the key, if there is one.
#[verifier::external_body]
fn track_map_get(m: &TrackMap, key: &String) -> (r: Option<TrackRecord>)
    ensures
        r matches Some(t) ==> track_map_entries(*m).contains_key(key@) && t@ == track_map_entries(
            *m,
        )[key@],
        r is None ==> !track_map_entries(*m).contains_key(key@),
{
    m.get(key).map(|entry| entry.value().clone())
}

/// Relies on `dashmap::DashMap::insert`: stores the value under the
/// key, replacing any previous value held there.
#[verifier::external_body]
fn track_map_insert(m: &mut TrackMap, key: String, value: TrackRecord)
    ensures
        track_map_entries(*final(m)) == track_map_entries(*old(m)).insert(key@, value@),
{
    m.insert(key, value);
}

/// Relies on `dashmap::DashMap::clear`: removes every entry.
#[verifier::external_body]
fn track_map_clear(m: &mut TrackMap)
    ensures
        track_map_entries(*final(m)) == no_results(),
{
    m.clear();
}

/// Short-lived concurrent map from a compact opaque id to the full
/// track it names, bridging search results to later selection events.
pub struct SearchResultCache {
    map: TrackMap,
}

impl View for SearchResultCache {
    type V = Map<Seq<char>, TrackModel>;

    closed spec fn view(&self) -> Map<Seq<char>, TrackModel> {
        track_map_entries(self.map)
    }
}

impl SearchResultCache {
    /// An empty cache.
    pub fn new() -> (r: Self)
        ensures
            r@ == no_results(),
    {
        SearchResultCache { map: track_map_new() }
    }

    /// Stores one result under its key.
    pub fn insert(&mut self, key: String, record: TrackRecord)
        ensures
            final(self)@ == old(self)@.insert(key@, record@),
    {
        track_map_insert(&mut self.map, key, record);
    }

    /// Reads the track a selection event names, without removing it.
    /// An absent key — expired by a sweep, or never issued — is a
    /// stale reference.
    pub fn select(&self, key: &String) -> (r: Result<TrackRecord, Error>)
        ensures
            self@.contains_key(key@) ==> (r matches Ok(t) && t@ == self@[key@]),
            !self@.contains_key(key@) ==> r == Result::<TrackRecord, Error>::Err(
                Error::StaleReference,
            ),
    {
        match track_map_get(&self.map, key) {
            Some(t) => Ok(t),
            None => Err(Error::StaleReference),
        }
    }

    /// The coarse eviction sweep: clears the whole map.
    pub fn sweep(&mut self)
        ensures
            final(self)@ == no_results(),
    {
        track_map_clear(&mut self.map);
    }
}

/// Deduplication by key, first occurrence wins: a result is kept
/// exactly when no earlier result carries the same key.
pub open spec fn dedup_spec(s: Seq<KeyedTrackModel>) -> Seq<KeyedTrackModel>
    decreases s.len(),
{
    if s.len() == 0 {
        Seq::<KeyedTrackModel>::empty()
    } else if keys_of(s.drop_last()).contains(s.last().key) {
        dedup_spec(s.drop_last())
    } else {
        dedup_spec(s.drop_last()).push(s.last())
    }
}

/// Position `i` holds the first occurrence of its key.
pub open spec fn is_first_occurrence(s: Seq<KeyedTrackModel>, i: int) -> bool {
    0 <= i < s.len() && forall|j: int| 0 <= j < i ==> s[j].key != s[i].key
}

/// Drops every result whose key already appeared on an earlier result,
/// keeping order; the returned list realises `dedup_spec`.
pub fn dedup_first_wins(items: &Vec<KeyedTrack>) -> (r: Vec<KeyedTrack>)
    ensures
        models_of(r@) == dedup_spec(models_of(items@)),
{
    let mut out: Vec<KeyedTrack> = Vec::new();
    let mut seen: Vec<String> = Vec::new();
    let n = items.len();
    let mut i: usize = 0;
    while i < n
        invariant
            i <= n,
            n == items@.len(),
            models_of(out@) == dedup_spec(models_of(items@.take(i as int))),
            seen.deep_view() == keys_of(models_of(items@.take(i as int))),
        decreases n - i,
    {
        let ghost prefix = models_of(items@.take(i as int));
        let ghost extended = models_of(items@.take(i + 1));
        proof {
            assert(extended.drop_last() =~= prefix);
            assert(extended.last() == items@[i as int]@);
        }
        let item = &items[i];
        if !contains_string(&seen, &item.key) {
            out.push(item.duplicate());
            proof {
                assert(models_of(out@) =~= dedup_spec(extended));
            }
        }
        let ghost seen_before = seen.deep_view();
        seen.push(item.key.clone());
        proof {
            assert(seen.deep_view() =~= seen_before.push(items@[i as int]@.key));
            assert(keys_of(extended) =~= seen_before.push(items@[i as int]@.key));
        }
        i = i + 1;
    }
    proof {
        assert(items@.take(n as int) =~= items@);
    }
    out
}

/// In a sequence extended by one element, a value occurs exactly when
/// it occurred before or is the new element.
proof fn lemma_push_contains<A>(s: Seq<A>, x: A, k: A)
    ensures
        s.push(x).contains(k) <==> (s.contains(k) || k == x),
{
    if s.contains(k) {
        let w = choose|w: int| 0 <= w < s.len() && s[w] == k;
        assert(s.push(x)[w] == k);
    }
    if k == x {
        assert(s.push(x)[s.len() as int] == k);
    }
    if s.push(x).contains(k) {
        let w = choose|w: int| 0 <= w < s.push(x).len() && s.push(x)[w] == k;
        if w < s.len() {
            assert(s[w] == k);
        }
    }
}

/// Law: among search results whose keys collide, exactly one is
/// retained — the first seen.  The kept keys are free of duplicates,
/// no key is lost, and every kept result is the one standing at the
/// first occurrence of its key.
#[verifier::rlimit(100)]
pub proof fn lemma_dedup_first_wins(s: Seq<KeyedTrackModel>)
    ensures
        keys_of(dedup_spec(s)).no_duplicates(),
        forall|k: Seq<char>|
            #[trigger] keys_of(dedup_spec(s)).contains(k) <==> keys_of(s).contains(k),
        forall|i: int|
            0 <= i < dedup_spec(s).len() ==> exists|j: int|
                is_first_occurrence(s, j) && s[j] == #[trigger] dedup_spec(s)[i],
    decreases s.len(),
{
    if s.len() > 0 {
        let t = s.drop_last();
        let x = s.last();
        let d = dedup_spec(s);
        let dt = dedup_spec(t);
        lemma_dedup_first_wins(t);
        assert(keys_of(s) =~= keys_of(t).push(x.key));
        let dropped = keys_of(t).contains(x.key);
        if dropped {
            assert(d == dt);
        } else {
            assert(d == dt.push(x));
            assert(keys_of(d) =~= keys_of(dt).push(x.key));
            assert(!keys_of(dt).contains(x.key));
        }
        assert forall|k: Seq<char>| #[trigger] keys_of(d).contains(k) <==> keys_of(s).contains(
            k,
        ) by {
            lemma_push_contains(keys_of(t), x.key, k);
            if !dropped {
                lemma_push_contains(keys_of(dt), x.key, k);
            }
        }
        if !dropped {
            assert forall|a: int, b: int|
                0 <= a < keys_of(d).len() && 0 <= b < keys_of(d).len() && a
                    != b implies keys_of(d)[a] != keys_of(d)[b] by {
                if a < keys_of(dt).len() && b < keys_of(dt).len() {
                    assert(keys_of(d)[a] == keys_of(dt)[a]);
                    assert(keys_of(d)[b] == keys_of(dt)[b]);
                } else if a < keys_of(dt).len() {
                    assert(keys_of(d)[b] == x.key);
                    if keys_of(dt)[a] == x.key {
                        assert(keys_of(dt).contains(x.key));
                    }
                } else {
                    assert(keys_of(d)[a] == x.key);
                    if keys_of(dt)[b] == x.key {
                        assert(keys_of(dt).contains(x.key));
                    }
                }
            }
            assert(keys_of(d).no_duplicates());
        }
        assert forall|j: int| is_first_occurrence(t, j) implies is_first_occurrence(s, j) by {
            assert forall|w: int| 0 <= w < j implies s[w].key != s[j].key by {
                assert(s[w] == t[w]);
                assert(s[j] == t[j]);
            }
        }
        assert forall|i: int| 0 <= i < d.len() implies exists|j: int|
            is_first_occurrence(s, j) && s[j] == #[trigger] d[i] by {
            if i < dt.len() {
                assert(d[i] == dt[i]);
                let j = choose|j: int| is_first_occurrence(t, j) && t[j] == #[trigger] dedup_spec(
                    t,
                )[i];
                assert(is_first_occurrence(s, j));
                assert(s[j] == t[j]);
            } else {
                let j = s.len() - 1;
                assert(d[i] == x);
                assert forall|w: int| 0 <= w < j implies s[w].key != s[j].key by {
                    assert(s[w] == t[w]);
                    if t[w].key == x.key {
                        assert(keys_of(t)[w] == t[w].key);
                        assert(keys_of(t).contains(x.key));
                    }
                }
                assert(is_first_occurrence(s, j) && s[j] == d[i]);
            }
        }
    }
}

/// The map after storing every entry of `s` in order: a later entry
/// with the same key overwrites an earlier one.
pub open spec fn with_entries(
    m: Map<Seq<char>, TrackModel>,
    s: Seq<KeyedTrackModel>,
) -> Map<Seq<char>, TrackModel>
    decreases s.len(),
{
    if s.len() == 0 {
        m
    } else {
        with_entries(m, s.drop_last()).insert(s.last().key, s.last().record)
    }
}

/// Stores every result of the list in the cache under its key.
pub fn store_results(cache: &mut SearchResultCache, results: &Vec<KeyedTrack>)
    ensures
        final(cache)@ == with_entries(old(cache)@, models_of(results@)),
{
    let n = results.len();
    let mut i: usize = 0;
    while i < n
        invariant
            i <= n,
            n == results@.len(),
            cache@ == with_entries(old(cache)@, models_of(results@.take(i as int))),
        decreases n - i,
    {
        let ghost prefix = models_of(results@.take(i as int));
        let ghost extended = models_of(results@.take(i + 1));
        proof {
            assert(extended.drop_last() =~= prefix);
            assert(extended.last() == results@[i as int]@);
        }
        let item = &results[i];
        cache.insert(item.key.clone(), item.record.duplicate());
        i = i + 1;
    }
    proof {
        assert(results@.take(n as int) =~= results@);
    }
}

/// The search path in one step: deduplicates the keyed results (first
/// occurrence wins), stores every survivor in the cache, and returns
/// the survivors as the list to answer with.
pub fn build_search_results(cache: &mut SearchResultCache, items: &Vec<KeyedTrack>) -> (r: Vec<
    KeyedTrack,
>)
    ensures
        models_of(r@) == dedup_spec(models_of(items@)),
        final(cache)@ == with_entries(old(cache)@, dedup_spec(models_of(items@))),
{
    let kept = dedup_first_wins(items);
    store_results(cache, &kept);
    kept
}

/// Keys each track by the digest prefix of its canonical URL: the
/// aggregator's scheme, where ids must fit the transport's limit.
pub fn keyed_by_digest(tracks: &Vec<TrackRecord>) -> (r: Vec<KeyedTrack>)
    ensures
        r@.len() == tracks@.len(),
        forall|i: int|
            0 <= i < tracks@.len() ==> models_of(r@)[i] == (KeyedTrackModel {
                key: search_key_spec(tracks@[i]@.reference.url),
                record: tracks@[i]@,
            }),
{
    let n = tracks.len();
    let mut out: Vec<KeyedTrack> = Vec::new();
    let mut i: usize = 0;
    while i < n
        invariant
            i <= n,
            n == tracks@.len(),
            out@.len() == i,
            forall|t: int|
                0 <= t < i ==> models_of(out@)[t] == (KeyedTrackModel {
                    key: search_key_spec(tracks@[t]@.reference.url),
                    record: tracks@[t]@,
                }),
        decreases n - i,
    {
        let track = &tracks[i];
        let key = search_cache_key(track.reference.url.as_str());
        let ghost out_before = out@;
        out.push(KeyedTrack { key, record: track.duplicate() });
        proof {
            assert forall|t: int| 0 <= t < i + 1 implies models_of(out@)[t] == (KeyedTrackModel {
                key: search_key_spec(tracks@[t]@.reference.url),
                record: tracks@[t]@,
            }) by {
                if t < i {
                    assert(out@[t] == out_before[t]);
                    assert(models_of(out_before)[t] == out_before[t]@);
                }
            }
        }
        i = i + 1;
    }
    out
}

/// Keys each track by its provider-specific id: the module-based
/// services' scheme, whose ids are already compact.
pub fn keyed_by_id(tracks: &Vec<TrackRecord>) -> (r: Vec<KeyedTrack>)
    ensures
        r@.len() == tracks@.len(),
        forall|i: int|
            0 <= i < tracks@.len() ==> models_of(r@)[i] == (KeyedTrackModel {
                key: tracks@[i]@.reference.id,
                record: tracks@[i]@,
            }),
{
    let n = tracks.len();
    let mut out: Vec<KeyedTrack> = Vec::new();
    let mut i: usize = 0;
    while i < n
        invariant
            i <= n,
            n == tracks@.len(),
            out@.len() == i,
            forall|t: int|
                0 <= t < i ==> models_of(out@)[t] == (KeyedTrackModel {
                    key: tracks@[t]@.reference.id,
                    record: tracks@[t]@,
                }),
        decreases n - i,
    {
        let track = &tracks[i];
        let key = track.reference.id.clone();
        let ghost out_before = out@;
        out.push(KeyedTrack { key, record: track.duplicate() });
        proof {
            assert forall|t: int| 0 <= t < i + 1 implies models_of(out@)[t] == (KeyedTrackModel {
                key: tracks@[t]@.reference.id,
                record: tracks@[t]@,
            }) by {
                if t < i {
                    assert(out@[t] == out_before[t]);
                    assert(models_of(out_before)[t] == out_before[t]@);
                }
            }
        }
        i = i + 1;
    }
    out
}

} // verus!
