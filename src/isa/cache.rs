//! The decode cache: a bounded LRU map from encodings to decode results, kept in
//! an `lru::LruCache`.
use crate::isa::decode::{spec_decode, Insn, InsnDecoder};
use lru::LruCache;
use vstd::prelude::*;

verus! {

/// An `lru::LruCache` from encodings to decode results. Verus cannot take the
/// cache type itself (its default hasher comes from another crate), so it is held
/// here, opaque, and reached only through the functions below.
#[verifier::external_body]
pub struct DecodeCache {
    lru: LruCache<u32, Option<Insn>>,
}

/// The entries an LRU cache of decode results holds.
pub uninterp spec fn cache_contents(c: DecodeCache) -> Map<u32, Option<Insn>>;

/// The capacity an LRU cache of decode results was made with.
pub uninterp spec fn cache_cap(c: DecodeCache) -> nat;

/// Relies on `lru::LruCache::new`: an empty cache that holds at most `cap` entries.
#[verifier::external_body]
fn cache_new(cap: usize) -> (r: DecodeCache)
    ensures
        cache_contents(r).dom().is_empty(),
        cache_cap(r) == cap,
{
    DecodeCache { lru: LruCache::new(cap) }
}

/// Relies on `lru::LruCache::get`: the value cached under `k`, if any; the call
/// only moves `k` to the front of the recency order, so the entries stay the same.
#[verifier::external_body]
fn cache_get(c: &mut DecodeCache, k: u32) -> (r: Option<Option<Insn>>)
    ensures
        r == (if cache_contents(*old(c)).contains_key(k) {
            Some(cache_contents(*old(c))[k])
        } else {
            None
        }),
        cache_contents(*final(c)) == cache_contents(*old(c)),
        cache_cap(*final(c)) == cache_cap(*old(c)),
{
    c.lru.get(&k).copied()
}

/// Relies on `lru::LruCache::put`: with a nonzero capacity `k` maps to `v`
/// afterwards; any other entry afterwards was there before with the same value
/// (a full cache drops its least recently used entry).
#[verifier::external_body]
fn cache_put(c: &mut DecodeCache, k: u32, v: Option<Insn>)
    ensures
        cache_cap(*final(c)) == cache_cap(*old(c)),
        cache_cap(*old(c)) > 0 ==> cache_contents(*final(c)).contains_key(k)
            && cache_contents(*final(c))[k] == v,
        forall|j: u32|
            j != k && #[trigger] cache_contents(*final(c)).contains_key(j) ==> cache_contents(
                *old(c),
            ).contains_key(j) && cache_contents(*final(c))[j] == cache_contents(*old(c))[j],
{
    c.lru.put(k, v);
}

/// The number of decode results the cache keeps.
pub const CACHE_CAPACITY: usize = 127;

/// A decoder with a bounded LRU cache of its results in front of it, negative
/// results included.
pub struct InsnDecoderWithLru {
    inner: InsnDecoder,
    cache: DecodeCache,
}

impl InsnDecoderWithLru {
    /// The decoder is well formed and every cached result is the decode result of
    /// its key.
    pub closed spec fn wf(&self) -> bool {
        &&& self.inner.wf()
        &&& cache_cap(self.cache) == CACHE_CAPACITY
        &&& forall|k: u32| #[trigger]
            cache_contents(self.cache).contains_key(k) ==> cache_contents(self.cache)[k]
                == spec_decode(k)
    }

    /// An empty cache in front of `insn_decoder`.
    pub fn new(insn_decoder: InsnDecoder) -> (r: InsnDecoderWithLru)
        requires
            insn_decoder.wf(),
        ensures
            r.wf(),
    {
        InsnDecoderWithLru { inner: insn_decoder, cache: cache_new(CACHE_CAPACITY) }
    }

    /// Decodes `code`, from the cache where it is there.
    pub fn decode(&mut self, code: u32) -> (r: Option<Insn>)
        requires
            old(self).wf(),
        ensures
            final(self).wf(),
            r == spec_decode(code),
    {
        match cache_get(&mut self.cache, code) {
            Some(insn) => insn,
            None => {
                let insn = self.inner.decode(code);
                cache_put(&mut self.cache, code, insn);
                insn
            },
        }
    }
}

} // verus!
