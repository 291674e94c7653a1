//! Cursor state: the position and image cells' payloads, and the
//! content-addressed cache of encoded cursor bitmaps, keyed by checksum and
//! evicting in least-recently-used order.

use vstd::prelude::*;

verus! {

/// Where the cursor is and whether it is shown.
#[derive(Clone, Copy, Debug, PartialEq, Eq, Structural)]
pub struct CursorPosition {
    pub x: i32,
    pub y: i32,
    pub visible: bool,
}

/// One decoded cursor bitmap: its checksum, geometry, raw RGBA pixels and
/// transport-ready encoded form.
pub struct CursorImage {
    pub crc32: u32,
    pub width: u32,
    pub height: u32,
    pub raw: Vec<u8>,
    pub encoded: Vec<u8>,
}

/// Mathematical image of a [`CursorImage`].
pub ghost struct CursorImageView {
    pub crc32: u32,
    pub width: u32,
    pub height: u32,
    pub raw: Seq<u8>,
    pub encoded: Seq<u8>,
}

impl View for CursorImage {
    type V = CursorImageView;

    open spec fn view(&self) -> CursorImageView {
        CursorImageView {
            crc32: self.crc32,
            width: self.width,
            height: self.height,
            raw: self.raw@,
            encoded: self.encoded@,
        }
    }
}

impl Clone for CursorImage {
    fn clone(&self) -> (c: CursorImage)
        ensures
            c@ == self@,
    {
        let raw = self.raw.clone();
        let encoded = self.encoded.clone();
        proof {
            assert(raw@ =~= self.raw@);
            assert(encoded@ =~= self.encoded@);
        }
        CursorImage {
            crc32: self.crc32,
            width: self.width,
            height: self.height,
            raw,
            encoded,
        }
    }
}

impl CursorImage {
    /// Width of the bitmap in pixels.
    pub fn image_width(&self) -> (r: u32)
        ensures
            r == self.width,
    {
        self.width
    }

    /// Height of the bitmap in pixels.
    pub fn image_height(&self) -> (r: u32)
        ensures
            r == self.height,
    {
        self.height
    }
}

// ---------------------------------------------------------------------------
// The LRU store itself, from the `lru` crate, behind trusted items.
// ---------------------------------------------------------------------------

/// Declares `lru::DefaultHasher`, the hasher parameter the store defaults
/// to, so that the store type below can be named.
#[verifier::external_type_specification]
#[verifier::external_body]
pub struct ExLruDefaultHasher(lru::DefaultHasher);

/// Declares `lru::LruCache`, the bounded least-recently-used store the
/// cursor cache is built on.
#[verifier::external_type_specification]
#[verifier::external_body]
#[verifier::reject_recursive_types(K)]
#[verifier::reject_recursive_types(V)]
#[verifier::reject_recursive_types(S)]
pub struct ExLruCache<K, V, S>(lru::LruCache<K, V, S>);

/// What the store holds, as an association list from most- to
/// least-recently-used; each element pairs a checksum with the entry.
pub uninterp spec fn cache_state(c: &lru::LruCache<u32, CursorImage>) -> Seq<
    (u32, CursorImageView),
>;

/// The fixed bound the store was created with.
pub uninterp spec fn cache_cap(c: &lru::LruCache<u32, CursorImage>) -> nat;

/// No checksum occurs twice in the association list.
pub open spec fn no_dup_keys(s: Seq<(u32, CursorImageView)>) -> bool {
    forall|i: int, j: int| 0 <= i < j < s.len() ==> s[i].0 != s[j].0
}

/// The entry stored under `k`, if any.
pub open spec fn assoc_find(s: Seq<(u32, CursorImageView)>, k: u32) -> Option<CursorImageView>
    decreases s.len(),
{
    if s.len() == 0 {
        None
    } else if s[0].0 == k {
        Some(s[0].1)
    } else {
        assoc_find(s.drop_first(), k)
    }
}

/// The association list without any entry keyed `k`.
pub open spec fn remove_key(s: Seq<(u32, CursorImageView)>, k: u32) -> Seq<(u32, CursorImageView)>
    decreases s.len(),
{
    if s.len() == 0 {
        s
    } else if s[0].0 == k {
        remove_key(s.drop_first(), k)
    } else {
        seq![s[0]] + remove_key(s.drop_first(), k)
    }
}

/// Relies on `lru::LruCache::new`: a fresh store with the given bound and
/// nothing resident.
#[verifier::external_body]
fn cache_new(cap: usize) -> (c: lru::LruCache<u32, CursorImage>)
    requires
        cap >= 1,
    ensures
        cache_state(&c) == Seq::<(u32, CursorImageView)>::empty(),
        cache_cap(&c) == cap,
{
    lru::LruCache::new(std::num::NonZeroUsize::new(cap).unwrap())
}

/// Relies on `lru::LruCache::get`: a hit hands back the resident entry and
/// marks it most recently used; a miss changes nothing.
#[verifier::external_body]
fn cache_get(c: &mut lru::LruCache<u32, CursorImage>, k: u32) -> (r: Option<CursorImage>)
    ensures
        cache_cap(final(c)) == cache_cap(old(c)),
        cache_state(final(c)).len() <= cache_cap(final(c)),
        no_dup_keys(cache_state(final(c))),
        match r {
            Some(v) => {
                &&& assoc_find(cache_state(old(c)), k) == Some(v@)
                &&& cache_state(final(c)) == seq![(k, v@)] + remove_key(cache_state(old(c)), k)
            },
            None => {
                &&& assoc_find(cache_state(old(c)), k) == None::<CursorImageView>
                &&& cache_state(final(c)) == cache_state(old(c))
            },
        },
{
    c.get(&k).cloned()
}

/// Relies on `lru::LruCache::put`: inserts or refreshes the entry at the
/// most-recently-used end, evicting the least-recently-used entry when a
/// new key arrives at capacity.
#[verifier::external_body]
fn cache_put(c: &mut lru::LruCache<u32, CursorImage>, k: u32, v: CursorImage)
    ensures
        cache_cap(final(c)) == cache_cap(old(c)),
        cache_state(final(c)).len() <= cache_cap(final(c)),
        no_dup_keys(cache_state(final(c))),
        cache_state(final(c)) == if assoc_find(cache_state(old(c)), k) is Some {
            seq![(k, v@)] + remove_key(cache_state(old(c)), k)
        } else if cache_state(old(c)).len() < cache_cap(old(c)) {
            seq![(k, v@)] + cache_state(old(c))
        } else {
            seq![(k, v@)] + cache_state(old(c)).drop_last()
        },
{
    let _ = c.put(k, v);
}

} // verus!

verus! {

// ---------------------------------------------------------------------------
// Checksum and encoded form.
// ---------------------------------------------------------------------------

/// The CRC-32 checksum of the bytes, as `crc32fast` computes it.
pub uninterp spec fn crc32_of(data: Seq<u8>) -> u32;

/// The PNG encoding of an RGBA bitmap of the given geometry.
pub uninterp spec fn png_of(width: u32, height: u32, rgba: Seq<u8>) -> Seq<u8>;

/// Relies on `crc32fast::hash`: the CRC-32 (IEEE) checksum, a function of
/// the bytes alone.
#[verifier::external_body]
fn crc32_hash(data: &[u8]) -> (r: u32)
    ensures
        r == crc32_of(data@),
{
    crc32fast::hash(data)
}

/// The checksum that keys the cursor cache.
pub fn checksum(data: &[u8]) -> (r: u32)
    ensures
        r == crc32_of(data@),
{
    crc32_hash(data)
}

/// Relies on `image::ImageBuffer::from_raw` and `write_to`: the PNG form of
/// an RGBA bitmap, a function of geometry and pixels alone. With the
/// buffer exactly sized, the encoder rejects only a zero width or height.
#[verifier::external_body]
fn encode_png(width: u32, height: u32, rgba: &Vec<u8>) -> (r: Option<Vec<u8>>)
    requires
        rgba@.len() == 4 * width * height,
    ensures
        r is Some ==> r->0@ == png_of(width, height, rgba@),
        width >= 1 && height >= 1 ==> r is Some,
{
    let buffer = match image::ImageBuffer::<image::Rgba<u8>, &[u8]>::from_raw(
        width,
        height,
        rgba.as_slice(),
    ) {
        Some(b) => b,
        None => {
            return None;
        },
    };
    let mut out = std::io::Cursor::new(Vec::new());
    match buffer.write_to(&mut out, image::ImageOutputFormat::Png) {
        Ok(()) => Some(out.into_inner()),
        Err(_) => None,
    }
}

/// A BGRA pixel run with its blue and red channels exchanged in every
/// four-byte pixel.
pub open spec fn spec_bgra_to_rgba(s: Seq<u8>) -> Seq<u8> {
    Seq::new(
        s.len(),
        |i: int|
            if i % 4 == 0 {
                s[i + 2]
            } else if i % 4 == 2 {
                s[i - 2]
            } else {
                s[i]
            },
    )
}

/// Exchanges the blue and red channels of every BGRA pixel in place.
pub fn bgra_to_rgba(data: &mut Vec<u8>)
    requires
        old(data)@.len() % 4 == 0,
    ensures
        final(data)@ == spec_bgra_to_rgba(old(data)@),
{
    let n = data.len();
    let mut i: usize = 0;
    while i < n
        invariant
            data@.len() == n,
            n == old(data)@.len(),
            n % 4 == 0,
            i % 4 == 0,
            i <= n,
            forall|j: int| 0 <= j < i ==> data@[j] == spec_bgra_to_rgba(old(data)@)[j],
            forall|j: int| i <= j < n ==> data@[j] == old(data)@[j],
        decreases n - i,
    {
        proof {
            assert((n - i) % 4 == 0);
            assert(n - i >= 4);
        }
        let b = data[i];
        let r = data[i + 2];
        data[i] = r;
        data[i + 2] = b;
        i = i + 4;
    }
    proof {
        assert(data@ =~= spec_bgra_to_rgba(old(data)@));
    }
}

// ---------------------------------------------------------------------------
// The content-addressed cursor cache.
// ---------------------------------------------------------------------------

/// Why a cursor image could not be produced.
#[derive(Clone, Copy, Debug, PartialEq, Eq, Structural)]
pub enum CursorError {
    /// The bitmap could not be encoded into its transport form.
    EncodeFailed,
}

/// Fixed-capacity store of decoded cursor bitmaps, keyed by checksum, with
/// pure least-recently-used eviction.
pub struct CursorCache {
    inner: lru::LruCache<u32, CursorImage>,
}

impl CursorCache {
    /// Resident entries, most recently used first.
    pub closed spec fn state(&self) -> Seq<(u32, CursorImageView)> {
        cache_state(&self.inner)
    }

    /// The fixed bound on resident entries.
    pub closed spec fn capacity(&self) -> nat {
        cache_cap(&self.inner)
    }

    /// An empty cache bounded by `cap` entries.
    pub fn new(cap: usize) -> (c: CursorCache)
        requires
            cap >= 1,
        ensures
            c.state() == Seq::<(u32, CursorImageView)>::empty(),
            c.capacity() == cap,
    {
        CursorCache { inner: cache_new(cap) }
    }

    /// The entry resident under `checksum`, marked most recently used —
    /// or nothing on a miss, which changes nothing.
    pub fn lookup(&mut self, checksum: u32) -> (r: Option<CursorImage>)
        ensures
            final(self).capacity() == old(self).capacity(),
            match r {
                Some(v) => {
                    &&& assoc_find(old(self).state(), checksum) == Some(v@)
                    &&& final(self).state() == seq![(checksum, v@)] + remove_key(
                        old(self).state(),
                        checksum,
                    )
                },
                None => {
                    &&& assoc_find(old(self).state(), checksum) == None::<CursorImageView>
                    &&& final(self).state() == old(self).state()
                },
            },
    {
        cache_get(&mut self.inner, checksum)
    }

    /// The entry cached under `checksum` — marked most recently used — or,
    /// on a miss, the entry freshly built by encoding the RGBA bitmap,
    /// inserted while the least-recently-used entry makes room if the cache
    /// is full. A resident checksum is answered from the cache alone, so
    /// repeated calls return bit-identical encoded bytes; only an empty
    /// geometry can fail to encode.
    pub fn get_or_insert(&mut self, checksum: u32, width: u32, height: u32, raw: Vec<u8>) -> (r:
        Result<CursorImage, CursorError>)
        requires
            raw@.len() == 4 * width * height,
        ensures
            width >= 1 && height >= 1 ==> r is Ok,
            final(self).capacity() == old(self).capacity(),
            final(self).state().len() <= final(self).capacity(),
            no_dup_keys(final(self).state()),
            match r {
                Ok(img) => {
                    &&& match assoc_find(old(self).state(), checksum) {
                        Some(entry) => {
                            &&& img@ == entry
                            &&& final(self).state() == seq![(checksum, entry)] + remove_key(
                                old(self).state(),
                                checksum,
                            )
                        },
                        None => {
                            &&& img@ == (CursorImageView {
                                crc32: checksum,
                                width,
                                height,
                                raw: raw@,
                                encoded: png_of(width, height, raw@),
                            })
                            &&& final(self).state() == if old(self).state().len() < old(
                                self,
                            ).capacity() {
                                seq![(checksum, img@)] + old(self).state()
                            } else {
                                seq![(checksum, img@)] + old(self).state().drop_last()
                            }
                        },
                    }
                    &&& assoc_find(final(self).state(), checksum) == Some(img@)
                },
                Err(_) => {
                    &&& assoc_find(old(self).state(), checksum) == None::<CursorImageView>
                    &&& final(self).state() == old(self).state()
                },
            },
    {
        if let Some(hit) = cache_get(&mut self.inner, checksum) {
            return Ok(hit);
        }
        let encoded = match encode_png(width, height, &raw) {
            Some(e) => e,
            None => {
                return Err(CursorError::EncodeFailed);
            },
        };
        let img = CursorImage { crc32: checksum, width, height, raw, encoded };
        let stored = img.clone();
        cache_put(&mut self.inner, checksum, stored);
        Ok(img)
    }
}

// ---------------------------------------------------------------------------
// Facts about the association model.
// ---------------------------------------------------------------------------

/// A key that appears at position `i` is found.
pub proof fn lemma_assoc_find_present(s: Seq<(u32, CursorImageView)>, i: int)
    requires
        0 <= i < s.len(),
    ensures
        assoc_find(s, s[i].0) is Some,
    decreases s.len(),
{
    if s[0].0 == s[i].0 {
    } else {
        lemma_assoc_find_present(s.drop_first(), i - 1);
    }
}

/// A key that appears at no position is missed.
pub proof fn lemma_assoc_find_absent(s: Seq<(u32, CursorImageView)>, k: u32)
    requires
        forall|i: int| 0 <= i < s.len() ==> s[i].0 != k,
    ensures
        assoc_find(s, k) == None::<CursorImageView>,
    decreases s.len(),
{
    if s.len() > 0 {
        lemma_assoc_find_absent(s.drop_first(), k);
    }
}

/// Pure LRU eviction: when a new checksum enters a full cache, the entry at
/// the least-recently-used end is the one evicted, and a subsequent lookup
/// of its checksum misses.
pub proof fn lemma_lru_eviction(s: Seq<(u32, CursorImageView)>, k: u32, v: CursorImageView)
    requires
        no_dup_keys(s),
        s.len() >= 1,
        assoc_find(s, k) == None::<CursorImageView>,
    ensures
        s.last().0 != k,
        assoc_find(seq![(k, v)] + s.drop_last(), s.last().0) == None::<CursorImageView>,
{
    let evicted = s.last().0;
    lemma_assoc_find_present(s, s.len() - 1);
    assert(s.last().0 != k);
    let after = seq![(k, v)] + s.drop_last();
    assert forall|i: int| 0 <= i < s.drop_last().len() implies #[trigger] s.drop_last()[i].0
        != evicted by {
        assert(s.drop_last()[i] == s[i]);
    }
    lemma_assoc_find_absent(s.drop_last(), evicted);
    assert(after.drop_first() =~= s.drop_last());
    assert(assoc_find(after, evicted) == assoc_find(s.drop_last(), evicted));
}

} // verus!
