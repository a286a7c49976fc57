use vstd::prelude::*;
use std::sync::Arc;

verus! {

/// Largest number of entries the cache may hold after any insertion
/// completes.
pub const CACHE_CAPACITY: usize = 10;

/// A raw pixel buffer as the rasterization collaborator hands it back.
#[derive(Debug)]
pub struct RawImage {
    pub width: u32,
    pub height: u32,
    pub pixels: Vec<u8>,
}

/// Failure of the rasterization collaborator for one page/zoom request.
#[derive(Debug)]
pub struct RenderFailed {
    pub reason: String,
}

/// The page-rasterization capability the cache consumes. Implementations
/// are expected to be idempotent for identical inputs: the same page and
/// zoom may be requested again after an eviction.
pub trait Renderer {
    /// Rasterize one page at the given zoom factor (in hundredths).
    fn render(&mut self, page_index: usize, zoom: u32) -> Result<RawImage, RenderFailed>;
}

/// A shared handle to one decoded page image. Handing a handle out does
/// not copy the pixel data, and a handle stays valid after its cache
/// entry is evicted: the pixels are shared, reference-counted.
#[derive(Debug)]
pub struct ImageHandle {
    pub width: u32,
    pub height: u32,
    pub pixels: Arc<Vec<u8>>,
}

/// Relies on `std::sync::Arc::clone`: the clone is a second owner of the
/// same allocation, so it carries the same value.
#[verifier::external_body]
fn share_pixels(p: &Arc<Vec<u8>>) -> (r: Arc<Vec<u8>>)
    ensures
        r == *p,
{
    Arc::clone(p)
}

impl ImageHandle {
    /// Wrap a raw pixel buffer into a shared handle.
    pub fn new(img: RawImage) -> (h: ImageHandle)
        ensures
            h.width == img.width,
            h.height == img.height,
            h.pixels@ == img.pixels@,
    {
        ImageHandle { width: img.width, height: img.height, pixels: Arc::new(img.pixels) }
    }
}

impl Clone for ImageHandle {
    /// A cheap copy: the pixel buffer is shared, not duplicated.
    fn clone(&self) -> (r: Self)
        ensures
            r == *self,
    {
        ImageHandle { width: self.width, height: self.height, pixels: share_pixels(&self.pixels) }
    }
}

/// One cache entry: a page index, the quantized zoom it was rendered at,
/// and the shared handle to the rendered image.
#[derive(Debug)]
pub struct CacheEntry {
    pub page: usize,
    pub zoom_bucket: u32,
    pub handle: ImageHandle,
}

/// Whether an entry carries the given key.
pub open spec fn entry_matches(e: CacheEntry, page: usize, zoom_bucket: u32) -> bool {
    e.page == page && e.zoom_bucket == zoom_bucket
}

/// Whether some entry carries the given key.
pub open spec fn has_key(s: Seq<CacheEntry>, page: usize, zoom_bucket: u32) -> bool {
    exists|i: int| 0 <= i < s.len() && entry_matches(s[i], page, zoom_bucket)
}

/// The position of the entry with the given key (unique when the keys are
/// distinct).
pub open spec fn key_index(s: Seq<CacheEntry>, page: usize, zoom_bucket: u32) -> int {
    choose|i: int| 0 <= i < s.len() && entry_matches(s[i], page, zoom_bucket)
}

/// The handle stored under the given key.
pub open spec fn cached_handle(s: Seq<CacheEntry>, page: usize, zoom_bucket: u32) -> ImageHandle {
    s[key_index(s, page, zoom_bucket)].handle
}

/// No two entries carry the same key.
pub open spec fn keys_distinct(s: Seq<CacheEntry>) -> bool {
    forall|i: int, j: int|
        0 <= i < j < s.len() ==> !(#[trigger] s[i].page == #[trigger] s[j].page
            && s[i].zoom_bucket == s[j].zoom_bucket)
}

/// The newest suffix of a sequence that fits the capacity.
pub open spec fn take_newest(s: Seq<CacheEntry>) -> Seq<CacheEntry> {
    if s.len() <= CACHE_CAPACITY {
        s
    } else {
        s.skip(s.len() - CACHE_CAPACITY)
    }
}

/// The cache contents after appending one entry and evicting the
/// oldest-inserted entries down to the capacity (FIFO eviction).
pub open spec fn insert_evict(s: Seq<CacheEntry>, e: CacheEntry) -> Seq<CacheEntry> {
    take_newest(s.push(e))
}

/// A bounded store of rendered page images, keyed by page index and
/// quantized zoom, in insertion order (oldest first). When an insertion
/// pushes the size above `CACHE_CAPACITY`, the oldest-inserted entries
/// are evicted until the size is back at the capacity.
#[derive(Debug)]
pub struct RenderCache {
    pub entries: Vec<CacheEntry>,
}

impl RenderCache {
    /// Validity: keys are distinct and the size is within the capacity.
    pub open spec fn wf(self) -> bool {
        &&& keys_distinct(self.entries@)
        &&& self.entries@.len() <= CACHE_CAPACITY
    }

    /// An empty cache.
    pub fn new() -> (c: RenderCache)
        ensures
            c.entries@ =~= Seq::<CacheEntry>::empty(),
            c.wf(),
    {
        RenderCache { entries: Vec::new() }
    }

    pub fn len(&self) -> (n: usize)
        ensures
            n == self.entries@.len(),
    {
        self.entries.len()
    }

    /// Look the key up without touching the renderer; a hit hands out a
    /// shared handle and leaves the cache as it is.
    pub fn lookup(&self, page_index: usize, zoom: u32) -> (r: Option<ImageHandle>)
        requires
            self.wf(),
        ensures
            match r {
                Some(h) => has_key(self.entries@, page_index, zoom) && h == cached_handle(
                    self.entries@,
                    page_index,
                    zoom,
                ),
                None => !has_key(self.entries@, page_index, zoom),
            },
    {
        let n = self.entries.len();
        let mut i: usize = 0;
        while i < n
            invariant
                n == self.entries@.len(),
                i <= n,
                self.wf(),
                forall|j: int| 0 <= j < i ==> !entry_matches(self.entries@[j], page_index, zoom),
            decreases n - i,
        {
            if self.entries[i].page == page_index && self.entries[i].zoom_bucket == zoom {
                proof {
                    lemma_key_index_is(self.entries@, page_index, zoom, i as int);
                }
                return Some(self.entries[i].handle.clone());
            }
            i = i + 1;
        }
        None
    }

    /// Return the cached image for `(page_index, zoom)` or render it.
    ///
    /// The zoom factor, already carried in hundredths, is itself the
    /// quantized bucket of the cache key. On a hit the cached handle is
    /// returned and neither the cache nor the renderer is touched. On a
    /// miss the renderer is consulted once: on success the new image is
    /// inserted under the key and the oldest-inserted entries are evicted
    /// down to the capacity; on failure the error is propagated and
    /// nothing is inserted.
    pub fn get_or_render<R: Renderer>(
        &mut self,
        page_index: usize,
        zoom: u32,
        renderer: &mut R,
    ) -> (r: Result<ImageHandle, RenderFailed>)
        requires
            old(self).wf(),
        ensures
            final(self).wf(),
            has_key(old(self).entries@, page_index, zoom) ==> {
                &&& *final(self) == *old(self)
                &&& *final(renderer) == *old(renderer)
                &&& r == Ok::<ImageHandle, RenderFailed>(
                    cached_handle(old(self).entries@, page_index, zoom),
                )
            },
            !has_key(old(self).entries@, page_index, zoom) ==> match r {
                Ok(h) => {
                    &&& final(self).entries@ == insert_evict(
                        old(self).entries@,
                        CacheEntry { page: page_index, zoom_bucket: zoom, handle: h },
                    )
                    &&& has_key(final(self).entries@, page_index, zoom)
                    &&& cached_handle(final(self).entries@, page_index, zoom) == h
                },
                Err(_) => *final(self) == *old(self),
            },
    {
        if let Some(h) = self.lookup(page_index, zoom) {
            return Ok(h);
        }
        match renderer.render(page_index, zoom) {
            Ok(img) => {
                let handle = ImageHandle::new(img);
                let entry = CacheEntry {
                    page: page_index,
                    zoom_bucket: zoom,
                    handle: handle.clone(),
                };
                let ghost pushed = old(self).entries@.push(entry);
                proof {
                    lemma_insert_evict_wf(old(self).entries@, entry);
                }
                self.entries.push(entry);
                while self.entries.len() > CACHE_CAPACITY
                    invariant
                        self.entries@.len() <= pushed.len(),
                        self.entries@ == pushed.skip(pushed.len() - self.entries@.len()),
                        self.entries@.len() >= CACHE_CAPACITY || self.entries@ == pushed,
                    decreases self.entries@.len(),
                {
                    self.entries.remove(0);
                    proof {
                        assert(self.entries@ =~= pushed.skip(
                            pushed.len() - self.entries@.len(),
                        ));
                    }
                }
                proof {
                    assert(self.entries@ =~= insert_evict(old(self).entries@, entry));
                }
                Ok(handle)
            },
            Err(e) => Err(e),
        }
    }

    /// Drop every entry; used when the underlying document content
    /// changes.
    pub fn invalidate_all(&mut self)
        ensures
            final(self).entries@ =~= Seq::<CacheEntry>::empty(),
            final(self).wf(),
    {
        self.entries.clear();
    }
}

/// With distinct keys, an entry that matches a key stands at the one
/// position `key_index` names, so `cached_handle` is its handle.
pub proof fn lemma_key_index_is(s: Seq<CacheEntry>, page: usize, zoom_bucket: u32, i: int)
    requires
        keys_distinct(s),
        0 <= i < s.len(),
        entry_matches(s[i], page, zoom_bucket),
    ensures
        has_key(s, page, zoom_bucket),
        key_index(s, page, zoom_bucket) == i,
        cached_handle(s, page, zoom_bucket) == s[i].handle,
{
    assert(has_key(s, page, zoom_bucket));
    let k = key_index(s, page, zoom_bucket);
    assert(0 <= k < s.len() && entry_matches(s[k], page, zoom_bucket));
    if k < i {
        assert(!(s[k].page == s[i].page && s[k].zoom_bucket == s[i].zoom_bucket));
    } else if i < k {
        assert(!(s[i].page == s[k].page && s[i].zoom_bucket == s[k].zoom_bucket));
    }
}

/// Inserting a fresh key into a valid cache keeps the keys distinct,
/// keeps the size within the capacity, and leaves the new entry present
/// as the newest one.
pub proof fn lemma_insert_evict_wf(s: Seq<CacheEntry>, e: CacheEntry)
    requires
        keys_distinct(s),
        s.len() <= CACHE_CAPACITY,
        !has_key(s, e.page, e.zoom_bucket),
    ensures
        keys_distinct(insert_evict(s, e)),
        insert_evict(s, e).len() <= CACHE_CAPACITY,
        insert_evict(s, e).len() == if s.len() < CACHE_CAPACITY {
            s.len() + 1
        } else {
            CACHE_CAPACITY as nat
        },
        has_key(insert_evict(s, e), e.page, e.zoom_bucket),
        cached_handle(insert_evict(s, e), e.page, e.zoom_bucket) == e.handle,
{
    let pushed = s.push(e);
    assert forall|i: int| 0 <= i < s.len() implies !entry_matches(s[i], e.page, e.zoom_bucket) by {
        if entry_matches(s[i], e.page, e.zoom_bucket) {
            assert(has_key(s, e.page, e.zoom_bucket));
        }
    }
    assert(keys_distinct(pushed));
    let out = insert_evict(s, e);
    let d = pushed.len() - out.len();
    assert(out =~= pushed.skip(d));
    assert forall|i: int, j: int| 0 <= i < j < out.len() implies !(#[trigger] out[i].page
        == #[trigger] out[j].page && out[i].zoom_bucket == out[j].zoom_bucket) by {
        assert(out[i] == pushed[d + i]);
        assert(out[j] == pushed[d + j]);
    }
    assert(out[out.len() - 1] == pushed[pushed.len() - 1]);
    lemma_key_index_is(out, e.page, e.zoom_bucket, out.len() - 1);
}

/// The cache contents after inserting a whole sequence of entries, one at
/// a time, each insertion followed by FIFO eviction.
pub open spec fn insert_all(s: Seq<CacheEntry>, es: Seq<CacheEntry>) -> Seq<CacheEntry>
    decreases es.len(),
{
    if es.len() == 0 {
        s
    } else {
        insert_all(insert_evict(s, es[0]), es.skip(1))
    }
}

/// Keeping only the newest entries commutes with appending more: the
/// entries evicted early are exactly those that would have been evicted
/// late.
proof fn lemma_take_newest_append(t: Seq<CacheEntry>, u: Seq<CacheEntry>)
    ensures
        take_newest(take_newest(t) + u) =~= take_newest(t + u),
{
    if t.len() <= CACHE_CAPACITY {
        assert(take_newest(t) + u =~= t + u);
    } else {
        let d = t.len() - CACHE_CAPACITY;
        assert(take_newest(t) =~= t.skip(d));
        assert forall|i: int|
            0 <= i < take_newest(take_newest(t) + u).len() implies take_newest(
            take_newest(t) + u,
        )[i] == take_newest(t + u)[i] by {
        }
    }
}

/// Law: inserting any sequence of entries one at a time into a cache that
/// is within capacity leaves exactly the newest entries of the combined
/// history, in insertion order.
pub proof fn lemma_insert_all_is_newest(s: Seq<CacheEntry>, es: Seq<CacheEntry>)
    requires
        s.len() <= CACHE_CAPACITY,
    ensures
        insert_all(s, es) =~= take_newest(s + es),
    decreases es.len(),
{
    if es.len() == 0 {
        assert(s + es =~= s);
    } else {
        let first = insert_evict(s, es[0]);
        assert(first =~= take_newest(s.push(es[0])));
        lemma_insert_all_is_newest(first, es.skip(1));
        lemma_take_newest_append(s.push(es[0]), es.skip(1));
        assert(s.push(es[0]) + es.skip(1) =~= s + es);
    }
}

/// Law: after inserting `N` entries one at a time into an empty cache,
/// the cache holds exactly the `min(N, CACHE_CAPACITY)` most recently
/// inserted entries, in insertion order; with `N > CACHE_CAPACITY` that
/// is the newest `CACHE_CAPACITY` of them (FIFO eviction).
pub proof fn lemma_capacity_and_fifo(es: Seq<CacheEntry>)
    ensures
        es.len() <= CACHE_CAPACITY ==> insert_all(Seq::<CacheEntry>::empty(), es) =~= es,
        es.len() > CACHE_CAPACITY ==> insert_all(Seq::<CacheEntry>::empty(), es) =~= es.skip(
            es.len() - CACHE_CAPACITY,
        ),
{
    lemma_insert_all_is_newest(Seq::<CacheEntry>::empty(), es);
    assert(Seq::<CacheEntry>::empty() + es =~= es);
}

} // verus!
