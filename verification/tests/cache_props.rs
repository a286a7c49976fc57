use oxidize_pdf_editor::cache::{RawImage, RenderCache, RenderFailed, Renderer};

/// A deterministic fake renderer: the pixel bytes are a function of the
/// page and zoom, and every call is counted.
struct MockRenderer {
    calls: usize,
    fail: bool,
}

impl MockRenderer {
    fn new() -> MockRenderer {
        MockRenderer { calls: 0, fail: false }
    }

    fn failing() -> MockRenderer {
        MockRenderer { calls: 0, fail: true }
    }
}

impl Renderer for MockRenderer {
    fn render(&mut self, page_index: usize, zoom: u32) -> Result<RawImage, RenderFailed> {
        self.calls += 1;
        if self.fail {
            Err(RenderFailed { reason: format!("page {} unavailable", page_index) })
        } else {
            Ok(RawImage {
                width: (page_index as u32) + 1,
                height: zoom,
                pixels: vec![page_index as u8, (zoom % 251) as u8, 7],
            })
        }
    }
}

#[test]
fn cache_idempotent_renders_once() {
    let mut cache = RenderCache::new();
    let mut r = MockRenderer::new();
    let first = cache.get_or_render(2, 100, &mut r).unwrap();
    let second = cache.get_or_render(2, 100, &mut r).unwrap();
    assert_eq!(r.calls, 1);
    assert_eq!(first.width, second.width);
    assert_eq!(first.height, second.height);
    assert_eq!(*first.pixels, *second.pixels);
    assert_eq!(*first.pixels, vec![2u8, 100, 7]);
    assert_eq!(cache.len(), 1);
}

#[test]
fn distinct_zoom_buckets_are_distinct_slots() {
    let mut cache = RenderCache::new();
    let mut r = MockRenderer::new();
    cache.get_or_render(0, 100, &mut r).unwrap();
    cache.get_or_render(0, 125, &mut r).unwrap();
    assert_eq!(r.calls, 2);
    assert_eq!(cache.len(), 2);
}

#[test]
fn capacity_bound_with_fifo_eviction() {
    let mut cache = RenderCache::new();
    let mut r = MockRenderer::new();
    for page in 0..12 {
        cache.get_or_render(page, 100, &mut r).unwrap();
        assert!(cache.len() <= 10);
    }
    assert_eq!(cache.len(), 10);
    assert_eq!(r.calls, 12);
    // The two oldest-inserted keys are gone, the ten newest remain,
    // still in insertion order.
    assert!(cache.lookup(0, 100).is_none());
    assert!(cache.lookup(1, 100).is_none());
    for page in 2..12 {
        assert!(cache.lookup(page, 100).is_some());
        assert_eq!(cache.entries[page - 2].page, page);
    }
}

#[test]
fn render_failure_inserts_nothing() {
    let mut cache = RenderCache::new();
    let mut bad = MockRenderer::failing();
    let err = cache.get_or_render(4, 100, &mut bad).unwrap_err();
    assert_eq!(err.reason, "page 4 unavailable");
    assert_eq!(bad.calls, 1);
    assert_eq!(cache.len(), 0);
    // The failed request is retried on the next call, and a working
    // renderer fills the slot.
    let mut good = MockRenderer::new();
    assert!(cache.get_or_render(4, 100, &mut good).is_ok());
    assert_eq!(cache.len(), 1);
}

#[test]
fn invalidate_all_drops_everything() {
    let mut cache = RenderCache::new();
    let mut r = MockRenderer::new();
    cache.get_or_render(0, 100, &mut r).unwrap();
    cache.get_or_render(1, 100, &mut r).unwrap();
    assert_eq!(cache.len(), 2);
    cache.invalidate_all();
    assert_eq!(cache.len(), 0);
    // A later request renders afresh.
    cache.get_or_render(0, 100, &mut r).unwrap();
    assert_eq!(r.calls, 3);
}

#[test]
fn handle_stays_valid_after_eviction() {
    let mut cache = RenderCache::new();
    let mut r = MockRenderer::new();
    let handle = cache.get_or_render(0, 100, &mut r).unwrap();
    for page in 1..12 {
        cache.get_or_render(page, 100, &mut r).unwrap();
    }
    assert!(cache.lookup(0, 100).is_none());
    // The evicted entry's handle still carries its image.
    assert_eq!(handle.width, 1);
    assert_eq!(handle.height, 100);
    assert_eq!(*handle.pixels, vec![0u8, 100, 7]);
}

#[test]
fn lookup_does_not_render() {
    let cache = RenderCache::new();
    assert!(cache.lookup(3, 100).is_none());
    let mut cache = RenderCache::new();
    let mut r = MockRenderer::new();
    cache.get_or_render(3, 100, &mut r).unwrap();
    let h = cache.lookup(3, 100).unwrap();
    assert_eq!(*h.pixels, vec![3u8, 100, 7]);
    assert_eq!(r.calls, 1);
}
