use vstd::prelude::*;
use vstd::string::StrSliceExecFns;
use vstd::string::StringExecFns;
use crate::cache::{cached_handle, has_key, insert_evict, CacheEntry, ImageHandle, RenderCache,
    Renderer};
use crate::viewport::{Viewport, DEFAULT_ZOOM};

verus! {

/// Failure to open a document: bad path, corrupt or unsupported content,
/// or an I/O error in the source collaborator.
#[derive(Debug)]
pub struct OpenFailed {
    pub reason: String,
}

/// The document-loading capability a session consumes: given a path it
/// yields the document's page count, or fails.
pub trait DocumentSource {
    /// Open the document at `path` and report how many pages it has.
    fn open(&mut self, path: &str) -> Result<usize, OpenFailed>;
}

/// The name shown when a path has no extractable final component.
pub const FALLBACK_NAME: &'static str = "Untitled";

/// The path with every trailing `/` removed; a final path component is
/// read before these, so `dir/` names the same component as `dir`.
pub open spec fn strip_trailing_slashes(p: Seq<char>) -> Seq<char>
    decreases p.len(),
{
    if p.len() > 0 && p.last() == '/' {
        strip_trailing_slashes(p.drop_last())
    } else {
        p
    }
}

/// The characters after the last `/` of a path (empty when the path is
/// empty or ends in `/`).
pub open spec fn after_last_slash(p: Seq<char>) -> Seq<char>
    decreases p.len(),
{
    if p.len() == 0 {
        Seq::empty()
    } else if p.last() == '/' {
        Seq::empty()
    } else {
        after_last_slash(p.drop_last()).push(p.last())
    }
}

/// The display name derived from a path: its final component, with
/// trailing separators skipped first; the fixed fallback when no name
/// can be extracted, that is when the stripped path is empty or its
/// final component is `.` or `..` (a directory reference, not a name).
pub open spec fn spec_display_name(p: Seq<char>) -> Seq<char> {
    let name = after_last_slash(strip_trailing_slashes(p));
    if name.len() == 0 || name == seq!['.'] || name == seq!['.', '.'] {
        FALLBACK_NAME@
    } else {
        name
    }
}

/// One open document: its source path, its fixed page count, the view
/// state, and the bounded cache of rendered pages.
#[derive(Debug)]
pub struct DocumentSession {
    pub path: String,
    pub page_count: usize,
    pub viewport: Viewport,
    pub cache: RenderCache,
}

impl DocumentSession {
    /// Validity: the viewport was built for this document's page count
    /// and both owned components are valid.
    pub open spec fn wf(self) -> bool {
        &&& self.viewport.wf()
        &&& self.viewport.page_count == self.page_count
        &&& self.cache.wf()
    }

    /// The one way a session comes to be: a fresh session for a document
    /// known to have `page_count` pages — page 0, default zoom, no pan
    /// offset, an empty cache. `load` feeds it the count the source
    /// reported; a caller that learned the count elsewhere may build the
    /// same session directly.
    pub fn fresh(path: String, page_count: usize) -> (s: DocumentSession)
        ensures
            s.path@ == path@,
            s.page_count == page_count,
            s.viewport.page_count == page_count,
            s.viewport.current_page == 0,
            s.viewport.zoom == DEFAULT_ZOOM,
            s.viewport.pan_x == 0,
            s.viewport.pan_y == 0,
            s.cache.entries@.len() == 0,
            s.wf(),
    {
        DocumentSession {
            path,
            page_count,
            viewport: Viewport::new(page_count),
            cache: RenderCache::new(),
        }
    }

    /// Open the document at `path` through the source collaborator.
    ///
    /// The path goes to the source as it came; whether the open succeeds
    /// is the source's decision alone. When it reports a page count, the
    /// result is `fresh(path, page_count)` for that very count (the
    /// clause below fixes the whole session given its stored count);
    /// when it fails, its error is handed back and nothing is built.
    pub fn load<S: DocumentSource>(path: String, source: &mut S) -> (r: Result<
        DocumentSession,
        OpenFailed,
    >)
        ensures
            match r {
                Ok(s) => {
                    &&& s.wf()
                    &&& s.path@ == path@
                    &&& s.viewport.page_count == s.page_count
                    &&& s.viewport.current_page == 0
                    &&& s.viewport.zoom == DEFAULT_ZOOM
                    &&& s.viewport.pan_x == 0
                    &&& s.viewport.pan_y == 0
                    &&& s.cache.entries@.len() == 0
                },
                Err(_) => true,
            },
    {
        match source.open(path.as_str()) {
            Ok(page_count) => Ok(DocumentSession::fresh(path, page_count)),
            Err(e) => Err(e),
        }
    }

    pub fn page_count(&self) -> (n: usize)
        ensures
            n == self.page_count,
    {
        self.page_count
    }

    /// The name to show for this document: the final component of its
    /// source path (trailing separators skipped), or the fixed fallback
    /// when the path yields no name.
    pub fn file_name(&self) -> (r: String)
        ensures
            r@ == spec_display_name(self.path@),
    {
        let s: &str = self.path.as_str();
        let n = s.unicode_len();
        proof {
            assert(s@.subrange(0, n as int) =~= s@);
        }
        let mut end: usize = n;
        while end > 0 && s.get_char(end - 1) == '/'
            invariant
                n == s@.len(),
                end <= n,
                strip_trailing_slashes(s@.subrange(0, end as int)) == strip_trailing_slashes(s@),
            decreases end,
        {
            proof {
                assert(s@.subrange(0, end as int).drop_last() =~= s@.subrange(0, end - 1));
                assert(s@.subrange(0, end as int).last() == s@[end - 1]);
            }
            end = end - 1;
        }
        proof {
            assert(s@.subrange(0, n as int) =~= s@);
            if end > 0 {
                assert(s@.subrange(0, end as int).last() == s@[end - 1]);
            }
            assert(strip_trailing_slashes(s@.subrange(0, end as int)) == s@.subrange(
                0,
                end as int,
            ));
        }
        let mut start: usize = 0;
        let mut i: usize = 0;
        while i < end
            invariant
                n == s@.len(),
                end <= n,
                i <= end,
                start <= i,
                after_last_slash(s@.subrange(0, i as int)) == s@.subrange(start as int, i as int),
            decreases end - i,
        {
            let c = s.get_char(i);
            proof {
                assert(s@.subrange(0, i + 1).drop_last() =~= s@.subrange(0, i as int));
                assert(s@.subrange(0, i + 1).last() == s@[i as int]);
            }
            if c == '/' {
                start = i + 1;
                proof {
                    assert(s@.subrange(start as int, i + 1) =~= Seq::<char>::empty());
                }
            } else {
                proof {
                    assert(s@.subrange((start - 1) + 1, i + 1) =~= s@.subrange(
                        start as int,
                        i as int,
                    ).push(s@[i as int]));
                }
            }
            i = i + 1;
        }
        let ghost name = s@.subrange(start as int, end as int);
        if end - start == 0 {
            FALLBACK_NAME.to_owned()
        } else if end - start == 1 && s.get_char(start) == '.' {
            proof {
                assert(name =~= seq!['.']);
            }
            FALLBACK_NAME.to_owned()
        } else if end - start == 2 && s.get_char(start) == '.' && s.get_char(start + 1) == '.' {
            proof {
                assert(name =~= seq!['.', '.']);
            }
            FALLBACK_NAME.to_owned()
        } else {
            proof {
                if name == seq!['.'] {
                    assert(name.len() == 1 && name[0] == '.');
                }
                if name == seq!['.', '.'] {
                    assert(name.len() == 2 && name[0] == '.' && name[1] == '.');
                }
            }
            let part = s.substring_char(start, end);
            String::from_str(part)
        }
    }

    /// Render the page the viewport is looking at, through the cache.
    ///
    /// A renderer failure degrades to "no image available" for this one
    /// request: the viewport is untouched, the cache keeps what it had,
    /// and nothing else of the session is affected.
    pub fn get_rendered_page<R: Renderer>(&mut self, renderer: &mut R) -> (r: Option<ImageHandle>)
        requires
            old(self).wf(),
        ensures
            final(self).wf(),
            final(self).path == old(self).path,
            final(self).page_count == old(self).page_count,
            final(self).viewport == old(self).viewport,
            has_key(
                old(self).cache.entries@,
                old(self).viewport.current_page,
                old(self).viewport.zoom,
            ) ==> {
                &&& *final(self) == *old(self)
                &&& *final(renderer) == *old(renderer)
                &&& r == Some(
                    cached_handle(
                        old(self).cache.entries@,
                        old(self).viewport.current_page,
                        old(self).viewport.zoom,
                    ),
                )
            },
            !has_key(
                old(self).cache.entries@,
                old(self).viewport.current_page,
                old(self).viewport.zoom,
            ) ==> match r {
                Some(h) => {
                    &&& final(self).cache.entries@ == insert_evict(
                        old(self).cache.entries@,
                        (CacheEntry {
                            page: old(self).viewport.current_page,
                            zoom_bucket: old(self).viewport.zoom,
                            handle: h,
                        }),
                    )
                    &&& has_key(
                        final(self).cache.entries@,
                        old(self).viewport.current_page,
                        old(self).viewport.zoom,
                    )
                    &&& cached_handle(
                        final(self).cache.entries@,
                        old(self).viewport.current_page,
                        old(self).viewport.zoom,
                    ) == h
                },
                None => *final(self) == *old(self),
            },
    {
        let page = self.viewport.current_page();
        let zoom = self.viewport.zoom();
        match self.cache.get_or_render(page, zoom, renderer) {
            Ok(h) => Some(h),
            Err(_) => None,
        }
    }

    /// Drop every cached page image; used when the document content
    /// changes.
    pub fn clear_cache(&mut self)
        requires
            old(self).wf(),
        ensures
            final(self).wf(),
            final(self).path == old(self).path,
            final(self).page_count == old(self).page_count,
            final(self).viewport == old(self).viewport,
            final(self).cache.entries@ =~= Seq::<CacheEntry>::empty(),
    {
        self.cache.invalidate_all();
    }
}

} // verus!
