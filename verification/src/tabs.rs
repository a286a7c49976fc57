use vstd::prelude::*;
use crate::cache::{cached_handle, has_key, insert_evict, CacheEntry, ImageHandle, Renderer};
use crate::session::{DocumentSession, DocumentSource, OpenFailed};
use crate::viewport::{Viewport, ViewportCommand, DEFAULT_ZOOM};

verus! {

/// The active tab index after closing the tab at `index` (which must have
/// been in range): indices are kept, only clamped to the new last valid
/// index when they would point past the end, and pinned to 0 when no tab
/// is left.
pub open spec fn active_after_close(old_len: int, old_active: int) -> int {
    let new_len = old_len - 1;
    if new_len == 0 {
        0
    } else if old_active >= new_len {
        new_len - 1
    } else {
        old_active
    }
}

/// The ordered collection of open documents and which of them is active.
/// Navigation, zoom and pan commands are routed to the active session and
/// are no-ops when no tab is open.
#[derive(Debug)]
pub struct TabManager {
    pub sessions: Vec<DocumentSession>,
    pub active_index: usize,
}

impl TabManager {
    /// Validity: every session is valid, and the active index points at
    /// one of them (pinned to 0 while no tab is open).
    pub open spec fn wf(self) -> bool {
        &&& forall|i: int| 0 <= i < self.sessions@.len() ==> (#[trigger] self.sessions@[i]).wf()
        &&& if self.sessions@.len() == 0 {
            self.active_index == 0
        } else {
            self.active_index < self.sessions@.len()
        }
    }

    /// The active session (meaningful only while a tab is open).
    pub open spec fn active(self) -> DocumentSession {
        self.sessions@[self.active_index as int]
    }

    /// The sessions with the active one's viewport replaced.
    pub open spec fn routed(self, v: Viewport) -> Seq<DocumentSession> {
        self.sessions@.update(
            self.active_index as int,
            (DocumentSession { viewport: v, ..self.active() }),
        )
    }

    /// No tabs open.
    pub fn new() -> (t: TabManager)
        ensures
            t.sessions@ =~= Seq::<DocumentSession>::empty(),
            t.active_index == 0,
            t.wf(),
    {
        TabManager { sessions: Vec::new(), active_index: 0 }
    }

    pub fn tab_count(&self) -> (n: usize)
        ensures
            n == self.sessions@.len(),
    {
        self.sessions.len()
    }

    pub fn active_index(&self) -> (i: usize)
        ensures
            i == self.active_index,
    {
        self.active_index
    }

    /// A shared view of the active session, or `None` when no tab is
    /// open.
    pub fn active_session(&self) -> (r: Option<&DocumentSession>)
        requires
            self.wf(),
        ensures
            match r {
                Some(s) => self.sessions@.len() > 0 && *s == self.active(),
                None => self.sessions@.len() == 0,
            },
    {
        if self.sessions.len() > 0 {
            Some(&self.sessions[self.active_index])
        } else {
            None
        }
    }

    /// Open the document at `path` in a new tab and make it active.
    ///
    /// On success the appended tab is `DocumentSession::fresh(path, n)`
    /// for the page count `n` the source reported; `fresh`'s contract
    /// fixes the whole session given that count. A failure of the source
    /// is handed back and the tab set is left exactly as it was: no
    /// partial tab remains.
    pub fn open_new<S: DocumentSource>(&mut self, path: String, source: &mut S) -> (r: Result<
        (),
        OpenFailed,
    >)
        requires
            old(self).wf(),
        ensures
            final(self).wf(),
            match r {
                Ok(_) => {
                    &&& final(self).sessions@.len() == old(self).sessions@.len() + 1
                    &&& final(self).sessions@.subrange(0, old(self).sessions@.len() as int)
                        =~= old(self).sessions@
                    &&& final(self).active_index == old(self).sessions@.len()
                    &&& final(self).active().path@ == path@
                    &&& final(self).active().viewport.current_page == 0
                    &&& final(self).active().viewport.zoom == DEFAULT_ZOOM
                    &&& final(self).active().viewport.pan_x == 0
                    &&& final(self).active().viewport.pan_y == 0
                    &&& final(self).active().cache.entries@.len() == 0
                },
                Err(_) => *final(self) == *old(self),
            },
    {
        match DocumentSession::load(path, source) {
            Ok(s) => {
                self.sessions.push(s);
                self.active_index = self.sessions.len() - 1;
                Ok(())
            },
            Err(e) => Err(e),
        }
    }

    /// Close the tab at `index`; out-of-range indices are ignored. The
    /// active index is clamped to the new last valid index when it would
    /// point past the end.
    pub fn close(&mut self, index: usize)
        requires
            old(self).wf(),
        ensures
            final(self).wf(),
            index >= old(self).sessions@.len() ==> *final(self) == *old(self),
            index < old(self).sessions@.len() ==> {
                &&& final(self).sessions@ =~= old(self).sessions@.remove(index as int)
                &&& final(self).active_index == active_after_close(
                    old(self).sessions@.len() as int,
                    old(self).active_index as int,
                )
            },
    {
        if index < self.sessions.len() {
            self.sessions.remove(index);
            let n = self.sessions.len();
            if n == 0 {
                self.active_index = 0;
            } else if self.active_index >= n {
                self.active_index = n - 1;
            }
        }
    }

    /// Make the tab at `index` active; out-of-range indices are ignored.
    pub fn select(&mut self, index: usize)
        requires
            old(self).wf(),
        ensures
            final(self).wf(),
            index >= old(self).sessions@.len() ==> *final(self) == *old(self),
            index < old(self).sessions@.len() ==> final(self).sessions@ == old(self).sessions@
                && final(self).active_index == index,
    {
        if index < self.sessions.len() {
            self.active_index = index;
        }
    }

    /// Route one navigation, zoom or pan command to the active session's
    /// viewport; a no-op when no tab is open.
    pub fn apply(&mut self, c: ViewportCommand)
        requires
            old(self).wf(),
        ensures
            final(self).wf(),
            old(self).sessions@.len() == 0 ==> *final(self) == *old(self),
            old(self).sessions@.len() > 0 ==> {
                &&& final(self).active_index == old(self).active_index
                &&& final(self).sessions@ =~= old(self).routed(
                    old(self).active().viewport.spec_step(c),
                )
            },
    {
        if self.sessions.len() > 0 {
            let i = self.active_index;
            let viewport = &mut self.sessions[i].viewport;
            match c {
                ViewportCommand::SetPage(n) => viewport.set_page(n),
                ViewportCommand::NextPage => {
                    viewport.next_page();
                },
                ViewportCommand::PreviousPage => {
                    viewport.previous_page();
                },
                ViewportCommand::ZoomIn => viewport.zoom_in(),
                ViewportCommand::ZoomOut => viewport.zoom_out(),
                ViewportCommand::ResetZoom => viewport.reset_zoom(),
                ViewportCommand::SetZoom(z) => viewport.set_zoom(z),
                ViewportCommand::Pan(dx, dy) => viewport.pan(dx, dy),
            }
        }
    }

    /// Render the page the active session is looking at, through its
    /// cache; `None` when no tab is open or the renderer failed.
    pub fn active_rendered_page<R: Renderer>(&mut self, renderer: &mut R) -> (r: Option<
        ImageHandle,
    >)
        requires
            old(self).wf(),
        ensures
            final(self).wf(),
            old(self).sessions@.len() == 0 ==> *final(self) == *old(self) && r is None,
            old(self).sessions@.len() > 0 ==> {
                let s = old(self).active();
                let page = s.viewport.current_page;
                let zoom = s.viewport.zoom;
                &&& final(self).active_index == old(self).active_index
                &&& final(self).sessions@.len() == old(self).sessions@.len()
                &&& forall|j: int|
                    0 <= j < old(self).sessions@.len() && j != old(self).active_index
                        ==> final(self).sessions@[j] == #[trigger] old(self).sessions@[j]
                &&& final(self).active().path == s.path
                &&& final(self).active().page_count == s.page_count
                &&& final(self).active().viewport == s.viewport
                &&& has_key(s.cache.entries@, page, zoom) ==> final(self).sessions@ =~= old(
                    self,
                ).sessions@ && *final(renderer) == *old(renderer) && r == Some(
                    cached_handle(s.cache.entries@, page, zoom),
                )
                &&& !has_key(s.cache.entries@, page, zoom) ==> match r {
                    Some(h) => final(self).active().cache.entries@ == insert_evict(
                        s.cache.entries@,
                        (CacheEntry { page, zoom_bucket: zoom, handle: h }),
                    ),
                    None => final(self).sessions@ =~= old(self).sessions@,
                }
            },
    {
        if self.sessions.len() > 0 {
            let i = self.active_index;
            let session = &mut self.sessions[i];
            let r = session.get_rendered_page(renderer);
            proof {
                if self.sessions@ =~= old(self).sessions@.update(
                    i as int,
                    old(self).sessions@[i as int],
                ) {
                    assert(self.sessions@ =~= old(self).sessions@);
                }
            }
            r
        } else {
            None
        }
    }
}

} // verus!
