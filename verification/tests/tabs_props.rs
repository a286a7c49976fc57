use oxidize_pdf_editor::cache::{RawImage, RenderFailed, Renderer};
use oxidize_pdf_editor::session::{DocumentSource, OpenFailed};
use oxidize_pdf_editor::tabs::TabManager;
use oxidize_pdf_editor::viewport::ViewportCommand;

struct MockSource {
    pages: usize,
    fail: bool,
}

impl DocumentSource for MockSource {
    fn open(&mut self, path: &str) -> Result<usize, OpenFailed> {
        if self.fail {
            Err(OpenFailed { reason: format!("cannot read {}", path) })
        } else {
            Ok(self.pages)
        }
    }
}

struct MockRenderer;

impl Renderer for MockRenderer {
    fn render(&mut self, page_index: usize, zoom: u32) -> Result<RawImage, RenderFailed> {
        Ok(RawImage { width: 1, height: zoom, pixels: vec![page_index as u8] })
    }
}

fn three_tabs() -> TabManager {
    let mut source = MockSource { pages: 4, fail: false };
    let mut tabs = TabManager::new();
    tabs.open_new(String::from("a.pdf"), &mut source).unwrap();
    tabs.open_new(String::from("b.pdf"), &mut source).unwrap();
    tabs.open_new(String::from("c.pdf"), &mut source).unwrap();
    tabs
}

#[test]
fn open_new_appends_and_activates() {
    let tabs = three_tabs();
    assert_eq!(tabs.tab_count(), 3);
    assert_eq!(tabs.active_index(), 2);
    assert_eq!(tabs.active_session().unwrap().file_name(), "c.pdf");
}

#[test]
fn open_new_failure_leaves_no_partial_tab() {
    let mut tabs = three_tabs();
    let mut bad = MockSource { pages: 0, fail: true };
    assert!(tabs.open_new(String::from("x.pdf"), &mut bad).is_err());
    assert_eq!(tabs.tab_count(), 3);
    assert_eq!(tabs.active_index(), 2);
}

#[test]
fn closing_the_active_last_tab_clamps() {
    let mut tabs = three_tabs();
    tabs.close(2);
    assert_eq!(tabs.tab_count(), 2);
    assert_eq!(tabs.active_index(), 1);
    assert_eq!(tabs.active_session().unwrap().file_name(), "b.pdf");
}

#[test]
fn closing_an_earlier_tab_clamps_a_trailing_active_index() {
    let mut tabs = three_tabs();
    tabs.close(0);
    assert_eq!(tabs.tab_count(), 2);
    assert_eq!(tabs.active_index(), 1);
    assert_eq!(tabs.active_session().unwrap().file_name(), "c.pdf");
}

#[test]
fn closing_an_earlier_tab_keeps_a_small_active_index() {
    let mut tabs = three_tabs();
    tabs.select(1);
    tabs.close(0);
    assert_eq!(tabs.tab_count(), 2);
    assert_eq!(tabs.active_index(), 1);
    assert_eq!(tabs.active_session().unwrap().file_name(), "c.pdf");
}

#[test]
fn close_out_of_range_is_ignored() {
    let mut tabs = three_tabs();
    tabs.close(3);
    assert_eq!(tabs.tab_count(), 3);
    assert_eq!(tabs.active_index(), 2);
}

#[test]
fn closing_every_tab_leaves_none_active() {
    let mut tabs = three_tabs();
    tabs.close(0);
    tabs.close(0);
    tabs.close(0);
    assert_eq!(tabs.tab_count(), 0);
    assert!(tabs.active_session().is_none());
}

#[test]
fn select_switches_and_ignores_out_of_range() {
    let mut tabs = three_tabs();
    tabs.select(0);
    assert_eq!(tabs.active_index(), 0);
    tabs.select(9);
    assert_eq!(tabs.active_index(), 0);
}

#[test]
fn commands_route_to_the_active_session_only() {
    let mut tabs = three_tabs();
    tabs.select(0);
    tabs.apply(ViewportCommand::ZoomIn);
    tabs.apply(ViewportCommand::SetPage(2));
    assert_eq!(tabs.sessions[0].viewport.zoom(), 125);
    assert_eq!(tabs.sessions[0].viewport.current_page(), 2);
    assert_eq!(tabs.sessions[1].viewport.zoom(), 100);
    assert_eq!(tabs.sessions[2].viewport.current_page(), 0);
}

#[test]
fn commands_without_tabs_are_noops() {
    let mut tabs = TabManager::new();
    tabs.apply(ViewportCommand::ZoomIn);
    tabs.apply(ViewportCommand::NextPage);
    tabs.apply(ViewportCommand::Pan(4, 5));
    assert_eq!(tabs.tab_count(), 0);
    let mut r = MockRenderer;
    assert!(tabs.active_rendered_page(&mut r).is_none());
}

#[test]
fn active_rendered_page_uses_the_active_view() {
    let mut tabs = three_tabs();
    tabs.apply(ViewportCommand::SetPage(3));
    tabs.apply(ViewportCommand::ZoomOut);
    let mut r = MockRenderer;
    let handle = tabs.active_rendered_page(&mut r).unwrap();
    assert_eq!(handle.height, 75);
    assert_eq!(*handle.pixels, vec![3u8]);
    assert_eq!(tabs.sessions[2].cache.len(), 1);
    assert_eq!(tabs.sessions[0].cache.len(), 0);
}
