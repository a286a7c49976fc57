use oxidize_pdf_editor::viewport::Viewport;

#[test]
fn scenario_open_zoom_navigate() {
    let mut v = Viewport::new(5);
    assert_eq!(v.current_page(), 0);
    assert_eq!(v.zoom(), 100);
    v.zoom_in();
    v.zoom_in();
    v.zoom_in();
    v.zoom_in();
    assert_eq!(v.zoom(), 200);
    v.set_page(3);
    assert_eq!(v.current_page(), 3);
    assert_eq!(v.pan_position(), (0, 0));
    assert!(v.previous_page());
    assert_eq!(v.current_page(), 2);
    assert!(v.previous_page());
    assert_eq!(v.current_page(), 1);
    assert!(v.previous_page());
    assert_eq!(v.current_page(), 0);
    assert!(!v.previous_page());
    assert_eq!(v.current_page(), 0);
}

#[test]
fn zoom_stays_clamped_under_repetition() {
    let mut v = Viewport::new(3);
    for _ in 0..50 {
        v.zoom_in();
        assert!(25 <= v.zoom() && v.zoom() <= 400);
    }
    assert_eq!(v.zoom(), 400);
    v.zoom_in();
    assert_eq!(v.zoom(), 400);
    for _ in 0..50 {
        v.zoom_out();
        assert!(25 <= v.zoom() && v.zoom() <= 400);
    }
    assert_eq!(v.zoom(), 25);
    v.zoom_out();
    assert_eq!(v.zoom(), 25);
}

#[test]
fn set_zoom_clamps_never_rejects() {
    let mut v = Viewport::new(3);
    v.set_zoom(1);
    assert_eq!(v.zoom(), 25);
    v.set_zoom(4000);
    assert_eq!(v.zoom(), 400);
    v.set_zoom(150);
    assert_eq!(v.zoom(), 150);
}

#[test]
fn reset_zoom_restores_default_and_clears_pan() {
    let mut v = Viewport::new(3);
    v.set_zoom(300);
    v.pan(7, -9);
    v.reset_zoom();
    assert_eq!(v.zoom(), 100);
    assert_eq!(v.pan_position(), (0, 0));
}

#[test]
fn pan_accumulates_and_page_change_resets_it() {
    let mut v = Viewport::new(4);
    v.pan(10, -5);
    v.pan(3, 4);
    assert_eq!(v.pan_position(), (13, -1));
    assert!(v.next_page());
    assert_eq!(v.pan_position(), (0, 0));
    v.pan(-2, 8);
    v.set_page(3);
    assert_eq!(v.pan_position(), (0, 0));
    v.pan(1, 1);
    assert!(v.previous_page());
    assert_eq!(v.pan_position(), (0, 0));
}

#[test]
fn page_stays_in_bounds() {
    let mut v = Viewport::new(5);
    v.set_page(7);
    assert_eq!(v.current_page(), 0);
    v.set_page(5);
    assert_eq!(v.current_page(), 0);
    v.set_page(4);
    assert_eq!(v.current_page(), 4);
    assert!(!v.next_page());
    assert_eq!(v.current_page(), 4);
    for _ in 0..10 {
        v.previous_page();
        assert!(v.current_page() < 5);
    }
    assert_eq!(v.current_page(), 0);
    assert!(!v.previous_page());
}

#[test]
fn empty_document_never_moves() {
    let mut v = Viewport::new(0);
    assert_eq!(v.current_page(), 0);
    assert!(!v.next_page());
    assert!(!v.previous_page());
    v.set_page(0);
    assert_eq!(v.current_page(), 0);
}

#[test]
fn out_of_range_set_page_keeps_pan() {
    let mut v = Viewport::new(2);
    v.pan(5, 6);
    v.set_page(9);
    assert_eq!(v.pan_position(), (5, 6));
}
