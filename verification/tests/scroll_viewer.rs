use lib::widgets::scroll_viewer::{scroll_viewer, ScrollBarVisibility, ScrollViewer, ScrollViewerBinding};

#[test]
fn scroll_viewer_defaults() {
    let s: ScrollViewer<&str, f64> = ScrollViewer::new("content");
    assert_eq!(s.key, None);
    assert_eq!(*s.child, "content");
    assert_eq!(*s.children(), "content");
    assert_eq!(s.horizontal_scroll_bar_visibility, ScrollBarVisibility::Disabled);
    assert_eq!(s.vertical_scroll_bar_visibility, ScrollBarVisibility::Auto);
    assert_eq!(s.scroll_to_bottom, None);
    let t: ScrollViewer<u8, f64> = scroll_viewer(7);
    assert_eq!(*t.child, 7);
    assert_eq!(t.vertical_scroll_bar_visibility, ScrollBarVisibility::Auto);
}

#[test]
fn scroll_viewer_bindings_without_token() {
    let s: ScrollViewer<u8, f64> = ScrollViewer::new(0).horizontal_scroll_bar_visibility(ScrollBarVisibility::Visible);
    let b = s.bindings();
    assert_eq!(b.len(), 2);
    assert!(matches!(b[0], ScrollViewerBinding::HorizontalScrollBarVisibility(ScrollBarVisibility::Visible)));
    assert!(matches!(b[1], ScrollViewerBinding::VerticalScrollBarVisibility(ScrollBarVisibility::Auto)));
}

#[test]
fn scroll_viewer_bindings_with_token() {
    let s: ScrollViewer<u8, f64> = ScrollViewer::new(0)
        .vertical_scroll_bar_visibility(ScrollBarVisibility::Hidden)
        .scroll_to_bottom(3.5);
    assert_eq!(s.scroll_to_bottom, Some(3.5));
    let b = s.bindings();
    assert_eq!(b.len(), 3);
    assert!(matches!(b[0], ScrollViewerBinding::HorizontalScrollBarVisibility(ScrollBarVisibility::Disabled)));
    assert!(matches!(b[1], ScrollViewerBinding::VerticalScrollBarVisibility(ScrollBarVisibility::Hidden)));
    match b[2] {
        ScrollViewerBinding::ScrollToBottom(t) => assert_eq!(t, 3.5),
        _ => panic!("expected the scroll-to-bottom token"),
    }
}
