use lib::widgets::binding::{
    Binding, CloseButtonOverlayMode, Event, EventHandler, Prop, PropValue, TabWidthMode,
};
use lib::widgets::tab_view::{TabItem, TabView};

type View = TabView<&'static str, u32, u64, u8>;

#[test]
fn tab_item_new_has_no_key_and_default_closability() {
    let t = TabItem::new("Home".to_string(), "Home content");
    assert_eq!(t.header, "Home");
    assert_eq!(t.content, "Home content");
    assert_eq!(t.key, None);
    assert_eq!(t.is_closable, None);
}

#[test]
fn tab_item_builders_set_key_and_closability() {
    let t = TabItem::new("Fixed A".to_string(), 0u8).closable(false).with_key("a".to_string());
    assert_eq!(t.is_closable, Some(false));
    assert_eq!(t.key, Some("a".to_string()));
    assert_eq!(t.header, "Fixed A");
}

#[test]
fn tab_view_new_uses_defaults() {
    let v: View = TabView::new(vec![TabItem::new("A".to_string(), "a")]);
    assert_eq!(v.tabs.len(), 1);
    assert_eq!(v.key, None);
    assert_eq!(v.selected_index, 0);
    assert!(!v.can_reorder_tabs);
    assert!(v.on_selection_changed.is_none());
    assert!(v.on_tab_close_requested.is_none());
    assert!(v.on_add_tab_button_click.is_none());
    assert!(!v.is_add_tab_button_visible);
    assert_eq!(v.tab_width_mode, TabWidthMode::Equal);
    assert_eq!(v.close_button_overlay_mode, CloseButtonOverlayMode::Auto);
    assert_eq!(TabWidthMode::default(), TabWidthMode::Equal);
    assert_eq!(CloseButtonOverlayMode::default(), CloseButtonOverlayMode::Auto);
}

#[test]
fn tab_view_builders_set_one_field_each() {
    let v: View = TabView::new(Vec::new())
        .selected_index(2)
        .can_reorder_tabs(true)
        .on_selection_changed(11)
        .on_tab_close_requested(12)
        .on_add_tab_button_click(13)
        .is_add_tab_button_visible(true)
        .tab_width_mode(TabWidthMode::Compact)
        .close_button_overlay_mode(CloseButtonOverlayMode::Always);
    assert_eq!(v.selected_index, 2);
    assert!(v.can_reorder_tabs);
    assert_eq!(v.on_selection_changed, Some(11));
    assert_eq!(v.on_tab_close_requested, Some(12));
    assert_eq!(v.on_add_tab_button_click, Some(13));
    assert!(v.is_add_tab_button_visible);
    assert_eq!(v.tab_width_mode, TabWidthMode::Compact);
    assert_eq!(v.close_button_overlay_mode, CloseButtonOverlayMode::Always);
    assert_eq!(v.children().len(), 0);
}

fn prop(b: &Binding<u32, u64, u8>) -> Option<(Prop, PropValue)> {
    match b {
        Binding::Prop(p, v) => Some((*p, *v)),
        Binding::Event(..) => None,
    }
}

#[test]
fn bindings_list_props_and_events_in_order() {
    let v: View = TabView::new(Vec::new())
        .selected_index(1)
        .on_selection_changed(5)
        .tab_width_mode(TabWidthMode::SizeToContent);
    let b = v.bindings();
    assert_eq!(b.len(), 8);
    assert_eq!(prop(&b[0]), Some((Prop::SelectedIndex, PropValue::I32(1))));
    assert_eq!(prop(&b[1]), Some((Prop::CanReorderTabs, PropValue::Bool(false))));
    assert!(matches!(
        b[2],
        Binding::Event(Event::TabSelectionChanged, Some(EventHandler::IndexChanged(5)))
    ));
    assert!(matches!(b[3], Binding::Event(Event::TabCloseRequested, None)));
    assert!(matches!(b[4], Binding::Event(Event::TabAddButtonClicked, None)));
    assert_eq!(prop(&b[5]), Some((Prop::IsAddTabButtonVisible, PropValue::Bool(false))));
    assert_eq!(
        prop(&b[6]),
        Some((Prop::TabWidthMode, PropValue::TabWidthMode(TabWidthMode::SizeToContent)))
    );
    assert_eq!(
        prop(&b[7]),
        Some((
            Prop::CloseButtonOverlayMode,
            PropValue::CloseButtonOverlayMode(CloseButtonOverlayMode::Auto)
        ))
    );
}

#[test]
fn bindings_carry_close_and_add_handlers() {
    let v: View = TabView::new(Vec::new()).on_tab_close_requested(7).on_add_tab_button_click(9);
    let b = v.bindings();
    assert!(matches!(b[2], Binding::Event(Event::TabSelectionChanged, None)));
    assert!(matches!(
        b[3],
        Binding::Event(Event::TabCloseRequested, Some(EventHandler::TabKey(7)))
    ));
    assert!(matches!(
        b[4],
        Binding::Event(Event::TabAddButtonClicked, Some(EventHandler::Click(9)))
    ));
}
