use lib::gallery::{PageHandler, PageInput, TabViewPage};
use lib::widgets::binding::{CloseButtonOverlayMode, TabWidthMode};

fn ids(page: &TabViewPage) -> Vec<i32> {
    page.tab_ids.clone()
}

#[test]
fn page_starts_with_three_dynamic_tabs() {
    let page = TabViewPage::new();
    assert_eq!(page.selected, 0);
    assert_eq!(ids(&page), vec![1, 2, 3]);
    assert_eq!(page.next_id, 4);
    assert_eq!(page.add_btn_count, 2);
    let r = page.render();
    assert_eq!(r.tab_count(), 3);
    assert!(r.remove_enabled());
}

#[test]
fn closing_by_key_removes_that_tab() {
    let mut page = TabViewPage::new();
    page.render().close_requested(&mut page, "2");
    assert_eq!(ids(&page), vec![1, 3]);
    page.render().close_requested(&mut page, "+3");
    assert_eq!(ids(&page), vec![1]);
}

#[test]
fn closing_the_last_tab_or_an_unreadable_key_changes_nothing() {
    let mut page = TabViewPage::new();
    for key in ["x", " 1", "99", "", "-", "+", "2 ", "2_0", "+-2", "2147483648", "0x2", "２"] {
        page.render().close_requested(&mut page, key);
        assert_eq!(ids(&page), vec![1, 2, 3], "key {:?}", key);
    }
    page.render().close_requested(&mut page, "1");
    page.render().close_requested(&mut page, "002");
    assert_eq!(ids(&page), vec![3]);
    page.render().close_requested(&mut page, "3");
    assert_eq!(ids(&page), vec![3]);
}

#[test]
fn add_and_remove_tabs() {
    let mut page = TabViewPage::new();
    page.render().add_tab(&mut page);
    assert_eq!(ids(&page), vec![1, 2, 3, 4]);
    assert_eq!(page.next_id, 5);
    page.render().remove_tab(&mut page);
    page.render().remove_tab(&mut page);
    assert_eq!(ids(&page), vec![1, 2]);
    page.render().add_tab(&mut page);
    assert_eq!(ids(&page), vec![1, 2, 5]);
    page.render().remove_tab(&mut page);
    page.render().remove_tab(&mut page);
    assert_eq!(ids(&page), vec![1]);
    assert!(!page.render().remove_enabled());
    page.render().remove_tab(&mut page);
    assert_eq!(ids(&page), Vec::<i32>::new());
    page.render().remove_tab(&mut page);
    assert_eq!(ids(&page), Vec::<i32>::new());
}

#[test]
fn clicks_between_two_renders_start_from_what_was_rendered() {
    let mut page = TabViewPage::new();
    let r = page.render();
    r.add_tab(&mut page);
    r.add_tab(&mut page);
    assert_eq!(ids(&page), vec![1, 2, 3, 4]);
    assert_eq!(page.next_id, 5);
    r.close_requested(&mut page, "1");
    assert_eq!(ids(&page), vec![2, 3]);
    r.close_requested(&mut page, "2");
    assert_eq!(ids(&page), vec![1, 3]);
    r.remove_tab(&mut page);
    assert_eq!(ids(&page), vec![1, 2]);
    r.add_button_clicked(&mut page);
    r.add_button_clicked(&mut page);
    assert_eq!(page.add_btn_count, 3);
    let r = page.render();
    r.add_tab(&mut page);
    assert_eq!(ids(&page), vec![1, 2, 5]);
    assert_eq!(page.next_id, 6);
}

#[test]
fn shown_selection_is_clamped_to_the_last_tab() {
    let mut page = TabViewPage::new();
    page.render().select(&mut page, 2);
    assert_eq!(page.render().shown_selection(), 2);
    page.render().select(&mut page, 7);
    assert_eq!(page.render().shown_selection(), 2);
    page.render().close_requested(&mut page, "3");
    assert_eq!(page.render().shown_selection(), 1);
    page.render().select(&mut page, -1);
    assert_eq!(page.render().shown_selection(), -1);
    page.render().remove_tab(&mut page);
    page.render().remove_tab(&mut page);
    page.render().select(&mut page, 0);
    assert_eq!(page.render().shown_selection(), -1);
}

#[test]
fn dynamic_tabs_are_named_and_keyed_by_id() {
    let mut page = TabViewPage::new();
    page.render().add_tab(&mut page);
    page.render().close_requested(&mut page, "1");
    let tabs = page.render().dynamic_tabs();
    assert_eq!(tabs.len(), 3);
    assert_eq!(tabs[0].header, "Tab 2");
    assert_eq!(tabs[0].content, "Content of Tab 2");
    assert_eq!(tabs[0].key, Some("2".to_string()));
    assert_eq!(tabs[2].header, "Tab 4");
    assert_eq!(tabs[2].key, Some("4".to_string()));
    assert_eq!(tabs[2].is_closable, None);
}

#[test]
fn closing_with_a_dynamic_tab_key_removes_it() {
    let mut page = TabViewPage::new();
    let r = page.render();
    let key = r.dynamic_tabs()[1].key.clone().unwrap();
    r.close_requested(&mut page, &key);
    assert_eq!(ids(&page), vec![1, 3]);
}

#[test]
fn negative_and_extreme_ids_round_trip_through_their_keys() {
    let mut page = TabViewPage::new();
    page.tab_ids = vec![i32::MIN, -10, 0, i32::MAX - 2];
    page.next_id = i32::MAX - 1;
    let tabs = page.render().dynamic_tabs();
    assert_eq!(tabs[0].key, Some("-2147483648".to_string()));
    assert_eq!(tabs[1].header, "Tab -10");
    assert_eq!(tabs[2].content, "Content of Tab 0");
    assert_eq!(tabs[3].key, Some("2147483645".to_string()));
    page.render().close_requested(&mut page, "-2147483648");
    assert_eq!(ids(&page), vec![-10, 0, i32::MAX - 2]);
    page.render().close_requested(&mut page, "-10");
    assert_eq!(ids(&page), vec![0, i32::MAX - 2]);
    page.render().add_tab(&mut page);
    assert_eq!(ids(&page), vec![0, i32::MAX - 2, i32::MAX - 1]);
    assert_eq!(page.next_id, i32::MAX);
}

#[test]
fn add_button_sample_counts_its_tabs() {
    let mut page = TabViewPage::new();
    let tabs = page.render().add_button_tabs();
    assert_eq!(tabs.len(), 2);
    assert_eq!(tabs[0].header, "Tab 1");
    assert_eq!(tabs[1].content, "Content 2");
    assert_eq!(tabs[1].key, None);
    page.render().add_button_clicked(&mut page);
    assert_eq!(page.add_btn_count, 3);
    let tabs = page.render().add_button_tabs();
    assert_eq!(tabs.len(), 3);
    assert_eq!(tabs[2].header, "Tab 3");
}

#[test]
fn add_button_sample_with_no_tabs() {
    let mut page = TabViewPage::new();
    page.add_btn_count = 0;
    assert_eq!(page.render().add_button_tabs().len(), 0);
    page.add_btn_count = -4;
    assert_eq!(page.render().add_button_tabs().len(), 0);
}

#[test]
fn views_of_a_render() {
    let mut page = TabViewPage::new();
    page.render().select(&mut page, 5);
    let v = page.render().views();

    let headers: Vec<&str> = v.basic.tabs.iter().map(|t| t.header.as_str()).collect();
    assert_eq!(headers, vec!["Home", "Document", "Settings"]);
    assert_eq!(v.basic.tabs[1].content, "Document content");
    assert_eq!(v.basic.selected_index, 5);
    assert_eq!(v.basic.on_selection_changed, Some(PageHandler::SelectTab));
    assert_eq!(v.basic.on_tab_close_requested, None);

    assert_eq!(v.dynamic.tabs.len(), 3);
    assert_eq!(v.dynamic.tabs[2].key, Some("3".to_string()));
    assert_eq!(v.dynamic.selected_index, 2);
    assert_eq!(v.dynamic.on_selection_changed, Some(PageHandler::SelectTab));
    assert_eq!(v.dynamic.on_tab_close_requested, Some(PageHandler::CloseDynamicTab));
    assert_eq!(v.dynamic.on_add_tab_button_click, None);

    assert_eq!(v.add_button.tabs.len(), 2);
    assert_eq!(v.add_button.on_add_tab_button_click, Some(PageHandler::AddButtonTab));
    assert!(v.add_button.is_add_tab_button_visible);
    assert!(!v.basic.is_add_tab_button_visible);
    assert!(!v.dynamic.is_add_tab_button_visible);
    assert!(!v.fixed.is_add_tab_button_visible);
    assert_eq!(v.add_button.selected_index, 0);

    assert_eq!(v.fixed.tabs.len(), 2);
    assert_eq!(v.fixed.tabs[0].header, "Fixed A");
    assert_eq!(v.fixed.tabs[0].content, "Always present");
    assert_eq!(v.fixed.tabs[1].content, "Cannot close");
    assert_eq!(v.fixed.tabs[1].is_closable, Some(false));
    assert_eq!(v.fixed.on_selection_changed, None);
    assert_eq!(v.fixed.tab_width_mode, TabWidthMode::Equal);
    assert_eq!(v.fixed.close_button_overlay_mode, CloseButtonOverlayMode::Auto);
}

#[test]
fn handlers_bound_by_views_do_their_work() {
    let mut page = TabViewPage::new();
    let r = page.render();
    let v = r.views();
    let select = v.dynamic.on_selection_changed.unwrap();
    let close = v.dynamic.on_tab_close_requested.unwrap();
    let add = v.add_button.on_add_tab_button_click.unwrap();
    r.run_handler(&mut page, select, &PageInput::Index(1));
    assert_eq!(page.selected, 1);
    r.run_handler(&mut page, close, &PageInput::Key("2".to_string()));
    assert_eq!(ids(&page), vec![1, 3]);
    r.run_handler(&mut page, add, &PageInput::Click);
    assert_eq!(page.add_btn_count, 3);
    r.run_handler(&mut page, add, &PageInput::Index(0));
    r.run_handler(&mut page, select, &PageInput::Click);
    r.run_handler(&mut page, close, &PageInput::Index(3));
    assert_eq!(page.selected, 1);
    assert_eq!(ids(&page), vec![1, 3]);
    assert_eq!(page.add_btn_count, 3);
}
