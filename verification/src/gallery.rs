//! The gallery's tab view page: its state (the selected tab, the ids of the
//! dynamic tabs, the id the next added tab gets, the number of tabs in the
//! add-button sample), what a render shows of it, and what each control of a
//! render does to it. A control's handler works from the values its render
//! captured, so several clicks between two renders all start from the same
//! values.
use vstd::prelude::*;
use crate::decimal::{decimal, i32_to_decimal, lemma_parse_decimal, parse_i32, parsed_i32};
use crate::widgets::binding::{CloseButtonOverlayMode, TabWidthMode};
use crate::widgets::tab_view::{TabItem, TabView};

verus! {

/// The page's dynamic tabs are told apart by their ids: no id occurs twice,
/// and every id is below the id the next added tab gets.
pub open spec fn ids_well_formed(ids: Seq<i32>, next_id: i32) -> bool {
    &&& forall|a: int, b: int| 0 <= a < b < ids.len() ==> ids[a] != ids[b]
    &&& forall|k: int| 0 <= k < ids.len() ==> ids[k] < next_id
}

/// Whether an id differs from `id`.
pub open spec fn other_than(id: i32) -> spec_fn(i32) -> bool {
    |x: i32| x != id
}

/// The ids left when the tab with id `id` is closed.
pub open spec fn ids_without(ids: Seq<i32>, id: i32) -> Seq<i32> {
    ids.filter(other_than(id))
}

/// The selection shown by the dynamic tab view: the selected index, or the
/// last tab's index when the selection lies past it.
pub open spec fn shown_selection_of(selected: i32, count: int) -> int {
    if selected <= count - 1 {
        selected as int
    } else {
        count - 1
    }
}

/// The values of the page's state.
#[verifier::ext_equal]
pub ghost struct PageModel {
    pub selected: i32,
    pub tab_ids: Seq<i32>,
    pub next_id: i32,
    pub add_btn_count: i32,
}

/// The page as first shown: the first tab selected, dynamic tabs 1, 2 and 3,
/// the next tab numbered 4, two tabs in the add-button sample.
pub open spec fn initial_page() -> PageModel {
    PageModel { selected: 0, tab_ids: seq![1i32, 2, 3], next_id: 4, add_btn_count: 2 }
}

/// The state after a tab view reports that tab `i` was selected.
pub open spec fn after_select(page: PageModel, i: i32) -> PageModel {
    PageModel { selected: i, ..page }
}

/// The state after a request, on a render that showed `shown`, to close the
/// dynamic tab with key `key`: a key that reads as an id sets the ids to those
/// shown other than that id, unless none would be left; otherwise the state
/// stays as it is.
pub open spec fn after_close(shown: PageModel, page: PageModel, key: Seq<char>) -> PageModel {
    match parsed_i32(key) {
        Some(id) => if ids_without(shown.tab_ids, id).len() > 0 {
            PageModel { tab_ids: ids_without(shown.tab_ids, id), ..page }
        } else {
            page
        },
        None => page,
    }
}

/// The state after "Add Tab" is clicked on a render that showed `shown`: the
/// ids shown with the next id appended, and the next id one more.
pub open spec fn after_add_tab(shown: PageModel, page: PageModel) -> PageModel {
    PageModel {
        tab_ids: shown.tab_ids.push(shown.next_id),
        next_id: (shown.next_id + 1) as i32,
        ..page
    }
}

/// The state after "Remove Tab" is clicked on a render that showed `shown`:
/// the ids shown without the last one.
pub open spec fn after_remove_tab(shown: PageModel, page: PageModel) -> PageModel {
    PageModel {
        tab_ids: if shown.tab_ids.len() > 0 {
            shown.tab_ids.drop_last()
        } else {
            shown.tab_ids
        },
        ..page
    }
}

/// The state after the add-tab button of the add-button sample is clicked on
/// a render that showed `shown`: one more tab than shown.
pub open spec fn after_add_button(shown: PageModel, page: PageModel) -> PageModel {
    PageModel { add_btn_count: (shown.add_btn_count + 1) as i32, ..page }
}

/// Something that happens on the page: a render, or a control of the latest
/// render being used.
pub ghost enum PageEvent {
    Render,
    Select(i32),
    CloseRequested(Seq<char>),
    AddTab,
    RemoveTab,
    AddButtonClicked,
}

/// Whether `event` can happen on a render that showed `shown`: "Remove Tab" is
/// enabled only while more than one tab is shown, and adding stops before an
/// id or count would pass `i32::MAX`.
pub open spec fn event_allowed(shown: PageModel, event: PageEvent) -> bool {
    match event {
        PageEvent::AddTab => shown.next_id < i32::MAX,
        PageEvent::RemoveTab => shown.tab_ids.len() > 1,
        PageEvent::AddButtonClicked => shown.add_btn_count < i32::MAX,
        _ => true,
    }
}

/// What the latest render showed and the state, after `event`.
pub open spec fn page_step(shown: PageModel, page: PageModel, event: PageEvent) -> (PageModel, PageModel) {
    match event {
        PageEvent::Render => (page, page),
        PageEvent::Select(i) => (shown, after_select(page, i)),
        PageEvent::CloseRequested(key) => (shown, after_close(shown, page, key)),
        PageEvent::AddTab => (shown, after_add_tab(shown, page)),
        PageEvent::RemoveTab => (shown, after_remove_tab(shown, page)),
        PageEvent::AddButtonClicked => (shown, after_add_button(shown, page)),
    }
}

/// What the latest render showed and the state, after `events` in turn.
pub open spec fn page_run(shown: PageModel, page: PageModel, events: Seq<PageEvent>) -> (PageModel, PageModel)
    decreases events.len(),
{
    if events.len() == 0 {
        (shown, page)
    } else {
        let (s, p) = page_step(shown, page, events[0]);
        page_run(s, p, events.drop_first())
    }
}

/// Whether every event of `events` can happen when its turn comes.
pub open spec fn page_run_allowed(shown: PageModel, page: PageModel, events: Seq<PageEvent>) -> bool
    decreases events.len(),
{
    if events.len() == 0 {
        true
    } else {
        let (s, p) = page_step(shown, page, events[0]);
        event_allowed(shown, events[0]) && page_run_allowed(s, p, events.drop_first())
    }
}

/// What holds between the latest render and the state: both hold at least one
/// dynamic tab, with distinct ids below their next id, and the state's next id
/// is the one shown or one more.
pub open spec fn page_invariant(shown: PageModel, page: PageModel) -> bool {
    &&& shown.tab_ids.len() > 0
    &&& ids_well_formed(shown.tab_ids, shown.next_id)
    &&& page.tab_ids.len() > 0
    &&& ids_well_formed(page.tab_ids, page.next_id)
    &&& (page.next_id == shown.next_id || page.next_id == shown.next_id + 1)
}

/// What a control of a tab view on the page does when used: select a tab,
/// close a dynamic tab, or add a tab to the add-button sample. The render's
/// methods of the same names carry it out.
#[derive(Copy, Clone, Debug, PartialEq, Eq, Structural)]
pub enum PageHandler {
    SelectTab,
    CloseDynamicTab,
    AddButtonTab,
}

/// What a tab view hands to the handler it invokes: the newly selected index,
/// the key of the tab asked to close, or a click of the add-tab button.
pub enum PageInput {
    Index(i32),
    Key(String),
    Click,
}

/// The state after the handler `handler`, bound by a view of a render that
/// showed `shown`, is invoked with `input`: selecting sets the selection,
/// closing closes by key, the add-tab button adds a counted tab. An input of
/// a kind the handler does not take changes nothing.
pub open spec fn after_handler(shown: PageModel, page: PageModel, handler: PageHandler, input: PageInput) -> PageModel {
    match (handler, input) {
        (PageHandler::SelectTab, PageInput::Index(i)) => after_select(page, i),
        (PageHandler::CloseDynamicTab, PageInput::Key(key)) => after_close(shown, page, key@),
        (PageHandler::AddButtonTab, PageInput::Click) => after_add_button(shown, page),
        _ => page,
    }
}

/// A tab view of the page: text content, page handlers.
pub type PageTabView = TabView<String, PageHandler, PageHandler, PageHandler>;

/// The four tab views of a render: the basic one, the dynamic one, the
/// add-button sample and the non-closable one.
pub struct TabViewPageViews {
    pub basic: PageTabView,
    pub dynamic: PageTabView,
    pub add_button: PageTabView,
    pub fixed: PageTabView,
}

/// A tab with header `header`, content text `content`, closability
/// `closable` and no key.
pub open spec fn text_tab(tab: TabItem<String>, header: Seq<char>, content: Seq<char>, closable: Option<bool>) -> bool {
    &&& tab.header@ == header
    &&& tab.content@ == content
    &&& tab.is_closable == closable
    &&& tab.key == None::<String>
}

/// A tab view with the given selected index, handlers and add-tab button
/// visibility, and every other option at its default.
pub open spec fn page_view_options(
    v: PageTabView,
    selected: int,
    on_select: Option<PageHandler>,
    on_close: Option<PageHandler>,
    on_add: Option<PageHandler>,
    add_button_visible: bool,
) -> bool {
    &&& v.key == None::<String>
    &&& v.selected_index == selected
    &&& !v.can_reorder_tabs
    &&& v.on_selection_changed == on_select
    &&& v.on_tab_close_requested == on_close
    &&& v.on_add_tab_button_click == on_add
    &&& v.is_add_tab_button_visible == add_button_visible
    &&& v.tab_width_mode == TabWidthMode::Equal
    &&& v.close_button_overlay_mode == CloseButtonOverlayMode::Auto
}

/// The dynamic tab for id `id`: header "Tab <id>", content text
/// "Content of Tab <id>", key "<id>".
pub open spec fn dynamic_tab(tab: TabItem<String>, id: i32) -> bool {
    &&& numbered_tab(tab, "Tab "@, "Content of Tab "@, id)
    &&& tab.key matches Some(key) && key@ == decimal(id as int)
}

/// The `k`-th tab of the add-button sample: header "Tab <k+1>", content text
/// "Content <k+1>", no key.
pub open spec fn counted_tab(tab: TabItem<String>, k: int) -> bool {
    &&& numbered_tab(tab, "Tab "@, "Content "@, (k + 1) as i32)
    &&& tab.key == None::<String>
}

/// A tab with text content and no key.
fn text_tab_item(header: &str, content: &str) -> (t: TabItem<String>)
    ensures
        text_tab(t, header@, content@, None),
{
    TabItem::new(header.to_owned(), content.to_owned())
}

/// The state of the tab view page.
pub struct TabViewPage {
    pub selected: i32,
    pub tab_ids: Vec<i32>,
    pub next_id: i32,
    pub add_btn_count: i32,
}

/// The values a render of the page captured; its controls act on the page
/// from these.
pub struct TabViewRender {
    pub selected: i32,
    pub tab_ids: Vec<i32>,
    pub next_id: i32,
    pub add_btn_count: i32,
}

impl TabViewPage {
    pub open spec fn view(&self) -> PageModel {
        PageModel {
            selected: self.selected,
            tab_ids: self.tab_ids@,
            next_id: self.next_id,
            add_btn_count: self.add_btn_count,
        }
    }

    /// The page as first shown.
    pub fn new() -> (page: Self)
        ensures
            page@ == initial_page(),
    {
        let mut tab_ids: Vec<i32> = Vec::new();
        tab_ids.push(1);
        tab_ids.push(2);
        tab_ids.push(3);
        TabViewPage { selected: 0, tab_ids, next_id: 4, add_btn_count: 2 }
    }

    /// Renders the page: captures its present values.
    pub fn render(&self) -> (r: TabViewRender)
        ensures
            r@ == self@,
    {
        TabViewRender {
            selected: self.selected,
            tab_ids: self.tab_ids.clone(),
            next_id: self.next_id,
            add_btn_count: self.add_btn_count,
        }
    }
}

impl TabViewRender {
    pub open spec fn view(&self) -> PageModel {
        PageModel {
            selected: self.selected,
            tab_ids: self.tab_ids@,
            next_id: self.next_id,
            add_btn_count: self.add_btn_count,
        }
    }

    /// The number of dynamic tabs shown.
    pub fn tab_count(&self) -> (n: i32)
        requires
            self.tab_ids@.len() <= i32::MAX,
        ensures
            n == self.tab_ids@.len(),
    {
        self.tab_ids.len() as i32
    }

    /// The index the dynamic tab view shows as selected. It is a valid index
    /// whenever a tab is shown and the selection is not negative.
    pub fn shown_selection(&self) -> (i: i32)
        requires
            self.tab_ids@.len() <= i32::MAX,
        ensures
            i == shown_selection_of(self.selected, self.tab_ids@.len() as int),
            self.tab_ids@.len() > 0 && self.selected >= 0 ==> 0 <= i < self.tab_ids@.len(),
            self.selected <= self.tab_ids@.len() - 1 ==> i == self.selected,
            self.selected > self.tab_ids@.len() - 1 ==> i == self.tab_ids@.len() - 1,
    {
        let count = self.tab_count();
        if self.selected <= count - 1 {
            self.selected
        } else {
            count - 1
        }
    }

    /// Whether the "Remove Tab" button is enabled: more than one tab is shown.
    pub fn remove_enabled(&self) -> (b: bool)
        requires
            self.tab_ids@.len() <= i32::MAX,
        ensures
            b == (self.tab_ids@.len() > 1),
    {
        self.tab_count() > 1
    }

    /// A tab view of this render reports that tab `i` was selected.
    pub fn select(&self, page: &mut TabViewPage, i: i32)
        ensures
            final(page)@ == after_select(old(page)@, i),
            final(page).selected == i,
            final(page).tab_ids@ == old(page).tab_ids@,
            final(page).next_id == old(page).next_id,
            final(page).add_btn_count == old(page).add_btn_count,
    {
        page.selected = i;
    }

    /// The user asks to close the dynamic tab with key `key`.
    pub fn close_requested(&self, page: &mut TabViewPage, key: &str)
        ensures
            final(page)@ == after_close(self@, old(page)@, key@),
    {
        if let Some(id) = parse_i32(key) {
            let remaining = without(&self.tab_ids, id);
            if remaining.len() > 0 {
                page.tab_ids = remaining;
            }
        }
    }

    /// The user clicks "Add Tab".
    pub fn add_tab(&self, page: &mut TabViewPage)
        requires
            self.next_id < i32::MAX,
        ensures
            final(page)@ == after_add_tab(self@, old(page)@),
            final(page).tab_ids@.len() == self.tab_ids@.len() + 1,
            forall|k: int| 0 <= k < self.tab_ids@.len() ==> #[trigger] final(page).tab_ids@[k] == self.tab_ids@[k],
            final(page).tab_ids@.last() == self.next_id,
            final(page).next_id == self.next_id + 1,
            final(page).selected == old(page).selected,
            final(page).add_btn_count == old(page).add_btn_count,
    {
        let mut ids = self.tab_ids.clone();
        ids.push(self.next_id);
        page.tab_ids = ids;
        page.next_id = self.next_id + 1;
    }

    /// The user clicks "Remove Tab".
    pub fn remove_tab(&self, page: &mut TabViewPage)
        ensures
            final(page)@ == after_remove_tab(self@, old(page)@),
            self.tab_ids@.len() > 0 ==> final(page).tab_ids@.len() == self.tab_ids@.len() - 1,
            self.tab_ids@.len() == 0 ==> final(page).tab_ids@.len() == 0,
            forall|k: int| 0 <= k < final(page).tab_ids@.len() ==> #[trigger] final(page).tab_ids@[k] == self.tab_ids@[k],
            final(page).selected == old(page).selected,
            final(page).next_id == old(page).next_id,
            final(page).add_btn_count == old(page).add_btn_count,
    {
        let mut ids = self.tab_ids.clone();
        ids.pop();
        page.tab_ids = ids;
    }

    /// The user clicks the add-tab button of the add-button sample.
    pub fn add_button_clicked(&self, page: &mut TabViewPage)
        requires
            self.add_btn_count < i32::MAX,
        ensures
            final(page)@ == after_add_button(self@, old(page)@),
            final(page).add_btn_count == self.add_btn_count + 1,
            final(page).selected == old(page).selected,
            final(page).tab_ids@ == old(page).tab_ids@,
            final(page).next_id == old(page).next_id,
    {
        page.add_btn_count = self.add_btn_count + 1;
    }

    /// Invokes the handler `handler`, bound by one of this render's views,
    /// with `input`: the render's method of the same name does the work.
    pub fn run_handler(&self, page: &mut TabViewPage, handler: PageHandler, input: &PageInput)
        requires
            handler == PageHandler::AddButtonTab && input is Click ==> self.add_btn_count < i32::MAX,
        ensures
            final(page)@ == after_handler(self@, old(page)@, handler, *input),
    {
        match (handler, input) {
            (PageHandler::SelectTab, PageInput::Index(i)) => self.select(page, *i),
            (PageHandler::CloseDynamicTab, PageInput::Key(key)) => self.close_requested(page, key.as_str()),
            (PageHandler::AddButtonTab, PageInput::Click) => self.add_button_clicked(page),
            _ => {},
        }
    }

    /// The four tab views of this render. The basic view holds tabs "Home",
    /// "Document" and "Settings" and follows the selection. The dynamic view
    /// holds the dynamic tabs, shows [`Self::shown_selection`] and handles
    /// selection and close requests. The add-button sample holds the counted
    /// tabs, shows its add-tab (+) button and handles clicks on it. The
    /// non-closable view holds tabs "Fixed A" and "Fixed B", neither closable.
    pub fn views(&self) -> (v: TabViewPageViews)
        requires
            self.tab_ids@.len() <= i32::MAX,
        ensures
            v.basic.tabs@.len() == 3,
            text_tab(v.basic.tabs@[0], "Home"@, "Home content"@, None),
            text_tab(v.basic.tabs@[1], "Document"@, "Document content"@, None),
            text_tab(v.basic.tabs@[2], "Settings"@, "Settings content"@, None),
            page_view_options(v.basic, self.selected as int, Some(PageHandler::SelectTab), None, None, false),
            v.dynamic.tabs@.len() == self.tab_ids@.len(),
            forall|k: int|
                0 <= k < v.dynamic.tabs@.len() ==> dynamic_tab(#[trigger] v.dynamic.tabs@[k], self.tab_ids@[k]),
            page_view_options(
                v.dynamic,
                shown_selection_of(self.selected, self.tab_ids@.len() as int),
                Some(PageHandler::SelectTab),
                Some(PageHandler::CloseDynamicTab),
                None,
                false,
            ),
            v.add_button.tabs@.len() == if self.add_btn_count > 0 { self.add_btn_count as int } else { 0 },
            forall|k: int| 0 <= k < v.add_button.tabs@.len() ==> counted_tab(#[trigger] v.add_button.tabs@[k], k),
            page_view_options(v.add_button, 0, None, None, Some(PageHandler::AddButtonTab), true),
            v.fixed.tabs@.len() == 2,
            text_tab(v.fixed.tabs@[0], "Fixed A"@, "Always present"@, Some(false)),
            text_tab(v.fixed.tabs@[1], "Fixed B"@, "Cannot close"@, Some(false)),
            page_view_options(v.fixed, 0, None, None, None, false),
    {
        let mut basic_tabs: Vec<TabItem<String>> = Vec::new();
        basic_tabs.push(text_tab_item("Home", "Home content"));
        basic_tabs.push(text_tab_item("Document", "Document content"));
        basic_tabs.push(text_tab_item("Settings", "Settings content"));
        let basic = TabView::new(basic_tabs)
            .selected_index(self.selected)
            .on_selection_changed(PageHandler::SelectTab);

        let dynamic = TabView::new(self.dynamic_tabs())
            .selected_index(self.shown_selection())
            .on_selection_changed(PageHandler::SelectTab)
            .on_tab_close_requested(PageHandler::CloseDynamicTab);

        let add_button = TabView::new(self.add_button_tabs())
            .on_add_tab_button_click(PageHandler::AddButtonTab)
            .is_add_tab_button_visible(true);

        let mut fixed_tabs: Vec<TabItem<String>> = Vec::new();
        fixed_tabs.push(text_tab_item("Fixed A", "Always present").closable(false));
        fixed_tabs.push(text_tab_item("Fixed B", "Cannot close").closable(false));
        let fixed = TabView::new(fixed_tabs);

        TabViewPageViews { basic, dynamic, add_button, fixed }
    }

    /// The dynamic tabs, one per id in order: header "Tab <id>", content text
    /// "Content of Tab <id>", key "<id>".
    pub fn dynamic_tabs(&self) -> (tabs: Vec<TabItem<String>>)
        ensures
            tabs@.len() == self.tab_ids@.len(),
            forall|k: int|
                0 <= k < tabs@.len() ==> dynamic_tab(#[trigger] tabs@[k], self.tab_ids@[k]),
    {
        let mut tabs: Vec<TabItem<String>> = Vec::new();
        let n = self.tab_ids.len();
        for k in 0..n
            invariant
                n == self.tab_ids@.len(),
                tabs@.len() == k,
                forall|j: int|
                    0 <= j < k ==> dynamic_tab(#[trigger] tabs@[j], self.tab_ids@[j]),
        {
            let id = self.tab_ids[k];
            let tab = TabItem::new(prefixed_number("Tab ", id), prefixed_number("Content of Tab ", id))
                .with_key(i32_to_decimal(id));
            tabs.push(tab);
        }
        tabs
    }

    /// The tabs of the add-button sample, numbered from 1 to the tab count:
    /// header "Tab <i>", content text "Content <i>", no key.
    pub fn add_button_tabs(&self) -> (tabs: Vec<TabItem<String>>)
        ensures
            tabs@.len() == if self.add_btn_count > 0 { self.add_btn_count as int } else { 0 },
            forall|k: int|
                0 <= k < tabs@.len() ==> counted_tab(#[trigger] tabs@[k], k),
    {
        let mut tabs: Vec<TabItem<String>> = Vec::new();
        let count = self.add_btn_count as i64;
        let mut i: i64 = 1;
        while i <= count
            invariant
                count == self.add_btn_count,
                1 <= i,
                i <= count + 1 || i == 1,
                tabs@.len() == i - 1,
                forall|k: int|
                    0 <= k < tabs@.len() ==> counted_tab(#[trigger] tabs@[k], k),
            decreases count + 1 - i,
        {
            let n = i as i32;
            tabs.push(TabItem::new(prefixed_number("Tab ", n), prefixed_number("Content ", n)));
            i = i + 1;
        }
        tabs
    }
}

/// The ids of `ids` other than `id`, in their order.
fn without(ids: &Vec<i32>, id: i32) -> (out: Vec<i32>)
    ensures
        out@ == ids_without(ids@, id),
{
    let mut out: Vec<i32> = Vec::new();
    let n = ids.len();
    for k in 0..n
        invariant
            n == ids@.len(),
            out@ == ids@.take(k as int).filter(other_than(id)),
    {
        proof {
            reveal_with_fuel(Seq::<i32>::filter, 1);
            assert(ids@.take(k + 1).drop_last() =~= ids@.take(k as int));
        }
        if ids[k] != id {
            out.push(ids[k]);
        }
    }
    proof {
        assert(ids@.take(n as int) =~= ids@);
    }
    out
}

/// Removing one id keeps the remaining ids distinct and below the next id.
proof fn lemma_filter_keeps_well_formed(ids: Seq<i32>, id: i32, next_id: i32)
    requires
        ids_well_formed(ids, next_id),
    ensures
        ids_well_formed(ids_without(ids, id), next_id),
    decreases ids.len(),
{
    reveal_with_fuel(Seq::<i32>::filter, 1);
    if ids.len() > 0 {
        let init = ids.drop_last();
        assert(ids_well_formed(init, next_id));
        lemma_filter_keeps_well_formed(init, id, next_id);
        let r = ids_without(init, id);
        assert forall|k: int| 0 <= k < r.len() implies #[trigger] r[k] != ids.last() by {
            assert(r.contains(r[k]));
            init.lemma_filter_contains_rev(other_than(id), r[k]);
            let j = choose|j: int| 0 <= j < init.len() && init[j] == r[k];
            assert(ids[j] == init[j]);
        }
        assert forall|k: int| 0 <= k < r.len() implies #[trigger] r[k] < next_id by {
            assert(r.contains(r[k]));
            init.lemma_filter_contains_rev(other_than(id), r[k]);
            let j = choose|j: int| 0 <= j < init.len() && init[j] == r[k];
            assert(ids[j] == init[j]);
        }
    }
}

/// Ids well formed below one next id are well formed below any larger one.
proof fn lemma_well_formed_below_larger(ids: Seq<i32>, next_id: i32, larger: i32)
    requires
        ids_well_formed(ids, next_id),
        next_id <= larger,
    ensures
        ids_well_formed(ids, larger),
{
}

/// Every event that can happen keeps [`page_invariant`].
pub proof fn lemma_page_step_keeps_invariant(shown: PageModel, page: PageModel, event: PageEvent)
    requires
        page_invariant(shown, page),
        event_allowed(shown, event),
    ensures
        page_invariant(page_step(shown, page, event).0, page_step(shown, page, event).1),
{
    match event {
        PageEvent::CloseRequested(key) => {
            if let Some(id) = parsed_i32(key) {
                lemma_filter_keeps_well_formed(shown.tab_ids, id, shown.next_id);
                lemma_well_formed_below_larger(ids_without(shown.tab_ids, id), shown.next_id, page.next_id);
            }
        },
        PageEvent::AddTab => {
            let ids = shown.tab_ids.push(shown.next_id);
            assert(ids_well_formed(ids, (shown.next_id + 1) as i32)) by {
                assert forall|a: int, b: int| 0 <= a < b < ids.len() implies ids[a] != ids[b] by {
                    if b == ids.len() - 1 {
                        assert(ids[a] == shown.tab_ids[a]);
                    } else {
                        assert(ids[a] == shown.tab_ids[a] && ids[b] == shown.tab_ids[b]);
                    }
                }
                assert forall|k: int| 0 <= k < ids.len() implies ids[k] < shown.next_id + 1 by {
                    if k < ids.len() - 1 {
                        assert(ids[k] == shown.tab_ids[k]);
                    }
                }
            }
        },
        PageEvent::RemoveTab => {
            let ids = shown.tab_ids.drop_last();
            assert(ids_well_formed(ids, shown.next_id)) by {
                assert forall|a: int, b: int| 0 <= a < b < ids.len() implies ids[a] != ids[b] by {
                    assert(ids[a] == shown.tab_ids[a] && ids[b] == shown.tab_ids[b]);
                }
                assert forall|k: int| 0 <= k < ids.len() implies ids[k] < shown.next_id by {
                    assert(ids[k] == shown.tab_ids[k]);
                }
            }
            lemma_well_formed_below_larger(ids, shown.next_id, page.next_id);
        },
        _ => {},
    }
}

/// From any pair that satisfies [`page_invariant`], every run of events that
/// can happen ends in a pair that satisfies it too.
pub proof fn lemma_page_run_keeps_invariant(shown: PageModel, page: PageModel, events: Seq<PageEvent>)
    requires
        page_invariant(shown, page),
        page_run_allowed(shown, page, events),
    ensures
        page_invariant(page_run(shown, page, events).0, page_run(shown, page, events).1),
    decreases events.len(),
{
    if events.len() > 0 {
        lemma_page_step_keeps_invariant(shown, page, events[0]);
        let (s, p) = page_step(shown, page, events[0]);
        lemma_page_run_keeps_invariant(s, p, events.drop_first());
    }
}

/// Starting from the page as first shown, after any run of renders and uses of
/// the latest render's controls that can happen, the state and the latest
/// render each hold at least one dynamic tab, with distinct ids, each below
/// the next id.
pub proof fn lemma_page_runs_keep_invariant(events: Seq<PageEvent>)
    requires
        page_run_allowed(initial_page(), initial_page(), events),
    ensures
        page_invariant(
            page_run(initial_page(), initial_page(), events).0,
            page_run(initial_page(), initial_page(), events).1,
        ),
{
    assert(ids_well_formed(initial_page().tab_ids, initial_page().next_id));
    lemma_page_run_keeps_invariant(initial_page(), initial_page(), events);
}

/// Distinct ids give distinct keys: the dynamic tabs of a render whose ids are
/// well formed have pairwise different keys.
pub proof fn lemma_distinct_ids_distinct_keys(ids: Seq<i32>, next_id: i32)
    requires
        ids_well_formed(ids, next_id),
    ensures
        forall|a: int, b: int|
            0 <= a < b < ids.len() ==> decimal(ids[a] as int) != decimal(ids[b] as int),
{
    assert forall|a: int, b: int| 0 <= a < b < ids.len() implies decimal(ids[a] as int) != decimal(
        ids[b] as int,
    ) by {
        lemma_parse_decimal(ids[a]);
        lemma_parse_decimal(ids[b]);
    }
}

/// The dynamic view shows the smaller of the selection and the last tab's
/// index: never more than either, and equal to one of them.
pub proof fn lemma_shown_selection_is_min(selected: i32, count: int)
    ensures
        shown_selection_of(selected, count) <= selected,
        shown_selection_of(selected, count) <= count - 1,
        shown_selection_of(selected, count) == selected || shown_selection_of(selected, count) == count - 1,
{
}

/// A click of the add-tab button on a render that showed `c` tabs, below
/// `i32::MAX`, leaves `c + 1` tabs to show, whatever the state held; the
/// rest of the state is untouched.
pub proof fn lemma_add_button_adds_one(shown: PageModel, page: PageModel)
    requires
        shown.add_btn_count < i32::MAX,
    ensures
        after_add_button(shown, page).add_btn_count == shown.add_btn_count + 1,
        after_add_button(shown, page).add_btn_count > shown.add_btn_count,
        after_add_button(shown, page).selected == page.selected,
        after_add_button(shown, page).tab_ids == page.tab_ids,
        after_add_button(shown, page).next_id == page.next_id,
{
}

/// "Add Tab" on a render that showed ids `s` and next id `n` leaves the ids
/// `s` followed by `n`: one more id, every shown id kept at its index, `n`
/// last; the next id becomes `n + 1`.
pub proof fn lemma_add_tab_appends(shown: PageModel, page: PageModel)
    requires
        shown.next_id < i32::MAX,
    ensures
        after_add_tab(shown, page).tab_ids.len() == shown.tab_ids.len() + 1,
        forall|k: int|
            0 <= k < shown.tab_ids.len() ==> #[trigger] after_add_tab(shown, page).tab_ids[k]
                == shown.tab_ids[k],
        after_add_tab(shown, page).tab_ids[shown.tab_ids.len() as int] == shown.next_id,
        after_add_tab(shown, page).next_id == shown.next_id + 1,
        after_add_tab(shown, page).selected == page.selected,
        after_add_tab(shown, page).add_btn_count == page.add_btn_count,
{
}

/// "Remove Tab" on a render that showed ids `s` leaves `s` without its last
/// id: one id fewer, every other shown id kept at its index (nothing when
/// nothing was shown).
pub proof fn lemma_remove_tab_drops_last(shown: PageModel, page: PageModel)
    ensures
        shown.tab_ids.len() > 0 ==> after_remove_tab(shown, page).tab_ids.len() == shown.tab_ids.len() - 1,
        shown.tab_ids.len() == 0 ==> after_remove_tab(shown, page).tab_ids.len() == 0,
        forall|k: int|
            0 <= k < after_remove_tab(shown, page).tab_ids.len() ==> #[trigger] after_remove_tab(
                shown,
                page,
            ).tab_ids[k] == shown.tab_ids[k],
        after_remove_tab(shown, page).selected == page.selected,
        after_remove_tab(shown, page).next_id == page.next_id,
        after_remove_tab(shown, page).add_btn_count == page.add_btn_count,
{
}

/// A selection sets the selected index to the one reported and nothing else.
pub proof fn lemma_select_sets_selection(page: PageModel, i: i32)
    ensures
        after_select(page, i).selected == i,
        after_select(page, i).tab_ids == page.tab_ids,
        after_select(page, i).next_id == page.next_id,
        after_select(page, i).add_btn_count == page.add_btn_count,
{
}

/// A close request whose key reads as an id that some shown tab does not
/// have leaves exactly the shown ids other than that id, in their shown
/// order; any other request leaves the state as it was.
pub proof fn lemma_close_keeps_the_other_ids(shown: PageModel, page: PageModel, key: Seq<char>)
    ensures
        parsed_i32(key) is None ==> after_close(shown, page, key) == page,
        parsed_i32(key) matches Some(id) ==> {
            let after = after_close(shown, page, key);
            &&& (exists|k: int| 0 <= k < shown.tab_ids.len() && shown.tab_ids[k] != id) ==> {
                &&& forall|x: i32| #[trigger] after.tab_ids.contains(x) <==> (shown.tab_ids.contains(x) && x != id)
                &&& after.selected == page.selected
                &&& after.next_id == page.next_id
                &&& after.add_btn_count == page.add_btn_count
            }
            &&& (forall|k: int| 0 <= k < shown.tab_ids.len() ==> shown.tab_ids[k] == id) ==> after == page
        },
{
    broadcast use vstd::seq_lib::group_filter_ensures;
    if let Some(id) = parsed_i32(key) {
        let rest = ids_without(shown.tab_ids, id);
        if exists|k: int| 0 <= k < shown.tab_ids.len() && shown.tab_ids[k] != id {
            let k = choose|k: int| 0 <= k < shown.tab_ids.len() && shown.tab_ids[k] != id;
            assert(rest.contains(shown.tab_ids[k]));
            assert(rest.len() > 0);
            assert forall|x: i32| #[trigger] rest.contains(x) <==> (shown.tab_ids.contains(x) && x != id) by {
                if rest.contains(x) {
                    shown.tab_ids.lemma_filter_contains_rev(other_than(id), x);
                    let j = choose|j: int| 0 <= j < rest.len() && rest[j] == x;
                    assert(other_than(id)(rest[j]));
                }
                if shown.tab_ids.contains(x) && x != id {
                    let j = choose|j: int| 0 <= j < shown.tab_ids.len() && shown.tab_ids[j] == x;
                    assert(rest.contains(shown.tab_ids[j]));
                }
            }
        } else {
            if rest.len() > 0 {
                assert(other_than(id)(rest[0]));
                assert(rest.contains(rest[0]));
                shown.tab_ids.lemma_filter_contains_rev(other_than(id), rest[0]);
            }
        }
    }
}

/// Each handler a view binds does its own work: selecting sets the selection
/// to the index reported, the add-tab button shows one more tab than
/// rendered, closing acts as a close request for the key; an input of another
/// kind changes nothing.
pub proof fn lemma_handlers_do_their_work(shown: PageModel, page: PageModel, handler: PageHandler, input: PageInput)
    requires
        shown.add_btn_count < i32::MAX,
    ensures
        (handler, input) matches (PageHandler::SelectTab, PageInput::Index(i)) ==> {
            &&& after_handler(shown, page, handler, input).selected == i
            &&& after_handler(shown, page, handler, input).tab_ids == page.tab_ids
        },
        (handler, input) matches (PageHandler::AddButtonTab, PageInput::Click) ==> {
            &&& after_handler(shown, page, handler, input).add_btn_count == shown.add_btn_count + 1
            &&& after_handler(shown, page, handler, input).tab_ids == page.tab_ids
        },
        (handler, input) matches (PageHandler::CloseDynamicTab, PageInput::Key(key)) ==> after_handler(
            shown,
            page,
            handler,
            input,
        ) == after_close(shown, page, key@),
        !((handler, input) matches (PageHandler::SelectTab, PageInput::Index(_))) && !((handler, input) matches (PageHandler::AddButtonTab, PageInput::Click)) && !((handler, input) matches (PageHandler::CloseDynamicTab, PageInput::Key(_)))
            ==> after_handler(shown, page, handler, input) == page,
{
}

/// Where in `ids` the `a`-th id left by closing the tab with id `id` was
/// shown.
pub open spec fn shown_position(ids: Seq<i32>, id: i32, a: int) -> int
    decreases ids.len(),
{
    if ids.len() == 0 {
        0
    } else if a < ids_without(ids.drop_last(), id).len() {
        shown_position(ids.drop_last(), id, a)
    } else {
        ids.len() - 1
    }
}

/// The ids left by closing keep the order in which they were shown: each of
/// them stands at a position of the shown ids, and of any two of them the
/// first stands before the second.
pub proof fn lemma_close_keeps_shown_order(ids: Seq<i32>, id: i32)
    ensures
        forall|a: int|
            0 <= a < ids_without(ids, id).len() ==> {
                &&& 0 <= #[trigger] shown_position(ids, id, a) < ids.len()
                &&& ids[shown_position(ids, id, a)] == ids_without(ids, id)[a]
            },
        forall|a: int, b: int|
            0 <= a < b < ids_without(ids, id).len() ==> #[trigger] shown_position(ids, id, a)
                < #[trigger] shown_position(ids, id, b),
    decreases ids.len(),
{
    reveal_with_fuel(Seq::<i32>::filter, 1);
    if ids.len() > 0 {
        let init = ids.drop_last();
        lemma_close_keeps_shown_order(init, id);
        let r0 = ids_without(init, id);
        let r = ids_without(ids, id);
        assert forall|a: int| 0 <= a < r.len() implies {
            &&& 0 <= #[trigger] shown_position(ids, id, a) < ids.len()
            &&& ids[shown_position(ids, id, a)] == r[a]
        } by {
            if a < r0.len() {
                assert(shown_position(ids, id, a) == shown_position(init, id, a));
                assert(r[a] == r0[a]);
                assert(ids[shown_position(init, id, a)] == init[shown_position(init, id, a)]);
            } else {
                assert(r[a] == ids.last());
            }
        }
        assert forall|a: int, b: int| 0 <= a < b < r.len() implies #[trigger] shown_position(ids, id, a)
            < #[trigger] shown_position(ids, id, b) by {
            if b < r0.len() {
                assert(shown_position(ids, id, a) == shown_position(init, id, a));
                assert(shown_position(ids, id, b) == shown_position(init, id, b));
            } else {
                assert(shown_position(ids, id, a) == shown_position(init, id, a));
                assert(0 <= shown_position(init, id, a) < init.len());
            }
        }
    }
}

/// Asking to close a tab by the key it was given, the decimal text of its id,
/// sets the ids to those shown other than that id, unless none would be left.
pub proof fn lemma_close_by_own_key(shown: PageModel, page: PageModel, id: i32)
    ensures
        after_close(shown, page, decimal(id as int)) == if ids_without(shown.tab_ids, id).len() > 0 {
            PageModel { tab_ids: ids_without(shown.tab_ids, id), ..page }
        } else {
            page
        },
{
    lemma_parse_decimal(id);
}

/// A tab of the page whose header is `header_prefix` and whose content text is
/// `content_prefix`, each followed by the decimal text of `i`.
pub open spec fn numbered_tab(
    tab: TabItem<String>,
    header_prefix: Seq<char>,
    content_prefix: Seq<char>,
    i: i32,
) -> bool {
    &&& tab.header@ == header_prefix + decimal(i as int)
    &&& tab.content@ == content_prefix + decimal(i as int)
    &&& tab.is_closable == None::<bool>
}

/// `prefix` followed by the decimal text of `i`.
fn prefixed_number(prefix: &str, i: i32) -> (s: String)
    ensures
        s@ == prefix@ + decimal(i as int),
{
    let digits = i32_to_decimal(i);
    let mut s = prefix.to_owned();
    s.append(digits.as_str());
    s
}

} // verus!
