//! The tab view widget: a strip of tabs, each with a header and content.
use vstd::prelude::*;
use crate::widgets::binding::{
    Binding, CloseButtonOverlayMode, Event, EventHandler, Prop, PropValue, TabWidthMode,
};

verus! {

/// One tab: its header, its content, an optional key that identifies it
/// across renders, and an optional override of whether it can be closed
/// (`None` keeps the platform default, closable).
#[derive(Clone, Debug)]
pub struct TabItem<C> {
    pub key: Option<String>,
    pub header: String,
    pub content: C,
    pub is_closable: Option<bool>,
}

impl<C> TabItem<C> {
    /// A tab with no key and the default closability.
    pub fn new(header: String, content: C) -> (t: Self)
        ensures
            t.key == None::<String>,
            t.header == header,
            t.content == content,
            t.is_closable == None::<bool>,
    {
        TabItem { key: None, header, content, is_closable: None }
    }

    /// Overrides whether the tab can be closed.
    pub fn closable(self, v: bool) -> (t: Self)
        ensures
            t == (TabItem { is_closable: Some(v), ..self }),
    {
        let mut t = self;
        t.is_closable = Some(v);
        t
    }

    /// Sets the key that identifies the tab.
    pub fn with_key(self, key: String) -> (t: Self)
        ensures
            t == (TabItem { key: Some(key), ..self }),
    {
        let mut t = self;
        t.key = Some(key);
        t
    }
}

/// A tab view: its tabs, the selected index, and its options and handlers.
/// `S` handles a change of selection (it receives the new index), `K` a
/// request to close a tab (it receives the tab's key), `A` a click on the
/// add-tab button.
#[derive(Clone, Debug)]
pub struct TabView<C, S, K, A> {
    pub key: Option<String>,
    pub tabs: Vec<TabItem<C>>,
    pub selected_index: i32,
    pub can_reorder_tabs: bool,
    pub on_selection_changed: Option<S>,
    pub on_tab_close_requested: Option<K>,
    pub on_add_tab_button_click: Option<A>,
    pub is_add_tab_button_visible: bool,
    pub tab_width_mode: TabWidthMode,
    pub close_button_overlay_mode: CloseButtonOverlayMode,
}

impl<C, S, K, A> TabView<C, S, K, A> {
    /// A tab view over `tabs` with every option at its default: no key, the
    /// first tab selected, no reordering, no handlers, no add-tab button,
    /// equal tab widths, the platform's close-button overlay.
    pub fn new(tabs: Vec<TabItem<C>>) -> (v: Self)
        ensures
            v.tabs@ == tabs@,
            v.key == None::<String>,
            v.selected_index == 0,
            !v.can_reorder_tabs,
            v.on_selection_changed == None::<S>,
            v.on_tab_close_requested == None::<K>,
            v.on_add_tab_button_click == None::<A>,
            !v.is_add_tab_button_visible,
            v.tab_width_mode == TabWidthMode::Equal,
            v.close_button_overlay_mode == CloseButtonOverlayMode::Auto,
    {
        TabView {
            key: None,
            tabs,
            selected_index: 0,
            can_reorder_tabs: false,
            on_selection_changed: None,
            on_tab_close_requested: None,
            on_add_tab_button_click: None,
            is_add_tab_button_visible: false,
            tab_width_mode: TabWidthMode::default(),
            close_button_overlay_mode: CloseButtonOverlayMode::default(),
        }
    }

    pub fn selected_index(self, i: i32) -> (v: Self)
        ensures
            v == (TabView { selected_index: i, ..self }),
    {
        let mut v = self;
        v.selected_index = i;
        v
    }

    /// Enables drag-to-reorder on tabs.
    pub fn can_reorder_tabs(self, b: bool) -> (v: Self)
        ensures
            v == (TabView { can_reorder_tabs: b, ..self }),
    {
        let mut v = self;
        v.can_reorder_tabs = b;
        v
    }

    pub fn on_selection_changed(self, f: S) -> (v: Self)
        ensures
            v == (TabView { on_selection_changed: Some(f), ..self }),
    {
        let mut v = self;
        v.on_selection_changed = Some(f);
        v
    }

    pub fn on_tab_close_requested(self, f: K) -> (v: Self)
        ensures
            v == (TabView { on_tab_close_requested: Some(f), ..self }),
    {
        let mut v = self;
        v.on_tab_close_requested = Some(f);
        v
    }

    pub fn on_add_tab_button_click(self, f: A) -> (v: Self)
        ensures
            v == (TabView { on_add_tab_button_click: Some(f), ..self }),
    {
        let mut v = self;
        v.on_add_tab_button_click = Some(f);
        v
    }

    pub fn is_add_tab_button_visible(self, b: bool) -> (v: Self)
        ensures
            v == (TabView { is_add_tab_button_visible: b, ..self }),
    {
        let mut v = self;
        v.is_add_tab_button_visible = b;
        v
    }

    pub fn tab_width_mode(self, m: TabWidthMode) -> (v: Self)
        ensures
            v == (TabView { tab_width_mode: m, ..self }),
    {
        let mut v = self;
        v.tab_width_mode = m;
        v
    }

    pub fn close_button_overlay_mode(self, m: CloseButtonOverlayMode) -> (v: Self)
        ensures
            v == (TabView { close_button_overlay_mode: m, ..self }),
    {
        let mut v = self;
        v.close_button_overlay_mode = m;
        v
    }

    /// The tabs, which are the children of the control.
    pub fn children(&self) -> (tabs: &Vec<TabItem<C>>)
        ensures
            tabs@ == self.tabs@,
    {
        &self.tabs
    }
}

/// The handler bound to an event: a clone of the widget's handler, or none
/// when the widget has none.
pub open spec fn bound_handler<T, H>(
    handler: Option<T>,
    bound: Option<H>,
    wraps: spec_fn(H) -> Option<T>,
) -> bool where T: Clone {
    match handler {
        None => bound is None,
        Some(h) => match bound {
            Some(b) => match wraps(b) {
                Some(c) => cloned(h, c),
                None => false,
            },
            None => false,
        },
    }
}

/// What the bindings `out` of the tab view `v` are: the selected index,
/// reordering, the selection-changed, close-requested and add-button-clicked
/// events with clones of their handlers, add-button visibility, tab width
/// mode, close-button overlay mode.
pub open spec fn tab_view_bindings<C, S: Clone, K: Clone, A: Clone>(
    v: TabView<C, S, K, A>,
    out: Seq<Binding<S, K, A>>,
) -> bool {
    &&& out.len() == 8
    &&& out[0] == Binding::<S, K, A>::Prop(Prop::SelectedIndex, PropValue::I32(v.selected_index))
    &&& out[1] == Binding::<S, K, A>::Prop(Prop::CanReorderTabs, PropValue::Bool(v.can_reorder_tabs))
    &&& out[2] matches Binding::Event(Event::TabSelectionChanged, h) && bound_handler(
            v.on_selection_changed,
            h,
            |e: EventHandler<S, K, A>| match e {
                EventHandler::IndexChanged(c) => Some(c),
                _ => None,
            },
        )
    &&& out[3] matches Binding::Event(Event::TabCloseRequested, h) && bound_handler(
            v.on_tab_close_requested,
            h,
            |e: EventHandler<S, K, A>| match e {
                EventHandler::TabKey(c) => Some(c),
                _ => None,
            },
        )
    &&& out[4] matches Binding::Event(Event::TabAddButtonClicked, h) && bound_handler(
            v.on_add_tab_button_click,
            h,
            |e: EventHandler<S, K, A>| match e {
                EventHandler::Click(c) => Some(c),
                _ => None,
            },
        )
    &&& out[5] == Binding::<S, K, A>::Prop(
            Prop::IsAddTabButtonVisible,
            PropValue::Bool(v.is_add_tab_button_visible),
        )
    &&& out[6] == Binding::<S, K, A>::Prop(
            Prop::TabWidthMode,
            PropValue::TabWidthMode(v.tab_width_mode),
        )
    &&& out[7] == Binding::<S, K, A>::Prop(
            Prop::CloseButtonOverlayMode,
            PropValue::CloseButtonOverlayMode(v.close_button_overlay_mode),
        )
}

impl<C, S: Clone, K: Clone, A: Clone> TabView<C, S, K, A> {
    /// The bindings of the control, in this order: selected index, reordering,
    /// the selection-changed, close-requested and add-button-clicked events
    /// with clones of their handlers, add-button visibility, tab width mode,
    /// close-button overlay mode.
    pub fn bindings(&self) -> (out: Vec<Binding<S, K, A>>)
        ensures
            tab_view_bindings(*self, out@),
    {
        let selection = match &self.on_selection_changed {
            Some(cb) => Some(EventHandler::IndexChanged(cb.clone())),
            None => None,
        };
        let close = match &self.on_tab_close_requested {
            Some(cb) => Some(EventHandler::TabKey(cb.clone())),
            None => None,
        };
        let add = match &self.on_add_tab_button_click {
            Some(cb) => Some(EventHandler::Click(cb.clone())),
            None => None,
        };
        let mut out: Vec<Binding<S, K, A>> = Vec::new();
        out.push(Binding::Prop(Prop::SelectedIndex, PropValue::I32(self.selected_index)));
        out.push(Binding::Prop(Prop::CanReorderTabs, PropValue::Bool(self.can_reorder_tabs)));
        out.push(Binding::Event(Event::TabSelectionChanged, selection));
        out.push(Binding::Event(Event::TabCloseRequested, close));
        out.push(Binding::Event(Event::TabAddButtonClicked, add));
        out.push(
            Binding::Prop(Prop::IsAddTabButtonVisible, PropValue::Bool(self.is_add_tab_button_visible)),
        );
        out.push(Binding::Prop(Prop::TabWidthMode, PropValue::TabWidthMode(self.tab_width_mode)));
        out.push(
            Binding::Prop(
                Prop::CloseButtonOverlayMode,
                PropValue::CloseButtonOverlayMode(self.close_button_overlay_mode),
            ),
        );
        out
    }
}


/// Every clone of a `T` equals the value it was cloned from.
pub open spec fn clones_are_equal<T: Clone>() -> bool {
    forall|a: T, b: T| #[trigger] cloned(a, b) ==> a == b
}

/// The handler types of a tab view all clone to equal values.
pub open spec fn handler_clones_are_equal<S: Clone, K: Clone, A: Clone>() -> bool {
    &&& clones_are_equal::<S>()
    &&& clones_are_equal::<K>()
    &&& clones_are_equal::<A>()
}

/// The tab view handles none of its events.
pub open spec fn handles_no_event<C, S, K, A>(v: TabView<C, S, K, A>) -> bool {
    &&& v.on_selection_changed is None
    &&& v.on_tab_close_requested is None
    &&& v.on_add_tab_button_click is None
}

/// Two sets of bindings agree at every index but `skip`, where the events
/// agree as long as the tab view `v` handles none of them, and may differ by
/// the clone of a handler otherwise.
pub open spec fn bindings_agree_except<C, S, K, A>(
    v: TabView<C, S, K, A>,
    ov: Seq<Binding<S, K, A>>,
    ow: Seq<Binding<S, K, A>>,
    skip: int,
) -> bool {
    &&& skip != 0 ==> ov[0] == ow[0]
    &&& skip != 1 ==> ov[1] == ow[1]
    &&& v.on_selection_changed is None ==> ov[2] == ow[2]
    &&& v.on_tab_close_requested is None ==> ov[3] == ow[3]
    &&& v.on_add_tab_button_click is None ==> ov[4] == ow[4]
    &&& skip != 5 ==> ov[5] == ow[5]
    &&& skip != 6 ==> ov[6] == ow[6]
    &&& skip != 7 ==> ov[7] == ow[7]
}

/// Bindings show neither the tabs nor the key: tab views that differ only
/// there bind the same; for views that handle no event, such as those fresh
/// from [`TabView::new`], the bindings are equal.
pub proof fn lemma_bindings_ignore_tabs_and_key<C, S: Clone, K: Clone, A: Clone>(
    v: TabView<C, S, K, A>,
    w: TabView<C, S, K, A>,
    ov: Seq<Binding<S, K, A>>,
    ow: Seq<Binding<S, K, A>>,
)
    requires
        tab_view_bindings(v, ov),
        tab_view_bindings(w, ow),
        w == (TabView { tabs: w.tabs, key: w.key, ..v }),
    ensures
        bindings_agree_except(v, ov, ow, -1),
        handles_no_event(v) || handler_clones_are_equal::<S, K, A>() ==> ov == ow,
{
    if handles_no_event(v) || handler_clones_are_equal::<S, K, A>() {
        lemma_events_agree(v, w, ov, ow);
        assert(ov =~= ow);
    }
}

/// Tab views with the same handlers bind the same events when they handle
/// none or when their handler types clone to equal values.
proof fn lemma_events_agree<C, S: Clone, K: Clone, A: Clone>(
    v: TabView<C, S, K, A>,
    w: TabView<C, S, K, A>,
    ov: Seq<Binding<S, K, A>>,
    ow: Seq<Binding<S, K, A>>,
)
    requires
        tab_view_bindings(v, ov),
        tab_view_bindings(w, ow),
        w.on_selection_changed == v.on_selection_changed,
        w.on_tab_close_requested == v.on_tab_close_requested,
        w.on_add_tab_button_click == v.on_add_tab_button_click,
        handles_no_event(v) || handler_clones_are_equal::<S, K, A>(),
    ensures
        ov[2] == ow[2],
        ov[3] == ow[3],
        ov[4] == ow[4],
{
    if let Some(h) = v.on_selection_changed {
        if let (Binding::Event(_, Some(EventHandler::IndexChanged(a))), Binding::Event(_, Some(EventHandler::IndexChanged(b)))) = (ov[2], ow[2]) {
            assert(cloned(h, a) && cloned(h, b));
        }
    }
    if let Some(h) = v.on_tab_close_requested {
        if let (Binding::Event(_, Some(EventHandler::TabKey(a))), Binding::Event(_, Some(EventHandler::TabKey(b)))) = (ov[3], ow[3]) {
            assert(cloned(h, a) && cloned(h, b));
        }
    }
    if let Some(h) = v.on_add_tab_button_click {
        if let (Binding::Event(_, Some(EventHandler::Click(a))), Binding::Event(_, Some(EventHandler::Click(b)))) = (ov[4], ow[4]) {
            assert(cloned(h, a) && cloned(h, b));
        }
    }
}

/// Setting the selected index changes the first binding to that index and,
/// up to the clones of handlers, no other.
pub proof fn lemma_selected_index_binding<C, S: Clone, K: Clone, A: Clone>(
    v: TabView<C, S, K, A>,
    i: i32,
    ov: Seq<Binding<S, K, A>>,
    ow: Seq<Binding<S, K, A>>,
)
    requires
        tab_view_bindings(v, ov),
        tab_view_bindings(TabView { selected_index: i, ..v }, ow),
    ensures
        ow[0] == Binding::<S, K, A>::Prop(Prop::SelectedIndex, PropValue::I32(i)),
        bindings_agree_except(v, ov, ow, 0),
        handles_no_event(v) || handler_clones_are_equal::<S, K, A>() ==> ow == ov.update(
            0,
            Binding::<S, K, A>::Prop(Prop::SelectedIndex, PropValue::I32(i)),
        ),
{
    if handles_no_event(v) || handler_clones_are_equal::<S, K, A>() {
        lemma_events_agree(v, TabView { selected_index: i, ..v }, ov, ow);
        assert(ow =~= ov.update(0, Binding::<S, K, A>::Prop(Prop::SelectedIndex, PropValue::I32(i))));
    }
}

/// Setting the tab width mode changes the seventh binding to that mode and,
/// up to the clones of handlers, no other.
pub proof fn lemma_tab_width_mode_binding<C, S: Clone, K: Clone, A: Clone>(
    v: TabView<C, S, K, A>,
    m: TabWidthMode,
    ov: Seq<Binding<S, K, A>>,
    ow: Seq<Binding<S, K, A>>,
)
    requires
        tab_view_bindings(v, ov),
        tab_view_bindings(TabView { tab_width_mode: m, ..v }, ow),
    ensures
        ow[6] == Binding::<S, K, A>::Prop(Prop::TabWidthMode, PropValue::TabWidthMode(m)),
        bindings_agree_except(v, ov, ow, 6),
        handles_no_event(v) || handler_clones_are_equal::<S, K, A>() ==> ow == ov.update(
            6,
            Binding::<S, K, A>::Prop(Prop::TabWidthMode, PropValue::TabWidthMode(m)),
        ),
{
    if handles_no_event(v) || handler_clones_are_equal::<S, K, A>() {
        lemma_events_agree(v, TabView { tab_width_mode: m, ..v }, ov, ow);
        assert(ow =~= ov.update(6, Binding::<S, K, A>::Prop(Prop::TabWidthMode, PropValue::TabWidthMode(m))));
    }
}

} // verus!
