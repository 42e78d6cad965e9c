//! The properties and events a widget binds on its backend control.
use vstd::prelude::*;

verus! {

/// Controls how tabs are sized in the strip.
#[derive(Copy, Clone, Debug, PartialEq, Eq, Structural)]
pub enum TabWidthMode {
    /// All tabs share equal width.
    Equal,
    /// Each tab sizes to fit its header content.
    SizeToContent,
    /// Tabs collapse to icon-only when not selected.
    Compact,
}

impl Default for TabWidthMode {
    fn default() -> (m: Self)
        ensures
            m == TabWidthMode::Equal,
    {
        TabWidthMode::Equal
    }
}

/// Controls when the per-tab close button is visible.
#[derive(Copy, Clone, Debug, PartialEq, Eq, Structural)]
pub enum CloseButtonOverlayMode {
    /// Platform default, typically `OnPointerOver`.
    Auto,
    /// Close button only appears on hover/pointer-over.
    OnPointerOver,
    /// Close button is always visible.
    Always,
}

impl Default for CloseButtonOverlayMode {
    fn default() -> (m: Self)
        ensures
            m == CloseButtonOverlayMode::Auto,
    {
        CloseButtonOverlayMode::Auto
    }
}

/// A control property that a widget sets.
#[derive(Copy, Clone, Debug, PartialEq, Eq, Structural)]
pub enum Prop {
    SelectedIndex,
    CanReorderTabs,
    IsAddTabButtonVisible,
    TabWidthMode,
    CloseButtonOverlayMode,
}

/// The value a property is set to.
#[derive(Copy, Clone, Debug, PartialEq, Eq, Structural)]
pub enum PropValue {
    I32(i32),
    Bool(bool),
    TabWidthMode(TabWidthMode),
    CloseButtonOverlayMode(CloseButtonOverlayMode),
}

/// A control event that a widget may handle.
#[derive(Copy, Clone, Debug, PartialEq, Eq, Structural)]
pub enum Event {
    TabSelectionChanged,
    TabCloseRequested,
    TabAddButtonClicked,
}

/// The handler attached to an event: `IndexChanged` receives the new index,
/// `TabKey` the key of a tab, `Click` nothing.
#[derive(Clone, Debug)]
pub enum EventHandler<S, K, A> {
    IndexChanged(S),
    TabKey(K),
    Click(A),
}

/// One binding of a widget: a property and its value, or an event and its
/// handler (`None` when the widget does not handle it).
#[derive(Clone, Debug)]
pub enum Binding<S, K, A> {
    Prop(Prop, PropValue),
    Event(Event, Option<EventHandler<S, K, A>>),
}

} // verus!
