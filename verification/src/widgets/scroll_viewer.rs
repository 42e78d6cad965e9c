//! The scroll viewer widget: one child, the visibility of each scroll bar, and
//! an optional token that asks the backend to scroll to the bottom whenever it
//! changes between renders.
use vstd::prelude::*;

verus! {

/// When a scroll bar is shown.
#[derive(Copy, Clone, Debug, PartialEq, Eq, Structural)]
pub enum ScrollBarVisibility {
    Disabled,
    Auto,
    Hidden,
    Visible,
}

/// A property the scroll viewer sets on its control.
#[derive(Copy, Clone, Debug)]
pub enum ScrollViewerBinding<T> {
    HorizontalScrollBarVisibility(ScrollBarVisibility),
    VerticalScrollBarVisibility(ScrollBarVisibility),
    ScrollToBottom(T),
}

/// A scroll viewer over `child`. `T` is the type of the scroll-to-bottom
/// token: a changing value (such as a counter bumped when content is added)
/// whose change between renders makes the backend scroll to the bottom.
#[derive(Clone, Debug)]
pub struct ScrollViewer<E, T> {
    pub key: Option<String>,
    pub child: Box<E>,
    pub horizontal_scroll_bar_visibility: ScrollBarVisibility,
    pub vertical_scroll_bar_visibility: ScrollBarVisibility,
    pub scroll_to_bottom: Option<T>,
}

impl<E, T> ScrollViewer<E, T> {
    /// A scroll viewer over `child`: no key, no horizontal scroll bar, a
    /// vertical one shown as needed, no scroll-to-bottom token.
    pub fn new(child: E) -> (s: Self)
        ensures
            s.key == None::<String>,
            *s.child == child,
            s.horizontal_scroll_bar_visibility == ScrollBarVisibility::Disabled,
            s.vertical_scroll_bar_visibility == ScrollBarVisibility::Auto,
            s.scroll_to_bottom == None::<T>,
    {
        ScrollViewer {
            key: None,
            child: Box::new(child),
            horizontal_scroll_bar_visibility: ScrollBarVisibility::Disabled,
            vertical_scroll_bar_visibility: ScrollBarVisibility::Auto,
            scroll_to_bottom: None,
        }
    }

    pub fn horizontal_scroll_bar_visibility(self, v: ScrollBarVisibility) -> (s: Self)
        ensures
            s == (ScrollViewer { horizontal_scroll_bar_visibility: v, ..self }),
    {
        let mut s = self;
        s.horizontal_scroll_bar_visibility = v;
        s
    }

    pub fn vertical_scroll_bar_visibility(self, v: ScrollBarVisibility) -> (s: Self)
        ensures
            s == (ScrollViewer { vertical_scroll_bar_visibility: v, ..self }),
    {
        let mut s = self;
        s.vertical_scroll_bar_visibility = v;
        s
    }

    /// Requests scroll-to-bottom whenever `token` changes between renders.
    pub fn scroll_to_bottom(self, token: T) -> (s: Self)
        ensures
            s == (ScrollViewer { scroll_to_bottom: Some(token), ..self }),
    {
        let mut s = self;
        s.scroll_to_bottom = Some(token);
        s
    }

    /// The single child of the control.
    pub fn children(&self) -> (c: &E)
        ensures
            *c == *self.child,
    {
        &self.child
    }
}

impl<E, T: Copy> ScrollViewer<E, T> {
    /// The properties bound on the control: the horizontal and the vertical
    /// scroll bar visibility, then the scroll-to-bottom token when one is set.
    pub fn bindings(&self) -> (out: Vec<ScrollViewerBinding<T>>)
        ensures
            out@.len() == if self.scroll_to_bottom is Some { 3int } else { 2int },
            out@[0] == ScrollViewerBinding::<T>::HorizontalScrollBarVisibility(
                self.horizontal_scroll_bar_visibility,
            ),
            out@[1] == ScrollViewerBinding::<T>::VerticalScrollBarVisibility(
                self.vertical_scroll_bar_visibility,
            ),
            self.scroll_to_bottom matches Some(t) ==> out@[2] == ScrollViewerBinding::<T>::ScrollToBottom(t),
    {
        let mut out: Vec<ScrollViewerBinding<T>> = Vec::new();
        out.push(ScrollViewerBinding::HorizontalScrollBarVisibility(self.horizontal_scroll_bar_visibility));
        out.push(ScrollViewerBinding::VerticalScrollBarVisibility(self.vertical_scroll_bar_visibility));
        if let Some(token) = self.scroll_to_bottom {
            out.push(ScrollViewerBinding::ScrollToBottom(token));
        }
        out
    }
}

/// A scroll viewer over `child`, as [`ScrollViewer::new`] builds it.
pub fn scroll_viewer<E, T>(child: E) -> (s: ScrollViewer<E, T>)
    ensures
        s.key == None::<String>,
        *s.child == child,
        s.horizontal_scroll_bar_visibility == ScrollBarVisibility::Disabled,
        s.vertical_scroll_bar_visibility == ScrollBarVisibility::Auto,
        s.scroll_to_bottom == None::<T>,
{
    ScrollViewer::new(child)
}

} // verus!
