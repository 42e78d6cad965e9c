# reactor core, verified

The scheduling and widget-description core of a reactive UI library, written in
Verus.

- `src/dispatcher.rs`: deferred work at two priorities. Each queue is FIFO and
  all normal work runs before any low work; the `Dispatcher` and
  `SendDispatcher` traits state what accepting a job does to the queues.
- `src/rerender.rs`: the UI thread's rerender hooks, one per host (keyed by
  marshaller id) plus a single thread-wide hook, and the guard that installs
  and clears the latter.
- `src/marshaller.rs`: marshaller ids (1, 2, 3, ...) and the handle that hands
  work to a dispatcher at normal or low priority.
- `src/widgets/`: the tab view, tab item and scroll viewer descriptions and the
  property and event bindings they produce; the scroll viewer's token type is
  a parameter.
- `src/decimal.rs`: the decimal text of `i32` values, written and read back
  through std.
- `src/gallery.rs`: the state of the gallery's tab view page, what a render of
  it captures and shows (its four tab views), and what each control of a
  render does to the state, starting from the values that render captured.
- `app/`: thread-local storage for the hooks, and dispatchers shared behind
  `Rc<RefCell<..>>` / `Arc<Mutex<..>>` that hold boxed closures and run them.
