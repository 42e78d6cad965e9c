//! The rerender hooks of the UI thread: one hook per host, keyed by the id of
//! the host's marshaller, and a single hook for the thread as a whole.
use vstd::prelude::*;
use std::collections::HashMap;

verus! {

broadcast use vstd::std_specs::hash::group_hash_axioms;

/// The rerender hooks known to one UI thread.
pub struct RerenderHooks<H> {
    current: Option<H>,
    by_host: HashMap<u64, H>,
}

/// The hook that a request for host `id` runs among `hosts`, if any.
pub open spec fn hook_for<H>(hosts: Map<u64, H>, id: u64) -> Option<H> {
    if hosts.contains_key(id) {
        Some(hosts[id])
    } else {
        None
    }
}

impl<H> RerenderHooks<H> {
    /// The thread's single hook.
    pub closed spec fn current(&self) -> Option<H> {
        self.current
    }

    /// The per-host hooks, keyed by marshaller id.
    pub closed spec fn hosts(&self) -> Map<u64, H> {
        self.by_host@
    }

    /// No hook installed, none registered.
    pub fn new() -> (hooks: Self)
        ensures
            hooks.current() == None::<H>,
            hooks.hosts() == Map::<u64, H>::empty(),
    {
        RerenderHooks { current: None, by_host: HashMap::new() }
    }
}

/// Registers `rerender` as the hook of the host with marshaller id `id`,
/// replacing any hook that host had.
pub fn register_ui_rerender<H>(hooks: &mut RerenderHooks<H>, id: u64, rerender: H)
    ensures
        final(hooks).hosts() == old(hooks).hosts().insert(id, rerender),
        final(hooks).current() == old(hooks).current(),
{
    hooks.by_host.insert(id, rerender);
}

/// Removes the hook of the host with marshaller id `id`, if it has one.
pub fn unregister_ui_rerender<H>(hooks: &mut RerenderHooks<H>, id: u64)
    ensures
        final(hooks).hosts() == old(hooks).hosts().remove(id),
        final(hooks).current() == old(hooks).current(),
{
    hooks.by_host.remove(&id);
}

/// The hook that a rerender request for the host `id` runs: the one that host
/// registered, or none.
pub fn request_ui_rerender_for<H>(hooks: &RerenderHooks<H>, id: u64) -> (hook: Option<&H>)
    ensures
        match hook {
            Some(h) => hook_for(hooks.hosts(), id) == Some(*h),
            None => hook_for(hooks.hosts(), id) == None::<H>,
        },
{
    hooks.by_host.get(&id)
}

/// Installs (`Some`) or clears (`None`) the thread's single hook.
pub fn set_ui_rerender<H>(hooks: &mut RerenderHooks<H>, rerender: Option<H>)
    ensures
        final(hooks).current() == rerender,
        final(hooks).hosts() == old(hooks).hosts(),
{
    hooks.current = rerender;
}

/// The hook that a rerender request for the thread runs: the single hook, if
/// one is installed.
pub fn request_ui_rerender_on_ui_thread<H>(hooks: &RerenderHooks<H>) -> (hook: Option<&H>)
    ensures
        match hook {
            Some(h) => hooks.current() == Some(*h),
            None => hooks.current() == None::<H>,
        },
{
    hooks.current.as_ref()
}

/// Proof that a hook was installed as the thread's single hook; releasing it
/// clears that hook.
pub struct UiRerenderGuard {
    _private: (),
}

impl UiRerenderGuard {
    /// Installs `rerender` as the thread's single hook.
    pub fn install<H>(hooks: &mut RerenderHooks<H>, rerender: H) -> (guard: Self)
        ensures
            final(hooks).current() == Some(rerender),
            final(hooks).hosts() == old(hooks).hosts(),
    {
        set_ui_rerender(hooks, Some(rerender));
        UiRerenderGuard { _private: () }
    }

    /// Ends the guard: the thread's single hook is cleared, whatever hook it
    /// holds by then.
    pub fn release<H>(self, hooks: &mut RerenderHooks<H>)
        ensures
            final(hooks).current() == None::<H>,
            final(hooks).hosts() == old(hooks).hosts(),
    {
        set_ui_rerender(hooks, None);
    }
}

/// A hook registered for a host is the one a request for that host runs, and
/// registering it changes what no other host's request runs.
pub proof fn lemma_register_then_request<H>(hosts: Map<u64, H>, id: u64, rerender: H, other: u64)
    ensures
        hook_for(hosts.insert(id, rerender), id) == Some(rerender),
        other != id ==> hook_for(hosts.insert(id, rerender), other) == hook_for(hosts, other),
{
}

/// After a host's hook is unregistered, a request for that host runs nothing,
/// and the requests of other hosts run what they ran before.
pub proof fn lemma_unregister_then_request<H>(hosts: Map<u64, H>, id: u64, other: u64)
    ensures
        hook_for(hosts.remove(id), id) == None::<H>,
        other != id ==> hook_for(hosts.remove(id), other) == hook_for(hosts, other),
{
}

} // verus!
