use lib::rerender::{
    register_ui_rerender, request_ui_rerender_for, request_ui_rerender_on_ui_thread,
    set_ui_rerender, unregister_ui_rerender, RerenderHooks, UiRerenderGuard,
};

#[test]
fn registered_hook_is_requested_by_its_host_only() {
    let mut hooks: RerenderHooks<&'static str> = RerenderHooks::new();
    register_ui_rerender(&mut hooks, 1, "main");
    register_ui_rerender(&mut hooks, 2, "settings");
    assert_eq!(request_ui_rerender_for(&hooks, 1), Some(&"main"));
    assert_eq!(request_ui_rerender_for(&hooks, 2), Some(&"settings"));
    assert_eq!(request_ui_rerender_for(&hooks, 3), None);
    assert_eq!(request_ui_rerender_on_ui_thread(&hooks), None);
}

#[test]
fn registering_again_replaces_the_hook() {
    let mut hooks: RerenderHooks<u32> = RerenderHooks::new();
    register_ui_rerender(&mut hooks, 7, 1);
    register_ui_rerender(&mut hooks, 7, 2);
    assert_eq!(request_ui_rerender_for(&hooks, 7), Some(&2));
}

#[test]
fn unregistered_host_gets_no_rerender() {
    let mut hooks: RerenderHooks<u32> = RerenderHooks::new();
    register_ui_rerender(&mut hooks, 1, 10);
    register_ui_rerender(&mut hooks, 2, 20);
    unregister_ui_rerender(&mut hooks, 1);
    assert_eq!(request_ui_rerender_for(&hooks, 1), None);
    assert_eq!(request_ui_rerender_for(&hooks, 2), Some(&20));
    unregister_ui_rerender(&mut hooks, 5);
    assert_eq!(request_ui_rerender_for(&hooks, 2), Some(&20));
}

#[test]
fn single_slot_install_and_clear() {
    let mut hooks: RerenderHooks<u32> = RerenderHooks::new();
    set_ui_rerender(&mut hooks, Some(3));
    assert_eq!(request_ui_rerender_on_ui_thread(&hooks), Some(&3));
    set_ui_rerender(&mut hooks, None);
    assert_eq!(request_ui_rerender_on_ui_thread(&hooks), None);
}

#[test]
fn guard_installs_and_release_clears() {
    let mut hooks: RerenderHooks<u32> = RerenderHooks::new();
    register_ui_rerender(&mut hooks, 4, 40);
    let guard = UiRerenderGuard::install(&mut hooks, 9);
    assert_eq!(request_ui_rerender_on_ui_thread(&hooks), Some(&9));
    guard.release(&mut hooks);
    assert_eq!(request_ui_rerender_on_ui_thread(&hooks), None);
    assert_eq!(request_ui_rerender_for(&hooks, 4), Some(&40));
}
