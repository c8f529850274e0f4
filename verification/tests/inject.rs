use rust_of_life::inject::{Container, B, C};

#[test]
fn singleton_is_created_once_and_shared() {
    let mut container = Container::new();
    let first = container.get_or_create_singleton();
    let second = container.get_or_create_singleton();
    assert_eq!(first, C(1));
    assert_eq!(second, first);
}

#[test]
fn init_builds_a_fresh_value_each_time() {
    let mut container = Container::new();
    let c: C = container.get_or_create();
    assert_eq!(c, C(2));
}

#[test]
fn b_is_wired_from_the_container() {
    let mut container = Container::new();
    let b: B = container.get_or_create();
    assert_eq!(b.0 .0, 0);
    assert_eq!(b.1, C(1));
}

#[test]
fn change_value_updates_only_the_inner_a() {
    let mut container = Container::new();
    let mut b: B = container.get_or_create();
    b.change_value(32);
    assert_eq!(b.0 .0, 32);
    assert_eq!(b.1, C(1));
}
