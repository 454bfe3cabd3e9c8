use procexec::fork::ForkReturn;

#[test]
fn zero_is_the_child_branch() {
    assert_eq!(ForkReturn::from_raw(0), ForkReturn::Child);
}

#[test]
fn a_positive_value_is_the_parent_branch() {
    assert_eq!(ForkReturn::from_raw(1), ForkReturn::Parent(1));
    assert_eq!(ForkReturn::from_raw(4242), ForkReturn::Parent(4242));
    assert_eq!(ForkReturn::from_raw(i32::MAX), ForkReturn::Parent(i32::MAX));
}
