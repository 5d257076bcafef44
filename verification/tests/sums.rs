use thruster_auth::add;

#[test]
fn it_works() {
    let result = add(2, 2);
    assert_eq!(result, 4);
}

#[test]
fn add_of_zero_changes_nothing() {
    assert_eq!(add(0, 0), 0);
    assert_eq!(add(7, 0), 7);
    assert_eq!(add(0, 7), 7);
}

#[test]
fn add_reaches_the_largest_size() {
    assert_eq!(add(usize::MAX - 1, 1), usize::MAX);
    assert_eq!(add(usize::MAX, 0), usize::MAX);
}
