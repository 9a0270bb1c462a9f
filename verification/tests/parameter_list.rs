use pyglue::derive_utils::push_parameter_list;

#[test]
fn push_parameter_list_empty() {
    let mut s = String::new();
    push_parameter_list(&mut s, &[]);
    assert_eq!(&s, "");
}

#[test]
fn push_parameter_list_one() {
    let mut s = String::new();
    push_parameter_list(&mut s, &["a"]);
    assert_eq!(&s, "'a'");
}

#[test]
fn push_parameter_list_two() {
    let mut s = String::new();
    push_parameter_list(&mut s, &["a", "b"]);
    assert_eq!(&s, "'a' and 'b'");
}

#[test]
fn push_parameter_list_three() {
    let mut s = String::new();
    push_parameter_list(&mut s, &["a", "b", "c"]);
    assert_eq!(&s, "'a', 'b', and 'c'");
}

#[test]
fn push_parameter_list_four() {
    let mut s = String::new();
    push_parameter_list(&mut s, &["a", "b", "c", "d"]);
    assert_eq!(&s, "'a', 'b', 'c', and 'd'");
}
