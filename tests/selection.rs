use lint_init::selection::normalize_template_list;

#[test]
fn normalize_default_template_list() {
    assert_eq!(normalize_template_list(Vec::from([0])), Vec::from([1, 2]));
}

#[test]
fn normalize_normal_template_list() {
    assert_eq!(normalize_template_list(Vec::from([1, 2])), Vec::from([1, 2]));
}

#[test]
fn normalize_normal_and_default_template_list() {
    assert_eq!(normalize_template_list(Vec::from([0, 1, 2])), Vec::from([1, 2]));
}

#[test]
fn normalize_empty_selection() {
    assert_eq!(normalize_template_list(Vec::new()), Vec::<usize>::new());
}

#[test]
fn normalize_keeps_order_and_repeats() {
    assert_eq!(normalize_template_list(vec![4, 0, 3, 0, 3]), vec![4, 3, 3]);
    assert_eq!(normalize_template_list(vec![3, 1, 1]), vec![3, 1, 1]);
}

#[test]
fn normalize_repeated_default_only() {
    assert_eq!(normalize_template_list(vec![0, 0]), Vec::<usize>::new());
}

#[test]
fn normalize_never_yields_default() {
    for input in [vec![0], vec![0, 0], vec![2, 0], vec![0, 4, 0, 1], vec![1, 2, 3, 4]] {
        assert!(!normalize_template_list(input).contains(&0));
    }
}
