use duck_node::project::dialog::marks::first_marked_index;

#[test]
fn nothing_is_marked_among_no_marks() {
    assert_eq!(first_marked_index(&Vec::new()), None);
}

#[test]
fn nothing_is_marked_where_all_are_false() {
    assert_eq!(first_marked_index(&vec![false]), None);
    assert_eq!(first_marked_index(&vec![false, false, false]), None);
}

#[test]
fn first_marked_is_the_earliest_true() {
    assert_eq!(first_marked_index(&vec![true]), Some(0));
    assert_eq!(first_marked_index(&vec![true, true]), Some(0));
    assert_eq!(first_marked_index(&vec![false, true, true]), Some(1));
    assert_eq!(first_marked_index(&vec![false, true, false, true]), Some(1));
    assert_eq!(first_marked_index(&vec![false, false, false, true]), Some(3));
}

#[test]
fn marks_behind_the_first_do_not_matter() {
    for tail in [vec![], vec![false], vec![true], vec![true, false, true]] {
        let mut marks = vec![false, false, true];
        marks.extend(tail);
        assert_eq!(first_marked_index(&marks), Some(2));
    }
}
