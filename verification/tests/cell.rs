use yadir::cell::DIObj;

#[test]
fn extract_returns_what_the_cell_was_made_with() {
    let cell = DIObj::new(String::from("value"));
    assert_eq!(cell.extract(), "value");
    assert_eq!(cell.extract(), "value");
}

#[test]
fn a_cloned_cell_holds_the_same_value() {
    let cell = DIObj::new(vec![1, 2, 3]);
    let other = cell.clone();
    assert_eq!(other.extract(), vec![1, 2, 3]);
    assert_eq!(cell.extract(), other.extract());
}

#[test]
fn changing_one_extraction_leaves_the_others_alone() {
    let cell = DIObj::new(vec![1, 2, 3]);
    let earlier = cell.extract();
    let mut later = cell.extract();
    later.push(4);
    later[0] = 9;
    assert_eq!(earlier, vec![1, 2, 3]);
    assert_eq!(cell.extract(), vec![1, 2, 3]);
    assert_eq!(cell.clone().extract(), vec![1, 2, 3]);
    assert_eq!(later, vec![9, 2, 3, 4]);
}
