use rust_screenshot::screens::get_all_display;

#[test]
fn displays_found_are_returned() {
    let found: Result<Vec<u32>, String> = Ok(vec![1, 2, 3]);
    assert_eq!(get_all_display(found), vec![1, 2, 3]);
}

#[test]
fn failed_query_gives_no_display() {
    let found: Result<Vec<u32>, String> = Err(String::from("no display server"));
    assert!(get_all_display(found).is_empty());
}
