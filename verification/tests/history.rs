use rbaserun::history::{load, persist, record_use};

fn list(items: &[&str]) -> Vec<String> {
    items.iter().map(|s| s.to_string()).collect()
}

#[test]
fn new_entry_goes_last() {
    let mut h = list(&["a", "b", "c"]);
    record_use(&mut h, "d".to_string());
    assert_eq!(h, list(&["a", "b", "c", "d"]));
}

#[test]
fn new_entry_in_empty_history() {
    let mut h: Vec<String> = Vec::new();
    record_use(&mut h, "a".to_string());
    assert_eq!(h, list(&["a"]));
}

#[test]
fn known_entry_moves_to_the_front() {
    let mut h = list(&["a", "b", "c", "d"]);
    record_use(&mut h, "c".to_string());
    assert_eq!(h, list(&["c", "a", "b", "d"]));
}

#[test]
fn last_entry_moves_to_the_front() {
    let mut h = list(&["a", "b", "c"]);
    record_use(&mut h, "c".to_string());
    assert_eq!(h, list(&["c", "a", "b"]));
}

#[test]
fn first_entry_stays() {
    let mut h = list(&["a", "b", "c"]);
    record_use(&mut h, "a".to_string());
    assert_eq!(h, list(&["a", "b", "c"]));
}

#[test]
fn using_a_known_entry_twice_is_using_it_once() {
    let mut once = list(&["a", "b", "c"]);
    record_use(&mut once, "b".to_string());
    let mut twice = once.clone();
    record_use(&mut twice, "b".to_string());
    assert_eq!(once, twice);
    assert_eq!(twice, list(&["b", "a", "c"]));
}

#[test]
fn using_a_new_entry_twice_moves_it_to_the_front() {
    let mut h = list(&["a"]);
    record_use(&mut h, "b".to_string());
    assert_eq!(h, list(&["a", "b"]));
    record_use(&mut h, "b".to_string());
    assert_eq!(h, list(&["b", "a"]));
}

#[test]
fn only_the_first_of_two_equal_entries_moves() {
    let mut h = list(&["a", "b", "c", "b"]);
    record_use(&mut h, "b".to_string());
    assert_eq!(h, list(&["b", "a", "c", "b"]));
}

#[test]
fn entries_differ_by_case() {
    let mut h = list(&["a;b"]);
    record_use(&mut h, "A;b".to_string());
    assert_eq!(h, list(&["a;b", "A;b"]));
}

#[test]
fn persist_writes_one_line_per_entry() {
    assert_eq!(persist(&list(&["a;b", "c;d"])), "a;b\nc;d\n");
    assert_eq!(persist(&Vec::new()), "");
    assert_eq!(persist(&list(&[""])), "\n");
}

#[test]
fn load_reads_one_entry_per_line() {
    assert_eq!(load(Some("a;b\nc;d\n")), list(&["a;b", "c;d"]));
    assert_eq!(load(Some("a;b\nc;d")), list(&["a;b", "c;d"]));
    assert_eq!(load(Some("")), Vec::<String>::new());
    assert_eq!(load(Some("\n")), list(&[""]));
    assert_eq!(load(Some("a\n\nb\n")), list(&["a", "", "b"]));
}

#[test]
fn load_trims_each_entry() {
    assert_eq!(load(Some("  a;b \r\n\tc;d\r\n")), list(&["a;b", "c;d"]));
}

#[test]
fn load_keeps_order_and_duplicates_of_the_file() {
    assert_eq!(load(Some("b\na\nb\n")), list(&["b", "a", "b"]));
}

#[test]
fn unreadable_store_is_an_empty_history() {
    assert_eq!(load(None), Vec::<String>::new());
}

#[test]
fn load_reads_text_beyond_ascii() {
    assert_eq!(load(Some("сервер;база\nö;ü\n")), list(&["сервер;база", "ö;ü"]));
}

#[test]
fn use_persist_load_gives_the_same_order() {
    let mut h = list(&["srv;one", "File=\"c:\\x\"", "ws=\"http://h\""]);
    record_use(&mut h, "ws=\"http://h\"".to_string());
    let text = persist(&h);
    assert_eq!(text, "ws=\"http://h\"\nsrv;one\nFile=\"c:\\x\"\n");
    assert_eq!(load(Some(text.as_str())), h);
    record_use(&mut h, "new;one".to_string());
    let text = persist(&h);
    assert_eq!(load(Some(text.as_str())), h);
}

#[test]
fn an_entry_with_outer_space_does_not_come_back_as_written() {
    let h = list(&[" a;b"]);
    let text = persist(&h);
    assert_eq!(load(Some(text.as_str())), list(&["a;b"]));
}
