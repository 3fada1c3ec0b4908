use linked_list::text::bracket;
use linked_list::LinkedList;

#[test]
fn bracket_of_no_entries() {
    assert_eq!(bracket(&Vec::new()), "[]");
}

#[test]
fn bracket_of_one_entry() {
    assert_eq!(bracket(&vec![String::from("x")]), "[x]");
}

#[test]
fn bracket_of_several_entries() {
    let entries = vec![String::from("1"), String::from("22"), String::from("")];
    assert_eq!(bracket(&entries), "[1, 22, ]");
}

#[test]
fn debug_string_of_empty_list() {
    let list: LinkedList<i32> = LinkedList::new();
    assert_eq!(list.debug_string(), "[]");
}

#[test]
fn debug_string_uses_each_elements_debug_text() {
    let mut list = LinkedList::new();
    list.push_back("a");
    list.push_back("b\"c");
    assert_eq!(list.debug_string(), "[\"a\", \"b\\\"c\"]");
    assert_eq!(list.debug_string(), format!("{:?}", vec!["a", "b\"c"]));
}

#[test]
fn debug_string_of_numbers() {
    let mut list = LinkedList::new();
    list.push_back(-1);
    list.push_back(20);
    list.push_back(300);
    assert_eq!(list.debug_string(), "[-1, 20, 300]");
}
