use ruda::ImportQueue;

fn paths(list: &[&str]) -> Vec<String> {
    list.iter().map(|p| String::from(*p)).collect()
}

#[test]
fn files_are_read_last_first() {
    let mut queue = ImportQueue::new(paths(&["a", "b", "c"]));
    assert_eq!(queue.next(), Some(String::from("c")));
    assert_eq!(queue.next(), Some(String::from("b")));
    assert_eq!(queue.next(), Some(String::from("a")));
    assert_eq!(queue.next(), None);
    assert_eq!(queue.next(), None);
}

#[test]
fn an_import_is_read_once() {
    let mut queue = ImportQueue::new(paths(&["main"]));
    assert_eq!(queue.next(), Some(String::from("main")));
    queue.add_imports(&paths(&["x", "y", "x", "main"]));
    assert_eq!(queue.next(), Some(String::from("y")));
    queue.add_imports(&paths(&["x", "main", "y", "z"]));
    assert_eq!(queue.next(), Some(String::from("z")));
    assert_eq!(queue.next(), Some(String::from("x")));
    queue.add_imports(&paths(&["y", "z"]));
    assert_eq!(queue.next(), None);
}

#[test]
fn a_file_that_waits_from_the_start_is_not_known_until_it_is_read() {
    let mut queue = ImportQueue::new(paths(&["a", "b"]));
    assert_eq!(queue.next(), Some(String::from("b")));
    queue.add_imports(&paths(&["a"]));
    assert_eq!(queue.next(), Some(String::from("a")));
    assert_eq!(queue.next(), Some(String::from("a")));
    assert_eq!(queue.next(), None);
}

#[test]
fn paths_are_compared_by_their_spelling() {
    let mut queue = ImportQueue::new(paths(&[]));
    queue.add_imports(&paths(&["lib/a", "lib//a", "Lib/a"]));
    assert_eq!(queue.next(), Some(String::from("Lib/a")));
    assert_eq!(queue.next(), Some(String::from("lib//a")));
    assert_eq!(queue.next(), Some(String::from("lib/a")));
    assert_eq!(queue.next(), None);
}
