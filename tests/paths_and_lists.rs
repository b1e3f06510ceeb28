use clexp::entry::{sort_by_keys, sort_listing, FileItem};
use clexp::list::StatefulList;
use clexp::path::FsPath;

fn item(name: &str, dir: &str, is_dir: bool) -> FileItem {
    FileItem {
        name: name.to_string(),
        path: FsPath::from_text(&format!("{}/{}", dir, name)),
        is_dir,
        size: if is_dir { None } else { Some(10) },
        modified: None,
    }
}

#[test]
fn path_text_round_trip() {
    let p = FsPath::from_text("/home//user/./docs/");
    assert_eq!(p.to_text(), "/home/user/docs");
    assert!(p.is_absolute());
    assert_eq!(p.component_count(), 3);
    let r = FsPath::from_text("a/b");
    assert_eq!(r.to_text(), "a/b");
    assert!(!r.is_absolute());
    assert_eq!(FsPath::root().to_text(), "/");
}

#[test]
fn path_join_parent_and_names() {
    let p = FsPath::from_text("/home/user");
    assert_eq!(p.join("notes.txt").to_text(), "/home/user/notes.txt");
    assert_eq!(p.join("sub/new.txt").to_text(), "/home/user/sub/new.txt");
    assert_eq!(p.join("/etc").to_text(), "/etc");
    assert_eq!(p.parent().unwrap().to_text(), "/home");
    assert!(FsPath::root().parent().is_none());
    assert_eq!(p.file_name().unwrap(), "user");
    assert!(FsPath::from_text("/a/..").file_name().is_none());
    assert_eq!(FsPath::from_text("/a/b.txt").with_file_name("c.md").to_text(), "/a/c.md");
    assert_eq!(FsPath::root().with_file_name("x").to_text(), "/x");
}

#[test]
fn display_name_marks_directories() {
    assert_eq!(item("src", "/p", true).display_name(), "src/");
    assert_eq!(item("main.rs", "/p", false).display_name(), "main.rs");
}

#[test]
fn listing_sorts_directories_first_then_case_insensitively() {
    let entries = vec![
        item("zeta.txt", "/p", false),
        item("B", "/p", false),
        item("a", "/p", false),
        item("Docs", "/p", true),
        item("bin", "/p", true),
    ];
    let sorted = sort_listing(entries);
    let names: Vec<&str> = sorted.iter().map(|f| f.name.as_str()).collect();
    assert_eq!(names, vec!["bin", "Docs", "a", "B", "zeta.txt"]);
}

#[test]
fn listing_sort_is_stable_for_equal_keys() {
    let entries = vec![item("Readme", "/p", false), item("README", "/p", false), item("readme", "/p", false)];
    let sorted = sort_listing(entries);
    let names: Vec<&str> = sorted.iter().map(|f| f.name.as_str()).collect();
    assert_eq!(names, vec!["Readme", "README", "readme"]);
}

#[test]
fn list_new_with_items_starts_on_first() {
    let l = StatefulList::new_with_items(vec![10, 20, 30]);
    assert_eq!(l.filtered_items, vec![0, 1, 2]);
    assert_eq!(l.selected, Some(0));
    assert_eq!(l.selected(), Some(&10));
    let e: StatefulList<u32> = StatefulList::new_with_items(vec![]);
    assert_eq!(e.selected, None);
    assert!(e.selected().is_none());
}

#[test]
fn list_next_and_prev_wrap_around() {
    let mut l = StatefulList::new_with_items(vec!['a', 'b', 'c']);
    l.prev();
    assert_eq!(l.selected, Some(2));
    l.next();
    assert_eq!(l.selected, Some(0));
    l.next();
    l.next();
    assert_eq!(l.selected, Some(2));
    l.next();
    assert_eq!(l.selected, Some(0));
}

#[test]
fn list_next_visits_every_visible_item_once() {
    let mut l = StatefulList::new_with_items(vec![1, 2, 3, 4, 5]);
    l.filtered_items = vec![4, 1, 3];
    l.selected = Some(1);
    let mut seen = Vec::new();
    for _ in 0..3 {
        l.next();
        seen.push(l.selected.unwrap());
    }
    assert_eq!(seen, vec![3, 4, 1]);
    let mut back = Vec::new();
    for _ in 0..3 {
        l.prev();
        back.push(l.selected.unwrap());
    }
    assert_eq!(back, vec![4, 3, 1]);
}

#[test]
fn list_on_empty_does_nothing() {
    let mut l: StatefulList<u8> = StatefulList::new();
    l.next();
    l.prev();
    assert_eq!(l.selected, None);
    assert!(l.filtered_items().is_empty());
}

#[test]
fn list_filtered_items_follow_visible_order() {
    let mut l = StatefulList::new_with_items(vec!["x", "y", "z"]);
    l.filtered_items = vec![2, 0];
    let v = l.filtered_items();
    assert_eq!(v, vec![&"z", &"x"]);
}

#[test]
fn sorting_by_given_keys() {
    let entries = vec![item("x", "/p", false), item("y", "/p", false), item("z", "/p", true), item("w", "/p", false)];
    let keys: Vec<Vec<char>> = vec![vec!['b'], vec!['a'], vec!['c'], vec!['a']];
    let sorted = sort_by_keys(entries, keys);
    let names: Vec<&str> = sorted.iter().map(|f| f.name.as_str()).collect();
    assert_eq!(names, vec!["z", "y", "w", "x"]);
}
