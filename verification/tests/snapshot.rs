use folder_browser::folder::Folder;
use folder_browser::paths::check_abs_path;

fn listing(children: &[&str]) -> Vec<Option<String>> {
    children.iter().map(|c| Some(String::from(*c))).collect()
}

#[test]
fn load_prepends_parent_entry() {
    let f = Folder::from_listing(String::from("/d"), listing(&["/d/a", "/d/b"]));
    assert_eq!(f.entries.len(), 3);
    assert_eq!(f.entries[0], "..");
    assert_eq!(f.entries[1], "/d/a");
    assert_eq!(f.entries[2], "/d/b");
    assert_eq!(f.selected, 0);
    assert_eq!(f.scroll, 0);
    assert_eq!(f.name(), "d");
}

#[test]
fn load_skips_unreadable_children() {
    let f = Folder::from_listing(
        String::from("/d"),
        vec![Some(String::from("/d/a")), None, Some(String::from("/d/b"))],
    );
    assert_eq!(f.entries.len(), 3);
    assert_eq!(f.entries[0], "..");
    assert_eq!(f.entries[1], "/d/a");
    assert_eq!(f.entries[2], "/d/b");
}

#[test]
fn load_of_empty_directory_keeps_parent_entry() {
    let f = Folder::from_listing(String::from("/d"), vec![]);
    assert_eq!(f.entries.len(), 1);
    assert_eq!(f.entries[0], "..");
    assert_eq!(f.selected, 0);
}

#[test]
fn root_display_name_is_sentinel() {
    let f = Folder::from_listing(String::from("/"), vec![]);
    assert_eq!(f.name(), "N/A");
}

#[test]
fn scroll_down_clamps_and_windows() {
    let mut f = Folder::from_listing(String::from("/d"), listing(&["/d/a", "/d/b", "/d/c"]));
    f.with_viewport_rows(2);
    f.scroll_down();
    assert_eq!((f.selected, f.scroll), (1, 0));
    f.scroll_down();
    assert_eq!((f.selected, f.scroll), (2, 1));
    f.scroll_down();
    assert_eq!((f.selected, f.scroll), (3, 2));
    f.scroll_down();
    assert_eq!((f.selected, f.scroll), (3, 2));
}

#[test]
fn scroll_up_clamps_and_windows() {
    let mut f = Folder::from_listing(String::from("/d"), listing(&["/d/a", "/d/b", "/d/c"]));
    f.with_viewport_rows(2);
    f.scroll_down();
    f.scroll_down();
    f.scroll_down();
    f.scroll_up();
    assert_eq!((f.selected, f.scroll), (2, 2));
    f.scroll_up();
    assert_eq!((f.selected, f.scroll), (1, 1));
    f.scroll_up();
    assert_eq!((f.selected, f.scroll), (0, 0));
    f.scroll_up();
    assert_eq!((f.selected, f.scroll), (0, 0));
}

#[test]
fn invariant_holds_after_every_operation() {
    let mut f = Folder::from_listing(String::from("/d"), listing(&["/d/a", "/d/b", "/d/c"]));
    let check = |f: &Folder| {
        assert!(f.scroll <= f.selected);
        assert!(f.selected < f.entries.len());
        assert_eq!(f.entries[0], "..");
    };
    check(&f);
    f.with_viewport_rows(1);
    check(&f);
    for _ in 0..5 {
        f.scroll_down();
        check(&f);
    }
    for _ in 0..5 {
        f.scroll_up();
        check(&f);
    }
    let r = f.reload(listing(&["/d/a"]));
    check(&r);
    assert_eq!((r.selected, r.scroll), (0, 0));
}

#[test]
fn reload_reflects_fresh_listing() {
    let f = Folder::from_listing(String::from("/d"), listing(&["/d/a", "/d/b"]));
    let after_delete = f.reload(listing(&["/d/b"]));
    assert!(!after_delete.entries.contains(&String::from("/d/a")));
    let after_create = f.reload(listing(&["/d/a", "/d/b", "/d/x"]));
    assert!(after_create.entries.contains(&String::from("/d/x")));
    assert_eq!(after_create.entries[0], "..");
}

#[test]
fn selected_entry_and_file_name() {
    let mut f = Folder::from_listing(String::from("/d"), listing(&["/d/a.txt"]));
    assert_eq!(f.selected_entry(), "..");
    assert_eq!(f.file_name(), "N/A");
    f.scroll_down();
    assert_eq!(f.selected_entry(), "/d/a.txt");
    assert_eq!(f.file_name(), "a.txt");
}

#[test]
fn exit_walks_to_parent_until_root() {
    let f = Folder::from_listing(String::from("/a/b"), vec![]);
    assert_eq!(f.exit(), Some(String::from("/a")));
    let g = Folder::from_listing(String::from("/a"), vec![]);
    assert_eq!(g.exit(), Some(String::from("/")));
    let r = Folder::from_listing(String::from("/"), vec![]);
    assert_eq!(r.exit(), None);
}

#[test]
fn enter_on_parent_row_equals_exit() {
    let f = Folder::from_listing(String::from("/a/b"), listing(&["/a/b/c"]));
    assert_eq!(f.selected, 0);
    assert_eq!(f.enter(true), f.exit());
    assert_eq!(f.enter(false), f.exit());
}

#[test]
fn canonical_absolute_paths_are_recognised() {
    assert!(check_abs_path("/"));
    assert!(check_abs_path("/a/b"));
    assert!(!check_abs_path(""));
    assert!(!check_abs_path("a/b"));
    assert!(!check_abs_path("/a/"));
}

#[test]
fn enter_loads_directories_only() {
    let mut f = Folder::from_listing(String::from("/a"), listing(&["/a/d", "/a/f.txt"]));
    f.scroll_down();
    assert_eq!(f.enter(true), Some(String::from("/a/d")));
    f.scroll_down();
    assert_eq!(f.enter(false), None);
}
