use folder_browser::folder::Folder;
use folder_browser::machine::{Action, App, AppState, Key};

fn listing(children: &[&str]) -> Vec<Option<String>> {
    children.iter().map(|c| Some(String::from(*c))).collect()
}

fn app_at(path: &str, children: &[&str]) -> App {
    App::new(Folder::from_listing(String::from(path), listing(children)))
}

#[test]
fn new_folder_flow_creates_under_current_path() {
    let mut app = app_at("/tmp/x", &["/tmp/x/old"]);
    let a = app.step(Key::Char('f'), false);
    assert_eq!(a, Action::Idle);
    assert_eq!(app.state, AppState::NewFolder);
    assert_eq!(app.input.value(), "");
    app.step(Key::Char('a'), false);
    app.step(Key::Char('b'), false);
    app.step(Key::Char('c'), false);
    assert_eq!(app.input.value(), "abc");
    let a = app.step(Key::Enter, false);
    assert_eq!(a, Action::MakeFolder(String::from("/tmp/x/abc")));
    assert_eq!(app.state, AppState::Navigation);
    assert_eq!(app.input.value(), "");
}

#[test]
fn touch_file_flow_creates_under_current_path() {
    let mut app = app_at("/tmp/x", &[]);
    let a = app.step(Key::Char('t'), false);
    assert_eq!(a, Action::Idle);
    assert_eq!(app.state, AppState::TouchFile);
    app.step(Key::Char('n'), false);
    let a = app.step(Key::Enter, false);
    assert_eq!(a, Action::TouchFile(String::from("/tmp/x/n")));
    assert_eq!(app.state, AppState::Navigation);
    assert_eq!(app.input.value(), "");
}

#[test]
fn touch_file_submit_is_the_same_whether_or_not_the_file_exists() {
    // The machine never consults the filesystem on submit: the request
    // is identical for an existing and for a missing file, and an
    // existing file is left untouched by the embedding program.
    let mut first = app_at("/tmp/x", &[]);
    first.step(Key::Char('t'), false);
    first.step(Key::Char('n'), false);
    let before = first.step(Key::Enter, false);
    let mut second = app_at("/tmp/x", &["/tmp/x/n"]);
    second.step(Key::Char('t'), false);
    second.step(Key::Char('n'), false);
    let after = second.step(Key::Enter, false);
    assert_eq!(before, after);
    assert_eq!(after, Action::TouchFile(String::from("/tmp/x/n")));
}

#[test]
fn submit_with_empty_name_requests_nothing() {
    let mut app = app_at("/tmp/x", &[]);
    app.step(Key::Char('f'), false);
    let a = app.step(Key::Enter, false);
    assert_eq!(a, Action::Idle);
    assert_eq!(app.state, AppState::Navigation);
}

#[test]
fn escape_discards_pending_input() {
    let mut app = app_at("/tmp/x", &[]);
    app.step(Key::Char('t'), false);
    app.step(Key::Char('z'), false);
    let a = app.step(Key::Esc, false);
    assert_eq!(a, Action::Idle);
    assert_eq!(app.state, AppState::Navigation);
    assert_eq!(app.input.value(), "");
}

#[test]
fn join_at_root_adds_no_extra_slash() {
    let mut app = app_at("/", &[]);
    app.step(Key::Char('f'), false);
    app.step(Key::Char('n'), false);
    let a = app.step(Key::Enter, false);
    assert_eq!(a, Action::MakeFolder(String::from("/n")));
}

#[test]
fn confirm_delete_declined_leaves_everything_unchanged() {
    let mut app = app_at("/d", &["/d/a"]);
    app.step(Key::Char('d'), false);
    assert_eq!(app.state, AppState::ConfirmDelete);
    let entries_before = app.folder.entries.clone();
    let a = app.step(Key::Char('n'), false);
    assert_eq!(a, Action::Idle);
    assert_eq!(app.state, AppState::Navigation);
    assert_eq!(app.folder.entries, entries_before);
    assert_eq!(app.folder.selected, 0);
    assert_eq!(app.folder.path, "/d");
}

#[test]
fn confirm_delete_accepted_requests_selected_entry() {
    let mut app = app_at("/d", &["/d/a"]);
    app.step(Key::Down, false);
    app.step(Key::Char('d'), false);
    let a = app.step(Key::Char('y'), false);
    assert_eq!(a, Action::Delete(String::from("/d/a")));
    assert_eq!(app.state, AppState::Navigation);
}

#[test]
fn right_on_parent_row_equals_left() {
    let mut by_right = app_at("/a/b", &["/a/b/c"]);
    let mut by_left = app_at("/a/b", &["/a/b/c"]);
    let ar = by_right.step(Key::Right, false);
    let al = by_left.step(Key::Left, false);
    assert_eq!(ar, al);
    assert_eq!(al, Action::Load(String::from("/a")));
    assert_eq!(by_right.state, by_left.state);
    assert_eq!(by_right.folder.selected, by_left.folder.selected);
}

#[test]
fn right_enters_selected_directory() {
    let mut app = app_at("/a", &["/a/d"]);
    app.step(Key::Down, false);
    let a = app.step(Key::Right, true);
    assert_eq!(a, Action::Load(String::from("/a/d")));
    let b = app.step(Key::Right, false);
    assert_eq!(b, Action::Idle);
}

#[test]
fn left_at_root_is_abandoned() {
    let mut app = app_at("/", &[]);
    let a = app.step(Key::Left, false);
    assert_eq!(a, Action::Idle);
    assert_eq!(app.state, AppState::Navigation);
}

#[test]
fn navigation_keys_move_the_cursor() {
    let mut app = app_at("/d", &["/d/a", "/d/b"]);
    app.folder.with_viewport_rows(10);
    app.step(Key::Down, false);
    assert_eq!(app.folder.selected, 1);
    app.step(Key::Down, false);
    assert_eq!(app.folder.selected, 2);
    app.step(Key::Up, false);
    assert_eq!(app.folder.selected, 1);
}

#[test]
fn quit_is_requested_from_navigation() {
    let mut app = app_at("/d", &[]);
    let a = app.step(Key::Char('q'), false);
    assert_eq!(a, Action::Quit);
    assert_eq!(app.state, AppState::Navigation);
}

#[test]
fn space_toggles_controls_and_any_key_leaves_them() {
    let mut app = app_at("/d", &[]);
    let a = app.step(Key::Char(' '), false);
    assert_eq!(a, Action::Idle);
    assert_eq!(app.state, AppState::Controls);
    let b = app.step(Key::Char('z'), false);
    assert_eq!(b, Action::Idle);
    assert_eq!(app.state, AppState::Navigation);
    app.step(Key::Char(' '), false);
    assert_eq!(app.state, AppState::Controls);
    let c = app.step(Key::Up, false);
    assert_eq!(c, Action::Idle);
    assert_eq!(app.state, AppState::Navigation);
}

#[test]
fn arrows_do_not_disturb_a_pending_name() {
    let mut app = app_at("/d", &["/d/a"]);
    app.step(Key::Char('f'), false);
    app.step(Key::Char('x'), false);
    let a = app.step(Key::Up, false);
    assert_eq!(a, Action::Idle);
    app.step(Key::Down, false);
    assert_eq!(app.state, AppState::NewFolder);
    assert_eq!(app.input.value(), "x");
    assert_eq!(app.folder.selected, 0);
}

#[test]
fn unknown_keys_in_navigation_do_nothing() {
    let mut app = app_at("/d", &["/d/a"]);
    let a = app.step(Key::Other, false);
    assert_eq!(a, Action::Idle);
    let b = app.step(Key::Char('z'), false);
    assert_eq!(b, Action::Idle);
    assert_eq!(app.state, AppState::Navigation);
    assert_eq!(app.folder.selected, 0);
}
