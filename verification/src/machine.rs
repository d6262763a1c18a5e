//! The navigation/mutation state machine.
//!
//! One mode is active at a time. For every key event, [`App::step`]
//! decides the next mode, the new text buffer, any cursor movement,
//! and the filesystem operation the embedding program should perform.
//! The machine itself never touches the filesystem: the one fact it
//! needs from it — whether the selected entry is a directory — comes
//! in as an argument, and every mutation it requests is followed by a
//! fresh listing handed back through [`crate::folder::Folder::reload`].

use vstd::prelude::*;
use vstd::string::*;
use crate::folder::{
    Folder, FolderView, folder_wf, scroll_up_view, scroll_down_view, enter_target, exit_target,
};
use crate::paths::{join_path, join_under, push_char};

verus! {

/// The mode the browser is in; exactly one is active at a time.
#[derive(Clone, Copy, Debug, PartialEq, Eq, Structural)]
pub enum AppState {
    Navigation,
    Controls,
    NewFolder,
    TouchFile,
    ConfirmDelete,
}

/// A key event, as the machine sees it. The embedding program maps
/// whatever its terminal reports onto these; any key it does not
/// recognise becomes `Other`.
#[derive(Clone, Copy, Debug, PartialEq, Eq, Structural)]
pub enum Key {
    Up,
    Down,
    Left,
    Right,
    Enter,
    Esc,
    Char(char),
    Other,
}

/// What the embedding program is asked to do after a step.
///
/// Every path handed out is a full path under the snapshot's
/// directory. After `MakeFolder`, `TouchFile` or `Delete` the program
/// performs the operation, surfaces a transient notice if it failed,
/// and reloads the snapshot from a fresh listing regardless of
/// success or failure. `TouchFile` creates an empty file only when
/// none exists; an existing file is left untouched and counts as
/// success. After `Load` the program reads the named directory and
/// replaces the snapshot, abandoning the move if the read fails.
#[derive(Clone, Debug, PartialEq, Eq)]
pub enum Action {
    Idle,
    Quit,
    Load(String),
    MakeFolder(String),
    TouchFile(String),
    Delete(String),
}

/// The mathematical content of an [`Action`].
#[verifier::ext_equal]
pub ghost enum ActionV {
    Idle,
    Quit,
    Load(Seq<char>),
    MakeFolder(Seq<char>),
    TouchFile(Seq<char>),
    Delete(Seq<char>),
}

impl View for Action {
    type V = ActionV;

    open spec fn view(&self) -> ActionV {
        match self {
            Action::Idle => ActionV::Idle,
            Action::Quit => ActionV::Quit,
            Action::Load(p) => ActionV::Load(p@),
            Action::MakeFolder(p) => ActionV::MakeFolder(p@),
            Action::TouchFile(p) => ActionV::TouchFile(p@),
            Action::Delete(p) => ActionV::Delete(p@),
        }
    }
}

/// The text buffer that exists while a name is being typed for a new
/// file or folder; it is discarded on submit or cancel.
pub struct TextInput {
    pub text: String,
}

impl View for TextInput {
    type V = Seq<char>;

    open spec fn view(&self) -> Seq<char> {
        self.text@
    }
}

impl TextInput {
    /// An empty buffer.
    pub fn new() -> (t: TextInput)
        ensures
            t@ == Seq::<char>::empty(),
    {
        TextInput { text: String::new() }
    }

    /// The characters typed so far.
    pub fn value(&self) -> (s: &str)
        ensures
            s@ == self@,
    {
        self.text.as_str()
    }

    /// Appends one typed character.
    pub fn push(&mut self, c: char)
        ensures
            final(self)@ == old(self)@.push(c),
    {
        push_char(&mut self.text, c);
    }

    /// Discards the buffer.
    pub fn reset(&mut self)
        ensures
            final(self)@ == Seq::<char>::empty(),
    {
        self.text = String::new();
    }
}

/// The whole browser state the event loop owns: the active mode, the
/// current snapshot, and the text buffer.
pub struct App {
    pub state: AppState,
    pub folder: Folder,
    pub input: TextInput,
}

/// The mathematical content of an [`App`].
#[verifier::ext_equal]
pub ghost struct AppView {
    pub state: AppState,
    pub pending: Seq<char>,
    pub folder: FolderView,
}

impl View for App {
    type V = AppView;

    open spec fn view(&self) -> AppView {
        AppView { state: self.state, pending: self.input@, folder: self.folder@ }
    }
}

/// Well-formedness of the browser state: its snapshot is well-formed.
pub open spec fn app_wf(v: AppView) -> bool {
    folder_wf(v.folder)
}

/// The transition table: what one key event does to the whole state,
/// and which operation it requests, given whether the selected entry
/// is a directory.
pub open spec fn step_spec(v: AppView, key: Key, selected_is_dir: bool) -> (AppView, ActionV) {
    match v.state {
        AppState::Navigation => match key {
            Key::Up => (AppView { folder: scroll_up_view(v.folder), ..v }, ActionV::Idle),
            Key::Down => (AppView { folder: scroll_down_view(v.folder), ..v }, ActionV::Idle),
            Key::Right => match enter_target(v.folder, selected_is_dir) {
                Some(p) => (v, ActionV::Load(p)),
                None => (v, ActionV::Idle),
            },
            Key::Left => match exit_target(v.folder) {
                Some(p) => (v, ActionV::Load(p)),
                None => (v, ActionV::Idle),
            },
            Key::Char(c) => if c == ' ' {
                (AppView { state: AppState::Controls, ..v }, ActionV::Idle)
            } else if c == 'f' {
                (AppView { state: AppState::NewFolder, pending: Seq::empty(), ..v }, ActionV::Idle)
            } else if c == 't' {
                (AppView { state: AppState::TouchFile, pending: Seq::empty(), ..v }, ActionV::Idle)
            } else if c == 'd' {
                (AppView { state: AppState::ConfirmDelete, ..v }, ActionV::Idle)
            } else if c == 'q' {
                (v, ActionV::Quit)
            } else {
                (v, ActionV::Idle)
            },
            _ => (v, ActionV::Idle),
        },
        AppState::Controls => (AppView { state: AppState::Navigation, ..v }, ActionV::Idle),
        AppState::ConfirmDelete => (
            AppView { state: AppState::Navigation, ..v },
            match key {
                Key::Char(c) => if c == 'y' {
                    ActionV::Delete(v.folder.entries[v.folder.selected])
                } else {
                    ActionV::Idle
                },
                _ => ActionV::Idle,
            },
        ),
        AppState::NewFolder => match key {
            Key::Enter => (
                AppView { state: AppState::Navigation, pending: Seq::empty(), ..v },
                if v.pending.len() > 0 {
                    ActionV::MakeFolder(join_path(v.folder.path, v.pending))
                } else {
                    ActionV::Idle
                },
            ),
            Key::Esc => (
                AppView { state: AppState::Navigation, pending: Seq::empty(), ..v },
                ActionV::Idle,
            ),
            Key::Char(c) => (AppView { pending: v.pending.push(c), ..v }, ActionV::Idle),
            _ => (v, ActionV::Idle),
        },
        AppState::TouchFile => match key {
            Key::Enter => (
                AppView { state: AppState::Navigation, pending: Seq::empty(), ..v },
                if v.pending.len() > 0 {
                    ActionV::TouchFile(join_path(v.folder.path, v.pending))
                } else {
                    ActionV::Idle
                },
            ),
            Key::Esc => (
                AppView { state: AppState::Navigation, pending: Seq::empty(), ..v },
                ActionV::Idle,
            ),
            Key::Char(c) => (AppView { pending: v.pending.push(c), ..v }, ActionV::Idle),
            _ => (v, ActionV::Idle),
        },
    }
}

impl App {
    /// Well-formedness of the browser state.
    pub open spec fn wf(&self) -> bool {
        app_wf(self@)
    }

    /// The starting state: navigation mode over the given snapshot,
    /// with an empty text buffer.
    pub fn new(folder: Folder) -> (a: App)
        requires
            folder.wf(),
        ensures
            a@ == (AppView {
                state: AppState::Navigation,
                pending: Seq::empty(),
                folder: folder@,
            }),
            a.wf(),
    {
        let a = App { state: AppState::Navigation, folder: folder, input: TextInput::new() };
        proof {
            assert(a@ =~= AppView {
                state: AppState::Navigation,
                pending: Seq::empty(),
                folder: a.folder@,
            });
        }
        a
    }

    /// One step of the transition table: consumes one key event and
    /// returns the operation the embedding program should perform.
    /// `selected_is_dir` says whether the selected entry is currently
    /// a directory on disk.
    pub fn step(&mut self, key: Key, selected_is_dir: bool) -> (a: Action)
        requires
            old(self).wf(),
        ensures
            (final(self)@, a@) == step_spec(old(self)@, key, selected_is_dir),
            final(self).wf(),
    {
        match self.state {
            AppState::Navigation => match key {
                Key::Up => {
                    self.folder.scroll_up();
                    Action::Idle
                },
                Key::Down => {
                    self.folder.scroll_down();
                    Action::Idle
                },
                Key::Right => match self.folder.enter(selected_is_dir) {
                    Some(p) => Action::Load(p),
                    None => Action::Idle,
                },
                Key::Left => match self.folder.exit() {
                    Some(p) => Action::Load(p),
                    None => Action::Idle,
                },
                Key::Char(c) => {
                    if c == ' ' {
                        self.state = AppState::Controls;
                        Action::Idle
                    } else if c == 'f' {
                        self.state = AppState::NewFolder;
                        self.input.reset();
                        Action::Idle
                    } else if c == 't' {
                        self.state = AppState::TouchFile;
                        self.input.reset();
                        Action::Idle
                    } else if c == 'd' {
                        self.state = AppState::ConfirmDelete;
                        Action::Idle
                    } else if c == 'q' {
                        Action::Quit
                    } else {
                        Action::Idle
                    }
                },
                _ => Action::Idle,
            },
            AppState::Controls => {
                self.state = AppState::Navigation;
                Action::Idle
            },
            AppState::ConfirmDelete => {
                self.state = AppState::Navigation;
                match key {
                    Key::Char(c) => {
                        if c == 'y' {
                            Action::Delete(self.folder.selected_entry().clone())
                        } else {
                            Action::Idle
                        }
                    },
                    _ => Action::Idle,
                }
            },
            AppState::NewFolder => match key {
                Key::Enter => {
                    self.state = AppState::Navigation;
                    let a = if self.input.value().unicode_len() > 0 {
                        Action::MakeFolder(join_under(self.folder.path.as_str(), self.input.value()))
                    } else {
                        Action::Idle
                    };
                    self.input.reset();
                    a
                },
                Key::Esc => {
                    self.state = AppState::Navigation;
                    self.input.reset();
                    Action::Idle
                },
                Key::Char(c) => {
                    self.input.push(c);
                    Action::Idle
                },
                _ => Action::Idle,
            },
            AppState::TouchFile => match key {
                Key::Enter => {
                    self.state = AppState::Navigation;
                    let a = if self.input.value().unicode_len() > 0 {
                        Action::TouchFile(join_under(self.folder.path.as_str(), self.input.value()))
                    } else {
                        Action::Idle
                    };
                    self.input.reset();
                    a
                },
                Key::Esc => {
                    self.state = AppState::Navigation;
                    self.input.reset();
                    Action::Idle
                },
                Key::Char(c) => {
                    self.input.push(c);
                    Action::Idle
                },
                _ => Action::Idle,
            },
        }
    }
}

/// On the synthetic parent row, the Right key is the same operation
/// as the Left key: the whole step — next mode, buffer, snapshot and
/// requested operation — is identical.
pub proof fn lemma_right_on_parent_row_is_left(v: AppView, selected_is_dir: bool)
    requires
        v.state is Navigation,
        v.folder.selected == 0,
    ensures
        step_spec(v, Key::Right, selected_is_dir) == step_spec(v, Key::Left, selected_is_dir),
{
    crate::folder::lemma_enter_on_parent_row_is_exit(v.folder, selected_is_dir);
}

/// Outside navigation mode the filesystem plays no part in a step:
/// whether the selected entry is a directory on disk never changes
/// the outcome. In particular a file-creation submit makes the same
/// request, and ends in the same state, whether or not the file
/// already exists; an existing one is then left untouched.
pub proof fn lemma_only_navigation_consults_the_filesystem(
    v: AppView,
    key: Key,
    d1: bool,
    d2: bool,
)
    requires
        !(v.state is Navigation),
    ensures
        step_spec(v, key, d1) == step_spec(v, key, d2),
{
}

/// In the delete confirmation, any key but `y` requests no filesystem
/// operation and returns to navigation with the snapshot unchanged.
pub proof fn lemma_confirm_delete_declined(v: AppView, key: Key, selected_is_dir: bool)
    requires
        v.state is ConfirmDelete,
        !(key matches Key::Char(c) && c == 'y'),
    ensures
        step_spec(v, key, selected_is_dir) == (
            AppView { state: AppState::Navigation, ..v },
            ActionV::Idle,
        ),
{
}

} // verus!
