//! The directory snapshot: one directory's listing plus cursor and
//! scroll-window state.
//!
//! A snapshot is built from a path and a fresh listing of that
//! directory's children, handed in by the embedding program; children
//! whose read failed come in as `None` and are skipped. Index 0 is
//! always the synthetic parent entry `..`. After any mutation the
//! embedding program reads the directory again and builds a new
//! snapshot, so the entries never go stale.

use vstd::prelude::*;
use crate::paths::{
    is_abs_path, parent_path, display_name, display_name_of, parent_of,
};

verus! {

/// The mathematical content of a [`Folder`].
#[verifier::ext_equal]
pub ghost struct FolderView {
    pub path: Seq<char>,
    pub path_name: Seq<char>,
    pub entries: Seq<Seq<char>>,
    pub selected: int,
    pub scroll: int,
    pub rows: int,
}

/// Well-formedness of a snapshot: the path is canonical and absolute,
/// its display name is the path's final component, the synthetic
/// parent entry sits at index 0, and the scroll window start never
/// passes the cursor, which is always a valid index.
pub open spec fn folder_wf(f: FolderView) -> bool {
    &&& is_abs_path(f.path)
    &&& f.path_name == display_name(f.path)
    &&& f.entries.len() >= 1
    &&& f.entries[0] == ".."@
    &&& 0 <= f.scroll <= f.selected < f.entries.len()
}

/// The children kept from a listing: the views of the entries that
/// were readable, in the order the filesystem returned them.
pub open spec fn kept_children(cs: Seq<Option<String>>) -> Seq<Seq<char>>
    decreases cs.len(),
{
    if cs.len() == 0 {
        Seq::empty()
    } else {
        kept_children(cs.drop_last()) + match cs.last() {
            Some(s) => seq![s@],
            None => Seq::empty(),
        }
    }
}

/// The snapshot built from a path and a fresh listing: the synthetic
/// parent entry, then the readable children, with the cursor and the
/// scroll window reset to the top.
pub open spec fn load_view(path: Seq<char>, cs: Seq<Option<String>>) -> FolderView {
    FolderView {
        path: path,
        path_name: display_name(path),
        entries: seq![".."@] + kept_children(cs),
        selected: 0,
        scroll: 0,
        rows: 0,
    }
}

/// Moving the cursor up one entry, clamped at the top; the scroll
/// window follows so the cursor stays visible.
pub open spec fn scroll_up_view(f: FolderView) -> FolderView {
    if f.selected > 0 {
        let s = f.selected - 1;
        FolderView {
            selected: s,
            scroll: if s < f.scroll {
                s
            } else {
                f.scroll
            },
            ..f
        }
    } else {
        f
    }
}

/// Moving the cursor down one entry, clamped at the last; the scroll
/// window advances so the cursor stays within its `rows` visible
/// entries (a window of no recorded height shows one).
pub open spec fn scroll_down_view(f: FolderView) -> FolderView {
    if f.selected < f.entries.len() - 1 {
        let s = f.selected + 1;
        let w = if f.rows == 0 {
            1 as int
        } else {
            f.rows
        };
        FolderView {
            selected: s,
            scroll: if s - f.scroll >= w {
                s - (w - 1)
            } else {
                f.scroll
            },
            ..f
        }
    } else {
        f
    }
}

/// The directory the snapshot would move to on exiting upward: the
/// parent of its path, or nothing at the filesystem root.
pub open spec fn exit_target(f: FolderView) -> Option<Seq<char>> {
    parent_path(f.path)
}

/// The directory the snapshot would move to on entering the selected
/// entry: on the synthetic parent row this is exactly the exit move;
/// on a directory entry it is that entry; on a plain file, nothing.
pub open spec fn enter_target(f: FolderView, selected_is_dir: bool) -> Option<Seq<char>> {
    if f.selected == 0 {
        exit_target(f)
    } else if selected_is_dir {
        Some(f.entries[f.selected])
    } else {
        None
    }
}

/// An immutable-per-instance listing of one directory with cursor and
/// scroll-window state. `entries` holds the synthetic `..` entry at
/// index 0, then the children's full paths.
#[derive(Debug, Clone)]
pub struct Folder {
    pub selected: usize,
    pub path: String,
    pub path_name: String,
    pub entries: Vec<String>,
    pub scroll: usize,
    pub rows: usize,
}

impl View for Folder {
    type V = FolderView;

    open spec fn view(&self) -> FolderView {
        FolderView {
            path: self.path@,
            path_name: self.path_name@,
            entries: self.entries.deep_view(),
            selected: self.selected as int,
            scroll: self.scroll as int,
            rows: self.rows as int,
        }
    }
}

impl Folder {
    /// Well-formedness of this snapshot; every constructor establishes
    /// it and every operation preserves it.
    pub open spec fn wf(&self) -> bool {
        folder_wf(self@)
    }

    /// Builds the snapshot of the directory at `path` from a fresh
    /// listing of its children; unreadable children come in as `None`
    /// and are dropped, the rest keep the filesystem's order.
    pub fn from_listing(path: String, children: Vec<Option<String>>) -> (f: Folder)
        requires
            is_abs_path(path@),
        ensures
            f@ == load_view(path@, children@),
            f.wf(),
    {
        let path_name = display_name_of(path.as_str());
        let mut entries: Vec<String> = Vec::new();
        entries.push("..".to_owned());
        proof {
            assert(entries.deep_view() =~= seq![".."@] + kept_children(
                children@.subrange(0, 0),
            ));
        }
        let mut i: usize = 0;
        while i < children.len()
            invariant
                i <= children@.len(),
                entries.deep_view() =~= seq![".."@] + kept_children(
                    children@.subrange(0, i as int),
                ),
            decreases children@.len() - i,
        {
            let ghost prev = entries.deep_view();
            let ghost kept_prev = kept_children(children@.subrange(0, i as int));
            proof {
                assert(children@.subrange(0, i + 1).drop_last() =~= children@.subrange(
                    0,
                    i as int,
                ));
                assert(children@.subrange(0, i + 1).last() == children@[i as int]);
            }
            match &children[i] {
                Some(s) => {
                    entries.push(s.clone());
                    proof {
                        assert(entries.deep_view() =~= prev.push(children@[i as int]->0@));
                        assert(kept_children(children@.subrange(0, i + 1)) =~= kept_prev.push(
                            children@[i as int]->0@,
                        ));
                        assert(entries.deep_view() =~= seq![".."@] + kept_children(
                            children@.subrange(0, i + 1),
                        ));
                    }
                },
                None => {
                    proof {
                        assert(kept_children(children@.subrange(0, i + 1)) =~= kept_prev);
                        assert(entries.deep_view() =~= seq![".."@] + kept_children(
                            children@.subrange(0, i + 1),
                        ));
                    }
                },
            }
            i = i + 1;
        }
        proof {
            assert(children@.subrange(0, children@.len() as int) =~= children@);
        }
        let f = Folder {
            selected: 0,
            path: path,
            path_name: path_name,
            entries: entries,
            scroll: 0,
            rows: 0,
        };
        proof {
            assert(f@ =~= load_view(f.path@, children@));
        }
        f
    }

    /// A fresh snapshot of the same directory, built from a new
    /// listing; cursor and scroll reset to the top.
    pub fn reload(&self, children: Vec<Option<String>>) -> (f: Folder)
        requires
            self.wf(),
        ensures
            f@ == load_view(self@.path, children@),
            f.wf(),
    {
        Folder::from_listing(self.path.clone(), children)
    }

    /// Moves the cursor up one entry, clamped at the top, pulling the
    /// scroll window with it.
    pub fn scroll_up(&mut self)
        requires
            old(self).wf(),
        ensures
            final(self)@ == scroll_up_view(old(self)@),
            final(self).wf(),
    {
        if self.selected > 0 {
            self.selected = self.selected - 1;
            if self.selected < self.scroll {
                self.scroll = self.selected;
            }
        }
    }

    /// Moves the cursor down one entry, clamped at the last entry,
    /// advancing the scroll window to keep the cursor visible.
    pub fn scroll_down(&mut self)
        requires
            old(self).wf(),
        ensures
            final(self)@ == scroll_down_view(old(self)@),
            final(self).wf(),
    {
        if self.selected < self.entries.len() - 1 {
            self.selected = self.selected + 1;
            let w = if self.rows == 0 {
                1
            } else {
                self.rows
            };
            if self.selected - self.scroll >= w {
                self.scroll = self.selected - (w - 1);
            }
        }
    }

    /// Records the latest visible row count for the scroll-window
    /// arithmetic; the cursor and the window do not move.
    pub fn with_viewport_rows(&mut self, n: usize)
        requires
            old(self).wf(),
        ensures
            final(self)@ == (FolderView { rows: n as int, ..old(self)@ }),
            final(self).wf(),
    {
        self.rows = n;
    }

    /// The display name of this directory: its final path component,
    /// or `N/A` at the root.
    pub fn name(&self) -> (r: &str)
        ensures
            r@ == self@.path_name,
    {
        self.path_name.as_str()
    }

    /// The entry the cursor is on; always defined, since the synthetic
    /// parent entry keeps the listing non-empty.
    pub fn selected_entry(&self) -> (r: &String)
        requires
            self.wf(),
        ensures
            r@ == self@.entries[self@.selected],
    {
        &self.entries[self.selected]
    }

    /// The final component of the selected entry, or `N/A` when it has
    /// none (the synthetic parent entry).
    pub fn file_name(&self) -> (r: String)
        requires
            self.wf(),
        ensures
            r@ == display_name(self@.entries[self@.selected]),
    {
        display_name_of(self.entries[self.selected].as_str())
    }

    /// The directory to load when exiting upward: the parent of this
    /// snapshot's path, or `None` at the filesystem root.
    pub fn exit(&self) -> (r: Option<String>)
        requires
            self.wf(),
        ensures
            match r {
                Some(p) => exit_target(self@) == Some(p@),
                None => exit_target(self@) is None,
            },
    {
        parent_of(self.path.as_str())
    }

    /// The directory to load when entering the selected entry, given
    /// whether that entry is a directory: the parent on the synthetic
    /// `..` row, the entry itself when it is a directory, and `None`
    /// otherwise.
    pub fn enter(&self, selected_is_dir: bool) -> (r: Option<String>)
        requires
            self.wf(),
        ensures
            match r {
                Some(p) => enter_target(self@, selected_is_dir) == Some(p@),
                None => enter_target(self@, selected_is_dir) is None,
            },
    {
        if self.selected == 0 {
            self.exit()
        } else if selected_is_dir {
            Some(self.entries[self.selected].clone())
        } else {
            None
        }
    }
}

/// A well-formed snapshot keeps the cursor inside the listing and the
/// scroll window start at or before the cursor.
pub proof fn lemma_selection_bounds(f: FolderView)
    requires
        folder_wf(f),
    ensures
        0 <= f.scroll <= f.selected < f.entries.len(),
{
}

/// A well-formed snapshot always has the synthetic parent entry at
/// index 0.
pub proof fn lemma_parent_row_first(f: FolderView)
    requires
        folder_wf(f),
    ensures
        f.entries[0] == ".."@,
{
}

/// Moving the cursor down keeps it visible: when it lay within the
/// window of `w` entries from the scroll start (`w` being the
/// recorded height, or one entry when none was recorded), it still
/// does after the move.
pub proof fn lemma_scroll_down_keeps_cursor_visible(f: FolderView, w: int)
    requires
        folder_wf(f),
        w == (if f.rows == 0 {
            1 as int
        } else {
            f.rows
        }),
        f.selected < f.scroll + w,
    ensures
        scroll_down_view(f).selected < scroll_down_view(f).scroll + w,
        folder_wf(scroll_down_view(f)),
{
}

/// Moving the cursor up keeps it visible in the same sense: the
/// window start follows it upward and it never falls below the
/// window's last entry.
pub proof fn lemma_scroll_up_keeps_cursor_visible(f: FolderView, w: int)
    requires
        folder_wf(f),
        w == (if f.rows == 0 {
            1 as int
        } else {
            f.rows
        }),
        f.selected < f.scroll + w,
    ensures
        scroll_up_view(f).selected < scroll_up_view(f).scroll + w,
        folder_wf(scroll_up_view(f)),
{
}

/// On the synthetic parent row, entering is the same move as exiting:
/// both lead to the parent directory, or nowhere at the root.
pub proof fn lemma_enter_on_parent_row_is_exit(f: FolderView, selected_is_dir: bool)
    requires
        f.selected == 0,
    ensures
        enter_target(f, selected_is_dir) == exit_target(f),
{
}

/// Whether position `i` of the listing holds a readable child whose
/// path is `x`.
pub open spec fn child_is(cs: Seq<Option<String>>, i: int, x: Seq<char>) -> bool {
    &&& cs[i] is Some
    &&& cs[i]->0@ == x
}

/// What a freshly built snapshot lists: exactly the synthetic parent
/// entry and the readable children of the listing it was built from.
/// So after a delete and a reload the deleted entry is gone from
/// `entries`, and after creating one and reloading it is present,
/// as soon as the fresh listing reflects the filesystem.
pub proof fn lemma_load_membership(path: Seq<char>, cs: Seq<Option<String>>, x: Seq<char>)
    ensures
        load_view(path, cs).entries.contains(x) <==> (x == ".."@ || exists|i: int|
            0 <= i < cs.len() && #[trigger] child_is(cs, i, x)),
{
    lemma_kept_children_membership(cs, x);
    let e = load_view(path, cs).entries;
    assert(e[0] == ".."@);
    if kept_children(cs).contains(x) {
        let j = choose|j: int| 0 <= j < kept_children(cs).len() && kept_children(cs)[j] == x;
        assert(e[j + 1] == x);
    }
    if e.contains(x) && x != ".."@ {
        let j = choose|j: int| 0 <= j < e.len() && e[j] == x;
        assert(j != 0);
        assert(kept_children(cs)[j - 1] == x);
        assert(kept_children(cs).contains(x));
    }
}

/// The kept children are exactly the readable entries of the listing.
proof fn lemma_kept_children_membership(cs: Seq<Option<String>>, x: Seq<char>)
    ensures
        kept_children(cs).contains(x) <==> exists|i: int|
            0 <= i < cs.len() && #[trigger] child_is(cs, i, x),
    decreases cs.len(),
{
    if cs.len() == 0 {
    } else {
        let head = cs.drop_last();
        lemma_kept_children_membership(head, x);
        let k = kept_children(cs);
        let kh = kept_children(head);
        if kh.contains(x) {
            let j = choose|j: int| 0 <= j < kh.len() && kh[j] == x;
            assert(k[j] == x);
            assert(k.contains(x));
        }
        if child_is(cs, cs.len() - 1, x) {
            assert(k.last() == x);
            assert(k.contains(x));
        }
        if k.contains(x) {
            let j = choose|j: int| 0 <= j < k.len() && k[j] == x;
            if j < kh.len() {
                assert(kh[j] == x);
                assert(kh.contains(x));
            } else {
                assert(child_is(cs, cs.len() - 1, x));
            }
        }
        if exists|i: int| 0 <= i < head.len() && #[trigger] child_is(head, i, x) {
            let i = choose|i: int| 0 <= i < head.len() && #[trigger] child_is(head, i, x);
            assert(cs[i] == head[i]);
            assert(child_is(cs, i, x));
        }
        if exists|i: int| 0 <= i < cs.len() && #[trigger] child_is(cs, i, x) {
            let i = choose|i: int| 0 <= i < cs.len() && #[trigger] child_is(cs, i, x);
            if i < cs.len() - 1 {
                assert(head[i] == cs[i]);
                assert(child_is(head, i, x));
                assert(kh.contains(x));
            }
        }
    }
}

} // verus!
