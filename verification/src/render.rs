//! The scroll-windowed renderer adapter: a pure function from the
//! snapshot, the viewport height and the current on-disk kind of each
//! entry to the rows that fit, each with its label and style.
//!
//! The kinds come from the embedding program, which stats each entry
//! at render time; an entry that has vanished since the listing was
//! read is skipped rather than drawn.

use vstd::prelude::*;
use crate::folder::{Folder, FolderView};
use crate::paths::{entry_label, entry_label_of};

verus! {

/// What a stat of an entry reported at render time.
#[derive(Clone, Copy, Debug, PartialEq, Eq, Structural)]
pub enum EntryKind {
    Directory,
    File,
    Missing,
}

/// How one visible row is styled: whether the cursor is on it, and
/// whether it names a directory.
#[derive(Clone, Copy, Debug, PartialEq, Eq, Structural)]
pub enum StyleTag {
    NormalFile,
    NormalDirectory,
    SelectedFile,
    SelectedDirectory,
}

/// One visible row: the label to draw and its style.
#[derive(Clone, Debug, PartialEq, Eq)]
pub struct Row {
    pub label: String,
    pub style: StyleTag,
}

/// The mathematical content of a [`Row`].
#[verifier::ext_equal]
pub ghost struct RowV {
    pub label: Seq<char>,
    pub style: StyleTag,
}

impl View for Row {
    type V = RowV;

    open spec fn view(&self) -> RowV {
        RowV { label: self.label@, style: self.style }
    }
}

impl DeepView for Row {
    type V = RowV;

    open spec fn deep_view(&self) -> RowV {
        self.view()
    }
}

/// The style of a row, from whether the cursor is on it and whether
/// it is a directory.
pub open spec fn style_for(on_cursor: bool, is_dir: bool) -> StyleTag {
    if on_cursor {
        if is_dir {
            StyleTag::SelectedDirectory
        } else {
            StyleTag::SelectedFile
        }
    } else {
        if is_dir {
            StyleTag::NormalDirectory
        } else {
            StyleTag::NormalFile
        }
    }
}

/// The rows for the entries of `f` with indices in `[f.scroll, upto)`
/// whose kind is not `Missing`, in order.
pub open spec fn rows_upto(f: FolderView, kinds: Seq<EntryKind>, upto: int) -> Seq<RowV>
    decreases upto - f.scroll,
{
    if upto <= f.scroll {
        Seq::empty()
    } else {
        rows_upto(f, kinds, upto - 1) + match kinds[upto - 1] {
            EntryKind::Missing => Seq::<RowV>::empty(),
            k => seq![
                RowV {
                    label: entry_label(f.entries[upto - 1]),
                    style: style_for(upto - 1 == f.selected, k is Directory),
                },
            ],
        }
    }
}

/// The end of the visible window: `viewport` entries past the scroll
/// start, clipped to the listing's length.
pub open spec fn window_end(f: FolderView, viewport: int) -> int {
    if f.scroll + viewport <= f.entries.len() {
        f.scroll + viewport
    } else {
        f.entries.len() as int
    }
}

/// All rows the renderer emits for snapshot `f` in a window of
/// `viewport` rows, given the current kind of each entry.
pub open spec fn visible_rows_spec(f: FolderView, viewport: int, kinds: Seq<EntryKind>) -> Seq<
    RowV,
> {
    rows_upto(f, kinds, window_end(f, viewport))
}

/// The window emits at most one row per entry position it covers.
proof fn lemma_rows_upto_len(f: FolderView, kinds: Seq<EntryKind>, upto: int)
    requires
        f.scroll <= upto,
    ensures
        rows_upto(f, kinds, upto).len() <= upto - f.scroll,
    decreases upto - f.scroll,
{
    if upto > f.scroll {
        lemma_rows_upto_len(f, kinds, upto - 1);
    }
}

/// The renderer never emits more rows than fit in the viewport, nor
/// more than the listing has from the scroll start on.
pub proof fn lemma_window_fits(f: FolderView, viewport: int, kinds: Seq<EntryKind>)
    requires
        crate::folder::folder_wf(f),
        0 <= viewport,
    ensures
        visible_rows_spec(f, viewport, kinds).len() <= viewport,
        visible_rows_spec(f, viewport, kinds).len() <= f.entries.len() - f.scroll,
{
    lemma_rows_upto_len(f, kinds, window_end(f, viewport));
}

/// Derives the rows that fit in a window of `viewport` rows: exactly
/// the entries from the scroll start on that still exist, each with
/// its label and its style. The snapshot itself is untouched.
pub fn visible_rows(f: &Folder, viewport: usize, kinds: &Vec<EntryKind>) -> (rows: Vec<Row>)
    requires
        f.wf(),
        kinds@.len() == f@.entries.len(),
    ensures
        rows.deep_view() == visible_rows_spec(f@, viewport as int, kinds@),
{
    let mut rows: Vec<Row> = Vec::new();
    let end = if viewport <= f.entries.len() - f.scroll {
        f.scroll + viewport
    } else {
        f.entries.len()
    };
    let mut i: usize = f.scroll;
    proof {
        assert(end as int == window_end(f@, viewport as int));
        assert(rows.deep_view() =~= rows_upto(f@, kinds@, i as int));
    }
    while i < end
        invariant
            f.wf(),
            kinds@.len() == f@.entries.len(),
            f@.scroll <= i <= end,
            end as int == window_end(f@, viewport as int),
            rows.deep_view() =~= rows_upto(f@, kinds@, i as int),
        decreases end - i,
    {
        let on_cursor = i == f.selected;
        let label = entry_label_of(f.entries[i].as_str());
        match kinds[i] {
            EntryKind::Missing => {},
            EntryKind::Directory => {
                rows.push(
                    Row {
                        label: label,
                        style: if on_cursor {
                            StyleTag::SelectedDirectory
                        } else {
                            StyleTag::NormalDirectory
                        },
                    },
                );
            },
            EntryKind::File => {
                rows.push(
                    Row {
                        label: label,
                        style: if on_cursor {
                            StyleTag::SelectedFile
                        } else {
                            StyleTag::NormalFile
                        },
                    },
                );
            },
        }
        proof {
            assert(rows.deep_view() =~= rows_upto(f@, kinds@, i + 1));
        }
        i = i + 1;
    }
    rows
}

} // verus!
