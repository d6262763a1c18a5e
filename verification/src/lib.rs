//! Core of an interactive terminal file browser: a scroll-windowed
//! directory snapshot, the navigation/mutation state machine that
//! interprets key events against it, and the adapter that derives the
//! visible rows for rendering.
//!
//! All filesystem and terminal work is left to the embedding program;
//! this crate only decides, for every input event, what the next mode
//! is, which filesystem operation (if any) it requests, and how the
//! window into the listing moves.

pub mod paths;
pub mod folder;
pub mod machine;
pub mod render;
