//! A project explorer panel: the entries directly under a root directory,
//! each classified by kind, and an ordered selection of them that lasts
//! from one redraw to the next.
//!
//! The library holds the decisions of the panel. Reading directories and
//! drawing rows are the embedding program's part: it hands in what it read
//! and sensed, and carries out what the library answers.

pub mod explorer;
