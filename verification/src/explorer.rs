//! The explorer: path handling, entry classification, the selection, the
//! directory lister and the panel that ties them together.

pub mod item;
pub mod lister;
pub mod panel;
pub mod path;
pub mod selection;

pub use item::{ExplorerItem, ExplorerItemError, ExplorerItemType, VisualState};
pub use lister::Explorer;
pub use panel::{ExplorerTab, PanelContent};
pub use selection::Selection;
