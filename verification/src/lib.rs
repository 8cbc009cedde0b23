//! A desktop trash can, laid out as the FreeDesktop.org desktops share it.
//!
//! The library holds the rules of the trash store: the metadata record codec,
//! the directory size cache, the allocation of storage identifiers, and the
//! decisions behind listing, trashing, restoring and purging items. It touches
//! no file itself: callers perform the filesystem operations that the library
//! plans, and hand back what they observed.

pub mod actions;
pub mod app;
pub mod cli;
pub mod decimal;
pub mod dir_sizes;
pub mod empty;
pub mod identifier;
pub mod info;
pub mod ini_format;
pub mod paths;
pub mod percent;
pub mod put;
pub mod restore;
pub mod text;
pub mod timestamp;
pub mod trash;

pub use trash::{Trash, TrashEmptyReport, TrashEntry, TrashPutReport, TrashRestoreReport};
