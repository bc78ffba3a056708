//! Miller columns: one column per depth of a tree, each column showing the
//! children of the item selected in the column before it.
//!
//! [`MillerState`] is the cache owned by the host, [`MillerColumns`] projects
//! it into the columns to show, and [`MillerMessage`] is what a column reports
//! back when the user interacts with it.

pub mod item;
pub mod message;
pub mod state;
pub mod widget;

pub use item::{ItemId, MillerItem, MillerItemType};
pub use message::MillerMessage;
pub use state::{ColumnState, MillerState, SelectionPath};
pub use widget::{ColumnView, ItemView, MillerColumns};
