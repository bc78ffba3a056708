//! Reusable widgets' state and layout logic.

pub mod miller_columns;

pub use miller_columns::{
    ColumnState, ColumnView, ItemId, ItemView, MillerColumns, MillerItem, MillerItemType,
    MillerMessage, MillerState, SelectionPath,
};
