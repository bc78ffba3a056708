//! What the columns report to the host.

use super::item::{ItemId, MillerItem};
use super::state::SelectionPath;
use vstd::prelude::*;

verus! {

/// A report from the columns. The host wraps it into its own message type
/// and reacts to it in its update step; the columns change nothing themselves.
#[derive(Debug, Clone)]
pub enum MillerMessage<D: Clone> {
    /// An item was selected.
    Select {
        /// The column in which the item stands, counted from 0.
        column: usize,
        /// The path from the root column down to the item.
        path: SelectionPath,
        /// The item.
        item: MillerItem<D>,
    },
    /// A leaf was activated. Branches are never activated.
    Activate {
        /// The path from the root column down to the item.
        path: SelectionPath,
        /// The item.
        item: MillerItem<D>,
    },
    /// The children of a branch are wanted: the host fetches them and
    /// records the outcome in the cache.
    NeedChildren {
        /// The path down to the parent.
        parent_path: SelectionPath,
        /// The parent's id.
        parent_id: ItemId,
    },
    /// A column was scrolled.
    Scroll {
        /// The column, counted from 0.
        column: usize,
        /// The new offset, as the bit pattern of a single-precision number.
        offset: u32,
    },
}

} // verus!
