//! Items shown in the columns.

use vstd::prelude::*;

verus! {

/// Identifier of an item, unique among its siblings.
pub type ItemId = String;

/// Whether an item can have children.
#[derive(Debug, Clone, Copy, PartialEq, Eq, Structural)]
pub enum MillerItemType {
    /// The item can have children; selecting it opens the next column.
    Branch,
    /// The item is terminal; selecting it opens nothing.
    Leaf,
}

impl Default for MillerItemType {
    fn default() -> (kind: Self)
        ensures
            kind == MillerItemType::Branch,
    {
        MillerItemType::Branch
    }
}

impl MillerItemType {
    /// True for `Branch`.
    pub fn is_branch(&self) -> (b: bool)
        ensures
            b == (*self == MillerItemType::Branch),
    {
        match self {
            MillerItemType::Branch => true,
            MillerItemType::Leaf => false,
        }
    }

    /// True for `Leaf`.
    pub fn is_leaf(&self) -> (b: bool)
        ensures
            b == (*self == MillerItemType::Leaf),
    {
        match self {
            MillerItemType::Branch => false,
            MillerItemType::Leaf => true,
        }
    }
}

/// One node of the tree: an id, a display label, its kind, and data of the
/// host's choosing that the engine carries along without looking at it.
#[derive(Debug)]
pub struct MillerItem<D> {
    /// Identifier, unique among the item's siblings.
    pub id: ItemId,
    /// Display label.
    pub label: String,
    /// Branch or leaf.
    pub item_type: MillerItemType,
    /// Data of the host.
    pub data: D,
}

/// `copy` is `item` with its data cloned: id, label and kind are the same.
pub open spec fn is_copy_of<D: Clone>(copy: MillerItem<D>, item: MillerItem<D>) -> bool {
    &&& copy.id@ == item.id@
    &&& copy.label@ == item.label@
    &&& copy.item_type == item.item_type
    &&& cloned(item.data, copy.data)
}

impl<D: Clone> Clone for MillerItem<D> {
    fn clone(&self) -> (copy: Self)
        ensures
            is_copy_of(copy, *self),
    {
        MillerItem {
            id: self.id.clone(),
            label: self.label.clone(),
            item_type: self.item_type,
            data: self.data.clone(),
        }
    }
}

impl<D> MillerItem<D> {
    /// A branch item.
    pub fn branch(id: &str, label: &str, data: D) -> (item: Self)
        ensures
            item.id@ == id@,
            item.label@ == label@,
            item.item_type == MillerItemType::Branch,
            item.data == data,
    {
        MillerItem {
            id: id.to_owned(),
            label: label.to_owned(),
            item_type: MillerItemType::Branch,
            data,
        }
    }

    /// A leaf item.
    pub fn leaf(id: &str, label: &str, data: D) -> (item: Self)
        ensures
            item.id@ == id@,
            item.label@ == label@,
            item.item_type == MillerItemType::Leaf,
            item.data == data,
    {
        MillerItem {
            id: id.to_owned(),
            label: label.to_owned(),
            item_type: MillerItemType::Leaf,
            data,
        }
    }

    /// Whether the item is a branch, for contracts.
    pub open spec fn spec_is_branch(&self) -> bool {
        self.item_type == MillerItemType::Branch
    }

    /// True if the item can have children.
    #[verifier::when_used_as_spec(spec_is_branch)]
    pub fn is_branch(&self) -> (b: bool)
        ensures
            b == self.spec_is_branch(),
    {
        self.item_type.is_branch()
    }

    /// True if the item is terminal.
    pub fn is_leaf(&self) -> (b: bool)
        ensures
            b == !self.spec_is_branch(),
    {
        self.item_type.is_leaf()
    }
}

impl<D: Default> MillerItem<D> {
    /// A branch item with the default data.
    pub fn branch_default(id: &str, label: &str) -> (item: Self)
        ensures
            item.id@ == id@,
            item.label@ == label@,
            item.item_type == MillerItemType::Branch,
            call_ensures(D::default, (), item.data),
    {
        MillerItem::branch(id, label, D::default())
    }

    /// A leaf item with the default data.
    pub fn leaf_default(id: &str, label: &str) -> (item: Self)
        ensures
            item.id@ == id@,
            item.label@ == label@,
            item.item_type == MillerItemType::Leaf,
            call_ensures(D::default, (), item.data),
    {
        MillerItem::leaf(id, label, D::default())
    }
}

} // verus!
