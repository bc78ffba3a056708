use chromatic::widgets::miller_columns::{MillerItem, MillerItemType};

#[test]
fn branch_and_leaf_constructors() {
    let b = MillerItem::branch("id-b", "Branch", 7u32);
    assert_eq!(b.id, "id-b");
    assert_eq!(b.label, "Branch");
    assert_eq!(b.item_type, MillerItemType::Branch);
    assert_eq!(b.data, 7);
    assert!(b.is_branch());
    assert!(!b.is_leaf());
    let l = MillerItem::leaf("id-l", "Leaf", 9u32);
    assert_eq!(l.id, "id-l");
    assert_eq!(l.label, "Leaf");
    assert_eq!(l.item_type, MillerItemType::Leaf);
    assert_eq!(l.data, 9);
    assert!(l.is_leaf());
    assert!(!l.is_branch());
}

#[test]
fn default_data_constructors() {
    let b: MillerItem<u32> = MillerItem::branch_default("b", "B");
    assert!(b.is_branch());
    assert_eq!(b.data, 0);
    assert_eq!((b.id.as_str(), b.label.as_str()), ("b", "B"));
    let l: MillerItem<String> = MillerItem::leaf_default("l", "L");
    assert!(l.is_leaf());
    assert_eq!(l.data, "");
    assert_eq!((l.id.as_str(), l.label.as_str()), ("l", "L"));
}

#[test]
fn item_type_predicates() {
    assert!(MillerItemType::Branch.is_branch());
    assert!(!MillerItemType::Branch.is_leaf());
    assert!(MillerItemType::Leaf.is_leaf());
    assert!(!MillerItemType::Leaf.is_branch());
    assert_eq!(MillerItemType::default(), MillerItemType::Branch);
}

#[test]
fn clone_keeps_the_fields() {
    let item = MillerItem::branch("x", "X", vec![1u8, 2]);
    let copy = item.clone();
    assert_eq!(copy.id, item.id);
    assert_eq!(copy.label, item.label);
    assert_eq!(copy.item_type, item.item_type);
    assert_eq!(copy.data, item.data);
}
