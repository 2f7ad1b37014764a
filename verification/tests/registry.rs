use hota_registry::block::{Block, Xyz};
use hota_registry::index::wrapped_index;
use hota_registry::store::Store;
use hota_registry::{Handle, RegistryError, SLOT_COUNT};

fn leaf(owner: u64, price: u64) -> Block {
    Block::new(
        Handle(owner),
        Xyz { x: 1, y: 2, z: 3 },
        price,
        [0u8; 512],
    )
}

#[test]
fn new_store_depth_zero_rejected() {
    assert_eq!(Store::new(0).unwrap_err(), RegistryError::InvalidDepth);
}

#[test]
fn new_store_all_slots_free() {
    let s = Store::new(1).unwrap();
    assert_eq!(s.depth, 1);
    assert_eq!(s.slots.len(), SLOT_COUNT);
    assert_eq!(s.occupied.len(), SLOT_COUNT);
    for i in 0..SLOT_COUNT {
        assert_eq!(s.slots[i], None);
        assert!(!s.occupied[i]);
    }
    assert!(s.is_well_formed());
}

#[test]
fn new_store_max_depth() {
    let s = Store::new(255).unwrap();
    assert_eq!(s.depth, 255);
    assert!(s.is_well_formed());
}

#[test]
fn set_block_then_same_slot_occupied() {
    // Create a depth-1 node, a leaf owned by A with price 10, and assign the
    // leaf at index 5 with A's signature; repeating the assignment fails.
    let mut s = Store::new(1).unwrap();
    let a = Handle(11);
    let b = leaf(11, 10);
    let b_key = Handle(77);
    assert_eq!(s.set_block(&b, b_key, a, 5), Ok(()));
    assert_eq!(s.slots[5], Some(b_key));
    assert!(s.occupied[5]);
    assert_eq!(
        s.set_block(&b, b_key, a, 5),
        Err(RegistryError::SlotOccupied)
    );
    assert_eq!(s.slots[5], Some(b_key));
}

#[test]
fn set_block_index_out_of_range() {
    let mut s = Store::new(1).unwrap();
    let b = leaf(11, 10);
    assert_eq!(
        s.set_block(&b, Handle(77), Handle(11), 32),
        Err(RegistryError::IndexOutOfRange)
    );
    assert_eq!(
        s.set_block(&b, Handle(77), Handle(11), 255),
        Err(RegistryError::IndexOutOfRange)
    );
}

#[test]
fn set_block_requires_owner_signature() {
    let mut s = Store::new(1).unwrap();
    let b = leaf(11, 10);
    assert_eq!(
        s.set_block(&b, Handle(77), Handle(12), 5),
        Err(RegistryError::Unauthorized)
    );
    assert!(!s.occupied[5]);
}

#[test]
fn set_block_needs_depth_one() {
    let mut s = Store::new(2).unwrap();
    let b = leaf(11, 10);
    assert_eq!(
        s.set_block(&b, Handle(77), Handle(11), 5),
        Err(RegistryError::DepthMismatch)
    );
}

#[test]
fn set_block_failure_changes_nothing() {
    let mut s = Store::new(1).unwrap();
    let b = leaf(11, 10);
    s.set_block(&b, Handle(77), Handle(12), 5).unwrap_err();
    for i in 0..SLOT_COUNT {
        assert_eq!(s.slots[i], None);
        assert!(!s.occupied[i]);
    }
    assert_eq!(s.depth, 1);
}

#[test]
fn set_ele_consecutive_depths() {
    // Hi of depth 2, Lo of depth 1: linking at index 0 succeeds, with no
    // identity involved at all.
    let mut hi = Store::new(2).unwrap();
    let lo = Store::new(1).unwrap();
    let lo_key = Handle(500);
    assert_eq!(hi.set_ele(&lo, lo_key, 0), Ok(()));
    assert_eq!(hi.slots[0], Some(lo_key));
    assert!(hi.occupied[0]);
}

#[test]
fn set_ele_depth_mismatch() {
    let mut hi = Store::new(3).unwrap();
    let lo = Store::new(1).unwrap();
    assert_eq!(
        hi.set_ele(&lo, Handle(500), 0),
        Err(RegistryError::DepthMismatch)
    );
    assert!(!hi.occupied[0]);
}

#[test]
fn set_ele_index_out_of_range() {
    let mut hi = Store::new(2).unwrap();
    let lo = Store::new(1).unwrap();
    assert_eq!(
        hi.set_ele(&lo, Handle(500), 32),
        Err(RegistryError::IndexOutOfRange)
    );
}

#[test]
fn set_ele_rejects_zero_depth_child() {
    let mut hi = Store::new(1).unwrap();
    let mut lo = Store::new(1).unwrap();
    lo.depth = 0;
    assert_eq!(
        hi.set_ele(&lo, Handle(500), 0),
        Err(RegistryError::InvalidDepth)
    );
}

#[test]
fn set_ele_slot_occupied() {
    let mut hi = Store::new(2).unwrap();
    let lo = Store::new(1).unwrap();
    hi.set_ele(&lo, Handle(500), 4).unwrap();
    assert_eq!(
        hi.set_ele(&lo, Handle(501), 4),
        Err(RegistryError::SlotOccupied)
    );
    assert_eq!(hi.slots[4], Some(Handle(500)));
}

#[test]
fn well_formedness_detects_broken_pairing() {
    let mut s = Store::new(1).unwrap();
    s.occupied[3] = true;
    assert!(!s.is_well_formed());
    let mut t = Store::new(1).unwrap();
    t.depth = 0;
    assert!(!t.is_well_formed());
}

#[test]
fn wrapped_index_non_negative() {
    assert_eq!(wrapped_index(0, 32), 0);
    assert_eq!(wrapped_index(5, 32), 5);
    assert_eq!(wrapped_index(31, 0), 31);
}

#[test]
fn wrapped_index_negative_adds_length() {
    assert_eq!(wrapped_index(-1, 32), 31);
    assert_eq!(wrapped_index(-32, 32), 0);
    assert_eq!(wrapped_index(-5, 32), 27);
}

#[test]
fn two_level_tree_composes() {
    // A depth-2 node over a depth-1 node over a leaf: repeated application of
    // the two linking operations builds a multi-level tree.
    let mut hi = Store::new(2).unwrap();
    let mut lo = Store::new(1).unwrap();
    let owner = Handle(11);
    let b = leaf(11, 10);
    let b_key = Handle(900);
    let lo_key = Handle(901);
    assert_eq!(lo.set_block(&b, b_key, owner, 0), Ok(()));
    assert_eq!(hi.set_ele(&lo, lo_key, 7), Ok(()));
    assert_eq!(lo.slots[0], Some(b_key));
    assert_eq!(hi.slots[7], Some(lo_key));
    assert!(hi.is_well_formed() && lo.is_well_formed());
}
