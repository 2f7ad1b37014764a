//! Store nodes: depth-tagged tables of 32 write-once slots that index the
//! registry. A node of depth 1 links to blocks; a node of depth `d > 1` links
//! to nodes of depth `d - 1`.
//!
//! The two linking operations validate their preconditions in a fixed order
//! and mutate nothing on failure. A slot, once occupied, is never freed: no
//! operation of this crate resets an occupancy flag, and
//! [`lemma_slot_write_once`] proves that no sequence of linking operations
//! can either.

use vstd::pervasive::VecAdditionalExecFns;
use vstd::prelude::*;

use crate::Handle;
use crate::RegistryError;
use crate::SLOT_COUNT;
use crate::block::Block;
use crate::index::wrapped_index;

verus! {

/// A registry node: a depth tag and a table of 32 write-once slots. A slot is
/// a link paired with an occupancy flag; the flag is set exactly when the
/// link is present.
#[derive(Debug)]
pub struct Store {
    pub depth: u8,
    pub slots: Vec<Option<Handle>>,
    pub occupied: Vec<bool>,
}

/// The mathematical value of a store node.
#[verifier::ext_equal]
pub ghost struct StoreView {
    pub depth: int,
    pub slots: Seq<Option<Handle>>,
    pub occupied: Seq<bool>,
}

impl View for Store {
    type V = StoreView;

    open spec fn view(&self) -> StoreView {
        StoreView { depth: self.depth as int, slots: self.slots@, occupied: self.occupied@ }
    }
}

/// Well-formedness of a store node: the depth is positive, both tables have
/// exactly one entry per slot, and a slot's occupancy flag is set exactly
/// when the slot holds a link.
pub open spec fn store_wf(v: StoreView) -> bool {
    &&& v.depth >= 1
    &&& v.slots.len() == SLOT_COUNT
    &&& v.occupied.len() == SLOT_COUNT
    &&& forall|i: int| 0 <= i < SLOT_COUNT ==> (v.occupied[i] <==> v.slots[i] is Some)
}

/// Linking a block owned by `block_owner` into `v` at `index`, signed by
/// `signer`, is accepted iff the index is in range, the signer is the block's
/// owner, the node has depth one, and the slot is free.
pub open spec fn set_block_accepted(
    v: StoreView,
    block_owner: Handle,
    signer: Handle,
    index: int,
) -> bool {
    &&& 0 <= index < SLOT_COUNT
    &&& signer == block_owner
    &&& v.depth == 1
    &&& !v.occupied[index]
}

/// Linking a child node of depth `lo_depth` into `v` at `index` is accepted
/// iff the index is in range, the child's depth is positive, the depths are
/// consecutive, and the slot is free. No identity gates this operation.
pub open spec fn set_ele_accepted(v: StoreView, lo_depth: int, index: int) -> bool {
    &&& 0 <= index < SLOT_COUNT
    &&& lo_depth > 0
    &&& v.depth == lo_depth + 1
    &&& !v.occupied[index]
}

/// The node after a link to `key` is written into slot `index`.
pub open spec fn with_link(v: StoreView, index: int, key: Handle) -> StoreView {
    StoreView {
        depth: v.depth,
        slots: v.slots.update(index, Some(key)),
        occupied: v.occupied.update(index, true),
    }
}

/// One linking request against a store node, with everything the node's own
/// acceptance rule reads: the identities involved, the key to be linked, and
/// the slot index.
pub ghost enum LinkOp {
    /// Link the block with address `key`, owned by `block_owner`, signed by
    /// `signer`.
    SetBlock { block_owner: Handle, signer: Handle, key: Handle, index: int },
    /// Link the child node with address `key` and depth `lo_depth`.
    SetEle { lo_depth: int, key: Handle, index: int },
}

/// The node after one linking request: the written node if the request is
/// accepted, the node unchanged if it is refused.
pub open spec fn apply_link_op(v: StoreView, op: LinkOp) -> StoreView {
    match op {
        LinkOp::SetBlock { block_owner, signer, key, index } => {
            if set_block_accepted(v, block_owner, signer, index) {
                with_link(v, index, key)
            } else {
                v
            }
        },
        LinkOp::SetEle { lo_depth, key, index } => {
            if set_ele_accepted(v, lo_depth, index) {
                with_link(v, index, key)
            } else {
                v
            }
        },
    }
}

/// The node after a sequence of linking requests, applied in order.
pub open spec fn apply_link_ops(v: StoreView, ops: Seq<LinkOp>) -> StoreView
    decreases ops.len(),
{
    if ops.len() == 0 {
        v
    } else {
        apply_link_ops(apply_link_op(v, ops[0]), ops.subrange(1, ops.len() as int))
    }
}

/// Every linking request carries a well-formed node to a well-formed node.
pub proof fn lemma_link_op_preserves_wf(v: StoreView, op: LinkOp)
    requires
        store_wf(v),
    ensures
        store_wf(apply_link_op(v, op)),
{
}

/// Law: slots are write-once. An occupied slot of a well-formed node stays
/// occupied under any sequence of linking requests, and a request aimed at an
/// occupied slot is accepted by neither linking rule.
pub proof fn lemma_slot_write_once(v: StoreView, ops: Seq<LinkOp>, i: int)
    requires
        store_wf(v),
        0 <= i < SLOT_COUNT,
        v.occupied[i],
    ensures
        apply_link_ops(v, ops).occupied[i],
        forall|block_owner: Handle, signer: Handle|
            !set_block_accepted(v, block_owner, signer, i),
        forall|lo_depth: int| !set_ele_accepted(v, lo_depth, i),
    decreases ops.len(),
{
    if ops.len() > 0 {
        let w = apply_link_op(v, ops[0]);
        lemma_link_op_preserves_wf(v, ops[0]);
        assert(w.occupied[i]);
        lemma_slot_write_once(w, ops.subrange(1, ops.len() as int), i);
    }
}

impl Store {
    /// Shorthand for well-formedness of this node's value.
    pub open spec fn wf(&self) -> bool {
        store_wf(self@)
    }

    /// Create a node of the requested depth with every slot unset. A depth of
    /// zero is rejected.
    pub fn new(depth: u8) -> (r: Result<Store, RegistryError>)
        ensures
            depth == 0 ==> r == Err::<Store, RegistryError>(RegistryError::InvalidDepth),
            depth >= 1 ==> r is Ok,
            r matches Ok(s) ==> {
                &&& s.wf()
                &&& s.depth == depth
                &&& forall|i: int| 0 <= i < SLOT_COUNT ==> !s@.occupied[i]
                &&& forall|i: int| 0 <= i < SLOT_COUNT ==> s@.slots[i] is None
            },
    {
        if depth == 0 {
            return Err(RegistryError::InvalidDepth);
        }
        let mut slots: Vec<Option<Handle>> = Vec::new();
        let mut occupied: Vec<bool> = Vec::new();
        let mut i: usize = 0;
        while i < SLOT_COUNT
            invariant
                i <= SLOT_COUNT,
                slots@.len() == i,
                occupied@.len() == i,
                forall|j: int| 0 <= j < i ==> slots@[j] is None,
                forall|j: int| 0 <= j < i ==> !occupied@[j],
            decreases SLOT_COUNT - i,
        {
            slots.push(None);
            occupied.push(false);
            i = i + 1;
        }
        Ok(Store { depth, slots, occupied })
    }

    /// Report whether this node is well-formed, so that an unverified host
    /// can test the precondition of the linking operations before calling
    /// them.
    pub fn is_well_formed(&self) -> (b: bool)
        ensures
            b == self.wf(),
    {
        if self.depth == 0 {
            return false;
        }
        if self.slots.len() != SLOT_COUNT || self.occupied.len() != SLOT_COUNT {
            return false;
        }
        let mut i: usize = 0;
        while i < SLOT_COUNT
            invariant
                i <= SLOT_COUNT,
                self.slots@.len() == SLOT_COUNT,
                self.occupied@.len() == SLOT_COUNT,
                forall|j: int| 0 <= j < i ==> (self.occupied@[j] <==> self.slots@[j] is Some),
            decreases SLOT_COUNT - i,
        {
            if self.occupied[i] != self.slots[i].is_some() {
                return false;
            }
            i = i + 1;
        }
        true
    }

    /// Link `block`, stored at address `block_key`, into slot `index` of this
    /// depth-1 node. The block's owner must sign. Checked in order: the index
    /// bound, the signature, the node's depth, the slot's availability; the
    /// first failed check aborts with its error and no field changes.
    pub fn set_block(
        &mut self,
        block: &Block,
        block_key: Handle,
        signer: Handle,
        index: u8,
    ) -> (r: Result<(), RegistryError>)
        requires
            old(self).wf(),
        ensures
            final(self).wf(),
            final(self)@ == apply_link_op(
                old(self)@,
                (LinkOp::SetBlock {
                    block_owner: block.owner,
                    signer,
                    key: block_key,
                    index: index as int,
                }),
            ),
            r is Ok <==> set_block_accepted(old(self)@, block.owner, signer, index as int),
            r is Ok ==> r == Ok::<(), RegistryError>(()),
            r is Err ==> final(self)@ == old(self)@,
            index >= SLOT_COUNT ==> r == Err::<(), RegistryError>(RegistryError::IndexOutOfRange),
            index < SLOT_COUNT && signer != block.owner ==> r == Err::<(), RegistryError>(
                RegistryError::Unauthorized,
            ),
            index < SLOT_COUNT && signer == block.owner && old(self).depth != 1 ==> r == Err::<
                (),
                RegistryError,
            >(RegistryError::DepthMismatch),
            index < SLOT_COUNT && signer == block.owner && old(self).depth == 1 && old(
                self,
            )@.occupied[index as int] ==> r == Err::<(), RegistryError>(RegistryError::SlotOccupied),
            r is Ok ==> final(self)@ == with_link(old(self)@, index as int, block_key),
    {
        if !(index < SLOT_COUNT as u8) {
            return Err(RegistryError::IndexOutOfRange);
        }
        if !(signer == block.owner) {
            return Err(RegistryError::Unauthorized);
        }
        if !(self.depth == 1) {
            return Err(RegistryError::DepthMismatch);
        }
        let slot = wrapped_index(index as i128, SLOT_COUNT);
        if self.occupied[slot] {
            return Err(RegistryError::SlotOccupied);
        }
        self.slots.set(slot, Some(block_key));
        self.occupied.set(slot, true);
        proof {
            assert(self@ =~= with_link(old(self)@, index as int, block_key));
        }
        Ok(())
    }

    /// Link the child node `lo`, stored at address `lo_key`, into slot
    /// `index` of this node. The depths must be consecutive; no identity
    /// gates this operation. Checked in order: the index bound, the child's
    /// depth being positive (defensive — every node this crate creates has
    /// positive depth), the depths, the slot's availability; the first failed
    /// check aborts with its error and no field changes.
    pub fn set_ele(&mut self, lo: &Store, lo_key: Handle, index: u8) -> (r: Result<
        (),
        RegistryError,
    >)
        requires
            old(self).wf(),
        ensures
            final(self).wf(),
            final(self)@ == apply_link_op(
                old(self)@,
                (LinkOp::SetEle { lo_depth: lo.depth as int, key: lo_key, index: index as int }),
            ),
            r is Ok <==> set_ele_accepted(old(self)@, lo.depth as int, index as int),
            r is Ok ==> r == Ok::<(), RegistryError>(()),
            r is Err ==> final(self)@ == old(self)@,
            index >= SLOT_COUNT ==> r == Err::<(), RegistryError>(RegistryError::IndexOutOfRange),
            index < SLOT_COUNT && lo.depth == 0 ==> r == Err::<(), RegistryError>(
                RegistryError::InvalidDepth,
            ),
            index < SLOT_COUNT && lo.depth > 0 && old(self).depth != lo.depth + 1 ==> r == Err::<
                (),
                RegistryError,
            >(RegistryError::DepthMismatch),
            index < SLOT_COUNT && lo.depth > 0 && old(self).depth == lo.depth + 1 && old(
                self,
            )@.occupied[index as int] ==> r == Err::<(), RegistryError>(RegistryError::SlotOccupied),
            r is Ok ==> final(self)@ == with_link(old(self)@, index as int, lo_key),
    {
        if !(index < SLOT_COUNT as u8) {
            return Err(RegistryError::IndexOutOfRange);
        }
        if !(lo.depth > 0) {
            return Err(RegistryError::InvalidDepth);
        }
        if !(self.depth as u16 == lo.depth as u16 + 1) {
            return Err(RegistryError::DepthMismatch);
        }
        let slot = wrapped_index(index as i128, SLOT_COUNT);
        if self.occupied[slot] {
            return Err(RegistryError::SlotOccupied);
        }
        self.slots.set(slot, Some(lo_key));
        self.occupied.set(slot, true);
        proof {
            assert(self@ =~= with_link(old(self)@, index as int, lo_key));
        }
        Ok(())
    }
}

} // verus!
