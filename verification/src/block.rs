//! Leaf records ("blocks"): owned, tradable units of value carrying a
//! coordinate triple, a price and an opaque fixed-size payload.
//!
//! A block is tradable iff its price is positive; a price of zero means "not
//! for sale". The payment of a trade moves through the host environment's
//! value-transfer primitive, so trading is split in two verified steps: a
//! check that decides whether the trade is allowed and names the amount owed,
//! and a settlement that applies or discards the ownership change according
//! to the payment's reported outcome.

use vstd::prelude::*;

use crate::Handle;
use crate::PAYLOAD_LEN;
use crate::RegistryError;

verus! {

/// A coordinate triple carried by a block. Opaque to the registry's rules.
#[derive(Clone, Copy, Debug, PartialEq, Eq, Structural)]
pub struct Xyz {
    pub x: u64,
    pub y: u64,
    pub z: u64,
}

/// A leaf record. `price == 0` means the block is not for sale.
#[derive(Debug)]
pub struct Block {
    pub owner: Handle,
    pub xyz: Xyz,
    pub price: u64,
    pub data: [u8; PAYLOAD_LEN],
}

/// The mathematical value of a block.
#[verifier::ext_equal]
pub ghost struct BlockView {
    pub owner: Handle,
    pub xyz: Xyz,
    pub price: u64,
    pub data: Seq<u8>,
}

impl View for Block {
    type V = BlockView;

    open spec fn view(&self) -> BlockView {
        BlockView { owner: self.owner, xyz: self.xyz, price: self.price, data: self.data@ }
    }
}

/// A trade of `b` signed by `signer` is accepted iff the block is for sale
/// and the signer is its current owner.
pub open spec fn trade_accepted(b: BlockView, signer: Handle) -> bool {
    b.price > 0 && signer == b.owner
}

/// The block after a settled trade: only the owner changes.
pub open spec fn traded(b: BlockView, new_owner: Handle) -> BlockView {
    BlockView { owner: new_owner, ..b }
}

/// The block after an update: every field but the owner is replaced.
pub open spec fn updated(b: BlockView, xyz: Xyz, price: u64, data: Seq<u8>) -> BlockView {
    BlockView { owner: b.owner, xyz, price, data }
}

impl Block {
    /// Create a block with the given owner, coordinates, price and payload.
    pub fn new(owner: Handle, xyz: Xyz, price: u64, data: [u8; PAYLOAD_LEN]) -> (b: Block)
        ensures
            b@ == (BlockView { owner, xyz, price, data: data@ }),
    {
        Block { owner, xyz, price, data }
    }

    /// Decide whether a trade signed by `signer` may proceed; on acceptance,
    /// return the price owed by the incoming owner to the current one.
    pub fn check_trade(&self, signer: Handle) -> (r: Result<u64, RegistryError>)
        ensures
            self.price == 0 ==> r == Err::<u64, RegistryError>(RegistryError::NotForSale),
            self.price > 0 && signer != self.owner ==> r == Err::<u64, RegistryError>(
                RegistryError::Unauthorized,
            ),
            r is Ok <==> trade_accepted(self@, signer),
            r is Ok ==> r == Ok::<u64, RegistryError>(self.price),
    {
        if self.price == 0 {
            return Err(RegistryError::NotForSale);
        }
        if signer != self.owner {
            return Err(RegistryError::Unauthorized);
        }
        Ok(self.price)
    }

    /// Apply the outcome of the payment sub-step of a trade. The trade's
    /// preconditions are validated afresh, as every call must be; if they
    /// hold and the transfer completed, ownership passes to `new_owner` and
    /// nothing else changes, otherwise the block is untouched.
    pub fn settle_trade(&mut self, signer: Handle, new_owner: Handle, payment_ok: bool) -> (r:
        Result<(), RegistryError>)
        ensures
            old(self).price == 0 ==> r == Err::<(), RegistryError>(RegistryError::NotForSale),
            old(self).price > 0 && signer != old(self).owner ==> r == Err::<(), RegistryError>(
                RegistryError::Unauthorized,
            ),
            trade_accepted(old(self)@, signer) && !payment_ok ==> r == Err::<(), RegistryError>(
                RegistryError::PaymentFailed,
            ),
            r is Ok <==> trade_accepted(old(self)@, signer) && payment_ok,
            r is Ok ==> r == Ok::<(), RegistryError>(()),
            r is Ok ==> final(self)@ == traded(old(self)@, new_owner),
            r is Err ==> final(self)@ == old(self)@,
    {
        if self.price == 0 {
            return Err(RegistryError::NotForSale);
        }
        if signer != self.owner {
            return Err(RegistryError::Unauthorized);
        }
        if !payment_ok {
            return Err(RegistryError::PaymentFailed);
        }
        self.owner = new_owner;
        proof {
            assert(self@ =~= traded(old(self)@, new_owner));
        }
        Ok(())
    }

    /// Replace the coordinates, price and payload, owner permitting. The
    /// price may be set to zero, which disables future trades.
    pub fn update(&mut self, signer: Handle, xyz: Xyz, price: u64, data: [u8; PAYLOAD_LEN]) -> (r: Result<
        (),
        RegistryError,
    >)
        ensures
            r is Ok <==> signer == old(self).owner,
            r is Ok ==> r == Ok::<(), RegistryError>(()),
            r is Err ==> r == Err::<(), RegistryError>(RegistryError::Unauthorized),
            r is Err ==> final(self)@ == old(self)@,
            r is Ok ==> final(self)@ == updated(old(self)@, xyz, price, data@),
    {
        if signer != self.owner {
            return Err(RegistryError::Unauthorized);
        }
        self.xyz = xyz;
        self.price = price;
        self.data = data;
        proof {
            assert(self@ =~= updated(old(self)@, xyz, price, data@));
        }
        Ok(())
    }
}

/// Law: a trade is accepted exactly when the block is for sale and the signer
/// is the current owner; settlement changes the owner to the incoming party
/// and leaves the price, coordinates and payload as they were.
pub proof fn lemma_trade(b: BlockView, signer: Handle, new_owner: Handle)
    ensures
        trade_accepted(b, signer) <==> (b.price > 0 && signer == b.owner),
        traded(b, new_owner).owner == new_owner,
        traded(b, new_owner).price == b.price,
        traded(b, new_owner).xyz == b.xyz,
        traded(b, new_owner).data == b.data,
{
}

} // verus!
