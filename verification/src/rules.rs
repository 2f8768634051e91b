//! The checks that a call must pass before it may change the ledger. Each
//! takes what the call read from storage and says whether the call goes on.

use crate::types::{AccountId, Error, Kitty, KittyId};
use vstd::prelude::*;

verus! {

/// The parents of a breeding, or why it is rejected: `SameKittyId` where the
/// two identifiers are equal, else `InvalidKittyId` where a parent is missing.
pub open spec fn breed_parents(
    kitty_id1: KittyId,
    kitty_id2: KittyId,
    kitty1: Option<Kitty>,
    kitty2: Option<Kitty>,
) -> Result<(Kitty, Kitty), Error> {
    if kitty_id1 == kitty_id2 {
        Err(Error::SameKittyId)
    } else if kitty1 is None || kitty2 is None {
        Err(Error::InvalidKittyId)
    } else {
        Ok((kitty1->0, kitty2->0))
    }
}

/// Whether `who` may hand a kitty over: `InvalidKittyId` where the kitty or
/// its owner record is missing, else `NotOwner` where the owner is another
/// account.
pub open spec fn transfer_allowed(who: AccountId, kitty: Option<Kitty>, owner: Option<AccountId>)
    -> Result<(), Error> {
    if kitty is None || owner is None {
        Err(Error::InvalidKittyId)
    } else if owner->0 != who {
        Err(Error::NotOwner)
    } else {
        Ok(())
    }
}

/// Checks a breeding of `kitty_id1` with `kitty_id2`, where `kitty1` and
/// `kitty2` are what the entity store holds under them.
pub fn check_breed(
    kitty_id1: KittyId,
    kitty_id2: KittyId,
    kitty1: Option<Kitty>,
    kitty2: Option<Kitty>,
) -> (parents: Result<(Kitty, Kitty), Error>)
    ensures
        parents == breed_parents(kitty_id1, kitty_id2, kitty1, kitty2),
{
    if kitty_id1 == kitty_id2 {
        return Err(Error::SameKittyId);
    }
    match (kitty1, kitty2) {
        (Some(parent1), Some(parent2)) => Ok((parent1, parent2)),
        _ => Err(Error::InvalidKittyId),
    }
}

/// Checks a transfer by `who`, where `kitty` and `owner` are what the entity
/// store and the ownership index hold under the kitty's identifier.
pub fn check_transfer(who: AccountId, kitty: Option<Kitty>, owner: Option<AccountId>) -> (allowed:
    Result<(), Error>)
    ensures
        allowed == transfer_allowed(who, kitty, owner),
{
    if kitty.is_none() {
        return Err(Error::InvalidKittyId);
    }
    match owner {
        None => Err(Error::InvalidKittyId),
        Some(owner) => if owner == who {
            Ok(())
        } else {
            Err(Error::NotOwner)
        },
    }
}

} // verus!
