//! The ledger in memory, and the three calls that change it.

use crate::allocator::IdAllocator;
use crate::randomness::{derive_genome, random_value};
use crate::rules::{check_breed, check_transfer};
use crate::state::{lookup, State};
use crate::types::{AccountId, Error, Event, Kitty, KittyId};
use std::collections::HashMap;
use vstd::prelude::*;
use vstd::std_specs::hash::*;

verus! {

/// The kitties ledger: the identifier counter, the entity store, the
/// ownership index and the lineage index. Every call either succeeds and
/// reports its event, or is rejected and changes nothing.
#[derive(Clone, Debug, PartialEq, Eq)]
pub struct Pallet {
    next_kitty_id: IdAllocator,
    kitties: HashMap<KittyId, Kitty>,
    kitty_owner: HashMap<KittyId, AccountId>,
    kitty_parents: HashMap<KittyId, (KittyId, KittyId)>,
}

impl View for Pallet {
    type V = State;

    closed spec fn view(&self) -> State {
        State {
            next_kitty_id: self.next_kitty_id@,
            kitties: self.kitties@,
            kitty_owner: self.kitty_owner@,
            kitty_parents: self.kitty_parents@,
        }
    }
}

impl Pallet {
    /// The ledger's invariant holds.
    pub open spec fn wf(&self) -> bool {
        self@.well_formed()
    }

    /// The ledger before any call.
    pub fn new() -> (pallet: Pallet)
        ensures
            pallet.wf(),
            pallet@ == State::genesis(),
    {
        Pallet {
            next_kitty_id: IdAllocator::new(),
            kitties: HashMap::new(),
            kitty_owner: HashMap::new(),
            kitty_parents: HashMap::new(),
        }
    }

    /// The identifier that the next new kitty gets.
    pub fn next_kitty_id(&self) -> (next: KittyId)
        ensures
            next == self@.next_kitty_id,
    {
        self.next_kitty_id.next()
    }

    /// The kitty stored under `kitty_id`, if there is one.
    pub fn kitties(&self, kitty_id: KittyId) -> (kitty: Option<Kitty>)
        ensures
            kitty == lookup(self@.kitties, kitty_id),
    {
        broadcast use group_hash_axioms;

        match self.kitties.get(&kitty_id) {
            Some(kitty) => Some(*kitty),
            None => None,
        }
    }

    /// The owner of `kitty_id`, if the kitty exists.
    pub fn kitty_owner(&self, kitty_id: KittyId) -> (owner: Option<AccountId>)
        ensures
            owner == lookup(self@.kitty_owner, kitty_id),
    {
        broadcast use group_hash_axioms;

        match self.kitty_owner.get(&kitty_id) {
            Some(owner) => Some(*owner),
            None => None,
        }
    }

    /// The parents of `kitty_id`, if the kitty was bred.
    pub fn kitty_parents(&self, kitty_id: KittyId) -> (parents: Option<(KittyId, KittyId)>)
        ensures
            parents == lookup(self@.kitty_parents, kitty_id),
    {
        broadcast use group_hash_axioms;

        match self.kitty_parents.get(&kitty_id) {
            Some(parents) => Some(*parents),
            None => None,
        }
    }

    /// Moves the counter forward to `next`, leaving identifiers unused. The
    /// counter never moves back: where `next` lies below it, nothing changes
    /// and the result is `false`.
    pub fn set_next_kitty_id(&mut self, next: KittyId) -> (moved: bool)
        requires
            old(self).wf(),
        ensures
            final(self).wf(),
            moved == (next >= old(self)@.next_kitty_id),
            final(self)@ == old(self)@.set_next_kitty_id(next),
            moved ==> final(self)@ == (State { next_kitty_id: next, ..old(self)@ }),
            !moved ==> final(self)@ == old(self)@,
    {
        if next >= self.next_kitty_id.next() {
            self.next_kitty_id = IdAllocator::starting_at(next);
            true
        } else {
            false
        }
    }

    /// Creates a kitty with the genome `genome` for `who`. The kitty gets
    /// the counter's value as its identifier, `who` as its owner and no
    /// lineage. With the counter at `KittyId::MAX` the call is rejected.
    pub fn create_with_genome(&mut self, who: AccountId, genome: [u8; 16]) -> (event: Result<
        Event,
        Error,
    >)
        requires
            old(self).wf(),
        ensures
            final(self).wf(),
            final(self)@ == old(self)@.create(who, genome).0,
            event == old(self)@.create(who, genome).1,
            old(self)@.next_kitty_id == KittyId::MAX ==> {
                &&& event == Err::<Event, Error>(Error::InvalidKittyId)
                &&& final(self)@ == old(self)@
            },
            old(self)@.next_kitty_id < KittyId::MAX ==> {
                let kitty_id = old(self)@.next_kitty_id;
                &&& event == Ok::<Event, Error>(
                    Event::KittyCreated { who, kitty_id, kitty: Kitty(genome) },
                )
                &&& final(self)@ == old(self)@.with_new_kitty(who, Kitty(genome), None)
                &&& final(self)@.next_kitty_id == kitty_id + 1
                &&& lookup(final(self)@.kitties, kitty_id) == Some(Kitty(genome))
                &&& lookup(final(self)@.kitty_owner, kitty_id) == Some(who)
                &&& lookup(final(self)@.kitty_parents, kitty_id) == None::<(KittyId, KittyId)>
            },
    {
        broadcast use group_hash_axioms;

        let kitty_id = match self.next_kitty_id.allocate() {
            Ok(kitty_id) => kitty_id,
            Err(cause) => {
                return Err(Error::from_exhausted(cause));
            },
        };
        let kitty = Kitty(genome);
        self.kitties.insert(kitty_id, kitty);
        self.kitty_owner.insert(kitty_id, who);
        Ok(Event::KittyCreated { who, kitty_id, kitty })
    }

    /// Creates a kitty for `who`. Its genome is derived from `seed`, the
    /// value that the randomness source gave for this call, from `who`, and
    /// from `extrinsic_index`, the call's position in its block. The kitty
    /// gets the counter's value as its identifier, `who` as its owner and no
    /// lineage. With the counter at `KittyId::MAX` the call is rejected.
    pub fn create(&mut self, who: AccountId, seed: &[u8], extrinsic_index: Option<u32>) -> (event:
        Result<Event, Error>)
        requires
            old(self).wf(),
        ensures
            final(self).wf(),
            final(self)@ == old(self)@.create(
                who,
                derive_genome(seed@, who, extrinsic_index),
            ).0,
            event == old(self)@.create(who, derive_genome(seed@, who, extrinsic_index)).1,
            old(self)@.next_kitty_id == KittyId::MAX ==> {
                &&& event == Err::<Event, Error>(Error::InvalidKittyId)
                &&& final(self)@ == old(self)@
            },
            old(self)@.next_kitty_id < KittyId::MAX ==> {
                let kitty_id = old(self)@.next_kitty_id;
                let kitty = Kitty(derive_genome(seed@, who, extrinsic_index));
                &&& event == Ok::<Event, Error>(Event::KittyCreated { who, kitty_id, kitty })
                &&& final(self)@ == old(self)@.with_new_kitty(who, kitty, None)
                &&& final(self)@.next_kitty_id == kitty_id + 1
                &&& lookup(final(self)@.kitties, kitty_id) == Some(kitty)
                &&& lookup(final(self)@.kitty_owner, kitty_id) == Some(who)
                &&& lookup(final(self)@.kitty_parents, kitty_id) == None::<(KittyId, KittyId)>
            },
    {
        let genome = random_value(seed, who, extrinsic_index);
        self.create_with_genome(who, genome)
    }

    /// Breeds `kitty_id1` with `kitty_id2` for `who` under `selector`. The
    /// call is rejected, in this order, with `SameKittyId` where the two
    /// identifiers are equal, and with `InvalidKittyId` where a parent does
    /// not exist or the counter stands at `KittyId::MAX`. Else the child gets
    /// the counter's value as its identifier, `who` as its owner, the two
    /// parents as its lineage, and the genome whose byte `i` is
    /// `(parent1[i] & selector[i]) | (parent2[i] & selector[i])`.
    pub fn breed_with_selector(
        &mut self,
        who: AccountId,
        kitty_id1: KittyId,
        kitty_id2: KittyId,
        selector: &[u8; 16],
    ) -> (event: Result<Event, Error>)
        requires
            old(self).wf(),
        ensures
            final(self).wf(),
            final(self)@ == old(self)@.breed(who, kitty_id1, kitty_id2, *selector).0,
            event == old(self)@.breed(who, kitty_id1, kitty_id2, *selector).1,
            kitty_id1 == kitty_id2 ==> {
                &&& event == Err::<Event, Error>(Error::SameKittyId)
                &&& final(self)@ == old(self)@
            },
            kitty_id1 != kitty_id2 && !(old(self)@.kitties.contains_key(kitty_id1) && old(
                self,
            )@.kitties.contains_key(kitty_id2)) ==> {
                &&& event == Err::<Event, Error>(Error::InvalidKittyId)
                &&& final(self)@ == old(self)@
            },
            kitty_id1 != kitty_id2 && old(self)@.next_kitty_id == KittyId::MAX ==> {
                &&& event == Err::<Event, Error>(Error::InvalidKittyId)
                &&& final(self)@ == old(self)@
            },
            kitty_id1 != kitty_id2 && old(self)@.kitties.contains_key(kitty_id1) && old(
                self,
            )@.kitties.contains_key(kitty_id2) && old(self)@.next_kitty_id < KittyId::MAX ==> {
                let kitty_id = old(self)@.next_kitty_id;
                let parent1 = old(self)@.kitties[kitty_id1];
                let parent2 = old(self)@.kitties[kitty_id2];
                let kitty = parent1.bred_with(parent2, *selector);
                &&& event == Ok::<Event, Error>(Event::KittyBreed { who, kitty_id, kitty })
                &&& forall|i: int|
                    0 <= i < 16 ==> kitty.0[i] == (parent1.0[i] & selector[i]) | (parent2.0[i]
                        & selector[i])
                &&& final(self)@ == old(self)@.with_new_kitty(
                    who,
                    kitty,
                    Some((kitty_id1, kitty_id2)),
                )
                &&& final(self)@.next_kitty_id == kitty_id + 1
                &&& lookup(final(self)@.kitties, kitty_id) == Some(kitty)
                &&& lookup(final(self)@.kitty_owner, kitty_id) == Some(who)
                &&& lookup(final(self)@.kitty_parents, kitty_id) == Some((kitty_id1, kitty_id2))
            },
    {
        broadcast use group_hash_axioms;

        let (parent1, parent2) = match check_breed(
            kitty_id1,
            kitty_id2,
            self.kitties(kitty_id1),
            self.kitties(kitty_id2),
        ) {
            Ok(parents) => parents,
            Err(error) => {
                return Err(error);
            },
        };
        let kitty_id = match self.next_kitty_id.allocate() {
            Ok(kitty_id) => kitty_id,
            Err(cause) => {
                return Err(Error::from_exhausted(cause));
            },
        };
        let kitty = parent1.breed(&parent2, selector);
        self.kitties.insert(kitty_id, kitty);
        self.kitty_owner.insert(kitty_id, who);
        self.kitty_parents.insert(kitty_id, (kitty_id1, kitty_id2));
        Ok(Event::KittyBreed { who, kitty_id, kitty })
    }

    /// Breeds `kitty_id1` with `kitty_id2` for `who`. The selector is derived
    /// as a new kitty's genome is: from `seed`, `who` and `extrinsic_index`.
    /// The call is rejected, in this order, with `SameKittyId` where the two
    /// identifiers are equal, and with `InvalidKittyId` where a parent does
    /// not exist or the counter stands at `KittyId::MAX`. Else the child gets
    /// the counter's value as its identifier, `who` as its owner, the two
    /// parents as its lineage, and the genome whose byte `i` is
    /// `(parent1[i] & selector[i]) | (parent2[i] & selector[i])`.
    pub fn breed(
        &mut self,
        who: AccountId,
        kitty_id1: KittyId,
        kitty_id2: KittyId,
        seed: &[u8],
        extrinsic_index: Option<u32>,
    ) -> (event: Result<Event, Error>)
        requires
            old(self).wf(),
        ensures
            final(self).wf(),
            final(self)@ == old(self)@.breed(
                who,
                kitty_id1,
                kitty_id2,
                derive_genome(seed@, who, extrinsic_index),
            ).0,
            event == old(self)@.breed(
                who,
                kitty_id1,
                kitty_id2,
                derive_genome(seed@, who, extrinsic_index),
            ).1,
            kitty_id1 == kitty_id2 ==> {
                &&& event == Err::<Event, Error>(Error::SameKittyId)
                &&& final(self)@ == old(self)@
            },
            kitty_id1 != kitty_id2 && !(old(self)@.kitties.contains_key(kitty_id1) && old(
                self,
            )@.kitties.contains_key(kitty_id2)) ==> {
                &&& event == Err::<Event, Error>(Error::InvalidKittyId)
                &&& final(self)@ == old(self)@
            },
            kitty_id1 != kitty_id2 && old(self)@.next_kitty_id == KittyId::MAX ==> {
                &&& event == Err::<Event, Error>(Error::InvalidKittyId)
                &&& final(self)@ == old(self)@
            },
            kitty_id1 != kitty_id2 && old(self)@.kitties.contains_key(kitty_id1) && old(
                self,
            )@.kitties.contains_key(kitty_id2) && old(self)@.next_kitty_id < KittyId::MAX ==> {
                let kitty_id = old(self)@.next_kitty_id;
                let parent1 = old(self)@.kitties[kitty_id1];
                let parent2 = old(self)@.kitties[kitty_id2];
                let selector = derive_genome(seed@, who, extrinsic_index);
                let kitty = parent1.bred_with(parent2, selector);
                &&& event == Ok::<Event, Error>(Event::KittyBreed { who, kitty_id, kitty })
                &&& forall|i: int|
                    0 <= i < 16 ==> kitty.0[i] == (parent1.0[i] & selector[i]) | (parent2.0[i]
                        & selector[i])
                &&& final(self)@ == old(self)@.with_new_kitty(
                    who,
                    kitty,
                    Some((kitty_id1, kitty_id2)),
                )
                &&& final(self)@.next_kitty_id == kitty_id + 1
                &&& lookup(final(self)@.kitties, kitty_id) == Some(kitty)
                &&& lookup(final(self)@.kitty_owner, kitty_id) == Some(who)
                &&& lookup(final(self)@.kitty_parents, kitty_id) == Some((kitty_id1, kitty_id2))
            },
    {
        let selector = random_value(seed, who, extrinsic_index);
        self.breed_with_selector(who, kitty_id1, kitty_id2, &selector)
    }

    /// Hands `kitty_id` over from `who` to `recipient`, which may be `who`
    /// itself. The call is rejected with `InvalidKittyId` where the kitty
    /// does not exist, and with `NotOwner` where `who` does not own it. Else
    /// `recipient` owns the kitty afterwards, and nothing else changes.
    pub fn transfer(&mut self, who: AccountId, recipient: AccountId, kitty_id: KittyId) -> (event:
        Result<Event, Error>)
        requires
            old(self).wf(),
        ensures
            final(self).wf(),
            final(self)@ == old(self)@.transfer(who, recipient, kitty_id).0,
            event == old(self)@.transfer(who, recipient, kitty_id).1,
            !old(self)@.kitties.contains_key(kitty_id) ==> {
                &&& event == Err::<Event, Error>(Error::InvalidKittyId)
                &&& final(self)@ == old(self)@
            },
            old(self)@.kitties.contains_key(kitty_id) && old(self)@.kitty_owner[kitty_id] != who
                ==> {
                &&& event == Err::<Event, Error>(Error::NotOwner)
                &&& final(self)@ == old(self)@
            },
            old(self)@.kitties.contains_key(kitty_id) && old(self)@.kitty_owner[kitty_id] == who
                ==> {
                &&& event == Ok::<Event, Error>(
                    Event::KittyTransfer { from: who, kitty_id, to: recipient },
                )
                &&& final(self)@ == (State {
                    kitty_owner: old(self)@.kitty_owner.insert(kitty_id, recipient),
                    ..old(self)@
                })
                &&& lookup(final(self)@.kitty_owner, kitty_id) == Some(recipient)
            },
    {
        broadcast use group_hash_axioms;

        match check_transfer(who, self.kitties(kitty_id), self.kitty_owner(kitty_id)) {
            Ok(_) => {},
            Err(error) => {
                return Err(error);
            },
        }
        self.kitty_owner.insert(kitty_id, recipient);
        Ok(Event::KittyTransfer { from: who, kitty_id, to: recipient })
    }
}

} // verus!
