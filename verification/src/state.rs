//! The ledger as a mathematical value, and each call as a function from the
//! ledger before it to the ledger after it and the call's result.

use crate::allocator::{allocated, next_after};
use crate::rules::{breed_parents, transfer_allowed};
use crate::types::{AccountId, Error, Event, Kitty, KittyId};
use vstd::prelude::*;

verus! {

/// What a map holds under a key, if anything.
pub open spec fn lookup<V>(map: Map<KittyId, V>, kitty_id: KittyId) -> Option<V> {
    if map.contains_key(kitty_id) {
        Some(map[kitty_id])
    } else {
        None
    }
}

/// One call on the ledger, with the bytes derived for it.
pub enum Call {
    /// `who` creates a kitty with the genome `genome`.
    Create { who: AccountId, genome: [u8; 16] },
    /// `who` breeds `kitty_id1` with `kitty_id2` under `selector`.
    Breed { who: AccountId, kitty_id1: KittyId, kitty_id2: KittyId, selector: [u8; 16] },
    /// `who` hands `kitty_id` over to `recipient`.
    Transfer { who: AccountId, recipient: AccountId, kitty_id: KittyId },
}

/// The four storage regions of the ledger.
#[verifier::ext_equal]
pub struct State {
    /// The identifier that the next new kitty gets.
    pub next_kitty_id: KittyId,
    /// Entity store: the genome of each kitty.
    pub kitties: Map<KittyId, Kitty>,
    /// Ownership index: the owner of each kitty.
    pub kitty_owner: Map<KittyId, AccountId>,
    /// Lineage index: the two parents of each kitty that was bred.
    pub kitty_parents: Map<KittyId, (KittyId, KittyId)>,
}

impl State {
    /// The ledger before any call: no kitty, and the counter at 0.
    pub open spec fn genesis() -> State {
        State {
            next_kitty_id: 0,
            kitties: Map::empty(),
            kitty_owner: Map::empty(),
            kitty_parents: Map::empty(),
        }
    }

    /// The lineage recorded for `kitty_id` names two different kitties that
    /// both exist and both are older than `kitty_id`, which exists too.
    pub open spec fn valid_lineage(self, kitty_id: KittyId) -> bool {
        let (parent1, parent2) = self.kitty_parents[kitty_id];
        &&& parent1 != parent2
        &&& parent1 < kitty_id
        &&& parent2 < kitty_id
        &&& self.kitties.contains_key(kitty_id)
        &&& self.kitties.contains_key(parent1)
        &&& self.kitties.contains_key(parent2)
    }

    /// The ledger's invariant: every kitty lies below the counter, a kitty
    /// has an owner exactly when it exists, and every lineage is valid.
    pub open spec fn well_formed(self) -> bool {
        &&& forall|kitty_id: KittyId| #[trigger]
            self.kitties.contains_key(kitty_id) ==> kitty_id < self.next_kitty_id
        &&& forall|kitty_id: KittyId| #[trigger]
            self.kitty_owner.contains_key(kitty_id) <==> self.kitties.contains_key(kitty_id)
        &&& forall|kitty_id: KittyId| #[trigger]
            self.kitty_parents.contains_key(kitty_id) ==> self.valid_lineage(kitty_id)
    }

    /// Every identifier below the counter names a kitty.
    pub open spec fn dense(self) -> bool {
        forall|kitty_id: KittyId|
            kitty_id < self.next_kitty_id ==> #[trigger] self.kitties.contains_key(kitty_id)
    }

    /// The ledger with the counter moved forward to `next`; unchanged where
    /// `next` lies below the counter.
    pub open spec fn set_next_kitty_id(self, next: KittyId) -> State {
        if next >= self.next_kitty_id {
            State { next_kitty_id: next, ..self }
        } else {
            self
        }
    }

    /// The ledger with a new kitty under the counter's value, owned by `who`,
    /// and the counter one up.
    pub open spec fn with_new_kitty(
        self,
        who: AccountId,
        kitty: Kitty,
        parents: Option<(KittyId, KittyId)>,
    ) -> State {
        let kitty_id = self.next_kitty_id;
        State {
            next_kitty_id: next_after(kitty_id),
            kitties: self.kitties.insert(kitty_id, kitty),
            kitty_owner: self.kitty_owner.insert(kitty_id, who),
            kitty_parents: match parents {
                Some(pair) => self.kitty_parents.insert(kitty_id, pair),
                None => self.kitty_parents,
            },
        }
    }

    /// `who` creates a kitty with the genome `genome`.
    pub open spec fn create(self, who: AccountId, genome: [u8; 16]) -> (State, Result<
        Event,
        Error,
    >) {
        match allocated(self.next_kitty_id) {
            Err(_) => (self, Err(Error::InvalidKittyId)),
            Ok(kitty_id) => {
                let kitty = Kitty(genome);
                (
                    self.with_new_kitty(who, kitty, None),
                    Ok(Event::KittyCreated { who, kitty_id, kitty }),
                )
            },
        }
    }

    /// `who` breeds `kitty_id1` with `kitty_id2` under `selector`.
    pub open spec fn breed(
        self,
        who: AccountId,
        kitty_id1: KittyId,
        kitty_id2: KittyId,
        selector: [u8; 16],
    ) -> (State, Result<Event, Error>) {
        match breed_parents(
            kitty_id1,
            kitty_id2,
            lookup(self.kitties, kitty_id1),
            lookup(self.kitties, kitty_id2),
        ) {
            Err(error) => (self, Err(error)),
            Ok((parent1, parent2)) => match allocated(self.next_kitty_id) {
                Err(_) => (self, Err(Error::InvalidKittyId)),
                Ok(kitty_id) => {
                    let kitty = parent1.bred_with(parent2, selector);
                    (
                        self.with_new_kitty(who, kitty, Some((kitty_id1, kitty_id2))),
                        Ok(Event::KittyBreed { who, kitty_id, kitty }),
                    )
                },
            },
        }
    }

    /// `who` hands `kitty_id` over to `recipient`.
    pub open spec fn transfer(self, who: AccountId, recipient: AccountId, kitty_id: KittyId) -> (
        State,
        Result<Event, Error>,
    ) {
        match transfer_allowed(
            who,
            lookup(self.kitties, kitty_id),
            lookup(self.kitty_owner, kitty_id),
        ) {
            Err(error) => (self, Err(error)),
            Ok(_) => (
                State { kitty_owner: self.kitty_owner.insert(kitty_id, recipient), ..self },
                Ok(Event::KittyTransfer { from: who, kitty_id, to: recipient }),
            ),
        }
    }

    /// The ledger after `call`, and what `call` returns.
    pub open spec fn apply(self, call: Call) -> (State, Result<Event, Error>) {
        match call {
            Call::Create { who, genome } => self.create(who, genome),
            Call::Breed { who, kitty_id1, kitty_id2, selector } => self.breed(
                who,
                kitty_id1,
                kitty_id2,
                selector,
            ),
            Call::Transfer { who, recipient, kitty_id } => self.transfer(who, recipient, kitty_id),
        }
    }

    /// The ledger after the calls `calls`, made in order.
    pub open spec fn after(self, calls: Seq<Call>) -> State
        decreases calls.len(),
    {
        if calls.len() == 0 {
            self
        } else {
            self.after(calls.drop_last()).apply(calls.last()).0
        }
    }
}

} // verus!
