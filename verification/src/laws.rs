//! What holds of the ledger's calls, whatever the ledger and the arguments.

use crate::state::{lookup, Call, State};
use crate::types::{mix_byte, AccountId, Error, Event, Kitty, KittyId};
use vstd::prelude::*;

verus! {

/// The ledger after the creations `calls`, made in order on `state`. Each
/// call names the caller and the genome derived for it.
pub open spec fn after_creates(state: State, calls: Seq<(AccountId, [u8; 16])>) -> State
    decreases calls.len(),
{
    if calls.len() == 0 {
        state
    } else {
        after_creates(state, calls.drop_last()).create(calls.last().0, calls.last().1).0
    }
}

/// The ledger before any call is well formed and dense.
pub proof fn lemma_genesis_well_formed()
    ensures
        State::genesis().well_formed(),
        State::genesis().dense(),
{
}

/// A creation keeps the ledger well formed, and dense where it was.
pub proof fn lemma_create_keeps_invariant(state: State, who: AccountId, genome: [u8; 16])
    requires
        state.well_formed(),
    ensures
        state.create(who, genome).0.well_formed(),
        state.dense() ==> state.create(who, genome).0.dense(),
{
}

/// A breeding keeps the ledger well formed, and dense where it was.
pub proof fn lemma_breed_keeps_invariant(
    state: State,
    who: AccountId,
    kitty_id1: KittyId,
    kitty_id2: KittyId,
    selector: [u8; 16],
)
    requires
        state.well_formed(),
    ensures
        state.breed(who, kitty_id1, kitty_id2, selector).0.well_formed(),
        state.dense() ==> state.breed(who, kitty_id1, kitty_id2, selector).0.dense(),
{
}

/// A transfer keeps the ledger well formed, and dense where it was.
pub proof fn lemma_transfer_keeps_invariant(
    state: State,
    who: AccountId,
    recipient: AccountId,
    kitty_id: KittyId,
)
    requires
        state.well_formed(),
    ensures
        state.transfer(who, recipient, kitty_id).0.well_formed(),
        state.dense() ==> state.transfer(who, recipient, kitty_id).0.dense(),
{
}

/// Moving the counter forward keeps the ledger well formed.
pub proof fn lemma_set_next_kitty_id_keeps_invariant(state: State, next: KittyId)
    requires
        state.well_formed(),
    ensures
        state.set_next_kitty_id(next).well_formed(),
        state.set_next_kitty_id(next).next_kitty_id >= state.next_kitty_id,
{
}

/// Whatever calls were made on the ledger since it was new, it is well
/// formed and dense: every kitty has one owner, every lineage names two older
/// kitties, and the kitties are exactly the identifiers below the counter.
pub proof fn lemma_invariant_holds_after_any_calls(calls: Seq<Call>)
    ensures
        State::genesis().after(calls).well_formed(),
        State::genesis().after(calls).dense(),
    decreases calls.len(),
{
    if calls.len() > 0 {
        lemma_invariant_holds_after_any_calls(calls.drop_last());
        let before = State::genesis().after(calls.drop_last());
        match calls.last() {
            Call::Create { who, genome } => {
                lemma_create_keeps_invariant(before, who, genome);
            },
            Call::Breed { who, kitty_id1, kitty_id2, selector } => {
                lemma_breed_keeps_invariant(before, who, kitty_id1, kitty_id2, selector);
            },
            Call::Transfer { who, recipient, kitty_id } => {
                lemma_transfer_keeps_invariant(before, who, recipient, kitty_id);
            },
        }
    }
}

/// A new kitty never takes the identifier of another: the identifier that a
/// successful creation or breeding returns named no kitty before the call,
/// and lies above every kitty that the ledger held.
pub proof fn lemma_new_identifier_is_fresh(state: State, call: Call)
    requires
        state.well_formed(),
    ensures
        state.apply(call).1 matches Ok(Event::KittyCreated { kitty_id, .. }) ==> {
            &&& !state.kitties.contains_key(kitty_id)
            &&& forall|other: KittyId| state.kitties.contains_key(other) ==> other < kitty_id
        },
        state.apply(call).1 matches Ok(Event::KittyBreed { kitty_id, .. }) ==> {
            &&& !state.kitties.contains_key(kitty_id)
            &&& forall|other: KittyId| state.kitties.contains_key(other) ==> other < kitty_id
        },
{
}

/// After `n` creations on the ledger before any call, the counter stands at
/// `n`, as long as `n` identifiers exist.
pub proof fn lemma_counter_after_creates(calls: Seq<(AccountId, [u8; 16])>)
    requires
        calls.len() <= KittyId::MAX,
    ensures
        after_creates(State::genesis(), calls).next_kitty_id == calls.len(),
        after_creates(State::genesis(), calls).well_formed(),
        after_creates(State::genesis(), calls).dense(),
    decreases calls.len(),
{
    if calls.len() > 0 {
        lemma_counter_after_creates(calls.drop_last());
        lemma_create_keeps_invariant(
            after_creates(State::genesis(), calls.drop_last()),
            calls.last().0,
            calls.last().1,
        );
    }
}

/// Creations return the identifiers 0, 1, 2, ... in call order: on the
/// ledger before any call, the creation that follows `k` others succeeds
/// with identifier `k`.
pub proof fn lemma_create_ids_follow_call_order(calls: Seq<(AccountId, [u8; 16])>, k: int)
    requires
        0 <= k < calls.len(),
        k < KittyId::MAX,
    ensures
        after_creates(State::genesis(), calls.take(k)).create(calls[k].0, calls[k].1).1 == Ok::<
            Event,
            Error,
        >(
            Event::KittyCreated { who: calls[k].0, kitty_id: k as KittyId, kitty: Kitty(calls[k].1) },
        ),
{
    lemma_counter_after_creates(calls.take(k));
}

/// A successful creation or breeding returns the counter's value and leaves
/// the counter one above it; no call ever moves the counter back.
pub proof fn lemma_counter_is_monotonic(
    state: State,
    who: AccountId,
    recipient: AccountId,
    kitty_id1: KittyId,
    kitty_id2: KittyId,
    bytes: [u8; 16],
)
    ensures
        state.create(who, bytes).0.next_kitty_id >= state.next_kitty_id,
        state.breed(who, kitty_id1, kitty_id2, bytes).0.next_kitty_id >= state.next_kitty_id,
        state.transfer(who, recipient, kitty_id1).0.next_kitty_id == state.next_kitty_id,
        state.create(who, bytes).1 matches Ok(Event::KittyCreated { kitty_id, .. })
            ==> kitty_id == state.next_kitty_id && state.create(who, bytes).0.next_kitty_id
            == kitty_id + 1,
        state.breed(who, kitty_id1, kitty_id2, bytes).1 matches Ok(
            Event::KittyBreed { kitty_id, .. },
        ) ==> kitty_id == state.next_kitty_id && state.breed(
            who,
            kitty_id1,
            kitty_id2,
            bytes,
        ).0.next_kitty_id == kitty_id + 1,
{
}

/// No call changes or removes a kitty or a lineage that the ledger holds.
pub proof fn lemma_kitties_and_lineage_are_immutable(
    state: State,
    who: AccountId,
    recipient: AccountId,
    kitty_id1: KittyId,
    kitty_id2: KittyId,
    bytes: [u8; 16],
    kitty_id: KittyId,
)
    requires
        state.well_formed(),
    ensures
        state.kitties.contains_key(kitty_id) ==> {
            &&& lookup(state.create(who, bytes).0.kitties, kitty_id) == Some(
                state.kitties[kitty_id],
            )
            &&& lookup(state.breed(who, kitty_id1, kitty_id2, bytes).0.kitties, kitty_id) == Some(
                state.kitties[kitty_id],
            )
            &&& lookup(state.create(who, bytes).0.kitty_parents, kitty_id) == lookup(
                state.kitty_parents,
                kitty_id,
            )
            &&& lookup(state.breed(who, kitty_id1, kitty_id2, bytes).0.kitty_parents, kitty_id)
                == lookup(state.kitty_parents, kitty_id)
        },
        state.transfer(who, recipient, kitty_id1).0.kitties == state.kitties,
        state.transfer(who, recipient, kitty_id1).0.kitty_parents == state.kitty_parents,
{
}

/// Breeding a kitty with itself fails with `SameKittyId`, whether or not the
/// kitty exists, and changes nothing: no identifier is used up.
pub proof fn lemma_breed_with_itself_is_rejected(
    state: State,
    who: AccountId,
    kitty_id: KittyId,
    selector: [u8; 16],
)
    ensures
        state.breed(who, kitty_id, kitty_id, selector) == (
            state,
            Err::<Event, Error>(Error::SameKittyId),
        ),
{
}

/// Breeding two different identifiers of which one names no kitty fails with
/// `InvalidKittyId` and changes nothing: no identifier is used up.
pub proof fn lemma_breed_with_missing_parent_is_rejected(
    state: State,
    who: AccountId,
    kitty_id1: KittyId,
    kitty_id2: KittyId,
    selector: [u8; 16],
)
    requires
        kitty_id1 != kitty_id2,
        !state.kitties.contains_key(kitty_id1) || !state.kitties.contains_key(kitty_id2),
    ensures
        state.breed(who, kitty_id1, kitty_id2, selector) == (
            state,
            Err::<Event, Error>(Error::InvalidKittyId),
        ),
{
}

/// A creation succeeds exactly when the counter is below `KittyId::MAX`.
/// The new kitty then has the derived genome, belongs to the caller and has
/// no lineage; every other kitty keeps its owner.
pub proof fn lemma_create_records_owner_without_lineage(
    state: State,
    who: AccountId,
    genome: [u8; 16],
)
    requires
        state.well_formed(),
    ensures
        state.create(who, genome).1 is Ok <==> state.next_kitty_id < KittyId::MAX,
        state.create(who, genome).1 matches Ok(event) ==> {
            let after = state.create(who, genome).0;
            let kitty_id = state.next_kitty_id;
            &&& event == Event::KittyCreated { who, kitty_id, kitty: Kitty(genome) }
            &&& !state.kitties.contains_key(kitty_id)
            &&& lookup(after.kitties, kitty_id) == Some(Kitty(genome))
            &&& lookup(after.kitty_owner, kitty_id) == Some(who)
            &&& lookup(after.kitty_parents, kitty_id) == None::<(KittyId, KittyId)>
            &&& forall|other: KittyId|
                other != kitty_id ==> lookup(after.kitty_owner, other) == lookup(
                    state.kitty_owner,
                    other,
                )
        },
{
}

/// A breeding succeeds exactly when the two identifiers differ, both name a
/// kitty and the counter is below `KittyId::MAX`. The child then belongs to
/// the caller, its lineage is the two parents in call order, and each of its
/// bytes is `(parent1[i] & selector[i]) | (parent2[i] & selector[i])`.
pub proof fn lemma_breed_records_lineage_and_mix(
    state: State,
    who: AccountId,
    kitty_id1: KittyId,
    kitty_id2: KittyId,
    selector: [u8; 16],
)
    requires
        state.well_formed(),
    ensures
        state.breed(who, kitty_id1, kitty_id2, selector).1 is Ok <==> {
            &&& kitty_id1 != kitty_id2
            &&& state.kitties.contains_key(kitty_id1)
            &&& state.kitties.contains_key(kitty_id2)
            &&& state.next_kitty_id < KittyId::MAX
        },
        state.breed(who, kitty_id1, kitty_id2, selector).1 matches Ok(event) ==> {
            let after = state.breed(who, kitty_id1, kitty_id2, selector).0;
            let kitty_id = state.next_kitty_id;
            let parent1 = state.kitties[kitty_id1];
            let parent2 = state.kitties[kitty_id2];
            &&& event matches Event::KittyBreed { who: breeder, kitty_id: child_id, kitty: child }
            &&& breeder == who
            &&& child_id == kitty_id
            &&& !state.kitties.contains_key(kitty_id)
            &&& lookup(after.kitties, kitty_id) == Some(child)
            &&& lookup(after.kitty_owner, kitty_id) == Some(who)
            &&& lookup(after.kitty_parents, kitty_id) == Some((kitty_id1, kitty_id2))
            &&& forall|i: int|
                0 <= i < 16 ==> child.0[i] == (parent1.0[i] & selector[i]) | (parent2.0[i]
                    & selector[i])
        },
{
}

/// A bred byte is the OR of the parents' bytes, masked by the selector: a
/// bit that the selector clears is 0, and a bit that it keeps is set when
/// either parent has it set.
pub proof fn lemma_mix_byte_is_masked_or(a: u8, b: u8, selector: u8)
    ensures
        mix_byte(a, b, selector) == (a | b) & selector,
{
    assert((a & selector) | (b & selector) == (a | b) & selector) by (bit_vector);
}

/// Breeding is not deduplicated: the same breeding made twice in a row
/// succeeds twice, where two identifiers are left, and gives two kitties
/// under consecutive identifiers.
pub proof fn lemma_breed_twice_gives_two_kitties(
    state: State,
    who: AccountId,
    kitty_id1: KittyId,
    kitty_id2: KittyId,
    selector1: [u8; 16],
    selector2: [u8; 16],
)
    requires
        state.well_formed(),
        state.breed(who, kitty_id1, kitty_id2, selector1).1 is Ok,
        state.next_kitty_id + 1 < KittyId::MAX,
    ensures
        ({
            let first = state.breed(who, kitty_id1, kitty_id2, selector1);
            let second = first.0.breed(who, kitty_id1, kitty_id2, selector2);
            &&& first.1 matches Ok(Event::KittyBreed { kitty_id: first_id, .. })
            &&& second.1 matches Ok(Event::KittyBreed { kitty_id: second_id, .. })
            &&& first_id == state.next_kitty_id
            &&& second_id == first_id + 1
            &&& second.0.kitties.contains_key(first_id)
            &&& second.0.kitties.contains_key(second_id)
        }),
{
}

/// A transfer of an existing kitty by an account that does not own it fails
/// with `NotOwner` and changes nothing.
pub proof fn lemma_transfer_by_non_owner_is_rejected(
    state: State,
    who: AccountId,
    recipient: AccountId,
    kitty_id: KittyId,
)
    requires
        state.well_formed(),
        state.kitties.contains_key(kitty_id),
        state.kitty_owner[kitty_id] != who,
    ensures
        state.transfer(who, recipient, kitty_id) == (state, Err::<Event, Error>(Error::NotOwner)),
{
}

/// A transfer of a kitty that does not exist fails with `InvalidKittyId` and
/// changes nothing.
pub proof fn lemma_transfer_of_missing_kitty_is_rejected(
    state: State,
    who: AccountId,
    recipient: AccountId,
    kitty_id: KittyId,
)
    requires
        !state.kitties.contains_key(kitty_id),
    ensures
        state.transfer(who, recipient, kitty_id) == (
            state,
            Err::<Event, Error>(Error::InvalidKittyId),
        ),
{
}

/// A transfer by the owner succeeds, to the owner itself too: the recipient
/// owns the kitty afterwards, and nothing else changes.
pub proof fn lemma_transfer_by_owner_succeeds(
    state: State,
    who: AccountId,
    recipient: AccountId,
    kitty_id: KittyId,
)
    requires
        state.well_formed(),
        state.kitties.contains_key(kitty_id),
        state.kitty_owner[kitty_id] == who,
    ensures
        state.transfer(who, recipient, kitty_id).1 == Ok::<Event, Error>(
            Event::KittyTransfer { from: who, kitty_id, to: recipient },
        ),
        state.transfer(who, recipient, kitty_id).0 == (State {
            kitty_owner: state.kitty_owner.insert(kitty_id, recipient),
            ..state
        }),
        lookup(state.transfer(who, recipient, kitty_id).0.kitty_owner, kitty_id) == Some(recipient),
        forall|other: KittyId|
            other != kitty_id ==> lookup(
                state.transfer(who, recipient, kitty_id).0.kitty_owner,
                other,
            ) == lookup(state.kitty_owner, other),
{
}

/// Transfers round-trip: after the owner hands a kitty to `recipient` and
/// `recipient` hands it back, both transfers have succeeded and the ledger is
/// what it was.
pub proof fn lemma_transfer_round_trip(
    state: State,
    who: AccountId,
    recipient: AccountId,
    kitty_id: KittyId,
)
    requires
        state.well_formed(),
        state.kitties.contains_key(kitty_id),
        state.kitty_owner[kitty_id] == who,
    ensures
        state.transfer(who, recipient, kitty_id).1 is Ok,
        state.transfer(who, recipient, kitty_id).0.transfer(recipient, who, kitty_id).1 is Ok,
        state.transfer(who, recipient, kitty_id).0.transfer(recipient, who, kitty_id).0 == state,
{
    let there = state.transfer(who, recipient, kitty_id).0;
    let back = there.transfer(recipient, who, kitty_id).0;
    assert(back.kitty_owner =~= state.kitty_owner);
    assert(back =~= state);
}

/// With the counter at `KittyId::MAX` no identifier is left: a creation
/// fails with `InvalidKittyId`, and so does a breeding that passed its
/// checks. Both leave the ledger, and so the counter, as they were.
pub proof fn lemma_exhausted_counter_rejects(
    state: State,
    who: AccountId,
    kitty_id1: KittyId,
    kitty_id2: KittyId,
    bytes: [u8; 16],
)
    requires
        state.next_kitty_id == KittyId::MAX,
    ensures
        state.create(who, bytes) == (state, Err::<Event, Error>(Error::InvalidKittyId)),
        state.breed(who, kitty_id1, kitty_id2, bytes).1 is Err,
        state.breed(who, kitty_id1, kitty_id2, bytes).0 == state,
        kitty_id1 != kitty_id2 ==> state.breed(who, kitty_id1, kitty_id2, bytes).1 == Err::<
            Event,
            Error,
        >(Error::InvalidKittyId),
{
}

/// A rejected call changes nothing.
pub proof fn lemma_rejected_call_changes_nothing(
    state: State,
    who: AccountId,
    recipient: AccountId,
    kitty_id1: KittyId,
    kitty_id2: KittyId,
    bytes: [u8; 16],
)
    ensures
        state.create(who, bytes).1 is Err ==> state.create(who, bytes).0 == state,
        state.breed(who, kitty_id1, kitty_id2, bytes).1 is Err ==> state.breed(
            who,
            kitty_id1,
            kitty_id2,
            bytes,
        ).0 == state,
        state.transfer(who, recipient, kitty_id1).1 is Err ==> state.transfer(
            who,
            recipient,
            kitty_id1,
        ).0 == state,
{
}

} // verus!
