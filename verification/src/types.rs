//! Identifiers, genomes, events and errors of the kitties ledger.

use vstd::prelude::*;

verus! {

/// Identifier of a kitty.
pub type KittyId = u32;

/// Identifier of an account. The ledger only compares accounts for equality
/// and feeds them to the genome derivation.
pub type AccountId = u64;

/// The sixteen bytes `bytes[0], ..., bytes[15]` as a genome.
pub open spec fn genome_of(bytes: Seq<u8>) -> [u8; 16] {
    [
        bytes[0],
        bytes[1],
        bytes[2],
        bytes[3],
        bytes[4],
        bytes[5],
        bytes[6],
        bytes[7],
        bytes[8],
        bytes[9],
        bytes[10],
        bytes[11],
        bytes[12],
        bytes[13],
        bytes[14],
        bytes[15],
    ]
}

/// One byte of a bred genome: `(a & selector) | (b & selector)`.
pub open spec fn mix_byte(a: u8, b: u8, selector: u8) -> u8 {
    (a & selector) | (b & selector)
}

/// The genome bred from `a` and `b` under `selector`, byte by byte.
pub open spec fn mix(a: [u8; 16], b: [u8; 16], selector: [u8; 16]) -> [u8; 16] {
    genome_of(Seq::new(16, |i: int| mix_byte(a[i], b[i], selector[i])))
}

/// A kitty: its 16-byte genome, fixed at creation.
#[derive(Clone, Copy, Debug, PartialEq, Eq, Default)]
pub struct Kitty(pub [u8; 16]);

impl View for Kitty {
    type V = Seq<u8>;

    open spec fn view(&self) -> Seq<u8> {
        self.0@
    }
}

impl Kitty {
    /// The child of `self` and `other` under `selector`.
    pub open spec fn bred_with(self, other: Kitty, selector: [u8; 16]) -> Kitty {
        Kitty(mix(self.0, other.0, selector))
    }

    /// Breeds `self` with `other`: byte `i` of the child is
    /// `(self[i] & selector[i]) | (other[i] & selector[i])`.
    pub fn breed(&self, other: &Kitty, selector: &[u8; 16]) -> (child: Kitty)
        ensures
            child == self.bred_with(*other, *selector),
            forall|i: int|
                0 <= i < 16 ==> child.0[i] == (self.0[i] & selector[i]) | (other.0[i]
                    & selector[i]),
    {
        let mut data: [u8; 16] = [0u8; 16];
        for i in 0..16
            invariant
                forall|j: int|
                    0 <= j < i ==> data[j] == mix_byte(self.0[j], other.0[j], selector[j]),
        {
            data[i] = (self.0[i] & selector[i]) | (other.0[i] & selector[i]);
        }
        assert(data =~= mix(self.0, other.0, *selector));
        Kitty(data)
    }
}

/// What a successful call reports.
#[derive(Clone, Copy, Debug, PartialEq, Eq)]
pub enum Event {
    /// `who` created `kitty` under `kitty_id`.
    KittyCreated { who: AccountId, kitty_id: KittyId, kitty: Kitty },
    /// `who` bred `kitty` under `kitty_id`.
    KittyBreed { who: AccountId, kitty_id: KittyId, kitty: Kitty },
    /// `from` handed `kitty_id` over to `to`.
    KittyTransfer { from: AccountId, kitty_id: KittyId, to: AccountId },
}

/// Why a call was rejected. A rejected call changes nothing.
#[derive(Clone, Copy, Debug, PartialEq, Eq)]
pub enum Error {
    /// The kitty does not exist, or no identifier is left for a new one.
    InvalidKittyId,
    /// Both parents of a breeding are the same kitty.
    SameKittyId,
    /// The caller does not own the kitty.
    NotOwner,
}

/// The identifier space is used up: the counter stands at `KittyId::MAX`.
#[derive(Clone, Copy, Debug, PartialEq, Eq)]
pub struct AllocationExhausted;

impl Error {
    /// How an exhausted allocator surfaces to callers: as `InvalidKittyId`.
    pub fn from_exhausted(cause: AllocationExhausted) -> (error: Error)
        ensures
            error == Error::InvalidKittyId,
    {
        Error::InvalidKittyId
    }
}

} // verus!
