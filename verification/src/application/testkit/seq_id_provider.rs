//! Deterministic id source: an ascending sequence `1, 2, 3, …` of 128-bit ids, minted as UUIDs.
use vstd::prelude::*;
use uuid::Uuid;
use crate::domain::identity::{uuid_from_bits, uuid_of_bits};

verus! {

/// Hands out a deterministic ascending sequence of ids, so ids are stable and readable.
#[derive(Debug)]
pub struct SeqIdProvider {
    next: u128,
}

impl View for SeqIdProvider {
    type V = u128;

    closed spec fn view(&self) -> u128 {
        self.next
    }
}

impl SeqIdProvider {
    /// Builds a provider whose first id is `1`.
    pub fn new() -> (p: Self)
        ensures
            p@ == 1,
    {
        SeqIdProvider { next: 1 }
    }

    /// Returns the next id of the sequence.
    pub fn next_id(&mut self) -> (id: u128)
        requires
            old(self)@ < u128::MAX,
        ensures
            id == old(self)@,
            final(self)@ == old(self)@ + 1,
    {
        let id = self.next;
        self.next = self.next + 1;
        id
    }

    /// Mints the next id of the sequence as a UUID (`00…01`, `00…02`, …).
    pub fn new_id(&mut self) -> (id: Uuid)
        requires
            old(self)@ < u128::MAX,
        ensures
            id == uuid_of_bits(old(self)@),
            forall|b: u128| #[trigger] uuid_of_bits(b) == id ==> b == old(self)@,
            final(self)@ == old(self)@ + 1,
    {
        let bits = self.next_id();
        uuid_from_bits(bits)
    }
}

} // verus!
