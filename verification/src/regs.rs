//! A register file in ordinary memory: the stand-in for the hardware where
//! there is none. It keeps the word of every register and a record of every
//! load and store made on it.

use crate::util::Access;
use std::collections::HashMap;
use vstd::prelude::*;

verus! {

/// One load or store of a register word.
#[derive(Clone, Copy, Debug, PartialEq, Eq)]
pub enum Transfer {
    Load { address: u32, value: u32 },
    Store { address: u32, value: u32 },
}

/// The loads and stores that performing `access` makes on a register that
/// holds `word`: a plain store stores once, every other access loads once
/// and then stores once.
pub open spec fn transfers(access: Access, word: u32) -> Seq<Transfer> {
    if access is Store {
        seq![Transfer::Store { address: access.address_spec(), value: access.stored_spec(word) }]
    } else {
        seq![
            Transfer::Load { address: access.address_spec(), value: word },
            Transfer::Store { address: access.address_spec(), value: access.stored_spec(word) },
        ]
    }
}

/// Registers by address. A register that was never stored to reads as zero.
pub struct RegisterFile {
    words: HashMap<u32, u32>,
    trace: Vec<Transfer>,
}

impl RegisterFile {
    /// The words stored so far, by address.
    pub closed spec fn words(&self) -> Map<u32, u32> {
        self.words@
    }

    /// Every load and store made so far, oldest first.
    pub closed spec fn trace(&self) -> Seq<Transfer> {
        self.trace@
    }

    /// The word that the register at `address` holds.
    pub open spec fn word(&self, address: u32) -> u32 {
        if self.words().dom().contains(address) {
            self.words()[address]
        } else {
            0
        }
    }

    /// A register file on which nothing was done yet.
    pub fn new() -> (r: Self)
        ensures
            r.words() == Map::<u32, u32>::empty(),
            r.trace() == Seq::<Transfer>::empty(),
    {
        RegisterFile { words: HashMap::new(), trace: Vec::new() }
    }

    /// The word at `address`, without a load being recorded.
    pub fn peek(&self, address: u32) -> (r: u32)
        ensures
            r == self.word(address),
    {
        match self.words.get(&address) {
            Some(value) => *value,
            None => 0,
        }
    }

    /// Loads the word at `address`.
    pub fn load(&mut self, address: u32) -> (r: u32)
        ensures
            r == old(self).word(address),
            final(self).words() == old(self).words(),
            final(self).trace() == old(self).trace().push(Transfer::Load { address, value: r }),
    {
        let value = self.peek(address);
        self.trace.push(Transfer::Load { address, value });
        value
    }

    /// Stores `value` at `address`.
    pub fn store(&mut self, address: u32, value: u32)
        ensures
            final(self).words() == old(self).words().insert(address, value),
            final(self).word(address) == value,
            final(self).trace() == old(self).trace().push(Transfer::Store { address, value }),
    {
        self.words.insert(address, value);
        self.trace.push(Transfer::Store { address, value });
    }

    /// Performs `access`: the addressed register takes the word that the
    /// access stores, every other register keeps its word, and the record
    /// grows by the access's transfers and nothing else.
    pub fn perform(&mut self, access: &Access)
        requires
            access.wf(),
        ensures
            final(self).words() == old(self).words().insert(
                access.address_spec(),
                access.stored_spec(old(self).word(access.address_spec())),
            ),
            final(self).word(access.address_spec()) == access.stored_spec(
                old(self).word(access.address_spec()),
            ),
            forall|other: u32|
                other != access.address_spec() ==> #[trigger] final(self).word(other) == old(
                    self,
                ).word(other),
            final(self).trace() == old(self).trace() + transfers(
                *access,
                old(self).word(access.address_spec()),
            ),
    {
        let address = access.address();
        let loaded = if access.loads() {
            self.load(address)
        } else {
            0
        };
        let value = access.stored(loaded);
        self.store(address, value);
        assert(final(self).trace() =~= old(self).trace() + transfers(
            *access,
            old(self).word(access.address_spec()),
        ));
    }

    /// Number of loads and stores made so far.
    pub fn transfer_count(&self) -> (r: usize)
        ensures
            r == self.trace().len(),
    {
        self.trace.len()
    }

    /// The `index`-th load or store made.
    pub fn transfer(&self, index: usize) -> (r: Transfer)
        requires
            index < self.trace().len(),
        ensures
            r == self.trace()[index as int],
    {
        self.trace[index]
    }
}

} // verus!
