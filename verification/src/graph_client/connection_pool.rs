//! Which address a pool connects to next, and for how long it keeps trying to grow.
//!
//! The pool itself opens the connections; what is here decides.

use vstd::prelude::*;

verus! {

/// Walks over the addresses of a pool, one after the other and round again.
#[derive(Clone, Copy, Debug)]
pub struct AddressCursor {
    cursor: usize,
}

impl AddressCursor {
    /// The position of this cursor.
    pub closed spec fn position(self) -> nat {
        self.cursor as nat
    }

    /// A cursor before the first address.
    pub fn new() -> (cursor: Self)
        ensures
            cursor.position() == 0,
    {
        AddressCursor { cursor: 0 }
    }

    /// The index of the address to connect to next, among `addresses` of them. A
    /// cursor that has passed the last address starts over at the first and stays
    /// there once more; any other hands out its position and moves on by one.
    pub fn next(&mut self, addresses: usize) -> (index: usize)
        ensures
            old(self).position() >= addresses ==> index == 0,
            old(self).position() >= addresses ==> final(self).position() == 0,
            old(self).position() < addresses ==> index == old(self).position(),
            old(self).position() < addresses ==> final(self).position() == old(self).position()
                + 1,
            addresses > 0 ==> index < addresses,
    {
        if self.cursor >= addresses {
            self.cursor = 0;
            0
        } else {
            let index = self.cursor;
            self.cursor = index + 1;
            index
        }
    }
}

/// One attempt of a pool to grow by a number of connections, as contracts speak of
/// it.
pub struct GrowthView {
    /// How many connections are wanted.
    pub wanted: nat,
    /// How many were opened so far.
    pub opened: nat,
    /// How many attempts to connect were made so far.
    pub tries: nat,
    /// After how many attempts the pool gives up.
    pub patience: nat,
    /// How many connections the pool had before.
    pub held: nat,
    /// How many connections the pool may have.
    pub capacity: nat,
}

impl GrowthView {
    /// Is another attempt to connect due? Not once enough were opened, nor where the
    /// pool is full, nor after more attempts than its patience allows.
    pub open spec fn wants_more(self) -> bool {
        &&& self.opened < self.wanted
        &&& self.opened + self.held < self.capacity
        &&& self.tries <= self.patience
    }

    /// The attempt after one more try, which connected or did not.
    pub open spec fn after_try(self, connected: bool) -> GrowthView {
        GrowthView {
            opened: if connected {
                self.opened + 1
            } else {
                self.opened
            },
            tries: self.tries + 1,
            ..self
        }
    }
}

/// One attempt of a pool to grow by a number of connections.
#[derive(Clone, Copy, Debug)]
pub struct Growth {
    wanted: u32,
    opened: u32,
    tries: usize,
    patience: usize,
    held: usize,
    capacity: u32,
}

impl Growth {
    #[verifier::type_invariant]
    spec fn well_formed(self) -> bool {
        &&& self.opened <= self.wanted
        &&& self.tries <= self.patience + 1
        &&& self.patience < usize::MAX
        &&& self.opened + self.held <= usize::MAX
    }

    pub closed spec fn view(&self) -> GrowthView {
        GrowthView {
            wanted: self.wanted as nat,
            opened: self.opened as nat,
            tries: self.tries as nat,
            patience: self.patience as nat,
            held: self.held as nat,
            capacity: self.capacity as nat,
        }
    }

    /// Begins to grow a pool that holds `held` connections of at most `capacity` by
    /// `wanted` more, which is not zero, over `addresses` addresses. Every address is
    /// given as many tries as connections are wanted, and one try more can be counted
    /// in a `usize`.
    pub fn begin(wanted: u32, addresses: usize, held: usize, capacity: u32) -> (growth: Self)
        requires
            wanted != 0,
            wanted * addresses < usize::MAX,
            held + wanted <= usize::MAX,
        ensures
            growth@ == (GrowthView {
                wanted: wanted as nat,
                opened: 0,
                tries: 0,
                patience: (wanted * addresses) as nat,
                held: held as nat,
                capacity: capacity as nat,
            }),
    {
        let patience: usize = (wanted as usize) * addresses;
        Growth { wanted, opened: 0, tries: 0, patience, held, capacity }
    }

    /// Is another attempt to connect due?
    pub fn wants_more(&self) -> (more: bool)
        ensures
            more == self@.wants_more(),
    {
        proof {
            use_type_invariant(self);
        }
        self.opened < self.wanted && (self.opened as usize) + self.held < self.capacity as usize
            && self.tries <= self.patience
    }

    /// Takes note of one attempt to connect, which has to have been due.
    pub fn record(&mut self, connected: bool)
        requires
            old(self)@.wants_more(),
        ensures
            final(self)@ == old(self)@.after_try(connected),
    {
        proof {
            use_type_invariant(&*self);
        }
        if connected {
            self.opened = self.opened + 1;
        }
        self.tries = self.tries + 1;
    }

    /// How many connections were opened.
    pub fn opened(&self) -> (opened: u32)
        ensures
            opened == self@.opened,
            opened <= self@.wanted,
    {
        proof {
            use_type_invariant(self);
        }
        self.opened
    }

    /// How many connections the pool holds after this attempt.
    pub fn held_after(&self) -> (held: usize)
        ensures
            held == self@.held + self@.opened,
    {
        proof {
            use_type_invariant(self);
        }
        self.held + self.opened as usize
    }
}

} // verus!
