use vstd::prelude::*;

verus! {

/// Right to run one upload, handed out by a `Limiter`.
pub struct Permit {
    generation: u64,
}

impl Permit {
    /// The limiter generation that handed the permit out.
    pub closed spec fn spec_generation(&self) -> u64 {
        self.generation
    }
}

/// Cap on uploads in flight. A change of cap starts a new generation with no
/// permit out; permits of an earlier generation stay valid and are not
/// counted, so the cap may be exceeded briefly after a change.
pub struct Limiter {
    cap: usize,
    in_flight: usize,
    generation: u64,
}

/// Whether one more permit can be handed out.
pub open spec fn can_acquire(cap: nat, in_flight: nat) -> bool {
    in_flight < cap
}

impl Limiter {
    #[verifier::type_invariant]
    spec fn inv(self) -> bool {
        self.in_flight <= self.cap
    }

    pub closed spec fn spec_cap(&self) -> nat {
        self.cap as nat
    }

    pub closed spec fn spec_in_flight(&self) -> nat {
        self.in_flight as nat
    }

    pub closed spec fn spec_generation(&self) -> u64 {
        self.generation
    }

    /// A limiter with `cap` slots, none taken.
    pub fn new(cap: usize) -> (r: Self)
        ensures
            r.spec_cap() == cap,
            r.spec_in_flight() == 0,
    {
        Limiter { cap, in_flight: 0, generation: 0 }
    }

    /// The current cap.
    pub fn cap(&self) -> (r: usize)
        ensures
            r == self.spec_cap(),
    {
        self.cap
    }

    /// Permits of the current generation that are out.
    pub fn in_flight(&self) -> (r: usize)
        ensures
            r == self.spec_in_flight(),
            r <= self.spec_cap(),
    {
        proof {
            use_type_invariant(self);
        }
        self.in_flight
    }

    /// Moves to a new cap; nothing changes where it is the current one.
    pub fn resize(&mut self, cap: usize)
        ensures
            cap == old(self).spec_cap() ==> *final(self) == *old(self),
            cap != old(self).spec_cap() ==> final(self).spec_cap() == cap && final(self).spec_in_flight() == 0 && final(self).spec_generation() != old(self).spec_generation(),
    {
        if cap != self.cap {
            let generation = if self.generation < u64::MAX {
                self.generation + 1
            } else {
                0
            };
            *self = Limiter { cap, in_flight: 0, generation };
        }
    }

    /// Hands out a permit when a slot is free.
    pub fn try_acquire(&mut self) -> (r: Option<Permit>)
        ensures
            r.is_some() == can_acquire(old(self).spec_cap(), old(self).spec_in_flight()),
            final(self).spec_cap() == old(self).spec_cap(),
            final(self).spec_generation() == old(self).spec_generation(),
            final(self).spec_in_flight() as int == if r.is_some() {
                old(self).spec_in_flight() as int + 1
            } else {
                old(self).spec_in_flight() as int
            },
            final(self).spec_in_flight() <= final(self).spec_cap(),
            r matches Some(p) ==> p.spec_generation() == old(self).spec_generation(),
    {
        proof {
            use_type_invariant(&*self);
        }
        if self.in_flight < self.cap {
            *self = Limiter { cap: self.cap, in_flight: self.in_flight + 1, generation: self.generation };
            Some(Permit { generation: self.generation })
        } else {
            None
        }
    }

    /// Gives a permit back; one of an earlier generation frees nothing.
    pub fn release(&mut self, permit: Permit)
        ensures
            final(self).spec_cap() == old(self).spec_cap(),
            final(self).spec_generation() == old(self).spec_generation(),
            final(self).spec_in_flight() as int == if permit.spec_generation() == old(self).spec_generation() && old(self).spec_in_flight() > 0 {
                old(self).spec_in_flight() - 1
            } else {
                old(self).spec_in_flight() as int
            },
    {
        proof {
            use_type_invariant(&*self);
        }
        if permit.generation == self.generation && self.in_flight > 0 {
            *self = Limiter { cap: self.cap, in_flight: self.in_flight - 1, generation: self.generation };
        }
    }
}

/// With a cap of one, no second upload starts while one permit is out: at
/// most one upload runs at a time.
pub proof fn lemma_single_slot(in_flight: nat)
    requires
        in_flight >= 1,
    ensures
        !can_acquire(1, in_flight),
{
}

} // verus!
