use vstd::prelude::*;
use crate::ieee::{order_key, ONE_BITS};
use crate::roots::{in_window, root_in_window};

verus! {

/// A swept vertex of one body reaching a swept triangle of another, at
/// `time` (a single-precision bit pattern) as a fraction of the motion interval.
#[derive(Debug, Clone, Copy, PartialEq, Eq, Structural)]
pub struct Contact {
    pub time: u32,
    pub vertex_body: usize,
    pub triangle_body: usize,
    pub vertex: usize,
    pub triangle: usize,
}

/// The earliest contact found so far in one substep. Each candidate is tested
/// against the current time to beat, which starts at one and only shrinks.
pub struct ContactSearch {
    best: Option<Contact>,
}

impl ContactSearch {
    pub closed spec fn view_best(&self) -> Option<Contact> {
        self.best
    }

    /// The time a new contact must not exceed: one until a contact is held,
    /// then that contact's time.
    pub open spec fn bound_spec(&self) -> u32 {
        match self.view_best() {
            Some(c) => c.time,
            None => ONE_BITS,
        }
    }

    /// A held contact lies in `[0, 1]`.
    #[verifier::type_invariant]
    spec fn wf(&self) -> bool {
        match self.best {
            Some(c) => in_window(c.time, ONE_BITS),
            None => true,
        }
    }

    /// A search that holds no contact yet.
    pub fn new() -> (r: ContactSearch)
        ensures
            r.view_best() == None::<Contact>,
    {
        ContactSearch { best: None }
    }

    /// The current time to beat.
    pub fn bound(&self) -> (r: u32)
        ensures
            r == self.bound_spec(),
            in_window(r, ONE_BITS),
    {
        proof {
            use_type_invariant(self);
            assert(0x3F80_0000u32 & 0x7FFF_FFFFu32 == 0x3F80_0000u32) by (bit_vector);
            assert(0u32 & 0x7FFF_FFFFu32 == 0u32) by (bit_vector);
        }
        match self.best {
            Some(c) => c.time,
            None => ONE_BITS,
        }
    }

    /// Offers a contact. It is kept, replacing the one held, exactly when its
    /// time lies in `[0, bound]`; a later contact at an equal time wins.
    pub fn offer(&mut self, c: Contact)
        ensures
            in_window(c.time, old(self).bound_spec()) ==> final(self).view_best() == Some(c),
            !in_window(c.time, old(self).bound_spec()) ==> final(self).view_best() == old(self).view_best(),
            order_key(final(self).bound_spec()) <= order_key(old(self).bound_spec()),
    {
        proof {
            use_type_invariant(&*self);
        }
        if root_in_window(c.time, self.bound()) {
            proof {
                assert(0x3F80_0000u32 & 0x7FFF_FFFFu32 == 0x3F80_0000u32) by (bit_vector);
            }
            self.best = Some(c);
        }
    }

    /// The earliest contact found, if any.
    pub fn best(&self) -> (r: Option<Contact>)
        ensures
            r == self.view_best(),
            match r {
                Some(c) => in_window(c.time, ONE_BITS),
                None => true,
            },
    {
        proof {
            use_type_invariant(self);
        }
        self.best
    }
}

} // verus!
