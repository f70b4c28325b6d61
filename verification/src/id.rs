//! Snowflake identifiers of Discord resources.

use vstd::prelude::*;

verus! {

/// Identifier of a resource: a non-zero snowflake.
#[derive(Clone, Copy, Debug, PartialEq, Eq, Hash, PartialOrd, Ord, Structural)]
pub struct Id {
    value: u64,
}

impl View for Id {
    type V = u64;

    closed spec fn view(&self) -> u64 {
        self.value
    }
}

impl Id {
    /// The identifier with the given non-zero value.
    pub fn new(value: u64) -> (res: Id)
        requires
            value != 0,
        ensures
            res@ == value,
    {
        Id { value }
    }

    /// The identifier with the given value, if it is non-zero.
    pub fn new_checked(value: u64) -> (res: Option<Id>)
        ensures
            res is Some <==> value != 0,
            res matches Some(id) ==> id@ == value,
    {
        if value == 0 {
            None
        } else {
            Some(Id { value })
        }
    }

    /// Value of the identifier.
    pub fn get(self) -> (res: u64)
        ensures
            res == self@,
            res != 0,
    {
        proof {
            use_type_invariant(self);
        }
        self.value
    }

    #[verifier::type_invariant]
    spec fn non_zero(self) -> bool {
        self.value != 0
    }
}

} // verus!
