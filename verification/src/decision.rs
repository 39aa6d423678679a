//! The sole decision point: what the tool does with a requested account
//! name, given the current default and the association set.

use vstd::prelude::*;
use crate::text::seq_views;

verus! {

/// What the tool does with a requested account name.
#[derive(Clone, Copy, Debug, PartialEq, Eq, Structural)]
pub enum Decision {
    /// The requested account already is the default: succeed, change nothing.
    AlreadyDefault,
    /// The requested account is not in the association set: refuse.
    Invalid,
    /// The requested account is a different, associated account: mutate.
    Modify,
}

/// The three-way decision: a request for the current default is a no-op, any
/// other member of the association set is modified to, everything else is
/// invalid.
pub open spec fn spec_decide(
    requested: Seq<char>,
    current_default: Seq<char>,
    valid: Seq<Seq<char>>,
) -> Decision {
    if requested == current_default {
        Decision::AlreadyDefault
    } else if valid.contains(requested) {
        Decision::Modify
    } else {
        Decision::Invalid
    }
}

/// Decides what to do with the requested account name.
pub fn decide(requested: &str, current_default: &str, valid: &Vec<String>) -> (d: Decision)
    ensures
        d == spec_decide(requested@, current_default@, seq_views(valid@)),
{
    let requested_string: String = requested.to_owned();
    let current: String = current_default.to_owned();
    if requested_string == current {
        return Decision::AlreadyDefault;
    }
    let n = valid.len();
    let mut i: usize = 0;
    while i < n
        invariant
            i <= n,
            n == valid@.len(),
            requested_string@ == requested@,
            requested@ != current_default@,
            forall|j: int| 0 <= j < i ==> valid@[j]@ != requested@,
        decreases n - i,
    {
        if valid[i] == requested_string {
            proof {
                assert(seq_views(valid@)[i as int] == valid@[i as int]@);
                assert(seq_views(valid@)[i as int] == requested@);
                assert(seq_views(valid@).contains(requested@));
            }
            return Decision::Modify;
        }
        i = i + 1;
    }
    proof {
        assert forall|j: int| 0 <= j < seq_views(valid@).len() implies seq_views(valid@)[j]
            != requested@ by {
            assert(seq_views(valid@)[j] == valid@[j]@);
        }
        assert(!seq_views(valid@).contains(requested@));
    }
    Decision::Invalid
}

} // verus!
