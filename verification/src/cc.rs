//! The congestion control algorithms a connection can use.

use vstd::prelude::*;

use crate::error::Error;
use crate::text::str_is;

verus! {

/// The congestion control algorithm.
#[derive(Clone, Copy, Debug, PartialEq, Eq, Structural)]
pub enum Algorithm {
    /// Reno congestion control.
    Reno,
    /// Congestion control driven by an outside trigger.
    CcTrigger,
}

/// The algorithm that a name stands for: "reno" is Reno.
pub open spec fn algorithm_named(name: Seq<char>) -> Option<Algorithm> {
    if name == seq!['r', 'e', 'n', 'o'] {
        Some(Algorithm::Reno)
    } else {
        None
    }
}

/// "reno" names Reno, and no other name names an algorithm.
pub proof fn lemma_algorithm_names(name: Seq<char>)
    ensures
        name == seq!['r', 'e', 'n', 'o'] ==> algorithm_named(name) == Some(Algorithm::Reno),
        name != seq!['r', 'e', 'n', 'o'] ==> algorithm_named(name) is None,
{
}

impl Algorithm {
    /// The algorithm with the given name, or `Error::CongestionControl` for
    /// a name that `algorithm_named` does not know.
    pub fn from_name(name: &str) -> (r: Result<Algorithm, Error>)
        ensures
            r == (match algorithm_named(name@) {
                Some(a) => Ok(a),
                None => Err(Error::CongestionControl),
            }),
    {
        let reno: [char; 4] = ['r', 'e', 'n', 'o'];
        assert(reno@ =~= seq!['r', 'e', 'n', 'o']);
        if str_is(name, &reno) {
            Ok(Algorithm::Reno)
        } else {
            Err(Error::CongestionControl)
        }
    }
}

} // verus!
