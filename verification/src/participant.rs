//! Those who take part in the raffle.

use vstd::prelude::*;
use vstd::std_specs::cmp::PartialEqSpecImpl;

verus! {

/// One who takes part: a name, and whether a spin has landed on this copy.
#[derive(Debug)]
pub struct Participant {
    pub name: String,
    pub is_winner: bool,
}

impl Participant {
    /// The same participant, declared a winner.
    pub open spec fn crowned(self) -> Participant {
        Participant { name: self.name, is_winner: true }
    }

    /// One who has not won yet.
    pub fn new(name: String) -> (participant: Participant)
        ensures
            participant.name == name,
            !participant.is_winner,
    {
        Participant { name, is_winner: false }
    }
}

impl Clone for Participant {
    fn clone(&self) -> (copy: Participant)
        ensures
            copy == *self,
    {
        Participant { name: self.name.clone(), is_winner: self.is_winner }
    }
}

impl PartialEq for Participant {
    fn eq(&self, other: &Participant) -> (same: bool) {
        self.name == other.name && self.is_winner == other.is_winner
    }
}

impl PartialEqSpecImpl for Participant {
    open spec fn obeys_eq_spec() -> bool {
        true
    }

    open spec fn eq_spec(&self, other: &Participant) -> bool {
        self.name@ == other.name@ && self.is_winner == other.is_winner
    }
}

} // verus!
