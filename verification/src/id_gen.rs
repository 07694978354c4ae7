//! Sequential model-id generator (`p1001`, `p1002`, ...).

use vstd::prelude::*;
use crate::text::{decimal, lemma_decimal_injective, push_char, push_decimal};

verus! {

/// Hands out the model ids of one document: `p` followed by a decimal
/// counter that starts at 1001 and grows by one on every call.
pub struct IdGen {
    counter: u64,
}

/// The id handed out when the counter stands at `n`.
pub open spec fn id_for(n: nat) -> Seq<char> {
    seq!['p'] + decimal(n)
}

impl View for IdGen {
    type V = nat;

    /// The counter value of the next id to be handed out.
    closed spec fn view(&self) -> nat {
        self.counter as nat
    }
}

impl IdGen {
    /// The first counter value.
    pub open spec fn first() -> nat {
        1001
    }

    /// Whether `k` more ids can be handed out without the counter overflowing.
    pub open spec fn can_issue(self, k: nat) -> bool {
        self@ + k <= u64::MAX
    }

    /// Whether `k` more ids can be handed out (the executable form of
    /// [`IdGen::can_issue`]).
    pub fn has_room(&self, k: u64) -> (r: bool)
        ensures
            r == self.can_issue(k as nat),
    {
        k <= u64::MAX - self.counter
    }

    /// A fresh generator.
    pub fn new() -> (g: Self)
        ensures
            g@ == Self::first(),
    {
        IdGen { counter: 1001 }
    }

    /// The next id.
    pub fn next(&mut self) -> (id: String)
        requires
            old(self).can_issue(1),
        ensures
            id@ == id_for(old(self)@),
            final(self)@ == old(self)@ + 1,
    {
        let mut s = String::new();
        push_char(&mut s, 'p');
        push_decimal(&mut s, self.counter);
        self.counter = self.counter + 1;
        proof {
            assert(s@ =~= id_for(old(self)@));
        }
        s
    }
}

/// Ids handed out at distinct counter values are distinct: no id is issued
/// twice by one generator.
pub proof fn law_ids_never_repeat(a: nat, b: nat)
    requires
        a != b,
    ensures
        id_for(a) != id_for(b),
{
    if id_for(a) == id_for(b) {
        assert(decimal(a) =~= id_for(a).drop_first());
        assert(decimal(b) =~= id_for(b).drop_first());
        lemma_decimal_injective(a, b);
    }
}

} // verus!
