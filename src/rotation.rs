//! Strict round-robin selection over a fixed number of slots, shared by task
//! dispatch and TLS provider rotation.
use vstd::prelude::*;

verus! {

/// How many of the first `n` selections went to slot `i` when the `k`-th
/// selection goes to slot `k % slots`.
pub open spec fn routed_count(n: nat, slots: nat, i: nat) -> nat
    decreases n,
{
    if n == 0 {
        0
    } else {
        routed_count((n - 1) as nat, slots, i) + if ((n - 1) as int) % (slots as int) == i {
            1nat
        } else {
            0nat
        }
    }
}

/// The share of slot `i` after `n` selections over `slots` slots.
pub open spec fn fair_share(n: nat, slots: nat, i: nat) -> nat {
    (n / slots + if i < n % slots {
        1nat
    } else {
        0nat
    }) as nat
}

proof fn lemma_routed_count_exact(n: nat, slots: nat, i: nat)
    requires
        slots > 0,
        i < slots,
    ensures
        routed_count(n, slots, i) == fair_share(n, slots, i),
    decreases n,
{
    if n > 0 {
        let m = (n - 1) as nat;
        lemma_routed_count_exact(m, slots, i);
        vstd::arithmetic::div_mod::lemma_fundamental_div_mod(m as int, slots as int);
        vstd::arithmetic::div_mod::lemma_fundamental_div_mod(n as int, slots as int);
        vstd::arithmetic::div_mod::lemma_mod_bound(m as int, slots as int);
        vstd::arithmetic::div_mod::lemma_mod_bound(n as int, slots as int);
        let q = m as int / slots as int;
        let d = slots as int;
        assert(q * d == d * q) by (nonlinear_arith);
        assert((q + 1) * d == q * d + d) by (nonlinear_arith);
        if m % slots == slots - 1 {
            assert(n % slots == 0 && n / slots == m / slots + 1) by {
                vstd::arithmetic::div_mod::lemma_fundamental_div_mod_converse(
                    n as int,
                    slots as int,
                    m as int / slots as int + 1,
                    0,
                );
            }
        } else {
            assert(n % slots == m % slots + 1 && n / slots == m / slots) by {
                vstd::arithmetic::div_mod::lemma_fundamental_div_mod_converse(
                    n as int,
                    slots as int,
                    m as int / slots as int,
                    m as int % slots as int + 1,
                );
            }
        }
    }
}

/// After `n` strict round-robin selections over `slots` slots, slot `i` has
/// been chosen `n / slots` times, plus one if `i < n % slots`; so no two
/// slots differ by more than one, and all are equal when `slots` divides `n`.
pub proof fn lemma_round_robin_balanced(n: nat, slots: nat, i: nat, j: nat)
    requires
        slots > 0,
        i < slots,
        j < slots,
    ensures
        routed_count(n, slots, i) == fair_share(n, slots, i),
        routed_count(n, slots, i) <= routed_count(n, slots, j) + 1,
        n / slots <= routed_count(n, slots, i) <= n / slots + 1,
        n % slots == 0 ==> routed_count(n, slots, i) == n / slots,
{
    lemma_routed_count_exact(n, slots, i);
    lemma_routed_count_exact(n, slots, j);
}

/// The slots handed out by the first `n` selections: `0, 1, ..., 0, 1, ...`.
pub open spec fn picks(n: nat, slots: nat) -> Seq<int> {
    Seq::new(n, |k: int| k % (slots as int))
}

/// How often `i` occurs in `s`.
pub open spec fn occurrences(s: Seq<int>, i: int) -> nat
    decreases s.len(),
{
    if s.len() == 0 {
        0
    } else {
        occurrences(s.drop_last(), i) + if s.last() == i {
            1nat
        } else {
            0nat
        }
    }
}

proof fn lemma_occurrences_of_picks(n: nat, slots: nat, i: int)
    requires
        slots > 0,
    ensures
        occurrences(picks(n, slots), i) == routed_count(n, slots, i as nat) || i < 0,
    decreases n,
{
    if n > 0 {
        let m = (n - 1) as nat;
        assert(picks(n, slots).drop_last() =~= picks(m, slots));
        lemma_occurrences_of_picks(m, slots, i);
    }
}

/// After the selections recorded in `history`, slot `i` was chosen
/// `n / slots` times, plus one if `i < n % slots`: no two slots differ by more
/// than one, and all are equal when `slots` divides the number of selections.
pub proof fn lemma_picks_balanced(n: nat, slots: nat, i: int, j: int)
    requires
        slots > 0,
        0 <= i < slots,
        0 <= j < slots,
    ensures
        occurrences(picks(n, slots), i) == fair_share(n, slots, i as nat),
        occurrences(picks(n, slots), i) <= occurrences(picks(n, slots), j) + 1,
        n % slots == 0 ==> occurrences(picks(n, slots), i) == n / slots,
{
    lemma_occurrences_of_picks(n, slots, i);
    lemma_occurrences_of_picks(n, slots, j);
    lemma_round_robin_balanced(n, slots, i as nat, j as nat);
}

/// A counter that hands out slots `0, 1, ..., slots - 1, 0, 1, ...`.
pub struct RoundRobin {
    slots: usize,
    issued: u64,
}

impl RoundRobin {
    #[verifier::type_invariant]
    spec fn has_slots(self) -> bool {
        self.slots > 0
    }

    pub closed spec fn slot_count(self) -> nat {
        self.slots as nat
    }

    /// How many selections were made so far.
    pub closed spec fn issued_count(self) -> nat {
        self.issued as nat
    }

    /// Every slot handed out so far, in order.
    pub closed spec fn history(self) -> Seq<int> {
        picks(self.issued as nat, self.slots as nat)
    }

    /// The history is the strict rotation over the slot count, one entry per
    /// selection; so the balance of `lemma_picks_balanced` holds of it.
    pub proof fn lemma_history(self)
        ensures
            self.history() == picks(self.issued_count(), self.slot_count()),
            self.history().len() == self.issued_count(),
    {
    }

    pub fn new(slots: usize) -> (r: RoundRobin)
        requires
            slots > 0,
        ensures
            r.history() == Seq::<int>::empty(),
            r.slot_count() == slots,
            r.issued_count() == 0,
    {
        RoundRobin { slots, issued: 0 }
    }

    pub fn slots(&self) -> (r: usize)
        ensures
            r == self.slot_count(),
            r > 0,
    {
        proof {
            use_type_invariant(self);
        }
        self.slots
    }

    pub fn issued(&self) -> (r: u64)
        ensures
            r == self.issued_count(),
    {
        self.issued
    }

    /// The next slot: the number of earlier selections modulo the slot count.
    pub fn pick(&mut self) -> (r: usize)
        requires
            old(self).issued_count() < u64::MAX,
        ensures
            r == old(self).issued_count() % old(self).slot_count(),
            r < old(self).slot_count(),
            final(self).slot_count() == old(self).slot_count(),
            final(self).issued_count() == old(self).issued_count() + 1,
            final(self).history() == old(self).history().push(r as int),
        no_unwind
    {
        proof {
            use_type_invariant(&*self);
        }
        let r = (self.issued % (self.slots as u64)) as usize;
        self.issued = self.issued + 1;
        assert(picks(self.issued as nat, self.slots as nat) =~= picks(
            (self.issued - 1) as nat,
            self.slots as nat,
        ).push(r as int));
        r
    }
}

} // verus!
