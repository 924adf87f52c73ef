//! The process-wide sequence counter.
//!
//! The counter is one integer whose only operation is to read it and step it
//! by one. Callers that share it across tasks hold it behind exclusive access,
//! so every interleaving of their calls is a sequence of single steps; the
//! laws below are stated over such sequences.

use vstd::prelude::*;

verus! {

/// A source of strictly increasing sequence numbers.
pub struct Counter {
    next_sequence: u64,
}

impl View for Counter {
    type V = nat;

    /// The number that the next call of `next` hands out.
    closed spec fn view(&self) -> nat {
        self.next_sequence as nat
    }
}

/// One call of `next` on `before` returned `value` and left `after`.
pub open spec fn issues(before: Counter, value: u64, after: Counter) -> bool {
    &&& value as nat == before@
    &&& after@ == before@ + 1
}

impl Counter {
    /// A counter whose first issued number is `seed`.
    pub fn initialize(seed: u64) -> (r: Counter)
        ensures
            r@ == seed as nat,
    {
        Counter { next_sequence: seed }
    }

    /// The number that the next call of `next` hands out.
    pub fn peek(&self) -> (r: u64)
        ensures
            r as nat == self@,
    {
        self.next_sequence
    }

    /// Whether the counter has reached the largest number it can hold, so
    /// that it cannot step any further.
    pub fn is_exhausted(&self) -> (r: bool)
        ensures
            r == (self@ == u64::MAX as nat),
            self@ <= u64::MAX as nat,
    {
        self.next_sequence == u64::MAX
    }

    /// Fetch-and-increment: returns the current number and steps past it.
    pub fn next(&mut self) -> (r: u64)
        requires
            old(self)@ < u64::MAX,
        ensures
            issues(*old(self), r, *final(self)),
    {
        proof {
            assert(self@ == self.next_sequence as nat);
        }
        let r = self.next_sequence;
        self.next_sequence = self.next_sequence + 1;
        r
    }
}

/// Any `n` successive calls of `next` on a counter initialized with `seed`
/// hand out exactly the numbers `seed, seed + 1, ..., seed + n - 1`, each
/// once: the `i`-th call returns `seed + i`, no number is returned twice, and
/// the set of returned numbers is that range.
pub proof fn lemma_issued_range(seed: u64, states: Seq<Counter>, values: Seq<u64>)
    requires
        states.len() == values.len() + 1,
        states[0]@ == seed as nat,
        forall|i: int| 0 <= i < values.len() ==> issues(states[i], #[trigger] values[i], states[i + 1]),
    ensures
        forall|i: int| 0 <= i < values.len() ==> #[trigger] values[i] as int == seed + i,
        values.no_duplicates(),
        values.map_values(|v: u64| v as int).to_set() =~= Set::new(
            |k: int| seed <= k < seed + values.len(),
        ),
{
    assert forall|i: int| 0 <= i <= values.len() implies #[trigger] states[i]@ == seed + i by {
        lemma_state_after(seed, states, values, i);
    }
    assert forall|i: int| 0 <= i < values.len() implies #[trigger] values[i] as int == seed + i by {
        assert(issues(states[i], values[i], states[i + 1]));
    }
    let ints = values.map_values(|v: u64| v as int);
    assert forall|k: int| seed <= k < seed + values.len() implies ints.to_set().contains(k) by {
        let i = k - seed;
        assert(ints[i] == values[i] as int);
        assert(ints.contains(k));
    }
    assert forall|k: int| ints.to_set().contains(k) implies seed <= k < seed + values.len() by {
        let i = choose|i: int| 0 <= i < ints.len() && ints[i] == k;
        assert(values[i] as int == seed + i);
    }
}

proof fn lemma_state_after(seed: u64, states: Seq<Counter>, values: Seq<u64>, i: int)
    requires
        states.len() == values.len() + 1,
        states[0]@ == seed as nat,
        forall|j: int| 0 <= j < values.len() ==> issues(states[j], #[trigger] values[j], states[j + 1]),
        0 <= i <= values.len(),
    ensures
        states[i]@ == seed + i,
    decreases i,
{
    if i > 0 {
        lemma_state_after(seed, states, values, i - 1);
        assert(issues(states[i - 1], values[i - 1], states[i]));
    }
}

/// The first call of `next` after `initialize(seed)` returns `seed`: `start`
/// is the counter as `initialize` left it.
pub proof fn lemma_first_is_seed(seed: u64, start: Counter, value: u64, after: Counter)
    requires
        start@ == seed as nat,
        issues(start, value, after),
    ensures
        value == seed,
{
}

} // verus!
