//! The bookkeeping of mock functions: how often a mock has to be called, what
//! each call answers with, and in which order mocks of a sequence must run.

use vstd::prelude::*;

verus! {

/// What a call of a mock answers with.
#[derive(Clone, Copy, Debug, PartialEq, Eq, Structural)]
pub enum MockAnswer {
    /// The next one-time answer, in the order they were configured.
    Once,
    /// The repeated (or default) answer.
    Repeated,
}

/// Expectations and call count of one mock function.
pub struct MockExpectation {
    id: usize,
    expected_count: Option<usize>,
    min_count: usize,
    once_left: usize,
    once_count: usize,
    is_will_repeatedly_set: bool,
    call_count: usize,
}

impl MockExpectation {
    /// The id of the mock within its sequence (0 when in none).
    pub closed spec fn id_spec(&self) -> usize {
        self.id
    }

    /// The exact number of calls expected, if set.
    pub closed spec fn expected_spec(&self) -> Option<usize> {
        self.expected_count
    }

    /// The least number of calls expected.
    pub closed spec fn min_spec(&self) -> nat {
        self.min_count as nat
    }

    /// How many one-time answers are left.
    pub closed spec fn once_left_spec(&self) -> nat {
        self.once_left as nat
    }

    /// Whether a repeated answer was configured.
    pub closed spec fn repeated_spec(&self) -> bool {
        self.is_will_repeatedly_set
    }

    /// How often the mock was called.
    pub closed spec fn calls_spec(&self) -> nat {
        self.call_count as nat
    }

    /// The exact count a build leaves: the one set by `times` when there is
    /// one; otherwise, with one-time answers only, their number; otherwise none.
    pub open spec fn built_expected(&self) -> Option<usize> {
        if self.once_left_spec() > 0 && !self.repeated_spec() && self.expected_spec() is None {
            Some(self.min_spec() as usize)
        } else {
            self.expected_spec()
        }
    }

    /// How many one-time answers were configured.
    pub closed spec fn once_count_spec(&self) -> nat {
        self.once_count as nat
    }

    /// The least number of calls is the number of configured one-time answers,
    /// plus one for a repeated answer; one-time answers are only used up by
    /// calls.
    pub open spec fn wf(&self) -> bool {
        &&& self.min_spec() == self.once_count_spec() + (if self.repeated_spec() { 1nat } else { 0nat })
        &&& self.once_left_spec() <= self.once_count_spec()
        &&& self.calls_spec() == 0 ==> self.once_left_spec() == self.once_count_spec()
    }

    /// A mock with no expectation and no call.
    pub fn new() -> (r: Self)
        ensures
            r.wf(),
            r.once_count_spec() == 0,
            r.id_spec() == 0,
            r.expected_spec() is None,
            r.min_spec() == 0,
            r.once_left_spec() == 0,
            !r.repeated_spec(),
            r.calls_spec() == 0,
    {
        MockExpectation {
            id: 0,
            expected_count: None,
            min_count: 0,
            once_left: 0,
            once_count: 0,
            is_will_repeatedly_set: false,
            call_count: 0,
        }
    }

    /// The mock has to be called exactly `count` times; not allowed after a repeated answer.
    pub fn times(&mut self, count: usize)
        requires
            old(self).wf(),
            !old(self).repeated_spec(),
        ensures
            final(self).wf(),
            final(self).once_count_spec() == old(self).once_count_spec(),
            final(self).expected_spec() == Some(count),
            final(self).min_spec() == old(self).min_spec(),
            final(self).once_left_spec() == old(self).once_left_spec(),
            final(self).repeated_spec() == old(self).repeated_spec(),
            final(self).calls_spec() == old(self).calls_spec(),
            final(self).id_spec() == old(self).id_spec(),
    {
        self.expected_count = Some(count);
    }

    /// One more one-time answer: the mock has to be called at least once more;
    /// not allowed after a repeated answer.
    pub fn will_once(&mut self)
        requires
            old(self).wf(),
            !old(self).repeated_spec(),
            old(self).min_spec() < usize::MAX,
            old(self).once_left_spec() < usize::MAX,
        ensures
            final(self).wf(),
            final(self).once_count_spec() == old(self).once_count_spec() + 1,
            final(self).min_spec() == old(self).min_spec() + 1,
            final(self).once_left_spec() == old(self).once_left_spec() + 1,
            final(self).expected_spec() == old(self).expected_spec(),
            final(self).repeated_spec() == old(self).repeated_spec(),
            final(self).calls_spec() == old(self).calls_spec(),
            final(self).id_spec() == old(self).id_spec(),
    {
        self.once_left = self.once_left + 1;
        self.once_count = self.once_count + 1;
        self.min_count = self.min_count + 1;
    }

    /// The repeated answer, allowed once and last: the mock has to be called at least once more.
    pub fn will_repeatedly(&mut self)
        requires
            old(self).wf(),
            !old(self).repeated_spec(),
            old(self).min_spec() < usize::MAX,
        ensures
            final(self).wf(),
            final(self).once_count_spec() == old(self).once_count_spec(),
            final(self).repeated_spec(),
            final(self).min_spec() == old(self).min_spec() + 1,
            final(self).once_left_spec() == old(self).once_left_spec(),
            final(self).expected_spec() == old(self).expected_spec(),
            final(self).calls_spec() == old(self).calls_spec(),
            final(self).id_spec() == old(self).id_spec(),
    {
        self.is_will_repeatedly_set = true;
        self.min_count = self.min_count + 1;
    }

    /// Places the mock into `seq`; it gets the next id of the sequence.
    pub fn in_sequence(&mut self, seq: &mut Sequence)
        requires
            old(self).wf(),
            old(seq).next_id_spec() < usize::MAX,
        ensures
            final(self).wf(),
            final(self).once_count_spec() == old(self).once_count_spec(),
            final(self).id_spec() == old(seq).next_id_spec(),
            final(seq).next_id_spec() == old(seq).next_id_spec() + 1,
            final(seq).order_spec() == old(seq).order_spec(),
            final(self).expected_spec() == old(self).expected_spec(),
            final(self).min_spec() == old(self).min_spec(),
            final(self).once_left_spec() == old(self).once_left_spec(),
            final(self).repeated_spec() == old(self).repeated_spec(),
            final(self).calls_spec() == old(self).calls_spec(),
    {
        self.id = seq.register();
    }

    /// Finishes the configuration: with one-time answers only and no exact
    /// count set by `times`, the number of one-time answers becomes the exact
    /// number of expected calls; an exact count set by `times` stays.
    pub fn build(&mut self)
        requires
            old(self).wf(),
        ensures
            final(self).wf(),
            final(self).once_count_spec() == old(self).once_count_spec(),
            final(self).expected_spec() == old(self).built_expected(),
            final(self).min_spec() == old(self).min_spec(),
            final(self).once_left_spec() == old(self).once_left_spec(),
            final(self).repeated_spec() == old(self).repeated_spec(),
            final(self).calls_spec() == old(self).calls_spec(),
            final(self).id_spec() == old(self).id_spec(),
    {
        if self.once_left > 0 && !self.is_will_repeatedly_set && self.expected_count.is_none() {
            self.expected_count = Some(self.min_count);
        }
    }

    /// Counts a call and tells which answer it gets: the next one-time answer
    /// while there is one, the repeated answer afterwards.
    pub fn call(&mut self) -> (r: MockAnswer)
        requires
            old(self).wf(),
            old(self).calls_spec() < usize::MAX,
        ensures
            final(self).wf(),
            final(self).once_count_spec() == old(self).once_count_spec(),
            final(self).calls_spec() == old(self).calls_spec() + 1,
            old(self).once_left_spec() > 0 ==> r == MockAnswer::Once && final(self).once_left_spec()
                == old(self).once_left_spec() - 1,
            old(self).once_left_spec() == 0 ==> r == MockAnswer::Repeated && final(self).once_left_spec() == 0,
            final(self).expected_spec() == old(self).expected_spec(),
            final(self).min_spec() == old(self).min_spec(),
            final(self).repeated_spec() == old(self).repeated_spec(),
            final(self).id_spec() == old(self).id_spec(),
    {
        self.call_count = self.call_count + 1;
        if self.once_left > 0 {
            self.once_left = self.once_left - 1;
            MockAnswer::Once
        } else {
            MockAnswer::Repeated
        }
    }

    /// The id of the mock within its sequence.
    pub fn id(&self) -> (r: usize)
        ensures
            r == self.id_spec(),
    {
        self.id
    }

    /// How often the mock was called.
    pub fn times_called(&self) -> (r: usize)
        ensures
            r == self.calls_spec(),
    {
        self.call_count
    }

    /// Whether the calls met the expectation: exactly the expected number when
    /// one is set, otherwise at least the least number.
    pub fn verify(&self) -> (r: bool)
        ensures
            r == expectation_met(self.expected_spec(), self.calls_spec(), self.min_spec()),
    {
        match self.expected_count {
            Some(e) => self.call_count == e,
            None => self.call_count >= self.min_count,
        }
    }
}

/// Whether `calls` calls meet the expectation: exactly `expected` when set,
/// otherwise at least `min`.
pub open spec fn expectation_met(expected: Option<usize>, calls: nat, min: nat) -> bool {
    match expected {
        Some(e) => calls == e,
        None => calls >= min,
    }
}

/// A mock built with `n` one-time answers and nothing else is met by exactly
/// `n` calls: one call less or one more fails it.
pub proof fn law_once_answers_fix_the_count(n: usize)
    requires
        0 < n < usize::MAX,
    ensures
        expectation_met(Some(n), n as nat, n as nat),
        !expectation_met(Some(n), (n - 1) as nat, n as nat),
        !expectation_met(Some(n), (n + 1) as nat, n as nat),
{
}

/// A mock whose exact count was set to `n` by `times` is met by exactly `n`
/// calls, whatever answers it has: building keeps that count, and fewer or
/// more calls fail it.
pub proof fn law_times_fixes_the_count(e: MockExpectation, n: usize, calls: nat)
    requires
        e.expected_spec() == Some(n),
    ensures
        e.built_expected() == Some(n),
        expectation_met(e.built_expected(), calls, e.min_spec()) == (calls == n),
{
}

/// Which mocks fail their check when they go away, as configured before
/// the first call: a count set by `times(n)` asks for exactly `n` calls;
/// otherwise one-time answers alone ask for exactly as many calls; otherwise
/// the mock asks for at least one call per one-time answer plus one for a
/// repeated answer.
pub proof fn law_drop_check(e: MockExpectation, c: nat)
    requires
        e.wf(),
        e.calls_spec() == 0,
    ensures
        expectation_met(e.built_expected(), c, e.min_spec()) == (match e.expected_spec() {
            Some(n) => c == n,
            None => if e.once_count_spec() > 0 && !e.repeated_spec() {
                c == e.once_count_spec()
            } else {
                c >= e.once_count_spec() + (if e.repeated_spec() { 1nat } else { 0nat })
            },
        }),
{
}

/// Whether `order` ran the mocks of a sequence in registration order.
pub open spec fn in_registration_order(order: Seq<usize>) -> bool {
    forall|i: int| 0 <= i < order.len() ==> order[i] == i
}

/// The order in which the mocks of a sequence must run: the order they were registered in.
pub struct Sequence {
    registration_id_next: usize,
    execution_order: Vec<usize>,
}

impl Sequence {
    /// The id the next registered mock gets.
    pub closed spec fn next_id_spec(&self) -> nat {
        self.registration_id_next as nat
    }

    /// The ids of the mocks in the order they were called.
    pub closed spec fn order_spec(&self) -> Seq<usize> {
        self.execution_order@
    }

    /// A sequence with no mock.
    pub fn new() -> (r: Self)
        ensures
            r.next_id_spec() == 0,
            r.order_spec() == Seq::<usize>::empty(),
    {
        Sequence { registration_id_next: 0, execution_order: Vec::new() }
    }

    /// Registers a mock; returns its id, the number of mocks registered before.
    pub fn register(&mut self) -> (r: usize)
        requires
            old(self).next_id_spec() < usize::MAX,
        ensures
            r == old(self).next_id_spec(),
            final(self).next_id_spec() == old(self).next_id_spec() + 1,
            final(self).order_spec() == old(self).order_spec(),
    {
        let id = self.registration_id_next;
        self.registration_id_next = self.registration_id_next + 1;
        id
    }

    /// Records that the mock `id` was called.
    pub fn record(&mut self, id: usize)
        ensures
            final(self).order_spec() == old(self).order_spec().push(id),
            final(self).next_id_spec() == old(self).next_id_spec(),
    {
        self.execution_order.push(id);
    }

    /// Whether the mocks ran in registration order.
    pub fn verify_executed_order(&self) -> (r: bool)
        ensures
            r == in_registration_order(self.order_spec()),
            r ==> forall|i: int| 0 <= i < self.order_spec().len() ==> self.order_spec()[i] == i,
            !r ==> exists|i: int| 0 <= i < self.order_spec().len() && self.order_spec()[i] != i,
    {
        let mut i: usize = 0;
        while i < self.execution_order.len()
            invariant
                i <= self.execution_order@.len(),
                forall|j: int| 0 <= j < i ==> self.execution_order@[j] == j,
            decreases self.execution_order.len() - i,
        {
            if self.execution_order[i] != i {
                return false;
            }
            i = i + 1;
        }
        true
    }

    /// Checks the order of this round and starts a new round. Returns whether
    /// the mocks ran in registration order.
    pub fn verify_executed_order_and_prepare_for_next_iteration(&mut self) -> (r: bool)
        ensures
            r == in_registration_order(old(self).order_spec()),
            final(self).order_spec() == Seq::<usize>::empty(),
            final(self).next_id_spec() == old(self).next_id_spec(),
    {
        let r = self.verify_executed_order();
        self.execution_order.clear();
        r
    }
}

/// Running the registered mocks one after the other, each once, is in order.
pub proof fn law_registration_order_accepted(n: nat)
    requires
        n <= usize::MAX + 1,
    ensures
        in_registration_order(Seq::new(n, |i: int| i as usize)),
{
}

/// A call out of place rejects the order: when the `i`-th recorded call is
/// not the mock registered `i`-th, the sequence is not in order.
pub proof fn law_out_of_place_call_rejected(order: Seq<usize>, i: int)
    requires
        0 <= i < order.len(),
        order[i] != i,
    ensures
        !in_registration_order(order),
{
}

/// The next call decides: an order that was accepted stays accepted after
/// one more call exactly when that call is the mock registered next in line.
pub proof fn law_next_call_decides(order: Seq<usize>, id: usize)
    requires
        in_registration_order(order),
    ensures
        in_registration_order(order.push(id)) <==> id == order.len(),
{
    assert(order.push(id)[order.len() as int] == id);
    if id == order.len() {
        assert forall|i: int| 0 <= i < order.push(id).len() implies order.push(id)[i] == i by {
            if i < order.len() {
                assert(order.push(id)[i] == order[i]);
            }
        }
    }
}

} // verus!
