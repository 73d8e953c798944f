use vstd::prelude::*;

verus! {

/// The state that the calculator service and the admin service share: the
/// number of calculator requests so far. Its view is that number.
#[derive(Clone, Copy, Debug, PartialEq, Eq, Structural)]
pub struct State {
    pub(crate) count: u64,
}

impl View for State {
    type V = nat;

    open(crate) spec fn view(&self) -> nat {
        self.count as nat
    }
}

impl State {
    /// Whether the counter can take one more request.
    pub open spec fn spec_has_room(&self) -> bool {
        self@ < u64::MAX
    }

    /// Whether the counter can take one more request.
    #[verifier::when_used_as_spec(spec_has_room)]
    pub fn has_room(&self) -> (room: bool)
        ensures
            room == self.spec_has_room(),
    {
        self.count < u64::MAX
    }

    /// Whether `self` is `before` with one more request counted.
    pub open spec fn follows(self, before: State) -> bool {
        self@ == before@ + 1
    }

    /// The number of calculator requests so far.
    pub fn count(&self) -> (count: u64)
        ensures
            count == self@,
    {
        self.count
    }
}

impl Default for State {
    /// The state of a service that has not been called: no request is counted.
    fn default() -> (state: State)
        ensures
            state@ == 0,
    {
        State { count: 0 }
    }
}

/// In a run of states in which each follows the one before, the count grows
/// from one state to a later one by the number of steps between them: it
/// never falls, and no request is lost or counted twice.
pub proof fn lemma_count_grows_with_requests(run: Seq<State>, i: int, j: int)
    requires
        0 <= i <= j < run.len(),
        forall|k: int| 0 < k < run.len() ==> #[trigger] run[k].follows(run[k - 1]),
    ensures
        run[j]@ == run[i]@ + (j - i),
    decreases j - i,
{
    if i < j {
        lemma_count_grows_with_requests(run, i, j - 1);
        assert(run[j].follows(run[j - 1]));
    }
}

/// In such a run that starts with a new state, a state's count is its place
/// in the run: after any `n` calculator requests, whatever they asked and
/// however they ended, the count is `n`.
pub proof fn lemma_count_is_number_of_requests(run: Seq<State>, n: int)
    requires
        0 <= n < run.len(),
        run[0]@ == 0,
        forall|k: int| 0 < k < run.len() ==> #[trigger] run[k].follows(run[k - 1]),
    ensures
        run[n]@ == n,
{
    lemma_count_grows_with_requests(run, 0, n);
}

} // verus!
