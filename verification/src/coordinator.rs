//! The bounded fan-out of a batch: which transfer may start next, how many
//! run at once, and the collection of outcomes as transfers complete.
//!
//! The coordinator performs no transfer itself. Its owner asks for a
//! [`Directive`], starts or awaits a transfer accordingly, and reports each
//! completion back. Descriptors are known by their position in the batch.

use vstd::prelude::*;
use crate::error::TransferError;
use crate::outcome::belongs_to;
use crate::outcome::outcome_of;
use crate::outcome::DescriptorModel;
use crate::outcome::OutcomeModel;
use crate::outcome::TransferDescriptor;
use crate::outcome::TransferOutcome;
use crate::results::lemma_partition_is_total;
use crate::results::lemma_partition_places_each;
use crate::results::place;
use crate::results::aggregate;
use crate::results::failures;
use crate::results::successes;
use crate::results::RustOperationResult;

verus! {

/// What the owner of a coordinator is to do next.
#[derive(Clone, Copy, Debug, PartialEq, Eq, Structural)]
pub enum Directive {
    /// Start the transfer of the descriptor at `index`.
    Start { index: usize },
    /// Every slot is taken or nothing is left to start: await a completion.
    Wait,
    /// Every descriptor has its outcome.
    Finish,
}

/// The state of a batch in progress.
pub struct CoordinatorModel {
    /// The descriptors of the batch, in submission order.
    pub plan: Seq<DescriptorModel>,
    /// How many transfers may run at once.
    pub limit: nat,
    /// How many descriptors have been started: those at positions below it.
    pub started: nat,
    /// The positions of the transfers that run now.
    pub in_flight: Seq<usize>,
    /// The positions of the transfers that are over, in completion order.
    pub completed: Seq<usize>,
    /// The outcome of each completed transfer, in completion order.
    pub outcomes: Seq<OutcomeModel>,
}

impl CoordinatorModel {
    /// How many descriptors the batch has.
    pub open spec fn total(self) -> nat {
        self.plan.len()
    }

    /// The batch of `plan` of which nothing has started.
    pub open spec fn initial(plan: Seq<DescriptorModel>, limit: nat) -> CoordinatorModel {
        CoordinatorModel {
            plan,
            limit,
            started: 0,
            in_flight: Seq::empty(),
            completed: Seq::empty(),
            outcomes: Seq::empty(),
        }
    }

    /// The states a batch can be in: at most `limit` transfers run, each
    /// started descriptor either runs or is over, never both and never
    /// twice, each outcome speaks of the descriptor whose transfer it ended,
    /// and with a limit of one the transfers are over in the order they
    /// were submitted in.
    pub open spec fn wf(self) -> bool {
        &&& self.limit >= 1
        &&& self.started <= self.total()
        &&& self.in_flight.len() <= self.limit
        &&& self.in_flight.len() + self.completed.len() == self.started
        &&& self.outcomes.len() == self.completed.len()
        &&& self.in_flight.no_duplicates()
        &&& self.completed.no_duplicates()
        &&& forall|i: usize| #[trigger] self.in_flight.contains(i) ==> i < self.started
        &&& forall|i: usize| #[trigger] self.completed.contains(i) ==> i < self.started
        &&& forall|i: usize|
            #![trigger self.in_flight.contains(i)]
            #![trigger self.completed.contains(i)]
            i < self.started ==> self.in_flight.contains(i) || self.completed.contains(i)
        &&& forall|i: usize|
            #![trigger self.in_flight.contains(i)]
            #![trigger self.completed.contains(i)]
            !(self.in_flight.contains(i) && self.completed.contains(i))
        &&& forall|j: int|
            0 <= j < self.completed.len() ==> belongs_to(
                #[trigger] self.outcomes[j],
                self.plan[self.completed[j] as int],
            )
        &&& self.limit == 1 ==> forall|j: int|
            0 <= j < self.completed.len() ==> #[trigger] self.completed[j] == j
    }

    /// Whether another transfer may start now.
    pub open spec fn can_start(self) -> bool {
        self.in_flight.len() < self.limit && self.started < self.total()
    }

    /// Whether every descriptor has its outcome.
    pub open spec fn finished(self) -> bool {
        self.started == self.total() && self.in_flight.len() == 0
    }

    /// What is to be done in this state: start the next descriptor while a
    /// slot is free and one is left, else await a completion while anything
    /// runs, else finish.
    pub open spec fn directive(self) -> Directive {
        if self.can_start() {
            Directive::Start { index: self.started as usize }
        } else if self.in_flight.len() > 0 {
            Directive::Wait
        } else {
            Directive::Finish
        }
    }

    /// The state after the next descriptor has been started.
    pub open spec fn start(self) -> CoordinatorModel {
        CoordinatorModel {
            started: self.started + 1,
            in_flight: self.in_flight.push(self.started as usize),
            ..self
        }
    }

    /// The state after the transfer at `index` is over with `outcome`.
    pub open spec fn complete(self, index: usize, outcome: OutcomeModel) -> CoordinatorModel {
        CoordinatorModel {
            in_flight: self.in_flight.remove(self.in_flight.index_of(index)),
            completed: self.completed.push(index),
            outcomes: self.outcomes.push(outcome),
            ..self
        }
    }
}

/// Removing the one occurrence of `value` leaves the other elements, each
/// once.
proof fn lemma_remove_distinct(s: Seq<usize>, value: usize)
    requires
        s.no_duplicates(),
        s.contains(value),
    ensures
        s.remove(s.index_of(value)).no_duplicates(),
        s.remove(s.index_of(value)).len() == s.len() - 1,
        forall|x: usize|
            #[trigger] s.remove(s.index_of(value)).contains(x) <==> (s.contains(x) && x != value),
{
    let at = s.index_of(value);
    let rest = s.remove(at);
    assert forall|x: usize| #[trigger] rest.contains(x) <==> (s.contains(x) && x != value) by {
        if rest.contains(x) {
            let j = choose|j: int| 0 <= j < rest.len() && rest[j] == x;
            if j < at {
                assert(s[j] == x);
            } else {
                assert(s[j + 1] == x);
            }
        }
        if s.contains(x) && x != value {
            let j = choose|j: int| 0 <= j < s.len() && s[j] == x;
            if j < at {
                assert(rest[j] == x);
            } else {
                assert(rest[j - 1] == x);
            }
        }
    }
}

/// Adding a value that is not there yet keeps the elements distinct and
/// adds that value, nothing else.
proof fn lemma_push_distinct(s: Seq<usize>, value: usize)
    requires
        s.no_duplicates(),
        !s.contains(value),
    ensures
        s.push(value).no_duplicates(),
        forall|x: usize| #[trigger] s.push(value).contains(x) <==> (s.contains(x) || x == value),
{
    let more = s.push(value);
    assert forall|x: usize| #[trigger] more.contains(x) <==> (s.contains(x) || x == value) by {
        if more.contains(x) {
            let j = choose|j: int| 0 <= j < more.len() && more[j] == x;
            if j < s.len() {
                assert(s[j] == x);
            }
        }
        if s.contains(x) {
            let j = choose|j: int| 0 <= j < s.len() && s[j] == x;
            assert(more[j] == x);
        }
        if x == value {
            assert(more[s.len() as int] == x);
        }
    }
    assert forall|a: int, b: int| 0 <= a < more.len() && 0 <= b < more.len() && a != b implies more[a]
        != more[b] by {
        if a < s.len() {
            assert(s.contains(s[a]));
        }
        if b < s.len() {
            assert(s.contains(s[b]));
        }
    }
}

/// Starting a transfer where one may start leads to a state of the batch
/// again: the number in flight stays within the limit.
pub proof fn lemma_start_keeps_wf(state: CoordinatorModel)
    requires
        state.wf(),
        state.can_start(),
        state.total() <= usize::MAX,
    ensures
        state.start().wf(),
{
    let index = state.started as usize;
    assert(!state.in_flight.contains(index));
    assert(!state.completed.contains(index));
    lemma_push_distinct(state.in_flight, index);
}

/// Completing a transfer that runs, with an outcome that speaks of its
/// descriptor, leads to a state of the batch again, with one transfer fewer
/// in flight and one outcome more.
pub proof fn lemma_complete_keeps_wf(state: CoordinatorModel, index: usize, outcome: OutcomeModel)
    requires
        state.wf(),
        state.in_flight.contains(index),
        belongs_to(outcome, state.plan[index as int]),
    ensures
        state.complete(index, outcome).wf(),
        state.complete(index, outcome).in_flight.len() == state.in_flight.len() - 1,
        state.complete(index, outcome).outcomes.len() == state.outcomes.len() + 1,
{
    let next = state.complete(index, outcome);
    lemma_remove_distinct(state.in_flight, index);
    assert(!state.completed.contains(index));
    lemma_push_distinct(state.completed, index);
    assert forall|j: int| 0 <= j < next.completed.len() implies belongs_to(
        #[trigger] next.outcomes[j],
        next.plan[next.completed[j] as int],
    ) by {
        if j < state.completed.len() {
            assert(belongs_to(state.outcomes[j], state.plan[state.completed[j] as int]));
        }
    }
    if state.limit == 1 {
        // The one transfer in flight is the one started last.
        let done = state.completed.len();
        assert(index < state.started);
        if index != done {
            assert(state.completed[index as int] == index);
            assert(state.completed.contains(index));
        }
        assert forall|j: int| 0 <= j < next.completed.len() implies #[trigger] next.completed[j]
            == j by {
            if j < done {
                assert(state.completed[j] == j);
            }
        }
    }
}

/// Once a batch is finished, every descriptor has exactly one outcome: the
/// completed positions are the positions of the batch, each once.
pub proof fn lemma_finished_covers_batch(state: CoordinatorModel)
    requires
        state.wf(),
        state.finished(),
    ensures
        state.outcomes.len() == state.total(),
        state.completed.len() == state.total(),
        state.completed.no_duplicates(),
        forall|i: usize| i < state.total() <==> #[trigger] state.completed.contains(i),
        successes(state.outcomes).len() + failures(state.outcomes).len() == state.total(),
{
    lemma_partition_is_total(state.outcomes);
    assert forall|i: usize| i < state.total() <==> #[trigger] state.completed.contains(i) by {
        if state.in_flight.contains(i) {
            let j = choose|j: int| 0 <= j < state.in_flight.len() && state.in_flight[j] == i;
        }
    }
}

/// In the result of a finished batch the descriptor at `position` has its
/// own entry: its transfer was the `turn`-th to complete, for one `turn`
/// only, and the outcome of that turn stands in the list of successes as
/// the descriptor's local path, or in the list of failures under the
/// descriptor's object key.
pub proof fn lemma_descriptor_has_its_entry(state: CoordinatorModel, position: usize)
    requires
        state.wf(),
        state.finished(),
        position < state.total(),
    ensures
        ({
            let turn = state.completed.index_of(position);
            let at = place(state.outcomes, turn);
            &&& 0 <= turn < state.total()
            &&& state.completed[turn] == position
            &&& forall|other: int|
                0 <= other < state.completed.len() && other != turn
                    ==> #[trigger] state.completed[other] != position
            &&& belongs_to(state.outcomes[turn], state.plan[position as int])
            &&& state.outcomes[turn] is Success ==> 0 <= at < successes(state.outcomes).len()
                && successes(state.outcomes)[at] == state.plan[position as int].local_path
            &&& state.outcomes[turn] is Failure ==> 0 <= at < failures(state.outcomes).len()
                && failures(state.outcomes)[at].0 == state.plan[position as int].object_key
        }),
{
    lemma_finished_covers_batch(state);
    assert(state.completed.contains(position));
    let turn = state.completed.index_of(position);
    assert(state.completed[turn] == position);
    assert(belongs_to(state.outcomes[turn], state.plan[state.completed[turn] as int]));
    lemma_partition_places_each(state.outcomes, turn);
}

/// A batch is never left hanging and never cut short: the directive is to
/// finish exactly when every descriptor has its outcome, and to wait only
/// while a transfer runs whose completion can arrive.
pub proof fn lemma_directive_makes_progress(state: CoordinatorModel)
    requires
        state.wf(),
        state.total() <= usize::MAX,
    ensures
        state.directive() is Finish <==> state.finished(),
        state.directive() is Wait ==> state.in_flight.len() > 0,
        state.directive() is Start ==> state.can_start() && state.directive()->index
            == state.started,
{
}

/// In any state of a batch no more transfers run than the limit allows, nor
/// more than the batch has descriptors.
pub proof fn lemma_in_flight_bounded(state: CoordinatorModel)
    requires
        state.wf(),
    ensures
        state.in_flight.len() <= state.limit,
        state.in_flight.len() <= state.total(),
{
}

/// With a limit of one the batch runs in sequence: at most one transfer at
/// a time, completed in submission order.
pub proof fn lemma_limit_one_is_sequential(state: CoordinatorModel)
    requires
        state.wf(),
        state.limit == 1,
    ensures
        state.in_flight.len() <= 1,
        forall|j: int| 0 <= j < state.completed.len() ==> #[trigger] state.completed[j] == j,
        state.in_flight.len() == 1 ==> state.in_flight[0] == state.started - 1,
{
    if state.in_flight.len() == 1 {
        let running = state.in_flight[0];
        assert(state.in_flight.contains(running));
        if running != state.started - 1 {
            assert(state.completed[running as int] == running);
            assert(state.completed.contains(running));
        }
    }
}

/// A batch in progress.
#[derive(Debug)]
pub struct Coordinator {
    plan: Vec<TransferDescriptor>,
    limit: usize,
    started: usize,
    in_flight: Vec<usize>,
    completed: Vec<usize>,
    outcomes: Vec<TransferOutcome>,
}

impl View for Coordinator {
    type V = CoordinatorModel;

    closed spec fn view(&self) -> CoordinatorModel {
        CoordinatorModel {
            plan: self.plan.deep_view(),
            limit: self.limit as nat,
            started: self.started as nat,
            in_flight: self.in_flight@,
            completed: self.completed@,
            outcomes: self.outcomes.deep_view(),
        }
    }
}

impl Coordinator {
    /// The batch of `plan`, of which at most `limit` descriptors are
    /// transferred at once. Nothing has started.
    pub fn new(plan: Vec<TransferDescriptor>, limit: usize) -> (coordinator: Coordinator)
        requires
            limit >= 1,
        ensures
            coordinator@ == CoordinatorModel::initial(plan.deep_view(), limit as nat),
            coordinator@.wf(),
    {
        let coordinator = Coordinator {
            plan,
            limit,
            started: 0,
            in_flight: Vec::new(),
            completed: Vec::new(),
            outcomes: Vec::new(),
        };
        assert(coordinator@.outcomes =~= Seq::empty());
        assert(coordinator@.in_flight =~= Seq::empty());
        assert(coordinator@.completed =~= Seq::empty());
        coordinator
    }

    /// How many descriptors the batch has.
    pub fn total(&self) -> (n: usize)
        ensures
            n == self@.total(),
    {
        self.plan.len()
    }

    /// How many transfers may run at once.
    pub fn limit(&self) -> (n: usize)
        ensures
            n == self@.limit,
    {
        self.limit
    }

    /// The descriptor at `index`.
    pub fn descriptor(&self, index: usize) -> (item: &TransferDescriptor)
        requires
            index < self@.total(),
        ensures
            item@ == self@.plan[index as int],
    {
        &self.plan[index]
    }

    /// How many transfers run now.
    pub fn in_flight_count(&self) -> (n: usize)
        ensures
            n == self@.in_flight.len(),
    {
        self.in_flight.len()
    }

    /// How many transfers are over.
    pub fn completed_count(&self) -> (n: usize)
        ensures
            n == self@.completed.len(),
    {
        self.completed.len()
    }

    /// Whether the transfer at `index` runs now.
    pub fn is_in_flight(&self, index: usize) -> (b: bool)
        ensures
            b == self@.in_flight.contains(index),
    {
        let mut i: usize = 0;
        while i < self.in_flight.len()
            invariant
                0 <= i <= self.in_flight.len(),
                forall|j: int| 0 <= j < i ==> self.in_flight@[j] != index,
            decreases self.in_flight.len() - i,
        {
            if self.in_flight[i] == index {
                return true;
            }
            i = i + 1;
        }
        false
    }

    /// What is to be done next.
    pub fn directive(&self) -> (directive: Directive)
        requires
            self@.wf(),
        ensures
            directive == self@.directive(),
    {
        if self.in_flight.len() < self.limit && self.started < self.plan.len() {
            Directive::Start { index: self.started }
        } else if self.in_flight.len() > 0 {
            Directive::Wait
        } else {
            Directive::Finish
        }
    }

    /// Whether every descriptor has its outcome.
    pub fn is_finished(&self) -> (b: bool)
        ensures
            b == self@.finished(),
    {
        self.started == self.plan.len() && self.in_flight.len() == 0
    }

    /// Marks the next descriptor as running and returns its position.
    pub fn start(&mut self) -> (index: usize)
        requires
            old(self)@.wf(),
            old(self)@.can_start(),
        ensures
            final(self)@ == old(self)@.start(),
            final(self)@.wf(),
            index == old(self)@.started,
    {
        let total = self.plan.len();
        proof {
            assert(self@.total() == total);
            lemma_start_keeps_wf(self@);
        }
        let index = self.started;
        self.in_flight.push(index);
        self.started = index + 1;
        index
    }

    /// Records how the transfer at `index` ended, and frees its slot. The
    /// outcome filed is that of the descriptor at `index`: its local path
    /// where the transfer went through, its object key and the error's text
    /// where it failed.
    pub fn complete(&mut self, index: usize, ended: Result<(), TransferError>)
        requires
            old(self)@.wf(),
            old(self)@.in_flight.contains(index),
        ensures
            final(self)@ == old(self)@.complete(
                index,
                outcome_of(old(self)@.plan[index as int], ended),
            ),
            final(self)@.wf(),
    {
        let outcome = TransferOutcome::of_item(&self.plan[index], ended);
        proof {
            lemma_complete_keeps_wf(self@, index, outcome@);
        }
        let mut at: usize = 0;
        while self.in_flight[at] != index
            invariant
                0 <= at < self.in_flight.len(),
                self.in_flight@.contains(index),
                forall|j: int| 0 <= j < at ==> self.in_flight@[j] != index,
            decreases self.in_flight.len() - at,
        {
            at = at + 1;
            proof {
                let j = choose|j: int| 0 <= j < self.in_flight@.len() && self.in_flight@[j] == index;
                assert(j >= at);
            }
        }
        proof {
            let chosen = self.in_flight@.index_of(index);
            assert(self.in_flight@[chosen] == index);
            assert(chosen == at);
        }
        self.in_flight.remove(at);
        self.completed.push(index);
        self.outcomes.push(outcome);
        assert(self@.outcomes =~= old(self)@.outcomes.push(outcome@));
    }

    /// Hands out the batch's result: the outcomes, in completion order, split
    /// into successes and failures. Every descriptor is in one of the two
    /// lists, once, by its own local path or object key.
    pub fn finish(self) -> (result: RustOperationResult)
        requires
            self@.wf(),
            self@.finished(),
        ensures
            result.successful.deep_view() == successes(self@.outcomes),
            result.failed.deep_view() == failures(self@.outcomes),
            result.successful.len() + result.failed.len() == self@.total(),
            self@.completed.len() == self@.total(),
            forall|j: int|
                0 <= j < self@.total() ==> belongs_to(
                    #[trigger] self@.outcomes[j],
                    self@.plan[self@.completed[j] as int],
                ),
    {
        proof {
            lemma_finished_covers_batch(self@);
        }
        aggregate(self.outcomes)
    }
}

} // verus!
