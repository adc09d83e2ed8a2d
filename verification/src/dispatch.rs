//! The books of the concurrent dispatch broker.
//!
//! A batch of independent requests goes out with a ceiling on how many are
//! in flight at once. The broker here decides and records: which request
//! starts next and whether one may start at all, and which outcome belongs to
//! which request. Whoever drives it performs the requests and reports each
//! outcome as it arrives, in whatever order that is.

use vstd::prelude::*;
use vstd::string::*;
use crate::openai::completion_view;
use crate::types::{ClientErrorView, LLMClientError};

verus! {

/// Where one request of a batch stands.
#[derive(Clone, Copy, Debug, PartialEq, Eq, Structural, Hash)]
pub enum Slot {
    /// Not started yet.
    Waiting,
    /// Started, outcome not reported yet.
    InFlight,
    /// Outcome reported.
    Done,
}

/// How one request ended, as plain values.
pub type OutcomeView = Result<Seq<char>, ClientErrorView>;

/// What a broker holds, as plain values.
pub struct BrokerView {
    /// The most requests that may be in flight at once.
    pub concurrency_limit: nat,
    /// Where each request of the batch stands, by its place in the batch.
    pub status: Seq<Slot>,
    /// How many requests have been started.
    pub started: nat,
    /// The outcomes reported so far, each with the place of its request, in
    /// the order in which they were reported.
    pub results: Seq<(nat, OutcomeView)>,
}

/// How many requests are in flight.
pub open spec fn in_flight_count(status: Seq<Slot>) -> nat
    decreases status.len(),
{
    if status.len() == 0 {
        0
    } else {
        in_flight_count(status.drop_last()) + if status.last() == Slot::InFlight {
            1nat
        } else {
            0nat
        }
    }
}

/// The books are in order: requests start in the order of the batch, no more
/// are in flight than the limit allows, and every reported outcome belongs to
/// one finished request, each finished request to one reported outcome.
pub open spec fn well_formed(broker: BrokerView) -> bool {
    &&& broker.started <= broker.status.len()
    &&& forall|i: int|
        0 <= i < broker.status.len() ==> (i < broker.started <==> #[trigger] broker.status[i]
            != Slot::Waiting)
    &&& in_flight_count(broker.status) <= broker.concurrency_limit
    &&& broker.results.len() + in_flight_count(broker.status) == broker.started
    &&& forall|k: int|
        0 <= k < broker.results.len() ==> (#[trigger] broker.results[k]).0 < broker.status.len()
            && broker.status[broker.results[k].0 as int] == Slot::Done
    &&& forall|j: int, k: int|
        0 <= j < k < broker.results.len() ==> (#[trigger] broker.results[j]).0 != (
        #[trigger] broker.results[k]).0
    &&& forall|i: int|
        0 <= i < broker.status.len() && #[trigger] broker.status[i] == Slot::Done ==> has_result(
            broker,
            i,
        )
}

/// Whether an outcome has been reported for the request at place `i`.
pub open spec fn has_result(broker: BrokerView, i: int) -> bool {
    exists|k: int| 0 <= k < broker.results.len() && (#[trigger] broker.results[k]).0 == i
}

/// The outcome reported for the request at place `i`, if one has been.
pub open spec fn result_of(broker: BrokerView, i: int) -> Option<OutcomeView> {
    if has_result(broker, i) {
        let k = choose|k: int| 0 <= k < broker.results.len() && (#[trigger] broker.results[k]).0 == i;
        Some(broker.results[k].1)
    } else {
        None
    }
}

/// A broker for a batch of `total` requests, none of them started.
pub open spec fn opened(total: nat, concurrency_limit: nat) -> BrokerView {
    BrokerView {
        concurrency_limit,
        status: Seq::new(total, |i: int| Slot::Waiting),
        started: 0,
        results: Seq::empty(),
    }
}

/// Whether another request may start: one is waiting, and the limit leaves
/// room.
pub open spec fn may_start(broker: BrokerView) -> bool {
    broker.started < broker.status.len() && in_flight_count(broker.status)
        < broker.concurrency_limit
}

/// The books after the next waiting request has started.
pub open spec fn after_start(broker: BrokerView) -> BrokerView {
    BrokerView {
        status: broker.status.update(broker.started as int, Slot::InFlight),
        started: broker.started + 1,
        ..broker
    }
}

/// Whether an outcome for the request at place `index` is taken: only a
/// request in flight has one to report.
pub open spec fn may_complete(broker: BrokerView, index: int) -> bool {
    0 <= index < broker.status.len() && broker.status[index] == Slot::InFlight
}

/// The books after the request at place `index` has reported `outcome`.
pub open spec fn after_complete(broker: BrokerView, index: int, outcome: OutcomeView) -> BrokerView {
    BrokerView {
        status: broker.status.update(index, Slot::Done),
        results: broker.results.push((index as nat, outcome)),
        ..broker
    }
}

/// Whether the batch is through: every request started, none in flight.
pub open spec fn finished(broker: BrokerView) -> bool {
    broker.started == broker.status.len() && in_flight_count(broker.status) == 0
}

/// Changing where one request stands changes the number in flight by that
/// request alone.
pub proof fn lemma_count_after_update(status: Seq<Slot>, i: int, slot: Slot)
    requires
        0 <= i < status.len(),
    ensures
        in_flight_count(status.update(i, slot)) + (if status[i] == Slot::InFlight {
            1nat
        } else {
            0nat
        }) == in_flight_count(status) + (if slot == Slot::InFlight {
            1nat
        } else {
            0nat
        }),
    decreases status.len(),
{
    let updated = status.update(i, slot);
    if i == status.len() - 1 {
        assert(updated.drop_last() == status.drop_last());
    } else {
        lemma_count_after_update(status.drop_last(), i, slot);
        assert(updated.drop_last() == status.drop_last().update(i, slot));
    }
}

/// No more requests are in flight than there are requests, and where none is
/// in flight no request stands as such.
pub proof fn lemma_count_bounds(status: Seq<Slot>)
    ensures
        in_flight_count(status) <= status.len(),
        in_flight_count(status) == 0 ==> forall|i: int|
            0 <= i < status.len() ==> #[trigger] status[i] != Slot::InFlight,
        (forall|i: int| 0 <= i < status.len() ==> #[trigger] status[i] != Slot::InFlight)
            ==> in_flight_count(status) == 0,
    decreases status.len(),
{
    if status.len() > 0 {
        lemma_count_bounds(status.drop_last());
        assert forall|i: int|
            in_flight_count(status) == 0 && 0 <= i < status.len() implies #[trigger] status[i]
            != Slot::InFlight by {
            if i < status.len() - 1 {
                assert(status.drop_last()[i] == status[i]);
            }
        }
        if forall|i: int| 0 <= i < status.len() ==> #[trigger] status[i] != Slot::InFlight {
            assert forall|i: int| 0 <= i < status.drop_last().len() implies #[trigger] status.drop_last()[i]
                != Slot::InFlight by {
                assert(status[i] != Slot::InFlight);
            }
        }
    }
}

/// A freshly opened broker has its books in order.
pub proof fn lemma_opened_well_formed(total: nat, concurrency_limit: nat)
    ensures
        well_formed(opened(total, concurrency_limit)),
        in_flight_count(opened(total, concurrency_limit).status) == 0,
{
    lemma_count_bounds(opened(total, concurrency_limit).status);
}

/// Starting a request keeps the books in order: in particular the number in
/// flight stays within the limit.
pub proof fn lemma_start_keeps_order(broker: BrokerView)
    requires
        well_formed(broker),
        may_start(broker),
    ensures
        well_formed(after_start(broker)),
        in_flight_count(after_start(broker).status) == in_flight_count(broker.status) + 1,
        after_start(broker).results == broker.results,
{
    let after = after_start(broker);
    lemma_count_after_update(broker.status, broker.started as int, Slot::InFlight);
    assert(broker.status[broker.started as int] == Slot::Waiting);
    assert forall|i: int|
        0 <= i < after.status.len() && #[trigger] after.status[i] == Slot::Done implies has_result(
        after,
        i,
    ) by {
        assert(broker.status[i] == Slot::Done);
        let k = choose|k: int| 0 <= k < broker.results.len() && (#[trigger] broker.results[k]).0 == i;
        assert(after.results[k].0 == i);
    }
}

/// Reporting an outcome keeps the books in order, frees one place under the
/// limit, and records the outcome for its request and no other.
pub proof fn lemma_complete_keeps_order(broker: BrokerView, index: int, outcome: OutcomeView)
    requires
        well_formed(broker),
        may_complete(broker, index),
    ensures
        well_formed(after_complete(broker, index, outcome)),
        in_flight_count(after_complete(broker, index, outcome).status) + 1 == in_flight_count(
            broker.status,
        ),
        result_of(after_complete(broker, index, outcome), index) == Some(outcome),
        forall|other: int|
            other != index ==> #[trigger] result_of(after_complete(broker, index, outcome), other)
                == result_of(broker, other),
{
    let after = after_complete(broker, index, outcome);
    lemma_count_after_update(broker.status, index, Slot::Done);
    assert(!has_result(broker, index)) by {
        if has_result(broker, index) {
            let k = choose|k: int|
                0 <= k < broker.results.len() && (#[trigger] broker.results[k]).0 == index;
            assert(broker.status[broker.results[k].0 as int] == Slot::Done);
        }
    }
    assert forall|k: int| 0 <= k < after.results.len() implies (#[trigger] after.results[k]).0
        < after.status.len() && after.status[after.results[k].0 as int] == Slot::Done by {
        if k < broker.results.len() {
            assert(after.results[k] == broker.results[k]);
        }
    }
    assert forall|j: int, k: int| 0 <= j < k < after.results.len() implies (
    #[trigger] after.results[j]).0 != (#[trigger] after.results[k]).0 by {
        assert(after.results[j] == broker.results[j]);
        if k < broker.results.len() {
            assert(after.results[k] == broker.results[k]);
        } else {
            assert(broker.results[j].0 != index);
        }
    }
    let last = broker.results.len() as int;
    assert(after.results[last].0 == index);
    assert forall|i: int|
        0 <= i < after.status.len() && #[trigger] after.status[i] == Slot::Done implies has_result(
        after,
        i,
    ) by {
        if i != index {
            assert(broker.status[i] == Slot::Done);
            let k = choose|k: int|
                0 <= k < broker.results.len() && (#[trigger] broker.results[k]).0 == i;
            assert(after.results[k].0 == i);
        }
    }
    assert(result_of(after, index) == Some(outcome)) by {
        let k = choose|k: int|
            0 <= k < after.results.len() && (#[trigger] after.results[k]).0 == index;
        if k < last {
            assert(after.results[k] == broker.results[k]);
        }
    }
    assert forall|other: int| other != index implies #[trigger] result_of(after, other)
        == result_of(broker, other) by {
        if has_result(broker, other) {
            let k = choose|k: int|
                0 <= k < broker.results.len() && (#[trigger] broker.results[k]).0 == other;
            assert(after.results[k].0 == other);
            let found = choose|k: int|
                0 <= k < after.results.len() && (#[trigger] after.results[k]).0 == other;
            assert(found < last);
            assert(after.results[found] == broker.results[found]);
            if found < k {
                assert(broker.results[found].0 != broker.results[k].0);
            } else if k < found {
                assert(broker.results[k].0 != broker.results[found].0);
            }
        } else {
            if has_result(after, other) {
                let found = choose|k: int|
                    0 <= k < after.results.len() && (#[trigger] after.results[k]).0 == other;
                assert(found < last);
                assert(broker.results[found].0 == other);
            }
        }
    }
}

/// The number in flight never passes the limit.
pub proof fn lemma_in_flight_within_limit(broker: BrokerView)
    requires
        well_formed(broker),
    ensures
        in_flight_count(broker.status) <= broker.concurrency_limit,
{
}

/// When the batch is through, every request has its outcome, and has it
/// once: there are as many outcomes as requests, and no two belong to the
/// same request.
pub proof fn lemma_finished_has_each_result_once(broker: BrokerView)
    requires
        well_formed(broker),
        finished(broker),
    ensures
        broker.results.len() == broker.status.len(),
        forall|i: int| 0 <= i < broker.status.len() ==> #[trigger] has_result(broker, i),
        forall|j: int, k: int|
            0 <= j < broker.results.len() && 0 <= k < broker.results.len() && (
            #[trigger] broker.results[j]).0 == (#[trigger] broker.results[k]).0 ==> j == k,
{
    lemma_count_bounds(broker.status);
    assert forall|i: int| 0 <= i < broker.status.len() implies #[trigger] has_result(
        broker,
        i,
    ) by {
        assert(broker.status[i] != Slot::Waiting);
        assert(broker.status[i] != Slot::InFlight);
        assert(broker.status[i] == Slot::Done);
    }
    assert forall|j: int, k: int|
        0 <= j < broker.results.len() && 0 <= k < broker.results.len() && (
        #[trigger] broker.results[j]).0 == (#[trigger] broker.results[k]).0 implies j == k by {
        if j < k {
            assert(broker.results[j].0 != broker.results[k].0);
        } else if k < j {
            assert(broker.results[k].0 != broker.results[j].0);
        }
    }
}

/// With room for at least one request, a batch that is not through can
/// always move: a request may start, or one is in flight and will report.
pub proof fn lemma_never_stuck(broker: BrokerView)
    requires
        well_formed(broker),
        broker.concurrency_limit > 0,
        !finished(broker),
    ensures
        may_start(broker) || in_flight_count(broker.status) > 0,
{
}

/// The view of how one request ended.
pub open spec fn outcome_view(outcome: Result<String, LLMClientError>) -> OutcomeView {
    completion_view(outcome)
}

/// The views of the reported outcomes.
pub open spec fn result_views(results: Seq<(usize, Result<String, LLMClientError>)>) -> Seq<
    (nat, OutcomeView),
> {
    Seq::new(results.len(), |k: int| (results[k].0 as nat, outcome_view(results[k].1)))
}

/// The books of one batch.
#[derive(Debug)]
pub struct DispatchBroker {
    concurrency_limit: usize,
    status: Vec<Slot>,
    started: usize,
    in_flight: usize,
    results: Vec<(usize, Result<String, LLMClientError>)>,
}

impl View for DispatchBroker {
    type V = BrokerView;

    closed spec fn view(&self) -> BrokerView {
        BrokerView {
            concurrency_limit: self.concurrency_limit as nat,
            status: self.status@,
            started: self.started as nat,
            results: result_views(self.results@),
        }
    }
}

impl DispatchBroker {
    /// The books are in order.
    pub closed spec fn well_formed(&self) -> bool {
        well_formed(self@) && self.in_flight == in_flight_count(self.status@)
    }

    /// Books that are in order as the broker keeps them are in order as
    /// their view shows them.
    pub proof fn lemma_books_in_order(self)
        requires
            self.well_formed(),
        ensures
            well_formed(self@),
    {
    }

    /// Opens the books for a batch of `total` requests, of which at most
    /// `concurrency_limit` may be in flight at once.
    pub fn new(total: usize, concurrency_limit: usize) -> (broker: Self)
        ensures
            broker.well_formed(),
            broker@ == opened(total as nat, concurrency_limit as nat),
            in_flight_count(broker@.status) == 0,
    {
        let mut status: Vec<Slot> = Vec::new();
        let mut i: usize = 0;
        while i < total
            invariant
                i <= total,
                status@ == Seq::new(i as nat, |k: int| Slot::Waiting),
            decreases total - i,
        {
            status.push(Slot::Waiting);
            i += 1;
        }
        let broker = Self {
            concurrency_limit,
            status,
            started: 0,
            in_flight: 0,
            results: Vec::new(),
        };
        proof {
            lemma_opened_well_formed(total as nat, concurrency_limit as nat);
            assert(broker@.results =~= Seq::empty());
        }
        broker
    }

    /// How many requests the batch holds.
    pub fn total(&self) -> (total: usize)
        ensures
            total == self@.status.len(),
    {
        self.status.len()
    }

    /// The most requests that may be in flight at once.
    pub fn concurrency_limit(&self) -> (limit: usize)
        ensures
            limit == self@.concurrency_limit,
    {
        self.concurrency_limit
    }

    /// How many requests are in flight: never more than the limit.
    pub fn in_flight(&self) -> (count: usize)
        requires
            self.well_formed(),
        ensures
            count == in_flight_count(self@.status),
            count <= self@.concurrency_limit,
    {
        self.in_flight
    }

    /// Where the request at place `index` stands.
    pub fn status(&self, index: usize) -> (slot: Option<Slot>)
        ensures
            slot == if index < self@.status.len() {
                Some(self@.status[index as int])
            } else {
                None::<Slot>
            },
    {
        if index < self.status.len() {
            Some(self.status[index])
        } else {
            None
        }
    }

    /// Starts the next waiting request where the limit leaves room, and says
    /// which one it is. Where nothing may start, nothing changes.
    pub fn next_request(&mut self) -> (index: Option<usize>)
        requires
            old(self).well_formed(),
        ensures
            final(self).well_formed(),
            match index {
                Some(index) => may_start(old(self)@) && index == old(self)@.started
                    && final(self)@ == after_start(old(self)@) && in_flight_count(
                    final(self)@.status,
                ) == in_flight_count(old(self)@.status) + 1,
                None => !may_start(old(self)@) && final(self)@ == old(self)@,
            },
    {
        if self.started < self.status.len() && self.in_flight < self.concurrency_limit {
            let index = self.started;
            proof {
                lemma_start_keeps_order(self@);
            }
            self.status.set(index, Slot::InFlight);
            self.started = index + 1;
            self.in_flight = self.in_flight + 1;
            Some(index)
        } else {
            None
        }
    }

    /// Records `outcome` for the request at place `index` and frees its place
    /// under the limit. An outcome for a request that is not in flight is
    /// turned away, and nothing changes.
    pub fn complete(&mut self, index: usize, outcome: Result<String, LLMClientError>) -> (taken:
        bool)
        requires
            old(self).well_formed(),
        ensures
            final(self).well_formed(),
            taken == may_complete(old(self)@, index as int),
            final(self)@ == if taken {
                after_complete(old(self)@, index as int, outcome_view(outcome))
            } else {
                old(self)@
            },
            in_flight_count(final(self)@.status) + (if taken {
                1nat
            } else {
                0nat
            }) == in_flight_count(old(self)@.status),
    {
        if index < self.status.len() && self.status[index] == Slot::InFlight {
            proof {
                lemma_complete_keeps_order(self@, index as int, outcome_view(outcome));
                lemma_count_bounds(self.status@);
            }
            self.status.set(index, Slot::Done);
            self.in_flight = self.in_flight - 1;
            self.results.push((index, outcome));
            assert(result_views(self.results@) == result_views(old(self).results@).push(
                (index as nat, outcome_view(outcome)),
            ));
            true
        } else {
            false
        }
    }

    /// Whether the batch is through.
    pub fn is_finished(&self) -> (through: bool)
        requires
            self.well_formed(),
        ensures
            through == finished(self@),
    {
        self.started == self.status.len() && self.in_flight == 0
    }

    /// The outcomes reported so far, each with the place of its request, in
    /// the order in which they were reported.
    pub fn results(&self) -> (results: &[(usize, Result<String, LLMClientError>)])
        ensures
            result_views(results@) == self@.results,
    {
        self.results.as_slice()
    }

    /// Closes the books and hands out the outcomes, each with the place of
    /// its request, in the order in which they were reported.
    pub fn into_results(self) -> (results: Vec<(usize, Result<String, LLMClientError>)>)
        ensures
            result_views(results@) == self@.results,
    {
        self.results
    }
}

} // verus!
