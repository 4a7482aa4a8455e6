//! Waiting for an index operation to take effect: the decisions of the wait,
//! apart from the calls and the sleeping that carry it out.
//!
//! The caller issues the operation, then asks the store for the status, and
//! hands each answer to [`poll_step`] as an event. The state that comes back
//! says whether the wait is over; [`next_action`] says what to do next. Not
//! a call is made here and no time passes here.

use crate::data_types::Db;
use crate::text::{same_text, signed_decimal, signed_decimal_string};
use crate::utils::errors::{ErrorView, PineconeClientError};
use vstd::prelude::*;
use vstd::string::*;

verus! {

/// The timeout, in seconds, of a wait whose caller names none.
pub const DEFAULT_TIMEOUT: u64 = 300;

/// The seconds to sleep between two checks of the status.
pub const POLL_INTERVAL: u64 = 5;

/// The timeout that asks for no wait at all.
pub const NO_WAIT: i32 = -1;

/// Where a wait stands. All but `Polling` are final.
#[derive(Clone, Copy, Debug, PartialEq, Eq, Structural)]
pub enum PollStatus {
    Polling,
    Succeeded,
    TimedOut,
    Cancelled,
    Failed,
}

/// The state of one wait.
#[derive(Clone, Copy, Debug, PartialEq, Eq, Structural)]
pub struct PollState {
    pub status: PollStatus,
    /// The seconds since the wait began, as of the last check.
    pub elapsed: u64,
    /// The seconds after which the wait gives up.
    pub deadline: u64,
    /// Whether the last check saw a request to cancel.
    pub cancellation_observed: bool,
}

/// What to do once the operation is issued.
#[derive(Clone, Copy, Debug, PartialEq, Eq, Structural)]
pub enum WaitPlan {
    /// Return at once, without a check of the status.
    NoWait,
    /// Check the status until the wait is over, from this state on.
    Poll(PollState),
}

/// What one check of the status brought.
#[derive(Clone, Copy, Debug, PartialEq, Eq)]
pub enum PollEvent {
    /// The store answered.
    Checked {
        /// Whether the answer shows what the wait is for.
        satisfied: bool,
        /// Whether a request to cancel was seen; `None` where the host has no
        /// means to make one.
        cancellation: Option<bool>,
        /// The seconds since the wait began, a second that has begun counted
        /// in full: the wait is late as soon as the deadline is passed.
        elapsed: u64,
    },
    /// The check itself failed.
    CheckFailed,
}

/// What the caller does next.
#[derive(Clone, Copy, Debug, PartialEq, Eq, Structural)]
pub enum PollAction {
    /// Sleep this many seconds, then check the status again.
    Sleep(u64),
    /// Stop: the wait is over.
    Stop,
}

/// The operation that a wait is for.
#[derive(Clone, Copy, Debug, PartialEq, Eq, Structural)]
pub enum LifecycleOperation {
    CreateIndex,
    DeleteIndex,
}

/// The state in which a wait with this deadline begins.
pub open spec fn initial(deadline: u64) -> PollState {
    PollState { status: PollStatus::Polling, elapsed: 0, deadline, cancellation_observed: false }
}

/// The timeouts that a wait takes, as the error for another one names them.
pub open spec fn accepted_timeouts() -> Seq<char> {
    "-1, for no wait, or a number of seconds that is not negative"@
}

/// The plan for a timeout: an error below -1, no wait at -1, and else a wait
/// with the timeout, or the default where none is named, as its deadline.
pub open spec fn plan_for(timeout: Option<i32>) -> Result<WaitPlan, ErrorView> {
    match timeout {
        Some(seconds) => if seconds < NO_WAIT {
            Err(
                ErrorView::ArgumentError {
                    name: "timeout"@,
                    found: signed_decimal(seconds as int),
                    expected: accepted_timeouts(),
                },
            )
        } else if seconds == NO_WAIT {
            Ok(WaitPlan::NoWait)
        } else {
            Ok(WaitPlan::Poll(initial(seconds as u64)))
        },
        None => Ok(WaitPlan::Poll(initial(DEFAULT_TIMEOUT))),
    }
}

/// Whether a check saw a request to cancel.
pub open spec fn cancels(event: PollEvent) -> bool {
    event matches PollEvent::Checked { cancellation, .. } && cancellation == Some(true)
}

/// The state after one check. A wait that is over stays as it is. A failed
/// check fails the wait. Else the wait succeeds if the answer satisfies it,
/// is cancelled if a request to cancel was seen, times out if the elapsed
/// time is beyond the deadline, and goes on otherwise, in this order.
pub open spec fn step(state: PollState, event: PollEvent) -> PollState {
    if !(state.status is Polling) {
        state
    } else {
        match event {
            PollEvent::CheckFailed => PollState { status: PollStatus::Failed, ..state },
            PollEvent::Checked { satisfied, cancellation, elapsed } => PollState {
                status: if satisfied {
                    PollStatus::Succeeded
                } else if cancels(event) {
                    PollStatus::Cancelled
                } else if elapsed > state.deadline {
                    PollStatus::TimedOut
                } else {
                    PollStatus::Polling
                },
                elapsed,
                deadline: state.deadline,
                cancellation_observed: cancels(event),
            },
        }
    }
}

/// What follows a state: a sleep of the interval while the wait goes on.
pub open spec fn action_after(state: PollState) -> PollAction {
    if state.status is Polling {
        PollAction::Sleep(POLL_INTERVAL)
    } else {
        PollAction::Stop
    }
}

/// The state after the first `upto` events.
pub open spec fn run(state: PollState, events: Seq<PollEvent>, upto: int) -> PollState
    decreases upto,
{
    if upto <= 0 {
        state
    } else {
        step(run(state, events, upto - 1), events[upto - 1])
    }
}

/// How many of the first `upto` events a wait takes in: its checks of the
/// status. Events that come once the wait is over are not taken in.
pub open spec fn checks(state: PollState, events: Seq<PollEvent>, upto: int) -> nat
    decreases upto,
{
    if upto <= 0 {
        0
    } else {
        let taken: nat = if run(state, events, upto - 1).status is Polling {
            1
        } else {
            0
        };
        checks(state, events, upto - 1) + taken
    }
}

/// How often a wait sleeps over the first `upto` events: once after each
/// check that leaves it going on.
pub open spec fn sleeps(state: PollState, events: Seq<PollEvent>, upto: int) -> nat
    decreases upto,
{
    if upto <= 0 {
        0
    } else {
        let slept: nat = if run(state, events, upto - 1).status is Polling && run(
            state,
            events,
            upto,
        ).status is Polling {
            1
        } else {
            0
        };
        sleeps(state, events, upto - 1) + slept
    }
}

/// How many checks of the status a plan makes over the first `upto` events.
pub open spec fn plan_checks(plan: WaitPlan, events: Seq<PollEvent>, upto: int) -> nat {
    match plan {
        WaitPlan::NoWait => 0,
        WaitPlan::Poll(state) => checks(state, events, upto),
    }
}

/// The event is an answer that neither satisfies the wait nor cancels it.
pub open spec fn unsatisfied(event: PollEvent) -> bool {
    event matches PollEvent::Checked { satisfied, .. } && !satisfied && !cancels(event)
}

/// The seconds that an event reports.
pub open spec fn elapsed_of(event: PollEvent) -> int {
    match event {
        PollEvent::Checked { elapsed, .. } => elapsed as int,
        PollEvent::CheckFailed => 0,
    }
}

/// A wait that is over stays as it is, whatever follows.
pub proof fn lemma_final_stays(state: PollState, events: Seq<PollEvent>, from: int, upto: int)
    requires
        0 <= from <= upto,
        !(run(state, events, from).status is Polling),
    ensures
        run(state, events, upto) == run(state, events, from),
        checks(state, events, upto) == checks(state, events, from),
        sleeps(state, events, upto) == sleeps(state, events, from),
    decreases upto - from,
{
    if from < upto {
        lemma_final_stays(state, events, from, upto - 1);
    }
}

/// With the timeout -1 the status is never checked.
pub proof fn lemma_no_wait_checks_nothing(events: Seq<PollEvent>, upto: int)
    ensures
        plan_for(Some(NO_WAIT)) == Ok::<WaitPlan, ErrorView>(WaitPlan::NoWait),
        plan_checks(plan_for(Some(NO_WAIT))->Ok_0, events, upto) == 0,
{
}

/// A wait whose first check is satisfied succeeds with one check and
/// without a sleep.
pub proof fn lemma_satisfied_at_once(deadline: u64, events: Seq<PollEvent>, upto: int)
    requires
        1 <= upto <= events.len(),
        events[0] matches PollEvent::Checked { satisfied, .. } && satisfied,
    ensures
        run(initial(deadline), events, upto).status is Succeeded,
        checks(initial(deadline), events, upto) == 1,
        sleeps(initial(deadline), events, upto) == 0,
{
    let start = initial(deadline);
    assert(run(start, events, 0) == start);
    assert(run(start, events, 1) == step(start, events[0]));
    assert(checks(start, events, 0) == 0);
    assert(checks(start, events, 1) == 1);
    assert(sleeps(start, events, 0) == 0);
    assert(sleeps(start, events, 1) == 0);
    lemma_final_stays(start, events, 1, upto);
}

/// While the answers neither satisfy nor cancel and each check comes no
/// later than the sleeps before it allow, a wait that goes on has made one
/// check for each event, and one that is over has timed out after more
/// checks than the deadline holds intervals.
proof fn lemma_unsatisfied_run(deadline: u64, events: Seq<PollEvent>, upto: int)
    requires
        0 <= upto <= events.len(),
        forall|i: int| 0 <= i < upto ==> unsatisfied(#[trigger] events[i]),
        forall|i: int| 0 <= i < upto ==> elapsed_of(#[trigger] events[i]) <= POLL_INTERVAL * i,
    ensures
        run(initial(deadline), events, upto).status is Polling ==> checks(
            initial(deadline),
            events,
            upto,
        ) == upto,
        !(run(initial(deadline), events, upto).status is Polling) ==> {
            &&& run(initial(deadline), events, upto).status is TimedOut
            &&& checks(initial(deadline), events, upto) <= upto
            &&& POLL_INTERVAL * (checks(initial(deadline), events, upto) - 1) > deadline
        },
        run(initial(deadline), events, upto).deadline == deadline,
    decreases upto,
{
    if upto > 0 {
        lemma_unsatisfied_run(deadline, events, upto - 1);
        let before = run(initial(deadline), events, upto - 1);
        assert(unsatisfied(events[upto - 1]));
        assert(elapsed_of(events[upto - 1]) <= POLL_INTERVAL * (upto - 1));
    }
}

/// A wait that is never satisfied and never cancelled, and whose clock
/// moves only while it sleeps, can only end by timing out, and not before it
/// has made as many checks as the deadline holds intervals, rounded up.
pub proof fn lemma_times_out_late(deadline: u64, events: Seq<PollEvent>, upto: int)
    requires
        0 <= upto <= events.len(),
        forall|i: int| 0 <= i < upto ==> unsatisfied(#[trigger] events[i]),
        forall|i: int| 0 <= i < upto ==> elapsed_of(#[trigger] events[i]) <= POLL_INTERVAL * i,
        !(run(initial(deadline), events, upto).status is Polling),
    ensures
        run(initial(deadline), events, upto).status is TimedOut,
        deadline <= POLL_INTERVAL * checks(initial(deadline), events, upto),
        sleeps(initial(deadline), events, upto) + 1 == checks(initial(deadline), events, upto),
{
    lemma_unsatisfied_run(deadline, events, upto);
    lemma_sleeps_between_checks(deadline, events, upto);
}

/// A wait sleeps once between two checks: as often as it checks while it
/// goes on, and once less when it is over.
proof fn lemma_sleeps_between_checks(deadline: u64, events: Seq<PollEvent>, upto: int)
    requires
        0 <= upto <= events.len(),
    ensures
        run(initial(deadline), events, upto).status is Polling ==> sleeps(
            initial(deadline),
            events,
            upto,
        ) == checks(initial(deadline), events, upto),
        !(run(initial(deadline), events, upto).status is Polling) ==> sleeps(
            initial(deadline),
            events,
            upto,
        ) + 1 == checks(initial(deadline), events, upto),
    decreases upto,
{
    if upto > 0 {
        lemma_sleeps_between_checks(deadline, events, upto - 1);
    }
}

/// A wait that is never satisfied and never cancelled times out with the
/// first check that comes after the deadline.
pub proof fn lemma_times_out(deadline: u64, events: Seq<PollEvent>, upto: int, late: int)
    requires
        0 <= late < upto <= events.len(),
        forall|i: int| 0 <= i < upto ==> unsatisfied(#[trigger] events[i]),
        elapsed_of(events[late]) > deadline,
    ensures
        run(initial(deadline), events, upto).status is TimedOut,
{
    lemma_over_by(deadline, events, late + 1, late);
    lemma_final_stays(initial(deadline), events, late + 1, upto);
}

proof fn lemma_over_by(deadline: u64, events: Seq<PollEvent>, upto: int, late: int)
    requires
        0 <= late < upto <= events.len(),
        forall|i: int| 0 <= i < upto ==> unsatisfied(#[trigger] events[i]),
        elapsed_of(events[late]) > deadline,
    ensures
        run(initial(deadline), events, upto).status is TimedOut,
        run(initial(deadline), events, upto).deadline == deadline,
    decreases upto,
{
    lemma_stays_unsatisfied(deadline, events, upto - 1);
    if late < upto - 1 {
        lemma_over_by(deadline, events, upto - 1, late);
    } else {
        assert(unsatisfied(events[late]));
    }
}

proof fn lemma_stays_unsatisfied(deadline: u64, events: Seq<PollEvent>, upto: int)
    requires
        0 <= upto <= events.len(),
        forall|i: int| 0 <= i < upto ==> unsatisfied(#[trigger] events[i]),
    ensures
        run(initial(deadline), events, upto).status is Polling || run(
            initial(deadline),
            events,
            upto,
        ).status is TimedOut,
        run(initial(deadline), events, upto).deadline == deadline,
    decreases upto,
{
    if upto > 0 {
        lemma_stays_unsatisfied(deadline, events, upto - 1);
        assert(unsatisfied(events[upto - 1]));
    }
}

/// The outcome of planning, with the error as its view.
pub open spec fn plan_outcome(r: Result<WaitPlan, PineconeClientError>) -> Result<
    WaitPlan,
    ErrorView,
> {
    match r {
        Ok(plan) => Ok(plan),
        Err(e) => Err(e@),
    }
}

/// Decides from the timeout whether and how long to wait. To be called
/// before the operation is issued: a timeout that is refused must keep the
/// operation from being issued.
pub fn plan_wait(timeout: Option<i32>) -> (r: Result<WaitPlan, PineconeClientError>)
    ensures
        plan_outcome(r) == plan_for(timeout),
{
    match timeout {
        Some(seconds) => {
            if seconds < NO_WAIT {
                Err(
                    PineconeClientError::ArgumentError {
                        name: String::from_str("timeout"),
                        found: signed_decimal_string(seconds as i64),
                        expected: String::from_str(
                            "-1, for no wait, or a number of seconds that is not negative",
                        ),
                    },
                )
            } else if seconds == NO_WAIT {
                Ok(WaitPlan::NoWait)
            } else {
                Ok(WaitPlan::Poll(PollState::begin(seconds as u64)))
            }
        },
        None => Ok(WaitPlan::Poll(PollState::begin(DEFAULT_TIMEOUT))),
    }
}

impl PollState {
    /// The state in which a wait with this deadline begins.
    pub fn begin(deadline: u64) -> (r: PollState)
        ensures
            r == initial(deadline),
    {
        PollState {
            status: PollStatus::Polling,
            elapsed: 0,
            deadline,
            cancellation_observed: false,
        }
    }

    /// Whether the wait is over.
    pub fn is_over(&self) -> (r: bool)
        ensures
            r == !(self.status is Polling),
    {
        match self.status {
            PollStatus::Polling => false,
            _ => true,
        }
    }
}

/// Takes in what one check of the status brought.
pub fn poll_step(state: PollState, event: PollEvent) -> (next: PollState)
    ensures
        next == step(state, event),
{
    if state.is_over() {
        return state;
    }
    match event {
        PollEvent::CheckFailed => PollState {
            status: PollStatus::Failed,
            elapsed: state.elapsed,
            deadline: state.deadline,
            cancellation_observed: state.cancellation_observed,
        },
        PollEvent::Checked { satisfied, cancellation, elapsed } => {
            let observed = match cancellation {
                Some(requested) => requested,
                None => false,
            };
            let status = if satisfied {
                PollStatus::Succeeded
            } else if observed {
                PollStatus::Cancelled
            } else if elapsed > state.deadline {
                PollStatus::TimedOut
            } else {
                PollStatus::Polling
            };
            PollState { status, elapsed, deadline: state.deadline, cancellation_observed: observed }
        },
    }
}

/// What the caller does after a check.
pub fn next_action(state: &PollState) -> (r: PollAction)
    ensures
        r == action_after(*state),
{
    if state.is_over() {
        PollAction::Stop
    } else {
        PollAction::Sleep(POLL_INTERVAL)
    }
}

/// The error with which a wait that ended in `status` ends, where the wait
/// itself makes one.
pub open spec fn error_of(operation: LifecycleOperation, status: PollStatus) -> Option<ErrorView> {
    match status {
        PollStatus::TimedOut => Some(
            ErrorView::OperationTimeout(
                match operation {
                    LifecycleOperation::CreateIndex =>
                        "Index creation timed out. Please call describe_index() to check status."@,
                    LifecycleOperation::DeleteIndex =>
                        "Index deletion timed out. Please call describe_index to check status."@,
                },
            ),
        ),
        PollStatus::Cancelled => Some(
            ErrorView::KeyboardInterrupt(
                "Interrupted. Index status unknown. Please call describe_index() to check status"@,
            ),
        ),
        _ => None,
    }
}

/// The error of optional error, as its view.
pub open spec fn error_view(e: Option<PineconeClientError>) -> Option<ErrorView> {
    match e {
        Some(e) => Some(e@),
        None => None,
    }
}

/// The error with which a wait that ended in `status` ends: one for a wait
/// that timed out and one for a wait that was cancelled. A wait that
/// succeeded has none, and a wait that failed ends with the error of the
/// check that failed, which the caller holds.
pub fn terminal_error(operation: LifecycleOperation, status: PollStatus) -> (r: Option<
    PineconeClientError,
>)
    ensures
        error_view(r) == error_of(operation, status),
{
    match status {
        PollStatus::TimedOut => {
            let text = match operation {
                LifecycleOperation::CreateIndex => String::from_str(
                    "Index creation timed out. Please call describe_index() to check status.",
                ),
                LifecycleOperation::DeleteIndex => String::from_str(
                    "Index deletion timed out. Please call describe_index to check status.",
                ),
            };
            Some(PineconeClientError::OperationTimeout(text))
        },
        PollStatus::Cancelled => Some(
            PineconeClientError::KeyboardInterrupt(
                String::from_str(
                    "Interrupted. Index status unknown. Please call describe_index() to check status",
                ),
            ),
        ),
        _ => None,
    }
}

/// Whether an index is ready, by its description.
pub open spec fn ready(status: Option<String>) -> bool {
    match status {
        Some(text) => text@ == "Ready"@,
        None => false,
    }
}

/// Whether the description of an index shows it ready: what a wait for the
/// creation of an index is for.
pub fn index_is_ready(db: &Db) -> (r: bool)
    ensures
        r == ready(db.status),
{
    match &db.status {
        Some(text) => same_text(text.as_str(), "Ready"),
        None => false,
    }
}

/// Whether a listing of indexes lacks `name`: what a wait for the deletion
/// of an index is for.
pub fn index_is_absent(names: &Vec<String>, name: &str) -> (r: bool)
    ensures
        r == forall|i: int| 0 <= i < names.len() ==> (#[trigger] names[i])@ != name@,
{
    let mut i: usize = 0;
    while i < names.len()
        invariant
            i <= names.len(),
            forall|j: int| 0 <= j < i ==> (#[trigger] names[j])@ != name@,
        decreases names.len() - i,
    {
        if same_text(names[i].as_str(), name) {
            return false;
        }
        i = i + 1;
    }
    true
}

} // verus!
