//! What holds of every run of a bridge, whatever is reported to it.

use crate::bridge::{
    first_action, run, transition, Action, Bridge, BridgeState, Event, Stage, StreamingOutcome,
};
use crate::format::QueryResponseFormat;
use vstd::prelude::*;

verus! {

/// Whether an action delivers the outcome.
pub open spec fn is_resolve(action: Action) -> bool {
    action is Resolve
}

/// Whether an action delivers `Ready`.
pub open spec fn is_ready(action: Action) -> bool {
    action == Action::Resolve(StreamingOutcome::Ready)
}

/// Whether an action opens, writes to, closes or gives up the byte pipe.
pub open spec fn uses_pipe(action: Action) -> bool {
    action is OpenEncoder || action is WriteBatch || action is Finish || action is Abort
}

/// Whether some action of `given` delivers the outcome.
pub open spec fn resolved(given: Seq<Action>) -> bool {
    exists|j: int| 0 <= j < given.len() && is_resolve(#[trigger] given[j])
}

/// Whether some action of `given` before position `end` delivers `Ready`.
pub open spec fn ready_before(given: Seq<Action>, end: int) -> bool {
    exists|j: int| 0 <= j < end && j < given.len() && is_ready(#[trigger] given[j])
}

/// The outcome is delivered at most once, and the pipe is used only after
/// `Ready` was delivered.
pub open spec fn well_ordered(given: Seq<Action>) -> bool {
    &&& forall|i: int, j: int|
        0 <= i < given.len() && 0 <= j < given.len() && is_resolve(#[trigger] given[i])
            && is_resolve(#[trigger] given[j]) ==> i == j
    &&& forall|i: int|
        0 <= i < given.len() && uses_pipe(#[trigger] given[i]) ==> ready_before(given, i)
}

/// What holds of a state together with the actions given up to it.
spec fn consistent(state: BridgeState, given: Seq<Action>) -> bool {
    &&& given.len() > 0
    &&& well_ordered(given)
    &&& state.stage() == Stage::Started ==> !resolved(given)
    &&& state.stage() == Stage::Succeeded ==> ready_before(given, given.len() as int)
    &&& state.stage() == Stage::Failed ==> resolved(given)
    &&& state.stage() == Stage::Closed ==> resolved(given)
}

proof fn lemma_step_consistent(
    state: BridgeState,
    given: Seq<Action>,
    event: Event,
    format: QueryResponseFormat,
)
    requires
        consistent(state, given),
    ensures
        consistent(transition(state, event, format).0, given.push(transition(state, event, format).1)),
{
    let action = transition(state, event, format).1;
    let after = given.push(action);
    let n = given.len() as int;
    if resolved(given) {
        let j = choose|j: int| 0 <= j < given.len() && is_resolve(#[trigger] given[j]);
        assert(is_resolve(after[j]));
    }
    if ready_before(given, n) {
        let j = choose|j: int| 0 <= j < n && j < given.len() && is_ready(#[trigger] given[j]);
        assert(is_ready(after[j]));
    }
    if is_resolve(action) {
        assert(is_resolve(after[n]));
    }
    assert forall|i: int| 0 <= i < after.len() && uses_pipe(#[trigger] after[i]) implies ready_before(
        after,
        i,
    ) by {
        let end = if i < n {
            i
        } else {
            n
        };
        assert(i < n ==> uses_pipe(given[i]));
        let j = choose|j: int| 0 <= j < end && j < given.len() && is_ready(#[trigger] given[j]);
        assert(is_ready(after[j]));
    }
}

proof fn lemma_run_consistent(events: Seq<Event>, format: QueryResponseFormat, attached: bool)
    ensures
        consistent(run(events, format, attached).0, run(events, format, attached).1),
        run(events, format, attached).1.len() == events.len() + 1,
    decreases events.len(),
{
    if events.len() == 0 {
        let given = seq![first_action(attached)];
        assert(!is_resolve(given[0]));
        assert(!uses_pipe(given[0]));
    } else {
        lemma_run_consistent(events.drop_last(), format, attached);
        let (state, given) = run(events.drop_last(), format, attached);
        lemma_step_consistent(state, given, events.last(), format);
    }
}

/// Over any reports whatever, every use of the byte pipe comes after the
/// delivery of `Ready`: no byte is written for a query whose execution has
/// not begun.
pub proof fn law_ready_before_first_byte(
    events: Seq<Event>,
    format: QueryResponseFormat,
    attached: bool,
    i: int,
)
    requires
        0 <= i <= events.len(),
        uses_pipe(run(events, format, attached).1[i]),
    ensures
        ready_before(run(events, format, attached).1, i),
{
    lemma_run_consistent(events, format, attached);
}

/// Over any reports whatever, the outcome is delivered at most once.
pub proof fn law_outcome_delivered_once(
    events: Seq<Event>,
    format: QueryResponseFormat,
    attached: bool,
    i: int,
    j: int,
)
    requires
        0 <= i <= events.len(),
        0 <= j <= events.len(),
        is_resolve(run(events, format, attached).1[i]),
        is_resolve(run(events, format, attached).1[j]),
    ensures
        i == j,
{
    lemma_run_consistent(events, format, attached);
}

/// A run in which `Failed` is delivered never uses the byte pipe, before or
/// after.
pub proof fn law_failed_never_uses_pipe(
    events: Seq<Event>,
    format: QueryResponseFormat,
    attached: bool,
    i: int,
    k: int,
)
    requires
        0 <= i <= events.len(),
        0 <= k <= events.len(),
        run(events, format, attached).1[i] matches Action::Resolve(StreamingOutcome::Failed(_)),
    ensures
        !uses_pipe(run(events, format, attached).1[k]),
{
    lemma_run_consistent(events, format, attached);
    let given = run(events, format, attached).1;
    if uses_pipe(given[k]) {
        let j = choose|j: int| 0 <= j < k && j < given.len() && is_ready(#[trigger] given[j]);
        assert(is_resolve(given[j]));
        assert(is_resolve(given[i]));
    }
}

/// The actions given over the first reports of a run stay as they are,
/// whatever is reported afterwards.
pub proof fn lemma_run_extends(
    events: Seq<Event>,
    more: Seq<Event>,
    format: QueryResponseFormat,
    attached: bool,
)
    ensures
        run(events + more, format, attached).1.len() == events.len() + more.len() + 1,
        forall|i: int|
            0 <= i <= events.len() ==> run(events + more, format, attached).1[i] == run(
                events,
                format,
                attached,
            ).1[i],
    decreases more.len(),
{
    lemma_run_consistent(events, format, attached);
    if more.len() == 0 {
        assert(events + more =~= events);
    } else {
        let all = events + more;
        assert(all.drop_last() =~= events + more.drop_last());
        lemma_run_extends(events, more.drop_last(), format, attached);
    }
}

/// A query that fails before commitment (while its connection is acquired,
/// while it is prepared, or while its execution is started) has `Failed`
/// delivered with the message of the failure, and whatever is reported
/// before or after, the byte pipe is never used.
pub proof fn law_failed_query_never_streams(
    events: Seq<Event>,
    message: String,
    more: Seq<Event>,
    format: QueryResponseFormat,
    attached: bool,
    k: int,
)
    requires
        run(events, format, attached).0.stage() == Stage::Started,
        0 <= k <= events.len() + 1 + more.len(),
    ensures
        run(events.push(Event::Failed(message)) + more, format, attached).1[events.len() as int + 1]
            == Action::Resolve(StreamingOutcome::Failed(message)),
        !uses_pipe(run(events.push(Event::Failed(message)) + more, format, attached).1[k]),
{
    let failing = events.push(Event::Failed(message));
    let all = failing + more;
    assert(failing.drop_last() =~= events);
    lemma_run_consistent(events, format, attached);
    assert(run(failing, format, attached).1[events.len() as int + 1] == Action::Resolve(
        StreamingOutcome::Failed(message),
    ));
    lemma_run_extends(failing, more, format, attached);
    law_failed_never_uses_pipe(all, format, attached, events.len() as int + 1, k);
}

/// Once `Failed` is delivered, and once the pipe is given up, a bridge only
/// stops: a failed query is not retried, and a response that broke off is
/// not written on.
pub proof fn law_only_stop_follows(
    events: Seq<Event>,
    more: Seq<Event>,
    format: QueryResponseFormat,
    attached: bool,
    k: int,
)
    requires
        run(events, format, attached).1.last() is Abort || run(
            events,
            format,
            attached,
        ).1.last() matches Action::Resolve(StreamingOutcome::Failed(_)),
        events.len() < k <= events.len() + more.len(),
    ensures
        run(events + more, format, attached).1[k] == Action::Stop,
    decreases more.len(),
{
    let shorter = events + more.drop_last();
    assert((events + more).drop_last() =~= shorter);
    lemma_run_consistent(shorter, format, attached);
    if k < events.len() + more.len() {
        law_only_stop_follows(events, more.drop_last(), format, attached, k);
    } else {
        lemma_last_action(events, format, attached);
        lemma_stopping(events, more.drop_last(), format, attached);
    }
}

/// The state a run ends in, where its last action gives up the pipe or
/// delivers `Failed`.
proof fn lemma_last_action(events: Seq<Event>, format: QueryResponseFormat, attached: bool)
    ensures
        run(events, format, attached).1.last() is Abort ==> run(events, format, attached).0
            == BridgeState::Aborting,
        run(events, format, attached).1.last() matches Action::Resolve(StreamingOutcome::Failed(_))
            ==> run(events, format, attached).0 == BridgeState::Rejecting,
{
    if events.len() > 0 {
        lemma_run_consistent(events.drop_last(), format, attached);
    }
}

/// From a state that awaits no more than an acknowledgement of the end, a
/// run stays among such states.
proof fn lemma_stopping(
    events: Seq<Event>,
    more: Seq<Event>,
    format: QueryResponseFormat,
    attached: bool,
)
    requires
        is_ending(run(events, format, attached).0),
    ensures
        is_ending(run(events + more, format, attached).0),
        more.len() > 0 ==> run(events + more, format, attached).0 == BridgeState::Closed,
    decreases more.len(),
{
    if more.len() == 0 {
        assert(events + more =~= events);
    } else {
        assert((events + more).drop_last() =~= events + more.drop_last());
        lemma_stopping(events, more.drop_last(), format, attached);
    }
}

/// Whether a state awaits no more than an acknowledgement of the end.
spec fn is_ending(state: BridgeState) -> bool {
    state == BridgeState::Aborting || state == BridgeState::Rejecting || state
        == BridgeState::Closed
}

/// A bridge that has left its first stage has delivered the outcome: exactly
/// one, by [`law_outcome_delivered_once`].
pub proof fn law_outcome_delivered(events: Seq<Event>, format: QueryResponseFormat, attached: bool)
    requires
        run(events, format, attached).0.stage() != Stage::Started,
    ensures
        resolved(run(events, format, attached).1),
        run(events, format, attached).0.stage() == Stage::Succeeded ==> ready_before(
            run(events, format, attached).1,
            events.len() as int + 1,
        ),
{
    lemma_run_consistent(events, format, attached);
    let given = run(events, format, attached).1;
    if ready_before(given, given.len() as int) {
        let j = choose|j: int|
            0 <= j < given.len() && j < given.len() && is_ready(#[trigger] given[j]);
        assert(is_resolve(given[j]));
    }
}

/// Whatever was reported to a bridge, the actions it gave deliver the outcome
/// at most once and use the byte pipe only after `Ready` was delivered.
pub proof fn law_bridge_is_well_ordered(bridge: &Bridge)
    requires
        bridge.wf(),
    ensures
        well_ordered(bridge.given()),
        bridge.state_spec().stage() != Stage::Started ==> resolved(bridge.given()),
{
    lemma_run_consistent(bridge.history(), bridge.format_spec(), bridge.attached_spec());
    if bridge.state_spec().stage() != Stage::Started {
        law_outcome_delivered(bridge.history(), bridge.format_spec(), bridge.attached_spec());
    }
}

/// Two bridges of one format and one setting that took the same reports
/// stand in the same state and gave the same actions: what a bridge asks for
/// depends on nothing else.
pub proof fn law_same_reports_same_actions(first: &Bridge, second: &Bridge)
    requires
        first.wf(),
        second.wf(),
        first.format_spec() == second.format_spec(),
        first.attached_spec() == second.attached_spec(),
        first.history() == second.history(),
    ensures
        first.state_spec() == second.state_spec(),
        first.given() == second.given(),
{
}

/// A bridge only moves forward: from `Started` to `Succeeded` or `Failed`,
/// and from either to `Closed`; it never passes from success to failure or
/// back.
pub proof fn law_stage_only_advances(state: BridgeState, event: Event, format: QueryResponseFormat)
    ensures
        state.stage().rank() <= transition(state, event, format).0.stage().rank(),
        state.stage().rank() == transition(state, event, format).0.stage().rank()
            ==> state.stage() == transition(state, event, format).0.stage(),
{
}

/// Closure is terminal: a closed bridge stays closed and asks for nothing
/// more, whatever is reported to it.
pub proof fn law_closed_is_final(event: Event, format: QueryResponseFormat)
    ensures
        transition(BridgeState::Closed, event, format) == (BridgeState::Closed, Action::Stop),
{
}

/// Every run begins by acquiring the request's own connection, with the
/// attached database as its catalog if there is one, and acquires none
/// after that.
pub proof fn law_connection_is_acquired_first(
    events: Seq<Event>,
    format: QueryResponseFormat,
    attached: bool,
    i: int,
)
    requires
        0 <= i <= events.len(),
    ensures
        run(events, format, attached).1[0] == first_action(attached),
        run(events, format, attached).1[i] is Acquire <==> i == 0,
    decreases events.len(),
{
    if events.len() > 0 {
        lemma_run_consistent(events.drop_last(), format, attached);
        if i < events.len() {
            law_connection_is_acquired_first(events.drop_last(), format, attached, i);
        } else {
            law_connection_is_acquired_first(events.drop_last(), format, attached, 0);
        }
    }
}

/// A failure before commitment, at whichever of the three steps, delivers
/// `Failed` with the collaborator's own message.
pub proof fn law_early_failure_is_delivered(
    state: BridgeState,
    message: String,
    format: QueryResponseFormat,
)
    requires
        state.stage() == Stage::Started,
    ensures
        transition(state, Event::Failed(message), format) == (
            BridgeState::Rejecting,
            Action::Resolve(StreamingOutcome::Failed(message)),
        ),
{
}

/// The reports of a query that succeeds with `batches` row batches.
pub open spec fn success_events(batches: nat) -> Seq<Event> {
    Seq::new(5 + batches, |i: int| Event::Done) + seq![Event::Exhausted, Event::Done]
}

/// The actions up to the point where `batches` row batches are written and
/// the next is asked for.
pub open spec fn streaming_actions(batches: nat, format: QueryResponseFormat, attached: bool) -> Seq<
    Action,
> {
    seq![
        first_action(attached),
        Action::Prepare,
        Action::Execute,
        Action::Resolve(StreamingOutcome::Ready),
        Action::OpenEncoder(format),
    ] + Seq::new(batches + 1, |i: int| Action::WriteBatch)
}

/// The actions of a query that succeeds with `batches` row batches.
pub open spec fn success_actions(batches: nat, format: QueryResponseFormat, attached: bool) -> Seq<
    Action,
> {
    streaming_actions(batches, format, attached) + seq![Action::Finish, Action::Stop]
}

proof fn lemma_streaming_prefix(batches: nat, format: QueryResponseFormat, attached: bool)
    ensures
        run(Seq::new(5 + batches, |i: int| Event::Done), format, attached) == (
            BridgeState::Streaming,
            streaming_actions(batches, format, attached),
        ),
    decreases batches,
{
    let events = Seq::new(5 + batches, |i: int| Event::Done);
    if batches == 0 {
        let e0 = Seq::<Event>::empty();
        let e1 = seq![Event::Done];
        let e2 = seq![Event::Done, Event::Done];
        let e3 = seq![Event::Done, Event::Done, Event::Done];
        let e4 = seq![Event::Done, Event::Done, Event::Done, Event::Done];
        assert(e1.drop_last() =~= e0);
        assert(e2.drop_last() =~= e1);
        assert(e3.drop_last() =~= e2);
        assert(e4.drop_last() =~= e3);
        assert(events.drop_last() =~= e4);
        assert(run(e0, format, attached).0 == BridgeState::Started);
        assert(run(e1, format, attached).0 == BridgeState::Connected);
        assert(run(e2, format, attached).0 == BridgeState::Prepared);
        assert(run(e3, format, attached).0 == BridgeState::Committing);
        assert(run(e4, format, attached).0 == BridgeState::Committed);
        assert(run(events, format, attached).1 =~= streaming_actions(0, format, attached));
    } else {
        let fewer = Seq::new((5 + batches - 1) as nat, |i: int| Event::Done);
        assert(events.drop_last() =~= fewer);
        lemma_streaming_prefix((batches - 1) as nat, format, attached);
        assert(run(events, format, attached).1 =~= streaming_actions(batches, format, attached));
    }
}

/// A query that succeeds with any number of row batches is served by
/// acquiring, preparing, executing, delivering `Ready`, opening the encoder,
/// asking for a batch once per batch and once more to learn that none is
/// left, finishing and stopping, in this order.
pub proof fn law_successful_run(batches: nat, format: QueryResponseFormat, attached: bool)
    ensures
        run(success_events(batches), format, attached) == (
            BridgeState::Closed,
            success_actions(batches, format, attached),
        ),
{
    let prefix = Seq::new(5 + batches, |i: int| Event::Done);
    let middle = prefix.push(Event::Exhausted);
    let events = success_events(batches);
    lemma_streaming_prefix(batches, format, attached);
    assert(middle.drop_last() =~= prefix);
    assert(events =~= middle.push(Event::Done));
    assert(events.drop_last() =~= middle);
    assert(run(middle, format, attached).0 == BridgeState::Finishing);
    assert(run(events, format, attached).1 =~= success_actions(batches, format, attached));
}

} // verus!
