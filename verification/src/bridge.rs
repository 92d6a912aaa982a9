//! The streaming bridge: the protocol a producer follows to run a query and
//! encode its result into a byte pipe, while the response's status is decided
//! once, before the first byte.
//!
//! The producer's blocking work (the engine, the encoders, the pipe) is done
//! by its driver. The bridge decides: the driver performs the [`Action`] it
//! is given, reports what came of it as an [`Event`], and is given the next
//! action.

use crate::format::QueryResponseFormat;
use vstd::prelude::*;

verus! {

/// The capacity of the byte pipe between producer and response body.
pub const PIPE_CAPACITY: usize = 65_536;

/// What the consumer learns, once, before it commits to a status line.
#[derive(Clone, Debug, PartialEq, Eq)]
pub enum StreamingOutcome {
    /// Execution began; bytes will follow.
    Ready,
    /// The query failed before any byte was produced; none will follow.
    Failed(String),
}

/// What the driver reports of the action it was last given.
#[derive(Clone, Debug, PartialEq, Eq)]
pub enum Event {
    /// The action was carried out.
    Done,
    /// The action failed, with the collaborator's message.
    Failed(String),
    /// The engine had no further row batch. It answers [`Action::WriteBatch`];
    /// as an answer to any other action it reads as [`Event::Done`].
    Exhausted,
}

/// What the driver is to do next.
#[derive(Clone, Debug, PartialEq, Eq)]
pub enum Action {
    /// Derive a connection of the request's own from the canonical one and,
    /// if a database is attached, make it the connection's default catalog.
    Acquire { attached: bool },
    /// Prepare the query on the acquired connection.
    Prepare,
    /// Start the prepared statement, to obtain the schema and the row batches.
    Execute,
    /// Deliver the outcome to the consumer.
    Resolve(StreamingOutcome),
    /// Open the encoder of the format over the write side of the pipe.
    OpenEncoder(QueryResponseFormat),
    /// Take the next row batch from the engine and encode it into the pipe.
    WriteBatch,
    /// Finalise the encoder and close the write side of the pipe.
    Finish,
    /// Give up the pipe at once: encoding failed after the outcome was
    /// delivered, with the message to log.
    Abort(String),
    /// Nothing is left to do.
    Stop,
}

/// Where a bridge stands; each state but the last awaits the report of one
/// action.
#[derive(Clone, Copy, Debug, PartialEq, Eq, Structural)]
pub enum BridgeState {
    /// A connection is being acquired.
    Started,
    /// The query is being prepared.
    Connected,
    /// Execution is being started.
    Prepared,
    /// Execution began; `Ready` is being delivered. Encoding follows whether
    /// or not anybody takes the outcome.
    Committing,
    /// A step before commitment failed; `Failed` is being delivered.
    Rejecting,
    /// `Ready` was delivered; the encoder is being opened.
    Committed,
    /// Row batches are being encoded, in the engine's order.
    Streaming,
    /// The last batch was written; the encoder is being finalised.
    Finishing,
    /// Encoding failed; the pipe is being given up.
    Aborting,
    /// The bridge is done.
    Closed,
}

/// The four stages a bridge passes through.
#[derive(Clone, Copy, Debug, PartialEq, Eq, Structural)]
pub enum Stage {
    Started,
    Succeeded,
    Failed,
    Closed,
}

impl BridgeState {
    /// The stage a state belongs to.
    pub open spec fn stage(self) -> Stage {
        match self {
            BridgeState::Started | BridgeState::Connected | BridgeState::Prepared => Stage::Started,
            BridgeState::Rejecting => Stage::Failed,
            BridgeState::Closed => Stage::Closed,
            _ => Stage::Succeeded,
        }
    }
}

impl Stage {
    /// How far along a stage is.
    pub open spec fn rank(self) -> nat {
        match self {
            Stage::Started => 0,
            Stage::Succeeded | Stage::Failed => 1,
            Stage::Closed => 2,
        }
    }
}

/// The action a bridge begins with.
pub open spec fn first_action(attached: bool) -> Action {
    Action::Acquire { attached }
}

/// The state that follows `state` on `event`, and the action that then
/// awaits its report.
pub open spec fn transition(state: BridgeState, event: Event, format: QueryResponseFormat) -> (
    BridgeState,
    Action,
) {
    match state {
        BridgeState::Started => match event {
            Event::Failed(message) => (
                BridgeState::Rejecting,
                Action::Resolve(StreamingOutcome::Failed(message)),
            ),
            _ => (BridgeState::Connected, Action::Prepare),
        },
        BridgeState::Connected => match event {
            Event::Failed(message) => (
                BridgeState::Rejecting,
                Action::Resolve(StreamingOutcome::Failed(message)),
            ),
            _ => (BridgeState::Prepared, Action::Execute),
        },
        BridgeState::Prepared => match event {
            Event::Failed(message) => (
                BridgeState::Rejecting,
                Action::Resolve(StreamingOutcome::Failed(message)),
            ),
            _ => (BridgeState::Committing, Action::Resolve(StreamingOutcome::Ready)),
        },
        BridgeState::Committing => (BridgeState::Committed, Action::OpenEncoder(format)),
        BridgeState::Rejecting => (BridgeState::Closed, Action::Stop),
        BridgeState::Committed => match event {
            Event::Failed(message) => (BridgeState::Aborting, Action::Abort(message)),
            _ => (BridgeState::Streaming, Action::WriteBatch),
        },
        BridgeState::Streaming => match event {
            Event::Done => (BridgeState::Streaming, Action::WriteBatch),
            Event::Exhausted => (BridgeState::Finishing, Action::Finish),
            Event::Failed(message) => (BridgeState::Aborting, Action::Abort(message)),
        },
        BridgeState::Finishing => match event {
            Event::Failed(message) => (BridgeState::Aborting, Action::Abort(message)),
            _ => (BridgeState::Closed, Action::Stop),
        },
        BridgeState::Aborting => (BridgeState::Closed, Action::Stop),
        BridgeState::Closed => (BridgeState::Closed, Action::Stop),
    }
}

/// The state a bridge reaches from its start over `events`, and every action
/// it gave on the way, the first one included.
pub open spec fn run(events: Seq<Event>, format: QueryResponseFormat, attached: bool) -> (
    BridgeState,
    Seq<Action>,
)
    decreases events.len(),
{
    if events.len() == 0 {
        (BridgeState::Started, seq![first_action(attached)])
    } else {
        let (state, given) = run(events.drop_last(), format, attached);
        let (next, action) = transition(state, events.last(), format);
        (next, given.push(action))
    }
}

/// One request's bridge. It stands where its reports have led it.
pub struct Bridge {
    state: BridgeState,
    format: QueryResponseFormat,
    attached: bool,
    history: Ghost<Seq<Event>>,
}

impl Bridge {
    #[verifier::type_invariant]
    spec fn state_follows_history(self) -> bool {
        self.state == run(self.history@, self.format, self.attached).0
    }

    /// Whether the bridge stands in the state that the run over its reports
    /// ends in. Every bridge does.
    pub open spec fn wf(&self) -> bool {
        self.state_spec() == run(self.history(), self.format_spec(), self.attached_spec()).0
    }

    /// The reports taken so far, in order.
    pub closed spec fn history(&self) -> Seq<Event> {
        self.history@
    }

    /// The actions given so far, in order, the first one included.
    pub open spec fn given(&self) -> Seq<Action> {
        run(self.history(), self.format_spec(), self.attached_spec()).1
    }

    /// The state the bridge stands in.
    pub closed spec fn state_spec(&self) -> BridgeState {
        self.state
    }

    /// The format the request negotiated.
    pub closed spec fn format_spec(&self) -> QueryResponseFormat {
        self.format
    }

    /// Whether the server has an attached database.
    pub closed spec fn attached_spec(&self) -> bool {
        self.attached
    }

    /// A bridge for a request that negotiated `format`, on a server with or
    /// without an attached database.
    pub fn new(format: QueryResponseFormat, attached: bool) -> (r: Bridge)
        ensures
            r.state_spec() == BridgeState::Started,
            r.format_spec() == format,
            r.attached_spec() == attached,
            r.history() == Seq::<Event>::empty(),
            r.wf(),
    {
        Bridge { state: BridgeState::Started, format, attached, history: Ghost(Seq::empty()) }
    }

    /// The action the producer begins with.
    pub fn start(&self) -> (r: Action)
        ensures
            r == first_action(self.attached_spec()),
    {
        Action::Acquire { attached: self.attached }
    }

    /// The state the bridge stands in.
    #[verifier::when_used_as_spec(state_spec)]
    pub fn state(&self) -> (r: BridgeState)
        ensures
            r == self.state_spec(),
            self.wf(),
    {
        proof {
            use_type_invariant(self);
        }
        self.state
    }

    /// The format the request negotiated.
    #[verifier::when_used_as_spec(format_spec)]
    pub fn format(&self) -> (r: QueryResponseFormat)
        ensures
            r == self.format_spec(),
    {
        self.format
    }

    /// Whether the bridge is done and the producer may end.
    pub fn is_closed(&self) -> (r: bool)
        ensures
            r == (self.state_spec() == BridgeState::Closed),
    {
        self.state == BridgeState::Closed
    }

    /// Takes the report of the action last given and gives the next one.
    pub fn step(&mut self, event: Event) -> (r: Action)
        ensures
            (final(self).state_spec(), r) == transition(
                old(self).state_spec(),
                event,
                old(self).format_spec(),
            ),
            final(self).format_spec() == old(self).format_spec(),
            final(self).attached_spec() == old(self).attached_spec(),
            final(self).history() == old(self).history().push(event),
            final(self).given() == old(self).given().push(r),
            final(self).wf(),
    {
        proof {
            use_type_invariant(&*self);
            assert(self.history@.push(event).drop_last() =~= self.history@);
        }
        let ghost history = self.history@.push(event);
        let (next, action) = match self.state {
            BridgeState::Started => match event {
                Event::Failed(message) => (
                    BridgeState::Rejecting,
                    Action::Resolve(StreamingOutcome::Failed(message)),
                ),
                _ => (BridgeState::Connected, Action::Prepare),
            },
            BridgeState::Connected => match event {
                Event::Failed(message) => (
                    BridgeState::Rejecting,
                    Action::Resolve(StreamingOutcome::Failed(message)),
                ),
                _ => (BridgeState::Prepared, Action::Execute),
            },
            BridgeState::Prepared => match event {
                Event::Failed(message) => (
                    BridgeState::Rejecting,
                    Action::Resolve(StreamingOutcome::Failed(message)),
                ),
                _ => (BridgeState::Committing, Action::Resolve(StreamingOutcome::Ready)),
            },
            BridgeState::Committing => (BridgeState::Committed, Action::OpenEncoder(self.format)),
            BridgeState::Rejecting => (BridgeState::Closed, Action::Stop),
            BridgeState::Committed => match event {
                Event::Failed(message) => (BridgeState::Aborting, Action::Abort(message)),
                _ => (BridgeState::Streaming, Action::WriteBatch),
            },
            BridgeState::Streaming => match event {
                Event::Done => (BridgeState::Streaming, Action::WriteBatch),
                Event::Exhausted => (BridgeState::Finishing, Action::Finish),
                Event::Failed(message) => (BridgeState::Aborting, Action::Abort(message)),
            },
            BridgeState::Finishing => match event {
                Event::Failed(message) => (BridgeState::Aborting, Action::Abort(message)),
                _ => (BridgeState::Closed, Action::Stop),
            },
            BridgeState::Aborting => (BridgeState::Closed, Action::Stop),
            BridgeState::Closed => (BridgeState::Closed, Action::Stop),
        };
        *self = Bridge {
            state: next,
            format: self.format,
            attached: self.attached,
            history: Ghost(history),
        };
        action
    }
}

} // verus!
