//! The negotiation of a connection, from the place that is held for it to the answer.

use vstd::prelude::*;

use crate::channel::SharedCounter;
use crate::connections::{MetadataView, Table};
use crate::offer::{AnswerResponse, SessionDescription, SessionView};
use crate::rejection::{rejection, Rejection, RejectionView, StatusCode};
use crate::state::AppState;

verus! {

/// How far the negotiation of a connection has come, by what is being waited for.
#[derive(Debug, Clone, Copy, PartialEq, Eq, Structural)]
pub enum OfferStage {
    /// The connection is being made.
    Creating,
    /// The client's offer is being applied.
    ApplyingOffer,
    /// The answer is being made.
    CreatingAnswer,
    /// The answer is being applied.
    ApplyingAnswer,
    /// Candidates are being gathered.
    Gathering,
    /// The answer is being read back, with its candidates.
    ReadingAnswer,
    /// The client has been answered or turned down.
    Done,
}

/// How the gathering of candidates has ended.
#[derive(Debug, Clone, Copy, PartialEq, Eq, Structural)]
pub enum GatheringOutcome {
    /// All candidates are known.
    Complete,
    /// There will be no word about it.
    Abandoned,
    /// The time for it is up.
    TimedOut,
}

/// What has come of a step of the negotiation.
pub enum OfferEvent<P> {
    /// The connection, unless it could not be made.
    ConnectionCreated(Option<P>),
    OfferApplied { ok: bool },
    AnswerCreated { ok: bool },
    AnswerApplied { ok: bool },
    Gathered(GatheringOutcome),
    /// The answer with its candidates, if there is one.
    AnswerRead(Option<SessionDescription>),
}

/// The next step of the negotiation.
pub enum OfferAction {
    /// Install the handlers of the connection, with the counter of its data channels,
    /// and apply the client's offer.
    ApplyOffer { data_channel_count: SharedCounter },
    CreateAnswer,
    ApplyAnswer,
    /// Wait until candidates are gathered, for at most so many seconds.
    Gather { timeout: u64 },
    ReadAnswer,
    /// Answer the client.
    Answer(AnswerResponse),
    /// Turn the client down, after closing the connection where `close` says so.
    Reject { rejection: Rejection, close: bool },
}

/// An [`OfferEvent`] by view.
pub enum EventView<P> {
    ConnectionCreated(Option<P>),
    OfferApplied { ok: bool },
    AnswerCreated { ok: bool },
    AnswerApplied { ok: bool },
    Gathered(GatheringOutcome),
    AnswerRead(Option<SessionView>),
}

/// An [`OfferAction`] by view.
pub enum ActionView {
    ApplyOffer { data_channel_count: SharedCounter },
    CreateAnswer,
    ApplyAnswer,
    Gather { timeout: nat },
    ReadAnswer,
    Answer { sdp: SessionView, pc_id: Seq<char> },
    Reject { rejection: RejectionView, close: bool },
}

impl<P> View for OfferEvent<P> {
    type V = EventView<P>;

    open spec fn view(&self) -> EventView<P> {
        match self {
            OfferEvent::ConnectionCreated(pc) => EventView::ConnectionCreated(*pc),
            OfferEvent::OfferApplied { ok } => EventView::OfferApplied { ok: *ok },
            OfferEvent::AnswerCreated { ok } => EventView::AnswerCreated { ok: *ok },
            OfferEvent::AnswerApplied { ok } => EventView::AnswerApplied { ok: *ok },
            OfferEvent::Gathered(outcome) => EventView::Gathered(*outcome),
            OfferEvent::AnswerRead(Some(sdp)) => EventView::AnswerRead(Some(sdp@)),
            OfferEvent::AnswerRead(None) => EventView::AnswerRead(None),
        }
    }
}

impl View for OfferAction {
    type V = ActionView;

    open spec fn view(&self) -> ActionView {
        match self {
            OfferAction::ApplyOffer { data_channel_count } => ActionView::ApplyOffer {
                data_channel_count: *data_channel_count,
            },
            OfferAction::CreateAnswer => ActionView::CreateAnswer,
            OfferAction::ApplyAnswer => ActionView::ApplyAnswer,
            OfferAction::Gather { timeout } => ActionView::Gather { timeout: *timeout as nat },
            OfferAction::ReadAnswer => ActionView::ReadAnswer,
            OfferAction::Answer(answer) => ActionView::Answer {
                sdp: answer.sdp@,
                pc_id: answer.pc_id@,
            },
            OfferAction::Reject { rejection, close } => ActionView::Reject {
                rejection: rejection@,
                close: *close,
            },
        }
    }
}

/// The event is what the stage waits for.
pub open spec fn is_awaited<P>(stage: OfferStage, event: EventView<P>) -> bool {
    match event {
        EventView::ConnectionCreated(_) => stage == OfferStage::Creating,
        EventView::OfferApplied { .. } => stage == OfferStage::ApplyingOffer,
        EventView::AnswerCreated { .. } => stage == OfferStage::CreatingAnswer,
        EventView::AnswerApplied { .. } => stage == OfferStage::ApplyingAnswer,
        EventView::Gathered(_) => stage == OfferStage::Gathering,
        EventView::AnswerRead(_) => stage == OfferStage::ReadingAnswer,
    }
}

/// The negotiation ends: the client is turned down, and the connection is closed and
/// forgotten.
pub open spec fn given_up<P>(
    table: Table<P>,
    pc_id: Seq<char>,
    status: StatusCode,
    message: Seq<char>,
) -> (OfferStage, Table<P>, ActionView) {
    (
        OfferStage::Done,
        table.remove(pc_id),
        ActionView::Reject { rejection: rejection(status, message), close: true },
    )
}

/// What comes of an event in the negotiation of the connection `pc_id`: the stage, the
/// table of connections, and the next step. `timeout` is how long to wait for candidates.
pub open spec fn negotiated<P>(
    event: EventView<P>,
    pc_id: Seq<char>,
    table: Table<P>,
    timeout: nat,
) -> (OfferStage, Table<P>, ActionView) {
    match event {
        EventView::ConnectionCreated(Some(pc)) => if table.dom().contains(pc_id) {
            (
                OfferStage::ApplyingOffer,
                table.insert(pc_id, MetadataView { peer_connection: Some(pc), ..table[pc_id] }),
                ActionView::ApplyOffer { data_channel_count: table[pc_id].data_channel_count },
            )
        } else {
            (
                OfferStage::Done,
                table,
                ActionView::Reject {
                    rejection: rejection(
                        StatusCode::InternalServerError,
                        "Internal state error"@,
                    ),
                    close: false,
                },
            )
        },
        EventView::ConnectionCreated(None) => (
            OfferStage::Done,
            table.remove(pc_id),
            ActionView::Reject {
                rejection: rejection(
                    StatusCode::InternalServerError,
                    "Failed to create connection"@,
                ),
                close: false,
            },
        ),
        EventView::OfferApplied { ok: true } => (
            OfferStage::CreatingAnswer,
            table,
            ActionView::CreateAnswer,
        ),
        EventView::OfferApplied { ok: false } => given_up(
            table,
            pc_id,
            StatusCode::BadRequest,
            "Invalid offer SDP"@,
        ),
        EventView::AnswerCreated { ok: true } => (
            OfferStage::ApplyingAnswer,
            table,
            ActionView::ApplyAnswer,
        ),
        EventView::AnswerCreated { ok: false } => given_up(
            table,
            pc_id,
            StatusCode::InternalServerError,
            "Failed to create answer"@,
        ),
        EventView::AnswerApplied { ok: true } => (
            OfferStage::Gathering,
            table,
            ActionView::Gather { timeout },
        ),
        EventView::AnswerApplied { ok: false } => given_up(
            table,
            pc_id,
            StatusCode::InternalServerError,
            "Failed to set local description"@,
        ),
        EventView::Gathered(GatheringOutcome::Abandoned) => given_up(
            table,
            pc_id,
            StatusCode::InternalServerError,
            "ICE gathering failed"@,
        ),
        EventView::Gathered(_) => (OfferStage::ReadingAnswer, table, ActionView::ReadAnswer),
        EventView::AnswerRead(Some(sdp)) => (
            OfferStage::Done,
            table,
            ActionView::Answer { sdp, pc_id },
        ),
        EventView::AnswerRead(None) => given_up(
            table,
            pc_id,
            StatusCode::InternalServerError,
            "Failed to get local description"@,
        ),
    }
}

/// The negotiation of one connection.
#[derive(Debug)]
pub struct OfferSession {
    pc_id: String,
    stage: OfferStage,
}

impl OfferSession {
    /// The identifier of the connection.
    pub closed spec fn id(self) -> Seq<char> {
        self.pc_id@
    }

    /// What is being waited for.
    pub closed spec fn awaits(self) -> OfferStage {
        self.stage
    }

    /// The identifier of the connection.
    pub fn pc_id(&self) -> (id: &str)
        ensures
            id@ == self.id(),
    {
        self.pc_id.as_str()
    }

    /// What is being waited for.
    pub fn stage(&self) -> (stage: OfferStage)
        ensures
            stage == self.awaits(),
    {
        self.stage
    }

    /// A negotiation that begins: the connection is to be made.
    pub(crate) fn new(pc_id: String) -> (session: OfferSession)
        ensures
            session.id() == pc_id@,
            session.awaits() == OfferStage::Creating,
    {
        OfferSession { pc_id, stage: OfferStage::Creating }
    }

    fn give_up<P>(&self, state: &mut AppState<P>, status: StatusCode, message: &str) -> (action:
        OfferAction)
        requires
            old(state).wf(),
        ensures
            final(state).wf(),
            final(state)@.config == old(state)@.config,
            final(state)@.start_time == old(state)@.start_time,
            (OfferStage::Done, final(state)@.peer_connections, action@) == given_up(
                old(state)@.peer_connections,
                self.id(),
                status,
                message@,
            ),
    {
        let _ = state.cleanup_connection(self.pc_id.as_str());
        OfferAction::Reject { rejection: Rejection::new(status, message), close: true }
    }

    /// Goes on with the negotiation after a step of it has ended.
    pub fn advance<P>(&mut self, state: &mut AppState<P>, event: OfferEvent<P>) -> (action:
        OfferAction)
        requires
            old(state).wf(),
            is_awaited(old(self).awaits(), event@),
        ensures
            final(state).wf(),
            final(state)@.config == old(state)@.config,
            final(state)@.start_time == old(state)@.start_time,
            final(self).id() == old(self).id(),
            (final(self).awaits(), final(state)@.peer_connections, action@) == negotiated(
                event@,
                old(self).id(),
                old(state)@.peer_connections,
                old(state)@.config.ice_gathering_timeout,
            ),
    {
        match event {
            OfferEvent::ConnectionCreated(Some(pc)) => {
                match state.attach(self.pc_id.as_str(), pc) {
                    Some(data_channel_count) => {
                        self.stage = OfferStage::ApplyingOffer;
                        OfferAction::ApplyOffer { data_channel_count }
                    },
                    None => {
                        self.stage = OfferStage::Done;
                        OfferAction::Reject {
                            rejection: Rejection::new(
                                StatusCode::InternalServerError,
                                "Internal state error",
                            ),
                            close: false,
                        }
                    },
                }
            },
            OfferEvent::ConnectionCreated(None) => {
                let _ = state.cleanup_connection(self.pc_id.as_str());
                self.stage = OfferStage::Done;
                OfferAction::Reject {
                    rejection: Rejection::new(
                        StatusCode::InternalServerError,
                        "Failed to create connection",
                    ),
                    close: false,
                }
            },
            OfferEvent::OfferApplied { ok } => {
                if ok {
                    self.stage = OfferStage::CreatingAnswer;
                    OfferAction::CreateAnswer
                } else {
                    self.stage = OfferStage::Done;
                    self.give_up(state, StatusCode::BadRequest, "Invalid offer SDP")
                }
            },
            OfferEvent::AnswerCreated { ok } => {
                if ok {
                    self.stage = OfferStage::ApplyingAnswer;
                    OfferAction::ApplyAnswer
                } else {
                    self.stage = OfferStage::Done;
                    self.give_up(state, StatusCode::InternalServerError, "Failed to create answer")
                }
            },
            OfferEvent::AnswerApplied { ok } => {
                if ok {
                    self.stage = OfferStage::Gathering;
                    OfferAction::Gather { timeout: state.config().ice_gathering_timeout }
                } else {
                    self.stage = OfferStage::Done;
                    self.give_up(
                        state,
                        StatusCode::InternalServerError,
                        "Failed to set local description",
                    )
                }
            },
            OfferEvent::Gathered(outcome) => {
                if outcome == GatheringOutcome::Abandoned {
                    self.stage = OfferStage::Done;
                    self.give_up(state, StatusCode::InternalServerError, "ICE gathering failed")
                } else {
                    self.stage = OfferStage::ReadingAnswer;
                    OfferAction::ReadAnswer
                }
            },
            OfferEvent::AnswerRead(Some(sdp)) => {
                self.stage = OfferStage::Done;
                OfferAction::Answer(AnswerResponse { sdp, pc_id: self.pc_id.clone() })
            },
            OfferEvent::AnswerRead(None) => {
                self.stage = OfferStage::Done;
                self.give_up(
                    state,
                    StatusCode::InternalServerError,
                    "Failed to get local description",
                )
            },
        }
    }
}

/// Hands out, once, what announces that all candidates are gathered.
pub struct GatheringGate<T> {
    sender: Option<T>,
}

impl<T> GatheringGate<T> {
    /// What is still to be handed out.
    pub closed spec fn pending(self) -> Option<T> {
        self.sender
    }

    /// A gate that has announced nothing yet.
    pub fn new(sender: T) -> (gate: GatheringGate<T>)
        ensures
            gate.pending() == Some(sender),
    {
        GatheringGate { sender: Some(sender) }
    }

    /// Takes note of a state of the gathering: at the first complete one, and at no other,
    /// it is to be announced.
    pub fn observe(&mut self, complete: bool) -> (res: Option<T>)
        ensures
            res == if complete {
                old(self).pending()
            } else {
                None
            },
            final(self).pending() == if complete {
                None
            } else {
                old(self).pending()
            },
    {
        if complete {
            self.sender.take()
        } else {
            None
        }
    }
}

/// How many steps a negotiation has left at most.
pub open spec fn steps_left(stage: OfferStage) -> nat {
    match stage {
        OfferStage::Creating => 6,
        OfferStage::ApplyingOffer => 5,
        OfferStage::CreatingAnswer => 4,
        OfferStage::ApplyingAnswer => 3,
        OfferStage::Gathering => 2,
        OfferStage::ReadingAnswer => 1,
        OfferStage::Done => 0,
    }
}

/// Every step of a negotiation brings it nearer to its end, and it ends exactly with an
/// answer or a rejection.
pub proof fn law_negotiation_ends<P>(
    stage: OfferStage,
    event: EventView<P>,
    pc_id: Seq<char>,
    table: Table<P>,
    timeout: nat,
)
    requires
        is_awaited(stage, event),
    ensures
        ({
            let (next, _, action) = negotiated(event, pc_id, table, timeout);
            &&& steps_left(next) < steps_left(stage)
            &&& next == OfferStage::Done <==> action is Answer || action is Reject
        }),
{
}

/// A negotiation leaves every other connection alone.
pub proof fn law_others_unaffected<P>(
    event: EventView<P>,
    pc_id: Seq<char>,
    table: Table<P>,
    timeout: nat,
    other: Seq<char>,
)
    requires
        other != pc_id,
    ensures
        ({
            let after = negotiated(event, pc_id, table, timeout).1;
            &&& after.dom().contains(other) == table.dom().contains(other)
            &&& table.dom().contains(other) ==> after[other] == table[other]
        }),
{
}

/// When a client is turned down in a negotiation, its connection is forgotten, and closed
/// once it has been put in its place.
pub proof fn law_rejected_is_forgotten<P>(
    event: EventView<P>,
    pc_id: Seq<char>,
    table: Table<P>,
    timeout: nat,
)
    ensures
        ({
            let (_, after, action) = negotiated(event, pc_id, table, timeout);
            action matches ActionView::Reject { close, .. } ==> {
                &&& !after.dom().contains(pc_id)
                &&& close == !(event is ConnectionCreated)
            }
        }),
{
}

/// A negotiation that is not turned down keeps its place.
pub proof fn law_place_is_kept<P>(
    event: EventView<P>,
    pc_id: Seq<char>,
    table: Table<P>,
    timeout: nat,
)
    ensures
        ({
            let (_, after, action) = negotiated(event, pc_id, table, timeout);
            !(action is Reject) ==> after.dom() == table.dom()
        }),
{
    let (_, after, action) = negotiated(event, pc_id, table, timeout);
    if !(action is Reject) {
        assert(after.dom() =~= table.dom());
    }
}

/// The events of a negotiation in a row, from a stage on. It ends with the first answer
/// or rejection, and stands still at an event that is not awaited.
pub open spec fn run<P>(
    events: Seq<EventView<P>>,
    pc_id: Seq<char>,
    table: Table<P>,
    timeout: nat,
    start: OfferStage,
) -> (OfferStage, Table<P>, Option<ActionView>)
    decreases events.len(),
{
    if events.len() == 0 {
        (start, table, None)
    } else {
        let before = run(events.drop_last(), pc_id, table, timeout, start);
        if is_awaited(before.0, events.last()) {
            let after = negotiated(events.last(), pc_id, before.1, timeout);
            (after.0, after.1, Some(after.2))
        } else {
            before
        }
    }
}

/// The events of a negotiation in which every step succeeds.
pub open spec fn smooth_events<P>(pc: P, outcome: GatheringOutcome, sdp: SessionView) -> Seq<
    EventView<P>,
> {
    seq![
        EventView::ConnectionCreated(Some(pc)),
        EventView::OfferApplied { ok: true },
        EventView::AnswerCreated { ok: true },
        EventView::AnswerApplied { ok: true },
        EventView::Gathered(outcome),
        EventView::AnswerRead(Some(sdp)),
    ]
}

/// A negotiation in which every step succeeds, or in which at worst the time for
/// gathering candidates is up, ends with the answer and its candidates, under the
/// identifier of the connection, which has taken its place in the table.
pub proof fn law_successful_negotiation<P>(
    pc: P,
    outcome: GatheringOutcome,
    sdp: SessionView,
    pc_id: Seq<char>,
    table: Table<P>,
    timeout: nat,
)
    requires
        table.dom().contains(pc_id),
        outcome != GatheringOutcome::Abandoned,
    ensures
        ({
            let events = smooth_events(pc, outcome, sdp);
            let end = run(events, pc_id, table, timeout, OfferStage::Creating);
            &&& end.0 == OfferStage::Done
            &&& end.1 == table.insert(
                pc_id,
                MetadataView { peer_connection: Some(pc), ..table[pc_id] },
            )
            &&& end.2 == Some(ActionView::Answer { sdp, pc_id })
        }),
{
    reveal_with_fuel(run, 7);
}

/// A client that is turned down leaves nothing behind: where a negotiation, whatever its
/// events, ends in a rejection, the table is the one from before a place was held for it
/// under a new identifier.
pub proof fn law_rejected_leaves_nothing<P>(
    events: Seq<EventView<P>>,
    pc_id: Seq<char>,
    table: Table<P>,
    place: MetadataView<P>,
    timeout: nat,
)
    requires
        !table.dom().contains(pc_id),
        run(events, pc_id, table.insert(pc_id, place), timeout, OfferStage::Creating).2 matches Some(
            ActionView::Reject { .. },
        ),
    ensures
        run(events, pc_id, table.insert(pc_id, place), timeout, OfferStage::Creating).0
            == OfferStage::Done,
        run(events, pc_id, table.insert(pc_id, place), timeout, OfferStage::Creating).1 == table,
{
    lemma_run_keeps_the_rest(events, pc_id, table, place, timeout);
}

/// Up to the connection itself, the table stays as it was; and there is no more of it
/// once it has been turned down.
proof fn lemma_run_keeps_the_rest<P>(
    events: Seq<EventView<P>>,
    pc_id: Seq<char>,
    table: Table<P>,
    place: MetadataView<P>,
    timeout: nat,
)
    requires
        !table.dom().contains(pc_id),
    ensures
        ({
            let (stage, after, action) = run(
                events,
                pc_id,
                table.insert(pc_id, place),
                timeout,
                OfferStage::Creating,
            );
            &&& after.remove(pc_id) == table
            &&& action matches Some(ActionView::Reject { .. }) ==> stage == OfferStage::Done
                && after == table
        }),
    decreases events.len(),
{
    let held = table.insert(pc_id, place);
    assert(held.remove(pc_id) =~= table);
    if events.len() > 0 {
        lemma_run_keeps_the_rest(events.drop_last(), pc_id, table, place, timeout);
        let before = run(events.drop_last(), pc_id, held, timeout, OfferStage::Creating);
        let after = negotiated(events.last(), pc_id, before.1, timeout);
        if is_awaited(before.0, events.last()) {
            assert(after.1.remove(pc_id) =~= table);
            if after.2 is Reject {
                assert(after.1 =~= table);
            }
        }
    }
}

/// A connection that was made takes the place that is held for it, and nothing else in the
/// table changes; the client's offer is applied next, with the counter of that place. Where
/// the place is gone, nothing changes and the client is told of an internal error.
pub proof fn law_connection_takes_its_place<P>(
    pc: P,
    pc_id: Seq<char>,
    table: Table<P>,
    timeout: nat,
    other: Seq<char>,
)
    ensures
        ({
            let (stage, after, action) = negotiated(
                EventView::ConnectionCreated(Some(pc)),
                pc_id,
                table,
                timeout,
            );
            &&& table.dom().contains(pc_id) ==> {
                &&& stage == OfferStage::ApplyingOffer
                &&& after.dom().contains(pc_id)
                &&& after[pc_id].peer_connection == Some(pc)
                &&& after[pc_id].created_at == table[pc_id].created_at
                &&& after[pc_id].client_ip == table[pc_id].client_ip
                &&& after[pc_id].data_channel_count == table[pc_id].data_channel_count
                &&& action matches ActionView::ApplyOffer { data_channel_count }
                    && data_channel_count == table[pc_id].data_channel_count
            }
            &&& !table.dom().contains(pc_id) ==> {
                &&& stage == OfferStage::Done
                &&& after == table
                &&& action matches ActionView::Reject { rejection: r, close } && r.status
                    == StatusCode::InternalServerError && r.message == "Internal state error"@
                    && !close
            }
            &&& other != pc_id ==> (after.dom().contains(other) <==> table.dom().contains(other))
            &&& other != pc_id && table.dom().contains(other) ==> after[other] == table[other]
        }),
{
}

/// A step that succeeds leads to the next one and leaves the table alone: the answer is
/// made when the offer is applied, applied when it is made, and given to the client once
/// candidates were gathered or the time for them, which is the configured one, is up.
pub proof fn law_steps_that_succeed<P>(
    pc_id: Seq<char>,
    table: Table<P>,
    timeout: nat,
    sdp: SessionView,
)
    ensures
        negotiated((EventView::<P>::OfferApplied { ok: true }), pc_id, table, timeout) == (
            OfferStage::CreatingAnswer,
            table,
            ActionView::CreateAnswer,
        ),
        negotiated((EventView::<P>::AnswerCreated { ok: true }), pc_id, table, timeout) == (
            OfferStage::ApplyingAnswer,
            table,
            ActionView::ApplyAnswer,
        ),
        negotiated((EventView::<P>::AnswerApplied { ok: true }), pc_id, table, timeout) == (
            OfferStage::Gathering,
            table,
            (ActionView::Gather { timeout }),
        ),
        negotiated(EventView::<P>::Gathered(GatheringOutcome::Complete), pc_id, table, timeout) == (
            OfferStage::ReadingAnswer,
            table,
            ActionView::ReadAnswer,
        ),
        negotiated(EventView::<P>::Gathered(GatheringOutcome::TimedOut), pc_id, table, timeout) == (
            OfferStage::ReadingAnswer,
            table,
            ActionView::ReadAnswer,
        ),
        negotiated(EventView::<P>::AnswerRead(Some(sdp)), pc_id, table, timeout) == (
            OfferStage::Done,
            table,
            (ActionView::Answer { sdp, pc_id }),
        ),
{
}

/// A step that fails ends the negotiation: the connection is forgotten, and closed if it
/// was made, and the client is told which step it was.
pub proof fn law_steps_that_fail<P>(pc_id: Seq<char>, table: Table<P>, timeout: nat)
    ensures
        ({
            let (stage, after, action) = negotiated(EventView::<P>::ConnectionCreated(None), pc_id, table, timeout);
            &&& stage == OfferStage::Done
            &&& after == table.remove(pc_id)
            &&& action matches ActionView::Reject { rejection: r, close } && r.status
                == StatusCode::InternalServerError && r.message == "Failed to create connection"@ && close == false
        }),
        ({
            let (stage, after, action) = negotiated((EventView::<P>::OfferApplied { ok: false }), pc_id, table, timeout);
            &&& stage == OfferStage::Done
            &&& after == table.remove(pc_id)
            &&& action matches ActionView::Reject { rejection: r, close } && r.status
                == StatusCode::BadRequest && r.message == "Invalid offer SDP"@ && close == true
        }),
        ({
            let (stage, after, action) = negotiated((EventView::<P>::AnswerCreated { ok: false }), pc_id, table, timeout);
            &&& stage == OfferStage::Done
            &&& after == table.remove(pc_id)
            &&& action matches ActionView::Reject { rejection: r, close } && r.status
                == StatusCode::InternalServerError && r.message == "Failed to create answer"@ && close == true
        }),
        ({
            let (stage, after, action) = negotiated((EventView::<P>::AnswerApplied { ok: false }), pc_id, table, timeout);
            &&& stage == OfferStage::Done
            &&& after == table.remove(pc_id)
            &&& action matches ActionView::Reject { rejection: r, close } && r.status
                == StatusCode::InternalServerError && r.message == "Failed to set local description"@ && close == true
        }),
        ({
            let (stage, after, action) = negotiated(EventView::<P>::Gathered(GatheringOutcome::Abandoned), pc_id, table, timeout);
            &&& stage == OfferStage::Done
            &&& after == table.remove(pc_id)
            &&& action matches ActionView::Reject { rejection: r, close } && r.status
                == StatusCode::InternalServerError && r.message == "ICE gathering failed"@ && close == true
        }),
        ({
            let (stage, after, action) = negotiated(EventView::<P>::AnswerRead(None), pc_id, table, timeout);
            &&& stage == OfferStage::Done
            &&& after == table.remove(pc_id)
            &&& action matches ActionView::Reject { rejection: r, close } && r.status
                == StatusCode::InternalServerError && r.message == "Failed to get local description"@ && close == true
        }),
{
}

/// Each stage waits for the outcome of its own step and for nothing else; when all is
/// done, nothing is waited for.
pub proof fn law_awaited<P>(
    stage: OfferStage,
    pc: Option<P>,
    ok: bool,
    outcome: GatheringOutcome,
    sdp: Option<SessionView>,
)
    ensures
        is_awaited(stage, EventView::ConnectionCreated(pc)) <==> stage == OfferStage::Creating,
        is_awaited(stage, (EventView::<P>::OfferApplied { ok })) <==> stage
            == OfferStage::ApplyingOffer,
        is_awaited(stage, (EventView::<P>::AnswerCreated { ok })) <==> stage
            == OfferStage::CreatingAnswer,
        is_awaited(stage, (EventView::<P>::AnswerApplied { ok })) <==> stage
            == OfferStage::ApplyingAnswer,
        is_awaited(stage, EventView::<P>::Gathered(outcome)) <==> stage == OfferStage::Gathering,
        is_awaited(stage, EventView::<P>::AnswerRead(sdp)) <==> stage == OfferStage::ReadingAnswer,
{
}

/// Events and steps are told by all that they hold.
pub proof fn law_step_view<P>(
    pc: Option<P>,
    ok: bool,
    outcome: GatheringOutcome,
    sdp: SessionDescription,
    timeout: u64,
    counter: SharedCounter,
    answer: AnswerResponse,
    rejection: Rejection,
    close: bool,
)
    ensures
        OfferEvent::ConnectionCreated(pc)@ == EventView::ConnectionCreated(pc),
        (OfferEvent::<P>::OfferApplied { ok })@ == (EventView::<P>::OfferApplied { ok }),
        (OfferEvent::<P>::AnswerCreated { ok })@ == (EventView::<P>::AnswerCreated { ok }),
        (OfferEvent::<P>::AnswerApplied { ok })@ == (EventView::<P>::AnswerApplied { ok }),
        OfferEvent::<P>::Gathered(outcome)@ == EventView::<P>::Gathered(outcome),
        OfferEvent::<P>::AnswerRead(Some(sdp))@ == EventView::<P>::AnswerRead(Some(sdp@)),
        OfferEvent::<P>::AnswerRead(None)@ == EventView::<P>::AnswerRead(None),
        (OfferAction::ApplyOffer { data_channel_count: counter })@ == (ActionView::ApplyOffer {
            data_channel_count: counter,
        }),
        OfferAction::CreateAnswer@ == ActionView::CreateAnswer,
        OfferAction::ApplyAnswer@ == ActionView::ApplyAnswer,
        (OfferAction::Gather { timeout })@ == (ActionView::Gather { timeout: timeout as nat }),
        OfferAction::ReadAnswer@ == ActionView::ReadAnswer,
        OfferAction::Answer(answer)@ == (ActionView::Answer {
            sdp: (SessionView { sdp_type: answer.sdp.sdp_type, sdp: answer.sdp.sdp@ }),
            pc_id: answer.pc_id@,
        }),
        (OfferAction::Reject { rejection, close })@ == (ActionView::Reject {
            rejection: (RejectionView { status: rejection.status, message: rejection.message@ }),
            close,
        }),
{
}

} // verus!
