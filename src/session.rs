use vstd::prelude::*;
use crate::codec::{
    RequestView, ResponseView, StateRequest, StateResponse, decode_request, request_from_json,
};
use crate::json::{Json, JsonValue};
use crate::store::{Cursor, StateStore, StoreView, after_set, delivery};

verus! {

/// What the Reader took off the transport.
#[derive(Debug, PartialEq)]
pub enum InboundFrame {
    /// A text frame, read as a JSON tree.
    Text(JsonValue),
    /// A text frame that is not JSON at all.
    Malformed,
    /// The client closed the connection.
    Close,
    /// A frame outside the protocol (binary, or the transport's own keepalive).
    Other,
    /// Reading from the transport failed.
    Failed,
}

/// Why a Reader stops.
#[derive(Debug, Clone, Copy, PartialEq, Eq)]
pub enum StopReason {
    Closed,
    Transport,
    Protocol,
}

/// What the Reader does after a frame.
#[derive(Debug, PartialEq)]
pub enum ReaderAction {
    /// Queue this response for the Writer.
    Reply(StateResponse),
    /// Read the next frame.
    Continue,
    /// End the Reader, and with it the session.
    Stop(StopReason),
}

/// The mathematical form of an inbound frame.
pub enum FrameView {
    Text(Json),
    Malformed,
    Close,
    Other,
    Failed,
}

/// The mathematical form of a Reader action.
pub enum ActionView {
    Reply(ResponseView),
    Continue,
    Stop(StopReason),
}

impl View for InboundFrame {
    type V = FrameView;

    open spec fn view(&self) -> FrameView {
        match self {
            InboundFrame::Text(v) => FrameView::Text(v@),
            InboundFrame::Malformed => FrameView::Malformed,
            InboundFrame::Close => FrameView::Close,
            InboundFrame::Other => FrameView::Other,
            InboundFrame::Failed => FrameView::Failed,
        }
    }
}

impl View for ReaderAction {
    type V = ActionView;

    open spec fn view(&self) -> ActionView {
        match self {
            ReaderAction::Reply(r) => ActionView::Reply(r@),
            ReaderAction::Continue => ActionView::Continue,
            ReaderAction::Stop(why) => ActionView::Stop(*why),
        }
    }
}

/// The view of an optional response.
pub open spec fn response_view(r: Option<StateResponse>) -> Option<ResponseView> {
    match r {
        Some(x) => Some(x@),
        None => None,
    }
}

/// What a request does to the store and what it answers: `Get` answers the
/// held state, `SetState` replaces it and answers nothing (the change reaches
/// every session through its cursor, the sender's too), `Ping` answers a
/// `Pong` with the same payload, and `Pong` does nothing.
pub open spec fn dispatch(st: StoreView, q: RequestView) -> (StoreView, Option<ResponseView>) {
    match q {
        RequestView::Get(_) => (st, Some(ResponseView::State(st.state))),
        RequestView::SetState(s) => (after_set(st, s), None),
        RequestView::Ping(p) => (st, Some(ResponseView::Pong(p))),
        RequestView::Pong(_) => (st, None),
    }
}

/// The Reader's step on one frame: the store after it and the action taken.
pub open spec fn reader_spec(st: StoreView, f: FrameView) -> (StoreView, ActionView) {
    match f {
        FrameView::Text(j) => match request_from_json(j) {
            Some(q) => {
                let (next, answer) = dispatch(st, q);
                match answer {
                    Some(x) => (next, ActionView::Reply(x)),
                    None => (next, ActionView::Continue),
                }
            },
            None => (st, ActionView::Stop(StopReason::Protocol)),
        },
        FrameView::Malformed => (st, ActionView::Stop(StopReason::Protocol)),
        FrameView::Close => (st, ActionView::Stop(StopReason::Closed)),
        FrameView::Other => (st, ActionView::Continue),
        FrameView::Failed => (st, ActionView::Stop(StopReason::Transport)),
    }
}

/// Carries out one request against the store.
pub fn handle_request(store: &mut StateStore, request: StateRequest) -> (r: Option<StateResponse>)
    ensures
        (final(store)@, response_view(r)) == dispatch(old(store)@, request@),
{
    match request {
        StateRequest::Get { get: _ } => Some(StateResponse::State { state: store.get() }),
        StateRequest::SetState { state } => {
            store.set(state);
            None
        },
        StateRequest::Ping { ping } => Some(StateResponse::Pong { pong: ping }),
        StateRequest::Pong { pong: _ } => None,
    }
}

/// The Reader's decision on one frame. A frame that is not a request ends the
/// session with a protocol error; it never touches the store.
pub fn reader_step(store: &mut StateStore, frame: InboundFrame) -> (r: ReaderAction)
    ensures
        (final(store)@, r@) == reader_spec(old(store)@, frame@),
{
    match frame {
        InboundFrame::Text(v) => match decode_request(&v) {
            Ok(request) => match handle_request(store, request) {
                Some(response) => ReaderAction::Reply(response),
                None => ReaderAction::Continue,
            },
            Err(_) => ReaderAction::Stop(StopReason::Protocol),
        },
        InboundFrame::Malformed => ReaderAction::Stop(StopReason::Protocol),
        InboundFrame::Close => ReaderAction::Stop(StopReason::Closed),
        InboundFrame::Other => ReaderAction::Continue,
        InboundFrame::Failed => ReaderAction::Stop(StopReason::Transport),
    }
}

/// The Broadcaster's step once its cursor was woken: the newest state as a
/// `State` response if the store changed since it last looked, else nothing.
pub fn broadcast_step(cursor: &mut Cursor, store: &StateStore) -> (r: Option<StateResponse>)
    ensures
        response_view(r) == (match delivery(old(cursor)@, store@) {
            Some(s) => Some(ResponseView::State(s)),
            None => None,
        }),
        final(cursor)@ == store@.version,
{
    match cursor.observe(store) {
        Some(state) => Some(StateResponse::State { state }),
        None => None,
    }
}

/// One of the three concurrent units of a session.
#[derive(Debug, Clone, Copy, PartialEq, Eq)]
pub enum Unit {
    Reader,
    Writer,
    Broadcaster,
}

/// Which of a session's units are still running.
pub struct SessionView {
    pub reader: bool,
    pub writer: bool,
    pub broadcaster: bool,
}

/// Whether a unit is still running.
pub open spec fn runs(s: SessionView, u: Unit) -> bool {
    match u {
        Unit::Reader => s.reader,
        Unit::Writer => s.writer,
        Unit::Broadcaster => s.broadcaster,
    }
}

/// A session lives while all three of its units run.
pub open spec fn alive(s: SessionView) -> bool {
    s.reader && s.writer && s.broadcaster
}

/// A session with no unit left.
pub open spec fn stopped() -> SessionView {
    SessionView { reader: false, writer: false, broadcaster: false }
}

/// The units to cancel when `u` has exited: every other one still running, in
/// the order Reader, Writer, Broadcaster.
pub open spec fn to_cancel(s: SessionView, u: Unit) -> Seq<Unit> {
    let r = if s.reader && u != Unit::Reader { seq![Unit::Reader] } else { Seq::empty() };
    let w = if s.writer && u != Unit::Writer { seq![Unit::Writer] } else { Seq::empty() };
    let b = if s.broadcaster && u != Unit::Broadcaster { seq![Unit::Broadcaster] } else { Seq::empty() };
    r + w + b
}

/// The supervisor of one session's units: the first unit to exit takes the
/// other two down with it.
pub struct Session {
    reader: bool,
    writer: bool,
    broadcaster: bool,
}

impl View for Session {
    type V = SessionView;

    closed spec fn view(&self) -> SessionView {
        SessionView { reader: self.reader, writer: self.writer, broadcaster: self.broadcaster }
    }
}

impl Session {
    /// A session whose three units have just been started.
    pub fn new() -> (r: Self)
        ensures
            r@ == (SessionView { reader: true, writer: true, broadcaster: true }),
    {
        Session { reader: true, writer: true, broadcaster: true }
    }

    pub fn is_alive(&self) -> (r: bool)
        ensures
            r == alive(self@),
    {
        self.reader && self.writer && self.broadcaster
    }

    /// Records that `unit` has finished, and returns the units that must now be
    /// cancelled. Afterwards nothing of the session runs.
    pub fn unit_exited(&mut self, unit: Unit) -> (r: Vec<Unit>)
        ensures
            r@ == to_cancel(old(self)@, unit),
            final(self)@ == stopped(),
    {
        let mut cancel: Vec<Unit> = Vec::new();
        let ghost s = self@;
        match unit {
            Unit::Reader => {},
            _ => if self.reader {
                cancel.push(Unit::Reader);
            },
        }
        let ghost after_reader = cancel@;
        match unit {
            Unit::Writer => {},
            _ => if self.writer {
                cancel.push(Unit::Writer);
            },
        }
        let ghost after_writer = cancel@;
        match unit {
            Unit::Broadcaster => {},
            _ => if self.broadcaster {
                cancel.push(Unit::Broadcaster);
            },
        }
        self.reader = false;
        self.writer = false;
        self.broadcaster = false;
        assert(cancel@ =~= to_cancel(s, unit));
        cancel
    }
}

/// A `{ping: P}` frame is answered with exactly one `{pong: P}` on the same
/// session and leaves the store as it was, so no cursor of any other session
/// is handed anything because of it.
pub proof fn lemma_ping_pong(st: StoreView, p: Seq<char>, seen: u64)
    ensures
        reader_spec(st, FrameView::Text(Json::Object(seq![("ping"@, Json::Str(p))])))
            == (st, ActionView::Reply(ResponseView::Pong(p))),
        delivery(seen, reader_spec(st, FrameView::Text(Json::Object(seq![("ping"@, Json::Str(p))]))).0)
            == delivery(seen, st),
{
    reveal_strlit("get");
    reveal_strlit("state");
    reveal_strlit("ping");
    let es = seq![("ping"@, Json::Str(p))];
    assert("ping"@ != "get"@) by {
        assert("ping"@.len() != "get"@.len());
    }
    assert("ping"@ != "state"@) by {
        assert("ping"@.len() != "state"@.len());
    }
    assert(es.drop_first() =~= Seq::<(Seq<char>, Json)>::empty());
    assert(crate::json::field_of(es.drop_first(), "get"@) is None);
    assert(crate::json::field_of(es, "get"@) is None);
    assert(crate::json::field_of(es.drop_first(), "state"@) is None);
    assert(crate::json::field_of(es, "state"@) is None);
    assert(crate::json::field_of(es, "ping"@) == Some(Json::Str(p)));
}

/// A session that sends `{state: S}` and then `{get: ..}` is answered with S,
/// whatever the store held before.
pub proof fn lemma_get_after_set(st: StoreView, s: crate::state::StateView, b: bool)
    ensures
        ({
            let set_frame = crate::codec::response_to_json(ResponseView::State(s));
            let get_frame = Json::Object(seq![("get"@, Json::Bool(b))]);
            let (after, first) = reader_spec(st, FrameView::Text(set_frame));
            let (last, second) = reader_spec(after, FrameView::Text(get_frame));
            &&& first == ActionView::Continue
            &&& last == after
            &&& second == ActionView::Reply(ResponseView::State(s))
        }),
{
    crate::codec::lemma_state_round_trip(s);
    let es = seq![("get"@, Json::Bool(b))];
    assert(crate::json::field_of(es, "get"@) == Some(Json::Bool(b)));
}

/// When the transport of session `k` fails, its Reader stops without
/// touching the store; when any unit of that session exits, the session stops
/// whole (its other running units are the ones cancelled) and every other
/// session is left exactly as it was, with the same store to read, replace and
/// be handed changes from.
pub proof fn lemma_isolation(st: StoreView, sessions: Seq<SessionView>, k: int, u: Unit)
    requires
        0 <= k < sessions.len(),
    ensures
        reader_spec(st, FrameView::Failed) == (st, ActionView::Stop(StopReason::Transport)),
        reader_spec(st, FrameView::Close) == (st, ActionView::Stop(StopReason::Closed)),
        ({
            let after = sessions.update(k, stopped());
            &&& !alive(after[k])
            &&& forall|j: int| 0 <= j < sessions.len() && j != k ==> after[j] == sessions[j]
            &&& forall|v: Unit| #[trigger] runs(sessions[k], v) && v != u
                ==> to_cancel(sessions[k], u).contains(v)
            &&& forall|v: Unit| #[trigger] to_cancel(sessions[k], u).contains(v)
                ==> runs(sessions[k], v) && v != u
        }),
{
    let s = sessions[k];
    let c = to_cancel(s, u);
    assert forall|v: Unit| #[trigger] runs(s, v) && v != u implies c.contains(v) by {
        match v {
            Unit::Reader => assert(c[0] == v),
            Unit::Writer => {
                if s.reader && u != Unit::Reader {
                    assert(c[1] == v);
                } else {
                    assert(c[0] == v);
                }
            },
            Unit::Broadcaster => {
                assert(c[c.len() - 1] == v);
            },
        }
    }
    assert forall|v: Unit| #[trigger] c.contains(v) implies runs(s, v) && v != u by {
        let i = choose|i: int| 0 <= i < c.len() && c[i] == v;
    }
}

} // verus!
