use companion_hub::codec::StateResponse;
use companion_hub::json::JsonValue;
use companion_hub::session::{
    broadcast_step, handle_request, reader_step, InboundFrame, ReaderAction, Session, StopReason, Unit,
};
use companion_hub::codec::StateRequest;
use companion_hub::state::CurrentState;
use companion_hub::store::StateStore;

fn s(text: &str) -> String {
    text.to_string()
}

fn obj(entries: Vec<(&str, JsonValue)>) -> JsonValue {
    JsonValue::Object(entries.into_iter().map(|(k, v)| (s(k), v)).collect())
}

fn state(id: &str, content: JsonValue) -> CurrentState {
    CurrentState { id: s(id), content }
}

fn set_frame(id: &str, content: JsonValue) -> InboundFrame {
    InboundFrame::Text(obj(vec![("state", obj(vec![("id", JsonValue::Str(s(id))), ("content", content)]))]))
}

fn x1() -> JsonValue {
    obj(vec![("x", JsonValue::Number(s("1")))])
}

#[test]
fn store_starts_empty() {
    let store = StateStore::new();
    assert_eq!(store.get(), state("", JsonValue::Null));
    assert_eq!(store.version(), 0);
}

#[test]
fn store_set_then_get() {
    let mut store = StateStore::default();
    store.set(state("a", JsonValue::Bool(true)));
    assert_eq!(store.get(), state("a", JsonValue::Bool(true)));
    assert_eq!(store.version(), 1);
}

#[test]
fn cursor_coalesces_changes() {
    let mut store = StateStore::new();
    let mut cursor = store.subscribe();
    assert!(!cursor.has_changed(&store));
    assert_eq!(cursor.observe(&store), None);
    store.set(state("1", JsonValue::Null));
    store.set(state("2", JsonValue::Null));
    store.set(state("3", x1()));
    assert!(cursor.has_changed(&store));
    assert_eq!(cursor.observe(&store), Some(state("3", x1())));
    assert_eq!(cursor.observe(&store), None);
}

#[test]
fn convergence_last_write_wins() {
    let mut store = StateStore::new();
    let mut cursors = vec![store.subscribe(), store.subscribe(), store.subscribe()];
    store.set(state("from-a", JsonValue::Null));
    store.set(state("from-b", JsonValue::Bool(false)));
    store.set(state("from-a-again", x1()));
    for cursor in cursors.iter_mut() {
        let seen = cursor.observe(&store).unwrap();
        assert_eq!(seen.id, "from-a-again");
    }
}

#[test]
fn handle_each_request() {
    let mut store = StateStore::new();
    assert_eq!(handle_request(&mut store, StateRequest::Ping { ping: s("P") }), Some(StateResponse::Pong { pong: s("P") }));
    assert_eq!(handle_request(&mut store, StateRequest::Pong { pong: s("P") }), None);
    assert_eq!(store.version(), 0);
    assert_eq!(handle_request(&mut store, StateRequest::SetState { state: state("k", x1()) }), None);
    assert_eq!(store.version(), 1);
    assert_eq!(
        handle_request(&mut store, StateRequest::Get { get: true }),
        Some(StateResponse::State { state: state("k", x1()) })
    );
}

#[test]
fn ping_answers_pong_only_on_same_session() {
    let mut store = StateStore::new();
    let mut other = store.subscribe();
    let ping = InboundFrame::Text(obj(vec![("ping", JsonValue::Str(s("P")))]));
    assert_eq!(reader_step(&mut store, ping), ReaderAction::Reply(StateResponse::Pong { pong: s("P") }));
    assert_eq!(broadcast_step(&mut other, &store), None);
}

#[test]
fn get_returns_own_write() {
    let mut store = StateStore::new();
    let content = obj(vec![("nested", JsonValue::Array(vec![JsonValue::Str(s("v"))]))]);
    assert_eq!(reader_step(&mut store, set_frame("S", content.duplicate())), ReaderAction::Continue);
    let get = InboundFrame::Text(obj(vec![("get", JsonValue::Bool(true))]));
    assert_eq!(
        reader_step(&mut store, get),
        ReaderAction::Reply(StateResponse::State { state: state("S", content) })
    );
}

#[test]
fn reader_stops_on_bad_frames() {
    let mut store = StateStore::new();
    assert_eq!(reader_step(&mut store, InboundFrame::Malformed), ReaderAction::Stop(StopReason::Protocol));
    assert_eq!(
        reader_step(&mut store, InboundFrame::Text(obj(vec![("nothing", JsonValue::Null)]))),
        ReaderAction::Stop(StopReason::Protocol)
    );
    assert_eq!(reader_step(&mut store, InboundFrame::Close), ReaderAction::Stop(StopReason::Closed));
    assert_eq!(reader_step(&mut store, InboundFrame::Failed), ReaderAction::Stop(StopReason::Transport));
    assert_eq!(reader_step(&mut store, InboundFrame::Other), ReaderAction::Continue);
    assert_eq!(store.version(), 0);
}

#[test]
fn scenario_broadcast_then_ping() {
    let mut store = StateStore::new();
    let mut cursor_a = store.subscribe();
    let mut cursor_b = store.subscribe();
    let mut cursor_c = store.subscribe();
    assert_eq!(broadcast_step(&mut cursor_b, &store), None);
    assert_eq!(broadcast_step(&mut cursor_c, &store), None);

    assert_eq!(reader_step(&mut store, set_frame("s1", x1())), ReaderAction::Continue);
    let expected = Some(StateResponse::State { state: state("s1", x1()) });
    assert_eq!(broadcast_step(&mut cursor_a, &store), expected);
    assert_eq!(broadcast_step(&mut cursor_b, &store), expected);
    assert_eq!(broadcast_step(&mut cursor_c, &store), expected);

    let ping = InboundFrame::Text(obj(vec![("ping", JsonValue::Str(s("hello")))]));
    assert_eq!(reader_step(&mut store, ping), ReaderAction::Reply(StateResponse::Pong { pong: s("hello") }));
    assert_eq!(broadcast_step(&mut cursor_b, &store), None);
    assert_eq!(broadcast_step(&mut cursor_c, &store), None);
}

#[test]
fn session_teardown_cancels_the_rest() {
    let mut session = Session::new();
    assert!(session.is_alive());
    assert_eq!(session.unit_exited(Unit::Writer), vec![Unit::Reader, Unit::Broadcaster]);
    assert!(!session.is_alive());
    assert_eq!(session.unit_exited(Unit::Reader), Vec::<Unit>::new());

    let mut other = Session::new();
    assert_eq!(other.unit_exited(Unit::Reader), vec![Unit::Writer, Unit::Broadcaster]);
}

#[test]
fn disconnect_leaves_other_sessions_working() {
    let mut store = StateStore::new();
    let mut first = Session::new();
    let second = Session::new();
    let mut second_cursor = store.subscribe();
    assert_eq!(reader_step(&mut store, InboundFrame::Failed), ReaderAction::Stop(StopReason::Transport));
    assert_eq!(first.unit_exited(Unit::Reader), vec![Unit::Writer, Unit::Broadcaster]);
    assert!(second.is_alive());
    assert_eq!(reader_step(&mut store, set_frame("after", JsonValue::Null)), ReaderAction::Continue);
    assert_eq!(
        broadcast_step(&mut second_cursor, &store),
        Some(StateResponse::State { state: state("after", JsonValue::Null) })
    );
}
