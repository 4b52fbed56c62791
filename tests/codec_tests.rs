use companion_hub::codec::{decode_request, encode_response, ProtocolError, StateRequest, StateResponse};
use companion_hub::json::JsonValue;
use companion_hub::state::CurrentState;

fn s(text: &str) -> String {
    text.to_string()
}

fn obj(entries: Vec<(&str, JsonValue)>) -> JsonValue {
    JsonValue::Object(entries.into_iter().map(|(k, v)| (s(k), v)).collect())
}

fn nested_content() -> JsonValue {
    obj(vec![
        ("x", JsonValue::Number(s("1"))),
        ("list", JsonValue::Array(vec![
            JsonValue::Null,
            JsonValue::Bool(false),
            JsonValue::Number(s("-2.5e3")),
            JsonValue::Str(s("text")),
            obj(vec![("deep", JsonValue::Array(vec![]))]),
        ])),
        ("empty", obj(vec![])),
    ])
}

#[test]
fn decode_get() {
    let frame = obj(vec![("get", JsonValue::Bool(true))]);
    assert_eq!(decode_request(&frame), Ok(StateRequest::Get { get: true }));
}

#[test]
fn decode_set() {
    let frame = obj(vec![(
        "state",
        obj(vec![("id", JsonValue::Str(s("s1"))), ("content", obj(vec![("x", JsonValue::Number(s("1")))]))]),
    )]);
    let expected = CurrentState { id: s("s1"), content: obj(vec![("x", JsonValue::Number(s("1")))]) };
    assert_eq!(decode_request(&frame), Ok(StateRequest::SetState { state: expected }));
}

#[test]
fn decode_set_with_null_content_and_extra_keys() {
    let frame = obj(vec![
        ("extra", JsonValue::Number(s("3"))),
        ("state", obj(vec![
            ("content", JsonValue::Null),
            ("other", JsonValue::Bool(true)),
            ("id", JsonValue::Str(s(""))),
        ])),
    ]);
    let expected = CurrentState { id: s(""), content: JsonValue::Null };
    assert_eq!(decode_request(&frame), Ok(StateRequest::SetState { state: expected }));
}

#[test]
fn decode_ping_and_pong() {
    let ping = obj(vec![("ping", JsonValue::Str(s("P")))]);
    assert_eq!(decode_request(&ping), Ok(StateRequest::Ping { ping: s("P") }));
    let pong = obj(vec![("pong", JsonValue::Str(s("Q")))]);
    assert_eq!(decode_request(&pong), Ok(StateRequest::Pong { pong: s("Q") }));
}

#[test]
fn decode_first_shape_wins() {
    let frame = obj(vec![("ping", JsonValue::Str(s("p"))), ("get", JsonValue::Bool(false))]);
    assert_eq!(decode_request(&frame), Ok(StateRequest::Get { get: false }));
    let frame = obj(vec![("get", JsonValue::Number(s("1"))), ("pong", JsonValue::Str(s("x")))]);
    assert_eq!(decode_request(&frame), Ok(StateRequest::Pong { pong: s("x") }));
}

#[test]
fn decode_rejects_other_shapes() {
    let bad = vec![
        JsonValue::Null,
        JsonValue::Str(s("get")),
        JsonValue::Array(vec![JsonValue::Bool(true)]),
        obj(vec![]),
        obj(vec![("get", JsonValue::Str(s("yes")))]),
        obj(vec![("ping", JsonValue::Number(s("5")))]),
        obj(vec![("state", obj(vec![("id", JsonValue::Str(s("a")))]))]),
        obj(vec![("state", obj(vec![("id", JsonValue::Number(s("1"))), ("content", JsonValue::Null)]))]),
        obj(vec![("unknown", JsonValue::Bool(true))]),
    ];
    for frame in bad {
        assert_eq!(decode_request(&frame), Err(ProtocolError::UnrecognizedFrame));
    }
}

#[test]
fn encode_state_frame() {
    let state = CurrentState { id: s("s1"), content: obj(vec![("x", JsonValue::Number(s("1")))]) };
    let expected = obj(vec![(
        "state",
        obj(vec![("id", JsonValue::Str(s("s1"))), ("content", obj(vec![("x", JsonValue::Number(s("1")))]))]),
    )]);
    assert_eq!(encode_response(StateResponse::State { state }), expected);
}

#[test]
fn encode_pong_frame() {
    let expected = obj(vec![("pong", JsonValue::Str(s("hello")))]);
    assert_eq!(encode_response(StateResponse::Pong { pong: s("hello") }), expected);
}

#[test]
fn state_round_trip() {
    let contents = vec![
        JsonValue::Null,
        JsonValue::Bool(true),
        JsonValue::Number(s("42")),
        JsonValue::Str(s("quoted \"text\"")),
        JsonValue::Array(vec![JsonValue::Number(s("1")), JsonValue::Null]),
        nested_content(),
    ];
    for content in contents {
        let state = CurrentState { id: s("round"), content: content.duplicate() };
        let frame = encode_response(StateResponse::State { state });
        let back = decode_request(&frame);
        assert_eq!(back, Ok(StateRequest::SetState { state: CurrentState { id: s("round"), content } }));
    }
}

#[test]
fn duplicate_is_deep_copy() {
    let v = nested_content();
    assert_eq!(v.duplicate(), v);
    let st = CurrentState { id: s("d"), content: nested_content() };
    assert_eq!(st.duplicate(), st);
}

#[test]
fn new_state_is_empty() {
    let st = CurrentState::new();
    assert_eq!(st.id, "");
    assert_eq!(st.content, JsonValue::Null);
    assert_eq!(CurrentState::default(), st);
}
