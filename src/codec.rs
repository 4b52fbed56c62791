use vstd::prelude::*;
use crate::json::{Json, JsonValue, entries_view, field_of, find_field, lemma_object_view};
use crate::state::{CurrentState, StateView};

verus! {

/// A request frame from a client.
#[derive(Debug, PartialEq)]
pub enum StateRequest {
    Get { get: bool },
    SetState { state: CurrentState },
    Ping { ping: String },
    Pong { pong: String },
}

/// A response frame to a client.
#[derive(Debug, PartialEq)]
pub enum StateResponse {
    State { state: CurrentState },
    Pong { pong: String },
}

/// A frame that has none of the request shapes.
#[derive(Debug, Clone, Copy, PartialEq, Eq)]
pub enum ProtocolError {
    UnrecognizedFrame,
}

/// The mathematical form of a request.
pub enum RequestView {
    Get(bool),
    SetState(StateView),
    Ping(Seq<char>),
    Pong(Seq<char>),
}

/// The mathematical form of a response.
pub enum ResponseView {
    State(StateView),
    Pong(Seq<char>),
}

impl View for StateRequest {
    type V = RequestView;

    open spec fn view(&self) -> RequestView {
        match self {
            StateRequest::Get { get } => RequestView::Get(*get),
            StateRequest::SetState { state } => RequestView::SetState(state@),
            StateRequest::Ping { ping } => RequestView::Ping(ping@),
            StateRequest::Pong { pong } => RequestView::Pong(pong@),
        }
    }
}

impl View for StateResponse {
    type V = ResponseView;

    open spec fn view(&self) -> ResponseView {
        match self {
            StateResponse::State { state } => ResponseView::State(state@),
            StateResponse::Pong { pong } => ResponseView::Pong(pong@),
        }
    }
}

/// The boolean under `key`, if the first entry so named holds one.
pub open spec fn bool_field(entries: Seq<(Seq<char>, Json)>, key: Seq<char>) -> Option<bool> {
    match field_of(entries, key) {
        Some(Json::Bool(b)) => Some(b),
        _ => None,
    }
}

/// The string under `key`, if the first entry so named holds one.
pub open spec fn str_field(entries: Seq<(Seq<char>, Json)>, key: Seq<char>) -> Option<Seq<char>> {
    match field_of(entries, key) {
        Some(Json::Str(s)) => Some(s),
        _ => None,
    }
}

/// A state written as `{id: string, content: any}`; other keys are ignored.
pub open spec fn state_from_json(j: Json) -> Option<StateView> {
    match j {
        Json::Object(es) => {
            if str_field(es, "id"@) is Some && field_of(es, "content"@) is Some {
                Some(StateView { id: str_field(es, "id"@)->0, content: field_of(es, "content"@)->0 })
            } else {
                None
            }
        },
        _ => None,
    }
}

/// The request a frame stands for. The shapes are tried in the order
/// `{get: bool}`, `{state: state}`, `{ping: string}`, `{pong: string}`; the
/// first that fits decides, and keys that no shape names are ignored.
pub open spec fn request_from_json(j: Json) -> Option<RequestView> {
    match j {
        Json::Object(es) => {
            if bool_field(es, "get"@) is Some {
                Some(RequestView::Get(bool_field(es, "get"@)->0))
            } else if field_of(es, "state"@) is Some && state_from_json(field_of(es, "state"@)->0) is Some {
                Some(RequestView::SetState(state_from_json(field_of(es, "state"@)->0)->0))
            } else if str_field(es, "ping"@) is Some {
                Some(RequestView::Ping(str_field(es, "ping"@)->0))
            } else if str_field(es, "pong"@) is Some {
                Some(RequestView::Pong(str_field(es, "pong"@)->0))
            } else {
                None
            }
        },
        _ => None,
    }
}

/// A state written as a frame value: `{id: .., content: ..}`.
pub open spec fn state_to_json(s: StateView) -> Json {
    Json::Object(seq![("id"@, Json::Str(s.id)), ("content"@, s.content)])
}

/// The frame for a response: `{state: ..}` or `{pong: ..}`.
pub open spec fn response_to_json(r: ResponseView) -> Json {
    match r {
        ResponseView::State(s) => Json::Object(seq![("state"@, state_to_json(s))]),
        ResponseView::Pong(p) => Json::Object(seq![("pong"@, Json::Str(p))]),
    }
}

/// Reads a state out of a frame value, if it has the state shape.
pub fn decode_state(v: &JsonValue) -> (r: Option<CurrentState>)
    ensures
        match state_from_json(v@) {
            Some(s) => r matches Some(x) && x@ == s,
            None => r is None,
        },
{
    match v {
        JsonValue::Object(entries) => {
            proof {
                lemma_object_view(v);
            }
            let id_key = "id".to_owned();
            let content_key = "content".to_owned();
            match (find_field(entries, &id_key), find_field(entries, &content_key)) {
                (Some(a), Some(c)) => match &entries[a].1 {
                    JsonValue::Str(id) => Some(
                        CurrentState { id: id.clone(), content: entries[c].1.duplicate() },
                    ),
                    _ => None,
                },
                _ => None,
            }
        },
        _ => None,
    }
}

/// Decodes a request frame; a frame with none of the request shapes is a
/// protocol error.
pub fn decode_request(frame: &JsonValue) -> (r: Result<StateRequest, ProtocolError>)
    ensures
        match request_from_json(frame@) {
            Some(q) => r matches Ok(x) && x@ == q,
            None => r == Err::<StateRequest, ProtocolError>(ProtocolError::UnrecognizedFrame),
        },
{
    let entries = match frame {
        JsonValue::Object(entries) => entries,
        _ => return Err(ProtocolError::UnrecognizedFrame),
    };
    proof {
        lemma_object_view(frame);
    }
    let get_key = "get".to_owned();
    if let Some(i) = find_field(entries, &get_key) {
        if let JsonValue::Bool(b) = &entries[i].1 {
            return Ok(StateRequest::Get { get: *b });
        }
    }
    let state_key = "state".to_owned();
    if let Some(i) = find_field(entries, &state_key) {
        if let Some(state) = decode_state(&entries[i].1) {
            return Ok(StateRequest::SetState { state });
        }
    }
    let ping_key = "ping".to_owned();
    if let Some(i) = find_field(entries, &ping_key) {
        if let JsonValue::Str(p) = &entries[i].1 {
            return Ok(StateRequest::Ping { ping: p.clone() });
        }
    }
    let pong_key = "pong".to_owned();
    if let Some(i) = find_field(entries, &pong_key) {
        if let JsonValue::Str(p) = &entries[i].1 {
            return Ok(StateRequest::Pong { pong: p.clone() });
        }
    }
    Err(ProtocolError::UnrecognizedFrame)
}

/// Writes a response as a frame value.
pub fn encode_response(response: StateResponse) -> (r: JsonValue)
    ensures
        r@ == response_to_json(response@),
{
    match response {
        StateResponse::State { state } => {
            let ghost s = state@;
            let CurrentState { id, content } = state;
            let inner = vec![
                ("id".to_owned(), JsonValue::Str(id)),
                ("content".to_owned(), content),
            ];
            let inner_value = JsonValue::Object(inner);
            proof {
                lemma_object_view(&inner_value);
                assert(entries_view(inner@) =~= state_to_json(s)->Object_0);
            }
            let outer = vec![("state".to_owned(), inner_value)];
            let r = JsonValue::Object(outer);
            proof {
                lemma_object_view(&r);
                assert(entries_view(outer@) =~= seq![("state"@, state_to_json(s))]);
            }
            r
        },
        StateResponse::Pong { pong } => {
            let ghost p = pong@;
            let outer = vec![("pong".to_owned(), JsonValue::Str(pong))];
            let r = JsonValue::Object(outer);
            proof {
                lemma_object_view(&r);
                assert(entries_view(outer@) =~= seq![("pong"@, Json::Str(p))]);
            }
            r
        },
    }
}

/// A state written as a `{state: ..}` response frame reads back, as a request,
/// as the request to set exactly that state.
pub proof fn lemma_state_round_trip(s: StateView)
    ensures
        request_from_json(response_to_json(ResponseView::State(s))) == Some(RequestView::SetState(s)),
{
    reveal_strlit("get");
    reveal_strlit("state");
    reveal_strlit("id");
    reveal_strlit("content");
    let inner = state_to_json(s)->Object_0;
    let outer = seq![("state"@, state_to_json(s))];
    assert("state"@ != "get"@) by {
        assert("state"@.len() != "get"@.len());
    }
    assert("id"@ != "content"@) by {
        assert("id"@.len() != "content"@.len());
    }
    assert(outer.drop_first() =~= Seq::<(Seq<char>, Json)>::empty());
    assert(field_of(outer.drop_first(), "get"@) is None);
    assert(field_of(outer, "get"@) is None);
    assert(field_of(outer, "state"@) == Some(state_to_json(s)));
    assert(inner.drop_first().drop_first() =~= Seq::<(Seq<char>, Json)>::empty());
    assert(field_of(inner.drop_first(), "content"@) == Some(s.content));
    assert(field_of(inner, "content"@) == Some(s.content));
    assert(field_of(inner, "id"@) == Some(Json::Str(s.id)));
}

} // verus!
