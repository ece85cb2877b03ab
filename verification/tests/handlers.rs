use simplews::{
    answer_path, handle_message, handle_request, handle_ws_message, route, Action, HandlerError,
    InboundMessage, Reply, ServerRequest, State,
};

const OUR_NODE: &str = "fake.os";

fn request(body: &str) -> InboundMessage {
    InboundMessage {
        source_node: OUR_NODE.to_string(),
        is_request: true,
        body: body.as_bytes().to_vec(),
    }
}

fn http_envelope(url: &str) -> String {
    format!(
        "{{\"Http\":{{\"source_socket_addr\":null,\"method\":\"GET\",\"url\":\"{}\",\
         \"bound_path\":\"/\",\"headers\":{{}},\"url_params\":{{}},\"query_params\":{{}}}}}}",
        url
    )
}

#[test]
fn route_serves_only_the_root() {
    assert_eq!(route("/"), Action::ServeUi);
    assert_eq!(route("/missing"), Action::NotFound);
    assert_eq!(route(""), Action::NotFound);
    assert_eq!(route("//"), Action::NotFound);
    assert_eq!(route("/ws"), Action::NotFound);
    assert_eq!(route("/index.html"), Action::NotFound);
    assert_eq!(route(" /"), Action::NotFound);
}

#[test]
fn answer_path_routes_a_path_and_fails_without_one() {
    assert_eq!(answer_path(Ok("/".to_string())), Ok(Action::ServeUi));
    assert_eq!(answer_path(Ok("/missing".to_string())), Ok(Action::NotFound));
    assert_eq!(answer_path(Ok(String::new())), Ok(Action::NotFound));
    assert_eq!(
        answer_path(Err(anyhow::Error::msg("relative URL without a base"))),
        Err(HandlerError::InvalidUrl)
    );
}

#[test]
fn http_request_for_the_root_is_served() {
    let mut state = State::new();
    let message = request(&http_envelope("http://localhost:8080/simplews:simplews:template.os/"));
    assert_eq!(handle_message(OUR_NODE, &mut state, &message), Ok(Action::ServeUi));
    assert_eq!(state.counter(), 0);
}

#[test]
fn http_request_for_the_bare_process_prefix_is_served() {
    let mut state = State::new();
    let message = request(&http_envelope("http://localhost:8080/simplews:simplews:template.os"));
    assert_eq!(handle_message(OUR_NODE, &mut state, &message), Ok(Action::ServeUi));
}

#[test]
fn http_request_with_a_query_is_routed_by_its_path() {
    let mut state = State::new();
    let message =
        request(&http_envelope("http://localhost:8080/simplews:simplews:template.os/?tab=1"));
    assert_eq!(handle_message(OUR_NODE, &mut state, &message), Ok(Action::ServeUi));
}

#[test]
fn http_request_for_another_path_is_not_found() {
    let mut state = State::new();
    let message =
        request(&http_envelope("http://localhost:8080/simplews:simplews:template.os/missing"));
    assert_eq!(handle_message(OUR_NODE, &mut state, &message), Ok(Action::NotFound));
    let message =
        request(&http_envelope("http://localhost:8080/simplews:simplews:template.os/a/b"));
    assert_eq!(handle_message(OUR_NODE, &mut state, &message), Ok(Action::NotFound));
    assert_eq!(state.counter(), 0);
}

#[test]
fn http_request_with_unreadable_url_is_an_error() {
    let mut state = State::new();
    let message = request(&http_envelope("not a url"));
    assert_eq!(handle_message(OUR_NODE, &mut state, &message), Err(HandlerError::InvalidUrl));
    let message = request(&http_envelope("mailto:someone@example.com"));
    assert_eq!(handle_message(OUR_NODE, &mut state, &message), Err(HandlerError::InvalidUrl));
    assert_eq!(state.counter(), 0);
}

#[test]
fn open_envelope_records_the_channel() {
    let mut state = State::new();
    let message = request("{\"WebSocketOpen\":{\"path\":\"/ws\",\"channel_id\":7}}");
    assert_eq!(handle_message(OUR_NODE, &mut state, &message), Ok(Action::Nothing));
    assert!(state.is_open(7));
    assert!(!state.is_open(8));
}

#[test]
fn close_envelope_forgets_the_channel() {
    let mut state = State::new();
    let open = request("{\"WebSocketOpen\":{\"path\":\"/ws\",\"channel_id\":7}}");
    let close = request("{\"WebSocketClose\":7}");
    assert_eq!(handle_message(OUR_NODE, &mut state, &open), Ok(Action::Nothing));
    assert_eq!(handle_message(OUR_NODE, &mut state, &close), Ok(Action::Nothing));
    assert!(!state.is_open(7));
}

#[test]
fn close_envelope_for_unknown_channel_is_tolerated() {
    let mut state = State::new();
    let close = request("{\"WebSocketClose\":99}");
    assert_eq!(handle_message(OUR_NODE, &mut state, &close), Ok(Action::Nothing));
    assert!(!state.is_open(99));
    assert_eq!(state.counter(), 0);
}

#[test]
fn push_envelope_asks_for_the_payload() {
    let mut state = State::new();
    let push = request("{\"WebSocketPush\":{\"channel_id\":7,\"message_type\":\"Text\"}}");
    assert_eq!(handle_message(OUR_NODE, &mut state, &push), Ok(Action::FetchPayload(7)));
    let push = request("{\"WebSocketPush\":{\"channel_id\":8,\"message_type\":\"Binary\"}}");
    assert_eq!(handle_message(OUR_NODE, &mut state, &push), Ok(Action::FetchPayload(8)));
    assert_eq!(state.counter(), 0);
    assert!(!state.is_open(7));
}

#[test]
fn message_from_another_node_is_dropped() {
    let mut state = State::new();
    let mut message = request("{\"WebSocketOpen\":{\"path\":\"/ws\",\"channel_id\":7}}");
    message.source_node = "other.os".to_string();
    assert_eq!(handle_message(OUR_NODE, &mut state, &message), Ok(Action::Nothing));
    assert!(!state.is_open(7));
}

#[test]
fn malformed_message_from_another_node_is_dropped_without_error() {
    let mut state = State::new();
    let mut message = request("garbage");
    message.source_node = "other.os".to_string();
    assert_eq!(handle_message(OUR_NODE, &mut state, &message), Ok(Action::Nothing));
}

#[test]
fn response_is_dropped() {
    let mut state = State::new();
    let mut message = request("{\"WebSocketOpen\":{\"path\":\"/ws\",\"channel_id\":7}}");
    message.is_request = false;
    assert_eq!(handle_message(OUR_NODE, &mut state, &message), Ok(Action::Nothing));
    assert!(!state.is_open(7));
    let mut message = request("garbage");
    message.is_request = false;
    assert_eq!(handle_message(OUR_NODE, &mut state, &message), Ok(Action::Nothing));
}

#[test]
fn malformed_envelope_is_an_error_and_changes_nothing() {
    let mut state = State::new();
    state.record_open(1);
    for body in ["", "garbage", "{}", "\"Get\"", "{\"WebSocketClose\":\"seven\"}", "{\"Unknown\":1}"] {
        let message = request(body);
        assert_eq!(
            handle_message(OUR_NODE, &mut state, &message),
            Err(HandlerError::MalformedEnvelope)
        );
    }
    assert!(state.is_open(1));
    assert_eq!(state.counter(), 0);
}

#[test]
fn handle_request_follows_the_lifecycle() {
    let mut state = State::new();
    assert_eq!(
        handle_request(&mut state, ServerRequest::WebSocketOpen { channel_id: 3 }),
        Ok(Action::Nothing)
    );
    assert!(state.is_open(3));
    assert_eq!(
        handle_request(&mut state, ServerRequest::WebSocketPush { channel_id: 3 }),
        Ok(Action::FetchPayload(3))
    );
    assert!(state.is_open(3));
    assert_eq!(handle_request(&mut state, ServerRequest::WebSocketClose(3)), Ok(Action::Nothing));
    assert!(!state.is_open(3));
    assert_eq!(handle_request(&mut state, ServerRequest::WebSocketClose(3)), Ok(Action::Nothing));
    assert!(!state.is_open(3));
}

#[test]
fn push_without_payload_is_an_error() {
    let mut state = State::new();
    assert_eq!(handle_ws_message(&mut state, 7, None), Err(HandlerError::MissingPayload));
    assert_eq!(state.counter(), 0);
}

#[test]
fn push_with_empty_payload_gets_no_reply() {
    let mut state = State::new();
    state.apply(simplews::CounterMessage::Increment);
    assert_eq!(handle_ws_message(&mut state, 7, Some(b"")), Err(HandlerError::MalformedCommand));
    assert_eq!(state.counter(), 1);
}

#[test]
fn push_with_invalid_json_gets_no_reply() {
    let mut state = State::new();
    state.apply(simplews::CounterMessage::Increment);
    for payload in [&b"Increment"[..], b"{", b"\"Increment", b"\"Bump\"", b"{\"Increment\":null}", b"42"] {
        assert_eq!(
            handle_ws_message(&mut state, 7, Some(payload)),
            Err(HandlerError::MalformedCommand)
        );
    }
    assert_eq!(state.counter(), 1);
}

#[test]
fn push_replies_on_the_channel_it_came_on() {
    let mut state = State::new();
    let reply = handle_ws_message(&mut state, 12, Some(b"\"Get\"")).unwrap();
    assert_eq!(reply.channel_id, 12);
    let reply = handle_ws_message(&mut state, u32::MAX, Some(b"\"Get\"")).unwrap();
    assert_eq!(reply.channel_id, u32::MAX);
}

#[test]
fn push_to_a_channel_that_is_not_open_is_answered() {
    let mut state = State::new();
    assert!(!state.is_open(5));
    assert_eq!(
        handle_ws_message(&mut state, 5, Some(b"\"Increment\"")),
        Ok(Reply { channel_id: 5, body: b"{\"value\":1}".to_vec() })
    );
    assert!(!state.is_open(5));
}

#[test]
fn push_below_zero_reports_a_negative_value() {
    let mut state = State::new();
    assert_eq!(
        handle_ws_message(&mut state, 1, Some(b"\"Decrement\"")),
        Ok(Reply { channel_id: 1, body: b"{\"value\":-1}".to_vec() })
    );
    assert_eq!(
        handle_ws_message(&mut state, 1, Some(b"\"Decrement\"")),
        Ok(Reply { channel_id: 1, body: b"{\"value\":-2}".to_vec() })
    );
}
