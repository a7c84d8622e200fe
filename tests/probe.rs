use morpheus_status::exchange::fetch_health;
use morpheus_status::probe::{Action, Event, Probe, Stage, CHUNK_LIMIT, PROXY_AUTHORITY, PROXY_PATH};
use morpheus_status::report::{decimal_text, status_message, Field, ProbeError};

fn sent() -> Vec<Event> {
    vec![
        Event::FieldAccepted,
        Event::FieldAccepted,
        Event::FieldAccepted,
        Event::FieldAccepted,
        Event::Submitted,
    ]
}

fn healthy(chunks: &[&[u8]]) -> Vec<Event> {
    let mut r = sent();
    r.push(Event::Response(200));
    r.push(Event::BodyTaken);
    r.push(Event::StreamOpened);
    for c in chunks {
        r.push(Event::Chunk(c.to_vec()));
    }
    r.push(Event::Chunk(Vec::new()));
    r.push(Event::Finished);
    r
}

fn setup_actions() -> Vec<Action> {
    vec![
        Action::SetField(Field::Method),
        Action::SetField(Field::Scheme),
        Action::SetField(Field::Authority),
        Action::SetField(Field::PathWithQuery),
        Action::Submit,
        Action::Get,
    ]
}

fn report(replies: Vec<Event>) -> String {
    let x = fetch_health(replies);
    status_message(&x.outcome.expect("the replies carry the probe to its outcome"))
}

fn count(actions: &[Action], a: Action) -> usize {
    actions.iter().filter(|x| **x == a).count()
}

#[test]
fn healthy_body_is_reported() {
    let x = fetch_health(healthy(&[b"{\"status\":", b"\"ok\"}"]));
    assert_eq!(x.outcome, Some(Ok("{\"status\":\"ok\"}".to_string())));
    assert_eq!(
        status_message(&x.outcome.unwrap()),
        "\u{2705} Morpheus proxy healthy\n{\"status\":\"ok\"}"
    );
}

#[test]
fn healthy_actions_in_order() {
    let x = fetch_health(healthy(&[b"ok"]));
    let mut expected = setup_actions();
    expected.extend([
        Action::TakeBody,
        Action::OpenStream,
        Action::Read(4096),
        Action::Read(4096),
        Action::Finish,
        Action::Report,
    ]);
    assert_eq!(x.actions, expected);
}

#[test]
fn multibyte_body_is_decoded() {
    let x = fetch_health(healthy(&["caf\u{e9} \u{2713}".as_bytes()]));
    assert_eq!(x.outcome, Some(Ok("caf\u{e9} \u{2713}".to_string())));
}

#[test]
fn multibyte_char_split_across_chunks() {
    let bytes = "\u{e9}".as_bytes();
    let x = fetch_health(healthy(&[&bytes[..1], &bytes[1..]]));
    assert_eq!(x.outcome, Some(Ok("\u{e9}".to_string())));
}

#[test]
fn empty_body_is_healthy() {
    assert_eq!(report(healthy(&[])), "\u{2705} Morpheus proxy healthy\n");
}

#[test]
fn not_found_names_status_and_reads_no_body() {
    let mut r = sent();
    r.push(Event::Response(404));
    r.push(Event::BodyTaken);
    r.push(Event::StreamOpened);
    r.push(Event::Chunk(b"not here".to_vec()));
    let x = fetch_health(r);
    assert_eq!(x.outcome, Some(Err(ProbeError::UnexpectedStatus(404))));
    let mut expected = setup_actions();
    expected.push(Action::Report);
    assert_eq!(x.actions, expected);
    let text = status_message(&x.outcome.unwrap());
    assert_eq!(text, "\u{274c} Morpheus proxy unreachable: HTTP 404");
    assert!(!text.contains("not here"));
}

#[test]
fn server_error_status_is_reported() {
    let mut r = sent();
    r.push(Event::Response(503));
    assert_eq!(report(r), "\u{274c} Morpheus proxy unreachable: HTTP 503");
}

#[test]
fn submit_failure_stops_the_probe() {
    let mut r = sent();
    r.pop();
    r.push(Event::SubmitFailed("DestinationNotFound".to_string()));
    r.push(Event::NotReady);
    let x = fetch_health(r);
    assert_eq!(
        x.outcome,
        Some(Err(ProbeError::TransportSubmit("DestinationNotFound".to_string())))
    );
    let mut expected = setup_actions();
    expected.pop();
    expected.push(Action::Report);
    assert_eq!(x.actions, expected);
    assert_eq!(
        status_message(&x.outcome.unwrap()),
        "\u{274c} Morpheus proxy unreachable: outgoing request failed: DestinationNotFound"
    );
}

#[test]
fn invalid_utf8_body_is_a_failure() {
    let x = fetch_health(healthy(&[&[0x6f, 0xff, 0xfe]]));
    assert_eq!(x.outcome, Some(Err(ProbeError::NotUtf8)));
    assert_eq!(count(&x.actions, Action::Finish), 1);
    assert_eq!(
        status_message(&x.outcome.unwrap()),
        "\u{274c} Morpheus proxy unreachable: response not valid UTF-8"
    );
}

#[test]
fn body_of_exactly_one_chunk() {
    let body = vec![b'a'; 4096];
    let x = fetch_health(healthy(&[&body]));
    assert_eq!(count(&x.actions, Action::Read(4096)), 2);
    let n = x.actions.len();
    assert_eq!(
        x.actions[n - 5..].to_vec(),
        vec![
            Action::OpenStream,
            Action::Read(4096),
            Action::Read(4096),
            Action::Finish,
            Action::Report
        ]
    );
    assert_eq!(x.outcome, Some(Ok("a".repeat(4096))));
    assert_eq!(CHUNK_LIMIT, 4096);
}

#[test]
fn drain_stops_at_first_empty_chunk() {
    let mut r = healthy(&[b"ab", b"cd"]);
    let finished = r.pop().unwrap();
    r.push(Event::Chunk(b"ef".to_vec()));
    r.push(finished);
    let x = fetch_health(r);
    // the chunk after the empty one does not answer the finish call
    assert_eq!(x.outcome, None);
    assert_eq!(x.actions.last(), Some(&Action::Finish));
    assert_eq!(count(&x.actions, Action::Read(4096)), 3);
}

#[test]
fn read_failure_keeps_partial_body_and_finishes_once() {
    let mut r = sent();
    r.push(Event::Response(200));
    r.push(Event::BodyTaken);
    r.push(Event::StreamOpened);
    r.push(Event::Chunk(b"par".to_vec()));
    r.push(Event::ReadFailed);
    r.push(Event::Finished);
    let x = fetch_health(r);
    assert_eq!(x.outcome, Some(Ok("par".to_string())));
    assert_eq!(count(&x.actions, Action::Finish), 1);
}

#[test]
fn finishes_once_at_end_of_stream() {
    let x = fetch_health(healthy(&[b"a", b"b", b"c"]));
    assert_eq!(count(&x.actions, Action::Finish), 1);
    assert_eq!(x.outcome, Some(Ok("abc".to_string())));
}

#[test]
fn no_finish_without_stream() {
    let mut r = sent();
    r.push(Event::Response(200));
    r.push(Event::BodyTaken);
    r.push(Event::StreamFailed);
    let x = fetch_health(r);
    assert_eq!(x.outcome, Some(Err(ProbeError::StreamUnavailable)));
    assert_eq!(count(&x.actions, Action::Finish), 0);
    assert_eq!(
        status_message(&x.outcome.unwrap()),
        "\u{274c} Morpheus proxy unreachable: failed to get body stream"
    );
}

#[test]
fn body_failure_is_reported() {
    let mut r = sent();
    r.push(Event::Response(200));
    r.push(Event::BodyFailed);
    let x = fetch_health(r);
    assert_eq!(x.outcome, Some(Err(ProbeError::BodyUnavailable)));
    assert_eq!(count(&x.actions, Action::Finish), 0);
    assert_eq!(
        status_message(&x.outcome.unwrap()),
        "\u{274c} Morpheus proxy unreachable: failed to consume body"
    );
}

#[test]
fn repeated_checks_report_alike() {
    let first = report(healthy(&[b"up"]));
    let second = report(healthy(&[b"up"]));
    assert_eq!(first, second);
    let rechunked = report(healthy(&[b"u", b"p"]));
    assert_eq!(first, rechunked);
    assert_eq!(first, "\u{2705} Morpheus proxy healthy\nup");
}

#[test]
fn waits_when_response_not_ready() {
    let mut r = sent();
    r.push(Event::NotReady);
    r.push(Event::Response(200));
    r.push(Event::BodyTaken);
    r.push(Event::StreamOpened);
    r.push(Event::Chunk(b"ok".to_vec()));
    r.push(Event::Chunk(Vec::new()));
    r.push(Event::Finished);
    let x = fetch_health(r);
    assert_eq!(x.outcome, Some(Ok("ok".to_string())));
    assert_eq!(x.actions[6], Action::WaitThenGet);
    assert_eq!(count(&x.actions, Action::WaitThenGet), 1);
}

#[test]
fn still_pending_after_wait() {
    let mut r = sent();
    r.push(Event::NotReady);
    r.push(Event::NotReady);
    assert_eq!(
        report(r),
        "\u{274c} Morpheus proxy unreachable: unexpected poll result"
    );
}

#[test]
fn consumed_after_wait_is_unexpected() {
    let mut r = sent();
    r.push(Event::NotReady);
    r.push(Event::AlreadyConsumed);
    let x = fetch_health(r);
    assert_eq!(x.outcome, Some(Err(ProbeError::UnexpectedPollResult)));
}

#[test]
fn already_consumed_is_reported() {
    let mut r = sent();
    r.push(Event::AlreadyConsumed);
    assert_eq!(
        report(r),
        "\u{274c} Morpheus proxy unreachable: response already consumed"
    );
}

#[test]
fn http_error_is_reported() {
    let mut r = sent();
    r.push(Event::HttpError("ConnectionRefused".to_string()));
    assert_eq!(
        report(r),
        "\u{274c} Morpheus proxy unreachable: HTTP error: ConnectionRefused"
    );
}

#[test]
fn http_error_after_wait_is_reported() {
    let mut r = sent();
    r.push(Event::NotReady);
    r.push(Event::HttpError("ConnectionTimeout".to_string()));
    let x = fetch_health(r);
    assert_eq!(
        x.outcome,
        Some(Err(ProbeError::HttpProtocol("ConnectionTimeout".to_string())))
    );
}

#[test]
fn rejected_fields_are_named() {
    let fields = [
        (Field::Method, "failed to set method"),
        (Field::Scheme, "failed to set scheme"),
        (Field::Authority, "failed to set authority"),
        (Field::PathWithQuery, "failed to set path"),
    ];
    for (i, (field, text)) in fields.iter().enumerate() {
        let mut r: Vec<Event> = (0..i).map(|_| Event::FieldAccepted).collect();
        r.push(Event::FieldRejected);
        let x = fetch_health(r);
        assert_eq!(x.outcome, Some(Err(ProbeError::RequestBuild(*field))));
        assert_eq!(x.actions.len(), i + 2);
        assert_eq!(x.actions[i], Action::SetField(*field));
        assert_eq!(
            status_message(&x.outcome.unwrap()),
            format!("\u{274c} Morpheus proxy unreachable: {}", text)
        );
    }
}

#[test]
fn replies_that_run_out_leave_no_outcome() {
    let x = fetch_health(sent());
    assert_eq!(x.outcome, None);
    assert_eq!(x.actions, setup_actions());
    let y = fetch_health(Vec::new());
    assert_eq!(y.outcome, None);
    assert_eq!(y.actions, vec![Action::SetField(Field::Method)]);
}

#[test]
fn unanswering_reply_stops_the_replay() {
    let r = vec![Event::FieldAccepted, Event::Submitted, Event::FieldAccepted];
    let x = fetch_health(r);
    assert_eq!(x.outcome, None);
    assert_eq!(
        x.actions,
        vec![Action::SetField(Field::Method), Action::SetField(Field::Scheme)]
    );
}

#[test]
fn probe_driven_step_by_step() {
    let mut p = Probe::new();
    assert_eq!(p.stage(), Stage::Setting(Field::Method));
    assert_eq!(p.next_action(), Action::SetField(Field::Method));
    assert!(p.accepts(&Event::FieldAccepted));
    assert!(!p.accepts(&Event::Finished));
    for _ in 0..4 {
        p.step(Event::FieldAccepted);
    }
    assert_eq!(p.step(Event::Submitted), Action::Get);
    assert_eq!(p.step(Event::Response(200)), Action::TakeBody);
    assert_eq!(p.step(Event::BodyTaken), Action::OpenStream);
    assert_eq!(p.step(Event::StreamOpened), Action::Read(CHUNK_LIMIT));
    assert_eq!(p.step(Event::Chunk(b"fine".to_vec())), Action::Read(CHUNK_LIMIT));
    assert_eq!(p.step(Event::Chunk(Vec::new())), Action::Finish);
    assert_eq!(p.stage(), Stage::Finishing);
    assert_eq!(p.step(Event::Finished), Action::Report);
    assert_eq!(p.stage(), Stage::Done);
    assert!(!p.accepts(&Event::Finished));
    assert_eq!(p.into_outcome(), Some(Ok("fine".to_string())));
}

#[test]
fn fresh_probe_has_no_outcome() {
    assert_eq!(Probe::new().into_outcome(), None);
}

#[test]
fn endpoint_constants() {
    assert_eq!(PROXY_AUTHORITY, "127.0.0.1:8083");
    assert_eq!(PROXY_PATH, "/health");
}

#[test]
fn decimal_rendering() {
    assert_eq!(decimal_text(0), "0");
    assert_eq!(decimal_text(7), "7");
    assert_eq!(decimal_text(200), "200");
    assert_eq!(decimal_text(404), "404");
    assert_eq!(decimal_text(65535), "65535");
}

#[test]
fn describe_each_failure() {
    assert_eq!(ProbeError::UnexpectedStatus(100).describe(), "HTTP 100");
    assert_eq!(ProbeError::NotUtf8.describe(), "response not valid UTF-8");
    assert_eq!(
        ProbeError::TransportSubmit(String::new()).describe(),
        "outgoing request failed: "
    );
}
