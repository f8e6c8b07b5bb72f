use borg_vinculum::dispatcher::{
    error_endpoint_decision, react, render_formatted, render_plain, AlertItem, AlertQueue,
    DispatcherReaction, ErrorEndpointStep, ALERT_QUEUE_CAPACITY,
};
use borg_vinculum::drones::DroneRecord;
use borg_vinculum::handler::ApiError;
use borg_vinculum::matrix::{
    classify_status, join_room_path, login_body, login_path, message_body, new_txn_id,
    send_message_path, MatrixError, LOGIN_TIMEOUT_SECS,
};
use borg_vinculum::api_client::{CONNECT_TIMEOUT_SECS, REQUEST_TIMEOUT_SECS};
use borg_vinculum::report::{ErrorReport, State};

fn item(name: &str, custom: Option<&str>, stdout: Option<&str>, stderr: Option<&str>) -> AlertItem {
    AlertItem {
        drone_name: name.to_string(),
        report: ErrorReport {
            state: State::Create,
            custom: custom.map(str::to_string),
            stdout: stdout.map(str::to_string),
            stderr: stderr.map(str::to_string),
        },
    }
}

#[test]
fn seventeenth_pair_is_refused_until_a_slot_is_drained() {
    let mut queue = AlertQueue::new();
    for i in 0..ALERT_QUEUE_CAPACITY {
        let name = format!("drone-{i}");
        assert!(queue.try_enqueue(item(&name, None, None, None)), "slot {i} must be free");
    }
    assert_eq!(queue.len(), 16);
    // the seventeenth pair is refused: the producer must wait
    assert!(!queue.try_enqueue(item("drone-16", None, None, None)));
    assert_eq!(queue.len(), 16);
    // the consumer drains one slot: the oldest pair leaves first
    let popped = queue.dequeue().expect("sixteen pairs are pending");
    assert_eq!(popped.drone_name, "drone-0");
    // now the waiting pair fits
    assert!(queue.try_enqueue(item("drone-16", None, None, None)));
    assert_eq!(queue.len(), 16);
    // FIFO order is kept
    assert_eq!(queue.dequeue().expect("pending").drone_name, "drone-1");
}

fn drone(name: &str) -> DroneRecord {
    DroneRecord {
        name: name.to_string(),
        active: true,
        token: "tok".to_string(),
        repository: "repo".to_string(),
        passphrase: "pass".to_string(),
    }
}

#[test]
fn error_endpoint_refuses_an_unknown_token_and_enqueues_the_rest() {
    let mut queue = AlertQueue::new();
    let report = item("seven", Some("boom"), None, None).report;

    // no drone matched the bearer token: refused, nothing enqueued
    let refused = error_endpoint_decision(&mut queue, None, report.clone());
    assert!(matches!(refused, Err(ApiError::Unauthenticated)));
    assert_eq!(queue.len(), 0);

    // an authenticated pair is enqueued and the client answered at once
    let accepted = error_endpoint_decision(&mut queue, Some(drone("seven")), report.clone());
    assert!(matches!(accepted, Ok(ErrorEndpointStep::Enqueued)));
    assert_eq!(queue.len(), 1);

    // a full queue hands the pair back instead of dropping it
    for i in 1..ALERT_QUEUE_CAPACITY {
        let name = format!("drone-{i}");
        assert!(queue.try_enqueue(item(&name, None, None, None)));
    }
    let held = error_endpoint_decision(&mut queue, Some(drone("eight")), report);
    match held {
        Ok(ErrorEndpointStep::QueueFull(pair)) => {
            assert_eq!(pair.drone_name, "eight");
            assert_eq!(pair.report.custom.as_deref(), Some("boom"));
        }
        other => panic!("expected the pair back, not {other:?}"),
    }
    assert_eq!(queue.len(), ALERT_QUEUE_CAPACITY);
    // the first pair is still at the front
    assert_eq!(queue.dequeue().expect("pending").drone_name, "seven");
}

#[test]
fn the_contracted_timeouts_match_the_protocol() {
    assert_eq!(CONNECT_TIMEOUT_SECS, 10);
    assert_eq!(REQUEST_TIMEOUT_SECS, 10);
    assert_eq!(LOGIN_TIMEOUT_SECS, 3);
}

#[test]
fn only_an_expired_login_triggers_relogin() {
    assert_eq!(
        react(&Err(MatrixError::LoginFailed)),
        DispatcherReaction::ReloginThenProceed
    );
    assert_eq!(react(&Ok(())), DispatcherReaction::Proceed);
    assert_eq!(react(&Err(MatrixError::BadRequest)), DispatcherReaction::Proceed);
    assert_eq!(react(&Err(MatrixError::RateLimited)), DispatcherReaction::Proceed);
    assert_eq!(react(&Err(MatrixError::Unknown)), DispatcherReaction::Proceed);
    assert_eq!(
        react(&Err(MatrixError::Reqwest("timed out".to_string()))),
        DispatcherReaction::Proceed
    );
}

#[test]
fn chat_backend_statuses_are_classified() {
    assert!(classify_status(200).is_ok());
    assert!(matches!(classify_status(400), Err(MatrixError::BadRequest)));
    assert!(matches!(classify_status(403), Err(MatrixError::LoginFailed)));
    assert!(matches!(classify_status(429), Err(MatrixError::RateLimited)));
    assert!(matches!(classify_status(500), Err(MatrixError::Unknown)));
    assert!(matches!(classify_status(201), Err(MatrixError::Unknown)));
}

#[test]
fn matrix_error_messages() {
    assert_eq!(MatrixError::LoginFailed.message(), "Login failed");
    assert_eq!(MatrixError::BadRequest.message(), "Bad request");
    assert_eq!(MatrixError::RateLimited.message(), "Run into rate limit");
    assert_eq!(MatrixError::Unknown.message(), "unknown error");
    assert_eq!(
        MatrixError::Reqwest("timed out".to_string()).message(),
        "Reqwest error: timed out"
    );
    assert_eq!(
        MatrixError::InvalidUrl("empty host".to_string()).message(),
        "Error parsing url: empty host"
    );
}

#[test]
fn login_and_send_bodies_carry_the_protocol_tags() {
    let body = login_body("alerts", "hunter2");
    assert_eq!(body.login_type, "m.login.password");
    assert_eq!(body.identifier_type, "m.id.user");
    assert_eq!(body.user, "alerts");
    assert_eq!(body.password, "hunter2");

    let plain_only = message_body("hello".to_string(), None);
    assert_eq!(plain_only.body, "hello");
    assert_eq!(plain_only.msgtype, "m.text");
    assert!(plain_only.format.is_none());
    assert!(plain_only.formatted_body.is_none());

    let formatted = message_body("hello".to_string(), Some("<b>hello</b>".to_string()));
    assert_eq!(formatted.format.as_deref(), Some("org.matrix.custom.html"));
    assert_eq!(formatted.formatted_body.as_deref(), Some("<b>hello</b>"));
}

#[test]
fn chat_backend_paths() {
    assert_eq!(login_path(), "/_matrix/client/v3/login");
    assert_eq!(join_room_path("!room:server"), "/_matrix/client/v3/join/!room:server");
    assert_eq!(
        send_message_path("!room:server", "txn16"),
        "/_matrix/client/v3/rooms/!room:server/send/m.room.message/txn16"
    );
}

#[test]
fn txn_ids_are_sixteen_characters_and_vary() {
    let a = new_txn_id();
    let b = new_txn_id();
    assert_eq!(a.chars().count(), 16);
    assert_eq!(b.chars().count(), 16);
    assert!(a.chars().all(|c| c.is_ascii_alphanumeric()));
    // two fresh ids colliding is (62^-16)-unlikely; a collision here
    // would rather mean the generator hands its input back
    assert_ne!(a, b);
}

#[test]
fn plain_alert_renders_every_present_section() {
    let rendered = render_plain(&item(
        "one_of_nine",
        Some("boom"),
        Some("out line"),
        Some("err line"),
    ));
    let expected = "\u{1F6A8} The vinculum reports alarm for drone one_of_nine!\n                \n                one_of_nine failed in archive creation\n                \n                Custom error:\nboom\n\nStderr:\nerr line\n\nStdout:\nout line";
    assert_eq!(rendered, expected);
}

#[test]
fn plain_alert_omits_absent_sections() {
    let rendered = render_plain(&item("one_of_nine", None, None, None));
    let expected = "\u{1F6A8} The vinculum reports alarm for drone one_of_nine!\n                \n                one_of_nine failed in archive creation\n                \n                ";
    assert_eq!(rendered, expected);
}

#[test]
fn formatted_alert_renders_every_present_section() {
    let rendered = render_formatted(&item("seven", Some("boom"), None, Some("err")));
    let expected = "<h4>\u{1F6A8} The vinculum reports alarm for drone <font color=\"cyan\">seven</font>!</h4>\n                <p><font color=\"cyan\">seven</font> failed in archive creation</p>\n                <p>Custom error:<br><code>boom</code></p>\n                <p>Stderr:<br><pre>err</pre></p>\n                \n            ";
    assert_eq!(rendered, expected);
}
