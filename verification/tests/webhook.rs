use plex_transmission_throttler::handler::webhook;
use plex_transmission_throttler::handler::ResponseBody;
use plex_transmission_throttler::handler::WebhookResponse;
use plex_transmission_throttler::transmission::MockTransmissionClient;

fn status_message(r: &WebhookResponse) -> &str {
    match &r.body {
        ResponseBody::Status(m) => m.as_str(),
        ResponseBody::Error(m) => panic!("expected a status body, got error: {}", m),
    }
}

fn error_message(r: &WebhookResponse) -> &str {
    match &r.body {
        ResponseBody::Error(m) => m.as_str(),
        ResponseBody::Status(m) => panic!("expected an error body, got status: {}", m),
    }
}

#[test]
fn health_check() {
    let r = plex_transmission_throttler::handler::health_check();
    assert_eq!(r.status, 200);
    assert_eq!(status_message(&r), "ok");
}

#[test]
fn test_webhook_200() {
    let cases: Vec<(&str, &str, &str)> = vec![
        ("play", "wan", "Throttling enabled"),
        ("pause", "wan", "Throttling disabled"),
        ("resume", "wan", "Throttling enabled"),
        ("stop", "wan", "Throttling disabled"),
        ("play", "lan", "Stream location 'Lan' does not require throttling."),
    ];
    for (action, location, expected) in cases {
        let mut client = MockTransmissionClient::new();
        let r = webhook(&mut client, Some(action), Some(location));
        assert_eq!(r.status, 200);
        assert_eq!(status_message(&r), expected);
    }
}

#[test]
fn test_webhook_invalid_payload() {
    let cases: Vec<(Option<&str>, Option<&str>, &str)> = vec![
        (Some("play"), None, "missing field `stream_location`"),
        (None, Some("wan"), "missing field `action`"),
        (
            Some("unknown"),
            Some("wan"),
            "unknown action `unknown`, expected one of `play`, `pause`, `resume`, `stop`",
        ),
    ];
    for (action, location, expected) in cases {
        let mut client = MockTransmissionClient::new();
        let r = webhook(&mut client, action, location);
        assert_eq!(r.status, 422);
        let message = error_message(&r);
        assert!(
            message.contains(expected),
            "message {:?} does not contain {:?}",
            message,
            expected
        );
        assert_eq!(client.enable_calls, 0);
        assert_eq!(client.disable_calls, 0);
    }
}

#[test]
fn unthrottled_location_never_calls_backend() {
    for action in ["play", "pause", "resume", "stop"] {
        let mut client = MockTransmissionClient::new();
        let r = webhook(&mut client, Some(action), Some("lan"));
        assert_eq!(r.status, 200);
        assert_eq!(
            status_message(&r),
            "Stream location 'Lan' does not require throttling."
        );
        assert_eq!(client.enable_calls, 0);
        assert_eq!(client.disable_calls, 0);
    }
}

#[test]
fn serialized_dispatch_makes_one_call_per_event() {
    let mut client = MockTransmissionClient::new();
    let rounds: u64 = 5;
    for _ in 0..rounds {
        let r = webhook(&mut client, Some("play"), Some("wan"));
        assert_eq!(r.status, 200);
        let r = webhook(&mut client, Some("stop"), Some("cellular"));
        assert_eq!(r.status, 200);
    }
    assert_eq!(client.enable_calls, rounds);
    assert_eq!(client.disable_calls, rounds);
    assert_eq!(client.enable_calls + client.disable_calls, 2 * rounds);
}

#[test]
fn backend_failure_becomes_server_error() {
    let mut client = MockTransmissionClient::failing(String::from("transport error"));
    let r = webhook(&mut client, Some("play"), Some("wan"));
    assert_eq!(r.status, 500);
    let message = error_message(&r);
    assert!(message.contains("Something went wrong"));
    assert!(message.contains("Cannot enable alt speed"));
    assert!(message.contains("transport error"));
    assert_eq!(client.enable_calls, 1);

    let mut client = MockTransmissionClient::failing(String::from("auth failure"));
    let r = webhook(&mut client, Some("stop"), Some("wan"));
    assert_eq!(r.status, 500);
    let message = error_message(&r);
    assert_eq!(
        message,
        "Something went wrong: Cannot disable alt speed: auth failure"
    );
    assert_eq!(client.disable_calls, 1);
}

#[test]
fn tokens_match_without_regard_to_case() {
    let mut client = MockTransmissionClient::new();
    let r = webhook(&mut client, Some("PLAY"), Some("WAN"));
    assert_eq!(r.status, 200);
    assert_eq!(status_message(&r), "Throttling enabled");
    assert_eq!(client.enable_calls, 1);

    let mut client = MockTransmissionClient::new();
    let r = webhook(&mut client, Some("Play"), Some("LaN"));
    assert_eq!(r.status, 200);
    assert_eq!(
        status_message(&r),
        "Stream location 'Lan' does not require throttling."
    );
    assert_eq!(client.enable_calls, 0);
}

#[test]
fn unknown_location_is_throttled_and_named_verbatim() {
    let mut client = MockTransmissionClient::new();
    let r = webhook(&mut client, Some("pause"), Some("vpn tunnel"));
    assert_eq!(r.status, 200);
    assert_eq!(status_message(&r), "Throttling disabled");
    assert_eq!(client.disable_calls, 1);
}
