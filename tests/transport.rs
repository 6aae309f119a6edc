use awgateway::error::GatewayError;
use awgateway::frame::build_request;
use awgateway::transport::{CommandRetry, GatewayEndpoint, RetryPhase, TransportAction};

fn describe(a: &TransportAction) -> String {
    match a {
        TransportAction::Exchange { attempt } => format!("exchange {}", attempt),
        TransportAction::Wait { millis } => format!("wait {}", millis),
        TransportAction::Succeeded(_) => "ok".to_string(),
        TransportAction::Exhausted(e) => format!("{:?}", e),
    }
}

fn run_with_timeouts(endpoint: &GatewayEndpoint) -> Vec<String> {
    let mut retry = CommandRetry::new(0x27, endpoint);
    let mut action = retry.start();
    let mut trace = vec![describe(&action)];
    loop {
        action = match action {
            TransportAction::Exchange { .. } => retry.on_response(Err(GatewayError::Timeout)),
            TransportAction::Wait { .. } => retry.on_wait_done(),
            _ => break,
        };
        trace.push(describe(&action));
    }
    trace
}

#[test]
fn default_endpoint_policy() {
    let e = GatewayEndpoint::new([192, 168, 1, 10], 45000);
    assert_eq!(e.max_tries, 3);
    assert_eq!(e.retry_wait_ms, 2000);
    assert_eq!(e.socket_timeout_ms, 2000);
    assert_eq!(e.port, 45000);
}

#[test]
fn timeouts_exhaust_after_max_tries() {
    let e = GatewayEndpoint::new([10, 0, 0, 1], 45000);
    assert_eq!(
        run_with_timeouts(&e),
        vec![
            "exchange 1",
            "wait 2000",
            "exchange 2",
            "wait 2000",
            "exchange 3",
            "TransportExhausted { command: 39, attempts: 3 }",
        ]
    );
}

#[test]
fn single_try_never_waits() {
    let mut e = GatewayEndpoint::new([10, 0, 0, 1], 45000);
    e.max_tries = 1;
    assert_eq!(
        run_with_timeouts(&e),
        vec!["exchange 1", "TransportExhausted { command: 39, attempts: 1 }"]
    );
}

#[test]
fn no_tries_fails_at_once() {
    let mut e = GatewayEndpoint::new([10, 0, 0, 1], 45000);
    e.max_tries = 0;
    assert_eq!(run_with_timeouts(&e), vec!["TransportExhausted { command: 39, attempts: 0 }"]);
}

#[test]
fn invalid_response_is_retried_then_success() {
    let e = GatewayEndpoint::new([10, 0, 0, 1], 45000);
    let mut retry = CommandRetry::new(0x27, &e);
    assert!(matches!(retry.start(), TransportAction::Exchange { attempt: 1 }));
    let wrong = build_request(0x26, &[]);
    assert!(matches!(retry.on_response(Ok(wrong)), TransportAction::Wait { millis: 2000 }));
    assert!(matches!(retry.on_wait_done(), TransportAction::Exchange { attempt: 2 }));
    let good = build_request(0x27, &[1, 2]);
    match retry.on_response(Ok(good.clone())) {
        TransportAction::Succeeded(bytes) => assert_eq!(bytes, good),
        other => panic!("unexpected {:?}", other),
    }
    assert_eq!(retry.phase, RetryPhase::Done);
    assert_eq!(retry.attempts, 2);
}
