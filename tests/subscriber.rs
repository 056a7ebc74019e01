use gateway_core::{
    classify_status, parse_retry_after, AttemptOutcome, Delivery, DeliveryAction, DeliveryError, DeliveryPhase,
    Message, MessageInner, StatusClass, SubscriberSessionInfo, Timestamp,
};

fn info(id: u128, secs: i64) -> SubscriberSessionInfo {
    SubscriberSessionInfo { association_id: id, start_timestamp: Timestamp { secs, nanos: 5 } }
}

fn status(code: u16) -> AttemptOutcome {
    AttemptOutcome::Responded { status: code, retry_after_millis: None }
}

#[test]
fn transient_then_success() {
    let mut d = Delivery::new();
    let mut posts = 0;
    let mut waited = Vec::new();
    let mut backoff = vec![3_000u64, 5_250].into_iter();
    let mut responses = vec![503u16, 503, 200].into_iter();
    let result = loop {
        posts += 1;
        match d.on_attempt(status(responses.next().unwrap())) {
            DeliveryAction::Finish(r) => break r,
            DeliveryAction::ConsultBackoff => match d.on_backoff(backoff.next()) {
                DeliveryAction::Wait { millis } => {
                    waited.push(millis);
                    d.on_wait_elapsed();
                }
                DeliveryAction::Finish(r) => break r,
                other => panic!("unexpected {other:?}"),
            },
            other => panic!("unexpected {other:?}"),
        }
    };
    assert_eq!(result, Ok(()));
    assert_eq!(posts, 3);
    assert_eq!(waited, vec![3_000, 5_250]);
    assert!(waited[0] >= 3_000);
    assert_eq!(d.phase(), DeliveryPhase::Done);
}

#[test]
fn permanent_failure_is_not_retried() {
    let mut d = Delivery::new();
    let action = d.on_attempt(status(401));
    assert_eq!(action, DeliveryAction::Finish(Err(DeliveryError::ClientError { status: 401 })));
    assert_eq!(d.phase(), DeliveryPhase::Done);
}

#[test]
fn transport_failure_is_permanent() {
    let mut d = Delivery::new();
    assert_eq!(d.on_attempt(AttemptOutcome::TransportFailed), DeliveryAction::Finish(Err(DeliveryError::Transport)));
}

#[test]
fn server_retry_after_is_honoured() {
    let mut d = Delivery::new();
    let outcome = AttemptOutcome::Responded { status: 503, retry_after_millis: Some(7_000) };
    assert_eq!(d.on_attempt(outcome), DeliveryAction::ConsultBackoff);
    assert_eq!(d.phase(), DeliveryPhase::AwaitingBackoff { status: 503, retry_after_millis: Some(7_000) });
    assert_eq!(d.on_backoff(Some(3_000)), DeliveryAction::Wait { millis: 7_000 });
    assert_eq!(d.phase(), DeliveryPhase::Waiting);
}

#[test]
fn retry_after_does_not_extend_the_budget() {
    let mut d = Delivery::new();
    for _ in 0..3 {
        let outcome = AttemptOutcome::Responded { status: 503, retry_after_millis: Some(1_000) };
        assert_eq!(d.on_attempt(outcome), DeliveryAction::ConsultBackoff);
        assert_eq!(d.on_backoff(Some(3_000)), DeliveryAction::Wait { millis: 1_000 });
        d.on_wait_elapsed();
    }
    let outcome = AttemptOutcome::Responded { status: 503, retry_after_millis: Some(1_000) };
    assert_eq!(d.on_attempt(outcome), DeliveryAction::ConsultBackoff);
    assert_eq!(d.on_backoff(None), DeliveryAction::Finish(Err(DeliveryError::ServerError { status: 503 })));
    assert_eq!(d.phase(), DeliveryPhase::Done);
}

#[test]
fn retries_exhausted() {
    let mut d = Delivery::new();
    assert_eq!(d.on_attempt(status(502)), DeliveryAction::ConsultBackoff);
    assert_eq!(d.phase(), DeliveryPhase::AwaitingBackoff { status: 502, retry_after_millis: None });
    assert_eq!(d.on_backoff(None), DeliveryAction::Finish(Err(DeliveryError::ServerError { status: 502 })));
}

#[test]
fn status_classes() {
    assert_eq!(classify_status(200), StatusClass::Success);
    assert_eq!(classify_status(302), StatusClass::Success);
    assert_eq!(classify_status(399), StatusClass::Success);
    assert_eq!(classify_status(400), StatusClass::Permanent);
    assert_eq!(classify_status(499), StatusClass::Permanent);
    assert_eq!(classify_status(500), StatusClass::Transient);
    assert_eq!(classify_status(599), StatusClass::Transient);
    assert_eq!(classify_status(600), StatusClass::Success);
}

#[test]
fn retry_after_parsing() {
    assert_eq!(parse_retry_after(b"12"), Some(12_000));
    assert_eq!(parse_retry_after(b"0"), Some(0));
    assert_eq!(parse_retry_after(b""), None);
    assert_eq!(parse_retry_after(b"1a"), None);
    assert_eq!(parse_retry_after(b"Wed, 21 Oct 2015 07:28:00 GMT"), None);
    assert_eq!(parse_retry_after(b"18446744073709551"), Some(18_446_744_073_709_551_000));
    assert_eq!(parse_retry_after(b"18446744073709552"), None);
    assert_eq!(parse_retry_after(b"99999999999999999999999"), None);
}

#[test]
fn messages_carry_kind_and_timestamp() {
    let started = Message::session_started(info(1, 100));
    assert_eq!(started.kind(), "session.started");
    assert_eq!(started.timestamp, Timestamp { secs: 100, nanos: 5 });
    assert!(matches!(started.inner, MessageInner::SessionStarted { session } if session.association_id == 1));

    let ended = Message::session_ended_at(info(2, 100), Timestamp { secs: 200, nanos: 0 });
    assert_eq!(ended.kind(), "session.ended");
    assert_eq!(ended.timestamp.secs, 200);

    let list = Message::session_list(vec![info(1, 1), info(2, 2)]);
    assert_eq!(list.kind(), "session.list");
    match &list.inner {
        MessageInner::SessionList { session_list } => assert_eq!(session_list.len(), 2),
        _ => panic!("wrong kind"),
    }
    assert!(list.timestamp.secs > 1_600_000_000);
    assert_eq!(Message::session_ended(info(3, 0)).kind(), "session.ended");
}
