use gateway_core::{ClientPush, JrecTokenClaims, PushAction, PushError, PushEvent, PushStage};

const S3: u128 = 0x33;
const S4: u128 = 0x44;

#[test]
fn claims_mismatch_fails_without_connect() {
    let mut p = ClientPush::new(S3, JrecTokenClaims { jet_aid: S4 });
    let first = p.step(PushEvent::Start);
    assert_eq!(first, PushAction::ShutdownStream);
    assert_ne!(first, PushAction::Connect);
    let done = p.step(PushEvent::StreamShutDown { ok: true });
    assert_eq!(done, PushAction::Finish(Err(PushError::InconsistentSessionId { token_id: S4 })));
    assert_eq!(p.stage(), PushStage::Done);
}

#[test]
fn push_streams_then_disconnects_once() {
    let mut p = ClientPush::new(S3, JrecTokenClaims { jet_aid: S3 });
    assert_eq!(p.step(PushEvent::Start), PushAction::Connect);
    assert_eq!(p.step(PushEvent::Connected), PushAction::OpenFile);
    assert_eq!(p.step(PushEvent::FileOpened), PushAction::Stream);
    assert_eq!(p.step(PushEvent::CopyFinished { ok: true }), PushAction::Disconnect);
    assert_eq!(p.step(PushEvent::CopyFinished { ok: true }), PushAction::Ignore);
    assert_eq!(p.step(PushEvent::DisconnectSent { ok: true }), PushAction::Finish(Ok(())));
}

#[test]
fn connect_failure_shuts_stream_and_succeeds() {
    let mut p = ClientPush::new(S3, JrecTokenClaims { jet_aid: S3 });
    p.step(PushEvent::Start);
    assert_eq!(p.step(PushEvent::ConnectFailed), PushAction::ShutdownStream);
    assert_eq!(p.step(PushEvent::StreamShutDown { ok: true }), PushAction::Finish(Ok(())));
}

#[test]
fn open_failure_still_disconnects() {
    let mut p = ClientPush::new(S3, JrecTokenClaims { jet_aid: S3 });
    p.step(PushEvent::Start);
    p.step(PushEvent::Connected);
    assert_eq!(p.step(PushEvent::FileOpenFailed), PushAction::Disconnect);
    assert_eq!(p.step(PushEvent::DisconnectSent { ok: true }), PushAction::Finish(Err(PushError::OpenFile)));
}

#[test]
fn shutdown_signal_interrupts_stream() {
    let mut p = ClientPush::new(S3, JrecTokenClaims { jet_aid: S3 });
    p.step(PushEvent::Start);
    p.step(PushEvent::Connected);
    p.step(PushEvent::FileOpened);
    assert_eq!(p.step(PushEvent::ShutdownSignal), PushAction::ShutdownStream);
    assert_eq!(p.step(PushEvent::StreamShutDown { ok: true }), PushAction::Disconnect);
    assert_eq!(p.step(PushEvent::DisconnectSent { ok: false }), PushAction::Finish(Err(PushError::Disconnect)));
}

#[test]
fn copy_error_is_reported_after_disconnect() {
    let mut p = ClientPush::new(S3, JrecTokenClaims { jet_aid: S3 });
    p.step(PushEvent::Start);
    p.step(PushEvent::Connected);
    p.step(PushEvent::FileOpened);
    assert_eq!(p.step(PushEvent::CopyFinished { ok: false }), PushAction::Disconnect);
    assert_eq!(p.step(PushEvent::DisconnectSent { ok: true }), PushAction::Finish(Err(PushError::Streaming)));
}
