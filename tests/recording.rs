use gateway_core::{
    next_manifest, recording_file_name, CloseError, EvictionSchedule, JrecManifest, OnGoingRecordingState,
    RecordingError, RecordingManagerTask, DISCONNECTED_TTL_MILLIS,
};

const S1: u128 = 0x6f1f6c0e_2d1b_4c5e_9a3f_1b2c3d4e5f60;
const S2: u128 = 0x0a1b2c3d_4e5f_4a6b_8c7d_8e9fa0b1c2d3;

fn root() -> String {
    "/recordings".to_string()
}

fn connect(mgr: &mut RecordingManagerTask, id: u128, now: i64, stored: Option<JrecManifest>) -> Result<String, RecordingError> {
    mgr.check_connect(id)?;
    let plan = mgr.plan_connect_at(id, "webm", now, stored)?;
    Ok(mgr.commit_connect(plan).0)
}

fn stored_manifest(mgr: &RecordingManagerTask, id: u128) -> JrecManifest {
    let rec = mgr.recording(id).expect("tracked");
    JrecManifest {
        session_id: rec.manifest.session_id,
        start_time: rec.manifest.start_time,
        duration: rec.manifest.duration,
        files: rec
            .manifest
            .files
            .iter()
            .map(|f| gateway_core::JrecFile { file_name: f.file_name.clone(), start_time: f.start_time, duration: f.duration })
            .collect(),
    }
}

#[test]
fn fresh_session_connect_disconnect_evict() {
    let mut mgr = RecordingManagerTask::new(root());
    let path = connect(&mut mgr, S1, 1000, None).unwrap();
    let id_text = uuid::Uuid::from_u128(S1).to_string();
    assert_eq!(path, format!("/recordings/{id_text}/recording-0.webm"));
    {
        let rec = mgr.recording(S1).unwrap();
        assert_eq!(rec.manifest.files.len(), 1);
        assert_eq!(rec.manifest.duration, 0);
        assert_eq!(rec.manifest.start_time, 1000);
        assert_eq!(rec.manifest_path, format!("/recordings/{id_text}/recording.json"));
        assert_eq!(rec.state, OnGoingRecordingState::Connected);
    }
    assert!(mgr.active_recordings().contains(S1));

    assert_eq!(mgr.handle_disconnect_at(S1, 1030), Ok(()));
    {
        let rec = mgr.recording(S1).unwrap();
        assert_eq!(rec.manifest.files[0].duration, 30);
        assert_eq!(rec.manifest.duration, 30);
        assert_eq!(rec.state, OnGoingRecordingState::LastSeen { timestamp: 1030 });
    }
    assert!(mgr.active_recordings().contains(S1));

    // Too early: the recording stays.
    assert!(!mgr.handle_remove_at(S1, 1038));
    assert_eq!(mgr.recording_count(), 1);

    assert!(mgr.handle_remove_at(S1, 1041));
    assert!(mgr.recording(S1).is_none());
    assert!(!mgr.active_recordings().contains(S1));
    assert_eq!(mgr.recording_count(), 0);
}

#[test]
fn reconnect_within_ttl_appends_file() {
    let mut mgr = RecordingManagerTask::new(root());
    connect(&mut mgr, S1, 1000, None).unwrap();
    mgr.handle_disconnect_at(S1, 1030).unwrap();
    let stored = stored_manifest(&mgr, S1);

    let path = connect(&mut mgr, S1, 1035, Some(stored)).unwrap();
    let id_text = uuid::Uuid::from_u128(S1).to_string();
    assert_eq!(path, format!("/recordings/{id_text}/recording-1.webm"));
    let rec = mgr.recording(S1).unwrap();
    assert_eq!(rec.manifest.files.len(), 2);
    assert_eq!(rec.manifest.files[1].file_name, "recording-1.webm");
    assert_eq!(rec.manifest.files[1].start_time, 1035);
    assert_eq!(rec.state, OnGoingRecordingState::Connected);

    // The pending eviction check finds the recording connected again.
    assert!(!mgr.handle_remove_at(S1, 1041));
    assert!(mgr.active_recordings().contains(S1));
}

#[test]
fn double_connect_is_rejected() {
    let mut mgr = RecordingManagerTask::new(root());
    connect(&mut mgr, S2, 0, None).unwrap();
    let err = connect(&mut mgr, S2, 5, None).unwrap_err();
    assert_eq!(err, RecordingError::ConcurrentRecording);
    assert_eq!(err.message(), "concurrent recording for the same session is not supported");
    assert_eq!(mgr.recording(S2).unwrap().manifest.files.len(), 1);
    assert_eq!(mgr.recording(S2).unwrap().manifest.start_time, 0);
}

#[test]
fn two_connects_on_disconnected_session_both_succeed() {
    let mut mgr = RecordingManagerTask::new(root());
    assert!(connect(&mut mgr, S1, 100, None).is_ok());
    mgr.handle_disconnect_at(S1, 110).unwrap();
    let stored = stored_manifest(&mgr, S1);
    let before = stored.files.len();
    assert!(connect(&mut mgr, S1, 115, Some(stored)).is_ok());
    assert_eq!(mgr.recording(S1).unwrap().manifest.files.len(), before + 1);
}

#[test]
fn disconnect_errors() {
    let mut mgr = RecordingManagerTask::new(root());
    assert_eq!(mgr.handle_disconnect_at(S1, 10), Err(RecordingError::UnknownRecording));
    connect(&mut mgr, S1, 10, None).unwrap();
    mgr.handle_disconnect_at(S1, 20).unwrap();
    assert_eq!(mgr.handle_disconnect_at(S1, 30), Err(RecordingError::NotConnected));
    assert_eq!(mgr.recording(S1).unwrap().state, OnGoingRecordingState::LastSeen { timestamp: 20 });
}

#[test]
fn disconnect_with_overflowing_duration() {
    let mut mgr = RecordingManagerTask::new(root());
    connect(&mut mgr, S1, i64::MIN, None).unwrap();
    assert_eq!(mgr.handle_disconnect_at(S1, 1), Err(RecordingError::DurationOverflow));
    let rec = mgr.recording(S1).unwrap();
    assert_eq!(rec.state, OnGoingRecordingState::LastSeen { timestamp: 1 });
    assert_eq!(rec.manifest.duration, 0);
}

#[test]
fn forget_removes_from_both_views() {
    let mut mgr = RecordingManagerTask::new(root());
    connect(&mut mgr, S1, 1, None).unwrap();
    connect(&mut mgr, S2, 1, None).unwrap();
    mgr.forget_recording(S1);
    assert!(!mgr.active_recordings().contains(S1));
    assert!(mgr.recording_state(S1).is_none());
    assert_eq!(mgr.recording_state(S2), Some(OnGoingRecordingState::Connected));
    assert_eq!(mgr.recording_count(), 1);
    assert_eq!(mgr.active_recordings().len(), 1);
}

#[test]
fn connect_report_counts() {
    let mut mgr = RecordingManagerTask::new(root());
    let plan = mgr.plan_connect_at(S1, "webm", 1, None).unwrap();
    let (file, report) = mgr.commit_connect(plan);
    assert!(file.ends_with("recording-0.webm"));
    assert_eq!(report.active_count, 1);
    assert_eq!(report.ongoing_count, 1);
    assert!(!report.over_threshold);
}

#[test]
fn manifest_close_and_append() {
    let mut m = JrecManifest::initial(S1, 100, "webm");
    assert_eq!(m.files[0].file_name, "recording-0.webm");
    assert_eq!(m.close(130), Ok(()));
    assert_eq!(m.files[0].duration, 30);
    assert_eq!(m.duration, 30);
    let name = m.append_file(140, "webm");
    assert_eq!(name, "recording-1.webm");
    assert_eq!(m.close(150), Ok(()));
    assert_eq!(m.files[1].duration, 10);
    assert_eq!(m.duration, 50);
    assert!(m.files[0].start_time <= m.files[1].start_time);
    let mut empty = JrecManifest { session_id: S1, start_time: 0, duration: 0, files: Vec::new() };
    assert_eq!(empty.close(1), Err(CloseError::NoRecordingFile));
}

#[test]
fn next_manifest_starts_or_appends() {
    let fresh = next_manifest(None, S2, 7, "webm");
    assert_eq!(fresh.session_id, S2);
    assert_eq!(fresh.files.len(), 1);
    let again = next_manifest(Some(fresh), S2, 9, "trp");
    assert_eq!(again.files.len(), 2);
    assert_eq!(again.files[1].file_name, "recording-1.trp");
    assert_eq!(again.start_time, 7);
}

#[test]
fn file_names_are_indexed() {
    assert_eq!(recording_file_name(0, "webm"), "recording-0.webm");
    assert_eq!(recording_file_name(12, "webm"), "recording-12.webm");
    assert_eq!(gateway_core::decimal_text(1234567890), "1234567890");
}

#[test]
fn eviction_schedule_orders_deadlines() {
    let mut s = EvictionSchedule::new();
    assert!(!s.timer_enabled());
    assert_eq!(s.schedule(S1, 5_000), Some(5_000 + DISCONNECTED_TTL_MILLIS));
    // A later check does not re-arm the timer.
    assert_eq!(s.schedule(S2, 6_000), None);
    assert_eq!(s.armed_deadline(), Some(15_000));
    let (id, next) = s.pop_due();
    assert_eq!(id, S1);
    assert_eq!(next, Some(16_000));
    let (id, next) = s.pop_due();
    assert_eq!(id, S2);
    assert_eq!(next, None);
    assert!(!s.timer_enabled());
}

#[test]
fn eviction_schedule_rearms_for_sooner_deadline_and_breaks_ties_by_id() {
    let mut s = EvictionSchedule::new();
    s.schedule(S1, 9_000);
    assert_eq!(s.schedule(S2, 1_000), Some(11_000));
    s.schedule(S1, 1_000);
    let (first, _) = s.pop_due();
    let (second, _) = s.pop_due();
    assert_eq!(first, S2.min(S1));
    assert_eq!(second, S2.max(S1));
    assert_eq!(s.pop_due(), (S1, None));
}

#[test]
fn clock_driven_operations_use_current_time() {
    let mut mgr = RecordingManagerTask::new(root());
    let plan = mgr.plan_connect(S1, "webm", None).unwrap();
    assert!(plan.manifest.start_time > 1_600_000_000);
    assert_eq!(plan.manifest.files[0].start_time, plan.manifest.start_time);
    mgr.commit_connect(plan);
    assert_eq!(mgr.handle_disconnect(S1), Ok(()));
    match mgr.recording_state(S1) {
        Some(OnGoingRecordingState::LastSeen { timestamp }) => assert!(timestamp > 1_600_000_000),
        other => panic!("unexpected state {other:?}"),
    }
    // Just disconnected: not yet due for eviction.
    assert!(!mgr.handle_remove(S1));
    assert!(mgr.active_recordings().contains(S1));
}

#[test]
fn error_messages() {
    assert_eq!(RecordingError::UnknownRecording.message(), "unknown recording for this session");
    assert_eq!(
        RecordingError::NotConnected.message(),
        "a recording not connected can't be disconnected (there is probably a bug)"
    );
    assert_eq!(RecordingError::NoRecordingFile.message(), "no recording file (this is a bug)");
    assert_eq!(RecordingError::DurationOverflow.message(), "recording duration out of range");
}
