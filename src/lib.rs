//! Session-lifecycle and recording core of a remote-access gateway.
//!
//! The library holds the decisions of the gateway's long-lived subsystems:
//! the session registry, the recording manager with its manifests and its
//! eviction schedule, the client push flow, and the subscriber delivery
//! policy. Everything that waits, reads or writes (channels, timers, files,
//! HTTP) is left to the caller, which hands results back as plain values.

pub mod clock;
pub mod manifest;
pub mod naming;
pub mod push;
pub mod recording;
pub mod session;
pub mod subscriber;
pub mod ttl;

pub use clock::Timestamp;
pub use manifest::{next_manifest, CloseError, JrecFile, JrecManifest};
pub use naming::{decimal_text, recording_file_name};
pub use push::{ClientPush, JrecTokenClaims, PushAction, PushError, PushEvent, PushStage};
pub use recording::{
    ActiveRecordings, ConnectPlan, ConnectReport, OnGoingRecording, OnGoingRecordingState, RecordingError,
    RecordingManagerTask, DISCONNECTED_TTL_SECS, LENGTH_WARNING_THRESHOLD,
};
pub use session::{
    add_session_in_progress, remove_session_in_progress, GatewaySessionInfo, JetConnectionMode,
    JetSessionTokenClaims, SessionRegistry,
};
pub use subscriber::{
    classify_status, parse_retry_after, AttemptOutcome, Delivery, DeliveryAction, DeliveryError, DeliveryPhase,
    Message, MessageInner, StatusClass, SubscriberSessionInfo,
};
pub use ttl::{DisconnectedTtl, EvictionSchedule, DISCONNECTED_TTL_MILLIS};
