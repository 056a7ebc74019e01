//! The flow of a client that pushes a recording: check the token, obtain a
//! file from the recording manager, stream into it, and always give the
//! recording back.

use vstd::prelude::*;

verus! {

/// The validated claims of a recording token.
#[derive(Debug, Clone, Copy, PartialEq, Eq)]
pub struct JrecTokenClaims {
    pub jet_aid: u128,
}

/// Why a push ended in error.
#[derive(Debug, Clone, Copy, PartialEq, Eq)]
pub enum PushError {
    /// The session named by the request is not the one the token is for.
    InconsistentSessionId { token_id: u128 },
    /// Shutting the client stream down failed.
    Shutdown,
    /// Streaming into the recording file failed.
    Streaming,
    /// The recording file could not be opened.
    OpenFile,
    /// The recording manager could not be told of the disconnection.
    Disconnect,
}

/// Something that happened to a push.
#[derive(Debug, Clone, Copy, PartialEq, Eq)]
pub enum PushEvent {
    /// The push begins.
    Start,
    /// The recording manager gave a file to record into.
    Connected,
    /// The recording manager refused or could not answer.
    ConnectFailed,
    /// The recording file is open.
    FileOpened,
    /// The recording file could not be opened.
    FileOpenFailed,
    /// Copying from the client into the file ended, successfully or not.
    CopyFinished { ok: bool },
    /// The gateway is shutting down.
    ShutdownSignal,
    /// The client stream was shut down, successfully or not.
    StreamShutDown { ok: bool },
    /// The disconnection was handed to the recording manager, or not.
    DisconnectSent { ok: bool },
}

/// What the caller does next.
#[derive(Debug, Clone, Copy, PartialEq, Eq)]
pub enum PushAction {
    /// Ask the recording manager for a recording file.
    Connect,
    /// Shut the client stream down gracefully.
    ShutdownStream,
    /// Open the recording file (create, truncate, write only).
    OpenFile,
    /// Copy from the client into the file until done or until shutdown.
    Stream,
    /// Tell the recording manager that the recording is over.
    Disconnect,
    /// The push is over, with this result.
    Finish(Result<(), PushError>),
    /// The event does not apply in the current stage; nothing to do.
    Ignore,
}

/// Where a push stands.
#[derive(Debug, Clone, Copy, PartialEq, Eq)]
pub enum PushStage {
    Idle,
    /// Shutting the stream down after a token mismatch.
    Rejecting,
    Connecting,
    /// Shutting the stream down after the manager gave no file.
    Abandoning,
    Opening,
    Streaming,
    /// Shutting the stream down on gateway shutdown.
    Interrupting,
    /// Telling the manager; then finish with `pending`.
    Disconnecting { pending: Result<(), PushError> },
    Done,
}

/// The next stage and action of a push for `session_id` whose token is for
/// `token_id`.
pub open spec fn push_transition(stage: PushStage, session_id: u128, token_id: u128, event: PushEvent) -> (
    PushStage,
    PushAction,
) {
    match (stage, event) {
        (PushStage::Idle, PushEvent::Start) => if session_id != token_id {
            (PushStage::Rejecting, PushAction::ShutdownStream)
        } else {
            (PushStage::Connecting, PushAction::Connect)
        },
        (PushStage::Rejecting, PushEvent::StreamShutDown { .. }) => (
            PushStage::Done,
            PushAction::Finish(Err(PushError::InconsistentSessionId { token_id })),
        ),
        (PushStage::Connecting, PushEvent::Connected) => (PushStage::Opening, PushAction::OpenFile),
        (PushStage::Connecting, PushEvent::ConnectFailed) => (
            PushStage::Abandoning,
            PushAction::ShutdownStream,
        ),
        (PushStage::Abandoning, PushEvent::StreamShutDown { ok }) => (
            PushStage::Done,
            PushAction::Finish(
                if ok {
                    Ok(())
                } else {
                    Err(PushError::Shutdown)
                },
            ),
        ),
        (PushStage::Opening, PushEvent::FileOpened) => (PushStage::Streaming, PushAction::Stream),
        (PushStage::Opening, PushEvent::FileOpenFailed) => (
            PushStage::Disconnecting { pending: Err(PushError::OpenFile) },
            PushAction::Disconnect,
        ),
        (PushStage::Streaming, PushEvent::CopyFinished { ok }) => (
            PushStage::Disconnecting {
                pending: if ok {
                    Ok(())
                } else {
                    Err(PushError::Streaming)
                },
            },
            PushAction::Disconnect,
        ),
        (PushStage::Streaming, PushEvent::ShutdownSignal) => (
            PushStage::Interrupting,
            PushAction::ShutdownStream,
        ),
        (PushStage::Interrupting, PushEvent::StreamShutDown { ok }) => (
            PushStage::Disconnecting {
                pending: if ok {
                    Ok(())
                } else {
                    Err(PushError::Shutdown)
                },
            },
            PushAction::Disconnect,
        ),
        (PushStage::Disconnecting { pending }, PushEvent::DisconnectSent { ok }) => (
            PushStage::Done,
            PushAction::Finish(
                if ok {
                    pending
                } else {
                    Err(PushError::Disconnect)
                },
            ),
        ),
        _ => (stage, PushAction::Ignore),
    }
}

/// Whether the recording manager gave a file in reaching `stage`.
pub open spec fn holds_recording(stage: PushStage) -> bool {
    match stage {
        PushStage::Opening | PushStage::Streaming | PushStage::Interrupting | PushStage::Disconnecting {
            ..
        } => true,
        _ => false,
    }
}

/// A push of a client's recording stream.
pub struct ClientPush {
    session_id: u128,
    claims: JrecTokenClaims,
    stage: PushStage,
    connected: bool,
    disconnected: bool,
}

impl ClientPush {
    /// Where the push stands.
    pub closed spec fn stage_spec(&self) -> PushStage {
        self.stage
    }

    /// Whether the recording manager gave a file to this push.
    pub closed spec fn connected_spec(&self) -> bool {
        self.connected
    }

    /// Whether this push told the recording manager that it is over.
    pub closed spec fn disconnected_spec(&self) -> bool {
        self.disconnected
    }

    /// The session the push is for.
    pub closed spec fn session_spec(&self) -> u128 {
        self.session_id
    }

    /// The session the token is for.
    pub closed spec fn token_spec(&self) -> u128 {
        self.claims.jet_aid
    }

    /// A disconnection is handed over only for a recording that was
    /// connected, at most once, and, once the push is over, exactly when
    /// the recording was connected.
    pub open spec fn wf(&self) -> bool {
        &&& (self.disconnected_spec() ==> self.connected_spec())
        &&& (self.stage_spec() is Disconnecting <==> (self.connected_spec()
            && self.disconnected_spec() && self.stage_spec() != PushStage::Done))
        &&& (holds_recording(self.stage_spec()) ==> self.connected_spec())
        &&& (!holds_recording(self.stage_spec()) && self.stage_spec() != PushStage::Done
            ==> !self.connected_spec())
        &&& (self.stage_spec() == PushStage::Done ==> self.connected_spec()
            == self.disconnected_spec())
        &&& (!(self.stage_spec() is Disconnecting) && self.stage_spec() != PushStage::Done
            ==> !self.disconnected_spec())
    }

    /// A push of session `session_id`'s stream under `claims`.
    pub fn new(session_id: u128, claims: JrecTokenClaims) -> (r: ClientPush)
        ensures
            r.wf(),
            r.stage_spec() == PushStage::Idle,
            r.session_spec() == session_id,
            r.token_spec() == claims.jet_aid,
            !r.connected_spec(),
            !r.disconnected_spec(),
    {
        ClientPush { session_id, claims, stage: PushStage::Idle, connected: false, disconnected: false }
    }

    /// Where the push stands.
    pub fn stage(&self) -> (r: PushStage)
        ensures
            r == self.stage_spec(),
    {
        self.stage
    }

    /// Takes what happened and says what to do next.
    pub fn step(&mut self, event: PushEvent) -> (r: PushAction)
        requires
            old(self).wf(),
        ensures
            final(self).wf(),
            final(self).session_spec() == old(self).session_spec(),
            final(self).token_spec() == old(self).token_spec(),
            (final(self).stage_spec(), r) == push_transition(
                old(self).stage_spec(),
                old(self).session_spec(),
                old(self).token_spec(),
                event,
            ),
            final(self).connected_spec() == (old(self).connected_spec() || (old(self).stage_spec()
                == PushStage::Connecting && event == PushEvent::Connected)),
            final(self).disconnected_spec() == (old(self).disconnected_spec() || r
                == PushAction::Disconnect),
            r == PushAction::Disconnect ==> old(self).connected_spec() && !old(
                self,
            ).disconnected_spec(),
            r is Finish ==> final(self).connected_spec() == final(self).disconnected_spec(),
    {
        let token_id = self.claims.jet_aid;
        let (stage, action) = match (self.stage, event) {
            (PushStage::Idle, PushEvent::Start) => if self.session_id != token_id {
                (PushStage::Rejecting, PushAction::ShutdownStream)
            } else {
                (PushStage::Connecting, PushAction::Connect)
            },
            (PushStage::Rejecting, PushEvent::StreamShutDown { .. }) => (
                PushStage::Done,
                PushAction::Finish(Err(PushError::InconsistentSessionId { token_id })),
            ),
            (PushStage::Connecting, PushEvent::Connected) => (PushStage::Opening, PushAction::OpenFile),
            (PushStage::Connecting, PushEvent::ConnectFailed) => (
                PushStage::Abandoning,
                PushAction::ShutdownStream,
            ),
            (PushStage::Abandoning, PushEvent::StreamShutDown { ok }) => (
                PushStage::Done,
                PushAction::Finish(
                    if ok {
                        Ok(())
                    } else {
                        Err(PushError::Shutdown)
                    },
                ),
            ),
            (PushStage::Opening, PushEvent::FileOpened) => (PushStage::Streaming, PushAction::Stream),
            (PushStage::Opening, PushEvent::FileOpenFailed) => (
                PushStage::Disconnecting { pending: Err(PushError::OpenFile) },
                PushAction::Disconnect,
            ),
            (PushStage::Streaming, PushEvent::CopyFinished { ok }) => (
                PushStage::Disconnecting {
                    pending: if ok {
                        Ok(())
                    } else {
                        Err(PushError::Streaming)
                    },
                },
                PushAction::Disconnect,
            ),
            (PushStage::Streaming, PushEvent::ShutdownSignal) => (
                PushStage::Interrupting,
                PushAction::ShutdownStream,
            ),
            (PushStage::Interrupting, PushEvent::StreamShutDown { ok }) => (
                PushStage::Disconnecting {
                    pending: if ok {
                        Ok(())
                    } else {
                        Err(PushError::Shutdown)
                    },
                },
                PushAction::Disconnect,
            ),
            (PushStage::Disconnecting { pending }, PushEvent::DisconnectSent { ok }) => (
                PushStage::Done,
                PushAction::Finish(
                    if ok {
                        pending
                    } else {
                        Err(PushError::Disconnect)
                    },
                ),
            ),
            (s, _) => (s, PushAction::Ignore),
        };
        if matches!(self.stage, PushStage::Connecting) && matches!(event, PushEvent::Connected) {
            self.connected = true;
        }
        if matches!(action, PushAction::Disconnect) {
            self.disconnected = true;
        }
        self.stage = stage;
        action
    }
}

} // verus!
