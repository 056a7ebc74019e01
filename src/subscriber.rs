//! Messages to the subscriber, and the policy of their delivery.

use vstd::prelude::*;

use crate::clock::{utc_now, Timestamp};

verus! {

/// What the subscriber is told of a session.
#[derive(Debug, Clone, Copy, PartialEq, Eq)]
pub struct SubscriberSessionInfo {
    pub association_id: u128,
    pub start_timestamp: Timestamp,
}

/// What a message is about.
pub enum MessageInner {
    /// A session started.
    SessionStarted { session: SubscriberSessionInfo },
    /// A session ended.
    SessionEnded { session: SubscriberSessionInfo },
    /// The sessions in progress.
    SessionList { session_list: Vec<SubscriberSessionInfo> },
}

/// A message to the subscriber, stamped with the time it describes.
pub struct Message {
    pub timestamp: Timestamp,
    pub inner: MessageInner,
}

impl Message {
    /// A session started; the message is stamped with the session's start.
    pub fn session_started(session: SubscriberSessionInfo) -> (r: Message)
        ensures
            r.timestamp == session.start_timestamp,
            r.inner == (MessageInner::SessionStarted { session }),
    {
        Message { timestamp: session.start_timestamp, inner: MessageInner::SessionStarted { session } }
    }

    /// A session ended at `now`.
    pub fn session_ended_at(session: SubscriberSessionInfo, now: Timestamp) -> (r: Message)
        ensures
            r.timestamp == now,
            r.inner == (MessageInner::SessionEnded { session }),
    {
        Message { timestamp: now, inner: MessageInner::SessionEnded { session } }
    }

    /// A session ended; the message is stamped with the current time.
    pub fn session_ended(session: SubscriberSessionInfo) -> (r: Message)
        ensures
            r.timestamp.valid(),
            r.inner == (MessageInner::SessionEnded { session }),
    {
        Message::session_ended_at(session, utc_now())
    }

    /// The sessions in progress at `now`.
    pub fn session_list_at(session_list: Vec<SubscriberSessionInfo>, now: Timestamp) -> (r: Message)
        ensures
            r.timestamp == now,
            r.inner == (MessageInner::SessionList { session_list }),
    {
        Message { timestamp: now, inner: MessageInner::SessionList { session_list } }
    }

    /// The sessions in progress; the message is stamped with the current time.
    pub fn session_list(session_list: Vec<SubscriberSessionInfo>) -> (r: Message)
        ensures
            r.timestamp.valid(),
            r.inner == (MessageInner::SessionList { session_list }),
    {
        Message::session_list_at(session_list, utc_now())
    }

    /// The kind of the message, as the subscriber names it.
    pub fn kind(&self) -> (r: &'static str)
        ensures
            r@ == kind_name(self.inner),
    {
        match &self.inner {
            MessageInner::SessionStarted { .. } => "session.started",
            MessageInner::SessionEnded { .. } => "session.ended",
            MessageInner::SessionList { .. } => "session.list",
        }
    }
}

/// The name of each kind of message on the wire.
pub open spec fn kind_name(inner: MessageInner) -> Seq<char> {
    match inner {
        MessageInner::SessionStarted { .. } => "session.started"@,
        MessageInner::SessionEnded { .. } => "session.ended"@,
        MessageInner::SessionList { .. } => "session.list"@,
    }
}

/// How a response status bears on the delivery.
#[derive(Debug, Clone, Copy, PartialEq, Eq)]
pub enum StatusClass {
    /// Informational, success or redirection: delivered.
    Success,
    /// Client error: retrying cannot help.
    Permanent,
    /// Server error: worth retrying.
    Transient,
}

/// The class of an HTTP status: 4xx is permanent, 5xx transient, anything
/// else a success.
pub open spec fn status_class(status: u16) -> StatusClass {
    if 400 <= status < 500 {
        StatusClass::Permanent
    } else if 500 <= status < 600 {
        StatusClass::Transient
    } else {
        StatusClass::Success
    }
}

/// Classifies an HTTP response status.
pub fn classify_status(status: u16) -> (r: StatusClass)
    ensures
        r == status_class(status),
{
    if 400 <= status && status < 500 {
        StatusClass::Permanent
    } else if 500 <= status && status < 600 {
        StatusClass::Transient
    } else {
        StatusClass::Success
    }
}

/// The result of one attempt to post a message.
#[derive(Debug, Clone, Copy, PartialEq, Eq)]
pub enum AttemptOutcome {
    /// The subscriber answered with `status`, possibly asking to retry after
    /// `retry_after_millis`.
    Responded { status: u16, retry_after_millis: Option<u64> },
    /// The request did not get a response (connection, DNS, TLS, ...).
    TransportFailed,
}

/// Why a message was not delivered.
#[derive(Debug, Clone, Copy, PartialEq, Eq)]
pub enum DeliveryError {
    /// The subscriber answered with a client error.
    ClientError { status: u16 },
    /// The request did not get a response; this is not retried.
    Transport,
    /// The subscriber kept answering with a server error until the retry
    /// budget ran out.
    ServerError { status: u16 },
}

/// What the caller does next for a delivery.
#[derive(Debug, Clone, Copy, PartialEq, Eq)]
pub enum DeliveryAction {
    /// Stop: the message was delivered, or it is dropped with this error.
    Finish(Result<(), DeliveryError>),
    /// Wait this many milliseconds, then post again.
    Wait { millis: u64 },
    /// Ask the backoff schedule for the next delay and report it.
    ConsultBackoff,
}

/// Where a delivery stands.
#[derive(Debug, Clone, Copy, PartialEq, Eq)]
pub enum DeliveryPhase {
    /// Expecting the outcome of a post.
    Posting,
    /// Waiting before the next post.
    Waiting,
    /// Expecting the next delay of the backoff schedule, after `status`,
    /// whose response asked to retry after `retry_after_millis`, if at all.
    AwaitingBackoff { status: u16, retry_after_millis: Option<u64> },
    /// Over.
    Done,
}

/// The action that follows the outcome of a post.
pub open spec fn attempt_action(outcome: AttemptOutcome) -> DeliveryAction {
    match outcome {
        AttemptOutcome::TransportFailed => DeliveryAction::Finish(Err(DeliveryError::Transport)),
        AttemptOutcome::Responded { status, retry_after_millis } => match status_class(status) {
            StatusClass::Success => DeliveryAction::Finish(Ok(())),
            StatusClass::Permanent => DeliveryAction::Finish(Err(DeliveryError::ClientError { status })),
            StatusClass::Transient => DeliveryAction::ConsultBackoff,
        },
    }
}

/// The phase that an action leads to, after a post with `outcome`.
pub open spec fn phase_after(outcome: AttemptOutcome, action: DeliveryAction) -> DeliveryPhase {
    match action {
        DeliveryAction::Finish(_) => DeliveryPhase::Done,
        DeliveryAction::Wait { .. } => DeliveryPhase::Waiting,
        DeliveryAction::ConsultBackoff => match outcome {
            AttemptOutcome::Responded { status, retry_after_millis } => DeliveryPhase::AwaitingBackoff {
                status,
                retry_after_millis,
            },
            AttemptOutcome::TransportFailed => DeliveryPhase::Done,
        },
    }
}

/// The delivery of one message: post, and on a server error retry after the
/// delay that the server or the backoff schedule gives, until delivered,
/// refused, or out of retries.
pub struct Delivery {
    phase: DeliveryPhase,
}

impl Delivery {
    /// Where the delivery stands.
    pub closed spec fn phase_spec(&self) -> DeliveryPhase {
        self.phase
    }

    /// A delivery about to make its first post.
    pub fn new() -> (r: Delivery)
        ensures
            r.phase_spec() == DeliveryPhase::Posting,
    {
        Delivery { phase: DeliveryPhase::Posting }
    }

    /// Where the delivery stands.
    pub fn phase(&self) -> (r: DeliveryPhase)
        ensures
            r == self.phase_spec(),
    {
        self.phase
    }

    /// Takes the outcome of a post and says what to do next.
    pub fn on_attempt(&mut self, outcome: AttemptOutcome) -> (r: DeliveryAction)
        requires
            old(self).phase_spec() == DeliveryPhase::Posting,
        ensures
            r == attempt_action(outcome),
            final(self).phase_spec() == phase_after(outcome, r),
            !(r is Wait),
    {
        let action = match outcome {
            AttemptOutcome::TransportFailed => DeliveryAction::Finish(Err(DeliveryError::Transport)),
            AttemptOutcome::Responded { status, retry_after_millis } => match classify_status(status) {
                StatusClass::Success => DeliveryAction::Finish(Ok(())),
                StatusClass::Permanent => DeliveryAction::Finish(
                    Err(DeliveryError::ClientError { status }),
                ),
                StatusClass::Transient => DeliveryAction::ConsultBackoff,
            },
        };
        self.phase = match action {
            DeliveryAction::Finish(_) => DeliveryPhase::Done,
            DeliveryAction::Wait { .. } => DeliveryPhase::Waiting,
            DeliveryAction::ConsultBackoff => match outcome {
                AttemptOutcome::Responded { status, retry_after_millis } => DeliveryPhase::AwaitingBackoff {
                    status,
                    retry_after_millis,
                },
                AttemptOutcome::TransportFailed => DeliveryPhase::Done,
            },
        };
        action
    }

    /// Takes the next delay of the backoff schedule (none once its time
    /// budget is spent) and says what to do next: give up, or wait for the
    /// delay that the server asked for, else the schedule's delay. Every
    /// retry goes through the schedule, so its time budget bounds the
    /// delivery whatever the server asks.
    pub fn on_backoff(&mut self, next_millis: Option<u64>) -> (r: DeliveryAction)
        requires
            old(self).phase_spec() is AwaitingBackoff,
        ensures
            match next_millis {
                Some(millis) => r == (DeliveryAction::Wait {
                    millis: match old(self).phase_spec()->AwaitingBackoff_retry_after_millis {
                        Some(asked) => asked,
                        None => millis,
                    },
                }) && final(self).phase_spec() == DeliveryPhase::Waiting,
                None => r == DeliveryAction::Finish(
                    Err(
                        DeliveryError::ServerError {
                            status: old(self).phase_spec()->AwaitingBackoff_status,
                        },
                    ),
                ) && final(self).phase_spec() == DeliveryPhase::Done,
            },
    {
        let (status, asked) = match self.phase {
            DeliveryPhase::AwaitingBackoff { status, retry_after_millis } => (status, retry_after_millis),
            _ => (0, None),
        };
        match next_millis {
            Some(millis) => {
                self.phase = DeliveryPhase::Waiting;
                let wait = match asked {
                    Some(a) => a,
                    None => millis,
                };
                DeliveryAction::Wait { millis: wait }
            },
            None => {
                self.phase = DeliveryPhase::Done;
                DeliveryAction::Finish(Err(DeliveryError::ServerError { status }))
            },
        }
    }

    /// The wait is over: post again.
    pub fn on_wait_elapsed(&mut self)
        requires
            old(self).phase_spec() == DeliveryPhase::Waiting,
        ensures
            final(self).phase_spec() == DeliveryPhase::Posting,
    {
        self.phase = DeliveryPhase::Posting;
    }
}

/// Whether every byte of `s` is an ASCII decimal digit.
pub open spec fn all_digits(s: Seq<u8>) -> bool {
    forall|i: int| 0 <= i < s.len() ==> 48 <= #[trigger] s[i] <= 57
}

/// The number that a string of decimal digits denotes.
pub open spec fn digits_value(s: Seq<u8>) -> nat
    decreases s.len(),
{
    if s.len() == 0 {
        0
    } else {
        digits_value(s.drop_last()) * 10 + (s.last() - 48) as nat
    }
}

proof fn lemma_digits_value_grows(s: Seq<u8>, k: int)
    requires
        all_digits(s),
        0 <= k <= s.len(),
    ensures
        digits_value(s.subrange(0, k)) <= digits_value(s),
    decreases s.len() - k,
{
    if k < s.len() {
        lemma_digits_value_grows(s, k + 1);
        assert(s.subrange(0, k + 1).drop_last() =~= s.subrange(0, k));
    } else {
        assert(s.subrange(0, k) =~= s);
    }
}

/// Reads the delay of a `Retry-After` header given in seconds, as
/// milliseconds. Gives `None` for anything but a non-empty run of decimal
/// digits, and for a delay whose milliseconds do not fit in 64 bits.
pub fn parse_retry_after(value: &[u8]) -> (r: Option<u64>)
    ensures
        r == (if value@.len() > 0 && all_digits(value@) && digits_value(value@) * 1000 <= u64::MAX {
            Some((digits_value(value@) * 1000) as u64)
        } else {
            None::<u64>
        }),
{
    let n = value.len();
    if n == 0 {
        return None;
    }
    let mut acc: u64 = 0;
    let mut i: usize = 0;
    while i < n
        invariant
            n == value@.len(),
            i <= n,
            all_digits(value@.subrange(0, i as int)),
            acc == digits_value(value@.subrange(0, i as int)),
        decreases n - i,
    {
        let b = value[i];
        assert(value@.subrange(0, i + 1).drop_last() =~= value@.subrange(0, i as int));
        if b < 48 || b > 57 {
            assert(!all_digits(value@)) by {
                assert(value@[i as int] == b);
            }
            return None;
        }
        let d = (b - 48) as u64;
        if acc > (u64::MAX - d) / 10 {
            proof {
                assert(all_digits(value@.subrange(0, i + 1)));
                assert(digits_value(value@.subrange(0, i + 1)) == acc * 10 + d);
                if all_digits(value@) {
                    lemma_digits_value_grows(value@, i + 1);
                    assert(value@.subrange(0, i + 1) =~= value@.subrange(0, i + 1));
                }
            }
            return None;
        }
        acc = acc * 10 + d;
        i = i + 1;
    }
    assert(value@.subrange(0, n as int) =~= value@);
    if acc > u64::MAX / 1000 {
        None
    } else {
        Some(acc * 1000)
    }
}

} // verus!
