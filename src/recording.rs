//! The recording manager: which sessions are being recorded, in what state,
//! and with which manifest.

use std::collections::{HashMap, HashSet};

use vstd::prelude::*;

use crate::clock::unix_now;
use crate::manifest::{
    closed, fits_i64, next_manifest, next_manifest_spec, stored_record, CloseError, JrecManifest,
    ManifestRecord,
};
use crate::naming::{join_path, joined, session_id_string, session_id_text};

verus! {

broadcast use vstd::std_specs::hash::group_hash_axioms;

/// Seconds that a disconnected recording waits for a reconnection before it
/// is evicted.
pub const DISCONNECTED_TTL_SECS: i64 = 10;

/// Number of recordings above which a connection is reported as unusual load.
pub const LENGTH_WARNING_THRESHOLD: usize = 1000;

/// State of an ongoing recording.
#[derive(Debug, Clone, Copy, PartialEq, Eq)]
pub enum OnGoingRecordingState {
    /// A client is streaming into the recording.
    Connected,
    /// The client left at `timestamp` (Unix seconds); a reconnection may
    /// resume the recording until it is evicted.
    LastSeen { timestamp: i64 },
}

/// A recording that the manager tracks.
pub struct OnGoingRecording {
    pub state: OnGoingRecordingState,
    pub manifest: JrecManifest,
    pub manifest_path: String,
}

/// Mathematical value of an [`OnGoingRecording`].
pub struct RecordingRecord {
    pub state: OnGoingRecordingState,
    pub manifest: ManifestRecord,
    pub manifest_path: Seq<char>,
}

impl View for OnGoingRecording {
    type V = RecordingRecord;

    open spec fn view(&self) -> RecordingRecord {
        RecordingRecord {
            state: self.state,
            manifest: self.manifest@,
            manifest_path: self.manifest_path@,
        }
    }
}

/// Why a recording request was refused.
#[derive(Debug, Clone, Copy, PartialEq, Eq)]
pub enum RecordingError {
    /// The session is already being recorded.
    ConcurrentRecording,
    /// No recording is known for the session.
    UnknownRecording,
    /// The recording is not connected.
    NotConnected,
    /// The manifest lists no file.
    NoRecordingFile,
    /// A duration does not fit in 64 bits.
    DurationOverflow,
}

/// The description of each error.
pub open spec fn error_text(e: RecordingError) -> Seq<char> {
    match e {
        RecordingError::ConcurrentRecording => "concurrent recording for the same session is not supported"@,
        RecordingError::UnknownRecording => "unknown recording for this session"@,
        RecordingError::NotConnected => "a recording not connected can't be disconnected (there is probably a bug)"@,
        RecordingError::NoRecordingFile => "no recording file (this is a bug)"@,
        RecordingError::DurationOverflow => "recording duration out of range"@,
    }
}

impl RecordingError {
    /// A human-readable description of the error.
    pub fn message(&self) -> (r: &'static str)
        ensures
            r@ == error_text(*self),
    {
        match self {
            RecordingError::ConcurrentRecording => "concurrent recording for the same session is not supported",
            RecordingError::UnknownRecording => "unknown recording for this session",
            RecordingError::NotConnected => "a recording not connected can't be disconnected (there is probably a bug)",
            RecordingError::NoRecordingFile => "no recording file (this is a bug)",
            RecordingError::DurationOverflow => "recording duration out of range",
        }
    }
}

/// The set of sessions with an ongoing recording.
///
/// It answers membership cheaply, without going through the manager's
/// request queue.
pub struct ActiveRecordings {
    ids: HashSet<u128>,
}

impl View for ActiveRecordings {
    type V = Set<u128>;

    closed spec fn view(&self) -> Set<u128> {
        self.ids@
    }
}

impl ActiveRecordings {
    /// An empty set.
    pub fn new() -> (r: ActiveRecordings)
        ensures
            r@ == Set::<u128>::empty(),
    {
        ActiveRecordings { ids: HashSet::new() }
    }

    /// Whether a recording is ongoing for `id`.
    pub fn contains(&self, id: u128) -> (r: bool)
        ensures
            r == self@.contains(id),
    {
        self.ids.contains(&id)
    }

    /// The number of sessions in the set.
    pub fn len(&self) -> (r: usize)
        ensures
            r == self@.len(),
    {
        self.ids.len()
    }

    /// Adds `id` and returns the new size.
    pub(crate) fn insert(&mut self, id: u128) -> (r: usize)
        ensures
            final(self)@ == old(self)@.insert(id),
            r == final(self)@.len(),
    {
        self.ids.insert(id);
        self.ids.len()
    }

    /// Removes `id`.
    pub(crate) fn remove(&mut self, id: u128)
        ensures
            final(self)@ == old(self)@.remove(id),
    {
        self.ids.remove(&id);
    }
}

/// The directory that holds the recording of session `id`.
pub open spec fn recording_dir_spec(root: Seq<char>, id: u128) -> Seq<char> {
    joined(root, session_id_text(id))
}

/// The path of the manifest of session `id`.
pub open spec fn manifest_path_spec(root: Seq<char>, id: u128) -> Seq<char> {
    joined(recording_dir_spec(root, id), "recording.json"@)
}

/// Whether a client is currently streaming into the recording of `id`.
pub open spec fn is_connected(recs: Map<u128, RecordingRecord>, id: u128) -> bool {
    recs.contains_key(id) && recs[id].state == OnGoingRecordingState::Connected
}

/// The recordings once `id` is connected with `manifest`.
pub open spec fn after_connect(
    recs: Map<u128, RecordingRecord>,
    id: u128,
    manifest: ManifestRecord,
    manifest_path: Seq<char>,
) -> Map<u128, RecordingRecord> {
    recs.insert(
        id,
        RecordingRecord { state: OnGoingRecordingState::Connected, manifest, manifest_path },
    )
}

/// Whether the manifest of a connected recording can be closed at `now`.
pub open spec fn closable(m: ManifestRecord, now: int) -> bool {
    m.files.len() > 0 && fits_i64(now - m.files[m.files.len() - 1].start_time) && fits_i64(
        now - m.start_time,
    )
}

/// The outcome of a disconnection of `id` at `now`.
pub open spec fn disconnect_result(recs: Map<u128, RecordingRecord>, id: u128, now: int) -> Result<
    (),
    RecordingError,
> {
    if !recs.contains_key(id) {
        Err(RecordingError::UnknownRecording)
    } else if recs[id].state != OnGoingRecordingState::Connected {
        Err(RecordingError::NotConnected)
    } else if recs[id].manifest.files.len() == 0 {
        Err(RecordingError::NoRecordingFile)
    } else if !closable(recs[id].manifest, now) {
        Err(RecordingError::DurationOverflow)
    } else {
        Ok(())
    }
}

/// The recordings once `id` has disconnected at `now`: a connected recording
/// is last seen at `now`, and its manifest is closed at `now` where it can be.
pub open spec fn after_disconnect(recs: Map<u128, RecordingRecord>, id: u128, now: i64) -> Map<
    u128,
    RecordingRecord,
> {
    if is_connected(recs, id) {
        let m = recs[id].manifest;
        let m2 = if closable(m, now as int) {
            closed(m, now as int)
        } else {
            m
        };
        recs.insert(
            id,
            RecordingRecord {
                state: OnGoingRecordingState::LastSeen { timestamp: now },
                manifest: m2,
                manifest_path: recs[id].manifest_path,
            },
        )
    } else {
        recs
    }
}

/// Whether the recording of `id` is due for eviction at `now`: it was last
/// seen at least the time-to-live ago, less one second of slack for timers
/// that fire early.
pub open spec fn evictable(recs: Map<u128, RecordingRecord>, id: u128, now: int) -> bool {
    recs.contains_key(id) && match recs[id].state {
        OnGoingRecordingState::LastSeen { timestamp } => now >= timestamp + DISCONNECTED_TTL_SECS
            - 1,
        OnGoingRecordingState::Connected => false,
    }
}

/// What the manager decided for a connection: the manifest to write, where
/// to write it, and the payload file that the client streams into.
pub struct ConnectPlan {
    pub session_id: u128,
    pub manifest: JrecManifest,
    pub manifest_path: String,
    pub recording_file: String,
}

/// Whether `plan` writes manifest `m` and streams into the last file of `m`,
/// in the directory of session `id` under `root`.
pub open spec fn planned_at(plan: ConnectPlan, root: Seq<char>, id: u128, m: ManifestRecord) -> bool {
    &&& plan.manifest@ == m
    &&& plan.recording_file@ == joined(recording_dir_spec(root, id), m.files[m.files.len() - 1].file_name)
}

/// Sizes after a connection, and whether they exceed the warning threshold.
#[derive(Debug, Clone, Copy, PartialEq, Eq)]
pub struct ConnectReport {
    pub active_count: usize,
    pub ongoing_count: usize,
    pub over_threshold: bool,
}

/// The state of the recording manager: every ongoing recording, the index of
/// their session identifiers, and the directory under which recordings live.
pub struct RecordingManagerTask {
    ongoing_recordings: HashMap<u128, OnGoingRecording>,
    active_recordings: ActiveRecordings,
    recordings_path: String,
}

impl RecordingManagerTask {
    /// The ongoing recordings, by session identifier.
    pub closed spec fn recordings(&self) -> Map<u128, RecordingRecord> {
        self.ongoing_recordings@.map_values(|r: OnGoingRecording| r@)
    }

    /// The index of sessions with an ongoing recording.
    pub closed spec fn active(&self) -> Set<u128> {
        self.active_recordings@
    }

    /// The directory under which recordings live.
    pub closed spec fn root(&self) -> Seq<char> {
        self.recordings_path@
    }

    /// The index holds exactly the sessions that have an ongoing recording,
    /// and every recording has a file and its manifest at its own path.
    pub open spec fn wf(&self) -> bool {
        &&& self.active() == self.recordings().dom()
        &&& forall|id: u128| #[trigger]
            self.recordings().contains_key(id) ==> self.recordings()[id].manifest.files.len() > 0
                && self.recordings()[id].manifest_path == manifest_path_spec(self.root(), id)
    }

    /// A manager with no recording, rooted at `recordings_path`.
    pub fn new(recordings_path: String) -> (r: RecordingManagerTask)
        ensures
            r.wf(),
            r.recordings() == Map::<u128, RecordingRecord>::empty(),
            r.root() == recordings_path@,
    {
        let r = RecordingManagerTask {
            ongoing_recordings: HashMap::new(),
            active_recordings: ActiveRecordings::new(),
            recordings_path,
        };
        assert(r.recordings() =~= Map::<u128, RecordingRecord>::empty());
        r
    }

    /// The index of sessions with an ongoing recording.
    pub fn active_recordings(&self) -> (r: &ActiveRecordings)
        ensures
            r@ == self.active(),
    {
        &self.active_recordings
    }

    /// The directory that holds the recording of session `id`.
    pub fn recording_dir(&self, id: u128) -> (r: String)
        ensures
            r@ == recording_dir_spec(self.root(), id),
    {
        let name = session_id_string(id);
        join_path(self.recordings_path.as_str(), name.as_str())
    }

    /// The path of the manifest of session `id`.
    pub fn manifest_path(&self, id: u128) -> (r: String)
        ensures
            r@ == manifest_path_spec(self.root(), id),
    {
        let dir = self.recording_dir(id);
        join_path(dir.as_str(), "recording.json")
    }

    /// Refuses a second concurrent recording of the same session.
    pub fn check_connect(&self, id: u128) -> (r: Result<(), RecordingError>)
        ensures
            r is Err <==> is_connected(self.recordings(), id),
            r is Err ==> r == Err::<(), RecordingError>(RecordingError::ConcurrentRecording),
    {
        match self.ongoing_recordings.get(&id) {
            Some(ongoing) => match ongoing.state {
                OnGoingRecordingState::Connected => Err(RecordingError::ConcurrentRecording),
                OnGoingRecordingState::LastSeen { .. } => Ok(()),
            },
            None => Ok(()),
        }
    }

    /// Plans the connection of session `id` at `now`, given the manifest
    /// that storage holds for it, if any: the stored manifest gains a file,
    /// or a new manifest is started.
    pub fn plan_connect_at(&self, id: u128, ext: &str, now: i64, stored: Option<JrecManifest>) -> (r:
        Result<ConnectPlan, RecordingError>)
        ensures
            r is Err <==> is_connected(self.recordings(), id),
            r is Err ==> r == Err::<ConnectPlan, RecordingError>(RecordingError::ConcurrentRecording),
            r matches Ok(p) ==> {
                let m = next_manifest_spec(stored_record(stored), id, now as int, ext@);
                &&& p.session_id == id
                &&& p.manifest@ == m
                &&& p.manifest_path@ == manifest_path_spec(self.root(), id)
                &&& p.recording_file@ == joined(
                    recording_dir_spec(self.root(), id),
                    m.files[m.files.len() - 1].file_name,
                )
            },
    {
        self.check_connect(id)?;
        let manifest = next_manifest(stored, id, now, ext);
        let n = manifest.files.len();
        assert(manifest@.files.len() > 0);
        assert(manifest@.files.len() == n);
        let dir = self.recording_dir(id);
        let recording_file = join_path(dir.as_str(), manifest.files[n - 1].file_name.as_str());
        let manifest_path = self.manifest_path(id);
        Ok(ConnectPlan { session_id: id, manifest, manifest_path, recording_file })
    }

    /// Plans the connection of session `id` now (see [`Self::plan_connect_at`]).
    pub fn plan_connect(&self, id: u128, ext: &str, stored: Option<JrecManifest>) -> (r: Result<
        ConnectPlan,
        RecordingError,
    >)
        ensures
            r is Err <==> is_connected(self.recordings(), id),
            r is Err ==> r == Err::<ConnectPlan, RecordingError>(RecordingError::ConcurrentRecording),
            r matches Ok(p) ==> {
                &&& p.session_id == id
                &&& p.manifest_path@ == manifest_path_spec(self.root(), id)
                &&& exists|now: i64|
                    #![trigger next_manifest_spec(stored_record(stored), id, now as int, ext@)]
                    planned_at(p, self.root(), id, next_manifest_spec(stored_record(stored), id, now as int, ext@))
            },
    {
        let now = unix_now();
        let r = self.plan_connect_at(id, ext, now, stored);
        assert(r matches Ok(p) ==> planned_at(
            p,
            self.root(),
            id,
            next_manifest_spec(stored_record(stored), id, now as int, ext@),
        ));
        r
    }

    /// Records a planned connection once its manifest is written: the
    /// recording is connected and indexed. Returns the payload file and the
    /// resulting sizes.
    pub fn commit_connect(&mut self, plan: ConnectPlan) -> (r: (String, ConnectReport))
        requires
            old(self).wf(),
            plan.manifest@.files.len() > 0,
            plan.manifest_path@ == manifest_path_spec(old(self).root(), plan.session_id),
        ensures
            final(self).wf(),
            final(self).root() == old(self).root(),
            final(self).recordings() == after_connect(
                old(self).recordings(),
                plan.session_id,
                plan.manifest@,
                plan.manifest_path@,
            ),
            final(self).active() == old(self).active().insert(plan.session_id),
            r.0@ == plan.recording_file@,
            r.1.active_count == final(self).active().len(),
            r.1.ongoing_count == final(self).recordings().len(),
            r.1.over_threshold == (r.1.active_count > LENGTH_WARNING_THRESHOLD
                || r.1.ongoing_count > LENGTH_WARNING_THRESHOLD),
    {
        let ConnectPlan { session_id, manifest, manifest_path, recording_file } = plan;
        let active_count = self.active_recordings.insert(session_id);
        let ongoing = OnGoingRecording {
            state: OnGoingRecordingState::Connected,
            manifest,
            manifest_path,
        };
        self.ongoing_recordings.insert(session_id, ongoing);
        let ongoing_count = self.ongoing_recordings.len();
        assert(self.recordings() =~= after_connect(
            old(self).recordings(),
            session_id,
            ongoing.manifest@,
            ongoing.manifest_path@,
        ));
        assert(self.active() =~= self.recordings().dom());
        assert(self.recordings().dom() =~= self.ongoing_recordings@.dom());
        let over_threshold = active_count > LENGTH_WARNING_THRESHOLD || ongoing_count
            > LENGTH_WARNING_THRESHOLD;
        (recording_file, ConnectReport { active_count, ongoing_count, over_threshold })
    }

    /// Disconnects the recording of session `id` at `now`: the recording is
    /// last seen at `now` and its current file and the recording end at `now`.
    pub fn handle_disconnect_at(&mut self, id: u128, now: i64) -> (r: Result<(), RecordingError>)
        requires
            old(self).wf(),
        ensures
            final(self).wf(),
            final(self).root() == old(self).root(),
            final(self).active() == old(self).active(),
            r == disconnect_result(old(self).recordings(), id, now as int),
            final(self).recordings() == after_disconnect(old(self).recordings(), id, now),
    {
        match self.ongoing_recordings.remove(&id) {
            None => {
                assert(self.ongoing_recordings@ =~= old(self).ongoing_recordings@);
                Err(RecordingError::UnknownRecording)
            },
            Some(mut ongoing) => {
                match ongoing.state {
                    OnGoingRecordingState::Connected => {},
                    OnGoingRecordingState::LastSeen { .. } => {
                        self.ongoing_recordings.insert(id, ongoing);
                        assert(self.ongoing_recordings@ =~= old(self).ongoing_recordings@);
                        return Err(RecordingError::NotConnected);
                    },
                }
                ongoing.state = OnGoingRecordingState::LastSeen { timestamp: now };
                let closing = ongoing.manifest.close(now);
                self.ongoing_recordings.insert(id, ongoing);
                assert(self.recordings() =~= after_disconnect(old(self).recordings(), id, now));
                assert(self.recordings().dom() =~= old(self).recordings().dom());
                match closing {
                    Ok(()) => Ok(()),
                    Err(CloseError::NoRecordingFile) => Err(RecordingError::NoRecordingFile),
                    Err(CloseError::DurationOverflow) => Err(RecordingError::DurationOverflow),
                }
            },
        }
    }

    /// Disconnects the recording of session `id` now (see
    /// [`Self::handle_disconnect_at`]).
    pub fn handle_disconnect(&mut self, id: u128) -> (r: Result<(), RecordingError>)
        requires
            old(self).wf(),
        ensures
            final(self).wf(),
            final(self).root() == old(self).root(),
            final(self).active() == old(self).active(),
            final(self).recordings().dom() == old(self).recordings().dom(),
            !is_connected(final(self).recordings(), id),
            r is Ok ==> is_connected(old(self).recordings(), id),
            exists|now: i64|
                #![trigger after_disconnect(old(self).recordings(), id, now)]
                final(self).recordings() == after_disconnect(old(self).recordings(), id, now) && r
                    == disconnect_result(old(self).recordings(), id, now as int),
    {
        let now = unix_now();
        let r = self.handle_disconnect_at(id, now);
        assert(final(self).recordings() == after_disconnect(old(self).recordings(), id, now));
        r
    }

    /// Evicts the recording of session `id` if it is due at `now`; returns
    /// whether it was evicted.
    pub fn handle_remove_at(&mut self, id: u128, now: i64) -> (r: bool)
        requires
            old(self).wf(),
        ensures
            final(self).wf(),
            final(self).root() == old(self).root(),
            r == evictable(old(self).recordings(), id, now as int),
            r ==> final(self).recordings() == old(self).recordings().remove(id),
            r ==> final(self).active() == old(self).active().remove(id),
            !r ==> final(self).recordings() == old(self).recordings(),
            !r ==> final(self).active() == old(self).active(),
    {
        let due = match self.ongoing_recordings.get(&id) {
            Some(ongoing) => match ongoing.state {
                OnGoingRecordingState::LastSeen { timestamp } => {
                    // `now >= timestamp + TTL - 1`, written so that nothing overflows.
                    now >= i64::MIN + (DISCONNECTED_TTL_SECS - 1) && timestamp <= now - (
                    DISCONNECTED_TTL_SECS - 1)
                },
                OnGoingRecordingState::Connected => false,
            },
            None => false,
        };
        if due {
            self.active_recordings.remove(id);
            self.ongoing_recordings.remove(&id);
            assert(self.recordings() =~= old(self).recordings().remove(id));
            assert(self.active() =~= self.recordings().dom());
        }
        due
    }

    /// Evicts the recording of session `id` if it is due now (see
    /// [`Self::handle_remove_at`]).
    pub fn handle_remove(&mut self, id: u128) -> (r: bool)
        requires
            old(self).wf(),
        ensures
            final(self).wf(),
            final(self).root() == old(self).root(),
            r ==> final(self).recordings() == old(self).recordings().remove(id),
            !r ==> final(self).recordings() == old(self).recordings(),
            is_connected(old(self).recordings(), id) ==> !r,
            exists|now: i64| #[trigger] evictable(old(self).recordings(), id, now as int) == r,
    {
        let now = unix_now();
        let r = self.handle_remove_at(id, now);
        assert(evictable(old(self).recordings(), id, now as int) == r);
        r
    }

    /// Stops tracking the recording of session `id`, whatever its state.
    pub fn forget_recording(&mut self, id: u128)
        requires
            old(self).wf(),
        ensures
            final(self).wf(),
            final(self).root() == old(self).root(),
            final(self).recordings() == old(self).recordings().remove(id),
            final(self).active() == old(self).active().remove(id),
    {
        self.active_recordings.remove(id);
        self.ongoing_recordings.remove(&id);
        assert(self.recordings() =~= old(self).recordings().remove(id));
        assert(self.active() =~= self.recordings().dom());
    }

    /// The recording of session `id`, if one is tracked.
    pub fn recording(&self, id: u128) -> (r: Option<&OnGoingRecording>)
        ensures
            match r {
                Some(rec) => self.recordings().contains_key(id) && rec@ == self.recordings()[id],
                None => !self.recordings().contains_key(id),
            },
    {
        self.ongoing_recordings.get(&id)
    }

    /// The state of the recording of session `id`, if one is tracked.
    pub fn recording_state(&self, id: u128) -> (r: Option<OnGoingRecordingState>)
        ensures
            r == (if self.recordings().contains_key(id) {
                Some(self.recordings()[id].state)
            } else {
                None
            }),
    {
        match self.ongoing_recordings.get(&id) {
            Some(ongoing) => Some(ongoing.state),
            None => None,
        }
    }

    /// The number of tracked recordings.
    pub fn recording_count(&self) -> (r: usize)
        ensures
            r == self.recordings().len(),
    {
        assert(self.recordings().dom() =~= self.ongoing_recordings@.dom());
        self.ongoing_recordings.len()
    }
}

/// A session that is not connected can connect; once connected it refuses a
/// second connection; once disconnected it can connect again, and the
/// manifest then written is the one saved at disconnection with exactly one
/// more file.
pub proof fn lemma_reconnect_appends_one_file(
    recs: Map<u128, RecordingRecord>,
    id: u128,
    manifest: ManifestRecord,
    manifest_path: Seq<char>,
    end: i64,
    now: int,
    ext: Seq<char>,
)
    requires
        !is_connected(recs, id),
    ensures
        is_connected(after_connect(recs, id, manifest, manifest_path), id),
        !is_connected(after_disconnect(after_connect(recs, id, manifest, manifest_path), id, end), id),
        ({
            let saved = after_disconnect(
                after_connect(recs, id, manifest, manifest_path),
                id,
                end,
            )[id].manifest;
            let next = next_manifest_spec(Some(saved), id, now, ext);
            &&& next.files.len() == saved.files.len() + 1
            &&& next.files.subrange(0, saved.files.len() as int) == saved.files
        }),
{
    let saved = after_disconnect(after_connect(recs, id, manifest, manifest_path), id, end)[id].manifest;
    let next = next_manifest_spec(Some(saved), id, now, ext);
    assert(next.files.subrange(0, saved.files.len() as int) =~= saved.files);
}

/// A recording that disconnected at `end`, with no connection since, is due
/// for eviction from one time-to-live (less one second of slack) after `end`.
pub proof fn lemma_evictable_after_ttl(
    recs: Map<u128, RecordingRecord>,
    id: u128,
    manifest: ManifestRecord,
    manifest_path: Seq<char>,
    end: i64,
    now: int,
)
    requires
        now >= end + DISCONNECTED_TTL_SECS - 1,
    ensures
        evictable(after_disconnect(after_connect(recs, id, manifest, manifest_path), id, end), id, now),
{
}

/// At every point between two operations of the manager, a session is in the
/// index of active recordings exactly when the manager tracks a recording
/// for it.
pub proof fn lemma_index_matches_recordings(manager: &RecordingManagerTask, id: u128)
    requires
        manager.wf(),
    ensures
        manager.active().contains(id) <==> manager.recordings().contains_key(id),
{
}

/// A disconnection of a connected recording at `now`, no earlier than the
/// start of its current file and no earlier than the end of any earlier file,
/// gives the current file the duration `now - start`, which is not negative,
/// and the recording a duration that covers the end of every file.
pub proof fn lemma_disconnect_durations(recs: Map<u128, RecordingRecord>, id: u128, now: i64)
    requires
        is_connected(recs, id),
        recs[id].manifest.files.len() > 0,
        closable(recs[id].manifest, now as int),
        recs[id].manifest.files[recs[id].manifest.files.len() - 1].start_time <= now,
        forall|i: int|
            0 <= i < recs[id].manifest.files.len() - 1 ==> #[trigger] recs[id].manifest.files[i].start_time
                + recs[id].manifest.files[i].duration <= now,
    ensures
        ({
            let m = recs[id].manifest;
            let last = m.files.len() - 1;
            let w = after_disconnect(recs, id, now)[id].manifest;
            &&& disconnect_result(recs, id, now as int) is Ok
            &&& w == closed(m, now as int)
            &&& w.files.len() == m.files.len()
            &&& w.files[last].duration == now - m.files[last].start_time
            &&& w.files[last].duration >= 0
            &&& w.duration == now - w.start_time
            &&& forall|i: int|
                0 <= i < w.files.len() ==> w.duration >= #[trigger] w.files[i].start_time
                    + w.files[i].duration - w.start_time
        }),
{
    let m = recs[id].manifest;
    let w = after_disconnect(recs, id, now)[id].manifest;
    assert forall|i: int| 0 <= i < w.files.len() implies w.duration >= #[trigger] w.files[i].start_time
        + w.files[i].duration - w.start_time by {
        if i < m.files.len() - 1 {
            assert(m.files[i].start_time + m.files[i].duration <= now);
        }
    }
}

} // verus!
