//! The manifest of a session's recording: its payload files, in order.

use vstd::prelude::*;

use crate::naming::{file_name_spec, recording_file_name};

verus! {

/// One payload file of a recording, as the manifest lists it.
pub struct JrecFile {
    pub file_name: String,
    pub start_time: i64,
    pub duration: i64,
}

/// The manifest of a recording: the session, when it started, how long it
/// lasted, and its payload files in the order in which they were opened.
pub struct JrecManifest {
    pub session_id: u128,
    pub start_time: i64,
    pub duration: i64,
    pub files: Vec<JrecFile>,
}

/// Mathematical value of a [`JrecFile`].
pub struct FileRecord {
    pub file_name: Seq<char>,
    pub start_time: int,
    pub duration: int,
}

/// Mathematical value of a [`JrecManifest`].
pub struct ManifestRecord {
    pub session_id: u128,
    pub start_time: int,
    pub duration: int,
    pub files: Seq<FileRecord>,
}

impl View for JrecFile {
    type V = FileRecord;

    open spec fn view(&self) -> FileRecord {
        FileRecord {
            file_name: self.file_name@,
            start_time: self.start_time as int,
            duration: self.duration as int,
        }
    }
}

impl View for JrecManifest {
    type V = ManifestRecord;

    open spec fn view(&self) -> ManifestRecord {
        ManifestRecord {
            session_id: self.session_id,
            start_time: self.start_time as int,
            duration: self.duration as int,
            files: self.files@.map_values(|f: JrecFile| f@),
        }
    }
}

/// The file entry opened at `now` as the file of index `index`.
pub open spec fn opened_file(index: nat, now: int, ext: Seq<char>) -> FileRecord {
    FileRecord { file_name: file_name_spec(index, ext), start_time: now, duration: 0 }
}

/// The manifest of a recording that starts at `now` with its first file.
pub open spec fn initial_manifest(session_id: u128, now: int, ext: Seq<char>) -> ManifestRecord {
    ManifestRecord {
        session_id,
        start_time: now,
        duration: 0,
        files: seq![opened_file(0, now, ext)],
    }
}

/// `m` with one more file, opened at `now`.
pub open spec fn appended(m: ManifestRecord, now: int, ext: Seq<char>) -> ManifestRecord {
    ManifestRecord { files: m.files.push(opened_file(m.files.len(), now, ext)), ..m }
}

/// `m` with its current (last) file and the whole recording ended at `end`.
pub open spec fn closed(m: ManifestRecord, end: int) -> ManifestRecord
    recommends
        m.files.len() > 0,
{
    let last = m.files.len() - 1;
    ManifestRecord {
        duration: end - m.start_time,
        files: m.files.update(last, FileRecord { duration: end - m.files[last].start_time, ..m.files[last] }),
        ..m
    }
}

/// The manifest written when a recording (re)starts at `now`: the stored
/// manifest with one more file, or a new manifest when none is stored.
pub open spec fn next_manifest_spec(
    stored: Option<ManifestRecord>,
    session_id: u128,
    now: int,
    ext: Seq<char>,
) -> ManifestRecord {
    match stored {
        Some(m) => appended(m, now, ext),
        None => initial_manifest(session_id, now, ext),
    }
}

/// The mathematical value of a manifest read back from storage, if any.
pub open spec fn stored_record(stored: Option<JrecManifest>) -> Option<ManifestRecord> {
    match stored {
        Some(m) => Some(m@),
        None => None,
    }
}

/// The name of a file says its position: `recording-{index}.{ext}`.
pub open spec fn name_has_index(name: Seq<char>, index: nat) -> bool {
    exists|ext: Seq<char>| name == #[trigger] file_name_spec(index, ext)
}

/// What every manifest that this library writes satisfies: at least one file,
/// file names indexed by position, non-negative durations, and each file ended
/// before any later one started.
pub open spec fn sound(m: ManifestRecord) -> bool {
    &&& m.files.len() > 0
    &&& m.start_time <= m.files[0].start_time
    &&& forall|i: int| 0 <= i < m.files.len() ==> name_has_index(#[trigger] m.files[i].file_name, i as nat)
    &&& forall|i: int| 0 <= i < m.files.len() ==> #[trigger] m.files[i].duration >= 0
    &&& forall|i: int, j: int|
        0 <= i < j < m.files.len() ==> #[trigger] m.files[i].start_time + m.files[i].duration
            <= #[trigger] m.files[j].start_time
}

/// Why a manifest could not be closed.
#[derive(Debug, Clone, Copy, PartialEq, Eq)]
pub enum CloseError {
    /// The manifest lists no file.
    NoRecordingFile,
    /// A duration does not fit in 64 bits.
    DurationOverflow,
}

/// Whether `end - start` fits in an `i64`.
pub open spec fn fits_i64(v: int) -> bool {
    i64::MIN <= v <= i64::MAX
}

impl JrecManifest {
    /// A new manifest for a recording that starts at `now`, with its first file.
    pub fn initial(session_id: u128, now: i64, ext: &str) -> (r: JrecManifest)
        ensures
            r@ == initial_manifest(session_id, now as int, ext@),
            sound(r@),
    {
        let first = JrecFile { file_name: recording_file_name(0, ext), start_time: now, duration: 0 };
        let files = vec![first];
        let r = JrecManifest { session_id, start_time: now, duration: 0, files };
        assert(r@.files =~= seq![opened_file(0, now as int, ext@)]);
        assert(name_has_index(r@.files[0].file_name, 0));
        r
    }

    /// Appends a file opened at `now` and returns its name.
    pub fn append_file(&mut self, now: i64, ext: &str) -> (name: String)
        ensures
            final(self)@ == appended(old(self)@, now as int, ext@),
            name@ == file_name_spec(old(self)@.files.len(), ext@),
    {
        let index = self.files.len();
        let file_name = recording_file_name(index, ext);
        let name = file_name.clone();
        self.files.push(JrecFile { file_name, start_time: now, duration: 0 });
        assert(self@.files =~= appended(old(self)@, now as int, ext@).files);
        name
    }

    /// Ends the current file and the whole recording at `end`.
    ///
    /// Fails, leaving the manifest as it was, when it lists no file or when a
    /// duration would not fit in 64 bits.
    pub fn close(&mut self, end: i64) -> (r: Result<(), CloseError>)
        ensures
            old(self)@.files.len() == 0 ==> r == Err::<(), CloseError>(CloseError::NoRecordingFile),
            old(self)@.files.len() > 0 ==> {
                let last = old(self)@.files[old(self)@.files.len() - 1];
                if fits_i64(end - last.start_time) && fits_i64(end - old(self)@.start_time) {
                    r is Ok && final(self)@ == closed(old(self)@, end as int)
                } else {
                    r == Err::<(), CloseError>(CloseError::DurationOverflow)
                }
            },
            r is Err ==> final(self)@ == old(self)@,
    {
        let n = self.files.len();
        if n == 0 {
            return Err(CloseError::NoRecordingFile);
        }
        let last_start = self.files[n - 1].start_time;
        let file_duration = end.checked_sub(last_start);
        let total_duration = end.checked_sub(self.start_time);
        match (file_duration, total_duration) {
            (Some(fd), Some(td)) => {
                let mut last = self.files.pop().unwrap();
                last.duration = fd;
                self.files.push(last);
                self.duration = td;
                assert(self@.files =~= closed(old(self)@, end as int).files);
                Ok(())
            },
            _ => Err(CloseError::DurationOverflow),
        }
    }
}

/// The manifest to write when a recording (re)starts at `now`: the stored
/// manifest with one more file, or a new one when none is stored.
pub fn next_manifest(stored: Option<JrecManifest>, session_id: u128, now: i64, ext: &str) -> (r:
    JrecManifest)
    ensures
        r@ == next_manifest_spec(stored_record(stored), session_id, now as int, ext@),
{
    match stored {
        Some(mut m) => {
            let _ = m.append_file(now, ext);
            m
        },
        None => JrecManifest::initial(session_id, now, ext),
    }
}

/// A file opened after the previous one ended keeps a sound manifest sound:
/// start times stay ordered and each file name keeps saying its position.
pub proof fn lemma_append_keeps_order(m: ManifestRecord, now: int, ext: Seq<char>)
    requires
        sound(m),
        m.files[m.files.len() - 1].start_time + m.files[m.files.len() - 1].duration <= now,
    ensures
        sound(appended(m, now, ext)),
        forall|i: int|
            0 <= i < appended(m, now, ext).files.len() - 1 ==> #[trigger] appended(m, now, ext).files[i].start_time
                <= appended(m, now, ext).files[i + 1].start_time,
        forall|i: int|
            0 <= i < appended(m, now, ext).files.len() ==> name_has_index(
                #[trigger] appended(m, now, ext).files[i].file_name,
                i as nat,
            ),
{
    let a = appended(m, now, ext);
    let n = m.files.len() as int;
    assert(name_has_index(a.files[n].file_name, n as nat));
    assert forall|i: int, j: int| 0 <= i < j < a.files.len() implies #[trigger] a.files[i].start_time
        + a.files[i].duration <= #[trigger] a.files[j].start_time by {
        if j == n && i < n - 1 {
            assert(m.files[i].start_time + m.files[i].duration <= m.files[n - 1].start_time);
        }
    }
    assert forall|i: int| 0 <= i < a.files.len() - 1 implies #[trigger] a.files[i].start_time
        <= a.files[i + 1].start_time by {
        assert(a.files[i].start_time + a.files[i].duration <= a.files[i + 1].start_time);
    }
}

/// Closing a sound manifest at a time no earlier than the start of its
/// current file gives that file a non-negative duration, and a total duration
/// that covers the end of every file.
pub proof fn lemma_close_covers_files(m: ManifestRecord, end: int)
    requires
        sound(m),
        m.files[m.files.len() - 1].start_time <= end,
    ensures
        sound(closed(m, end)),
        closed(m, end).files[m.files.len() - 1].duration >= 0,
        forall|i: int|
            0 <= i < closed(m, end).files.len() ==> closed(m, end).duration >= #[trigger] closed(
                m,
                end,
            ).files[i].start_time + closed(m, end).files[i].duration - closed(m, end).start_time,
{
    let c = closed(m, end);
    let n = m.files.len() as int;
    assert forall|i: int| 0 <= i < c.files.len() implies c.duration >= #[trigger] c.files[i].start_time
        + c.files[i].duration - c.start_time by {
        if i < n - 1 {
            assert(m.files[i].start_time + m.files[i].duration <= m.files[n - 1].start_time);
        }
    }
    assert forall|i: int| 0 <= i < c.files.len() implies name_has_index(
        #[trigger] c.files[i].file_name,
        i as nat,
    ) by {
        assert(name_has_index(m.files[i].file_name, i as nat));
    }
    assert forall|i: int, j: int| 0 <= i < j < c.files.len() implies #[trigger] c.files[i].start_time
        + c.files[i].duration <= #[trigger] c.files[j].start_time by {
        assert(m.files[i].start_time + m.files[i].duration <= m.files[j].start_time);
    }
}

} // verus!
