//! The download scheduler's per-commit task: destination layout and the
//! state machine that decides each step of one archive download.
//!
//! The driver performs the I/O — it issues the request, probes the
//! destination, creates the file, writes the chunks — and reports each
//! outcome back; the machine decides what happens next and keeps the
//! counters the progress display shows.

use vstd::prelude::*;
use vstd::math::min;
use crate::urls::download_url;
use crate::urls::artifact_path;
use crate::urls::commit_dir;
use crate::urls::spec_artifact_path;
use crate::urls::spec_commit_dir;
use crate::urls::spec_download_url;

verus! {

/// One download task: the archive URL, the per-commit destination directory,
/// the artifact path inside it, and the commit it mirrors.
pub struct DownloadTask {
    pub url: String,
    pub dir: String,
    pub file: String,
    pub commit: String,
}

/// Builds the task for one commit: URL and paths follow the fixed templates,
/// nothing else goes into them.
pub fn make_task(base: &str, commit: &str, arch: &str) -> (t: DownloadTask)
    ensures
        t.url@ == spec_download_url(commit@, arch@),
        t.dir@ == spec_commit_dir(base@, commit@),
        t.file@ == spec_artifact_path(base@, commit@, arch@),
        t.commit@ == commit@,
{
    DownloadTask {
        url: download_url(commit, arch),
        dir: commit_dir(base, commit),
        file: artifact_path(base, commit, arch),
        commit: commit.to_owned(),
    }
}

/// Builds one task per commit identifier, in order: tasks never outnumber
/// commits.
pub fn make_tasks(base: &str, commits: &Vec<String>, arch: &str) -> (ts: Vec<DownloadTask>)
    ensures
        ts@.len() == commits@.len(),
        forall|i: int|
            0 <= i < commits@.len() ==> {
                &&& (#[trigger] ts@[i]).url@ == spec_download_url(commits@[i]@, arch@)
                &&& ts@[i].dir@ == spec_commit_dir(base@, commits@[i]@)
                &&& ts@[i].file@ == spec_artifact_path(base@, commits@[i]@, arch@)
                &&& ts@[i].commit@ == commits@[i]@
            },
{
    let mut ts: Vec<DownloadTask> = Vec::new();
    let mut i: usize = 0;
    while i < commits.len()
        invariant
            i <= commits@.len(),
            ts@.len() == i,
            forall|j: int|
                0 <= j < i ==> {
                    &&& (#[trigger] ts@[j]).url@ == spec_download_url(commits@[j]@, arch@)
                    &&& ts@[j].dir@ == spec_commit_dir(base@, commits@[j]@)
                    &&& ts@[j].file@ == spec_artifact_path(base@, commits@[j]@, arch@)
                    &&& ts@[j].commit@ == commits@[j]@
                },
        decreases commits@.len() - i,
    {
        let t = make_task(base, commits[i].as_str(), arch);
        ts.push(t);
        i = i + 1;
    }
    ts
}

/// Where one download task stands.
#[derive(Clone, Copy, PartialEq, Eq, Structural, Debug)]
pub enum DlPhase {
    /// The request was issued; its outcome is pending.
    Requested,
    /// The response arrived; the destination probe is pending.
    CheckingDisk,
    /// The artifact is absent; file creation is pending.
    Creating,
    /// The file exists and body chunks are being streamed into it.
    Streaming,
    /// The artifact was already present: the task ended without touching
    /// network body or disk.
    Skipped,
    /// The stream ended; the artifact is complete.
    Finished,
    /// The request, the file creation, or the stream failed; whatever was
    /// written stays in place.
    Failed,
}

/// The declared total in kilobyte units: 0 when the length is unknown.
pub open spec fn kb_of(content_length: Option<u64>) -> int {
    match content_length {
        Some(len) => len as int / 1024,
        None => 0,
    }
}

/// One run of a download task.
pub struct DownloadRun {
    /// Where the run stands.
    pub phase: DlPhase,
    /// The declared content length, in kilobytes; 0 means unknown.
    pub total_kb: u64,
    /// The progress position, in kilobytes, clamped to the total.
    pub downloaded_kb: u64,
    /// How many body chunks were fetched over the network.
    pub chunks: u64,
    /// Whether this run created the destination file.
    pub file_created: bool,
}

impl DownloadRun {
    /// What holds of a run in every phase: the position never exceeds the
    /// declared total, and before the stream begins — and on a skip —
    /// nothing has been fetched or written.
    pub open spec fn wf(&self) -> bool {
        &&& self.downloaded_kb <= self.total_kb
        &&& ((self.phase is Requested || self.phase is CheckingDisk || self.phase is Creating
            || self.phase is Skipped) ==> self.chunks == 0 && !self.file_created
            && self.downloaded_kb == 0)
        &&& ((self.phase is Streaming || self.phase is Finished) ==> self.file_created)
    }

    /// Opens a run: the request for the archive has just been issued.
    pub fn start() -> (s: DownloadRun)
        ensures
            s.wf(),
            s.phase == DlPhase::Requested,
            s.chunks == 0,
            !s.file_created,
            s.total_kb == 0,
            s.downloaded_kb == 0,
    {
        DownloadRun {
            phase: DlPhase::Requested,
            total_kb: 0,
            downloaded_kb: 0,
            chunks: 0,
            file_created: false,
        }
    }

    /// Feeds the run the request's outcome. A request-level failure ends the
    /// task before any file exists; a response moves it to the destination
    /// probe and fixes the declared total.
    pub fn on_response(&mut self, ok: bool, content_length: Option<u64>)
        requires
            old(self).wf(),
            old(self).phase == DlPhase::Requested,
        ensures
            final(self).wf(),
            !ok ==> final(self).phase == DlPhase::Failed && !final(self).file_created
                && final(self).chunks == 0,
            ok ==> final(self).phase == DlPhase::CheckingDisk && final(self).total_kb as int
                == kb_of(content_length),
            !ok ==> final(self).total_kb == old(self).total_kb,
            final(self).chunks == old(self).chunks,
            final(self).file_created == old(self).file_created,
            final(self).downloaded_kb == old(self).downloaded_kb,
    {
        if !ok {
            self.phase = DlPhase::Failed;
        } else {
            self.total_kb = match content_length {
                Some(len) => len / 1024,
                None => 0,
            };
            self.phase = DlPhase::CheckingDisk;
        }
    }

    /// Feeds the run the destination probe. A present artifact ends the task
    /// at once — nothing further is fetched and the file is left exactly as
    /// it was. Presence is the only completeness check: a partial file from
    /// an earlier aborted run is also skipped.
    pub fn on_exists(&mut self, exists: bool)
        requires
            old(self).wf(),
            old(self).phase == DlPhase::CheckingDisk,
        ensures
            final(self).wf(),
            exists ==> final(self).phase == DlPhase::Skipped && final(self).chunks == 0
                && !final(self).file_created,
            !exists ==> final(self).phase == DlPhase::Creating,
            final(self).chunks == old(self).chunks,
            final(self).file_created == old(self).file_created,
            final(self).total_kb == old(self).total_kb,
            final(self).downloaded_kb == old(self).downloaded_kb,
    {
        if exists {
            self.phase = DlPhase::Skipped;
        } else {
            self.phase = DlPhase::Creating;
        }
    }

    /// Feeds the run the file-creation outcome. On failure the task ends
    /// with no file; on success the stream begins.
    pub fn on_create(&mut self, ok: bool)
        requires
            old(self).wf(),
            old(self).phase == DlPhase::Creating,
        ensures
            final(self).wf(),
            !ok ==> final(self).phase == DlPhase::Failed && !final(self).file_created,
            ok ==> final(self).phase == DlPhase::Streaming && final(self).file_created,
            final(self).chunks == old(self).chunks,
            final(self).total_kb == old(self).total_kb,
            final(self).downloaded_kb == old(self).downloaded_kb,
    {
        if ok {
            self.file_created = true;
            self.phase = DlPhase::Streaming;
        } else {
            self.phase = DlPhase::Failed;
        }
    }

    /// Feeds the run one chunk outcome. A fetched chunk is written through
    /// and moves the position by the chunk's kilobytes, clamped to the
    /// declared total; a stream failure ends the task on the spot, leaving
    /// the partial bytes in place.
    pub fn on_chunk(&mut self, ok: bool, chunk_len: usize)
        requires
            old(self).wf(),
            old(self).phase == DlPhase::Streaming,
            old(self).chunks < u64::MAX,
        ensures
            final(self).wf(),
            ok ==> {
                &&& final(self).phase == DlPhase::Streaming
                &&& final(self).chunks == old(self).chunks + 1
                &&& final(self).downloaded_kb as int == min(
                    old(self).downloaded_kb as int + chunk_len as int / 1024,
                    old(self).total_kb as int,
                )
            },
            !ok ==> final(self).phase == DlPhase::Failed && final(self).chunks
                == old(self).chunks && final(self).downloaded_kb == old(self).downloaded_kb,
            final(self).total_kb == old(self).total_kb,
            final(self).file_created == old(self).file_created,
    {
        if ok {
            let inc: u64 = (chunk_len as u64) / 1024;
            let cur = self.downloaded_kb;
            self.downloaded_kb = if self.total_kb - cur <= inc {
                self.total_kb
            } else {
                cur + inc
            };
            self.chunks = self.chunks + 1;
        } else {
            self.phase = DlPhase::Failed;
        }
    }

    /// Feeds the run the end of the stream: the artifact is complete.
    pub fn on_stream_end(&mut self)
        requires
            old(self).wf(),
            old(self).phase == DlPhase::Streaming,
        ensures
            final(self).wf(),
            final(self).phase == DlPhase::Finished,
            final(self).chunks == old(self).chunks,
            final(self).downloaded_kb == old(self).downloaded_kb,
            final(self).total_kb == old(self).total_kb,
            final(self).file_created == old(self).file_created,
    {
        self.phase = DlPhase::Finished;
    }
}

/// Law: a run that finished its stream created the artifact file — the file
/// a later run's probe finds. With `lemma_skipped_run_fetches_nothing` this
/// is the idempotence of the download step: the later run, probing the path
/// the finished run filled, fetches nothing, so one commit's archive is
/// transferred once.
pub proof fn lemma_finished_run_created_file(s: DownloadRun)
    requires
        s.wf(),
        s.phase is Finished,
    ensures
        s.file_created,
{
}

/// Law: a run that found the artifact already on disk fetched no body chunk
/// and created no file — the artifact is left byte-identical, whatever it
/// held.
pub proof fn lemma_skipped_run_fetches_nothing(s: DownloadRun)
    requires
        s.wf(),
        s.phase is Skipped,
    ensures
        s.chunks == 0,
        !s.file_created,
        s.downloaded_kb == 0,
{
}

/// Law: in every phase, the recorded position never exceeds the declared
/// total; a run that failed mid-stream after creating its file thus leaves a
/// file whose recorded progress is at most — and on an early failure, short
/// of — the declared length.
pub proof fn lemma_position_bounded(s: DownloadRun)
    requires
        s.wf(),
    ensures
        s.downloaded_kb <= s.total_kb,
{
}

} // verus!
