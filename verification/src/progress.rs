//! The progress board: the model behind the multi-track display, one track
//! per in-flight download.
//!
//! Each track is owned by the task that added it: a task only ever touches
//! its own index. The board aggregates for display and decides nothing.

use vstd::prelude::*;

verus! {

/// One progress track: its label, the declared total (0 for indeterminate),
/// the current position, and whether it finished, with the closing message.
pub struct ProgressTrack {
    pub label: String,
    pub total_kb: u64,
    pub position_kb: u64,
    pub finished: bool,
    pub message: Option<String>,
}

/// The shared display: the tracks in the order they were added.
pub struct ProgressBoard {
    pub tracks: Vec<ProgressTrack>,
}

impl ProgressBoard {
    /// An empty board.
    pub fn new() -> (b: ProgressBoard)
        ensures
            b.tracks@.len() == 0,
    {
        ProgressBoard { tracks: Vec::new() }
    }

    /// Adds a track with a known or unknown (0) total; returns its index,
    /// which only the owning task uses. No other track moves.
    pub fn add_track(&mut self, label: String, total_kb: u64) -> (idx: usize)
        ensures
            idx == old(self).tracks@.len(),
            final(self).tracks@ == old(self).tracks@.push(
                ProgressTrack {
                    label: label,
                    total_kb: total_kb,
                    position_kb: 0,
                    finished: false,
                    message: None,
                },
            ),
    {
        let idx = self.tracks.len();
        self.tracks.push(
            ProgressTrack { label, total_kb, position_kb: 0, finished: false, message: None },
        );
        idx
    }

    /// Moves one track's position; everything else stays.
    pub fn update(&mut self, idx: usize, position_kb: u64)
        requires
            idx < old(self).tracks@.len(),
        ensures
            final(self).tracks@ == old(self).tracks@.update(
                idx as int,
                (ProgressTrack {
                    position_kb: position_kb,
                    ..old(self).tracks@[idx as int]
                }),
            ),
    {
        let track = &mut self.tracks[idx];
        track.position_kb = position_kb;
        proof {
            assert(final(self).tracks@ =~= old(self).tracks@.update(
                idx as int,
                (ProgressTrack { position_kb: position_kb, ..old(self).tracks@[idx as int] }),
            ));
        }
    }

    /// Marks one track finished with its closing message; everything else
    /// stays. A task that fails mid-stream never calls this: its track stays
    /// unfinished.
    pub fn finish(&mut self, idx: usize, message: String)
        requires
            idx < old(self).tracks@.len(),
        ensures
            final(self).tracks@ == old(self).tracks@.update(
                idx as int,
                (ProgressTrack {
                    finished: true,
                    message: Some(message),
                    ..old(self).tracks@[idx as int]
                }),
            ),
    {
        let track = &mut self.tracks[idx];
        track.finished = true;
        track.message = Some(message);
        proof {
            assert(final(self).tracks@ =~= old(self).tracks@.update(
                idx as int,
                (ProgressTrack {
                    finished: true,
                    message: Some(message),
                    ..old(self).tracks@[idx as int]
                }),
            ));
        }
    }

    /// Clears the whole display.
    pub fn clear(&mut self)
        ensures
            final(self).tracks@.len() == 0,
    {
        self.tracks = Vec::new();
    }
}

} // verus!
