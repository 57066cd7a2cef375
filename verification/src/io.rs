//! Jobs for the background worker that fetches songs.

use vstd::prelude::*;

use crate::song::SongRequest;

verus! {

/// One unit of background work, handed to the worker pool one at a time:
/// fetch the requested song and report the record built for it.
pub enum IOJob {
    DownloadSong { requested_song: SongRequest },
}

} // verus!
