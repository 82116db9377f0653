//! Which external tools are missing, for the screen that offers to fetch them.

use vstd::prelude::*;

verus! {

/// The tools that still have to be fetched.
#[derive(Clone, Copy, Debug, PartialEq, Eq, Structural)]
pub struct DependencyDownloader {
    pub ffmpeg_missing: bool,
    pub ytdlp_missing: bool,
}

impl DependencyDownloader {
    pub fn new(ffmpeg_missing: bool, ytdlp_missing: bool) -> (r: Self)
        ensures
            r.ffmpeg_missing == ffmpeg_missing,
            r.ytdlp_missing == ytdlp_missing,
    {
        DependencyDownloader { ffmpeg_missing, ytdlp_missing }
    }

    /// Records that ffmpeg was fetched.
    pub fn ffmpeg_fetched(&mut self)
        ensures
            !final(self).ffmpeg_missing,
            final(self).ytdlp_missing == old(self).ytdlp_missing,
    {
        self.ffmpeg_missing = false;
    }

    /// Records that yt-dlp was fetched.
    pub fn ytdlp_fetched(&mut self)
        ensures
            !final(self).ytdlp_missing,
            final(self).ffmpeg_missing == old(self).ffmpeg_missing,
    {
        self.ytdlp_missing = false;
    }

    /// Whether nothing is left to fetch.
    pub fn all_present(&self) -> (r: bool)
        ensures
            r == (!self.ffmpeg_missing && !self.ytdlp_missing),
    {
        !self.ffmpeg_missing && !self.ytdlp_missing
    }
}

} // verus!
