//! The operating systems that the utility knows.

use vstd::prelude::*;

verus! {

/// The operating system that the program runs on.
#[derive(Clone, Copy, Debug, PartialEq, Eq, Structural)]
pub enum Platform {
    Linux,
    MacOs,
    Windows,
    Other,
}

impl Platform {
    /// Whether the platform offers a thumbnail service of its own: every
    /// platform but Windows does.
    pub open spec fn has_thumbnail_service(self) -> bool {
        self != Platform::Windows
    }

    /// The name of the frame extractor's program file.
    pub open spec fn extractor_program(self) -> Seq<char> {
        if self == Platform::Windows {
            "ffmpeg.exe"@
        } else {
            "ffmpeg"@
        }
    }

    /// Whether the platform offers a thumbnail service of its own.
    pub fn thumbnail_service(self) -> (r: bool)
        ensures
            r == self.has_thumbnail_service(),
    {
        self != Platform::Windows
    }

    /// The name of the frame extractor's program file.
    pub fn extractor(self) -> (r: &'static str)
        ensures
            r@ == self.extractor_program(),
    {
        if self == Platform::Windows {
            "ffmpeg.exe"
        } else {
            "ffmpeg"
        }
    }
}

} // verus!
