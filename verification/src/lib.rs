//! Decision logic of a media-import utility: classifying media files,
//! producing thumbnails through a chain of fallback strategies, and copying
//! batches of files with byte-accurate progress accounting.
//!
//! All input and output is left to the caller. The stateful operations are
//! state machines that hand out a request for the next piece of outside work
//! and take its result back; everything else is a function of plain values.
//!
//! Paths are texts whose components are separated by `/`.

pub mod text;
pub mod path;
pub mod platform;
pub mod media;
pub mod raster;
pub mod encoding;
pub mod placeholder;
pub mod thumbnail;
pub mod progress;
pub mod transfer;
pub mod copy;
pub mod directory;
pub mod listing;
pub mod drives;
pub mod system;
pub mod destination;

use vstd::prelude::*;
use vstd::string::StringExecFns;

verus! {

/// The greeting for `name`.
pub open spec fn greeting(name: Seq<char>) -> Seq<char> {
    "Hello, "@ + name + "! You've been greeted from Rust!"@
}

/// Greets `name`.
pub fn greet(name: &str) -> (r: String)
    ensures
        r@ == greeting(name@),
{
    let mut out = text::owned("Hello, ");
    out.append(name);
    out.append("! You've been greeted from Rust!");
    out
}

} // verus!
