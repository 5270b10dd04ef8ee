//! The copy of one file in chunks: when to report how far it has come.
//!
//! The caller reads and writes; after each chunk it tells a `ChunkMeter`
//! how many bytes it moved and reports what the meter hands back. These
//! reports are a courtesy: a reporter that does not take one is not asked
//! again, and the copy goes on.

use vstd::prelude::*;
use crate::progress::{EventView, ProgressEvent};

verus! {

/// A file is read and written in chunks of this many bytes.
pub const CHUNK_SIZE: usize = 65536;

/// The number of bytes after which progress within a file is reported
/// again: a tenth of the file, but at most 1 MiB and at least 64 KiB.
pub open spec fn report_interval(file_size: nat) -> nat {
    let tenth = file_size / 10;
    let capped = if tenth < 1048576 {
        tenth
    } else {
        1048576
    };
    if capped < 65536 {
        65536
    } else {
        capped
    }
}

/// The interval lies between 64 KiB and 1 MiB, whatever the size of the
/// file.
pub proof fn lemma_report_interval_bounds(file_size: nat)
    ensures
        65536 <= report_interval(file_size) <= 1048576,
{
}

/// The number of bytes after which progress within a file is reported again.
pub fn interval_for(file_size: u64) -> (r: u64)
    ensures
        r == report_interval(file_size as nat),
{
    let tenth: u64 = file_size / 10;
    let capped: u64 = if tenth < 1048576 {
        tenth
    } else {
        1048576
    };
    if capped < 65536 {
        65536
    } else {
        capped
    }
}

/// The progress of the copy of one file.
pub struct ChunkMeter {
    /// The recorded size of the file.
    pub file_size: u64,
    /// The bytes of the batch settled before this file.
    pub base: u64,
    /// The bytes of the batch in all.
    pub total: u64,
    /// The bytes of this file copied so far.
    pub done: u64,
    /// The value of `done` at the last report.
    pub last_report: u64,
}

impl ChunkMeter {
    /// The invariant of a meter.
    pub open spec fn wf(self) -> bool {
        self.last_report <= self.done
    }

    /// Whether a report is due once `count` more bytes are copied: when the
    /// bytes since the last report reach the interval, or the file is
    /// complete by its recorded size.
    pub open spec fn due(self, count: nat) -> bool {
        self.done + count - self.last_report >= report_interval(self.file_size as nat) || self.done
            + count == self.file_size
    }

    /// Whether `count` more bytes can be counted: the byte count of the
    /// batch has to stay within `u64::MAX`.
    pub open spec fn fits(self, count: nat) -> bool {
        self.base + self.done + count <= u64::MAX
    }

    /// A meter for a file of which nothing is copied yet.
    pub fn new(file_size: u64, copied_before: u64, total: u64) -> (r: ChunkMeter)
        ensures
            r.wf(),
            r == (ChunkMeter { file_size, base: copied_before, total, done: 0, last_report: 0 }),
    {
        ChunkMeter { file_size, base: copied_before, total, done: 0, last_report: 0 }
    }

    /// Whether `count` more bytes can be counted.
    pub fn can_record(&self, count: usize) -> (r: bool)
        ensures
            r == self.fits(count as nat),
    {
        let count: u64 = count as u64;
        self.done <= u64::MAX - self.base && count <= u64::MAX - self.base - self.done
    }

    /// Counts a chunk of `count` bytes, and hands back the report that is
    /// due, if one is: the byte count of the batch with this file as far as
    /// it has come.
    pub fn record(&mut self, count: usize) -> (r: Option<ProgressEvent>)
        requires
            old(self).wf(),
            old(self).fits(count as nat),
        ensures
            final(self).wf(),
            *final(self) == (ChunkMeter {
                done: (old(self).done + count) as u64,
                last_report: if old(self).due(count as nat) {
                    (old(self).done + count) as u64
                } else {
                    old(self).last_report
                },
                ..*old(self)
            }),
            old(self).due(count as nat) ==> (r matches Some(event) && event@ == (
            EventView::ByteProgress {
                copied: (old(self).base + old(self).done + count) as nat,
                total: old(self).total as nat,
            })),
            !old(self).due(count as nat) ==> r is None,
    {
        self.done = self.done + count as u64;
        if self.done - self.last_report >= interval_for(self.file_size) || self.done
            == self.file_size {
            self.last_report = self.done;
            Some(ProgressEvent::ByteProgress { copied: self.base + self.done, total: self.total })
        } else {
            None
        }
    }
}

} // verus!
