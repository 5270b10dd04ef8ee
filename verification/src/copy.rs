//! Copying a batch of files to one directory, one file after the other,
//! with progress counted in bytes over the whole batch.
//!
//! A `CopyBatch` decides; the caller does the work. The caller asks for the
//! next `CopyRequest`, carries it out, and hands the `CopyReply` to
//! `advance`, until the request is `Done`.
//!
//! A reporter that fails on an event ends the batch with
//! `ReporterTransport`. (The byte counts reported while one file is being
//! copied are another matter: see `ChunkMeter`, whose reports may be lost.)

use vstd::prelude::*;
use crate::path::{stored_name, stored_name_of, stored_path, stored_path_of};
use crate::progress::{EventView, ProgressEvent, SkipReason};
use crate::text::texts;

verus! {

/// How the turn of one file ended.
pub enum FileOutcome {
    /// The source was gone when its turn came.
    Missing,
    /// The destination held a file of the same name.
    AlreadyExists,
    /// The file was copied.
    Copied,
    /// The copy failed, for the reason given.
    Failed(Seq<char>),
}

impl FileOutcome {
    /// Whether the file counts as settled in the byte count: a file that
    /// was copied does, and so does one that was already there.
    pub open spec fn credits(self) -> bool {
        self is AlreadyExists || self is Copied
    }

    /// The bytes by which the outcome of a file of the given recorded size
    /// advances the byte count.
    pub open spec fn credit(self, size: nat) -> nat {
        if self.credits() {
            size
        } else {
            0
        }
    }
}

/// The sum of the recorded sizes.
pub open spec fn total_of(sizes: Seq<u64>) -> nat
    decreases sizes.len(),
{
    if sizes.len() == 0 {
        0
    } else {
        total_of(sizes.drop_last()) + sizes.last() as nat
    }
}

/// The byte count after the files whose outcomes are given: the sum of the
/// recorded sizes of those that were copied or already there.
pub open spec fn credited(sizes: Seq<u64>, outcomes: Seq<FileOutcome>) -> nat
    decreases outcomes.len(),
{
    if outcomes.len() == 0 {
        0
    } else {
        credited(sizes, outcomes.drop_last()) + outcomes.last().credit(
            sizes[outcomes.len() - 1] as nat,
        )
    }
}

/// The events of one file, in order, given its outcome, its recorded size
/// and the byte count before it. A missing file is named by its path; the
/// others by the name under which the destination stores them.
pub open spec fn file_events(
    path: Seq<char>,
    size: nat,
    before: nat,
    total: nat,
    outcome: FileOutcome,
) -> Seq<EventView> {
    let name = stored_name(path);
    match outcome {
        FileOutcome::Missing => seq![
            EventView::Skipped { name: path, reason: SkipReason::FileNotFound },
        ],
        FileOutcome::AlreadyExists => seq![
            EventView::Skipped { name, reason: SkipReason::AlreadyExists },
            EventView::ByteProgress { copied: before + size, total },
        ],
        FileOutcome::Copied => seq![
            EventView::Copying { name },
            EventView::Copied { name },
            EventView::ByteProgress { copied: before + size, total },
        ],
        FileOutcome::Failed(reason) => seq![
            EventView::Copying { name },
            EventView::Failed { name, reason },
            EventView::ByteProgress { copied: before, total },
        ],
    }
}

/// The events of the files whose outcomes are given, file after file.
pub open spec fn events_through(
    paths: Seq<Seq<char>>,
    sizes: Seq<u64>,
    total: nat,
    outcomes: Seq<FileOutcome>,
) -> Seq<EventView>
    decreases outcomes.len(),
{
    if outcomes.len() == 0 {
        Seq::empty()
    } else {
        let k = outcomes.len() - 1;
        events_through(paths, sizes, total, outcomes.drop_last()) + file_events(
            paths[k],
            sizes[k] as nat,
            credited(sizes, outcomes.drop_last()),
            total,
            outcomes[k],
        )
    }
}

/// Why a batch ended early.
#[derive(Debug, PartialEq, Eq)]
pub enum CopyError {
    /// The destination directory could not be created.
    DestinationUnavailable(String),
    /// The reporter did not take an event.
    ReporterTransport(String),
}

/// A `CopyError` with its text as characters.
pub enum CopyFailure {
    DestinationUnavailable(Seq<char>),
    ReporterTransport(Seq<char>),
}

impl View for CopyError {
    type V = CopyFailure;

    open spec fn view(&self) -> CopyFailure {
        match self {
            CopyError::DestinationUnavailable(text) => CopyFailure::DestinationUnavailable(text@),
            CopyError::ReporterTransport(text) => CopyFailure::ReporterTransport(text@),
        }
    }
}

impl CopyFailure {
    /// The message of the failure: what the failing operation said.
    pub open spec fn message(self) -> Seq<char> {
        match self {
            CopyFailure::DestinationUnavailable(text) => text,
            CopyFailure::ReporterTransport(text) => text,
        }
    }
}

impl CopyError {
    /// The message of the error: what the failing operation said.
    pub fn message(&self) -> (r: String)
        ensures
            r@ == self@.message(),
    {
        match self {
            CopyError::DestinationUnavailable(text) => text.clone(),
            CopyError::ReporterTransport(text) => text.clone(),
        }
    }
}

/// The view of the result of a batch.
pub open spec fn result_view(r: Result<(), CopyError>) -> Result<(), CopyFailure> {
    match r {
        Ok(()) => Ok(()),
        Err(e) => Err(e@),
    }
}

/// The stations of a batch. Each but the last waits for one reply.
#[derive(Clone, Copy, Debug, PartialEq, Eq, Structural)]
pub enum Phase {
    /// The destination directory is being created.
    Creating,
    /// The sources are being sized, in order.
    Sizing,
    /// Is the source of the current file still there?
    ProbingSource,
    /// Does the destination hold the name of the current file?
    ProbingTarget,
    /// `Skipped`, file not found, is being reported.
    SkippingMissing,
    /// `Skipped`, already exists, is being reported.
    SkippingExisting,
    /// `Copying` is being reported.
    Announcing,
    /// The current file is being copied.
    Transferring,
    /// `Copied` is being reported.
    ReportingCopied,
    /// `Failed` is being reported.
    ReportingFailed,
    /// The byte count after the current file is being reported.
    ReportingProgress,
    /// The batch is over.
    Finished,
}

impl Phase {
    /// Whether the outcome of the current file is known in this phase.
    pub open spec fn decided(self) -> bool {
        self == Phase::SkippingMissing || self == Phase::SkippingExisting || self
            == Phase::ReportingCopied || self == Phase::ReportingFailed || self
            == Phase::ReportingProgress
    }
}

/// What the caller is to do next.
#[derive(Debug, PartialEq, Eq)]
pub enum CopyRequest {
    /// Create the directory and its parents, where they are not there;
    /// answer with `Created`.
    CreateDestination { path: String },
    /// Look up the size of the file; answer with `Size`.
    StatSource { path: String },
    /// Find out whether the file exists; answer with `Exists`.
    ProbeSource { path: String },
    /// Find out whether there is a file at this path in the destination;
    /// answer with `Exists`.
    ProbeTarget { path: String },
    /// Push the event to the reporter; answer with `Reported`.
    Report { event: ProgressEvent },
    /// Copy the file at `source` to `target`; answer with `Transferred`.
    /// The numbers are for the progress reports made meanwhile: the
    /// recorded size of the file, the bytes of the batch settled before it,
    /// and the bytes of the batch in all.
    Transfer { source: String, target: String, size: u64, copied: u64, total: u64 },
    /// Nothing: the batch is over, with this result.
    Done { result: Result<(), CopyError> },
}

/// A `CopyRequest` with its texts as characters.
pub enum RequestView {
    CreateDestination { path: Seq<char> },
    StatSource { path: Seq<char> },
    ProbeSource { path: Seq<char> },
    ProbeTarget { path: Seq<char> },
    Report { event: EventView },
    Transfer { source: Seq<char>, target: Seq<char>, size: nat, copied: nat, total: nat },
    Done { result: Result<(), CopyFailure> },
}

impl View for CopyRequest {
    type V = RequestView;

    open spec fn view(&self) -> RequestView {
        match self {
            CopyRequest::CreateDestination { path } => RequestView::CreateDestination {
                path: path@,
            },
            CopyRequest::StatSource { path } => RequestView::StatSource { path: path@ },
            CopyRequest::ProbeSource { path } => RequestView::ProbeSource { path: path@ },
            CopyRequest::ProbeTarget { path } => RequestView::ProbeTarget { path: path@ },
            CopyRequest::Report { event } => RequestView::Report { event: event@ },
            CopyRequest::Transfer { source, target, size, copied, total } => RequestView::Transfer {
                source: source@,
                target: target@,
                size: *size as nat,
                copied: *copied as nat,
                total: *total as nat,
            },
            CopyRequest::Done { result } => RequestView::Done { result: result_view(*result) },
        }
    }
}

/// The result of the work that a request asked for. A failure comes with
/// the words of the operation that failed.
#[derive(Debug, PartialEq, Eq)]
pub enum CopyReply {
    /// Whether the destination directory is there now.
    Created(Result<(), String>),
    /// The size of the file in bytes, unless the file is missing or its
    /// size cannot be read.
    Size(Option<u64>),
    /// Whether the file exists.
    Exists(bool),
    /// Whether the reporter took the event.
    Reported(Result<(), String>),
    /// Whether the file was copied.
    Transferred(Result<(), String>),
}

/// A `CopyReply` with its texts as characters.
pub enum ReplyView {
    Created(Result<(), Seq<char>>),
    Size(Option<u64>),
    Exists(bool),
    Reported(Result<(), Seq<char>>),
    Transferred(Result<(), Seq<char>>),
}

/// The view of the result of a piece of work.
pub open spec fn done_view(r: Result<(), String>) -> Result<(), Seq<char>> {
    match r {
        Ok(()) => Ok(()),
        Err(text) => Err(text@),
    }
}

impl View for CopyReply {
    type V = ReplyView;

    open spec fn view(&self) -> ReplyView {
        match self {
            CopyReply::Created(r) => ReplyView::Created(done_view(*r)),
            CopyReply::Size(size) => ReplyView::Size(*size),
            CopyReply::Exists(found) => ReplyView::Exists(*found),
            CopyReply::Reported(r) => ReplyView::Reported(done_view(*r)),
            CopyReply::Transferred(r) => ReplyView::Transferred(done_view(*r)),
        }
    }
}

/// The state of a batch.
pub struct BatchView {
    /// The sources, in the order in which they were given.
    pub paths: Seq<Seq<char>>,
    /// The directory that the files are copied into.
    pub destination: Seq<char>,
    /// The recorded sizes of the sources that have been sized so far: zero
    /// for a source that is missing or cannot be sized.
    pub sizes: Seq<u64>,
    /// The sum of the recorded sizes.
    pub total: nat,
    /// The bytes settled so far.
    pub copied: nat,
    /// The position of the current file.
    pub index: nat,
    pub phase: Phase,
    /// Why the copy of the current file failed, while that is being
    /// reported.
    pub failure: Seq<char>,
    /// The result of the batch, once it is over.
    pub result: Result<(), CopyFailure>,
    /// The outcomes of the files that have had their turn.
    pub outcomes: Seq<FileOutcome>,
    /// The events that the reporter has taken, in order.
    pub reported: Seq<EventView>,
}

impl BatchView {
    /// The path of the current file.
    pub open spec fn path(self) -> Seq<char> {
        self.paths[self.index as int]
    }

    /// The name under which the destination stores the current file.
    pub open spec fn name(self) -> Seq<char> {
        stored_name(self.path())
    }

    /// The path under which the destination stores the current file: the
    /// destination and the name of the file, whatever directory the file
    /// comes from.
    pub open spec fn target(self) -> Seq<char> {
        stored_path(self.destination, self.path())
    }

    /// The recorded size of the current file.
    pub open spec fn size(self) -> nat {
        self.sizes[self.index as int] as nat
    }

    /// The event that is being reported, if any.
    pub open spec fn pending_event(self) -> Option<EventView> {
        match self.phase {
            Phase::SkippingMissing => Some(
                EventView::Skipped { name: self.path(), reason: SkipReason::FileNotFound },
            ),
            Phase::SkippingExisting => Some(
                EventView::Skipped { name: self.name(), reason: SkipReason::AlreadyExists },
            ),
            Phase::Announcing => Some(EventView::Copying { name: self.name() }),
            Phase::ReportingCopied => Some(EventView::Copied { name: self.name() }),
            Phase::ReportingFailed => Some(
                EventView::Failed { name: self.name(), reason: self.failure },
            ),
            Phase::ReportingProgress => Some(
                EventView::ByteProgress { copied: self.copied, total: self.total },
            ),
            _ => None,
        }
    }

    /// What the caller is to do next.
    pub open spec fn request(self) -> RequestView {
        match self.phase {
            Phase::Creating => RequestView::CreateDestination { path: self.destination },
            Phase::Sizing => RequestView::StatSource { path: self.paths[self.sizes.len() as int] },
            Phase::ProbingSource => RequestView::ProbeSource { path: self.path() },
            Phase::ProbingTarget => RequestView::ProbeTarget { path: self.target() },
            Phase::Transferring => RequestView::Transfer {
                source: self.path(),
                target: self.target(),
                size: self.size(),
                copied: self.copied,
                total: self.total,
            },
            Phase::Finished => RequestView::Done { result: self.result },
            _ => RequestView::Report { event: self.pending_event().unwrap() },
        }
    }

    /// The events of the current file that the reporter has taken.
    pub open spec fn acknowledged(self) -> Seq<EventView> {
        match self.phase {
            Phase::Transferring | Phase::ReportingCopied | Phase::ReportingFailed => seq![
                EventView::Copying { name: self.name() },
            ],
            Phase::ReportingProgress => file_events(
                self.path(),
                self.size(),
                credited(self.sizes, self.outcomes.drop_last()),
                self.total,
                self.outcomes.last(),
            ).drop_last(),
            _ => Seq::empty(),
        }
    }

    /// Whether nothing has happened yet but sizing.
    pub open spec fn fresh(self) -> bool {
        self.index == 0 && self.outcomes.len() == 0 && self.reported.len() == 0
    }

    /// The invariant of a batch.
    ///
    /// The total is the sum of the recorded sizes. The byte count is the
    /// sum of the recorded sizes of the files that were copied or already
    /// there, and so never exceeds the total. The events that the reporter
    /// has taken are those of the files that have had their turn, file
    /// after file and for each file in its order, and then those of the
    /// current file as far as it has come.
    pub open spec fn wf(self) -> bool {
        &&& self.paths.len() <= usize::MAX
        &&& self.sizes.len() <= self.paths.len()
        &&& self.total == total_of(self.sizes)
        &&& self.total <= u64::MAX
        &&& self.outcomes.len() <= self.sizes.len()
        &&& self.copied == credited(self.sizes, self.outcomes)
        &&& match self.phase {
            Phase::Creating => self.sizes.len() == 0 && self.fresh(),
            Phase::Sizing => self.sizes.len() < self.paths.len() && self.fresh(),
            Phase::Finished => self.result is Ok ==> {
                &&& self.sizes.len() == self.paths.len()
                &&& self.index == self.paths.len()
                &&& self.outcomes.len() == self.paths.len()
                &&& self.reported == events_through(
                    self.paths,
                    self.sizes,
                    self.total,
                    self.outcomes,
                )
            },
            _ => {
                &&& self.sizes.len() == self.paths.len()
                &&& self.index < self.paths.len()
                &&& self.outcomes.len() == self.index + (if self.phase.decided() {
                    1nat
                } else {
                    0nat
                })
                &&& self.phase == Phase::SkippingMissing ==> self.outcomes.last() is Missing
                &&& self.phase == Phase::SkippingExisting ==> self.outcomes.last() is AlreadyExists
                &&& self.phase == Phase::ReportingCopied ==> self.outcomes.last() is Copied
                &&& self.phase == Phase::ReportingFailed ==> self.outcomes.last()
                    == FileOutcome::Failed(self.failure)
                &&& self.phase == Phase::ReportingProgress ==> !(self.outcomes.last() is Missing)
                &&& self.reported == events_through(
                    self.paths,
                    self.sizes,
                    self.total,
                    self.outcomes.take(self.index as int),
                ) + self.acknowledged()
            },
        }
    }

    /// The batch in another phase.
    pub open spec fn in_phase(self, phase: Phase) -> BatchView {
        BatchView { phase, ..self }
    }

    /// The batch, over.
    pub open spec fn finished(self, result: Result<(), CopyFailure>) -> BatchView {
        BatchView { phase: Phase::Finished, result, ..self }
    }

    /// The batch once the destination is there: sizing begins, unless there
    /// is nothing to copy.
    pub open spec fn opened(self) -> BatchView {
        if self.paths.len() == 0 {
            self.finished(Ok(()))
        } else {
            self.in_phase(Phase::Sizing)
        }
    }

    /// The batch with one more source sized. After the last, the files take
    /// their turns.
    pub open spec fn sized(self, size: u64) -> BatchView {
        let w = BatchView { sizes: self.sizes.push(size), total: self.total + size as nat, ..self };
        if w.sizes.len() == w.paths.len() {
            w.in_phase(Phase::ProbingSource)
        } else {
            w
        }
    }

    /// The batch with the outcome of the current file known, and credited.
    pub open spec fn decided_as(self, outcome: FileOutcome, phase: Phase) -> BatchView {
        BatchView {
            outcomes: self.outcomes.push(outcome),
            copied: self.copied + outcome.credit(self.size()),
            phase,
            ..self
        }
    }

    /// The batch with the turn of the current file over.
    pub open spec fn next_file(self) -> BatchView {
        if self.index + 1 == self.paths.len() {
            BatchView { index: self.index + 1, ..self.finished(Ok(())) }
        } else {
            BatchView { index: self.index + 1, phase: Phase::ProbingSource, ..self }
        }
    }

    /// The batch once the reporter has taken the pending event.
    pub open spec fn acknowledge(self, event: EventView) -> BatchView {
        let logged = BatchView { reported: self.reported.push(event), ..self };
        match self.phase {
            Phase::SkippingMissing | Phase::ReportingProgress => logged.next_file(),
            Phase::Announcing => logged.in_phase(Phase::Transferring),
            _ => logged.in_phase(Phase::ReportingProgress),
        }
    }

    /// Whether the batch can take the reply: a size that would carry the
    /// total beyond `u64::MAX` cannot be recorded.
    pub open spec fn accepts(self, reply: ReplyView) -> bool {
        match reply {
            ReplyView::Size(Some(size)) => self.phase == Phase::Sizing ==> self.total + size
                <= u64::MAX,
            _ => true,
        }
    }

    /// The batch after a reply. A reply that does not answer the pending
    /// request changes nothing.
    ///
    /// A destination that cannot be created ends the batch. A source that
    /// is missing or cannot be sized is recorded with size zero. When its
    /// turn comes, a file whose source is gone is skipped and credits
    /// nothing; one whose name the destination holds is skipped and
    /// credited with its recorded size; any other is copied, and credited
    /// with its recorded size where the copy succeeds. The failure of one
    /// copy does not end the batch. A reporter that does not take an event
    /// does.
    pub open spec fn step(self, reply: ReplyView) -> BatchView {
        match (self.phase, reply) {
            (Phase::Creating, ReplyView::Created(Ok(()))) => self.opened(),
            (Phase::Creating, ReplyView::Created(Err(text))) => self.finished(
                Err(CopyFailure::DestinationUnavailable(text)),
            ),
            (Phase::Sizing, ReplyView::Size(Some(size))) => self.sized(size),
            (Phase::Sizing, ReplyView::Size(None)) => self.sized(0),
            (Phase::ProbingSource, ReplyView::Exists(true)) => self.in_phase(Phase::ProbingTarget),
            (Phase::ProbingSource, ReplyView::Exists(false)) => self.decided_as(
                FileOutcome::Missing,
                Phase::SkippingMissing,
            ),
            (Phase::ProbingTarget, ReplyView::Exists(true)) => self.decided_as(
                FileOutcome::AlreadyExists,
                Phase::SkippingExisting,
            ),
            (Phase::ProbingTarget, ReplyView::Exists(false)) => self.in_phase(Phase::Announcing),
            (Phase::Transferring, ReplyView::Transferred(Ok(()))) => self.decided_as(
                FileOutcome::Copied,
                Phase::ReportingCopied,
            ),
            (Phase::Transferring, ReplyView::Transferred(Err(text))) => BatchView {
                failure: text,
                ..self.decided_as(FileOutcome::Failed(text), Phase::ReportingFailed)
            },
            (_, ReplyView::Reported(taken)) => match self.pending_event() {
                None => self,
                Some(event) => match taken {
                    Ok(()) => self.acknowledge(event),
                    Err(text) => self.finished(Err(CopyFailure::ReporterTransport(text))),
                },
            },
            _ => self,
        }
    }
}

/// The sum of the first sizes is at most the sum of all.
pub proof fn lemma_total_of_prefix(sizes: Seq<u64>, k: int)
    requires
        0 <= k <= sizes.len(),
    ensures
        total_of(sizes.take(k)) <= total_of(sizes),
        k < sizes.len() ==> total_of(sizes.take(k)) + sizes[k] <= total_of(sizes),
    decreases sizes.len(),
{
    if k == sizes.len() {
        assert(sizes.take(k) =~= sizes);
    } else {
        let front = sizes.drop_last();
        assert(front.take(k) =~= sizes.take(k));
        lemma_total_of_prefix(front, k);
    }
}

/// The byte count never exceeds the sum of the recorded sizes of the files
/// that have had their turn.
pub proof fn lemma_credited_bound(sizes: Seq<u64>, outcomes: Seq<FileOutcome>)
    requires
        outcomes.len() <= sizes.len(),
    ensures
        credited(sizes, outcomes) <= total_of(sizes.take(outcomes.len() as int)),
        credited(sizes, outcomes) <= total_of(sizes),
    decreases outcomes.len(),
{
    let n = outcomes.len() as int;
    if n > 0 {
        lemma_credited_bound(sizes, outcomes.drop_last());
        assert(sizes.take(n).drop_last() =~= sizes.take(n - 1));
    }
    lemma_total_of_prefix(sizes, n);
}

/// One more outcome adds its credit to the byte count and its events to
/// the events.
pub proof fn lemma_one_more_outcome(
    paths: Seq<Seq<char>>,
    sizes: Seq<u64>,
    total: nat,
    outcomes: Seq<FileOutcome>,
    outcome: FileOutcome,
)
    ensures
        credited(sizes, outcomes.push(outcome)) == credited(sizes, outcomes) + outcome.credit(
            sizes[outcomes.len() as int] as nat,
        ),
        events_through(paths, sizes, total, outcomes.push(outcome)) == events_through(
            paths,
            sizes,
            total,
            outcomes,
        ) + file_events(
            paths[outcomes.len() as int],
            sizes[outcomes.len() as int] as nat,
            credited(sizes, outcomes),
            total,
            outcome,
        ),
{
    assert(outcomes.push(outcome).drop_last() =~= outcomes);
}

/// A step keeps the invariant.
pub proof fn lemma_step_keeps_invariant(v: BatchView, reply: ReplyView)
    requires
        v.wf(),
        v.accepts(reply),
    ensures
        v.step(reply).wf(),
{
    let w = v.step(reply);
    let before = v.outcomes.take(v.index as int);
    let settled = events_through(v.paths, v.sizes, v.total, before);
    match (v.phase, reply) {
        (Phase::Creating, ReplyView::Created(Ok(()))) => {
            assert(w.reported =~= events_through(w.paths, w.sizes, w.total, w.outcomes));
        },
        (Phase::Sizing, ReplyView::Size(size)) => {
            let s: u64 = match size {
                Some(s) => s,
                None => 0,
            };
            assert(w.sizes == v.sizes.push(s));
            assert(v.sizes.push(s).drop_last() =~= v.sizes);
            assert(w.outcomes.take(0) =~= w.outcomes);
            assert(w.reported =~= events_through(w.paths, w.sizes, w.total, w.outcomes));
            assert(w.reported =~= events_through(w.paths, w.sizes, w.total, w.outcomes)
                + Seq::<EventView>::empty());
        },
        (Phase::ProbingSource, ReplyView::Exists(found)) => {
            if !found {
                lemma_decision_keeps_invariant(v, FileOutcome::Missing, Phase::SkippingMissing);
            }
        },
        (Phase::ProbingTarget, ReplyView::Exists(found)) => {
            if found {
                lemma_decision_keeps_invariant(
                    v,
                    FileOutcome::AlreadyExists,
                    Phase::SkippingExisting,
                );
            }
        },
        (Phase::Transferring, ReplyView::Transferred(Ok(()))) => {
            lemma_decision_keeps_invariant(v, FileOutcome::Copied, Phase::ReportingCopied);
        },
        (Phase::Transferring, ReplyView::Transferred(Err(text))) => {
            lemma_decision_keeps_invariant(v, FileOutcome::Failed(text), Phase::ReportingFailed);
        },
        (_, ReplyView::Reported(Ok(()))) => {
            if v.pending_event() is Some {
                let event = v.pending_event().unwrap();
                let outcomes = v.outcomes;
                if v.phase == Phase::Announcing {
                    assert(w.reported =~= settled + w.acknowledged());
                } else {
                    assert(outcomes.drop_last() =~= before);
                    assert(outcomes =~= before.push(outcomes.last()));
                    lemma_one_more_outcome(v.paths, v.sizes, v.total, before, outcomes.last());
                    let events = file_events(
                        v.path(),
                        v.size(),
                        credited(v.sizes, before),
                        v.total,
                        outcomes.last(),
                    );
                    if v.phase == Phase::SkippingMissing || v.phase == Phase::ReportingProgress {
                        assert(w.outcomes.take(w.index as int) =~= outcomes);
                        assert(w.reported =~= settled + events);
                        assert(w.reported =~= events_through(
                            w.paths,
                            w.sizes,
                            w.total,
                            w.outcomes,
                        ) + Seq::<EventView>::empty());
                    } else {
                        assert(w.outcomes.take(w.index as int) =~= before);
                        assert(w.reported =~= settled + events.drop_last());
                    }
                }
            }
        },
        _ => {},
    }
}

/// Deciding the outcome of the current file keeps the invariant.
proof fn lemma_decision_keeps_invariant(v: BatchView, outcome: FileOutcome, phase: Phase)
    requires
        v.wf(),
        match outcome {
            FileOutcome::Missing => v.phase == Phase::ProbingSource && phase
                == Phase::SkippingMissing,
            FileOutcome::AlreadyExists => v.phase == Phase::ProbingTarget && phase
                == Phase::SkippingExisting,
            FileOutcome::Copied => v.phase == Phase::Transferring && phase
                == Phase::ReportingCopied,
            FileOutcome::Failed(_) => v.phase == Phase::Transferring && phase
                == Phase::ReportingFailed,
        },
    ensures
        v.decided_as(outcome, phase).wf() || outcome is Failed,
        outcome matches FileOutcome::Failed(text) ==> (BatchView {
            failure: text,
            ..v.decided_as(outcome, phase)
        }).wf(),
{
    let w = v.decided_as(outcome, phase);
    lemma_one_more_outcome(v.paths, v.sizes, v.total, v.outcomes, outcome);
    lemma_credited_bound(w.sizes, w.outcomes);
    assert(w.outcomes.take(w.index as int) =~= v.outcomes);
    assert(v.outcomes.take(v.index as int) =~= v.outcomes);
    assert(w.outcomes.last() == outcome);
}

impl BatchView {
    /// A batch before anything has happened.
    pub open spec fn initial(paths: Seq<Seq<char>>, destination: Seq<char>) -> BatchView {
        BatchView {
            paths,
            destination,
            sizes: Seq::empty(),
            total: 0,
            copied: 0,
            index: 0,
            phase: Phase::Creating,
            failure: Seq::empty(),
            result: Ok(()),
            outcomes: Seq::empty(),
            reported: Seq::empty(),
        }
    }
}

impl Phase {
    /// Whether an event is being reported in this phase.
    pub open spec fn reports(self) -> bool {
        self.decided() || self == Phase::Announcing
    }

    /// Whether an event is being reported in this phase.
    pub fn is_reporting(self) -> (r: bool)
        ensures
            r == self.reports(),
    {
        self == Phase::SkippingMissing || self == Phase::SkippingExisting || self
            == Phase::Announcing || self == Phase::ReportingCopied || self
            == Phase::ReportingFailed || self == Phase::ReportingProgress
    }
}

/// A batch of files on its way to one destination directory.
pub struct CopyBatch {
    paths: Vec<String>,
    destination: String,
    sizes: Vec<u64>,
    total: u64,
    copied: u64,
    index: usize,
    phase: Phase,
    failure: String,
    result: Result<(), CopyError>,
    outcomes: Ghost<Seq<FileOutcome>>,
    reported: Ghost<Seq<EventView>>,
}

impl View for CopyBatch {
    type V = BatchView;

    closed spec fn view(&self) -> BatchView {
        BatchView {
            paths: texts(self.paths@),
            destination: self.destination@,
            sizes: self.sizes@,
            total: self.total as nat,
            copied: self.copied as nat,
            index: self.index as nat,
            phase: self.phase,
            failure: self.failure@,
            result: result_view(self.result),
            outcomes: self.outcomes@,
            reported: self.reported@,
        }
    }
}

/// A copy of the result of a batch.
fn copy_of_result(result: &Result<(), CopyError>) -> (r: Result<(), CopyError>)
    ensures
        result_view(r) == result_view(*result),
{
    match result {
        Ok(()) => Ok(()),
        Err(CopyError::DestinationUnavailable(text)) => Err(
            CopyError::DestinationUnavailable(text.clone()),
        ),
        Err(CopyError::ReporterTransport(text)) => Err(CopyError::ReporterTransport(text.clone())),
    }
}

impl CopyBatch {
    /// The invariant of a batch.
    pub open spec fn wf(&self) -> bool {
        self@.wf()
    }

    /// A batch of the files at `paths`, in that order, on its way to the
    /// directory `destination`. It begins by having that directory created.
    pub fn new(paths: Vec<String>, destination: String) -> (r: CopyBatch)
        ensures
            r.wf(),
            r@ == BatchView::initial(texts(paths@), destination@),
    {
        assert(paths@.len() == paths.len());
        CopyBatch {
            paths,
            destination,
            sizes: Vec::new(),
            total: 0,
            copied: 0,
            index: 0,
            phase: Phase::Creating,
            failure: String::new(),
            result: Ok(()),
            outcomes: Ghost(Seq::empty()),
            reported: Ghost(Seq::empty()),
        }
    }

    /// The phase that the batch is in.
    pub fn phase(&self) -> (r: Phase)
        ensures
            r == self@.phase,
    {
        self.phase
    }

    /// The sum of the sizes recorded so far.
    pub fn total_bytes(&self) -> (r: u64)
        ensures
            r == self@.total,
    {
        self.total
    }

    /// The bytes settled so far.
    pub fn copied_bytes(&self) -> (r: u64)
        ensures
            r == self@.copied,
    {
        self.copied
    }

    /// Whether the batch can take the reply.
    pub fn accepts(&self, reply: &CopyReply) -> (r: bool)
        ensures
            r == self@.accepts(reply@),
    {
        match reply {
            CopyReply::Size(Some(size)) => self.phase != Phase::Sizing || *size <= u64::MAX
                - self.total,
            _ => true,
        }
    }

    /// What the caller is to do next.
    pub fn request(&self) -> (r: CopyRequest)
        requires
            self.wf(),
        ensures
            r@ == self@.request(),
    {
        match self.phase {
            Phase::Creating => CopyRequest::CreateDestination { path: self.destination.clone() },
            Phase::Sizing => CopyRequest::StatSource { path: self.paths[self.sizes.len()].clone() },
            Phase::ProbingSource => CopyRequest::ProbeSource {
                path: self.paths[self.index].clone(),
            },
            Phase::ProbingTarget => CopyRequest::ProbeTarget { path: self.target() },
            Phase::SkippingMissing => CopyRequest::Report {
                event: ProgressEvent::Skipped {
                    name: self.paths[self.index].clone(),
                    reason: SkipReason::FileNotFound,
                },
            },
            Phase::SkippingExisting => CopyRequest::Report {
                event: ProgressEvent::Skipped {
                    name: self.name(),
                    reason: SkipReason::AlreadyExists,
                },
            },
            Phase::Announcing => CopyRequest::Report {
                event: ProgressEvent::Copying { name: self.name() },
            },
            Phase::Transferring => CopyRequest::Transfer {
                source: self.paths[self.index].clone(),
                target: self.target(),
                size: self.sizes[self.index],
                copied: self.copied,
                total: self.total,
            },
            Phase::ReportingCopied => CopyRequest::Report {
                event: ProgressEvent::Copied { name: self.name() },
            },
            Phase::ReportingFailed => CopyRequest::Report {
                event: ProgressEvent::Failed { name: self.name(), reason: self.failure.clone() },
            },
            Phase::ReportingProgress => CopyRequest::Report {
                event: ProgressEvent::ByteProgress { copied: self.copied, total: self.total },
            },
            Phase::Finished => CopyRequest::Done { result: copy_of_result(&self.result) },
        }
    }

    /// The name under which the destination stores the current file.
    fn name(&self) -> (r: String)
        requires
            self.index < self.paths@.len(),
        ensures
            r@ == self@.name(),
    {
        stored_name_of(self.paths[self.index].as_str())
    }

    /// The path under which the destination stores the current file.
    fn target(&self) -> (r: String)
        requires
            self.index < self.paths@.len(),
        ensures
            r@ == self@.target(),
    {
        stored_path_of(self.destination.as_str(), self.paths[self.index].as_str())
    }

    /// Ends the batch.
    fn finish(&mut self, result: Result<(), CopyError>)
        ensures
            final(self)@ == old(self)@.finished(result_view(result)),
    {
        self.phase = Phase::Finished;
        self.result = result;
    }

    /// Records the outcome of the current file and credits it.
    fn decide(&mut self, outcome: Ghost<FileOutcome>, credits: bool, phase: Phase)
        requires
            old(self).index < old(self).sizes@.len(),
            credits == outcome@.credits(),
            old(self).copied + outcome@.credit(old(self)@.size()) <= u64::MAX,
        ensures
            final(self)@ == old(self)@.decided_as(outcome@, phase),
    {
        if credits {
            self.copied = self.copied + self.sizes[self.index];
        }
        self.outcomes = Ghost(self.outcomes@.push(outcome@));
        self.phase = phase;
    }

    /// Ends the turn of the current file.
    fn next_file(&mut self)
        requires
            old(self).index < old(self).paths@.len(),
        ensures
            final(self)@ == old(self)@.next_file(),
    {
        assert(self.paths@.len() == self.paths.len());
        self.index = self.index + 1;
        if self.index == self.paths.len() {
            self.phase = Phase::Finished;
            self.result = Ok(());
        } else {
            self.phase = Phase::ProbingSource;
        }
    }

    /// Takes the result of the work that `request` asked for.
    pub fn advance(&mut self, reply: CopyReply)
        requires
            old(self).wf(),
            old(self)@.accepts(reply@),
        ensures
            final(self).wf(),
            final(self)@ == old(self)@.step(reply@),
    {
        let ghost v = self@;
        proof {
            lemma_step_keeps_invariant(v, reply@);
            lemma_credited_bound(v.step(reply@).sizes, v.step(reply@).outcomes);
        }
        match reply {
            CopyReply::Created(made) => {
                if self.phase == Phase::Creating {
                    match made {
                        Ok(()) => {
                            if self.paths.len() == 0 {
                                self.finish(Ok(()));
                            } else {
                                self.phase = Phase::Sizing;
                            }
                        },
                        Err(text) => {
                            self.finish(Err(CopyError::DestinationUnavailable(text)));
                        },
                    }
                }
            },
            CopyReply::Size(size) => {
                if self.phase == Phase::Sizing {
                    let recorded: u64 = match size {
                        Some(size) => size,
                        None => 0,
                    };
                    self.sizes.push(recorded);
                    self.total = self.total + recorded;
                    if self.sizes.len() == self.paths.len() {
                        self.phase = Phase::ProbingSource;
                    }
                }
            },
            CopyReply::Exists(found) => {
                if self.phase == Phase::ProbingSource {
                    if found {
                        self.phase = Phase::ProbingTarget;
                    } else {
                        self.decide(Ghost(FileOutcome::Missing), false, Phase::SkippingMissing);
                    }
                } else if self.phase == Phase::ProbingTarget {
                    if found {
                        self.decide(
                            Ghost(FileOutcome::AlreadyExists),
                            true,
                            Phase::SkippingExisting,
                        );
                    } else {
                        self.phase = Phase::Announcing;
                    }
                }
            },
            CopyReply::Transferred(done) => {
                if self.phase == Phase::Transferring {
                    match done {
                        Ok(()) => {
                            self.decide(Ghost(FileOutcome::Copied), true, Phase::ReportingCopied);
                        },
                        Err(text) => {
                            self.decide(
                                Ghost(FileOutcome::Failed(text@)),
                                false,
                                Phase::ReportingFailed,
                            );
                            self.failure = text;
                        },
                    }
                }
            },
            CopyReply::Reported(taken) => {
                if self.phase.is_reporting() {
                    match taken {
                        Ok(()) => {
                            self.reported = Ghost(
                                self.reported@.push(v.pending_event().unwrap()),
                            );
                            if self.phase == Phase::SkippingMissing || self.phase
                                == Phase::ReportingProgress {
                                self.next_file();
                            } else if self.phase == Phase::Announcing {
                                self.phase = Phase::Transferring;
                            } else {
                                self.phase = Phase::ReportingProgress;
                            }
                        },
                        Err(text) => {
                            self.finish(Err(CopyError::ReporterTransport(text)));
                        },
                    }
                }
            },
        }
    }
}

/// Where every file that has had its turn was copied or already there, or
/// has the recorded size zero, the byte count is the sum of the recorded
/// sizes of those files.
pub proof fn lemma_full_credit(sizes: Seq<u64>, outcomes: Seq<FileOutcome>)
    requires
        outcomes.len() <= sizes.len(),
        forall|i: int| 0 <= i < outcomes.len() ==> outcomes[i].credits() || sizes[i] == 0,
    ensures
        credited(sizes, outcomes) == total_of(sizes.take(outcomes.len() as int)),
    decreases outcomes.len(),
{
    let n = outcomes.len() as int;
    if n > 0 {
        lemma_full_credit(sizes, outcomes.drop_last());
        assert(sizes.take(n).drop_last() =~= sizes.take(n - 1));
    }
}

/// The byte count of a batch never falls and never exceeds the total, and
/// the total stands once the sources are sized.
pub proof fn lemma_count_never_falls(v: BatchView, reply: ReplyView)
    requires
        v.wf(),
        v.accepts(reply),
    ensures
        v.copied <= v.step(reply).copied <= v.step(reply).total,
        v.total <= v.step(reply).total,
        v.phase != Phase::Sizing ==> v.step(reply).total == v.total,
{
    lemma_step_keeps_invariant(v, reply);
    lemma_credited_bound(v.step(reply).sizes, v.step(reply).outcomes);
}

/// A batch that has come to its end, in which every file was copied or
/// already there, or has the recorded size zero, has settled all its bytes;
/// and unless its last file was missing, the last event that the reporter
/// took says so.
pub proof fn lemma_settled_batch_reaches_total(v: BatchView)
    requires
        v.wf(),
        v.phase == Phase::Finished,
        v.result is Ok,
        forall|i: int| 0 <= i < v.outcomes.len() ==> v.outcomes[i].credits() || v.sizes[i] == 0,
    ensures
        v.copied == v.total,
        v.outcomes.len() > 0 && !(v.outcomes.last() is Missing) ==> v.reported.len() > 0
            && v.reported.last() == (EventView::ByteProgress { copied: v.total, total: v.total }),
{
    lemma_full_credit(v.sizes, v.outcomes);
    assert(v.sizes.take(v.outcomes.len() as int) =~= v.sizes);
}

impl BatchView {
    /// Whether the reply is of the sort that the pending request asks for.
    pub open spec fn answered_by(self, reply: ReplyView) -> bool {
        match (self.phase, reply) {
            (Phase::Creating, ReplyView::Created(_)) => true,
            (Phase::Sizing, ReplyView::Size(_)) => true,
            (Phase::ProbingSource, ReplyView::Exists(_)) => true,
            (Phase::ProbingTarget, ReplyView::Exists(_)) => true,
            (Phase::Transferring, ReplyView::Transferred(_)) => true,
            (_, ReplyView::Reported(_)) => self.phase.reports(),
            _ => false,
        }
    }

    /// The most replies that the batch may still need: one to open the
    /// destination, one for each source to be sized, and six for each file
    /// that has not had its turn.
    pub open spec fn replies_left(self) -> nat {
        let files = (self.paths.len() - self.index) as nat;
        match self.phase {
            Phase::Creating => 7 * self.paths.len() + 1,
            Phase::Sizing => (6 * self.paths.len() + (self.paths.len() - self.sizes.len())) as nat,
            Phase::ProbingSource => 6 * files,
            Phase::ProbingTarget => (6 * files - 1) as nat,
            Phase::Announcing => (6 * files - 2) as nat,
            Phase::Transferring => (6 * files - 3) as nat,
            Phase::SkippingExisting | Phase::ReportingCopied | Phase::ReportingFailed => (6
                * files - 4) as nat,
            Phase::SkippingMissing | Phase::ReportingProgress => (6 * files - 5) as nat,
            Phase::Finished => 0,
        }
    }
}

/// A batch always comes to its end: every reply that answers the pending
/// request brings it closer, whether the work it tells of succeeded or
/// failed, and a batch that needs no more replies is over.
pub proof fn lemma_batch_comes_to_an_end(v: BatchView, reply: ReplyView)
    requires
        v.wf(),
        v.accepts(reply),
        v.answered_by(reply),
    ensures
        v.step(reply).replies_left() < v.replies_left(),
        v.phase == Phase::Finished <==> v.replies_left() == 0,
{
}

/// A file whose source is gone when its turn comes is reported once, as
/// skipped for not being found, under its path; it adds nothing to the byte
/// count, and the batch goes on to the next file or ends.
pub proof fn lemma_missing_source_is_skipped_once(v: BatchView)
    requires
        v.wf(),
        v.phase == Phase::ProbingSource,
    ensures
        ({
            let skipped = EventView::Skipped { name: v.path(), reason: SkipReason::FileNotFound };
            let w = v.step(ReplyView::Exists(false));
            let x = w.step(ReplyView::Reported(Ok(())));
            &&& w.request() == (RequestView::Report { event: skipped })
            &&& w.copied == v.copied
            &&& x.reported == v.reported.push(skipped)
            &&& x.copied == v.copied
            &&& x.index == v.index + 1
            &&& x.phase == Phase::ProbingSource || x.phase == Phase::Finished
            &&& file_events(v.path(), v.size(), v.copied, v.total, FileOutcome::Missing)
                == seq![skipped]
        }),
{
}

/// The names that the destination holds when the turn of file `k` comes,
/// if it held `start` before the batch and has lost nothing since: those of
/// `start`, and those of the files copied before `k`.
pub open spec fn held_before(
    start: Set<Seq<char>>,
    paths: Seq<Seq<char>>,
    outcomes: Seq<FileOutcome>,
    k: int,
) -> Set<Seq<char>> {
    Set::new(
        |name: Seq<char>|
            start.contains(name) || exists|i: int|
                0 <= i < k && i < outcomes.len() && #[trigger] outcomes[i] is Copied
                    && stored_name(paths[i]) == name,
    )
}

/// Whether the outcomes are those of a batch against a destination that
/// held `start` before the batch and has lost nothing since: no file is
/// copied, or fails to be, whose name the destination holds.
pub open spec fn destination_keeps(
    start: Set<Seq<char>>,
    paths: Seq<Seq<char>>,
    outcomes: Seq<FileOutcome>,
) -> bool {
    forall|k: int|
        0 <= k < outcomes.len() && held_before(start, paths, outcomes, k).contains(
            stored_name(paths[k]),
        ) ==> #[trigger] outcomes[k] is AlreadyExists || outcomes[k] is Missing
}

/// Of two sources with the same name, the second is never copied over the
/// first: against a destination that loses nothing, once the first is
/// copied, the second is skipped.
pub proof fn lemma_same_name_is_not_copied_twice(
    start: Set<Seq<char>>,
    paths: Seq<Seq<char>>,
    outcomes: Seq<FileOutcome>,
    i: int,
    j: int,
)
    requires
        destination_keeps(start, paths, outcomes),
        0 <= i < j < outcomes.len(),
        stored_name(paths[i]) == stored_name(paths[j]),
        outcomes[i] is Copied,
    ensures
        outcomes[j] is AlreadyExists || outcomes[j] is Missing,
{
    assert(held_before(start, paths, outcomes, j).contains(stored_name(paths[j])));
}

/// Running a batch a second time skips every file as already there.
///
/// Let every file have been copied or found in place by the first run, let
/// the destination still hold those names when the second run begins and
/// lose nothing during it, and let no source have gone. Then every file of
/// the second run ends as already there, and the second run settles all
/// its bytes.
pub proof fn lemma_second_run_skips_everything(
    paths: Seq<Seq<char>>,
    sizes: Seq<u64>,
    first: Seq<FileOutcome>,
    start: Set<Seq<char>>,
    second: Seq<FileOutcome>,
)
    requires
        first.len() == paths.len(),
        second.len() == paths.len(),
        sizes.len() == paths.len(),
        forall|i: int| 0 <= i < first.len() ==> #[trigger] first[i].credits(),
        forall|i: int|
            0 <= i < first.len() && #[trigger] first[i].credits() ==> start.contains(
                stored_name(paths[i]),
            ),
        destination_keeps(start, paths, second),
        forall|i: int| 0 <= i < second.len() ==> !(#[trigger] second[i] is Missing),
    ensures
        forall|i: int| 0 <= i < second.len() ==> #[trigger] second[i] is AlreadyExists,
        credited(sizes, second) == total_of(sizes),
{
    assert forall|i: int| 0 <= i < second.len() implies #[trigger] second[i] is AlreadyExists by {
        assert(first[i].credits());
        assert(held_before(start, paths, second, i).contains(stored_name(paths[i])));
    }
    lemma_full_credit(sizes, second);
    assert(sizes.take(second.len() as int) =~= sizes);
}

} // verus!
