//! Importing a whole directory: every importable file under a source
//! directory is copied into the destination, unless a file of its name is
//! there already, with progress counted in files.
//!
//! A `DirectoryImport` decides; the caller does the work, as with a
//! `CopyBatch`. Here the first copy that fails ends the import.

use vstd::prelude::*;
use vstd::string::StringExecFns;
use crate::media::{lowercase_extension, lowercase_extension_of};
use crate::path::{stored_name, stored_name_of, stored_path, stored_path_of};
use crate::progress::{EventView, count_progress_message, count_progress_text};
use crate::text::{owned, same_text, texts};

verus! {

/// The extensions, in lower case, of the files that a whole-directory
/// import takes.
pub open spec fn is_importable_extension(e: Seq<char>) -> bool {
    e == "mp4"@ || e == "jpg"@ || e == "jpeg"@ || e == "png"@ || e == "mov"@ || e == "heic"@
}

/// Whether a whole-directory import takes the file of this name.
pub open spec fn is_importable(name: Seq<char>) -> bool {
    lowercase_extension(name) matches Some(e) && is_importable_extension(e)
}

/// The importable files among those found, in the order in which they were
/// found.
pub open spec fn importable_of(found: Seq<Seq<char>>) -> Seq<Seq<char>>
    decreases found.len(),
{
    if found.len() == 0 {
        Seq::empty()
    } else if is_importable(found.last()) {
        importable_of(found.drop_last()).push(found.last())
    } else {
        importable_of(found.drop_last())
    }
}

/// Whether a whole-directory import takes the file of this name.
pub fn is_importable_file(name: &str) -> (r: bool)
    ensures
        r == is_importable(name@),
{
    match lowercase_extension_of(name) {
        Some(e) => {
            let e = e.as_str();
            same_text(e, "mp4") || same_text(e, "jpg") || same_text(e, "jpeg") || same_text(
                e,
                "png",
            ) || same_text(e, "mov") || same_text(e, "heic")
        },
        None => false,
    }
}

/// The importable files among those found.
pub fn importable_files(found: Vec<String>) -> (r: Vec<String>)
    ensures
        texts(r@) == importable_of(texts(found@)),
{
    let mut out: Vec<String> = Vec::new();
    let n: usize = found.len();
    let mut i: usize = 0;
    assert(texts(found@).take(0) =~= Seq::empty());
    assert(texts(out@) =~= Seq::empty());
    while i < n
        invariant
            i <= n,
            n == found@.len(),
            texts(out@) == importable_of(texts(found@).take(i as int)),
        decreases n - i,
    {
        let ghost prefix = texts(found@).take(i as int);
        let ghost next = texts(found@).take(i + 1);
        assert(next.drop_last() =~= prefix);
        assert(next.last() == found@[i as int]@);
        if is_importable_file(found[i].as_str()) {
            let ghost before = texts(out@);
            out.push(found[i].clone());
            assert(texts(out@) =~= before.push(found@[i as int]@));
        }
        i += 1;
    }
    assert(texts(found@).take(n as int) =~= texts(found@));
    out
}

/// Why an import ended early.
#[derive(Debug, PartialEq, Eq)]
pub enum ImportError {
    /// The destination directory could not be created.
    DestinationUnavailable(String),
    /// A file could not be copied.
    CopyFailed(String),
    /// The reporter did not take a line.
    ReporterTransport(String),
}

/// An `ImportError` with its text as characters.
pub enum ImportFailure {
    DestinationUnavailable(Seq<char>),
    CopyFailed(Seq<char>),
    ReporterTransport(Seq<char>),
}

impl View for ImportError {
    type V = ImportFailure;

    open spec fn view(&self) -> ImportFailure {
        match self {
            ImportError::DestinationUnavailable(text) => ImportFailure::DestinationUnavailable(
                text@,
            ),
            ImportError::CopyFailed(text) => ImportFailure::CopyFailed(text@),
            ImportError::ReporterTransport(text) => ImportFailure::ReporterTransport(text@),
        }
    }
}

impl ImportFailure {
    /// The message of the failure: what the failing operation said.
    pub open spec fn message(self) -> Seq<char> {
        match self {
            ImportFailure::DestinationUnavailable(text) => text,
            ImportFailure::CopyFailed(text) => text,
            ImportFailure::ReporterTransport(text) => text,
        }
    }
}

impl ImportError {
    /// The message of the error: what the failing operation said.
    pub fn message(&self) -> (r: String)
        ensures
            r@ == self@.message(),
    {
        match self {
            ImportError::DestinationUnavailable(text) => text.clone(),
            ImportError::CopyFailed(text) => text.clone(),
            ImportError::ReporterTransport(text) => text.clone(),
        }
    }
}

/// The view of the result of an import.
pub open spec fn import_result_view(r: Result<(), ImportError>) -> Result<(), ImportFailure> {
    match r {
        Ok(()) => Ok(()),
        Err(e) => Err(e@),
    }
}

/// The stations of an import. Each but the last waits for one reply.
#[derive(Clone, Copy, Debug, PartialEq, Eq, Structural)]
pub enum ImportPhase {
    /// The destination directory is being created.
    Creating,
    /// The source directory is being walked.
    Walking,
    /// Does the destination hold the name of the current file?
    ProbingTarget,
    /// The current file is being copied.
    Copying,
    /// That the current file was copied is being reported.
    ReportingCopied,
    /// The count of files done is being reported.
    ReportingCount,
    /// The import is over.
    Finished,
}

/// What the caller is to do next.
#[derive(Debug, PartialEq, Eq)]
pub enum ImportRequest {
    /// Create the directory and its parents, where they are not there;
    /// answer with `Created`.
    CreateDestination { path: String },
    /// Walk the directory and all below it; answer with `Listed`.
    ListFiles { root: String },
    /// Find out whether there is a file at this path in the destination;
    /// answer with `Exists`.
    ProbeTarget { path: String },
    /// Copy the file at `source` to `target`; answer with `Copied`.
    Copy { source: String, target: String },
    /// Push the status line to the reporter; answer with `Reported`.
    Report { line: String },
    /// Nothing: the import is over, with this result.
    Done { result: Result<(), ImportError> },
}

/// An `ImportRequest` with its texts as characters.
pub enum ImportRequestView {
    CreateDestination { path: Seq<char> },
    ListFiles { root: Seq<char> },
    ProbeTarget { path: Seq<char> },
    Copy { source: Seq<char>, target: Seq<char> },
    Report { line: Seq<char> },
    Done { result: Result<(), ImportFailure> },
}

impl View for ImportRequest {
    type V = ImportRequestView;

    open spec fn view(&self) -> ImportRequestView {
        match self {
            ImportRequest::CreateDestination { path } => ImportRequestView::CreateDestination {
                path: path@,
            },
            ImportRequest::ListFiles { root } => ImportRequestView::ListFiles { root: root@ },
            ImportRequest::ProbeTarget { path } => ImportRequestView::ProbeTarget { path: path@ },
            ImportRequest::Copy { source, target } => ImportRequestView::Copy {
                source: source@,
                target: target@,
            },
            ImportRequest::Report { line } => ImportRequestView::Report { line: line@ },
            ImportRequest::Done { result } => ImportRequestView::Done {
                result: import_result_view(*result),
            },
        }
    }
}

/// The result of the work that a request asked for. A failure comes with
/// the words of the operation that failed.
#[derive(Debug, PartialEq, Eq)]
pub enum ImportReply {
    /// Whether the destination directory is there now.
    Created(Result<(), String>),
    /// The paths of the regular files under the source directory, in the
    /// order of the walk.
    Listed(Vec<String>),
    /// Whether the file exists.
    Exists(bool),
    /// Whether the file was copied.
    Copied(Result<(), String>),
    /// Whether the reporter took the line.
    Reported(Result<(), String>),
}

/// An `ImportReply` with its texts as characters.
pub enum ImportReplyView {
    Created(Result<(), Seq<char>>),
    Listed(Seq<Seq<char>>),
    Exists(bool),
    Copied(Result<(), Seq<char>>),
    Reported(Result<(), Seq<char>>),
}

/// The view of the result of a piece of work.
pub open spec fn work_view(r: Result<(), String>) -> Result<(), Seq<char>> {
    match r {
        Ok(()) => Ok(()),
        Err(text) => Err(text@),
    }
}

impl View for ImportReply {
    type V = ImportReplyView;

    open spec fn view(&self) -> ImportReplyView {
        match self {
            ImportReply::Created(r) => ImportReplyView::Created(work_view(*r)),
            ImportReply::Listed(found) => ImportReplyView::Listed(texts(found@)),
            ImportReply::Exists(found) => ImportReplyView::Exists(*found),
            ImportReply::Copied(r) => ImportReplyView::Copied(work_view(*r)),
            ImportReply::Reported(r) => ImportReplyView::Reported(work_view(*r)),
        }
    }
}

/// The state of an import.
pub struct ImportView {
    /// The directory whose files are imported.
    pub source: Seq<char>,
    /// The directory that the files are copied into.
    pub destination: Seq<char>,
    /// The files to import, once the source directory has been walked.
    pub files: Seq<Seq<char>>,
    /// The position of the current file.
    pub index: nat,
    pub phase: ImportPhase,
    /// The result of the import, once it is over.
    pub result: Result<(), ImportFailure>,
}

impl ImportView {
    /// An import before anything has happened.
    pub open spec fn initial(source: Seq<char>, destination: Seq<char>) -> ImportView {
        ImportView {
            source,
            destination,
            files: Seq::empty(),
            index: 0,
            phase: ImportPhase::Creating,
            result: Ok(()),
        }
    }

    /// The invariant of an import: while a file has its turn, it is one of
    /// the files.
    pub open spec fn wf(self) -> bool {
        &&& self.files.len() <= usize::MAX
        &&& self.index <= self.files.len()
        &&& (self.phase == ImportPhase::ProbingTarget || self.phase == ImportPhase::Copying
            || self.phase == ImportPhase::ReportingCopied || self.phase
            == ImportPhase::ReportingCount) ==> self.index < self.files.len()
    }

    /// The path of the current file.
    pub open spec fn path(self) -> Seq<char> {
        self.files[self.index as int]
    }

    /// The name under which the destination stores the current file.
    pub open spec fn name(self) -> Seq<char> {
        stored_name(self.path())
    }

    /// The path under which the destination stores the current file.
    pub open spec fn target(self) -> Seq<char> {
        stored_path(self.destination, self.path())
    }

    /// What the caller is to do next.
    pub open spec fn request(self) -> ImportRequestView {
        match self.phase {
            ImportPhase::Creating => ImportRequestView::CreateDestination {
                path: self.destination,
            },
            ImportPhase::Walking => ImportRequestView::ListFiles { root: self.source },
            ImportPhase::ProbingTarget => ImportRequestView::ProbeTarget { path: self.target() },
            ImportPhase::Copying => ImportRequestView::Copy {
                source: self.path(),
                target: self.target(),
            },
            ImportPhase::ReportingCopied => ImportRequestView::Report {
                line: (EventView::Copied { name: self.name() }).message(),
            },
            ImportPhase::ReportingCount => ImportRequestView::Report {
                line: count_progress_text(self.index + 1, self.files.len()),
            },
            ImportPhase::Finished => ImportRequestView::Done { result: self.result },
        }
    }

    /// The import in another phase.
    pub open spec fn in_phase(self, phase: ImportPhase) -> ImportView {
        ImportView { phase, ..self }
    }

    /// The import, over.
    pub open spec fn finished(self, result: Result<(), ImportFailure>) -> ImportView {
        ImportView { phase: ImportPhase::Finished, result, ..self }
    }

    /// The import with the file at `index` taking its turn, or over where
    /// there is none.
    pub open spec fn turn(self, index: nat) -> ImportView {
        if index == self.files.len() {
            ImportView { index, ..self.finished(Ok(())) }
        } else {
            ImportView { index, phase: ImportPhase::ProbingTarget, ..self }
        }
    }

    /// The import after a reply. A reply that does not answer the pending
    /// request changes nothing.
    ///
    /// A destination that cannot be created ends the import. Of the files
    /// found, the importable ones take their turns in order. A file whose
    /// name the destination holds is passed over without a word. Any other
    /// is copied; that it was copied is reported, and then the count of
    /// files that have had their turn, of the number of files in all. A
    /// copy that fails ends the import, and so does a reporter that does
    /// not take a line.
    pub open spec fn step(self, reply: ImportReplyView) -> ImportView {
        match (self.phase, reply) {
            (ImportPhase::Creating, ImportReplyView::Created(Ok(()))) => self.in_phase(
                ImportPhase::Walking,
            ),
            (ImportPhase::Creating, ImportReplyView::Created(Err(text))) => self.finished(
                Err(ImportFailure::DestinationUnavailable(text)),
            ),
            (ImportPhase::Walking, ImportReplyView::Listed(found)) => (ImportView {
                files: importable_of(found),
                ..self
            }).turn(0),
            (ImportPhase::ProbingTarget, ImportReplyView::Exists(true)) => self.turn(
                self.index + 1,
            ),
            (ImportPhase::ProbingTarget, ImportReplyView::Exists(false)) => self.in_phase(
                ImportPhase::Copying,
            ),
            (ImportPhase::Copying, ImportReplyView::Copied(Ok(()))) => self.in_phase(
                ImportPhase::ReportingCopied,
            ),
            (ImportPhase::Copying, ImportReplyView::Copied(Err(text))) => self.finished(
                Err(ImportFailure::CopyFailed(text)),
            ),
            (ImportPhase::ReportingCopied, ImportReplyView::Reported(Ok(()))) => self.in_phase(
                ImportPhase::ReportingCount,
            ),
            (ImportPhase::ReportingCount, ImportReplyView::Reported(Ok(()))) => self.turn(
                self.index + 1,
            ),
            (ImportPhase::ReportingCopied, ImportReplyView::Reported(Err(text))) => self.finished(
                Err(ImportFailure::ReporterTransport(text)),
            ),
            (ImportPhase::ReportingCount, ImportReplyView::Reported(Err(text))) => self.finished(
                Err(ImportFailure::ReporterTransport(text)),
            ),
            _ => self,
        }
    }
}

/// A step keeps the invariant, once the files are known never changes
/// them, and never goes back to an earlier file.
pub proof fn lemma_import_step(v: ImportView, reply: ImportReplyView)
    requires
        v.wf(),
        reply matches ImportReplyView::Listed(found) ==> found.len() <= usize::MAX,
    ensures
        v.step(reply).wf(),
        v.phase != ImportPhase::Walking ==> v.step(reply).files == v.files,
        v.index <= v.step(reply).index || v.phase == ImportPhase::Walking,
{
    if let ImportReplyView::Listed(found) = reply {
        lemma_importable_is_shorter(found);
    }
}

/// The importable files are no more than the files found.
pub proof fn lemma_importable_is_shorter(found: Seq<Seq<char>>)
    ensures
        importable_of(found).len() <= found.len(),
    decreases found.len(),
{
    if found.len() > 0 {
        lemma_importable_is_shorter(found.drop_last());
    }
}

/// The import of a directory on its way.
pub struct DirectoryImport {
    source: String,
    destination: String,
    files: Vec<String>,
    index: usize,
    phase: ImportPhase,
    result: Result<(), ImportError>,
}

impl View for DirectoryImport {
    type V = ImportView;

    closed spec fn view(&self) -> ImportView {
        ImportView {
            source: self.source@,
            destination: self.destination@,
            files: texts(self.files@),
            index: self.index as nat,
            phase: self.phase,
            result: import_result_view(self.result),
        }
    }
}

/// A copy of the result of an import.
fn copy_of_import_result(result: &Result<(), ImportError>) -> (r: Result<(), ImportError>)
    ensures
        import_result_view(r) == import_result_view(*result),
{
    match result {
        Ok(()) => Ok(()),
        Err(ImportError::DestinationUnavailable(text)) => Err(
            ImportError::DestinationUnavailable(text.clone()),
        ),
        Err(ImportError::CopyFailed(text)) => Err(ImportError::CopyFailed(text.clone())),
        Err(ImportError::ReporterTransport(text)) => Err(
            ImportError::ReporterTransport(text.clone()),
        ),
    }
}

impl DirectoryImport {
    /// The invariant of an import.
    pub open spec fn wf(&self) -> bool {
        self@.wf()
    }

    /// An import of the files under `source` into `destination`. It begins
    /// by having the destination directory created.
    pub fn new(source: String, destination: String) -> (r: DirectoryImport)
        ensures
            r.wf(),
            r@ == ImportView::initial(source@, destination@),
    {
        let r = DirectoryImport {
            source,
            destination,
            files: Vec::new(),
            index: 0,
            phase: ImportPhase::Creating,
            result: Ok(()),
        };
        assert(r@.files =~= Seq::empty());
        r
    }

    /// The phase that the import is in.
    pub fn phase(&self) -> (r: ImportPhase)
        ensures
            r == self@.phase,
    {
        self.phase
    }

    /// The name under which the destination stores the current file.
    fn name(&self) -> (r: String)
        requires
            self.index < self.files@.len(),
        ensures
            r@ == self@.name(),
    {
        stored_name_of(self.files[self.index].as_str())
    }

    /// The path under which the destination stores the current file.
    fn target(&self) -> (r: String)
        requires
            self.index < self.files@.len(),
        ensures
            r@ == self@.target(),
    {
        stored_path_of(self.destination.as_str(), self.files[self.index].as_str())
    }

    /// What the caller is to do next.
    pub fn request(&self) -> (r: ImportRequest)
        requires
            self.wf(),
        ensures
            r@ == self@.request(),
    {
        match self.phase {
            ImportPhase::Creating => ImportRequest::CreateDestination {
                path: self.destination.clone(),
            },
            ImportPhase::Walking => ImportRequest::ListFiles { root: self.source.clone() },
            ImportPhase::ProbingTarget => ImportRequest::ProbeTarget { path: self.target() },
            ImportPhase::Copying => ImportRequest::Copy {
                source: self.files[self.index].clone(),
                target: self.target(),
            },
            ImportPhase::ReportingCopied => {
                let mut line = owned("Copied: ");
                line.append(self.name().as_str());
                ImportRequest::Report { line }
            },
            ImportPhase::ReportingCount => {
                assert(self.files@.len() == self.files.len());
                ImportRequest::Report {
                    line: count_progress_message(
                        (self.index + 1) as u64,
                        self.files.len() as u64,
                    ),
                }
            },
            ImportPhase::Finished => ImportRequest::Done {
                result: copy_of_import_result(&self.result),
            },
        }
    }

    /// Ends the import.
    fn finish(&mut self, result: Result<(), ImportError>)
        ensures
            final(self)@ == old(self)@.finished(import_result_view(result)),
    {
        self.phase = ImportPhase::Finished;
        self.result = result;
    }

    /// Gives the file at `index` its turn.
    fn turn(&mut self, index: usize)
        ensures
            final(self)@ == old(self)@.turn(index as nat),
    {
        self.index = index;
        if index == self.files.len() {
            self.phase = ImportPhase::Finished;
            self.result = Ok(());
        } else {
            self.phase = ImportPhase::ProbingTarget;
        }
    }

    /// Takes the result of the work that `request` asked for.
    pub fn advance(&mut self, reply: ImportReply)
        requires
            old(self).wf(),
        ensures
            final(self).wf(),
            final(self)@ == old(self)@.step(reply@),
    {
        proof {
            if let ImportReply::Listed(found) = &reply {
                assert(texts(found@).len() == found.len());
            }
            lemma_import_step(self@, reply@);
            assert(self.files@.len() == self.files.len());
        }
        match reply {
            ImportReply::Created(made) => {
                if self.phase == ImportPhase::Creating {
                    match made {
                        Ok(()) => {
                            self.phase = ImportPhase::Walking;
                        },
                        Err(text) => {
                            self.finish(Err(ImportError::DestinationUnavailable(text)));
                        },
                    }
                }
            },
            ImportReply::Listed(found) => {
                if self.phase == ImportPhase::Walking {
                    self.files = importable_files(found);
                    self.turn(0);
                }
            },
            ImportReply::Exists(found) => {
                if self.phase == ImportPhase::ProbingTarget {
                    if found {
                        self.turn(self.index + 1);
                    } else {
                        self.phase = ImportPhase::Copying;
                    }
                }
            },
            ImportReply::Copied(done) => {
                if self.phase == ImportPhase::Copying {
                    match done {
                        Ok(()) => {
                            self.phase = ImportPhase::ReportingCopied;
                        },
                        Err(text) => {
                            self.finish(Err(ImportError::CopyFailed(text)));
                        },
                    }
                }
            },
            ImportReply::Reported(taken) => {
                if self.phase == ImportPhase::ReportingCopied || self.phase
                    == ImportPhase::ReportingCount {
                    match taken {
                        Ok(()) => {
                            if self.phase == ImportPhase::ReportingCopied {
                                self.phase = ImportPhase::ReportingCount;
                            } else {
                                self.turn(self.index + 1);
                            }
                        },
                        Err(text) => {
                            self.finish(Err(ImportError::ReporterTransport(text)));
                        },
                    }
                }
            },
        }
    }
}

} // verus!
