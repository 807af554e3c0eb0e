use vstd::prelude::*;

use crate::engine::{
    answers, Call, CallModel, Reply, ReplyModel, ARCHIVE_OK, DEFAULT_BLOCK_SIZE,
};
use crate::entries::{Entries, EntriesModel, EntriesStage};
use crate::append::{Appending, AppendingModel, AppendStage};
use crate::error::{
    diagnostic_text, engine_failure, unknown_failure_text, Error, ErrorKind, ErrorModel,
};
use vstd::string::StrSliceExecFns;

verus! {

/// Whether a context was opened for reading or for writing.
#[derive(Copy, Clone, Debug, PartialEq, Eq, Structural)]
pub enum Mode {
    Read,
    Write,
}

/// The chunk size for a source whose storage reports `reported` as its own
/// block size: that size where it is positive and fits, else the default.
pub open spec fn chosen_block_size(reported: Option<u64>) -> usize {
    match reported {
        Some(n) if 0 < n && n <= usize::MAX => n as usize,
        _ => DEFAULT_BLOCK_SIZE,
    }
}

/// Chooses the chunk size for a source from what its storage reports.
pub fn block_size_for(reported: Option<u64>) -> (size: usize)
    ensures
        size == chosen_block_size(reported),
        size > 0,
{
    match reported {
        Some(n) => {
            if 0 < n && n <= usize::MAX as u64 {
                n as usize
            } else {
                DEFAULT_BLOCK_SIZE
            }
        },
        None => DEFAULT_BLOCK_SIZE,
    }
}

/// The message of the failure when the engine hands out no context or record.
pub open spec fn allocation_failure_text() -> Seq<char> {
    "archive allocation error"@
}

/// The message of the failure when an archive is used against its mode.
pub open spec fn wrong_mode_text(wanted: Mode) -> Seq<char> {
    match wanted {
        Mode::Read => "archive is not open for reading"@,
        Mode::Write => "archive is not open for writing"@,
    }
}

/// The message of the failure when a path cannot be named to the engine.
pub open spec fn nul_path_text() -> Seq<char> {
    "path contains a NUL character"@
}

/// Whether a path holds the NUL character, which no file name that the
/// engine takes can hold.
pub open spec fn has_nul(path: Seq<char>) -> bool {
    path.contains('\0')
}

/// Tells whether a path holds the NUL character.
pub fn contains_nul(path: &str) -> (found: bool)
    ensures
        found == has_nul(path@),
{
    let n: usize = path.unicode_len();
    let mut i: usize = 0;
    while i < n
        invariant
            n == path@.len(),
            i <= n,
            forall|j: int| 0 <= j < i ==> path@[j] != '\0',
        decreases n - i,
    {
        if path.get_char(i) == '\0' {
            return true;
        }
        i += 1;
    }
    false
}

/// The first state of an opening.
pub open spec fn fresh_opening(
    mode: Mode,
    path: Option<Seq<char>>,
    block_size: usize,
) -> OpeningModel {
    OpeningModel { mode, path, block_size, stage: OpenStage::Allocate, failure: None }
}

/// An open archive: the mode of its engine context and its chunk size.
#[derive(Debug)]
pub struct Archive {
    mode: Mode,
    block_size: usize,
}

/// What an [`Archive`] is.
pub struct ArchiveModel {
    pub mode: Mode,
    pub block_size: usize,
}

impl View for Archive {
    type V = ArchiveModel;

    closed spec fn view(&self) -> ArchiveModel {
        ArchiveModel { mode: self.mode, block_size: self.block_size }
    }
}

impl Archive {
    #[verifier::type_invariant]
    spec fn positive_block_size(self) -> bool {
        self.block_size > 0
    }

    /// Starts opening the file at `path` for reading. `storage_block_size` is
    /// the block size that the file's storage reports, if the platform
    /// exposes one. A path that holds the NUL character names no file, and
    /// fails as an engine failure before the engine is asked.
    pub fn open(path: &str, storage_block_size: Option<u64>) -> (started: Result<Opening, Error>)
        ensures
            match started {
                Ok(opening) => !has_nul(path@) && opening@ == fresh_opening(
                    Mode::Read,
                    Some(path@),
                    chosen_block_size(storage_block_size),
                ),
                Err(e) => has_nul(path@) && e@ == engine_failure(nul_path_text()),
            },
    {
        if contains_nul(path) {
            return Err(Error::new("path contains a NUL character"));
        }
        Ok(
            Opening {
                mode: Mode::Read,
                standard_input: false,
                path: path.to_owned(),
                block_size: block_size_for(storage_block_size),
                stage: OpenStage::Allocate,
                failure: None,
            },
        )
    }

    /// Starts opening the standard input for reading, at the default chunk
    /// size.
    pub fn stdin() -> (opening: Opening)
        ensures
            opening@ == fresh_opening(Mode::Read, None, DEFAULT_BLOCK_SIZE),
    {
        Opening {
            mode: Mode::Read,
            standard_input: true,
            path: String::new(),
            block_size: DEFAULT_BLOCK_SIZE,
            stage: OpenStage::Allocate,
            failure: None,
        }
    }

    /// Starts creating an archive at `path`, whose extension selects format
    /// and filter, at the default chunk size. A path that holds the NUL
    /// character names no file, and fails as an engine failure before the
    /// engine is asked.
    pub fn create(path: &str) -> (started: Result<Opening, Error>)
        ensures
            match started {
                Ok(opening) => !has_nul(path@) && opening@ == fresh_opening(
                    Mode::Write,
                    Some(path@),
                    DEFAULT_BLOCK_SIZE,
                ),
                Err(e) => has_nul(path@) && e@ == engine_failure(nul_path_text()),
            },
    {
        if contains_nul(path) {
            return Err(Error::new("path contains a NUL character"));
        }
        Ok(
            Opening {
                mode: Mode::Write,
                standard_input: false,
                path: path.to_owned(),
                block_size: DEFAULT_BLOCK_SIZE,
                stage: OpenStage::Allocate,
                failure: None,
            },
        )
    }

    /// Starts appending a regular file under the logical `path`.
    /// `source_block_size` is the block size that the source's storage
    /// reports, if any. An archive that was opened for reading refuses, and
    /// so does a path that holds the NUL character, which no header can
    /// carry.
    pub fn append_file(&mut self, path: &str, source_block_size: Option<u64>) -> (started: Result<
        Appending,
        Error,
    >)
        ensures
            final(self)@ == old(self)@,
            match started {
                Ok(appending) => old(self)@.mode == Mode::Write && !has_nul(path@) && appending@
                    == (AppendingModel {
                    path: path@,
                    chunk: chosen_block_size(source_block_size),
                    stage: AppendStage::Allocate,
                    data: Seq::empty(),
                    failure: None,
                }),
                Err(e) => e@ == engine_failure(append_refusal_text(old(self)@.mode, path@)) && (
                old(self)@.mode == Mode::Read || has_nul(path@)),
            },
    {
        match self.mode {
            Mode::Write => {
                if contains_nul(path) {
                    Err(Error::new("path contains a NUL character"))
                } else {
                    Ok(Appending::new(path, block_size_for(source_block_size)))
                }
            },
            Mode::Read => Err(Error::new("archive is not open for writing")),
        }
    }

    /// The chunk size of transfers to and from the archive.
    pub fn block_size(&self) -> (size: usize)
        ensures
            size == self@.block_size,
            size > 0,
    {
        proof {
            use_type_invariant(self);
        }
        self.block_size
    }

    /// The mode in which the archive was opened.
    pub fn mode(&self) -> (mode: Mode)
        ensures
            mode == self@.mode,
    {
        self.mode
    }

    /// Hands the archive over to an iteration of its entries. An archive
    /// that was opened for writing refuses, and is handed back as it was, so
    /// that it can still be appended to and torn down.
    pub fn entries(self) -> (made: Result<Entries, (Archive, Error)>)
        ensures
            match made {
                Ok(entries) => self@.mode == Mode::Read && entries@ == (EntriesModel {
                    archive: self@,
                    stage: EntriesStage::Header,
                }),
                Err(refused) => self@.mode == Mode::Write && refused.0@ == self@ && refused.1@
                    == engine_failure(wrong_mode_text(Mode::Read)),
            },
    {
        match self.mode {
            Mode::Read => Ok(Entries::new(self)),
            Mode::Write => Err((self, Error::new("archive is not open for reading"))),
        }
    }

    /// Ends the archive's life: the operation that releases its context, the
    /// one that matches the mode it was opened in.
    pub fn teardown(self) -> (call: Call)
        ensures
            call@ == release_of(self@.mode),
    {
        match self.mode {
            Mode::Read => Call::ReleaseRead,
            Mode::Write => Call::ReleaseWrite,
        }
    }
}

/// The message with which an appending is refused: the mode is looked at
/// first, then the path.
pub open spec fn append_refusal_text(mode: Mode, path: Seq<char>) -> Seq<char> {
    match mode {
        Mode::Read => wrong_mode_text(Mode::Write),
        Mode::Write => nul_path_text(),
    }
}

/// The operation that releases a context of the given mode.
pub open spec fn release_of(mode: Mode) -> CallModel {
    match mode {
        Mode::Read => CallModel::ReleaseRead,
        Mode::Write => CallModel::ReleaseWrite,
    }
}

/// How far the opening of an archive has come: the operation that is
/// pending.
#[derive(Copy, Clone, Debug, PartialEq, Eq, Structural)]
pub enum OpenStage {
    Allocate,
    EnableFilters,
    EnableFormats,
    SelectFormat,
    Open,
    Diagnose,
    Release,
}

/// An archive that is being opened.
#[derive(Debug)]
pub struct Opening {
    mode: Mode,
    standard_input: bool,
    path: String,
    block_size: usize,
    stage: OpenStage,
    failure: Option<Error>,
}

/// What an [`Opening`] is. Without a path the standard input is read. The
/// failure is the one that will be reported once the context is released.
pub struct OpeningModel {
    pub mode: Mode,
    pub path: Option<Seq<char>>,
    pub block_size: usize,
    pub stage: OpenStage,
    pub failure: Option<ErrorModel>,
}

impl View for Opening {
    type V = OpeningModel;

    closed spec fn view(&self) -> OpeningModel {
        OpeningModel {
            mode: self.mode,
            path: if self.standard_input {
                None
            } else {
                Some(self.path@)
            },
            block_size: self.block_size,
            stage: self.stage,
            failure: match self.failure {
                Some(e) => Some(e@),
                None => None,
            },
        }
    }
}

/// What one answer of the engine leads to while an archive is opened.
#[derive(Debug)]
pub enum OpenStep {
    /// Another operation is pending.
    Continue(Opening),
    /// The archive is open.
    Opened(Archive),
    /// The archive could not be opened.
    Failed(Error),
}

/// What an [`OpenStep`] is.
pub enum OpenStepModel {
    Continue(OpeningModel),
    Opened(ArchiveModel),
    Failed(ErrorModel),
}

impl View for OpenStep {
    type V = OpenStepModel;

    open spec fn view(&self) -> OpenStepModel {
        match *self {
            OpenStep::Continue(opening) => OpenStepModel::Continue(opening@),
            OpenStep::Opened(archive) => OpenStepModel::Opened(archive@),
            OpenStep::Failed(e) => OpenStepModel::Failed(e@),
        }
    }
}

/// The path that an opening names to the engine; empty where it has none.
pub open spec fn named_path(s: OpeningModel) -> Seq<char> {
    match s.path {
        Some(p) => p,
        None => Seq::empty(),
    }
}

/// The operation that is pending in state `s`.
pub open spec fn opening_request(s: OpeningModel) -> CallModel {
    match s.stage {
        OpenStage::Allocate => match s.mode {
            Mode::Read => CallModel::AllocateRead,
            Mode::Write => CallModel::AllocateWrite,
        },
        OpenStage::EnableFilters => CallModel::EnableAllFilters,
        OpenStage::EnableFormats => CallModel::EnableAllFormats,
        OpenStage::SelectFormat => CallModel::SelectFormatByExtension { path: named_path(s) },
        OpenStage::Open => match s.mode {
            Mode::Read => CallModel::OpenForReading { source: s.path, block_size: s.block_size },
            Mode::Write => CallModel::OpenForWriting { path: named_path(s) },
        },
        OpenStage::Diagnose => CallModel::ErrorString,
        OpenStage::Release => release_of(s.mode),
    }
}

/// The failure that an opening reports after the release of its context:
/// the one that was found, or one made here where none is known.
pub open spec fn reported_failure(s: OpeningModel) -> ErrorModel {
    match s.failure {
        Some(e) => e,
        None => engine_failure(unknown_failure_text()),
    }
}

/// State `s` moved to another stage.
pub open spec fn at_stage(s: OpeningModel, stage: OpenStage) -> OpeningModel {
    OpeningModel { stage, ..s }
}

/// What the answer `r` to the pending operation leads to from state `s`.
/// An answer that the pending operation cannot give leaves the state as it
/// is.
pub open spec fn opening_next(s: OpeningModel, r: ReplyModel) -> OpenStepModel {
    match (s.stage, r) {
        (OpenStage::Allocate, ReplyModel::Allocated(true)) => OpenStepModel::Continue(
            at_stage(
                s,
                match s.mode {
                    Mode::Read => OpenStage::EnableFilters,
                    Mode::Write => OpenStage::SelectFormat,
                },
            ),
        ),
        (OpenStage::Allocate, ReplyModel::Allocated(false)) => OpenStepModel::Failed(
            engine_failure(allocation_failure_text()),
        ),
        (OpenStage::EnableFilters, ReplyModel::Done) => OpenStepModel::Continue(
            at_stage(s, OpenStage::EnableFormats),
        ),
        (OpenStage::EnableFormats, ReplyModel::Done) => OpenStepModel::Continue(
            at_stage(s, OpenStage::Open),
        ),
        (OpenStage::SelectFormat, ReplyModel::Status(status)) => OpenStepModel::Continue(
            at_stage(
                s,
                if status == ARCHIVE_OK {
                    OpenStage::Open
                } else {
                    OpenStage::Diagnose
                },
            ),
        ),
        (OpenStage::Open, ReplyModel::Status(status)) => if status == ARCHIVE_OK {
            OpenStepModel::Opened(ArchiveModel { mode: s.mode, block_size: s.block_size })
        } else {
            OpenStepModel::Continue(at_stage(s, OpenStage::Diagnose))
        },
        (OpenStage::Diagnose, ReplyModel::Text(text)) => OpenStepModel::Continue(
            OpeningModel {
                stage: OpenStage::Release,
                failure: Some(engine_failure(diagnostic_text(text))),
                ..s
            },
        ),
        (OpenStage::Release, ReplyModel::Done) => OpenStepModel::Failed(reported_failure(s)),
        _ => OpenStepModel::Continue(s),
    }
}

impl Opening {
    #[verifier::type_invariant]
    spec fn sound(self) -> bool {
        self.block_size > 0 && (self.standard_input ==> self.path@ == Seq::<char>::empty())
    }

    fn moved_to(self, stage: OpenStage) -> (next: Opening)
        ensures
            next@ == at_stage(self@, stage),
    {
        proof {
            use_type_invariant(&self);
        }
        Opening {
            mode: self.mode,
            standard_input: self.standard_input,
            path: self.path,
            block_size: self.block_size,
            stage,
            failure: self.failure,
        }
    }

    /// The operation to perform now.
    pub fn request(&self) -> (call: Call)
        ensures
            call@ == opening_request(self@),
    {
        proof {
            use_type_invariant(self);
        }
        match self.stage {
            OpenStage::Allocate => match self.mode {
                Mode::Read => Call::AllocateRead,
                Mode::Write => Call::AllocateWrite,
            },
            OpenStage::EnableFilters => Call::EnableAllFilters,
            OpenStage::EnableFormats => Call::EnableAllFormats,
            OpenStage::SelectFormat => Call::SelectFormatByExtension { path: self.path.clone() },
            OpenStage::Open => match self.mode {
                Mode::Read => Call::OpenForReading {
                    source: if self.standard_input {
                        None
                    } else {
                        Some(self.path.clone())
                    },
                    block_size: self.block_size,
                },
                Mode::Write => Call::OpenForWriting { path: self.path.clone() },
            },
            OpenStage::Diagnose => Call::ErrorString,
            OpenStage::Release => match self.mode {
                Mode::Read => Call::ReleaseRead,
                Mode::Write => Call::ReleaseWrite,
            },
        }
    }

    /// Takes the answer to the pending operation and decides what follows.
    pub fn advance(self, reply: Reply) -> (step: OpenStep)
        ensures
            step@ == opening_next(self@, reply@),
    {
        proof {
            use_type_invariant(&self);
        }
        match self.stage {
            OpenStage::Allocate => match reply {
                Reply::Allocated(true) => {
                    let stage = match self.mode {
                        Mode::Read => OpenStage::EnableFilters,
                        Mode::Write => OpenStage::SelectFormat,
                    };
                    OpenStep::Continue(self.moved_to(stage))
                },
                Reply::Allocated(false) => OpenStep::Failed(
                    Error::new("archive allocation error"),
                ),
                _ => OpenStep::Continue(self),
            },
            OpenStage::EnableFilters => match reply {
                Reply::Done => OpenStep::Continue(self.moved_to(OpenStage::EnableFormats)),
                _ => OpenStep::Continue(self),
            },
            OpenStage::EnableFormats => match reply {
                Reply::Done => OpenStep::Continue(self.moved_to(OpenStage::Open)),
                _ => OpenStep::Continue(self),
            },
            OpenStage::SelectFormat => match reply {
                Reply::Status(status) => {
                    if status == ARCHIVE_OK {
                        OpenStep::Continue(self.moved_to(OpenStage::Open))
                    } else {
                        OpenStep::Continue(self.moved_to(OpenStage::Diagnose))
                    }
                },
                _ => OpenStep::Continue(self),
            },
            OpenStage::Open => match reply {
                Reply::Status(status) => {
                    if status == ARCHIVE_OK {
                        OpenStep::Opened(Archive { mode: self.mode, block_size: self.block_size })
                    } else {
                        OpenStep::Continue(self.moved_to(OpenStage::Diagnose))
                    }
                },
                _ => OpenStep::Continue(self),
            },
            OpenStage::Diagnose => match reply {
                Reply::Text(text) => OpenStep::Continue(
                    Opening {
                        mode: self.mode,
                        standard_input: self.standard_input,
                        path: self.path,
                        block_size: self.block_size,
                        stage: OpenStage::Release,
                        failure: Some(Error::from_archive(text)),
                    },
                ),
                _ => OpenStep::Continue(self),
            },
            OpenStage::Release => match reply {
                Reply::Done => match self.failure {
                    Some(e) => OpenStep::Failed(e),
                    None => OpenStep::Failed(Error::new("unknown archive error")),
                },
                _ => OpenStep::Continue(self),
            },
        }
    }
}

/// What the answers `replies`, taken one after the other, lead to from
/// state `s`. Answers that come after the opening has ended are not looked
/// at.
pub open spec fn opening_run(s: OpeningModel, replies: Seq<ReplyModel>) -> OpenStepModel
    decreases replies.len(),
{
    if replies.len() == 0 {
        OpenStepModel::Continue(s)
    } else {
        match opening_next(s, replies[0]) {
            OpenStepModel::Continue(next) => opening_run(next, replies.drop_first()),
            end => end,
        }
    }
}

/// The chunk size that is chosen is positive, and it is the one that the
/// storage reports wherever that one is positive and fits.
pub proof fn chosen_block_size_is_positive(reported: Option<u64>)
    ensures
        chosen_block_size(reported) > 0,
        reported is None ==> chosen_block_size(reported) == DEFAULT_BLOCK_SIZE,
        forall|n: u64|
            reported == Some(n) && 0 < n <= usize::MAX ==> chosen_block_size(reported) == n,
{
}

/// Whether the failure that waits in a state, if any, is the engine's. It
/// is in every state that an opening reaches.
pub open spec fn waits_for_the_engine(s: OpeningModel) -> bool {
    match s.failure {
        Some(e) => e.kind == ErrorKind::LibArchive,
        None => true,
    }
}

/// An opening that fails, after whatever answers, fails with an engine
/// failure.
pub proof fn failed_opening_is_an_engine_failure(s: OpeningModel, replies: Seq<ReplyModel>)
    requires
        waits_for_the_engine(s),
    ensures
        opening_run(s, replies) matches OpenStepModel::Failed(e) ==> e.kind
            == ErrorKind::LibArchive,
    decreases replies.len(),
{
    if replies.len() > 0 {
        match opening_next(s, replies[0]) {
            OpenStepModel::Continue(next) => {
                failed_opening_is_an_engine_failure(next, replies.drop_first());
            },
            _ => {},
        }
    }
}

/// The archive that an opening ends in, after whatever answers, has the mode
/// and the chunk size that the opening was started with.
pub proof fn opened_archive_is_as_asked(s: OpeningModel, replies: Seq<ReplyModel>)
    ensures
        opening_run(s, replies) matches OpenStepModel::Opened(a) ==> a.mode == s.mode
            && a.block_size == s.block_size,
        opening_run(s, replies) matches OpenStepModel::Continue(t) ==> t.mode == s.mode
            && t.block_size == s.block_size && t.path == s.path,
    decreases replies.len(),
{
    if replies.len() > 0 {
        match opening_next(s, replies[0]) {
            OpenStepModel::Continue(next) => {
                opened_archive_is_as_asked(next, replies.drop_first());
            },
            _ => {},
        }
    }
}

/// Once the engine has refused, no archive comes out: after a status other
/// than success to the choice of the format or to the opening of the file,
/// whatever is answered next, the opening does not end in an archive. On
/// the engine's diagnostic text the context is released, by the operation
/// that matches its mode, and then the opening fails with that text.
pub proof fn refused_opening_yields_no_archive(
    s: OpeningModel,
    status: i32,
    text: Seq<char>,
    rest: Seq<ReplyModel>,
)
    requires
        s.stage == OpenStage::Open || s.stage == OpenStage::SelectFormat,
        status != ARCHIVE_OK,
    ensures
        !(opening_run(s, seq![ReplyModel::Status(status)] + rest) is Opened),
        opening_run(s, seq![ReplyModel::Status(status), ReplyModel::Text(text), ReplyModel::Done])
            == OpenStepModel::Failed(engine_failure(diagnostic_text(text))),
        opening_calls(s, seq![ReplyModel::Status(status), ReplyModel::Text(text), ReplyModel::Done])
            == seq![opening_request(s), CallModel::ErrorString, release_of(s.mode)],
{
    let refused = at_stage(s, OpenStage::Diagnose);
    let replies = seq![ReplyModel::Status(status)] + rest;
    assert(replies.drop_first() =~= rest);
    diagnosis_yields_no_archive(refused, rest);
    let three = seq![ReplyModel::Status(status), ReplyModel::Text(text), ReplyModel::Done];
    let r1 = three.drop_first();
    let r2 = r1.drop_first();
    assert(r1[0] == ReplyModel::Text(text) && r2[0] == ReplyModel::Done);
    assert(r2.drop_first().len() == 0);
    reveal_with_fuel(opening_run, 4);
    reveal_with_fuel(opening_calls, 4);
    assert(opening_calls(s, three) =~= seq![
        opening_request(s),
        CallModel::ErrorString,
        release_of(s.mode),
    ]);
}

/// An opening that waits for the engine's diagnostic text, or for the
/// release of its context, does not end in an archive, whatever is answered.
pub proof fn diagnosis_yields_no_archive(s: OpeningModel, replies: Seq<ReplyModel>)
    requires
        s.stage == OpenStage::Diagnose || s.stage == OpenStage::Release,
    ensures
        !(opening_run(s, replies) is Opened),
    decreases replies.len(),
{
    if replies.len() > 0 {
        match opening_next(s, replies[0]) {
            OpenStepModel::Continue(next) => {
                diagnosis_yields_no_archive(next, replies.drop_first());
            },
            _ => {},
        }
    }
}

/// An answer that the pending operation cannot get changes nothing.
pub proof fn only_answers_move_an_opening(s: OpeningModel, r: ReplyModel)
    requires
        !answers(opening_request(s), r),
    ensures
        opening_next(s, r) == OpenStepModel::Continue(s),
{
}

/// The answers that open a file for reading: a context, both enablings
/// done, and success on the file. They lead from a fresh opening to an
/// archive in read mode with the chunk size that was chosen.
pub proof fn reading_opens_on_success(s: OpeningModel)
    requires
        s.stage == OpenStage::Allocate,
        s.mode == Mode::Read,
    ensures
        opening_run(
            s,
            seq![
                ReplyModel::Allocated(true),
                ReplyModel::Done,
                ReplyModel::Done,
                ReplyModel::Status(ARCHIVE_OK),
            ],
        ) == OpenStepModel::Opened(ArchiveModel { mode: Mode::Read, block_size: s.block_size }),
{
    let replies = seq![
        ReplyModel::Allocated(true),
        ReplyModel::Done,
        ReplyModel::Done,
        ReplyModel::Status(ARCHIVE_OK),
    ];
    let r1 = replies.drop_first();
    let r2 = r1.drop_first();
    let r3 = r2.drop_first();
    assert(r1[0] == ReplyModel::Done && r2[0] == ReplyModel::Done && r3[0] == ReplyModel::Status(
        ARCHIVE_OK,
    ));
    reveal_with_fuel(opening_run, 5);
}

/// The answers that create an archive: a context, success on the choice of
/// the format, and success on the destination. They lead from a fresh
/// creation to an archive in write mode.
pub proof fn writing_opens_on_success(s: OpeningModel)
    requires
        s.stage == OpenStage::Allocate,
        s.mode == Mode::Write,
    ensures
        opening_run(
            s,
            seq![
                ReplyModel::Allocated(true),
                ReplyModel::Status(ARCHIVE_OK),
                ReplyModel::Status(ARCHIVE_OK),
            ],
        ) == OpenStepModel::Opened(ArchiveModel { mode: Mode::Write, block_size: s.block_size }),
{
    let replies = seq![
        ReplyModel::Allocated(true),
        ReplyModel::Status(ARCHIVE_OK),
        ReplyModel::Status(ARCHIVE_OK),
    ];
    let r1 = replies.drop_first();
    let r2 = r1.drop_first();
    assert(r1[0] == ReplyModel::Status(ARCHIVE_OK) && r2[0] == ReplyModel::Status(ARCHIVE_OK));
    reveal_with_fuel(opening_run, 4);
}

/// The operations that are performed from state `s` to get the answers
/// `replies`, in their order.
pub open spec fn opening_calls(s: OpeningModel, replies: Seq<ReplyModel>) -> Seq<CallModel>
    decreases replies.len(),
{
    if replies.len() == 0 {
        Seq::empty()
    } else {
        seq![opening_request(s)] + match opening_next(s, replies[0]) {
            OpenStepModel::Continue(next) => opening_calls(next, replies.drop_first()),
            _ => Seq::empty(),
        }
    }
}

/// What is asked of the engine to open an archive for reading: a read
/// context, every filter, every format, and then the source itself at the
/// chunk size that was chosen; for the standard input, no file name.
pub proof fn reading_asks_in_order(s: OpeningModel, status: i32)
    requires
        s.stage == OpenStage::Allocate,
        s.mode == Mode::Read,
    ensures
        opening_calls(
            s,
            seq![
                ReplyModel::Allocated(true),
                ReplyModel::Done,
                ReplyModel::Done,
                ReplyModel::Status(status),
            ],
        ) == seq![
            CallModel::AllocateRead,
            CallModel::EnableAllFilters,
            CallModel::EnableAllFormats,
            CallModel::OpenForReading { source: s.path, block_size: s.block_size },
        ],
{
    let replies = seq![
        ReplyModel::Allocated(true),
        ReplyModel::Done,
        ReplyModel::Done,
        ReplyModel::Status(status),
    ];
    let r1 = replies.drop_first();
    let r2 = r1.drop_first();
    let r3 = r2.drop_first();
    assert(r1[0] == ReplyModel::Done && r2[0] == ReplyModel::Done && r3[0] == ReplyModel::Status(
        status,
    ));
    assert(r3.drop_first().len() == 0);
    reveal_with_fuel(opening_calls, 5);
    assert(opening_calls(s, replies) =~= seq![
        CallModel::AllocateRead,
        CallModel::EnableAllFilters,
        CallModel::EnableAllFormats,
        CallModel::OpenForReading { source: s.path, block_size: s.block_size },
    ]);
}

/// What is asked of the engine to create an archive: a write context, the
/// format and filter that the destination's extension selects, and then the
/// destination itself.
pub proof fn writing_asks_in_order(s: OpeningModel, path: Seq<char>, status: i32)
    requires
        s.stage == OpenStage::Allocate,
        s.mode == Mode::Write,
        s.path == Some(path),
    ensures
        opening_calls(
            s,
            seq![
                ReplyModel::Allocated(true),
                ReplyModel::Status(ARCHIVE_OK),
                ReplyModel::Status(status),
            ],
        ) == seq![
            CallModel::AllocateWrite,
            CallModel::SelectFormatByExtension { path },
            CallModel::OpenForWriting { path },
        ],
{
    let replies = seq![
        ReplyModel::Allocated(true),
        ReplyModel::Status(ARCHIVE_OK),
        ReplyModel::Status(status),
    ];
    let r1 = replies.drop_first();
    let r2 = r1.drop_first();
    assert(r1[0] == ReplyModel::Status(ARCHIVE_OK) && r2[0] == ReplyModel::Status(status));
    assert(r2.drop_first().len() == 0);
    reveal_with_fuel(opening_calls, 4);
    assert(opening_calls(s, replies) =~= seq![
        CallModel::AllocateWrite,
        CallModel::SelectFormatByExtension { path },
        CallModel::OpenForWriting { path },
    ]);
}

/// Without a context nothing is opened: when the engine hands out none, the
/// opening fails at once with the allocation failure.
pub proof fn opening_fails_without_a_context(s: OpeningModel)
    requires
        s.stage == OpenStage::Allocate,
    ensures
        opening_run(s, seq![ReplyModel::Allocated(false)]) == OpenStepModel::Failed(
            engine_failure(allocation_failure_text()),
        ),
        opening_calls(s, seq![ReplyModel::Allocated(false)]).len() == 1,
{
    let replies = seq![ReplyModel::Allocated(false)];
    assert(replies[0] == ReplyModel::Allocated(false));
}

} // verus!
