use vstd::prelude::*;

use crate::archive::allocation_failure_text;
use crate::engine::{answers, Call, CallModel, Reply, ReplyModel, ARCHIVE_OK};
use crate::error::{diagnostic_text, engine_failure, io_failure, Error, ErrorKind, ErrorModel};

verus! {

/// How far the appending of one file has come: the operation that is
/// pending.
#[derive(Copy, Clone, Debug, PartialEq, Eq, Structural)]
pub enum AppendStage {
    Allocate,
    SetFiletype,
    SetPathname,
    WriteHeader,
    Diagnose,
    Read,
    Write,
    Release,
}

/// One file that is being appended to an archive.
#[derive(Debug)]
pub struct Appending {
    path: String,
    chunk: usize,
    stage: AppendStage,
    data: Vec<u8>,
    failure: Option<Error>,
}

/// What an [`Appending`] is: the logical path, the size of the chunks asked
/// of the source, the stage, the bytes that wait to be written, and the
/// failure that will be reported once the header record is released.
pub struct AppendingModel {
    pub path: Seq<char>,
    pub chunk: usize,
    pub stage: AppendStage,
    pub data: Seq<u8>,
    pub failure: Option<ErrorModel>,
}

impl View for Appending {
    type V = AppendingModel;

    closed spec fn view(&self) -> AppendingModel {
        AppendingModel {
            path: self.path@,
            chunk: self.chunk,
            stage: self.stage,
            data: self.data@,
            failure: match self.failure {
                Some(e) => Some(e@),
                None => None,
            },
        }
    }
}

/// What one answer leads to while a file is appended.
#[derive(Debug)]
pub enum AppendStep {
    /// Another operation is pending.
    Continue(Appending),
    /// The file is in the archive.
    Appended,
    /// The file could not be appended.
    Failed(Error),
}

/// What an [`AppendStep`] is.
pub enum AppendStepModel {
    Continue(AppendingModel),
    Appended,
    Failed(ErrorModel),
}

impl View for AppendStep {
    type V = AppendStepModel;

    open spec fn view(&self) -> AppendStepModel {
        match *self {
            AppendStep::Continue(appending) => AppendStepModel::Continue(appending@),
            AppendStep::Appended => AppendStepModel::Appended,
            AppendStep::Failed(e) => AppendStepModel::Failed(e@),
        }
    }
}

/// The operation that is pending in state `s`.
pub open spec fn append_request(s: AppendingModel) -> CallModel {
    match s.stage {
        AppendStage::Allocate => CallModel::AllocateEntry,
        AppendStage::SetFiletype => CallModel::SetEntryRegularFile,
        AppendStage::SetPathname => CallModel::SetEntryPathname { path: s.path },
        AppendStage::WriteHeader => CallModel::WriteHeader,
        AppendStage::Diagnose => CallModel::ErrorString,
        AppendStage::Read => CallModel::ReadSource { capacity: s.chunk },
        AppendStage::Write => CallModel::WriteData { data: s.data },
        AppendStage::Release => CallModel::ReleaseEntry,
    }
}

/// State `s` moved to another stage, with no bytes waiting.
pub open spec fn append_at(s: AppendingModel, stage: AppendStage) -> AppendingModel {
    AppendingModel { stage, data: Seq::empty(), ..s }
}

/// State `s` before the release of the header record, with the outcome that
/// is reported after it.
pub open spec fn releasing(s: AppendingModel, failure: Option<ErrorModel>) -> AppendingModel {
    AppendingModel { stage: AppendStage::Release, data: Seq::empty(), failure, ..s }
}

/// What the answer `r` to the pending operation leads to from state `s`.
/// An answer that the pending operation cannot give leaves the state as it
/// is.
pub open spec fn append_next(s: AppendingModel, r: ReplyModel) -> AppendStepModel {
    match (s.stage, r) {
        (AppendStage::Allocate, ReplyModel::Allocated(true)) => AppendStepModel::Continue(
            append_at(s, AppendStage::SetFiletype),
        ),
        (AppendStage::Allocate, ReplyModel::Allocated(false)) => AppendStepModel::Failed(
            engine_failure(allocation_failure_text()),
        ),
        (AppendStage::SetFiletype, ReplyModel::Done) => AppendStepModel::Continue(
            append_at(s, AppendStage::SetPathname),
        ),
        (AppendStage::SetPathname, ReplyModel::Done) => AppendStepModel::Continue(
            append_at(s, AppendStage::WriteHeader),
        ),
        (AppendStage::WriteHeader, ReplyModel::Status(status)) => AppendStepModel::Continue(
            append_at(
                s,
                if status == ARCHIVE_OK {
                    AppendStage::Read
                } else {
                    AppendStage::Diagnose
                },
            ),
        ),
        (AppendStage::Diagnose, ReplyModel::Text(text)) => AppendStepModel::Continue(
            releasing(s, Some(engine_failure(diagnostic_text(text)))),
        ),
        (AppendStage::Read, ReplyModel::Data(data)) => AppendStepModel::Continue(
            if data.len() > s.chunk {
                s
            } else if data.len() > 0 {
                AppendingModel { stage: AppendStage::Write, data, ..s }
            } else {
                releasing(s, None)
            },
        ),
        (AppendStage::Read, ReplyModel::SourceFailed(message)) => AppendStepModel::Continue(
            releasing(s, Some(io_failure(message))),
        ),
        (AppendStage::Write, ReplyModel::Written(count)) => AppendStepModel::Continue(
            append_at(
                s,
                if count >= 0 {
                    AppendStage::Read
                } else {
                    AppendStage::Diagnose
                },
            ),
        ),
        (AppendStage::Release, ReplyModel::Done) => match s.failure {
            Some(e) => AppendStepModel::Failed(e),
            None => AppendStepModel::Appended,
        },
        _ => AppendStepModel::Continue(s),
    }
}

impl Appending {
    pub(crate) fn new(path: &str, chunk: usize) -> (appending: Appending)
        ensures
            appending@ == (AppendingModel {
                path: path@,
                chunk,
                stage: AppendStage::Allocate,
                data: Seq::empty(),
                failure: None,
            }),
    {
        Appending {
            path: path.to_owned(),
            chunk,
            stage: AppendStage::Allocate,
            data: Vec::new(),
            failure: None,
        }
    }

    fn moved_to(self, stage: AppendStage) -> (next: Appending)
        ensures
            next@ == append_at(self@, stage),
    {
        Appending {
            path: self.path,
            chunk: self.chunk,
            stage,
            data: Vec::new(),
            failure: self.failure,
        }
    }

    fn released_with(self, failure: Option<Error>) -> (next: Appending)
        ensures
            next@ == releasing(
                self@,
                match failure {
                    Some(e) => Some(e@),
                    None => None,
                },
            ),
    {
        Appending {
            path: self.path,
            chunk: self.chunk,
            stage: AppendStage::Release,
            data: Vec::new(),
            failure,
        }
    }

    /// The operation to perform now.
    pub fn request(&self) -> (call: Call)
        ensures
            call@ == append_request(self@),
    {
        match self.stage {
            AppendStage::Allocate => Call::AllocateEntry,
            AppendStage::SetFiletype => Call::SetEntryRegularFile,
            AppendStage::SetPathname => Call::SetEntryPathname { path: self.path.clone() },
            AppendStage::WriteHeader => Call::WriteHeader,
            AppendStage::Diagnose => Call::ErrorString,
            AppendStage::Read => Call::ReadSource { capacity: self.chunk },
            AppendStage::Write => {
                let data = self.data.clone();
                assert(data@ =~= self.data@);
                Call::WriteData { data }
            },
            AppendStage::Release => Call::ReleaseEntry,
        }
    }

    /// Takes the answer to the pending operation and decides what follows.
    pub fn advance(self, reply: Reply) -> (step: AppendStep)
        ensures
            step@ == append_next(self@, reply@),
    {
        match self.stage {
            AppendStage::Allocate => match reply {
                Reply::Allocated(true) => AppendStep::Continue(
                    self.moved_to(AppendStage::SetFiletype),
                ),
                Reply::Allocated(false) => AppendStep::Failed(
                    Error::new("archive allocation error"),
                ),
                _ => AppendStep::Continue(self),
            },
            AppendStage::SetFiletype => match reply {
                Reply::Done => AppendStep::Continue(self.moved_to(AppendStage::SetPathname)),
                _ => AppendStep::Continue(self),
            },
            AppendStage::SetPathname => match reply {
                Reply::Done => AppendStep::Continue(self.moved_to(AppendStage::WriteHeader)),
                _ => AppendStep::Continue(self),
            },
            AppendStage::WriteHeader => match reply {
                Reply::Status(status) => {
                    if status == ARCHIVE_OK {
                        AppendStep::Continue(self.moved_to(AppendStage::Read))
                    } else {
                        AppendStep::Continue(self.moved_to(AppendStage::Diagnose))
                    }
                },
                _ => AppendStep::Continue(self),
            },
            AppendStage::Diagnose => match reply {
                Reply::Text(text) => AppendStep::Continue(
                    self.released_with(Some(Error::from_archive(text))),
                ),
                _ => AppendStep::Continue(self),
            },
            AppendStage::Read => match reply {
                Reply::Data(data) => {
                    if data.len() > self.chunk {
                        AppendStep::Continue(self)
                    } else if data.len() > 0 {
                        AppendStep::Continue(
                            Appending {
                                path: self.path,
                                chunk: self.chunk,
                                stage: AppendStage::Write,
                                data,
                                failure: self.failure,
                            },
                        )
                    } else {
                        AppendStep::Continue(self.released_with(None))
                    }
                },
                Reply::SourceFailed(message) => AppendStep::Continue(
                    self.released_with(Some(Error::from_io(message))),
                ),
                _ => AppendStep::Continue(self),
            },
            AppendStage::Write => match reply {
                Reply::Written(count) => {
                    if count >= 0 {
                        AppendStep::Continue(self.moved_to(AppendStage::Read))
                    } else {
                        AppendStep::Continue(self.moved_to(AppendStage::Diagnose))
                    }
                },
                _ => AppendStep::Continue(self),
            },
            AppendStage::Release => match reply {
                Reply::Done => match self.failure {
                    Some(e) => AppendStep::Failed(e),
                    None => AppendStep::Appended,
                },
                _ => AppendStep::Continue(self),
            },
        }
    }
}

/// What the answers `replies`, taken one after the other, lead to from
/// state `s`. Answers that come after the appending has ended are not looked
/// at.
pub open spec fn append_run(s: AppendingModel, replies: Seq<ReplyModel>) -> AppendStepModel
    decreases replies.len(),
{
    if replies.len() == 0 {
        AppendStepModel::Continue(s)
    } else {
        match append_next(s, replies[0]) {
            AppendStepModel::Continue(next) => append_run(next, replies.drop_first()),
            end => end,
        }
    }
}

/// The operations that are performed from state `s` to get the answers
/// `replies`, in their order.
pub open spec fn append_calls(s: AppendingModel, replies: Seq<ReplyModel>) -> Seq<CallModel>
    decreases replies.len(),
{
    if replies.len() == 0 {
        Seq::empty()
    } else {
        seq![append_request(s)] + match append_next(s, replies[0]) {
            AppendStepModel::Continue(next) => append_calls(next, replies.drop_first()),
            _ => Seq::empty(),
        }
    }
}

/// Whether each of `replies` answers the operation that was pending when it
/// came, from state `s` on, and none comes after the appending has ended.
pub open spec fn faithful(s: AppendingModel, replies: Seq<ReplyModel>) -> bool
    decreases replies.len(),
{
    if replies.len() == 0 {
        true
    } else {
        answers(append_request(s), replies[0]) && match append_next(s, replies[0]) {
            AppendStepModel::Continue(next) => faithful(next, replies.drop_first()),
            _ => replies.len() == 1,
        }
    }
}

/// The bytes that an operation hands to the archive as data.
pub open spec fn payload(call: CallModel) -> Seq<u8> {
    match call {
        CallModel::WriteData { data } => data,
        _ => Seq::empty(),
    }
}

/// The bytes that the operations `calls` hand to the archive as data, in
/// their order.
pub open spec fn written(calls: Seq<CallModel>) -> Seq<u8>
    decreases calls.len(),
{
    if calls.len() == 0 {
        Seq::empty()
    } else {
        payload(calls[0]) + written(calls.drop_first())
    }
}

/// The bytes that an answer brings from the source.
pub open spec fn brought(r: ReplyModel) -> Seq<u8> {
    match r {
        ReplyModel::Data(data) => data,
        _ => Seq::empty(),
    }
}

/// The bytes that the answers `replies` bring from the source, in their
/// order.
pub open spec fn supplied(replies: Seq<ReplyModel>) -> Seq<u8>
    decreases replies.len(),
{
    if replies.len() == 0 {
        Seq::empty()
    } else {
        brought(replies[0]) + supplied(replies.drop_first())
    }
}

/// The bytes that wait in a state to be written.
pub open spec fn waiting(s: AppendingModel) -> Seq<u8> {
    if s.stage == AppendStage::Write {
        s.data
    } else {
        Seq::empty()
    }
}

/// The bytes that wait to be written in what a run has led to.
pub open spec fn left_over(step: AppendStepModel) -> Seq<u8> {
    match step {
        AppendStepModel::Continue(s) => waiting(s),
        _ => Seq::empty(),
    }
}

/// One step keeps the logical path and the chunk size, and the pathname
/// that is set on the header record is the logical path.
pub proof fn path_and_chunk_are_kept(s: AppendingModel, r: ReplyModel)
    ensures
        append_next(s, r) matches AppendStepModel::Continue(next) ==> next.path == s.path
            && next.chunk == s.chunk,
        s.stage == AppendStage::SetPathname ==> append_request(s) == (CallModel::SetEntryPathname {
            path: s.path,
        }),
        s.stage == AppendStage::Read ==> append_request(s) == (CallModel::ReadSource {
            capacity: s.chunk,
        }),
{
}

/// The header of an appended file: a fresh record, marked as a regular
/// file, named by the logical path, is written to the archive, in that
/// order.
pub proof fn header_describes_a_regular_file(s: AppendingModel, status: i32)
    requires
        s.stage == AppendStage::Allocate,
    ensures
        append_calls(
            s,
            seq![
                ReplyModel::Allocated(true),
                ReplyModel::Done,
                ReplyModel::Done,
                ReplyModel::Status(status),
            ],
        ) == seq![
            CallModel::AllocateEntry,
            CallModel::SetEntryRegularFile,
            CallModel::SetEntryPathname { path: s.path },
            CallModel::WriteHeader,
        ],
{
    let replies = seq![
        ReplyModel::Allocated(true),
        ReplyModel::Done,
        ReplyModel::Done,
        ReplyModel::Status(status),
    ];
    let r1 = replies.drop_first();
    let r2 = r1.drop_first();
    let r3 = r2.drop_first();
    assert(r1[0] == ReplyModel::Done && r2[0] == ReplyModel::Done && r3[0] == ReplyModel::Status(
        status,
    ));
    assert(r3.drop_first().len() == 0);
    reveal_with_fuel(append_calls, 5);
    assert(append_calls(s, replies) =~= seq![
        CallModel::AllocateEntry,
        CallModel::SetEntryRegularFile,
        CallModel::SetEntryPathname { path: s.path },
        CallModel::WriteHeader,
    ]);
}

/// What is written is what was read: over answers that are faithful, the
/// bytes handed to the archive, with those that still wait at the end, are
/// the bytes that waited at the start followed by those that the source
/// supplied, byte for byte and in order.
pub proof fn written_is_what_was_supplied(s: AppendingModel, replies: Seq<ReplyModel>)
    requires
        faithful(s, replies),
    ensures
        written(append_calls(s, replies)) + left_over(append_run(s, replies)) == waiting(s)
            + supplied(replies),
    decreases replies.len(),
{
    let calls = append_calls(s, replies);
    if replies.len() == 0 {
        assert(written(calls) + left_over(append_run(s, replies)) =~= waiting(s) + supplied(
            replies,
        ));
    } else {
        let rest = replies.drop_first();
        assert(calls[0] == append_request(s));
        match append_next(s, replies[0]) {
            AppendStepModel::Continue(next) => {
                written_is_what_was_supplied(next, rest);
                assert(calls.drop_first() =~= append_calls(next, rest));
                assert(payload(append_request(s)) + waiting(next) =~= waiting(s) + brought(
                    replies[0],
                ));
                assert(written(calls) + left_over(append_run(s, replies)) =~= payload(
                    append_request(s),
                ) + (written(append_calls(next, rest)) + left_over(append_run(next, rest))));
                assert(written(calls) + left_over(append_run(s, replies)) =~= (payload(
                    append_request(s),
                ) + waiting(next)) + supplied(rest));
                assert(waiting(s) + supplied(replies) =~= (waiting(s) + brought(replies[0]))
                    + supplied(rest));
            },
            _ => {
                assert(calls.drop_first() =~= Seq::<CallModel>::empty());
                assert(written(calls.drop_first()) =~= Seq::<u8>::empty());
                assert(supplied(rest) =~= Seq::<u8>::empty());
                assert(payload(calls[0]) =~= Seq::<u8>::empty());
                assert(brought(replies[0]) =~= Seq::<u8>::empty());
                assert(written(calls) + left_over(append_run(s, replies)) =~= waiting(s)
                    + supplied(replies));
            },
        }
    }
}

/// A file that was appended brought all of its source into the archive: in
/// a faithful run from the start that ends, the bytes handed to the archive
/// are exactly those that the source supplied.
pub proof fn appended_bytes_are_the_source(s: AppendingModel, replies: Seq<ReplyModel>)
    requires
        s.stage == AppendStage::Allocate,
        faithful(s, replies),
        !(append_run(s, replies) is Continue),
    ensures
        written(append_calls(s, replies)) == supplied(replies),
{
    written_is_what_was_supplied(s, replies);
    assert(written(append_calls(s, replies)) =~= written(append_calls(s, replies)) + left_over(
        append_run(s, replies),
    ));
    assert(supplied(replies) =~= waiting(s) + supplied(replies));
}

/// The header record is released before the appending ends: in a faithful
/// run from a state in which the record is allocated, the last operation
/// before the end is the release of the record.
pub proof fn record_is_released_before_the_end(s: AppendingModel, replies: Seq<ReplyModel>)
    requires
        s.stage != AppendStage::Allocate,
        faithful(s, replies),
        !(append_run(s, replies) is Continue),
    ensures
        append_calls(s, replies).len() > 0,
        append_calls(s, replies).last() == CallModel::ReleaseEntry,
    decreases replies.len(),
{
    let calls = append_calls(s, replies);
    if replies.len() > 0 {
        let rest = replies.drop_first();
        match append_next(s, replies[0]) {
            AppendStepModel::Continue(next) => {
                record_is_released_before_the_end(next, rest);
                let tail = append_calls(next, rest);
                assert(calls =~= seq![append_request(s)] + tail);
                assert(calls.last() == tail.last());
            },
            _ => {
                assert(calls =~= seq![append_request(s)]);
            },
        }
    }
}

/// An appending that got its header record gives it back: in a faithful run
/// from the start in which a record is handed out and which ends, the last
/// operation is the release of the record, whether the file was appended or
/// not.
pub proof fn appending_releases_its_record(s: AppendingModel, replies: Seq<ReplyModel>)
    requires
        s.stage == AppendStage::Allocate,
        replies.len() > 0,
        replies[0] == ReplyModel::Allocated(true),
        faithful(s, replies),
        !(append_run(s, replies) is Continue),
    ensures
        append_calls(s, replies).last() == CallModel::ReleaseEntry,
{
    let next = append_at(s, AppendStage::SetFiletype);
    let rest = replies.drop_first();
    record_is_released_before_the_end(next, rest);
    let tail = append_calls(next, rest);
    assert(append_calls(s, replies) =~= seq![append_request(s)] + tail);
}

/// The failure that waits in the state after the answer `r` came in state
/// `s`: the engine's where the header was refused, an I/O failure where the
/// source could not be read, none at the source's end.
pub open spec fn held_back(s: AppendingModel, r: ReplyModel) -> Option<ErrorModel> {
    match (s.stage, r) {
        (AppendStage::Diagnose, ReplyModel::Text(text)) => Some(
            engine_failure(diagnostic_text(text)),
        ),
        (AppendStage::Read, ReplyModel::SourceFailed(message)) => Some(io_failure(message)),
        (AppendStage::Read, ReplyModel::Data(data)) => if data.len() == 0 {
            None
        } else {
            s.failure
        },
        _ => s.failure,
    }
}

/// How an appending fails: with the engine's failure where the header was
/// or a chunk of data was refused or no record could be had, with an I/O
/// failure where the source
/// could not be read, and in no other way. This is one step: a failure that
/// was found waits in the state until the record is released.
pub proof fn failures_of_one_step(s: AppendingModel, r: ReplyModel)
    ensures
        append_next(s, r) matches AppendStepModel::Failed(e) ==> (s.stage == AppendStage::Release
            && s.failure == Some(e)) || (s.stage == AppendStage::Allocate && e == engine_failure(
            allocation_failure_text(),
        )),
        append_next(s, r) is Appended ==> s.stage == AppendStage::Release && s.failure is None,
        append_next(s, r) matches AppendStepModel::Continue(next) ==> next.failure == held_back(s, r),
{
}

/// An answer that the pending operation cannot get changes nothing.
pub proof fn only_answers_move_an_appending(s: AppendingModel, r: ReplyModel)
    requires
        !answers(append_request(s), r),
    ensures
        append_next(s, r) == AppendStepModel::Continue(s),
{
}

/// No chunk is larger than was asked for: the bytes that follow a read of
/// the source to the archive are the answer to that read, at most the chunk
/// size of them.
pub proof fn chunks_are_bounded(s: AppendingModel, data: Seq<u8>)
    requires
        s.stage == AppendStage::Read,
    ensures
        append_next(s, ReplyModel::Data(data)) matches AppendStepModel::Continue(next) && (
        next.stage == AppendStage::Write ==> next.data == data && 0 < data.len() <= s.chunk
            && append_request(next) == (CallModel::WriteData { data })),
{
}

/// A refused write of data is reported: when the engine answers a write of
/// data with a negative status, a faithful run that ends does so as failed,
/// with an engine failure that carries the engine's diagnostic text, and
/// after the header record was released.
pub proof fn refused_data_write_fails(s: AppendingModel, replies: Seq<ReplyModel>, count: i64)
    requires
        s.stage == AppendStage::Write,
        replies.len() > 0,
        replies[0] == ReplyModel::Written(count),
        count < 0,
        faithful(s, replies),
        !(append_run(s, replies) is Continue),
    ensures
        replies.len() == 3,
        replies[1] is Text,
        append_run(s, replies) == AppendStepModel::Failed(
            engine_failure(diagnostic_text(replies[1]->Text_0)),
        ),
        append_run(s, replies)->Failed_0.kind == ErrorKind::LibArchive,
        append_calls(s, replies) == seq![
            CallModel::WriteData { data: s.data },
            CallModel::ErrorString,
            CallModel::ReleaseEntry,
        ],
{
    let diagnosing = append_at(s, AppendStage::Diagnose);
    let r1 = replies.drop_first();
    assert(append_next(s, replies[0]) == AppendStepModel::Continue(diagnosing));
    assert(append_run(s, replies) == append_run(diagnosing, r1));
    assert(faithful(diagnosing, r1));
    assert(r1.len() > 0);
    assert(r1[0] == replies[1]);
    assert(answers(append_request(diagnosing), r1[0]));
    let text = r1[0]->Text_0;
    let failure = engine_failure(diagnostic_text(text));
    let freeing = releasing(diagnosing, Some(failure));
    let r2 = r1.drop_first();
    assert(append_next(diagnosing, r1[0]) == AppendStepModel::Continue(freeing));
    assert(append_run(diagnosing, r1) == append_run(freeing, r2));
    assert(faithful(freeing, r2));
    assert(r2.len() > 0);
    assert(answers(append_request(freeing), r2[0]));
    assert(append_next(freeing, r2[0]) == AppendStepModel::Failed(failure));
    assert(r2.len() == 1);
    assert(append_calls(freeing, r2) =~= seq![CallModel::ReleaseEntry]);
    assert(append_calls(diagnosing, r1) =~= seq![CallModel::ErrorString, CallModel::ReleaseEntry]);
    assert(append_calls(s, replies) =~= seq![
        CallModel::WriteData { data: s.data },
        CallModel::ErrorString,
        CallModel::ReleaseEntry,
    ]);
}

} // verus!
