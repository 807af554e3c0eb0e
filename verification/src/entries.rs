use vstd::prelude::*;

use crate::archive::{release_of, Archive, ArchiveModel, Mode};
use crate::engine::{answers, Call, CallModel, Reply, ReplyModel, ARCHIVE_OK};

verus! {

/// Where an iteration stands: the operation that is pending, if any.
#[derive(Copy, Clone, Debug, PartialEq, Eq, Structural)]
pub enum EntriesStage {
    /// The next header is to be read.
    Header,
    /// A header was read, and its pathname is to be copied out.
    Pathname,
    /// The archive has no more entries to give.
    Exhausted,
}

/// One item of an archive, with what was copied out of the engine's record
/// when the item was reached.
#[derive(Clone, Debug, PartialEq, Eq)]
pub struct Entry {
    path: String,
}

impl View for Entry {
    type V = Seq<char>;

    closed spec fn view(&self) -> Seq<char> {
        self.path@
    }
}

impl Entry {
    /// The pathname of the entry.
    pub fn path(&self) -> (path: String)
        ensures
            path@ == self@,
    {
        self.path.clone()
    }
}

/// A single pass over the entries of an archive, which it owns.
#[derive(Debug)]
pub struct Entries {
    archive: Archive,
    stage: EntriesStage,
}

/// What an [`Entries`] is.
pub struct EntriesModel {
    pub archive: ArchiveModel,
    pub stage: EntriesStage,
}

impl View for Entries {
    type V = EntriesModel;

    closed spec fn view(&self) -> EntriesModel {
        EntriesModel { archive: self.archive@, stage: self.stage }
    }
}

/// What one answer of the engine leads to during an iteration.
#[derive(Debug)]
pub enum Advance {
    /// Another operation is pending before the next item.
    Pending,
    /// The next item.
    Item(Entry),
    /// There are no more items.
    End,
}

/// What an [`Advance`] is.
pub enum AdvanceModel {
    Pending,
    Item(Seq<char>),
    End,
}

impl View for Advance {
    type V = AdvanceModel;

    open spec fn view(&self) -> AdvanceModel {
        match *self {
            Advance::Pending => AdvanceModel::Pending,
            Advance::Item(entry) => AdvanceModel::Item(entry@),
            Advance::End => AdvanceModel::End,
        }
    }
}

/// The operation that is pending at a stage; none once exhausted.
pub open spec fn entries_request(stage: EntriesStage) -> Option<CallModel> {
    match stage {
        EntriesStage::Header => Some(CallModel::ReadNextHeader),
        EntriesStage::Pathname => Some(CallModel::EntryPathname),
        EntriesStage::Exhausted => None,
    }
}

/// The stage that follows `stage` on the answer `r`, and what the step
/// yields. Any status but success ends the iteration for good. An answer that
/// the pending operation cannot give changes nothing.
pub open spec fn entries_next(stage: EntriesStage, r: ReplyModel) -> (EntriesStage, AdvanceModel) {
    match (stage, r) {
        (EntriesStage::Exhausted, _) => (EntriesStage::Exhausted, AdvanceModel::End),
        (EntriesStage::Header, ReplyModel::Status(status)) => if status == ARCHIVE_OK {
            (EntriesStage::Pathname, AdvanceModel::Pending)
        } else {
            (EntriesStage::Exhausted, AdvanceModel::End)
        },
        (EntriesStage::Pathname, ReplyModel::Text(path)) => (
            EntriesStage::Header,
            AdvanceModel::Item(path),
        ),
        _ => (stage, AdvanceModel::Pending),
    }
}

impl Entries {
    #[verifier::type_invariant]
    spec fn reads(self) -> bool {
        self.archive@.mode == Mode::Read
    }

    pub(crate) fn new(archive: Archive) -> (entries: Entries)
        requires
            archive@.mode == Mode::Read,
        ensures
            entries@ == (EntriesModel { archive: archive@, stage: EntriesStage::Header }),
    {
        Entries { archive, stage: EntriesStage::Header }
    }

    /// The operation to perform now; none once the iteration is exhausted.
    pub fn request(&self) -> (call: Option<Call>)
        ensures
            match call {
                Some(c) => entries_request(self@.stage) == Some(c@),
                None => entries_request(self@.stage).is_none(),
            },
    {
        match self.stage {
            EntriesStage::Header => Some(Call::ReadNextHeader),
            EntriesStage::Pathname => Some(Call::EntryPathname),
            EntriesStage::Exhausted => None,
        }
    }

    /// Whether the iteration has ended.
    pub fn is_exhausted(&self) -> (done: bool)
        ensures
            done == (self@.stage == EntriesStage::Exhausted),
    {
        match self.stage {
            EntriesStage::Exhausted => true,
            _ => false,
        }
    }

    /// The chunk size of the archive that is iterated.
    pub fn block_size(&self) -> (size: usize)
        ensures
            size == self@.archive.block_size,
            size > 0,
    {
        self.archive.block_size()
    }

    /// Takes the answer to the pending operation and moves on.
    pub fn next(&mut self, reply: Reply) -> (step: Advance)
        ensures
            final(self)@.archive == old(self)@.archive,
            (final(self)@.stage, step@) == entries_next(old(self)@.stage, reply@),
    {
        proof {
            use_type_invariant(&*self);
        }
        match self.stage {
            EntriesStage::Exhausted => Advance::End,
            EntriesStage::Header => match reply {
                Reply::Status(status) => {
                    if status == ARCHIVE_OK {
                        self.stage = EntriesStage::Pathname;
                        Advance::Pending
                    } else {
                        self.stage = EntriesStage::Exhausted;
                        Advance::End
                    }
                },
                _ => Advance::Pending,
            },
            EntriesStage::Pathname => match reply {
                Reply::Text(path) => {
                    self.stage = EntriesStage::Header;
                    Advance::Item(Entry { path })
                },
                _ => Advance::Pending,
            },
        }
    }

    /// Ends the iteration and with it the archive's life: the operation that
    /// releases the read context.
    pub fn teardown(self) -> (call: Call)
        ensures
            call@ == CallModel::ReleaseRead,
            call@ == release_of(self@.archive.mode),
    {
        proof {
            use_type_invariant(&self);
        }
        self.archive.teardown()
    }
}

/// Whether `r` is a status other than success.
pub open spec fn refuses(r: ReplyModel) -> bool {
    match r {
        ReplyModel::Status(status) => status != ARCHIVE_OK,
        _ => false,
    }
}

/// The stage that an iteration at `stage` has reached after the answers
/// `replies`, taken one after the other.
pub open spec fn entries_stage_after(stage: EntriesStage, replies: Seq<ReplyModel>) -> EntriesStage
    decreases replies.len(),
{
    if replies.len() == 0 {
        stage
    } else {
        entries_stage_after(entries_next(stage, replies[0]).0, replies.drop_first())
    }
}

/// The pathnames of the items that an iteration at `stage` yields over the
/// answers `replies`, in the order in which it yields them.
pub open spec fn entries_items(stage: EntriesStage, replies: Seq<ReplyModel>) -> Seq<Seq<char>>
    decreases replies.len(),
{
    if replies.len() == 0 {
        Seq::empty()
    } else {
        let step = entries_next(stage, replies[0]);
        let first = match step.1 {
            AdvanceModel::Item(path) => seq![path],
            _ => Seq::empty(),
        };
        first + entries_items(step.0, replies.drop_first())
    }
}

/// The answers of an engine that reads an archive whose entries have the
/// pathnames `paths`: a success status and the pathname for each, then the
/// status `last`.
pub open spec fn listing(paths: Seq<Seq<char>>, last: i32) -> Seq<ReplyModel>
    decreases paths.len(),
{
    if paths.len() == 0 {
        seq![ReplyModel::Status(last)]
    } else {
        seq![ReplyModel::Status(ARCHIVE_OK), ReplyModel::Text(paths[0])] + listing(
            paths.drop_first(),
            last,
        )
    }
}

/// Exhaustion is final: whatever is answered to an exhausted iteration, it
/// stays exhausted, yields no item and asks for no operation.
pub proof fn exhaustion_is_final(r: ReplyModel)
    ensures
        entries_next(EntriesStage::Exhausted, r) == (EntriesStage::Exhausted, AdvanceModel::End),
        entries_request(EntriesStage::Exhausted).is_none(),
{
}

/// Exhaustion is final however often the iteration is asked again: over any
/// answers an exhausted iteration stays exhausted and yields nothing.
pub proof fn exhaustion_is_sticky(replies: Seq<ReplyModel>)
    ensures
        entries_stage_after(EntriesStage::Exhausted, replies) == EntriesStage::Exhausted,
        entries_items(EntriesStage::Exhausted, replies) == Seq::<Seq<char>>::empty(),
    decreases replies.len(),
{
    if replies.len() > 0 {
        exhaustion_is_sticky(replies.drop_first());
        assert(entries_items(EntriesStage::Exhausted, replies) =~= Seq::<Seq<char>>::empty());
    }
}

/// An iteration ends exactly on a status other than success to the reading
/// of a header, and an item is yielded only for a header that was read.
pub proof fn items_follow_headers(stage: EntriesStage, r: ReplyModel)
    requires
        stage != EntriesStage::Exhausted,
    ensures
        entries_next(stage, r).0 == EntriesStage::Exhausted <==> (stage == EntriesStage::Header
            && refuses(r)),
        entries_next(stage, r).1 is Item ==> stage == EntriesStage::Pathname,
        entries_next(stage, r).0 == EntriesStage::Pathname ==> stage == EntriesStage::Pathname
            || r == ReplyModel::Status(ARCHIVE_OK),
{
}

/// Reading an archive yields its entries, each once and in the archive's
/// order, and then ends: over the answers of an engine that reads entries
/// with the pathnames `paths`, a fresh iteration yields exactly `paths` and
/// is exhausted afterwards.
pub proof fn listed_entries_are_yielded_in_order(paths: Seq<Seq<char>>, last: i32)
    requires
        last != ARCHIVE_OK,
    ensures
        entries_items(EntriesStage::Header, listing(paths, last)) == paths,
        entries_stage_after(EntriesStage::Header, listing(paths, last)) == EntriesStage::Exhausted,
    decreases paths.len(),
{
    let replies = listing(paths, last);
    if paths.len() == 0 {
        assert(replies.drop_first() =~= Seq::<ReplyModel>::empty());
        assert(entries_stage_after(EntriesStage::Exhausted, replies.drop_first())
            == EntriesStage::Exhausted);
        assert(entries_items(EntriesStage::Exhausted, replies.drop_first()) =~= Seq::<
            Seq<char>,
        >::empty());
        assert(entries_items(EntriesStage::Header, replies) =~= paths);
    } else {
        let rest = listing(paths.drop_first(), last);
        listed_entries_are_yielded_in_order(paths.drop_first(), last);
        let after_header = replies.drop_first();
        assert(replies[0] == ReplyModel::Status(ARCHIVE_OK));
        assert(after_header[0] == ReplyModel::Text(paths[0]));
        assert(after_header.drop_first() =~= rest);
        assert(entries_items(EntriesStage::Pathname, after_header) =~= seq![paths[0]]
            + entries_items(EntriesStage::Header, rest));
        assert(entries_stage_after(EntriesStage::Pathname, after_header) == entries_stage_after(
            EntriesStage::Header,
            rest,
        ));
        assert(entries_items(EntriesStage::Header, replies) =~= entries_items(
            EntriesStage::Pathname,
            after_header,
        ));
        assert(seq![paths[0]] + paths.drop_first() =~= paths);
    }
}

/// An answer that the pending operation cannot get changes nothing and
/// yields nothing.
pub proof fn only_answers_move_an_iteration(stage: EntriesStage, call: CallModel, r: ReplyModel)
    requires
        entries_request(stage) == Some(call),
        !answers(call, r),
    ensures
        entries_next(stage, r) == (stage, AdvanceModel::Pending),
{
}

} // verus!
