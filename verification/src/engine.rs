use vstd::prelude::*;

verus! {

/// The status with which the engine reports success.
pub const ARCHIVE_OK: i32 = 0;

/// The chunk size used where the storage names none of its own.
pub const DEFAULT_BLOCK_SIZE: usize = 65536;

/// One operation of the archive engine. Operations on a context or on a
/// header record mean the one that the running protocol has allocated.
#[derive(Clone, Debug, PartialEq, Eq)]
pub enum Call {
    /// Allocate a context for reading.
    AllocateRead,
    /// Allocate a context for writing.
    AllocateWrite,
    /// Enable every decompression filter that the engine has.
    EnableAllFilters,
    /// Enable every container format that the engine has.
    EnableAllFormats,
    /// Open a file for reading; without a path, the standard input.
    OpenForReading { source: Option<String>, block_size: usize },
    /// Choose format and filter by the extension of the file's name.
    SelectFormatByExtension { path: String },
    /// Open the destination for writing.
    OpenForWriting { path: String },
    /// Move the read cursor to the next header.
    ReadNextHeader,
    /// Read the pathname of the header under the cursor.
    EntryPathname,
    /// Allocate a header record.
    AllocateEntry,
    /// Mark the header record as a regular file.
    SetEntryRegularFile,
    /// Set the pathname of the header record.
    SetEntryPathname { path: String },
    /// Write the header record to the archive.
    WriteHeader,
    /// Read up to `capacity` bytes from the source.
    ReadSource { capacity: usize },
    /// Write the bytes to the archive as data of the current entry.
    WriteData { data: Vec<u8> },
    /// Release the header record.
    ReleaseEntry,
    /// Release a context that was allocated for reading.
    ReleaseRead,
    /// Release a context that was allocated for writing.
    ReleaseWrite,
    /// Read the diagnostic text of the last failure.
    ErrorString,
}

/// What a [`Call`] is, over sequences in place of strings and vectors.
pub enum CallModel {
    AllocateRead,
    AllocateWrite,
    EnableAllFilters,
    EnableAllFormats,
    OpenForReading { source: Option<Seq<char>>, block_size: usize },
    SelectFormatByExtension { path: Seq<char> },
    OpenForWriting { path: Seq<char> },
    ReadNextHeader,
    EntryPathname,
    AllocateEntry,
    SetEntryRegularFile,
    SetEntryPathname { path: Seq<char> },
    WriteHeader,
    ReadSource { capacity: usize },
    WriteData { data: Seq<u8> },
    ReleaseEntry,
    ReleaseRead,
    ReleaseWrite,
    ErrorString,
}

impl View for Call {
    type V = CallModel;

    open spec fn view(&self) -> CallModel {
        match *self {
            Call::AllocateRead => CallModel::AllocateRead,
            Call::AllocateWrite => CallModel::AllocateWrite,
            Call::EnableAllFilters => CallModel::EnableAllFilters,
            Call::EnableAllFormats => CallModel::EnableAllFormats,
            Call::OpenForReading { source, block_size } => CallModel::OpenForReading {
                source: match source {
                    Some(p) => Some(p@),
                    None => None,
                },
                block_size,
            },
            Call::SelectFormatByExtension { path } => CallModel::SelectFormatByExtension {
                path: path@,
            },
            Call::OpenForWriting { path } => CallModel::OpenForWriting { path: path@ },
            Call::ReadNextHeader => CallModel::ReadNextHeader,
            Call::EntryPathname => CallModel::EntryPathname,
            Call::AllocateEntry => CallModel::AllocateEntry,
            Call::SetEntryRegularFile => CallModel::SetEntryRegularFile,
            Call::SetEntryPathname { path } => CallModel::SetEntryPathname { path: path@ },
            Call::WriteHeader => CallModel::WriteHeader,
            Call::ReadSource { capacity } => CallModel::ReadSource { capacity },
            Call::WriteData { data } => CallModel::WriteData { data: data@ },
            Call::ReleaseEntry => CallModel::ReleaseEntry,
            Call::ReleaseRead => CallModel::ReleaseRead,
            Call::ReleaseWrite => CallModel::ReleaseWrite,
            Call::ErrorString => CallModel::ErrorString,
        }
    }
}

/// What came back from an operation.
#[derive(Clone, Debug, PartialEq, Eq)]
pub enum Reply {
    /// An allocation: whether the engine handed out what was asked for.
    Allocated(bool),
    /// An operation whose outcome is not looked at has returned.
    Done,
    /// The status that the engine returned.
    Status(i32),
    /// A text that the engine returned.
    Text(String),
    /// What the writing of data returned: the count of bytes taken, or a
    /// negative status where the write failed.
    Written(i64),
    /// The bytes read from the source; none at its end.
    Data(Vec<u8>),
    /// Reading the source failed, with the message of that failure.
    SourceFailed(String),
}

/// What a [`Reply`] is, over sequences in place of strings and vectors.
pub enum ReplyModel {
    Allocated(bool),
    Done,
    Status(i32),
    Text(Seq<char>),
    Written(i64),
    Data(Seq<u8>),
    SourceFailed(Seq<char>),
}

impl View for Reply {
    type V = ReplyModel;

    open spec fn view(&self) -> ReplyModel {
        match *self {
            Reply::Allocated(ok) => ReplyModel::Allocated(ok),
            Reply::Done => ReplyModel::Done,
            Reply::Status(status) => ReplyModel::Status(status),
            Reply::Text(text) => ReplyModel::Text(text@),
            Reply::Written(count) => ReplyModel::Written(count),
            Reply::Data(data) => ReplyModel::Data(data@),
            Reply::SourceFailed(message) => ReplyModel::SourceFailed(message@),
        }
    }
}

/// Whether `r` is an answer that `call` can get: of the shape that the
/// operation returns, and for a read of the source, no more bytes than were
/// asked for.
pub open spec fn answers(call: CallModel, r: ReplyModel) -> bool {
    match call {
        CallModel::AllocateRead | CallModel::AllocateWrite | CallModel::AllocateEntry => r
            is Allocated,
        CallModel::EnableAllFilters
        | CallModel::EnableAllFormats
        | CallModel::SetEntryRegularFile
        | CallModel::SetEntryPathname { .. }
        | CallModel::ReleaseEntry
        | CallModel::ReleaseRead
        | CallModel::ReleaseWrite => r is Done,
        CallModel::OpenForReading { .. }
        | CallModel::SelectFormatByExtension { .. }
        | CallModel::OpenForWriting { .. }
        | CallModel::ReadNextHeader
        | CallModel::WriteHeader => r is Status,
        CallModel::EntryPathname | CallModel::ErrorString => r is Text,
        CallModel::WriteData { .. } => r is Written,
        CallModel::ReadSource { capacity } => match r {
            ReplyModel::Data(data) => data.len() <= capacity,
            ReplyModel::SourceFailed(_) => true,
            _ => false,
        },
    }
}

} // verus!
