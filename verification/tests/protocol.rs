use libarchive::append::{AppendStep, Appending};
use libarchive::archive::{block_size_for, Archive, Mode, OpenStep, Opening};
use libarchive::engine::{Call, Reply, ARCHIVE_OK, DEFAULT_BLOCK_SIZE};
use libarchive::entries::{Advance, Entries};
use libarchive::error::{Error, ErrorKind};

/// An engine in memory: it keeps what was written to it as a list of paths
/// with their bytes, and reads that list back.
struct Engine {
    stored: Vec<(String, Vec<u8>)>,
    cursor: usize,
    record_path: Option<String>,
    record_regular: bool,
    live_records: i32,
    live_contexts: i32,
    released_read: usize,
    released_write: usize,
    allocation_fails: bool,
    format_status: i32,
    open_status: i32,
    header_status: i32,
    data_status: Option<i64>,
    diagnostic: String,
    source: Vec<u8>,
    source_at: usize,
    source_fails_at: Option<usize>,
    calls: Vec<Call>,
}

fn engine() -> Engine {
    Engine {
        stored: Vec::new(),
        cursor: 0,
        record_path: None,
        record_regular: false,
        live_records: 0,
        live_contexts: 0,
        released_read: 0,
        released_write: 0,
        allocation_fails: false,
        format_status: ARCHIVE_OK,
        open_status: ARCHIVE_OK,
        header_status: ARCHIVE_OK,
        data_status: None,
        diagnostic: String::new(),
        source: Vec::new(),
        source_at: 0,
        source_fails_at: None,
        calls: Vec::new(),
    }
}

fn perform(e: &mut Engine, call: Call) -> Reply {
    e.calls.push(call.clone());
    match call {
        Call::AllocateRead | Call::AllocateWrite => {
            if e.allocation_fails {
                Reply::Allocated(false)
            } else {
                e.live_contexts += 1;
                Reply::Allocated(true)
            }
        }
        Call::EnableAllFilters | Call::EnableAllFormats => Reply::Done,
        Call::OpenForReading { .. } | Call::OpenForWriting { .. } => Reply::Status(e.open_status),
        Call::SelectFormatByExtension { .. } => Reply::Status(e.format_status),
        Call::ReadNextHeader => {
            if e.cursor < e.stored.len() {
                e.cursor += 1;
                Reply::Status(ARCHIVE_OK)
            } else {
                Reply::Status(1)
            }
        }
        Call::EntryPathname => Reply::Text(e.stored[e.cursor - 1].0.clone()),
        Call::AllocateEntry => {
            if e.allocation_fails {
                Reply::Allocated(false)
            } else {
                e.live_records += 1;
                e.record_path = None;
                e.record_regular = false;
                Reply::Allocated(true)
            }
        }
        Call::SetEntryRegularFile => {
            e.record_regular = true;
            Reply::Done
        }
        Call::SetEntryPathname { path } => {
            e.record_path = Some(path);
            Reply::Done
        }
        Call::WriteHeader => {
            if e.header_status == ARCHIVE_OK {
                assert!(e.record_regular);
                e.stored.push((e.record_path.clone().unwrap(), Vec::new()));
            }
            Reply::Status(e.header_status)
        }
        Call::ReadSource { capacity } => {
            if e.source_fails_at == Some(e.source_at) {
                return Reply::SourceFailed(String::from("source went away"));
            }
            let end = std::cmp::min(e.source.len(), e.source_at + capacity);
            let chunk = e.source[e.source_at..end].to_vec();
            e.source_at = end;
            Reply::Data(chunk)
        }
        Call::WriteData { data } => match e.data_status {
            Some(status) => Reply::Written(status),
            None => {
                e.stored.last_mut().unwrap().1.extend_from_slice(&data);
                Reply::Written(data.len() as i64)
            }
        },
        Call::ReleaseEntry => {
            e.live_records -= 1;
            Reply::Done
        }
        Call::ReleaseRead => {
            e.live_contexts -= 1;
            e.released_read += 1;
            Reply::Done
        }
        Call::ReleaseWrite => {
            e.live_contexts -= 1;
            e.released_write += 1;
            Reply::Done
        }
        Call::ErrorString => Reply::Text(e.diagnostic.clone()),
    }
}

fn run_open(e: &mut Engine, start: Result<Opening, Error>) -> Result<Archive, Error> {
    let mut state = start?;
    loop {
        let reply = perform(e, state.request());
        match state.advance(reply) {
            OpenStep::Continue(next) => state = next,
            OpenStep::Opened(archive) => return Ok(archive),
            OpenStep::Failed(error) => return Err(error),
        }
    }
}

fn run_append(e: &mut Engine, start: Appending, source: &[u8]) -> Result<(), Error> {
    e.source = source.to_vec();
    e.source_at = 0;
    let mut state = start;
    loop {
        let reply = perform(e, state.request());
        match state.advance(reply) {
            AppendStep::Continue(next) => state = next,
            AppendStep::Appended => return Ok(()),
            AppendStep::Failed(error) => return Err(error),
        }
    }
}

fn next_entry(e: &mut Engine, entries: &mut Entries) -> Option<String> {
    loop {
        let reply = match entries.request() {
            Some(call) => perform(e, call),
            None => Reply::Done,
        };
        match entries.next(reply) {
            Advance::Pending => (),
            Advance::Item(entry) => return Some(entry.path()),
            Advance::End => return None,
        }
    }
}

fn paths(e: &mut Engine, entries: &mut Entries) -> Vec<String> {
    let mut found = Vec::new();
    while let Some(path) = next_entry(e, entries) {
        found.push(path);
    }
    found
}

fn store(e: &mut Engine, path: &str, bytes: &[u8]) {
    e.stored.push((String::from(path), bytes.to_vec()));
}

#[test]
fn archive_read_entries() {
    let mut e = engine();
    store(&mut e, "src/", b"");
    store(&mut e, "src/foo", b"foo\n");
    store(&mut e, "src/bar", b"bar\n");
    store(&mut e, "src/baz", b"baz\n");

    let archive = run_open(&mut e, Archive::open("src.tar.gz", Some(4096))).unwrap();
    let mut entries = archive.entries().unwrap();
    let entries: Vec<String> = paths(&mut e, &mut entries);

    assert_eq!(4, entries.len());
    assert!(entries.iter().any(|path| path == "src/"));
    assert!(entries.iter().any(|path| path == "src/foo"));
    assert!(entries.iter().any(|path| path == "src/bar"));
    assert!(entries.iter().any(|path| path == "src/baz"));
}

#[test]
fn archive_append_file() {
    let mut e = engine();
    let mut archive = run_open(&mut e, Archive::create("src.tar.gz")).unwrap();

    let foo = archive.append_file("src/foo", Some(4096)).unwrap();
    run_append(&mut e, foo, b"foo\n").unwrap();
    let bar = archive.append_file("src/bar", Some(4096)).unwrap();
    run_append(&mut e, bar, b"bar\n").unwrap();
    let baz = archive.append_file("src/baz", Some(4096)).unwrap();
    run_append(&mut e, baz, b"baz\n").unwrap();

    perform(&mut e, archive.teardown());

    let listed: Vec<&str> = e.stored.iter().map(|(path, _)| path.as_str()).collect();
    assert!(listed.contains(&"src/foo"));
    assert!(listed.contains(&"src/bar"));
    assert!(listed.contains(&"src/baz"));
    assert_eq!(0, e.live_records);
    assert_eq!(0, e.live_contexts);
}

#[test]
fn block_size_follows_the_storage() {
    assert_eq!(4096, block_size_for(Some(4096)));
    assert_eq!(1, block_size_for(Some(1)));
    assert_eq!(512, block_size_for(Some(512)));
}

#[test]
fn block_size_falls_back_to_the_default() {
    assert_eq!(65536, DEFAULT_BLOCK_SIZE);
    assert_eq!(65536, block_size_for(None));
    assert_eq!(65536, block_size_for(Some(0)));
}

#[test]
fn open_asks_the_engine_in_order() {
    let mut e = engine();
    let archive = run_open(&mut e, Archive::open("a.zip", Some(512))).unwrap();
    assert_eq!(
        vec![
            Call::AllocateRead,
            Call::EnableAllFilters,
            Call::EnableAllFormats,
            Call::OpenForReading { source: Some(String::from("a.zip")), block_size: 512 },
        ],
        e.calls
    );
    assert_eq!(Mode::Read, archive.mode());
    assert_eq!(512, archive.block_size());
}

#[test]
fn open_without_a_storage_block_size_uses_the_default() {
    let mut e = engine();
    let archive = run_open(&mut e, Archive::open("a.zip", None)).unwrap();
    assert_eq!(65536, archive.block_size());
    assert_eq!(
        Call::OpenForReading { source: Some(String::from("a.zip")), block_size: 65536 },
        e.calls[3]
    );
}

#[test]
fn stdin_names_no_file_and_uses_the_default() {
    let mut e = engine();
    let archive = run_open(&mut e, Ok(Archive::stdin())).unwrap();
    assert_eq!(
        vec![
            Call::AllocateRead,
            Call::EnableAllFilters,
            Call::EnableAllFormats,
            Call::OpenForReading { source: None, block_size: 65536 },
        ],
        e.calls
    );
    assert_eq!(Mode::Read, archive.mode());
    assert_eq!(65536, archive.block_size());
}

#[test]
fn create_selects_the_format_by_extension() {
    let mut e = engine();
    let archive = run_open(&mut e, Archive::create("out.tar.gz")).unwrap();
    assert_eq!(
        vec![
            Call::AllocateWrite,
            Call::SelectFormatByExtension { path: String::from("out.tar.gz") },
            Call::OpenForWriting { path: String::from("out.tar.gz") },
        ],
        e.calls
    );
    assert_eq!(Mode::Write, archive.mode());
    assert_eq!(65536, archive.block_size());
}

#[test]
fn open_of_a_missing_file_fails_with_the_engine_text() {
    let mut e = engine();
    e.open_status = -30;
    e.diagnostic = String::from("Failed to open 'nowhere.tar'");
    let failed = run_open(&mut e, Archive::open("nowhere.tar", None)).unwrap_err();
    assert_eq!(ErrorKind::LibArchive, failed.kind);
    assert_eq!("Failed to open 'nowhere.tar'", failed.message);
    assert_eq!(
        vec![
            Call::AllocateRead,
            Call::EnableAllFilters,
            Call::EnableAllFormats,
            Call::OpenForReading { source: Some(String::from("nowhere.tar")), block_size: 65536 },
            Call::ErrorString,
            Call::ReleaseRead,
        ],
        e.calls
    );
    assert_eq!(0, e.live_contexts);
    assert_eq!(1, e.released_read);
}

#[test]
fn open_fails_on_a_warning_status_too() {
    let mut e = engine();
    e.open_status = -20;
    e.diagnostic = String::from("Unrecognized archive format");
    let failed = run_open(&mut e, Archive::open("notes.txt", Some(4096))).unwrap_err();
    assert_eq!(ErrorKind::LibArchive, failed.kind);
    assert_eq!("Unrecognized archive format", failed.message);
}

#[test]
fn allocation_failure_is_reported_without_asking_the_engine() {
    let mut e = engine();
    e.allocation_fails = true;
    let failed = run_open(&mut e, Archive::open("a.tar", None)).unwrap_err();
    assert_eq!(Error::new("archive allocation error"), failed);
    assert_eq!(vec![Call::AllocateRead], e.calls);

    let mut e = engine();
    e.allocation_fails = true;
    let failed = run_open(&mut e, Archive::create("a.tar")).unwrap_err();
    assert_eq!(ErrorKind::LibArchive, failed.kind);
    assert_eq!("archive allocation error", failed.message);
    assert_eq!(vec![Call::AllocateWrite], e.calls);
}

#[test]
fn create_with_an_unknown_extension_fails() {
    let mut e = engine();
    e.format_status = -30;
    e.diagnostic = String::from("No such format 'out.unknown'");
    let failed = run_open(&mut e, Archive::create("out.unknown")).unwrap_err();
    assert_eq!(ErrorKind::LibArchive, failed.kind);
    assert_eq!("No such format 'out.unknown'", failed.message);
    assert_eq!(
        vec![
            Call::AllocateWrite,
            Call::SelectFormatByExtension { path: String::from("out.unknown") },
            Call::ErrorString,
            Call::ReleaseWrite,
        ],
        e.calls
    );
    assert_eq!(0, e.live_contexts);
    assert_eq!(1, e.released_write);
}

#[test]
fn create_fails_when_the_destination_cannot_be_opened() {
    let mut e = engine();
    e.open_status = -30;
    e.diagnostic = String::from("Failed to open '/nowhere/out.tar'");
    let failed = run_open(&mut e, Archive::create("/nowhere/out.tar")).unwrap_err();
    assert_eq!(ErrorKind::LibArchive, failed.kind);
    assert_eq!("Failed to open '/nowhere/out.tar'", failed.message);
    assert_eq!(Some(&Call::ReleaseWrite), e.calls.last());
    assert_eq!(0, e.live_contexts);
}

#[test]
fn an_answer_of_the_wrong_shape_changes_nothing() {
    let opening = Archive::open("a.tar", None).unwrap();
    let opening = match opening.advance(Reply::Status(ARCHIVE_OK)) {
        OpenStep::Continue(same) => same,
        _ => panic!("the opening ended"),
    };
    assert_eq!(Call::AllocateRead, opening.request());
    let opening = match opening.advance(Reply::Text(String::from("x"))) {
        OpenStep::Continue(same) => same,
        _ => panic!("the opening ended"),
    };
    assert_eq!(Call::AllocateRead, opening.request());
}

#[test]
fn entries_of_a_write_archive_are_refused() {
    let mut e = engine();
    let archive = run_open(&mut e, Archive::create("out.tar")).unwrap();
    let (mut archive, refused) = archive.entries().unwrap_err();
    assert_eq!(ErrorKind::LibArchive, refused.kind);
    assert_eq!("archive is not open for reading", refused.message);
    assert_eq!(Mode::Write, archive.mode());
    let appending = archive.append_file("still/here", None).unwrap();
    run_append(&mut e, appending, b"ok").unwrap();
    assert_eq!(Call::ReleaseWrite, archive.teardown());
}

#[test]
fn append_to_a_read_archive_is_refused() {
    let mut e = engine();
    let mut archive = run_open(&mut e, Archive::open("in.tar", None)).unwrap();
    let calls = e.calls.len();
    let refused = archive.append_file("x", None).unwrap_err();
    assert_eq!(ErrorKind::LibArchive, refused.kind);
    assert_eq!("archive is not open for writing", refused.message);
    assert_eq!(calls, e.calls.len());
    assert_eq!(Mode::Read, archive.mode());
}

#[test]
fn teardown_matches_the_mode() {
    let mut e = engine();
    let reader = run_open(&mut e, Archive::open("in.tar", None)).unwrap();
    assert_eq!(Call::ReleaseRead, reader.teardown());
    let writer = run_open(&mut e, Archive::create("out.tar")).unwrap();
    assert_eq!(Call::ReleaseWrite, writer.teardown());
    let reader = run_open(&mut e, Ok(Archive::stdin())).unwrap();
    let entries = reader.entries().unwrap();
    assert_eq!(Call::ReleaseRead, entries.teardown());
}

#[test]
fn entries_come_in_stored_order() {
    let mut e = engine();
    store(&mut e, "b", b"1");
    store(&mut e, "a", b"2");
    store(&mut e, "c", b"3");
    let archive = run_open(&mut e, Archive::open("in.tar", Some(1024))).unwrap();
    let mut entries = archive.entries().unwrap();
    assert_eq!(1024, entries.block_size());
    assert_eq!(Some(Call::ReadNextHeader), entries.request());
    assert_eq!(vec!["b", "a", "c"], paths(&mut e, &mut entries));
}

#[test]
fn an_empty_archive_has_no_entries() {
    let mut e = engine();
    let archive = run_open(&mut e, Archive::open("empty.tar", None)).unwrap();
    let mut entries = archive.entries().unwrap();
    assert!(!entries.is_exhausted());
    assert_eq!(None, next_entry(&mut e, &mut entries));
    assert!(entries.is_exhausted());
}

#[test]
fn a_header_is_followed_by_its_pathname() {
    let mut e = engine();
    let archive = run_open(&mut e, Archive::open("in.tar", None)).unwrap();
    let mut entries = archive.entries().unwrap();
    assert!(matches!(entries.next(Reply::Status(ARCHIVE_OK)), Advance::Pending));
    assert_eq!(Some(Call::EntryPathname), entries.request());
    assert!(matches!(entries.next(Reply::Done), Advance::Pending));
    assert_eq!(Some(Call::EntryPathname), entries.request());
    match entries.next(Reply::Text(String::from("dir/file"))) {
        Advance::Item(entry) => assert_eq!("dir/file", entry.path()),
        _ => panic!("no item"),
    }
    assert_eq!(Some(Call::ReadNextHeader), entries.request());
}

#[test]
fn exhaustion_is_sticky() {
    let mut e = engine();
    store(&mut e, "only", b"");
    let archive = run_open(&mut e, Archive::open("in.tar", None)).unwrap();
    let mut entries = archive.entries().unwrap();
    assert_eq!(Some(String::from("only")), next_entry(&mut e, &mut entries));
    assert_eq!(None, next_entry(&mut e, &mut entries));
    let calls = e.calls.len();
    assert_eq!(None, entries.request());
    assert!(matches!(entries.next(Reply::Status(ARCHIVE_OK)), Advance::End));
    assert!(matches!(entries.next(Reply::Text(String::from("late"))), Advance::End));
    assert!(matches!(entries.next(Reply::Done), Advance::End));
    assert_eq!(None, next_entry(&mut e, &mut entries));
    assert_eq!(None, entries.request());
    assert!(entries.is_exhausted());
    assert_eq!(calls, e.calls.len());
}

#[test]
fn a_read_error_ends_the_iteration_like_the_end_of_the_archive() {
    let mut e = engine();
    let archive = run_open(&mut e, Archive::open("in.tar", None)).unwrap();
    let mut entries = archive.entries().unwrap();
    assert!(matches!(entries.next(Reply::Status(-30)), Advance::End));
    assert!(entries.is_exhausted());

    let archive = run_open(&mut e, Archive::open("in.tar", None)).unwrap();
    let mut entries = archive.entries().unwrap();
    assert!(matches!(entries.next(Reply::Status(-20)), Advance::End));
    assert!(entries.is_exhausted());
}

#[test]
fn append_asks_the_engine_in_order() {
    let mut e = engine();
    let mut archive = run_open(&mut e, Archive::create("out.tar")).unwrap();
    e.calls.clear();
    let appending = archive.append_file("x/foo", Some(3)).unwrap();
    run_append(&mut e, appending, b"foo\nbar").unwrap();
    assert_eq!(
        vec![
            Call::AllocateEntry,
            Call::SetEntryRegularFile,
            Call::SetEntryPathname { path: String::from("x/foo") },
            Call::WriteHeader,
            Call::ReadSource { capacity: 3 },
            Call::WriteData { data: b"foo".to_vec() },
            Call::ReadSource { capacity: 3 },
            Call::WriteData { data: b"\nba".to_vec() },
            Call::ReadSource { capacity: 3 },
            Call::WriteData { data: b"r".to_vec() },
            Call::ReadSource { capacity: 3 },
            Call::ReleaseEntry,
        ],
        e.calls
    );
    assert_eq!(vec![(String::from("x/foo"), b"foo\nbar".to_vec())], e.stored);
}

#[test]
fn append_of_an_empty_source_writes_the_header_alone() {
    let mut e = engine();
    let mut archive = run_open(&mut e, Archive::create("out.tar")).unwrap();
    e.calls.clear();
    let appending = archive.append_file("empty", None).unwrap();
    run_append(&mut e, appending, b"").unwrap();
    assert_eq!(
        vec![
            Call::AllocateEntry,
            Call::SetEntryRegularFile,
            Call::SetEntryPathname { path: String::from("empty") },
            Call::WriteHeader,
            Call::ReadSource { capacity: 65536 },
            Call::ReleaseEntry,
        ],
        e.calls
    );
    assert_eq!(vec![(String::from("empty"), Vec::new())], e.stored);
}

#[test]
fn a_refused_header_fails_after_the_record_is_released() {
    let mut e = engine();
    let mut archive = run_open(&mut e, Archive::create("out.tar")).unwrap();
    e.calls.clear();
    e.header_status = -25;
    e.diagnostic = String::from("Can't write header");
    let appending = archive.append_file("x", None).unwrap();
    let failed = run_append(&mut e, appending, b"data").unwrap_err();
    assert_eq!(ErrorKind::LibArchive, failed.kind);
    assert_eq!("Can't write header", failed.message);
    assert_eq!(
        vec![
            Call::AllocateEntry,
            Call::SetEntryRegularFile,
            Call::SetEntryPathname { path: String::from("x") },
            Call::WriteHeader,
            Call::ErrorString,
            Call::ReleaseEntry,
        ],
        e.calls
    );
    assert_eq!(0, e.live_records);
}

#[test]
fn a_failing_source_gives_an_io_error_after_the_record_is_released() {
    let mut e = engine();
    let mut archive = run_open(&mut e, Archive::create("out.tar")).unwrap();
    e.calls.clear();
    e.source_fails_at = Some(4);
    let appending = archive.append_file("x", Some(4)).unwrap();
    let failed = run_append(&mut e, appending, b"12345678").unwrap_err();
    assert_eq!(ErrorKind::Io, failed.kind);
    assert_eq!("source went away", failed.message);
    assert_eq!(Some(&Call::ReleaseEntry), e.calls.last());
    assert_eq!(0, e.live_records);
    assert_eq!(vec![(String::from("x"), b"1234".to_vec())], e.stored);
}

#[test]
fn a_record_that_cannot_be_allocated_fails_the_append() {
    let mut e = engine();
    let mut archive = run_open(&mut e, Archive::create("out.tar")).unwrap();
    e.calls.clear();
    e.allocation_fails = true;
    let appending = archive.append_file("x", None).unwrap();
    let failed = run_append(&mut e, appending, b"data").unwrap_err();
    assert_eq!(Error::new("archive allocation error"), failed);
    assert_eq!(vec![Call::AllocateEntry], e.calls);
}

#[test]
fn appended_files_are_read_back_in_order() {
    let mut e = engine();
    let mut archive = run_open(&mut e, Archive::create("d.tar.gz")).unwrap();
    let foo = archive.append_file("x/foo", Some(4096)).unwrap();
    run_append(&mut e, foo, b"foo\n").unwrap();
    let bar = archive.append_file("x/bar", Some(4096)).unwrap();
    run_append(&mut e, bar, b"bar\n").unwrap();
    perform(&mut e, archive.teardown());
    assert_eq!(1, e.released_write);
    assert_eq!(0, e.released_read);

    let archive = run_open(&mut e, Archive::open("d.tar.gz", Some(4096))).unwrap();
    let mut entries = archive.entries().unwrap();
    assert_eq!(vec!["x/foo", "x/bar"], paths(&mut e, &mut entries));
    assert_eq!(b"foo\n".to_vec(), e.stored[0].1);
    assert_eq!(b"bar\n".to_vec(), e.stored[1].1);
    perform(&mut e, entries.teardown());
    assert_eq!(1, e.released_read);
    assert_eq!(0, e.live_contexts);
}

#[test]
fn many_files_keep_their_order_and_bytes() {
    let mut e = engine();
    let mut archive = run_open(&mut e, Archive::create("many.zip")).unwrap();
    let mut expected = Vec::new();
    for i in 0..20u8 {
        let path = format!("dir/file{}", i);
        let bytes: Vec<u8> = (0..i).map(|b| b.wrapping_mul(7)).collect();
        let appending = archive.append_file(&path, Some(5)).unwrap();
        run_append(&mut e, appending, &bytes).unwrap();
        expected.push((path, bytes));
    }
    assert_eq!(expected, e.stored);
    perform(&mut e, archive.teardown());
    let archive = run_open(&mut e, Archive::open("many.zip", None)).unwrap();
    let mut entries = archive.entries().unwrap();
    let read = paths(&mut e, &mut entries);
    assert_eq!(20, read.len());
    for (i, path) in read.iter().enumerate() {
        assert_eq!(&expected[i].0, path);
    }
}

#[test]
fn a_path_with_a_nul_is_refused_before_the_engine_is_asked() {
    let mut e = engine();
    let failed = run_open(&mut e, Archive::open("a\0b.tar", Some(4096))).unwrap_err();
    assert_eq!(ErrorKind::LibArchive, failed.kind);
    assert_eq!("path contains a NUL character", failed.message);
    let failed = run_open(&mut e, Archive::create("out.tar\0")).unwrap_err();
    assert_eq!(Error::new("path contains a NUL character"), failed);
    assert!(e.calls.is_empty());
    assert!(Archive::open("", None).is_ok());
    assert!(Archive::create("plain.tar").is_ok());
}

#[test]
fn a_logical_path_with_a_nul_is_refused() {
    let mut e = engine();
    let mut archive = run_open(&mut e, Archive::create("out.tar")).unwrap();
    e.calls.clear();
    let refused = archive.append_file("x\0y", None).unwrap_err();
    assert_eq!(Error::new("path contains a NUL character"), refused);
    assert!(e.calls.is_empty());
    let mut reader = run_open(&mut e, Archive::open("in.tar", None)).unwrap();
    let refused = reader.append_file("x\0y", None).unwrap_err();
    assert_eq!("archive is not open for writing", refused.message);
}

#[test]
fn a_refused_data_write_fails_after_the_record_is_released() {
    let mut e = engine();
    let mut archive = run_open(&mut e, Archive::create("out.tar")).unwrap();
    e.calls.clear();
    e.data_status = Some(-30);
    e.diagnostic = String::from("Write error");
    let appending = archive.append_file("x", Some(4)).unwrap();
    let failed = run_append(&mut e, appending, b"12345678").unwrap_err();
    assert_eq!(ErrorKind::LibArchive, failed.kind);
    assert_eq!("Write error", failed.message);
    assert_eq!(
        vec![
            Call::AllocateEntry,
            Call::SetEntryRegularFile,
            Call::SetEntryPathname { path: String::from("x") },
            Call::WriteHeader,
            Call::ReadSource { capacity: 4 },
            Call::WriteData { data: b"1234".to_vec() },
            Call::ErrorString,
            Call::ReleaseEntry,
        ],
        e.calls
    );
    assert_eq!(0, e.live_records);
}

#[test]
fn a_short_write_is_no_failure() {
    let mut e = engine();
    let mut archive = run_open(&mut e, Archive::create("out.tar")).unwrap();
    e.data_status = Some(0);
    let appending = archive.append_file("x", Some(4)).unwrap();
    run_append(&mut e, appending, b"12345678").unwrap();
    assert_eq!(Some(&Call::ReleaseEntry), e.calls.last());
}

#[test]
fn a_failure_without_a_diagnostic_gets_a_message_made_here() {
    let mut e = engine();
    e.open_status = -30;
    let failed = run_open(&mut e, Archive::open("in.tar", None)).unwrap_err();
    assert_eq!(Error::new("unknown archive error"), failed);

    let mut e = engine();
    let mut archive = run_open(&mut e, Archive::create("out.tar")).unwrap();
    e.header_status = -30;
    let appending = archive.append_file("x", None).unwrap();
    let failed = run_append(&mut e, appending, b"").unwrap_err();
    assert_eq!(ErrorKind::LibArchive, failed.kind);
    assert_eq!("unknown archive error", failed.message);
}

#[test]
fn more_bytes_than_were_asked_for_are_not_taken() {
    let mut e = engine();
    let mut archive = run_open(&mut e, Archive::create("out.tar")).unwrap();
    let mut state = archive.append_file("x", Some(2)).unwrap();
    for reply in [Reply::Allocated(true), Reply::Done, Reply::Done, Reply::Status(ARCHIVE_OK)] {
        state = match state.advance(reply) {
            AppendStep::Continue(next) => next,
            _ => panic!("the appending ended"),
        };
    }
    assert_eq!(Call::ReadSource { capacity: 2 }, state.request());
    state = match state.advance(Reply::Data(vec![1, 2, 3])) {
        AppendStep::Continue(next) => next,
        _ => panic!("the appending ended"),
    };
    assert_eq!(Call::ReadSource { capacity: 2 }, state.request());
    state = match state.advance(Reply::Data(vec![1, 2])) {
        AppendStep::Continue(next) => next,
        _ => panic!("the appending ended"),
    };
    assert_eq!(Call::WriteData { data: vec![1, 2] }, state.request());
    state = match state.advance(Reply::Done) {
        AppendStep::Continue(next) => next,
        _ => panic!("the appending ended"),
    };
    assert_eq!(Call::WriteData { data: vec![1, 2] }, state.request());
}
