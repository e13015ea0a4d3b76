use cloud_filter::command::{Command, OperationKind, PlaceholderEntry};
use cloud_filter::error::{CResult, CloudErrorKind};
use cloud_filter::info;
use cloud_filter::keys::KeyPair;
use cloud_filter::session::{Reply, SessionTable};
use cloud_filter::sync_filter::{
    dispatch_cancel_fetch_data, dispatch_dehydrate, dispatch_delete, dispatch_fetch_data,
    dispatch_fetch_placeholders, dispatch_rename, dispatch_validate_data, SyncFilter,
};
use cloud_filter::ticket;

fn request(connection: i64, transfer: i64, file_size: u64) -> info::Request {
    info::Request {
        keys: KeyPair { connection, transfer },
        path: String::from("a/file.bin"),
        file_size,
        process_id: 0,
    }
}

fn wide(name: &str) -> Vec<u16> {
    name.encode_utf16().collect()
}

/// Declines everything; implements nothing beyond the required method.
struct DeclineAll;

impl SyncFilter for DeclineAll {
    fn fetch_data(
        &self,
        _request: &info::Request,
        _ticket: &mut ticket::FetchData,
        _info: &info::FetchData,
    ) -> CResult<()> {
        Err(CloudErrorKind::NotSupported)
    }
}

/// Approves everything it is asked about.
struct ApproveAll;

impl SyncFilter for ApproveAll {
    fn fetch_data(
        &self,
        request: &info::Request,
        ticket: &mut ticket::FetchData,
        _info: &info::FetchData,
    ) -> CResult<()> {
        let buffer = vec![0u8; request.file_size as usize];
        ticket.write_at(&buffer, 0)
    }

    fn validate_data(
        &self,
        request: &info::Request,
        ticket: &mut ticket::ValidateData,
        _info: &info::ValidateData,
    ) -> CResult<()> {
        ticket.pass(0, request.file_size)
    }

    fn fetch_placeholders(
        &self,
        _request: &info::Request,
        ticket: &mut ticket::FetchPlaceholders,
        _info: &info::FetchPlaceholders,
    ) -> CResult<()> {
        ticket.pass_with_placeholder(vec![PlaceholderEntry {
            name: wide("child"),
            size: 10,
            is_directory: false,
        }])
    }

    fn dehydrate(
        &self,
        _request: &info::Request,
        ticket: &mut ticket::Dehydrate,
        _info: &info::Dehydrate,
    ) -> CResult<()> {
        ticket.pass_with_blob(vec![7, 8, 9])
    }

    fn delete(
        &self,
        _request: &info::Request,
        ticket: &mut ticket::Delete,
        _info: &info::Delete,
    ) -> CResult<()> {
        ticket.pass()
    }

    fn rename(
        &self,
        _request: &info::Request,
        ticket: &mut ticket::Rename,
        _info: &info::Rename,
    ) -> CResult<()> {
        ticket.pass()
    }
}

#[test]
fn exactly_one_resolution_per_pair() {
    let mut os = SessionTable::new();
    let keys = KeyPair { connection: 1, transfer: 10 };
    os.begin(keys, OperationKind::Delete, 0).unwrap();
    assert_eq!(os.resolution_count(keys), 0);

    let req = request(1, 10, 0);
    let outcome = dispatch_delete(&ApproveAll, &mut os, &req, &info::Delete { is_directory: false });
    assert!(outcome.resolved_by_handler);
    assert!(!outcome.denial_sent);
    assert_eq!(outcome.replies, vec![Ok(Reply::Done)]);
    assert_eq!(os.resolution_count(keys), 1);

    // A second resolving command for the same pair fails cleanly and the
    // recorded resolution stays exactly as it was.
    let second = os.apply(keys, Command::Delete);
    assert_eq!(second, Err(CloudErrorKind::InvalidArgument));
    assert_eq!(os.resolution_count(keys), 1);
}

#[test]
fn second_resolution_on_one_ticket_is_an_error() {
    let mut t = ticket::Delete::new(1, 11);
    assert_eq!(t.pass(), Ok(()));
    assert!(t.resolved());
    assert_eq!(t.pass(), Err(CloudErrorKind::InvalidArgument));
}

#[test]
fn unimplemented_callbacks_emit_exactly_one_denial() {
    let filter = DeclineAll;
    let mut os = SessionTable::new();

    let cases: Vec<(i64, OperationKind)> = vec![
        (1, OperationKind::FetchData),
        (2, OperationKind::ValidateData),
        (3, OperationKind::FetchPlaceholders),
        (4, OperationKind::Dehydrate),
        (5, OperationKind::Delete),
        (6, OperationKind::Rename),
    ];
    for (transfer, kind) in &cases {
        os.begin(KeyPair { connection: 9, transfer: *transfer }, *kind, 4096).unwrap();
    }

    let outcomes = vec![
        dispatch_fetch_data(
            &filter,
            &mut os,
            &request(9, 1, 4096),
            &info::FetchData { required_offset: 0, required_length: 4096 },
        ),
        dispatch_validate_data(
            &filter,
            &mut os,
            &request(9, 2, 4096),
            &info::ValidateData { offset: 0, length: 4096 },
        ),
        dispatch_fetch_placeholders(
            &filter,
            &mut os,
            &request(9, 3, 4096),
            &info::FetchPlaceholders { pattern: String::from("*") },
        ),
        dispatch_dehydrate(
            &filter,
            &mut os,
            &request(9, 4, 4096),
            &info::Dehydrate { background: false },
        ),
        dispatch_delete(
            &filter,
            &mut os,
            &request(9, 5, 4096),
            &info::Delete { is_directory: false },
        ),
        dispatch_rename(
            &filter,
            &mut os,
            &request(9, 6, 4096),
            &info::Rename { target_path: String::from("b") },
        ),
    ];

    for (outcome, (transfer, _)) in outcomes.iter().zip(cases.iter()) {
        assert!(outcome.denial_sent);
        assert!(!outcome.resolved_by_handler);
        assert_eq!(outcome.handler_result, Err(CloudErrorKind::NotSupported));
        let keys = KeyPair { connection: 9, transfer: *transfer };
        assert_eq!(os.resolution_count(keys), 1);
        match os.resolution_of(keys) {
            Some(cloud_filter::command::Resolution::Denied { error }) => {
                assert_eq!(*error, CloudErrorKind::NotSupported)
            }
            other => panic!("expected a denial, found {:?}", other),
        }
    }
}

#[test]
fn misaligned_write_fails_final_write_succeeds() {
    // File of 4096 + 100 bytes: a 100-byte write in the middle is
    // misaligned and not at end of file.
    let mut t = ticket::FetchData::new(1, 20, 4196);
    let chunk = vec![0u8; 100];
    assert_eq!(t.write_at(&chunk, 0), Err(CloudErrorKind::InvalidArgument));
    assert!(!t.resolved());

    // An aligned write succeeds and does not resolve.
    let aligned = vec![0u8; 4096];
    assert_eq!(t.write_at(&aligned, 0), Ok(()));
    assert!(!t.resolved());

    // The final write covering end of file succeeds regardless of length.
    assert_eq!(t.write_at(&chunk, 4096), Ok(()));
    assert!(t.resolved());
}

#[test]
fn misaligned_write_rejected_by_the_system_too() {
    let mut os = SessionTable::new();
    let keys = KeyPair { connection: 1, transfer: 21 };
    os.begin(keys, OperationKind::FetchData, 8192).unwrap();
    assert_eq!(
        os.apply(keys, Command::Write { position: 0, length: 1000 }),
        Err(CloudErrorKind::InvalidArgument)
    );
    assert_eq!(os.apply(keys, Command::Write { position: 0, length: 4096 }), Ok(Reply::Done));
    assert_eq!(os.resolution_count(keys), 0);
    // Final write: 4096..8192 covers end of file.
    assert_eq!(os.apply(keys, Command::Write { position: 4096, length: 4096 }), Ok(Reply::Done));
    assert_eq!(os.resolution_count(keys), 1);
}

#[test]
fn write_past_end_of_file_is_an_io_error() {
    let mut t = ticket::FetchData::new(1, 22, 4096);
    let chunk = vec![0u8; 4096];
    assert_eq!(t.write_at(&chunk, 1), Err(CloudErrorKind::IoError));
}

#[test]
fn read_is_short_only_at_end_of_file() {
    let mut os = SessionTable::new();
    let keys = KeyPair { connection: 1, transfer: 23 };
    os.begin(keys, OperationKind::FetchData, 5000).unwrap();
    assert_eq!(
        os.apply(keys, Command::Read { position: 0, length: 4096 }),
        Ok(Reply::Data { length: 4096 })
    );
    assert_eq!(
        os.apply(keys, Command::Read { position: 4096, length: 4096 }),
        Ok(Reply::Data { length: 904 })
    );
    assert_eq!(
        os.apply(keys, Command::Read { position: 6000, length: 1 }),
        Err(CloudErrorKind::IoError)
    );
}

#[test]
fn placeholder_outcomes_are_per_entry() {
    let mut os = SessionTable::new();
    let keys = KeyPair { connection: 2, transfer: 30 };
    os.begin(keys, OperationKind::FetchPlaceholders, 0).unwrap();

    let entries = vec![
        PlaceholderEntry { name: wide("a.txt"), size: 1, is_directory: false },
        PlaceholderEntry { name: wide("a.txt"), size: 2, is_directory: false },
        PlaceholderEntry { name: wide("b.txt"), size: 3, is_directory: false },
    ];
    let reply = os.apply(keys, Command::CreatePlaceholders { entries }).unwrap();
    match reply {
        Reply::Created { outcomes } => {
            // The duplicate in the middle fails; entries around it still
            // succeed, with monotonically increasing tokens.
            assert_eq!(
                outcomes,
                vec![Ok(1), Err(CloudErrorKind::IoError), Ok(2)]
            );
        }
        other => panic!("expected per-entry outcomes, found {:?}", other),
    }
    assert_eq!(os.resolution_count(keys), 1);
}

#[test]
fn placeholder_names_persist_across_operations() {
    let mut os = SessionTable::new();
    let first = KeyPair { connection: 2, transfer: 31 };
    let second = KeyPair { connection: 2, transfer: 32 };
    os.begin(first, OperationKind::FetchPlaceholders, 0).unwrap();
    os.begin(second, OperationKind::FetchPlaceholders, 0).unwrap();

    let entry = |n: &str| PlaceholderEntry { name: wide(n), size: 0, is_directory: true };
    match os.apply(first, Command::CreatePlaceholders { entries: vec![entry("docs")] }).unwrap() {
        Reply::Created { outcomes } => assert_eq!(outcomes, vec![Ok(1)]),
        other => panic!("unexpected reply {:?}", other),
    }
    // The same name under the second operation already exists; a fresh
    // name receives the next token.
    match os
        .apply(second, Command::CreatePlaceholders { entries: vec![entry("docs"), entry("img")] })
        .unwrap()
    {
        Reply::Created { outcomes } => {
            assert_eq!(outcomes, vec![Err(CloudErrorKind::IoError), Ok(2)])
        }
        other => panic!("unexpected reply {:?}", other),
    }
}

#[test]
fn dehydration_blob_round_trips_byte_for_byte() {
    let filter = ApproveAll;
    let mut os = SessionTable::new();
    let keys = KeyPair { connection: 3, transfer: 40 };
    os.begin(keys, OperationKind::Dehydrate, 0).unwrap();

    let outcome = dispatch_dehydrate(
        &filter,
        &mut os,
        &request(3, 40, 0),
        &info::Dehydrate { background: true },
    );
    assert!(outcome.resolved_by_handler);
    assert_eq!(os.persisted_context(keys), Some(&vec![7, 8, 9]));
}

/// Tries an oversized blob first, then the largest admissible one.
struct BlobAtTheBound;

impl SyncFilter for BlobAtTheBound {
    fn fetch_data(
        &self,
        _request: &info::Request,
        _ticket: &mut ticket::FetchData,
        _info: &info::FetchData,
    ) -> CResult<()> {
        Err(CloudErrorKind::NotSupported)
    }

    fn dehydrate(
        &self,
        _request: &info::Request,
        ticket: &mut ticket::Dehydrate,
        _info: &info::Dehydrate,
    ) -> CResult<()> {
        // One byte over the bound: rejected before any command is queued,
        // and the ticket stays usable.
        let big = vec![0u8; 65537];
        assert_eq!(ticket.pass_with_blob(big), Err(CloudErrorKind::InvalidArgument));
        assert!(!ticket.resolved());
        let largest = vec![0u8; 65536];
        ticket.pass_with_blob(largest)
    }
}

#[test]
fn oversized_blob_is_rejected_before_any_command() {
    let mut os = SessionTable::new();
    let keys = KeyPair { connection: 3, transfer: 41 };
    os.begin(keys, OperationKind::Dehydrate, 0).unwrap();
    let outcome = dispatch_dehydrate(
        &BlobAtTheBound,
        &mut os,
        &request(3, 41, 0),
        &info::Dehydrate { background: false },
    );
    assert!(outcome.resolved_by_handler);
    // Exactly one command reached the system: the admissible blob.
    assert_eq!(outcome.replies, vec![Ok(Reply::Done)]);
    assert_eq!(os.persisted_context(keys), Some(&vec![0u8; 65536]));
}

/// Issues a read and then fails without resolving.
struct ReadThenFail;

impl SyncFilter for ReadThenFail {
    fn fetch_data(
        &self,
        _request: &info::Request,
        ticket: &mut ticket::FetchData,
        _info: &info::FetchData,
    ) -> CResult<()> {
        ticket.read_at(512, 0)?;
        Err(CloudErrorKind::IoError)
    }
}

#[test]
fn a_failing_handler_gets_a_denial_even_after_commands() {
    let mut os = SessionTable::new();
    let keys = KeyPair { connection: 3, transfer: 42 };
    os.begin(keys, OperationKind::FetchData, 4096).unwrap();
    let outcome = dispatch_fetch_data(
        &ReadThenFail,
        &mut os,
        &request(3, 42, 4096),
        &info::FetchData { required_offset: 0, required_length: 4096 },
    );
    assert!(!outcome.resolved_by_handler);
    assert!(outcome.denial_sent);
    assert_eq!(outcome.replies, vec![Ok(Reply::Data { length: 512 })]);
    match os.resolution_of(keys) {
        Some(cloud_filter::command::Resolution::Denied { error }) => {
            assert_eq!(*error, CloudErrorKind::IoError)
        }
        other => panic!("expected a denial, found {:?}", other),
    }
}

#[test]
fn distinct_pairs_resolve_independently() {
    let filter = ApproveAll;
    let mut os = SessionTable::new();
    let first = KeyPair { connection: 4, transfer: 50 };
    let second = KeyPair { connection: 4, transfer: 51 };
    os.begin(first, OperationKind::Delete, 0).unwrap();
    os.begin(second, OperationKind::Rename, 0).unwrap();

    // Interleave work on the two pairs; each resolves on its own and the
    // other's record is untouched at every step.
    let d = dispatch_delete(
        &filter,
        &mut os,
        &request(4, 50, 0),
        &info::Delete { is_directory: false },
    );
    assert!(d.resolved_by_handler);
    assert_eq!(os.resolution_count(first), 1);
    assert_eq!(os.resolution_count(second), 0);
    assert!(os.is_pending(second));

    let r = dispatch_rename(
        &filter,
        &mut os,
        &request(4, 51, 0),
        &info::Rename { target_path: String::from("c") },
    );
    assert!(r.resolved_by_handler);
    assert_eq!(os.resolution_count(first), 1);
    assert_eq!(os.resolution_count(second), 1);
}

#[test]
fn cancellation_then_late_resolution_fails_cleanly() {
    let filter = DeclineAll;
    let mut os = SessionTable::new();
    let keys = KeyPair { connection: 5, transfer: 60 };
    os.begin(keys, OperationKind::FetchData, 4096).unwrap();

    // The cancellation arrives first: it wins, and the late resolution
    // attempt fails with `Cancelled` without disturbing anything.
    dispatch_cancel_fetch_data(
        &filter,
        &mut os,
        &request(5, 60, 4096),
        &info::CancelFetchData { offset: 0, length: 4096 },
    );
    assert!(os.is_cancelled(keys));
    assert_eq!(
        os.apply(keys, Command::Write { position: 0, length: 4096 }),
        Err(CloudErrorKind::Cancelled)
    );
    assert!(os.is_cancelled(keys));
    assert_eq!(os.resolution_count(keys), 0);
}

#[test]
fn resolution_then_cancellation_keeps_the_resolution() {
    let filter = DeclineAll;
    let mut os = SessionTable::new();
    let keys = KeyPair { connection: 5, transfer: 61 };
    os.begin(keys, OperationKind::FetchData, 4096).unwrap();
    assert_eq!(os.apply(keys, Command::Write { position: 0, length: 4096 }), Ok(Reply::Done));
    assert_eq!(os.resolution_count(keys), 1);

    // The resolution came first: the later cancellation is a no-op.
    dispatch_cancel_fetch_data(
        &filter,
        &mut os,
        &request(5, 61, 4096),
        &info::CancelFetchData { offset: 0, length: 4096 },
    );
    assert!(!os.is_cancelled(keys));
    assert_eq!(os.resolution_count(keys), 1);
}

#[test]
fn commands_for_unknown_pairs_are_stale() {
    let mut os = SessionTable::new();
    let keys = KeyPair { connection: 6, transfer: 70 };
    assert_eq!(os.apply(keys, Command::Delete), Err(CloudErrorKind::IoError));
    assert_eq!(os.resolution_count(keys), 0);
}

#[test]
fn commands_outside_a_kinds_capabilities_are_rejected() {
    let mut os = SessionTable::new();
    let keys = KeyPair { connection: 6, transfer: 71 };
    os.begin(keys, OperationKind::Delete, 0).unwrap();
    // A write during a deletion callback is a protocol violation.
    assert_eq!(
        os.apply(keys, Command::Write { position: 0, length: 4096 }),
        Err(CloudErrorKind::InvalidArgument)
    );
    assert!(os.is_pending(keys));
    assert_eq!(os.apply(keys, Command::Delete), Ok(Reply::Done));
}

/// Reports progress, hydrates in one write, then reports progress again
/// after the resolution.
struct ProgressEitherSide;

impl SyncFilter for ProgressEitherSide {
    fn fetch_data(
        &self,
        request: &info::Request,
        ticket: &mut ticket::FetchData,
        _info: &info::FetchData,
    ) -> CResult<()> {
        ticket.report_progress(request.file_size, 0)?;
        let buffer = vec![0u8; request.file_size as usize];
        ticket.write_at(&buffer, 0)?;
        assert!(ticket.resolved());
        // After resolution this is a silent no-op: it succeeds and queues
        // nothing.
        ticket.report_progress(request.file_size, request.file_size)
    }
}

#[test]
fn progress_after_resolution_is_a_silent_no_op() {
    let mut os = SessionTable::new();
    let keys = KeyPair { connection: 7, transfer: 80 };
    os.begin(keys, OperationKind::FetchData, 4096).unwrap();
    let outcome = dispatch_fetch_data(
        &ProgressEitherSide,
        &mut os,
        &request(7, 80, 4096),
        &info::FetchData { required_offset: 0, required_length: 4096 },
    );
    assert!(outcome.resolved_by_handler);
    // Only the progress report from before the resolution and the write
    // were executed.
    assert_eq!(outcome.replies, vec![Ok(Reply::Done), Ok(Reply::Done)]);
    assert_eq!(os.resolution_count(keys), 1);
}

#[test]
fn validation_reads_then_acknowledges() {
    let filter = ApproveAll;
    let mut os = SessionTable::new();
    let keys = KeyPair { connection: 8, transfer: 90 };
    os.begin(keys, OperationKind::ValidateData, 9000).unwrap();
    let outcome = dispatch_validate_data(
        &filter,
        &mut os,
        &request(8, 90, 9000),
        &info::ValidateData { offset: 0, length: 9000 },
    );
    assert!(outcome.resolved_by_handler);
    match os.resolution_of(keys) {
        Some(cloud_filter::command::Resolution::Validated { start, end }) => {
            assert_eq!((*start, *end), (0, 9000));
        }
        other => panic!("expected a validation, found {:?}", other),
    }
}

#[test]
fn empty_placeholder_list_resolves_with_no_outcomes() {
    let mut os = SessionTable::new();
    let keys = KeyPair { connection: 2, transfer: 33 };
    os.begin(keys, OperationKind::FetchPlaceholders, 0).unwrap();
    match os.apply(keys, Command::CreatePlaceholders { entries: vec![] }).unwrap() {
        Reply::Created { outcomes } => assert!(outcomes.is_empty()),
        other => panic!("unexpected reply {:?}", other),
    }
    assert_eq!(os.resolution_count(keys), 1);
}

#[test]
fn a_key_pair_is_never_minted_twice() {
    let mut os = SessionTable::new();
    let keys = KeyPair { connection: 7, transfer: 81 };
    assert_eq!(os.begin(keys, OperationKind::Delete, 0), Ok(()));
    assert_eq!(
        os.begin(keys, OperationKind::Rename, 0),
        Err(CloudErrorKind::InvalidArgument)
    );
    // The original operation is untouched.
    assert!(os.is_pending(keys));
}

#[test]
fn validation_reads_never_come_up_short() {
    // A hydration read may overrun the end of file and read short; a
    // validation read of the same range is refused up front, because the
    // system could not deliver it in full.
    let mut hydration = ticket::FetchData::new(8, 91, 5000);
    assert_eq!(hydration.read_at(4096, 4096), Ok(()));

    let mut validation = ticket::ValidateData::new(8, 92, 5000);
    assert_eq!(validation.read_at(4096, 4096), Err(CloudErrorKind::IoError));
    assert_eq!(validation.read_at(904, 4096), Ok(()));
}

#[test]
fn terminating_kinds_are_exactly_the_six() {
    let terminating = [
        OperationKind::FetchData,
        OperationKind::ValidateData,
        OperationKind::FetchPlaceholders,
        OperationKind::Dehydrate,
        OperationKind::Delete,
        OperationKind::Rename,
    ];
    let notifying = [
        OperationKind::CancelFetchData,
        OperationKind::CancelFetchPlaceholders,
        OperationKind::Opened,
        OperationKind::Closed,
        OperationKind::Dehydrated,
        OperationKind::Deleted,
        OperationKind::Renamed,
        OperationKind::StateChanged,
    ];
    for k in terminating {
        assert!(k.is_terminating());
    }
    for k in notifying {
        assert!(!k.is_terminating());
    }
    // Notifying kinds are never tracked: they need no resolution.
    let mut os = SessionTable::new();
    let keys = KeyPair { connection: 9, transfer: 100 };
    assert_eq!(
        os.begin(keys, OperationKind::Opened, 0),
        Err(CloudErrorKind::InvalidArgument)
    );
}
