//! Commands: the primitive actions a provider can send back to the system
//! for a given correlation key pair, and the rules saying which commands are
//! legal for which operation kind, and which of them resolve an operation.

use vstd::prelude::*;
use crate::error::CloudErrorKind;

verus! {

/// Every write except the one covering the logical end of file must be a
/// multiple of this many bytes.
pub const TRANSFER_ALIGNMENT: u64 = 4096;

/// The largest provider-defined metadata blob that survives dehydration.
pub const MAX_BLOB_SIZE: usize = 65536;

/// The closed set of operation kinds the system can request or announce.
///
/// A kind is either *terminating* (the provider owes exactly one resolving
/// command) or *notifying* (no response is required or possible).
#[derive(Clone, Copy, Debug, PartialEq, Eq, Structural, Hash)]
pub enum OperationKind {
    FetchData,
    CancelFetchData,
    ValidateData,
    FetchPlaceholders,
    CancelFetchPlaceholders,
    Opened,
    Closed,
    Dehydrate,
    Dehydrated,
    Delete,
    Deleted,
    Rename,
    Renamed,
    StateChanged,
}

/// Whether the provider owes a kind exactly one resolving command.
pub open spec fn is_terminating_spec(kind: OperationKind) -> bool {
    ||| kind is FetchData
    ||| kind is ValidateData
    ||| kind is FetchPlaceholders
    ||| kind is Dehydrate
    ||| kind is Delete
    ||| kind is Rename
}

impl OperationKind {
    /// Whether the provider owes this kind exactly one resolving command.
    pub fn is_terminating(&self) -> (r: bool)
        ensures
            r == is_terminating_spec(*self),
    {
        match *self {
            OperationKind::FetchData => true,
            OperationKind::ValidateData => true,
            OperationKind::FetchPlaceholders => true,
            OperationKind::Dehydrate => true,
            OperationKind::Delete => true,
            OperationKind::Rename => true,
            _ => false,
        }
    }
}

/// One child entry to create under the directory being enumerated.
#[derive(Clone, Debug, PartialEq, Eq)]
pub struct PlaceholderEntry {
    /// The entry's name, as the wide characters the filesystem stores.
    pub name: Vec<u16>,
    /// The logical size of the remote content.
    pub size: u64,
    /// Whether the entry is a directory rather than a file.
    pub is_directory: bool,
}

/// A request payload to execute against the system for one key pair:
/// what to tell the system, constructed fresh per call, never retained.
#[derive(Clone, Debug, PartialEq, Eq)]
pub enum Command {
    /// Ask the system to deliver `length` bytes of the placeholder's
    /// backing content starting at `position`.
    Read { position: u64, length: u64 },
    /// Persist `length` bytes into the placeholder's backing store at
    /// `position`.
    Write { position: u64, length: u64 },
    /// Mark the byte range `start..end` as hydrated and verified without
    /// transferring new bytes.
    Validate { start: u64, end: u64 },
    /// Bulk-create child placeholder entries under the directory being
    /// enumerated.
    CreatePlaceholders { entries: Vec<PlaceholderEntry> },
    /// Approve discarding local content, attaching the given metadata blob
    /// (empty to keep none).
    Dehydrate { blob: Vec<u8> },
    /// Approve the pending deletion.
    Delete,
    /// Approve the pending rename or move.
    Rename,
    /// Deny the pending operation with the given error.
    Deny { error: CloudErrorKind },
    /// Advisory progress report; informs the system and its UI, terminates
    /// nothing.
    Progress { total: u64, completed: u64 },
}

/// The capability table: which commands are legal for which kind.
///
/// A denial is legal for every terminating kind; everything else belongs to
/// exactly one kind, except reading, which both hydration and validation may
/// do.
pub open spec fn command_allowed(kind: OperationKind, cmd: Command) -> bool {
    match cmd {
        Command::Read { .. } => kind is FetchData || kind is ValidateData,
        Command::Write { .. } => kind is FetchData,
        Command::Progress { .. } => kind is FetchData,
        Command::Validate { .. } => kind is ValidateData,
        Command::CreatePlaceholders { .. } => kind is FetchPlaceholders,
        Command::Dehydrate { .. } => kind is Dehydrate,
        Command::Delete => kind is Delete,
        Command::Rename => kind is Rename,
        Command::Deny { .. } => is_terminating_spec(kind),
    }
}

impl Command {
    /// Whether this command is legal for the given operation kind; the
    /// executable side of the capability table.
    pub fn allowed_for(&self, kind: OperationKind) -> (r: bool)
        ensures
            r == command_allowed(kind, *self),
    {
        match self {
            Command::Read { .. } => match kind {
                OperationKind::FetchData => true,
                OperationKind::ValidateData => true,
                _ => false,
            },
            Command::Write { .. } => match kind {
                OperationKind::FetchData => true,
                _ => false,
            },
            Command::Progress { .. } => match kind {
                OperationKind::FetchData => true,
                _ => false,
            },
            Command::Validate { .. } => match kind {
                OperationKind::ValidateData => true,
                _ => false,
            },
            Command::CreatePlaceholders { .. } => match kind {
                OperationKind::FetchPlaceholders => true,
                _ => false,
            },
            Command::Dehydrate { .. } => match kind {
                OperationKind::Dehydrate => true,
                _ => false,
            },
            Command::Delete => match kind {
                OperationKind::Delete => true,
                _ => false,
            },
            Command::Rename => match kind {
                OperationKind::Rename => true,
                _ => false,
            },
            Command::Deny { .. } => kind.is_terminating(),
        }
    }
}

/// Whether a command resolves the operation it is sent for, given the
/// logical end of file of the placeholder under transfer.  A write resolves
/// a hydration exactly when it covers the end of file; reads and progress
/// reports never resolve anything; every other command is a terminating
/// response.
pub open spec fn command_resolves(cmd: Command, eof: u64) -> bool {
    match cmd {
        Command::Read { .. } => false,
        Command::Progress { .. } => false,
        Command::Write { position, length } => position + length == eof,
        _ => true,
    }
}

/// How many of the commands in `cmds` resolve an operation with the given
/// end of file.
pub open spec fn resolving_count(cmds: Seq<Command>, eof: u64) -> nat
    decreases cmds.len(),
{
    if cmds.len() == 0 {
        0
    } else {
        resolving_count(cmds.drop_last(), eof) + (if command_resolves(cmds.last(), eof) {
            1nat
        } else {
            0nat
        })
    }
}

pub proof fn lemma_resolving_count_push(cmds: Seq<Command>, cmd: Command, eof: u64)
    ensures
        resolving_count(cmds.push(cmd), eof) == resolving_count(cmds, eof) + (
        if command_resolves(cmd, eof) {
            1nat
        } else {
            0nat
        }),
{
    assert(cmds.push(cmd).drop_last() =~= cmds);
    assert(cmds.push(cmd).last() == cmd);
}

pub proof fn lemma_resolving_count_take_step(cmds: Seq<Command>, i: int, eof: u64)
    requires
        0 <= i < cmds.len(),
    ensures
        resolving_count(cmds.take(i + 1), eof) == resolving_count(cmds.take(i), eof) + (
        if command_resolves(cmds[i], eof) {
            1nat
        } else {
            0nat
        }),
{
    assert(cmds.take(i + 1).drop_last() =~= cmds.take(i));
    assert(cmds.take(i + 1).last() == cmds[i]);
}

/// What a ticket for `kind` may hold in its queue: a command legal for
/// the kind, never a denial (only the dispatcher denies, and it does so
/// directly), and one whose parameters the system accepts outright —
/// tickets validate before they queue, so a queued validation range or
/// metadata blob is already within bounds for a placeholder whose end of
/// file is `eof`.
pub open spec fn ticket_command(kind: OperationKind, eof: u64, cmd: Command) -> bool {
    &&& command_allowed(kind, cmd)
    &&& !(cmd is Deny)
    &&& (cmd matches Command::Validate { start, end } ==> start <= end && end <= eof)
    &&& (cmd matches Command::Dehydrate { blob } ==> blob@.len() <= MAX_BLOB_SIZE)
}

/// The resolution a resolving command produces when the system accepts
/// it.  Meaningful for every resolving command except a bulk create,
/// whose accepted count the table decides; the non-resolving commands
/// resolve nothing and their arms here are never relied on.
pub open spec fn command_resolution(cmd: Command) -> Resolution {
    match cmd {
        Command::Write { .. } => Resolution::Transferred,
        Command::Validate { start, end } => Resolution::Validated { start, end },
        Command::CreatePlaceholders { .. } => Resolution::PlaceholdersCreated { accepted: 0 },
        Command::Dehydrate { blob } => Resolution::Dehydrated { blob },
        Command::Delete => Resolution::DeleteAcknowledged,
        Command::Rename => Resolution::RenameAcknowledged,
        Command::Deny { error } => Resolution::Denied { error },
        Command::Read { .. } => Resolution::Transferred,
        Command::Progress { .. } => Resolution::Transferred,
    }
}

/// A queue holding a resolving command holds a first one: an index whose
/// prefix resolves nothing.
pub proof fn lemma_first_resolving_witness(cmds: Seq<Command>, eof: u64)
    requires
        resolving_count(cmds, eof) > 0,
    ensures
        exists|i: int|
            0 <= i < cmds.len() && command_resolves(#[trigger] cmds[i], eof) && resolving_count(
                cmds.take(i),
                eof,
            ) == 0,
    decreases cmds.len(),
{
    let pre = cmds.drop_last();
    if resolving_count(pre, eof) > 0 {
        lemma_first_resolving_witness(pre, eof);
        let i = choose|i: int|
            0 <= i < pre.len() && command_resolves(#[trigger] pre[i], eof) && resolving_count(
                pre.take(i),
                eof,
            ) == 0;
        assert(pre[i] == cmds[i]);
        assert(pre.take(i) =~= cmds.take(i));
    } else {
        assert(command_resolves(cmds.last(), eof));
        assert(cmds.take(cmds.len() - 1) =~= pre);
        assert(cmds[cmds.len() - 1] == cmds.last());
    }
}

/// Whether a command resolves an operation does not depend on the end of
/// file unless the command is a write.
pub proof fn lemma_resolving_count_eof_independent(cmds: Seq<Command>, e1: u64, e2: u64)
    requires
        forall|i: int| 0 <= i < cmds.len() ==> !(#[trigger] cmds[i] is Write),
    ensures
        resolving_count(cmds, e1) == resolving_count(cmds, e2),
    decreases cmds.len(),
{
    if cmds.len() > 0 {
        assert(forall|i: int|
            0 <= i < cmds.drop_last().len() ==> #[trigger] cmds.drop_last()[i] == cmds[i]);
        lemma_resolving_count_eof_independent(cmds.drop_last(), e1, e2);
    }
}

/// What the system records once an operation has been resolved.
#[derive(Clone, Debug, PartialEq, Eq)]
pub enum Resolution {
    /// A hydration completed: the final write covered the end of file.
    Transferred,
    /// A byte range was acknowledged as valid.
    Validated { start: u64, end: u64 },
    /// A directory population completed; `accepted` entries were created.
    PlaceholdersCreated { accepted: u64 },
    /// A dehydration was approved; `blob` is the persisted context.
    Dehydrated { blob: Vec<u8> },
    /// The pending deletion was approved.
    DeleteAcknowledged,
    /// The pending rename was approved.
    RenameAcknowledged,
    /// The operation was denied with the given error.
    Denied { error: CloudErrorKind },
}

/// Which resolutions are legal for which kind: the capability table again,
/// seen from the system's side.
pub open spec fn resolution_allowed(kind: OperationKind, res: Resolution) -> bool {
    match res {
        Resolution::Transferred => kind is FetchData,
        Resolution::Validated { .. } => kind is ValidateData,
        Resolution::PlaceholdersCreated { .. } => kind is FetchPlaceholders,
        Resolution::Dehydrated { .. } => kind is Dehydrate,
        Resolution::DeleteAcknowledged => kind is Delete,
        Resolution::RenameAcknowledged => kind is Rename,
        Resolution::Denied { .. } => is_terminating_spec(kind),
    }
}

} // verus!
