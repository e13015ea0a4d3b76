//! The callback dispatch contract: the polymorphic handler surface a
//! provider implements, one method per operation kind, and the dispatcher
//! that runs a handler against the system.
//!
//! Every terminating-kind method returns a result.  When a handler leaves
//! its ticket unresolved and reports an error — in particular when it is
//! unimplemented and the default body reports `NotSupported` — the
//! dispatcher itself sends the denial, so the system never waits forever
//! for a response the provider will not give.  Notifying-kind methods
//! return nothing and cannot fail the operation they describe.
//!
//! Callbacks arrive from an unspecified, possibly pooled thread, and
//! callbacks for distinct key pairs may run concurrently: a handler is
//! therefore required to be `Send + Sync`, and the dispatcher touches no
//! operation but the one named by the request's key pair.

use vstd::prelude::*;
use crate::command::{
    command_resolution, command_resolves, resolving_count, ticket_command, Command, OperationKind,
    Resolution,
};
use crate::error::{CResult, CloudErrorKind};
use crate::info;
use crate::keys::KeyPair;
use crate::session::{OpState, Operation, Reply, SessionTable};
use crate::ticket;

verus! {

/// Core functions for implementing a sync engine.  `Send + Sync` are
/// required because the system invokes callbacks from arbitrary threads,
/// concurrently across distinct correlation key pairs (never for the same
/// pair).
///
/// The terminating kinds with a default body deny themselves with
/// `NotSupported`; `fetch_data` has no default, since a provider that
/// cannot hydrate serves no purpose.
pub trait SyncFilter: Send + Sync {
    /// A placeholder hydration has been requested: populate the
    /// placeholder with its remote content through the ticket.
    fn fetch_data(
        &self,
        request: &info::Request,
        ticket: &mut ticket::FetchData,
        info: &info::FetchData,
    ) -> CResult<()>;

    /// A placeholder hydration request has been cancelled.
    fn cancel_fetch_data(&self, _request: &info::Request, _info: &info::CancelFetchData) {
    }

    /// After a hydration, verify the integrity of the data persisted in
    /// the placeholder.  Only invoked when the active hydration policy
    /// requires validation.
    fn validate_data(
        &self,
        _request: &info::Request,
        _ticket: &mut ticket::ValidateData,
        _info: &info::ValidateData,
    ) -> CResult<()> {
        Err(CloudErrorKind::NotSupported)
    }

    /// A directory population has been requested.  Only invoked under an
    /// enumeration-driven population policy.
    fn fetch_placeholders(
        &self,
        _request: &info::Request,
        _ticket: &mut ticket::FetchPlaceholders,
        _info: &info::FetchPlaceholders,
    ) -> CResult<()> {
        Err(CloudErrorKind::NotSupported)
    }

    /// A directory population request has been cancelled.
    fn cancel_fetch_placeholders(
        &self,
        _request: &info::Request,
        _info: &info::CancelFetchPlaceholders,
    ) {
    }

    /// A placeholder handle has been opened for read, write or delete
    /// access.
    fn opened(&self, _request: &info::Request, _info: &info::Opened) {
    }

    /// A previously opened placeholder handle has been closed.
    fn closed(&self, _request: &info::Request, _info: &info::Closed) {
    }

    /// A placeholder dehydration has been requested: all locally persisted
    /// content would be discarded.  Approve it through the ticket.
    fn dehydrate(
        &self,
        _request: &info::Request,
        _ticket: &mut ticket::Dehydrate,
        _info: &info::Dehydrate,
    ) -> CResult<()> {
        Err(CloudErrorKind::NotSupported)
    }

    /// A placeholder dehydration completed.
    fn dehydrated(&self, _request: &info::Request, _info: &info::Dehydrated) {
    }

    /// A placeholder is about to be deleted.  Approve it through the
    /// ticket.
    fn delete(
        &self,
        _request: &info::Request,
        _ticket: &mut ticket::Delete,
        _info: &info::Delete,
    ) -> CResult<()> {
        Err(CloudErrorKind::NotSupported)
    }

    /// A placeholder has been deleted.
    fn deleted(&self, _request: &info::Request, _info: &info::Deleted) {
    }

    /// A placeholder is about to be renamed or moved.  Approve it through
    /// the ticket.
    fn rename(
        &self,
        _request: &info::Request,
        _ticket: &mut ticket::Rename,
        _info: &info::Rename,
    ) -> CResult<()> {
        Err(CloudErrorKind::NotSupported)
    }

    /// A placeholder has been renamed or moved.
    fn renamed(&self, _request: &info::Request, _info: &info::Renamed) {
    }

    /// Paths under the sync root changed.  Delivered out of band from a
    /// directory watch, in batches that may coalesce several underlying
    /// changes.
    fn state_changed(&self, _changes: Vec<String>) {
    }
}

/// What one dispatch did, for the caller and for auditing.
#[derive(Debug)]
pub struct DispatchOutcome {
    /// What the handler returned.
    pub handler_result: CResult<()>,
    /// Whether the handler resolved the ticket this dispatch issued to
    /// it — for hydration and validation, the one carrying this request's
    /// file size.
    pub resolved_by_handler: bool,
    /// Whether the dispatcher sent a denial on the handler's behalf.
    pub denial_sent: bool,
    /// The system's answer to each command the handler issued, in order.
    pub replies: Vec<CResult<Reply>>,
}

/// What every dispatch guarantees about the table, whatever the handler
/// did: no operation other than the addressed one moves; an absent or
/// already settled operation is left exactly as it was; a pending
/// operation keeps its identity and either stays pending or becomes
/// resolved.
pub open spec fn dispatch_frame(pre: SessionTable, post: SessionTable, keys: KeyPair) -> bool {
    &&& post.table().dom() == pre.table().dom()
    &&& forall|k: KeyPair|
        k != keys && pre.table().dom().contains(k) ==> post.table()[k] == pre.table()[k]
    &&& !pre.table().dom().contains(keys) ==> post == pre
    &&& pre.table().dom().contains(keys) && !(pre.table()[keys].state is Pending) ==> post == pre
    &&& pre.table().dom().contains(keys) && pre.table()[keys].state is Pending ==> ({
        let op = pre.table()[keys];
        &&& post.table().dom().contains(keys)
        &&& post.table()[keys].keys == op.keys
        &&& post.table()[keys].kind == op.kind
        &&& post.table()[keys].eof == op.eof
        &&& (post.table()[keys].state is Pending || post.table()[keys].state is Resolved)
    })
}

/// Independence law: a dispatch for one key pair never moves another
/// pair's operation.  Two callbacks for distinct pairs, whichever order
/// their commands reach the table in, leave each other's records exactly
/// as they found them.
pub proof fn lemma_distinct_pairs_independent(
    pre: SessionTable,
    mid: SessionTable,
    post: SessionTable,
    first: KeyPair,
    second: KeyPair,
)
    requires
        first != second,
        dispatch_frame(pre, mid, first),
        dispatch_frame(mid, post, second),
    ensures
        pre.table().dom().contains(second) ==> mid.table()[second] == pre.table()[second],
        mid.table().dom().contains(first) ==> post.table()[first] == mid.table()[first],
{
}

/// Executes a drained command queue against the system, in order, for one
/// key pair, and reports the system's answer to each command, in order.
///
/// For a pair tracked as pending, the contract fixes the whole exchange:
/// nothing moves while the queue resolves nothing; the operation ends
/// resolved exactly when some resolving command was answered `Ok`; the
/// first resolving command of a well-formed ticket queue is accepted
/// (a bulk create alone may instead be refused outright, with
/// `InvalidArgument`, when it would exhaust the token counter); and an
/// accepted resolving command records precisely its own resolution.
fn run_commands(os: &mut SessionTable, keys: KeyPair, cmds: Vec<Command>) -> (replies: Vec<
    CResult<Reply>,
>)
    ensures
        replies@.len() == cmds@.len(),
        dispatch_frame(*old(os), *final(os), keys),
        old(os).table().dom().contains(keys) && old(os).table()[keys].state is Pending ==> ({
            let op = old(os).table()[keys];
            &&& (resolving_count(cmds@, op.eof) == 0 ==> *final(os) == *old(os))
            &&& ((exists|i: int|
                0 <= i < cmds@.len() && command_resolves(#[trigger] cmds@[i], op.eof)
                    && replies@[i] is Ok) <==> final(os).table()[keys].state is Resolved)
            &&& (forall|i: int|
                0 <= i < cmds@.len() && command_resolves(#[trigger] cmds@[i], op.eof)
                    && resolving_count(cmds@.take(i), op.eof) == 0 && ticket_command(
                    op.kind,
                    op.eof,
                    cmds@[i],
                ) && !(cmds@[i] is CreatePlaceholders) ==> replies@[i] is Ok)
            &&& (forall|i: int|
                0 <= i < cmds@.len() && command_resolves(#[trigger] cmds@[i], op.eof)
                    && resolving_count(cmds@.take(i), op.eof) == 0 && ticket_command(
                    op.kind,
                    op.eof,
                    cmds@[i],
                ) && cmds@[i] is CreatePlaceholders ==> (replies@[i] is Ok || replies@[i]
                == Err::<Reply, CloudErrorKind>(CloudErrorKind::InvalidArgument)))
            &&& (forall|i: int|
                0 <= i < cmds@.len() && command_resolves(#[trigger] cmds@[i], op.eof)
                    && replies@[i] is Ok && !(cmds@[i] is CreatePlaceholders)
                    ==> final(os).table()[keys].state == OpState::Resolved(
                    command_resolution(cmds@[i]),
                ))
            &&& (forall|i: int|
                0 <= i < cmds@.len() && (#[trigger] cmds@[i]) is CreatePlaceholders
                    && replies@[i] is Ok ==> (final(os).table()[keys].state matches
                    OpState::Resolved(Resolution::PlaceholdersCreated { .. })))
        }),
{
    let ghost os0 = *os;
    let ghost all = cmds@;
    let mut cmds = cmds;
    let mut replies: Vec<CResult<Reply>> = Vec::new();
    while cmds.len() > 0
        invariant
            cmds@ == all.subrange(all.len() - cmds@.len(), all.len() as int),
            replies@.len() == all.len() - cmds@.len(),
            dispatch_frame(os0, *os, keys),
            os0.table().dom().contains(keys) && os0.table()[keys].state is Pending ==> ({
                let op = os0.table()[keys];
                let done = all.len() - cmds@.len();
                &&& (resolving_count(all.take(done), op.eof) == 0 ==> *os == os0)
                &&& ((exists|j: int|
                    0 <= j < done && command_resolves(#[trigger] all[j], op.eof) && replies@[j]
                        is Ok) <==> os.table()[keys].state is Resolved)
                &&& (forall|j: int|
                    0 <= j < done && command_resolves(#[trigger] all[j], op.eof)
                        && resolving_count(all.take(j), op.eof) == 0 && ticket_command(
                        op.kind,
                        op.eof,
                        all[j],
                    ) && !(all[j] is CreatePlaceholders) ==> replies@[j] is Ok)
                &&& (forall|j: int|
                    0 <= j < done && command_resolves(#[trigger] all[j], op.eof)
                        && resolving_count(all.take(j), op.eof) == 0 && ticket_command(
                        op.kind,
                        op.eof,
                        all[j],
                    ) && all[j] is CreatePlaceholders ==> (replies@[j] is Ok || replies@[j]
                    == Err::<Reply, CloudErrorKind>(CloudErrorKind::InvalidArgument)))
                &&& (forall|j: int|
                    0 <= j < done && command_resolves(#[trigger] all[j], op.eof) && replies@[j]
                        is Ok && !(all[j] is CreatePlaceholders) ==> os.table()[keys].state
                        == OpState::Resolved(command_resolution(all[j])))
                &&& (forall|j: int|
                    0 <= j < done && (#[trigger] all[j]) is CreatePlaceholders && replies@[j]
                        is Ok ==> (os.table()[keys].state matches OpState::Resolved(
                        Resolution::PlaceholdersCreated { .. },
                    )))
            }),
        decreases cmds@.len(),
    {
        os.check_capabilities();
        let ghost i = all.len() - cmds@.len();
        let cmd = cmds.remove(0);
        proof {
            assert(cmd == all[i]);
            assert(cmds@ =~= all.subrange(i + 1, all.len() as int));
            if os0.table().dom().contains(keys) && os0.table()[keys].state is Pending {
                crate::command::lemma_resolving_count_take_step(all, i, os0.table()[keys].eof);
            }
        }
        let ghost pre = *os;
        let rep = os.apply(keys, cmd);
        replies.push(rep);
        proof {
            if pre.table().dom().contains(keys) {
                assert(pre.table().dom().insert(keys) =~= pre.table().dom());
            }
            assert(os.table().dom() == pre.table().dom());
            assert(dispatch_frame(pre, *os, keys));
        }
    }
    proof {
        assert(all.take(all.len() as int) =~= all);
    }
    replies
}

/// Sends the denial the dispatcher owes when a handler failed without
/// resolving its ticket.
fn send_denial(os: &mut SessionTable, keys: KeyPair, error: CloudErrorKind) -> (sent: bool)
    ensures
        dispatch_frame(*old(os), *final(os), keys),
        old(os).table().dom().contains(keys) && old(os).table()[keys].state is Pending ==> sent
            && final(os).table()[keys].state == OpState::Resolved((Resolution::Denied { error })),
        !(old(os).table().dom().contains(keys) && old(os).table()[keys].state is Pending)
            ==> !sent && *final(os) == *old(os),
{
    os.check_capabilities();
    let r = os.apply(keys, Command::Deny { error });
    proof {
        if old(os).table().dom().contains(keys) {
            assert(old(os).table().dom().insert(keys) =~= old(os).table().dom());
        }
        assert(os.table().dom() == old(os).table().dom());
    }
    match r {
        Ok(_) => true,
        Err(_) => false,
    }
}

/// Dispatches a hydration callback: builds a fresh ticket for the
/// request's key pair and file size, runs the handler, executes every
/// command it queued, and — when the handler failed and the operation is
/// still unresolved — denies the operation on its behalf with the
/// handler's own error, so the system never hangs on an unimplemented or
/// failing handler.  A handler that resolved its ticket leaves the
/// operation resolved with that resolution.
pub fn dispatch_fetch_data<F: SyncFilter>(
    filter: &F,
    os: &mut SessionTable,
    request: &info::Request,
    info: &info::FetchData,
) -> (outcome: DispatchOutcome)
    ensures
        dispatch_frame(*old(os), *final(os), request.keys),
        old(os).table().dom().contains(request.keys) && old(os).table()[request.keys].state
            is Pending && outcome.handler_result is Err ==> final(os).table()[request.keys].state
            is Resolved,
        old(os).table().dom().contains(request.keys) && old(os).table()[request.keys].state
            is Pending && old(os).table()[request.keys].eof == request.file_size
            && !outcome.resolved_by_handler && outcome.handler_result is Ok ==> *final(os)
            == *old(os),
        old(os).table().dom().contains(request.keys) && old(os).table()[request.keys].state
            is Pending && old(os).table()[request.keys].eof
            == request.file_size && outcome.handler_result is Err
            && !outcome.resolved_by_handler ==> outcome.denial_sent
            && final(os).table()[request.keys].state == OpState::Resolved(
            (Resolution::Denied { error: outcome.handler_result->Err_0 }),
        ),
        old(os).table().dom().contains(request.keys) && old(os).table()[request.keys].state
            is Pending && old(os).table()[request.keys].kind == OperationKind::FetchData && old(os).table()[request.keys].eof
            == request.file_size
            && outcome.resolved_by_handler ==> final(os).table()[request.keys].state == OpState::Resolved(Resolution::Transferred),
        outcome.denial_sent ==> outcome.handler_result is Err,
{
    let mut t = ticket::FetchData::new(
        request.keys.connection,
        request.keys.transfer,
        request.file_size,
    );
    let hr = filter.fetch_data(request, &mut t, info);
    let eof_ok = t.file_size() == request.file_size;
    let resolved_by_handler = t.resolved() && eof_ok;
    let queued = t.into_commands();
    let cmds = if eof_ok {
        queued
    } else {
        Vec::new()
    };
    let replies = run_commands(os, request.keys, cmds);
    proof {
        let tbl = old(os).table();
        if tbl.dom().contains(request.keys) && tbl[request.keys].state is Pending
            && tbl[request.keys].kind == OperationKind::FetchData
            && tbl[request.keys].eof == request.file_size
            && resolved_by_handler {
            let op = tbl[request.keys];
            assert(resolving_count(cmds@, op.eof) == 1);
            crate::command::lemma_first_resolving_witness(cmds@, op.eof);
            let i = choose|i: int|
                0 <= i < cmds@.len() && command_resolves(#[trigger] cmds@[i], op.eof)
                    && resolving_count(cmds@.take(i), op.eof) == 0;
            assert(ticket_command(op.kind, op.eof, cmds@[i]));
            assert(cmds@[i] is Write);
            assert(replies@[i] is Ok);
            assert(os.table()[request.keys].state == OpState::Resolved(Resolution::Transferred));
        }
    }
    let mut denial_sent = false;
    match hr {
        Ok(_) => {},
        Err(e) => {
            if os.is_pending(request.keys) {
                denial_sent = send_denial(os, request.keys, e);
            }
        },
    }
    DispatchOutcome { handler_result: hr, resolved_by_handler, denial_sent, replies }
}

/// Dispatches a validation callback; see [dispatch_fetch_data].
pub fn dispatch_validate_data<F: SyncFilter>(
    filter: &F,
    os: &mut SessionTable,
    request: &info::Request,
    info: &info::ValidateData,
) -> (outcome: DispatchOutcome)
    ensures
        dispatch_frame(*old(os), *final(os), request.keys),
        old(os).table().dom().contains(request.keys) && old(os).table()[request.keys].state
            is Pending && outcome.handler_result is Err ==> final(os).table()[request.keys].state
            is Resolved,
        old(os).table().dom().contains(request.keys) && old(os).table()[request.keys].state
            is Pending && !outcome.resolved_by_handler && outcome.handler_result is Ok
            ==> *final(os) == *old(os),
        old(os).table().dom().contains(request.keys) && old(os).table()[request.keys].state
            is Pending && outcome.handler_result is Err
            && !outcome.resolved_by_handler ==> outcome.denial_sent
            && final(os).table()[request.keys].state == OpState::Resolved(
            (Resolution::Denied { error: outcome.handler_result->Err_0 }),
        ),
        old(os).table().dom().contains(request.keys) && old(os).table()[request.keys].state
            is Pending && old(os).table()[request.keys].kind == OperationKind::ValidateData && old(os).table()[request.keys].eof
            == request.file_size
            && outcome.resolved_by_handler ==> (final(os).table()[request.keys].state matches OpState::Resolved(
            Resolution::Validated { .. },
        )),
        outcome.denial_sent ==> outcome.handler_result is Err,
{
    let mut t = ticket::ValidateData::new(
        request.keys.connection,
        request.keys.transfer,
        request.file_size,
    );
    let hr = filter.validate_data(request, &mut t, info);
    let eof_ok = t.file_size() == request.file_size;
    let resolved_by_handler = t.resolved() && eof_ok;
    let queued = t.into_commands();
    let cmds = if eof_ok {
        queued
    } else {
        Vec::new()
    };
    let replies = run_commands(os, request.keys, cmds);
    proof {
        let tbl = old(os).table();
        if tbl.dom().contains(request.keys) && tbl[request.keys].state is Pending
            && tbl[request.keys].kind == OperationKind::ValidateData
            && tbl[request.keys].eof == request.file_size
            && resolved_by_handler {
            let op = tbl[request.keys];
            assert(resolving_count(cmds@, op.eof) == 1);
            crate::command::lemma_first_resolving_witness(cmds@, op.eof);
            let i = choose|i: int|
                0 <= i < cmds@.len() && command_resolves(#[trigger] cmds@[i], op.eof)
                    && resolving_count(cmds@.take(i), op.eof) == 0;
            assert(ticket_command(op.kind, op.eof, cmds@[i]));
            assert(cmds@[i] is Validate);
            assert(replies@[i] is Ok);
            assert(os.table()[request.keys].state == OpState::Resolved(
                command_resolution(cmds@[i]),
            ));
        }
    }
    let mut denial_sent = false;
    match hr {
        Ok(_) => {},
        Err(e) => {
            if os.is_pending(request.keys) {
                denial_sent = send_denial(os, request.keys, e);
            }
        },
    }
    DispatchOutcome { handler_result: hr, resolved_by_handler, denial_sent, replies }
}

/// Dispatches a directory-population callback; see
/// [dispatch_fetch_data].  A population the handler approved either
/// records its per-entry outcomes, or — only when handing out its
/// change-sequence tokens would exhaust the counter — answers the bulk
/// create with `InvalidArgument`.
pub fn dispatch_fetch_placeholders<F: SyncFilter>(
    filter: &F,
    os: &mut SessionTable,
    request: &info::Request,
    info: &info::FetchPlaceholders,
) -> (outcome: DispatchOutcome)
    ensures
        dispatch_frame(*old(os), *final(os), request.keys),
        old(os).table().dom().contains(request.keys) && old(os).table()[request.keys].state
            is Pending && outcome.handler_result is Err ==> final(os).table()[request.keys].state
            is Resolved,
        old(os).table().dom().contains(request.keys) && old(os).table()[request.keys].state
            is Pending && !outcome.resolved_by_handler && outcome.handler_result is Ok
            ==> *final(os) == *old(os),
        old(os).table().dom().contains(request.keys) && old(os).table()[request.keys].state
            is Pending && outcome.handler_result is Err
            && !outcome.resolved_by_handler ==> outcome.denial_sent
            && final(os).table()[request.keys].state == OpState::Resolved(
            (Resolution::Denied { error: outcome.handler_result->Err_0 }),
        ),
        old(os).table().dom().contains(request.keys) && old(os).table()[request.keys].state
            is Pending && old(os).table()[request.keys].kind == OperationKind::FetchPlaceholders
            && outcome.resolved_by_handler ==> ((final(os).table()[request.keys].state matches OpState::Resolved(
            Resolution::PlaceholdersCreated { .. },
        )) || (exists|i: int|
            0 <= i < outcome.replies@.len() && #[trigger] outcome.replies@[i] == Err::<
                Reply,
                CloudErrorKind,
            >(CloudErrorKind::InvalidArgument))),
        outcome.denial_sent ==> outcome.handler_result is Err,
{
    let mut t = ticket::FetchPlaceholders::new(request.keys.connection, request.keys.transfer);
    let hr = filter.fetch_placeholders(request, &mut t, info);
    let resolved_by_handler = t.resolved();
    let cmds = t.into_commands();
    let replies = run_commands(os, request.keys, cmds);
    proof {
        let tbl = old(os).table();
        if tbl.dom().contains(request.keys) && tbl[request.keys].state is Pending
            && tbl[request.keys].kind == OperationKind::FetchPlaceholders
            && resolved_by_handler {
            let op = tbl[request.keys];
            assert(resolving_count(cmds@, op.eof) == 1);
            crate::command::lemma_first_resolving_witness(cmds@, op.eof);
            let i = choose|i: int|
                0 <= i < cmds@.len() && command_resolves(#[trigger] cmds@[i], op.eof)
                    && resolving_count(cmds@.take(i), op.eof) == 0;
            assert(ticket_command(op.kind, op.eof, cmds@[i]));
            assert(cmds@[i] is CreatePlaceholders);
            assert(replies@[i] is Ok || replies@[i] == Err::<Reply, CloudErrorKind>(
                CloudErrorKind::InvalidArgument,
            ));
            if replies@[i] is Ok {
                assert(os.table()[request.keys].state matches OpState::Resolved(
                    Resolution::PlaceholdersCreated { .. },
                ));
            }
        }
    }
    let mut denial_sent = false;
    match hr {
        Ok(_) => {},
        Err(e) => {
            if os.is_pending(request.keys) {
                denial_sent = send_denial(os, request.keys, e);
            }
        },
    }
    let outcome = DispatchOutcome { handler_result: hr, resolved_by_handler, denial_sent, replies };
    proof {
        let tbl = old(os).table();
        if tbl.dom().contains(request.keys) && tbl[request.keys].state is Pending
            && tbl[request.keys].kind == OperationKind::FetchPlaceholders
            && resolved_by_handler && !(os.table()[request.keys].state matches OpState::Resolved(
            Resolution::PlaceholdersCreated { .. },
        )) {
            let op = tbl[request.keys];
            let i = choose|i: int|
                0 <= i < cmds@.len() && command_resolves(#[trigger] cmds@[i], op.eof)
                    && resolving_count(cmds@.take(i), op.eof) == 0;
            assert(outcome.replies@[i] == Err::<Reply, CloudErrorKind>(
                CloudErrorKind::InvalidArgument,
            ));
        }
    }
    outcome
}

/// Dispatches a dehydration callback; see [dispatch_fetch_data].
pub fn dispatch_dehydrate<F: SyncFilter>(
    filter: &F,
    os: &mut SessionTable,
    request: &info::Request,
    info: &info::Dehydrate,
) -> (outcome: DispatchOutcome)
    ensures
        dispatch_frame(*old(os), *final(os), request.keys),
        old(os).table().dom().contains(request.keys) && old(os).table()[request.keys].state
            is Pending && outcome.handler_result is Err ==> final(os).table()[request.keys].state
            is Resolved,
        old(os).table().dom().contains(request.keys) && old(os).table()[request.keys].state
            is Pending && !outcome.resolved_by_handler && outcome.handler_result is Ok
            ==> *final(os) == *old(os),
        old(os).table().dom().contains(request.keys) && old(os).table()[request.keys].state
            is Pending && outcome.handler_result is Err
            && !outcome.resolved_by_handler ==> outcome.denial_sent
            && final(os).table()[request.keys].state == OpState::Resolved(
            (Resolution::Denied { error: outcome.handler_result->Err_0 }),
        ),
        old(os).table().dom().contains(request.keys) && old(os).table()[request.keys].state
            is Pending && old(os).table()[request.keys].kind == OperationKind::Dehydrate
            && outcome.resolved_by_handler ==> (final(os).table()[request.keys].state matches OpState::Resolved(
            Resolution::Dehydrated { .. },
        )),
        outcome.denial_sent ==> outcome.handler_result is Err,
{
    let mut t = ticket::Dehydrate::new(request.keys.connection, request.keys.transfer);
    let hr = filter.dehydrate(request, &mut t, info);
    let resolved_by_handler = t.resolved();
    let cmds = t.into_commands();
    let replies = run_commands(os, request.keys, cmds);
    proof {
        let tbl = old(os).table();
        if tbl.dom().contains(request.keys) && tbl[request.keys].state is Pending
            && tbl[request.keys].kind == OperationKind::Dehydrate
            && resolved_by_handler {
            let op = tbl[request.keys];
            assert(resolving_count(cmds@, op.eof) == 1);
            crate::command::lemma_first_resolving_witness(cmds@, op.eof);
            let i = choose|i: int|
                0 <= i < cmds@.len() && command_resolves(#[trigger] cmds@[i], op.eof)
                    && resolving_count(cmds@.take(i), op.eof) == 0;
            assert(ticket_command(op.kind, op.eof, cmds@[i]));
            assert(cmds@[i] is Dehydrate);
            assert(replies@[i] is Ok);
            assert(os.table()[request.keys].state == OpState::Resolved(
                command_resolution(cmds@[i]),
            ));
        }
    }
    let mut denial_sent = false;
    match hr {
        Ok(_) => {},
        Err(e) => {
            if os.is_pending(request.keys) {
                denial_sent = send_denial(os, request.keys, e);
            }
        },
    }
    DispatchOutcome { handler_result: hr, resolved_by_handler, denial_sent, replies }
}

/// Dispatches a deletion callback; see [dispatch_fetch_data].
pub fn dispatch_delete<F: SyncFilter>(
    filter: &F,
    os: &mut SessionTable,
    request: &info::Request,
    info: &info::Delete,
) -> (outcome: DispatchOutcome)
    ensures
        dispatch_frame(*old(os), *final(os), request.keys),
        old(os).table().dom().contains(request.keys) && old(os).table()[request.keys].state
            is Pending && outcome.handler_result is Err ==> final(os).table()[request.keys].state
            is Resolved,
        old(os).table().dom().contains(request.keys) && old(os).table()[request.keys].state
            is Pending && !outcome.resolved_by_handler && outcome.handler_result is Ok
            ==> *final(os) == *old(os),
        old(os).table().dom().contains(request.keys) && old(os).table()[request.keys].state
            is Pending && outcome.handler_result is Err
            && !outcome.resolved_by_handler ==> outcome.denial_sent
            && final(os).table()[request.keys].state == OpState::Resolved(
            (Resolution::Denied { error: outcome.handler_result->Err_0 }),
        ),
        old(os).table().dom().contains(request.keys) && old(os).table()[request.keys].state
            is Pending && old(os).table()[request.keys].kind == OperationKind::Delete
            && outcome.resolved_by_handler ==> final(os).table()[request.keys].state == OpState::Resolved(
            Resolution::DeleteAcknowledged,
        ),
        outcome.denial_sent ==> outcome.handler_result is Err,
{
    let mut t = ticket::Delete::new(request.keys.connection, request.keys.transfer);
    let hr = filter.delete(request, &mut t, info);
    let resolved_by_handler = t.resolved();
    let cmds = t.into_commands();
    let replies = run_commands(os, request.keys, cmds);
    proof {
        let tbl = old(os).table();
        if tbl.dom().contains(request.keys) && tbl[request.keys].state is Pending
            && tbl[request.keys].kind == OperationKind::Delete
            && resolved_by_handler {
            let op = tbl[request.keys];
            assert(resolving_count(cmds@, op.eof) == 1);
            crate::command::lemma_first_resolving_witness(cmds@, op.eof);
            let i = choose|i: int|
                0 <= i < cmds@.len() && command_resolves(#[trigger] cmds@[i], op.eof)
                    && resolving_count(cmds@.take(i), op.eof) == 0;
            assert(ticket_command(op.kind, op.eof, cmds@[i]));
            assert(cmds@[i] is Delete);
            assert(replies@[i] is Ok);
            assert(os.table()[request.keys].state == OpState::Resolved(
                Resolution::DeleteAcknowledged,
            ));
        }
    }
    let mut denial_sent = false;
    match hr {
        Ok(_) => {},
        Err(e) => {
            if os.is_pending(request.keys) {
                denial_sent = send_denial(os, request.keys, e);
            }
        },
    }
    DispatchOutcome { handler_result: hr, resolved_by_handler, denial_sent, replies }
}

/// Dispatches a rename callback; see [dispatch_fetch_data].
pub fn dispatch_rename<F: SyncFilter>(
    filter: &F,
    os: &mut SessionTable,
    request: &info::Request,
    info: &info::Rename,
) -> (outcome: DispatchOutcome)
    ensures
        dispatch_frame(*old(os), *final(os), request.keys),
        old(os).table().dom().contains(request.keys) && old(os).table()[request.keys].state
            is Pending && outcome.handler_result is Err ==> final(os).table()[request.keys].state
            is Resolved,
        old(os).table().dom().contains(request.keys) && old(os).table()[request.keys].state
            is Pending && !outcome.resolved_by_handler && outcome.handler_result is Ok
            ==> *final(os) == *old(os),
        old(os).table().dom().contains(request.keys) && old(os).table()[request.keys].state
            is Pending && outcome.handler_result is Err
            && !outcome.resolved_by_handler ==> outcome.denial_sent
            && final(os).table()[request.keys].state == OpState::Resolved(
            (Resolution::Denied { error: outcome.handler_result->Err_0 }),
        ),
        old(os).table().dom().contains(request.keys) && old(os).table()[request.keys].state
            is Pending && old(os).table()[request.keys].kind == OperationKind::Rename
            && outcome.resolved_by_handler ==> final(os).table()[request.keys].state == OpState::Resolved(
            Resolution::RenameAcknowledged,
        ),
        outcome.denial_sent ==> outcome.handler_result is Err,
{
    let mut t = ticket::Rename::new(request.keys.connection, request.keys.transfer);
    let hr = filter.rename(request, &mut t, info);
    let resolved_by_handler = t.resolved();
    let cmds = t.into_commands();
    let replies = run_commands(os, request.keys, cmds);
    proof {
        let tbl = old(os).table();
        if tbl.dom().contains(request.keys) && tbl[request.keys].state is Pending
            && tbl[request.keys].kind == OperationKind::Rename
            && resolved_by_handler {
            let op = tbl[request.keys];
            assert(resolving_count(cmds@, op.eof) == 1);
            crate::command::lemma_first_resolving_witness(cmds@, op.eof);
            let i = choose|i: int|
                0 <= i < cmds@.len() && command_resolves(#[trigger] cmds@[i], op.eof)
                    && resolving_count(cmds@.take(i), op.eof) == 0;
            assert(ticket_command(op.kind, op.eof, cmds@[i]));
            assert(cmds@[i] is Rename);
            assert(replies@[i] is Ok);
            assert(os.table()[request.keys].state == OpState::Resolved(
                Resolution::RenameAcknowledged,
            ));
        }
    }
    let mut denial_sent = false;
    match hr {
        Ok(_) => {},
        Err(e) => {
            if os.is_pending(request.keys) {
                denial_sent = send_denial(os, request.keys, e);
            }
        },
    }
    DispatchOutcome { handler_result: hr, resolved_by_handler, denial_sent, replies }
}

/// Dispatches a hydration cancellation: marks the operation cancelled in
/// the table (if it is still pending) and notifies the handler.  A pair
/// that already resolved is left untouched: the earlier of cancellation
/// and resolution wins, the later action fails cleanly.
pub fn dispatch_cancel_fetch_data<F: SyncFilter>(
    filter: &F,
    os: &mut SessionTable,
    request: &info::Request,
    info: &info::CancelFetchData,
)
    ensures
        !old(os).table().dom().contains(request.keys) ==> *final(os) == *old(os),
        old(os).table().dom().contains(request.keys) && !(old(os).table()[request.keys].state
            is Pending) ==> *final(os) == *old(os),
        old(os).table().dom().contains(request.keys) && old(os).table()[request.keys].state
            is Pending ==> final(os).table() == old(os).table().insert(
            request.keys,
            (Operation {
                keys: request.keys,
                kind: old(os).table()[request.keys].kind,
                eof: old(os).table()[request.keys].eof,
                state: OpState::Cancelled,
            }),
        ),
{
    os.cancel(request.keys);
    filter.cancel_fetch_data(request, info);
}

/// Dispatches a directory-population cancellation; see
/// [dispatch_cancel_fetch_data].
pub fn dispatch_cancel_fetch_placeholders<F: SyncFilter>(
    filter: &F,
    os: &mut SessionTable,
    request: &info::Request,
    info: &info::CancelFetchPlaceholders,
)
    ensures
        !old(os).table().dom().contains(request.keys) ==> *final(os) == *old(os),
        old(os).table().dom().contains(request.keys) && !(old(os).table()[request.keys].state
            is Pending) ==> *final(os) == *old(os),
        old(os).table().dom().contains(request.keys) && old(os).table()[request.keys].state
            is Pending ==> final(os).table() == old(os).table().insert(
            request.keys,
            (Operation {
                keys: request.keys,
                kind: old(os).table()[request.keys].kind,
                eof: old(os).table()[request.keys].eof,
                state: OpState::Cancelled,
            }),
        ),
{
    os.cancel(request.keys);
    filter.cancel_fetch_placeholders(request, info);
}

} // verus!
