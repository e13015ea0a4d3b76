//! Tickets: capability-scoped handles used to resolve one terminating
//! operation each.  A ticket owns a correlation key pair and exposes only
//! the commands that are legal for its operation kind, so that an illegal
//! response is a compile-time impossibility rather than a runtime rejection.
//!
//! A ticket queues the commands it is asked to issue; the dispatcher drains
//! the queue and executes it against the system.  Each ticket resolves at
//! most once: after the resolving command has been queued, every further
//! terminating call fails cleanly with `InvalidArgument` and queues nothing.
//! The one exception is progress reporting, which after resolution is a
//! silent no-op rather than an error.

use vstd::prelude::*;
use crate::command::{
    lemma_resolving_count_push, resolving_count, ticket_command, Command, OperationKind,
    PlaceholderEntry, MAX_BLOB_SIZE, TRANSFER_ALIGNMENT,
};
use crate::error::{CResult, CloudErrorKind};
use crate::keys::{KeyPair, RawConnectionKey, RawTransferKey};

verus! {

/// A ticket for a hydration request: the placeholder should be populated
/// with its remote content.  Capabilities: read, write, progress reporting.
/// The write that covers the logical end of file completes the hydration
/// and resolves the ticket.
#[derive(Debug)]
pub struct FetchData {
    connection_key: RawConnectionKey,
    transfer_key: RawTransferKey,
    file_size: u64,
    resolved: bool,
    outbox: Vec<Command>,
}

impl FetchData {
    #[verifier::type_invariant]
    spec fn wf(self) -> bool {
        &&& forall|i: int|
            0 <= i < self.outbox@.len() ==> ticket_command(
                OperationKind::FetchData,
                self.file_size,
                #[trigger] self.outbox@[i],
            )
        &&& resolving_count(self.outbox@, self.file_size) <= 1
        &&& (self.resolved <==> resolving_count(self.outbox@, self.file_size) == 1)
    }

    pub closed spec fn connection(self) -> RawConnectionKey {
        self.connection_key
    }

    pub closed spec fn transfer(self) -> RawTransferKey {
        self.transfer_key
    }

    /// The logical end of file of the placeholder under hydration.
    pub closed spec fn eof(self) -> u64 {
        self.file_size
    }

    /// Whether the resolving command has been issued.
    pub closed spec fn is_resolved(self) -> bool {
        self.resolved
    }

    /// The commands issued so far and not yet drained.
    pub closed spec fn pending(self) -> Seq<Command> {
        self.outbox@
    }

    /// Create a new [FetchData] for one key pair; `file_size` is the
    /// logical end of file reported alongside the callback.
    pub fn new(connection_key: RawConnectionKey, transfer_key: RawTransferKey, file_size: u64) -> (t:
        Self)
        ensures
            t.connection() == connection_key,
            t.transfer() == transfer_key,
            t.eof() == file_size,
            !t.is_resolved(),
            t.pending() == Seq::<Command>::empty(),
    {
        let t = FetchData { connection_key, transfer_key, file_size, resolved: false, outbox: Vec::new() };
        proof {
            assert(t.outbox@ =~= Seq::<Command>::empty());
        }
        t
    }

    /// The key pair this ticket answers for.
    pub fn key_pair(&self) -> (k: KeyPair)
        ensures
            k.connection == self.connection(),
            k.transfer == self.transfer(),
    {
        KeyPair { connection: self.connection_key, transfer: self.transfer_key }
    }

    /// Whether the resolving command has been issued.
    pub fn resolved(&self) -> (r: bool)
        ensures
            r == self.is_resolved(),
    {
        self.resolved
    }

    /// The logical end of file this ticket was issued for.
    pub fn file_size(&self) -> (r: u64)
        ensures
            r == self.eof(),
    {
        self.file_size
    }

    /// Reports hydration progress next to the file: advisory, terminates
    /// nothing, callable any number of times.  Called after resolution it is
    /// a silent no-op and still succeeds.
    pub fn report_progress(&mut self, total: u64, completed: u64) -> (r: CResult<()>)
        ensures
            r == Ok::<(), CloudErrorKind>(()),
            final(self).connection() == old(self).connection(),
            final(self).transfer() == old(self).transfer(),
            final(self).eof() == old(self).eof(),
            final(self).is_resolved() == old(self).is_resolved(),
            old(self).is_resolved() ==> final(self).pending() == old(self).pending(),
            !old(self).is_resolved() ==> final(self).pending() == old(self).pending().push(
                (Command::Progress { total, completed }),
            ),
    {
        proof {
            use_type_invariant(&*self);
        }
        if self.resolved {
            return Ok(());
        }
        let mut cmds: Vec<Command> = Vec::new();
        std::mem::swap(&mut cmds, &mut self.outbox);
        proof {
            lemma_resolving_count_push(
                cmds@,
                Command::Progress { total, completed },
                self.file_size,
            );
        }
        cmds.push(Command::Progress { total, completed });
        self.outbox = cmds;
        Ok(())
    }

    /// Asks the system to deliver `length` bytes of the underlying remote
    /// content at `position`.  Fails with `IoError` when the position lies
    /// beyond the end of file, and with `InvalidArgument` once the ticket
    /// has resolved.
    pub fn read_at(&mut self, length: u64, position: u64) -> (r: CResult<()>)
        ensures
            final(self).connection() == old(self).connection(),
            final(self).transfer() == old(self).transfer(),
            final(self).eof() == old(self).eof(),
            final(self).is_resolved() == old(self).is_resolved(),
            old(self).is_resolved() ==> r == Err::<(), CloudErrorKind>(
                CloudErrorKind::InvalidArgument,
            ) && *final(self) == *old(self),
            !old(self).is_resolved() && position > old(self).eof() ==> r == Err::<(),
                CloudErrorKind,
            >(CloudErrorKind::IoError) && *final(self) == *old(self),
            !old(self).is_resolved() && position <= old(self).eof() ==> r == Ok::<(),
                CloudErrorKind,
            >(()) && final(self).pending() == old(self).pending().push(
                (Command::Read { position, length }),
            ),
    {
        proof {
            use_type_invariant(&*self);
        }
        if self.resolved {
            return Err(CloudErrorKind::InvalidArgument);
        }
        if position > self.file_size {
            return Err(CloudErrorKind::IoError);
        }
        let mut cmds: Vec<Command> = Vec::new();
        std::mem::swap(&mut cmds, &mut self.outbox);
        proof {
            lemma_resolving_count_push(
                cmds@,
                Command::Read { position, length },
                self.file_size,
            );
        }
        cmds.push(Command::Read { position, length });
        self.outbox = cmds;
        Ok(())
    }

    /// Persists `buffer` into the placeholder's backing store at `position`.
    ///
    /// Every write except the final one covering the logical end of file
    /// must be a multiple of the transfer alignment; a misaligned write that
    /// does not cover the end of file fails with `InvalidArgument`, and a
    /// write reaching past the end of file fails with `IoError`.  The write
    /// that covers the end of file completes the hydration and resolves the
    /// ticket, whatever its length.
    pub fn write_at(&mut self, buffer: &[u8], position: u64) -> (r: CResult<()>)
        ensures
            final(self).connection() == old(self).connection(),
            final(self).transfer() == old(self).transfer(),
            final(self).eof() == old(self).eof(),
            old(self).is_resolved() ==> r == Err::<(), CloudErrorKind>(
                CloudErrorKind::InvalidArgument,
            ) && *final(self) == *old(self),
            !old(self).is_resolved() && position + buffer@.len() > old(self).eof() ==> r == Err::<
                (),
                CloudErrorKind,
            >(CloudErrorKind::IoError) && *final(self) == *old(self),
            !old(self).is_resolved() && position + buffer@.len() <= old(self).eof() && buffer@.len()
                as u64 % TRANSFER_ALIGNMENT != 0 && position + buffer@.len() != old(self).eof()
                ==> r == Err::<(), CloudErrorKind>(CloudErrorKind::InvalidArgument) && *final(self)
                == *old(self),
            !old(self).is_resolved() && position + buffer@.len() <= old(self).eof() && (buffer@.len()
                as u64 % TRANSFER_ALIGNMENT == 0 || position + buffer@.len() == old(self).eof())
                ==> r == Ok::<(), CloudErrorKind>(()) && final(self).pending() == old(
                self,
            ).pending().push(
                (Command::Write { position, length: buffer@.len() as u64 }),
            ) && final(self).is_resolved() == (position + buffer@.len() == old(self).eof()),
            !old(self).is_resolved() && !(position + buffer@.len() == old(self).eof())
                ==> final(self).is_resolved() == old(self).is_resolved(),
    {
        proof {
            use_type_invariant(&*self);
        }
        if self.resolved {
            return Err(CloudErrorKind::InvalidArgument);
        }
        let length = buffer.len() as u64;
        if position > self.file_size || length > self.file_size - position {
            return Err(CloudErrorKind::IoError);
        }
        let covers_eof = position + length == self.file_size;
        if !covers_eof && length % TRANSFER_ALIGNMENT != 0 {
            return Err(CloudErrorKind::InvalidArgument);
        }
        let mut cmds: Vec<Command> = Vec::new();
        std::mem::swap(&mut cmds, &mut self.outbox);
        proof {
            lemma_resolving_count_push(
                cmds@,
                Command::Write { position, length },
                self.file_size,
            );
        }
        cmds.push(Command::Write { position, length });
        if covers_eof {
            *self = FetchData {
                connection_key: self.connection_key,
                transfer_key: self.transfer_key,
                file_size: self.file_size,
                resolved: true,
                outbox: cmds,
            };
        } else {
            self.outbox = cmds;
        }
        Ok(())
    }

    /// Surrenders the ticket and hands its queued commands to the
    /// dispatcher.  The queue holds only commands this ticket's kind may
    /// issue, and exactly one of them resolves the operation when the
    /// ticket resolved — none otherwise.
    pub(crate) fn into_commands(self) -> (cmds: Vec<Command>)
        ensures
            cmds@ == self.pending(),
            forall|i: int|
                0 <= i < cmds@.len() ==> ticket_command(
                    OperationKind::FetchData,
                    self.eof(),
                    #[trigger] cmds@[i],
                ),
            self.is_resolved() ==> resolving_count(cmds@, self.eof()) == 1,
            !self.is_resolved() ==> resolving_count(cmds@, self.eof()) == 0,
    {
        proof {
            use_type_invariant(&self);
        }
        let FetchData { outbox, .. } = self;
        outbox
    }
}

/// A ticket for a data-validation request: the provider must verify the
/// integrity of the bytes already persisted in the placeholder.
/// Capabilities: read, and acknowledging a byte range as valid.
#[derive(Debug)]
pub struct ValidateData {
    connection_key: RawConnectionKey,
    transfer_key: RawTransferKey,
    file_size: u64,
    resolved: bool,
    outbox: Vec<Command>,
}

impl ValidateData {
    #[verifier::type_invariant]
    spec fn wf(self) -> bool {
        &&& forall|i: int|
            0 <= i < self.outbox@.len() ==> ticket_command(
                OperationKind::ValidateData,
                self.file_size,
                #[trigger] self.outbox@[i],
            )
        &&& resolving_count(self.outbox@, self.file_size) <= 1
        &&& (self.resolved <==> resolving_count(self.outbox@, self.file_size) == 1)
    }

    pub closed spec fn connection(self) -> RawConnectionKey {
        self.connection_key
    }

    pub closed spec fn transfer(self) -> RawTransferKey {
        self.transfer_key
    }

    /// The logical end of file of the placeholder under validation.
    pub closed spec fn eof(self) -> u64 {
        self.file_size
    }

    /// Whether the resolving command has been issued.
    pub closed spec fn is_resolved(self) -> bool {
        self.resolved
    }

    /// The commands issued so far and not yet drained.
    pub closed spec fn pending(self) -> Seq<Command> {
        self.outbox@
    }

    /// Create a new [ValidateData] for one key pair; `file_size` is the
    /// logical end of file reported alongside the callback.
    pub fn new(connection_key: RawConnectionKey, transfer_key: RawTransferKey, file_size: u64) -> (t:
        Self)
        ensures
            t.connection() == connection_key,
            t.transfer() == transfer_key,
            t.eof() == file_size,
            !t.is_resolved(),
            t.pending() == Seq::<Command>::empty(),
    {
        let t = ValidateData {
            connection_key,
            transfer_key,
            file_size,
            resolved: false,
            outbox: Vec::new(),
        };
        proof {
            assert(t.outbox@ =~= Seq::<Command>::empty());
        }
        t
    }

    /// The key pair this ticket answers for.
    pub fn key_pair(&self) -> (k: KeyPair)
        ensures
            k.connection == self.connection(),
            k.transfer == self.transfer(),
    {
        KeyPair { connection: self.connection_key, transfer: self.transfer_key }
    }

    /// Whether the resolving command has been issued.
    pub fn resolved(&self) -> (r: bool)
        ensures
            r == self.is_resolved(),
    {
        self.resolved
    }

    /// The logical end of file this ticket was issued for.
    pub fn file_size(&self) -> (r: u64)
        ensures
            r == self.eof(),
    {
        self.file_size
    }

    /// Asks the system to deliver `length` bytes of the placeholder's
    /// persisted content at `position`, so that the provider can check it.
    /// In this validation context the system delivers exactly the requested
    /// length; a request past the end of file fails with `IoError`, and any
    /// request after resolution fails with `InvalidArgument`.
    pub fn read_at(&mut self, length: u64, position: u64) -> (r: CResult<()>)
        ensures
            final(self).connection() == old(self).connection(),
            final(self).transfer() == old(self).transfer(),
            final(self).eof() == old(self).eof(),
            final(self).is_resolved() == old(self).is_resolved(),
            old(self).is_resolved() ==> r == Err::<(), CloudErrorKind>(
                CloudErrorKind::InvalidArgument,
            ) && *final(self) == *old(self),
            !old(self).is_resolved() && position + length > old(self).eof() ==> r == Err::<(),
                CloudErrorKind,
            >(CloudErrorKind::IoError) && *final(self) == *old(self),
            !old(self).is_resolved() && position + length <= old(self).eof() ==> r == Ok::<(),
                CloudErrorKind,
            >(()) && final(self).pending() == old(self).pending().push(
                (Command::Read { position, length }),
            ),
    {
        proof {
            use_type_invariant(&*self);
        }
        if self.resolved {
            return Err(CloudErrorKind::InvalidArgument);
        }
        if position > self.file_size || length > self.file_size - position {
            return Err(CloudErrorKind::IoError);
        }
        let mut cmds: Vec<Command> = Vec::new();
        std::mem::swap(&mut cmds, &mut self.outbox);
        proof {
            lemma_resolving_count_push(cmds@, Command::Read { position, length }, self.file_size);
        }
        cmds.push(Command::Read { position, length });
        self.outbox = cmds;
        Ok(())
    }

    /// Acknowledges the byte range `start..end` of the placeholder as
    /// hydrated and valid, resolving the ticket.  An inverted range fails
    /// with `InvalidArgument`; a range past the end of file fails with
    /// `IoError`; a second resolution fails cleanly with `InvalidArgument`.
    pub fn pass(&mut self, start: u64, end: u64) -> (r: CResult<()>)
        ensures
            final(self).connection() == old(self).connection(),
            final(self).transfer() == old(self).transfer(),
            final(self).eof() == old(self).eof(),
            old(self).is_resolved() ==> r == Err::<(), CloudErrorKind>(
                CloudErrorKind::InvalidArgument,
            ) && *final(self) == *old(self),
            !old(self).is_resolved() && start > end ==> r == Err::<(), CloudErrorKind>(
                CloudErrorKind::InvalidArgument,
            ) && *final(self) == *old(self),
            !old(self).is_resolved() && start <= end && end > old(self).eof() ==> r == Err::<(),
                CloudErrorKind,
            >(CloudErrorKind::IoError) && *final(self) == *old(self),
            !old(self).is_resolved() && start <= end <= old(self).eof() ==> r == Ok::<(),
                CloudErrorKind,
            >(()) && final(self).pending() == old(self).pending().push(
                (Command::Validate { start, end }),
            ) && final(self).is_resolved(),
    {
        proof {
            use_type_invariant(&*self);
        }
        if self.resolved {
            return Err(CloudErrorKind::InvalidArgument);
        }
        if start > end {
            return Err(CloudErrorKind::InvalidArgument);
        }
        if end > self.file_size {
            return Err(CloudErrorKind::IoError);
        }
        let mut cmds: Vec<Command> = Vec::new();
        std::mem::swap(&mut cmds, &mut self.outbox);
        proof {
            lemma_resolving_count_push(cmds@, Command::Validate { start, end }, self.file_size);
        }
        cmds.push(Command::Validate { start, end });
        *self = ValidateData {
            connection_key: self.connection_key,
            transfer_key: self.transfer_key,
            file_size: self.file_size,
            resolved: true,
            outbox: cmds,
        };
        Ok(())
    }

    /// Surrenders the ticket and hands its queued commands to the
    /// dispatcher.  The queue holds only commands this ticket's kind may
    /// issue, and exactly one of them resolves the operation when the
    /// ticket resolved — none otherwise.
    pub(crate) fn into_commands(self) -> (cmds: Vec<Command>)
        ensures
            cmds@ == self.pending(),
            forall|i: int|
                0 <= i < cmds@.len() ==> ticket_command(
                    OperationKind::ValidateData,
                    self.eof(),
                    #[trigger] cmds@[i],
                ),
            self.is_resolved() ==> resolving_count(cmds@, self.eof()) == 1,
            !self.is_resolved() ==> resolving_count(cmds@, self.eof()) == 0,
            self.is_resolved() ==> forall|eof: u64| #[trigger] resolving_count(cmds@, eof) == 1,
            !self.is_resolved() ==> forall|eof: u64| #[trigger] resolving_count(cmds@, eof) == 0,
    {
        proof {
            use_type_invariant(&self);
            assert forall|eof: u64| #[trigger] resolving_count(self.outbox@, eof)
                == resolving_count(self.outbox@, self.file_size) by {
                assert(forall|i: int|
                    0 <= i < self.outbox@.len() ==> !(#[trigger] self.outbox@[i] is Write));
                crate::command::lemma_resolving_count_eof_independent(
                    self.outbox@,
                    eof,
                    self.file_size,
                );
            }
        }
        let ValidateData { outbox, .. } = self;
        outbox
    }
}

/// A ticket for a directory-population request.  Capability: passing back
/// the list of child placeholders to create.
#[derive(Debug)]
pub struct FetchPlaceholders {
    connection_key: RawConnectionKey,
    transfer_key: RawTransferKey,
    resolved: bool,
    outbox: Vec<Command>,
}

impl FetchPlaceholders {
    #[verifier::type_invariant]
    spec fn wf(self) -> bool {
        &&& forall|i: int|
            0 <= i < self.outbox@.len() ==> ticket_command(
                OperationKind::FetchPlaceholders,
                0,
                #[trigger] self.outbox@[i],
            )
        &&& resolving_count(self.outbox@, 0) <= 1
        &&& (self.resolved <==> resolving_count(self.outbox@, 0) == 1)
    }

    pub closed spec fn connection(self) -> RawConnectionKey {
        self.connection_key
    }

    pub closed spec fn transfer(self) -> RawTransferKey {
        self.transfer_key
    }

    /// Whether the resolving command has been issued.
    pub closed spec fn is_resolved(self) -> bool {
        self.resolved
    }

    /// The commands issued so far and not yet drained.
    pub closed spec fn pending(self) -> Seq<Command> {
        self.outbox@
    }

    /// Create a new [FetchPlaceholders] for one key pair.
    pub fn new(connection_key: RawConnectionKey, transfer_key: RawTransferKey) -> (t: Self)
        ensures
            t.connection() == connection_key,
            t.transfer() == transfer_key,
            !t.is_resolved(),
            t.pending() == Seq::<Command>::empty(),
    {
        let t = FetchPlaceholders { connection_key, transfer_key, resolved: false, outbox: Vec::new() };
        proof {
            assert(t.outbox@ =~= Seq::<Command>::empty());
        }
        t
    }

    /// The key pair this ticket answers for.
    pub fn key_pair(&self) -> (k: KeyPair)
        ensures
            k.connection == self.connection(),
            k.transfer == self.transfer(),
    {
        KeyPair { connection: self.connection_key, transfer: self.transfer_key }
    }

    /// Whether the resolving command has been issued.
    pub fn resolved(&self) -> (r: bool)
        ensures
            r == self.is_resolved(),
    {
        self.resolved
    }

    /// Passes back the child entries to create under the directory being
    /// enumerated, resolving the ticket.  The system answers with one
    /// outcome per entry, in order.  A second resolution fails cleanly with
    /// `InvalidArgument`.
    pub fn pass_with_placeholder(&mut self, placeholders: Vec<PlaceholderEntry>) -> (r: CResult<()>)
        ensures
            final(self).connection() == old(self).connection(),
            final(self).transfer() == old(self).transfer(),
            old(self).is_resolved() ==> r == Err::<(), CloudErrorKind>(
                CloudErrorKind::InvalidArgument,
            ) && *final(self) == *old(self),
            !old(self).is_resolved() ==> r == Ok::<(), CloudErrorKind>(()) && final(self).pending() == old(self).pending().push(
                (Command::CreatePlaceholders { entries: placeholders }),
            ) && final(self).is_resolved(),
    {
        proof {
            use_type_invariant(&*self);
        }
        if self.resolved {
            return Err(CloudErrorKind::InvalidArgument);
        }
        let mut cmds: Vec<Command> = Vec::new();
        std::mem::swap(&mut cmds, &mut self.outbox);
        proof {
            lemma_resolving_count_push(
                cmds@,
                Command::CreatePlaceholders { entries: placeholders },
                0,
            );
        }
        cmds.push(Command::CreatePlaceholders { entries: placeholders });
        *self = FetchPlaceholders {
            connection_key: self.connection_key,
            transfer_key: self.transfer_key,
            resolved: true,
            outbox: cmds,
        };
        Ok(())
    }

    /// Surrenders the ticket and hands its queued commands to the
    /// dispatcher.  The queue holds only commands this ticket's kind may
    /// issue, and exactly one of them resolves the operation when the
    /// ticket resolved — none otherwise.
    pub(crate) fn into_commands(self) -> (cmds: Vec<Command>)
        ensures
            cmds@ == self.pending(),
            forall|i: int|
                0 <= i < cmds@.len() ==> ticket_command(
                    OperationKind::FetchPlaceholders,
                    0,
                    #[trigger] cmds@[i],
                ),
            self.is_resolved() ==> forall|eof: u64| #[trigger] resolving_count(cmds@, eof) == 1,
            !self.is_resolved() ==> forall|eof: u64| #[trigger] resolving_count(cmds@, eof) == 0,
    {
        proof {
            use_type_invariant(&self);
            assert forall|eof: u64| #[trigger] resolving_count(self.outbox@, eof)
                == resolving_count(self.outbox@, 0) by {
                assert(forall|i: int|
                    0 <= i < self.outbox@.len() ==> !(#[trigger] self.outbox@[i] is Write));
                crate::command::lemma_resolving_count_eof_independent(self.outbox@, eof, 0);
            }
        }
        let FetchPlaceholders { outbox, .. } = self;
        outbox
    }
}

/// A ticket for a dehydration request: all local content of the file is
/// about to be discarded.  Capabilities: approving, with or without a
/// replacement metadata blob.
#[derive(Debug)]
pub struct Dehydrate {
    connection_key: RawConnectionKey,
    transfer_key: RawTransferKey,
    resolved: bool,
    outbox: Vec<Command>,
}

impl Dehydrate {
    #[verifier::type_invariant]
    spec fn wf(self) -> bool {
        &&& forall|i: int|
            0 <= i < self.outbox@.len() ==> ticket_command(
                OperationKind::Dehydrate,
                0,
                #[trigger] self.outbox@[i],
            )
        &&& resolving_count(self.outbox@, 0) <= 1
        &&& (self.resolved <==> resolving_count(self.outbox@, 0) == 1)
    }

    pub closed spec fn connection(self) -> RawConnectionKey {
        self.connection_key
    }

    pub closed spec fn transfer(self) -> RawTransferKey {
        self.transfer_key
    }

    /// Whether the resolving command has been issued.
    pub closed spec fn is_resolved(self) -> bool {
        self.resolved
    }

    /// The commands issued so far and not yet drained.
    pub closed spec fn pending(self) -> Seq<Command> {
        self.outbox@
    }

    /// Create a new [Dehydrate] for one key pair.
    pub fn new(connection_key: RawConnectionKey, transfer_key: RawTransferKey) -> (t: Self)
        ensures
            t.connection() == connection_key,
            t.transfer() == transfer_key,
            !t.is_resolved(),
            t.pending() == Seq::<Command>::empty(),
    {
        let t = Dehydrate { connection_key, transfer_key, resolved: false, outbox: Vec::new() };
        proof {
            assert(t.outbox@ =~= Seq::<Command>::empty());
        }
        t
    }

    /// The key pair this ticket answers for.
    pub fn key_pair(&self) -> (k: KeyPair)
        ensures
            k.connection == self.connection(),
            k.transfer == self.transfer(),
    {
        KeyPair { connection: self.connection_key, transfer: self.transfer_key }
    }

    /// Whether the resolving command has been issued.
    pub fn resolved(&self) -> (r: bool)
        ensures
            r == self.is_resolved(),
    {
        self.resolved
    }

    /// Confirms dehydration of the file, keeping no metadata blob, and
    /// resolves the ticket.  A second resolution fails cleanly with
    /// `InvalidArgument`.
    pub fn pass(&mut self) -> (r: CResult<()>)
        ensures
            final(self).connection() == old(self).connection(),
            final(self).transfer() == old(self).transfer(),
            old(self).is_resolved() ==> r == Err::<(), CloudErrorKind>(
                CloudErrorKind::InvalidArgument,
            ) && *final(self) == *old(self),
            !old(self).is_resolved() ==> r == Ok::<(), CloudErrorKind>(()) && final(self).is_resolved() && final(self).pending().len() == old(self).pending().len() + 1 && final(self).pending().drop_last() == old(self).pending() && (final(self).pending().last() matches
                Command::Dehydrate { blob } && blob@ == Seq::<u8>::empty()),
    {
        proof {
            use_type_invariant(&*self);
        }
        if self.resolved {
            return Err(CloudErrorKind::InvalidArgument);
        }
        let blob: Vec<u8> = Vec::new();
        let mut cmds: Vec<Command> = Vec::new();
        std::mem::swap(&mut cmds, &mut self.outbox);
        proof {
            lemma_resolving_count_push(cmds@, Command::Dehydrate { blob }, 0);
            assert(blob@ =~= Seq::<u8>::empty());
        }
        cmds.push(Command::Dehydrate { blob });
        *self = Dehydrate {
            connection_key: self.connection_key,
            transfer_key: self.transfer_key,
            resolved: true,
            outbox: cmds,
        };
        proof {
            assert(self.outbox@.drop_last() =~= old(self).pending());
        }
        Ok(())
    }

    /// Confirms dehydration of the file and replaces its persisted metadata
    /// blob, resolving the ticket.  A blob over [MAX_BLOB_SIZE] bytes is
    /// rejected with `InvalidArgument` before any command is queued, and the
    /// ticket stays unresolved.  A second resolution fails cleanly with
    /// `InvalidArgument`.
    pub fn pass_with_blob(&mut self, blob: Vec<u8>) -> (r: CResult<()>)
        ensures
            final(self).connection() == old(self).connection(),
            final(self).transfer() == old(self).transfer(),
            old(self).is_resolved() ==> r == Err::<(), CloudErrorKind>(
                CloudErrorKind::InvalidArgument,
            ) && *final(self) == *old(self),
            !old(self).is_resolved() && blob@.len() > MAX_BLOB_SIZE ==> r == Err::<(),
                CloudErrorKind,
            >(CloudErrorKind::InvalidArgument) && *final(self) == *old(self),
            !old(self).is_resolved() && blob@.len() <= MAX_BLOB_SIZE ==> r == Ok::<(),
                CloudErrorKind,
            >(()) && final(self).pending() == old(self).pending().push(
                (Command::Dehydrate { blob }),
            ) && final(self).is_resolved(),
    {
        proof {
            use_type_invariant(&*self);
        }
        if self.resolved {
            return Err(CloudErrorKind::InvalidArgument);
        }
        if blob.len() > MAX_BLOB_SIZE {
            return Err(CloudErrorKind::InvalidArgument);
        }
        let mut cmds: Vec<Command> = Vec::new();
        std::mem::swap(&mut cmds, &mut self.outbox);
        proof {
            lemma_resolving_count_push(cmds@, Command::Dehydrate { blob: blob }, 0);
        }
        cmds.push(Command::Dehydrate { blob });
        *self = Dehydrate {
            connection_key: self.connection_key,
            transfer_key: self.transfer_key,
            resolved: true,
            outbox: cmds,
        };
        Ok(())
    }

    /// Surrenders the ticket and hands its queued commands to the
    /// dispatcher.  The queue holds only commands this ticket's kind may
    /// issue, and exactly one of them resolves the operation when the
    /// ticket resolved — none otherwise.
    pub(crate) fn into_commands(self) -> (cmds: Vec<Command>)
        ensures
            cmds@ == self.pending(),
            forall|i: int|
                0 <= i < cmds@.len() ==> ticket_command(
                    OperationKind::Dehydrate,
                    0,
                    #[trigger] cmds@[i],
                ),
            self.is_resolved() ==> forall|eof: u64| #[trigger] resolving_count(cmds@, eof) == 1,
            !self.is_resolved() ==> forall|eof: u64| #[trigger] resolving_count(cmds@, eof) == 0,
    {
        proof {
            use_type_invariant(&self);
            assert forall|eof: u64| #[trigger] resolving_count(self.outbox@, eof)
                == resolving_count(self.outbox@, 0) by {
                assert(forall|i: int|
                    0 <= i < self.outbox@.len() ==> !(#[trigger] self.outbox@[i] is Write));
                crate::command::lemma_resolving_count_eof_independent(self.outbox@, eof, 0);
            }
        }
        let Dehydrate { outbox, .. } = self;
        outbox
    }
}

/// A ticket for a pending deletion.  Capability: approving it.
#[derive(Debug)]
pub struct Delete {
    connection_key: RawConnectionKey,
    transfer_key: RawTransferKey,
    resolved: bool,
    outbox: Vec<Command>,
}

impl Delete {
    #[verifier::type_invariant]
    spec fn wf(self) -> bool {
        &&& forall|i: int|
            0 <= i < self.outbox@.len() ==> ticket_command(
                OperationKind::Delete,
                0,
                #[trigger] self.outbox@[i],
            )
        &&& resolving_count(self.outbox@, 0) <= 1
        &&& (self.resolved <==> resolving_count(self.outbox@, 0) == 1)
    }

    pub closed spec fn connection(self) -> RawConnectionKey {
        self.connection_key
    }

    pub closed spec fn transfer(self) -> RawTransferKey {
        self.transfer_key
    }

    /// Whether the resolving command has been issued.
    pub closed spec fn is_resolved(self) -> bool {
        self.resolved
    }

    /// The commands issued so far and not yet drained.
    pub closed spec fn pending(self) -> Seq<Command> {
        self.outbox@
    }

    /// Create a new [Delete] for one key pair.
    pub fn new(connection_key: RawConnectionKey, transfer_key: RawTransferKey) -> (t: Self)
        ensures
            t.connection() == connection_key,
            t.transfer() == transfer_key,
            !t.is_resolved(),
            t.pending() == Seq::<Command>::empty(),
    {
        let t = Delete { connection_key, transfer_key, resolved: false, outbox: Vec::new() };
        proof {
            assert(t.outbox@ =~= Seq::<Command>::empty());
        }
        t
    }

    /// The key pair this ticket answers for.
    pub fn key_pair(&self) -> (k: KeyPair)
        ensures
            k.connection == self.connection(),
            k.transfer == self.transfer(),
    {
        KeyPair { connection: self.connection_key, transfer: self.transfer_key }
    }

    /// Whether the resolving command has been issued.
    pub fn resolved(&self) -> (r: bool)
        ensures
            r == self.is_resolved(),
    {
        self.resolved
    }

    /// Confirms deletion of the file, resolving the ticket.  A second
    /// resolution fails cleanly with `InvalidArgument`.
    pub fn pass(&mut self) -> (r: CResult<()>)
        ensures
            final(self).connection() == old(self).connection(),
            final(self).transfer() == old(self).transfer(),
            old(self).is_resolved() ==> r == Err::<(), CloudErrorKind>(
                CloudErrorKind::InvalidArgument,
            ) && *final(self) == *old(self),
            !old(self).is_resolved() ==> r == Ok::<(), CloudErrorKind>(()) && final(self).pending() == old(self).pending().push(Command::Delete) && final(self).is_resolved(),
    {
        proof {
            use_type_invariant(&*self);
        }
        if self.resolved {
            return Err(CloudErrorKind::InvalidArgument);
        }
        let mut cmds: Vec<Command> = Vec::new();
        std::mem::swap(&mut cmds, &mut self.outbox);
        proof {
            lemma_resolving_count_push(cmds@, Command::Delete, 0);
        }
        cmds.push(Command::Delete);
        *self = Delete {
            connection_key: self.connection_key,
            transfer_key: self.transfer_key,
            resolved: true,
            outbox: cmds,
        };
        Ok(())
    }

    /// Surrenders the ticket and hands its queued commands to the
    /// dispatcher.  The queue holds only commands this ticket's kind may
    /// issue, and exactly one of them resolves the operation when the
    /// ticket resolved — none otherwise.
    pub(crate) fn into_commands(self) -> (cmds: Vec<Command>)
        ensures
            cmds@ == self.pending(),
            forall|i: int|
                0 <= i < cmds@.len() ==> ticket_command(
                    OperationKind::Delete,
                    0,
                    #[trigger] cmds@[i],
                ),
            self.is_resolved() ==> forall|eof: u64| #[trigger] resolving_count(cmds@, eof) == 1,
            !self.is_resolved() ==> forall|eof: u64| #[trigger] resolving_count(cmds@, eof) == 0,
    {
        proof {
            use_type_invariant(&self);
            assert forall|eof: u64| #[trigger] resolving_count(self.outbox@, eof)
                == resolving_count(self.outbox@, 0) by {
                assert(forall|i: int|
                    0 <= i < self.outbox@.len() ==> !(#[trigger] self.outbox@[i] is Write));
                crate::command::lemma_resolving_count_eof_independent(self.outbox@, eof, 0);
            }
        }
        let Delete { outbox, .. } = self;
        outbox
    }
}

/// A ticket for a pending rename or move.  Capability: approving it.
#[derive(Debug)]
pub struct Rename {
    connection_key: RawConnectionKey,
    transfer_key: RawTransferKey,
    resolved: bool,
    outbox: Vec<Command>,
}

impl Rename {
    #[verifier::type_invariant]
    spec fn wf(self) -> bool {
        &&& forall|i: int|
            0 <= i < self.outbox@.len() ==> ticket_command(
                OperationKind::Rename,
                0,
                #[trigger] self.outbox@[i],
            )
        &&& resolving_count(self.outbox@, 0) <= 1
        &&& (self.resolved <==> resolving_count(self.outbox@, 0) == 1)
    }

    pub closed spec fn connection(self) -> RawConnectionKey {
        self.connection_key
    }

    pub closed spec fn transfer(self) -> RawTransferKey {
        self.transfer_key
    }

    /// Whether the resolving command has been issued.
    pub closed spec fn is_resolved(self) -> bool {
        self.resolved
    }

    /// The commands issued so far and not yet drained.
    pub closed spec fn pending(self) -> Seq<Command> {
        self.outbox@
    }

    /// Create a new [Rename] for one key pair.
    pub fn new(connection_key: RawConnectionKey, transfer_key: RawTransferKey) -> (t: Self)
        ensures
            t.connection() == connection_key,
            t.transfer() == transfer_key,
            !t.is_resolved(),
            t.pending() == Seq::<Command>::empty(),
    {
        let t = Rename { connection_key, transfer_key, resolved: false, outbox: Vec::new() };
        proof {
            assert(t.outbox@ =~= Seq::<Command>::empty());
        }
        t
    }

    /// The key pair this ticket answers for.
    pub fn key_pair(&self) -> (k: KeyPair)
        ensures
            k.connection == self.connection(),
            k.transfer == self.transfer(),
    {
        KeyPair { connection: self.connection_key, transfer: self.transfer_key }
    }

    /// Whether the resolving command has been issued.
    pub fn resolved(&self) -> (r: bool)
        ensures
            r == self.is_resolved(),
    {
        self.resolved
    }

    /// Confirms the rename or move of the file, resolving the ticket.  A
    /// second resolution fails cleanly with `InvalidArgument`.
    pub fn pass(&mut self) -> (r: CResult<()>)
        ensures
            final(self).connection() == old(self).connection(),
            final(self).transfer() == old(self).transfer(),
            old(self).is_resolved() ==> r == Err::<(), CloudErrorKind>(
                CloudErrorKind::InvalidArgument,
            ) && *final(self) == *old(self),
            !old(self).is_resolved() ==> r == Ok::<(), CloudErrorKind>(()) && final(self).pending() == old(self).pending().push(Command::Rename) && final(self).is_resolved(),
    {
        proof {
            use_type_invariant(&*self);
        }
        if self.resolved {
            return Err(CloudErrorKind::InvalidArgument);
        }
        let mut cmds: Vec<Command> = Vec::new();
        std::mem::swap(&mut cmds, &mut self.outbox);
        proof {
            lemma_resolving_count_push(cmds@, Command::Rename, 0);
        }
        cmds.push(Command::Rename);
        *self = Rename {
            connection_key: self.connection_key,
            transfer_key: self.transfer_key,
            resolved: true,
            outbox: cmds,
        };
        Ok(())
    }

    /// Surrenders the ticket and hands its queued commands to the
    /// dispatcher.  The queue holds only commands this ticket's kind may
    /// issue, and exactly one of them resolves the operation when the
    /// ticket resolved — none otherwise.
    pub(crate) fn into_commands(self) -> (cmds: Vec<Command>)
        ensures
            cmds@ == self.pending(),
            forall|i: int|
                0 <= i < cmds@.len() ==> ticket_command(
                    OperationKind::Rename,
                    0,
                    #[trigger] cmds@[i],
                ),
            self.is_resolved() ==> forall|eof: u64| #[trigger] resolving_count(cmds@, eof) == 1,
            !self.is_resolved() ==> forall|eof: u64| #[trigger] resolving_count(cmds@, eof) == 0,
    {
        proof {
            use_type_invariant(&self);
            assert forall|eof: u64| #[trigger] resolving_count(self.outbox@, eof)
                == resolving_count(self.outbox@, 0) by {
                assert(forall|i: int|
                    0 <= i < self.outbox@.len() ==> !(#[trigger] self.outbox@[i] is Write));
                crate::command::lemma_resolving_count_eof_independent(self.outbox@, eof, 0);
            }
        }
        let Rename { outbox, .. } = self;
        outbox
    }
}

} // verus!
