//! The system side of the protocol: one record per minted correlation key
//! pair, tracking the operation's kind, its logical end of file, and its
//! lifecycle (pending, cancelled, or resolved exactly once).
//!
//! This table is the authoritative boundary model the dispatcher executes
//! commands against: a command for an unknown pair fails with `IoError` (a
//! stale transfer key); a resolving command for an already resolved pair
//! no-ops with `InvalidArgument` and never corrupts the recorded
//! resolution; any command for a cancelled pair fails with `Cancelled`.
//! Where a cancellation races a late resolution, whichever reaches the
//! table first wins and the later action fails cleanly.

use vstd::prelude::*;
use crate::command::{
    command_allowed, is_terminating_spec, resolution_allowed, Command, OperationKind,
    PlaceholderEntry, Resolution, MAX_BLOB_SIZE, TRANSFER_ALIGNMENT,
};
use crate::error::{CResult, CloudErrorKind};
use crate::keys::KeyPair;

verus! {

/// The lifecycle of one tracked operation.
#[derive(Clone, Debug, PartialEq, Eq)]
pub enum OpState {
    /// The callback fired; the provider still owes a resolving command.
    Pending,
    /// A cancellation notice arrived before any resolution.
    Cancelled,
    /// The operation was resolved, exactly once, with this resolution.
    Resolved(Resolution),
}

/// One in-flight or settled operation, keyed by its correlation key pair.
#[derive(Clone, Debug, PartialEq, Eq)]
pub struct Operation {
    /// The pair the system minted for this operation.
    pub keys: KeyPair,
    /// The terminating kind the callback was delivered as.
    pub kind: OperationKind,
    /// The logical end of file of the placeholder concerned.
    pub eof: u64,
    /// Where the operation stands.
    pub state: OpState,
}

/// All keys in `s` are distinct: a pair is never reused while tracked.
pub open spec fn unique_keys(s: Seq<Operation>) -> bool {
    forall|i: int, j: int|
        0 <= i < j < s.len() ==> (#[trigger] s[i]).keys != (#[trigger] s[j]).keys
}

/// The operation list, read as a map from key pair to operation.
pub open spec fn ops_as_map(s: Seq<Operation>) -> Map<KeyPair, Operation>
    decreases s.len(),
{
    if s.len() == 0 {
        Map::empty()
    } else {
        ops_as_map(s.drop_last()).insert(s.last().keys, s.last())
    }
}

pub proof fn lemma_ops_as_map_contains(s: Seq<Operation>, k: KeyPair)
    ensures
        ops_as_map(s).dom().contains(k) <==> exists|i: int|
            0 <= i < s.len() && (#[trigger] s[i]).keys == k,
    decreases s.len(),
{
    if s.len() > 0 {
        lemma_ops_as_map_contains(s.drop_last(), k);
        assert(forall|i: int| 0 <= i < s.len() - 1 ==> #[trigger] s.drop_last()[i] == s[i]);
        if s.last().keys == k {
            assert(s[s.len() - 1].keys == k);
        } else {
            if exists|i: int| 0 <= i < s.len() && (#[trigger] s[i]).keys == k {
                let i = choose|i: int| 0 <= i < s.len() && (#[trigger] s[i]).keys == k;
                assert(i < s.len() - 1);
                assert(s.drop_last()[i].keys == k);
            }
        }
    }
}

pub proof fn lemma_ops_as_map_lookup(s: Seq<Operation>, i: int)
    requires
        unique_keys(s),
        0 <= i < s.len(),
    ensures
        ops_as_map(s).dom().contains(s[i].keys),
        ops_as_map(s)[s[i].keys] == s[i],
    decreases s.len(),
{
    if i < s.len() - 1 {
        assert(forall|j: int| 0 <= j < s.len() - 1 ==> #[trigger] s.drop_last()[j] == s[j]);
        lemma_ops_as_map_lookup(s.drop_last(), i);
        assert(s.last().keys != s[i].keys);
    }
}

pub proof fn lemma_ops_as_map_push(s: Seq<Operation>, op: Operation)
    ensures
        ops_as_map(s.push(op)) == ops_as_map(s).insert(op.keys, op),
{
    assert(s.push(op).drop_last() =~= s);
    assert(s.push(op).last() == op);
}

pub proof fn lemma_ops_as_map_update(s: Seq<Operation>, i: int, op: Operation)
    requires
        unique_keys(s),
        0 <= i < s.len(),
        op.keys == s[i].keys,
    ensures
        ops_as_map(s.update(i, op)) == ops_as_map(s).insert(op.keys, op),
    decreases s.len(),
{
    let t = s.update(i, op);
    if i == s.len() - 1 {
        assert(t.drop_last() =~= s.drop_last());
        assert(t.last() == op);
        assert(ops_as_map(s).insert(op.keys, op) =~= ops_as_map(s.drop_last()).insert(
            op.keys,
            op,
        ));
    } else {
        assert(t.drop_last() =~= s.drop_last().update(i, op));
        assert(t.last() == s.last());
        assert(forall|j: int| 0 <= j < s.len() - 1 ==> #[trigger] s.drop_last()[j] == s[j]);
        lemma_ops_as_map_update(s.drop_last(), i, op);
        assert(s.last().keys != op.keys);
        assert(ops_as_map(t) =~= ops_as_map(s).insert(op.keys, op));
    }
}

/// The set of wide-character names a list of stored names denotes.
pub open spec fn name_views(s: Seq<Vec<u16>>) -> Set<Seq<u16>> {
    Set::new(|n: Seq<u16>| exists|i: int| 0 <= i < s.len() && (#[trigger] s[i])@ == n)
}

pub proof fn lemma_name_views_push(s: Seq<Vec<u16>>, n: Vec<u16>)
    ensures
        name_views(s.push(n)) =~= name_views(s).insert(n@),
{
    assert forall|x: Seq<u16>| name_views(s.push(n)).contains(x) implies name_views(s).insert(
        n@,
    ).contains(x) by {
        let i = choose|i: int| 0 <= i < s.push(n).len() && (#[trigger] s.push(n)[i])@ == x;
        if i < s.len() {
            assert(s[i]@ == x);
        } else {
            assert(x == n@);
        }
    };
    assert forall|x: Seq<u16>| name_views(s).insert(n@).contains(x) implies name_views(
        s.push(n),
    ).contains(x) by {
        if x == n@ {
            assert(s.push(n)[s.len() as int]@ == x);
        } else {
            let i = choose|i: int| 0 <= i < s.len() && (#[trigger] s[i])@ == x;
            assert(s.push(n)[i]@ == x);
        }
    };
}

/// The names taken after the first `i` entries of a bulk create have been
/// processed against the initially `existing` names: each accepted entry
/// claims its name; a rejected entry claims nothing.
pub open spec fn taken_after(
    existing: Set<Seq<u16>>,
    entries: Seq<PlaceholderEntry>,
    i: int,
) -> Set<Seq<u16>>
    decreases i,
{
    if i <= 0 {
        existing
    } else {
        let prev = taken_after(existing, entries, i - 1);
        if !prev.contains(entries[i - 1].name@) {
            prev.insert(entries[i - 1].name@)
        } else {
            prev
        }
    }
}

/// Whether entry `i` of a bulk create is accepted: its name must not be
/// taken by the pre-existing names or by an earlier accepted entry.
pub open spec fn entry_accepted(
    existing: Set<Seq<u16>>,
    entries: Seq<PlaceholderEntry>,
    i: int,
) -> bool {
    !taken_after(existing, entries, i).contains(entries[i].name@)
}

/// How many of the first `i` entries of a bulk create are accepted.
pub open spec fn accepted_count(
    existing: Set<Seq<u16>>,
    entries: Seq<PlaceholderEntry>,
    i: int,
) -> nat
    decreases i,
{
    if i <= 0 {
        0
    } else {
        accepted_count(existing, entries, i - 1) + (if entry_accepted(existing, entries, i - 1) {
            1nat
        } else {
            0nat
        })
    }
}

/// The outcome reported for entry `i` of a bulk create that hands out
/// change-sequence tokens starting at `base`: an accepted entry receives
/// the next token, in input order; a rejected entry receives `IoError`
/// (its name already exists) and consumes no token.
pub open spec fn entry_outcome(
    existing: Set<Seq<u16>>,
    base: u64,
    entries: Seq<PlaceholderEntry>,
    i: int,
) -> Result<u64, CloudErrorKind> {
    if entry_accepted(existing, entries, i) {
        Ok((base + accepted_count(existing, entries, i)) as u64)
    } else {
        Err(CloudErrorKind::IoError)
    }
}

/// Accepted entries never outnumber the entries processed.
pub proof fn lemma_accepted_count_le(existing: Set<Seq<u16>>, entries: Seq<PlaceholderEntry>, i: int)
    requires
        0 <= i,
    ensures
        accepted_count(existing, entries, i) <= i,
    decreases i,
{
    if i > 0 {
        lemma_accepted_count_le(existing, entries, i - 1);
    }
}

/// Change-sequence tokens are handed out monotonically: of two accepted
/// entries, the later one receives the strictly larger token.
pub proof fn lemma_usn_monotonic(
    existing: Set<Seq<u16>>,
    base: u64,
    entries: Seq<PlaceholderEntry>,
    i: int,
    j: int,
)
    requires
        0 <= i < j < entries.len(),
        base + entries.len() <= u64::MAX,
        entry_accepted(existing, entries, i),
        entry_accepted(existing, entries, j),
    ensures
        entry_outcome(existing, base, entries, i) matches Ok(u1) && entry_outcome(
            existing,
            base,
            entries,
            j,
        ) matches Ok(u2) && u1 < u2,
{
    lemma_accepted_count_mono(existing, entries, i, j);
    lemma_accepted_count_le(existing, entries, j);
}

proof fn lemma_remove_rejected_prefix(
    existing: Set<Seq<u16>>,
    entries: Seq<PlaceholderEntry>,
    k: int,
    i: int,
)
    requires
        0 <= i <= k < entries.len(),
    ensures
        taken_after(existing, entries.remove(k), i) == taken_after(existing, entries, i),
        accepted_count(existing, entries.remove(k), i) == accepted_count(existing, entries, i),
    decreases i,
{
    if i > 0 {
        lemma_remove_rejected_prefix(existing, entries, k, i - 1);
        assert(entries.remove(k)[i - 1] == entries[i - 1]);
    }
}

proof fn lemma_remove_rejected_suffix(
    existing: Set<Seq<u16>>,
    entries: Seq<PlaceholderEntry>,
    k: int,
    i: int,
)
    requires
        0 <= k <= i,
        i < entries.len(),
        !entry_accepted(existing, entries, k),
    ensures
        taken_after(existing, entries.remove(k), i) == taken_after(existing, entries, i + 1),
        accepted_count(existing, entries.remove(k), i) == accepted_count(existing, entries, i + 1),
    decreases i - k,
{
    if i == k {
        lemma_remove_rejected_prefix(existing, entries, k, k);
    } else {
        lemma_remove_rejected_suffix(existing, entries, k, i - 1);
        assert(entries.remove(k)[i - 1] == entries[i]);
    }
}

/// Partial-failure law for bulk creates: a rejected entry is inert.  If
/// entry `k` is rejected, every other entry's outcome — acceptance and
/// token alike — is exactly what it would have been had entry `k` not been
/// submitted at all.
pub proof fn lemma_failed_entry_independent(
    existing: Set<Seq<u16>>,
    base: u64,
    entries: Seq<PlaceholderEntry>,
    k: int,
)
    requires
        0 <= k < entries.len(),
        !entry_accepted(existing, entries, k),
    ensures
        forall|j: int|
            0 <= j < k ==> entry_outcome(existing, base, entries.remove(k), j) == entry_outcome(
                existing,
                base,
                entries,
                j,
            ),
        forall|j: int|
            k < j < entries.len() ==> entry_outcome(existing, base, entries.remove(k), j - 1)
                == entry_outcome(existing, base, entries, j),
{
    assert forall|j: int| 0 <= j < k implies entry_outcome(existing, base, entries.remove(k), j)
        == entry_outcome(existing, base, entries, j) by {
        lemma_remove_rejected_prefix(existing, entries, k, j);
        assert(entries.remove(k)[j] == entries[j]);
    };
    assert forall|j: int| k < j < entries.len() implies entry_outcome(
        existing,
        base,
        entries.remove(k),
        j - 1,
    ) == entry_outcome(existing, base, entries, j) by {
        lemma_remove_rejected_suffix(existing, entries, k, j - 1);
        assert(entries.remove(k)[j - 1] == entries[j]);
    };
}

/// What the system hands back for one executed command.
#[derive(Clone, Debug, PartialEq, Eq)]
pub enum Reply {
    /// The command was executed; it carries no data back.
    Done,
    /// A read delivered this many bytes (short only at end of file).
    Data { length: u64 },
    /// A bulk create answered with one outcome per entry, in input order:
    /// the entry's change-sequence token, or why it was rejected.
    Created { outcomes: Vec<Result<u64, CloudErrorKind>> },
}

/// The system-side table of every operation whose key pair was minted on
/// one connection.  It enforces the per-pair lifecycle; see the module
/// documentation.
#[derive(Debug)]
pub struct SessionTable {
    ops: Vec<Operation>,
    created: Vec<Vec<u16>>,
    next_usn: u64,
}

impl SessionTable {
    #[verifier::type_invariant]
    spec fn wf(self) -> bool {
        &&& unique_keys(self.ops@)
        &&& forall|i: int|
            0 <= i < self.ops@.len() ==> is_terminating_spec((#[trigger] self.ops@[i]).kind)
        &&& forall|i: int|
            0 <= i < self.ops@.len() ==> ((#[trigger] self.ops@[i]).state matches OpState::Resolved(
                res,
            ) ==> resolution_allowed(self.ops@[i].kind, res))
    }

    /// The tracked operations, keyed by correlation key pair.
    pub closed spec fn table(self) -> Map<KeyPair, Operation> {
        ops_as_map(self.ops@)
    }

    /// The names of the placeholder entries created so far.
    pub closed spec fn existing_names(self) -> Set<Seq<u16>> {
        name_views(self.created@)
    }

    /// The next change-sequence token to hand out.
    pub closed spec fn usn_counter(self) -> u64 {
        self.next_usn
    }

    /// An empty table; change-sequence tokens start at 1.
    pub fn new() -> (s: Self)
        ensures
            s.table() == Map::<KeyPair, Operation>::empty(),
            s.existing_names() == Set::<Seq<u16>>::empty(),
            s.usn_counter() == 1,
    {
        let s = SessionTable { ops: Vec::new(), created: Vec::new(), next_usn: 1 };
        proof {
            assert(s.ops@ =~= Seq::<Operation>::empty());
            assert(s.table() =~= Map::<KeyPair, Operation>::empty());
            assert(s.existing_names() =~= Set::<Seq<u16>>::empty());
        }
        s
    }

    /// The position of the operation for `keys`, if one is tracked.
    fn find_index(&self, keys: KeyPair) -> (r: Option<usize>)
        ensures
            r matches Some(i) ==> i < self.ops@.len() && self.ops@[i as int].keys == keys
                && self.table().dom().contains(keys) && self.table()[keys] == self.ops@[i as int],
            r is None ==> !self.table().dom().contains(keys),
    {
        proof {
            use_type_invariant(self);
        }
        let n = self.ops.len();
        let mut i: usize = 0;
        while i < n
            invariant
                n == self.ops@.len(),
                0 <= i <= n,
                forall|j: int| 0 <= j < i ==> (#[trigger] self.ops@[j]).keys != keys,
                unique_keys(self.ops@),
            decreases n - i,
        {
            if self.ops[i].keys == keys {
                proof {
                    lemma_ops_as_map_lookup(self.ops@, i as int);
                }
                return Some(i);
            }
            i += 1;
        }
        proof {
            lemma_ops_as_map_contains(self.ops@, keys);
        }
        None
    }

    /// Whether an operation for `keys` is tracked (in any state).
    pub fn contains(&self, keys: KeyPair) -> (r: bool)
        ensures
            r == self.table().dom().contains(keys),
    {
        match self.find_index(keys) {
            Some(_) => true,
            None => false,
        }
    }

    /// Mints a fresh pair: starts tracking a pending operation of the given
    /// terminating kind, with the placeholder's logical end of file.
    /// Returns `InvalidArgument` if the kind is notifying (such operations
    /// need no resolution and are not tracked), or if the pair is already
    /// tracked: a pair is never reused while in flight.
    pub fn begin(&mut self, keys: KeyPair, kind: OperationKind, eof: u64) -> (r: CResult<()>)
        ensures
            !is_terminating_spec(kind) ==> r == Err::<(), CloudErrorKind>(
                CloudErrorKind::InvalidArgument,
            ) && *final(self) == *old(self),
            is_terminating_spec(kind) && old(self).table().dom().contains(keys) ==> r == Err::<
                (),
                CloudErrorKind,
            >(CloudErrorKind::InvalidArgument) && *final(self) == *old(self),
            is_terminating_spec(kind) && !old(self).table().dom().contains(keys) ==> r == Ok::<
                (),
                CloudErrorKind,
            >(()) && final(self).table() == old(self).table().insert(
                keys,
                (Operation { keys, kind, eof, state: OpState::Pending }),
            ) && final(self).existing_names() == old(self).existing_names() && final(self).usn_counter() == old(self).usn_counter(),
    {
        proof {
            use_type_invariant(&*self);
        }
        if !kind.is_terminating() {
            return Err(CloudErrorKind::InvalidArgument);
        }
        if self.contains(keys) {
            return Err(CloudErrorKind::InvalidArgument);
        }
        let op = Operation { keys, kind, eof, state: OpState::Pending };
        let mut ops: Vec<Operation> = Vec::new();
        std::mem::swap(&mut ops, &mut self.ops);
        proof {
            lemma_ops_as_map_contains(ops@, keys);
            lemma_ops_as_map_push(ops@, op);
            assert(forall|j: int| 0 <= j < ops@.len() ==> #[trigger] ops@.push(op)[j] == ops@[j]);
        }
        ops.push(op);
        self.ops = ops;
        Ok(())
    }

    /// Records a best-effort cancellation notice for `keys`.  A pending
    /// operation becomes cancelled; anything else — an unknown pair, an
    /// already cancelled pair, or a pair that already resolved — is left
    /// exactly as it is: a resolution always outlives a later cancellation
    /// notice.
    pub fn cancel(&mut self, keys: KeyPair)
        ensures
            !old(self).table().dom().contains(keys) ==> *final(self) == *old(self),
            old(self).table().dom().contains(keys) && !(old(self).table()[keys].state
                is Pending) ==> *final(self) == *old(self),
            old(self).table().dom().contains(keys) && old(self).table()[keys].state is Pending
                ==> final(self).table() == old(self).table().insert(
                keys,
                (Operation {
                    keys,
                    kind: old(self).table()[keys].kind,
                    eof: old(self).table()[keys].eof,
                    state: OpState::Cancelled,
                }),
            ) && final(self).existing_names() == old(self).existing_names() && final(self).usn_counter() == old(self).usn_counter(),
    {
        proof {
            use_type_invariant(&*self);
        }
        let idx = match self.find_index(keys) {
            Some(i) => i,
            None => {
                return ;
            },
        };
        let pending = match &self.ops[idx].state {
            OpState::Pending => true,
            _ => false,
        };
        if !pending {
            return ;
        }
        let op = Operation {
            keys,
            kind: self.ops[idx].kind,
            eof: self.ops[idx].eof,
            state: OpState::Cancelled,
        };
        let mut ops: Vec<Operation> = Vec::new();
        std::mem::swap(&mut ops, &mut self.ops);
        proof {
            lemma_ops_as_map_update(ops@, idx as int, op);
        }
        ops.set(idx, op);
        self.ops = ops;
    }

    /// How many resolutions the system has recorded for `keys`: by
    /// construction never more than one.
    pub fn resolution_count(&self, keys: KeyPair) -> (n: u64)
        ensures
            n == if self.table().dom().contains(keys) && self.table()[keys].state is Resolved {
                1u64
            } else {
                0u64
            },
            n <= 1,
    {
        match self.find_index(keys) {
            Some(i) => match &self.ops[i].state {
                OpState::Resolved(_) => 1,
                _ => 0,
            },
            None => 0,
        }
    }

    /// Whether the operation for `keys` is tracked and still pending.
    pub fn is_pending(&self, keys: KeyPair) -> (r: bool)
        ensures
            r == (self.table().dom().contains(keys) && self.table()[keys].state is Pending),
    {
        match self.find_index(keys) {
            Some(i) => match &self.ops[i].state {
                OpState::Pending => true,
                _ => false,
            },
            None => false,
        }
    }

    /// Whether the operation for `keys` is tracked and cancelled.
    pub fn is_cancelled(&self, keys: KeyPair) -> (r: bool)
        ensures
            r == (self.table().dom().contains(keys) && self.table()[keys].state is Cancelled),
    {
        match self.find_index(keys) {
            Some(i) => match &self.ops[i].state {
                OpState::Cancelled => true,
                _ => false,
            },
            None => false,
        }
    }

    /// The resolution recorded for `keys`, if any.
    pub fn resolution_of(&self, keys: KeyPair) -> (r: Option<&Resolution>)
        ensures
            match r {
                Some(res) => self.table().dom().contains(keys) && (self.table()[keys].state
                    matches OpState::Resolved(x) && *res == x),
                None => !self.table().dom().contains(keys) || !(self.table()[keys].state
                    is Resolved),
            },
    {
        match self.find_index(keys) {
            Some(i) => match &self.ops[i].state {
                OpState::Resolved(res) => Some(res),
                _ => None,
            },
            None => None,
        }
    }

    /// The metadata blob persisted by an approved dehydration for `keys`,
    /// if that is how the operation resolved.
    pub fn persisted_context(&self, keys: KeyPair) -> (r: Option<&Vec<u8>>)
        ensures
            match r {
                Some(b) => self.table().dom().contains(keys) && (self.table()[keys].state matches
                    OpState::Resolved(Resolution::Dehydrated { blob }) && *b == blob),
                None => !self.table().dom().contains(keys) || !(self.table()[keys].state matches
                    OpState::Resolved(Resolution::Dehydrated { .. })),
            },
    {
        match self.find_index(keys) {
            Some(i) => match &self.ops[i].state {
                OpState::Resolved(Resolution::Dehydrated { blob }) => Some(blob),
                _ => None,
            },
            None => None,
        }
    }
}

/// How many bytes a read of `length` at `position` delivers: all of them,
/// unless the request runs past the end of file, in which case exactly the
/// bytes up to the end of file — a read is short only at end of file.
pub open spec fn read_length(eof: u64, position: u64, length: u64) -> u64
    recommends
        position <= eof,
{
    if position + length <= eof {
        length
    } else {
        (eof - position) as u64
    }
}

/// How a table changes when the operation for `keys` resolves: that one
/// record is rewritten as resolved, and nothing else moves.
pub open spec fn resolves_to(
    pre: SessionTable,
    post: SessionTable,
    keys: KeyPair,
    res: Resolution,
) -> bool {
    &&& post.table() == pre.table().insert(
        keys,
        (Operation {
            keys,
            kind: pre.table()[keys].kind,
            eof: pre.table()[keys].eof,
            state: OpState::Resolved(res),
        }),
    )
    &&& post.existing_names() == pre.existing_names()
    &&& post.usn_counter() == pre.usn_counter()
}

/// Element-wise equality of two wide-character names.
fn wide_eq(a: &Vec<u16>, b: &Vec<u16>) -> (r: bool)
    ensures
        r == (a@ == b@),
{
    if a.len() != b.len() {
        return false;
    }
    let n = a.len();
    let mut i: usize = 0;
    while i < n
        invariant
            n == a@.len(),
            a@.len() == b@.len(),
            0 <= i <= n,
            forall|j: int| 0 <= j < i ==> a@[j] == b@[j],
        decreases n - i,
    {
        if a[i] != b[i] {
            return false;
        }
        i += 1;
    }
    proof {
        assert(a@ =~= b@);
    }
    true
}

/// A fresh copy of a wide-character name.
fn wide_copy(v: &Vec<u16>) -> (r: Vec<u16>)
    ensures
        r@ == v@,
{
    let n = v.len();
    let mut out: Vec<u16> = Vec::new();
    let mut i: usize = 0;
    while i < n
        invariant
            n == v@.len(),
            0 <= i <= n,
            out@.len() == i,
            forall|j: int| 0 <= j < i ==> out@[j] == v@[j],
        decreases n - i,
    {
        out.push(v[i]);
        i += 1;
    }
    proof {
        assert(out@ =~= v@);
    }
    out
}

/// Whether `name` is among the stored names.
fn contains_name(created: &Vec<Vec<u16>>, name: &Vec<u16>) -> (r: bool)
    ensures
        r == name_views(created@).contains(name@),
{
    let n = created.len();
    let mut i: usize = 0;
    while i < n
        invariant
            n == created@.len(),
            0 <= i <= n,
            forall|j: int| 0 <= j < i ==> (#[trigger] created@[j])@ != name@,
        decreases n - i,
    {
        if wide_eq(&created[i], name) {
            proof {
                assert(0 <= i < created@.len() && created@[i as int]@ == name@);
            }
            return true;
        }
        i += 1;
    }
    proof {
        if name_views(created@).contains(name@) {
            let j = choose|j: int| 0 <= j < created@.len() && (#[trigger] created@[j])@ == name@;
            assert(false);
        }
    }
    false
}

impl SessionTable {
    /// Rewrites the operation at `idx` as resolved with `res`.
    fn resolve_at(&mut self, idx: usize, res: Resolution)
        requires
            idx < old(self).ops@.len(),
            resolution_allowed(old(self).ops@[idx as int].kind, res),
        ensures
            final(self).table() == old(self).table().insert(
                old(self).ops@[idx as int].keys,
                (Operation {
                    keys: old(self).ops@[idx as int].keys,
                    kind: old(self).ops@[idx as int].kind,
                    eof: old(self).ops@[idx as int].eof,
                    state: OpState::Resolved(res),
                }),
            ),
            final(self).existing_names() == old(self).existing_names(),
            final(self).usn_counter() == old(self).usn_counter(),
    {
        proof {
            use_type_invariant(&*self);
        }
        let op = Operation {
            keys: self.ops[idx].keys,
            kind: self.ops[idx].kind,
            eof: self.ops[idx].eof,
            state: OpState::Resolved(res),
        };
        let mut ops: Vec<Operation> = Vec::new();
        std::mem::swap(&mut ops, &mut self.ops);
        proof {
            lemma_ops_as_map_update(ops@, idx as int, op);
        }
        ops.set(idx, op);
        self.ops = ops;
    }

    /// Executes one command against the operation for `keys` and reports
    /// the uniform result.  This is the per-pair lifecycle in one step:
    ///
    /// - an untracked pair is a stale transfer key: `IoError`, no change;
    /// - a resolved pair never changes again; a second resolving command
    ///   fails cleanly with `InvalidArgument`, the recorded resolution
    ///   stays as it is;
    /// - a cancelled pair answers `Cancelled` to everything, unchanged;
    /// - a command illegal for the operation's kind is rejected with
    ///   `InvalidArgument`, unchanged;
    /// - otherwise the command executes as its contract below states, and
    ///   if it is a resolving command the operation is recorded as resolved.
    pub fn apply(&mut self, keys: KeyPair, cmd: Command) -> (r: CResult<Reply>)
        ensures
            !old(self).table().dom().contains(keys) ==> r == Err::<Reply, CloudErrorKind>(
                CloudErrorKind::IoError,
            ) && *final(self) == *old(self),
            old(self).table().dom().contains(keys) ==> ({
                let op = old(self).table()[keys];
                &&& op.state is Resolved ==> r == Err::<Reply, CloudErrorKind>(
                    CloudErrorKind::InvalidArgument,
                ) && *final(self) == *old(self)
                &&& op.state is Cancelled ==> r == Err::<Reply, CloudErrorKind>(
                    CloudErrorKind::Cancelled,
                ) && *final(self) == *old(self)
                &&& op.state is Pending && !command_allowed(op.kind, cmd) ==> r == Err::<
                    Reply,
                    CloudErrorKind,
                >(CloudErrorKind::InvalidArgument) && *final(self) == *old(self)
                &&& op.state is Pending && command_allowed(op.kind, cmd) ==> match cmd {
                    Command::Progress { .. } => r == Ok::<Reply, CloudErrorKind>(Reply::Done)
                        && *final(self) == *old(self),
                    Command::Read { position, length } => if position > op.eof {
                        r == Err::<Reply, CloudErrorKind>(CloudErrorKind::IoError) && *final(self)
                            == *old(self)
                    } else {
                        r == Ok::<Reply, CloudErrorKind>(
                            (Reply::Data { length: read_length(op.eof, position, length) }),
                        ) && *final(self) == *old(self)
                    },
                    Command::Write { position, length } => if position + length > op.eof {
                        r == Err::<Reply, CloudErrorKind>(CloudErrorKind::IoError) && *final(self)
                            == *old(self)
                    } else if position + length == op.eof {
                        r == Ok::<Reply, CloudErrorKind>(Reply::Done) && resolves_to(
                            *old(self),
                            *final(self),
                            keys,
                            Resolution::Transferred,
                        )
                    } else if length % TRANSFER_ALIGNMENT != 0 {
                        r == Err::<Reply, CloudErrorKind>(CloudErrorKind::InvalidArgument)
                            && *final(self) == *old(self)
                    } else {
                        r == Ok::<Reply, CloudErrorKind>(Reply::Done) && *final(self) == *old(self)
                    },
                    Command::Validate { start, end } => if start > end {
                        r == Err::<Reply, CloudErrorKind>(CloudErrorKind::InvalidArgument)
                            && *final(self) == *old(self)
                    } else if end > op.eof {
                        r == Err::<Reply, CloudErrorKind>(CloudErrorKind::IoError) && *final(self)
                            == *old(self)
                    } else {
                        r == Ok::<Reply, CloudErrorKind>(Reply::Done) && resolves_to(
                            *old(self),
                            *final(self),
                            keys,
                            (Resolution::Validated { start, end }),
                        )
                    },
                    Command::Dehydrate { blob } => if blob@.len() > MAX_BLOB_SIZE {
                        r == Err::<Reply, CloudErrorKind>(CloudErrorKind::InvalidArgument)
                            && *final(self) == *old(self)
                    } else {
                        r == Ok::<Reply, CloudErrorKind>(Reply::Done) && resolves_to(
                            *old(self),
                            *final(self),
                            keys,
                            (Resolution::Dehydrated { blob }),
                        )
                    },
                    Command::Delete => r == Ok::<Reply, CloudErrorKind>(Reply::Done) && resolves_to(
                        *old(self),
                        *final(self),
                        keys,
                        Resolution::DeleteAcknowledged,
                    ),
                    Command::Rename => r == Ok::<Reply, CloudErrorKind>(Reply::Done) && resolves_to(
                        *old(self),
                        *final(self),
                        keys,
                        Resolution::RenameAcknowledged,
                    ),
                    Command::Deny { error } => r == Ok::<Reply, CloudErrorKind>(Reply::Done)
                        && resolves_to(*old(self), *final(self), keys, (Resolution::Denied { error })),
                    Command::CreatePlaceholders { entries } => if entries@.len() + old(
                        self,
                    ).usn_counter() > u64::MAX {
                        r == Err::<Reply, CloudErrorKind>(CloudErrorKind::InvalidArgument)
                            && *final(self) == *old(self)
                    } else {
                        &&& (r matches Ok(rep) && (rep matches Reply::Created { outcomes }
                            && outcomes@.len() == entries@.len() && forall|j: int|
                            0 <= j < entries@.len() ==> outcomes@[j] == entry_outcome(
                                old(self).existing_names(),
                                old(self).usn_counter(),
                                entries@,
                                j,
                            )))
                        &&& final(self).table() == old(self).table().insert(
                            keys,
                            (Operation {
                                keys,
                                kind: op.kind,
                                eof: op.eof,
                                state: OpState::Resolved(
                                    (Resolution::PlaceholdersCreated {
                                        accepted: accepted_count(
                                            old(self).existing_names(),
                                            entries@,
                                            entries@.len() as int,
                                        ) as u64,
                                    }),
                                ),
                            }),
                        )
                        &&& final(self).existing_names() == taken_after(
                            old(self).existing_names(),
                            entries@,
                            entries@.len() as int,
                        )
                        &&& final(self).usn_counter() == old(self).usn_counter() + accepted_count(
                            old(self).existing_names(),
                            entries@,
                            entries@.len() as int,
                        )
                    },
                }
            }),
    {
        proof {
            use_type_invariant(&*self);
        }
        let idx = match self.find_index(keys) {
            Some(i) => i,
            None => {
                return Err(CloudErrorKind::IoError);
            },
        };
        let still_pending = match &self.ops[idx].state {
            OpState::Pending => true,
            _ => false,
        };
        if !still_pending {
            let cancelled = match &self.ops[idx].state {
                OpState::Cancelled => true,
                _ => false,
            };
            if cancelled {
                return Err(CloudErrorKind::Cancelled);
            }
            return Err(CloudErrorKind::InvalidArgument);
        }
        let kind = self.ops[idx].kind;
        let eof = self.ops[idx].eof;
        if !cmd.allowed_for(kind) {
            return Err(CloudErrorKind::InvalidArgument);
        }
        match cmd {
            Command::Progress { .. } => Ok(Reply::Done),
            Command::Read { position, length } => {
                if position > eof {
                    return Err(CloudErrorKind::IoError);
                }
                let avail = eof - position;
                let n = if length <= avail {
                    length
                } else {
                    avail
                };
                Ok(Reply::Data { length: n })
            },
            Command::Write { position, length } => {
                if position > eof || length > eof - position {
                    return Err(CloudErrorKind::IoError);
                }
                if position + length == eof {
                    self.resolve_at(idx, Resolution::Transferred);
                    Ok(Reply::Done)
                } else if length % TRANSFER_ALIGNMENT != 0 {
                    Err(CloudErrorKind::InvalidArgument)
                } else {
                    Ok(Reply::Done)
                }
            },
            Command::Validate { start, end } => {
                if start > end {
                    return Err(CloudErrorKind::InvalidArgument);
                }
                if end > eof {
                    return Err(CloudErrorKind::IoError);
                }
                self.resolve_at(idx, Resolution::Validated { start, end });
                Ok(Reply::Done)
            },
            Command::Dehydrate { blob } => {
                if blob.len() > MAX_BLOB_SIZE {
                    return Err(CloudErrorKind::InvalidArgument);
                }
                self.resolve_at(idx, Resolution::Dehydrated { blob });
                Ok(Reply::Done)
            },
            Command::Delete => {
                self.resolve_at(idx, Resolution::DeleteAcknowledged);
                Ok(Reply::Done)
            },
            Command::Rename => {
                self.resolve_at(idx, Resolution::RenameAcknowledged);
                Ok(Reply::Done)
            },
            Command::Deny { error } => {
                self.resolve_at(idx, Resolution::Denied { error });
                Ok(Reply::Done)
            },
            Command::CreatePlaceholders { entries } => {
                let count = entries.len();
                if count as u64 > u64::MAX - self.next_usn {
                    return Err(CloudErrorKind::InvalidArgument);
                }
                let ghost existing = name_views(self.created@);
                let base = self.next_usn;
                let mut created: Vec<Vec<u16>> = Vec::new();
                std::mem::swap(&mut created, &mut self.created);
                let mut outcomes: Vec<Result<u64, CloudErrorKind>> = Vec::new();
                let mut usn = base;
                let mut i: usize = 0;
                while i < count
                    invariant
                        count == entries@.len(),
                        0 <= i <= count,
                        base + count <= u64::MAX,
                        outcomes@.len() == i,
                        usn == base + accepted_count(existing, entries@, i as int),
                        name_views(created@) == taken_after(existing, entries@, i as int),
                        forall|j: int|
                            0 <= j < i ==> outcomes@[j] == entry_outcome(
                                existing,
                                base,
                                entries@,
                                j,
                            ),
                    decreases count - i,
                {
                    proof {
                        lemma_accepted_count_le(existing, entries@, i as int);
                    }
                    if contains_name(&created, &entries[i].name) {
                        outcomes.push(Err(CloudErrorKind::IoError));
                    } else {
                        outcomes.push(Ok(usn));
                        usn = usn + 1;
                        let name = wide_copy(&entries[i].name);
                        proof {
                            lemma_name_views_push(created@, name);
                        }
                        created.push(name);
                    }
                    i += 1;
                }
                let accepted = usn - base;
                self.created = created;
                self.next_usn = usn;
                proof {
                    lemma_accepted_count_le(existing, entries@, count as int);
                }
                self.resolve_at(idx, Resolution::PlaceholdersCreated { accepted });
                Ok(Reply::Created { outcomes })
            },
        }
    }

    /// The capability law, as the system records it: every tracked
    /// operation is terminating, is keyed by its own pair, and once
    /// resolved carries a resolution legal for its kind — a hydration
    /// never ends in a validation's resolution, and so on.
    pub fn check_capabilities(&self)
        ensures
            forall|k: KeyPair| #[trigger] self.table().dom().contains(k) ==> {
                let op = self.table()[k];
                &&& op.keys == k
                &&& is_terminating_spec(op.kind)
                &&& (op.state matches OpState::Resolved(res) ==> resolution_allowed(op.kind, res))
            },
    {
        proof {
            use_type_invariant(self);
        assert forall|k: KeyPair| #[trigger] self.table().dom().contains(k) implies {
            let op = self.table()[k];
            &&& op.keys == k
            &&& is_terminating_spec(op.kind)
            &&& (op.state matches OpState::Resolved(res) ==> resolution_allowed(op.kind, res))
        } by {
            lemma_ops_as_map_contains(self.ops@, k);
            let i = choose|i: int|
                0 <= i < self.ops@.len() && (#[trigger] self.ops@[i]).keys == k;
            lemma_ops_as_map_lookup(self.ops@, i);
        }
        }
    }
}

/// The accepted count grows past every accepted entry.
proof fn lemma_accepted_count_mono(
    existing: Set<Seq<u16>>,
    entries: Seq<PlaceholderEntry>,
    i: int,
    j: int,
)
    requires
        0 <= i < j,
        entry_accepted(existing, entries, i),
    ensures
        accepted_count(existing, entries, i) < accepted_count(existing, entries, j),
    decreases j,
{
    if j == i + 1 {
    } else {
        lemma_accepted_count_mono(existing, entries, i, j - 1);
    }
}

} // verus!
