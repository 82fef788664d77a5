//! Advisory file locks: which platform call an acquisition makes, what its
//! answer means for the caller, and the compatibility rules that the platform's
//! lock table follows.
//!
//! Opening the file and making the call belong to the program; the decisions on
//! either side of the call are here.
use vstd::multiset::Multiset;
use vstd::prelude::*;

verus! {

/// How a directory is created.
#[derive(Debug, Clone, Copy, Hash, PartialEq, Eq, Structural)]
pub enum MkdirOptions {
    /// Only the last component; its parent must exist.
    WithoutParents,
    /// Every missing component along the path.
    WithParents,
}

/// Whether an acquisition waits for a lock held by someone else.
#[derive(Debug, Hash, Clone, Copy, PartialEq, Eq, Structural)]
pub enum ShouldBlock {
    No,
    Yes,
}

/// The mode of an advisory lock.
#[derive(Debug, Hash, Clone, Copy, PartialEq, Eq, Structural)]
pub enum LockMode {
    /// One holder, no one else.
    Exclusive,
    /// Any number of holders, none of them exclusive.
    Shared,
}

/// The platform call that acquires a lock on an open file.
#[derive(Debug, Clone, Copy, PartialEq, Eq, Structural)]
pub enum LockCall {
    /// Exclusive, waiting until it is granted.
    Lock,
    /// Shared, waiting until it is granted.
    LockShared,
    /// Exclusive, answering at once.
    TryLock,
    /// Shared, answering at once.
    TryLockShared,
}

impl LockCall {
    /// The mode that the call asks for.
    pub open spec fn mode(self) -> LockMode {
        match self {
            LockCall::Lock | LockCall::TryLock => LockMode::Exclusive,
            LockCall::LockShared | LockCall::TryLockShared => LockMode::Shared,
        }
    }

    /// Whether the call waits until the lock is granted.
    pub open spec fn blocks(self) -> bool {
        self == LockCall::Lock || self == LockCall::LockShared
    }
}

/// The platform's answer to a lock call.
#[derive(Debug, Clone, Copy, PartialEq, Eq, Structural)]
pub enum LockReply {
    /// The lock is held now.
    Granted,
    /// Someone else holds the file in a conflicting mode.
    WouldBlock,
    /// The call failed for another reason.
    Failed,
}

/// Why an acquisition did not produce a lock.
#[derive(Debug, Clone, Copy, PartialEq, Eq, Structural)]
pub enum LockFailure {
    /// A non-blocking acquisition found the lock held in a conflicting mode.
    WouldBlock,
    /// Provisioning, opening or locking failed otherwise.
    Io,
}

/// Whether creating a directory ended well.
#[derive(Debug, Clone, Copy, PartialEq, Eq, Structural)]
pub enum DirReply {
    Created,
    /// It was there already.
    AlreadyExists,
    Failed,
}

/// The call for a lock of `mode`, waiting or not as `should_block` says.
pub open spec fn call_for(mode: LockMode, should_block: ShouldBlock) -> LockCall {
    match (mode, should_block) {
        (LockMode::Exclusive, ShouldBlock::Yes) => LockCall::Lock,
        (LockMode::Shared, ShouldBlock::Yes) => LockCall::LockShared,
        (LockMode::Exclusive, ShouldBlock::No) => LockCall::TryLock,
        (LockMode::Shared, ShouldBlock::No) => LockCall::TryLockShared,
    }
}

/// What the caller of an acquisition gets when `call` was answered `reply`.
pub open spec fn outcome_of(call: LockCall, reply: LockReply) -> Result<LockMode, LockFailure> {
    match reply {
        LockReply::Granted => Ok(call.mode()),
        LockReply::WouldBlock => Err(LockFailure::WouldBlock),
        LockReply::Failed => Err(LockFailure::Io),
    }
}

/// Picks the platform call for an acquisition: the mode asked for, and a
/// call that waits only when `should_block` is `Yes`.
pub fn lock_call(mode: LockMode, should_block: ShouldBlock) -> (r: LockCall)
    ensures
        r == call_for(mode, should_block),
        r.mode() == mode,
        r.blocks() == (should_block == ShouldBlock::Yes),
{
    match (mode, should_block) {
        (LockMode::Exclusive, ShouldBlock::Yes) => LockCall::Lock,
        (LockMode::Shared, ShouldBlock::Yes) => LockCall::LockShared,
        (LockMode::Exclusive, ShouldBlock::No) => LockCall::TryLock,
        (LockMode::Shared, ShouldBlock::No) => LockCall::TryLockShared,
    }
}

/// Turns the platform's answer to `call` into the acquisition's result: the
/// mode now held, `WouldBlock` for contention, `Io` for anything else.
pub fn lock_outcome(call: LockCall, reply: LockReply) -> (r: Result<LockMode, LockFailure>)
    ensures
        r == outcome_of(call, reply),
{
    match reply {
        LockReply::Granted => Ok(
            match call {
                LockCall::Lock | LockCall::TryLock => LockMode::Exclusive,
                LockCall::LockShared | LockCall::TryLockShared => LockMode::Shared,
            },
        ),
        LockReply::WouldBlock => Err(LockFailure::WouldBlock),
        LockReply::Failed => Err(LockFailure::Io),
    }
}

/// Whether creating a directory counts as done: a directory that was there
/// already is as good as a new one.
pub fn mkdir_succeeded(reply: DirReply) -> (r: bool)
    ensures
        r == (reply != DirReply::Failed),
{
    match reply {
        DirReply::Created | DirReply::AlreadyExists => true,
        DirReply::Failed => false,
    }
}

/// The read and write bits for owner, group and others.
pub const READ_WRITE_MASK: u32 = 0o666;

/// The execute bits for owner, group and others.
pub const EXECUTE_MASK: u32 = 0o111;

/// The permission bits to create a lock file with: those of the file already
/// at the path, read and write bits only, or the platform's default where
/// there is none.
pub fn provisioned_mode(existing: Option<u32>) -> (r: Option<u32>)
    ensures
        r == match existing {
            Some(mode) => Some(mode & READ_WRITE_MASK),
            None => None::<u32>,
        },
{
    match existing {
        Some(mode) => Some(mode & READ_WRITE_MASK),
        None => None,
    }
}

/// Whether a path with these attributes is an executable file: a regular file
/// with at least one execute bit.
pub fn is_executable_mode(is_file: bool, mode: u32) -> (r: bool)
    ensures
        r == (is_file && mode & EXECUTE_MASK != 0),
{
    is_file && mode & EXECUTE_MASK != 0
}

/// Whether the platform grants a lock of `mode` on a file on which other
/// handles hold the modes in `held`: an exclusive lock only when no one holds
/// any, a shared one whenever no one holds an exclusive one.
pub open spec fn grants(held: Multiset<LockMode>, mode: LockMode) -> bool {
    match mode {
        LockMode::Exclusive => held.len() == 0,
        LockMode::Shared => held.count(LockMode::Exclusive) == 0,
    }
}

/// The platform's answer to `call` while other handles hold `held`; `None`
/// while the call waits.
pub open spec fn platform_reply(held: Multiset<LockMode>, call: LockCall) -> Option<LockReply> {
    if grants(held, call.mode()) {
        Some(LockReply::Granted)
    } else if call.blocks() {
        None
    } else {
        Some(LockReply::WouldBlock)
    }
}

/// What an acquisition of `mode` hands back while other handles hold `held`,
/// the platform answering as its lock table says; `None` while it waits.
pub open spec fn acquire(held: Multiset<LockMode>, mode: LockMode, should_block: ShouldBlock) -> Option<
    Result<LockMode, LockFailure>,
> {
    let call = call_for(mode, should_block);
    match platform_reply(held, call) {
        Some(reply) => Some(outcome_of(call, reply)),
        None => None,
    }
}

/// A file is held either by shared holders only or by one exclusive holder.
pub open spec fn consistent(held: Multiset<LockMode>) -> bool {
    held.count(LockMode::Exclusive) == 0 || held =~= Multiset::singleton(LockMode::Exclusive)
}

/// Granting a lock keeps the holders of a file consistent: an exclusive
/// holder is never joined by another holder of either mode.
pub proof fn lemma_grant_keeps_consistent(held: Multiset<LockMode>, mode: LockMode)
    requires
        consistent(held),
        grants(held, mode),
    ensures
        consistent(held.insert(mode)),
{
    if mode == LockMode::Exclusive {
        assert(held =~= Multiset::<LockMode>::empty());
        assert(held.insert(mode) =~= Multiset::singleton(LockMode::Exclusive));
    }
}

/// The holders of a file after `n` shared acquisitions from no holder.
pub open spec fn shared_holders(n: nat) -> Multiset<LockMode>
    decreases n,
{
    if n == 0 {
        Multiset::empty()
    } else {
        shared_holders((n - 1) as nat).insert(LockMode::Shared)
    }
}

/// The holders after `k` of the shared holders in `held` released.
pub open spec fn release_shared(held: Multiset<LockMode>, k: nat) -> Multiset<LockMode>
    decreases k,
{
    if k == 0 {
        held
    } else {
        release_shared(held.remove(LockMode::Shared), (k - 1) as nat)
    }
}

/// The holders after `k` rounds, each acquiring `mode` and releasing it again.
pub open spec fn after_rounds(held: Multiset<LockMode>, mode: LockMode, k: nat) -> Multiset<LockMode>
    decreases k,
{
    if k == 0 {
        held
    } else {
        after_rounds(held.insert(mode).remove(mode), mode, (k - 1) as nat)
    }
}

proof fn lemma_shared_holders(n: nat)
    ensures
        shared_holders(n).count(LockMode::Exclusive) == 0,
        shared_holders(n).count(LockMode::Shared) == n,
        shared_holders(n).len() == n,
        release_shared(shared_holders(n), n) =~= Multiset::<LockMode>::empty(),
    decreases n,
{
    if n > 0 {
        let m = (n - 1) as nat;
        lemma_shared_holders(m);
        assert(shared_holders(n).remove(LockMode::Shared) =~= shared_holders(m));
    }
}

/// Any number of shared acquisitions, waiting or not, are all granted and
/// held together; once they are all released an exclusive acquisition is
/// granted.
pub proof fn lemma_shared_locks_coexist(n: nat, should_block: ShouldBlock)
    ensures
        forall|i: nat|
            i < n ==> #[trigger] acquire(shared_holders(i), LockMode::Shared, should_block) == Some(
                Ok::<LockMode, LockFailure>(LockMode::Shared),
            ),
        shared_holders(n).count(LockMode::Shared) == n,
        acquire(release_shared(shared_holders(n), n), LockMode::Exclusive, should_block) == Some(
            Ok::<LockMode, LockFailure>(LockMode::Exclusive),
        ),
{
    assert forall|i: nat| i < n implies #[trigger] acquire(
        shared_holders(i),
        LockMode::Shared,
        should_block,
    ) == Some(Ok::<LockMode, LockFailure>(LockMode::Shared)) by {
        lemma_shared_holders(i);
    }
    lemma_shared_holders(n);
    assert(release_shared(shared_holders(n), n).len() == 0);
}

/// While one handle holds a file exclusively, a non-blocking acquisition of
/// either mode fails with `WouldBlock`; once that handle releases the file,
/// the same acquisition succeeds.
pub proof fn lemma_exclusive_excludes(mode: LockMode)
    ensures
        acquire(Multiset::singleton(LockMode::Exclusive), mode, ShouldBlock::No) == Some(
            Err::<LockMode, LockFailure>(LockFailure::WouldBlock),
        ),
        acquire(
            Multiset::singleton(LockMode::Exclusive).remove(LockMode::Exclusive),
            mode,
            ShouldBlock::No,
        ) == Some(Ok::<LockMode, LockFailure>(mode)),
{
    let held = Multiset::singleton(LockMode::Exclusive);
    assert(held.count(LockMode::Exclusive) == 1);
    assert(held.remove(LockMode::Exclusive) =~= Multiset::<LockMode>::empty());
}

/// While some handles hold a file shared and none holds it exclusively, a
/// non-blocking exclusive acquisition fails with `WouldBlock` and a
/// non-blocking shared one succeeds.
pub proof fn lemma_shared_excludes_exclusive(held: Multiset<LockMode>)
    requires
        held.count(LockMode::Shared) > 0,
        held.count(LockMode::Exclusive) == 0,
    ensures
        acquire(held, LockMode::Exclusive, ShouldBlock::No) == Some(
            Err::<LockMode, LockFailure>(LockFailure::WouldBlock),
        ),
        acquire(held, LockMode::Shared, ShouldBlock::No) == Some(
            Ok::<LockMode, LockFailure>(LockMode::Shared),
        ),
{
}

/// On a file that no one else holds, acquiring a lock and releasing it again
/// succeeds every time, however often it is repeated.
pub proof fn lemma_acquire_release_repeats(n: nat, mode: LockMode, should_block: ShouldBlock)
    ensures
        forall|i: nat|
            i < n ==> #[trigger] acquire(
                after_rounds(Multiset::empty(), mode, i),
                mode,
                should_block,
            ) == Some(Ok::<LockMode, LockFailure>(mode)),
{
    assert forall|i: nat| i < n implies #[trigger] acquire(
        after_rounds(Multiset::empty(), mode, i),
        mode,
        should_block,
    ) == Some(Ok::<LockMode, LockFailure>(mode)) by {
        lemma_rounds_leave_no_holder(mode, i);
    }
}

proof fn lemma_rounds_leave_no_holder(mode: LockMode, k: nat)
    ensures
        after_rounds(Multiset::empty(), mode, k) =~= Multiset::<LockMode>::empty(),
    decreases k,
{
    if k > 0 {
        let empty = Multiset::<LockMode>::empty();
        assert(empty.insert(mode).remove(mode) =~= empty);
        lemma_rounds_leave_no_holder(mode, (k - 1) as nat);
    }
}

} // verus!
