use rustvil::fs::{
    is_executable_mode, lock_call, lock_outcome, mkdir_succeeded, provisioned_mode, DirReply,
    LockCall, LockFailure, LockMode, LockReply, MkdirOptions, ShouldBlock,
};

/// Holders of one file, answering lock calls as the platform's table does.
struct Table {
    exclusive: usize,
    shared: usize,
}

impl Table {
    fn new() -> Self {
        Table { exclusive: 0, shared: 0 }
    }

    fn grants(&self, mode: LockMode) -> bool {
        match mode {
            LockMode::Exclusive => self.exclusive == 0 && self.shared == 0,
            LockMode::Shared => self.exclusive == 0,
        }
    }

    /// `None` where a blocking call would wait.
    fn acquire(&mut self, mode: LockMode, should_block: ShouldBlock) -> Option<Result<LockMode, LockFailure>> {
        let call = lock_call(mode, should_block);
        let reply = if self.grants(mode) {
            LockReply::Granted
        } else if should_block == ShouldBlock::Yes {
            return None;
        } else {
            LockReply::WouldBlock
        };
        let outcome = lock_outcome(call, reply);
        match outcome {
            Ok(LockMode::Exclusive) => self.exclusive += 1,
            Ok(LockMode::Shared) => self.shared += 1,
            Err(_) => {}
        }
        Some(outcome)
    }

    fn release(&mut self, mode: LockMode) {
        match mode {
            LockMode::Exclusive => self.exclusive -= 1,
            LockMode::Shared => self.shared -= 1,
        }
    }
}

#[test]
fn lock_call_matches_mode_and_blocking() {
    assert_eq!(lock_call(LockMode::Exclusive, ShouldBlock::Yes), LockCall::Lock);
    assert_eq!(lock_call(LockMode::Shared, ShouldBlock::Yes), LockCall::LockShared);
    assert_eq!(lock_call(LockMode::Exclusive, ShouldBlock::No), LockCall::TryLock);
    assert_eq!(lock_call(LockMode::Shared, ShouldBlock::No), LockCall::TryLockShared);
}

#[test]
fn lock_outcome_maps_each_reply() {
    assert_eq!(lock_outcome(LockCall::Lock, LockReply::Granted), Ok(LockMode::Exclusive));
    assert_eq!(lock_outcome(LockCall::TryLockShared, LockReply::Granted), Ok(LockMode::Shared));
    assert_eq!(
        lock_outcome(LockCall::TryLock, LockReply::WouldBlock),
        Err(LockFailure::WouldBlock)
    );
    assert_eq!(lock_outcome(LockCall::LockShared, LockReply::Failed), Err(LockFailure::Io));
}

#[test]
fn existing_directory_counts_as_created() {
    assert!(mkdir_succeeded(DirReply::Created));
    assert!(mkdir_succeeded(DirReply::AlreadyExists));
    assert!(!mkdir_succeeded(DirReply::Failed));
    assert_ne!(MkdirOptions::WithParents, MkdirOptions::WithoutParents);
}

#[test]
fn provisioned_mode_keeps_read_write_bits() {
    assert_eq!(provisioned_mode(Some(0o755)), Some(0o644));
    assert_eq!(provisioned_mode(Some(0o4777)), Some(0o666));
    assert_eq!(provisioned_mode(None), None);
}

#[test]
fn executable_needs_file_and_exec_bit() {
    assert!(is_executable_mode(true, 0o100));
    assert!(is_executable_mode(true, 0o751));
    assert!(!is_executable_mode(true, 0o644));
    assert!(!is_executable_mode(false, 0o755));
}

#[test]
fn shared_locks_coexist_then_exclusive_succeeds() {
    let mut table = Table::new();
    for _ in 0..5 {
        assert_eq!(table.acquire(LockMode::Shared, ShouldBlock::Yes), Some(Ok(LockMode::Shared)));
    }
    assert_eq!(table.acquire(LockMode::Shared, ShouldBlock::No), Some(Ok(LockMode::Shared)));
    for _ in 0..6 {
        table.release(LockMode::Shared);
    }
    assert_eq!(table.acquire(LockMode::Exclusive, ShouldBlock::No), Some(Ok(LockMode::Exclusive)));
}

#[test]
fn exclusive_lock_excludes_both_modes() {
    let mut table = Table::new();
    assert_eq!(table.acquire(LockMode::Exclusive, ShouldBlock::Yes), Some(Ok(LockMode::Exclusive)));
    assert_eq!(
        table.acquire(LockMode::Exclusive, ShouldBlock::No),
        Some(Err(LockFailure::WouldBlock))
    );
    assert_eq!(
        table.acquire(LockMode::Shared, ShouldBlock::No),
        Some(Err(LockFailure::WouldBlock))
    );
    assert_eq!(table.acquire(LockMode::Shared, ShouldBlock::Yes), None);
    table.release(LockMode::Exclusive);
    assert_eq!(table.acquire(LockMode::Exclusive, ShouldBlock::No), Some(Ok(LockMode::Exclusive)));
}

#[test]
fn shared_lock_excludes_exclusive_only() {
    let mut table = Table::new();
    assert_eq!(table.acquire(LockMode::Shared, ShouldBlock::Yes), Some(Ok(LockMode::Shared)));
    assert_eq!(
        table.acquire(LockMode::Exclusive, ShouldBlock::No),
        Some(Err(LockFailure::WouldBlock))
    );
    assert_eq!(table.acquire(LockMode::Shared, ShouldBlock::No), Some(Ok(LockMode::Shared)));
}

#[test]
fn acquire_release_repeats() {
    let mut table = Table::new();
    for round in 0..20 {
        let mode = if round % 2 == 0 { LockMode::Exclusive } else { LockMode::Shared };
        assert_eq!(table.acquire(mode, ShouldBlock::No), Some(Ok(mode)));
        table.release(mode);
    }
}

#[test]
fn exclusive_holder_then_try_lock_after_release() {
    // One holder takes the file exclusively and waits; another tries without
    // waiting, is turned away, and succeeds once the first has released.
    let mut table = Table::new();
    assert_eq!(table.acquire(LockMode::Exclusive, ShouldBlock::Yes), Some(Ok(LockMode::Exclusive)));
    assert_eq!(
        table.acquire(LockMode::Exclusive, ShouldBlock::No),
        Some(Err(LockFailure::WouldBlock))
    );
    table.release(LockMode::Exclusive);
    assert_eq!(table.acquire(LockMode::Exclusive, ShouldBlock::No), Some(Ok(LockMode::Exclusive)));
}

#[test]
fn three_shared_holders_meet() {
    let mut table = Table::new();
    for _ in 0..3 {
        assert_eq!(table.acquire(LockMode::Shared, ShouldBlock::Yes), Some(Ok(LockMode::Shared)));
    }
    assert_eq!(table.shared, 3);
    for _ in 0..3 {
        table.release(LockMode::Shared);
    }
    assert_eq!(table.acquire(LockMode::Exclusive, ShouldBlock::Yes), Some(Ok(LockMode::Exclusive)));
}
