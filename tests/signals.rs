use rustvil::signals::{InstallReply, SignalKind, SignalStash};

/// A disposition table that swaps as the platform does.
fn swap(table: &mut Vec<(i32, usize)>, signal: SignalKind, disposition: usize) -> usize {
    for entry in table.iter_mut() {
        if entry.0 == signal.as_raw() {
            let previous = entry.1;
            entry.1 = disposition;
            return previous;
        }
    }
    panic!("unknown signal");
}

fn override_all(table: &mut Vec<(i32, usize)>, signals: &[SignalKind], disposition: usize) -> SignalStash {
    let mut stash = SignalStash::new();
    for &signal in signals {
        if stash.needs_install(signal) {
            let previous = swap(table, signal, disposition);
            assert!(stash.record(signal, InstallReply::Replaced(previous)));
        }
    }
    stash
}

fn release(table: &mut Vec<(i32, usize)>, stash: &SignalStash) {
    for &(signal, previous) in stash.stashed() {
        swap(table, signal, previous);
    }
}

#[test]
fn signal_equality_goes_by_number() {
    let interrupt = SignalKind::interrupt();
    assert_eq!(SignalKind::from(interrupt.as_raw()), interrupt);
    assert_eq!(SignalKind::from_raw(interrupt.as_raw()), interrupt);
    assert_eq!(i32::from(interrupt), interrupt.as_raw());
    assert_ne!(SignalKind::interrupt(), SignalKind::term());
    assert_eq!(SignalKind::from_raw(42).as_raw(), 42);
}

#[test]
fn named_signals_have_platform_numbers() {
    assert_eq!(SignalKind::interrupt().as_raw(), 2);
    assert_eq!(SignalKind::abort().as_raw(), 6);
    assert_eq!(SignalKind::kill().as_raw(), 9);
    assert_eq!(SignalKind::term().as_raw(), 15);
    assert_eq!(SignalKind::hangup().as_raw(), 1);
}

#[test]
fn ignore_interrupt_then_release_restores() {
    let custom: usize = 0x5000;
    let mut table = vec![(SignalKind::interrupt().as_raw(), custom), (SignalKind::term().as_raw(), 0)];
    let before = table.clone();
    let stash = override_all(&mut table, &[SignalKind::interrupt()], 1);
    assert_eq!(table[0].1, 1);
    assert_eq!(stash.stashed(), &vec![(SignalKind::interrupt(), custom)]);
    release(&mut table, &stash);
    assert_eq!(table, before);
}

#[test]
fn repeated_signal_keeps_first_disposition() {
    let mut table = vec![(SignalKind::user1().as_raw(), 7), (SignalKind::user2().as_raw(), 8)];
    let before = table.clone();
    let stash = override_all(
        &mut table,
        &[SignalKind::user1(), SignalKind::user2(), SignalKind::user1()],
        0,
    );
    assert_eq!(stash.stashed(), &vec![(SignalKind::user1(), 7), (SignalKind::user2(), 8)]);
    release(&mut table, &stash);
    assert_eq!(table, before);
}

#[test]
fn refused_install_reports_failure() {
    let mut stash = SignalStash::new();
    assert!(stash.record(SignalKind::child(), InstallReply::Replaced(3)));
    assert!(!stash.record(SignalKind::kill(), InstallReply::Refused));
    assert!(!stash.needs_install(SignalKind::child()));
    assert!(stash.needs_install(SignalKind::kill()));
    assert_eq!(stash.stashed(), &vec![(SignalKind::child(), 3)]);
}
