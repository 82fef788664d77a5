//! Signal identifiers and the bookkeeping behind a signal-disposition guard.
//!
//! Installing a disposition is a call into the C library that hands back the
//! previous one; the guard that makes those calls lives with the program, while
//! this module decides which signals still need an installation, records what
//! each installation replaced, and says what has to be reinstalled on release.
use vstd::prelude::*;

verus! {

/// Relies on libc::SIGABRT: the platform's number for `SIGABRT`, which differs
/// between platforms and is positive on each.
#[verifier::external_body]
fn native_abort() -> (r: i32)
    ensures
        r > 0,
{
    libc::SIGABRT
}

/// Relies on libc::SIGFPE: the platform's number for `SIGFPE`, 8 on every
/// platform that libc covers.
#[verifier::external_body]
fn native_fpe() -> (r: i32)
    ensures
        r == 8,
{
    libc::SIGFPE
}

/// Relies on libc::SIGINT: the platform's number for `SIGINT`, 2 on every
/// platform that libc covers.
#[verifier::external_body]
fn native_interrupt() -> (r: i32)
    ensures
        r == 2,
{
    libc::SIGINT
}

/// Relies on libc::SIGILL: the platform's number for `SIGILL`, 4 on every
/// platform that libc covers.
#[verifier::external_body]
fn native_invalid() -> (r: i32)
    ensures
        r == 4,
{
    libc::SIGILL
}

/// Relies on libc::SIGSEGV: the platform's number for `SIGSEGV`, 11 on every
/// platform that libc covers.
#[verifier::external_body]
fn native_segv() -> (r: i32)
    ensures
        r == 11,
{
    libc::SIGSEGV
}

/// Relies on libc::SIGTERM: the platform's number for `SIGTERM`, 15 on every
/// platform that libc covers.
#[verifier::external_body]
fn native_term() -> (r: i32)
    ensures
        r == 15,
{
    libc::SIGTERM
}

/// Relies on libc::SIGALRM: the platform's number for `SIGALRM`, 14 on every
/// platform that libc covers.
#[verifier::external_body]
fn native_alarm() -> (r: i32)
    ensures
        r == 14,
{
    libc::SIGALRM
}

/// Relies on libc::SIGBUS: the platform's number for `SIGBUS`, which differs
/// between platforms and is positive on each.
#[verifier::external_body]
fn native_bus() -> (r: i32)
    ensures
        r > 0,
{
    libc::SIGBUS
}

/// Relies on libc::SIGCHLD: the platform's number for `SIGCHLD`, which differs
/// between platforms and is positive on each.
#[verifier::external_body]
fn native_child() -> (r: i32)
    ensures
        r > 0,
{
    libc::SIGCHLD
}

/// Relies on libc::SIGCONT: the platform's number for `SIGCONT`, which differs
/// between platforms and is positive on each.
#[verifier::external_body]
fn native_cont() -> (r: i32)
    ensures
        r > 0,
{
    libc::SIGCONT
}

/// Relies on libc::SIGHUP: the platform's number for `SIGHUP`, 1 on every
/// platform that libc covers.
#[verifier::external_body]
fn native_hangup() -> (r: i32)
    ensures
        r == 1,
{
    libc::SIGHUP
}

/// Relies on libc::SIGKILL: the platform's number for `SIGKILL`, 9 on every
/// platform that libc covers.
#[verifier::external_body]
fn native_kill() -> (r: i32)
    ensures
        r == 9,
{
    libc::SIGKILL
}

/// Relies on libc::SIGPIPE: the platform's number for `SIGPIPE`, which differs
/// between platforms and is positive on each.
#[verifier::external_body]
fn native_pipe() -> (r: i32)
    ensures
        r > 0,
{
    libc::SIGPIPE
}

/// Relies on libc::SIGQUIT: the platform's number for `SIGQUIT`, 3 on every
/// platform that libc covers.
#[verifier::external_body]
fn native_quit() -> (r: i32)
    ensures
        r == 3,
{
    libc::SIGQUIT
}

/// Relies on libc::SIGSTOP: the platform's number for `SIGSTOP`, which differs
/// between platforms and is positive on each.
#[verifier::external_body]
fn native_stop() -> (r: i32)
    ensures
        r > 0,
{
    libc::SIGSTOP
}

/// Relies on libc::SIGTSTP: the platform's number for `SIGTSTP`, which differs
/// between platforms and is positive on each.
#[verifier::external_body]
fn native_terminal_stop() -> (r: i32)
    ensures
        r > 0,
{
    libc::SIGTSTP
}

/// Relies on libc::SIGTTIN: the platform's number for `SIGTTIN`, which differs
/// between platforms and is positive on each.
#[verifier::external_body]
fn native_tty_in() -> (r: i32)
    ensures
        r > 0,
{
    libc::SIGTTIN
}

/// Relies on libc::SIGTTOU: the platform's number for `SIGTTOU`, which differs
/// between platforms and is positive on each.
#[verifier::external_body]
fn native_tty_out() -> (r: i32)
    ensures
        r > 0,
{
    libc::SIGTTOU
}

/// Relies on libc::SIGUSR1: the platform's number for `SIGUSR1`, which differs
/// between platforms and is positive on each.
#[verifier::external_body]
fn native_user1() -> (r: i32)
    ensures
        r > 0,
{
    libc::SIGUSR1
}

/// Relies on libc::SIGUSR2: the platform's number for `SIGUSR2`, which differs
/// between platforms and is positive on each.
#[verifier::external_body]
fn native_user2() -> (r: i32)
    ensures
        r > 0,
{
    libc::SIGUSR2
}

/// Relies on libc::SIGSYS: the platform's number for `SIGSYS`, which differs
/// between platforms and is positive on each.
#[verifier::external_body]
fn native_sys() -> (r: i32)
    ensures
        r > 0,
{
    libc::SIGSYS
}

/// Relies on libc::SIGTRAP: the platform's number for `SIGTRAP`, which differs
/// between platforms and is positive on each.
#[verifier::external_body]
fn native_trap() -> (r: i32)
    ensures
        r > 0,
{
    libc::SIGTRAP
}

/// Relies on libc::SIGURG: the platform's number for `SIGURG`, which differs
/// between platforms and is positive on each.
#[verifier::external_body]
fn native_urgent() -> (r: i32)
    ensures
        r > 0,
{
    libc::SIGURG
}

/// Relies on libc::SIGVTALRM: the platform's number for `SIGVTALRM`, which differs
/// between platforms and is positive on each.
#[verifier::external_body]
fn native_virtual_alarm() -> (r: i32)
    ensures
        r > 0,
{
    libc::SIGVTALRM
}

/// Relies on libc::SIGXCPU: the platform's number for `SIGXCPU`, which differs
/// between platforms and is positive on each.
#[verifier::external_body]
fn native_xcpu() -> (r: i32)
    ensures
        r > 0,
{
    libc::SIGXCPU
}

/// Relies on libc::SIGXFSZ: the platform's number for `SIGXFSZ`, which differs
/// between platforms and is positive on each.
#[verifier::external_body]
fn native_xfsz() -> (r: i32)
    ensures
        r > 0,
{
    libc::SIGXFSZ
}

/// A platform-native signal number.
///
/// Equality, ordering and hashing go by the number alone, whichever
/// constructor made the value.
#[derive(Debug, Clone, Copy, PartialEq, Eq, Structural, PartialOrd, Ord, Hash)]
pub struct SignalKind(i32);

impl View for SignalKind {
    type V = i32;

    closed spec fn view(&self) -> i32 {
        self.0
    }
}

impl SignalKind {
    /// The native number held by `self`.
    pub fn as_raw(&self) -> (r: i32)
        ensures
            r == self@,
    {
        self.0
    }

    /// The signal with native number `raw`, for numbers that have no named
    /// constructor here.
    pub fn from_raw(raw: i32) -> (r: SignalKind)
        ensures
            r@ == raw,
            r == SignalKind::of_raw(raw),
    {
        SignalKind(raw)
    }

    /// The abnormal termination (abort) signal, `SIGABRT`.
    pub fn abort() -> (r: SignalKind)
        ensures
            r@ > 0,
    {
        SignalKind(native_abort())
    }

    /// The erroneous arithmetic operation signal, `SIGFPE`.
    pub fn fpe() -> (r: SignalKind)
        ensures
            r@ == 8,
    {
        SignalKind(native_fpe())
    }

    /// The terminal interrupt signal, `SIGINT`.
    pub fn interrupt() -> (r: SignalKind)
        ensures
            r@ == 2,
    {
        SignalKind(native_interrupt())
    }

    /// The illegal instruction signal, `SIGILL`.
    pub fn invalid() -> (r: SignalKind)
        ensures
            r@ == 4,
    {
        SignalKind(native_invalid())
    }

    /// The invalid memory reference signal, `SIGSEGV`.
    pub fn segv() -> (r: SignalKind)
        ensures
            r@ == 11,
    {
        SignalKind(native_segv())
    }

    /// The termination request signal, `SIGTERM`.
    pub fn term() -> (r: SignalKind)
        ensures
            r@ == 15,
    {
        SignalKind(native_term())
    }

    /// The alarm clock signal, `SIGALRM`.
    pub fn alarm() -> (r: SignalKind)
        ensures
            r@ == 14,
    {
        SignalKind(native_alarm())
    }

    /// The access to an undefined portion of a memory object signal, `SIGBUS`.
    pub fn bus() -> (r: SignalKind)
        ensures
            r@ > 0,
    {
        SignalKind(native_bus())
    }

    /// The child process terminated, stopped or continued signal, `SIGCHLD`.
    pub fn child() -> (r: SignalKind)
        ensures
            r@ > 0,
    {
        SignalKind(native_child())
    }

    /// The continue if stopped signal, `SIGCONT`.
    pub fn cont() -> (r: SignalKind)
        ensures
            r@ > 0,
    {
        SignalKind(native_cont())
    }

    /// The hangup signal, `SIGHUP`.
    pub fn hangup() -> (r: SignalKind)
        ensures
            r@ == 1,
    {
        SignalKind(native_hangup())
    }

    /// The kill signal, `SIGKILL`.
    pub fn kill() -> (r: SignalKind)
        ensures
            r@ == 9,
    {
        SignalKind(native_kill())
    }

    /// The write on a pipe with no reader signal, `SIGPIPE`.
    pub fn pipe() -> (r: SignalKind)
        ensures
            r@ > 0,
    {
        SignalKind(native_pipe())
    }

    /// The terminal quit signal, `SIGQUIT`.
    pub fn quit() -> (r: SignalKind)
        ensures
            r@ == 3,
    {
        SignalKind(native_quit())
    }

    /// The stop executing signal, `SIGSTOP`.
    pub fn stop() -> (r: SignalKind)
        ensures
            r@ > 0,
    {
        SignalKind(native_stop())
    }

    /// The terminal stop signal, `SIGTSTP`.
    pub fn terminal_stop() -> (r: SignalKind)
        ensures
            r@ > 0,
    {
        SignalKind(native_terminal_stop())
    }

    /// The background process attempting read signal, `SIGTTIN`.
    pub fn tty_in() -> (r: SignalKind)
        ensures
            r@ > 0,
    {
        SignalKind(native_tty_in())
    }

    /// The background process attempting write signal, `SIGTTOU`.
    pub fn tty_out() -> (r: SignalKind)
        ensures
            r@ > 0,
    {
        SignalKind(native_tty_out())
    }

    /// The first user-defined signal signal, `SIGUSR1`.
    pub fn user1() -> (r: SignalKind)
        ensures
            r@ > 0,
    {
        SignalKind(native_user1())
    }

    /// The second user-defined signal signal, `SIGUSR2`.
    pub fn user2() -> (r: SignalKind)
        ensures
            r@ > 0,
    {
        SignalKind(native_user2())
    }

    /// The bad system call signal, `SIGSYS`.
    pub fn sys() -> (r: SignalKind)
        ensures
            r@ > 0,
    {
        SignalKind(native_sys())
    }

    /// The trace or breakpoint trap signal, `SIGTRAP`.
    pub fn trap() -> (r: SignalKind)
        ensures
            r@ > 0,
    {
        SignalKind(native_trap())
    }

    /// The out-of-band data available at a socket signal, `SIGURG`.
    pub fn urgent() -> (r: SignalKind)
        ensures
            r@ > 0,
    {
        SignalKind(native_urgent())
    }

    /// The virtual timer expired signal, `SIGVTALRM`.
    pub fn virtual_alarm() -> (r: SignalKind)
        ensures
            r@ > 0,
    {
        SignalKind(native_virtual_alarm())
    }

    /// The CPU time limit exceeded signal, `SIGXCPU`.
    pub fn xcpu() -> (r: SignalKind)
        ensures
            r@ > 0,
    {
        SignalKind(native_xcpu())
    }

    /// The file size limit exceeded signal, `SIGXFSZ`.
    pub fn xfsz() -> (r: SignalKind)
        ensures
            r@ > 0,
    {
        SignalKind(native_xfsz())
    }

    /// The signal whose native number is `raw`.
    pub closed spec fn of_raw(raw: i32) -> SignalKind {
        SignalKind(raw)
    }

    /// The signal built from a native number holds that number.
    pub proof fn lemma_of_raw(raw: i32)
        ensures
            SignalKind::of_raw(raw)@ == raw,
    {
    }

    /// Two signals are the same value exactly when their native numbers agree.
    pub proof fn lemma_eq_iff_raw_eq(a: SignalKind, b: SignalKind)
        ensures
            (a == b) <==> (a@ == b@),
    {
    }
}

impl From<i32> for SignalKind {
    fn from(raw: i32) -> (r: SignalKind) {
        SignalKind::from_raw(raw)
    }
}

impl vstd::std_specs::convert::FromSpecImpl<i32> for SignalKind {
    open spec fn obeys_from_spec() -> bool {
        true
    }

    open spec fn from_spec(raw: i32) -> SignalKind {
        SignalKind::of_raw(raw)
    }
}

impl From<SignalKind> for i32 {
    fn from(kind: SignalKind) -> (r: i32) {
        kind.as_raw()
    }
}

impl vstd::std_specs::convert::FromSpecImpl<SignalKind> for i32 {
    open spec fn obeys_from_spec() -> bool {
        true
    }

    open spec fn from_spec(kind: SignalKind) -> i32 {
        kind@
    }
}

/// What the platform reported when asked to install a disposition for one
/// signal.
#[derive(Debug, Clone, Copy, PartialEq, Eq, Structural)]
pub enum InstallReply {
    /// The new disposition is in force; the one given was in force before it.
    Replaced(usize),
    /// The platform declined to change the signal's disposition.
    Refused,
}

/// Whether `entries` records a disposition for `signal`.
pub open spec fn stash_holds(entries: Seq<(SignalKind, usize)>, signal: SignalKind) -> bool {
    exists|i: int| 0 <= i < entries.len() && entries[i].0 == signal
}

/// No signal is recorded twice.
pub open spec fn keys_unique(entries: Seq<(SignalKind, usize)>) -> bool {
    forall|i: int, j: int| 0 <= i < j < entries.len() ==> entries[i].0 != entries[j].0
}

/// The stash after the platform answered `reply` to an installation for
/// `signal`: a replaced disposition is recorded unless the signal already has
/// one, which is then the one in force before the guard touched it.
pub open spec fn stash_step(
    entries: Seq<(SignalKind, usize)>,
    signal: SignalKind,
    reply: InstallReply,
) -> Seq<(SignalKind, usize)> {
    match reply {
        InstallReply::Replaced(previous) => if stash_holds(entries, signal) {
            entries
        } else {
            entries.push((signal, previous))
        },
        InstallReply::Refused => entries,
    }
}

/// The dispositions that a signal guard replaced, one per overridden signal,
/// each exactly as the platform reported it when the guard's own disposition
/// went in.
pub struct SignalStash {
    entries: Vec<(SignalKind, usize)>,
}

impl View for SignalStash {
    type V = Seq<(SignalKind, usize)>;

    closed spec fn view(&self) -> Seq<(SignalKind, usize)> {
        self.entries@
    }
}

impl SignalStash {
    /// Every signal is recorded at most once.
    #[verifier::type_invariant]
    spec fn wf(&self) -> bool {
        keys_unique(self.entries@)
    }

    /// A stash that records nothing.
    pub fn new() -> (r: SignalStash)
        ensures
            r@ == Seq::<(SignalKind, usize)>::empty(),
    {
        SignalStash { entries: Vec::new() }
    }

    /// Whether a disposition still has to be installed for `signal`: a signal
    /// already overridden is not touched again, so that its recorded
    /// disposition stays the one from before the guard.
    pub fn needs_install(&self, signal: SignalKind) -> (r: bool)
        ensures
            r == !stash_holds(self@, signal),
    {
        let mut i: usize = 0;
        while i < self.entries.len()
            invariant
                0 <= i <= self.entries@.len(),
                forall|j: int| 0 <= j < i ==> self.entries@[j].0 != signal,
            decreases self.entries@.len() - i,
        {
            if self.entries[i].0 == signal {
                return false;
            }
            i = i + 1;
        }
        true
    }

    /// Takes in the platform's answer to an installation for `signal`.
    /// Returns whether the installation went through; on a refusal the stash
    /// is left as it was.
    pub fn record(&mut self, signal: SignalKind, reply: InstallReply) -> (r: bool)
        ensures
            final(self)@ == stash_step(old(self)@, signal, reply),
            r == (reply != InstallReply::Refused),
    {
        proof {
            use_type_invariant(&*self);
        }
        match reply {
            InstallReply::Replaced(previous) => {
                if self.needs_install(signal) {
                    let mut entries: Vec<(SignalKind, usize)> = Vec::new();
                    std::mem::swap(&mut entries, &mut self.entries);
                    entries.push((signal, previous));
                    self.entries = entries;
                }
                true
            },
            InstallReply::Refused => false,
        }
    }

    /// The dispositions to reinstall on release, each with its signal.
    pub fn stashed(&self) -> (r: &Vec<(SignalKind, usize)>)
        ensures
            r@ == self@,
            keys_unique(r@),
    {
        proof {
            use_type_invariant(self);
        }
        &self.entries
    }
}

/// The disposition table and the stash after a guard went through `signals`
/// in turn, installing `disposition` for each signal that still needed it.
/// The platform swaps atomically: it reports the entry in force and puts the
/// new one in its place.
pub open spec fn install_all(
    table: Map<SignalKind, usize>,
    entries: Seq<(SignalKind, usize)>,
    signals: Seq<SignalKind>,
    disposition: usize,
) -> (Map<SignalKind, usize>, Seq<(SignalKind, usize)>)
    decreases signals.len(),
{
    if signals.len() == 0 {
        (table, entries)
    } else {
        let signal = signals[0];
        if stash_holds(entries, signal) {
            install_all(table, entries, signals.drop_first(), disposition)
        } else {
            install_all(
                table.insert(signal, disposition),
                stash_step(entries, signal, InstallReply::Replaced(table[signal])),
                signals.drop_first(),
                disposition,
            )
        }
    }
}

/// The disposition table after each recorded disposition was reinstalled,
/// in the order of the stash.
pub open spec fn restore_all(
    table: Map<SignalKind, usize>,
    entries: Seq<(SignalKind, usize)>,
) -> Map<SignalKind, usize>
    decreases entries.len(),
{
    if entries.len() == 0 {
        table
    } else {
        restore_all(table.insert(entries[0].0, entries[0].1), entries.drop_first())
    }
}

/// `entries` records, for signals of `before`, the dispositions of `before`,
/// and `table` differs from `before` on recorded signals only.
pub open spec fn stash_matches(
    before: Map<SignalKind, usize>,
    table: Map<SignalKind, usize>,
    entries: Seq<(SignalKind, usize)>,
) -> bool {
    &&& table.dom() == before.dom()
    &&& forall|i: int|
        0 <= i < entries.len() ==> before.contains_key(#[trigger] entries[i].0) && entries[i].1
            == before[entries[i].0]
    &&& forall|k: SignalKind|
        before.contains_key(k) && !stash_holds(entries, k) ==> table[k] == before[k]
}

proof fn lemma_install_all(
    before: Map<SignalKind, usize>,
    table: Map<SignalKind, usize>,
    entries: Seq<(SignalKind, usize)>,
    signals: Seq<SignalKind>,
    disposition: usize,
)
    requires
        stash_matches(before, table, entries),
        keys_unique(entries),
        forall|i: int| 0 <= i < entries.len() ==> table[#[trigger] entries[i].0] == disposition,
        forall|i: int| 0 <= i < signals.len() ==> before.contains_key(#[trigger] signals[i]),
    ensures
        ({
            let (after, stash) = install_all(table, entries, signals, disposition);
            &&& stash_matches(before, after, stash)
            &&& keys_unique(stash)
            &&& forall|i: int| 0 <= i < stash.len() ==> after[#[trigger] stash[i].0] == disposition
            &&& entries.len() <= stash.len()
            &&& forall|i: int| 0 <= i < entries.len() ==> stash[i] == entries[i]
            &&& forall|i: int| 0 <= i < signals.len() ==> stash_holds(stash, #[trigger] signals[i])
        }),
    decreases signals.len(),
{
    if signals.len() > 0 {
        let signal = signals[0];
        let rest = signals.drop_first();
        assert forall|i: int| 0 <= i < rest.len() implies before.contains_key(#[trigger] rest[i]) by {
            assert(rest[i] == signals[i + 1]);
        }
        if stash_holds(entries, signal) {
            lemma_install_all(before, table, entries, rest, disposition);
        } else {
            let table2 = table.insert(signal, disposition);
            let entries2 = entries.push((signal, table[signal]));
            assert(entries2[entries.len() as int] == (signal, table[signal]));
            assert(stash_holds(entries2, signal));
            assert(before.contains_key(signals[0]));
            assert(table2.dom() =~= before.dom());
            assert forall|k: SignalKind|
                before.contains_key(k) && !stash_holds(entries2, k) implies table2[k] == before[k] by {
                if stash_holds(entries, k) {
                    let i = choose|i: int| 0 <= i < entries.len() && entries[i].0 == k;
                    assert(entries2[i] == entries[i]);
                }
            }
            assert forall|i: int| 0 <= i < entries2.len() implies before.contains_key(
                #[trigger] entries2[i].0,
            ) && entries2[i].1 == before[entries2[i].0] by {
                if i < entries.len() {
                    assert(entries2[i] == entries[i]);
                }
            }
            assert forall|i: int| 0 <= i < entries2.len() implies table2[#[trigger] entries2[i].0]
                == disposition by {
                if i < entries.len() {
                    assert(entries2[i] == entries[i]);
                }
            }
            assert forall|i: int, j: int| 0 <= i < j < entries2.len() implies entries2[i].0
                != entries2[j].0 by {
                if j == entries.len() {
                    assert(entries2[i] == entries[i]);
                } else {
                    assert(entries2[i] == entries[i]);
                    assert(entries2[j] == entries[j]);
                }
            }
            lemma_install_all(before, table2, entries2, rest, disposition);
            let (after, stash) = install_all(table2, entries2, rest, disposition);
            assert(stash[entries.len() as int] == entries2[entries.len() as int]);
            assert forall|i: int| 0 <= i < entries.len() implies stash[i] == entries[i] by {
                assert(stash[i] == entries2[i]);
            }
        }
        let (after, stash) = install_all(table, entries, signals, disposition);
        assert forall|i: int| 0 <= i < signals.len() implies stash_holds(stash, #[trigger] signals[i]) by {
            if i > 0 {
                assert(signals[i] == rest[i - 1]);
            } else if stash_holds(entries, signal) {
                let j = choose|j: int| 0 <= j < entries.len() && entries[j].0 == signal;
                assert(stash[j] == entries[j]);
            } else {
                assert(stash[entries.len() as int].0 == signal);
            }
        }
    }
}

proof fn lemma_restore_all(
    before: Map<SignalKind, usize>,
    table: Map<SignalKind, usize>,
    entries: Seq<(SignalKind, usize)>,
)
    requires
        stash_matches(before, table, entries),
    ensures
        restore_all(table, entries) == before,
    decreases entries.len(),
{
    if entries.len() == 0 {
        assert(table =~= before);
    } else {
        let first = entries[0];
        let rest = entries.drop_first();
        let table2 = table.insert(first.0, first.1);
        assert(before.contains_key(entries[0].0));
        assert(table2.dom() =~= before.dom());
        assert forall|k: SignalKind|
            before.contains_key(k) && !stash_holds(rest, k) implies table2[k] == before[k] by {
            if k != first.0 && stash_holds(entries, k) {
                let i = choose|i: int| 0 <= i < entries.len() && entries[i].0 == k;
                assert(rest[i - 1] == entries[i]);
            }
        }
        assert forall|i: int| 0 <= i < rest.len() implies before.contains_key(#[trigger] rest[i].0)
            && rest[i].1 == before[rest[i].0] by {
            assert(rest[i] == entries[i + 1]);
        }
        lemma_restore_all(before, table2, rest);
    }
}

/// A guard that overrides `signals` with `disposition` and is then released
/// leaves every signal with the disposition it had before the guard: the
/// stash holds exactly one entry per requested signal, each with the
/// disposition that was replaced, and while the guard lives each requested
/// signal has the new disposition.
pub proof fn lemma_release_restores(
    table: Map<SignalKind, usize>,
    signals: Seq<SignalKind>,
    disposition: usize,
)
    requires
        forall|i: int| 0 <= i < signals.len() ==> table.contains_key(#[trigger] signals[i]),
    ensures
        ({
            let (after, stash) = install_all(table, Seq::empty(), signals, disposition);
            &&& keys_unique(stash)
            &&& forall|i: int| 0 <= i < signals.len() ==> stash_holds(stash, #[trigger] signals[i])
            &&& forall|i: int|
                0 <= i < stash.len() ==> #[trigger] after[stash[i].0] == disposition
                    && stash[i].1 == table[stash[i].0]
            &&& restore_all(after, stash) == table
        }),
{
    let empty = Seq::<(SignalKind, usize)>::empty();
    lemma_install_all(table, table, empty, signals, disposition);
    let (after, stash) = install_all(table, empty, signals, disposition);
    lemma_restore_all(table, after, stash);
}

} // verus!
