//! The reaping station's verified core: decoding of collected exit records,
//! the pending-wait registry that fans them out to waiters, and the decision
//! the background loop takes on each wait outcome.
//!
//! The loop around this core suspends on the termination-signal channel,
//! makes the non-blocking wait call, and feeds each outcome to
//! [`reap_step`]; waiters poll [`Registry::take`] under whatever waking
//! primitive the runtime offers, consuming their entry as they read it. The signal itself is only a wake-up hint:
//! after every wake the loop keeps calling the wait primitive until nothing
//! is ready, so records whose notifications were coalesced are still all
//! published ([`lemma_batch_publishes_all`]).

use vstd::prelude::*;

use crate::utility::SysError;
use crate::waitid::{RawWaitRecord, CLD_EXITED};

verus! {

/// A signal that can terminate a child, restricted to the kinds a collected
/// exit record is decoded into. The numbering is the Linux x86_64 one; the
/// tests hold each number against the platform's own constant.
#[derive(Copy, Clone, Debug, Hash, Eq, PartialEq, Structural)]
pub enum ChildTermSignal {
    Sigabrt,
    Sigalrm,
    Sigbus,
    Sigfpe,
    Sighup,
    Sigill,
    Sigint,
    Sigio,
    Sigkill,
    Sigpipe,
    Sigprof,
    Sigpwr,
    Sigquit,
    Sigsegv,
    Sigsys,
    Sigterm,
    Sigtrap,
    Sigusr1,
    Sigusr2,
    Sigvtalrm,
    Sigxcpu,
    Sigxfsz,
}

impl ChildTermSignal {
    /// The kernel's number for this signal.
    pub open spec fn spec_raw(self) -> i32 {
        match self {
            ChildTermSignal::Sighup => 1,
            ChildTermSignal::Sigint => 2,
            ChildTermSignal::Sigquit => 3,
            ChildTermSignal::Sigill => 4,
            ChildTermSignal::Sigtrap => 5,
            ChildTermSignal::Sigabrt => 6,
            ChildTermSignal::Sigbus => 7,
            ChildTermSignal::Sigfpe => 8,
            ChildTermSignal::Sigkill => 9,
            ChildTermSignal::Sigusr1 => 10,
            ChildTermSignal::Sigsegv => 11,
            ChildTermSignal::Sigusr2 => 12,
            ChildTermSignal::Sigpipe => 13,
            ChildTermSignal::Sigalrm => 14,
            ChildTermSignal::Sigterm => 15,
            ChildTermSignal::Sigxcpu => 24,
            ChildTermSignal::Sigxfsz => 25,
            ChildTermSignal::Sigvtalrm => 26,
            ChildTermSignal::Sigprof => 27,
            ChildTermSignal::Sigio => 29,
            ChildTermSignal::Sigpwr => 30,
            ChildTermSignal::Sigsys => 31,
        }
    }

    /// The signal a kernel number stands for, if it is one of the kinds a
    /// child can be terminated by here.
    pub open spec fn spec_from_raw(n: i32) -> Option<ChildTermSignal> {
        match n {
            1i32 => Some(ChildTermSignal::Sighup),
            2i32 => Some(ChildTermSignal::Sigint),
            3i32 => Some(ChildTermSignal::Sigquit),
            4i32 => Some(ChildTermSignal::Sigill),
            5i32 => Some(ChildTermSignal::Sigtrap),
            6i32 => Some(ChildTermSignal::Sigabrt),
            7i32 => Some(ChildTermSignal::Sigbus),
            8i32 => Some(ChildTermSignal::Sigfpe),
            9i32 => Some(ChildTermSignal::Sigkill),
            10i32 => Some(ChildTermSignal::Sigusr1),
            11i32 => Some(ChildTermSignal::Sigsegv),
            12i32 => Some(ChildTermSignal::Sigusr2),
            13i32 => Some(ChildTermSignal::Sigpipe),
            14i32 => Some(ChildTermSignal::Sigalrm),
            15i32 => Some(ChildTermSignal::Sigterm),
            24i32 => Some(ChildTermSignal::Sigxcpu),
            25i32 => Some(ChildTermSignal::Sigxfsz),
            26i32 => Some(ChildTermSignal::Sigvtalrm),
            27i32 => Some(ChildTermSignal::Sigprof),
            29i32 => Some(ChildTermSignal::Sigio),
            30i32 => Some(ChildTermSignal::Sigpwr),
            31i32 => Some(ChildTermSignal::Sigsys),
            _ => None,
        }
    }

    /// The kernel's number for this signal.
    #[verifier::when_used_as_spec(spec_raw)]
    pub fn raw(self) -> (n: i32)
        ensures
            n == self.spec_raw(),
    {
        match self {
            ChildTermSignal::Sighup => 1,
            ChildTermSignal::Sigint => 2,
            ChildTermSignal::Sigquit => 3,
            ChildTermSignal::Sigill => 4,
            ChildTermSignal::Sigtrap => 5,
            ChildTermSignal::Sigabrt => 6,
            ChildTermSignal::Sigbus => 7,
            ChildTermSignal::Sigfpe => 8,
            ChildTermSignal::Sigkill => 9,
            ChildTermSignal::Sigusr1 => 10,
            ChildTermSignal::Sigsegv => 11,
            ChildTermSignal::Sigusr2 => 12,
            ChildTermSignal::Sigpipe => 13,
            ChildTermSignal::Sigalrm => 14,
            ChildTermSignal::Sigterm => 15,
            ChildTermSignal::Sigxcpu => 24,
            ChildTermSignal::Sigxfsz => 25,
            ChildTermSignal::Sigvtalrm => 26,
            ChildTermSignal::Sigprof => 27,
            ChildTermSignal::Sigio => 29,
            ChildTermSignal::Sigpwr => 30,
            ChildTermSignal::Sigsys => 31,
        }
    }

    /// The signal a kernel number stands for, or `None` for any number no
    /// child-terminating signal of this library carries.
    pub fn try_from_raw(n: i32) -> (r: Option<ChildTermSignal>)
        ensures
            r == ChildTermSignal::spec_from_raw(n),
    {
        match n {
            1i32 => Some(ChildTermSignal::Sighup),
            2i32 => Some(ChildTermSignal::Sigint),
            3i32 => Some(ChildTermSignal::Sigquit),
            4i32 => Some(ChildTermSignal::Sigill),
            5i32 => Some(ChildTermSignal::Sigtrap),
            6i32 => Some(ChildTermSignal::Sigabrt),
            7i32 => Some(ChildTermSignal::Sigbus),
            8i32 => Some(ChildTermSignal::Sigfpe),
            9i32 => Some(ChildTermSignal::Sigkill),
            10i32 => Some(ChildTermSignal::Sigusr1),
            11i32 => Some(ChildTermSignal::Sigsegv),
            12i32 => Some(ChildTermSignal::Sigusr2),
            13i32 => Some(ChildTermSignal::Sigpipe),
            14i32 => Some(ChildTermSignal::Sigalrm),
            15i32 => Some(ChildTermSignal::Sigterm),
            24i32 => Some(ChildTermSignal::Sigxcpu),
            25i32 => Some(ChildTermSignal::Sigxfsz),
            26i32 => Some(ChildTermSignal::Sigvtalrm),
            27i32 => Some(ChildTermSignal::Sigprof),
            29i32 => Some(ChildTermSignal::Sigio),
            30i32 => Some(ChildTermSignal::Sigpwr),
            31i32 => Some(ChildTermSignal::Sigsys),
            _ => None,
        }
    }
}

/// Decoding a signal's own kernel number yields that signal back.
pub proof fn lemma_term_signal_raw_roundtrip(s: ChildTermSignal)
    ensures
        ChildTermSignal::spec_from_raw(s.spec_raw()) == Some(s),
{
}

/// Each kernel number stands for at most one child-terminating signal:
/// decoding a number and re-encoding the signal yields the number back.
pub proof fn lemma_term_signal_from_raw_faithful(n: i32, s: ChildTermSignal)
    requires
        ChildTermSignal::spec_from_raw(n) == Some(s),
    ensures
        s.spec_raw() == n,
{
}

/// How a collected child ended: of its own accord with an exit code, or
/// terminated by a signal.
#[derive(Copy, Clone, Debug, Eq, PartialEq, Structural)]
pub enum ExitCode {
    /// A signal terminated the child.
    Killed(ChildTermSignal),
    /// The child exited of its own accord with this code.
    Exited(i32),
}

/// What the reaping station publishes for one collected child.
#[derive(Copy, Clone, Debug, Eq, PartialEq, Structural)]
pub struct ExitInfo {
    /// The user id that owned the child when it exited.
    pub uid: u32,
    /// How the child ended.
    pub code: ExitCode,
}

impl ExitInfo {
    /// The user id that owned the child when it exited.
    pub fn get_uid(&self) -> (u: u32)
        ensures
            u == self.uid,
    {
        self.uid
    }

    /// How the child ended.
    pub fn get_code(&self) -> (c: ExitCode)
        ensures
            c == self.code,
    {
        self.code
    }
}

/// Whether a collected record can be decoded: either the kernel classified
/// it as a plain exit, or its status is the number of a child-terminating
/// signal this library names.
pub open spec fn spec_decodable(rec: RawWaitRecord) -> bool {
    rec.code == CLD_EXITED || ChildTermSignal::spec_from_raw(rec.status) is Some
}

/// What a collected record decodes to: an exit classified `CLD_EXITED`
/// carries its exit code, any other classification carries the terminating
/// signal's number in the status field.
pub open spec fn spec_decode(rec: RawWaitRecord) -> ExitInfo {
    ExitInfo {
        uid: rec.uid,
        code: if rec.code == CLD_EXITED {
            ExitCode::Exited(rec.status)
        } else {
            ExitCode::Killed(ChildTermSignal::spec_from_raw(rec.status)->Some_0)
        },
    }
}

/// Whether [`decode`] accepts the record.
pub fn decodable(rec: RawWaitRecord) -> (b: bool)
    ensures
        b == spec_decodable(rec),
{
    rec.code == CLD_EXITED || ChildTermSignal::try_from_raw(rec.status).is_some()
}

/// Decode one collected record into what the station publishes.
pub fn decode(rec: RawWaitRecord) -> (info: ExitInfo)
    requires
        spec_decodable(rec),
    ensures
        info == spec_decode(rec),
{
    if rec.code == CLD_EXITED {
        ExitInfo { uid: rec.uid, code: ExitCode::Exited(rec.status) }
    } else {
        match ChildTermSignal::try_from_raw(rec.status) {
            Some(sig) => ExitInfo { uid: rec.uid, code: ExitCode::Killed(sig) },
            None => unreached(),
        }
    }
}

/// What `entries`, read back to front, holds for process id `p`: the most
/// recent insertion wins, as it does in the concurrent map this registry
/// stands behind.
spec fn seq_lookup(s: Seq<(i32, ExitInfo)>, p: int) -> Option<ExitInfo>
    decreases s.len(),
{
    if s.len() == 0 {
        None
    } else if s.last().0 as int == p {
        Some(s.last().1)
    } else {
        seq_lookup(s.drop_last(), p)
    }
}

/// Reading a map that may lack the key: `Some` exactly where the key is
/// present.
pub open spec fn spec_lookup(m: Map<int, ExitInfo>, p: int) -> Option<ExitInfo> {
    if m.contains_key(p) {
        Some(m[p])
    } else {
        None
    }
}

/// `entries` with every pair for process id `p` left out.
spec fn drop_pid(s: Seq<(i32, ExitInfo)>, p: int) -> Seq<(i32, ExitInfo)>
    decreases s.len(),
{
    if s.len() == 0 {
        Seq::empty()
    } else if s.last().0 as int == p {
        drop_pid(s.drop_last(), p)
    } else {
        drop_pid(s.drop_last(), p).push(s.last())
    }
}

/// Leaving out one process id's pairs erases exactly that id's entry and no
/// other.
proof fn lemma_drop_pid_lookup(s: Seq<(i32, ExitInfo)>, p: int, q: int)
    ensures
        seq_lookup(drop_pid(s, p), q) == (if q == p {
            None::<ExitInfo>
        } else {
            seq_lookup(s, q)
        }),
    decreases s.len(),
{
    if s.len() > 0 {
        lemma_drop_pid_lookup(s.drop_last(), p, q);
        if s.last().0 as int != p {
            let dp = drop_pid(s.drop_last(), p);
            assert(dp.push(s.last()).drop_last() =~= dp);
            assert(dp.push(s.last()).last() == s.last());
        }
    }
}

/// The pending-wait registry: process id to published exit record. One
/// background task inserts; a waiter takes its id's entry out as it reads
/// it, so a consumed entry does not linger and the registry holds only what
/// is still unclaimed. A non-consuming [`Registry::lookup`] exists besides,
/// for a reader that must leave the entry in place.
pub struct Registry {
    entries: Vec<(i32, ExitInfo)>,
}

impl View for Registry {
    type V = Map<int, ExitInfo>;

    /// The registry as a map from process id to its published record.
    closed spec fn view(&self) -> Map<int, ExitInfo> {
        Map::new(
            |p: int| seq_lookup(self.entries@, p) is Some,
            |p: int| seq_lookup(self.entries@, p)->Some_0,
        )
    }
}

impl Registry {
    /// An empty registry: no process id has been published.
    pub fn new() -> (r: Registry)
        ensures
            r@ == Map::<int, ExitInfo>::empty(),
    {
        let r = Registry { entries: Vec::new() };
        proof {
            assert(r@ =~= Map::<int, ExitInfo>::empty());
        }
        r
    }

    /// Publish `info` for `pid`. A second publication for a live entry would
    /// replace it, as in the concurrent map this registry stands behind; the
    /// kernel's reuse rule keeps that from happening while the station alone
    /// reaps.
    pub fn insert(&mut self, pid: i32, info: ExitInfo)
        ensures
            final(self)@ == old(self)@.insert(pid as int, info),
    {
        let ghost prev: Seq<(i32, ExitInfo)> = self.entries@;
        let ghost prevview: Map<int, ExitInfo> = self@;
        self.entries.push((pid, info));
        proof {
            let s2 = self.entries@;
            assert(s2.drop_last() =~= prev);
            assert forall|p: int| #![auto]
                seq_lookup(s2, p) == (if p == pid as int {
                    Some(info)
                } else {
                    seq_lookup(prev, p)
                }) by {
                assert(s2.last() == (pid, info));
            }
            assert(self@ =~= prevview.insert(pid as int, info));
        }
    }

    /// What the registry holds for `pid`, if anything has been published.
    pub fn lookup(&self, pid: i32) -> (r: Option<ExitInfo>)
        ensures
            r == spec_lookup(self@, pid as int),
    {
        let ghost s: Seq<(i32, ExitInfo)> = self.entries@;
        let n: usize = self.entries.len();
        proof {
            assert(s.take(n as int) =~= s);
        }
        let mut i: usize = n;
        while i > 0
            invariant
                i <= self.entries@.len(),
                s == self.entries@,
                seq_lookup(s, pid as int) == seq_lookup(s.take(i as int), pid as int),
            decreases i,
        {
            i = i - 1;
            let e = self.entries[i];
            proof {
                assert(s.take(i as int + 1).last() == s[i as int]);
                assert(s.take(i as int + 1).drop_last() =~= s.take(i as int));
            }
            if e.0 == pid {
                return Some(e.1);
            }
        }
        proof {
            assert(s.take(0).len() == 0);
        }
        None
    }

    /// Take-on-read: what the registry holds for `pid`, removed as it is
    /// read. Entries for every other process id stay untouched; a second
    /// take of the same id finds nothing until a new record is published
    /// for it.
    pub fn take(&mut self, pid: i32) -> (r: Option<ExitInfo>)
        ensures
            r == spec_lookup(old(self)@, pid as int),
            final(self)@ == old(self)@.remove(pid as int),
    {
        let r = self.lookup(pid);
        let ghost s: Seq<(i32, ExitInfo)> = self.entries@;
        let ghost prevview: Map<int, ExitInfo> = self@;
        let mut kept: Vec<(i32, ExitInfo)> = Vec::new();
        let mut i: usize = 0;
        while i < self.entries.len()
            invariant
                i <= s.len(),
                s == self.entries@,
                kept@ == drop_pid(s.take(i as int), pid as int),
            decreases s.len() - i,
        {
            let e = self.entries[i];
            proof {
                assert(s.take(i as int + 1).last() == s[i as int]);
                assert(s.take(i as int + 1).drop_last() =~= s.take(i as int));
            }
            if e.0 != pid {
                kept.push(e);
            }
            i = i + 1;
        }
        proof {
            assert(s.take(s.len() as int) =~= s);
        }
        self.entries = kept;
        proof {
            assert forall|q: int| #![auto]
                seq_lookup(self.entries@, q) == (if q == pid as int {
                    None::<ExitInfo>
                } else {
                    seq_lookup(s, q)
                }) by {
                lemma_drop_pid_lookup(s, pid as int, q);
            }
            assert(self@ =~= prevview.remove(pid as int));
        }
        r
    }

    /// Whether anything has been published for `pid`.
    pub fn contains(&self, pid: i32) -> (b: bool)
        ensures
            b == self@.contains_key(pid as int),
    {
        self.lookup(pid).is_some()
    }
}

/// What the background loop does next after one non-blocking wait outcome.
#[derive(Copy, Clone, Debug, Eq, PartialEq, Structural)]
pub enum ReapStep {
    /// A record was published; call the wait primitive again, the kernel may
    /// hold more.
    Continue,
    /// Nothing left to collect; go back to sleep on the signal channel.
    Suspend,
    /// The wait primitive failed; the loop aborts for good, as the station's
    /// failure rule says.
    Fail(SysError),
}

/// One decision of the station's background loop: a collected record is
/// decoded and published under its process id and the loop keeps draining; an
/// empty outcome suspends the loop; a failure aborts it, carried out of the
/// loop unchanged.
pub fn reap_step(registry: &mut Registry, poll: Result<Option<RawWaitRecord>, SysError>) -> (step:
    ReapStep)
    requires
        poll matches Ok(Some(rec)) ==> spec_decodable(rec),
    ensures
        poll matches Ok(Some(rec)) ==> final(registry)@ == old(registry)@.insert(
            rec.pid as int,
            spec_decode(rec),
        ) && step == ReapStep::Continue,
        poll == Ok::<Option<RawWaitRecord>, SysError>(None) ==> final(registry)@ == old(registry)@
            && step == ReapStep::Suspend,
        poll matches Err(e) ==> final(registry)@ == old(registry)@ && step == ReapStep::Fail(e),
{
    match poll {
        Ok(Some(rec)) => {
            let info = decode(rec);
            registry.insert(rec.pid, info);
            ReapStep::Continue
        },
        Ok(None) => ReapStep::Suspend,
        Err(e) => ReapStep::Fail(e),
    }
}

/// The registry map after publishing `recs` in order.
pub open spec fn registry_after(m: Map<int, ExitInfo>, recs: Seq<RawWaitRecord>) -> Map<
    int,
    ExitInfo,
>
    decreases recs.len(),
{
    if recs.len() == 0 {
        m
    } else {
        registry_after(m, recs.drop_last()).insert(
            recs.last().pid as int,
            spec_decode(recs.last()),
        )
    }
}

/// Publish a whole drained batch in order, front to back.
pub fn publish_batch(registry: &mut Registry, recs: &Vec<RawWaitRecord>)
    requires
        forall|j: int| 0 <= j < recs@.len() ==> spec_decodable(#[trigger] recs@[j]),
    ensures
        final(registry)@ == registry_after(old(registry)@, recs@),
{
    let ghost m0: Map<int, ExitInfo> = registry@;
    let ghost s: Seq<RawWaitRecord> = recs@;
    let mut i: usize = 0;
    while i < recs.len()
        invariant
            i <= s.len(),
            s == recs@,
            forall|j: int| 0 <= j < s.len() ==> spec_decodable(#[trigger] s[j]),
            registry@ == registry_after(m0, s.take(i as int)),
        decreases s.len() - i,
    {
        let rec = recs[i];
        let info = decode(rec);
        registry.insert(rec.pid, info);
        proof {
            assert(s.take(i as int + 1).last() == s[i as int]);
            assert(s.take(i as int + 1).drop_last() =~= s.take(i as int));
        }
        i = i + 1;
    }
    proof {
        assert(s.take(s.len() as int) =~= s);
    }
}

/// Coalescing robustness: however many children terminated between two
/// wake-ups, once the drained batch is published every one of them stands in
/// the registry with its own decoded record — the batch's process ids are
/// distinct, as the kernel's reuse rule guarantees for ids not yet reaped.
pub proof fn lemma_batch_publishes_all(
    m: Map<int, ExitInfo>,
    recs: Seq<RawWaitRecord>,
    i: int,
)
    requires
        0 <= i < recs.len(),
        forall|a: int, b: int|
            #![trigger recs[a], recs[b]]
            0 <= a < b < recs.len() ==> recs[a].pid != recs[b].pid,
    ensures
        registry_after(m, recs).contains_key(recs[i].pid as int),
        registry_after(m, recs)[recs[i].pid as int] == spec_decode(recs[i]),
    decreases recs.len(),
{
    if i == recs.len() - 1 {
    } else {
        let shorter = recs.drop_last();
        assert forall|a: int, b: int|
            #![trigger shorter[a], shorter[b]]
            0 <= a < b < shorter.len() implies shorter[a].pid != shorter[b].pid by {
            assert(shorter[a] == recs[a]);
            assert(shorter[b] == recs[b]);
        }
        lemma_batch_publishes_all(m, shorter, i);
        assert(shorter[i] == recs[i]);
        assert(recs.last() == recs[recs.len() - 1]);
        assert(recs[i].pid != recs[recs.len() - 1].pid);
    }
}

/// Cross-id independence: publishing a batch neither adds nor changes an
/// entry for any process id the batch does not carry.
pub proof fn lemma_batch_preserves_others(m: Map<int, ExitInfo>, recs: Seq<RawWaitRecord>, p: int)
    requires
        forall|j: int| 0 <= j < recs.len() ==> (#[trigger] recs[j]).pid as int != p,
    ensures
        registry_after(m, recs).contains_key(p) == m.contains_key(p),
        m.contains_key(p) ==> registry_after(m, recs)[p] == m[p],
    decreases recs.len(),
{
    if recs.len() > 0 {
        let shorter = recs.drop_last();
        assert forall|j: int| 0 <= j < shorter.len() implies (#[trigger] shorter[j]).pid as int
            != p by {
            assert(shorter[j] == recs[j]);
        }
        lemma_batch_preserves_others(m, shorter, p);
        assert(recs.last() == recs[recs.len() - 1]);
    }
}

/// Once published, no drain loses it: a process id present in the registry
/// is still present after any further drain, so a waiter that arrives late
/// still finds its record — only a waiter's own take removes an entry.
pub proof fn lemma_entries_persist(m: Map<int, ExitInfo>, recs: Seq<RawWaitRecord>, p: int)
    requires
        m.contains_key(p),
    ensures
        registry_after(m, recs).contains_key(p),
    decreases recs.len(),
{
    if recs.len() > 0 {
        lemma_entries_persist(m, recs.drop_last(), p);
    }
}

/// A waiter that asks for a reaped process id reads back exactly the record
/// the drain decoded for it.
pub proof fn lemma_wait_sees_reaped(m: Map<int, ExitInfo>, recs: Seq<RawWaitRecord>, i: int)
    requires
        0 <= i < recs.len(),
        forall|a: int, b: int|
            #![trigger recs[a], recs[b]]
            0 <= a < b < recs.len() ==> recs[a].pid != recs[b].pid,
    ensures
        spec_lookup(registry_after(m, recs), recs[i].pid as int) == Some(spec_decode(recs[i])),
{
    lemma_batch_publishes_all(m, recs, i);
}

} // verus!
