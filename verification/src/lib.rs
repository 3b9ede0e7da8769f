//! Allocation of unique, currently unbound TCP port numbers for test suites.
//!
//! A shared cursor advances monotonically through the ephemeral port space;
//! a linear first-fit scan finds the next port on which a bind probe
//! succeeds; a deterministic hash of a caller-supplied identifier yields a
//! stable per-call-site starting offset. The bind probe itself is host I/O
//! and is supplied by the caller as a closure, so every decision this
//! library makes is verified for whatever the probe reports.

use vstd::prelude::*;
use vstd::string::StringSliceAdditionalSpecFns;

verus! {

/// The errors the allocation operations can surface.
#[derive(Clone, Copy, Debug, PartialEq, Eq, Structural)]
pub enum PortError {
    /// The cursor's lock could not be acquired.
    LockPoisoned,
    /// The scan exhausted the probe range without a bindable port.
    NoFreePort,
}

/// The process-wide cursor: the next candidate port, plus a flag that
/// models a lock whose previous holder failed mid-critical-section.
#[derive(Clone, Copy, Debug, PartialEq, Eq, Structural)]
pub struct PortCursor {
    /// The port at which the next allocation starts scanning.
    pub next_port: u16,
    /// True once the guarding lock is poisoned; every later operation fails.
    pub poisoned: bool,
}

/// The conventional lowest port the cursor starts from.
pub const DEFAULT_START_PORT: u16 = 1000;

impl PortCursor {
    /// A fresh cursor, as created at process start.
    pub fn new() -> (c: PortCursor)
        ensures
            c.next_port == DEFAULT_START_PORT,
            !c.poisoned,
    {
        PortCursor { next_port: DEFAULT_START_PORT, poisoned: false }
    }
}

/// One past the highest port the scan may return: the range handed to the
/// finder is always `[start, PORT_RANGE_END)`.
pub const PORT_RANGE_END: u16 = 65535;

/// What a finished scan of `[start, end)` guarantees, given the probe that
/// judged each candidate: a returned port was reported bindable and every
/// lower candidate in the range was reported bound; failure means every
/// candidate in the range was reported bound.
pub open spec fn scan_outcome<F: Fn(u16) -> bool>(
    probe: F,
    start: u16,
    end: u16,
    r: Result<u16, PortError>,
) -> bool {
    match r {
        Ok(p) => {
            &&& start <= p < end
            &&& call_ensures(probe, (p,), true)
            &&& forall|q: u16| start <= q < p ==> call_ensures(probe, (q,), false)
        },
        Err(e) => {
            &&& e == PortError::NoFreePort
            &&& forall|q: u16| start <= q < end ==> call_ensures(probe, (q,), false)
        },
    }
}

/// Scans `[start, end)` in ascending order and returns the first candidate
/// the probe reports bindable, first fit with no candidate skipped or
/// reordered. The probe is the caller's bind attempt on the loopback
/// interface; the scan is correct for whatever it reports.
pub fn find_free_port<F: Fn(u16) -> bool>(start: u16, end: u16, probe: F) -> (r: Result<
    u16,
    PortError,
>)
    requires
        forall|p: u16| start <= p < end ==> call_requires(probe, (p,)),
    ensures
        scan_outcome(probe, start, end, r),
{
    let mut cur: u16 = start;
    while cur < end
        invariant
            start <= cur,
            cur > start ==> cur <= end,
            forall|p: u16| start <= p < end ==> call_requires(probe, (p,)),
            forall|q: u16| start <= q < cur ==> call_ensures(probe, (q,), false),
        decreases end - cur,
    {
        if probe(cur) {
            return Ok(cur);
        }
        cur = cur + 1;
    }
    Err(PortError::NoFreePort)
}

/// What `set_port_index` guarantees: a poisoned lock surfaces as an error
/// and leaves the cursor alone; otherwise the cursor is overwritten.
pub open spec fn set_outcome(
    pre: PortCursor,
    post: PortCursor,
    pindex: u16,
    r: Result<(), PortError>,
) -> bool {
    if pre.poisoned {
        r == Err::<(), PortError>(PortError::LockPoisoned) && post == pre
    } else {
        r == Ok::<(), PortError>(()) && post == PortCursor { next_port: pindex, poisoned: false }
    }
}

/// What `get_unique_free_port` guarantees: a poisoned lock surfaces as an
/// error; otherwise the scan over `[pre.next_port, PORT_RANGE_END)` decides,
/// and on success the cursor strictly advances past the returned port.
pub open spec fn allocation_outcome<F: Fn(u16) -> bool>(
    pre: PortCursor,
    post: PortCursor,
    probe: F,
    r: Result<u16, PortError>,
) -> bool {
    if pre.poisoned {
        r == Err::<u16, PortError>(PortError::LockPoisoned) && post == pre
    } else {
        match r {
            Ok(p) => {
                &&& scan_outcome(probe, pre.next_port, PORT_RANGE_END, Ok(p))
                &&& post == PortCursor { next_port: (p + 1) as u16, poisoned: false }
            },
            Err(_) => {
                &&& scan_outcome(probe, pre.next_port, PORT_RANGE_END, r)
                &&& post == pre
            },
        }
    }
}

/// Overwrites the cursor, so that the next allocation starts scanning from
/// `pindex`. Fails with `LockPoisoned`, changing nothing, exactly when the
/// cursor's lock is poisoned.
pub fn set_port_index(cursor: &mut PortCursor, pindex: u16) -> (r: Result<(), PortError>)
    ensures
        set_outcome(*old(cursor), *final(cursor), pindex, r),
{
    if cursor.poisoned {
        return Err(PortError::LockPoisoned);
    }
    cursor.next_port = pindex;
    Ok(())
}

/// Returns a port the probe reported bindable, distinct from every port any
/// earlier successful call returned: the first fit in
/// `[cursor.next_port, PORT_RANGE_END)`, after which the cursor is set one
/// past it. Fails with `NoFreePort`, leaving the cursor unchanged, when the
/// range holds no port the probe accepts, and with `LockPoisoned` when the
/// cursor's lock is poisoned.
pub fn get_unique_free_port<F: Fn(u16) -> bool>(cursor: &mut PortCursor, probe: F) -> (r: Result<
    u16,
    PortError,
>)
    requires
        forall|p: u16|
            old(cursor).next_port <= p < PORT_RANGE_END ==> call_requires(probe, (p,)),
    ensures
        allocation_outcome(*old(cursor), *final(cursor), probe, r),
{
    if cursor.poisoned {
        return Err(PortError::LockPoisoned);
    }
    let found = find_free_port(cursor.next_port, PORT_RANGE_END, probe);
    match found {
        Ok(p) => {
            cursor.next_port = p + 1;
            Ok(p)
        },
        Err(e) => Err(e),
    }
}

/// The 64-bit FNV-1a offset basis.
pub const FNV_OFFSET_BASIS: u64 = 0xcbf2_9ce4_8422_2325;

/// The 64-bit FNV-1a prime.
pub const FNV_PRIME: u64 = 0x0000_0100_0000_01b3;

/// How many values the starting offset can take:
/// `PORT_RANGE_END - DEFAULT_START_PORT`.
pub const OFFSET_SPAN: u64 = 64535;

/// The 64-bit FNV-1a hash of a byte sequence.
pub open spec fn fnv1a_hash(bytes: Seq<u8>) -> u64
    decreases bytes.len(),
{
    if bytes.len() == 0 {
        FNV_OFFSET_BASIS
    } else {
        (fnv1a_hash(bytes.drop_last()) ^ (bytes.last() as u64)).wrapping_mul(FNV_PRIME)
    }
}

/// The starting offset an identifier hashes to: the FNV-1a hash mapped into
/// `[DEFAULT_START_PORT, PORT_RANGE_END)`. A function of the bytes alone, so
/// the same identifier always yields the same offset.
pub open spec fn start_port_of(bytes: Seq<u8>) -> u16 {
    (DEFAULT_START_PORT + fnv1a_hash(bytes) % OFFSET_SPAN) as u16
}

/// Computes a stable starting offset in `[DEFAULT_START_PORT,
/// PORT_RANGE_END)` from an identifier for the call site, such as the fully
/// qualified name of the enclosing function. The same name always yields the
/// same offset; distinct names are spread over the range by the hash. The
/// result is meant to be handed to `set_port_index`.
pub fn generate_start_port(name: &str) -> (r: u16)
    ensures
        r == start_port_of(name.spec_bytes()),
        DEFAULT_START_PORT <= r < PORT_RANGE_END,
{
    let bytes: &[u8] = name.as_bytes();
    let n: usize = bytes.len();
    let mut h: u64 = FNV_OFFSET_BASIS;
    let mut i: usize = 0;
    while i < n
        invariant
            n == bytes@.len(),
            i <= n,
            h == fnv1a_hash(bytes@.take(i as int)),
        decreases n - i,
    {
        h = (h ^ (bytes[i] as u64)).wrapping_mul(FNV_PRIME);
        i = i + 1;
        proof {
            assert(bytes@.take(i as int).drop_last() =~= bytes@.take(i - 1));
        }
    }
    proof {
        assert(bytes@.take(n as int) =~= bytes@);
    }
    DEFAULT_START_PORT + (h % OFFSET_SPAN) as u16
}

/// A successful allocation advances the cursor strictly past the port it
/// returned: the port lies at or above the old cursor, and the new cursor
/// lies one past the port.
pub open spec fn advances(pre: PortCursor, post: PortCursor, p: u16) -> bool {
    pre.next_port <= p && post.next_port == p + 1
}

/// Law: every successful allocation advances the cursor past the returned
/// port, whatever the probe reported.
pub proof fn lemma_allocation_advances<F: Fn(u16) -> bool>(
    pre: PortCursor,
    post: PortCursor,
    probe: F,
    p: u16,
)
    requires
        allocation_outcome(pre, post, probe, Ok(p)),
    ensures
        advances(pre, post, p),
{
}

proof fn lemma_cursor_monotone(states: Seq<PortCursor>, ports: Seq<u16>, i: int, j: int)
    requires
        states.len() == ports.len() + 1,
        forall|k: int|
            0 <= k < ports.len() ==> #[trigger] advances(states[k], states[k + 1], ports[k]),
        0 <= i <= j <= ports.len(),
    ensures
        states[i].next_port <= states[j].next_port,
    decreases j - i,
{
    if i < j {
        assert(advances(states[i], states[i + 1], ports[i]));
        lemma_cursor_monotone(states, ports, i + 1, j);
    }
}

/// Law: monotonic uniqueness. Over any chain of successful allocations with
/// no intervening cursor overwrite, the returned ports are strictly
/// increasing, hence pairwise distinct.
pub proof fn lemma_monotonic_uniqueness(states: Seq<PortCursor>, ports: Seq<u16>)
    requires
        states.len() == ports.len() + 1,
        forall|k: int|
            0 <= k < ports.len() ==> #[trigger] advances(states[k], states[k + 1], ports[k]),
    ensures
        forall|i: int, j: int| 0 <= i < j < ports.len() ==> ports[i] < ports[j],
{
    assert forall|i: int, j: int| 0 <= i < j < ports.len() implies ports[i] < ports[j] by {
        assert(advances(states[i], states[i + 1], ports[i]));
        assert(advances(states[j], states[j + 1], ports[j]));
        lemma_cursor_monotone(states, ports, i + 1, j);
    }
}

/// A probe whose verdict is a function of the candidate alone, as a bind
/// attempt is on a host whose set of bound ports does not change.
pub open spec fn deterministic_probe<F: Fn(u16) -> bool>(probe: F) -> bool {
    forall|q: u16, b1: bool, b2: bool|
        call_ensures(probe, (q,), b1) && call_ensures(probe, (q,), b2) ==> b1 == b2
}

/// Law: idempotent reset. Setting the cursor to `pindex` and allocating,
/// twice in a row against a probe whose verdicts do not change, yields the
/// same result both times, and a returned port is at or above `pindex`.
pub proof fn lemma_idempotent_reset<F: Fn(u16) -> bool>(
    pre1: PortCursor,
    mid1: PortCursor,
    post1: PortCursor,
    pre2: PortCursor,
    mid2: PortCursor,
    post2: PortCursor,
    pindex: u16,
    probe: F,
    r1: Result<u16, PortError>,
    r2: Result<u16, PortError>,
)
    requires
        deterministic_probe(probe),
        set_outcome(pre1, mid1, pindex, Ok(())),
        allocation_outcome(mid1, post1, probe, r1),
        set_outcome(pre2, mid2, pindex, Ok(())),
        allocation_outcome(mid2, post2, probe, r2),
    ensures
        r1 == r2,
        r1 matches Ok(p) ==> pindex <= p,
{
    match (r1, r2) {
        (Ok(p1), Ok(p2)) => {
            if p1 < p2 {
                assert(call_ensures(probe, (p1,), true));
                assert(call_ensures(probe, (p1,), false));
                assert(false);
            }
            if p2 < p1 {
                assert(call_ensures(probe, (p2,), true));
                assert(call_ensures(probe, (p2,), false));
                assert(false);
            }
        },
        (Ok(p1), Err(_)) => {
            assert(call_ensures(probe, (p1,), true));
            assert(call_ensures(probe, (p1,), false));
            assert(false);
        },
        (Err(_), Ok(p2)) => {
            assert(call_ensures(probe, (p2,), true));
            assert(call_ensures(probe, (p2,), false));
            assert(false);
        },
        (Err(_), Err(_)) => {
        },
    }
}

/// Law: range exhaustion. With the cursor at `PORT_RANGE_END`, no candidate
/// remains to scan: the allocation fails with `NoFreePort` and leaves the
/// cursor unchanged.
pub proof fn lemma_range_exhaustion<F: Fn(u16) -> bool>(
    pre: PortCursor,
    post: PortCursor,
    probe: F,
    r: Result<u16, PortError>,
)
    requires
        !pre.poisoned,
        pre.next_port == PORT_RANGE_END,
        allocation_outcome(pre, post, probe, r),
    ensures
        r == Err::<u16, PortError>(PortError::NoFreePort),
        post == pre,
{
}

/// Law: offset stability. The starting offset is a function of the
/// identifier's bytes alone, so two computations over the same identifier
/// agree.
pub proof fn lemma_offset_stability(bytes: Seq<u8>, r1: u16, r2: u16)
    requires
        r1 == start_port_of(bytes),
        r2 == start_port_of(bytes),
    ensures
        r1 == r2,
{
}

/// Law: a poisoned lock surfaces as `LockPoisoned` from both operations and
/// never alters the cursor.
pub proof fn lemma_poisoned_lock_surfaces<F: Fn(u16) -> bool>(
    pre: PortCursor,
    post_set: PortCursor,
    post_get: PortCursor,
    pindex: u16,
    probe: F,
    rs: Result<(), PortError>,
    rg: Result<u16, PortError>,
)
    requires
        pre.poisoned,
        set_outcome(pre, post_set, pindex, rs),
        allocation_outcome(pre, post_get, probe, rg),
    ensures
        rs == Err::<(), PortError>(PortError::LockPoisoned),
        post_set == pre,
        rg == Err::<u16, PortError>(PortError::LockPoisoned),
        post_get == pre,
{
}

} // verus!
