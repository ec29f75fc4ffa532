//! The pool of hardware device contexts that decoder sessions share: generations, leases,
//! idle residency, and retry delays after failures.
//!
//! A root is one device context. The pool hands out leases on it, and never takes a lease
//! back: retiring a generation only keeps it from new sessions. Time is counted in
//! nanoseconds from any fixed moment.

use crate::decoder::backend::{
    device_type, failed_reason, mismatch_reason, missing_reason, unlisted_reason, unmapped_reason,
    HwAccelBackend, HwAccelDeviceContextProbe, HwAccelDeviceSelector,
};
use crate::text::{decimal, push_decimal};
use vstd::prelude::*;
use vstd::string::*;

verus! {

/// What a pool is asked for: a backend, and a device of it.
#[derive(Debug, Clone, Copy, PartialEq, Eq, Hash, Structural)]
pub struct DeviceKey {
    pub backend: HwAccelBackend,
    pub selector: Option<HwAccelDeviceSelector>,
}

/// Idle residency of a pool. Leases are never revoked to satisfy it.
#[derive(Debug, Clone, Copy, PartialEq, Eq, Structural)]
pub struct HwDeviceContextPoolPolicy {
    /// Most idle contexts that are kept for future sessions.
    pub max_idle_contexts: usize,
}

impl HwDeviceContextPoolPolicy {
    /// A policy.
    pub fn new(max_idle_contexts: usize) -> (r: HwDeviceContextPoolPolicy)
        ensures
            r.max_idle_contexts == max_idle_contexts,
    {
        HwDeviceContextPoolPolicy { max_idle_contexts }
    }
}

impl Default for HwDeviceContextPoolPolicy {
    fn default() -> (r: HwDeviceContextPoolPolicy)
        ensures
            r.max_idle_contexts == 2,
    {
        HwDeviceContextPoolPolicy { max_idle_contexts: 2 }
    }
}

/// Evidence of a pool at one moment.
#[derive(Debug, Clone, Copy, PartialEq, Eq, Structural)]
pub struct HwDeviceContextPoolDiagnostics {
    pub policy: HwDeviceContextPoolPolicy,
    /// How often the policy changed, and one.
    pub policy_revision: u64,
    /// Contexts that new sessions can get.
    pub entries: usize,
    /// Those with a lease.
    pub active_contexts: usize,
    /// Those without.
    pub idle_contexts: usize,
    /// The generation that was allocated last.
    pub latest_generation: u64,
    /// Acquisitions that reused a generation.
    pub hits: u64,
    /// Acquisitions that made a new generation.
    pub misses: u64,
    /// Generations that were retired.
    pub retirements: u64,
    /// Idle generations that were released.
    pub evictions: u64,
    /// Devices that could not be created.
    pub creation_failures: u64,
    /// Sessions that failed on their device.
    pub setup_failures: u64,
    /// Keys whose retry delay is not over.
    pub failure_backoffs: usize,
    /// Acquisitions that a retry delay refused.
    pub backoff_rejections: u64,
}

/// A context in the pool.
#[derive(Debug, Clone, Copy, PartialEq, Eq, Structural)]
pub struct PoolEntry {
    pub key: DeviceKey,
    pub generation: u64,
    /// When it was acquired last, by the clock of the pool.
    pub last_used: u64,
    /// Names the device context.
    pub root: u64,
}

/// A key under a retry delay.
#[derive(Debug, PartialEq, Eq)]
pub struct PoolFailure {
    pub key: DeviceKey,
    /// What the failure was.
    pub probe: HwAccelDeviceContextProbe,
    /// Failures in a row.
    pub consecutive_failures: u32,
    /// When to try again.
    pub retry_after: u64,
}

/// A session's hold on a device context.
#[derive(Debug, PartialEq, Eq)]
pub struct DeviceLease {
    pub key: DeviceKey,
    pub generation: u64,
    pub root: u64,
    /// Whether the acquisition made the generation.
    pub newly_created: bool,
}

/// Permission to create the context of a generation.
#[derive(Debug, PartialEq, Eq)]
pub struct CreationTicket {
    pub key: DeviceKey,
    pub generation: u64,
    pub recency: u64,
}

/// Why a renderer's device context could not be installed.
#[derive(Debug, Clone, Copy, PartialEq, Eq, Structural)]
pub enum RendererHwAccelDeviceContextInstallError {
    /// The selector is for another backend.
    SelectorMismatch { selector: HwAccelDeviceSelector, backend: HwAccelBackend },
    /// There are no generations left.
    GenerationExhausted,
}

impl RendererHwAccelDeviceContextInstallError {
    /// The text of a failure.
    pub open spec fn spec_text(self) -> Seq<char> {
        match self {
            RendererHwAccelDeviceContextInstallError::SelectorMismatch { selector, backend } => {
                "hardware selector "@ + selector.spec_text()
                    + " does not select renderer device backend "@ + backend.spec_label()
            },
            RendererHwAccelDeviceContextInstallError::GenerationExhausted => {
                "hardware device-context generation space is exhausted"@
            },
        }
    }

    /// The text of this failure.
    pub fn message(self) -> (text: String)
        ensures
            text@ == self.spec_text(),
    {
        match self {
            RendererHwAccelDeviceContextInstallError::SelectorMismatch { selector, backend } => {
                let mut text = "hardware selector ".to_owned();
                selector.push_text(&mut text);
                text.append(" does not select renderer device backend ");
                text.append(backend.label());
                text
            },
            RendererHwAccelDeviceContextInstallError::GenerationExhausted => {
                "hardware device-context generation space is exhausted".to_owned()
            },
        }
    }
}

/// Why no device context could be made around the device of a renderer.
#[derive(Debug, PartialEq, Eq)]
pub enum RendererHwAccelDeviceContextCreateError {
    AllocationFailed,
    /// The allocation is incomplete.
    InvalidAllocation,
    /// The device was rejected.
    InitializationFailed {
        reason: String,
    },
}

impl RendererHwAccelDeviceContextCreateError {
    /// The text of a failure.
    pub open spec fn spec_text(&self) -> Seq<char> {
        match *self {
            RendererHwAccelDeviceContextCreateError::AllocationFailed => {
                "FFmpeg could not allocate a renderer-qualified hardware device context"@
            },
            RendererHwAccelDeviceContextCreateError::InvalidAllocation => {
                "FFmpeg returned an incomplete D3D12VA device-context allocation"@
            },
            RendererHwAccelDeviceContextCreateError::InitializationFailed { reason } => {
                "FFmpeg could not initialize the renderer-owned D3D12VA device context: "@ + reason@
            },
        }
    }

    /// The text of this failure.
    pub fn message(&self) -> (text: String)
        ensures
            text@ == self.spec_text(),
    {
        match self {
            RendererHwAccelDeviceContextCreateError::AllocationFailed => {
                "FFmpeg could not allocate a renderer-qualified hardware device context".to_owned()
            },
            RendererHwAccelDeviceContextCreateError::InvalidAllocation => {
                "FFmpeg returned an incomplete D3D12VA device-context allocation".to_owned()
            },
            RendererHwAccelDeviceContextCreateError::InitializationFailed { reason } => {
                let mut text =
                    "FFmpeg could not initialize the renderer-owned D3D12VA device context: ".to_owned();
                text.append(reason.as_str());
                text
            },
        }
    }
}

/// How far a device context around the device of a renderer came.
#[derive(Debug)]
pub enum RendererDeviceCreation {
    NotAllocated,
    /// Part of the allocation is missing.
    Incomplete,
    /// It was initialized, with the code of the libraries and their text for it.
    Initialized {
        code: i32,
        text: String,
    },
}

/// Whether a device context around the device of a renderer can be used.
pub fn check_renderer_device(creation: RendererDeviceCreation) -> (r: Result<
    (),
    RendererHwAccelDeviceContextCreateError,
>)
    ensures
        match creation {
            RendererDeviceCreation::NotAllocated => r matches Err(error)
                && error is AllocationFailed,
            RendererDeviceCreation::Incomplete => r matches Err(error) && error is InvalidAllocation,
            RendererDeviceCreation::Initialized { code, text } => match r {
                Ok(()) => code >= 0,
                Err(error) => code < 0 && error
                    == (RendererHwAccelDeviceContextCreateError::InitializationFailed {
                    reason: text,
                }),
            },
        },
        r is Ok <==> creation is Initialized && creation->code >= 0,
{
    match creation {
        RendererDeviceCreation::NotAllocated => Err(
            RendererHwAccelDeviceContextCreateError::AllocationFailed,
        ),
        RendererDeviceCreation::Incomplete => Err(
            RendererHwAccelDeviceContextCreateError::InvalidAllocation,
        ),
        RendererDeviceCreation::Initialized { code, text } => {
            if code < 0 {
                Err(RendererHwAccelDeviceContextCreateError::InitializationFailed { reason: text })
            } else {
                Ok(())
            }
        },
    }
}

/// What asking for a device context brings.
#[derive(Debug, PartialEq, Eq)]
pub enum AcquireStart {
    Refused(HwAccelDeviceContextProbe),
    Reused(DeviceLease),
    /// The context has to be created.
    Create(CreationTicket),
}

/// Mathematical reading of a pool.
pub struct PoolView {
    pub policy: HwDeviceContextPoolPolicy,
    pub policy_revision: u64,
    pub next_generation: u64,
    pub recency_clock: u64,
    pub entries: Seq<PoolEntry>,
    pub failures: Seq<PoolFailure>,
    /// Roots that sessions and renderers hold, once for each hold.
    pub holds: Seq<u64>,
    pub hits: u64,
    pub misses: u64,
    pub retirements: u64,
    pub evictions: u64,
    pub creation_failures: u64,
    pub setup_failures: u64,
    pub backoff_rejections: u64,
}

/// The pool. It lives as long as its workers.
pub struct HwDeviceContextPool {
    policy: HwDeviceContextPoolPolicy,
    policy_revision: u64,
    next_generation: u64,
    recency_clock: u64,
    entries: Vec<PoolEntry>,
    failures: Vec<PoolFailure>,
    holds: Vec<u64>,
    hits: u64,
    misses: u64,
    retirements: u64,
    evictions: u64,
    creation_failures: u64,
    setup_failures: u64,
    backoff_rejections: u64,
}

impl View for HwDeviceContextPool {
    type V = PoolView;

    closed spec fn view(&self) -> PoolView {
        PoolView {
            policy: self.policy,
            policy_revision: self.policy_revision,
            next_generation: self.next_generation,
            recency_clock: self.recency_clock,
            entries: self.entries@,
            failures: self.failures@,
            holds: self.holds@,
            hits: self.hits,
            misses: self.misses,
            retirements: self.retirements,
            evictions: self.evictions,
            creation_failures: self.creation_failures,
            setup_failures: self.setup_failures,
            backoff_rejections: self.backoff_rejections,
        }
    }
}

/// Whether nobody but the pool holds the root of a context, and no other context has it.
pub open spec fn is_idle(entries: Seq<PoolEntry>, holds: Seq<u64>, i: int) -> bool {
    &&& !holds.contains(entries[i].root)
    &&& forall|j: int|
        0 <= j < entries.len() && j != i ==> (#[trigger] entries[j]).root != entries[i].root
}

/// Idle contexts among the first of a pool.
pub open spec fn idle_before(entries: Seq<PoolEntry>, holds: Seq<u64>, n: nat) -> nat
    decreases n,
{
    if n == 0 {
        0
    } else {
        idle_before(entries, holds, (n - 1) as nat) + if is_idle(entries, holds, n - 1) {
            1nat
        } else {
            0nat
        }
    }
}

/// Idle contexts of a pool.
pub open spec fn idle_count(entries: Seq<PoolEntry>, holds: Seq<u64>) -> nat {
    idle_before(entries, holds, entries.len())
}

/// The idle context among the first that was not used for the longest time.
pub open spec fn least_idle_before(entries: Seq<PoolEntry>, holds: Seq<u64>, n: nat) -> Option<int>
    decreases n,
{
    if n == 0 {
        None
    } else {
        match least_idle_before(entries, holds, (n - 1) as nat) {
            None => if is_idle(entries, holds, n - 1) {
                Some(n - 1)
            } else {
                None
            },
            Some(i) => if is_idle(entries, holds, n - 1) && entries[n - 1].last_used
                < entries[i].last_used {
                Some(n - 1)
            } else {
                Some(i)
            },
        }
    }
}

/// The idle context that was not used for the longest time.
pub open spec fn least_idle(entries: Seq<PoolEntry>, holds: Seq<u64>) -> Option<int> {
    least_idle_before(entries, holds, entries.len())
}

/// The contexts after idle ones were released down to a limit, those unused for longest
/// first.
pub open spec fn trimmed(entries: Seq<PoolEntry>, holds: Seq<u64>, max_idle: nat) -> Seq<PoolEntry>
    decreases entries.len(),
{
    match least_idle(entries, holds) {
        Some(i) => if idle_count(entries, holds) > max_idle && 0 <= i < entries.len() {
            trimmed(entries.remove(i), holds, max_idle)
        } else {
            entries
        },
        None => entries,
    }
}

/// A pool after idle contexts were released down to a limit.
pub open spec fn pool_trimmed(pool: PoolView, max_idle: nat) -> PoolView {
    let kept = trimmed(pool.entries, pool.holds, max_idle);
    PoolView {
        entries: kept,
        evictions: pool.evictions.saturating_add((pool.entries.len() - kept.len()) as u64),
        ..pool
    }
}

/// The place of a hold on a root.
pub open spec fn hold_position(holds: Seq<u64>, root: u64) -> Option<int>
    decreases holds.len(),
{
    if holds.len() == 0 {
        None
    } else if holds.last() == root {
        Some(holds.len() - 1)
    } else {
        hold_position(holds.drop_last(), root)
    }
}

/// The holds but one on a root.
pub open spec fn without_hold(holds: Seq<u64>, root: u64) -> Seq<u64> {
    match hold_position(holds, root) {
        Some(i) => holds.remove(i),
        None => holds,
    }
}

/// The place of a key among the contexts.
pub open spec fn entry_position(entries: Seq<PoolEntry>, key: DeviceKey) -> Option<int>
    decreases entries.len(),
{
    if entries.len() == 0 {
        None
    } else if entries.last().key == key {
        Some(entries.len() - 1)
    } else {
        entry_position(entries.drop_last(), key)
    }
}

/// The context of a key.
pub open spec fn entry_of(entries: Seq<PoolEntry>, key: DeviceKey) -> Option<PoolEntry> {
    match entry_position(entries, key) {
        Some(i) => Some(entries[i]),
        None => None,
    }
}

/// The contexts but that of a key.
pub open spec fn without_entry(entries: Seq<PoolEntry>, key: DeviceKey) -> Seq<PoolEntry> {
    match entry_position(entries, key) {
        Some(i) => entries.remove(i),
        None => entries,
    }
}

/// The place of a key among the failures.
pub open spec fn failure_position(failures: Seq<PoolFailure>, key: DeviceKey) -> Option<int>
    decreases failures.len(),
{
    if failures.len() == 0 {
        None
    } else if failures.last().key == key {
        Some(failures.len() - 1)
    } else {
        failure_position(failures.drop_last(), key)
    }
}

/// The failure of a key.
pub open spec fn failure_of(failures: Seq<PoolFailure>, key: DeviceKey) -> Option<PoolFailure> {
    match failure_position(failures, key) {
        Some(i) => Some(failures[i]),
        None => None,
    }
}

/// The failures but that of a key.
pub open spec fn without_failure(failures: Seq<PoolFailure>, key: DeviceKey) -> Seq<PoolFailure> {
    match failure_position(failures, key) {
        Some(i) => failures.remove(i),
        None => failures,
    }
}

/// Keys are distinct, and generations were allocated.
pub open spec fn pool_wf(pool: PoolView) -> bool {
    &&& 1 <= pool.next_generation
    &&& forall|i: int|
        0 <= i < pool.entries.len() ==> (#[trigger] pool.entries[i]).generation
            < pool.next_generation && pool.entries[i].last_used <= pool.recency_clock
    &&& forall|i: int, j: int|
        0 <= i < j < pool.entries.len() ==> (#[trigger] pool.entries[i]).key != (
        #[trigger] pool.entries[j]).key
    &&& forall|i: int, j: int|
        0 <= i < j < pool.failures.len() ==> (#[trigger] pool.failures[i]).key != (
        #[trigger] pool.failures[j]).key
    &&& forall|i: int|
        0 <= i < pool.failures.len() ==> (#[trigger] pool.failures[i]).consecutive_failures >= 1
}

/// Milliseconds until a key is tried again after failures in a row: they double from a
/// quarter of a second up to half a minute.
pub open spec fn backoff_ms(failures: nat) -> nat
    decreases failures,
{
    if failures <= 1 {
        250
    } else if failures >= 8 {
        30_000
    } else {
        2 * backoff_ms((failures - 1) as nat)
    }
}

/// The retry delay never shrinks as failures go on, and stays within its limits.
pub proof fn backoff_grows(a: nat, b: nat)
    requires
        a <= b,
    ensures
        250 <= backoff_ms(a) <= backoff_ms(b) <= 30_000,
{
    reveal_with_fuel(backoff_ms, 9);
}

fn backoff_nanoseconds(failures: u32) -> (r: u64)
    ensures
        r == backoff_ms(failures as nat) * 1_000_000,
        r <= 30_000_000_000,
{
    reveal_with_fuel(backoff_ms, 9);
    let ms: u64 = if failures <= 1 {
        250
    } else if failures == 2 {
        500
    } else if failures == 3 {
        1_000
    } else if failures == 4 {
        2_000
    } else if failures == 5 {
        4_000
    } else if failures == 6 {
        8_000
    } else if failures == 7 {
        16_000
    } else {
        30_000
    };
    ms * 1_000_000
}

/// Failures in a row of a key, with one more.
pub open spec fn failures_in_a_row(failures: Seq<PoolFailure>, key: DeviceKey) -> u32 {
    match failure_of(failures, key) {
        Some(failure) => failure.consecutive_failures.saturating_add(1),
        None => 1,
    }
}

/// A pool after a failure of a key: it is tried again only after a delay.
pub open spec fn pool_failed(
    pool: PoolView,
    key: DeviceKey,
    probe: HwAccelDeviceContextProbe,
    setup: bool,
    now: u64,
) -> PoolView {
    let count = failures_in_a_row(pool.failures, key);
    let failure = PoolFailure {
        key,
        probe,
        consecutive_failures: count,
        retry_after: (now + backoff_ms(count as nat) * 1_000_000) as u64,
    };
    PoolView {
        failures: without_failure(pool.failures, key).push(failure),
        setup_failures: pool.setup_failures.saturating_add(
            if setup {
                1u64
            } else {
                0u64
            },
        ),
        creation_failures: pool.creation_failures.saturating_add(
            if setup {
                0u64
            } else {
                1u64
            },
        ),
        ..pool
    }
}

/// A pool after the current generation of a key was retired, where it is the given one.
pub open spec fn pool_retired(pool: PoolView, key: DeviceKey, generation: u64) -> PoolView {
    match entry_of(pool.entries, key) {
        Some(entry) => if entry.generation == generation {
            PoolView {
                entries: without_entry(pool.entries, key),
                retirements: pool.retirements.saturating_add(1),
                ..pool
            }
        } else {
            pool
        },
        None => pool,
    }
}

proof fn lemma_entry_position(entries: Seq<PoolEntry>, key: DeviceKey)
    ensures
        match entry_position(entries, key) {
            Some(i) => 0 <= i < entries.len() && entries[i].key == key,
            None => forall|i: int| 0 <= i < entries.len() ==> (#[trigger] entries[i]).key != key,
        },
    decreases entries.len(),
{
    if entries.len() > 0 && entries.last().key != key {
        lemma_entry_position(entries.drop_last(), key);
        assert forall|i: int| 0 <= i < entries.len() - 1 implies entries[i]
            == entries.drop_last()[i] by {}
    }
}

proof fn lemma_failure_position(failures: Seq<PoolFailure>, key: DeviceKey)
    ensures
        match failure_position(failures, key) {
            Some(i) => 0 <= i < failures.len() && failures[i].key == key,
            None => forall|i: int| 0 <= i < failures.len() ==> (#[trigger] failures[i]).key != key,
        },
    decreases failures.len(),
{
    if failures.len() > 0 && failures.last().key != key {
        lemma_failure_position(failures.drop_last(), key);
        assert forall|i: int| 0 <= i < failures.len() - 1 implies failures[i]
            == failures.drop_last()[i] by {}
    }
}

proof fn lemma_hold_position(holds: Seq<u64>, root: u64)
    ensures
        match hold_position(holds, root) {
            Some(i) => 0 <= i < holds.len() && holds[i] == root,
            None => !holds.contains(root),
        },
    decreases holds.len(),
{
    if holds.len() > 0 && holds.last() != root {
        lemma_hold_position(holds.drop_last(), root);
        match hold_position(holds, root) {
            Some(i) => {
                assert(holds[i] == holds.drop_last()[i]);
            },
            None => {
                assert forall|i: int| 0 <= i < holds.len() implies holds[i] != root by {
                    if i < holds.len() - 1 {
                        assert(holds.drop_last()[i] == holds[i]);
                        assert(holds.drop_last().contains(holds[i]));
                    }
                }
            },
        }
    }
}

proof fn lemma_least_idle(entries: Seq<PoolEntry>, holds: Seq<u64>, n: nat)
    requires
        n <= entries.len(),
    ensures
        match least_idle_before(entries, holds, n) {
            Some(i) => {
                &&& 0 <= i < n
                &&& is_idle(entries, holds, i)
                &&& forall|j: int|
                    0 <= j < n && #[trigger] is_idle(entries, holds, j) ==> entries[i].last_used
                        <= entries[j].last_used
            },
            None => forall|j: int| 0 <= j < n ==> !#[trigger] is_idle(entries, holds, j),
        },
        least_idle_before(entries, holds, n) is None <==> idle_before(entries, holds, n) == 0,
        idle_before(entries, holds, n) <= n,
    decreases n,
{
    if n > 0 {
        lemma_least_idle(entries, holds, (n - 1) as nat);
    }
}

/// What is left of the contexts were contexts before, and only idle ones are missing. No
/// more than the limit stay idle.
pub proof fn trimming_spares_leases(entries: Seq<PoolEntry>, holds: Seq<u64>, max_idle: nat)
    ensures
        idle_count(trimmed(entries, holds, max_idle), holds) <= max_idle,
        trimmed(entries, holds, max_idle).len() <= entries.len(),
        forall|i: int|
            0 <= i < entries.len() && !#[trigger] is_idle(entries, holds, i) ==> trimmed(
                entries,
                holds,
                max_idle,
            ).contains(entries[i]),
        forall|i: int|
            0 <= i < trimmed(entries, holds, max_idle).len() ==> entries.contains(
                #[trigger] trimmed(entries, holds, max_idle)[i],
            ),
    decreases entries.len(),
{
    lemma_least_idle(entries, holds, entries.len());
    match least_idle(entries, holds) {
        Some(i) => {
            if idle_count(entries, holds) > max_idle {
                let rest = entries.remove(i);
                trimming_spares_leases(rest, holds, max_idle);
                let kept = trimmed(entries, holds, max_idle);
                assert forall|j: int|
                    0 <= j < entries.len() && !#[trigger] is_idle(
                        entries,
                        holds,
                        j,
                    ) implies kept.contains(entries[j]) by {
                    let k = if j < i {
                        j
                    } else {
                        j - 1
                    };
                    assert(rest[k] == entries[j]);
                    if is_idle(rest, holds, k) {
                        let m = choose|m: int|
                            0 <= m < entries.len() && m != j && (#[trigger] entries[m]).root
                                == entries[j].root;
                        assert(m != i);
                        let l = if m < i {
                            m
                        } else {
                            m - 1
                        };
                        assert(rest[l] == entries[m]);
                    }
                }
                assert forall|j: int| 0 <= j < kept.len() implies entries.contains(
                    #[trigger] kept[j],
                ) by {
                    let k = choose|k: int| 0 <= k < rest.len() && rest[k] == kept[j];
                    assert(rest.contains(kept[j]));
                    let m = if k < i {
                        k
                    } else {
                        k + 1
                    };
                    assert(entries[m] == kept[j]);
                }
            }
        },
        None => {},
    }
}

proof fn lemma_trimmed_distinct(entries: Seq<PoolEntry>, holds: Seq<u64>, max_idle: nat)
    requires
        forall|i: int, j: int|
            0 <= i < j < entries.len() ==> (#[trigger] entries[i]).key != (
            #[trigger] entries[j]).key,
    ensures
        forall|i: int, j: int|
            0 <= i < j < trimmed(entries, holds, max_idle).len() ==> (#[trigger] trimmed(
                entries,
                holds,
                max_idle,
            )[i]).key != (#[trigger] trimmed(entries, holds, max_idle)[j]).key,
    decreases entries.len(),
{
    lemma_least_idle(entries, holds, entries.len());
    match least_idle(entries, holds) {
        Some(i) => {
            if idle_count(entries, holds) > max_idle {
                lemma_trimmed_distinct(entries.remove(i), holds, max_idle);
            }
        },
        None => {},
    }
}

proof fn lemma_trimmed_wf(pool: PoolView, max_idle: nat)
    requires
        pool_wf(pool),
    ensures
        pool_wf(pool_trimmed(pool, max_idle)),
{
    trimming_spares_leases(pool.entries, pool.holds, max_idle);
    lemma_trimmed_distinct(pool.entries, pool.holds, max_idle);
    let kept = trimmed(pool.entries, pool.holds, max_idle);
    assert forall|i: int| 0 <= i < kept.len() implies (#[trigger] kept[i]).generation
        < pool.next_generation && kept[i].last_used <= pool.recency_clock by {
        let j = choose|j: int| 0 <= j < pool.entries.len() && pool.entries[j] == kept[i];
        assert(pool.entries.contains(kept[i]));
        assert(pool.entries[j] == kept[i]);
    }
}

fn find_entry(entries: &Vec<PoolEntry>, key: DeviceKey) -> (r: Option<usize>)
    ensures
        match (r, entry_position(entries@, key)) {
            (Some(i), Some(j)) => i == j && i < entries@.len() && entries@[i as int].key == key,
            (None, None) => true,
            _ => false,
        },
{
    let mut i: usize = entries.len();
    assert(entries@.take(i as int) =~= entries@);
    while i > 0
        invariant
            i <= entries@.len(),
            entry_position(entries@, key) == entry_position(entries@.take(i as int), key),
        decreases i,
    {
        i -= 1;
        assert(entries@.take(i + 1).drop_last() =~= entries@.take(i as int));
        if entries[i].key == key {
            return Some(i);
        }
    }
    None
}

fn find_failure(failures: &Vec<PoolFailure>, key: DeviceKey) -> (r: Option<usize>)
    ensures
        match (r, failure_position(failures@, key)) {
            (Some(i), Some(j)) => i == j && i < failures@.len() && failures@[i as int].key == key,
            (None, None) => true,
            _ => false,
        },
{
    let mut i: usize = failures.len();
    assert(failures@.take(i as int) =~= failures@);
    while i > 0
        invariant
            i <= failures@.len(),
            failure_position(failures@, key) == failure_position(failures@.take(i as int), key),
        decreases i,
    {
        i -= 1;
        assert(failures@.take(i + 1).drop_last() =~= failures@.take(i as int));
        if failures[i].key == key {
            return Some(i);
        }
    }
    None
}

fn find_hold(holds: &Vec<u64>, root: u64) -> (r: Option<usize>)
    ensures
        match (r, hold_position(holds@, root)) {
            (Some(i), Some(j)) => i == j && i < holds@.len(),
            (None, None) => true,
            _ => false,
        },
{
    let mut i: usize = holds.len();
    assert(holds@.take(i as int) =~= holds@);
    while i > 0
        invariant
            i <= holds@.len(),
            hold_position(holds@, root) == hold_position(holds@.take(i as int), root),
        decreases i,
    {
        i -= 1;
        assert(holds@.take(i + 1).drop_last() =~= holds@.take(i as int));
        if holds[i] == root {
            return Some(i);
        }
    }
    None
}

fn idle_at(entries: &Vec<PoolEntry>, holds: &Vec<u64>, i: usize) -> (r: bool)
    requires
        i < entries@.len(),
    ensures
        r == is_idle(entries@, holds@, i as int),
{
    let root: u64 = entries[i].root;
    proof {
        lemma_hold_position(holds@, root);
    }
    if find_hold(holds, root).is_some() {
        return false;
    }
    let len: usize = entries.len();
    let mut j: usize = 0;
    while j < len
        invariant
            j <= len == entries@.len(),
            i < len,
            root == entries@[i as int].root,
            forall|k: int|
                0 <= k < j && k != i ==> (#[trigger] entries@[k]).root != entries@[i as int].root,
        decreases len - j,
    {
        if j != i && entries[j].root == root {
            return false;
        }
        j += 1;
    }
    true
}

fn find_least_idle(entries: &Vec<PoolEntry>, holds: &Vec<u64>) -> (r: (Option<usize>, usize))
    ensures
        match (r.0, least_idle(entries@, holds@)) {
            (Some(i), Some(j)) => i == j && i < entries@.len(),
            (None, None) => true,
            _ => false,
        },
        r.1 == idle_count(entries@, holds@),
{
    let len: usize = entries.len();
    let mut best: Option<usize> = None;
    let mut count: usize = 0;
    let mut i: usize = 0;
    while i < len
        invariant
            i <= len == entries@.len(),
            count <= i,
            count == idle_before(entries@, holds@, i as nat),
            match (best, least_idle_before(entries@, holds@, i as nat)) {
                (Some(a), Some(b)) => a == b && a < i,
                (None, None) => true,
                _ => false,
            },
        decreases len - i,
    {
        if idle_at(entries, holds, i) {
            count += 1;
            match best {
                None => {
                    best = Some(i);
                },
                Some(b) => {
                    if entries[i].last_used < entries[b].last_used {
                        best = Some(i);
                    }
                },
            }
        }
        i += 1;
    }
    (best, count)
}

/// Contexts after one of them was acquired once more.
pub open spec fn acquired_again(entries: Seq<PoolEntry>, i: int, recency: u64) -> Seq<PoolEntry> {
    entries.update(i, PoolEntry { last_used: recency, ..entries[i] })
}

/// The clock of a pool after one more use.
pub open spec fn next_recency(pool: PoolView) -> u64 {
    pool.recency_clock.saturating_add(1)
}

/// The text of a refusal during a retry delay.
pub open spec fn deferral_reason(failure: PoolFailure, now: u64) -> Seq<char> {
    failure.probe.reason@ + "; retry deferred for "@ + decimal(
        ((failure.retry_after - now) as nat / 1_000_000),
    ) + " ms after "@ + decimal(failure.consecutive_failures as nat) + " consecutive failures"@
}

/// How many of the first `n` delays are not over.
pub open spec fn delayed(failures: Seq<PoolFailure>, now: u64, n: nat) -> nat
    decreases n,
{
    if n == 0 {
        0
    } else {
        delayed(failures, now, (n - 1) as nat) + (if now < failures[n - 1].retry_after {
            1nat
        } else {
            0
        })
    }
}

/// Whether a key is under a retry delay.
pub open spec fn is_deferred(pool: PoolView, key: DeviceKey, now: u64) -> bool {
    failure_of(pool.failures, key) matches Some(failure) && now < failure.retry_after
}

/// A pool after a key that is not under a retry delay was asked for: a failure of it is
/// over, and the clock goes on.
pub open spec fn pool_asked(pool: PoolView, key: DeviceKey) -> PoolView {
    PoolView {
        failures: without_failure(pool.failures, key),
        recency_clock: next_recency(pool),
        ..pool
    }
}

impl HwDeviceContextPool {
    /// The pool is consistent.
    pub open spec fn wf(&self) -> bool {
        pool_wf(self@)
    }

    /// An empty pool.
    pub fn new(policy: HwDeviceContextPoolPolicy) -> (pool: HwDeviceContextPool)
        ensures
            pool.wf(),
            pool@ == empty_pool(policy),
    {
        let pool = HwDeviceContextPool {
            policy,
            policy_revision: 1,
            next_generation: 1,
            recency_clock: 0,
            entries: Vec::new(),
            failures: Vec::new(),
            holds: Vec::new(),
            hits: 0,
            misses: 0,
            retirements: 0,
            evictions: 0,
            creation_failures: 0,
            setup_failures: 0,
            backoff_rejections: 0,
        };
        assert(pool.entries@ =~= Seq::<PoolEntry>::empty());
        assert(pool.failures@ =~= Seq::<PoolFailure>::empty());
        assert(pool.holds@ =~= Seq::<u64>::empty());
        pool
    }

    fn trim_idle_to(&mut self, max_idle: usize)
        requires
            old(self).wf(),
        ensures
            final(self).wf(),
            final(self)@ == pool_trimmed(old(self)@, max_idle as nat),
    {
        let ghost before = self@;
        let ghost mut gone: nat = 0;
        let total: usize = self.entries.len();
        let (mut least, mut count) = find_least_idle(&self.entries, &self.holds);
        assert(self.evictions.saturating_add(0) == self.evictions);
        proof {
            lemma_trimmed_wf(before, max_idle as nat);
            lemma_least_idle(self.entries@, self.holds@, self.entries@.len());
        }
        while count > max_idle
            invariant
                count == idle_count(self.entries@, self.holds@),
                match (least, least_idle(self.entries@, self.holds@)) {
                    (Some(i), Some(j)) => i == j && i < self.entries@.len(),
                    (None, None) => true,
                    _ => false,
                },
                trimmed(self.entries@, self.holds@, max_idle as nat) == trimmed(
                    before.entries,
                    before.holds,
                    max_idle as nat,
                ),
                self.holds@ == before.holds,
                self@ == (PoolView {
                    entries: self.entries@,
                    evictions: before.evictions.saturating_add(gone as u64),
                    ..before
                }),
                gone + self.entries@.len() == before.entries.len(),
                before.entries.len() == total,
            decreases self.entries@.len(),
        {
            proof {
                lemma_least_idle(self.entries@, self.holds@, self.entries@.len());
            }
            match least {
                None => {},
                Some(i) => {
                    self.entries.remove(i);
                    self.evictions = self.evictions.saturating_add(1);
                    proof {
                        gone = gone + 1;
                    }
                    let found = find_least_idle(&self.entries, &self.holds);
                    least = found.0;
                    count = found.1;
                    assert(self@.entries == self.entries@);
                },
            }
        }
        proof {
            lemma_least_idle(self.entries@, self.holds@, self.entries@.len());
            assert(trimmed(self.entries@, self.holds@, max_idle as nat) == self.entries@);
        }
    }

    fn forget_failure(&mut self, key: DeviceKey)
        requires
            old(self).wf(),
        ensures
            final(self).wf(),
            final(self)@ == (PoolView {
                failures: without_failure(old(self)@.failures, key),
                ..old(self)@
            }),
    {
        match find_failure(&self.failures, key) {
            Some(i) => {
                self.failures.remove(i);
            },
            None => {},
        }
    }

    fn record_failure(
        &mut self,
        key: DeviceKey,
        probe: HwAccelDeviceContextProbe,
        setup: bool,
        now: u64,
    )
        requires
            old(self).wf(),
            now <= u64::MAX - 30_000_000_000,
        ensures
            final(self).wf(),
            final(self)@ == pool_failed(old(self)@, key, probe, setup, now),
    {
        let ghost before = self@;
        proof {
            lemma_failure_position(before.failures, key);
        }
        let count: u32 = match find_failure(&self.failures, key) {
            Some(i) => self.failures[i].consecutive_failures.saturating_add(1),
            None => 1,
        };
        self.forget_failure(key);
        let ghost rest = self.failures@;
        let delay: u64 = backoff_nanoseconds(count);
        self.failures.push(
            PoolFailure {
                key,
                probe,
                consecutive_failures: count,
                retry_after: now + delay,
            },
        );
        if setup {
            self.setup_failures = self.setup_failures.saturating_add(1);
        } else {
            self.creation_failures = self.creation_failures.saturating_add(1);
        }
        proof {
            assert forall|i: int| 0 <= i < rest.len() implies (#[trigger] rest[i]).key != key by {
                match failure_position(before.failures, key) {
                    Some(j) => {
                        let k = if i < j {
                            i
                        } else {
                            i + 1
                        };
                        assert(before.failures[k] == rest[i]);
                        assert(before.failures[j].key == key);
                    },
                    None => {
                        assert(before.failures[i] == rest[i]);
                    },
                }
            }
        }
    }

    /// Changes the policy, and releases idle contexts beyond it.
    pub fn reconfigure(&mut self, policy: HwDeviceContextPoolPolicy)
        requires
            old(self).wf(),
        ensures
            final(self).wf(),
            final(self)@ == (if old(self)@.policy == policy {
                old(self)@
            } else {
                pool_trimmed(
                    PoolView {
                        policy,
                        policy_revision: old(self)@.policy_revision.saturating_add(1),
                        ..old(self)@
                    },
                    policy.max_idle_contexts as nat,
                )
            }),
    {
        if self.policy == policy {
            return;
        }
        self.policy = policy;
        self.policy_revision = self.policy_revision.saturating_add(1);
        self.trim_idle_to(policy.max_idle_contexts);
    }

    /// Releases every idle context. Leases stay.
    pub fn release_idle(&mut self)
        requires
            old(self).wf(),
        ensures
            final(self).wf(),
            final(self)@ == pool_trimmed(old(self)@, 0),
    {
        self.trim_idle_to(0);
    }

    /// Ends all retry delays, as after a change of devices.
    pub fn invalidate_failure_backoff(&mut self)
        requires
            old(self).wf(),
        ensures
            final(self).wf(),
            final(self)@ == (PoolView { failures: Seq::empty(), ..old(self)@ }),
    {
        self.failures.clear();
        assert(self.failures@ =~= Seq::<PoolFailure>::empty());
    }

    fn allocate_generation(&mut self) -> (r: Option<u64>)
        requires
            old(self).wf(),
        ensures
            final(self).wf(),
            match r {
                Some(generation) => {
                    &&& generation == old(self)@.next_generation
                    &&& generation < u64::MAX
                    &&& final(self)@ == PoolView {
                        next_generation: (generation + 1) as u64,
                        ..old(self)@
                    }
                },
                None => old(self)@.next_generation == u64::MAX && final(self)@ == old(self)@,
            },
    {
        let generation: u64 = self.next_generation;
        match generation.checked_add(1) {
            None => None,
            Some(next) => {
                self.next_generation = next;
                Some(generation)
            },
        }
    }

    /// Puts a context in the place of that of its key. Tells whether there was one.
    fn insert_entry(&mut self, entry: PoolEntry) -> (replaced: bool)
        requires
            old(self).wf(),
            entry.generation < old(self)@.next_generation,
            entry.last_used <= old(self)@.recency_clock,
        ensures
            final(self).wf(),
            replaced == entry_of(old(self)@.entries, entry.key) is Some,
            final(self)@ == (PoolView {
                entries: without_entry(old(self)@.entries, entry.key).push(entry),
                ..old(self)@
            }),
    {
        let ghost before = self.entries@;
        proof {
            lemma_entry_position(before, entry.key);
        }
        let found = find_entry(&self.entries, entry.key);
        match found {
            Some(i) => {
                self.entries.remove(i);
            },
            None => {},
        }
        let ghost rest = self.entries@;
        proof {
            assert forall|i: int| 0 <= i < rest.len() implies (#[trigger] rest[i]).key
                != entry.key by {
                match entry_position(before, entry.key) {
                    Some(j) => {
                        let k = if i < j {
                            i
                        } else {
                            i + 1
                        };
                        assert(before[k] == rest[i]);
                        assert(before[j].key == entry.key);
                    },
                    None => {
                        assert(before[i] == rest[i]);
                    },
                }
            }
        }
        self.entries.push(entry);
        found.is_some()
    }

    /// Installs the device context that a renderer owns for future sessions. Installing
    /// the same root again changes nothing but an end to its retry delay. A root that the
    /// renderer keeps is held, and so not idle, until the renderer lets go of it.
    pub fn install_renderer_device_context(
        &mut self,
        selector: HwAccelDeviceSelector,
        backend: HwAccelBackend,
        root: u64,
        kept: bool,
    ) -> (r: Result<bool, RendererHwAccelDeviceContextInstallError>)
        requires
            old(self).wf(),
        ensures
            final(self).wf(),
            ({
                let key = DeviceKey { backend, selector: Some(selector) };
                let pool = old(self)@;
                match r {
                    Err(RendererHwAccelDeviceContextInstallError::SelectorMismatch {
                        selector: s,
                        backend: b,
                    }) => {
                        &&& s == selector
                        &&& b == backend
                        &&& selector.selected_backend() != backend
                        &&& final(self)@ == pool
                    },
                    Err(RendererHwAccelDeviceContextInstallError::GenerationExhausted) => {
                        &&& selector.selected_backend() == backend
                        &&& !(entry_of(pool.entries, key) matches Some(entry) && entry.root == root)
                        &&& pool.next_generation == u64::MAX
                        &&& final(self)@ == pool
                    },
                    Ok(false) => {
                        &&& selector.selected_backend() == backend
                        &&& entry_of(pool.entries, key) matches Some(entry) && entry.root == root
                        &&& final(self)@ == PoolView {
                            failures: without_failure(pool.failures, key),
                            ..pool
                        }
                    },
                    Ok(true) => {
                        &&& selector.selected_backend() == backend
                        &&& !(entry_of(pool.entries, key) matches Some(entry) && entry.root == root)
                        &&& pool.next_generation < u64::MAX
                        &&& final(self)@ == PoolView {
                            next_generation: (pool.next_generation + 1) as u64,
                            recency_clock: next_recency(pool),
                            entries: without_entry(pool.entries, key).push(
                                PoolEntry {
                                    key,
                                    generation: pool.next_generation,
                                    last_used: next_recency(pool),
                                    root,
                                },
                            ),
                            holds: if kept {
                                pool.holds.push(root)
                            } else {
                                pool.holds
                            },
                            failures: without_failure(pool.failures, key),
                            misses: pool.misses.saturating_add(1),
                            retirements: pool.retirements.saturating_add(
                                if entry_of(pool.entries, key) is Some {
                                    1u64
                                } else {
                                    0u64
                                },
                            ),
                            ..pool
                        }
                    },
                }
            }),
    {
        if !selector.selects_backend(backend) {
            return Err(
                RendererHwAccelDeviceContextInstallError::SelectorMismatch { selector, backend },
            );
        }
        let key = DeviceKey { backend, selector: Some(selector) };
        match find_entry(&self.entries, key) {
            Some(i) => {
                if self.entries[i].root == root {
                    self.forget_failure(key);
                    return Ok(false);
                }
            },
            None => {},
        }
        let generation: u64 = match self.allocate_generation() {
            None => {
                return Err(RendererHwAccelDeviceContextInstallError::GenerationExhausted);
            },
            Some(generation) => generation,
        };
        self.recency_clock = self.recency_clock.saturating_add(1);
        let recency: u64 = self.recency_clock;
        let replaced = self.insert_entry(
            PoolEntry { key, generation, last_used: recency, root },
        );
        if kept {
            self.holds.push(root);
        }
        if replaced {
            self.retirements = self.retirements.saturating_add(1);
        }
        self.forget_failure(key);
        self.misses = self.misses.saturating_add(1);
        Ok(true)
    }

    /// A renderer lets go of a root that it kept.
    pub fn let_go(&mut self, root: u64)
        requires
            old(self).wf(),
        ensures
            final(self).wf(),
            final(self)@ == (PoolView {
                holds: without_hold(old(self)@.holds, root),
                ..old(self)@
            }),
    {
        match find_hold(&self.holds, root) {
            Some(i) => {
                self.holds.remove(i);
            },
            None => {},
        }
    }

    /// Retires the context that is offered for a selector. Leases on it stay.
    pub fn retire_renderer_device_context(&mut self, selector: HwAccelDeviceSelector) -> (r: bool)
        requires
            old(self).wf(),
        ensures
            final(self).wf(),
            ({
                let key = DeviceKey {
                    backend: selector.selected_backend(),
                    selector: Some(selector),
                };
                let pool = PoolView {
                    failures: without_failure(old(self)@.failures, key),
                    ..old(self)@
                };
                &&& r == entry_of(pool.entries, key) is Some
                &&& final(self)@ == if r {
                    PoolView {
                        entries: without_entry(pool.entries, key),
                        retirements: pool.retirements.saturating_add(1),
                        ..pool
                    }
                } else {
                    pool
                }
            }),
    {
        let key = DeviceKey { backend: selector.backend(), selector: Some(selector) };
        self.forget_failure(key);
        match find_entry(&self.entries, key) {
            None => false,
            Some(i) => {
                self.entries.remove(i);
                self.retirements = self.retirements.saturating_add(1);
                true
            },
        }
    }

    /// The evidence of this pool at a time.
    pub fn diagnostics(&self, now: u64) -> (r: HwDeviceContextPoolDiagnostics)
        requires
            self.wf(),
        ensures
            r.policy == self@.policy,
            r.policy_revision == self@.policy_revision,
            r.entries == self@.entries.len(),
            r.idle_contexts == idle_count(self@.entries, self@.holds),
            r.active_contexts + r.idle_contexts == r.entries,
            r.latest_generation == self@.next_generation - 1,
            r.hits == self@.hits,
            r.misses == self@.misses,
            r.retirements == self@.retirements,
            r.evictions == self@.evictions,
            r.creation_failures == self@.creation_failures,
            r.setup_failures == self@.setup_failures,
            r.failure_backoffs == delayed(self@.failures, now, self@.failures.len()),
            r.backoff_rejections == self@.backoff_rejections,
    {
        let (_, idle) = find_least_idle(&self.entries, &self.holds);
        proof {
            lemma_least_idle(self.entries@, self.holds@, self.entries@.len());
        }
        let len: usize = self.failures.len();
        let mut i: usize = 0;
        let mut backoffs: usize = 0;
        while i < len
            invariant
                i <= len == self.failures@.len(),
                backoffs <= i,
                backoffs == delayed(self.failures@, now, i as nat),
            decreases len - i,
        {
            if now < self.failures[i].retry_after {
                backoffs += 1;
            }
            i += 1;
        }
        HwDeviceContextPoolDiagnostics {
            policy: self.policy,
            policy_revision: self.policy_revision,
            entries: self.entries.len(),
            active_contexts: self.entries.len() - idle,
            idle_contexts: idle,
            latest_generation: self.next_generation - 1,
            hits: self.hits,
            misses: self.misses,
            retirements: self.retirements,
            evictions: self.evictions,
            creation_failures: self.creation_failures,
            setup_failures: self.setup_failures,
            failure_backoffs: backoffs,
            backoff_rejections: self.backoff_rejections,
        }
    }

    /// Retires a generation from new sessions, where it is the current one of its key.
    pub fn retire(&mut self, key: DeviceKey, generation: u64)
        requires
            old(self).wf(),
        ensures
            final(self).wf(),
            final(self)@ == pool_retired(old(self)@, key, generation),
    {
        match find_entry(&self.entries, key) {
            None => {},
            Some(i) => {
                if self.entries[i].generation == generation {
                    self.entries.remove(i);
                    self.retirements = self.retirements.saturating_add(1);
                }
            },
        }
    }

    /// Retires the generation of a lease after its decoder could not be set up, or failed
    /// later, and delays the next try.
    pub fn retire_after_setup_failure(&mut self, lease: &DeviceLease, reason: String, now: u64)
        requires
            old(self).wf(),
            now <= u64::MAX - 30_000_000_000,
        ensures
            final(self).wf(),
            final(self)@ == pool_failed(
                pool_retired(old(self)@, lease.key, lease.generation),
                lease.key,
                HwAccelDeviceContextProbe::spec_acquired(
                    lease.key.backend,
                    lease.newly_created,
                    reason,
                ),
                true,
                now,
            ),
    {
        self.retire(lease.key, lease.generation);
        let probe = HwAccelDeviceContextProbe::acquired(
            lease.key.backend,
            lease.newly_created,
            reason,
        );
        self.record_failure(lease.key, probe, true, now);
    }

    /// Whether new sessions would get the generation of a lease.
    pub fn is_current_generation(&self, lease: &DeviceLease) -> (r: bool)
        ensures
            r == (entry_of(self@.entries, lease.key) matches Some(entry) && entry.generation
                == lease.generation && entry.root == lease.root),
    {
        match find_entry(&self.entries, lease.key) {
            None => false,
            Some(i) => self.entries[i].generation == lease.generation && self.entries[i].root
                == lease.root,
        }
    }

    /// Whether a root is offered to new sessions. One that is not lives only as long as
    /// its leases.
    pub fn holds_root(&self, root: u64) -> (r: bool)
        ensures
            r == exists|i: int|
                0 <= i < self@.entries.len() && (#[trigger] self@.entries[i]).root == root,
    {
        let len: usize = self.entries.len();
        let mut i: usize = 0;
        while i < len
            invariant
                i <= len == self@.entries.len(),
                self@.entries == self.entries@,
                forall|j: int| 0 <= j < i ==> (#[trigger] self@.entries[j]).root != root,
            decreases len - i,
        {
            if self.entries[i].root == root {
                assert(self@.entries[i as int].root == root);
                return true;
            }
            i += 1;
        }
        false
    }
}

/// The pool before anything happened to it.
pub open spec fn empty_pool(policy: HwDeviceContextPoolPolicy) -> PoolView {
    PoolView {
        policy,
        policy_revision: 1,
        next_generation: 1,
        recency_clock: 0,
        entries: Seq::empty(),
        failures: Seq::empty(),
        holds: Seq::empty(),
        hits: 0,
        misses: 0,
        retirements: 0,
        evictions: 0,
        creation_failures: 0,
        setup_failures: 0,
        backoff_rejections: 0,
    }
}

impl Default for HwDeviceContextPool {
    fn default() -> (pool: HwDeviceContextPool)
        ensures
            pool.wf(),
            pool@.policy.max_idle_contexts == 2,
            pool@ == empty_pool(pool@.policy),
    {
        HwDeviceContextPool::new(HwDeviceContextPoolPolicy::default())
    }
}

/// What creating a device context for a ticket brought.
#[derive(Debug, PartialEq, Eq)]
pub enum RootCreation {
    /// An error code, with its text.
    Failed { code: i32, text: String },
    /// Success without a context.
    Missing,
    Created { root: u64 },
}

/// A pool after a session let go of its lease. Where that was the last hold on a context
/// of the pool, it stays as an idle one where the policy has room for it, and is released
/// otherwise.
pub open spec fn pool_released(pool: PoolView, lease: DeviceLease) -> PoolView {
    let rest = without_hold(pool.holds, lease.root);
    match entry_position(pool.entries, lease.key) {
        Some(i) => if pool.holds.contains(lease.root) && pool.entries[i].generation
            == lease.generation && pool.entries[i].root == lease.root && is_idle(
            pool.entries,
            rest,
            i,
        ) && idle_count(pool.entries, pool.holds) >= pool.policy.max_idle_contexts {
            pool_trimmed(
                PoolView {
                    entries: pool.entries.remove(i),
                    holds: rest,
                    evictions: pool.evictions.saturating_add(1),
                    ..pool
                },
                pool.policy.max_idle_contexts as nat,
            )
        } else {
            PoolView { holds: rest, ..pool }
        },
        None => PoolView { holds: rest, ..pool },
    }
}

impl HwDeviceContextPool {
    /// Asks for the device context of a backend. It is refused where the selector is for
    /// another backend, where the backend has no device type in the decoder library, and
    /// during a retry delay. Otherwise a context is reused, or has to be created.
    #[verifier::spinoff_prover]
    #[verifier::rlimit(40)]
    pub fn begin_acquire(
        &mut self,
        backend: HwAccelBackend,
        selector: Option<HwAccelDeviceSelector>,
        has_d3d12: bool,
        device_type_listed: bool,
        now: u64,
    ) -> (r: AcquireStart)
        requires
            old(self).wf(),
        ensures
            final(self).wf(),
            ({
                let key = DeviceKey { backend, selector };
                let pool = old(self)@;
                let fits = selector matches Some(chosen) ==> chosen.selected_backend() == backend;
                if !fits {
                    &&& final(self)@ == pool
                    &&& r matches AcquireStart::Refused(probe) && probe.has(
                        backend,
                        device_type(backend, has_d3d12) is Some,
                        false,
                        false,
                        false,
                        None,
                    ) && probe.reason@ == mismatch_reason(selector->0, backend)
                } else if device_type(backend, has_d3d12) is None {
                    &&& final(self)@ == pool
                    &&& r matches AcquireStart::Refused(probe) && probe.has(
                        backend,
                        false,
                        false,
                        false,
                        false,
                        None,
                    ) && probe.reason@ == unmapped_reason(backend)
                } else if !device_type_listed {
                    &&& final(self)@ == pool
                    &&& r matches AcquireStart::Refused(probe) && probe.has(
                        backend,
                        true,
                        false,
                        false,
                        false,
                        None,
                    ) && probe.reason@ == unlisted_reason(backend)
                } else if is_deferred(pool, key, now) {
                    let failure = failure_of(pool.failures, key)->0;
                    &&& final(self)@ == PoolView {
                        backoff_rejections: pool.backoff_rejections.saturating_add(1),
                        ..pool
                    }
                    &&& r matches AcquireStart::Refused(probe) && probe.has(
                        failure.probe.backend,
                        failure.probe.backend_maps_to_ffmpeg_device,
                        failure.probe.ffmpeg_device_type_available,
                        false,
                        false,
                        failure.probe.device_create_error_code,
                    ) && probe.reason@ == deferral_reason(failure, now)
                } else {
                    match entry_position(pool.entries, key) {
                        Some(i) => {
                            &&& final(self)@ == PoolView {
                                entries: acquired_again(pool.entries, i, next_recency(pool)),
                                holds: pool.holds.push(pool.entries[i].root),
                                hits: pool.hits.saturating_add(1),
                                ..pool_asked(pool, key)
                            }
                            &&& r == AcquireStart::Reused(
                                DeviceLease {
                                    key,
                                    generation: pool.entries[i].generation,
                                    root: pool.entries[i].root,
                                    newly_created: false,
                                },
                            )
                        },
                        None => if pool.next_generation == u64::MAX {
                            &&& final(self)@ == pool_asked(pool, key)
                            &&& r matches AcquireStart::Refused(probe) && probe.has(
                                backend,
                                true,
                                true,
                                false,
                                false,
                                None,
                            ) && probe.reason@ == "hardware device generation space is exhausted"@
                        } else {
                            &&& final(self)@ == PoolView {
                                next_generation: (pool.next_generation + 1) as u64,
                                ..pool_asked(pool, key)
                            }
                            &&& r == AcquireStart::Create(
                                CreationTicket {
                                    key,
                                    generation: pool.next_generation,
                                    recency: next_recency(pool),
                                },
                            )
                        },
                    }
                }
            }),            r matches AcquireStart::Reused(lease) ==> {
                &&& lease.key == (DeviceKey { backend, selector })
                &&& !lease.newly_created
                &&& final(self)@.holds == old(self)@.holds.push(lease.root)
                &&& exists|i: int|
                    0 <= i < old(self)@.entries.len() && (#[trigger] old(self)@.entries[i]).key
                        == lease.key && old(self)@.entries[i].generation == lease.generation
                        && old(self)@.entries[i].root == lease.root
            },
            r matches AcquireStart::Create(ticket) ==> {
                &&& ticket.key == (DeviceKey { backend, selector })
                &&& final(self)@.holds == old(self)@.holds
                &&& forall|i: int|
                    0 <= i < old(self)@.entries.len() ==> (#[trigger] old(self)@.entries[i]).key
                        != ticket.key && old(self)@.entries[i].generation < ticket.generation
                        && old(self)@.entries[i].last_used <= ticket.recency
            },
            r is Refused ==> final(self)@.entries == old(self)@.entries && final(self)@.holds
                == old(self)@.holds,
    {
        proof {
            lemma_entry_position(self@.entries, DeviceKey { backend, selector });
        }

        match backend.probe_selector(has_d3d12, selector) {
            Some(probe) => return AcquireStart::Refused(probe),
            None => {},
        }
        match backend.probe_device_type(has_d3d12, device_type_listed) {
            Some(probe) => return AcquireStart::Refused(probe),
            None => {},
        }
        let key = DeviceKey { backend, selector };
        let ghost pool = self@;
        proof {
            lemma_failure_position(pool.failures, key);
            lemma_entry_position(pool.entries, key);
        }
        match find_failure(&self.failures, key) {
            Some(i) => {
                if now < self.failures[i].retry_after {
                    let mut probe = self.failures[i].probe.duplicate();
                    probe.device_create_attempted = false;
                    probe.device_context_created = false;
                    probe.reason.append("; retry deferred for ");
                    push_decimal(
                        &mut probe.reason,
                        (self.failures[i].retry_after - now) / 1_000_000,
                    );
                    probe.reason.append(" ms after ");
                    push_decimal(
                        &mut probe.reason,
                        self.failures[i].consecutive_failures as u64,
                    );
                    probe.reason.append(" consecutive failures");
                    self.backoff_rejections = self.backoff_rejections.saturating_add(1);
                    assert(probe.reason@ =~= deferral_reason(pool.failures[i as int], now));
                    return AcquireStart::Refused(probe);
                }
                self.forget_failure(key);
            },
            None => {},
        }
        self.recency_clock = self.recency_clock.saturating_add(1);
        let recency: u64 = self.recency_clock;
        assert(self@ == pool_asked(pool, key));
        match find_entry(&self.entries, key) {
            Some(i) => {
                let mut entry = self.entries[i];
                let generation: u64 = entry.generation;
                let root: u64 = entry.root;
                entry.last_used = recency;
                self.entries.set(i, entry);
                self.holds.push(root);
                self.hits = self.hits.saturating_add(1);
                return AcquireStart::Reused(
                    DeviceLease { key, generation, root, newly_created: false },
                );
            },
            None => {},
        }
        match self.allocate_generation() {
            Some(generation) => AcquireStart::Create(CreationTicket { key, generation, recency }),
            None => AcquireStart::Refused(
                HwAccelDeviceContextProbe::deferred(
                    backend,
                    has_d3d12,
                    device_type_listed,
                    "hardware device generation space is exhausted".to_owned(),
                ),
            ),
        }
    }

    /// Takes what the creation for a ticket brought. A context goes into the pool with a
    /// lease; without one the key is tried again only after a delay.
    pub fn finish_acquire(&mut self, ticket: CreationTicket, creation: RootCreation, now: u64) -> (r:
        Result<DeviceLease, HwAccelDeviceContextProbe>)
        requires
            old(self).wf(),
            ticket.generation < old(self)@.next_generation,
            ticket.recency <= old(self)@.recency_clock,
            now <= u64::MAX - 30_000_000_000,
        ensures
            final(self).wf(),
            match (creation, r) {
                (RootCreation::Created { root }, Ok(lease)) => {
                    &&& lease == DeviceLease {
                        key: ticket.key,
                        generation: ticket.generation,
                        root,
                        newly_created: true,
                    }
                    &&& final(self)@ == pool_trimmed(
                        PoolView {
                            entries: without_entry(old(self)@.entries, ticket.key).push(
                                PoolEntry {
                                    key: ticket.key,
                                    generation: ticket.generation,
                                    last_used: ticket.recency,
                                    root,
                                },
                            ),
                            failures: without_failure(old(self)@.failures, ticket.key),
                            misses: old(self)@.misses.saturating_add(1),
                            holds: old(self)@.holds.push(root),
                            ..old(self)@
                        },
                        old(self)@.policy.max_idle_contexts as nat,
                    )
                },
                (RootCreation::Failed { code, text }, Err(probe)) => {
                    &&& probe.has(ticket.key.backend, true, true, true, false, Some(code))
                    &&& probe.reason@ == failed_reason(ticket.key.backend, text@)
                    &&& final(self)@ == pool_failed(old(self)@, ticket.key, probe, false, now)
                },
                (RootCreation::Missing, Err(probe)) => {
                    &&& probe.has(ticket.key.backend, true, true, true, false, None)
                    &&& probe.reason@ == missing_reason(ticket.key.backend)
                    &&& final(self)@ == pool_failed(old(self)@, ticket.key, probe, false, now)
                },
                _ => false,
            },
    {
        let probe = match creation {
            RootCreation::Created { root } => {
                self.holds.push(root);
                self.insert_entry(
                    PoolEntry {
                        key: ticket.key,
                        generation: ticket.generation,
                        last_used: ticket.recency,
                        root,
                    },
                );
                self.forget_failure(ticket.key);
                self.misses = self.misses.saturating_add(1);
                self.trim_idle_to(self.policy.max_idle_contexts);
                return Ok(
                    DeviceLease {
                        key: ticket.key,
                        generation: ticket.generation,
                        root,
                        newly_created: true,
                    },
                );
            },
            RootCreation::Failed { code, text } => ticket.key.backend.probe_failed_creation(
                Some(code),
                text.as_str(),
            ),
            RootCreation::Missing => ticket.key.backend.probe_failed_creation(None, ""),
        };
        let copy = probe.duplicate();
        self.record_failure(ticket.key, copy, false, now);
        Err(probe)
    }

    /// A session lets go of its lease.
    pub fn release(&mut self, lease: DeviceLease)
        requires
            old(self).wf(),
        ensures
            final(self).wf(),
            final(self)@ == pool_released(old(self)@, lease),
    {
        let (_, idle) = find_least_idle(&self.entries, &self.holds);
        proof {
            lemma_hold_position(self.holds@, lease.root);
        }
        match find_hold(&self.holds, lease.root) {
            None => {
                return;
            },
            Some(i) => {
                self.holds.remove(i);
            },
        }
        match find_entry(&self.entries, lease.key) {
            None => {},
            Some(i) => {
                if self.entries[i].generation == lease.generation && self.entries[i].root
                    == lease.root && idle_at(&self.entries, &self.holds, i) && idle
                    >= self.policy.max_idle_contexts {
                    self.entries.remove(i);
                    self.evictions = self.evictions.saturating_add(1);
                    self.trim_idle_to(self.policy.max_idle_contexts);
                }
            },
        }
    }
}

proof fn lemma_idle_shift(
    entries: Seq<PoolEntry>,
    holds: Seq<u64>,
    rest: Seq<u64>,
    changed: int,
    n: nat,
)
    requires
        n <= entries.len(),
        forall|j: int|
            0 <= j < n && j != changed ==> #[trigger] is_idle(entries, rest, j) == is_idle(
                entries,
                holds,
                j,
            ),
    ensures
        idle_before(entries, rest, n) <= idle_before(entries, holds, n) + if 0 <= changed < n {
            1nat
        } else {
            0nat
        },
    decreases n,
{
    if n > 0 {
        lemma_idle_shift(entries, holds, rest, changed, (n - 1) as nat);
        assert(n - 1 != changed ==> is_idle(entries, rest, n - 1) == is_idle(
            entries,
            holds,
            n - 1,
        ));
    }
}

/// Once within its policy, a pool stays within it whatever leases are given back, unless a
/// later generation has the root of the lease.
pub proof fn releasing_keeps_the_policy(pool: PoolView, lease: DeviceLease)
    requires
        pool_wf(pool),
        idle_count(pool.entries, pool.holds) <= pool.policy.max_idle_contexts,
        forall|i: int|
            0 <= i < pool.entries.len() && (#[trigger] pool.entries[i]).root == lease.root
                ==> pool.entries[i].key == lease.key && pool.entries[i].generation
                == lease.generation,
    ensures
        ({
            let after = pool_released(pool, lease);
            idle_count(after.entries, after.holds) <= pool.policy.max_idle_contexts
        }),
{
    let entries = pool.entries;
    let holds = pool.holds;
    let rest = without_hold(holds, lease.root);
    lemma_entry_position(entries, lease.key);
    lemma_hold_position(holds, lease.root);
    assert forall|root: u64| root != lease.root implies #[trigger] rest.contains(root)
        == holds.contains(root) by {
        match hold_position(holds, lease.root) {
            Some(k) => {
                if holds.contains(root) {
                    let m = choose|m: int| 0 <= m < holds.len() && holds[m] == root;
                    let l = if m < k {
                        m
                    } else {
                        m - 1
                    };
                    assert(rest[l] == root);
                }
                if rest.contains(root) {
                    let l = choose|l: int| 0 <= l < rest.len() && rest[l] == root;
                    let m = if l < k {
                        l
                    } else {
                        l + 1
                    };
                    assert(holds[m] == root);
                }
            },
            None => {},
        }
    }
    let place = entry_position(entries, lease.key);
    let changed = match place {
        Some(i) => if entries[i].root == lease.root && is_idle(entries, rest, i) {
            i
        } else {
            -1
        },
        None => -1,
    };
    assert forall|j: int| 0 <= j < entries.len() && j != changed implies #[trigger] is_idle(
        entries,
        rest,
        j,
    ) == is_idle(entries, holds, j) by {
        if entries[j].root == lease.root {
            assert(place == Some(j));
            assert(!is_idle(entries, rest, j));
            if is_idle(entries, holds, j) {
                assert(hold_position(holds, lease.root) is None);
            }
        } else {
            assert(rest.contains(entries[j].root) == holds.contains(entries[j].root));
        }
    }
    lemma_idle_shift(entries, holds, rest, changed, entries.len());
    match place {
        Some(i) => {
            trimming_spares_leases(
                entries.remove(i),
                rest,
                pool.policy.max_idle_contexts as nat,
            );
            if changed == i && hold_position(holds, lease.root) is None {
                assert(rest == holds);
            }
        },
        None => {},
    }
}

/// A retired generation is never handed out again: the next acquisition of its key makes
/// a generation that is later than all before.
pub proof fn generations_only_advance(pool: PoolView, key: DeviceKey, generation: u64)
    requires
        pool_wf(pool),
        entry_of(pool.entries, key) matches Some(entry) && entry.generation == generation,
    ensures
        entry_of(pool_retired(pool, key, generation).entries, key) is None,
        generation < pool_retired(pool, key, generation).next_generation,
        pool_wf(pool_retired(pool, key, generation)),
{
    lemma_entry_position(pool.entries, key);
    let rest = without_entry(pool.entries, key);
    lemma_entry_position(rest, key);
    let i = entry_position(pool.entries, key)->0;
    assert forall|j: int| 0 <= j < rest.len() implies (#[trigger] rest[j]).key != key by {
        let k = if j < i {
            j
        } else {
            j + 1
        };
        assert(rest[j] == pool.entries[k]);
        assert(pool.entries[i].key == key);
    }
}

/// After a failure its key is under a retry delay until the delay is over, and other keys
/// are under one exactly as before.
pub proof fn failures_are_deferred(
    pool: PoolView,
    key: DeviceKey,
    other: DeviceKey,
    probe: HwAccelDeviceContextProbe,
    setup: bool,
    now: u64,
    later: u64,
)
    requires
        pool_wf(pool),
        now <= u64::MAX - 30_000_000_000,
        other != key,
    ensures
        is_deferred(pool_failed(pool, key, probe, setup, now), key, later) <==> later < now
            + backoff_ms(failures_in_a_row(pool.failures, key) as nat) * 1_000_000,
        is_deferred(pool_failed(pool, key, probe, setup, now), other, later) == is_deferred(
            pool,
            other,
            later,
        ),
{
    let count = failures_in_a_row(pool.failures, key) as nat;
    backoff_grows(count, count);
    let after = pool_failed(pool, key, probe, setup, now).failures;
    let rest = without_failure(pool.failures, key);
    assert(after.drop_last() =~= rest);
    lemma_failure_position(pool.failures, key);
    match failure_position(pool.failures, key) {
        Some(i) => {
            lemma_failure_removed(pool.failures, i, other);
        },
        None => {},
    }
    lemma_failure_position(rest, other);
    lemma_failure_position(pool.failures, other);
}

proof fn lemma_failure_removed(failures: Seq<PoolFailure>, i: int, other: DeviceKey)
    requires
        0 <= i < failures.len(),
        failures[i].key != other,
    ensures
        failure_of(failures.remove(i), other) == failure_of(failures, other),
    decreases failures.len(),
{
    lemma_failure_position(failures, other);
    lemma_failure_position(failures.remove(i), other);
    if i == failures.len() - 1 {
        assert(failures.remove(i) =~= failures.drop_last());
        lemma_failure_position(failures.drop_last(), other);
    } else {
        assert(failures.remove(i).drop_last() =~= failures.drop_last().remove(i));
        if failures.last().key != other {
            lemma_failure_removed(failures.drop_last(), i, other);
            lemma_failure_position(failures.drop_last(), other);
            lemma_failure_position(failures.drop_last().remove(i), other);
        }
    }
}

/// The retry delay is a quarter of a second at first, doubles with each further failure in
/// a row, and is half a minute from the eighth on.
pub proof fn delays_double(failures: nat)
    ensures
        failures <= 1 ==> backoff_ms(failures) == 250,
        1 <= failures <= 6 ==> backoff_ms(failures + 1) == backoff_ms(failures) + backoff_ms(
            failures,
        ),
        failures >= 8 ==> backoff_ms(failures) == 30_000,
{
    reveal_with_fuel(backoff_ms, 9);
}

/// A failure is remembered under its key with what it was. The first of a key counts one,
/// each further one counts one more, up to what the counter holds. Nothing but the counter
/// of its kind changes besides.
pub proof fn failures_count_up(
    pool: PoolView,
    key: DeviceKey,
    probe: HwAccelDeviceContextProbe,
    setup: bool,
    now: u64,
)
    requires
        pool_wf(pool),
        now <= u64::MAX - 30_000_000_000,
    ensures
        ({
            let after = pool_failed(pool, key, probe, setup, now);
            let failure = failure_of(after.failures, key);
            &&& failure is Some
            &&& failure->0.key == key
            &&& failure->0.probe == probe
            &&& failure_of(pool.failures, key) is None ==> failure->0.consecutive_failures == 1
                && failure->0.retry_after == now + 250_000_000
            &&& failure_of(pool.failures, key) is Some && failure_of(
                pool.failures,
                key,
            )->0.consecutive_failures < u32::MAX ==> failure->0.consecutive_failures == failure_of(
                pool.failures,
                key,
            )->0.consecutive_failures + 1
            &&& now < failure->0.retry_after <= now + 30_000_000_000
            &&& after.entries == pool.entries
            &&& after.holds == pool.holds
            &&& after.next_generation == pool.next_generation
            &&& setup ==> after.creation_failures == pool.creation_failures && (
            pool.setup_failures < u64::MAX ==> after.setup_failures == pool.setup_failures + 1)
            &&& !setup ==> after.setup_failures == pool.setup_failures && (pool.creation_failures
                < u64::MAX ==> after.creation_failures == pool.creation_failures + 1)
        }),
{
    let count = failures_in_a_row(pool.failures, key) as nat;
    backoff_grows(count, count);
    delays_double(count);
    lemma_failure_position(pool.failures, key);
}

proof fn lemma_idle_without(entries: Seq<PoolEntry>, holds: Seq<u64>, i: int, n: nat)
    requires
        0 <= i < entries.len(),
        is_idle(entries, holds, i),
        n < entries.len(),
    ensures
        forall|j: int|
            0 <= j < entries.len() - 1 ==> #[trigger] is_idle(entries.remove(i), holds, j)
                == is_idle(
                entries,
                holds,
                if j < i {
                    j
                } else {
                    j + 1
                },
            ),
        idle_before(entries.remove(i), holds, n) == if n <= i {
            idle_before(entries, holds, n) as int
        } else {
            idle_before(entries, holds, n + 1) - 1
        },
    decreases n,
{
    let rest = entries.remove(i);
    assert forall|j: int| 0 <= j < rest.len() implies #[trigger] is_idle(rest, holds, j)
        == is_idle(
        entries,
        holds,
        if j < i {
            j
        } else {
            j + 1
        },
    ) by {
        let k = if j < i {
            j
        } else {
            j + 1
        };
        assert(rest[j] == entries[k]);
        assert(entries[i].root != entries[k].root);
        if is_idle(rest, holds, j) {
            assert forall|m: int|
                0 <= m < entries.len() && m != k implies (#[trigger] entries[m]).root
                != entries[k].root by {
                if m != i {
                    let l = if m < i {
                        m
                    } else {
                        m - 1
                    };
                    assert(rest[l] == entries[m]);
                }
            }
        }
        if is_idle(entries, holds, k) {
            assert forall|l: int| 0 <= l < rest.len() && l != j implies (#[trigger] rest[l]).root
                != rest[j].root by {
                let m = if l < i {
                    l
                } else {
                    l + 1
                };
                assert(rest[l] == entries[m]);
            }
        }
    }
    if n > 0 {
        lemma_idle_without(entries, holds, i, (n - 1) as nat);
        if n == i + 1 {
            assert(idle_before(entries, holds, n) == idle_before(entries, holds, (n - 1) as nat)
                + 1);
        }
    }
}

/// Releasing idle contexts down to a limit leaves those that were used last: it releases no
/// more than lie beyond the limit, and none that was used later than one that stays.
pub proof fn the_longest_unused_leave_first(
    entries: Seq<PoolEntry>,
    holds: Seq<u64>,
    max_idle: nat,
    i: int,
    j: int,
)
    requires
        0 <= i < entries.len(),
        0 <= j < entries.len(),
        is_idle(entries, holds, i),
        is_idle(entries, holds, j),
        entries[i].last_used < entries[j].last_used,
    ensures
        trimmed(entries, holds, max_idle).contains(entries[i]) ==> trimmed(
            entries,
            holds,
            max_idle,
        ).contains(entries[j]),
        entries.len() - trimmed(entries, holds, max_idle).len() == if idle_count(entries, holds)
            > max_idle {
            idle_count(entries, holds) - max_idle
        } else {
            0
        },
    decreases entries.len(),
{
    lemma_released_count(entries, holds, max_idle);
    lemma_least_idle(entries, holds, entries.len());
    let l = least_idle(entries, holds)->0;
    if idle_count(entries, holds) > max_idle {
        let rest = entries.remove(l);
        lemma_idle_without(entries, holds, l, (entries.len() - 1) as nat);
        let kept = trimmed(rest, holds, max_idle);
        trimming_spares_leases(rest, holds, max_idle);
        assert(l != j);
        if l == i {
            if kept.contains(entries[i]) {
                let k = choose|k: int| 0 <= k < kept.len() && kept[k] == entries[i];
                assert(rest.contains(kept[k]));
                let m = choose|m: int| 0 <= m < rest.len() && rest[m] == entries[i];
                let o = if m < l {
                    m
                } else {
                    m + 1
                };
                assert(rest[m] == entries[o]);
                assert(entries[o].root == entries[i].root);
            }
        } else {
            let a = if i < l {
                i
            } else {
                i - 1
            };
            let b = if j < l {
                j
            } else {
                j - 1
            };
            assert(rest[a] == entries[i]);
            assert(rest[b] == entries[j]);
            assert(is_idle(rest, holds, a));
            assert(is_idle(rest, holds, b));
            the_longest_unused_leave_first(rest, holds, max_idle, a, b);
        }
    } else {
        assert(entries.contains(entries[j]));
    }
}

proof fn lemma_released_count(entries: Seq<PoolEntry>, holds: Seq<u64>, max_idle: nat)
    ensures
        entries.len() - trimmed(entries, holds, max_idle).len() == if idle_count(entries, holds)
            > max_idle {
            idle_count(entries, holds) - max_idle
        } else {
            0
        },
    decreases entries.len(),
{
    lemma_least_idle(entries, holds, entries.len());
    if idle_count(entries, holds) > max_idle {
        let l = least_idle(entries, holds)->0;
        lemma_idle_without(entries, holds, l, (entries.len() - 1) as nat);
        lemma_released_count(entries.remove(l), holds, max_idle);
    }
}

/// Letting go of a lease ends one hold on its root and none on another. The context stays
/// where somebody else holds it, or where the pool has room for one more that is idle.
pub proof fn releasing_ends_one_hold(pool: PoolView, lease: DeviceLease)
    requires
        pool_wf(pool),
        pool.holds.contains(lease.root),
    ensures
        ({
            let after = pool_released(pool, lease);
            &&& after.holds.len() == pool.holds.len() - 1
            &&& after.holds.to_multiset() == pool.holds.to_multiset().remove(lease.root)
            &&& after.holds.contains(lease.root) ==> after.entries == pool.entries
            &&& idle_count(pool.entries, pool.holds) < pool.policy.max_idle_contexts
                ==> after.entries == pool.entries
            &&& after.next_generation == pool.next_generation
            &&& after.failures == pool.failures
        }),
{
    lemma_hold_position(pool.holds, lease.root);
    let k = hold_position(pool.holds, lease.root)->0;
    pool.holds.to_multiset_ensures();
    lemma_entry_position(pool.entries, lease.key);
}

/// The delays that are not over are those whose time to try again lies ahead.
pub proof fn delays_are_counted(failures: Seq<PoolFailure>, now: u64)
    ensures
        delayed(failures, now, failures.len()) == failures.filter(
            |failure: PoolFailure| failure.retry_after > now,
        ).len(),
    decreases failures.len(),
{
    reveal(Seq::filter);
    if failures.len() > 0 {
        let before = failures.drop_last();
        delays_are_counted(before, now);
        lemma_delayed_prefix(failures, now, (failures.len() - 1) as nat);
    }
}

proof fn lemma_delayed_prefix(failures: Seq<PoolFailure>, now: u64, n: nat)
    requires
        0 < failures.len(),
        n < failures.len(),
    ensures
        delayed(failures, now, n) == delayed(failures.drop_last(), now, n),
    decreases n,
{
    if n > 0 {
        lemma_delayed_prefix(failures, now, (n - 1) as nat);
    }
}

/// Retiring takes a context away from new sessions only where its generation is the given
/// one, and never takes another.
pub proof fn only_the_given_generation_retires(
    pool: PoolView,
    key: DeviceKey,
    generation: u64,
    i: int,
)
    requires
        pool_wf(pool),
        0 <= i < pool.entries.len(),
    ensures
        pool_retired(pool, key, generation).entries.contains(pool.entries[i]) <==> !(
        pool.entries[i].key == key && pool.entries[i].generation == generation),
        pool_retired(pool, key, generation).holds == pool.holds,
{
    lemma_entry_position(pool.entries, key);
    let after = pool_retired(pool, key, generation).entries;
    match entry_position(pool.entries, key) {
        Some(k) => {
            if pool.entries[k].generation == generation {
                assert(after == pool.entries.remove(k));
                if i != k {
                    let m = if i < k {
                        i
                    } else {
                        i - 1
                    };
                    assert(after[m] == pool.entries[i]);
                } else if after.contains(pool.entries[i]) {
                    let m = choose|m: int| 0 <= m < after.len() && after[m] == pool.entries[i];
                    let o = if m < k {
                        m
                    } else {
                        m + 1
                    };
                    assert(after[m] == pool.entries[o]);
                    assert(pool.entries[o].key == pool.entries[k].key);
                }
            } else {
                assert(pool.entries.contains(pool.entries[i]));
                if i != k {
                    assert(pool.entries[i].key != pool.entries[k].key);
                }
            }
        },
        None => {
            assert(pool.entries.contains(pool.entries[i]));
        },
    }
}

/// Contexts that are released are counted as evictions, and nothing else of the pool changes.
pub proof fn evictions_count_what_left(pool: PoolView, max_idle: nat)
    requires
        pool.evictions + pool.entries.len() <= u64::MAX,
    ensures
        pool_trimmed(pool, max_idle).evictions + pool_trimmed(pool, max_idle).entries.len()
            == pool.evictions + pool.entries.len(),
        pool_trimmed(pool, max_idle).holds == pool.holds,
        pool_trimmed(pool, max_idle).failures == pool.failures,
        pool_trimmed(pool, max_idle).hits == pool.hits,
        pool_trimmed(pool, max_idle).misses == pool.misses,
        pool_trimmed(pool, max_idle).retirements == pool.retirements,
        pool_trimmed(pool, max_idle).next_generation == pool.next_generation,
        pool_trimmed(pool, max_idle).policy == pool.policy,
{
    trimming_spares_leases(pool.entries, pool.holds, max_idle);
}

/// Asking for a key that is not under a delay ends its failure and no other, and makes the
/// clock go on, so that what is acquired then was used last.
pub proof fn asking_ends_one_failure(pool: PoolView, key: DeviceKey, other: DeviceKey)
    requires
        pool_wf(pool),
        other != key,
    ensures
        failure_of(pool_asked(pool, key).failures, key) is None,
        failure_of(pool_asked(pool, key).failures, other) == failure_of(pool.failures, other),
        pool.recency_clock < u64::MAX ==> next_recency(pool) > pool.recency_clock,
        pool_asked(pool, key).recency_clock == next_recency(pool),
        pool_asked(pool, key).entries == pool.entries,
        pool_asked(pool, key).holds == pool.holds,
        forall|i: int|
            0 <= i < pool.entries.len() ==> (#[trigger] pool.entries[i]).last_used <= next_recency(
                pool,
            ),
{
    lemma_failure_position(pool.failures, key);
    let rest = without_failure(pool.failures, key);
    lemma_failure_position(rest, key);
    match failure_position(pool.failures, key) {
        Some(i) => {
            lemma_failure_removed(pool.failures, i, other);
            assert forall|j: int| 0 <= j < rest.len() implies (#[trigger] rest[j]).key != key by {
                let k = if j < i {
                    j
                } else {
                    j + 1
                };
                assert(rest[j] == pool.failures[k]);
                assert(pool.failures[i].key == key);
            }
        },
        None => {},
    }
}

/// Acquiring a context once more changes when it was used last, and nothing else.
pub proof fn acquiring_again_keeps_the_context(entries: Seq<PoolEntry>, i: int, recency: u64, j: int)
    requires
        0 <= i < entries.len(),
        0 <= j < entries.len(),
    ensures
        acquired_again(entries, i, recency).len() == entries.len(),
        acquired_again(entries, i, recency)[i].last_used == recency,
        acquired_again(entries, i, recency)[j].key == entries[j].key,
        acquired_again(entries, i, recency)[j].root == entries[j].root,
        acquired_again(entries, i, recency)[j].generation == entries[j].generation,
        j != i ==> acquired_again(entries, i, recency)[j] == entries[j],
{
}

/// A new pool offers nothing, delays nothing and has counted nothing, and its first
/// generation is the first there is.
pub proof fn new_pools_are_empty(policy: HwDeviceContextPoolPolicy, key: DeviceKey, now: u64)
    ensures
        pool_wf(empty_pool(policy)),
        empty_pool(policy).policy == policy,
        empty_pool(policy).policy_revision == 1,
        empty_pool(policy).next_generation == 1,
        entry_of(empty_pool(policy).entries, key) is None,
        !is_deferred(empty_pool(policy), key, now),
        empty_pool(policy).holds.len() == 0,
        empty_pool(policy).hits == 0,
        empty_pool(policy).misses == 0,
        empty_pool(policy).retirements == 0,
        empty_pool(policy).evictions == 0,
        empty_pool(policy).creation_failures == 0,
        empty_pool(policy).setup_failures == 0,
        empty_pool(policy).backoff_rejections == 0,
{
}

} // verus!
