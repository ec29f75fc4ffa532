//! The table of decoder sessions: which source contracts have one, in the order of
//! their last use, and which of them may leave.

use crate::audio_source::evidence::{merged, AudioWindowDecoderShutdownEvidence};
use crate::audio_source::permits::{clamp_capacity, clamped_capacity, PermitDiagnostics};
use crate::info::stream::{layout_view, AudioChannelLayout, AudioChannelPosition, ChannelLayout};
use crate::path::{same_path, MediaPath};
use vstd::prelude::*;

verus! {

/// A revision of one audio stream of a file.
#[derive(Debug, PartialEq, Eq)]
pub struct AudioSourceIdentity {
    pub path: MediaPath,
    /// Bytes of the file.
    pub len: u64,
    pub modified_secs: Option<u64>,
    pub modified_nanos: Option<u32>,
    /// Absolute container index of the selected stream.
    pub stream_index: u32,
    /// Layout that the selection was made for.
    pub selected_layout: ChannelLayout,
    /// Fingerprint of the file that the selection was made for.
    pub selected_revision: Vec<u64>,
    /// Native layout of the stream.
    pub channel_layout: AudioChannelLayout,
}

/// What a session decodes: a source in a sample rate and a layout.
#[derive(Debug, PartialEq, Eq)]
pub struct SessionKey {
    pub source: AudioSourceIdentity,
    pub sample_rate: u32,
    pub channel_layout: AudioChannelLayout,
}

/// Mathematical reading of a layout selection.
pub enum SelectedLayout {
    Exact(Option<Seq<AudioChannelPosition>>),
    Unspecified(u8),
    Unsupported(u8),
}

/// Mathematical reading of a layout selection.
pub open spec fn selected_layout_view(layout: ChannelLayout) -> SelectedLayout {
    match layout {
        ChannelLayout::Exact(exact) => SelectedLayout::Exact(layout_view(exact)),
        ChannelLayout::Unspecified(count) => SelectedLayout::Unspecified(count),
        ChannelLayout::Unsupported(count) => SelectedLayout::Unsupported(count),
    }
}

/// Whether two keys ask for the same session. Paths count by their components.
pub open spec fn equal_keys(a: SessionKey, b: SessionKey) -> bool {
    &&& same_path(a.source.path@, b.source.path@)
    &&& a.source.len == b.source.len
    &&& a.source.modified_secs == b.source.modified_secs
    &&& a.source.modified_nanos == b.source.modified_nanos
    &&& a.source.stream_index == b.source.stream_index
    &&& selected_layout_view(a.source.selected_layout) == selected_layout_view(
        b.source.selected_layout,
    )
    &&& a.source.selected_revision@ == b.source.selected_revision@
    &&& layout_view(a.source.channel_layout) == layout_view(b.source.channel_layout)
    &&& a.sample_rate == b.sample_rate
    &&& layout_view(a.channel_layout) == layout_view(b.channel_layout)
}

fn same_layout(a: &AudioChannelLayout, b: &AudioChannelLayout) -> (r: bool)
    ensures
        r == (layout_view(*a) == layout_view(*b)),
{
    match (a, b) {
        (AudioChannelLayout::Mono, AudioChannelLayout::Mono) => true,
        (AudioChannelLayout::Speakers(x), AudioChannelLayout::Speakers(y)) => {
            if x.len() != y.len() {
                return false;
            }
            let mut i: usize = 0;
            while i < x.len()
                invariant
                    i <= x@.len() == y@.len(),
                    forall|j: int| 0 <= j < i ==> x@[j] == y@[j],
                    layout_view(*a) == Some(x@),
                    layout_view(*b) == Some(y@),
                decreases x@.len() - i,
            {
                if x[i] != y[i] {
                    assert(x@[i as int] != y@[i as int]);
                    return false;
                }
                i += 1;
            }
            assert(x@ =~= y@);
            true
        },
        _ => false,
    }
}

fn same_selection(a: &ChannelLayout, b: &ChannelLayout) -> (r: bool)
    ensures
        r == (selected_layout_view(*a) == selected_layout_view(*b)),
{
    match (a, b) {
        (ChannelLayout::Exact(x), ChannelLayout::Exact(y)) => same_layout(x, y),
        (ChannelLayout::Unspecified(x), ChannelLayout::Unspecified(y)) => *x == *y,
        (ChannelLayout::Unsupported(x), ChannelLayout::Unsupported(y)) => *x == *y,
        _ => false,
    }
}

fn same_words(a: &Vec<u64>, b: &Vec<u64>) -> (r: bool)
    ensures
        r == (a@ == b@),
{
    if a.len() != b.len() {
        return false;
    }
    let mut i: usize = 0;
    while i < a.len()
        invariant
            i <= a@.len() == b@.len(),
            forall|j: int| 0 <= j < i ==> a@[j] == b@[j],
        decreases a@.len() - i,
    {
        if a[i] != b[i] {
            assert(a@[i as int] != b@[i as int]);
            return false;
        }
        i += 1;
    }
    assert(a@ =~= b@);
    true
}

impl SessionKey {
    /// Whether two keys ask for the same session.
    pub fn same(&self, other: &SessionKey) -> (r: bool)
        ensures
            r == equal_keys(*self, *other),
    {
        self.source.len == other.source.len && self.source.modified_secs
            == other.source.modified_secs && self.source.modified_nanos
            == other.source.modified_nanos && self.source.stream_index == other.source.stream_index
            && self.sample_rate == other.sample_rate && self.source.path.same(&other.source.path)
            && same_selection(&self.source.selected_layout, &other.source.selected_layout)
            && same_words(&self.source.selected_revision, &other.source.selected_revision)
            && same_layout(&self.source.channel_layout, &other.source.channel_layout)
            && same_layout(&self.channel_layout, &other.channel_layout)
    }
}

/// The lowest sample rate that a session decodes to.
pub const MIN_SAMPLE_RATE: u32 = 8_000;

/// The key of a window request: very low rates are raised.
pub fn session_key(
    source: AudioSourceIdentity,
    sample_rate: u32,
    channel_layout: AudioChannelLayout,
) -> (key: SessionKey)
    ensures
        key.source == source,
        key.channel_layout == channel_layout,
        key.sample_rate == (if sample_rate < 8_000 {
            8_000
        } else {
            sample_rate
        }),
{
    let rate: u32 = if sample_rate < MIN_SAMPLE_RATE {
        MIN_SAMPLE_RATE
    } else {
        sample_rate
    };
    SessionKey { source, sample_rate: rate, channel_layout }
}

/// A session in the table.
#[derive(Debug, PartialEq, Eq)]
pub struct DecoderEntry {
    pub key: SessionKey,
    /// Names the place that holds the session.
    pub slot: u64,
    /// Readers that hold the slot.
    pub leases: u64,
}

/// The least recently used session without readers.
pub open spec fn last_idle(entries: Seq<DecoderEntry>) -> Option<int>
    decreases entries.len(),
{
    if entries.len() == 0 {
        None
    } else if entries.last().leases == 0 {
        Some(entries.len() - 1)
    } else {
        last_idle(entries.drop_last())
    }
}

/// What stays of a table that has to shrink: sessions without readers leave, the least
/// recently used first, until the rest fits.
pub open spec fn kept(entries: Seq<DecoderEntry>, capacity: nat) -> Seq<DecoderEntry>
    decreases entries.len(),
{
    match last_idle(entries) {
        Some(i) => if entries.len() > capacity && 0 <= i < entries.len() {
            kept(entries.remove(i), capacity)
        } else {
            entries
        },
        None => entries,
    }
}

/// What leaves a table that has to shrink, in the order of leaving.
pub open spec fn evicted(entries: Seq<DecoderEntry>, capacity: nat) -> Seq<DecoderEntry>
    decreases entries.len(),
{
    match last_idle(entries) {
        Some(i) => if entries.len() > capacity && 0 <= i < entries.len() {
            seq![entries[i]] + evicted(entries.remove(i), capacity)
        } else {
            seq![]
        },
        None => seq![],
    }
}

/// The place of a key in the table.
pub open spec fn key_position(entries: Seq<DecoderEntry>, key: SessionKey) -> Option<int>
    decreases entries.len(),
{
    if entries.len() == 0 {
        None
    } else {
        match key_position(entries.drop_last(), key) {
            Some(i) => Some(i),
            None => if equal_keys(entries.last().key, key) {
                Some(entries.len() - 1)
            } else {
                None
            },
        }
    }
}

/// An entry with one reader more.
pub open spec fn leased(entry: DecoderEntry) -> DecoderEntry {
    DecoderEntry { leases: (entry.leases + 1) as u64, ..entry }
}

/// The entries without readers, in order.
pub open spec fn idle_entries(entries: Seq<DecoderEntry>) -> Seq<DecoderEntry>
    decreases entries.len(),
{
    if entries.len() == 0 {
        seq![]
    } else if entries.last().leases == 0 {
        idle_entries(entries.drop_last()).push(entries.last())
    } else {
        idle_entries(entries.drop_last())
    }
}

/// The entries with readers, in order.
pub open spec fn busy_entries(entries: Seq<DecoderEntry>) -> Seq<DecoderEntry>
    decreases entries.len(),
{
    if entries.len() == 0 {
        seq![]
    } else if entries.last().leases == 0 {
        busy_entries(entries.drop_last())
    } else {
        busy_entries(entries.drop_last()).push(entries.last())
    }
}

/// The entries but those of a slot, in order.
pub open spec fn without_slot(entries: Seq<DecoderEntry>, slot: u64) -> Seq<DecoderEntry>
    decreases entries.len(),
{
    if entries.len() == 0 {
        seq![]
    } else if entries.last().slot == slot {
        without_slot(entries.drop_last(), slot)
    } else {
        without_slot(entries.drop_last(), slot).push(entries.last())
    }
}

/// The entries after a reader let go of a slot.
pub open spec fn released(entries: Seq<DecoderEntry>, slot: u64) -> Seq<DecoderEntry> {
    entries.map_values(
        |entry: DecoderEntry|
            if entry.slot == slot {
                DecoderEntry { leases: entry.leases.saturating_sub(1), ..entry }
            } else {
                entry
            },
    )
}

/// Equal keys find the same session, such as keys whose paths are spelled differently but
/// have the same components.
pub proof fn equal_keys_share_a_session(entries: Seq<DecoderEntry>, a: SessionKey, b: SessionKey)
    requires
        equal_keys(a, b),
    ensures
        key_position(entries, a) == key_position(entries, b),
    decreases entries.len(),
{
    if entries.len() > 0 {
        equal_keys_share_a_session(entries.drop_last(), a, b);
    }
}

proof fn lemma_last_idle(entries: Seq<DecoderEntry>)
    ensures
        match last_idle(entries) {
            Some(i) => {
                &&& 0 <= i < entries.len()
                &&& entries[i].leases == 0
                &&& forall|j: int| i < j < entries.len() ==> (#[trigger] entries[j]).leases != 0
            },
            None => forall|j: int| 0 <= j < entries.len() ==> (#[trigger] entries[j]).leases != 0,
        },
    decreases entries.len(),
{
    if entries.len() > 0 && entries.last().leases != 0 {
        lemma_last_idle(entries.drop_last());
        assert forall|j: int| 0 <= j < entries.len() - 1 implies entries[j]
            == entries.drop_last()[j] by {}
    }
}

proof fn lemma_key_position(entries: Seq<DecoderEntry>, key: SessionKey)
    ensures
        match key_position(entries, key) {
            Some(i) => {
                &&& 0 <= i < entries.len()
                &&& equal_keys(entries[i].key, key)
                &&& forall|j: int| 0 <= j < i ==> !equal_keys((#[trigger] entries[j]).key, key)
            },
            None => forall|j: int|
                0 <= j < entries.len() ==> !equal_keys((#[trigger] entries[j]).key, key),
        },
    decreases entries.len(),
{
    if entries.len() > 0 {
        lemma_key_position(entries.drop_last(), key);
        assert forall|j: int| 0 <= j < entries.len() - 1 implies entries[j]
            == entries.drop_last()[j] by {}
    }
}

/// Sessions with readers never leave a table that shrinks, and they keep their order.
/// Only sessions without readers leave. Afterwards the table fits, or all that is left
/// is in use.
pub proof fn shrinking_spares_readers(entries: Seq<DecoderEntry>, capacity: nat)
    ensures
        busy_entries(kept(entries, capacity)) == busy_entries(entries),
        forall|i: int|
            0 <= i < evicted(entries, capacity).len() ==> (#[trigger] evicted(
                entries,
                capacity,
            )[i]).leases == 0,
        kept(entries, capacity).len() + evicted(entries, capacity).len() == entries.len(),
        kept(entries, capacity).len() <= capacity || idle_entries(kept(entries, capacity)).len()
            == 0,
    decreases entries.len(),
{
    lemma_last_idle(entries);
    match last_idle(entries) {
        Some(i) => {
            if entries.len() > capacity {
                let rest = entries.remove(i);
                shrinking_spares_readers(rest, capacity);
                lemma_busy_remove(entries, i);
                let out = evicted(entries, capacity);
                assert forall|j: int| 0 <= j < out.len() implies (#[trigger] out[j]).leases
                    == 0 by {
                    if j > 0 {
                        assert(out[j] == evicted(rest, capacity)[j - 1]);
                    }
                }
            }
        },
        None => {
            lemma_no_idle(entries);
        },
    }
}

proof fn lemma_no_idle(entries: Seq<DecoderEntry>)
    requires
        forall|j: int| 0 <= j < entries.len() ==> (#[trigger] entries[j]).leases != 0,
    ensures
        idle_entries(entries).len() == 0,
    decreases entries.len(),
{
    if entries.len() > 0 {
        assert(entries[entries.len() - 1].leases != 0);
        assert forall|j: int| 0 <= j < entries.drop_last().len() implies (#[trigger] entries.drop_last()[j]).leases
            != 0 by {
            assert(entries.drop_last()[j] == entries[j]);
        }
        lemma_no_idle(entries.drop_last());
    }
}

proof fn lemma_busy_remove(entries: Seq<DecoderEntry>, i: int)
    requires
        0 <= i < entries.len(),
        entries[i].leases == 0,
    ensures
        busy_entries(entries.remove(i)) == busy_entries(entries),
    decreases entries.len(),
{
    if i == entries.len() - 1 {
        assert(entries.remove(i) =~= entries.drop_last());
    } else {
        lemma_busy_remove(entries.drop_last(), i);
        assert(entries.remove(i).drop_last() =~= entries.drop_last().remove(i));
        assert(entries.remove(i).last() == entries.last());
    }
}

/// How a window came by its session.
#[derive(Debug, Clone, Copy, PartialEq, Eq, Structural)]
pub enum WindowKind {
    /// There was no session.
    Cold,
    /// The session stood at the window.
    Sequential,
    /// The session stood elsewhere.
    RandomSeek,
}

/// Counters of a decoder.
#[derive(Debug, Clone, Copy, PartialEq, Eq, Structural)]
pub struct WindowCounters {
    pub peak_sessions: usize,
    pub session_opens: u64,
    pub sequential_reuses: u64,
    pub random_seek_restarts: u64,
    pub session_evictions: u64,
    pub capacity_reconfigurations: u64,
    pub capacity_trim_evictions: u64,
    pub cancellations: u64,
    pub cold_window_max_duration_us: u64,
    pub sequential_window_max_duration_us: u64,
    pub random_seek_window_max_duration_us: u64,
}

/// Counters of a new decoder.
pub open spec fn no_windows() -> WindowCounters {
    WindowCounters {
        peak_sessions: 0,
        session_opens: 0,
        sequential_reuses: 0,
        random_seek_restarts: 0,
        session_evictions: 0,
        capacity_reconfigurations: 0,
        capacity_trim_evictions: 0,
        cancellations: 0,
        cold_window_max_duration_us: 0,
        sequential_window_max_duration_us: 0,
        random_seek_window_max_duration_us: 0,
    }
}

/// The larger of two durations.
pub open spec fn longer(a: u64, b: u64) -> u64 {
    if a < b {
        b
    } else {
        a
    }
}

/// Counters after a window was served or failed.
pub open spec fn window_counted(
    counters: WindowCounters,
    kind: WindowKind,
    opened: bool,
    duration_us: u64,
    canceled: bool,
) -> WindowCounters {
    let opens = counters.session_opens.saturating_add(
        if opened {
            1u64
        } else {
            0u64
        },
    );
    let cancellations = counters.cancellations.saturating_add(
        if canceled {
            1u64
        } else {
            0u64
        },
    );
    let common = WindowCounters { session_opens: opens, cancellations, ..counters };
    match kind {
        WindowKind::Cold => WindowCounters {
            cold_window_max_duration_us: longer(counters.cold_window_max_duration_us, duration_us),
            ..common
        },
        WindowKind::Sequential => WindowCounters {
            sequential_reuses: counters.sequential_reuses.saturating_add(1),
            sequential_window_max_duration_us: longer(
                counters.sequential_window_max_duration_us,
                duration_us,
            ),
            ..common
        },
        WindowKind::RandomSeek => WindowCounters {
            random_seek_restarts: counters.random_seek_restarts.saturating_add(1),
            random_seek_window_max_duration_us: longer(
                counters.random_seek_window_max_duration_us,
                duration_us,
            ),
            ..common
        },
    }
}

/// Counts that a decoder reports.
#[derive(Debug, Clone, Copy, PartialEq, Eq, Structural)]
pub struct AudioWindowDecoderDiagnostics {
    pub sessions: usize,
    pub session_capacity: usize,
    pub peak_sessions: usize,
    pub session_opens: u64,
    pub sequential_reuses: u64,
    pub random_seek_restarts: u64,
    pub session_evictions: u64,
    pub capacity_reconfigurations: u64,
    pub capacity_trim_evictions: u64,
    pub sessions_above_capacity: usize,
    pub cancellations: u64,
    pub cold_window_max_duration_us: u64,
    pub sequential_window_max_duration_us: u64,
    pub random_seek_window_max_duration_us: u64,
}

/// What looking for a session brings.
pub struct SlotSearch {
    /// The slot to use, or else the search has to be repeated later.
    pub slot: Option<u64>,
    /// Sessions that left the table and have to be retired.
    pub evicted: Vec<DecoderEntry>,
}

/// The sessions of a decoder, the most recently used first.
pub struct DecoderState {
    limit: usize,
    session_capacity: usize,
    entries: Vec<DecoderEntry>,
    /// Slots that were handed out, counted; the next new slot is named by it.
    tickets: u64,
    counters: WindowCounters,
    retired_shutdown: AudioWindowDecoderShutdownEvidence,
}

impl DecoderState {
    /// The largest capacity.
    pub closed spec fn limit(&self) -> usize {
        self.limit
    }

    /// The most sessions that stay.
    pub closed spec fn capacity(&self) -> usize {
        self.session_capacity
    }

    /// The sessions, the most recently used first.
    pub closed spec fn entries(&self) -> Seq<DecoderEntry> {
        self.entries@
    }

    /// How often a slot was handed out.
    pub closed spec fn tickets(&self) -> u64 {
        self.tickets
    }

    /// The counters.
    pub closed spec fn counters(&self) -> WindowCounters {
        self.counters
    }

    /// What became of sessions that were retired outside the teardown worker.
    pub closed spec fn retired(&self) -> AudioWindowDecoderShutdownEvidence {
        self.retired_shutdown
    }

    /// Slots are distinct, and so are keys. No slot was named, nor leased, more often
    /// than slots were handed out.
    pub open spec fn wf(&self) -> bool {
        &&& 1 <= self.capacity() <= self.limit()
        &&& distinct_entries(self.entries(), self.tickets())
    }
}

/// A table of sessions, as far as a search changes it.
pub struct TableView {
    pub entries: Seq<DecoderEntry>,
    pub counters: WindowCounters,
    pub tickets: u64,
    pub slot: Option<u64>,
    pub evicted: Seq<DecoderEntry>,
}

/// Counters after sessions left because the capacity was reduced.
pub open spec fn trim_counted(counters: WindowCounters, gone: nat) -> WindowCounters {
    WindowCounters {
        capacity_trim_evictions: counters.capacity_trim_evictions.saturating_add(gone as u64),
        ..counters
    }
}

/// A search for the session of a key. The table first shrinks to its capacity. A session
/// of the key becomes the most recently used one. Otherwise a new one takes a free place,
/// or that of the least recently used session without readers, or has to wait.
pub open spec fn searched(
    entries: Seq<DecoderEntry>,
    capacity: nat,
    counters: WindowCounters,
    tickets: u64,
    key: SessionKey,
) -> TableView {
    let fitting = kept(entries, capacity);
    let gone = evicted(entries, capacity);
    let counted = trim_counted(counters, gone.len());
    let fresh = DecoderEntry { key, slot: tickets, leases: 1 };
    let next = (tickets + 1) as u64;
    match key_position(fitting, key) {
        Some(i) => TableView {
            entries: seq![leased(fitting[i])] + fitting.remove(i),
            counters: counted,
            tickets: next,
            slot: Some(fitting[i].slot),
            evicted: gone,
        },
        None => if fitting.len() < capacity {
            TableView {
                entries: seq![fresh] + fitting,
                counters: WindowCounters {
                    peak_sessions: if fitting.len() + 1 > counted.peak_sessions {
                        (fitting.len() + 1) as usize
                    } else {
                        counted.peak_sessions
                    },
                    ..counted
                },
                tickets: next,
                slot: Some(tickets),
                evicted: gone,
            }
        } else {
            match last_idle(fitting) {
                Some(i) => if fitting.len() == capacity {
                    TableView {
                        entries: seq![fresh] + fitting.remove(i),
                        counters: WindowCounters {
                            session_evictions: counted.session_evictions.saturating_add(1),
                            ..counted
                        },
                        tickets: next,
                        slot: Some(tickets),
                        evicted: gone.push(fitting[i]),
                    }
                } else {
                    TableView { entries: fitting, counters: counted, tickets, slot: None, evicted: gone }
                },
                None => TableView {
                    entries: fitting,
                    counters: counted,
                    tickets,
                    slot: None,
                    evicted: gone,
                },
            }
        },
    }
}

fn find_idle(entries: &Vec<DecoderEntry>) -> (r: Option<usize>)
    ensures
        match (r, last_idle(entries@)) {
            (Some(i), Some(j)) => i == j && i < entries@.len() && entries@[i as int].leases == 0,
            (None, None) => true,
            _ => false,
        },
{
    let mut i: usize = entries.len();
    assert(entries@.take(i as int) =~= entries@);
    while i > 0
        invariant
            i <= entries@.len(),
            last_idle(entries@) == last_idle(entries@.take(i as int)),
        decreases i,
    {
        i -= 1;
        assert(entries@.take(i + 1).drop_last() =~= entries@.take(i as int));
        if entries[i].leases == 0 {
            return Some(i);
        }
    }
    None
}

fn find_key(entries: &Vec<DecoderEntry>, key: &SessionKey) -> (r: Option<usize>)
    ensures
        match (r, key_position(entries@, *key)) {
            (Some(i), Some(j)) => i == j && i < entries@.len(),
            (None, None) => true,
            _ => false,
        },
{
    let mut i: usize = 0;
    proof {
        lemma_key_position(entries@, *key);
    }
    while i < entries.len()
        invariant
            i <= entries@.len(),
            forall|j: int| 0 <= j < i ==> !equal_keys((#[trigger] entries@[j]).key, *key),
            match key_position(entries@, *key) {
                Some(at) => {
                    &&& 0 <= at < entries@.len()
                    &&& equal_keys(entries@[at].key, *key)
                    &&& forall|j: int| 0 <= j < at
                        ==> !equal_keys((#[trigger] entries@[j]).key, *key)
                },
                None => forall|j: int|
                    0 <= j < entries@.len() ==> !equal_keys((#[trigger] entries@[j]).key, *key),
            },
        decreases entries@.len() - i,
    {
        if entries[i].key.same(key) {
            return Some(i);
        }
        i += 1;
    }
    None
}

proof fn lemma_kept_wf(entries: Seq<DecoderEntry>, capacity: nat, tickets: u64)
    requires
        distinct_entries(entries, tickets),
    ensures
        distinct_entries(kept(entries, capacity), tickets),
        kept(entries, capacity).len() <= entries.len(),
    decreases entries.len(),
{
    lemma_last_idle(entries);
    match last_idle(entries) {
        Some(i) => {
            if entries.len() > capacity {
                lemma_kept_wf(entries.remove(i), capacity, tickets);
            }
        },
        None => {},
    }
}

/// Slots and keys are distinct, and within what was handed out.
pub open spec fn distinct_entries(entries: Seq<DecoderEntry>, tickets: u64) -> bool {
    &&& forall|i: int|
        0 <= i < entries.len() ==> (#[trigger] entries[i]).slot < tickets && entries[i].leases
            <= tickets
    &&& forall|i: int, j: int|
        0 <= i < j < entries.len() ==> (#[trigger] entries[i]).slot != (#[trigger] entries[j]).slot
    &&& forall|i: int, j: int|
        0 <= i < j < entries.len() ==> !equal_keys(
            (#[trigger] entries[i]).key,
            (#[trigger] entries[j]).key,
        )
}

/// A leased entry may move to the front.
proof fn lemma_moved_front(entries: Seq<DecoderEntry>, i: int, tickets: u64)
    requires
        distinct_entries(entries, tickets),
        tickets < u64::MAX,
        0 <= i < entries.len(),
    ensures
        distinct_entries(
            seq![leased(entries[i])] + entries.remove(i),
            (tickets + 1) as u64,
        ),
{
    let after = seq![leased(entries[i])] + entries.remove(i);
    assert forall|j: int| 0 <= j < after.len() implies after[j] == (if j == 0 {
        leased(entries[i])
    } else if j - 1 < i {
        entries[j - 1]
    } else {
        entries[j]
    }) by {}
    assert forall|j: int, k: int| 0 <= j < k < after.len() implies (#[trigger] after[j]).slot != (
    #[trigger] after[k]).slot && !equal_keys(after[j].key, after[k].key) by {
        let x = if j == 0 {
            i
        } else if j - 1 < i {
            j - 1
        } else {
            j
        };
        let y = if k - 1 < i {
            k - 1
        } else {
            k
        };
        assert(entries[x].slot == after[j].slot && entries[x].key == after[j].key);
        assert(entries[y].slot == after[k].slot && entries[y].key == after[k].key);
        assert(x != y);
        if y < x {
            assert(!equal_keys(entries[y].key, entries[x].key));
        }
    }
}

/// A new entry of a new key may come to the front.
proof fn lemma_added_front(entries: Seq<DecoderEntry>, key: SessionKey, tickets: u64)
    requires
        distinct_entries(entries, tickets),
        tickets < u64::MAX,
        forall|j: int| 0 <= j < entries.len() ==> !equal_keys((#[trigger] entries[j]).key, key),
    ensures
        distinct_entries(
            seq![DecoderEntry { key, slot: tickets, leases: 1 }] + entries,
            (tickets + 1) as u64,
        ),
{
    let after = seq![DecoderEntry { key, slot: tickets, leases: 1 }] + entries;
    assert forall|j: int| 0 < j < after.len() implies after[j] == entries[j - 1] by {}
    assert forall|j: int, k: int| 0 <= j < k < after.len() implies (#[trigger] after[j]).slot != (
    #[trigger] after[k]).slot && !equal_keys(after[j].key, after[k].key) by {
        assert(after[k] == entries[k - 1]);
    }
}

proof fn lemma_removed(entries: Seq<DecoderEntry>, i: int, key: SessionKey, tickets: u64)
    requires
        distinct_entries(entries, tickets),
        0 <= i < entries.len(),
        forall|j: int| 0 <= j < entries.len() ==> !equal_keys((#[trigger] entries[j]).key, key),
    ensures
        distinct_entries(entries.remove(i), tickets),
        forall|j: int|
            0 <= j < entries.remove(i).len() ==> !equal_keys(
                (#[trigger] entries.remove(i)[j]).key,
                key,
            ),
{
    let after = entries.remove(i);
    assert forall|j: int| 0 <= j < after.len() implies after[j] == (if j < i {
        entries[j]
    } else {
        entries[j + 1]
    }) by {}
}

impl DecoderState {
    /// A table without sessions. Its capacity is within `1..=limit`.
    pub fn new(session_capacity: usize, limit: usize) -> (state: DecoderState)
        requires
            limit >= 1,
        ensures
            state.wf(),
            state.limit() == limit,
            state.capacity() == clamped_capacity(session_capacity, limit),
            state.entries() == Seq::<DecoderEntry>::empty(),
            state.tickets() == 0,
            state.counters() == no_windows(),
            state.retired() == crate::audio_source::evidence::no_evidence(),
    {
        DecoderState {
            limit,
            session_capacity: clamp_capacity(session_capacity, limit),
            entries: Vec::new(),
            tickets: 0,
            counters: WindowCounters {
                peak_sessions: 0,
                session_opens: 0,
                sequential_reuses: 0,
                random_seek_restarts: 0,
                session_evictions: 0,
                capacity_reconfigurations: 0,
                capacity_trim_evictions: 0,
                cancellations: 0,
                cold_window_max_duration_us: 0,
                sequential_window_max_duration_us: 0,
                random_seek_window_max_duration_us: 0,
            },
            retired_shutdown: AudioWindowDecoderShutdownEvidence::default(),
        }
    }

    /// Lets sessions without readers leave until the rest fits, the least recently used
    /// first, and hands them out to be retired.
    pub fn trim_idle_sessions_to_capacity(&mut self) -> (gone: Vec<DecoderEntry>)
        requires
            old(self).wf(),
        ensures
            final(self).wf(),
            final(self).limit() == old(self).limit(),
            final(self).capacity() == old(self).capacity(),
            final(self).tickets() == old(self).tickets(),
            final(self).retired() == old(self).retired(),
            final(self).entries() == kept(old(self).entries(), old(self).capacity() as nat),
            gone@ == evicted(old(self).entries(), old(self).capacity() as nat),
            final(self).counters() == trim_counted(old(self).counters(), gone@.len()),
    {
        let ghost before = self.entries@;
        let capacity: usize = self.session_capacity;
        let mut gone: Vec<DecoderEntry> = Vec::new();
        proof {
            lemma_kept_wf(before, capacity as nat, self.tickets);
        }
        let mut more = true;
        while more && self.entries.len() > capacity
            invariant
                capacity == self.session_capacity == old(self).session_capacity,
                self.limit == old(self).limit,
                self.tickets == old(self).tickets,
                self.counters == old(self).counters,
                self.retired_shutdown == old(self).retired_shutdown,
                kept(self.entries@, capacity as nat) == kept(before, capacity as nat),
                gone@ + evicted(self.entries@, capacity as nat) == evicted(before, capacity as nat),
                !more ==> last_idle(self.entries@) is None,
            decreases self.entries@.len(), if more { 1int } else { 0int },
        {
            match find_idle(&self.entries) {
                None => {
                    more = false;
                },
                Some(index) => {
                    let ghost now = self.entries@;
                    let ghost earlier = gone@;
                    let entry = self.entries.remove(index);
                    gone.push(entry);
                    assert(gone@ + evicted(self.entries@, capacity as nat) =~= earlier + evicted(
                        now,
                        capacity as nat,
                    ));
                },
            }
        }
        assert(gone@ =~= evicted(before, capacity as nat));
        if gone.len() > 0 {
            self.counters.capacity_trim_evictions =
                self.counters.capacity_trim_evictions.saturating_add(gone.len() as u64);
        }
        gone
    }

    /// Brings the table back to its capacity after a window. A decoder that shuts down
    /// leaves its sessions to the teardown worker.
    pub fn converge_capacity(&mut self, shutdown: bool) -> (gone: Vec<DecoderEntry>)
        requires
            old(self).wf(),
        ensures
            final(self).wf(),
            shutdown ==> *final(self) == *old(self) && gone@ == Seq::<DecoderEntry>::empty(),
            !shutdown ==> {
                &&& final(self).limit() == old(self).limit()
                &&& final(self).capacity() == old(self).capacity()
                &&& final(self).tickets() == old(self).tickets()
                &&& final(self).retired() == old(self).retired()
                &&& final(self).entries() == kept(
                    old(self).entries(),
                    old(self).capacity() as nat,
                )
                &&& gone@ == evicted(old(self).entries(), old(self).capacity() as nat)
                &&& final(self).counters() == trim_counted(old(self).counters(), gone@.len())
            },
    {
        if shutdown {
            Vec::new()
        } else {
            self.trim_idle_sessions_to_capacity()
        }
    }

    /// Looks for the session of a key, and takes a lease on its slot.
    #[verifier::spinoff_prover]
    #[verifier::rlimit(40)]
    pub fn search_slot(&mut self, key: SessionKey) -> (search: SlotSearch)
        requires
            old(self).wf(),
            old(self).tickets() < u64::MAX,
        ensures
            final(self).wf(),
            final(self).limit() == old(self).limit(),
            final(self).capacity() == old(self).capacity(),
            final(self).retired() == old(self).retired(),
            (TableView {
                entries: final(self).entries(),
                counters: final(self).counters(),
                tickets: final(self).tickets(),
                slot: search.slot,
                evicted: search.evicted@,
            }) == searched(
                old(self).entries(),
                old(self).capacity() as nat,
                old(self).counters(),
                old(self).tickets(),
                key,
            ),
    {
        let mut gone = self.trim_idle_sessions_to_capacity();
        let ghost fitting = self.entries@;
        proof {
            lemma_key_position(fitting, key);
            lemma_last_idle(fitting);
        }
        let ticket: u64 = self.tickets;
        match find_key(&self.entries, &key) {
            Some(index) => {
                let mut entry = self.entries.remove(index);
                let slot: u64 = entry.slot;
                entry.leases = entry.leases + 1;
                self.entries.insert(0, entry);
                self.tickets = ticket + 1;
                assert(self.entries@ =~= seq![leased(fitting[index as int])] + fitting.remove(
                    index as int,
                ));
                proof {
                    lemma_moved_front(fitting, index as int, ticket);
                }
                return SlotSearch { slot: Some(slot), evicted: gone };
            },
            None => {},
        }
        if self.entries.len() < self.session_capacity {
            self.entries.insert(0, DecoderEntry { key, slot: ticket, leases: 1 });
            self.tickets = ticket + 1;
            let len: usize = self.entries.len();
            if len > self.counters.peak_sessions {
                self.counters.peak_sessions = len;
            }
            assert(self.entries@ =~= seq![DecoderEntry { key, slot: ticket, leases: 1 }] + fitting);
            proof {
                lemma_added_front(fitting, key, ticket);
            }
            return SlotSearch { slot: Some(ticket), evicted: gone };
        }
        if self.entries.len() == self.session_capacity {
            match find_idle(&self.entries) {
                Some(index) => {
                    let displaced = self.entries.remove(index);
                    gone.push(displaced);
                    self.counters.session_evictions =
                        self.counters.session_evictions.saturating_add(1);
                    self.entries.insert(0, DecoderEntry { key, slot: ticket, leases: 1 });
                    self.tickets = ticket + 1;
                    assert(self.entries@ =~= seq![DecoderEntry { key, slot: ticket, leases: 1 }]
                        + fitting.remove(index as int));
                    proof {
                        lemma_removed(fitting, index as int, key, ticket);
                        lemma_added_front(fitting.remove(index as int), key, ticket);
                    }
                    return SlotSearch { slot: Some(ticket), evicted: gone };
                },
                None => {},
            }
        }
        SlotSearch { slot: None, evicted: gone }
    }
}

proof fn lemma_without_slot(entries: Seq<DecoderEntry>, slot: u64, tickets: u64)
    requires
        distinct_entries(entries, tickets),
    ensures
        distinct_entries(without_slot(entries, slot), tickets),
        forall|i: int|
            0 <= i < without_slot(entries, slot).len() ==> entries.contains(
                #[trigger] without_slot(entries, slot)[i],
            ),
    decreases entries.len(),
{
    if entries.len() > 0 {
        let head = entries.drop_last();
        lemma_without_slot(head, slot, tickets);
        let rest = without_slot(head, slot);
        assert forall|i: int| 0 <= i < rest.len() implies entries.contains(#[trigger] rest[i]) by {
            let j = choose|j: int| 0 <= j < head.len() && head[j] == rest[i];
            assert(entries[j] == rest[i]);
        }
        if entries.last().slot != slot {
            let all = rest.push(entries.last());
            assert forall|i: int| 0 <= i < all.len() implies entries.contains(#[trigger] all[i]) by {
                if i < rest.len() {
                    assert(all[i] == rest[i]);
                } else {
                    assert(entries[entries.len() - 1] == all[i]);
                }
            }
            assert forall|i: int, j: int| 0 <= i < j < all.len() implies (#[trigger] all[i]).slot
                != (#[trigger] all[j]).slot && !equal_keys(all[i].key, all[j].key) by {
                if j == rest.len() {
                    let k = choose|k: int| 0 <= k < head.len() && head[k] == rest[i];
                    assert(head.contains(rest[i]));
                    assert(entries[k] == all[i]);
                    assert(entries[entries.len() - 1] == all[j]);
                }
            }
        }
    }
}

impl DecoderState {
    /// Changes the capacity. Sessions that no longer fit leave as far as they have no
    /// readers.
    pub fn reconfigure_session_capacity(&mut self, session_capacity: usize) -> (gone: Vec<
        DecoderEntry,
    >)
        requires
            old(self).wf(),
        ensures
            final(self).wf(),
            final(self).limit() == old(self).limit(),
            final(self).tickets() == old(self).tickets(),
            final(self).retired() == old(self).retired(),
            final(self).capacity() == clamped_capacity(session_capacity, old(self).limit()),
            if final(self).capacity() == old(self).capacity() {
                &&& final(self).entries() == old(self).entries()
                &&& gone@.len() == 0
                &&& final(self).counters() == old(self).counters()
            } else {
                &&& final(self).entries() == kept(
                    old(self).entries(),
                    final(self).capacity() as nat,
                )
                &&& gone@ == evicted(old(self).entries(), final(self).capacity() as nat)
                &&& final(self).counters() == trim_counted(
                    WindowCounters {
                        capacity_reconfigurations: old(
                            self,
                        ).counters().capacity_reconfigurations.saturating_add(1),
                        ..old(self).counters()
                    },
                    gone@.len(),
                )
            },
    {
        let capacity: usize = clamp_capacity(session_capacity, self.limit);
        if self.session_capacity == capacity {
            return Vec::new();
        }
        self.session_capacity = capacity;
        self.counters.capacity_reconfigurations =
            self.counters.capacity_reconfigurations.saturating_add(1);
        self.trim_idle_sessions_to_capacity()
    }

    /// A reader lets go of a slot.
    pub fn release_slot(&mut self, slot: u64)
        requires
            old(self).wf(),
        ensures
            final(self).wf(),
            final(self).limit() == old(self).limit(),
            final(self).capacity() == old(self).capacity(),
            final(self).tickets() == old(self).tickets(),
            final(self).counters() == old(self).counters(),
            final(self).retired() == old(self).retired(),
            final(self).entries() == released(old(self).entries(), slot),
    {
        let ghost before = self.entries@;
        let mut done: Vec<DecoderEntry> = Vec::new();
        let mut rest: Vec<DecoderEntry> = Vec::new();
        core::mem::swap(&mut rest, &mut self.entries);
        let len: usize = rest.len();
        let mut i: usize = 0;
        while i < len
            invariant
                i <= len == before.len(),
                rest@ == before.skip(i as int),
                done@ == released(before, slot).take(i as int),
                self.entries@.len() == 0,
                self.limit == old(self).limit,
                self.session_capacity == old(self).session_capacity,
                self.tickets == old(self).tickets,
                self.counters == old(self).counters,
                self.retired_shutdown == old(self).retired_shutdown,
            decreases len - i,
        {
            let mut entry = rest.remove(0);
            assert(entry == before[i as int]);
            if entry.slot == slot {
                entry.leases = entry.leases.saturating_sub(1);
            }
            done.push(entry);
            i += 1;
            assert(rest@ =~= before.skip(i as int));
            assert(done@ =~= released(before, slot).take(i as int));
        }
        assert(done@ =~= released(before, slot));
        self.entries = done;
        assert(distinct_entries(released(before, slot), self.tickets)) by {
            let after = released(before, slot);
            assert forall|i: int| 0 <= i < after.len() implies (#[trigger] after[i]).slot
                == before[i].slot && after[i].key == before[i].key && after[i].leases
                <= before[i].leases by {}
        }
    }

    /// Takes a session out of the table.
    pub fn remove_slot(&mut self, slot: u64)
        requires
            old(self).wf(),
        ensures
            final(self).wf(),
            final(self).limit() == old(self).limit(),
            final(self).capacity() == old(self).capacity(),
            final(self).tickets() == old(self).tickets(),
            final(self).counters() == old(self).counters(),
            final(self).retired() == old(self).retired(),
            final(self).entries() == without_slot(old(self).entries(), slot),
    {
        let ghost before = self.entries@;
        let mut done: Vec<DecoderEntry> = Vec::new();
        let mut rest: Vec<DecoderEntry> = Vec::new();
        core::mem::swap(&mut rest, &mut self.entries);
        let len: usize = rest.len();
        let mut i: usize = 0;
        assert(before.take(0) =~= Seq::<DecoderEntry>::empty());
        while i < len
            invariant
                i <= len == before.len(),
                rest@ == before.skip(i as int),
                done@ == without_slot(before.take(i as int), slot),
                self.entries@.len() == 0,
                self.limit == old(self).limit,
                self.session_capacity == old(self).session_capacity,
                self.tickets == old(self).tickets,
                self.counters == old(self).counters,
                self.retired_shutdown == old(self).retired_shutdown,
            decreases len - i,
        {
            let entry = rest.remove(0);
            assert(before.take(i + 1).drop_last() =~= before.take(i as int));
            assert(entry == before.take(i + 1).last());
            if entry.slot != slot {
                done.push(entry);
            }
            i += 1;
            assert(rest@ =~= before.skip(i as int));
        }
        assert(before.take(len as int) =~= before);
        self.entries = done;
        proof {
            lemma_without_slot(before, slot, self.tickets);
        }
    }

    /// Hands all sessions without readers out to be retired; the others stay.
    pub fn take_idle(&mut self) -> (idle: Vec<DecoderEntry>)
        requires
            old(self).wf(),
        ensures
            final(self).wf(),
            final(self).limit() == old(self).limit(),
            final(self).capacity() == old(self).capacity(),
            final(self).tickets() == old(self).tickets(),
            final(self).counters() == old(self).counters(),
            final(self).retired() == old(self).retired(),
            idle@ == idle_entries(old(self).entries()),
            final(self).entries() == busy_entries(old(self).entries()),
    {
        let ghost before = self.entries@;
        let mut idle: Vec<DecoderEntry> = Vec::new();
        let mut busy: Vec<DecoderEntry> = Vec::new();
        let mut rest: Vec<DecoderEntry> = Vec::new();
        core::mem::swap(&mut rest, &mut self.entries);
        let len: usize = rest.len();
        let mut i: usize = 0;
        assert(before.take(0) =~= Seq::<DecoderEntry>::empty());
        while i < len
            invariant
                i <= len == before.len(),
                rest@ == before.skip(i as int),
                idle@ == idle_entries(before.take(i as int)),
                busy@ == busy_entries(before.take(i as int)),
                self.entries@.len() == 0,
                self.limit == old(self).limit,
                self.session_capacity == old(self).session_capacity,
                self.tickets == old(self).tickets,
                self.counters == old(self).counters,
                self.retired_shutdown == old(self).retired_shutdown,
            decreases len - i,
        {
            let entry = rest.remove(0);
            assert(before.take(i + 1).drop_last() =~= before.take(i as int));
            assert(entry == before.take(i + 1).last());
            if entry.leases == 0 {
                idle.push(entry);
            } else {
                busy.push(entry);
            }
            i += 1;
            assert(rest@ =~= before.skip(i as int));
        }
        assert(before.take(len as int) =~= before);
        self.entries = busy;
        proof {
            lemma_busy_distinct(before, self.tickets);
        }
        idle
    }

    /// Hands all sessions out.
    pub fn take_all(&mut self) -> (all: Vec<DecoderEntry>)
        requires
            old(self).wf(),
        ensures
            final(self).wf(),
            final(self).limit() == old(self).limit(),
            final(self).capacity() == old(self).capacity(),
            final(self).tickets() == old(self).tickets(),
            final(self).counters() == old(self).counters(),
            final(self).retired() == old(self).retired(),
            all@ == old(self).entries(),
            final(self).entries() == Seq::<DecoderEntry>::empty(),
    {
        let mut all: Vec<DecoderEntry> = Vec::new();
        core::mem::swap(&mut all, &mut self.entries);
        assert(self.entries@ =~= Seq::<DecoderEntry>::empty());
        all
    }

    /// Adds to what became of sessions that were retired outside the teardown worker.
    pub fn record_session_shutdown(&mut self, evidence: AudioWindowDecoderShutdownEvidence)
        requires
            old(self).wf(),
        ensures
            final(self).wf(),
            final(self).limit() == old(self).limit(),
            final(self).capacity() == old(self).capacity(),
            final(self).tickets() == old(self).tickets(),
            final(self).counters() == old(self).counters(),
            final(self).entries() == old(self).entries(),
            final(self).retired() == merged(old(self).retired(), evidence),
    {
        self.retired_shutdown.merge(evidence);
    }

    /// Hands out what became of sessions that were retired outside the teardown worker.
    pub fn take_retired(&mut self) -> (r: AudioWindowDecoderShutdownEvidence)
        requires
            old(self).wf(),
        ensures
            final(self).wf(),
            final(self).limit() == old(self).limit(),
            final(self).capacity() == old(self).capacity(),
            final(self).tickets() == old(self).tickets(),
            final(self).counters() == old(self).counters(),
            final(self).entries() == old(self).entries(),
            r == old(self).retired(),
            final(self).retired() == crate::audio_source::evidence::no_evidence(),
    {
        let r = self.retired_shutdown;
        self.retired_shutdown = AudioWindowDecoderShutdownEvidence::default();
        r
    }

    /// Counts a window. A duration beyond 64 bits of microseconds counts as the longest.
    pub fn record_window(
        &mut self,
        kind: WindowKind,
        opened: bool,
        duration_us: u128,
        canceled: bool,
    )
        requires
            old(self).wf(),
        ensures
            final(self).wf(),
            final(self).limit() == old(self).limit(),
            final(self).capacity() == old(self).capacity(),
            final(self).tickets() == old(self).tickets(),
            final(self).entries() == old(self).entries(),
            final(self).retired() == old(self).retired(),
            final(self).counters() == window_counted(
                old(self).counters(),
                kind,
                opened,
                if duration_us > u64::MAX {
                    u64::MAX
                } else {
                    duration_us as u64
                },
                canceled,
            ),
    {
        let duration: u64 = if duration_us > 0xffff_ffff_ffff_ffff {
            u64::MAX
        } else {
            duration_us as u64
        };
        if opened {
            self.counters.session_opens = self.counters.session_opens.saturating_add(1);
        }
        match kind {
            WindowKind::Cold => {
                if self.counters.cold_window_max_duration_us < duration {
                    self.counters.cold_window_max_duration_us = duration;
                }
            },
            WindowKind::Sequential => {
                self.counters.sequential_reuses = self.counters.sequential_reuses.saturating_add(1);
                if self.counters.sequential_window_max_duration_us < duration {
                    self.counters.sequential_window_max_duration_us = duration;
                }
            },
            WindowKind::RandomSeek => {
                self.counters.random_seek_restarts =
                    self.counters.random_seek_restarts.saturating_add(1);
                if self.counters.random_seek_window_max_duration_us < duration {
                    self.counters.random_seek_window_max_duration_us = duration;
                }
            },
        }
        if canceled {
            self.counters.cancellations = self.counters.cancellations.saturating_add(1);
        }
    }

    /// The counts of the decoder. Sessions are those that hold physical permits.
    pub fn diagnostics(&self, permits: PermitDiagnostics) -> (r: AudioWindowDecoderDiagnostics)
        ensures
            r.sessions == permits.in_use,
            r.session_capacity == permits.capacity,
            r.peak_sessions == permits.peak_in_use,
            r.sessions_above_capacity == permits.in_use.saturating_sub(permits.capacity),
            r.session_opens == self.counters().session_opens,
            r.sequential_reuses == self.counters().sequential_reuses,
            r.random_seek_restarts == self.counters().random_seek_restarts,
            r.session_evictions == self.counters().session_evictions,
            r.capacity_reconfigurations == self.counters().capacity_reconfigurations,
            r.capacity_trim_evictions == self.counters().capacity_trim_evictions,
            r.cancellations == self.counters().cancellations,
            r.cold_window_max_duration_us == self.counters().cold_window_max_duration_us,
            r.sequential_window_max_duration_us
                == self.counters().sequential_window_max_duration_us,
            r.random_seek_window_max_duration_us
                == self.counters().random_seek_window_max_duration_us,
    {
        AudioWindowDecoderDiagnostics {
            sessions: permits.in_use,
            session_capacity: permits.capacity,
            peak_sessions: permits.peak_in_use,
            session_opens: self.counters.session_opens,
            sequential_reuses: self.counters.sequential_reuses,
            random_seek_restarts: self.counters.random_seek_restarts,
            session_evictions: self.counters.session_evictions,
            capacity_reconfigurations: self.counters.capacity_reconfigurations,
            capacity_trim_evictions: self.counters.capacity_trim_evictions,
            sessions_above_capacity: permits.in_use.saturating_sub(permits.capacity),
            cancellations: self.counters.cancellations,
            cold_window_max_duration_us: self.counters.cold_window_max_duration_us,
            sequential_window_max_duration_us: self.counters.sequential_window_max_duration_us,
            random_seek_window_max_duration_us: self.counters.random_seek_window_max_duration_us,
        }
    }

    /// Number of sessions in the table.
    pub fn session_count(&self) -> (r: usize)
        ensures
            r == self.entries().len(),
    {
        self.entries.len()
    }

    /// The capacity.
    pub fn session_capacity(&self) -> (r: usize)
        ensures
            r == self.capacity(),
    {
        self.session_capacity
    }

    /// A session of the table, by its place in the order of last use.
    pub fn entry(&self, index: usize) -> (r: Option<&DecoderEntry>)
        ensures
            match r {
                Some(entry) => index < self.entries().len() && *entry
                    == self.entries()[index as int],
                None => index >= self.entries().len(),
            },
    {
        if index < self.entries.len() {
            Some(&self.entries[index])
        } else {
            None
        }
    }
}

proof fn lemma_busy_distinct(entries: Seq<DecoderEntry>, tickets: u64)
    requires
        distinct_entries(entries, tickets),
    ensures
        distinct_entries(busy_entries(entries), tickets),
        forall|i: int|
            0 <= i < busy_entries(entries).len() ==> entries.contains(
                #[trigger] busy_entries(entries)[i],
            ),
    decreases entries.len(),
{
    if entries.len() > 0 {
        let head = entries.drop_last();
        lemma_busy_distinct(head, tickets);
        let rest = busy_entries(head);
        assert forall|i: int| 0 <= i < rest.len() implies entries.contains(#[trigger] rest[i]) by {
            let j = choose|j: int| 0 <= j < head.len() && head[j] == rest[i];
            assert(entries[j] == rest[i]);
        }
        if entries.last().leases != 0 {
            let all = rest.push(entries.last());
            assert forall|i: int| 0 <= i < all.len() implies entries.contains(#[trigger] all[i]) by {
                if i < rest.len() {
                    assert(all[i] == rest[i]);
                } else {
                    assert(entries[entries.len() - 1] == all[i]);
                }
            }
            assert forall|i: int, j: int| 0 <= i < j < all.len() implies (#[trigger] all[i]).slot
                != (#[trigger] all[j]).slot && !equal_keys(all[i].key, all[j].key) by {
                if j == rest.len() {
                    let k = choose|k: int| 0 <= k < head.len() && head[k] == rest[i];
                    assert(head.contains(rest[i]));
                    assert(entries[k] == all[i]);
                    assert(entries[entries.len() - 1] == all[j]);
                }
            }
        }
    }
}

/// A search never lets the table grow beyond its capacity, or beyond the sessions in
/// use. It lets no session with readers leave. Where it finds a slot, that slot is the
/// first in the table, has a reader, and belongs to the key.
pub proof fn searching_is_bounded(
    entries: Seq<DecoderEntry>,
    capacity: nat,
    counters: WindowCounters,
    tickets: u64,
    key: SessionKey,
)
    requires
        distinct_entries(entries, tickets),
        tickets < u64::MAX,
    ensures
        ({
            let after = searched(entries, capacity, counters, tickets, key);
            &&& after.entries.len() <= capacity || after.entries.len() <= entries.len()
            &&& forall|i: int|
                0 <= i < after.evicted.len() ==> (#[trigger] after.evicted[i]).leases == 0
            &&& after.slot matches Some(slot) ==> {
                &&& after.entries.len() > 0
                &&& after.entries[0].slot == slot
                &&& after.entries[0].leases > 0
                &&& equal_keys(after.entries[0].key, key)
            }
            &&& after.slot is None ==> idle_entries(after.entries).len() == 0
                && after.entries.len() >= capacity
        }),
{
    shrinking_spares_readers(entries, capacity);
    let fitting = kept(entries, capacity);
    lemma_kept_wf(entries, capacity, tickets);
    lemma_key_position(fitting, key);
    lemma_last_idle(fitting);
    if last_idle(fitting) is None {
        lemma_no_idle(fitting);
    }
}

/// Two requests share a session only where nothing tells them apart: the file and its
/// state, the stream, the layouts, and the rate. Requests that are alike in all of it do.
pub proof fn keys_tell_sessions_apart(a: SessionKey, b: SessionKey)
    ensures
        !same_path(a.source.path@, b.source.path@) ==> !equal_keys(a, b),
        a.source.len != b.source.len ==> !equal_keys(a, b),
        a.source.modified_secs != b.source.modified_secs ==> !equal_keys(a, b),
        a.source.modified_nanos != b.source.modified_nanos ==> !equal_keys(a, b),
        a.source.stream_index != b.source.stream_index ==> !equal_keys(a, b),
        a.source.selected_revision@ != b.source.selected_revision@ ==> !equal_keys(a, b),
        selected_layout_view(a.source.selected_layout) != selected_layout_view(
            b.source.selected_layout,
        ) ==> !equal_keys(a, b),
        layout_view(a.source.channel_layout) != layout_view(b.source.channel_layout)
            ==> !equal_keys(
            a,
            b,
        ),
        layout_view(a.channel_layout) != layout_view(b.channel_layout) ==> !equal_keys(a, b),
        a.sample_rate != b.sample_rate ==> !equal_keys(a, b),
        equal_keys(a, a),
        equal_keys(a, b) == equal_keys(b, a),
{
}

/// Sessions in use and sessions without readers part the table, each in its order, and a
/// slot that leaves takes only itself along.
pub proof fn tables_part_by_readers(entries: Seq<DecoderEntry>, slot: u64)
    ensures
        idle_entries(entries) == entries.filter(|entry: DecoderEntry| entry.leases == 0),
        busy_entries(entries) == entries.filter(|entry: DecoderEntry| entry.leases > 0),
        without_slot(entries, slot) == entries.filter(|entry: DecoderEntry| entry.slot != slot),
    decreases entries.len(),
{
    reveal(Seq::filter);
    if entries.len() > 0 {
        tables_part_by_readers(entries.drop_last(), slot);
    }
}

proof fn lemma_idle_remove(entries: Seq<DecoderEntry>, i: int)
    requires
        0 <= i < entries.len(),
        entries[i].leases == 0,
        forall|j: int| i < j < entries.len() ==> (#[trigger] entries[j]).leases != 0,
    ensures
        idle_entries(entries) == idle_entries(entries.remove(i)).push(entries[i]),
    decreases entries.len(),
{
    if i == entries.len() - 1 {
        assert(entries.remove(i) =~= entries.drop_last());
    } else {
        let head = entries.drop_last();
        assert(entries[entries.len() - 1].leases != 0);
        assert forall|j: int| i < j < head.len() implies (#[trigger] head[j]).leases != 0 by {
            assert(head[j] == entries[j]);
        }
        lemma_idle_remove(head, i);
        assert(entries.remove(i).drop_last() =~= head.remove(i));
        assert(entries.remove(i).last() == entries.last());
    }
}

/// A table that shrinks gives up the sessions without readers that were used longest ago,
/// the oldest first, and no more of them than it has to.
pub proof fn the_least_recent_leave_first(entries: Seq<DecoderEntry>, capacity: nat)
    ensures
        idle_entries(entries) == idle_entries(kept(entries, capacity)) + evicted(
            entries,
            capacity,
        ).reverse(),
        entries.len() <= capacity ==> kept(entries, capacity) == entries,
        kept(entries, capacity).len() >= capacity || kept(entries, capacity) == entries,
    decreases entries.len(),
{
    lemma_last_idle(entries);
    let all = idle_entries(entries);
    match last_idle(entries) {
        Some(i) => {
            if entries.len() > capacity {
                let rest = entries.remove(i);
                the_least_recent_leave_first(rest, capacity);
                lemma_idle_remove(entries, i);
                let more = evicted(rest, capacity);
                assert((seq![entries[i]] + more).reverse() =~= more.reverse().push(entries[i]));
                assert(all =~= idle_entries(kept(entries, capacity)) + evicted(
                    entries,
                    capacity,
                ).reverse());
            } else {
                assert(all =~= all + Seq::<DecoderEntry>::empty().reverse());
            }
        },
        None => {
            assert(all =~= all + Seq::<DecoderEntry>::empty().reverse());
        },
    }
}

/// A reader that lets go of a slot leaves one reader less there, and all else as it is.
pub proof fn releasing_takes_one_reader(entries: Seq<DecoderEntry>, slot: u64, i: int)
    requires
        0 <= i < entries.len(),
    ensures
        released(entries, slot).len() == entries.len(),
        released(entries, slot)[i].key == entries[i].key,
        released(entries, slot)[i].slot == entries[i].slot,
        entries[i].slot != slot ==> released(entries, slot)[i].leases == entries[i].leases,
        entries[i].slot == slot && entries[i].leases > 0 ==> released(entries, slot)[i].leases + 1
            == entries[i].leases,
{
}

/// A search for a key that the table holds, once it fits, finds that session and lets no
/// other leave for it. Any other search that succeeds takes a slot that was never used.
pub proof fn sessions_are_found_again(
    entries: Seq<DecoderEntry>,
    capacity: nat,
    counters: WindowCounters,
    tickets: u64,
    key: SessionKey,
    i: int,
)
    requires
        distinct_entries(entries, tickets),
        tickets < u64::MAX,
        0 <= i < kept(entries, capacity).len(),
    ensures
        ({
            let after = searched(entries, capacity, counters, tickets, key);
            let entry = kept(entries, capacity)[i];
            &&& equal_keys(entry.key, key) ==> {
                &&& after.slot == Some(entry.slot)
                &&& after.entries.len() == kept(entries, capacity).len()
                &&& after.entries[0].leases == entry.leases + 1
                &&& after.evicted == evicted(entries, capacity)
                &&& after.counters.session_evictions == counters.session_evictions
            }
            &&& after.slot matches Some(slot) ==> slot < tickets || slot == tickets
            &&& after.slot == Some(tickets) ==> after.entries[0].leases == 1
                && !equal_keys(entry.key, key)
            &&& after.slot == Some(tickets) && after.evicted != evicted(entries, capacity)
                && counters.session_evictions < u64::MAX ==> after.counters.session_evictions
                == counters.session_evictions + 1
        }),
{
    let fitting = kept(entries, capacity);
    lemma_kept_wf(entries, capacity, tickets);
    lemma_key_position(fitting, key);
    lemma_last_idle(fitting);
    match key_position(fitting, key) {
        Some(k) => {
            if equal_keys(fitting[i].key, key) && i != k {
                keys_tell_sessions_apart(fitting[i].key, key);
                lemma_equal_keys_join(fitting[i].key, key, fitting[k].key);
            }
        },
        None => {},
    }
}

proof fn lemma_equal_keys_join(a: SessionKey, b: SessionKey, c: SessionKey)
    requires
        equal_keys(a, b),
        equal_keys(c, b),
    ensures
        equal_keys(a, c),
        equal_keys(c, a),
{
}

/// A window counts for its own kind alone: a reuse where the session stood there, a restart
/// where it stood elsewhere. The longest duration of a kind is the longest of its windows.
pub proof fn windows_count_for_their_kind(
    counters: WindowCounters,
    kind: WindowKind,
    opened: bool,
    duration_us: u64,
    canceled: bool,
)
    requires
        counters.session_opens < u64::MAX,
        counters.cancellations < u64::MAX,
        counters.sequential_reuses < u64::MAX,
        counters.random_seek_restarts < u64::MAX,
    ensures
        ({
            let after = window_counted(counters, kind, opened, duration_us, canceled);
            &&& after.session_opens - counters.session_opens == if opened {
                1int
            } else {
                0
            }
            &&& after.cancellations - counters.cancellations == if canceled {
                1int
            } else {
                0
            }
            &&& after.sequential_reuses - counters.sequential_reuses == if kind is Sequential {
                1int
            } else {
                0
            }
            &&& after.random_seek_restarts - counters.random_seek_restarts
                == if kind is RandomSeek {
                1int
            } else {
                0
            }
            &&& kind is Cold ==> {
                &&& after.cold_window_max_duration_us >= duration_us
                &&& after.cold_window_max_duration_us >= counters.cold_window_max_duration_us
                &&& after.cold_window_max_duration_us == duration_us
                    || after.cold_window_max_duration_us == counters.cold_window_max_duration_us
            }
            &&& kind is Sequential ==> {
                &&& after.sequential_window_max_duration_us >= duration_us
                &&& after.sequential_window_max_duration_us
                    >= counters.sequential_window_max_duration_us
                &&& after.sequential_window_max_duration_us == duration_us
                    || after.sequential_window_max_duration_us
                    == counters.sequential_window_max_duration_us
            }
            &&& kind is RandomSeek ==> {
                &&& after.random_seek_window_max_duration_us >= duration_us
                &&& after.random_seek_window_max_duration_us
                    >= counters.random_seek_window_max_duration_us
                &&& after.random_seek_window_max_duration_us == duration_us
                    || after.random_seek_window_max_duration_us
                    == counters.random_seek_window_max_duration_us
            }
            &&& !(kind is Cold) ==> after.cold_window_max_duration_us
                == counters.cold_window_max_duration_us
            &&& !(kind is Sequential) ==> after.sequential_window_max_duration_us
                == counters.sequential_window_max_duration_us
            &&& !(kind is RandomSeek) ==> after.random_seek_window_max_duration_us
                == counters.random_seek_window_max_duration_us
            &&& after.session_evictions == counters.session_evictions
            &&& after.peak_sessions == counters.peak_sessions
        }),
{
}

/// A new decoder has served nothing: its first window is the first of its kind, and the
/// longest so far.
pub proof fn the_first_window_counts_alone(
    kind: WindowKind,
    opened: bool,
    duration_us: u64,
    canceled: bool,
)
    ensures
        ({
            let after = window_counted(no_windows(), kind, opened, duration_us, canceled);
            &&& after.peak_sessions == 0
            &&& after.session_evictions == 0
            &&& after.capacity_reconfigurations == 0
            &&& after.capacity_trim_evictions == 0
            &&& after.session_opens <= 1
            &&& after.cancellations <= 1
            &&& after.sequential_reuses + after.random_seek_restarts <= 1
            &&& after.cold_window_max_duration_us + after.sequential_window_max_duration_us
                + after.random_seek_window_max_duration_us == duration_us
            &&& opened <==> after.session_opens == 1
            &&& canceled <==> after.cancellations == 1
        }),
{
}

/// Sessions that leave because the capacity shrank are counted as that and as nothing else.
pub proof fn trims_count_what_left(counters: WindowCounters, gone: nat)
    requires
        counters.capacity_trim_evictions + gone <= u64::MAX,
    ensures
        trim_counted(counters, gone).capacity_trim_evictions == counters.capacity_trim_evictions
            + gone,
        trim_counted(counters, gone).session_evictions == counters.session_evictions,
        trim_counted(counters, gone).session_opens == counters.session_opens,
        trim_counted(counters, gone).cancellations == counters.cancellations,
        trim_counted(counters, gone).peak_sessions == counters.peak_sessions,
{
}

} // verus!
