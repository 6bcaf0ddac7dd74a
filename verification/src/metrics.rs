//! Sampling: turning one raw reading from the metrics provider into clamped
//! per-channel values, pushing each into its rolling history, and producing
//! the immutable snapshot the renderer consumes.
//!
//! Scalars are carried as plain integers: CPU utilization in hundredths of a
//! percent (so the full scale is 0..=10000), and memory/swap usage as raw
//! byte counts plus a derived fill ratio in parts per thousand.

use vstd::prelude::*;

use crate::error::DashError;
use crate::history::HistoryBuffer;

verus! {

/// Full scale of a CPU utilization sample: 100.00 percent, in hundredths.
pub const CPU_CEILING_CENTIPERCENT: i64 = 10000;

/// Full scale of a derived usage ratio: 1.0, in parts per thousand.
pub const RATIO_FULL_PERMILLE: u64 = 1000;

/// Default number of samples each channel's history retains.
pub const HISTORY_CAPACITY_DEFAULT: usize = 100;

/// A CPU utilization sample clamped into the displayable range
/// 0..=10000 hundredths of a percent.
pub open spec fn clamped_cpu(raw: i64) -> i64 {
    if raw < 0 {
        0
    } else if raw > CPU_CEILING_CENTIPERCENT {
        CPU_CEILING_CENTIPERCENT
    } else {
        raw
    }
}

/// The usage ratio `used / total` in parts per thousand, with an empty total
/// read as zero usage (never a division fault) and saturation at full.
pub open spec fn ratio_permille_of(used: u64, total: u64) -> int {
    if total == 0 {
        0
    } else if used >= total {
        RATIO_FULL_PERMILLE as int
    } else {
        (used * 1000) / (total as int)
    }
}

/// Clamps one raw CPU utilization sample into 0..=10000 before storage.
pub fn clamp_cpu(raw: i64) -> (clamped: i64)
    ensures
        clamped == clamped_cpu(raw),
        0 <= clamped <= CPU_CEILING_CENTIPERCENT,
{
    if raw < 0 {
        0
    } else if raw > CPU_CEILING_CENTIPERCENT {
        CPU_CEILING_CENTIPERCENT
    } else {
        raw
    }
}

/// Computes the usage ratio in parts per thousand; total for any inputs.
pub fn ratio_permille(used: u64, total: u64) -> (ratio: u64)
    ensures
        ratio == ratio_permille_of(used, total),
        ratio <= RATIO_FULL_PERMILLE,
{
    if total == 0 {
        0
    } else if used >= total {
        RATIO_FULL_PERMILLE
    } else {
        let numerator: u128 = (used as u128) * 1000;
        let quotient: u128 = numerator / (total as u128);
        proof {
            assert(numerator / (total as u128) < 1000) by (nonlinear_arith)
                requires
                    used < total,
                    total > 0,
                    numerator == (used as u128) * 1000,
            ;
        }
        quotient as u64
    }
}

/// One raw reading handed in from the metrics provider, already reduced to
/// plain values: per-core CPU utilization in hundredths of a percent
/// (possibly slightly out of range, as instantaneous OS sampling can be),
/// byte counts for memory and swap, and static host facts.
pub struct ProviderReading {
    pub cpu_centipercent: Vec<i64>,
    pub memory_used: u64,
    pub memory_total: u64,
    pub swap_used: u64,
    pub swap_total: u64,
    pub host_name: Option<String>,
    pub uptime_seconds: u64,
}

/// The immutable state produced by one sampling tick: current clamped
/// scalars, derived ratios, and a copy of each channel's history,
/// oldest first. Replaced wholesale on the next tick.
pub struct MetricsSnapshot {
    pub cpu_current: Vec<i64>,
    pub memory_used: u64,
    pub memory_total: u64,
    pub swap_used: u64,
    pub swap_total: u64,
    pub memory_ratio_permille: u64,
    pub swap_ratio_permille: u64,
    pub cpu_history: Vec<Vec<i64>>,
    pub memory_history: Vec<i64>,
    pub swap_history: Vec<i64>,
    pub host_name: Option<String>,
    pub uptime_seconds: u64,
}

/// Owns one rolling history per metric channel and turns provider readings
/// into snapshots. The channel set is established by the first reading and
/// may never change afterwards.
pub struct Sampler {
    history_capacity: usize,
    started: bool,
    cpu_histories: Vec<HistoryBuffer>,
    memory_history: HistoryBuffer,
    swap_history: HistoryBuffer,
}

impl Sampler {
    /// Whether the first reading has established the channel set.
    pub closed spec fn started(self) -> bool {
        self.started
    }

    /// The number of CPU channels established at startup.
    pub closed spec fn core_count(self) -> nat {
        self.cpu_histories@.len()
    }

    /// The capacity every channel history was created with.
    pub closed spec fn history_capacity(self) -> nat {
        self.history_capacity as nat
    }

    /// The current contents of core `i`'s history, oldest first.
    pub closed spec fn cpu_history(self, i: int) -> Seq<i64> {
        self.cpu_histories@[i]@
    }

    /// Every sample ever stored for core `i`, in arrival order.
    pub closed spec fn cpu_pushed(self, i: int) -> Seq<i64> {
        self.cpu_histories@[i].pushed()
    }

    /// The current contents of the memory-ratio history.
    pub closed spec fn memory_history(self) -> Seq<i64> {
        self.memory_history@
    }

    /// Every memory-ratio sample ever stored, in arrival order.
    pub closed spec fn memory_pushed(self) -> Seq<i64> {
        self.memory_history.pushed()
    }

    /// The current contents of the swap-ratio history.
    pub closed spec fn swap_history(self) -> Seq<i64> {
        self.swap_history@
    }

    /// Every swap-ratio sample ever stored, in arrival order.
    pub closed spec fn swap_pushed(self) -> Seq<i64> {
        self.swap_history.pushed()
    }

    /// All histories are well formed, share the configured capacity, and no
    /// CPU channel exists before the first reading establishes the set.
    pub closed spec fn wf(self) -> bool {
        &&& forall|i: int|
            0 <= i < self.cpu_histories@.len() ==> (#[trigger] self.cpu_histories@[i]).wf()
                && self.cpu_histories@[i].cap() == self.history_capacity
        &&& self.memory_history.wf()
        &&& self.memory_history.cap() == self.history_capacity
        &&& self.swap_history.wf()
        &&& self.swap_history.cap() == self.history_capacity
        &&& !self.started ==> self.cpu_histories@.len() == 0 && self.memory_history.pushed()
            == Seq::<i64>::empty() && self.swap_history.pushed() == Seq::<i64>::empty()
    }

    /// Every channel's visible history is the retained window of everything
    /// stored for it: all samples while they fit, the newest
    /// `history_capacity` of them once more were stored (strict FIFO).
    pub proof fn lemma_channel_windows(self)
        requires
            self.wf(),
        ensures
            forall|i: int|
                0 <= i < self.core_count() ==> #[trigger] self.cpu_history(i)
                    == crate::history::retained(self.cpu_pushed(i), self.history_capacity()),
            self.memory_history() == crate::history::retained(
                self.memory_pushed(),
                self.history_capacity(),
            ),
            self.swap_history() == crate::history::retained(
                self.swap_pushed(),
                self.history_capacity(),
            ),
    {
        assert forall|i: int| 0 <= i < self.core_count() implies #[trigger] self.cpu_history(i)
            == crate::history::retained(self.cpu_pushed(i), self.history_capacity()) by {
            self.cpu_histories@[i].lemma_window();
        }
        self.memory_history.lemma_window();
        self.swap_history.lemma_window();
    }

    /// A sampler with no channels established yet; every history it will
    /// create retains at most `history_capacity` samples.
    pub fn new(history_capacity: usize) -> (sampler: Sampler)
        ensures
            sampler.wf(),
            !sampler.started(),
            sampler.core_count() == 0,
            sampler.history_capacity() == history_capacity,
            sampler.memory_pushed() == Seq::<i64>::empty(),
            sampler.swap_pushed() == Seq::<i64>::empty(),
    {
        Sampler {
            history_capacity,
            started: false,
            cpu_histories: Vec::new(),
            memory_history: HistoryBuffer::new(history_capacity),
            swap_history: HistoryBuffer::new(history_capacity),
        }
    }

    /// Ingests one provider reading. The first reading establishes one
    /// channel per reported core; any later reading with a different core
    /// count is rejected with `ChannelCountChanged` and leaves the sampler
    /// untouched. On success every CPU sample is clamped and stored, the
    /// derived memory and swap ratios are stored, and the returned snapshot
    /// exposes the current values and a copy of each history.
    pub fn sample(&mut self, reading: ProviderReading) -> (result: Result<
        MetricsSnapshot,
        DashError,
    >)
        requires
            old(self).wf(),
        ensures
            final(self).wf(),
            final(self).history_capacity() == old(self).history_capacity(),
            result is Err <==> old(self).started() && reading.cpu_centipercent@.len()
                != old(self).core_count(),
            result is Err ==> result == Err::<MetricsSnapshot, DashError>(
                DashError::ChannelCountChanged,
            ) && *final(self) == *old(self),
            result is Ok ==> {
                let snap = result->Ok_0;
                &&& final(self).started()
                &&& final(self).core_count() == reading.cpu_centipercent@.len()
                &&& forall|i: int|
                    0 <= i < reading.cpu_centipercent@.len() ==> final(self).cpu_pushed(i) == (
                    if old(self).started() {
                        old(self).cpu_pushed(i)
                    } else {
                        Seq::<i64>::empty()
                    }).push(clamped_cpu(reading.cpu_centipercent@[i]))
                &&& final(self).memory_pushed() == old(self).memory_pushed().push(
                    ratio_permille_of(reading.memory_used, reading.memory_total) as i64,
                )
                &&& final(self).swap_pushed() == old(self).swap_pushed().push(
                    ratio_permille_of(reading.swap_used, reading.swap_total) as i64,
                )
                &&& snap.cpu_current@.len() == reading.cpu_centipercent@.len()
                &&& forall|i: int|
                    0 <= i < reading.cpu_centipercent@.len() ==> snap.cpu_current@[i]
                        == clamped_cpu(reading.cpu_centipercent@[i])
                &&& snap.memory_used == reading.memory_used
                &&& snap.memory_total == reading.memory_total
                &&& snap.swap_used == reading.swap_used
                &&& snap.swap_total == reading.swap_total
                &&& snap.memory_ratio_permille == ratio_permille_of(
                    reading.memory_used,
                    reading.memory_total,
                )
                &&& snap.swap_ratio_permille == ratio_permille_of(
                    reading.swap_used,
                    reading.swap_total,
                )
                &&& snap.cpu_history@.len() == reading.cpu_centipercent@.len()
                &&& forall|i: int|
                    0 <= i < reading.cpu_centipercent@.len() ==> (#[trigger] snap.cpu_history@[i])@
                        == final(self).cpu_history(i)
                &&& snap.memory_history@ == final(self).memory_history()
                &&& snap.swap_history@ == final(self).swap_history()
                &&& snap.host_name == reading.host_name
                &&& snap.uptime_seconds == reading.uptime_seconds
            },
    {
        if self.started {
            if reading.cpu_centipercent.len() != self.cpu_histories.len() {
                return Err(DashError::ChannelCountChanged);
            }
        } else {
            let mut fresh: Vec<HistoryBuffer> = Vec::new();
            while fresh.len() < reading.cpu_centipercent.len()
                invariant
                    fresh@.len() <= reading.cpu_centipercent@.len(),
                    forall|i: int|
                        0 <= i < fresh@.len() ==> (#[trigger] fresh@[i]).wf() && fresh@[i].cap()
                            == self.history_capacity && fresh@[i].pushed()
                            == Seq::<i64>::empty(),
                decreases reading.cpu_centipercent@.len() - fresh@.len(),
            {
                fresh.push(HistoryBuffer::new(self.history_capacity));
            }
            self.cpu_histories = fresh;
            self.started = true;
        }
        let ghost base: Seq<HistoryBuffer> = self.cpu_histories@;
        let ghost mem0 = self.memory_history;
        let ghost swap0 = self.swap_history;
        let ghost cap0 = self.history_capacity;

        let core_count = self.cpu_histories.len();
        let mut cpu_current: Vec<i64> = Vec::new();
        let mut cpu_history: Vec<Vec<i64>> = Vec::new();
        let mut i: usize = 0;
        while i < core_count
            invariant
                i <= core_count,
                core_count == self.cpu_histories@.len(),
                core_count == base.len(),
                core_count == reading.cpu_centipercent@.len(),
                self.history_capacity == cap0,
                self.memory_history == mem0,
                self.swap_history == swap0,
                self.started,
                forall|j: int|
                    0 <= j < base.len() ==> (#[trigger] base[j]).wf() && base[j].cap() == cap0,
                forall|j: int|
                    i <= j < base.len() ==> #[trigger] self.cpu_histories@[j] == base[j],
                forall|j: int|
                    0 <= j < i ==> (#[trigger] self.cpu_histories@[j]).wf()
                        && self.cpu_histories@[j].cap() == cap0
                        && self.cpu_histories@[j].pushed() == base[j].pushed().push(
                        clamped_cpu(reading.cpu_centipercent@[j]),
                    ),
                cpu_current@.len() == i,
                forall|j: int|
                    0 <= j < i ==> cpu_current@[j] == clamped_cpu(reading.cpu_centipercent@[j]),
                cpu_history@.len() == i,
                forall|j: int|
                    0 <= j < i ==> (#[trigger] cpu_history@[j])@ == self.cpu_histories@[j]@,
            decreases core_count - i,
        {
            let clamped = clamp_cpu(reading.cpu_centipercent[i]);
            let channel: &mut HistoryBuffer = &mut self.cpu_histories[i];
            channel.push(clamped);
            cpu_current.push(clamped);
            cpu_history.push(self.cpu_histories[i].snapshot());
            i = i + 1;
        }

        let memory_ratio = ratio_permille(reading.memory_used, reading.memory_total);
        self.memory_history.push(memory_ratio as i64);
        let swap_ratio = ratio_permille(reading.swap_used, reading.swap_total);
        self.swap_history.push(swap_ratio as i64);

        let snap = MetricsSnapshot {
            cpu_current,
            memory_used: reading.memory_used,
            memory_total: reading.memory_total,
            swap_used: reading.swap_used,
            swap_total: reading.swap_total,
            memory_ratio_permille: memory_ratio,
            swap_ratio_permille: swap_ratio,
            cpu_history,
            memory_history: self.memory_history.snapshot(),
            swap_history: self.swap_history.snapshot(),
            host_name: reading.host_name,
            uptime_seconds: reading.uptime_seconds,
        };
        Ok(snap)
    }
}

} // verus!
