//! Musical time: tempo, beat counting, and interval notifications.
//!
//! A metronome counts beats in exact beat units of `1 / (60000 * rate)`
//! beats, so one audio tick at `tempo_mbpm` milli-beats-per-minute advances
//! the count by exactly `tempo_mbpm` units. Each tick it reports every
//! registered interval whose whole-multiple boundary the count crossed.

use vstd::prelude::*;

verus! {

/// Largest tempo accepted, in milli-beats per minute.
pub const TEMPO_CAP: u64 = 10000000;

/// Largest interval accepted, in milli-beats.
pub const INTERVAL_CAP: u64 = 1000000;

/// Handle to a metronome held in the engine's arena.
#[derive(Clone, Copy, Debug, PartialEq, Eq, Structural)]
pub struct MetronomeId {
    pub index: u32,
    pub generation: u32,
}

/// A tempo in milli-beats per minute; 120000 is 120 bpm.
#[derive(Clone, Copy, Debug, PartialEq, Eq, Structural)]
pub struct Tempo {
    pub milli_bpm: u64,
}

/// An interval in milli-beats, in beat units of the given engine rate.
pub open spec fn interval_units(iv_mb: int, rate: int) -> int {
    iv_mb * 60 * rate
}

/// Whether the beat count crossed a whole multiple of an interval while
/// moving from `prev` to `now` (both in beat units).
pub open spec fn crossed(prev: int, now: int, iv_units: int) -> bool {
    now / iv_units > prev / iv_units
}

/// A strictly ascending sequence of interval lengths.
pub open spec fn strictly_sorted(s: Seq<u64>) -> bool {
    forall|i: int, j: int| 0 <= i < j < s.len() ==> s[i] < s[j]
}

/// Whether a list of intervals is strictly ascending and inside the caps,
/// executable.
pub fn intervals_valid(intervals: &Vec<u64>) -> (b: bool)
    ensures
        b == (strictly_sorted(intervals@) && forall|i: int|
            0 <= i < intervals@.len() ==> 1 <= #[trigger] intervals@[i] <= INTERVAL_CAP),
{
    let n = intervals.len();
    let mut i: usize = 0;
    while i < n
        invariant
            i <= n,
            n == intervals@.len(),
            forall|j: int| 0 <= j < i ==> 1 <= #[trigger] intervals@[j] <= INTERVAL_CAP,
            forall|j: int| 0 < j < i ==> intervals@[j - 1] < #[trigger] intervals@[j],
        decreases n - i,
    {
        let v = intervals[i];
        if v < 1 || v > INTERVAL_CAP {
            return false;
        }
        if i > 0 && intervals[i - 1] >= v {
            return false;
        }
        i = i + 1;
    }
    proof {
        assert forall|a: int, b: int| 0 <= a < b < intervals@.len() implies intervals@[a]
            < intervals@[b] by {
            lemma_adjacent_ascending(intervals@, a, b);
        }
    }
    true
}

/// Adjacent ascending entries are pairwise ascending.
proof fn lemma_adjacent_ascending(s: Seq<u64>, a: int, b: int)
    requires
        forall|j: int| 0 < j < s.len() ==> s[j - 1] < #[trigger] s[j],
        0 <= a < b < s.len(),
    ensures
        s[a] < s[b],
    decreases b - a,
{
    if b > a + 1 {
        lemma_adjacent_ascending(s, a, b - 1);
    }
}

/// How one tick of `Metronome::update` relates a metronome before to
/// after, apart from what it reports: configuration kept, a halted
/// metronome frozen, a ticking one advanced by its tempo (saturating).
pub open spec fn metronome_ticked(pre: Metronome, post: Metronome) -> bool {
    &&& post.tempo() == pre.tempo()
    &&& post.rate() == pre.rate()
    &&& post.intervals() == pre.intervals()
    &&& post.ticking() == pre.ticking()
    &&& if pre.ticking() {
        post.previous_time() == pre.time() && post.time() == (if pre.time() + pre.tempo()
            <= u64::MAX as int {
            pre.time() + pre.tempo()
        } else {
            u64::MAX as int
        })
    } else {
        post == pre
    }
}

/// A metronome: beat counter with registered notification intervals.
pub struct Metronome {
    tempo_mbpm: u64,
    sample_rate: u32,
    intervals_mb: Vec<u64>,
    ticking: bool,
    time_units: u64,
    previous_time_units: u64,
}

impl Metronome {
    /// Tempo, rate and intervals lie in their caps; intervals are strictly
    /// ascending; the previous count never runs ahead of the count.
    pub open spec fn wf(self) -> bool {
        &&& 1 <= self.tempo() <= TEMPO_CAP as int
        &&& 1 <= self.rate() <= 1000000
        &&& strictly_sorted(self.intervals())
        &&& forall|i: int|
            0 <= i < self.intervals().len() ==> 1 <= #[trigger] self.intervals()[i]
                <= INTERVAL_CAP
        &&& self.previous_time() <= self.time()
    }

    /// The tempo in milli-beats per minute.
    pub closed spec fn tempo(self) -> int {
        self.tempo_mbpm as int
    }

    /// The engine sample rate the beat units refer to.
    pub closed spec fn rate(self) -> int {
        self.sample_rate as int
    }

    /// The registered intervals, in milli-beats.
    pub closed spec fn intervals(self) -> Seq<u64> {
        self.intervals_mb@
    }

    /// Whether musical time is advancing.
    pub closed spec fn ticking(self) -> bool {
        self.ticking
    }

    /// The beat count, in beat units.
    pub closed spec fn time(self) -> int {
        self.time_units as int
    }

    /// The beat count before the last tick, in beat units.
    pub closed spec fn previous_time(self) -> int {
        self.previous_time_units as int
    }

    /// Whether an interval boundary was crossed on the last tick.
    pub open spec fn crossed_value(self, iv_mb: u64) -> bool {
        crossed(self.previous_time(), self.time(), interval_units(iv_mb as int, self.rate()))
    }

    /// Build a metronome at rest at beat zero.
    pub fn new(tempo: Tempo, sample_rate: u32, intervals_mb: Vec<u64>) -> (m: Metronome)
        requires
            1 <= tempo.milli_bpm <= TEMPO_CAP,
            1 <= sample_rate <= 1000000,
            strictly_sorted(intervals_mb@),
            forall|i: int|
                0 <= i < intervals_mb@.len() ==> 1 <= #[trigger] intervals_mb@[i] <= INTERVAL_CAP,
        ensures
            m.wf(),
            m.tempo() == tempo.milli_bpm,
            m.rate() == sample_rate,
            m.intervals() == intervals_mb@,
            !m.ticking(),
            m.time() == 0,
            m.previous_time() == 0,
    {
        Metronome {
            tempo_mbpm: tempo.milli_bpm,
            sample_rate,
            intervals_mb,
            ticking: false,
            time_units: 0,
            previous_time_units: 0,
        }
    }

    /// Let musical time advance.
    pub fn start(&mut self)
        requires
            old(self).wf(),
        ensures
            final(self).wf(),
            final(self).ticking(),
            final(self).time() == old(self).time(),
            final(self).previous_time() == old(self).previous_time(),
            final(self).tempo() == old(self).tempo(),
            final(self).rate() == old(self).rate(),
            final(self).intervals() == old(self).intervals(),
    {
        self.ticking = true;
    }

    /// Halt musical time, keeping the beat count.
    pub fn pause(&mut self)
        requires
            old(self).wf(),
        ensures
            final(self).wf(),
            !final(self).ticking(),
            final(self).time() == old(self).time(),
            final(self).previous_time() == old(self).previous_time(),
            final(self).tempo() == old(self).tempo(),
            final(self).rate() == old(self).rate(),
            final(self).intervals() == old(self).intervals(),
    {
        self.ticking = false;
    }

    /// Halt musical time and rewind the beat count to zero.
    pub fn stop(&mut self)
        requires
            old(self).wf(),
        ensures
            final(self).wf(),
            !final(self).ticking(),
            final(self).time() == 0,
            final(self).previous_time() == 0,
            final(self).tempo() == old(self).tempo(),
            final(self).rate() == old(self).rate(),
            final(self).intervals() == old(self).intervals(),
    {
        self.ticking = false;
        self.time_units = 0;
        self.previous_time_units = 0;
    }

    /// Replace the tempo at once; past beats are not retimed.
    pub fn set_tempo(&mut self, tempo: Tempo)
        requires
            old(self).wf(),
            1 <= tempo.milli_bpm <= TEMPO_CAP,
        ensures
            final(self).wf(),
            final(self).tempo() == tempo.milli_bpm,
            final(self).ticking() == old(self).ticking(),
            final(self).time() == old(self).time(),
            final(self).previous_time() == old(self).previous_time(),
            final(self).rate() == old(self).rate(),
            final(self).intervals() == old(self).intervals(),
    {
        self.tempo_mbpm = tempo.milli_bpm;
    }

    /// Whether an interval boundary was crossed on the last tick,
    /// executable.
    pub fn crossed_exec(&self, iv_mb: u64) -> (b: bool)
        requires
            self.wf(),
            1 <= iv_mb <= INTERVAL_CAP,
        ensures
            b == self.crossed_value(iv_mb),
    {
        proof {
            assert(1 <= (iv_mb as int) * 60 * (self.sample_rate as int)
                <= 60000000000000int) by (nonlinear_arith)
                requires
                    1 <= iv_mb as int <= 1000000,
                    1 <= self.sample_rate as int <= 1000000,
            ;
        }
        let ivu: u64 = iv_mb * 60 * (self.sample_rate as u64);
        self.time_units / ivu > self.previous_time_units / ivu
    }

    /// One audio tick: advance the beat count by the tempo and append to
    /// `out`, in ascending interval order, every registered interval whose
    /// boundary the count crossed. A halted metronome reports nothing.
    pub fn update(&mut self, out: &mut Vec<u64>)
        requires
            old(self).wf(),
        ensures
            final(self).wf(),
            metronome_ticked(*old(self), *final(self)),
            final(self).tempo() == old(self).tempo(),
            final(self).rate() == old(self).rate(),
            final(self).intervals() == old(self).intervals(),
            final(self).ticking() == old(self).ticking(),
            !old(self).ticking() ==> *final(self) == *old(self) && *final(out) == *old(out),
            old(self).ticking() ==> {
                &&& final(self).previous_time() == old(self).time()
                &&& final(self).time() == if old(self).time() + old(self).tempo()
                    <= u64::MAX as int {
                    old(self).time() + old(self).tempo()
                } else {
                    u64::MAX as int
                }
            },
            final(out)@.len() >= old(out)@.len(),
            final(out)@.subrange(0, old(out)@.len() as int) == old(out)@,
            old(self).ticking() ==> forall|k1: int, k2: int|
                old(out)@.len() <= k1 < k2 < final(out)@.len() ==> final(out)@[k1] < final(out)@[k2],
            old(self).ticking() ==> forall|k: int|
                old(out)@.len() <= k < final(out)@.len() ==> final(self).intervals().contains(
                    #[trigger] final(out)@[k],
                ) && final(self).crossed_value(final(out)@[k]),
            old(self).ticking() ==> forall|i: int|
                0 <= i < old(self).intervals().len() && final(self).crossed_value(
                    #[trigger] old(self).intervals()[i],
                ) ==> final(out)@.skip(old(out)@.len() as int).contains(old(self).intervals()[i]),
    {
        if !self.ticking {
            return ;
        }
        self.previous_time_units = self.time_units;
        self.time_units = if self.time_units <= u64::MAX - self.tempo_mbpm {
            self.time_units + self.tempo_mbpm
        } else {
            u64::MAX
        };
        let ghost old_out_len: int = out@.len() as int;
        let n = self.intervals_mb.len();
        let mut i: usize = 0;
        while i < n
            invariant
                self.wf(),
                n == self.intervals_mb.len(),
                i <= n,
                out@.len() >= old_out_len,
                0 <= old_out_len,
                out@.subrange(0, old_out_len) == old(out)@,
                forall|k1: int, k2: int|
                    old_out_len <= k1 < k2 < out@.len() ==> out@[k1] < out@[k2],
                forall|k: int|
                    old_out_len <= k < out@.len() ==> exists|j: int|
                        0 <= j < i && self.intervals()[j] == #[trigger] out@[k]
                            && self.crossed_value(out@[k]),
                forall|j: int|
                    0 <= j < i && self.crossed_value(#[trigger] self.intervals()[j]) ==> out@.skip(
                        old_out_len,
                    ).contains(self.intervals()[j]),
            decreases n - i,
        {
            let iv = self.intervals_mb[i];
            proof {
                assert(1 <= (iv as int) * 60 * (self.sample_rate as int)
                    <= 60000000000000int) by (nonlinear_arith)
                    requires
                        1 <= iv as int <= 1000000,
                        1 <= self.sample_rate as int <= 1000000,
                ;
            }
            let ivu: u64 = iv * 60 * (self.sample_rate as u64);
            if self.time_units / ivu > self.previous_time_units / ivu {
                let ghost pre_out = out@;
                out.push(iv);
                proof {
                    assert(out@.subrange(0, old_out_len) =~= pre_out.subrange(0, old_out_len));
                    assert forall|k1: int, k2: int|
                        old_out_len <= k1 < k2 < out@.len() implies out@[k1] < out@[k2] by {
                        if k2 == out@.len() - 1 {
                            let j = choose|j: int|
                                0 <= j < i && self.intervals()[j] == pre_out[k1]
                                    && self.crossed_value(pre_out[k1]);
                            assert(self.intervals()[j] < self.intervals()[i as int]);
                        }
                    }
                    assert forall|k: int| old_out_len <= k < out@.len() implies exists|j: int|
                        0 <= j < i + 1 && self.intervals()[j] == #[trigger] out@[k]
                            && self.crossed_value(out@[k]) by {
                        if k == out@.len() - 1 {
                            assert(self.intervals()[i as int] == out@[k] && self.crossed_value(
                                out@[k],
                            ));
                        } else {
                            let j = choose|j: int|
                                0 <= j < i && self.intervals()[j] == pre_out[k]
                                    && self.crossed_value(pre_out[k]);
                            assert(0 <= j < i + 1 && self.intervals()[j] == out@[k]
                                && self.crossed_value(out@[k]));
                        }
                    }
                    assert forall|j: int|
                        0 <= j < i + 1 && self.crossed_value(
                            #[trigger] self.intervals()[j],
                        ) implies out@.skip(old_out_len).contains(self.intervals()[j]) by {
                        if j == i as int {
                            assert(out@.skip(old_out_len)[out@.len() - 1 - old_out_len]
                                == self.intervals()[j]);
                        } else {
                            assert(pre_out.skip(old_out_len).contains(self.intervals()[j]));
                            let k = choose|k: int|
                                0 <= k < pre_out.skip(old_out_len).len() && pre_out.skip(
                                    old_out_len,
                                )[k] == self.intervals()[j];
                            assert(out@.skip(old_out_len)[k] == self.intervals()[j]);
                        }
                    }
                }
            } else {
                proof {
                    assert forall|j: int|
                        0 <= j < i + 1 && self.crossed_value(
                            #[trigger] self.intervals()[j],
                        ) implies out@.skip(old_out_len).contains(self.intervals()[j]) by {
                        if j < i as int {
                            assert(out@.skip(old_out_len).contains(self.intervals()[j]));
                        }
                    }
                }
            }
            i = i + 1;
        }
        proof {
            assert forall|k: int|
                old_out_len <= k < out@.len() implies self.intervals().contains(
                #[trigger] out@[k],
            ) && self.crossed_value(out@[k]) by {
                let j = choose|j: int|
                    0 <= j < n && self.intervals()[j] == out@[k] && self.crossed_value(out@[k]);
                assert(self.intervals()[j] == out@[k]);
            }
        }
    }
}

/// Lexicographic order on `(beat count, interval)` pairs.
pub open spec fn emission_lt(t1: int, iv1: u64, t2: int, iv2: u64) -> bool {
    t1 < t2 || (t1 == t2 && iv1 < iv2)
}

/// Between a start and the next stop, notifications come in strictly
/// increasing `(beat count, interval)` order: within one tick the reported
/// intervals strictly ascend, and a later tick reports at a strictly
/// larger beat count.
pub proof fn lemma_emission_order(
    t1: int,
    ivs1: Seq<u64>,
    t2: int,
    ivs2: Seq<u64>,
    k1: int,
    l1: int,
    k2: int,
)
    requires
        strictly_sorted(ivs1),
        strictly_sorted(ivs2),
        t1 < t2,
        0 <= k1 < l1 < ivs1.len(),
        0 <= k2 < ivs2.len(),
    ensures
        emission_lt(t1, ivs1[k1], t1, ivs1[l1]),
        emission_lt(t1, ivs1[l1], t2, ivs2[k2]),
{
}

} // verus!
