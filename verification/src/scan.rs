//! The search for high and low tides between two instants, as a state
//! machine driven by the sign of the water level's rate of change.
//!
//! The water level is a sum of cosines with different periods, so its
//! extrema have no closed form. The search samples the sign of the rate
//! of change at a fixed spacing (`step`, fine enough not to skip past an
//! extremum of the fastest constituent), and bisects each sign change down
//! to a one-second window, reporting the upper end of that window.
//!
//! The machine asks for one sign at a time (`next_probe`) and is told it
//! (`feed`); the caller evaluates the rate of change. Fed by a function
//! `f` from instants to signs, the machine records exactly
//! `extrema_spec(f, start, end, step)` (see `lemma_scan_starts`,
//! `lemma_scan_steps` and `lemma_scan_finishes`).

use vstd::prelude::*;
use crate::extremum::{DerivativeSign, ExtremumEvent, TideExtremumKind};

verus! {

/// Whether the water level is rising.
pub open spec fn rising(s: DerivativeSign) -> bool {
    s == DerivativeSign::Positive
}

/// A high tide ends a rise; a low tide ends a fall.
pub open spec fn kind_of(was_rising: bool) -> TideExtremumKind {
    if was_rising {
        TideExtremumKind::High
    } else {
        TideExtremumKind::Low
    }
}

/// Bisection of `[lo, hi]` on whether the level is rising, where it is
/// rising at `lo` exactly when `high`: the upper end of the one-second
/// window it narrows to.
pub open spec fn bisect(f: spec_fn(int) -> DerivativeSign, lo: int, hi: int, high: bool) -> int
    decreases hi - lo,
{
    if hi - lo <= 1 {
        hi
    } else {
        let mid = lo + (hi - lo) / 2;
        if rising(f(mid)) == high {
            bisect(f, mid, hi, high)
        } else {
            bisect(f, lo, mid, high)
        }
    }
}

/// The extremum, if any, that the samples at `a` and `b` bracket and that
/// falls within `[start, end]`.
pub open spec fn pair_events(
    f: spec_fn(int) -> DerivativeSign,
    start: int,
    end: int,
    a: int,
    b: int,
) -> Seq<ExtremumEvent> {
    let sa = f(a);
    if sa != DerivativeSign::Zero && rising(sa) != rising(f(b)) {
        let root = bisect(f, a, b, rising(sa));
        if start <= root <= end {
            seq![ExtremumEvent { kind: kind_of(rising(sa)), unix_time_seconds: root as i64 }]
        } else {
            Seq::empty()
        }
    } else {
        Seq::empty()
    }
}

/// The extrema found from the sample at `a` on, the samples being `step`
/// apart and the last one at most `end + step`.
pub open spec fn sweep(
    f: spec_fn(int) -> DerivativeSign,
    start: int,
    end: int,
    step: int,
    a: int,
) -> Seq<ExtremumEvent>
    decreases end + step - a,
{
    if step > 0 && a + step <= end + step {
        pair_events(f, start, end, a, a + step) + sweep(f, start, end, step, a + step)
    } else {
        Seq::empty()
    }
}

/// The high and low tides between `start` and `end` (inclusive) that the
/// search finds when the sign of the rate of change at each instant `t`
/// is `f(t)`: none when `end <= start`; otherwise those bracketed by the
/// samples `start - step, start, start + step, ...` up to `end + step`.
pub open spec fn extrema_spec(f: spec_fn(int) -> DerivativeSign, start: int, end: int, step: int) -> Seq<
    ExtremumEvent,
> {
    if end <= start {
        Seq::empty()
    } else {
        sweep(f, start, end, step, start - step)
    }
}

/// Where the search stands.
#[derive(Debug, Clone, Copy, PartialEq, Eq, Structural)]
pub enum ScanPhase {
    /// Waiting for the sign at the sample before `start`.
    Priming,
    /// Waiting for the sign at the next sample `t`.
    Sweeping,
    /// Narrowing the bracket `[lo, hi]` around a sign change.
    Bisecting,
    /// Finished.
    Done,
}

/// The state of a search, as integers and a sequence of events.
pub struct ScanState {
    pub start: int,
    pub end: int,
    pub step: int,
    pub phase: ScanPhase,
    pub t_prev: int,
    pub sign_prev: DerivativeSign,
    pub t: int,
    pub sign_t: DerivativeSign,
    pub lo: int,
    pub hi: int,
    pub high: bool,
    pub found: Seq<ExtremumEvent>,
}

/// A search for high and low tides between `start` and `end`.
pub struct ExtremaScan {
    pub start: i64,
    pub end: i64,
    pub step: i64,
    pub phase: ScanPhase,
    /// The previous sample, and the sign there.
    pub t_prev: i64,
    pub sign_prev: DerivativeSign,
    /// The next sample, and (while bisecting) the sign there.
    pub t: i64,
    pub sign_t: DerivativeSign,
    /// The bracket being bisected, and whether the level rises at `lo`.
    pub lo: i64,
    pub hi: i64,
    pub high: bool,
    /// The extrema recorded so far, in chronological order.
    pub found: Vec<ExtremumEvent>,
}

impl View for ExtremaScan {
    type V = ScanState;

    open spec fn view(&self) -> ScanState {
        ScanState {
            start: self.start as int,
            end: self.end as int,
            step: self.step as int,
            phase: self.phase,
            t_prev: self.t_prev as int,
            sign_prev: self.sign_prev,
            t: self.t as int,
            sign_t: self.sign_t,
            lo: self.lo as int,
            hi: self.hi as int,
            high: self.high,
            found: self.found@,
        }
    }
}

impl ScanState {
    /// The limits within which every instant the search reaches fits in
    /// an `i64`.
    pub open spec fn limits(self) -> bool {
        &&& self.step >= 1
        &&& self.start - self.step >= i64::MIN
        &&& self.end + 2 * self.step <= i64::MAX
        &&& self.start <= i64::MAX
        &&& self.end >= i64::MIN
    }

    /// The limits, and where the samples stand in each phase.
    pub open spec fn wf(self) -> bool {
        &&& self.limits()
        &&& match self.phase {
            ScanPhase::Priming => {
                &&& self.start < self.end
                &&& self.t_prev == self.start - self.step
                &&& self.t == self.start
            },
            ScanPhase::Sweeping => {
                &&& self.start - self.step <= self.t_prev
                &&& self.t == self.t_prev + self.step
                &&& self.t <= self.end + self.step
            },
            ScanPhase::Bisecting => {
                &&& self.start - self.step <= self.t_prev
                &&& self.t == self.t_prev + self.step
                &&& self.t <= self.end + self.step
                &&& self.t_prev <= self.lo < self.hi <= self.t
                &&& self.hi - self.lo > 1
            },
            ScanPhase::Done => true,
        }
    }

    /// The instant whose sign the search needs next, or `None` when it is
    /// finished.
    pub open spec fn probe(self) -> Option<int> {
        match self.phase {
            ScanPhase::Priming => Some(self.t_prev),
            ScanPhase::Sweeping => Some(self.t),
            ScanPhase::Bisecting => Some(self.lo + (self.hi - self.lo) / 2),
            ScanPhase::Done => None,
        }
    }

    /// Moves on to the next sample, the sign at the current one being `s`.
    pub open spec fn advance(self, s: DerivativeSign) -> ScanState {
        let t = self.t + self.step;
        ScanState {
            t_prev: self.t,
            sign_prev: s,
            t,
            phase: if t <= self.end + self.step {
                ScanPhase::Sweeping
            } else {
                ScanPhase::Done
            },
            ..self
        }
    }

    /// Records an extremum at `root` if it lies within `[start, end]`.
    pub open spec fn record(self, root: int, high: bool) -> ScanState {
        if self.start <= root <= self.end {
            ScanState {
                found: self.found.push(
                    ExtremumEvent { kind: kind_of(high), unix_time_seconds: root as i64 },
                ),
                ..self
            }
        } else {
            self
        }
    }

    /// The state after being told that the sign at `self.probe()` is `s`.
    pub open spec fn next(self, s: DerivativeSign) -> ScanState {
        match self.phase {
            ScanPhase::Priming => ScanState { sign_prev: s, phase: ScanPhase::Sweeping, ..self },
            ScanPhase::Sweeping => {
                if self.sign_prev != DerivativeSign::Zero && rising(self.sign_prev) != rising(s) {
                    if self.t - self.t_prev > 1 {
                        ScanState {
                            phase: ScanPhase::Bisecting,
                            lo: self.t_prev,
                            hi: self.t,
                            high: rising(self.sign_prev),
                            sign_t: s,
                            ..self
                        }
                    } else {
                        self.record(self.t, rising(self.sign_prev)).advance(s)
                    }
                } else {
                    self.advance(s)
                }
            },
            ScanPhase::Bisecting => {
                let mid = self.lo + (self.hi - self.lo) / 2;
                let narrowed = if rising(s) == self.high {
                    ScanState { lo: mid, ..self }
                } else {
                    ScanState { hi: mid, ..self }
                };
                if narrowed.hi - narrowed.lo <= 1 {
                    narrowed.record(narrowed.hi, self.high).advance(self.sign_t)
                } else {
                    narrowed
                }
            },
            ScanPhase::Done => self,
        }
    }

    /// How far the search is from finishing: the first component shrinks,
    /// or stays and the second shrinks, with every answered probe.
    pub open spec fn progress(self) -> (int, int) {
        (
            self.end + self.step - self.t_prev,
            match self.phase {
                ScanPhase::Priming => self.step + 2,
                ScanPhase::Sweeping => self.step + 1,
                ScanPhase::Bisecting => self.hi - self.lo,
                ScanPhase::Done => 0,
            },
        )
    }

    /// The state agrees with the search fed by `f`: what it has recorded,
    /// followed by what the rest of the sweep finds, is the whole result.
    pub open spec fn consistent(self, f: spec_fn(int) -> DerivativeSign) -> bool {
        let total = extrema_spec(f, self.start, self.end, self.step);
        match self.phase {
            ScanPhase::Priming => self.found == Seq::<ExtremumEvent>::empty(),
            ScanPhase::Sweeping => {
                &&& self.start < self.end
                &&& self.sign_prev == f(self.t_prev)
                &&& self.found + sweep(f, self.start, self.end, self.step, self.t_prev) == total
            },
            ScanPhase::Bisecting => {
                &&& self.start < self.end
                &&& self.sign_prev == f(self.t_prev)
                &&& self.sign_t == f(self.t)
                &&& self.sign_prev != DerivativeSign::Zero
                &&& self.high == rising(self.sign_prev)
                &&& rising(self.sign_t) != self.high
                &&& rising(f(self.lo)) == self.high
                &&& rising(f(self.hi)) != self.high
                &&& bisect(f, self.lo, self.hi, self.high) == bisect(
                    f,
                    self.t_prev,
                    self.t,
                    self.high,
                )
                &&& self.found + sweep(f, self.start, self.end, self.step, self.t_prev) == total
            },
            ScanPhase::Done => self.found == total,
        }
    }
}

/// A new search agrees with the search fed by any `f`.
pub proof fn lemma_scan_starts(st: ScanState, f: spec_fn(int) -> DerivativeSign)
    requires
        st.wf(),
        st.found == Seq::<ExtremumEvent>::empty(),
        st.phase == (if st.end <= st.start {
            ScanPhase::Done
        } else {
            ScanPhase::Priming
        }),
    ensures
        st.consistent(f),
{
}

/// Answering the search's probe with `f` keeps it in agreement with the
/// search fed by `f`.
pub proof fn lemma_scan_steps(st: ScanState, f: spec_fn(int) -> DerivativeSign)
    requires
        st.wf(),
        st.consistent(f),
        st.probe() is Some,
    ensures
        st.next(f(st.probe()->0)).consistent(f),
{
    let total = extrema_spec(f, st.start, st.end, st.step);
    match st.phase {
        ScanPhase::Priming => {
            assert(Seq::<ExtremumEvent>::empty() + sweep(f, st.start, st.end, st.step, st.t_prev)
                =~= total);
        },
        ScanPhase::Sweeping => {
            let s = f(st.t);
            let pair = pair_events(f, st.start, st.end, st.t_prev, st.t);
            let rest = sweep(f, st.start, st.end, st.step, st.t);
            assert(sweep(f, st.start, st.end, st.step, st.t_prev) == pair + rest);
            if st.sign_prev != DerivativeSign::Zero && rising(st.sign_prev) != rising(s) {
                if st.t - st.t_prev > 1 {
                } else {
                    let n = st.record(st.t, rising(st.sign_prev));
                    assert(n.found =~= st.found + pair);
                    lemma_advance_consistent(n, f, st.found, pair, rest);
                }
            } else {
                assert(st.found + pair =~= st.found);
                lemma_advance_consistent(st, f, st.found, pair, rest);
            }
        },
        ScanPhase::Bisecting => {
            let s = f(st.lo + (st.hi - st.lo) / 2);
            let mid = st.lo + (st.hi - st.lo) / 2;
            let narrowed = if rising(s) == st.high {
                ScanState { lo: mid, ..st }
            } else {
                ScanState { hi: mid, ..st }
            };
            assert(bisect(f, narrowed.lo, narrowed.hi, st.high) == bisect(f, st.lo, st.hi, st.high));
            if narrowed.hi - narrowed.lo <= 1 {
                let pair = pair_events(f, st.start, st.end, st.t_prev, st.t);
                let rest = sweep(f, st.start, st.end, st.step, st.t);
                assert(sweep(f, st.start, st.end, st.step, st.t_prev) == pair + rest);
                let n = narrowed.record(narrowed.hi, st.high);
                assert(n.found =~= st.found + pair);
                lemma_advance_consistent(n, f, st.found, pair, rest);
            }
        },
        ScanPhase::Done => {},
    }
}

/// Moving on from the sample `t` keeps the agreement, once the extremum
/// (if any) bracketed by the samples `t_prev` and `t` has been recorded.
proof fn lemma_advance_consistent(
    n: ScanState,
    f: spec_fn(int) -> DerivativeSign,
    before: Seq<ExtremumEvent>,
    pair: Seq<ExtremumEvent>,
    rest: Seq<ExtremumEvent>,
)
    requires
        n.limits(),
        n.start < n.end,
        n.t == n.t_prev + n.step,
        n.t <= n.end + n.step,
        rest == sweep(f, n.start, n.end, n.step, n.t),
        n.found == before + pair,
        before + (pair + rest) == extrema_spec(f, n.start, n.end, n.step),
    ensures
        n.advance(f(n.t)).consistent(f),
{
    assert(before + pair + rest =~= before + (pair + rest));
    if n.advance(f(n.t)).phase == ScanPhase::Done {
        assert(n.found + rest =~= n.found);
    }
}

/// A finished search has recorded exactly what the search fed by `f`
/// finds.
pub proof fn lemma_scan_finishes(st: ScanState, f: spec_fn(int) -> DerivativeSign)
    requires
        st.consistent(f),
        st.probe() is None,
    ensures
        st.found == extrema_spec(f, st.start, st.end, st.step),
{
}

pub open spec fn lex_less(a: (int, int), b: (int, int)) -> bool {
    a.0 < b.0 || (a.0 == b.0 && a.1 < b.1)
}

impl ExtremaScan {
    /// A search for the extrema between `start` and `end`, sampling every
    /// `step` seconds. With `end <= start` there is nothing to search.
    pub fn new(start: i64, end: i64, step: i64) -> (r: ExtremaScan)
        requires
            step >= 1,
            start - step >= i64::MIN,
            end + 2 * step <= i64::MAX,
        ensures
            r@.wf(),
            r@.start == start,
            r@.end == end,
            r@.step == step,
            r@.found == Seq::<ExtremumEvent>::empty(),
            r@.phase == (if end <= start {
                ScanPhase::Done
            } else {
                ScanPhase::Priming
            }),
            end > start ==> r@.t_prev == start - step && r@.t == start,
    {
        ExtremaScan {
            start,
            end,
            step,
            phase: if end <= start {
                ScanPhase::Done
            } else {
                ScanPhase::Priming
            },
            t_prev: start - step,
            sign_prev: DerivativeSign::Zero,
            t: start,
            sign_t: DerivativeSign::Zero,
            lo: start,
            hi: start,
            high: false,
            found: Vec::new(),
        }
    }

    /// The instant whose rate-of-change sign the search needs next, or
    /// `None` once it is finished.
    pub fn next_probe(&self) -> (r: Option<i64>)
        requires
            self@.wf(),
        ensures
            match self@.probe() {
                Some(t) => r == Some(t as i64),
                None => r is None,
            },
    {
        match self.phase {
            ScanPhase::Priming => Some(self.t_prev),
            ScanPhase::Sweeping => Some(self.t),
            ScanPhase::Bisecting => Some(self.lo + (self.hi - self.lo) / 2),
            ScanPhase::Done => None,
        }
    }

    fn advance(&mut self, s: DerivativeSign)
        requires
            old(self)@.limits(),
            old(self)@.start - old(self)@.step <= old(self)@.t_prev,
            old(self)@.t == old(self)@.t_prev + old(self)@.step,
            old(self)@.t <= old(self)@.end + old(self)@.step,
        ensures
            final(self)@ == old(self)@.advance(s),
            final(self)@.wf(),
    {
        self.t_prev = self.t;
        self.sign_prev = s;
        self.t = self.t + self.step;
        self.phase = if self.t <= self.end + self.step {
            ScanPhase::Sweeping
        } else {
            ScanPhase::Done
        };
    }

    fn record(&mut self, root: i64, high: bool)
        ensures
            final(self)@ == old(self)@.record(root as int, high),
    {
        if self.start <= root && root <= self.end {
            let kind = if high {
                TideExtremumKind::High
            } else {
                TideExtremumKind::Low
            };
            self.found.push(ExtremumEvent { kind, unix_time_seconds: root });
        }
    }

    /// Tells the search that the sign of the rate of change at
    /// `self.next_probe()` is `s`.
    pub fn feed(&mut self, s: DerivativeSign)
        requires
            old(self)@.wf(),
            old(self)@.probe() is Some,
        ensures
            final(self)@ == old(self)@.next(s),
            final(self)@.wf(),
            lex_less(final(self)@.progress(), old(self)@.progress()),
            0 <= final(self)@.progress().1,
            final(self)@.phase != ScanPhase::Done ==> 0 <= final(self)@.progress().0,
    {
        match self.phase {
            ScanPhase::Priming => {
                self.sign_prev = s;
                self.phase = ScanPhase::Sweeping;
            },
            ScanPhase::Sweeping => {
                let was_rising = self.sign_prev == DerivativeSign::Positive;
                let now_rising = s == DerivativeSign::Positive;
                if self.sign_prev != DerivativeSign::Zero && was_rising != now_rising {
                    if self.t - self.t_prev > 1 {
                        self.phase = ScanPhase::Bisecting;
                        self.lo = self.t_prev;
                        self.hi = self.t;
                        self.high = was_rising;
                        self.sign_t = s;
                    } else {
                        let t = self.t;
                        self.record(t, was_rising);
                        self.advance(s);
                    }
                } else {
                    self.advance(s);
                }
            },
            ScanPhase::Bisecting => {
                let mid = self.lo + (self.hi - self.lo) / 2;
                if (s == DerivativeSign::Positive) == self.high {
                    self.lo = mid;
                } else {
                    self.hi = mid;
                }
                if self.hi - self.lo <= 1 {
                    let hi = self.hi;
                    let high = self.high;
                    let sign_t = self.sign_t;
                    self.record(hi, high);
                    self.advance(sign_t);
                }
            },
            ScanPhase::Done => {},
        }
    }

    /// The extrema recorded, in chronological order.
    pub fn into_events(self) -> (r: Vec<ExtremumEvent>)
        ensures
            r@ == self@.found,
    {
        self.found
    }
}


/// The events come in strictly increasing time order.
pub open spec fn chronological(es: Seq<ExtremumEvent>) -> bool {
    forall|i: int, j: int|
        #![trigger es[i], es[j]]
        0 <= i < j < es.len() ==> es[i].unix_time_seconds < es[j].unix_time_seconds
}

/// Every event lies within `[start, end]`.
pub open spec fn within(es: Seq<ExtremumEvent>, start: int, end: int) -> bool {
    forall|i: int|
        0 <= i < es.len() ==> start <= #[trigger] es[i].unix_time_seconds <= end
}

/// At the event's instant the level has just stopped rising (a high tide)
/// or just stopped falling (a low tide): the sign one second earlier says
/// rising exactly for a high tide, the sign at the instant the opposite.
pub open spec fn turns_at(f: spec_fn(int) -> DerivativeSign, e: ExtremumEvent) -> bool {
    let t = e.unix_time_seconds as int;
    &&& rising(f(t - 1)) == (e.kind == TideExtremumKind::High)
    &&& rising(f(t)) != (e.kind == TideExtremumKind::High)
}

/// Consecutive events alternate between high and low tides.
pub open spec fn alternating(es: Seq<ExtremumEvent>) -> bool {
    forall|i: int, j: int|
        #![trigger es[i], es[j]]
        0 <= i && j == i + 1 && j < es.len() ==> es[i].kind != es[j].kind
}

/// Bisection keeps a bracket whose ends differ in rising-ness, and ends
/// one second wide.
pub proof fn lemma_bisect(f: spec_fn(int) -> DerivativeSign, lo: int, hi: int, high: bool)
    requires
        lo < hi,
        rising(f(lo)) == high,
        rising(f(hi)) != high,
    ensures
        lo < bisect(f, lo, hi, high) <= hi,
        rising(f(bisect(f, lo, hi, high) - 1)) == high,
        rising(f(bisect(f, lo, hi, high))) != high,
    decreases hi - lo,
{
    if hi - lo > 1 {
        let mid = lo + (hi - lo) / 2;
        if rising(f(mid)) == high {
            lemma_bisect(f, mid, hi, high);
        } else {
            lemma_bisect(f, lo, mid, high);
        }
    }
}

/// What each stretch of the sweep finds: events after its first sample,
/// within `[start, end]`, in order, each at a turn of the level.
proof fn lemma_sweep_facts(
    f: spec_fn(int) -> DerivativeSign,
    start: int,
    end: int,
    step: int,
    a: int,
)
    requires
        step >= 1,
        i64::MIN <= start,
        end <= i64::MAX,
    ensures
        ({
            let es = sweep(f, start, end, step, a);
            &&& forall|i: int| 0 <= i < es.len() ==> a < #[trigger] es[i].unix_time_seconds
            &&& within(es, start, end)
            &&& chronological(es)
            &&& forall|i: int| 0 <= i < es.len() ==> turns_at(f, #[trigger] es[i])
        }),
    decreases end + step - a,
{
    if a + step <= end + step {
        lemma_sweep_facts(f, start, end, step, a + step);
        let pair = pair_events(f, start, end, a, a + step);
        let rest = sweep(f, start, end, step, a + step);
        let es = pair + rest;
        assert(sweep(f, start, end, step, a) == es);
        let sa = f(a);
        if sa != DerivativeSign::Zero && rising(sa) != rising(f(a + step)) {
            lemma_bisect(f, a, a + step, rising(sa));
        }
        assert forall|i: int| 0 <= i < es.len() implies a < #[trigger] es[i].unix_time_seconds
            && start <= es[i].unix_time_seconds <= end && turns_at(f, es[i]) by {
            if i >= pair.len() {
                assert(es[i] == rest[i - pair.len()]);
            }
        }
        assert forall|i: int, j: int|
            #![trigger es[i], es[j]]
            0 <= i < j < es.len() implies es[i].unix_time_seconds < es[j].unix_time_seconds by {
            if i >= pair.len() {
                assert(es[i] == rest[i - pair.len()]);
                assert(es[j] == rest[j - pair.len()]);
            } else {
                assert(es[j] == rest[j - pair.len()]);
            }
        }
    }
}

/// What the search finds lies within `[start, end]`, comes in
/// chronological order, and each event sits where the level turns: for a
/// high tide it was rising one second before and is no longer rising; for
/// a low tide the reverse.
pub proof fn lemma_extrema_ordered(
    f: spec_fn(int) -> DerivativeSign,
    start: i64,
    end: i64,
    step: int,
)
    requires
        step >= 1,
    ensures
        within(extrema_spec(f, start as int, end as int, step), start as int, end as int),
        chronological(extrema_spec(f, start as int, end as int, step)),
        forall|i: int|
            0 <= i < extrema_spec(f, start as int, end as int, step).len() ==> turns_at(
                f,
                #[trigger] extrema_spec(f, start as int, end as int, step)[i],
            ),
{
    if start < end {
        lemma_sweep_facts(f, start as int, end as int, step, start - step);
    }
}


/// A stretch of the sweep that starts where nothing can fall before
/// `start` finds alternating events, the first of them the turn away from
/// the direction the level takes at the stretch's first sample.
proof fn lemma_sweep_alternates(
    f: spec_fn(int) -> DerivativeSign,
    start: int,
    end: int,
    step: int,
    b: int,
)
    requires
        step >= 1,
        i64::MIN <= start,
        end <= i64::MAX,
        start <= b,
        forall|t: int| #[trigger] f(t) != DerivativeSign::Zero,
    ensures
        alternating(sweep(f, start, end, step, b)),
        sweep(f, start, end, step, b).len() > 0 ==> sweep(f, start, end, step, b)[0].kind
            == kind_of(rising(f(b))),
    decreases end + step - b,
{
    if b + step <= end + step {
        let c = b + step;
        lemma_sweep_alternates(f, start, end, step, c);
        lemma_sweep_facts(f, start, end, step, c);
        let pair = pair_events(f, start, end, b, c);
        let rest = sweep(f, start, end, step, c);
        let es = pair + rest;
        assert(sweep(f, start, end, step, b) == es);
        if rising(f(b)) != rising(f(c)) {
            lemma_bisect(f, b, c, rising(f(b)));
            let root = bisect(f, b, c, rising(f(b)));
            if root > end {
                // Everything later lies past `end` too.
                if rest.len() > 0 {
                    assert(c < rest[0].unix_time_seconds <= end);
                }
                assert(es =~= rest);
            } else {
                assert forall|i: int, j: int|
                    #![trigger es[i], es[j]]
                    0 <= i && j == i + 1 && j < es.len() implies es[i].kind != es[j].kind by {
                    if i > 0 {
                        assert(es[i] == rest[i - 1]);
                        assert(es[j] == rest[i]);
                    } else {
                        assert(es[1] == rest[0]);
                    }
                }
            }
        } else {
            assert(es =~= rest);
        }
    }
}

/// Where the rate of change is never exactly zero, high and low tides
/// alternate.
pub proof fn lemma_extrema_alternate(
    f: spec_fn(int) -> DerivativeSign,
    start: i64,
    end: i64,
    step: int,
)
    requires
        step >= 1,
        forall|t: int| #[trigger] f(t) != DerivativeSign::Zero,
    ensures
        alternating(extrema_spec(f, start as int, end as int, step)),
{
    if start < end {
        let a = start - step;
        let b = start as int;
        lemma_sweep_alternates(f, start as int, end as int, step, b);
        let pair = pair_events(f, start as int, end as int, a, b);
        let rest = sweep(f, start as int, end as int, step, b);
        let es = pair + rest;
        assert(sweep(f, start as int, end as int, step, a) == es);
        if pair.len() > 0 {
            assert forall|i: int, j: int|
                #![trigger es[i], es[j]]
                0 <= i && j == i + 1 && j < es.len() implies es[i].kind != es[j].kind by {
                if i > 0 {
                    assert(es[i] == rest[i - 1]);
                    assert(es[j] == rest[i]);
                } else {
                    assert(es[1] == rest[0]);
                }
            }
        } else {
            assert(es =~= rest);
        }
    }
}

} // verus!
