//! Filters of detected events: counters that let a detection through depending on how many
//! detections were checked before it, and the ways a filter is combined with a locator.
use std::ops::Range;
use vstd::prelude::*;

verus! {

/// A filter that decides on each check from the number of checks made before it.
pub trait CountingFilter: Sized {
    /// The state of the filter is consistent.
    spec fn inv(&self) -> bool;

    /// The filter can count one more check.
    spec fn can_check(&self) -> bool;

    /// How many checks were made so far.
    spec fn count(&self) -> nat;

    /// What the next check answers.
    spec fn passes(&self) -> bool;

    /// The state after the next check.
    spec fn after(&self) -> Self;

    /// A check keeps the state consistent and counts one check more.
    proof fn lemma_after(&self)
        requires
            self.inv(),
            self.can_check(),
        ensures
            self.after().inv(),
            self.after().count() == self.count() + 1,
    ;

    /// Checks one more detection.
    fn check(&mut self) -> (r: bool)
        requires
            old(self).inv(),
            old(self).can_check(),
        ensures
            r == old(self).passes(),
            *final(self) == old(self).after(),
            final(self).inv(),
            final(self).count() == old(self).count() + 1,
    ;
}

/// Lets through every `n`-th detection, starting with the detection numbered `offset % n`
/// (counting from 0): the detections numbered `offset % n`, `offset % n + n`, ... pass.
pub struct Every {
    n: usize,
    phase: usize,
    i: usize,
    checked: Ghost<nat>,
}

impl Every {
    /// The period.
    pub closed spec fn period(&self) -> nat {
        self.n as nat
    }

    /// The number, modulo the period, of the detections that pass.
    pub closed spec fn phase(&self) -> nat {
        self.phase as nat
    }

    /// A filter that lets through every `n`-th detection, starting with the next one.
    pub fn new(n: usize) -> (r: Self)
        requires
            n >= 1,
        ensures
            r.inv(),
            r.period() == n,
            r.phase() == 0,
            r.count() == 0,
    {
        Self::with_offset(n, 0)
    }

    /// A filter that lets through every `n`-th detection, starting with the detection numbered
    /// `offset % n` from the next one on.
    pub fn with_offset(n: usize, offset: usize) -> (r: Self)
        requires
            n >= 1,
        ensures
            r.inv(),
            r.period() == n,
            r.phase() == offset % n,
            r.count() == 0,
    {
        let phase = offset % n;
        proof {
            assert((0 + n - 1 - phase) % (n as int) == n - 1 - phase) by (nonlinear_arith)
                requires
                    n >= 1,
                    0 <= phase < n,
            ;
        }
        Every { n, phase, i: n - 1 - phase, checked: Ghost(0) }
    }
}

impl CountingFilter for Every {
    closed spec fn inv(&self) -> bool {
        &&& self.n >= 1
        &&& self.phase < self.n
        &&& self.i < self.n
        &&& self.i as int == (self.checked@ + self.n - 1 - self.phase) % (self.n as int)
    }

    /// There is no limit to the number of checks.
    open spec fn can_check(&self) -> bool {
        true
    }

    closed spec fn count(&self) -> nat {
        self.checked@
    }

    /// A detection passes when the number of the detections checked before it is the phase,
    /// modulo the period.
    open spec fn passes(&self) -> bool {
        self.count() % self.period() == self.phase()
    }

    closed spec fn after(&self) -> Self {
        Every {
            n: self.n,
            phase: self.phase,
            i: if self.i + 1 >= self.n {
                0
            } else {
                (self.i + 1) as usize
            },
            checked: Ghost(self.checked@ + 1),
        }
    }

    proof fn lemma_after(&self) {
        lemma_every_step(
            self.checked@ as int,
            self.n as int,
            self.phase as int,
            self.i as int,
        );
    }

    fn check(&mut self) -> (r: bool)
        ensures
            final(self).period() == old(self).period(),
            final(self).phase() == old(self).phase(),
    {
        let ghost k = self.checked@;
        proof {
            lemma_every_step(k as int, self.n as int, self.phase as int, self.i as int);
        }
        self.i = self.i + 1;
        self.checked = Ghost(k + 1);
        if self.i >= self.n {
            self.i = 0;
            true
        } else {
            false
        }
    }
}

/// The arithmetic of one check of [`Every`]: with `i == (k + n - 1 - p) % n`, the counter
/// wraps to zero exactly when `k % n == p`, and its next value is `(k + 1 + n - 1 - p) % n`.
proof fn lemma_every_step(k: int, n: int, p: int, i: int)
    requires
        n >= 1,
        k >= 0,
        0 <= p < n,
        0 <= i < n,
        i == (k + n - 1 - p) % n,
    ensures
        (i + 1 >= n) == (k % n == p),
        i + 1 >= n ==> 0 == (k + 1 + n - 1 - p) % n,
        i + 1 < n ==> i + 1 == (k + 1 + n - 1 - p) % n,
{
    assert(((k + n - 1 - p) % n + 1 == n) == (k % n == p)) by (nonlinear_arith)
        requires
            n >= 1,
            k >= 0,
            0 <= p < n,
    ;
    assert((k + n - p) % n == if (k + n - 1 - p) % n + 1 == n {
        0
    } else {
        (k + n - 1 - p) % n + 1
    }) by (nonlinear_arith)
        requires
            n >= 1,
            k >= 0,
            0 <= p < n,
    ;
}

/// A check of [`Every`] keeps its period and its phase.
pub proof fn lemma_every_after(f: Every)
    requires
        f.inv(),
    ensures
        f.after().inv(),
        f.after().period() == f.period(),
        f.after().phase() == f.phase(),
        f.after().count() == f.count() + 1,
{
    f.lemma_after();
}

/// An [`Every`] filter is determined by its period, its phase and its count: two such filters
/// answer alike on every run of checks. So `every_offset(n, 0)` is `every(n)`.
pub proof fn lemma_every_determined(f: Every, g: Every)
    requires
        f.inv(),
        g.inv(),
        f.period() == g.period(),
        f.phase() == g.phase(),
        f.count() == g.count(),
    ensures
        f == g,
{
}

/// Lets through the first detection only.
pub struct Once {
    flag: bool,
    checked: Ghost<nat>,
}

impl Once {
    /// A filter that lets through the next detection only.
    pub fn new() -> (r: Self)
        ensures
            r.inv(),
            r.count() == 0,
    {
        Once { flag: true, checked: Ghost(0) }
    }
}

impl CountingFilter for Once {
    closed spec fn inv(&self) -> bool {
        self.flag == (self.checked@ == 0)
    }

    /// There is no limit to the number of checks.
    open spec fn can_check(&self) -> bool {
        true
    }

    closed spec fn count(&self) -> nat {
        self.checked@
    }

    /// Only the first detection passes.
    open spec fn passes(&self) -> bool {
        self.count() == 0
    }

    closed spec fn after(&self) -> Self {
        Once { flag: false, checked: Ghost(self.checked@ + 1) }
    }

    proof fn lemma_after(&self) {
    }

    fn check(&mut self) -> (r: bool) {
        let ghost k = self.checked@;
        self.checked = Ghost(k + 1);
        if self.flag {
            self.flag = false;
            true
        } else {
            false
        }
    }
}

/// Lets through the first `n` detections.
pub struct Take {
    n: usize,
    counter: usize,
}

impl Take {
    /// The number of detections that pass.
    pub closed spec fn limit(&self) -> nat {
        self.n as nat
    }

    /// A filter that lets through the next `n` detections.
    pub fn new(n: usize) -> (r: Self)
        ensures
            r.inv(),
            r.limit() == n,
            r.count() == 0,
    {
        Take { n, counter: 0 }
    }
}

impl CountingFilter for Take {
    closed spec fn inv(&self) -> bool {
        true
    }

    /// The count of checks stays below the largest `usize`.
    open spec fn can_check(&self) -> bool {
        self.count() < usize::MAX
    }

    closed spec fn count(&self) -> nat {
        self.counter as nat
    }

    /// The detections numbered below the limit pass.
    open spec fn passes(&self) -> bool {
        self.count() < self.limit()
    }

    closed spec fn after(&self) -> Self {
        Take { n: self.n, counter: (self.counter + 1) as usize }
    }

    proof fn lemma_after(&self) {
    }

    fn check(&mut self) -> (r: bool)
        ensures
            final(self).limit() == old(self).limit(),
    {
        self.counter = self.counter + 1;
        self.counter <= self.n
    }
}

/// A check of [`Take`] keeps its limit.
pub proof fn lemma_take_after(f: Take)
    requires
        f.can_check(),
    ensures
        f.after().limit() == f.limit(),
        f.after().count() == f.count() + 1,
{
}

/// Lets through the detections whose numbers (counting from 0) lie in a range.
pub struct Times {
    range: Range<usize>,
    counter: usize,
}

impl Times {
    /// The numbers of the detections that pass.
    pub closed spec fn range(&self) -> Range<usize> {
        self.range
    }

    /// A filter that lets through the detections numbered in `range`, counted from the next one.
    pub fn new(range: Range<usize>) -> (r: Self)
        ensures
            r.inv(),
            r.range() == range,
            r.count() == 0,
    {
        Times { range, counter: 0 }
    }
}

impl CountingFilter for Times {
    closed spec fn inv(&self) -> bool {
        true
    }

    /// The count of checks stays below the largest `usize`.
    open spec fn can_check(&self) -> bool {
        self.count() < usize::MAX
    }

    closed spec fn count(&self) -> nat {
        self.counter as nat
    }

    /// A detection passes when its number lies in the range.
    open spec fn passes(&self) -> bool {
        self.range().start <= self.count() < self.range().end
    }

    closed spec fn after(&self) -> Self {
        Times { range: self.range, counter: (self.counter + 1) as usize }
    }

    proof fn lemma_after(&self) {
    }

    fn check(&mut self) -> (r: bool)
        ensures
            final(self).range() == old(self).range(),
    {
        let r = self.range.start <= self.counter && self.counter < self.range.end;
        self.counter = self.counter + 1;
        r
    }
}

/// A check of [`Times`] keeps its range.
pub proof fn lemma_times_after(f: Times)
    requires
        f.can_check(),
    ensures
        f.after().range() == f.range(),
        f.after().count() == f.count() + 1,
{
}

/// Lets through the detections whose numbers (counting from 0) are listed, in increasing order,
/// in `times`.
pub struct OnTimes {
    times: Vec<usize>,
    next: usize,
    i: usize,
}

/// `s` is strictly increasing.
pub open spec fn strictly_increasing(s: Seq<usize>) -> bool {
    forall|j: int, l: int| 0 <= j < l < s.len() ==> s[j] < s[l]
}

impl OnTimes {
    /// The numbers of the detections that pass.
    pub closed spec fn listed(&self) -> Seq<usize> {
        self.times@
    }

    /// How many of the listed numbers were passed so far.
    pub closed spec fn passed(&self) -> nat {
        self.next as nat
    }

    /// The list is strictly increasing, the listed numbers that were passed are the first ones,
    /// and the next one is still ahead.
    pub closed spec fn wf(&self) -> bool {
        &&& strictly_increasing(self.times@)
        &&& self.next <= self.times@.len()
        &&& forall|j: int| 0 <= j < self.next ==> self.times@[j] < self.i
        &&& forall|j: int| self.next <= j < self.times@.len() ==> self.times@[j] >= self.i
    }

    /// A filter that lets through the detections numbered in `times`, counted from the next one.
    pub fn new(times: Vec<usize>) -> (r: Self)
        ensures
            r.inv(),
            strictly_increasing(times@) ==> r.wf(),
            r.listed() == times@,
            r.count() == 0,
            r.passed() == 0,
    {
        OnTimes { times, next: 0, i: 0 }
    }
}

impl CountingFilter for OnTimes {
    closed spec fn inv(&self) -> bool {
        self.next <= self.times@.len()
    }

    /// The count of checks stays below the largest `usize`.
    open spec fn can_check(&self) -> bool {
        self.count() < usize::MAX
    }

    closed spec fn count(&self) -> nat {
        self.i as nat
    }

    /// A detection passes when its number is the next listed one.
    open spec fn passes(&self) -> bool {
        self.passed() < self.listed().len() && self.listed()[self.passed() as int] == self.count()
    }

    closed spec fn after(&self) -> Self {
        let hit = self.next < self.times@.len() && self.times@[self.next as int] == self.i;
        OnTimes {
            times: self.times,
            next: if hit {
                (self.next + 1) as usize
            } else {
                self.next
            },
            i: (self.i + 1) as usize,
        }
    }

    proof fn lemma_after(&self) {
    }

    fn check(&mut self) -> (r: bool)
        ensures
            final(self).listed() == old(self).listed(),
            final(self).passed() == old(self).passed() + if r {
                1int
            } else {
                0
            },
            old(self).wf() ==> final(self).wf(),
    {
        let r = self.next < self.times.len() && self.times[self.next] == self.i;
        if r {
            self.next = self.next + 1;
        }
        self.i = self.i + 1;
        r
    }
}

/// A check of [`OnTimes`] keeps its list, passes one more listed number exactly when the
/// detection passes, and keeps the list well formed.
pub proof fn lemma_on_times_after(f: OnTimes)
    requires
        f.inv(),
        f.can_check(),
    ensures
        f.after().listed() == f.listed(),
        f.after().count() == f.count() + 1,
        f.after().passed() == f.passed() + if f.passes() {
            1int
        } else {
            0
        },
        f.wf() ==> f.after().wf(),
{
    let a = f.after();
    let hit = f.next < f.times@.len() && f.times@[f.next as int] == f.i;
    assert(hit == f.passes());
    assert(f.times.len() == f.times@.len());
    if f.wf() {
        assert forall|j: int| 0 <= j < a.next implies a.times@[j] < a.i by {
            if j < f.next {
                assert(f.times@[j] < f.i);
            }
        }
        assert forall|j: int| a.next <= j < a.times@.len() implies a.times@[j] >= a.i by {
            if hit {
                assert(f.times@[f.next as int] < f.times@[j]);
            } else {
                assert(f.times@[j] >= f.i);
                if j == f.next {
                    assert(f.times@[j] != f.i);
                }
            }
        }
    }
}

/// For a strictly increasing list of numbers, [`OnTimes`] lets a detection through exactly when
/// its number is listed.
pub proof fn lemma_on_times_passes_listed(f: OnTimes)
    requires
        f.wf(),
    ensures
        f.passes() <==> f.listed().contains(f.count() as usize),
{
    if f.listed().contains(f.count() as usize) {
        let j = choose|j: int| 0 <= j < f.listed().len() && f.listed()[j] == f.count() as usize;
        if j > f.passed() {
            assert(f.listed()[f.passed() as int] < f.listed()[j]);
        }
    }
}

/// [`Once`] lets through the same detections as [`Take`] with a limit of one.
pub proof fn lemma_once_is_take_one(o: Once, t: Take)
    requires
        o.inv(),
        t.inv(),
        t.limit() == 1,
        t.can_check(),
        o.count() == t.count(),
    ensures
        o.passes() == t.passes(),
        o.after().count() == t.after().count(),
        t.after().limit() == 1,
{
}

/// [`Take`] with the limit `n` lets through the same detections as [`Times`] with the range
/// `0..n`.
pub proof fn lemma_take_is_times_from_zero(t: Take, m: Times)
    requires
        m.range().start == 0,
        m.range().end == t.limit(),
        t.count() == m.count(),
        t.can_check(),
        m.can_check(),
    ensures
        t.passes() == m.passes(),
        t.after().count() == m.after().count(),
        t.after().limit() == m.after().range().end,
        m.after().range().start == 0,
{
}

/// A locator whose detections are filtered after the detection: the filter is consulted, and
/// advanced, only on the steps where the locator detects an event.
pub struct FilterAfterDetection<L, F> {
    pub loc: L,
    pub filter: F,
}

/// A locator whose detections are filtered before the detection: the filter is consulted, and
/// advanced, on every step, and the locator only on the steps that the filter lets through.
pub struct FilterBeforeDetection<L, F> {
    pub loc: L,
    pub filter: F,
}

/// A locator whose located events are filtered by the time at which they were located.
pub struct FilterLocated<L, F> {
    pub loc: L,
    pub filter: F,
}

impl<L, F: CountingFilter> FilterAfterDetection<L, F> {
    /// The step's detection, let through the filter: `detected && filter`.
    pub fn detect_with(&mut self, detected: bool) -> (r: bool)
        requires
            detected ==> old(self).filter.inv() && old(self).filter.can_check(),
        ensures
            final(self).loc == old(self).loc,
            final(self).filter == (if detected {
                old(self).filter.after()
            } else {
                old(self).filter
            }),
            r == (detected && old(self).filter.passes()),
            detected ==> final(self).filter.inv(),
            detected ==> final(self).filter.count() == old(self).filter.count() + 1,
    {
        if detected {
            self.filter.check()
        } else {
            false
        }
    }
}

impl<L, F: CountingFilter> FilterBeforeDetection<L, F> {
    /// Advances the filter for this step, and says whether the locator is to be consulted.
    pub fn filter_passes(&mut self) -> (r: bool)
        requires
            old(self).filter.inv(),
            old(self).filter.can_check(),
        ensures
            final(self).loc == old(self).loc,
            final(self).filter == old(self).filter.after(),
            r == old(self).filter.passes(),
            final(self).filter.inv(),
            final(self).filter.count() == old(self).filter.count() + 1,
    {
        self.filter.check()
    }
}

impl<L, F> FilterLocated<L, F> {
    /// The located event, kept if the filter accepted its time.
    pub fn filter_located<T>(&self, located: Option<T>, accepted: bool) -> (r: Option<T>)
        ensures
            r == (if located is Some && accepted {
                located
            } else {
                None
            }),
    {
        match located {
            Some(t) => if accepted {
                Some(t)
            } else {
                None
            },
            None => None,
        }
    }
}

/// Filtering of the detections of a locator by counting filters.
pub trait Filter: Sized {
    /// The locator with its detections filtered after the detection by [`Every`]: every `n`-th
    /// detection, starting with the first, passes.
    fn every(self, n: usize) -> (r: FilterAfterDetection<Self, Every>)
        requires
            n >= 1,
        ensures
            r.loc == self,
            r.filter.inv(),
            r.filter.period() == n,
            r.filter.phase() == 0,
            r.filter.count() == 0,
    {
        FilterAfterDetection { loc: self, filter: Every::new(n) }
    }

    /// The locator with its detections filtered after the detection by [`Every`]: every `n`-th
    /// detection, starting with the one numbered `offset % n`, passes.
    fn every_offset(self, n: usize, offset: usize) -> (r: FilterAfterDetection<Self, Every>)
        requires
            n >= 1,
        ensures
            r.loc == self,
            r.filter.inv(),
            r.filter.period() == n,
            r.filter.phase() == offset % n,
            r.filter.count() == 0,
    {
        FilterAfterDetection { loc: self, filter: Every::with_offset(n, offset) }
    }

    /// The locator with its detections filtered after the detection by [`Once`]: only the first
    /// detection passes.
    fn once(self) -> (r: FilterAfterDetection<Self, Once>)
        ensures
            r.loc == self,
            r.filter.inv(),
            r.filter.count() == 0,
    {
        FilterAfterDetection { loc: self, filter: Once::new() }
    }

    /// The locator with its detections filtered after the detection by [`Take`]: the first `n`
    /// detections pass.
    fn take(self, n: usize) -> (r: FilterAfterDetection<Self, Take>)
        ensures
            r.loc == self,
            r.filter.inv(),
            r.filter.limit() == n,
            r.filter.count() == 0,
    {
        FilterAfterDetection { loc: self, filter: Take::new(n) }
    }

    /// The locator with its detections filtered after the detection by [`Times`]: the detections
    /// numbered in `range` pass.
    fn times(self, range: Range<usize>) -> (r: FilterAfterDetection<Self, Times>)
        ensures
            r.loc == self,
            r.filter.inv(),
            r.filter.range() == range,
            r.filter.count() == 0,
    {
        FilterAfterDetection { loc: self, filter: Times::new(range) }
    }

    /// The locator with its detections filtered after the detection by [`OnTimes`]: the
    /// detections whose numbers are listed in `times` pass.
    fn on_times(self, times: Vec<usize>) -> (r: FilterAfterDetection<Self, OnTimes>)
        ensures
            r.loc == self,
            r.filter.inv(),
            strictly_increasing(times@) ==> r.filter.wf(),
            r.filter.listed() == times@,
            r.filter.count() == 0,
            r.filter.passed() == 0,
    {
        FilterAfterDetection { loc: self, filter: OnTimes::new(times) }
    }
}

/// Every locator can be filtered.
impl<L> Filter for L {

}

} // verus!
