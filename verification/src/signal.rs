//! A sliding window of samples for the decorative sparkline.

use rand::distr::Uniform;
use rand::rngs::ThreadRng;
use vstd::prelude::*;

verus! {

/// An endless source of random samples from a fixed range: a uniform
/// distribution of the `rand` crate together with the thread's generator.
/// Verus does not look inside.
#[verifier::external_body]
pub struct RandomSignal {
    distribution: Uniform<u64>,
    rng: ThreadRng,
}

/// The least sample that the source yields.
pub uninterp spec fn signal_low(source: RandomSignal) -> u64;

/// The bound below which every sample of the source lies.
pub uninterp spec fn signal_high(source: RandomSignal) -> u64;

impl RandomSignal {
    /// The least sample that the source yields.
    pub open spec fn lower(&self) -> u64 {
        signal_low(*self)
    }

    /// The bound below which every sample lies.
    pub open spec fn upper(&self) -> u64 {
        signal_high(*self)
    }

    /// `Uniform::new` and `rand::rng`: a source of samples from
    /// `lower..upper`. The distribution refuses an empty range, which
    /// `requires` leaves out.
    #[verifier::external_body]
    pub fn new(lower: u64, upper: u64) -> (r: RandomSignal)
        requires
            lower < upper,
        ensures
            signal_low(r) == lower,
            signal_high(r) == upper,
    {
        RandomSignal {
            distribution: Uniform::new(lower, upper).expect("invalid range"),
            rng: rand::rng(),
        }
    }

    /// `Distribution::sample`: the next sample. There always is one; which
    /// one is up to chance, and it lies in the source's range.
    #[verifier::external_body]
    pub fn next(&mut self) -> (r: Option<u64>)
        ensures
            r matches Some(value) && signal_low(*old(self)) <= value < signal_high(*old(self)),
            signal_low(*final(self)) == signal_low(*old(self)),
            signal_high(*final(self)) == signal_high(*old(self)),
    {
        Some(rand::distr::Distribution::sample(&self.distribution, &mut self.rng))
    }
}

/// Whether every sample lies in `low..high`.
pub open spec fn all_within(samples: Seq<u64>, low: u64, high: u64) -> bool {
    forall|i: int| 0 <= i < samples.len() ==> low <= #[trigger] samples[i] < high
}

/// Drops as many of the oldest points as there are fresh ones and appends
/// the fresh ones.
pub fn shift_in(points: &mut Vec<u64>, fresh: Vec<u64>)
    requires
        fresh@.len() <= old(points)@.len(),
    ensures
        final(points)@ == old(points)@.skip(fresh@.len() as int) + fresh@,
{
    let mut fresh = fresh;
    let mut kept = points.split_off(fresh.len());
    kept.append(&mut fresh);
    *points = kept;
}

/// A window of points that slides by a fixed number of points per tick.
pub struct Signal {
    source: RandomSignal,
    points: Vec<u64>,
    tick_rate: usize,
}

impl Signal {
    /// The number of points by which the window slides per tick.
    pub closed spec fn rate(&self) -> usize {
        self.tick_rate
    }

    /// The points of the window, oldest first.
    pub closed spec fn window(&self) -> Seq<u64> {
        self.points@
    }

    /// The source of the window's points.
    pub closed spec fn source(&self) -> RandomSignal {
        self.source
    }

    /// A window of `count` samples of `source`.
    pub fn new(source: RandomSignal, count: usize, tick_rate: usize) -> (r: Signal)
        ensures
            r.window().len() == count,
            all_within(r.window(), source.lower(), source.upper()),
            r.rate() == tick_rate,
            r.source().lower() == source.lower(),
            r.source().upper() == source.upper(),
    {
        let mut source = source;
        let points = draw(&mut source, count);
        Signal { source, points, tick_rate }
    }

    /// The points of the window, oldest first.
    pub fn points(&self) -> (r: &Vec<u64>)
        ensures
            r@ == self.window(),
    {
        &self.points
    }

    /// The number of points by which the window slides per tick.
    pub fn tick_rate(&self) -> (r: usize)
        ensures
            r == self.rate(),
    {
        self.tick_rate
    }

    /// Slides the window: the oldest points leave, as many fresh samples
    /// enter at the end.
    pub fn on_tick(&mut self)
        requires
            old(self).rate() <= old(self).window().len(),
        ensures
            final(self).rate() == old(self).rate(),
            final(self).source().lower() == old(self).source().lower(),
            final(self).source().upper() == old(self).source().upper(),
            final(self).window().len() == old(self).window().len(),
            final(self).window().subrange(0, old(self).window().len() - old(self).rate()) == old(self).window().skip(
                old(self).rate() as int,
            ),
            all_within(
                final(self).window().skip(old(self).window().len() - old(self).rate()),
                old(self).source().lower(),
                old(self).source().upper(),
            ),
    {
        let fresh = draw(&mut self.source, self.tick_rate);
        let ghost kept = self.points@.skip(self.tick_rate as int);
        shift_in(&mut self.points, fresh);
        assert(self.points@.subrange(0, kept.len() as int) == kept);
        assert(self.points@.skip(kept.len() as int) == fresh@);
    }
}

/// Draws `count` samples.
fn draw(source: &mut RandomSignal, count: usize) -> (r: Vec<u64>)
    ensures
        r@.len() == count,
        all_within(r@, old(source).lower(), old(source).upper()),
        final(source).lower() == old(source).lower(),
        final(source).upper() == old(source).upper(),
{
    let mut samples: Vec<u64> = Vec::new();
    let mut i: usize = 0;
    while i < count
        invariant
            i <= count,
            samples@.len() == i,
            all_within(samples@, old(source).lower(), old(source).upper()),
            source.lower() == old(source).lower(),
            source.upper() == old(source).upper(),
        decreases count - i,
    {
        let value = source.next().unwrap();
        samples.push(value);
        i += 1;
    }
    samples
}

} // verus!
