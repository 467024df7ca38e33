//! The statistics that a channel reports, and the readings it hands out.

use vstd::prelude::*;

verus! {

/// The largest share that a percentile can name: all of the samples.
pub const MILLION: u32 = 1_000_000;

/// A share of the samples, in parts per million: the median is 500 000,
/// the 99.9th percentile 999 000. Two percentiles are the same if they name
/// the same share.
#[derive(Clone, Copy, Debug, PartialEq, Eq, Hash, Structural)]
pub struct Percentile {
    ppm: u32,
}

impl View for Percentile {
    type V = nat;

    closed spec fn view(&self) -> nat {
        self.ppm as nat
    }
}

impl Percentile {
    #[verifier::type_invariant]
    spec fn in_range(self) -> bool {
        self.ppm <= MILLION
    }

    /// The percentile of `ppm` parts per million, if there is one.
    pub fn new(ppm: u32) -> (r: Option<Percentile>)
        ensures
            r.is_some() <==> ppm <= MILLION,
            r matches Some(p) ==> p@ == ppm,
    {
        if ppm <= MILLION {
            Some(Percentile { ppm })
        } else {
            None
        }
    }

    /// The share in parts per million.
    pub fn ppm(&self) -> (r: u32)
        ensures
            r == self@,
            r <= MILLION,
    {
        proof {
            use_type_invariant(self);
        }
        self.ppm
    }

    /// Percentiles of the same share are the same percentile.
    pub proof fn same_share_same_percentile(self, other: Percentile)
        requires
            self@ == other@,
        ensures
            self == other,
    {
    }
}

/// A statistic that a consumer wants of a channel.
#[derive(Clone, Copy, Debug, PartialEq, Eq, Hash, Structural)]
pub enum Output {
    /// The running counter.
    Counter,
    /// The time at which the largest observation was made.
    MaxPointTime,
    /// The time at which the smallest observation was made.
    MinPointTime,
    /// The value below which the given share of the samples lies.
    Percentile(Percentile),
}

/// What a [`Reading`] holds.
pub struct ReadingView {
    pub name: Seq<char>,
    pub output: Output,
    pub value: u64,
}

/// The value of one statistic of one channel at the time of a snapshot.
#[derive(Debug)]
pub struct Reading {
    name: String,
    output: Output,
    value: u64,
}

impl View for Reading {
    type V = ReadingView;

    closed spec fn view(&self) -> ReadingView {
        ReadingView { name: self.name@, output: self.output, value: self.value }
    }
}

impl Clone for Reading {
    fn clone(&self) -> (copy: Reading)
        ensures
            copy@ == self@,
    {
        Reading { name: self.name.clone(), output: self.output, value: self.value }
    }
}

/// What each of `readings` holds.
pub open spec fn views_of(readings: Seq<Reading>) -> Seq<ReadingView> {
    readings.map_values(|reading: Reading| reading@)
}

impl Reading {
    pub fn new(name: String, output: Output, value: u64) -> (r: Reading)
        ensures
            r@ == (ReadingView { name: name@, output, value }),
    {
        Reading { name, output, value }
    }

    /// The name of the channel that was read.
    pub fn name(&self) -> (r: String)
        ensures
            r@ == self@.name,
    {
        self.name.clone()
    }

    pub fn output(&self) -> (r: Output)
        ensures
            r == self@.output,
    {
        self.output
    }

    pub fn value(&self) -> (r: u64)
        ensures
            r == self@.value,
    {
        self.value
    }
}

} // verus!
