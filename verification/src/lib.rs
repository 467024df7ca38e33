//! The recording core of a metrics library.
//!
//! A [`Channel`] is the aggregator of one metric. It takes raw
//! [`Measurement`]s and keeps what consumers ask for: a running counter, the
//! points of the largest and smallest observation, and the set of statistics
//! to report. The histogram that backs percentiles belongs to the caller: the
//! channel says through a [`HistogramAction`] what the histogram is owed, and
//! takes the histogram's answers when a snapshot is made.
//!
//! A channel is a plain value: recording takes it by `&mut`, never fails and
//! never waits. Sharing one between threads is the caller's business; the
//! module [`atomic_primitive`] has the interface to the atomic integers that
//! such a caller builds on.
//!
//! The module [`laws`] holds what is true of a channel whatever it is fed.

pub mod atomic_primitive;
pub mod channel;
pub mod count;
pub mod laws;
pub mod measurement;
pub mod output;
pub mod point;
pub mod rate;

pub use atomic_primitive::{held_before, previous, AtomicPrimitive, MemoryOrder};
pub use channel::{answer_for, other_than, Channel, ChannelView};
pub use count::Count;
pub use measurement::{total_count, HistogramAction, Measurement, Source};
pub use output::{views_of, Output, Percentile, Reading, ReadingView, MILLION};
pub use point::Point;
pub use rate::{rate, rate_per_second, NANOS_PER_SECOND};
