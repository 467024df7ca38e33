//! One interface for the atomic integers of every width.
//!
//! Code that is written against [`AtomicPrimitive`] works with any atomic
//! integer. What a cell holds depends on what other threads do to it, so the
//! contracts here say nothing of what a cell held. They say which memory
//! orders an operation takes, so that no call can fail at run time, and what
//! the outcome of an exchange tells of the value that was expected.

use core::sync::atomic::{AtomicI8, Ordering};
use vstd::prelude::*;

verus! {

/// The memory orders of the atomic operations.
#[derive(Clone, Copy, Debug, PartialEq, Eq, Structural)]
pub enum MemoryOrder {
    Relaxed,
    Release,
    Acquire,
    AcqRel,
    SeqCst,
}

impl MemoryOrder {
    /// Whether a load can be made in this order: a load releases nothing.
    pub open spec fn loads(self) -> bool {
        self != MemoryOrder::Release && self != MemoryOrder::AcqRel
    }

    /// Whether a store can be made in this order: a store acquires nothing.
    pub open spec fn stores(self) -> bool {
        self != MemoryOrder::Acquire && self != MemoryOrder::AcqRel
    }

    /// The strongest order in which the load of a failed exchange can be
    /// made, the exchange itself being made in this order.
    pub open spec fn on_failure(self) -> MemoryOrder {
        match self {
            MemoryOrder::Relaxed => MemoryOrder::Relaxed,
            MemoryOrder::Release => MemoryOrder::Relaxed,
            MemoryOrder::Acquire => MemoryOrder::Acquire,
            MemoryOrder::AcqRel => MemoryOrder::Acquire,
            MemoryOrder::SeqCst => MemoryOrder::SeqCst,
        }
    }

    /// Computes [`on_failure`](MemoryOrder::on_failure).
    pub fn failure_order(self) -> (order: MemoryOrder)
        ensures
            order == self.on_failure(),
            order.loads(),
    {
        match self {
            MemoryOrder::Relaxed => MemoryOrder::Relaxed,
            MemoryOrder::Release => MemoryOrder::Relaxed,
            MemoryOrder::Acquire => MemoryOrder::Acquire,
            MemoryOrder::AcqRel => MemoryOrder::Acquire,
            MemoryOrder::SeqCst => MemoryOrder::SeqCst,
        }
    }

    /// The order as the standard library names it.
    pub open spec fn std_order(self) -> Ordering {
        match self {
            MemoryOrder::Relaxed => Ordering::Relaxed,
            MemoryOrder::Release => Ordering::Release,
            MemoryOrder::Acquire => Ordering::Acquire,
            MemoryOrder::AcqRel => Ordering::AcqRel,
            MemoryOrder::SeqCst => Ordering::SeqCst,
        }
    }

    /// Computes [`std_order`](MemoryOrder::std_order).
    pub fn to_std(self) -> (order: Ordering)
        ensures
            order == self.std_order(),
    {
        match self {
            MemoryOrder::Relaxed => Ordering::Relaxed,
            MemoryOrder::Release => Ordering::Release,
            MemoryOrder::Acquire => Ordering::Acquire,
            MemoryOrder::AcqRel => Ordering::AcqRel,
            MemoryOrder::SeqCst => Ordering::SeqCst,
        }
    }
}

/// An atomic integer of some width.
pub trait AtomicPrimitive {
    /// The integer that the cell holds.
    type Primitive;

    /// The integer itself, for one who holds the cell alone.
    fn get_mut(&mut self) -> &mut Self::Primitive;

    /// Gives up the cell for the integer in it.
    fn into_inner(self) -> Self::Primitive;

    /// Reads the cell.
    fn load(&self, order: MemoryOrder) -> Self::Primitive
        requires
            order.loads(),
    ;

    /// Writes the cell.
    fn store(&self, value: Self::Primitive, order: MemoryOrder)
        requires
            order.stores(),
    ;

    /// Writes the cell and returns what it held.
    fn swap(&self, value: Self::Primitive, order: MemoryOrder) -> Self::Primitive;

    /// Writes `new` if the cell holds `current`, and returns what it held,
    /// whether it wrote or not.
    fn compare_and_swap(
        &self,
        current: Self::Primitive,
        new: Self::Primitive,
        order: MemoryOrder,
    ) -> Self::Primitive;

    /// Writes `new` if the cell holds `current`: `Ok` with what it held if it
    /// wrote, `Err` with what it holds if not. The load of a failed exchange
    /// is made in the order `failure`.
    ///
    /// What the cell held is for other threads to decide. What the outcome
    /// says of it is fixed: it wrote only over `current`, and it left the
    /// cell alone only where it held something else.
    fn compare_exchange(
        &self,
        current: Self::Primitive,
        new: Self::Primitive,
        success: MemoryOrder,
        failure: MemoryOrder,
    ) -> (outcome: Result<Self::Primitive, Self::Primitive>)
        requires
            failure.loads(),
        ensures
            outcome matches Ok(previous) ==> previous == current,
            outcome matches Err(actual) ==> actual != current,
    ;

    /// As [`compare_exchange`](AtomicPrimitive::compare_exchange), but may
    /// fail though the cell holds `current`: it is for use in a loop. Where
    /// it wrote, it wrote over `current`.
    fn compare_exchange_weak(
        &self,
        current: Self::Primitive,
        new: Self::Primitive,
        success: MemoryOrder,
        failure: MemoryOrder,
    ) -> (outcome: Result<Self::Primitive, Self::Primitive>)
        requires
            failure.loads(),
        ensures
            outcome matches Ok(previous) ==> previous == current,
    ;
}

/// What the cell held before an exchange, whether the exchange wrote or not.
pub open spec fn held_before<T>(outcome: Result<T, T>) -> T {
    match outcome {
        Ok(previous) => previous,
        Err(actual) => actual,
    }
}

/// Computes [`held_before`].
pub fn previous<T>(outcome: Result<T, T>) -> (held: T)
    ensures
        held == held_before(outcome),
{
    match outcome {
        Ok(previous) => previous,
        Err(actual) => actual,
    }
}

/// Whether the load of a failed exchange can be made in `order`, as the
/// standard library names the orders.
spec fn loads_on_failure(order: Ordering) -> bool {
    order != Ordering::Release && order != Ordering::AcqRel
}

/// `AtomicI8::compare_exchange` of the standard library. Its documentation
/// says that it stores `new` if the cell holds `current`, that the result
/// holds the previous value, and that on success this value is equal to
/// `current`. So `Ok` holds `current`, and `Err`, the cell not having held
/// `current`, holds something else. The orders that it refuses for the
/// failed load are left out.
#[verifier::external_body]
fn exchange(
    atomic: &AtomicI8,
    current: i8,
    new: i8,
    success: Ordering,
    failure: Ordering,
) -> (outcome: Result<i8, i8>)
    requires
        loads_on_failure(failure),
    ensures
        outcome matches Ok(previous) ==> previous == current,
        outcome matches Err(actual) ==> actual != current,
{
    atomic.compare_exchange(current, new, success, failure)
}

/// `AtomicI8::compare_exchange_weak` of the standard library. Its
/// documentation says that it stores `new` if the cell holds `current`, that
/// it may fail though the cell does, and that the result says whether it
/// wrote and holds the previous value. So `Ok` holds `current`, and nothing
/// is claimed of `Err`. The orders that it refuses for the failed load are
/// left out.
#[verifier::external_body]
fn exchange_weak(
    atomic: &AtomicI8,
    current: i8,
    new: i8,
    success: Ordering,
    failure: Ordering,
) -> (outcome: Result<i8, i8>)
    requires
        loads_on_failure(failure),
    ensures
        outcome matches Ok(previous) ==> previous == current,
{
    atomic.compare_exchange_weak(current, new, success, failure)
}

/// `AtomicI8::get_mut` of the standard library: the integer of a cell that
/// is held alone. Nothing is claimed of it.
#[verifier::external_body]
fn integer_mut(atomic: &mut AtomicI8) -> (value: &mut i8) {
    atomic.get_mut()
}

/// `AtomicI8::into_inner` of the standard library: the integer of a cell
/// that is given up. Nothing is claimed of it.
#[verifier::external_body]
fn integer_of(atomic: AtomicI8) -> (value: i8) {
    atomic.into_inner()
}

impl AtomicPrimitive for AtomicI8 {
    type Primitive = i8;

    fn get_mut(&mut self) -> &mut i8 {
        integer_mut(self)
    }

    fn into_inner(self) -> i8 {
        integer_of(self)
    }

    fn load(&self, order: MemoryOrder) -> i8 {
        self.load(order.to_std())
    }

    fn store(&self, value: i8, order: MemoryOrder) {
        self.store(value, order.to_std());
    }

    fn swap(&self, value: i8, order: MemoryOrder) -> i8 {
        self.swap(value, order.to_std())
    }

    fn compare_and_swap(&self, current: i8, new: i8, order: MemoryOrder) -> i8 {
        previous(exchange(self, current, new, order.to_std(), order.failure_order().to_std()))
    }

    fn compare_exchange(
        &self,
        current: i8,
        new: i8,
        success: MemoryOrder,
        failure: MemoryOrder,
    ) -> (outcome: Result<i8, i8>) {
        exchange(self, current, new, success.to_std(), failure.to_std())
    }

    fn compare_exchange_weak(
        &self,
        current: i8,
        new: i8,
        success: MemoryOrder,
        failure: MemoryOrder,
    ) -> (outcome: Result<i8, i8>) {
        exchange_weak(self, current, new, success.to_std(), failure.to_std())
    }
}

} // verus!
