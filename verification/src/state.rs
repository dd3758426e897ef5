//! The counter routine's state: one `u64`, shared by every call.

use vstd::prelude::*;
use std::sync::atomic::AtomicU64;
use std::sync::atomic::Ordering;
use crate::routine::{counter_reply, CounterCall, RoutineOutput};

verus! {

/// The cell behind the counter routine.
///
/// It starts at zero and is read and written with sequentially consistent
/// atomic operations only, so calls from several threads take effect one
/// after another and a load sees a whole stored value. What a load returns
/// depends on the other holders of the cell, so contracts here state what
/// holds for every value it may return.
pub struct CounterState {
    cell: AtomicU64,
}

impl CounterState {
    /// A fresh cell holding zero.
    pub fn new() -> (state: Self) {
        CounterState { cell: AtomicU64::new(0) }
    }

    /// The value stored last.
    fn load(&self) -> (value: u64) {
        self.cell.load(Ordering::SeqCst)
    }

    /// Replaces the stored value.
    fn store(&self, value: u64) {
        self.cell.store(value, Ordering::SeqCst)
    }

    /// Carries out one decoded call of the counter routine: a `setNum` stores
    /// its argument and returns nothing, a `getNum` returns the word of the
    /// value it loads, any other call returns nothing and leaves the cell
    /// alone. No call fails or charges gas.
    pub fn apply(&self, call: CounterCall) -> (out: RoutineOutput)
        ensures
            out.gas_used == 0,
            exists|value: u64| out.bytes@ == counter_reply(value, call),
            call != CounterCall::GetNum ==> out.bytes@ == Seq::<u8>::empty(),
    {
        match call {
            CounterCall::SetNum(stored) => {
                self.store(stored);
                let out = RoutineOutput::empty();
                assert(out.bytes@ == counter_reply(stored, call));
                out
            },
            CounterCall::GetNum => {
                let value = self.load();
                let out = RoutineOutput::word(value);
                assert(out.bytes@ == counter_reply(value, call));
                out
            },
            CounterCall::Other => {
                let out = RoutineOutput::empty();
                assert(out.bytes@ == counter_reply(0u64, call));
                out
            },
        }
    }
}

} // verus!
