//! The two native routines: what call data each answers to, and with what.

use vstd::prelude::*;
use crate::abi::{
    be_bytes, be_value, decode_tail, encode_word, has_selector, lemma_be_bytes_len,
    lemma_be_round_trip, lemma_pow256_u64, starts_with, tail_value, word_of,
};
use crate::selector::SelectorTable;

verus! {

/// The constant that the read routine returns.
pub const READ_VALUE: u64 = 100;

/// Least length of a `setNum` call: the selector and one argument word.
pub const SET_NUM_MIN_LEN: usize = 36;

/// What a routine hands back: always a success, with the gas it charged and
/// the bytes it returns.
#[derive(Clone, Debug)]
pub struct RoutineOutput {
    /// Gas charged for the call.
    pub gas_used: u64,
    /// Returned bytes: empty, or one ABI word.
    pub bytes: Vec<u8>,
}

impl RoutineOutput {
    /// A free call that returns nothing.
    pub fn empty() -> (out: Self)
        ensures
            out.gas_used == 0,
            out.bytes@ == Seq::<u8>::empty(),
    {
        RoutineOutput { gas_used: 0, bytes: Vec::new() }
    }

    /// A free call that returns `value` as one ABI word.
    pub fn word(value: u64) -> (out: Self)
        ensures
            out.gas_used == 0,
            out.bytes@ == word_of(value),
    {
        RoutineOutput { gas_used: 0, bytes: encode_word(value) }
    }
}

/// The bytes the read routine returns for `data`.
pub open spec fn read_reply(table: SelectorTable, data: Seq<u8>) -> Seq<u8> {
    if starts_with(data, table.read@) {
        word_of(READ_VALUE)
    } else {
        Seq::<u8>::empty()
    }
}

/// The read routine: the word of `READ_VALUE` for a `read()` call, nothing
/// for any other call data. It never fails and charges no gas.
pub fn read_routine(table: &SelectorTable, data: &[u8]) -> (out: RoutineOutput)
    ensures
        out.gas_used == 0,
        out.bytes@ == read_reply(*table, data@),
{
    if has_selector(data, &table.read) {
        RoutineOutput::word(READ_VALUE)
    } else {
        RoutineOutput::empty()
    }
}

/// One call of the counter routine, decoded.
#[derive(Clone, Copy, Debug, PartialEq, Eq, Structural)]
pub enum CounterCall {
    /// `setNum(uint64)` with its argument.
    SetNum(u64),
    /// `getNum()`.
    GetNum,
    /// Anything else: answered with nothing.
    Other,
}

/// How the counter routine reads `data`. A `setNum` call is the selector and
/// at least one argument word, the value being the last 8 bytes of the data;
/// a `setNum` selector on shorter data is no `setNum` call.
pub open spec fn counter_call_of(table: SelectorTable, data: Seq<u8>) -> CounterCall {
    if starts_with(data, table.set_num@) && data.len() >= SET_NUM_MIN_LEN {
        CounterCall::SetNum(tail_value(data) as u64)
    } else if starts_with(data, table.get_num@) {
        CounterCall::GetNum
    } else {
        CounterCall::Other
    }
}

/// Decodes the call data of the counter routine.
pub fn decode_counter_call(table: &SelectorTable, data: &[u8]) -> (call: CounterCall)
    ensures
        call == counter_call_of(*table, data@),
{
    if has_selector(data, &table.set_num) && data.len() >= SET_NUM_MIN_LEN {
        CounterCall::SetNum(decode_tail(data))
    } else if has_selector(data, &table.get_num) {
        CounterCall::GetNum
    } else {
        CounterCall::Other
    }
}

/// The counter's value after `call`, given its value before.
pub open spec fn counter_next(value: u64, call: CounterCall) -> u64 {
    match call {
        CounterCall::SetNum(stored) => stored,
        _ => value,
    }
}

/// The bytes the counter routine returns for `call` when the counter holds `value`.
pub open spec fn counter_reply(value: u64, call: CounterCall) -> Seq<u8> {
    match call {
        CounterCall::GetNum => word_of(value),
        _ => Seq::<u8>::empty(),
    }
}

/// The counter's value after a run of calls that take effect one after another.
pub open spec fn counter_after(start: u64, calls: Seq<CounterCall>) -> u64
    decreases calls.len(),
{
    if calls.len() == 0 {
        start
    } else {
        counter_next(counter_after(start, calls.drop_last()), calls.last())
    }
}

/// The word of the read routine's constant is 31 zero bytes and the byte 100.
pub proof fn law_read_word()
    ensures
        word_of(READ_VALUE) == Seq::new(31, |i: int| 0u8).push(100u8),
{
    reveal_with_fuel(be_bytes, 9);
    assert(be_bytes(100, 8) =~= seq![0u8, 0u8, 0u8, 0u8, 0u8, 0u8, 0u8, 100u8]);
    assert(word_of(READ_VALUE) =~= Seq::new(31, |i: int| 0u8).push(100u8));
}

/// The read routine answers call data that begins with the `read()` selector,
/// the bare selector included, with the word of 100, and everything else,
/// empty call data included, with nothing.
pub proof fn law_read_dispatch(table: SelectorTable, data: Seq<u8>)
    ensures
        read_reply(table, table.read@) == Seq::new(31, |i: int| 0u8).push(100u8),
        starts_with(data, table.read@) ==> read_reply(table, data) == Seq::new(
            31,
            |i: int| 0u8,
        ).push(100u8),
        !starts_with(data, table.read@) ==> read_reply(table, data) == Seq::<u8>::empty(),
        read_reply(table, Seq::<u8>::empty()) == Seq::<u8>::empty(),
{
    law_read_word();
    assert(table.read@.subrange(0, 4) =~= table.read@);
}

/// A word holds its value in the last 8 bytes, after 24 zero bytes.
pub proof fn law_word_layout(value: u64)
    ensures
        word_of(value).len() == 32,
        forall|i: int| 0 <= i < 24 ==> word_of(value)[i] == 0u8,
        word_of(value).subrange(24, 32) == be_bytes(value as nat, 8),
        be_value(word_of(value).subrange(24, 32)) == value,
{
    lemma_be_bytes_len(value as nat, 8);
    lemma_pow256_u64();
    lemma_be_round_trip(value as nat, 8);
    assert(word_of(value).subrange(24, 32) =~= be_bytes(value as nat, 8));
}

/// A `setNum` call with `value` in its last 8 bytes returns nothing, and a
/// `getNum` call that follows it returns the word of `value`, whatever the
/// counter held before. The last premise rules out `getNum` data that the
/// routine would read as a `setNum` call, which takes equal selectors.
pub proof fn law_set_then_get(
    table: SelectorTable,
    start: u64,
    value: u64,
    set_data: Seq<u8>,
    get_data: Seq<u8>,
)
    requires
        starts_with(set_data, table.set_num@),
        set_data.len() >= SET_NUM_MIN_LEN,
        set_data.subrange(set_data.len() - 8, set_data.len() as int) == be_bytes(value as nat, 8),
        starts_with(get_data, table.get_num@),
        table.unambiguous() || get_data.len() < SET_NUM_MIN_LEN,
    ensures
        counter_call_of(table, set_data) == CounterCall::SetNum(value),
        counter_call_of(table, get_data) == CounterCall::GetNum,
        counter_reply(start, counter_call_of(table, set_data)) == Seq::<u8>::empty(),
        counter_reply(
            counter_next(start, counter_call_of(table, set_data)),
            counter_call_of(table, get_data),
        ) == word_of(value),
        word_of(value).len() == 32,
        forall|i: int| 0 <= i < 24 ==> word_of(value)[i] == 0u8,
        word_of(value).subrange(24, 32) == be_bytes(value as nat, 8),
{
    lemma_pow256_u64();
    lemma_be_round_trip(value as nat, 8);
    law_word_layout(value);
    if starts_with(get_data, table.set_num@) {
        assert(table.set_num@ =~= table.get_num@);
    }
}

/// After any run of calls the counter holds the value it started with or the
/// argument of a `setNum` call of the run, so a `getNum` call that comes next
/// returns the word of one of those and of nothing else.
pub proof fn law_get_sees_start_or_stored(start: u64, calls: Seq<CounterCall>)
    ensures
        counter_reply(counter_after(start, calls), CounterCall::GetNum) == word_of(
            counter_after(start, calls),
        ),
        counter_after(start, calls) == start || exists|i: int|
            0 <= i < calls.len() && calls[i] == CounterCall::SetNum(counter_after(start, calls)),
    decreases calls.len(),
{
    if calls.len() > 0 {
        let before = calls.drop_last();
        law_get_sees_start_or_stored(start, before);
        let held = counter_after(start, calls);
        match calls.last() {
            CounterCall::SetNum(stored) => {
                assert(calls[calls.len() - 1] == CounterCall::SetNum(held));
            },
            _ => {
                if held != start {
                    let i = choose|i: int|
                        0 <= i < before.len() && before[i] == CounterCall::SetNum(held);
                    assert(calls[i] == CounterCall::SetNum(held));
                }
            },
        }
    }
}

} // verus!
