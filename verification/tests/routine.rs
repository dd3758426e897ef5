use precompile_registry::routine::{
    decode_counter_call, read_routine, CounterCall, RoutineOutput, READ_VALUE, SET_NUM_MIN_LEN,
};
use precompile_registry::selector::SelectorTable;
use precompile_registry::state::CounterState;

fn set_num_data(table: &SelectorTable, value: u64) -> Vec<u8> {
    let mut data = table.set_num.to_vec();
    data.extend_from_slice(&[0u8; 24]);
    data.extend_from_slice(&value.to_be_bytes());
    data
}

fn word(value: u64) -> Vec<u8> {
    let mut bytes = vec![0u8; 24];
    bytes.extend_from_slice(&value.to_be_bytes());
    bytes
}

#[test]
fn read_with_bare_selector_returns_word_of_100() {
    let table = SelectorTable::compute();
    let out = read_routine(&table, &[0x57, 0xde, 0x26, 0xa4]);
    let mut expected = vec![0u8; 31];
    expected.push(100);
    assert_eq!(out.bytes, expected);
    assert_eq!(out.gas_used, 0);
    assert_eq!(READ_VALUE, 100);
}

#[test]
fn read_with_trailing_bytes_still_answers() {
    let table = SelectorTable::compute();
    let out = read_routine(&table, &[0x57, 0xde, 0x26, 0xa4, 1, 2, 3]);
    assert_eq!(out.bytes, word(100));
}

#[test]
fn read_with_empty_input_returns_nothing() {
    let table = SelectorTable::compute();
    let out = read_routine(&table, &[]);
    assert!(out.bytes.is_empty());
    assert_eq!(out.gas_used, 0);
}

#[test]
fn read_with_short_input_returns_nothing() {
    let table = SelectorTable::compute();
    assert!(read_routine(&table, &[0x57]).bytes.is_empty());
    assert!(read_routine(&table, &[0x57, 0xde, 0x26]).bytes.is_empty());
}

#[test]
fn read_with_other_selector_returns_nothing() {
    let table = SelectorTable::compute();
    assert!(read_routine(&table, &[0x57, 0xde, 0x26, 0xa5]).bytes.is_empty());
    assert!(read_routine(&table, &table.get_num).bytes.is_empty());
    assert!(read_routine(&table, &set_num_data(&table, 5)).bytes.is_empty());
    assert_eq!(read_routine(&table, &[0xff; 64]).gas_used, 0);
}

#[test]
fn read_follows_the_table_it_is_given() {
    let table = SelectorTable { read: [1, 2, 3, 4], set_num: [5, 5, 5, 5], get_num: [6, 6, 6, 6] };
    assert_eq!(read_routine(&table, &[1, 2, 3, 4]).bytes, word(100));
    assert!(read_routine(&table, &[0x57, 0xde, 0x26, 0xa4]).bytes.is_empty());
}

#[test]
fn set_num_is_decoded_from_the_last_eight_bytes() {
    let table = SelectorTable::compute();
    assert_eq!(decode_counter_call(&table, &set_num_data(&table, 42)), CounterCall::SetNum(42));
    assert_eq!(
        decode_counter_call(&table, &set_num_data(&table, u64::MAX)),
        CounterCall::SetNum(u64::MAX)
    );
    let mut long = set_num_data(&table, 1);
    long.extend_from_slice(&[0u8; 24]);
    long.extend_from_slice(&77u64.to_be_bytes());
    assert_eq!(decode_counter_call(&table, &long), CounterCall::SetNum(77));
}

#[test]
fn set_num_shorter_than_36_bytes_is_no_call() {
    let table = SelectorTable::compute();
    let mut data = set_num_data(&table, 42);
    data.pop();
    assert_eq!(data.len(), SET_NUM_MIN_LEN - 1);
    assert_eq!(decode_counter_call(&table, &data), CounterCall::Other);
    assert_eq!(decode_counter_call(&table, &table.set_num), CounterCall::Other);
}

#[test]
fn get_num_is_decoded_from_the_selector() {
    let table = SelectorTable::compute();
    assert_eq!(decode_counter_call(&table, &table.get_num), CounterCall::GetNum);
    let mut data = table.get_num.to_vec();
    data.extend_from_slice(&[7u8; 40]);
    assert_eq!(decode_counter_call(&table, &data), CounterCall::GetNum);
}

#[test]
fn unknown_counter_input_is_other() {
    let table = SelectorTable::compute();
    assert_eq!(decode_counter_call(&table, &[]), CounterCall::Other);
    assert_eq!(decode_counter_call(&table, &[1, 2, 3]), CounterCall::Other);
    assert_eq!(decode_counter_call(&table, &table.read), CounterCall::Other);
    assert_eq!(decode_counter_call(&table, &[0xab; 36]), CounterCall::Other);
}

#[test]
fn set_num_wins_over_get_num_on_equal_selectors() {
    let table = SelectorTable { read: [1, 1, 1, 1], set_num: [9, 9, 9, 9], get_num: [9, 9, 9, 9] };
    assert_eq!(decode_counter_call(&table, &[9, 9, 9, 9]), CounterCall::GetNum);
    assert_eq!(decode_counter_call(&table, &set_num_data(&table, 3)), CounterCall::SetNum(3));
}

#[test]
fn output_constructors() {
    let empty = RoutineOutput::empty();
    assert_eq!(empty.gas_used, 0);
    assert!(empty.bytes.is_empty());
    let out = RoutineOutput::word(42);
    assert_eq!(out.gas_used, 0);
    assert_eq!(out.bytes, word(42));
}

#[test]
fn fresh_counter_holds_zero() {
    let state = CounterState::new();
    assert_eq!(state.apply(CounterCall::GetNum).bytes, vec![0u8; 32]);
}

#[test]
fn set_then_get_returns_the_value() {
    let state = CounterState::new();
    let set = state.apply(CounterCall::SetNum(42));
    assert!(set.bytes.is_empty());
    assert_eq!(set.gas_used, 0);
    let get = state.apply(CounterCall::GetNum);
    assert_eq!(get.gas_used, 0);
    assert_eq!(get.bytes.len(), 32);
    assert_eq!(&get.bytes[..24], &[0u8; 24]);
    assert_eq!(&get.bytes[24..], &42u64.to_be_bytes());
}

#[test]
fn get_sees_the_latest_set() {
    let state = CounterState::new();
    state.apply(CounterCall::SetNum(1));
    state.apply(CounterCall::SetNum(u64::MAX));
    assert_eq!(state.apply(CounterCall::GetNum).bytes, word(u64::MAX));
    state.apply(CounterCall::SetNum(7));
    assert_eq!(state.apply(CounterCall::GetNum).bytes, word(7));
    assert_eq!(state.apply(CounterCall::GetNum).bytes, word(7));
}

#[test]
fn other_call_leaves_the_counter_alone() {
    let state = CounterState::new();
    state.apply(CounterCall::SetNum(9));
    let out = state.apply(CounterCall::Other);
    assert!(out.bytes.is_empty());
    assert_eq!(out.gas_used, 0);
    assert_eq!(state.apply(CounterCall::GetNum).bytes, word(9));
}

#[test]
fn independent_cells_do_not_share_state() {
    let first = CounterState::new();
    let second = CounterState::new();
    first.apply(CounterCall::SetNum(5));
    assert_eq!(second.apply(CounterCall::GetNum).bytes, word(0));
    assert_eq!(first.apply(CounterCall::GetNum).bytes, word(5));
}
