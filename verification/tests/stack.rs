use wasm3::signature::{Signature, ValueType};
use wasm3::stack::{available_slots, call_through_stack, pop_from_slot, push_on_slot};
use wasm3::stack::{put_on_stack, retrieve_from_stack, Value};

#[test]
fn available_slots_counts_slots_not_bytes() {
    assert_eq!(available_slots(1024, 0x1000, 0x1000), Some(1024));
    assert_eq!(available_slots(1024, 0x1000, 0x1008), Some(1023));
    assert_eq!(available_slots(1024, 0x1000, 0x1000 + 8 * 24), Some(1000));
    assert_eq!(available_slots(1024, 0x1000, 0x100f), Some(1023));
    assert_eq!(available_slots(1024, 0x1000, 0x1000 + 8 * 1024), Some(0));
    assert_eq!(available_slots(1024, 0x1000, 0x1000 + 8 * 1025), None);
    assert_eq!(available_slots(1024, 0x1000, 0xfff), None);
    assert_eq!(available_slots(0, 0, 0), Some(0));
}

#[test]
fn a_32_bit_value_lies_in_the_low_half() {
    let v = pop_from_slot(ValueType::I32, 0xaaaa_bbbb_cccc_dddd);
    assert_eq!(v, Value { ty: ValueType::I32, bits: 0xcccc_dddd });
    let v = pop_from_slot(ValueType::F32, 0xaaaa_bbbb_3f80_0000);
    assert_eq!(f32::from_bits(v.bits as u32), 1.0f32);
    let v = pop_from_slot(ValueType::I64, 0xaaaa_bbbb_cccc_dddd);
    assert_eq!(v.bits, 0xaaaa_bbbb_cccc_dddd);
    let v = pop_from_slot(ValueType::F64, 2.5f64.to_bits());
    assert_eq!(f64::from_bits(v.bits), 2.5f64);
}

#[test]
fn writing_a_32_bit_value_keeps_the_high_half() {
    let v = Value { ty: ValueType::I32, bits: 55 };
    assert_eq!(push_on_slot(v, 0xaaaa_bbbb_cccc_dddd), 0xaaaa_bbbb_0000_0037);
    let v = Value { ty: ValueType::I64, bits: 55 };
    assert_eq!(push_on_slot(v, 0xaaaa_bbbb_cccc_dddd), 55);
    let v = Value { ty: ValueType::F32, bits: 0xffff_ffff };
    assert_eq!(push_on_slot(v, u64::MAX), u64::MAX);
    assert_eq!(push_on_slot(v, 0), 0xffff_ffff);
}

#[test]
fn what_is_written_is_read_back() {
    for ty in [ValueType::I32, ValueType::I64, ValueType::F32, ValueType::F64] {
        for bits in [0u64, 1, 0x7fff_ffff, 0xffff_ffff] {
            for slot in [0u64, u64::MAX, 0x1234_5678_9abc_def0] {
                let v = Value { ty, bits };
                assert_eq!(pop_from_slot(ty, push_on_slot(v, slot)), v);
            }
        }
    }
}

#[test]
fn arguments_are_read_front_to_back() {
    let contract = Signature::new(vec![ValueType::I32, ValueType::I64, ValueType::F32, ValueType::F64], None);
    let stack = vec![0xffff_ffff_0000_000a, 0xffff_ffff_0000_000b, 0x1_4000_0000, 7, 99];
    let args = retrieve_from_stack(&stack, &contract).unwrap();
    assert_eq!(
        args,
        vec![
            Value { ty: ValueType::I32, bits: 0xa },
            Value { ty: ValueType::I64, bits: 0xffff_ffff_0000_000b },
            Value { ty: ValueType::F32, bits: 0x4000_0000 },
            Value { ty: ValueType::F64, bits: 7 },
        ]
    );
    assert_eq!(retrieve_from_stack(&vec![1, 2, 3], &contract), None);
    assert_eq!(retrieve_from_stack(&vec![], &Signature::new(vec![], None)), Some(vec![]));
}

#[test]
fn the_result_goes_to_the_first_slot() {
    let contract = Signature::new(vec![], Some(ValueType::I32));
    let mut stack = vec![0xffff_ffff_ffff_ffff, 2, 3];
    assert!(put_on_stack(&mut stack, &contract, Some(Value { ty: ValueType::I32, bits: 55 })));
    assert_eq!(stack, vec![0xffff_ffff_0000_0037, 2, 3]);
    assert!(!put_on_stack(&mut stack, &contract, Some(Value { ty: ValueType::I64, bits: 1 })));
    assert!(!put_on_stack(&mut stack, &contract, None));
    assert_eq!(stack, vec![0xffff_ffff_0000_0037, 2, 3]);
    let void = Signature::new(vec![], None);
    assert!(put_on_stack(&mut stack, &void, None));
    assert!(!put_on_stack(&mut stack, &void, Some(Value { ty: ValueType::I32, bits: 1 })));
    assert_eq!(stack, vec![0xffff_ffff_0000_0037, 2, 3]);
    let mut empty: Vec<u64> = vec![];
    assert!(!put_on_stack(&mut empty, &contract, Some(Value { ty: ValueType::I32, bits: 55 })));
    assert!(put_on_stack(&mut empty, &void, None));
}

#[test]
fn the_shim_calls_the_closure_with_the_decoded_arguments() {
    let contract = Signature::new(vec![ValueType::I32, ValueType::I32], Some(ValueType::I32));
    let mut stack = vec![40, 2, 1000];
    let done = call_through_stack(&mut stack, &contract, |args: Vec<Value>| {
        Some(Value { ty: ValueType::I32, bits: args[0].bits + args[1].bits })
    });
    assert!(done);
    assert_eq!(stack, vec![42, 2, 1000]);
}

#[test]
fn a_captured_counter_sees_every_call_in_order() {
    let contract = Signature::new(vec![ValueType::I64], Some(ValueType::I64));
    let mut seen: Vec<u64> = Vec::new();
    for n in 1..=5u64 {
        let mut stack = vec![n, 0];
        let done = call_through_stack(&mut stack, &contract, |args: Vec<Value>| {
            seen.push(args[0].bits);
            Some(Value { ty: ValueType::I64, bits: seen.len() as u64 })
        });
        assert!(done);
        assert_eq!(stack[0], n);
    }
    assert_eq!(seen, vec![1, 2, 3, 4, 5]);
}

#[test]
fn the_shim_does_not_call_on_a_short_stack() {
    let contract = Signature::new(vec![ValueType::I32, ValueType::I32], None);
    let mut stack = vec![1];
    let mut called = false;
    let done = call_through_stack(&mut stack, &contract, |_| {
        called = true;
        None
    });
    assert!(!done);
    assert!(!called);
    assert_eq!(stack, vec![1]);
}

#[test]
fn a_result_of_the_wrong_type_leaves_the_stack() {
    let contract = Signature::new(vec![], Some(ValueType::F64));
    let mut stack = vec![9, 9];
    let done = call_through_stack(&mut stack, &contract, |_| Some(Value { ty: ValueType::F32, bits: 1 }));
    assert!(!done);
    assert_eq!(stack, vec![9, 9]);
    let done = call_through_stack(&mut stack, &contract, |_| Some(Value { ty: ValueType::F64, bits: 1 }));
    assert!(done);
    assert_eq!(stack, vec![1, 9]);
}
