//! Marshalling between the engine's value stack and native values.
//!
//! A stack slot is 64 bits wide. A 32-bit value lies in the low half of its
//! slot and leaves the high half alone; a 64-bit value fills the slot.
//! Floating-point values are carried by their bit patterns.
use vstd::prelude::*;
use crate::signature::{Signature, ValueType};

verus! {

/// The bytes of one stack slot.
pub const SLOT_BYTES: usize = 8;

/// One more than the largest 32-bit pattern.
pub const HALF: u64 = 0x1_0000_0000;

/// A value of one of the engine's primitive types, by its bit pattern.
#[derive(Clone, Copy, Debug, PartialEq, Eq, Structural)]
pub struct Value {
    pub ty: ValueType,
    pub bits: u64,
}

impl Value {
    /// A 32-bit value has no bit set in the high half.
    pub open spec fn wf(self) -> bool {
        self.ty.spec_width() == 4 ==> self.bits < HALF
    }
}

/// The value of type `ty` that the slot holds.
pub open spec fn decode(ty: ValueType, slot: u64) -> Value {
    Value { ty, bits: if ty.spec_width() == 4 { slot % HALF } else { slot } }
}

/// The slot after `value` was written over what it held.
pub open spec fn encode(value: Value, slot: u64) -> u64 {
    if value.ty.spec_width() == 4 {
        ((slot / HALF) * HALF + value.bits % HALF) as u64
    } else {
        value.bits
    }
}

/// The slots between the stack pointer and the end of the stack, where the
/// pointer lies within the stack: the stack's slots less those between its
/// base and the pointer, counted in slots and not in bytes.
pub open spec fn spec_available_slots(stack_slots: u32, stack_base: usize, sp: usize) -> Option<usize> {
    if sp >= stack_base && (sp - stack_base) / (SLOT_BYTES as int) <= stack_slots {
        Some((stack_slots - (sp - stack_base) / (SLOT_BYTES as int)) as usize)
    } else {
        None
    }
}

/// The number of slots that a callee may read and write from the stack
/// pointer on, or `None` where the pointer lies outside the stack.
pub fn available_slots(stack_slots: u32, stack_base: usize, sp: usize) -> (r: Option<usize>)
    ensures
        r == spec_available_slots(stack_slots, stack_base, sp),
{
    if sp < stack_base {
        return None;
    }
    let occupied: usize = (sp - stack_base) / SLOT_BYTES;
    let total: usize = stack_slots as usize;
    if occupied > total {
        None
    } else {
        Some(total - occupied)
    }
}

/// Reads one value of type `ty` from a slot.
pub fn pop_from_slot(ty: ValueType, slot: u64) -> (v: Value)
    ensures
        v == decode(ty, slot),
        v.wf(),
{
    match ty {
        ValueType::I32 | ValueType::F32 => Value { ty, bits: slot % HALF },
        ValueType::I64 | ValueType::F64 => Value { ty, bits: slot },
    }
}

/// Writes one value over a slot.
pub fn push_on_slot(value: Value, slot: u64) -> (s: u64)
    ensures
        s == encode(value, slot),
{
    match value.ty {
        ValueType::I32 | ValueType::F32 => {
            assert((slot / HALF) * HALF + value.bits % HALF <= u64::MAX) by {
                assert(slot / HALF <= 0xffff_ffff);
                assert((slot / HALF) * HALF <= 0xffff_ffff * HALF) by (nonlinear_arith)
                    requires
                        slot / HALF <= 0xffff_ffff,
                ;
            }
            (slot / HALF) * HALF + value.bits % HALF
        },
        ValueType::I64 | ValueType::F64 => value.bits,
    }
}

/// The arguments that a stack holds for a contract: argument `i` lies in
/// slot `i`, read by its declared type.
pub open spec fn spec_args(stack: Seq<u64>, contract: &Signature) -> Seq<Value> {
    Seq::new(contract.args@.len(), |i: int| decode(contract.args@[i], stack[i]))
}

/// Decodes the arguments of `contract` from the stack, front to back, or
/// `None` where the stack holds fewer slots than the contract has arguments.
pub fn retrieve_from_stack(stack: &[u64], contract: &Signature) -> (r: Option<Vec<Value>>)
    ensures
        contract.args@.len() > stack@.len() ==> r.is_none(),
        contract.args@.len() <= stack@.len() ==> r.is_some() && r.unwrap()@ == spec_args(stack@, contract),
{
    let n = contract.args.len();
    if n > stack.len() {
        return None;
    }
    let mut args: Vec<Value> = Vec::new();
    let mut i: usize = 0;
    while i < n
        invariant
            i <= n,
            n == contract.args@.len(),
            n <= stack@.len(),
            args@.len() == i,
            forall|j: int| 0 <= j < i ==> args@[j] == decode(contract.args@[j], stack@[j]),
        decreases n - i,
    {
        args.push(pop_from_slot(contract.args[i], stack[i]));
        i += 1;
    }
    assert(args@ =~= spec_args(stack@, contract));
    Some(args)
}

/// Whether a result is one that the contract declares: none for a contract
/// without a return type, else a value of the return type.
pub open spec fn fits(contract: &Signature, result: Option<Value>) -> bool {
    match (contract.ret, result) {
        (None, None) => true,
        (Some(ty), Some(value)) => value.ty == ty,
        _ => false,
    }
}

/// The stack after a result was put on it: a value goes to the first slot, and
/// nothing else changes.
pub open spec fn spec_put(stack: Seq<u64>, result: Option<Value>) -> Seq<u64> {
    match result {
        Some(value) => stack.update(0, encode(value, stack[0])),
        None => stack,
    }
}

/// Whether the result can be put on the stack: it fits the contract, and a
/// value finds a slot.
pub open spec fn can_put(stack: Seq<u64>, contract: &Signature, result: Option<Value>) -> bool {
    fits(contract, result) && (result.is_some() ==> stack.len() > 0)
}

/// Encodes the result of a call back into the stack. Where the result does
/// not fit the contract, or the stack has no slot for it, the stack is left as
/// it was and `false` is returned.
pub fn put_on_stack(stack: &mut [u64], contract: &Signature, result: Option<Value>) -> (done: bool)
    ensures
        done == can_put(old(stack)@, contract, result),
        done ==> final(stack)@ == spec_put(old(stack)@, result),
        !done ==> final(stack)@ == old(stack)@,
{
    match (contract.ret, result) {
        (None, None) => true,
        (Some(ty), Some(value)) => {
            if value.ty != ty || stack.len() == 0 {
                false
            } else {
                let slot = push_on_slot(value, stack[0]);
                stack[0] = slot;
                assert(stack@ =~= spec_put(old(stack)@, result));
                true
            }
        },
        _ => false,
    }
}

/// The marshalling shim: decodes the arguments of `contract` from the stack,
/// calls `closure` with them and encodes its result back into the stack.
/// Returns whether the call was made and its result put on the stack. The
/// closure is not called on a stack that is too short for the arguments, and
/// a result that cannot be put leaves the stack as it was.
pub fn call_through_stack<F: FnOnce(Vec<Value>) -> Option<Value>>(
    stack: &mut [u64],
    contract: &Signature,
    closure: F,
) -> (done: bool)
    requires
        forall|args: Vec<Value>| args@ == spec_args(old(stack)@, contract) ==> closure.requires((args,)),
    ensures
        contract.args@.len() > old(stack)@.len() ==> !done && final(stack)@ == old(stack)@,
        contract.args@.len() <= old(stack)@.len() ==> exists|args: Vec<Value>, result: Option<Value>|
            {
                &&& args@ == spec_args(old(stack)@, contract)
                &&& #[trigger] closure.ensures((args,), result)
                &&& done == can_put(old(stack)@, contract, result)
                &&& final(stack)@ == if done {
                    spec_put(old(stack)@, result)
                } else {
                    old(stack)@
                }
            },
{
    let args = match retrieve_from_stack(stack, contract) {
        Some(args) => args,
        None => {
            return false;
        },
    };
    let ghost given = args;
    let result = closure(args);
    let done = put_on_stack(stack, contract, result);
    assert(closure.ensures((given,), result));
    done
}

/// Decoding a slot that a value was written to gives the value back, whatever
/// the slot held before.
pub proof fn lemma_decode_encode(value: Value, slot: u64)
    requires
        value.wf(),
    ensures
        decode(value.ty, encode(value, slot)) == value,
{
    if value.ty.spec_width() == 4 {
        let high = slot / HALF;
        assert(high <= 0xffff_ffff);
        assert(high * HALF <= 0xffff_ffff * HALF) by (nonlinear_arith)
            requires
                high <= 0xffff_ffff,
        ;
        assert(value.bits % HALF == value.bits);
        assert((high * HALF + value.bits) % (HALF as int) == value.bits) by (nonlinear_arith)
            requires
                0 <= value.bits < HALF,
                0 <= high,
                HALF > 0,
        ;
    }
}

/// Writing a 32-bit value to a slot leaves the slot's high half as it was.
pub proof fn lemma_encode_keeps_high_half(value: Value, slot: u64)
    requires
        value.ty.spec_width() == 4,
    ensures
        encode(value, slot) / HALF == slot / HALF,
{
    let high = slot / HALF;
    let low = value.bits % HALF;
    assert(high <= 0xffff_ffff);
    assert(high * HALF <= 0xffff_ffff * HALF) by (nonlinear_arith)
        requires
            high <= 0xffff_ffff,
    ;
    assert((high * HALF + low) / (HALF as int) == high) by (nonlinear_arith)
        requires
            0 <= low < HALF,
            0 <= high,
            HALF > 0,
    ;
}

} // verus!
