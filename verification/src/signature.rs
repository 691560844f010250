//! Signature contracts: the argument and return types that a host function
//! declares, and the check of a slot's declared signature against them.
use vstd::prelude::*;
use crate::error::Error;

verus! {

/// A primitive value type of the engine.
#[derive(Clone, Copy, Debug, PartialEq, Eq, Structural)]
pub enum ValueType {
    I32,
    I64,
    F32,
    F64,
}

impl ValueType {
    /// The number of bytes that a value of this type occupies in a stack slot.
    pub open spec fn spec_width(self) -> nat {
        match self {
            ValueType::I32 | ValueType::F32 => 4,
            ValueType::I64 | ValueType::F64 => 8,
        }
    }

    /// The number of bytes that a value of this type occupies in a stack slot.
    pub fn width(self) -> (w: usize)
        ensures
            w == self.spec_width(),
    {
        match self {
            ValueType::I32 | ValueType::F32 => 4,
            ValueType::I64 | ValueType::F64 => 8,
        }
    }
}

/// The argument types, in order, and the return type (if any) of a function.
#[derive(Clone, Debug)]
pub struct Signature {
    pub args: Vec<ValueType>,
    pub ret: Option<ValueType>,
}

impl Signature {
    /// Two signatures agree when they have the same arity, the same type at
    /// each argument position and the same return type. Nothing is widened.
    pub open spec fn agrees(&self, other: &Signature) -> bool {
        &&& self.args@ == other.args@
        &&& self.ret == other.ret
    }

    /// A signature from its argument types and return type.
    pub fn new(args: Vec<ValueType>, ret: Option<ValueType>) -> (s: Signature)
        ensures
            s.args@ == args@,
            s.ret == ret,
    {
        Signature { args, ret }
    }

    /// The number of arguments.
    pub fn arity(&self) -> (n: usize)
        ensures
            n == self.args@.len(),
    {
        self.args.len()
    }

    /// Checks a slot's declared signature against this contract: succeeds
    /// exactly when the two agree, and reports `SignatureMismatch` otherwise.
    pub fn validate_sig(&self, declared: &Signature) -> (r: Result<(), Error>)
        ensures
            self.agrees(declared) <==> r.is_ok(),
            !self.agrees(declared) <==> r == Err::<(), Error>(Error::SignatureMismatch),
    {
        if self.args.len() != declared.args.len() {
            return Err(Error::SignatureMismatch);
        }
        let same_ret = match (self.ret, declared.ret) {
            (None, None) => true,
            (Some(a), Some(b)) => a == b,
            _ => false,
        };
        if !same_ret {
            return Err(Error::SignatureMismatch);
        }
        let mut i: usize = 0;
        while i < self.args.len()
            invariant
                i <= self.args@.len(),
                self.args@.len() == declared.args@.len(),
                forall|j: int| 0 <= j < i ==> self.args@[j] == declared.args@[j],
            decreases self.args@.len() - i,
        {
            if self.args[i] != declared.args[i] {
                return Err(Error::SignatureMismatch);
            }
            i += 1;
        }
        assert(self.args@ =~= declared.args@);
        Ok(())
    }
}

} // verus!
