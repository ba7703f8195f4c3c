use vstd::prelude::*;
use crate::instruction::Instruction;
use crate::value::Value;

verus! {

/// A compiled program: a flat instruction stream and an indexable pool of
/// literal values. Programs are immutable once built and may be nested
/// inside `Function` values that appear in constant pools.
#[derive(Clone, Debug, PartialEq)]
pub struct Program {
    pub instructions: Vec<Instruction>,
    pub constants: Vec<Value>,
}

} // verus!
