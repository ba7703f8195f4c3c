use vstd::prelude::*;

verus! {

/// The opcode alphabet of the machine. Each instruction is either nullary or
/// carries a single machine-word operand: a constant index, a local offset, a
/// global index, or an absolute instruction address.
#[derive(Copy, Clone, Debug, PartialEq, Eq, Structural)]
pub enum Instruction {
    // Binary.
    Add,
    Subtract,
    Multiply,
    Divide,
    Modulo,
    Equal,
    NotEqual,
    Greater,
    Less,
    GreaterEqual,
    LessEqual,
    // Unary.
    Not,
    Negate,
    // Variables.
    SetLocal(usize),
    GetLocal(usize),
    DefineGlobal(usize),
    SetGlobal(usize),
    GetGlobal(usize),
    // Functions.
    Return,
    Call,
    // Control Flow.
    Jump(usize),
    JumpIfFalse(usize),
    // Other.
    Constant(usize),
    Pop,
    Print,
}

} // verus!
