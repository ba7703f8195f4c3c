use vstd::prelude::*;
use crate::frame::CallFrame;
use crate::instruction::Instruction;
use crate::value::{Value, falsey, val_eq, display_text};
use crate::numeric::{
    add_bits, sub_bits, mul_bits, div_bits, rem_bits, neg_bits, gt_bits, lt_bits, ge_bits, le_bits,
};

verus! {

/// Why execution stopped before reaching a halt: every runtime error is
/// fatal, the guest program cannot observe or recover from it.
#[derive(Copy, Clone, Debug, PartialEq, Eq, Structural)]
pub enum VmError {
    /// Arithmetic, comparison or negation on a non-number, or a call of a
    /// value that is not a function.
    TypeError,
    /// `GetGlobal` or `SetGlobal` on a slot that was never defined.
    UndefinedGlobal,
    /// A pop from an empty stack, or a call or return with fewer values on
    /// the stack than the arity asks for.
    StackUnderflow,
    /// A constant, local or global index outside its table.
    IndexOutOfRange,
}

/// The whole observable machine state: the call-frame stack, the operand
/// stack, the global slots, and the lines printed so far.
#[verifier::ext_equal]
pub struct VmSnap {
    pub frames: Seq<CallFrame>,
    pub stack: Seq<Value>,
    pub globals: Seq<Option<Value>>,
    pub output: Seq<Seq<char>>,
}

/// What one dispatch step does: move to a next state, halt cleanly, or stop
/// on a fatal error (the state is then left as it was).
pub enum StepRes {
    Next(VmSnap),
    Halt,
    Fail(VmError),
}

pub open spec fn top_frame(s: VmSnap) -> CallFrame {
    s.frames.last()
}

pub open spec fn frame_instrs(f: CallFrame) -> Seq<Instruction> {
    (*f.function).program.instructions@
}

pub open spec fn frame_consts(f: CallFrame) -> Seq<Value> {
    (*f.function).program.constants@
}

/// Execution has halted: no frame is left, or the top frame's counter has
/// run past the end of its program.
pub open spec fn vm_halted(s: VmSnap) -> bool {
    s.frames.len() == 0 || top_frame(s).ip >= frame_instrs(top_frame(s)).len()
}

/// The instruction the next step will execute (meaningful when not halted).
pub open spec fn fetched(s: VmSnap) -> Instruction {
    frame_instrs(top_frame(s))[top_frame(s).ip as int]
}

/// The state with the top frame's counter set to `ip`.
pub open spec fn set_top_ip(s: VmSnap, ip: usize) -> VmSnap {
    VmSnap {
        frames: s.frames.update(
            s.frames.len() - 1,
            CallFrame { function: top_frame(s).function, ip, base: top_frame(s).base },
        ),
        ..s
    }
}

/// True of the five instructions that combine two numbers into a number.
pub open spec fn is_arith(i: Instruction) -> bool {
    match i {
        Instruction::Add => true,
        Instruction::Subtract => true,
        Instruction::Multiply => true,
        Instruction::Divide => true,
        Instruction::Modulo => true,
        _ => false,
    }
}

/// True of the four instructions that compare two numbers into a boolean.
pub open spec fn is_compare(i: Instruction) -> bool {
    match i {
        Instruction::Greater => true,
        Instruction::Less => true,
        Instruction::GreaterEqual => true,
        Instruction::LessEqual => true,
        _ => false,
    }
}

/// The number an arithmetic instruction makes of left operand `x` and right
/// operand `y`.
pub open spec fn arith_bits(i: Instruction, x: u64, y: u64) -> u64 {
    match i {
        Instruction::Add => add_bits(x, y),
        Instruction::Subtract => sub_bits(x, y),
        Instruction::Multiply => mul_bits(x, y),
        Instruction::Divide => div_bits(x, y),
        _ => rem_bits(x, y),
    }
}

/// The boolean an ordered comparison makes of left operand `x` and right
/// operand `y`.
pub open spec fn compare_bits(i: Instruction, x: u64, y: u64) -> bool {
    match i {
        Instruction::Greater => gt_bits(x, y),
        Instruction::Less => lt_bits(x, y),
        Instruction::GreaterEqual => ge_bits(x, y),
        _ => le_bits(x, y),
    }
}

/// Arithmetic and comparison: the right operand is on top of the stack, the
/// left was pushed first; both must be numbers.
pub open spec fn spec_binary(s: VmSnap, i: Instruction) -> StepRes {
    if s.stack.len() < 2 {
        StepRes::Fail(VmError::StackUnderflow)
    } else {
        let a = s.stack[s.stack.len() - 2];
        let b = s.stack.last();
        match (a, b) {
            (Value::Number(x), Value::Number(y)) => {
                let v = if is_arith(i) {
                    Value::Number(arith_bits(i, x, y))
                } else {
                    Value::Boolean(compare_bits(i, x, y))
                };
                StepRes::Next(VmSnap { stack: s.stack.drop_last().drop_last().push(v), ..s })
            },
            _ => StepRes::Fail(VmError::TypeError),
        }
    }
}

/// Structural equality of the two topmost values, of any variants; the first
/// popped value is the left argument of `val_eq`, as the engine pops the
/// right-hand operand first.
pub open spec fn spec_equality(s: VmSnap, negated: bool) -> StepRes {
    if s.stack.len() < 2 {
        StepRes::Fail(VmError::StackUnderflow)
    } else {
        let a = s.stack[s.stack.len() - 2];
        let b = s.stack.last();
        let e = val_eq(b, a);
        StepRes::Next(
            VmSnap {
                stack: s.stack.drop_last().drop_last().push(
                    Value::Boolean(if negated { !e } else { e }),
                ),
                ..s
            },
        )
    }
}

/// `Not` pops any value and pushes its truthiness test.
pub open spec fn spec_not(s: VmSnap) -> StepRes {
    if s.stack.len() < 1 {
        StepRes::Fail(VmError::StackUnderflow)
    } else {
        StepRes::Next(
            VmSnap { stack: s.stack.drop_last().push(Value::Boolean(falsey(s.stack.last()))), ..s },
        )
    }
}

/// `Negate` pops a number and pushes it with the sign flipped.
pub open spec fn spec_negate(s: VmSnap) -> StepRes {
    if s.stack.len() < 1 {
        StepRes::Fail(VmError::StackUnderflow)
    } else {
        match s.stack.last() {
            Value::Number(x) => StepRes::Next(
                VmSnap { stack: s.stack.drop_last().push(Value::Number(neg_bits(x))), ..s },
            ),
            _ => StepRes::Fail(VmError::TypeError),
        }
    }
}

/// `GetLocal` pushes a copy of the slot `off` above the frame's base.
pub open spec fn spec_get_local(s: VmSnap, off: usize) -> StepRes {
    let idx = top_frame(s).base + off;
    if idx >= s.stack.len() {
        StepRes::Fail(VmError::IndexOutOfRange)
    } else {
        StepRes::Next(VmSnap { stack: s.stack.push(s.stack[idx as int]), ..s })
    }
}

/// `SetLocal` pops the top value into the slot `off` above the frame's base.
pub open spec fn spec_set_local(s: VmSnap, off: usize) -> StepRes {
    if s.stack.len() < 1 {
        StepRes::Fail(VmError::StackUnderflow)
    } else {
        let rest = s.stack.drop_last();
        let idx = top_frame(s).base + off;
        if idx >= rest.len() {
            StepRes::Fail(VmError::IndexOutOfRange)
        } else {
            StepRes::Next(VmSnap { stack: rest.update(idx as int, s.stack.last()), ..s })
        }
    }
}

/// `DefineGlobal` pops the top value into the slot, defined or not.
pub open spec fn spec_define_global(s: VmSnap, i: usize) -> StepRes {
    if s.stack.len() < 1 {
        StepRes::Fail(VmError::StackUnderflow)
    } else if i >= s.globals.len() {
        StepRes::Fail(VmError::IndexOutOfRange)
    } else {
        StepRes::Next(
            VmSnap {
                stack: s.stack.drop_last(),
                globals: s.globals.update(i as int, Some(s.stack.last())),
                ..s
            },
        )
    }
}

/// `SetGlobal` pops the top value into the slot, which must be defined.
pub open spec fn spec_set_global(s: VmSnap, i: usize) -> StepRes {
    if i >= s.globals.len() {
        StepRes::Fail(VmError::IndexOutOfRange)
    } else if s.globals[i as int] is None {
        StepRes::Fail(VmError::UndefinedGlobal)
    } else if s.stack.len() < 1 {
        StepRes::Fail(VmError::StackUnderflow)
    } else {
        StepRes::Next(
            VmSnap {
                stack: s.stack.drop_last(),
                globals: s.globals.update(i as int, Some(s.stack.last())),
                ..s
            },
        )
    }
}

/// `GetGlobal` pushes a copy of the slot, which must be defined.
pub open spec fn spec_get_global(s: VmSnap, i: usize) -> StepRes {
    if i >= s.globals.len() {
        StepRes::Fail(VmError::IndexOutOfRange)
    } else {
        match s.globals[i as int] {
            Some(v) => StepRes::Next(VmSnap { stack: s.stack.push(v), ..s }),
            None => StepRes::Fail(VmError::UndefinedGlobal),
        }
    }
}

/// `JumpIfFalse` always pops the predicate and jumps only on a falsey value.
pub open spec fn spec_jump_if_false(s: VmSnap, pos: usize) -> StepRes {
    if s.stack.len() < 1 {
        StepRes::Fail(VmError::StackUnderflow)
    } else {
        let rest = VmSnap { stack: s.stack.drop_last(), ..s };
        if falsey(s.stack.last()) {
            StepRes::Next(set_top_ip(rest, pos))
        } else {
            StepRes::Next(rest)
        }
    }
}

/// `Constant` pushes a copy of the current program's pool entry.
pub open spec fn spec_constant(s: VmSnap, i: usize) -> StepRes {
    if i >= frame_consts(top_frame(s)).len() {
        StepRes::Fail(VmError::IndexOutOfRange)
    } else {
        StepRes::Next(VmSnap { stack: s.stack.push(frame_consts(top_frame(s))[i as int]), ..s })
    }
}

/// `Pop` discards the top value.
pub open spec fn spec_pop(s: VmSnap) -> StepRes {
    if s.stack.len() < 1 {
        StepRes::Fail(VmError::StackUnderflow)
    } else {
        StepRes::Next(VmSnap { stack: s.stack.drop_last(), ..s })
    }
}

/// `Print` pops one value and emits its display form as one line.
pub open spec fn spec_print(s: VmSnap) -> StepRes {
    if s.stack.len() < 1 {
        StepRes::Fail(VmError::StackUnderflow)
    } else {
        StepRes::Next(
            VmSnap {
                stack: s.stack.drop_last(),
                output: s.output.push(display_text(s.stack.last())),
                ..s
            },
        )
    }
}

/// `Call` pops the callee, which must be a function, and opens a frame whose
/// base makes the arguments the callee's first locals; the arguments stay on
/// the stack.
pub open spec fn spec_call(s: VmSnap) -> StepRes {
    if s.stack.len() < 1 {
        StepRes::Fail(VmError::StackUnderflow)
    } else {
        match s.stack.last() {
            Value::Function(f) => {
                let rest = s.stack.drop_last();
                if (*f).arity > rest.len() {
                    StepRes::Fail(VmError::StackUnderflow)
                } else {
                    StepRes::Next(
                        VmSnap {
                            stack: rest,
                            frames: s.frames.push(
                                CallFrame {
                                    function: f,
                                    ip: 0,
                                    base: (rest.len() - (*f).arity) as usize,
                                },
                            ),
                            ..s
                        },
                    )
                }
            },
            _ => StepRes::Fail(VmError::TypeError),
        }
    }
}

/// `Return` pops the result, then as many values as the frame's arity, pushes
/// the result back and closes the frame.
pub open spec fn spec_return(s: VmSnap) -> StepRes {
    if s.stack.len() < 1 {
        StepRes::Fail(VmError::StackUnderflow)
    } else {
        let ret = s.stack.last();
        let rest = s.stack.drop_last();
        let k = (*top_frame(s).function).arity;
        if k > rest.len() {
            StepRes::Fail(VmError::StackUnderflow)
        } else {
            StepRes::Next(
                VmSnap {
                    stack: rest.subrange(0, rest.len() - k).push(ret),
                    frames: s.frames.drop_last(),
                    ..s
                },
            )
        }
    }
}

/// One step of the fetched instruction against the state `s1` in which the
/// program counter has already moved past it.
pub open spec fn step_instr(s1: VmSnap, instr: Instruction) -> StepRes {
    match instr {
        Instruction::Add => spec_binary(s1, instr),
        Instruction::Subtract => spec_binary(s1, instr),
        Instruction::Multiply => spec_binary(s1, instr),
        Instruction::Divide => spec_binary(s1, instr),
        Instruction::Modulo => spec_binary(s1, instr),
        Instruction::Greater => spec_binary(s1, instr),
        Instruction::Less => spec_binary(s1, instr),
        Instruction::GreaterEqual => spec_binary(s1, instr),
        Instruction::LessEqual => spec_binary(s1, instr),
        Instruction::Equal => spec_equality(s1, false),
        Instruction::NotEqual => spec_equality(s1, true),
        Instruction::Not => spec_not(s1),
        Instruction::Negate => spec_negate(s1),
        Instruction::SetLocal(off) => spec_set_local(s1, off),
        Instruction::GetLocal(off) => spec_get_local(s1, off),
        Instruction::DefineGlobal(i) => spec_define_global(s1, i),
        Instruction::SetGlobal(i) => spec_set_global(s1, i),
        Instruction::GetGlobal(i) => spec_get_global(s1, i),
        Instruction::Return => spec_return(s1),
        Instruction::Call => spec_call(s1),
        Instruction::Jump(pos) => StepRes::Next(set_top_ip(s1, pos)),
        Instruction::JumpIfFalse(pos) => spec_jump_if_false(s1, pos),
        Instruction::Constant(i) => spec_constant(s1, i),
        Instruction::Pop => spec_pop(s1),
        Instruction::Print => spec_print(s1),
    }
}

/// One fetch-decode-execute step: halt when no frame is left or the counter
/// has run off the program, else advance the counter past the instruction
/// and apply it. A failing step leaves the state as it was.
pub open spec fn step_spec(s: VmSnap) -> StepRes {
    if vm_halted(s) {
        StepRes::Halt
    } else {
        let instr = fetched(s);
        let s1 = set_top_ip(s, (top_frame(s).ip + 1) as usize);
        step_instr(s1, instr)
    }
}

/// The state after `n` steps; a halted or failed machine stays where it is.
pub open spec fn iterate(s: VmSnap, n: nat) -> VmSnap
    decreases n,
{
    if n == 0 {
        s
    } else {
        match step_spec(s) {
            StepRes::Next(m) => iterate(m, (n - 1) as nat),
            _ => s,
        }
    }
}

/// The stack-height change the next step will make: pushes minus pops of
/// the fetched instruction, with the current frame's arity counting for
/// `Return`.
pub open spec fn stack_effect(s: VmSnap) -> int {
    match fetched(s) {
        Instruction::Add => -1,
        Instruction::Subtract => -1,
        Instruction::Multiply => -1,
        Instruction::Divide => -1,
        Instruction::Modulo => -1,
        Instruction::Equal => -1,
        Instruction::NotEqual => -1,
        Instruction::Greater => -1,
        Instruction::Less => -1,
        Instruction::GreaterEqual => -1,
        Instruction::LessEqual => -1,
        Instruction::Not => 0,
        Instruction::Negate => 0,
        Instruction::SetLocal(_) => -1,
        Instruction::GetLocal(_) => 1,
        Instruction::DefineGlobal(_) => -1,
        Instruction::SetGlobal(_) => -1,
        Instruction::GetGlobal(_) => 1,
        Instruction::Return => -((*top_frame(s).function).arity as int),
        Instruction::Call => -1,
        Instruction::Jump(_) => 0,
        Instruction::JumpIfFalse(_) => -1,
        Instruction::Constant(_) => 1,
        Instruction::Pop => -1,
        Instruction::Print => -1,
    }
}

/// The stack-height changes of `n` steps, summed along the executed
/// instructions; a halted or failed machine contributes nothing more.
pub open spec fn stack_effect_sum(s: VmSnap, n: nat) -> int
    decreases n,
{
    if n == 0 {
        0
    } else {
        match step_spec(s) {
            StepRes::Next(m) => stack_effect(s) + stack_effect_sum(m, (n - 1) as nat),
            _ => 0,
        }
    }
}

/// Every successful step changes the stack height by exactly the pushes
/// minus the pops of the instruction it executed.
pub proof fn lemma_step_stack_height(s: VmSnap, m: VmSnap)
    requires
        step_spec(s) == StepRes::Next(m),
    ensures
        m.stack.len() == s.stack.len() + stack_effect(s),
{
}

/// The stack-height accounting of a whole run: after any number of steps
/// the stack height is the starting height plus the pushes minus the pops
/// aggregated over the executed instructions.
pub proof fn lemma_run_stack_height(s: VmSnap, n: nat)
    ensures
        iterate(s, n).stack.len() == s.stack.len() + stack_effect_sum(s, n),
    decreases n,
{
    if n != 0 {
        match step_spec(s) {
            StepRes::Next(m) => {
                lemma_step_stack_height(s, m);
                lemma_run_stack_height(m, (n - 1) as nat);
            },
            _ => {},
        }
    }
}

/// A step that is neither `Print` nor a write to a global slot leaves the
/// output and the global table untouched.
pub proof fn lemma_step_no_side_effects(s: VmSnap, m: VmSnap)
    requires
        step_spec(s) == StepRes::Next(m),
    ensures
        fetched(s) != Instruction::Print ==> m.output == s.output,
        (forall|i: usize|
            fetched(s) != Instruction::DefineGlobal(i) && fetched(s) != Instruction::SetGlobal(
                i,
            )) ==> m.globals == s.globals,
{
}

/// A successful `Call` pops only the callee and opens a frame whose base is
/// the stack height from before the arguments were pushed, so the arguments
/// become the callee's first locals.
pub proof fn lemma_call_frame_base(s: VmSnap, m: VmSnap)
    requires
        step_spec(s) == StepRes::Next(m),
        fetched(s) == Instruction::Call,
        s.stack.len() <= usize::MAX,
    ensures
        s.stack.last() matches Value::Function(f) ==> {
            &&& m.frames.len() == s.frames.len() + 1
            &&& top_frame(m).function == f
            &&& top_frame(m).ip == 0
            &&& top_frame(m).base == s.stack.len() - 1 - (*f).arity
            &&& m.stack == s.stack.drop_last()
        },
{
}

/// A `Return` from a body that left exactly its result above the arguments
/// closes the frame and puts the caller's stack back to the height it had
/// before the arguments were pushed, plus one: the result on top. A body
/// that leaves extra values above the arguments is not covered: `Return`
/// pops blindly, so such a call does not restore the caller's height.
pub proof fn lemma_return_restores(s: VmSnap, m: VmSnap)
    requires
        step_spec(s) == StepRes::Next(m),
        fetched(s) == Instruction::Return,
        s.stack.len() == top_frame(s).base + (*top_frame(s).function).arity + 1,
    ensures
        m.frames == s.frames.drop_last(),
        m.stack.len() == top_frame(s).base + 1,
        m.stack.last() == s.stack.last(),
{
}

/// `Equal` and `NotEqual` are boolean complements for every pair of values:
/// from states with the same stack, the one fetching `Equal` pushes
/// `Boolean(e)` exactly where the one fetching `NotEqual` pushes
/// `Boolean(!e)`.
pub proof fn lemma_equal_not_equal_complement(s_eq: VmSnap, s_ne: VmSnap)
    requires
        !vm_halted(s_eq),
        !vm_halted(s_ne),
        fetched(s_eq) == Instruction::Equal,
        fetched(s_ne) == Instruction::NotEqual,
        s_eq.stack == s_ne.stack,
        s_eq.stack.len() >= 2,
    ensures
        ({
            let a = s_eq.stack[s_eq.stack.len() - 2];
            let b = s_eq.stack.last();
            &&& step_spec(s_eq) matches StepRes::Next(m1) && m1.stack.last() == Value::Boolean(
                val_eq(b, a),
            )
            &&& step_spec(s_ne) matches StepRes::Next(m2) && m2.stack.last() == Value::Boolean(
                !val_eq(b, a),
            )
        }),
{
}

/// One `Not` on a `Boolean(b)` pushes `Boolean(!b)` in its place.
pub proof fn lemma_not_on_boolean(s: VmSnap, b: bool)
    requires
        !vm_halted(s),
        fetched(s) == Instruction::Not,
        s.stack.len() >= 1,
        s.stack.last() == Value::Boolean(b),
    ensures
        step_spec(s) matches StepRes::Next(m) && m.stack == s.stack.drop_last().push(
            Value::Boolean(!b),
        ),
{
}

/// Two `Not` instructions in a row turn any value `v` on top of the stack
/// into `Boolean(!falsey(v))`.
pub proof fn lemma_not_twice(s: VmSnap)
    requires
        !vm_halted(s),
        fetched(s) == Instruction::Not,
        s.stack.len() >= 1,
        frame_instrs(top_frame(s)).len() <= usize::MAX,
        top_frame(s).ip + 1 < frame_instrs(top_frame(s)).len(),
        frame_instrs(top_frame(s))[top_frame(s).ip + 1] == Instruction::Not,
    ensures
        step_spec(s) matches StepRes::Next(m1) && (step_spec(m1) matches StepRes::Next(m2)
            && m2.stack == s.stack.drop_last().push(
            Value::Boolean(!falsey(s.stack.last())),
        )),
{
    assert(step_spec(s) matches StepRes::Next(m1) && m1.stack == s.stack.drop_last().push(
        Value::Boolean(falsey(s.stack.last())),
    ));
    match step_spec(s) {
        StepRes::Next(m1) => {
            assert(!vm_halted(m1));
            assert(fetched(m1) == Instruction::Not);
            match step_spec(m1) {
                StepRes::Next(m2) => {
                    assert(m1.stack.drop_last() =~= s.stack.drop_last());
                    assert(m2.stack =~= s.stack.drop_last().push(
                        Value::Boolean(!falsey(s.stack.last())),
                    ));
                },
                _ => {
                    assert(false);
                },
            }
        },
        _ => {
            assert(false);
        },
    }
}

/// `Jump(a)` only moves the program counter to `a`: the operand stack, the
/// globals, the output and every frame but the top one's counter stay as
/// they were, as after a run of instructions with no effect ending at `a`.
pub proof fn lemma_jump_no_effect(s: VmSnap, a: usize)
    requires
        !vm_halted(s),
        fetched(s) == Instruction::Jump(a),
    ensures
        step_spec(s) matches StepRes::Next(m) && ({
            &&& m.stack == s.stack
            &&& m.globals == s.globals
            &&& m.output == s.output
            &&& m.frames.len() == s.frames.len()
            &&& top_frame(m).ip == a
            &&& top_frame(m).function == top_frame(s).function
            &&& top_frame(m).base == top_frame(s).base
            &&& forall|i: int| 0 <= i < s.frames.len() - 1 ==> m.frames[i] == s.frames[i]
        }),
{
}

/// The machine makes `n` successful steps from `s` without halting or
/// failing on the way.
pub open spec fn runs_for(s: VmSnap, n: nat) -> bool
    decreases n,
{
    if n == 0 {
        true
    } else {
        match step_spec(s) {
            StepRes::Next(m) => runs_for(m, (n - 1) as nat),
            _ => false,
        }
    }
}

/// Extending an unbroken run by one more successful step.
pub proof fn lemma_runs_for_snoc(s: VmSnap, n: nat)
    requires
        runs_for(s, n),
        step_spec(iterate(s, n)) matches StepRes::Next(_),
    ensures
        runs_for(s, n + 1),
    decreases n,
{
    if n == 0 {
        assert(iterate(s, 0) == s);
        match step_spec(s) {
            StepRes::Next(m) => {
                assert(runs_for(m, 0));
                assert(runs_for(s, 1) == runs_for(m, 0));
            },
            _ => {},
        }
    } else {
        match step_spec(s) {
            StepRes::Next(m) => {
                assert(runs_for(m, (n - 1) as nat));
                assert(iterate(s, n) == iterate(m, (n - 1) as nat));
                lemma_runs_for_snoc(m, (n - 1) as nat);
                assert(runs_for(m, ((n - 1) as nat) + 1));
                assert(runs_for(s, n + 1) == runs_for(m, (n + 1 - 1) as nat));
            },
            _ => {},
        }
    }
}

/// Extending a run by one successful step.
pub proof fn lemma_iterate_snoc(s: VmSnap, n: nat, m: VmSnap)
    requires
        step_spec(iterate(s, n)) == StepRes::Next(m),
    ensures
        iterate(s, n + 1) == m,
    decreases n,
{
    if n == 0 {
        assert(iterate(s, 1) == (match step_spec(s) {
            StepRes::Next(m2) => iterate(m2, 0),
            _ => s,
        }));
    } else {
        match step_spec(s) {
            StepRes::Next(m1) => {
                lemma_iterate_snoc(m1, (n - 1) as nat, m);
            },
            _ => {
                assert(iterate(s, n) == s);
            },
        }
    }
}

} // verus!
