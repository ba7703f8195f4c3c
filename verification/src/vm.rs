use vstd::prelude::*;
use crate::frame::CallFrame;
use crate::instruction::Instruction;
use crate::program::Program;
use crate::value::{Value, Function, value_eq};
use crate::numeric::{num_add, num_sub, num_mul, num_div, num_rem, num_gt, num_lt, num_ge, num_le,
    num_neg};
use crate::semantics::{VmSnap, VmError, StepRes, step_spec, spec_binary, spec_equality,
    spec_not, spec_negate, spec_get_local, spec_set_local, spec_define_global, spec_set_global,
    spec_get_global, spec_jump_if_false, spec_constant, spec_print, spec_call,
    spec_return, set_top_ip, vm_halted, iterate, runs_for, is_arith, is_compare};
use std::rc::Rc;

verus! {

/// What one executed step reports: the machine moved, halted cleanly, or
/// stopped on a fatal error.
#[derive(Copy, Clone, Debug, PartialEq, Eq, Structural)]
pub enum StepOutcome {
    Progressed,
    Halted,
    Failed(VmError),
}

/// The execution engine: the call-frame stack, the operand stack, the
/// global slots, and the lines the program has printed, which the host
/// drains after `run`.
pub struct VM {
    pub frames: Vec<CallFrame>,
    pub stack: Vec<Value>,
    pub globals: Vec<Option<Value>>,
    pub output: Vec<String>,
}

impl View for VM {
    type V = VmSnap;

    open spec fn view(&self) -> VmSnap {
        VmSnap {
            frames: self.frames@,
            stack: self.stack@,
            globals: self.globals@,
            output: self.output@.map_values(|s: String| s@),
        }
    }
}

impl VM {
    /// A fresh machine: one bottom frame holding the program in a synthetic
    /// zero-arity function, an empty stack, `global_count` undefined global
    /// slots, and no output.
    pub fn new(program: Program, global_count: usize) -> (vm: VM)
        ensures
            vm@.frames.len() == 1,
            (*vm@.frames[0].function).program == program,
            (*vm@.frames[0].function).arity == 0,
            vm@.frames[0].ip == 0,
            vm@.frames[0].base == 0,
            vm@.stack == Seq::<Value>::empty(),
            vm@.globals.len() == global_count,
            forall|i: int| 0 <= i < global_count ==> vm@.globals[i] is None,
            vm@.output == Seq::<Seq<char>>::empty(),
    {
        let mut globals: Vec<Option<Value>> = Vec::new();
        let mut i: usize = 0;
        while i < global_count
            invariant
                i <= global_count,
                globals@.len() == i,
                forall|j: int| 0 <= j < i ==> globals@[j] is None,
            decreases global_count - i,
        {
            globals.push(None);
            i = i + 1;
        }
        let mut frames: Vec<CallFrame> = Vec::new();
        frames.push(
            CallFrame { function: Rc::new(Function { program, arity: 0 }), ip: 0, base: 0 },
        );
        let vm = VM { frames, stack: Vec::new(), globals, output: Vec::new() };
        proof {
            assert(vm@.output =~= Seq::<Seq<char>>::empty());
        }
        vm
    }

    /// Removes and returns the top of the operand stack.
    pub fn pop(&mut self) -> (v: Value)
        requires
            old(self)@.stack.len() > 0,
        ensures
            v == old(self)@.stack.last(),
            final(self)@ == (VmSnap { stack: old(self)@.stack.drop_last(), ..old(self)@ }),
    {
        match self.stack.pop() {
            Some(v) => v,
            None => {
                proof {
                    assert(false);
                }
                Value::Null
            },
        }
    }

    fn op_binary(&mut self, instr: Instruction) -> (r: Option<VmError>)
        requires
            is_arith(instr) || is_compare(instr),
        ensures
            (match spec_binary(old(self)@, instr) {
                StepRes::Next(m) => r == None::<VmError> && final(self)@ == m,
                StepRes::Fail(e) => r == Some(e) && final(self)@ == old(self)@,
                StepRes::Halt => false,
            }),
    {
        let n = self.stack.len();
        if n < 2 {
            return Some(VmError::StackUnderflow);
        }
        let x = match &self.stack[n - 2] {
            Value::Number(x) => *x,
            _ => {
                return Some(VmError::TypeError);
            },
        };
        let y = match &self.stack[n - 1] {
            Value::Number(y) => *y,
            _ => {
                return Some(VmError::TypeError);
            },
        };
        let v = match instr {
            Instruction::Add => Value::Number(num_add(x, y)),
            Instruction::Subtract => Value::Number(num_sub(x, y)),
            Instruction::Multiply => Value::Number(num_mul(x, y)),
            Instruction::Divide => Value::Number(num_div(x, y)),
            Instruction::Modulo => Value::Number(num_rem(x, y)),
            Instruction::Greater => Value::Boolean(num_gt(x, y)),
            Instruction::Less => Value::Boolean(num_lt(x, y)),
            Instruction::GreaterEqual => Value::Boolean(num_ge(x, y)),
            _ => Value::Boolean(num_le(x, y)),
        };
        let _ = self.stack.pop();
        let _ = self.stack.pop();
        self.stack.push(v);
        proof {
            match spec_binary(old(self)@, instr) {
                StepRes::Next(m) => {
                    assert(self@ =~= m);
                },
                _ => {},
            }
        }
        None
    }

    fn op_equality(&mut self, negated: bool) -> (r: Option<VmError>)
        ensures
            (match spec_equality(old(self)@, negated) {
                StepRes::Next(m) => r == None::<VmError> && final(self)@ == m,
                StepRes::Fail(e) => r == Some(e) && final(self)@ == old(self)@,
                StepRes::Halt => false,
            }),
    {
        let n = self.stack.len();
        if n < 2 {
            return Some(VmError::StackUnderflow);
        }
        let b = self.pop();
        let a = self.pop();
        let e = value_eq(&b, &a);
        self.stack.push(Value::Boolean(if negated { !e } else { e }));
        proof {
            match spec_equality(old(self)@, negated) {
                StepRes::Next(m) => {
                    assert(self@ =~= m);
                },
                _ => {},
            }
        }
        None
    }

    fn op_not(&mut self) -> (r: Option<VmError>)
        ensures
            (match spec_not(old(self)@) {
                StepRes::Next(m) => r == None::<VmError> && final(self)@ == m,
                StepRes::Fail(e) => r == Some(e) && final(self)@ == old(self)@,
                StepRes::Halt => false,
            }),
    {
        let n = self.stack.len();
        if n < 1 {
            return Some(VmError::StackUnderflow);
        }
        let v = self.pop();
        self.stack.push(Value::Boolean(v.is_falsey()));
        proof {
            match spec_not(old(self)@) {
                StepRes::Next(m) => {
                    assert(self@ =~= m);
                },
                _ => {},
            }
        }
        None
    }

    fn op_negate(&mut self) -> (r: Option<VmError>)
        ensures
            (match spec_negate(old(self)@) {
                StepRes::Next(m) => r == None::<VmError> && final(self)@ == m,
                StepRes::Fail(e) => r == Some(e) && final(self)@ == old(self)@,
                StepRes::Halt => false,
            }),
    {
        let n = self.stack.len();
        if n < 1 {
            return Some(VmError::StackUnderflow);
        }
        let x = match &self.stack[n - 1] {
            Value::Number(x) => *x,
            _ => {
                return Some(VmError::TypeError);
            },
        };
        let _ = self.stack.pop();
        self.stack.push(Value::Number(num_neg(x)));
        proof {
            match spec_negate(old(self)@) {
                StepRes::Next(m) => {
                    assert(self@ =~= m);
                },
                _ => {},
            }
        }
        None
    }

    fn get_local(&mut self, off: usize) -> (r: Option<VmError>)
        requires
            old(self)@.frames.len() > 0,
        ensures
            (match spec_get_local(old(self)@, off) {
                StepRes::Next(m) => r == None::<VmError> && final(self)@ == m,
                StepRes::Fail(e) => r == Some(e) && final(self)@ == old(self)@,
                StepRes::Halt => false,
            }),
    {
        let flen = self.frames.len();
        let base = self.frames[flen - 1].base;
        let n = self.stack.len();
        if off >= n || base >= n - off {
            return Some(VmError::IndexOutOfRange);
        }
        let c = self.stack[base + off].duplicate();
        self.stack.push(c);
        proof {
            match spec_get_local(old(self)@, off) {
                StepRes::Next(m) => {
                    assert(self@ =~= m);
                },
                _ => {},
            }
        }
        None
    }

    fn set_local(&mut self, off: usize) -> (r: Option<VmError>)
        requires
            old(self)@.frames.len() > 0,
        ensures
            (match spec_set_local(old(self)@, off) {
                StepRes::Next(m) => r == None::<VmError> && final(self)@ == m,
                StepRes::Fail(e) => r == Some(e) && final(self)@ == old(self)@,
                StepRes::Halt => false,
            }),
    {
        let n = self.stack.len();
        if n < 1 {
            return Some(VmError::StackUnderflow);
        }
        let flen = self.frames.len();
        let base = self.frames[flen - 1].base;
        if off >= n - 1 || base >= (n - 1) - off {
            return Some(VmError::IndexOutOfRange);
        }
        let v = self.pop();
        self.stack[base + off] = v;
        proof {
            match spec_set_local(old(self)@, off) {
                StepRes::Next(m) => {
                    assert(self@ =~= m);
                },
                _ => {},
            }
        }
        None
    }

    fn define_global(&mut self, i: usize) -> (r: Option<VmError>)
        ensures
            (match spec_define_global(old(self)@, i) {
                StepRes::Next(m) => r == None::<VmError> && final(self)@ == m,
                StepRes::Fail(e) => r == Some(e) && final(self)@ == old(self)@,
                StepRes::Halt => false,
            }),
    {
        let n = self.stack.len();
        if n < 1 {
            return Some(VmError::StackUnderflow);
        }
        if i >= self.globals.len() {
            return Some(VmError::IndexOutOfRange);
        }
        let v = self.pop();
        self.globals[i] = Some(v);
        proof {
            match spec_define_global(old(self)@, i) {
                StepRes::Next(m) => {
                    assert(self@ =~= m);
                },
                _ => {},
            }
        }
        None
    }

    fn set_global(&mut self, i: usize) -> (r: Option<VmError>)
        ensures
            (match spec_set_global(old(self)@, i) {
                StepRes::Next(m) => r == None::<VmError> && final(self)@ == m,
                StepRes::Fail(e) => r == Some(e) && final(self)@ == old(self)@,
                StepRes::Halt => false,
            }),
    {
        if i >= self.globals.len() {
            return Some(VmError::IndexOutOfRange);
        }
        let defined = match &self.globals[i] {
            Some(_) => true,
            None => false,
        };
        if !defined {
            return Some(VmError::UndefinedGlobal);
        }
        let n = self.stack.len();
        if n < 1 {
            return Some(VmError::StackUnderflow);
        }
        let v = self.pop();
        self.globals[i] = Some(v);
        proof {
            match spec_set_global(old(self)@, i) {
                StepRes::Next(m) => {
                    assert(self@ =~= m);
                },
                _ => {},
            }
        }
        None
    }

    fn get_global(&mut self, i: usize) -> (r: Option<VmError>)
        ensures
            (match spec_get_global(old(self)@, i) {
                StepRes::Next(m) => r == None::<VmError> && final(self)@ == m,
                StepRes::Fail(e) => r == Some(e) && final(self)@ == old(self)@,
                StepRes::Halt => false,
            }),
    {
        if i >= self.globals.len() {
            return Some(VmError::IndexOutOfRange);
        }
        let c = match &self.globals[i] {
            Some(v) => v.duplicate(),
            None => {
                return Some(VmError::UndefinedGlobal);
            },
        };
        self.stack.push(c);
        proof {
            match spec_get_global(old(self)@, i) {
                StepRes::Next(m) => {
                    assert(self@ =~= m);
                },
                _ => {},
            }
        }
        None
    }

    fn jump_if_false(&mut self, pos: usize) -> (r: Option<VmError>)
        requires
            old(self)@.frames.len() > 0,
        ensures
            (match spec_jump_if_false(old(self)@, pos) {
                StepRes::Next(m) => r == None::<VmError> && final(self)@ == m,
                StepRes::Fail(e) => r == Some(e) && final(self)@ == old(self)@,
                StepRes::Halt => false,
            }),
    {
        let n = self.stack.len();
        if n < 1 {
            return Some(VmError::StackUnderflow);
        }
        let v = self.pop();
        if v.is_falsey() {
            let flen = self.frames.len();
            self.frames[flen - 1].ip = pos;
        }
        proof {
            match spec_jump_if_false(old(self)@, pos) {
                StepRes::Next(m) => {
                    assert(self@ =~= m);
                },
                _ => {},
            }
        }
        None
    }

    fn push_constant(&mut self, i: usize) -> (r: Option<VmError>)
        requires
            old(self)@.frames.len() > 0,
        ensures
            (match spec_constant(old(self)@, i) {
                StepRes::Next(m) => r == None::<VmError> && final(self)@ == m,
                StepRes::Fail(e) => r == Some(e) && final(self)@ == old(self)@,
                StepRes::Halt => false,
            }),
    {
        let flen = self.frames.len();
        if i >= self.frames[flen - 1].function.program.constants.len() {
            return Some(VmError::IndexOutOfRange);
        }
        let c = self.frames[flen - 1].function.program.constants[i].duplicate();
        self.stack.push(c);
        proof {
            match spec_constant(old(self)@, i) {
                StepRes::Next(m) => {
                    assert(self@ =~= m);
                },
                _ => {},
            }
        }
        None
    }

    fn op_print(&mut self) -> (r: Option<VmError>)
        ensures
            (match spec_print(old(self)@) {
                StepRes::Next(m) => r == None::<VmError> && final(self)@ == m,
                StepRes::Fail(e) => r == Some(e) && final(self)@ == old(self)@,
                StepRes::Halt => false,
            }),
    {
        let n = self.stack.len();
        if n < 1 {
            return Some(VmError::StackUnderflow);
        }
        let v = self.pop();
        let line = v.display_string();
        self.output.push(line);
        proof {
            match spec_print(old(self)@) {
                StepRes::Next(m) => {
                    assert(self@.output =~= m.output);
                    assert(self@ =~= m);
                },
                _ => {},
            }
        }
        None
    }

    fn call(&mut self) -> (r: Option<VmError>)
        ensures
            (match spec_call(old(self)@) {
                StepRes::Next(m) => r == None::<VmError> && final(self)@ == m,
                StepRes::Fail(e) => r == Some(e) && final(self)@ == old(self)@,
                StepRes::Halt => false,
            }),
    {
        let n = self.stack.len();
        if n < 1 {
            return Some(VmError::StackUnderflow);
        }
        let arity = match &self.stack[n - 1] {
            Value::Function(f) => f.arity,
            _ => {
                return Some(VmError::TypeError);
            },
        };
        if arity > n - 1 {
            return Some(VmError::StackUnderflow);
        }
        let callee = match self.stack.pop() {
            Some(Value::Function(f)) => f,
            _ => {
                proof {
                    assert(false);
                }
                return Some(VmError::TypeError);
            },
        };
        let base = self.stack.len() - arity;
        self.frames.push(CallFrame { function: callee, ip: 0, base });
        proof {
            match spec_call(old(self)@) {
                StepRes::Next(m) => {
                    assert(self@ =~= m);
                },
                _ => {},
            }
        }
        None
    }

    fn fn_return(&mut self) -> (r: Option<VmError>)
        requires
            old(self)@.frames.len() > 0,
        ensures
            (match spec_return(old(self)@) {
                StepRes::Next(m) => r == None::<VmError> && final(self)@ == m,
                StepRes::Fail(e) => r == Some(e) && final(self)@ == old(self)@,
                StepRes::Halt => false,
            }),
    {
        let n = self.stack.len();
        if n < 1 {
            return Some(VmError::StackUnderflow);
        }
        let flen = self.frames.len();
        let k = self.frames[flen - 1].function.arity;
        if k > n - 1 {
            return Some(VmError::StackUnderflow);
        }
        let ret = self.pop();
        self.stack.truncate(n - 1 - k);
        self.stack.push(ret);
        let _ = self.frames.pop();
        proof {
            match spec_return(old(self)@) {
                StepRes::Next(m) => {
                    assert(self@ =~= m);
                },
                _ => {},
            }
        }
        None
    }

    /// One fetch-decode-execute step. A failing step reports the error and
    /// leaves the whole state exactly as it was.
    pub fn step(&mut self) -> (r: StepOutcome)
        ensures
            (match step_spec(old(self)@) {
                StepRes::Next(m) => r == StepOutcome::Progressed && final(self)@ == m,
                StepRes::Halt => r == StepOutcome::Halted && final(self)@ == old(self)@,
                StepRes::Fail(e) => r == StepOutcome::Failed(e) && final(self)@ == old(self)@,
            }),
    {
        let flen = self.frames.len();
        if flen == 0 {
            return StepOutcome::Halted;
        }
        let ip = self.frames[flen - 1].ip;
        if ip >= self.frames[flen - 1].function.program.instructions.len() {
            return StepOutcome::Halted;
        }
        let instr = self.frames[flen - 1].function.program.instructions[ip];
        self.frames[flen - 1].ip = ip + 1;
        proof {
            assert(self@ =~= set_top_ip(old(self)@, (ip + 1) as usize));
        }
        let outcome = match instr {
            Instruction::Add
            | Instruction::Subtract
            | Instruction::Multiply
            | Instruction::Divide
            | Instruction::Modulo
            | Instruction::Greater
            | Instruction::Less
            | Instruction::GreaterEqual
            | Instruction::LessEqual => self.op_binary(instr),
            Instruction::Equal => self.op_equality(false),
            Instruction::NotEqual => self.op_equality(true),
            Instruction::Not => self.op_not(),
            Instruction::Negate => self.op_negate(),
            Instruction::SetLocal(off) => self.set_local(off),
            Instruction::GetLocal(off) => self.get_local(off),
            Instruction::DefineGlobal(i) => self.define_global(i),
            Instruction::SetGlobal(i) => self.set_global(i),
            Instruction::GetGlobal(i) => self.get_global(i),
            Instruction::Return => self.fn_return(),
            Instruction::Call => self.call(),
            Instruction::Jump(pos) => {
                let fl = self.frames.len();
                self.frames[fl - 1].ip = pos;
                None
            },
            Instruction::JumpIfFalse(pos) => self.jump_if_false(pos),
            Instruction::Constant(i) => self.push_constant(i),
            Instruction::Pop => {
                if self.stack.len() < 1 {
                    Some(VmError::StackUnderflow)
                } else {
                    let _ = self.stack.pop();
                    None
                }
            },
            Instruction::Print => self.op_print(),
        };
        match outcome {
            None => {
                proof {
                    match step_spec(old(self)@) {
                        StepRes::Next(m) => {
                            assert(self@ =~= m);
                        },
                        _ => {},
                    }
                }
                StepOutcome::Progressed
            },
            Some(e) => {
                let fl = self.frames.len();
                self.frames[fl - 1].ip = ip;
                proof {
                    assert(self@.frames =~= old(self)@.frames);
                    assert(self@ =~= old(self)@);
                }
                StepOutcome::Failed(e)
            },
        }
    }

    /// Runs the machine until it halts or fails. The final state is what the
    /// step relation reaches from the starting state; on a clean `Ok` the
    /// machine has halted, unless the run used up the largest step budget a
    /// machine word can count.
    pub fn run(&mut self) -> (r: Result<(), VmError>)
        ensures
            exists|n: nat| final(self)@ == iterate(old(self)@, n),
            r matches Ok(()) ==> vm_halted(final(self)@) || runs_for(
                old(self)@,
                usize::MAX as nat,
            ),
            r matches Err(e) ==> step_spec(final(self)@) == StepRes::Fail(e),
    {
        let ghost init = self@;
        let mut fuel: usize = 0;
        while fuel < usize::MAX
            invariant
                self@ == iterate(init, fuel as nat),
                runs_for(init, fuel as nat),
                init == old(self)@,
            decreases usize::MAX - fuel,
        {
            match self.step() {
                StepOutcome::Progressed => {
                    proof {
                        crate::semantics::lemma_runs_for_snoc(init, fuel as nat);
                        lemma_iterate_snoc_here(init, fuel as nat, self@);
                    }
                    fuel = fuel + 1;
                },
                StepOutcome::Halted => {
                    return Ok(());
                },
                StepOutcome::Failed(e) => {
                    return Err(e);
                },
            }
        }
        Ok(())
    }
}

/// Extending a run by one successful step, restated over the executing
/// machine's states.
proof fn lemma_iterate_snoc_here(s: VmSnap, n: nat, m: VmSnap)
    requires
        step_spec(iterate(s, n)) == StepRes::Next(m),
    ensures
        iterate(s, n + 1) == m,
{
    crate::semantics::lemma_iterate_snoc(s, n, m);
}

} // verus!
