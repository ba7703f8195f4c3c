use vstd::prelude::*;
use std::rc::Rc;
use crate::instruction::Instruction;
use crate::program::Program;
use crate::numeric::{eq_bits, number_text, num_eq, number_string};

verus! {

/// A runtime value: a number carried as its IEEE-754 double bits, a boolean,
/// an owned text, a callable function, or the null singleton. Texts and
/// functions sit behind `Rc` so that stack copies share the payload; sharing
/// is invisible to equality and display.
#[derive(Clone, Debug, PartialEq)]
pub enum Value {
    Number(u64),
    Boolean(bool),
    String(Rc<String>),
    Function(Rc<Function>),
    Null,
}

/// A callable: a program of its own and the number of arguments it consumes.
#[derive(Clone, Debug, PartialEq)]
pub struct Function {
    pub program: Program,
    pub arity: usize,
}

/// Relies on `Rc::clone`, which returns a second handle to the same payload.
#[verifier::external_body]
fn rc_duplicate<T>(v: &Rc<T>) -> (res: Rc<T>)
    ensures
        res == *v,
{
    Rc::clone(v)
}

/// The truthiness convention of the machine: only `Boolean(false)` and, by
/// this engine's convention, every value that is neither boolean nor null,
/// count as falsey; `Null` itself is truthy.
pub open spec fn falsey(v: Value) -> bool {
    match v {
        Value::Null => false,
        Value::Boolean(b) => !b,
        _ => true,
    }
}

/// Structural equality of two values: equality is defined within a variant
/// and false across variants; numbers compare as IEEE doubles, texts by
/// their characters, functions by arity, instructions and, recursively,
/// their constant pools.
pub open spec fn val_eq(a: Value, b: Value) -> bool
    decreases a, 0int,
{
    match (a, b) {
        (Value::Number(x), Value::Number(y)) => eq_bits(x, y),
        (Value::Boolean(x), Value::Boolean(y)) => x == y,
        (Value::String(x), Value::String(y)) => x@ == y@,
        (Value::Function(f), Value::Function(g)) => {
            &&& (*f).arity == (*g).arity
            &&& (*f).program.instructions@ == (*g).program.instructions@
            &&& (*f).program.constants@.len() == (*g).program.constants@.len()
            &&& vals_eq_from((*f).program.constants@, (*g).program.constants@, 0)
        },
        (Value::Null, Value::Null) => true,
        _ => false,
    }
}

/// Pairwise structural equality of two equally long pools, from index `i` on.
pub open spec fn vals_eq_from(x: Seq<Value>, y: Seq<Value>, i: int) -> bool
    decreases x, x.len() - i,
{
    if i < 0 || i >= x.len() {
        true
    } else {
        val_eq(x[i], y[i]) && vals_eq_from(x, y, i + 1)
    }
}

/// The display form of a value: numbers in shortest round-trip decimal,
/// booleans as `true`/`false`, texts verbatim, functions as the word
/// `function`, null as `null`.
pub open spec fn display_text(v: Value) -> Seq<char> {
    match v {
        Value::Number(bits) => number_text(bits),
        Value::Boolean(b) => if b {
            "true"@
        } else {
            "false"@
        },
        Value::String(s) => s@,
        Value::Function(_) => "function"@,
        Value::Null => "null"@,
    }
}

impl Value {
    /// The truthiness test used by `Not` and `JumpIfFalse`.
    pub fn is_falsey(&self) -> (r: bool)
        ensures
            r == falsey(*self),
    {
        match self {
            Value::Null => false,
            Value::Boolean(b) => !*b,
            _ => true,
        }
    }

    /// A copy of the value that is equal to it; texts and functions share
    /// their payload with the original.
    pub fn duplicate(&self) -> (r: Value)
        ensures
            r == *self,
    {
        match self {
            Value::Number(n) => Value::Number(*n),
            Value::Boolean(b) => Value::Boolean(*b),
            Value::String(s) => Value::String(rc_duplicate(s)),
            Value::Function(f) => Value::Function(rc_duplicate(f)),
            Value::Null => Value::Null,
        }
    }

    /// The display form as an owned string.
    pub fn display_string(&self) -> (r: String)
        ensures
            r@ == display_text(*self),
    {
        match self {
            Value::Number(bits) => number_string(*bits),
            Value::Boolean(b) => if *b {
                "true".to_owned()
            } else {
                "false".to_owned()
            },
            Value::String(s) => (**s).clone(),
            Value::Function(_) => "function".to_owned(),
            Value::Null => "null".to_owned(),
        }
    }
}

/// Structural equality of two values, deciding `val_eq`.
pub fn value_eq(a: &Value, b: &Value) -> (r: bool)
    ensures
        r == val_eq(*a, *b),
    decreases *a, 0int,
{
    match (a, b) {
        (Value::Number(x), Value::Number(y)) => num_eq(*x, *y),
        (Value::Boolean(x), Value::Boolean(y)) => *x == *y,
        (Value::String(x), Value::String(y)) => (**x).eq(&**y),
        (Value::Function(f), Value::Function(g)) => {
            if (**f).arity != (**g).arity {
                return false;
            }
            if !instructions_eq(&(**f).program.instructions, &(**g).program.instructions) {
                return false;
            }
            if (**f).program.constants.len() != (**g).program.constants.len() {
                return false;
            }
            values_eq_from(&(**f).program.constants, &(**g).program.constants, 0)
        },
        (Value::Null, Value::Null) => true,
        _ => false,
    }
}

/// Pairwise structural equality of two equally long pools, from `i` on.
fn values_eq_from(x: &Vec<Value>, y: &Vec<Value>, i: usize) -> (r: bool)
    requires
        x@.len() == y@.len(),
    ensures
        r == vals_eq_from(x@, y@, i as int),
    decreases x@, x@.len() - i,
{
    if i >= x.len() {
        true
    } else {
        value_eq(&x[i], &y[i]) && values_eq_from(x, y, i + 1)
    }
}

/// Equality of two instruction vectors.
fn instructions_eq(x: &Vec<Instruction>, y: &Vec<Instruction>) -> (r: bool)
    ensures
        r == (x@ == y@),
{
    if x.len() != y.len() {
        assert(x@ != y@);
        return false;
    }
    let mut i: usize = 0;
    while i < x.len()
        invariant
            i <= x@.len(),
            x@.len() == y@.len(),
            forall|j: int| 0 <= j < i ==> x@[j] == y@[j],
        decreases x@.len() - i,
    {
        if x[i] != y[i] {
            assert(x@ != y@);
            return false;
        }
        i = i + 1;
    }
    proof {
        assert(x@ =~= y@);
    }
    true
}

} // verus!
