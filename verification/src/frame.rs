use vstd::prelude::*;
use std::rc::Rc;
use crate::value::Function;

verus! {

/// A per-invocation execution record: the callee, the index of the next
/// instruction in the callee's program, and the absolute operand-stack index
/// of the callee's local slot zero.
#[derive(Debug)]
pub struct CallFrame {
    pub function: Rc<Function>,
    pub ip: usize,
    pub base: usize,
}

} // verus!
