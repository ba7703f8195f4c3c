pub mod frame;
pub mod instruction;
pub mod numeric;
pub mod program;
pub mod semantics;
pub mod value;
pub mod vm;

pub use crate::instruction::Instruction;
pub use crate::program::Program;
pub use crate::value::{Function, Value};
pub use crate::vm::VM;
pub use crate::semantics::VmError;
