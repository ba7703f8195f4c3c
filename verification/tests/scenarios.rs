use std::rc::Rc;
use stack_vm::{Function, Instruction, Program, Value, VmError, VM};

fn run_program(instructions: Vec<Instruction>, constants: Vec<Value>) -> VM {
    let mut vm = VM::new(Program { instructions, constants }, 0);
    vm.run().unwrap();
    vm
}

#[test]
fn scenario_arithmetic() {
    let mut vm = run_program(
        vec![Instruction::Constant(0), Instruction::Constant(1), Instruction::Add],
        vec![Value::Number(1.0_f64.to_bits()), Value::Number(2.0_f64.to_bits())],
    );
    assert_eq!(vm.pop(), Value::Number(3.0_f64.to_bits()));
}

#[test]
fn scenario_print_pop() {
    let mut vm = run_program(
        vec![Instruction::Constant(0), Instruction::Constant(1), Instruction::Print],
        vec![Value::Number(1.0_f64.to_bits()), Value::Number(2.0_f64.to_bits())],
    );
    // The sink receives the display form of the popped value as one line.
    assert_eq!(vm.output, vec!["2".to_string()]);
    assert_eq!(format!("{}\n", vm.output[0]), "2\n");
    assert_eq!(vm.pop(), Value::Number(1.0_f64.to_bits()));
}

#[test]
fn stack_height_accounting() {
    // Four instructions: three pushes and one two-pop-one-push; the final
    // height is the sum of their effects: 1 + 1 - 1 + 1.
    let vm = run_program(
        vec![
            Instruction::Constant(0),
            Instruction::Constant(1),
            Instruction::Add,
            Instruction::Constant(2),
        ],
        vec![
            Value::Number(1.0_f64.to_bits()),
            Value::Number(2.0_f64.to_bits()),
            Value::Number(7.0_f64.to_bits()),
        ],
    );
    assert_eq!(vm.stack.len(), 2);
}

#[test]
fn call_restores_height() {
    // Before the argument pushes the stack is empty; after call and return
    // exactly the returned value is left.
    let mut vm = run_program(
        vec![Instruction::Constant(0), Instruction::Constant(1), Instruction::Call],
        vec![
            Value::Number(4.2_f64.to_bits()),
            Value::Function(Rc::new(Function {
                program: Program {
                    instructions: vec![Instruction::Constant(0), Instruction::Return],
                    constants: vec![Value::Number(2.0_f64.to_bits())],
                },
                arity: 1,
            })),
        ],
    );
    assert_eq!(vm.stack.len(), 1);
    assert_eq!(vm.pop(), Value::Number(2.0_f64.to_bits()));
    // Only the synthetic bottom frame is left.
    assert_eq!(vm.frames.len(), 1);
}

fn equal_and_not_equal(a: Value, b: Value) -> (Value, Value) {
    let mut vm_eq = run_program(
        vec![Instruction::Constant(0), Instruction::Constant(1), Instruction::Equal],
        vec![a.duplicate(), b.duplicate()],
    );
    let mut vm_ne = run_program(
        vec![Instruction::Constant(0), Instruction::Constant(1), Instruction::NotEqual],
        vec![a, b],
    );
    (vm_eq.pop(), vm_ne.pop())
}

#[test]
fn equal_not_equal_complements() {
    let cases: Vec<(Value, Value)> = vec![
        (Value::Number(1.0_f64.to_bits()), Value::Number(1.0_f64.to_bits())),
        (Value::Number(1.0_f64.to_bits()), Value::Number(2.0_f64.to_bits())),
        (Value::Number(1.0_f64.to_bits()), Value::String(Rc::new("1".to_string()))),
        (Value::String(Rc::new("a".to_string())), Value::String(Rc::new("a".to_string()))),
        (Value::String(Rc::new("a".to_string())), Value::String(Rc::new("b".to_string()))),
        (Value::Null, Value::Null),
        (Value::Null, Value::Boolean(false)),
        (Value::Boolean(true), Value::Boolean(true)),
        (Value::Number(f64::NAN.to_bits()), Value::Number(f64::NAN.to_bits())),
        (Value::Number(0.0_f64.to_bits()), Value::Number((-0.0_f64).to_bits())),
    ];
    for (a, b) in cases {
        let (e, ne) = equal_and_not_equal(a, b);
        match (e, ne) {
            (Value::Boolean(x), Value::Boolean(y)) => assert_eq!(x, !y),
            _ => panic!("equality must push booleans"),
        }
    }
}

#[test]
fn ieee_equality_conventions() {
    // NaN equals nothing, not even itself; the two zeros are equal.
    let (e, _) = equal_and_not_equal(
        Value::Number(f64::NAN.to_bits()),
        Value::Number(f64::NAN.to_bits()),
    );
    assert_eq!(e, Value::Boolean(false));
    let (e, _) = equal_and_not_equal(
        Value::Number(0.0_f64.to_bits()),
        Value::Number((-0.0_f64).to_bits()),
    );
    assert_eq!(e, Value::Boolean(true));
}

#[test]
fn function_equality_is_structural() {
    let make = |arity: usize| {
        Value::Function(Rc::new(Function {
            program: Program {
                instructions: vec![Instruction::Constant(0), Instruction::Return],
                constants: vec![Value::Number(2.0_f64.to_bits())],
            },
            arity,
        }))
    };
    let (e, _) = equal_and_not_equal(make(1), make(1));
    assert_eq!(e, Value::Boolean(true));
    let (e, _) = equal_and_not_equal(make(1), make(2));
    assert_eq!(e, Value::Boolean(false));
}

#[test]
fn not_twice_and_not_boolean() {
    // A number is falsey by this engine's convention, so one Not yields
    // true and a second yields false: Boolean(!is_falsey(v)).
    let mut vm = run_program(
        vec![Instruction::Constant(0), Instruction::Not, Instruction::Not],
        vec![Value::Number(1.0_f64.to_bits())],
    );
    assert_eq!(vm.pop(), Value::Boolean(false));
    let mut vm = run_program(
        vec![Instruction::Constant(0), Instruction::Not],
        vec![Value::Boolean(true)],
    );
    assert_eq!(vm.pop(), Value::Boolean(false));
}

#[test]
fn null_is_truthy_and_numbers_are_falsey() {
    assert!(!Value::Null.is_falsey());
    assert!(Value::Number(1.0_f64.to_bits()).is_falsey());
    assert!(Value::String(Rc::new("".to_string())).is_falsey());
    assert!(Value::Boolean(false).is_falsey());
    assert!(!Value::Boolean(true).is_falsey());
    // JumpIfFalse falls through on Null and jumps on a number.
    let mut vm = run_program(
        vec![Instruction::Constant(0), Instruction::JumpIfFalse(3), Instruction::Constant(1)],
        vec![Value::Null, Value::Number(42.0_f64.to_bits())],
    );
    assert_eq!(vm.pop(), Value::Number(42.0_f64.to_bits()));
    let vm = run_program(
        vec![Instruction::Constant(0), Instruction::JumpIfFalse(3), Instruction::Constant(1)],
        vec![Value::Number(1.0_f64.to_bits()), Value::Number(42.0_f64.to_bits())],
    );
    assert!(vm.stack.is_empty());
}

#[test]
fn jump_is_a_pure_counter_move() {
    // Jumping straight over dead code leaves the same state as never having
    // had the dead code at all.
    let mut jumped = run_program(
        vec![Instruction::Jump(2), Instruction::Constant(1), Instruction::Constant(0)],
        vec![Value::Number(7.0_f64.to_bits()), Value::Number(9.0_f64.to_bits())],
    );
    let mut straight = run_program(
        vec![Instruction::Constant(0)],
        vec![Value::Number(7.0_f64.to_bits())],
    );
    assert_eq!(jumped.output, straight.output);
    assert_eq!(jumped.stack.len(), straight.stack.len());
    assert_eq!(jumped.pop(), straight.pop());
}

#[test]
fn division_follows_ieee() {
    let mut vm = run_program(
        vec![Instruction::Constant(0), Instruction::Constant(1), Instruction::Divide],
        vec![Value::Number(1.0_f64.to_bits()), Value::Number(0.0_f64.to_bits())],
    );
    let v = vm.pop();
    assert_eq!(v, Value::Number(f64::INFINITY.to_bits()));
    assert_eq!(v.display_string(), "inf");
}

#[test]
fn modulo_follows_dividend_sign() {
    let mut vm = run_program(
        vec![Instruction::Constant(0), Instruction::Constant(1), Instruction::Modulo],
        vec![Value::Number((-3.0_f64).to_bits()), Value::Number(2.0_f64.to_bits())],
    );
    assert_eq!(vm.pop(), Value::Number((-3.0_f64 % 2.0_f64).to_bits()));
}

#[test]
fn nan_comparisons_are_false() {
    for instr in [
        Instruction::Less,
        Instruction::Greater,
        Instruction::LessEqual,
        Instruction::GreaterEqual,
    ] {
        let mut vm = run_program(
            vec![Instruction::Constant(0), Instruction::Constant(1), instr],
            vec![Value::Number(f64::NAN.to_bits()), Value::Number(1.0_f64.to_bits())],
        );
        assert_eq!(vm.pop(), Value::Boolean(false));
    }
}

#[test]
fn number_display_matches_shortest_round_trip() {
    let samples: Vec<f64> = vec![
        0.0,
        -0.0,
        1.0,
        -1.0,
        0.5,
        4.2,
        -4.2,
        0.1 + 0.2,
        1.0e21,
        123456.75,
        f64::INFINITY,
        f64::NEG_INFINITY,
        f64::NAN,
        5e-324,
    ];
    for x in samples {
        let shown = Value::Number(x.to_bits()).display_string();
        assert_eq!(shown, format!("{}", x), "display of {:?}", x);
    }
}

#[test]
fn error_type_mismatch() {
    let mut vm = VM::new(
        Program {
            instructions: vec![Instruction::Constant(0), Instruction::Constant(1), Instruction::Add],
            constants: vec![Value::Boolean(true), Value::Number(1.0_f64.to_bits())],
        },
        0,
    );
    assert_eq!(vm.run(), Err(VmError::TypeError));
}

#[test]
fn error_call_of_non_function() {
    let mut vm = VM::new(
        Program {
            instructions: vec![Instruction::Constant(0), Instruction::Call],
            constants: vec![Value::Number(1.0_f64.to_bits())],
        },
        0,
    );
    assert_eq!(vm.run(), Err(VmError::TypeError));
}

#[test]
fn error_undefined_global() {
    let mut vm = VM::new(
        Program { instructions: vec![Instruction::GetGlobal(0)], constants: vec![] },
        1,
    );
    assert_eq!(vm.run(), Err(VmError::UndefinedGlobal));
    let mut vm = VM::new(
        Program {
            instructions: vec![Instruction::Constant(0), Instruction::SetGlobal(0)],
            constants: vec![Value::Null],
        },
        1,
    );
    assert_eq!(vm.run(), Err(VmError::UndefinedGlobal));
}

#[test]
fn error_stack_underflow() {
    let mut vm = VM::new(Program { instructions: vec![Instruction::Pop], constants: vec![] }, 0);
    assert_eq!(vm.run(), Err(VmError::StackUnderflow));
    let mut vm = VM::new(
        Program {
            instructions: vec![Instruction::Constant(0), Instruction::Add],
            constants: vec![Value::Number(1.0_f64.to_bits())],
        },
        0,
    );
    assert_eq!(vm.run(), Err(VmError::StackUnderflow));
}

#[test]
fn error_index_out_of_range() {
    let mut vm = VM::new(
        Program { instructions: vec![Instruction::Constant(5)], constants: vec![] },
        0,
    );
    assert_eq!(vm.run(), Err(VmError::IndexOutOfRange));
    let mut vm = VM::new(
        Program { instructions: vec![Instruction::GetLocal(3)], constants: vec![] },
        0,
    );
    assert_eq!(vm.run(), Err(VmError::IndexOutOfRange));
    let mut vm = VM::new(
        Program {
            instructions: vec![Instruction::Constant(0), Instruction::DefineGlobal(0)],
            constants: vec![Value::Null],
        },
        0,
    );
    assert_eq!(vm.run(), Err(VmError::IndexOutOfRange));
}

#[test]
fn failed_run_leaves_state_inspectable() {
    // A fatal error stops the machine with the state as it was before the
    // failing instruction.
    let mut vm = VM::new(
        Program {
            instructions: vec![Instruction::Constant(0), Instruction::Pop, Instruction::Pop],
            constants: vec![Value::Number(1.0_f64.to_bits())],
        },
        0,
    );
    assert_eq!(vm.run(), Err(VmError::StackUnderflow));
    assert!(vm.stack.is_empty());
    assert_eq!(vm.frames.len(), 1);
}

#[test]
fn string_print_is_verbatim() {
    let vm = run_program(
        vec![Instruction::Constant(0), Instruction::Print],
        vec![Value::String(Rc::new("Hello, World!".to_string()))],
    );
    assert_eq!(vm.output, vec!["Hello, World!".to_string()]);
}

#[test]
fn print_null_and_function() {
    let vm = run_program(
        vec![Instruction::Constant(0), Instruction::Print, Instruction::Constant(1), Instruction::Print],
        vec![
            Value::Null,
            Value::Function(Rc::new(Function {
                program: Program { instructions: vec![], constants: vec![] },
                arity: 0,
            })),
        ],
    );
    assert_eq!(vm.output, vec!["null".to_string(), "function".to_string()]);
}
