use ironjdk::classfile::{ConstantPool, ConstantPoolEntry};
use ironjdk::descriptor::FieldDescriptor;
use ironjdk::heap::Heap;
use ironjdk::instruction::{Instruction, TaggedInstruction};
use ironjdk::interpreter::{invoke_static_method, InterpreterError};
use ironjdk::rtclass::{ClassTable, Code, RuntimeClass, RuntimeField, RuntimeMethod};
use ironjdk::value::Value;

fn tag(pairs: Vec<(u16, Instruction)>) -> Vec<TaggedInstruction> {
    pairs.into_iter().map(|(index, instruction)| TaggedInstruction { index, instruction }).collect()
}

fn method_with(name: &str, max_locals: u16, pairs: Vec<(u16, Instruction)>) -> RuntimeMethod {
    RuntimeMethod {
        name: name.to_string(),
        access_flags: 0,
        code: Code { max_stack: 8, max_locals, instructions: tag(pairs) },
    }
}

fn bare_class(name: &str) -> RuntimeClass {
    RuntimeClass {
        class_name: name.to_string(),
        constant_pool: ConstantPool { entries: Vec::new() },
        fields: Vec::new(),
        methods: Vec::new(),
    }
}

fn run_with_args(
    args: Vec<Value>,
    max_locals: u16,
    pairs: Vec<(u16, Instruction)>,
) -> Result<ironjdk::interpreter::InvokeResult, InterpreterError> {
    let method = method_with("main", max_locals, pairs);
    let class = bare_class("Main");
    let table = ClassTable::new();
    let mut heap = Heap::new();
    invoke_static_method(args, &method, &class, &table, &mut heap, 8, 1_000)
}

fn run_err(max_locals: u16, pairs: Vec<(u16, Instruction)>) -> InterpreterError {
    run_with_args(Vec::new(), max_locals, pairs).unwrap_err()
}

#[test]
fn unsupported_instruction_is_reported() {
    let e = run_err(0, vec![(0, Instruction::Nop)]);
    assert!(matches!(e, InterpreterError::UnhandledInstruction(Instruction::Nop)));
}

#[test]
fn wrong_operand_tag_is_reported() {
    let e = run_err(0, vec![
        (0, Instruction::AconstNull),
        (1, Instruction::AconstNull),
        (2, Instruction::Iadd),
    ]);
    assert!(matches!(e, InterpreterError::UnexpectedOperand));
}

#[test]
fn non_integer_array_type_is_rejected() {
    let e = run_err(0, vec![
        (0, Instruction::Iconst1),
        (1, Instruction::Newarray { atype: 9 }),
    ]);
    assert!(matches!(e, InterpreterError::InvalidArrayType));
}

#[test]
fn popping_an_empty_stack_underflows() {
    let e = run_err(0, vec![(0, Instruction::Iadd)]);
    assert!(matches!(e, InterpreterError::StackUnderflow));
}

#[test]
fn local_slot_out_of_bounds_is_reported() {
    let e = run_err(1, vec![
        (0, Instruction::Iconst1),
        (1, Instruction::Istore { index: 5 }),
    ]);
    assert!(matches!(e, InterpreterError::IndexOutOfBounds));
}

#[test]
fn array_index_out_of_bounds_is_reported() {
    let e = run_err(0, vec![
        (0, Instruction::Iconst2),
        (1, Instruction::Newarray { atype: 10 }),
        (3, Instruction::Iconst5),
        (4, Instruction::Iaload),
    ]);
    assert!(matches!(e, InterpreterError::IndexOutOfBounds));
}

#[test]
fn dangling_handle_is_reported() {
    let e = run_with_args(
        vec![Value::IntegerArrayRef(99)],
        1,
        vec![
            (0, Instruction::Aload0),
            (1, Instruction::Iconst0),
            (2, Instruction::Iaload),
        ],
    )
    .unwrap_err();
    assert!(matches!(e, InterpreterError::InvalidReference));
}

#[test]
fn negative_array_size_is_reported() {
    let e = run_err(0, vec![
        (0, Instruction::Bipush { byte: -1 }),
        (2, Instruction::Newarray { atype: 10 }),
    ]);
    assert!(matches!(e, InterpreterError::NegativeArraySize));
}

#[test]
fn missing_class_is_reported() {
    let entries = vec![
        ConstantPoolEntry::Class { name_index: 2 },
        ConstantPoolEntry::Utf8("Nowhere".to_string()),
    ];
    let class = RuntimeClass {
        class_name: "Main".to_string(),
        constant_pool: ConstantPool { entries },
        fields: Vec::new(),
        methods: Vec::new(),
    };
    let method = method_with("main", 0, vec![(0, Instruction::New { index: 1 })]);
    let table = ClassTable::new();
    let mut heap = Heap::new();
    let e = invoke_static_method(Vec::new(), &method, &class, &table, &mut heap, 8, 1_000)
        .unwrap_err();
    assert!(matches!(e, InterpreterError::ClassNotFound));
}

fn class_with_field_ref(field_name: &str, declared_field: &str) -> RuntimeClass {
    let entries = vec![
        ConstantPoolEntry::Class { name_index: 2 },
        ConstantPoolEntry::Utf8("C".to_string()),
        ConstantPoolEntry::Fieldref { class_index: 1, name_and_type_index: 4 },
        ConstantPoolEntry::NameAndType { name_index: 5, descriptor_index: 6 },
        ConstantPoolEntry::Utf8(field_name.to_string()),
        ConstantPoolEntry::Utf8("I".to_string()),
    ];
    RuntimeClass {
        class_name: "C".to_string(),
        constant_pool: ConstantPool { entries },
        fields: vec![RuntimeField {
            access_flags: 0,
            name: declared_field.to_string(),
            descriptor: FieldDescriptor::Integer,
        }],
        methods: Vec::new(),
    }
}

#[test]
fn missing_field_is_reported() {
    let class = class_with_field_ref("nope", "f");
    let mut table = ClassTable::new();
    table.load_class(class_with_field_ref("nope", "f"));
    let method = method_with("main", 0, vec![
        (0, Instruction::New { index: 1 }),
        (3, Instruction::Getfield { index: 3 }),
    ]);
    let mut heap = Heap::new();
    let e = invoke_static_method(Vec::new(), &method, &class, &table, &mut heap, 8, 1_000)
        .unwrap_err();
    assert!(matches!(e, InterpreterError::FieldNotFound));
}

fn invoking_class(descriptor: &str) -> RuntimeClass {
    let entries = vec![
        ConstantPoolEntry::Class { name_index: 2 },
        ConstantPoolEntry::Utf8("Calc".to_string()),
        ConstantPoolEntry::Methodref { class_index: 1, name_and_type_index: 4 },
        ConstantPoolEntry::NameAndType { name_index: 5, descriptor_index: 6 },
        ConstantPoolEntry::Utf8("missing".to_string()),
        ConstantPoolEntry::Utf8(descriptor.to_string()),
    ];
    RuntimeClass {
        class_name: "Main".to_string(),
        constant_pool: ConstantPool { entries },
        fields: Vec::new(),
        methods: Vec::new(),
    }
}

#[test]
fn missing_method_is_reported() {
    let class = invoking_class("()V");
    let mut table = ClassTable::new();
    table.load_class(bare_class("Calc"));
    let method = method_with("main", 0, vec![(0, Instruction::Invokestatic { index: 3 })]);
    let mut heap = Heap::new();
    let e = invoke_static_method(Vec::new(), &method, &class, &table, &mut heap, 8, 1_000)
        .unwrap_err();
    assert!(matches!(e, InterpreterError::MethodNotFound));
}

#[test]
fn bad_constant_pool_index_is_reported() {
    let e = run_err(0, vec![(0, Instruction::New { index: 9 })]);
    assert!(matches!(e, InterpreterError::InvalidConstantPoolEntry));
}

#[test]
fn malformed_descriptor_is_reported() {
    let class = invoking_class("(II");
    let mut table = ClassTable::new();
    let callee = RuntimeClass {
        class_name: "Calc".to_string(),
        constant_pool: ConstantPool { entries: Vec::new() },
        fields: Vec::new(),
        methods: vec![method_with("missing", 2, vec![(0, Instruction::Return)])],
    };
    table.load_class(callee);
    let method = method_with("main", 0, vec![(0, Instruction::Invokestatic { index: 3 })]);
    let mut heap = Heap::new();
    let e = invoke_static_method(Vec::new(), &method, &class, &table, &mut heap, 8, 1_000)
        .unwrap_err();
    assert!(matches!(e, InterpreterError::InvalidMethodDescriptor));
}

#[test]
fn branch_to_unaligned_offset_is_reported() {
    let e = run_err(0, vec![
        (0, Instruction::Goto { branch_offset: 1 }),
        (3, Instruction::Return),
    ]);
    assert!(matches!(e, InterpreterError::InvalidBranchTarget));
}

#[test]
fn running_past_the_end_is_reported() {
    let e = run_err(0, vec![(0, Instruction::Iconst1)]);
    assert!(matches!(e, InterpreterError::MissingReturn));
}

#[test]
fn empty_code_is_reported() {
    let e = run_err(0, Vec::new());
    assert!(matches!(e, InterpreterError::MissingReturn));
}

#[test]
fn too_many_arguments_for_locals_is_reported() {
    let e = run_with_args(
        vec![Value::Integer(1), Value::Integer(2)],
        1,
        vec![(0, Instruction::Return)],
    )
    .unwrap_err();
    assert!(matches!(e, InterpreterError::TooManyArguments));
}

#[test]
fn unbounded_recursion_exhausts_call_depth() {
    let entries = vec![
        ConstantPoolEntry::Class { name_index: 2 },
        ConstantPoolEntry::Utf8("Rec".to_string()),
        ConstantPoolEntry::Methodref { class_index: 1, name_and_type_index: 4 },
        ConstantPoolEntry::NameAndType { name_index: 5, descriptor_index: 6 },
        ConstantPoolEntry::Utf8("again".to_string()),
        ConstantPoolEntry::Utf8("()V".to_string()),
    ];
    let rec = RuntimeClass {
        class_name: "Rec".to_string(),
        constant_pool: ConstantPool { entries },
        fields: Vec::new(),
        methods: vec![method_with("again", 0, vec![
            (0, Instruction::Invokestatic { index: 3 }),
            (3, Instruction::Return),
        ])],
    };
    let class = RuntimeClass {
        class_name: rec.class_name.clone(),
        constant_pool: ConstantPool { entries: rec.constant_pool.entries.clone() },
        fields: Vec::new(),
        methods: Vec::new(),
    };
    let mut table = ClassTable::new();
    table.load_class(rec);
    let method = method_with("main", 0, vec![
        (0, Instruction::Invokestatic { index: 3 }),
        (3, Instruction::Return),
    ]);
    let mut heap = Heap::new();
    let e = invoke_static_method(Vec::new(), &method, &class, &table, &mut heap, 8, 1_000)
        .unwrap_err();
    assert!(matches!(e, InterpreterError::CallDepthExceeded));
}

#[test]
fn infinite_loop_exhausts_the_step_allowance() {
    let e = run_err(0, vec![(0, Instruction::Goto { branch_offset: 0 })]);
    assert!(matches!(e, InterpreterError::StepLimitExceeded));
}
