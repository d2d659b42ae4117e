use ironjdk::classfile::{ConstantPool, ConstantPoolEntry};
use ironjdk::descriptor::FieldDescriptor;
use ironjdk::heap::Heap;
use ironjdk::instruction::{Instruction, TaggedInstruction};
use ironjdk::interpreter::{interpret, invoke_static_method, invoke_virtual_method, InvokeResult};
use ironjdk::stack::StackFrame;
use ironjdk::rtclass::{ClassTable, Code, RuntimeClass, RuntimeField, RuntimeMethod};
use ironjdk::value::Value;

fn tag(pairs: Vec<(u16, Instruction)>) -> Vec<TaggedInstruction> {
    pairs.into_iter().map(|(index, instruction)| TaggedInstruction { index, instruction }).collect()
}

fn method_with(name: &str, max_locals: u16, pairs: Vec<(u16, Instruction)>) -> RuntimeMethod {
    RuntimeMethod {
        name: name.to_string(),
        access_flags: 0,
        code: Code { max_stack: 8, max_locals, instructions: tag(pairs) },
    }
}

fn bare_class(name: &str) -> RuntimeClass {
    RuntimeClass {
        class_name: name.to_string(),
        constant_pool: ConstantPool { entries: Vec::new() },
        fields: Vec::new(),
        methods: Vec::new(),
    }
}

fn run_program(max_locals: u16, pairs: Vec<(u16, Instruction)>) -> InvokeResult {
    let method = method_with("main", max_locals, pairs);
    let class = bare_class("Main");
    let table = ClassTable::new();
    let mut heap = Heap::new();
    invoke_static_method(Vec::new(), &method, &class, &table, &mut heap, 16, 10_000).unwrap()
}

fn expect_int(result: InvokeResult, expected: i32) {
    match result {
        InvokeResult::Value(Value::Integer(i)) => assert_eq!(i, expected),
        other => panic!("expected an integer result, got {:?}", other),
    }
}

#[test]
fn isub_computes_first_minus_second() {
    let result = run_program(0, vec![
        (0, Instruction::Sipush { value: 7 }),
        (3, Instruction::Sipush { value: 3 }),
        (6, Instruction::Isub),
        (7, Instruction::Ireturn),
    ]);
    expect_int(result, 4);
}

#[test]
fn iadd_computes_sum() {
    let result = run_program(0, vec![
        (0, Instruction::Sipush { value: 2 }),
        (3, Instruction::Sipush { value: 3 }),
        (6, Instruction::Iadd),
        (7, Instruction::Ireturn),
    ]);
    expect_int(result, 5);
}

#[test]
fn imul_computes_product() {
    let result = run_program(0, vec![
        (0, Instruction::Sipush { value: 6 }),
        (3, Instruction::Sipush { value: 7 }),
        (6, Instruction::Imul),
        (7, Instruction::Ireturn),
    ]);
    expect_int(result, 42);
}

#[test]
fn isub_with_negative_result() {
    let result = run_program(0, vec![
        (0, Instruction::Sipush { value: 3 }),
        (3, Instruction::Sipush { value: 7 }),
        (6, Instruction::Isub),
        (7, Instruction::Ireturn),
    ]);
    expect_int(result, -4);
}

#[test]
fn local_round_trip_returns_stored_value() {
    let result = run_program(1, vec![
        (0, Instruction::Sipush { value: 123 }),
        (3, Instruction::Istore { index: 0 }),
        (5, Instruction::Iload { index: 0 }),
        (7, Instruction::Ireturn),
    ]);
    expect_int(result, 123);
}

#[test]
fn shorthand_store_load_match_indexed_forms() {
    let result = run_program(4, vec![
        (0, Instruction::Sipush { value: 9 }),
        (3, Instruction::Istore3),
        (4, Instruction::Iload3),
        (5, Instruction::Ireturn),
    ]);
    expect_int(result, 9);
}

#[test]
fn branch_taken_when_equal() {
    let program = |a: i16, b: i16| vec![
        (0, Instruction::Sipush { value: a }),
        (3, Instruction::Sipush { value: b }),
        (6, Instruction::IfIcmpeq { branch_offset: 5 }),
        (9, Instruction::Iconst0),
        (10, Instruction::Ireturn),
        (11, Instruction::Iconst1),
        (12, Instruction::Ireturn),
    ];
    expect_int(run_program(0, program(5, 5)), 1);
    expect_int(run_program(0, program(5, 6)), 0);
}

#[test]
fn backward_branch_loops_with_iinc() {
    // Sums 1..=3 using a counter in slot 0 and an accumulator in slot 1.
    let result = run_program(2, vec![
        (0, Instruction::Iconst0),
        (1, Instruction::Istore0),
        (2, Instruction::Iconst0),
        (3, Instruction::Istore1),
        (4, Instruction::Iload0),
        (5, Instruction::Iconst3),
        (6, Instruction::IfIcmpge { branch_offset: 13 }),
        (9, Instruction::Iinc { index: 0, constant: 1 }),
        (12, Instruction::Iload1),
        (13, Instruction::Iload0),
        (14, Instruction::Iadd),
        (15, Instruction::Istore1),
        (16, Instruction::Goto { branch_offset: -12 }),
        (19, Instruction::Iload1),
        (20, Instruction::Ireturn),
    ]);
    expect_int(result, 6);
}

#[test]
fn conditional_zero_checks() {
    let result = run_program(0, vec![
        (0, Instruction::Iconst0),
        (1, Instruction::Ifeq { branch_offset: 5 }),
        (4, Instruction::Iconst0),
        (5, Instruction::Ireturn),
        (6, Instruction::Iconst5),
        (7, Instruction::Ireturn),
    ]);
    expect_int(result, 5);
}

#[test]
fn null_check_branches_on_nullness() {
    let result = run_program(0, vec![
        (0, Instruction::AconstNull),
        (1, Instruction::Ifnull { branch_offset: 5 }),
        (4, Instruction::Iconst0),
        (5, Instruction::Ireturn),
        (6, Instruction::Iconst4),
        (7, Instruction::Ireturn),
    ]);
    expect_int(result, 4);
}

#[test]
fn dup_duplicates_top_of_stack() {
    let result = run_program(0, vec![
        (0, Instruction::Sipush { value: 21 }),
        (3, Instruction::Dup),
        (4, Instruction::Iadd),
        (5, Instruction::Ireturn),
    ]);
    expect_int(result, 42);
}

#[test]
fn arguments_seed_the_locals() {
    let method = method_with("takes_two", 2, vec![
        (0, Instruction::Iload0),
        (1, Instruction::Iload1),
        (2, Instruction::Isub),
        (3, Instruction::Ireturn),
    ]);
    let class = bare_class("Main");
    let table = ClassTable::new();
    let mut heap = Heap::new();
    let result = invoke_static_method(
        vec![Value::Integer(10), Value::Integer(4)],
        &method,
        &class,
        &table,
        &mut heap,
        16,
        10_000,
    )
    .unwrap();
    expect_int(result, 6);
}

#[test]
fn array_store_load_round_trip_through_aliases() {
    let result = run_program(0, vec![
        (0, Instruction::Iconst3),
        (1, Instruction::Newarray { atype: 10 }),
        (3, Instruction::Dup),
        (4, Instruction::Iconst0),
        (5, Instruction::Sipush { value: 7 }),
        (8, Instruction::Iastore),
        (9, Instruction::Iconst0),
        (10, Instruction::Iaload),
        (11, Instruction::Ireturn),
    ]);
    expect_int(result, 7);
}

#[test]
fn fresh_array_elements_default_to_zero() {
    let result = run_program(0, vec![
        (0, Instruction::Iconst2),
        (1, Instruction::Newarray { atype: 10 }),
        (3, Instruction::Iconst1),
        (4, Instruction::Iaload),
        (5, Instruction::Ireturn),
    ]);
    expect_int(result, 0);
}

fn class_with_int_field() -> RuntimeClass {
    // Pool: 1 Class("C"), 2 Utf8("C"), 3 Fieldref(1, 4), 4 NameAndType(5, 6),
    //       5 Utf8("f"), 6 Utf8("I")
    let entries = vec![
        ConstantPoolEntry::Class { name_index: 2 },
        ConstantPoolEntry::Utf8("C".to_string()),
        ConstantPoolEntry::Fieldref { class_index: 1, name_and_type_index: 4 },
        ConstantPoolEntry::NameAndType { name_index: 5, descriptor_index: 6 },
        ConstantPoolEntry::Utf8("f".to_string()),
        ConstantPoolEntry::Utf8("I".to_string()),
    ];
    RuntimeClass {
        class_name: "C".to_string(),
        constant_pool: ConstantPool { entries },
        fields: vec![RuntimeField {
            access_flags: 0,
            name: "f".to_string(),
            descriptor: FieldDescriptor::Integer,
        }],
        methods: Vec::new(),
    }
}

#[test]
fn object_field_round_trip_through_aliases() {
    let class = class_with_int_field();
    let mut table = ClassTable::new();
    table.load_class(class_with_int_field());
    let method = method_with("main", 0, vec![
        (0, Instruction::New { index: 1 }),
        (3, Instruction::Dup),
        (4, Instruction::Sipush { value: 5 }),
        (7, Instruction::Putfield { index: 3 }),
        (10, Instruction::Getfield { index: 3 }),
        (13, Instruction::Ireturn),
    ]);
    let mut heap = Heap::new();
    let result = invoke_static_method(
        Vec::new(),
        &method,
        &class,
        &table,
        &mut heap,
        16,
        10_000,
    )
    .unwrap();
    expect_int(result, 5);
}

#[test]
fn new_object_field_defaults_to_zero() {
    let class = class_with_int_field();
    let mut table = ClassTable::new();
    table.load_class(class_with_int_field());
    let method = method_with("main", 0, vec![
        (0, Instruction::New { index: 1 }),
        (3, Instruction::Getfield { index: 3 }),
        (6, Instruction::Ireturn),
    ]);
    let mut heap = Heap::new();
    let result = invoke_static_method(
        Vec::new(),
        &method,
        &class,
        &table,
        &mut heap,
        16,
        10_000,
    )
    .unwrap();
    expect_int(result, 0);
}

#[test]
fn default_fields_zero_for_int_null_for_reference() {
    let class = RuntimeClass {
        class_name: "D".to_string(),
        constant_pool: ConstantPool { entries: Vec::new() },
        fields: vec![
            RuntimeField {
                access_flags: 0,
                name: "count".to_string(),
                descriptor: FieldDescriptor::Integer,
            },
            RuntimeField {
                access_flags: 0,
                name: "next".to_string(),
                descriptor: FieldDescriptor::ClassReference { class_name: "D".to_string() },
            },
        ],
        methods: Vec::new(),
    };
    let defaults = class.default_fields();
    assert_eq!(defaults.len(), 2);
    assert!(matches!(defaults[0], Value::Integer(0)));
    assert!(matches!(defaults[1], Value::Null));
}

fn calc_table(body_first: Vec<(u16, Instruction)>, body_second: Vec<(u16, Instruction)>) -> ClassTable {
    let calc = RuntimeClass {
        class_name: "Calc".to_string(),
        constant_pool: ConstantPool { entries: Vec::new() },
        fields: Vec::new(),
        methods: vec![
            method_with("first", 2, body_first),
            method_with("second", 2, body_second),
        ],
    };
    let mut table = ClassTable::new();
    table.load_class(calc);
    table
}

fn caller_class(method_name: &str, descriptor: &str) -> RuntimeClass {
    // Pool: 1 Class("Calc"), 2 Utf8("Calc"), 3 Methodref(1, 4),
    //       4 NameAndType(5, 6), 5 Utf8(name), 6 Utf8(descriptor)
    let entries = vec![
        ConstantPoolEntry::Class { name_index: 2 },
        ConstantPoolEntry::Utf8("Calc".to_string()),
        ConstantPoolEntry::Methodref { class_index: 1, name_and_type_index: 4 },
        ConstantPoolEntry::NameAndType { name_index: 5, descriptor_index: 6 },
        ConstantPoolEntry::Utf8(method_name.to_string()),
        ConstantPoolEntry::Utf8(descriptor.to_string()),
    ];
    RuntimeClass {
        class_name: "Main".to_string(),
        constant_pool: ConstantPool { entries },
        fields: Vec::new(),
        methods: Vec::new(),
    }
}

#[test]
fn static_invocation_binds_first_argument_to_slot_zero() {
    let table = calc_table(
        vec![(0, Instruction::Iload0), (1, Instruction::Ireturn)],
        vec![(0, Instruction::Iload1), (1, Instruction::Ireturn)],
    );
    let class = caller_class("first", "(II)I");
    let method = method_with("main", 0, vec![
        (0, Instruction::Sipush { value: 11 }),
        (3, Instruction::Sipush { value: 22 }),
        (6, Instruction::Invokestatic { index: 3 }),
        (9, Instruction::Ireturn),
    ]);
    let mut heap = Heap::new();
    let result = invoke_static_method(
        Vec::new(),
        &method,
        &class,
        &table,
        &mut heap,
        16,
        10_000,
    )
    .unwrap();
    expect_int(result, 11);
}

#[test]
fn static_invocation_binds_second_argument_to_slot_one() {
    let table = calc_table(
        vec![(0, Instruction::Iload0), (1, Instruction::Ireturn)],
        vec![(0, Instruction::Iload1), (1, Instruction::Ireturn)],
    );
    let class = caller_class("second", "(II)I");
    let method = method_with("main", 0, vec![
        (0, Instruction::Sipush { value: 11 }),
        (3, Instruction::Sipush { value: 22 }),
        (6, Instruction::Invokestatic { index: 3 }),
        (9, Instruction::Ireturn),
    ]);
    let mut heap = Heap::new();
    let result = invoke_static_method(
        Vec::new(),
        &method,
        &class,
        &table,
        &mut heap,
        16,
        10_000,
    )
    .unwrap();
    expect_int(result, 22);
}

fn virtual_target_class(body: Vec<(u16, Instruction)>) -> RuntimeClass {
    // Pool: 1 Class("C"), 2 Utf8("C"), 3 Methodref(1, 4), 4 NameAndType(5, 6),
    //       5 Utf8("m"), 6 Utf8("(I)I")
    let entries = vec![
        ConstantPoolEntry::Class { name_index: 2 },
        ConstantPoolEntry::Utf8("C".to_string()),
        ConstantPoolEntry::Methodref { class_index: 1, name_and_type_index: 4 },
        ConstantPoolEntry::NameAndType { name_index: 5, descriptor_index: 6 },
        ConstantPoolEntry::Utf8("m".to_string()),
        ConstantPoolEntry::Utf8("(I)I".to_string()),
    ];
    RuntimeClass {
        class_name: "C".to_string(),
        constant_pool: ConstantPool { entries },
        fields: Vec::new(),
        methods: vec![method_with("m", 2, body)],
    }
}

#[test]
fn virtual_invocation_shifts_argument_to_slot_one() {
    let class = virtual_target_class(vec![
        (0, Instruction::Iload1),
        (1, Instruction::Ireturn),
    ]);
    let mut table = ClassTable::new();
    table.load_class(virtual_target_class(vec![
        (0, Instruction::Iload1),
        (1, Instruction::Ireturn),
    ]));
    let method = method_with("main", 0, vec![
        (0, Instruction::New { index: 1 }),
        (3, Instruction::Sipush { value: 33 }),
        (6, Instruction::Invokevirtual { index: 3 }),
        (9, Instruction::Ireturn),
    ]);
    let mut heap = Heap::new();
    let result = invoke_static_method(
        Vec::new(),
        &method,
        &class,
        &table,
        &mut heap,
        16,
        10_000,
    )
    .unwrap();
    expect_int(result, 33);
}

#[test]
fn virtual_invocation_binds_receiver_to_slot_zero() {
    let class = virtual_target_class(vec![
        (0, Instruction::Aload0),
        (1, Instruction::Ireturn),
    ]);
    let mut table = ClassTable::new();
    table.load_class(virtual_target_class(vec![
        (0, Instruction::Aload0),
        (1, Instruction::Ireturn),
    ]));
    let method = method_with("main", 0, vec![
        (0, Instruction::New { index: 1 }),
        (3, Instruction::Sipush { value: 33 }),
        (6, Instruction::Invokevirtual { index: 3 }),
        (9, Instruction::Ireturn),
    ]);
    let mut heap = Heap::new();
    let result = invoke_static_method(
        Vec::new(),
        &method,
        &class,
        &table,
        &mut heap,
        16,
        10_000,
    )
    .unwrap();
    match result {
        InvokeResult::Value(Value::ObjectRef(handle)) => assert_eq!(handle, 0),
        other => panic!("expected the receiver reference back, got {:?}", other),
    }
}

#[test]
fn integer_arithmetic_wraps_around() {
    let method = method_with("wraps", 2, vec![
        (0, Instruction::Iload0),
        (1, Instruction::Iload1),
        (2, Instruction::Iadd),
        (3, Instruction::Ireturn),
    ]);
    let class = bare_class("Main");
    let table = ClassTable::new();
    let mut heap = Heap::new();
    let result = invoke_static_method(
        vec![Value::Integer(i32::MAX), Value::Integer(1)],
        &method,
        &class,
        &table,
        &mut heap,
        16,
        10_000,
    )
    .unwrap();
    expect_int(result, i32::MIN);
}

#[test]
fn iinc_adds_its_constant_in_place() {
    let result = run_program(1, vec![
        (0, Instruction::Sipush { value: 40 }),
        (3, Instruction::Istore0),
        (4, Instruction::Iinc { index: 0, constant: 2 }),
        (7, Instruction::Iload0),
        (8, Instruction::Ireturn),
    ]);
    expect_int(result, 42);
}

#[test]
fn bipush_sign_extends_its_byte() {
    let result = run_program(0, vec![
        (0, Instruction::Bipush { byte: -5 }),
        (2, Instruction::Ireturn),
    ]);
    expect_int(result, -5);
}

#[test]
fn void_return_yields_void() {
    let method = method_with("main", 0, vec![(0, Instruction::Return)]);
    let class = bare_class("Main");
    let table = ClassTable::new();
    let mut heap = Heap::new();
    let result = invoke_static_method(
        Vec::new(),
        &method,
        &class,
        &table,
        &mut heap,
        16,
        10_000,
    )
    .unwrap();
    assert!(matches!(result, InvokeResult::Void));
}

#[test]
fn direct_virtual_invocation_binds_receiver_and_argument() {
    let class = bare_class("C");
    let method = method_with("pick", 2, vec![
        (0, Instruction::Iload1),
        (1, Instruction::Ireturn),
    ]);
    let table = ClassTable::new();
    let mut heap = Heap::new();
    let receiver = heap.alloc_object(0, Vec::new());
    let result = invoke_virtual_method(
        receiver,
        &method,
        vec![Value::Integer(77)],
        &class,
        &table,
        &mut heap,
        16,
        10_000,
    )
    .unwrap();
    expect_int(result, 77);
}

#[test]
fn interpret_drives_a_prepared_frame() {
    let method = method_with("twice", 2, vec![
        (0, Instruction::Iload0),
        (1, Instruction::Iload0),
        (2, Instruction::Iadd),
        (3, Instruction::Ireturn),
    ]);
    let class = bare_class("Main");
    let table = ClassTable::new();
    let mut heap = Heap::new();
    let mut frame = StackFrame::new_frame_with_locals(8, 2, vec![Value::Integer(21)]);
    let result = interpret(&mut frame, &method, &class, &table, &mut heap, 16, 10_000).unwrap();
    expect_int(result, 42);
}

#[test]
fn pop_discards_the_top_operand() {
    let result = run_program(0, vec![
        (0, Instruction::Iconst1),
        (1, Instruction::Iconst2),
        (2, Instruction::Pop),
        (3, Instruction::Ireturn),
    ]);
    expect_int(result, 1);
}
