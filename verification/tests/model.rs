use ironjdk::classfile::{
    Attribute, ClassFile, ConstantPool, ConstantPoolEntry, Field, Method, ResolutionError,
};
use ironjdk::descriptor::FieldDescriptor;
use ironjdk::heap::{Heap, IntArray, Object};
use ironjdk::instruction::Instruction;
use ironjdk::rtclass::{ClassTable, RuntimeClass, RuntimeField, RuntimeMethod};
use ironjdk::stack::StackFrame;
use ironjdk::value::Value;

fn sample_pool() -> ConstantPool {
    ConstantPool {
        entries: vec![
            ConstantPoolEntry::Class { name_index: 2 },
            ConstantPoolEntry::Utf8("Sample".to_string()),
            ConstantPoolEntry::Fieldref { class_index: 1, name_and_type_index: 4 },
            ConstantPoolEntry::NameAndType { name_index: 5, descriptor_index: 6 },
            ConstantPoolEntry::Utf8("f".to_string()),
            ConstantPoolEntry::Utf8("I".to_string()),
            ConstantPoolEntry::Methodref { class_index: 1, name_and_type_index: 8 },
            ConstantPoolEntry::NameAndType { name_index: 9, descriptor_index: 10 },
            ConstantPoolEntry::Utf8("run".to_string()),
            ConstantPoolEntry::Utf8("()V".to_string()),
        ],
    }
}

#[test]
fn constant_pool_indexing_is_one_based() {
    let pool = sample_pool();
    assert!(pool.get(0).is_none());
    assert!(matches!(pool.get(1), Some(ConstantPoolEntry::Class { name_index: 2 })));
    assert!(pool.get(11).is_none());
    assert_eq!(pool.size(), 10);
}

#[test]
fn get_utf8_reads_strings_and_rejects_other_kinds() {
    let pool = sample_pool();
    assert_eq!(pool.get_utf8(2).unwrap(), "Sample");
    assert!(pool.get_utf8(1).is_err());
    assert!(pool.get_utf8(0).is_err());
}

#[test]
fn class_name_resolves_through_the_class_entry() {
    let pool = sample_pool();
    assert_eq!(pool.get_class_name(1).unwrap(), "Sample");
    assert!(matches!(
        pool.get_class_name(2),
        Err(ResolutionError::UnexpectedConstantPoolEntry)
    ));
    assert!(matches!(
        pool.get_class_name(0),
        Err(ResolutionError::ConstantPoolIndexOutOfBounds)
    ));
}

#[test]
fn field_and_method_references_resolve() {
    let pool = sample_pool();
    let f = pool.get_field_ref(3).unwrap();
    assert_eq!(f.class_name, "Sample");
    assert_eq!(f.name, "f");
    assert_eq!(f.descriptor, "I");
    let m = pool.get_method_ref(7).unwrap();
    assert_eq!(m.name, "run");
    assert_eq!(m.descriptor, "()V");
    assert!(pool.get_field_ref(7).is_err());
    assert!(pool.get_method_ref(3).is_err());
}

fn sample_class_file() -> ClassFile {
    // Pool: 1 Class("Sample"), 2 Utf8("Sample"), 3 Utf8("f"), 4 Utf8("I"),
    //       5 Utf8("run"), 6 Utf8("bare")
    let pool = ConstantPool {
        entries: vec![
            ConstantPoolEntry::Class { name_index: 2 },
            ConstantPoolEntry::Utf8("Sample".to_string()),
            ConstantPoolEntry::Utf8("f".to_string()),
            ConstantPoolEntry::Utf8("I".to_string()),
            ConstantPoolEntry::Utf8("run".to_string()),
            ConstantPoolEntry::Utf8("bare".to_string()),
        ],
    };
    ClassFile {
        magic: 0xCAFEBABE,
        minor_version: 0,
        major_version: 52,
        constant_pool: pool,
        access_flags: 0x21,
        this_class: 1,
        super_class: 0,
        interfaces: Vec::new(),
        fields: vec![Field {
            access_flags: 2,
            name_index: 3,
            descriptor_index: 4,
            attributes: Vec::new(),
        }],
        methods: vec![
            Method {
                access_flags: 9,
                name_index: 5,
                descriptor_index: 4,
                attributes: vec![Attribute::Code {
                    max_stack: 1,
                    max_locals: 1,
                    code: vec![0x03, 0xac],
                    exceptions: Vec::new(),
                    attributes: Vec::new(),
                }],
            },
            Method {
                access_flags: 1,
                name_index: 6,
                descriptor_index: 4,
                attributes: Vec::new(),
            },
        ],
        attributes: Vec::new(),
    }
}

#[test]
fn class_file_root_detection_uses_the_superclass_index() {
    let cf = sample_class_file();
    assert!(cf.is_java_lang_object());
}

#[test]
fn find_method_matches_name_and_access_flags() {
    let cf = sample_class_file();
    let m = cf.find_method("run", 9).unwrap();
    assert_eq!(m.name_index, 5);
    assert!(cf.find_method("run", 2).is_none());
    assert!(cf.find_method("nope", 0).is_none());
}

#[test]
fn runtime_class_resolves_fields_and_methods() {
    let cf = sample_class_file();
    let rc = RuntimeClass::from_class_file(&cf).unwrap();
    assert_eq!(rc.class_name, "Sample");
    assert_eq!(rc.fields.len(), 1);
    assert_eq!(rc.fields[0].name, "f");
    assert!(matches!(rc.fields[0].descriptor, FieldDescriptor::Integer));
    // The method without a code body is dropped from the resolved list.
    assert_eq!(rc.methods.len(), 1);
    assert_eq!(rc.methods[0].name, "run");
    let code = &rc.methods[0].code;
    assert_eq!(code.max_stack, 1);
    assert_eq!(code.max_locals, 1);
    assert_eq!(code.instructions.len(), 2);
    assert!(matches!(code.instructions[0].instruction, Instruction::Iconst0));
    assert!(matches!(code.instructions[1].instruction, Instruction::Ireturn));
}

#[test]
fn runtime_class_rejects_a_bad_field_descriptor() {
    let mut cf = sample_class_file();
    cf.fields[0].descriptor_index = 3;  // "f" is not a valid descriptor
    assert!(matches!(
        RuntimeClass::from_class_file(&cf),
        Err(ResolutionError::InvalidFieldDescriptor)
    ));
}

#[test]
fn field_conversion_reads_the_pool() {
    let cf = sample_class_file();
    let rf = RuntimeField::from_class_field(&cf.fields[0], &cf.constant_pool).unwrap();
    assert_eq!(rf.name, "f");
    assert_eq!(rf.access_flags, 2);
    assert!(matches!(rf.descriptor, FieldDescriptor::Integer));
}

#[test]
fn method_conversion_without_code_yields_none() {
    let cf = sample_class_file();
    let r = RuntimeMethod::from_class_method(&cf.methods[1], &cf.constant_pool).unwrap();
    assert!(r.is_none());
}

#[test]
fn get_method_takes_the_first_declaration_of_a_name() {
    let make = |tagged: u16| RuntimeMethod {
        name: "twin".to_string(),
        access_flags: tagged,
        code: ironjdk::rtclass::Code {
            max_stack: 0,
            max_locals: 0,
            instructions: Vec::new(),
        },
    };
    let rc = RuntimeClass {
        class_name: "Twins".to_string(),
        constant_pool: ConstantPool { entries: Vec::new() },
        fields: Vec::new(),
        methods: vec![make(1), make(2)],
    };
    let found = rc.get_method("twin").unwrap();
    assert_eq!(found.access_flags, 1);
    assert!(rc.get_method("other").is_none());
}

fn named_class(name: &str) -> RuntimeClass {
    RuntimeClass {
        class_name: name.to_string(),
        constant_pool: ConstantPool { entries: Vec::new() },
        fields: Vec::new(),
        methods: Vec::new(),
    }
}

#[test]
fn class_table_registers_and_looks_up_by_name() {
    let mut table = ClassTable::new();
    assert!(table.get_class("A").is_none());
    table.load_class(named_class("A"));
    table.load_class(named_class("B"));
    assert_eq!(table.len(), 2);
    assert_eq!(table.get_class("A").unwrap().class_name, "A");
    assert_eq!(table.get_class("B").unwrap().class_name, "B");
    assert!(table.get_class("C").is_none());
}

#[test]
fn loading_a_name_twice_replaces_the_entry() {
    let mut table = ClassTable::new();
    table.load_class(named_class("A"));
    let mut replacement = named_class("A");
    replacement.fields.push(RuntimeField {
        access_flags: 0,
        name: "x".to_string(),
        descriptor: FieldDescriptor::Integer,
    });
    table.load_class(replacement);
    assert_eq!(table.len(), 1);
    assert_eq!(table.get_class("A").unwrap().fields.len(), 1);
}

#[test]
fn frames_pad_seed_locals_with_nulls() {
    let frame = StackFrame::new_frame_with_locals(
        4,
        3,
        vec![Value::Integer(7)],
    );
    assert_eq!(frame.locals.len(), 3);
    assert!(matches!(frame.locals[0], Value::Integer(7)));
    assert!(matches!(frame.locals[1], Value::Null));
    assert!(matches!(frame.locals[2], Value::Null));
    assert!(frame.stack.is_empty());
}

#[test]
fn fresh_frames_hold_nulls() {
    let frame = StackFrame::new_frame(4, 2);
    assert_eq!(frame.locals.len(), 2);
    assert!(matches!(frame.locals[0], Value::Null));
}

#[test]
fn operand_stack_is_lifo() {
    let mut frame = StackFrame::new_frame(4, 0);
    frame.push_int(1);
    frame.push_int(2);
    assert_eq!(frame.pop_int().unwrap(), 2);
    assert_eq!(frame.pop_int().unwrap(), 1);
    assert!(frame.pop().is_none());
}

#[test]
fn pop_many_yields_values_topmost_first() {
    let mut frame = StackFrame::new_frame(4, 0);
    frame.push_int(1);
    frame.push_int(2);
    frame.push_int(3);
    let popped = frame.pop_many(2).unwrap();
    assert_eq!(popped.len(), 2);
    assert!(matches!(popped[0], Value::Integer(3)));
    assert!(matches!(popped[1], Value::Integer(2)));
    assert_eq!(frame.pop_int().unwrap(), 1);
}

#[test]
fn pop_many_underflow_yields_none() {
    let mut frame = StackFrame::new_frame(4, 0);
    frame.push_int(1);
    assert!(frame.pop_many(2).is_none());
}

#[test]
fn typed_pops_reject_wrong_tags() {
    let mut frame = StackFrame::new_frame(4, 0);
    frame.push(Value::Null);
    assert!(frame.pop_int().is_err());
    frame.push(Value::Integer(1));
    assert!(frame.pop_object_reference().is_err());
    frame.push(Value::ObjectRef(0));
    assert!(frame.pop_int_array().is_err());
}

#[test]
fn typed_locals_round_trip() {
    let mut frame = StackFrame::new_frame(4, 2);
    frame.set_int_local(1, 55);
    assert_eq!(frame.get_int_local(1).unwrap(), 55);
    assert!(frame.get_int_local(0).is_err());
    frame.set_local(0, Value::ObjectRef(3));
    assert!(matches!(*frame.get_local(0), Value::ObjectRef(3)));
}

#[test]
fn int_arrays_start_zeroed_and_update_in_place() {
    let mut array = IntArray::new(3);
    assert_eq!(array.len(), 3);
    assert_eq!(array.get(0), 0);
    array.set(1, 42);
    assert_eq!(array.get(1), 42);
    assert_eq!(array.get(2), 0);
}

#[test]
fn object_fields_put_and_get_by_name() {
    let class = RuntimeClass {
        class_name: "C".to_string(),
        constant_pool: ConstantPool { entries: Vec::new() },
        fields: vec![
            RuntimeField {
                access_flags: 0,
                name: "a".to_string(),
                descriptor: FieldDescriptor::Integer,
            },
            RuntimeField {
                access_flags: 0,
                name: "b".to_string(),
                descriptor: FieldDescriptor::Integer,
            },
        ],
        methods: Vec::new(),
    };
    let mut object = Object { class_index: 0, fields: class.default_fields() };
    assert!(object.put_field(&class, "b", Value::Integer(9)));
    assert!(matches!(object.get_field(&class, "b"), Some(Value::Integer(9))));
    assert!(matches!(object.get_field(&class, "a"), Some(Value::Integer(0))));
    assert!(!object.put_field(&class, "missing", Value::Null));
    assert!(object.get_field(&class, "missing").is_none());
}

#[test]
fn heap_handles_are_stable_and_shared() {
    let mut heap = Heap::new();
    let first = heap.alloc_int_array(2);
    let second = heap.alloc_int_array(1);
    assert_eq!(first, 0);
    assert_eq!(second, 1);
    // Two values carrying the same handle alias the same record.
    let alias_one = Value::IntegerArrayRef(first);
    let alias_two = alias_one;
    if let (Value::IntegerArrayRef(h1), Value::IntegerArrayRef(h2)) = (alias_one, alias_two) {
        heap.array_set(h1, 0, 7);
        assert_eq!(heap.array_get(h2, 0), 7);
    } else {
        panic!("expected array references");
    }
}

#[test]
fn values_copy_by_tag() {
    let v = Value::Integer(5);
    let w = v;
    assert_eq!(v, w);
    assert_ne!(Value::Integer(5), Value::Long(5));
    assert_ne!(Value::ObjectRef(0), Value::IntegerArrayRef(0));
}
