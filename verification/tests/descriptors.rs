use ironjdk::descriptor::{FieldDescriptor, FieldType, MethodDescriptor, ReturnDescriptor};

#[test]
fn parses_two_int_params_and_int_return() {
    let md = MethodDescriptor::parse("(II)I").unwrap();
    assert_eq!(md.parameters_length(), 2);
    assert!(matches!(md.parameter_descriptors[0], FieldType::Integer));
    assert!(matches!(md.parameter_descriptors[1], FieldType::Integer));
    assert!(matches!(md.return_descriptor, ReturnDescriptor::Field(FieldType::Integer)));
}

#[test]
fn parses_empty_params_and_void_return() {
    let md = MethodDescriptor::parse("()V").unwrap();
    assert_eq!(md.parameters_length(), 0);
    assert!(matches!(md.return_descriptor, ReturnDescriptor::Void));
}

#[test]
fn parses_class_reference_param() {
    let md = MethodDescriptor::parse("(Ljava/lang/String;)V").unwrap();
    assert_eq!(md.parameters_length(), 1);
    match &md.parameter_descriptors[0] {
        FieldType::Class(name) => assert_eq!(name, "java/lang/String"),
        other => panic!("expected a class parameter, got {:?}", other),
    }
    assert!(matches!(md.return_descriptor, ReturnDescriptor::Void));
}

#[test]
fn missing_closing_parenthesis_fails() {
    assert!(MethodDescriptor::parse("(II").is_none());
}

#[test]
fn missing_opening_parenthesis_fails() {
    assert!(MethodDescriptor::parse("II)I").is_none());
}

#[test]
fn array_descriptor_fails() {
    assert!(MethodDescriptor::parse("([I)V").is_none());
}

#[test]
fn unterminated_class_reference_fails() {
    assert!(MethodDescriptor::parse("(Ljava/lang/String)V").is_none());
}

#[test]
fn unknown_letter_fails() {
    assert!(MethodDescriptor::parse("(XX)V").is_none());
}

#[test]
fn empty_descriptor_fails() {
    assert!(MethodDescriptor::parse("").is_none());
}

#[test]
fn mixed_params_parse_in_order() {
    let md = MethodDescriptor::parse("(ILjava/lang/Object;S)J").unwrap();
    assert_eq!(md.parameters_length(), 3);
    assert!(matches!(md.parameter_descriptors[0], FieldType::Integer));
    assert!(matches!(md.parameter_descriptors[1], FieldType::Class(_)));
    assert!(matches!(md.parameter_descriptors[2], FieldType::Short));
    assert!(matches!(md.return_descriptor, ReturnDescriptor::Field(FieldType::Long)));
}

#[test]
fn field_descriptor_integer() {
    assert!(matches!(FieldDescriptor::from_str("I"), Some(FieldDescriptor::Integer)));
}

#[test]
fn field_descriptor_boolean() {
    assert!(matches!(FieldDescriptor::from_str("Z"), Some(FieldDescriptor::Boolean)));
}

#[test]
fn field_descriptor_class_reference() {
    match FieldDescriptor::from_str("Ljava/lang/String;") {
        Some(FieldDescriptor::ClassReference { class_name }) => {
            assert_eq!(class_name, "java/lang/String");
        },
        other => panic!("expected a class reference, got {:?}", other),
    }
}

#[test]
fn field_descriptor_array_unsupported() {
    assert!(FieldDescriptor::from_str("[I").is_none());
}

#[test]
fn field_descriptor_empty_fails() {
    assert!(FieldDescriptor::from_str("").is_none());
}

#[test]
fn field_descriptor_unknown_letter_fails() {
    assert!(FieldDescriptor::from_str("Q").is_none());
}
