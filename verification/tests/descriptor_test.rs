use yajvm::codegen::descriptor::{
    parse_field_type_descriptor, parse_method_descriptor, try_parse_method_descriptor, BaseType,
    FieldType,
};

#[test]
fn test_parse_method_descriptor() {
    let descriptor = String::from("(Ljava/lang/String;I)V");
    let method_type = parse_method_descriptor(&descriptor);
    assert_eq!(method_type.parameter_types.len(), 2);
    assert_eq!(method_type.return_type, None);

    let descriptor = String::from("(Ljava/lang/String;I)I");
    let method_type = parse_method_descriptor(&descriptor);
    assert_eq!(method_type.parameter_types.len(), 2);
    assert_eq!(
        method_type.return_type,
        Some(FieldType::BaseType(BaseType::Int))
    );

    let descriptor = String::from("()V");
    let method_type = parse_method_descriptor(&descriptor);
    assert_eq!(method_type.parameter_types.len(), 0);
    assert_eq!(method_type.return_type, None);

    let descriptor = String::from("()I");
    let method_type = parse_method_descriptor(&descriptor);
    assert_eq!(method_type.parameter_types.len(), 0);
    assert_eq!(
        method_type.return_type,
        Some(FieldType::BaseType(BaseType::Int))
    );

    let descriptor = String::from("()Ljava/lang/String;");
    let method_type = parse_method_descriptor(&descriptor);
    assert_eq!(method_type.parameter_types.len(), 0);
    assert_eq!(
        method_type.return_type,
        Some(FieldType::ObjectType(String::from("java/lang/String")))
    );

    // Variable String array
    let descriptor = String::from("([Ljava/lang/String;)V");
    let method_type = parse_method_descriptor(&descriptor);
    assert_eq!(method_type.parameter_types.len(), 1);
    assert_eq!(
        method_type.parameter_types[0],
        FieldType::ArrayType(Box::new(FieldType::ObjectType(String::from(
            "java/lang/String"
        )))),
    );
}

#[test]
fn test_parse_field_type_descriptor() {
    let descriptor = String::from("Ljava/lang/String;");
    let field_type = parse_field_type_descriptor(&descriptor);
    assert_eq!(
        field_type,
        FieldType::ObjectType(String::from("java/lang/String"))
    );
}

#[test]
fn test_java_lang_types_objects() {
    let descriptor = String::from("Ljava/lang/Byte;");
    let field_type = parse_field_type_descriptor(&descriptor);
    assert_eq!(field_type, FieldType::ObjectTypeJavaLangByte);

    let descriptor = String::from("Ljava/lang/Char;");
    let field_type = parse_field_type_descriptor(&descriptor);
    assert_eq!(field_type, FieldType::ObjectTypeJavaLangChar);

    let descriptor = String::from("Ljava/lang/Double;");
    let field_type = parse_field_type_descriptor(&descriptor);
    assert_eq!(field_type, FieldType::ObjectTypeJavaLangDouble);

    let descriptor = String::from("Ljava/lang/Float;");
    let field_type = parse_field_type_descriptor(&descriptor);
    assert_eq!(field_type, FieldType::ObjectTypeJavaLangFloat);

    let descriptor = String::from("Ljava/lang/Integer;");
    let field_type = parse_field_type_descriptor(&descriptor);
    assert_eq!(field_type, FieldType::ObjectTypeJavaLangInteger);

    let descriptor = String::from("Ljava/lang/Long;");
    let field_type = parse_field_type_descriptor(&descriptor);
    assert_eq!(field_type, FieldType::ObjectTypeJavaLangLong);

    let descriptor = String::from("Ljava/lang/Short;");
    let field_type = parse_field_type_descriptor(&descriptor);
    assert_eq!(field_type, FieldType::ObjectTypeJavaLangShort);

    let descriptor = String::from("Ljava/lang/Boolean;");
    let field_type = parse_field_type_descriptor(&descriptor);
    assert_eq!(field_type, FieldType::ObjectTypeJavaLangBoolean);
}

#[test]
fn test_method_descriptor_round_trip() {
    let cases = [
        "(Ljava/lang/String;I)V",
        "([Ljava/lang/String;)V",
        "(IJFD[I[[Lfoo/Bar;Ljava/lang/Integer;)Ljava/lang/String;",
        "()V",
        "()I",
    ];
    for text in cases {
        let descriptor = String::from(text);
        let parsed = parse_method_descriptor(&descriptor);
        let rendered = parsed.descriptor_string();
        assert_eq!(rendered, descriptor);
        let reparsed = parse_method_descriptor(&rendered);
        assert_eq!(reparsed, parsed);
    }
}

#[test]
fn test_malformed_descriptor_rejected() {
    assert!(try_parse_method_descriptor(&String::from("")).is_none());
    assert!(try_parse_method_descriptor(&String::from("I)V")).is_none());
    assert!(try_parse_method_descriptor(&String::from("(I")).is_none());
    assert!(try_parse_method_descriptor(&String::from("(Q)V")).is_none());
    assert!(try_parse_method_descriptor(&String::from("(Lfoo)V")).is_none());
    assert!(try_parse_method_descriptor(&String::from("(I)")).is_none());
    assert!(try_parse_method_descriptor(&String::from("(I)I")).is_some());
}
