use ritual::cpp_data::{
    CppClassField, CppEnumValue, CppName, CppTypeData, CppTypeDataKind, CppVisibility,
};
use ritual::cpp_type::{
    CppBuiltInNumericType, CppFunctionPointerType, CppPath, CppPointerLikeTypeKind, CppType,
};
use ritual::errors::FfiError;

fn int_type() -> CppType {
    CppType::BuiltInNumeric(CppBuiltInNumericType::Int)
}

fn path(parts: &[&str]) -> CppPath {
    CppPath::from_name(CppName::from_parts(parts))
}

fn template_parameter() -> CppType {
    CppType::TemplateParameter { nested_level: 0, index: 0, name: "T".to_string() }
}

fn vector_of(t: CppType) -> CppPath {
    CppPath { name: CppName::from_parts(&["std", "vector"]), template_arguments: Some(vec![t]) }
}

#[test]
fn name_from_one_part() {
    let name = CppName::from_one_part("QWidget");
    assert_eq!(name.parts, vec!["QWidget".to_string()]);
    assert_eq!(name.to_cpp_code(), "QWidget");
    assert_eq!(name.to_string(), "QWidget");
}

#[test]
fn name_from_parts() {
    let name = CppName::from_parts(&["Qt", "Core", "QObject"]);
    assert_eq!(name.parts.len(), 3);
    assert_eq!(name.to_cpp_code(), "Qt::Core::QObject");
    assert_eq!(name.to_string(), "Qt::Core::QObject");
    assert_eq!(CppName::from_parts(&[]).to_cpp_code(), "");
    assert_eq!(CppName::from_parts(&[]).to_string(), "");
    assert_eq!(CppName::from_parts(&["a", "b"]).to_string(), "a::b");
}

#[test]
fn names_compare_by_parts() {
    let a = CppName::from_parts(&["a", "b"]);
    assert!(a.is_same(&a.clone()));
    assert!(!a.is_same(&CppName::from_parts(&["a"])));
    assert!(!a.is_same(&CppName::from_parts(&["a", "c"])));
    assert!(!a.is_same(&CppName::from_one_part("a::b")));
}

#[test]
fn path_code_with_template_arguments() {
    assert_eq!(path(&["ns", "A"]).to_cpp_code().unwrap(), "ns::A");
    assert_eq!(vector_of(int_type()).to_cpp_code().unwrap(), "std::vector< int >");
    let map = CppPath {
        name: CppName::from_one_part("QMap"),
        template_arguments: Some(vec![int_type(), CppType::new_pointer(true, CppType::Void)]),
    };
    assert_eq!(map.to_cpp_code().unwrap(), "QMap< int, const void* >");
    assert_eq!(vector_of(template_parameter()).to_cpp_code().err(), Some(FfiError::TemplateParameter));
}

#[test]
fn type_code() {
    assert_eq!(CppType::Void.to_cpp_code(None).unwrap(), "void");
    assert_eq!(
        CppType::BuiltInNumeric(CppBuiltInNumericType::ULongLong).to_cpp_code(None).unwrap(),
        "unsigned long long"
    );
    assert_eq!(CppType::Enum { path: path(&["Qt", "Key"]) }.to_cpp_code(None).unwrap(), "Qt::Key");
    assert_eq!(
        CppType::new_reference(true, CppType::Class(path(&["QString"]))).to_cpp_code(None).unwrap(),
        "const QString&"
    );
    let rvalue = CppType::PointerLike {
        kind: CppPointerLikeTypeKind::RValueReference,
        is_const: false,
        target: Box::new(int_type()),
    };
    assert_eq!(rvalue.to_cpp_code(None).unwrap(), "int&&");
    assert_eq!(
        CppType::new_pointer(false, CppType::new_pointer(true, int_type())).to_cpp_code(None).unwrap(),
        "const int**"
    );
}

#[test]
fn type_code_errors() {
    assert_eq!(int_type().to_cpp_code(Some("x")).err(), Some(FfiError::UnexpectedInnerText));
    assert_eq!(template_parameter().to_cpp_code(None).err(), Some(FfiError::TemplateParameter));
    let f = CppType::FunctionPointer(CppFunctionPointerType {
        return_type: Box::new(CppType::Void),
        arguments: vec![],
        allows_variadic_arguments: false,
    });
    assert_eq!(f.to_cpp_code(None).err(), Some(FfiError::MissingInnerText));
    assert_eq!(f.to_cpp_code(Some("cb")).unwrap(), "void (*cb)()");
    assert_eq!(
        CppType::new_pointer(false, f).to_cpp_code(None).err(),
        Some(FfiError::MissingInnerText)
    );
    let variadic = CppType::FunctionPointer(CppFunctionPointerType {
        return_type: Box::new(CppType::Void),
        arguments: vec![],
        allows_variadic_arguments: true,
    });
    assert_eq!(variadic.to_cpp_code(Some("cb")).err(), Some(FfiError::UnsupportedFunctionPointer));
    let bad_argument = CppType::FunctionPointer(CppFunctionPointerType {
        return_type: Box::new(CppType::Void),
        arguments: vec![int_type(), template_parameter()],
        allows_variadic_arguments: false,
    });
    assert_eq!(bad_argument.to_cpp_code(Some("cb")).err(), Some(FfiError::TemplateParameter));
}

#[test]
fn pseudo_code_never_fails() {
    assert_eq!(template_parameter().to_cpp_pseudo_code(), "T");
    assert_eq!(vector_of(template_parameter()).to_cpp_pseudo_code(), "std::vector<T>");
    assert_eq!(
        CppType::new_reference(true, CppType::Class(vector_of(int_type()))).to_cpp_pseudo_code(),
        "const std::vector<int>&"
    );
    let f = CppType::FunctionPointer(CppFunctionPointerType {
        return_type: Box::new(int_type()),
        arguments: vec![int_type(), int_type()],
        allows_variadic_arguments: false,
    });
    assert_eq!(f.to_cpp_pseudo_code(), "int (*FN_PTR)(int, int)");
    let variadic = CppType::FunctionPointer(CppFunctionPointerType {
        return_type: Box::new(int_type()),
        arguments: vec![],
        allows_variadic_arguments: true,
    });
    assert_eq!(variadic.to_cpp_pseudo_code(), "[?]");
    assert_eq!(CppType::Enum { path: vector_of(template_parameter()) }.to_cpp_pseudo_code(), "[?]");
    assert_eq!(CppType::Void.to_cpp_pseudo_code(), "void");
}

#[test]
fn captions_of_types_and_paths() {
    assert_eq!(path(&["Qt", "QWidget"]).ascii_caption(), "Qt_QWidget");
    assert_eq!(vector_of(int_type()).ascii_caption(), "std_vector_int");
    assert_eq!(CppType::Void.ascii_caption(), "void");
    assert_eq!(
        CppType::BuiltInNumeric(CppBuiltInNumericType::UInt).ascii_caption(),
        "unsigned_int"
    );
    assert_eq!(
        CppType::new_pointer(true, CppType::Class(path(&["QObject"]))).ascii_caption(),
        "QObject_const_ptr"
    );
    assert_eq!(CppType::new_reference(false, int_type()).ascii_caption(), "int_ref");
    let rvalue = CppType::PointerLike {
        kind: CppPointerLikeTypeKind::RValueReference,
        is_const: false,
        target: Box::new(int_type()),
    };
    assert_eq!(rvalue.ascii_caption(), "int_rref");
    let f = CppType::FunctionPointer(CppFunctionPointerType {
        return_type: Box::new(int_type()),
        arguments: vec![],
        allows_variadic_arguments: false,
    });
    assert_eq!(f.ascii_caption(), "func");
    assert_eq!(template_parameter().ascii_caption(), "T");
    let two = CppPath {
        name: CppName::from_one_part("QMap"),
        template_arguments: Some(vec![int_type(), CppType::Class(path(&["QString"]))]),
    };
    assert_eq!(two.ascii_caption(), "QMap_int_QString");
    assert_eq!(path(&["A", "operator=="]).ascii_caption(), "A_operator__");
}

fn field(visibility: CppVisibility, field_type: CppType) -> CppClassField {
    CppClassField {
        name: "count".to_string(),
        field_type,
        visibility,
        class_type: path(&["ns", "Widget"]),
        is_const: false,
        is_static: false,
    }
}

#[test]
fn field_short_text() {
    assert_eq!(
        field(CppVisibility::Public, int_type()).short_text(),
        "class ns::Widget { int count; }"
    );
    assert_eq!(
        field(CppVisibility::Protected, CppType::new_pointer(true, int_type())).short_text(),
        "class ns::Widget { protected const int* count; }"
    );
    assert_eq!(
        field(CppVisibility::Private, template_parameter()).short_text(),
        "class ns::Widget { private T count; }"
    );
}

#[test]
fn fields_compare_in_every_respect() {
    let a = field(CppVisibility::Public, int_type());
    assert!(a.is_same(&a.clone()));
    assert!(!a.is_same(&field(CppVisibility::Private, int_type())));
    assert!(!a.is_same(&field(CppVisibility::Public, CppType::Void)));
    let mut b = a.clone();
    b.is_static = true;
    assert!(!a.is_same(&b));
    let mut c = a.clone();
    c.name = "other".to_string();
    assert!(!a.is_same(&c));
    let mut d = a.clone();
    d.class_type = path(&["Widget"]);
    assert!(!a.is_same(&d));
}

fn enum_value(name: &str, value: u64, doc: Option<&str>) -> CppEnumValue {
    CppEnumValue {
        name: name.to_string(),
        value,
        doc: doc.map(|d| d.to_string()),
        enum_name: CppName::from_parts(&["Qt", "Key"]),
    }
}

#[test]
fn enum_values_compare_without_documentation() {
    let a = enum_value("Key_A", 65, None);
    assert!(a.is_same(&enum_value("Key_A", 65, Some("the key A"))));
    assert!(!a.is_same(&enum_value("Key_B", 65, None)));
    assert!(!a.is_same(&enum_value("Key_A", 66, None)));
    let mut other = enum_value("Key_A", 65, None);
    other.enum_name = CppName::from_parts(&["Qt", "Keys"]);
    assert!(!a.is_same(&other));
}

#[test]
fn enum_value_full_name_replaces_last_part() {
    let a = enum_value("Key_A", 65, None);
    assert_eq!(a.full_name().to_cpp_code(), "Qt::Key_A");
    let mut top = enum_value("Red", 0, None);
    top.enum_name = CppName::from_one_part("Color");
    assert_eq!(top.full_name().parts, vec!["Red".to_string()]);
}

#[test]
fn type_data_kinds() {
    assert!(CppTypeDataKind::Enum.is_enum());
    assert!(!CppTypeDataKind::Enum.is_class());
    let class = CppTypeDataKind::Class { type_base: path(&["A"]) };
    assert!(class.is_class());
    assert!(!class.is_enum());
    assert!(class.is_same(&CppTypeDataKind::Class { type_base: path(&["A"]) }));
    assert!(!class.is_same(&CppTypeDataKind::Class { type_base: path(&["B"]) }));
    assert!(!class.is_same(&CppTypeDataKind::Enum));
}

#[test]
fn type_data_compare_by_name_and_kind() {
    let a = CppTypeData {
        name: CppName::from_one_part("A"),
        kind: CppTypeDataKind::Class { type_base: path(&["A"]) },
        doc: None,
        is_movable: true,
    };
    let same = CppTypeData {
        name: CppName::from_one_part("A"),
        kind: CppTypeDataKind::Class { type_base: path(&["A"]) },
        doc: None,
        is_movable: false,
    };
    let other = CppTypeData {
        name: CppName::from_one_part("A"),
        kind: CppTypeDataKind::Enum,
        doc: None,
        is_movable: true,
    };
    assert!(a.is_same(&same));
    assert!(!a.is_same(&other));
}

#[test]
fn error_messages() {
    assert_eq!(FfiError::VariadicArguments.message(), "Variable arguments are not supported");
    assert_eq!(
        FfiError::TemplateParameter.message(),
        "template parameters cannot be expressed in FFI"
    );
    assert_eq!(FfiError::RValueReference.message(), "rvalue references are not supported");
    assert_eq!(
        FfiError::MissingInnerText.message(),
        "function_pointer_inner_text argument is missing"
    );
    assert_eq!(FfiError::UnexpectedInnerText.message(), "unexpected function_pointer_inner_text");
    assert!(!FfiError::UnsupportedFunctionPointer.message().is_empty());
    assert!(!FfiError::NotAReference.message().is_empty());
}
