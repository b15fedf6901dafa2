use ritual::cpp_data::{CppBaseSpecifier, CppClassField, CppName, CppVisibility};
use ritual::cpp_ffi_data::{
    CppCast, CppFfiArgumentMeaning, CppFfiFunction, CppFfiFunctionKind, CppFfiItem,
    CppFieldAccessorType, CppToFfiTypeConversion,
};
use ritual::cpp_ffi_generator::{
    contains_path, create_cast_method, generate_casts, generate_casts_one,
    generate_ffi_methods_for_method, generate_field_accessors, to_ffi_method, FfiNameProvider,
};
use ritual::cpp_function::{
    CppFunction, CppFunctionArgument, CppFunctionKind, CppFunctionMemberData,
    ReturnValueAllocationPlace,
};
use ritual::cpp_type::{CppBuiltInNumericType, CppPath, CppType};
use ritual::errors::FfiError;

fn int_type() -> CppType {
    CppType::BuiltInNumeric(CppBuiltInNumericType::Int)
}

fn path(parts: &[&str]) -> CppPath {
    CppPath::from_name(CppName::from_parts(parts))
}

fn class(name: &str) -> CppType {
    CppType::Class(path(&[name]))
}

fn template_parameter() -> CppType {
    CppType::TemplateParameter { nested_level: 0, index: 0, name: "T".to_string() }
}

fn argument(name: &str, argument_type: CppType, has_default_value: bool) -> CppFunctionArgument {
    CppFunctionArgument { name: name.to_string(), argument_type, has_default_value }
}

fn member(class_name: &str, kind: CppFunctionKind, is_const: bool, is_static: bool) -> CppFunctionMemberData {
    CppFunctionMemberData {
        class_type: path(&[class_name]),
        kind,
        is_virtual: false,
        is_pure_virtual: false,
        is_const,
        is_static,
        visibility: CppVisibility::Public,
        is_signal: false,
        is_slot: false,
    }
}

fn method(
    class_name: &str,
    name: &str,
    member_data: Option<CppFunctionMemberData>,
    return_type: CppType,
    arguments: Vec<CppFunctionArgument>,
) -> CppFunction {
    CppFunction {
        path: path(&[class_name, name]),
        member: member_data,
        return_type,
        arguments,
        allows_variadic_arguments: false,
    }
}

fn function_kind(f: CppFunction) -> CppFfiFunctionKind {
    CppFfiFunctionKind::Function { cpp_function: f, omitted_arguments: None, cast: None }
}

fn name_of(f: &CppFfiFunction) -> String {
    f.path.to_cpp_code().unwrap()
}

fn as_function(item: &CppFfiItem) -> &CppFfiFunction {
    item.as_function_ref().unwrap()
}

fn meanings(f: &CppFfiFunction) -> Vec<CppFfiArgumentMeaning> {
    f.arguments.iter().map(|a| a.meaning).collect()
}

#[test]
fn const_method_gets_const_this_pointer() {
    let f = method(
        "X",
        "get",
        Some(member("X", CppFunctionKind::Regular, true, false)),
        int_type(),
        vec![argument("a", int_type(), false), argument("b", class("QPoint"), false)],
    );
    let mut names = FfiNameProvider::testing();
    let r = to_ffi_method(function_kind(f), &[], &mut names).unwrap();
    assert_eq!(
        meanings(&r),
        vec![
            CppFfiArgumentMeaning::This,
            CppFfiArgumentMeaning::Argument(0),
            CppFfiArgumentMeaning::Argument(1)
        ]
    );
    assert_eq!(r.arguments[0].name, "this_ptr");
    assert!(r.arguments[0].argument_type.original_type().is_same(&CppType::new_pointer(true, class("X"))));
    assert!(r.arguments[0].argument_type.ffi_type().is_same(&CppType::new_pointer(true, class("X"))));
    assert_eq!(r.arguments[1].name, "a");
    assert_eq!(r.arguments[2].name, "b");
    assert_eq!(
        r.arguments[2].argument_type.conversion(),
        &CppToFfiTypeConversion::ValueToPointer { is_ffi_const: true }
    );
    assert!(r.return_type.ffi_type().is_same(&int_type()));
    assert_eq!(r.allocation_place, ReturnValueAllocationPlace::NotApplicable);
    assert_eq!(name_of(&r), "_X_get");
    assert_eq!(r.arguments[0].to_cpp_code().unwrap(), "const X* this_ptr");
    assert_eq!(r.arguments[2].to_cpp_code().unwrap(), "const QPoint* b");
}

#[test]
fn mutable_method_gets_mutable_this_pointer() {
    let f = method(
        "X",
        "set",
        Some(member("X", CppFunctionKind::Regular, false, false)),
        CppType::Void,
        vec![],
    );
    let mut names = FfiNameProvider::testing();
    let r = to_ffi_method(function_kind(f), &[], &mut names).unwrap();
    assert_eq!(meanings(&r), vec![CppFfiArgumentMeaning::This]);
    assert!(r.arguments[0].argument_type.ffi_type().is_same(&CppType::new_pointer(false, class("X"))));
    assert!(r.return_type.ffi_type().is_void());
}

#[test]
fn static_method_and_free_function_have_no_this_pointer() {
    let f = method(
        "X",
        "make",
        Some(member("X", CppFunctionKind::Regular, false, true)),
        int_type(),
        vec![argument("a", int_type(), false)],
    );
    let mut names = FfiNameProvider::testing();
    let r = to_ffi_method(function_kind(f), &[], &mut names).unwrap();
    assert_eq!(meanings(&r), vec![CppFfiArgumentMeaning::Argument(0)]);
    let g = method("ns", "free", None, CppType::Void, vec![]);
    let r = to_ffi_method(function_kind(g), &[], &mut names).unwrap();
    assert!(r.arguments.is_empty());
    assert_eq!(name_of(&r), "_ns_free");
}

#[test]
fn movable_class_is_returned_through_output_argument() {
    let f = method("ns", "origin", None, class("M"), vec![argument("a", int_type(), false)]);
    let movable = vec![path(&["Other"]), path(&["M"])];
    assert!(contains_path(&movable, &path(&["M"])));
    assert!(!contains_path(&movable, &path(&["N"])));
    let mut names = FfiNameProvider::testing();
    let r = to_ffi_method(function_kind(f), &movable, &mut names).unwrap();
    assert_eq!(
        meanings(&r),
        vec![CppFfiArgumentMeaning::Argument(0), CppFfiArgumentMeaning::ReturnValue]
    );
    assert_eq!(r.arguments[1].name, "output");
    assert!(r.arguments[1].argument_type.ffi_type().is_same(&CppType::new_pointer(false, class("M"))));
    assert!(r.arguments[1].argument_type.original_type().is_same(&class("M")));
    assert!(r.return_type.ffi_type().is_void());
    assert!(r.return_type.original_type().is_void());
    assert_eq!(r.allocation_place, ReturnValueAllocationPlace::Stack);
}

#[test]
fn other_class_is_returned_directly_from_the_heap() {
    let f = method("ns", "origin", None, class("M"), vec![argument("a", int_type(), false)]);
    let mut names = FfiNameProvider::testing();
    let r = to_ffi_method(function_kind(f), &[path(&["Other"])], &mut names).unwrap();
    assert_eq!(meanings(&r), vec![CppFfiArgumentMeaning::Argument(0)]);
    assert!(r.return_type.ffi_type().is_same(&CppType::new_pointer(false, class("M"))));
    assert!(r.return_type.original_type().is_same(&class("M")));
    assert_eq!(r.allocation_place, ReturnValueAllocationPlace::Heap);
}

#[test]
fn flags_are_returned_as_a_number() {
    let flags = CppType::Class(CppPath {
        name: CppName::from_one_part("QFlags"),
        template_arguments: Some(vec![int_type()]),
    });
    let f = method("ns", "flags", None, flags, vec![]);
    let mut names = FfiNameProvider::testing();
    let r = to_ffi_method(function_kind(f), &[], &mut names).unwrap();
    assert!(r.arguments.is_empty());
    assert!(r.return_type.ffi_type().is_same(&CppType::BuiltInNumeric(CppBuiltInNumericType::UInt)));
    assert_eq!(r.allocation_place, ReturnValueAllocationPlace::NotApplicable);
}

#[test]
fn constructor_returns_its_class() {
    let f = method(
        "M",
        "M",
        Some(member("M", CppFunctionKind::Constructor, false, false)),
        CppType::Void,
        vec![argument("x", int_type(), false)],
    );
    let mut names = FfiNameProvider::testing();
    let stack = to_ffi_method(function_kind(f.clone()), &[path(&["M"])], &mut names).unwrap();
    assert_eq!(
        meanings(&stack),
        vec![CppFfiArgumentMeaning::Argument(0), CppFfiArgumentMeaning::ReturnValue]
    );
    assert_eq!(stack.allocation_place, ReturnValueAllocationPlace::Stack);
    let heap = to_ffi_method(function_kind(f), &[], &mut names).unwrap();
    assert_eq!(meanings(&heap), vec![CppFfiArgumentMeaning::Argument(0)]);
    assert!(heap.return_type.ffi_type().is_same(&CppType::new_pointer(false, class("M"))));
    assert_eq!(heap.allocation_place, ReturnValueAllocationPlace::Heap);
}

#[test]
fn destructor_place_matches_constructor_place() {
    let d = method(
        "M",
        "~M",
        Some(member("M", CppFunctionKind::Destructor, false, false)),
        CppType::Void,
        vec![],
    );
    let mut names = FfiNameProvider::testing();
    let stack = to_ffi_method(function_kind(d.clone()), &[path(&["M"])], &mut names).unwrap();
    assert_eq!(stack.allocation_place, ReturnValueAllocationPlace::Stack);
    assert_eq!(meanings(&stack), vec![CppFfiArgumentMeaning::This]);
    assert_eq!(name_of(&stack), "_M_dM");
    let heap = to_ffi_method(function_kind(d), &[], &mut names).unwrap();
    assert_eq!(heap.allocation_place, ReturnValueAllocationPlace::Heap);
    assert_eq!(name_of(&heap), "_M_dM1");
}

#[test]
fn variadic_function_is_rejected_and_takes_no_name() {
    let mut f = method("ns", "printf", None, int_type(), vec![argument("a", template_parameter(), false)]);
    f.allows_variadic_arguments = true;
    let mut names = FfiNameProvider::testing();
    let r = to_ffi_method(function_kind(f), &[], &mut names);
    assert_eq!(r.err(), Some(FfiError::VariadicArguments));
    assert_eq!(names.create_path("ns_printf").to_cpp_code().unwrap(), "_ns_printf");
}

#[test]
fn first_type_without_boundary_form_decides_the_error() {
    let rvalue = CppType::PointerLike {
        kind: ritual::cpp_type::CppPointerLikeTypeKind::RValueReference,
        is_const: false,
        target: Box::new(int_type()),
    };
    let f = method(
        "ns",
        "f",
        None,
        template_parameter(),
        vec![argument("a", int_type(), false), argument("b", rvalue.clone(), false), argument("c", template_parameter(), false)],
    );
    let mut names = FfiNameProvider::testing();
    assert_eq!(to_ffi_method(function_kind(f), &[], &mut names).err(), Some(FfiError::RValueReference));
    let g = method("ns", "g", None, rvalue, vec![argument("a", int_type(), false)]);
    assert_eq!(to_ffi_method(function_kind(g), &[], &mut names).err(), Some(FfiError::RValueReference));
    let mut in_template = method(
        "X",
        "h",
        Some(member("X", CppFunctionKind::Regular, false, false)),
        CppType::Void,
        vec![argument("b", CppType::PointerLike {
            kind: ritual::cpp_type::CppPointerLikeTypeKind::RValueReference,
            is_const: false,
            target: Box::new(int_type()),
        }, false)],
    );
    in_template.member.as_mut().unwrap().class_type = CppPath {
        name: CppName::from_one_part("X"),
        template_arguments: Some(vec![template_parameter()]),
    };
    assert_eq!(
        to_ffi_method(function_kind(in_template), &[], &mut names).err(),
        Some(FfiError::TemplateParameter)
    );
    assert_eq!(names.create_path("ns_f").to_cpp_code().unwrap(), "_ns_f");
}

fn field(name: &str, field_type: CppType, visibility: CppVisibility, is_static: bool) -> CppClassField {
    CppClassField {
        name: name.to_string(),
        field_type,
        visibility,
        class_type: path(&["Widget"]),
        is_const: false,
        is_static,
    }
}

fn accessor_of(f: &CppFfiFunction) -> CppFieldAccessorType {
    match &f.kind {
        CppFfiFunctionKind::FieldAccessor { accessor_type, .. } => *accessor_type,
        _ => panic!("no accessor"),
    }
}

#[test]
fn scalar_field_has_copy_getter_and_setter() {
    let mut names = FfiNameProvider::testing();
    let r = generate_field_accessors(
        &field("count", int_type(), CppVisibility::Public, false),
        &[],
        &mut names,
    )
    .unwrap();
    assert_eq!(r.len(), 2);
    let getter = as_function(&r[0]);
    let setter = as_function(&r[1]);
    assert_eq!(accessor_of(getter), CppFieldAccessorType::CopyGetter);
    assert_eq!(accessor_of(setter), CppFieldAccessorType::Setter);
    assert_eq!(name_of(getter), "_Widget_count");
    assert_eq!(name_of(setter), "_set_Widget_count");
    assert_eq!(meanings(getter), vec![CppFfiArgumentMeaning::This]);
    assert!(getter.arguments[0].argument_type.ffi_type().is_same(&CppType::new_pointer(true, class("Widget"))));
    assert!(getter.return_type.ffi_type().is_same(&int_type()));
    assert_eq!(
        meanings(setter),
        vec![CppFfiArgumentMeaning::This, CppFfiArgumentMeaning::Argument(0)]
    );
    assert!(setter.arguments[0].argument_type.ffi_type().is_same(&CppType::new_pointer(false, class("Widget"))));
    assert_eq!(setter.arguments[1].name, "value");
    assert!(setter.arguments[1].argument_type.ffi_type().is_same(&int_type()));
    assert!(setter.return_type.ffi_type().is_void());
}

#[test]
fn class_field_has_two_reference_getters_and_setter() {
    let mut names = FfiNameProvider::testing();
    let r = generate_field_accessors(
        &field("pos", class("QPoint"), CppVisibility::Public, false),
        &[path(&["QPoint"])],
        &mut names,
    )
    .unwrap();
    assert_eq!(r.len(), 3);
    let kinds: Vec<CppFieldAccessorType> = r.iter().map(|i| accessor_of(as_function(i))).collect();
    assert_eq!(
        kinds,
        vec![
            CppFieldAccessorType::ConstRefGetter,
            CppFieldAccessorType::MutRefGetter,
            CppFieldAccessorType::Setter
        ]
    );
    let texts: Vec<String> = r.iter().map(|i| name_of(as_function(i))).collect();
    assert_eq!(texts, vec!["_Widget_pos", "_Widget_pos_mut", "_set_Widget_pos"]);
    let const_getter = as_function(&r[0]);
    assert!(const_getter.return_type.ffi_type().is_same(&CppType::new_pointer(true, class("QPoint"))));
    assert!(const_getter.return_type.original_type().is_same(&CppType::new_reference(true, class("QPoint"))));
    assert_eq!(const_getter.allocation_place, ReturnValueAllocationPlace::NotApplicable);
    let mut_getter = as_function(&r[1]);
    assert!(mut_getter.return_type.ffi_type().is_same(&CppType::new_pointer(false, class("QPoint"))));
    assert!(mut_getter.arguments[0].argument_type.ffi_type().is_same(&CppType::new_pointer(false, class("Widget"))));
    let setter = as_function(&r[2]);
    assert!(setter.arguments[1].argument_type.ffi_type().is_same(&CppType::new_pointer(true, class("QPoint"))));
}

#[test]
fn hidden_field_has_no_accessor() {
    let mut names = FfiNameProvider::testing();
    for visibility in [CppVisibility::Private, CppVisibility::Protected] {
        let r = generate_field_accessors(&field("count", int_type(), visibility, false), &[], &mut names)
            .unwrap();
        assert!(r.is_empty());
        let r = generate_field_accessors(&field("pos", class("QPoint"), visibility, false), &[], &mut names)
            .unwrap();
        assert!(r.is_empty());
    }
    assert_eq!(names.create_path("Widget_count").to_cpp_code().unwrap(), "_Widget_count");
}

#[test]
fn static_field_accessors_take_no_object() {
    let mut names = FfiNameProvider::testing();
    let r = generate_field_accessors(&field("total", int_type(), CppVisibility::Public, true), &[], &mut names)
        .unwrap();
    assert_eq!(r.len(), 2);
    assert!(as_function(&r[0]).arguments.is_empty());
    assert_eq!(meanings(as_function(&r[1])), vec![CppFfiArgumentMeaning::Argument(0)]);
}

#[test]
fn field_with_template_parameter_fails_without_taking_names() {
    let mut names = FfiNameProvider::testing();
    let r = generate_field_accessors(
        &field("item", template_parameter(), CppVisibility::Public, false),
        &[],
        &mut names,
    );
    assert_eq!(r.err(), Some(FfiError::TemplateParameter));
    assert_eq!(names.create_path("Widget_item").to_cpp_code().unwrap(), "_Widget_item");
}

fn omitted_of(f: &CppFfiFunction) -> Option<usize> {
    match &f.kind {
        CppFfiFunctionKind::Function { omitted_arguments, .. } => *omitted_arguments,
        _ => panic!("no function"),
    }
}

#[test]
fn one_overload_for_each_trailing_default() {
    let f = method(
        "W",
        "f",
        Some(member("W", CppFunctionKind::Regular, false, false)),
        CppType::Void,
        vec![
            argument("a", int_type(), true),
            argument("b", int_type(), false),
            argument("c", int_type(), true),
            argument("d", int_type(), true),
        ],
    );
    let mut names = FfiNameProvider::testing();
    let r = generate_ffi_methods_for_method(&f, &[], &mut names).unwrap();
    assert_eq!(r.len(), 3);
    let omitted: Vec<Option<usize>> = r.iter().map(|i| omitted_of(as_function(i))).collect();
    assert_eq!(omitted, vec![None, Some(1), Some(2)]);
    let counts: Vec<usize> = r.iter().map(|i| as_function(i).arguments.len()).collect();
    assert_eq!(counts, vec![5, 4, 3]);
    let texts: Vec<String> = r.iter().map(|i| name_of(as_function(i))).collect();
    assert_eq!(texts, vec!["_W_f", "_W_f1", "_W_f2"]);
    let last = as_function(&r[2]);
    assert_eq!(last.arguments[1].name, "a");
    assert_eq!(last.arguments[2].name, "b");
    match &last.kind {
        CppFfiFunctionKind::Function { cpp_function, .. } => assert_eq!(cpp_function.arguments.len(), 2),
        _ => panic!("no function"),
    }
}

#[test]
fn all_arguments_defaulted_gives_an_overload_without_arguments() {
    let f = method("ns", "f", None, CppType::Void, vec![argument("a", int_type(), true), argument("b", int_type(), true)]);
    let mut names = FfiNameProvider::testing();
    let r = generate_ffi_methods_for_method(&f, &[], &mut names).unwrap();
    assert_eq!(r.len(), 3);
    assert!(as_function(&r[2]).arguments.is_empty());
    assert_eq!(omitted_of(as_function(&r[2])), Some(2));
}

#[test]
fn function_without_defaults_has_one_boundary_function() {
    let f = method("ns", "f", None, CppType::Void, vec![argument("a", int_type(), true), argument("b", int_type(), false)]);
    let mut names = FfiNameProvider::testing();
    let r = generate_ffi_methods_for_method(&f, &[], &mut names).unwrap();
    assert_eq!(r.len(), 1);
    assert_eq!(omitted_of(as_function(&r[0])), None);
    let g = method("ns", "g", None, CppType::Void, vec![]);
    assert_eq!(generate_ffi_methods_for_method(&g, &[], &mut names).unwrap().len(), 1);
}

#[test]
fn failing_function_gives_no_overload() {
    let f = method(
        "ns",
        "f",
        None,
        CppType::Void,
        vec![argument("a", int_type(), false), argument("b", template_parameter(), true)],
    );
    let mut names = FfiNameProvider::testing();
    assert_eq!(
        generate_ffi_methods_for_method(&f, &[], &mut names).err(),
        Some(FfiError::TemplateParameter)
    );
    assert_eq!(names.create_path("ns_f").to_cpp_code().unwrap(), "_ns_f");
}

fn cast_of(f: &CppFfiFunction) -> Option<CppCast> {
    match &f.kind {
        CppFfiFunctionKind::Function { cast, .. } => *cast,
        _ => panic!("no function"),
    }
}

#[test]
fn three_casts_for_a_base() {
    let base = CppBaseSpecifier {
        base_class_type: path(&["B"]),
        base_index: 2,
        is_virtual: false,
        visibility: CppVisibility::Public,
        derived_class_type: path(&["D"]),
    };
    let mut names = FfiNameProvider::testing();
    let r = generate_casts(&base, &mut names).unwrap();
    assert_eq!(r.len(), 3);
    let b_ptr = CppType::new_pointer(false, class("B"));
    let d_ptr = CppType::new_pointer(false, class("D"));
    let expected = [
        (Some(CppCast::Static { is_unsafe: true, base_index: 2 }), &b_ptr, &d_ptr, "_static_cast_D_ptr"),
        (Some(CppCast::Static { is_unsafe: false, base_index: 2 }), &d_ptr, &b_ptr, "_static_cast_B_ptr"),
        (Some(CppCast::Dynamic), &b_ptr, &d_ptr, "_dynamic_cast_D_ptr"),
    ];
    for (item, (cast, from, to, name)) in r.iter().zip(expected.iter()) {
        let f = as_function(item);
        assert_eq!(cast_of(f), *cast);
        assert_eq!(meanings(f), vec![CppFfiArgumentMeaning::Argument(0)]);
        assert_eq!(f.arguments[0].name, "ptr");
        assert!(f.arguments[0].argument_type.ffi_type().is_same(from));
        assert!(f.return_type.ffi_type().is_same(to));
        assert_eq!(f.allocation_place, ReturnValueAllocationPlace::NotApplicable);
        assert_eq!(name_of(f), *name);
    }
    assert!(CppCast::Static { is_unsafe: true, base_index: 2 }.is_unsafe_static_cast());
    assert!(!CppCast::Static { is_unsafe: false, base_index: 2 }.is_unsafe_static_cast());
    assert!(!CppCast::Dynamic.is_unsafe_static_cast());
    assert_eq!(CppCast::Dynamic.cpp_method_name(), "dynamic_cast");
}

#[test]
fn casts_of_a_second_base_get_numbered_names() {
    let mut names = FfiNameProvider::testing();
    let first = generate_casts_one(&path(&["D"]), &path(&["B1"]), 0, &mut names).unwrap();
    let second = generate_casts_one(&path(&["D"]), &path(&["B2"]), 1, &mut names).unwrap();
    let texts: Vec<String> =
        first.iter().chain(second.iter()).map(|i| name_of(as_function(i))).collect();
    assert_eq!(
        texts,
        vec![
            "_static_cast_D_ptr",
            "_static_cast_B1_ptr",
            "_dynamic_cast_D_ptr",
            "_static_cast_D_ptr1",
            "_static_cast_B2_ptr",
            "_dynamic_cast_D_ptr1"
        ]
    );
}

#[test]
fn casts_of_a_template_class_fail() {
    let templated = CppPath {
        name: CppName::from_one_part("D"),
        template_arguments: Some(vec![template_parameter()]),
    };
    let mut names = FfiNameProvider::testing();
    assert_eq!(
        generate_casts_one(&templated, &path(&["B"]), 0, &mut names).err(),
        Some(FfiError::TemplateParameter)
    );
    assert_eq!(
        generate_casts_one(&path(&["D"]), &templated, 0, &mut names).err(),
        Some(FfiError::TemplateParameter)
    );
    assert_eq!(names.create_path("static_cast_D_ptr").to_cpp_code().unwrap(), "_static_cast_D_ptr");
}

#[test]
fn cast_function_names_its_operator_with_the_destination() {
    let mut names = FfiNameProvider::testing();
    let item = create_cast_method(
        CppCast::Dynamic,
        &CppType::new_pointer(false, class("B")),
        &CppType::new_pointer(false, class("D")),
        &mut names,
    )
    .unwrap();
    match &as_function(&item).kind {
        CppFfiFunctionKind::Function { cpp_function, omitted_arguments, cast } => {
            assert_eq!(cpp_function.path.to_cpp_code().unwrap(), "dynamic_cast< D* >");
            assert!(cpp_function.member.is_none());
            assert_eq!(*omitted_arguments, None);
            assert_eq!(*cast, Some(CppCast::Dynamic));
        }
        _ => panic!("no function"),
    }
}
