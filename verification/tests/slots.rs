use ritual::cpp_data::CppName;
use ritual::cpp_ffi_data::{CppFfiItem, CppToFfiTypeConversion};
use ritual::cpp_ffi_generator::FfiNameProvider;
use ritual::cpp_type::{CppBuiltInNumericType, CppPath, CppType};
use ritual::database::{Database, ProcessorData};
use ritual::errors::FfiError;
use ritual::slot_wrappers::{add_slot_wrappers, generate_slot_wrapper};

fn int_type() -> CppType {
    CppType::BuiltInNumeric(CppBuiltInNumericType::Int)
}

fn class(name: &str) -> CppType {
    CppType::Class(CppPath::from_name(CppName::from_one_part(name)))
}

fn template_parameter() -> CppType {
    CppType::TemplateParameter { nested_level: 0, index: 0, name: "T".to_string() }
}

fn empty_data() -> ProcessorData {
    ProcessorData {
        crate_name: "gui".to_string(),
        current_database: Database { cpp_items: Vec::new(), ffi_items: Vec::new() },
    }
}

fn paths_of(data: &ProcessorData) -> Vec<String> {
    data.current_database.ffi_items.iter().map(|i| i.path().to_cpp_code().unwrap()).collect()
}

#[test]
fn slot_wrapper_for_two_arguments() {
    let mut names = FfiNameProvider::testing();
    let arguments = vec![int_type(), CppType::new_reference(true, class("QString"))];
    let w = generate_slot_wrapper(&arguments, &mut names).unwrap();
    assert_eq!(w.class_path.to_cpp_code().unwrap(), "_slot_wrapper_int_QString_const_ref");
    assert_eq!(w.signal_arguments.len(), 2);
    assert!(w.signal_arguments[1].is_same(&arguments[1]));
    assert_eq!(w.arguments.len(), 2);
    assert_eq!(w.arguments[0].conversion(), &CppToFfiTypeConversion::NoChange);
    assert_eq!(w.arguments[1].conversion(), &CppToFfiTypeConversion::ReferenceToPointer);
    assert!(w.function_type.return_type.is_void());
    assert!(!w.function_type.allows_variadic_arguments);
    assert_eq!(w.function_type.arguments.len(), 3);
    assert!(w.function_type.arguments[0].is_same(&CppType::new_pointer(false, CppType::Void)));
    assert!(w.function_type.arguments[1].is_same(&int_type()));
    assert!(w.function_type.arguments[2].is_same(&CppType::new_pointer(true, class("QString"))));
    assert_eq!(
        CppType::FunctionPointer(w.function_type.clone()).to_cpp_code(Some("f")).unwrap(),
        "void (*f)(void*, int, const QString*)"
    );
}

#[test]
fn slot_wrapper_without_arguments() {
    let mut names = FfiNameProvider::testing();
    let w = generate_slot_wrapper(&[], &mut names).unwrap();
    assert_eq!(w.class_path.to_cpp_code().unwrap(), "_slot_wrapper_");
    assert_eq!(w.function_type.arguments.len(), 1);
    let again = generate_slot_wrapper(&[], &mut names).unwrap();
    assert_eq!(again.class_path.to_cpp_code().unwrap(), "_slot_wrapper_1");
}

#[test]
fn slot_wrapper_fails_on_first_unsupported_type() {
    let mut names = FfiNameProvider::testing();
    let r = generate_slot_wrapper(&[int_type(), template_parameter()], &mut names);
    assert_eq!(r.err(), Some(FfiError::TemplateParameter));
    assert_eq!(names.create_path("slot_wrapper_int_T").to_cpp_code().unwrap(), "_slot_wrapper_int_T");
}

#[test]
fn slot_wrappers_are_added_once() {
    let mut data = empty_data();
    let all = vec![
        vec![int_type()],
        vec![class("QPoint")],
        vec![int_type()],
        vec![template_parameter()],
        vec![],
    ];
    assert!(add_slot_wrappers(&mut data, &all).is_ok());
    assert_eq!(
        paths_of(&data),
        vec![
            "ctr_gui_ffi_slot_wrapper_int",
            "ctr_gui_ffi_slot_wrapper_QPoint",
            "ctr_gui_ffi_slot_wrapper_",
        ]
    );
    assert!(data.current_database.ffi_items.iter().all(|i| i.as_slot_wrapper_ref().is_some()));
    assert!(data.current_database.ffi_items.iter().all(|i| i.as_function_ref().is_none()));
    assert!(add_slot_wrappers(&mut data, &all).is_ok());
    assert_eq!(paths_of(&data).len(), 3);
    let more = vec![vec![int_type(), int_type()]];
    add_slot_wrappers(&mut data, &more).unwrap();
    assert_eq!(paths_of(&data)[3], "ctr_gui_ffi_slot_wrapper_int_int");
    match &data.current_database.ffi_items[3] {
        CppFfiItem::QtSlotWrapper(w) => assert_eq!(w.arguments.len(), 2),
        _ => panic!("no slot wrapper"),
    }
}
