use ritual::cpp_data::{
    CppBaseSpecifier, CppClassField, CppEnumValue, CppName, CppTypeData, CppTypeDataKind,
    CppVisibility,
};
use ritual::cpp_ffi_data::{CppFfiFunction, CppFfiFunctionKind, CppFfiItem};
use ritual::cpp_ffi_generator::{
    cpp_ffi_generator_step, movable_types_of, run, run_with_report, should_process_item,
};
use ritual::driver::ItemOutcome;
use ritual::errors::FfiError;
use ritual::cpp_function::{
    CppFunction, CppFunctionArgument, CppFunctionKind, CppFunctionMemberData,
    ReturnValueAllocationPlace,
};
use ritual::cpp_type::{CppBuiltInNumericType, CppPath, CppType};
use ritual::database::{CppDatabaseItem, CppItemData, Database, ProcessorData};
use ritual::processor::ProcessingStepKind;

fn int_type() -> CppType {
    CppType::BuiltInNumeric(CppBuiltInNumericType::Int)
}

fn path(parts: &[&str]) -> CppPath {
    CppPath::from_name(CppName::from_parts(parts))
}

fn template_parameter() -> CppType {
    CppType::TemplateParameter { nested_level: 0, index: 0, name: "T".to_string() }
}

fn argument(name: &str, argument_type: CppType, has_default_value: bool) -> CppFunctionArgument {
    CppFunctionArgument { name: name.to_string(), argument_type, has_default_value }
}

fn member(class_name: &str) -> CppFunctionMemberData {
    CppFunctionMemberData {
        class_type: path(&[class_name]),
        kind: CppFunctionKind::Regular,
        is_virtual: false,
        is_pure_virtual: false,
        is_const: false,
        is_static: false,
        visibility: CppVisibility::Public,
        is_signal: false,
        is_slot: false,
    }
}

fn resize() -> CppFunction {
    CppFunction {
        path: path(&["Widget", "resize"]),
        member: Some(member("Widget")),
        return_type: CppType::Void,
        arguments: vec![argument("w", int_type(), false), argument("h", int_type(), true)],
        allows_variadic_arguments: false,
    }
}

fn widget_type() -> CppItemData {
    CppItemData::Type(CppTypeData {
        name: CppName::from_one_part("Widget"),
        kind: CppTypeDataKind::Class { type_base: path(&["Widget"]) },
        doc: None,
        is_movable: true,
    })
}

fn count_field() -> CppItemData {
    CppItemData::ClassField(CppClassField {
        name: "count".to_string(),
        field_type: int_type(),
        visibility: CppVisibility::Public,
        class_type: path(&["Widget"]),
        is_const: false,
        is_static: false,
    })
}

fn qobject_base() -> CppItemData {
    CppItemData::ClassBase(CppBaseSpecifier {
        base_class_type: path(&["QObject"]),
        base_index: 0,
        is_virtual: false,
        visibility: CppVisibility::Public,
        derived_class_type: path(&["Widget"]),
    })
}

fn data_of(items: Vec<CppItemData>) -> ProcessorData {
    ProcessorData {
        crate_name: "test".to_string(),
        current_database: Database {
            cpp_items: items
                .into_iter()
                .map(|cpp_data| CppDatabaseItem { cpp_data, is_cpp_ffi_processed: false })
                .collect(),
            ffi_items: Vec::new(),
        },
    }
}

fn function_of(item: &CppFfiItem) -> &CppFfiFunction {
    item.as_function_ref().unwrap()
}

fn names_of(data: &ProcessorData) -> Vec<String> {
    data.current_database.ffi_items.iter().map(|i| i.path().to_cpp_code().unwrap()).collect()
}

fn marks_of(data: &ProcessorData) -> Vec<bool> {
    data.current_database.cpp_items.iter().map(|i| i.is_cpp_ffi_processed).collect()
}

#[test]
fn widget_scenario_gives_seven_functions() {
    let mut data = data_of(vec![
        widget_type(),
        count_field(),
        qobject_base(),
        CppItemData::Function(resize()),
    ]);
    assert!(data.current_database.has_valid_ffi_paths());
    assert!(run(&mut data).is_ok());
    assert_eq!(
        names_of(&data),
        vec![
            "ctr_test_ffi_Widget_count",
            "ctr_test_ffi_set_Widget_count",
            "ctr_test_ffi_static_cast_Widget_ptr",
            "ctr_test_ffi_static_cast_QObject_ptr",
            "ctr_test_ffi_dynamic_cast_Widget_ptr",
            "ctr_test_ffi_Widget_resize",
            "ctr_test_ffi_Widget_resize1",
        ]
    );
    assert_eq!(marks_of(&data), vec![true, true, true, true]);
    let items = &data.current_database.ffi_items;
    let accessors = items
        .iter()
        .filter(|i| matches!(function_of(i).kind, CppFfiFunctionKind::FieldAccessor { .. }))
        .count();
    let casts = items
        .iter()
        .filter(|i| matches!(function_of(i).kind, CppFfiFunctionKind::Function { cast: Some(_), .. }))
        .count();
    let overloads = items
        .iter()
        .filter(|i| matches!(function_of(i).kind, CppFfiFunctionKind::Function { cast: None, .. }))
        .count();
    assert_eq!((accessors, casts, overloads), (2, 3, 2));
    assert_eq!(function_of(&items[5]).arguments.len(), 3);
    assert_eq!(function_of(&items[6]).arguments.len(), 2);
    assert!(matches!(
        function_of(&items[6]).kind,
        CppFfiFunctionKind::Function { omitted_arguments: Some(1), .. }
    ));
    assert!(data.current_database.has_valid_ffi_paths());
}

#[test]
fn second_run_adds_nothing() {
    let mut variadic = resize();
    variadic.allows_variadic_arguments = true;
    let mut private = resize();
    private.member.as_mut().unwrap().visibility = CppVisibility::Private;
    let mut data = data_of(vec![
        widget_type(),
        CppItemData::Function(variadic),
        count_field(),
        CppItemData::Function(private),
        qobject_base(),
        CppItemData::Function(resize()),
    ]);
    run(&mut data).unwrap();
    let names = names_of(&data);
    let marks = marks_of(&data);
    assert_eq!(names.len(), 7);
    assert_eq!(marks, vec![true, false, true, false, true, true]);
    run(&mut data).unwrap();
    assert_eq!(names_of(&data), names);
    assert_eq!(marks_of(&data), marks);
}

#[test]
fn generated_paths_are_all_different() {
    let mut data = data_of(vec![
        CppItemData::Function(resize()),
        CppItemData::Function(resize()),
        count_field(),
        count_field(),
        qobject_base(),
        qobject_base(),
        CppItemData::Function(resize()),
    ]);
    run(&mut data).unwrap();
    let names = names_of(&data);
    assert_eq!(names.len(), 16);
    let distinct: std::collections::HashSet<&String> = names.iter().collect();
    assert_eq!(distinct.len(), names.len());
    assert!(names.contains(&"ctr_test_ffi_Widget_resize5".to_string()));
}

#[test]
fn later_run_avoids_names_of_earlier_runs() {
    let mut data = data_of(vec![CppItemData::Function(resize())]);
    run(&mut data).unwrap();
    data.current_database.cpp_items.push(CppDatabaseItem {
        cpp_data: CppItemData::Function(resize()),
        is_cpp_ffi_processed: false,
    });
    run(&mut data).unwrap();
    assert_eq!(
        names_of(&data),
        vec![
            "ctr_test_ffi_Widget_resize",
            "ctr_test_ffi_Widget_resize1",
            "ctr_test_ffi_Widget_resize2",
            "ctr_test_ffi_Widget_resize3",
        ]
    );
}

#[test]
fn processed_items_are_passed_over() {
    let mut data = data_of(vec![CppItemData::Function(resize()), count_field()]);
    data.current_database.cpp_items[0].is_cpp_ffi_processed = true;
    run(&mut data).unwrap();
    assert_eq!(names_of(&data), vec!["ctr_test_ffi_Widget_count", "ctr_test_ffi_set_Widget_count"]);
    assert_eq!(marks_of(&data), vec![true, true]);
}

#[test]
fn failing_item_does_not_stop_the_others() {
    let mut variadic = resize();
    variadic.allows_variadic_arguments = true;
    let bad_field = CppItemData::ClassField(CppClassField {
        name: "item".to_string(),
        field_type: template_parameter(),
        visibility: CppVisibility::Public,
        class_type: path(&["Widget"]),
        is_const: false,
        is_static: false,
    });
    let mut data = data_of(vec![CppItemData::Function(variadic), bad_field, count_field()]);
    assert!(run(&mut data).is_ok());
    assert_eq!(marks_of(&data), vec![false, false, true]);
    assert_eq!(names_of(&data).len(), 2);
}

#[test]
fn items_without_functions_are_marked() {
    let mut data = data_of(vec![
        widget_type(),
        CppItemData::Namespace(path(&["ns"])),
        CppItemData::EnumValue(CppEnumValue {
            name: "A".to_string(),
            value: 1,
            doc: None,
            enum_name: CppName::from_one_part("E"),
        }),
    ]);
    run(&mut data).unwrap();
    assert!(data.current_database.ffi_items.is_empty());
    assert_eq!(marks_of(&data), vec![true, true, true]);
}

#[test]
fn movable_class_decides_the_allocation_place() {
    let origin = CppFunction {
        path: path(&["origin"]),
        member: None,
        return_type: CppType::Class(path(&["Widget"])),
        arguments: vec![],
        allows_variadic_arguments: false,
    };
    let other = CppFunction {
        path: path(&["other"]),
        member: None,
        return_type: CppType::Class(path(&["Other"])),
        arguments: vec![],
        allows_variadic_arguments: false,
    };
    let not_movable = CppItemData::Type(CppTypeData {
        name: CppName::from_one_part("Other"),
        kind: CppTypeDataKind::Class { type_base: path(&["Other"]) },
        doc: None,
        is_movable: false,
    });
    let an_enum = CppItemData::Type(CppTypeData {
        name: CppName::from_one_part("E"),
        kind: CppTypeDataKind::Enum,
        doc: None,
        is_movable: true,
    });
    let mut data = data_of(vec![
        CppItemData::Function(origin),
        CppItemData::Function(other),
        not_movable,
        an_enum,
        widget_type(),
    ]);
    let movable = movable_types_of(&data.current_database.cpp_items);
    assert_eq!(movable.len(), 1);
    assert!(movable[0].is_same(&path(&["Widget"])));
    run(&mut data).unwrap();
    let items = &data.current_database.ffi_items;
    assert_eq!(function_of(&items[0]).allocation_place, ReturnValueAllocationPlace::Stack);
    assert_eq!(function_of(&items[0]).arguments.len(), 1);
    assert_eq!(function_of(&items[1]).allocation_place, ReturnValueAllocationPlace::Heap);
    assert!(function_of(&items[1]).arguments.is_empty());
}

#[test]
fn template_functions_are_not_eligible() {
    let mut with_arguments = resize();
    with_arguments.path.template_arguments = Some(vec![int_type()]);
    assert!(!should_process_item(&CppItemData::Function(with_arguments.clone())));
    let mut in_argument = resize();
    in_argument.arguments[1].argument_type = CppType::new_pointer(false, template_parameter());
    assert!(!should_process_item(&CppItemData::Function(in_argument.clone())));
    let mut in_return = resize();
    in_return.return_type = CppType::Class(CppPath {
        name: CppName::from_one_part("QList"),
        template_arguments: Some(vec![template_parameter()]),
    });
    assert!(!should_process_item(&CppItemData::Function(in_return.clone())));
    assert!(should_process_item(&CppItemData::Function(resize())));
    let mut data = data_of(vec![
        CppItemData::Function(with_arguments),
        CppItemData::Function(in_argument),
        CppItemData::Function(in_return),
    ]);
    run(&mut data).unwrap();
    assert!(data.current_database.ffi_items.is_empty());
    assert_eq!(marks_of(&data), vec![false, false, false]);
}

#[test]
fn hidden_members_signals_and_flag_members_are_not_eligible() {
    let mut private = resize();
    private.member.as_mut().unwrap().visibility = CppVisibility::Private;
    assert!(!should_process_item(&CppItemData::Function(private)));
    let mut protected = resize();
    protected.member.as_mut().unwrap().visibility = CppVisibility::Protected;
    assert!(!should_process_item(&CppItemData::Function(protected)));
    let mut signal = resize();
    signal.member.as_mut().unwrap().is_signal = true;
    assert!(!should_process_item(&CppItemData::Function(signal)));
    let mut of_flags = resize();
    of_flags.member.as_mut().unwrap().class_type = CppPath {
        name: CppName::from_one_part("QFlags"),
        template_arguments: Some(vec![int_type()]),
    };
    assert!(!should_process_item(&CppItemData::Function(of_flags)));
    let mut slot = resize();
    slot.member.as_mut().unwrap().is_slot = true;
    assert!(should_process_item(&CppItemData::Function(slot)));
}

#[test]
fn fields_and_bases_are_always_eligible() {
    let field = CppItemData::ClassField(CppClassField {
        name: "item".to_string(),
        field_type: template_parameter(),
        visibility: CppVisibility::Private,
        class_type: path(&["Widget"]),
        is_const: false,
        is_static: false,
    });
    assert!(should_process_item(&field));
    assert!(should_process_item(&qobject_base()));
    assert!(should_process_item(&widget_type()));
    assert!(should_process_item(&CppItemData::Namespace(path(&["ns"]))));
}

#[test]
fn generator_step_runs_the_generator() {
    let step = cpp_ffi_generator_step();
    assert_eq!(step.name, "cpp_ffi_generator");
    assert_eq!(step.kind, ProcessingStepKind::CppFfiGenerator);
    let mut data = data_of(vec![count_field()]);
    assert!(step.execute(&mut data).is_ok());
    assert_eq!(names_of(&data).len(), 2);
}

#[test]
fn report_says_what_became_of_each_item() {
    let mut variadic = resize();
    variadic.allows_variadic_arguments = true;
    let mut private = resize();
    private.member.as_mut().unwrap().visibility = CppVisibility::Private;
    let bad_field = CppItemData::ClassField(CppClassField {
        name: "item".to_string(),
        field_type: template_parameter(),
        visibility: CppVisibility::Public,
        class_type: path(&["Widget"]),
        is_const: false,
        is_static: false,
    });
    let mut data = data_of(vec![
        widget_type(),
        CppItemData::Function(variadic),
        CppItemData::Function(private),
        bad_field,
        count_field(),
        qobject_base(),
        CppItemData::Function(resize()),
    ]);
    data.current_database.cpp_items[4].is_cpp_ffi_processed = true;
    let report = run_with_report(&mut data);
    assert_eq!(
        report,
        vec![
            ItemOutcome::Processed { added: 0 },
            ItemOutcome::Failed(FfiError::VariadicArguments),
            ItemOutcome::Skipped,
            ItemOutcome::Failed(FfiError::TemplateParameter),
            ItemOutcome::AlreadyProcessed,
            ItemOutcome::Processed { added: 3 },
            ItemOutcome::Processed { added: 2 },
        ]
    );
    let again = run_with_report(&mut data);
    assert_eq!(
        again,
        vec![
            ItemOutcome::AlreadyProcessed,
            ItemOutcome::Failed(FfiError::VariadicArguments),
            ItemOutcome::Skipped,
            ItemOutcome::Failed(FfiError::TemplateParameter),
            ItemOutcome::AlreadyProcessed,
            ItemOutcome::AlreadyProcessed,
            ItemOutcome::AlreadyProcessed,
        ]
    );
    assert_eq!(names_of(&data).len(), 5);
}
