use ritual::cpp_data::CppName;
use ritual::cpp_ffi_data::{
    CppFfiFunction, CppFfiFunctionKind, CppFfiItem, CppFfiType,
};
use ritual::cpp_ffi_generator::FfiNameProvider;
use ritual::cpp_function::{CppFunction, ReturnValueAllocationPlace};
use ritual::cpp_type::{CppPath, CppType};
use ritual::database::{Database, ProcessorData};
use ritual::text::{ascii_caption, decimal_string, join_strings};

fn existing_function(name: &str) -> CppFfiItem {
    CppFfiItem::from_function(CppFfiFunction {
        arguments: Vec::new(),
        return_type: CppFfiType::void(),
        path: CppPath::from_name(CppName::from_one_part(name)),
        allocation_place: ReturnValueAllocationPlace::NotApplicable,
        kind: CppFfiFunctionKind::Function {
            cpp_function: CppFunction {
                path: CppPath::from_name(CppName::from_one_part("f")),
                member: None,
                return_type: CppType::Void,
                arguments: Vec::new(),
                allows_variadic_arguments: false,
            },
            omitted_arguments: None,
            cast: None,
        },
    })
}

fn data_with(crate_name: &str, names: &[&str]) -> ProcessorData {
    ProcessorData {
        crate_name: crate_name.to_string(),
        current_database: Database {
            cpp_items: Vec::new(),
            ffi_items: names.iter().map(|n| existing_function(n)).collect(),
        },
    }
}

#[test]
fn first_name_has_no_number() {
    let mut provider = FfiNameProvider::testing();
    let path = provider.create_path("foo");
    assert_eq!(path.to_cpp_code().unwrap(), "_foo");
    assert!(path.template_arguments.is_none());
    assert_eq!(path.name.parts, vec!["_foo".to_string()]);
}

#[test]
fn repeated_names_are_numbered_from_one() {
    let mut provider = FfiNameProvider::testing();
    let mut seen = Vec::new();
    for _ in 0..12 {
        seen.push(provider.create_path("foo").to_cpp_code().unwrap());
    }
    assert_eq!(
        seen,
        vec![
            "_foo", "_foo1", "_foo2", "_foo3", "_foo4", "_foo5", "_foo6", "_foo7", "_foo8",
            "_foo9", "_foo10", "_foo11"
        ]
    );
}

#[test]
fn different_base_names_do_not_interfere() {
    let mut provider = FfiNameProvider::testing();
    assert_eq!(provider.create_path("a").to_cpp_code().unwrap(), "_a");
    assert_eq!(provider.create_path("b").to_cpp_code().unwrap(), "_b");
    assert_eq!(provider.create_path("a").to_cpp_code().unwrap(), "_a1");
    assert_eq!(provider.create_path("a1").to_cpp_code().unwrap(), "_a11");
    assert_eq!(provider.create_path("a").to_cpp_code().unwrap(), "_a2");
}

#[test]
fn numbered_name_can_block_a_later_base_name() {
    let mut provider = FfiNameProvider::testing();
    assert_eq!(provider.create_path("x1").to_cpp_code().unwrap(), "_x1");
    assert_eq!(provider.create_path("x").to_cpp_code().unwrap(), "_x");
    assert_eq!(provider.create_path("x").to_cpp_code().unwrap(), "_x2");
}

#[test]
fn prefix_is_made_of_the_crate_name() {
    let data = data_with("qt_core", &[]);
    let mut provider = FfiNameProvider::new(&data);
    assert_eq!(provider.create_path("QPoint_x").to_cpp_code().unwrap(), "ctr_qt_core_ffi_QPoint_x");
}

#[test]
fn names_of_existing_items_are_taken() {
    let data = data_with("t", &["ctr_t_ffi_f", "ctr_t_ffi_f1", "ctr_t_ffi_g2"]);
    assert!(data.current_database.has_valid_ffi_paths());
    let mut provider = FfiNameProvider::new(&data);
    assert_eq!(provider.create_path("f").to_cpp_code().unwrap(), "ctr_t_ffi_f2");
    assert_eq!(provider.create_path("g").to_cpp_code().unwrap(), "ctr_t_ffi_g");
    assert_eq!(provider.create_path("g").to_cpp_code().unwrap(), "ctr_t_ffi_g1");
    assert_eq!(provider.create_path("g").to_cpp_code().unwrap(), "ctr_t_ffi_g3");
}

#[test]
fn all_generated_names_differ() {
    let mut provider = FfiNameProvider::testing();
    let mut seen = std::collections::HashSet::new();
    for base in ["a", "a1", "a", "a11", "a1", "a", "", "", "1", "1"] {
        let text = provider.create_path(base).to_cpp_code().unwrap();
        assert!(seen.insert(text));
    }
}

#[test]
fn decimal_numbers() {
    assert_eq!(decimal_string(0), "0");
    assert_eq!(decimal_string(7), "7");
    assert_eq!(decimal_string(10), "10");
    assert_eq!(decimal_string(1905), "1905");
    assert_eq!(decimal_string(u64::MAX), "18446744073709551615");
}

#[test]
fn captions_keep_letters_digits_and_underscores() {
    assert_eq!(ascii_caption("QWidget"), "QWidget");
    assert_eq!(ascii_caption("operator+="), "operator__");
    assert_eq!(ascii_caption("~QWidget"), "dQWidget");
    assert_eq!(ascii_caption("unsigned int"), "unsigned_int");
    assert_eq!(ascii_caption("a_b9Z"), "a_b9Z");
    assert_eq!(ascii_caption("é"), "_");
    assert_eq!(ascii_caption(""), "");
}

#[test]
fn joining_strings() {
    let none: Vec<String> = Vec::new();
    assert_eq!(join_strings(&none, ", "), "");
    assert_eq!(join_strings(&vec!["a".to_string()], ", "), "a");
    assert_eq!(
        join_strings(&vec!["a".to_string(), "".to_string(), "c".to_string()], ", "),
        "a, , c"
    );
}
