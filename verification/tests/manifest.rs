use ritual::crate_writer::{
    add_dependency, c_lib_name, cargo_toml_data, global_header_name, include_directives_code,
    CrateDependency, CrateManifest,
};
use ritual::toml_value::{
    recursive_merge_toml, toml_table_with_single_item, TomlTable, TomlValue,
};

fn text(s: &str) -> TomlValue {
    TomlValue::String(s.to_string())
}

fn table(entries: Vec<(&str, TomlValue)>) -> TomlValue {
    let mut t = TomlTable::new();
    for (key, value) in entries {
        t.insert(key.to_string(), value);
    }
    TomlValue::Table(t)
}

fn as_table(v: &TomlValue) -> &TomlTable {
    match v {
        TomlValue::Table(t) => t,
        _ => panic!("no table"),
    }
}

fn get<'a>(v: &'a TomlValue, key: &str) -> Option<&'a TomlValue> {
    as_table(v).get(&key.to_string())
}

fn as_text(v: &TomlValue) -> &str {
    match v {
        TomlValue::String(s) => s,
        _ => panic!("no string"),
    }
}

fn keys(v: &TomlValue) -> Vec<String> {
    let mut keys: Vec<String> = as_table(v).entries().iter().map(|e| e.key.clone()).collect();
    keys.sort();
    keys
}

#[test]
fn table_insert_replaces_value_under_same_key() {
    let mut t = TomlTable::new();
    t.insert("a".to_string(), TomlValue::Integer(1));
    t.insert("b".to_string(), TomlValue::Integer(2));
    t.insert("a".to_string(), TomlValue::Integer(3));
    assert_eq!(t.entries().len(), 2);
    assert!(matches!(t.get(&"a".to_string()), Some(TomlValue::Integer(3))));
    assert!(matches!(t.get(&"b".to_string()), Some(TomlValue::Integer(2))));
    assert!(t.get(&"c".to_string()).is_none());
}

#[test]
fn single_item_table() {
    let v = toml_table_with_single_item("key", TomlValue::Boolean(true));
    assert_eq!(keys(&v), vec!["key"]);
    assert!(matches!(get(&v, "key"), Some(TomlValue::Boolean(true))));
}

#[test]
fn merge_of_different_kinds_takes_the_second() {
    let r = recursive_merge_toml(TomlValue::Integer(1), text("b"));
    assert_eq!(as_text(&r), "b");
    let r = recursive_merge_toml(table(vec![("a", text("x"))]), TomlValue::Integer(5));
    assert!(matches!(r, TomlValue::Integer(5)));
    let r = recursive_merge_toml(TomlValue::Array(vec![]), table(vec![]));
    assert!(matches!(r, TomlValue::Table(_)));
}

#[test]
fn merge_of_same_scalar_kind_takes_the_second() {
    let r = recursive_merge_toml(text("a"), text("b"));
    assert_eq!(as_text(&r), "b");
    let r = recursive_merge_toml(TomlValue::Float(1), TomlValue::Float(2));
    assert!(matches!(r, TomlValue::Float(2)));
    let r = recursive_merge_toml(TomlValue::Datetime("1979-05-27".to_string()), TomlValue::Datetime("2000-01-01".to_string()));
    assert!(matches!(r, TomlValue::Datetime(d) if d == "2000-01-01"));
}

#[test]
fn merge_of_arrays_appends() {
    let r = recursive_merge_toml(
        TomlValue::Array(vec![TomlValue::Integer(1), TomlValue::Integer(2)]),
        TomlValue::Array(vec![TomlValue::Integer(3)]),
    );
    match r {
        TomlValue::Array(items) => {
            assert_eq!(items.len(), 3);
            assert!(matches!(items[0], TomlValue::Integer(1)));
            assert!(matches!(items[1], TomlValue::Integer(2)));
            assert!(matches!(items[2], TomlValue::Integer(3)));
        }
        _ => panic!("no array"),
    }
}

#[test]
fn merge_of_tables_is_recursive() {
    let a = table(vec![
        ("only_a", text("a")),
        ("both", text("a")),
        ("nested", table(vec![("x", text("ax")), ("list", TomlValue::Array(vec![TomlValue::Integer(1)]))])),
    ]);
    let b = table(vec![
        ("nested", table(vec![("y", text("by")), ("list", TomlValue::Array(vec![TomlValue::Integer(2)]))])),
        ("both", text("b")),
        ("only_b", text("b")),
    ]);
    let r = recursive_merge_toml(a, b);
    assert_eq!(keys(&r), vec!["both", "nested", "only_a", "only_b"]);
    assert_eq!(as_text(get(&r, "only_a").unwrap()), "a");
    assert_eq!(as_text(get(&r, "only_b").unwrap()), "b");
    assert_eq!(as_text(get(&r, "both").unwrap()), "b");
    let nested = get(&r, "nested").unwrap();
    assert_eq!(keys(nested), vec!["list", "x", "y"]);
    assert_eq!(as_text(get(nested, "x").unwrap()), "ax");
    assert_eq!(as_text(get(nested, "y").unwrap()), "by");
    match get(nested, "list").unwrap() {
        TomlValue::Array(items) => assert_eq!(items.len(), 2),
        _ => panic!("no array"),
    }
}

fn dependency(name: &str, version: &str, local_path: Option<&str>) -> CrateDependency {
    CrateDependency {
        name: name.to_string(),
        version: version.to_string(),
        local_path: local_path.map(|p| p.to_string()),
    }
}

#[test]
fn dependency_is_written_as_version_or_table() {
    let mut t = TomlTable::new();
    add_dependency(&mut t, &dependency("libc", "0.2", None), true);
    add_dependency(&mut t, &dependency("cpp_core", "0.5.0", Some("../cpp_core")), true);
    add_dependency(&mut t, &dependency("qt_core", "0.4.0", Some("../qt_core")), false);
    let v = TomlValue::Table(t);
    assert_eq!(as_text(get(&v, "libc").unwrap()), "0.2");
    assert_eq!(as_text(get(&v, "qt_core").unwrap()), "0.4.0");
    let local = get(&v, "cpp_core").unwrap();
    assert_eq!(keys(local), vec!["path", "version"]);
    assert_eq!(as_text(get(local, "version").unwrap()), "0.5.0");
    assert_eq!(as_text(get(local, "path").unwrap()), "../cpp_core");
}

#[test]
fn manifest_has_package_dependencies_and_features() {
    let r = cargo_toml_data(CrateManifest {
        name: "qt_gui".to_string(),
        version: "0.1.0".to_string(),
        dependencies: vec![dependency("cpp_core", "0.5.0", Some("../cpp_core")), dependency("libc", "0.2", None)],
        build_dependencies: vec![dependency("ritual_build", "0.3.0", None)],
        write_dependencies_local_paths: false,
        custom_fields: TomlTable::new(),
    });
    assert_eq!(keys(&r), vec!["build-dependencies", "dependencies", "features", "package"]);
    let package = get(&r, "package").unwrap();
    assert_eq!(keys(package), vec!["build", "edition", "metadata", "name", "version"]);
    assert_eq!(as_text(get(package, "name").unwrap()), "qt_gui");
    assert_eq!(as_text(get(package, "version").unwrap()), "0.1.0");
    assert_eq!(as_text(get(package, "build").unwrap()), "build.rs");
    assert_eq!(as_text(get(package, "edition").unwrap()), "2018");
    let features = get(get(get(get(package, "metadata").unwrap(), "docs").unwrap(), "rs").unwrap(), "features").unwrap();
    match features {
        TomlValue::Array(items) => {
            assert_eq!(items.len(), 1);
            assert_eq!(as_text(&items[0]), "ritual_rustdoc");
        }
        _ => panic!("no array"),
    }
    let dependencies = get(&r, "dependencies").unwrap();
    assert_eq!(keys(dependencies), vec!["cpp_core", "libc"]);
    assert_eq!(as_text(get(dependencies, "cpp_core").unwrap()), "0.5.0");
    assert_eq!(keys(get(&r, "build-dependencies").unwrap()), vec!["ritual_build"]);
    match get(get(&r, "features").unwrap(), "ritual_rustdoc").unwrap() {
        TomlValue::Array(items) => assert!(items.is_empty()),
        _ => panic!("no array"),
    }
}

#[test]
fn custom_fields_take_precedence_in_the_manifest() {
    let mut custom = TomlTable::new();
    custom.insert(
        "package".to_string(),
        table(vec![("edition", text("2021")), ("license", text("MIT"))]),
    );
    custom.insert("lib".to_string(), table(vec![("name", text("gui"))]));
    let r = cargo_toml_data(CrateManifest {
        name: "qt_gui".to_string(),
        version: "0.1.0".to_string(),
        dependencies: vec![],
        build_dependencies: vec![],
        write_dependencies_local_paths: true,
        custom_fields: custom,
    });
    assert_eq!(keys(&r), vec!["build-dependencies", "dependencies", "features", "lib", "package"]);
    let package = get(&r, "package").unwrap();
    assert_eq!(as_text(get(package, "edition").unwrap()), "2021");
    assert_eq!(as_text(get(package, "license").unwrap()), "MIT");
    assert_eq!(as_text(get(package, "name").unwrap()), "qt_gui");
    assert!(keys(get(&r, "dependencies").unwrap()).is_empty());
}

#[test]
fn names_of_the_c_library() {
    assert_eq!(c_lib_name("qt_core"), "qt_core_c");
    assert_eq!(global_header_name("qt_core_c"), "qt_core_c_global.h");
}

#[test]
fn include_directives_one_on_each_line() {
    assert_eq!(include_directives_code(&vec![]), "");
    assert_eq!(include_directives_code(&vec!["QtCore".to_string()]), "#include \"QtCore\"");
    assert_eq!(
        include_directives_code(&vec!["QtCore".to_string(), "a/b.h".to_string()]),
        "#include \"QtCore\"\n#include \"a/b.h\""
    );
}
