//! What is written into the crate that is generated: the content of its
//! manifest and the names and include lines of its C++ library.

use crate::text::{join, join_strings, strings_view};
use crate::toml_value::{
    merged, recursive_merge_toml, toml_table_with_single_item, value_view, values_view,
    TomlTable, TomlValue, TomlValueView,
};
use vstd::prelude::*;

verus! {

/// A dependency of the generated crate: its name, its version, and the
/// path to it from the generated crate where it is a local one.
#[derive(Debug)]
pub struct CrateDependency {
    pub name: String,
    pub version: String,
    pub local_path: Option<String>,
}

/// What a `CrateDependency` stands for.
pub struct CrateDependencyView {
    pub name: Seq<char>,
    pub version: Seq<char>,
    pub local_path: Option<Seq<char>>,
}

impl View for CrateDependency {
    type V = CrateDependencyView;

    open spec fn view(&self) -> CrateDependencyView {
        CrateDependencyView {
            name: self.name@,
            version: self.version@,
            local_path: match self.local_path {
                Some(p) => Some(p@),
                None => None,
            },
        }
    }
}

/// The views of a sequence of dependencies, in order.
pub open spec fn dependencies_view(s: Seq<CrateDependency>) -> Seq<CrateDependencyView> {
    s.map_values(|d: CrateDependency| d@)
}

/// The table that holds `value` under `key` and nothing else.
pub open spec fn single(key: Seq<char>, value: TomlValueView) -> TomlValueView {
    TomlValueView::Table(Map::<Seq<char>, TomlValueView>::empty().insert(key, value))
}

/// What the manifest says of a dependency: its version, or, where it is a
/// local one and local paths are to be written, a table of its version and
/// its path.
pub open spec fn dependency_value(dep: CrateDependencyView, write_local_paths: bool) -> TomlValueView {
    match dep.local_path {
        Some(path) => if write_local_paths {
            TomlValueView::Table(
                Map::<Seq<char>, TomlValueView>::empty().insert(
                    "version"@,
                    TomlValueView::String(dep.version),
                ).insert("path"@, TomlValueView::String(path)),
            )
        } else {
            TomlValueView::String(dep.version)
        },
        None => TomlValueView::String(dep.version),
    }
}

/// The table of the dependencies: each name with what the manifest says of
/// the dependency; of two with one name the later counts.
pub open spec fn dependency_table(deps: Seq<CrateDependencyView>, write_local_paths: bool) -> Map<
    Seq<char>,
    TomlValueView,
>
    decreases deps.len(),
{
    if deps.len() == 0 {
        Map::empty()
    } else {
        dependency_table(deps.drop_last(), write_local_paths).insert(
            deps.last().name,
            dependency_value(deps.last(), write_local_paths),
        )
    }
}

/// The table `package` of the manifest.
pub open spec fn package_table(name: Seq<char>, version: Seq<char>) -> Map<Seq<char>, TomlValueView> {
    Map::<Seq<char>, TomlValueView>::empty().insert("name"@, TomlValueView::String(name)).insert(
        "version"@,
        TomlValueView::String(version),
    ).insert("build"@, TomlValueView::String("build.rs"@)).insert(
        "edition"@,
        TomlValueView::String("2018"@),
    ).insert(
        "metadata"@,
        single(
            "docs"@,
            single(
                "rs"@,
                single(
                    "features"@,
                    TomlValueView::Array(seq![TomlValueView::String("ritual_rustdoc"@)]),
                ),
            ),
        ),
    )
}

/// What the manifest of a generated crate is made of.
pub struct CrateManifestView {
    pub name: Seq<char>,
    pub version: Seq<char>,
    pub dependencies: Seq<CrateDependencyView>,
    pub build_dependencies: Seq<CrateDependencyView>,
    pub write_dependencies_local_paths: bool,
    pub custom_fields: Map<Seq<char>, TomlValueView>,
}

/// The manifest before the custom fields are merged into it.
pub open spec fn base_manifest(m: CrateManifestView) -> Map<Seq<char>, TomlValueView> {
    Map::<Seq<char>, TomlValueView>::empty().insert(
        "package"@,
        TomlValueView::Table(package_table(m.name, m.version)),
    ).insert(
        "dependencies"@,
        TomlValueView::Table(dependency_table(m.dependencies, m.write_dependencies_local_paths)),
    ).insert(
        "build-dependencies"@,
        TomlValueView::Table(
            dependency_table(m.build_dependencies, m.write_dependencies_local_paths),
        ),
    ).insert(
        "features"@,
        single("ritual_rustdoc"@, TomlValueView::Array(Seq::empty())),
    )
}

/// The content of the manifest: the base manifest with the custom fields
/// merged into it, the custom fields taking precedence.
pub open spec fn manifest_data(m: CrateManifestView) -> TomlValueView {
    merged(TomlValueView::Table(base_manifest(m)), TomlValueView::Table(m.custom_fields))
}

/// What the manifest of a generated crate is made of.
#[derive(Debug)]
pub struct CrateManifest {
    pub name: String,
    pub version: String,
    pub dependencies: Vec<CrateDependency>,
    pub build_dependencies: Vec<CrateDependency>,
    pub write_dependencies_local_paths: bool,
    pub custom_fields: TomlTable,
}

impl View for CrateManifest {
    type V = CrateManifestView;

    open spec fn view(&self) -> CrateManifestView {
        CrateManifestView {
            name: self.name@,
            version: self.version@,
            dependencies: dependencies_view(self.dependencies@),
            build_dependencies: dependencies_view(self.build_dependencies@),
            write_dependencies_local_paths: self.write_dependencies_local_paths,
            custom_fields: self.custom_fields@,
        }
    }
}

/// Adds what the manifest says of a dependency to a table of dependencies.
pub fn add_dependency(table: &mut TomlTable, dep: &CrateDependency, write_local_paths: bool)
    ensures
        final(table)@ == old(table)@.insert(dep@.name, dependency_value(dep@, write_local_paths)),
{
    let value = match &dep.local_path {
        Some(path) => {
            if write_local_paths {
                let mut value = TomlTable::new();
                value.insert(String::from_str("version"), TomlValue::String(dep.version.clone()));
                value.insert(String::from_str("path"), TomlValue::String(path.clone()));
                TomlValue::Table(value)
            } else {
                TomlValue::String(dep.version.clone())
            }
        },
        None => TomlValue::String(dep.version.clone()),
    };
    table.insert(dep.name.clone(), value);
}

fn dependencies_of(deps: &Vec<CrateDependency>, write_local_paths: bool) -> (r: TomlTable)
    ensures
        r@ == dependency_table(dependencies_view(deps@), write_local_paths),
{
    let ghost all = dependencies_view(deps@);
    let mut table = TomlTable::new();
    let mut i: usize = 0;
    proof {
        assert(all.subrange(0, 0) =~= Seq::<CrateDependencyView>::empty());
    }
    while i < deps.len()
        invariant
            i <= deps.len(),
            all == dependencies_view(deps@),
            table@ == dependency_table(all.subrange(0, i as int), write_local_paths),
        decreases deps.len() - i,
    {
        proof {
            let next = all.subrange(0, i + 1);
            assert(next.drop_last() =~= all.subrange(0, i as int));
            assert(next.last() == deps@[i as int]@);
        }
        add_dependency(&mut table, &deps[i], write_local_paths);
        i = i + 1;
    }
    assert(all.subrange(0, i as int) =~= all);
    table
}

/// The content of the manifest of the generated crate.
pub fn cargo_toml_data(manifest: CrateManifest) -> (r: TomlValue)
    ensures
        r@ == manifest_data(manifest@),
{
    let mut package = TomlTable::new();
    package.insert(String::from_str("name"), TomlValue::String(manifest.name.clone()));
    package.insert(String::from_str("version"), TomlValue::String(manifest.version.clone()));
    package.insert(String::from_str("build"), TomlValue::String(String::from_str("build.rs")));
    package.insert(String::from_str("edition"), TomlValue::String(String::from_str("2018")));
    let mut rustdoc: Vec<TomlValue> = Vec::new();
    rustdoc.push(TomlValue::String(String::from_str("ritual_rustdoc")));
    proof {
        assert(rustdoc@.drop_last() =~= Seq::<TomlValue>::empty());
        assert(values_view(Seq::<TomlValue>::empty()) =~= Seq::<TomlValueView>::empty());
        assert(value_view(rustdoc@.last()) == TomlValueView::String("ritual_rustdoc"@));
        assert(values_view(rustdoc@) =~= seq![TomlValueView::String("ritual_rustdoc"@)]);
    }
    let docs_rs_metadata = toml_table_with_single_item("features", TomlValue::Array(rustdoc));
    package.insert(
        String::from_str("metadata"),
        toml_table_with_single_item(
            "docs",
            toml_table_with_single_item("rs", docs_rs_metadata),
        ),
    );
    let dependencies = dependencies_of(
        &manifest.dependencies,
        manifest.write_dependencies_local_paths,
    );
    let build_dependencies = dependencies_of(
        &manifest.build_dependencies,
        manifest.write_dependencies_local_paths,
    );
    let no_features: Vec<TomlValue> = Vec::new();
    let features = toml_table_with_single_item("ritual_rustdoc", TomlValue::Array(no_features));
    let mut table = TomlTable::new();
    table.insert(String::from_str("package"), TomlValue::Table(package));
    table.insert(String::from_str("dependencies"), TomlValue::Table(dependencies));
    table.insert(String::from_str("build-dependencies"), TomlValue::Table(build_dependencies));
    table.insert(String::from_str("features"), features);
    recursive_merge_toml(TomlValue::Table(table), TomlValue::Table(manifest.custom_fields))
}

/// The name of the C++ library of a crate.
pub open spec fn c_lib_name_of(crate_name: Seq<char>) -> Seq<char> {
    crate_name + "_c"@
}

/// The name of the C++ library that goes with a crate.
pub fn c_lib_name(crate_name: &str) -> (r: String)
    ensures
        r@ == c_lib_name_of(crate_name@),
{
    let mut out = String::from_str(crate_name);
    out.append("_c");
    out
}

/// The name of the header that every file of the C++ library includes.
pub fn global_header_name(c_lib_name: &str) -> (r: String)
    ensures
        r@ == c_lib_name@ + "_global.h"@,
{
    let mut out = String::from_str(c_lib_name);
    out.append("_global.h");
    out
}

/// The include lines of several header files.
pub open spec fn include_lines(paths: Seq<Seq<char>>) -> Seq<Seq<char>> {
    paths.map_values(|p: Seq<char>| "#include \""@ + p + "\""@)
}

/// The include directives for the given header files, one on each line.
pub fn include_directives_code(include_directives: &Vec<String>) -> (r: String)
    ensures
        r@ == join(include_lines(strings_view(include_directives@)), "\n"@),
{
    let mut lines: Vec<String> = Vec::new();
    let mut i: usize = 0;
    while i < include_directives.len()
        invariant
            i <= include_directives.len(),
            lines.len() == i,
            forall|j: int|
                0 <= j < i ==> lines@[j]@ == "#include \""@ + include_directives@[j]@ + "\""@,
        decreases include_directives.len() - i,
    {
        let mut line = String::from_str("#include \"");
        line.append(include_directives[i].as_str());
        line.append("\"");
        lines.push(line);
        i = i + 1;
    }
    assert(strings_view(lines@) =~= include_lines(strings_view(include_directives@)));
    join_strings(&lines, "\n")
}

} // verus!
