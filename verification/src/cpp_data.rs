//! Descriptions of the items of a C++ library's API.

use crate::cpp_type::{CppPath, CppPathView, CppType, CppTypeView, types_view};
use crate::text::{
    clone_strings, concat_strings, intersperse_strings, join, join_strings,
    lemma_concat_interspersed, same_strings, strings_view,
};
use vstd::prelude::*;

verus! {

/// A name made of parts, as in `ns::Class::member`.
#[derive(Debug)]
pub struct CppName {
    /// Parts of the name
    pub parts: Vec<String>,
}

impl View for CppName {
    type V = Seq<Seq<char>>;

    open spec fn view(&self) -> Seq<Seq<char>> {
        strings_view(self.parts@)
    }
}

/// The texts of a slice of string slices, in order.
pub open spec fn str_slices_view(s: Seq<&str>) -> Seq<Seq<char>> {
    s.map_values(|x: &str| x@)
}

impl CppName {
    /// A name of one part.
    pub fn from_one_part(part: &str) -> (r: Self)
        ensures
            r@ == seq![part@],
    {
        let mut parts: Vec<String> = Vec::new();
        parts.push(String::from_str(part));
        let r = CppName { parts };
        assert(r@ =~= seq![part@]);
        r
    }

    /// A name of the given parts.
    pub fn from_parts(parts: &[&str]) -> (r: Self)
        ensures
            r@ == str_slices_view(parts@),
    {
        let mut out: Vec<String> = Vec::new();
        let mut i: usize = 0;
        while i < parts.len()
            invariant
                i <= parts.len(),
                out.len() == i,
                forall|j: int| 0 <= j < i ==> out@[j]@ == parts@[j]@,
            decreases parts.len() - i,
        {
            out.push(String::from_str(parts[i]));
            i = i + 1;
        }
        let r = CppName { parts: out };
        assert(r@ =~= str_slices_view(parts@));
        r
    }

    /// The parts joined by `::`.
    pub fn to_cpp_code(&self) -> (r: String)
        ensures
            r@ == join(self@, "::"@),
    {
        join_strings(&self.parts, "::")
    }

    /// The name as it is shown: the parts with `::` between them.
    pub fn to_string(&self) -> (r: String)
        ensures
            r@ == join(self@, "::"@),
    {
        let pieces = intersperse_strings(&self.parts, "::");
        proof {
            lemma_concat_interspersed(self@, "::"@);
        }
        concat_strings(&pieces)
    }

    /// Whether two names have the same parts.
    pub fn is_same(&self, other: &CppName) -> (r: bool)
        ensures
            r == (self@ == other@),
    {
        same_strings(&self.parts, &other.parts)
    }
}

impl Clone for CppName {
    fn clone(&self) -> (r: Self)
        ensures
            r@ == self@,
    {
        CppName { parts: clone_strings(&self.parts) }
    }
}

/// Visibility of a C++ entity. `Public` for entities that have none, such
/// as free functions.
#[derive(Clone, Copy, Debug, PartialEq, Eq, Structural, Hash)]
pub enum CppVisibility {
    Public,
    Protected,
    Private,
}

/// One item of a C++ enum declaration
#[derive(Debug)]
pub struct CppEnumValue {
    /// Identifier
    pub name: String,
    /// Corresponding value
    pub value: u64,
    /// C++ documentation for this item in HTML
    pub doc: Option<String>,
    /// Full type name of the enum this item belongs to
    pub enum_name: CppName,
}

/// What a `CppEnumValue` stands for.
pub struct CppEnumValueView {
    pub name: Seq<char>,
    pub value: u64,
    pub doc: Option<Seq<char>>,
    pub enum_name: Seq<Seq<char>>,
}

impl View for CppEnumValue {
    type V = CppEnumValueView;

    open spec fn view(&self) -> CppEnumValueView {
        CppEnumValueView {
            name: self.name@,
            value: self.value,
            doc: match self.doc {
                Some(d) => Some(d@),
                None => None,
            },
            enum_name: self.enum_name@,
        }
    }
}

impl CppEnumValue {
    /// Whether two values have the same name, enum and number; the
    /// documentation is not compared.
    pub fn is_same(&self, other: &CppEnumValue) -> (r: bool)
        ensures
            r == (self@.name == other@.name && self@.enum_name == other@.enum_name && self@.value
                == other@.value),
    {
        self.name == other.name && self.enum_name.is_same(&other.enum_name) && self.value
            == other.value
    }

    /// The name of the value itself: the enum's name with its last part
    /// replaced by the value's identifier.
    pub fn full_name(&self) -> (r: CppName)
        requires
            self.enum_name@.len() > 0,
        ensures
            r@ == self@.enum_name.drop_last().push(self@.name),
    {
        let mut name = self.enum_name.clone();
        name.parts.pop();
        name.parts.push(self.name.clone());
        assert(name@ =~= self@.enum_name.drop_last().push(self@.name));
        name
    }
}

/// Member field of a C++ class declaration
#[derive(Debug)]
pub struct CppClassField {
    /// Identifier
    pub name: String,
    /// Field type
    pub field_type: CppType,
    /// Visibility
    pub visibility: CppVisibility,
    /// Name and template arguments of the class type that owns this field
    pub class_type: CppPath,
    pub is_const: bool,
    pub is_static: bool,
}

/// What a `CppClassField` stands for.
pub struct CppClassFieldView {
    pub name: Seq<char>,
    pub field_type: CppTypeView,
    pub visibility: CppVisibility,
    pub class_type: CppPathView,
    pub is_const: bool,
    pub is_static: bool,
}

impl View for CppClassField {
    type V = CppClassFieldView;

    open spec fn view(&self) -> CppClassFieldView {
        CppClassFieldView {
            name: self.name@,
            field_type: self.field_type@,
            visibility: self.visibility,
            class_type: self.class_type@,
            is_const: self.is_const,
            is_static: self.is_static,
        }
    }
}

impl CppClassField {
    /// Whether two fields are the same in every respect.
    pub fn is_same(&self, other: &CppClassField) -> (r: bool)
        ensures
            r == (self@ == other@),
    {
        self.name == other.name && self.field_type.is_same(&other.field_type) && self.visibility
            == other.visibility && self.class_type.is_same(&other.class_type) && self.is_const
            == other.is_const && self.is_static == other.is_static
    }
}

impl Clone for CppClassField {
    fn clone(&self) -> (r: Self)
        ensures
            r@ == self@,
    {
        CppClassField {
            name: self.name.clone(),
            field_type: self.field_type.clone(),
            visibility: self.visibility,
            class_type: self.class_type.clone(),
            is_const: self.is_const,
            is_static: self.is_static,
        }
    }
}

/// Item of base class list in a class declaration
#[derive(Debug)]
pub struct CppBaseSpecifier {
    /// Base class type (can include template arguments)
    pub base_class_type: CppPath,
    /// Index of this base (for classes that have multiple base classes)
    pub base_index: usize,
    /// True if this base is virtual
    pub is_virtual: bool,
    /// Base visibility (public, protected or private)
    pub visibility: CppVisibility,
    /// Name and template arguments of the class type that
    /// inherits this base class
    pub derived_class_type: CppPath,
}

/// What a `CppBaseSpecifier` stands for.
pub struct CppBaseSpecifierView {
    pub base_class_type: CppPathView,
    pub base_index: usize,
    pub is_virtual: bool,
    pub visibility: CppVisibility,
    pub derived_class_type: CppPathView,
}

impl View for CppBaseSpecifier {
    type V = CppBaseSpecifierView;

    open spec fn view(&self) -> CppBaseSpecifierView {
        CppBaseSpecifierView {
            base_class_type: self.base_class_type@,
            base_index: self.base_index,
            is_virtual: self.is_virtual,
            visibility: self.visibility,
            derived_class_type: self.derived_class_type@,
        }
    }
}

/// Location of a C++ type's definition in header files.
#[derive(Debug)]
pub struct CppOriginLocation {
    // Full path to the include file
    pub include_file_path: String,
    /// Line of the file
    pub line: u32,
    /// Column of the file
    pub column: u32,
}

/// C++ documentation for a type
#[derive(Debug)]
pub struct CppTypeDoc {
    /// HTML content
    pub html: String,
    /// Absolute URL to online documentation page for this type
    pub url: String,
    /// Absolute documentation URLs encountered in the content
    pub cross_references: Vec<String>,
}

/// Information about a C++ type declaration
#[derive(Debug)]
pub enum CppTypeDataKind {
    Enum,
    Class {
        /// Information about name and template arguments of this type.
        type_base: CppPath,
    },
}

/// What a `CppTypeDataKind` stands for.
pub enum CppTypeDataKindView {
    Enum,
    Class { type_base: CppPathView },
}

impl View for CppTypeDataKind {
    type V = CppTypeDataKindView;

    open spec fn view(&self) -> CppTypeDataKindView {
        match self {
            CppTypeDataKind::Enum => CppTypeDataKindView::Enum,
            CppTypeDataKind::Class { type_base } => CppTypeDataKindView::Class {
                type_base: type_base@,
            },
        }
    }
}

impl CppTypeDataKind {
    /// Checks if the type is a class type.
    pub fn is_class(&self) -> (r: bool)
        ensures
            r == (self@ is Class),
    {
        match self {
            CppTypeDataKind::Class { .. } => true,
            _ => false,
        }
    }

    /// Checks if the type is an enum type.
    pub fn is_enum(&self) -> (r: bool)
        ensures
            r == (self@ is Enum),
    {
        match self {
            CppTypeDataKind::Enum => true,
            _ => false,
        }
    }

    /// Whether two kinds are the same.
    pub fn is_same(&self, other: &CppTypeDataKind) -> (r: bool)
        ensures
            r == (self@ == other@),
    {
        match (self, other) {
            (CppTypeDataKind::Enum, CppTypeDataKind::Enum) => true,
            (CppTypeDataKind::Class { type_base: a }, CppTypeDataKind::Class { type_base: b }) => {
                a.is_same(b)
            },
            _ => false,
        }
    }
}

/// Information about a C++ type declaration
#[derive(Debug)]
pub struct CppTypeData {
    /// Identifier, including namespaces and nested classes
    /// (separated with "::", like in C++)
    pub name: CppName,
    pub kind: CppTypeDataKind,
    /// C++ documentation for the type
    pub doc: Option<CppTypeDoc>,
    /// Whether values of the type can be built in storage that the caller
    /// supplies.
    pub is_movable: bool,
}

/// What a `CppTypeData` stands for; the documentation is left out.
pub struct CppTypeDataView {
    pub name: Seq<Seq<char>>,
    pub kind: CppTypeDataKindView,
    pub is_movable: bool,
}

impl View for CppTypeData {
    type V = CppTypeDataView;

    open spec fn view(&self) -> CppTypeDataView {
        CppTypeDataView { name: self.name@, kind: self.kind@, is_movable: self.is_movable }
    }
}

impl CppTypeData {
    /// Whether two declarations have the same name and kind.
    pub fn is_same(&self, other: &CppTypeData) -> (r: bool)
        ensures
            r == (self@.name == other@.name && self@.kind == other@.kind),
    {
        self.name.is_same(&other.name) && self.kind.is_same(&other.kind)
    }
}

/// Information about a C++ template class
/// instantiation.
#[derive(Debug)]
pub struct CppTemplateInstantiation {
    /// Template class name
    pub class_name: CppName,
    /// List of template arguments used in this instantiation
    pub template_arguments: Vec<CppType>,
}

/// What a `CppTemplateInstantiation` stands for.
pub struct CppTemplateInstantiationView {
    pub class_name: Seq<Seq<char>>,
    pub template_arguments: Seq<CppTypeView>,
}

impl View for CppTemplateInstantiation {
    type V = CppTemplateInstantiationView;

    open spec fn view(&self) -> CppTemplateInstantiationView {
        CppTemplateInstantiationView {
            class_name: self.class_name@,
            template_arguments: types_view(self.template_arguments@),
        }
    }
}

} // verus!
