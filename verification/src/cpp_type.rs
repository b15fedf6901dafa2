//! C++ types and hierarchical paths, with their mathematical views.

use crate::cpp_data::CppName;
use crate::text::{clone_strings, same_strings, strings_view};
use vstd::prelude::*;

verus! {

/// The built-in numeric types of C++.
#[derive(Clone, Copy, Debug, PartialEq, Eq, Structural, Hash)]
pub enum CppBuiltInNumericType {
    Bool,
    Char,
    SChar,
    UChar,
    WChar,
    Char16,
    Char32,
    Short,
    UShort,
    Int,
    UInt,
    Long,
    ULong,
    LongLong,
    ULongLong,
    Float,
    Double,
    LongDouble,
}

/// The three kinds of indirection.
#[derive(Clone, Copy, Debug, PartialEq, Eq, Structural, Hash)]
pub enum CppPointerLikeTypeKind {
    Pointer,
    Reference,
    RValueReference,
}

/// The place of a type in a signature.
#[derive(Clone, Copy, Debug, PartialEq, Eq, Structural, Hash)]
pub enum CppTypeRole {
    ReturnType,
    NotReturnType,
}

/// A hierarchical path: name segments, and template arguments at the last
/// segment where there are any.
#[derive(Debug)]
pub struct CppPath {
    pub name: CppName,
    pub template_arguments: Option<Vec<CppType>>,
}

/// The type of a pointer to a function.
#[derive(Debug)]
pub struct CppFunctionPointerType {
    pub return_type: Box<CppType>,
    pub arguments: Vec<CppType>,
    pub allows_variadic_arguments: bool,
}

/// A C++ type.
#[derive(Debug)]
pub enum CppType {
    Void,
    BuiltInNumeric(CppBuiltInNumericType),
    Enum { path: CppPath },
    Class(CppPath),
    TemplateParameter { nested_level: usize, index: usize, name: String },
    FunctionPointer(CppFunctionPointerType),
    PointerLike { kind: CppPointerLikeTypeKind, is_const: bool, target: Box<CppType> },
}

/// What a `CppPath` stands for.
pub struct CppPathView {
    pub parts: Seq<Seq<char>>,
    pub template_arguments: Option<Seq<CppTypeView>>,
}

/// What a `CppFunctionPointerType` stands for.
pub struct CppFunctionPointerTypeView {
    pub return_type: Box<CppTypeView>,
    pub arguments: Seq<CppTypeView>,
    pub allows_variadic_arguments: bool,
}

/// What a `CppType` stands for.
pub enum CppTypeView {
    Void,
    BuiltInNumeric(CppBuiltInNumericType),
    Enum { path: CppPathView },
    Class(CppPathView),
    TemplateParameter { nested_level: usize, index: usize, name: Seq<char> },
    FunctionPointer(CppFunctionPointerTypeView),
    PointerLike { kind: CppPointerLikeTypeKind, is_const: bool, target: Box<CppTypeView> },
}

/// The view of a type.
pub open spec fn type_view(t: CppType) -> CppTypeView
    decreases t, 0nat,
{
    match t {
        CppType::Void => CppTypeView::Void,
        CppType::BuiltInNumeric(n) => CppTypeView::BuiltInNumeric(n),
        CppType::Enum { path } => CppTypeView::Enum { path: path_view(path) },
        CppType::Class(path) => CppTypeView::Class(path_view(path)),
        CppType::TemplateParameter { nested_level, index, name } => CppTypeView::TemplateParameter {
            nested_level,
            index,
            name: name@,
        },
        CppType::FunctionPointer(f) => CppTypeView::FunctionPointer(function_pointer_view(f)),
        CppType::PointerLike { kind, is_const, target } => CppTypeView::PointerLike {
            kind,
            is_const,
            target: Box::new(type_view(*target)),
        },
    }
}

/// The view of a function pointer type.
pub open spec fn function_pointer_view(f: CppFunctionPointerType) -> CppFunctionPointerTypeView
    decreases f, 0nat,
{
    CppFunctionPointerTypeView {
        return_type: Box::new(type_view(*f.return_type)),
        arguments: types_view(f.arguments@),
        allows_variadic_arguments: f.allows_variadic_arguments,
    }
}

/// The view of a path.
pub open spec fn path_view(p: CppPath) -> CppPathView
    decreases p, 0nat,
{
    CppPathView {
        parts: strings_view(p.name.parts@),
        template_arguments: match p.template_arguments {
            Some(a) => Some(types_view(a@)),
            None => None,
        },
    }
}

/// The views of a sequence of types, in order.
pub open spec fn types_view(s: Seq<CppType>) -> Seq<CppTypeView>
    decreases s, s.len(),
{
    if s.len() == 0 {
        Seq::empty()
    } else {
        types_view(s.drop_last()).push(type_view(s.last()))
    }
}

/// The views of a sequence of paths, in order.
pub open spec fn paths_view(s: Seq<CppPath>) -> Seq<CppPathView> {
    s.map_values(|p: CppPath| path_view(p))
}

impl View for CppType {
    type V = CppTypeView;

    open spec fn view(&self) -> CppTypeView {
        type_view(*self)
    }
}

impl View for CppPath {
    type V = CppPathView;

    open spec fn view(&self) -> CppPathView {
        path_view(*self)
    }
}

impl View for CppFunctionPointerType {
    type V = CppFunctionPointerTypeView;

    open spec fn view(&self) -> CppFunctionPointerTypeView {
        function_pointer_view(*self)
    }
}

/// `types_view` has the length of its argument and views it element by element.
pub proof fn lemma_types_view(s: Seq<CppType>)
    ensures
        types_view(s).len() == s.len(),
        forall|i: int| 0 <= i < s.len() ==> #[trigger] types_view(s)[i] == type_view(s[i]),
    decreases s.len(),
{
    if s.len() > 0 {
        lemma_types_view(s.drop_last());
    }
}

/// The type `T*` or `const T*`.
pub open spec fn pointer_to(is_const: bool, target: CppTypeView) -> CppTypeView {
    CppTypeView::PointerLike {
        kind: CppPointerLikeTypeKind::Pointer,
        is_const,
        target: Box::new(target),
    }
}

/// The type `T&` or `const T&`.
pub open spec fn reference_to(is_const: bool, target: CppTypeView) -> CppTypeView {
    CppTypeView::PointerLike {
        kind: CppPointerLikeTypeKind::Reference,
        is_const,
        target: Box::new(target),
    }
}

/// Whether the path names the bit-flags class template: one segment,
/// `QFlags`, with one template argument.
pub open spec fn is_qflags_path(p: CppPathView) -> bool {
    &&& p.parts.len() == 1
    &&& p.parts[0] == "QFlags"@
    &&& p.template_arguments matches Some(args)
    &&& args.len() == 1
}

/// Whether the type is, or contains, an unresolved template parameter.
pub open spec fn contains_template_parameter(t: CppTypeView) -> bool
    decreases t,
{
    match t {
        CppTypeView::Void => false,
        CppTypeView::BuiltInNumeric(_) => false,
        CppTypeView::Enum { path } => path_contains_template_parameter(path),
        CppTypeView::Class(path) => path_contains_template_parameter(path),
        CppTypeView::TemplateParameter { .. } => true,
        CppTypeView::FunctionPointer(f) => contains_template_parameter(*f.return_type)
            || any_contains_template_parameter(f.arguments),
        CppTypeView::PointerLike { target, .. } => contains_template_parameter(*target),
    }
}

/// Whether one of the path's template arguments is, or contains, an
/// unresolved template parameter.
pub open spec fn path_contains_template_parameter(p: CppPathView) -> bool
    decreases p,
{
    match p.template_arguments {
        Some(args) => any_contains_template_parameter(args),
        None => false,
    }
}

/// Whether one of the types is, or contains, an unresolved template parameter.
pub open spec fn any_contains_template_parameter(s: Seq<CppTypeView>) -> bool
    decreases s,
{
    exists|i: int| 0 <= i < s.len() && contains_template_parameter(#[trigger] s[i])
}

/// Whether the type is a reference, or a pointer to one.
pub open spec fn contains_reference(t: CppTypeView) -> bool
    decreases t,
{
    match t {
        CppTypeView::PointerLike { kind, target, .. } => match kind {
            CppPointerLikeTypeKind::Pointer => contains_reference(*target),
            _ => true,
        },
        _ => false,
    }
}

impl CppPath {
    /// A path without template arguments.
    pub fn from_name(name: CppName) -> (r: CppPath)
        ensures
            r@ == (CppPathView { parts: name@, template_arguments: None }),
    {
        CppPath { name, template_arguments: None }
    }

    /// Whether two paths have the same segments and template arguments.
    pub fn is_same(&self, other: &CppPath) -> (r: bool)
        ensures
            r == (self@ == other@),
        decreases self,
    {
        if !same_strings(&self.name.parts, &other.name.parts) {
            return false;
        }
        match (&self.template_arguments, &other.template_arguments) {
            (None, None) => true,
            (Some(x), Some(y)) => same_types(x, y),
            _ => false,
        }
    }

    /// Whether one of the template arguments is, or contains, an unresolved
    /// template parameter.
    pub fn has_template_parameter(&self) -> (r: bool)
        ensures
            r == path_contains_template_parameter(self@),
        decreases self,
    {
        match &self.template_arguments {
            Some(args) => any_has_template_parameter(args),
            None => false,
        }
    }
}

impl Clone for CppPath {
    fn clone(&self) -> (r: Self)
        ensures
            r@ == self@,
        decreases self,
    {
        CppPath {
            name: CppName { parts: clone_strings(&self.name.parts) },
            template_arguments: match &self.template_arguments {
                Some(x) => Some(clone_types(x)),
                None => None,
            },
        }
    }
}

/// Whether the path names the bit-flags class template.
pub fn is_qflags(path: &CppPath) -> (r: bool)
    ensures
        r == is_qflags_path(path@),
{
    if path.name.parts.len() != 1 {
        return false;
    }
    let head = String::from_str("QFlags");
    if path.name.parts[0] != head {
        return false;
    }
    match &path.template_arguments {
        Some(args) => {
            proof {
                lemma_types_view(args@);
            }
            args.len() == 1
        },
        None => false,
    }
}

/// Whether two vectors hold the same types in the same order.
pub fn same_types(a: &Vec<CppType>, b: &Vec<CppType>) -> (r: bool)
    ensures
        r == (types_view(a@) == types_view(b@)),
    decreases a,
{
    proof {
        lemma_types_view(a@);
        lemma_types_view(b@);
    }
    if a.len() != b.len() {
        return false;
    }
    let mut i: usize = 0;
    while i < a.len()
        invariant
            i <= a.len(),
            a.len() == b.len(),
            forall|j: int| 0 <= j < i ==> type_view(a@[j]) == type_view(b@[j]),
            types_view(a@).len() == a.len(),
            types_view(b@).len() == b.len(),
            forall|i: int| 0 <= i < a.len() ==> #[trigger] types_view(a@)[i] == type_view(a@[i]),
            forall|i: int| 0 <= i < b.len() ==> #[trigger] types_view(b@)[i] == type_view(b@[i]),
        decreases a.len() - i,
    {
        if !a[i].is_same(&b[i]) {
            assert(types_view(a@)[i as int] != types_view(b@)[i as int]);
            return false;
        }
        i = i + 1;
    }
    assert(types_view(a@) =~= types_view(b@));
    true
}

/// A copy of the types.
pub fn clone_types(a: &Vec<CppType>) -> (r: Vec<CppType>)
    ensures
        types_view(r@) == types_view(a@),
    decreases a,
{
    let mut out: Vec<CppType> = Vec::new();
    let mut i: usize = 0;
    while i < a.len()
        invariant
            i <= a.len(),
            out.len() == i,
            forall|j: int| 0 <= j < i ==> type_view(out@[j]) == type_view(a@[j]),
        decreases a.len() - i,
    {
        out.push(a[i].clone());
        i = i + 1;
    }
    proof {
        lemma_types_view(a@);
        lemma_types_view(out@);
        assert(types_view(out@) =~= types_view(a@));
    }
    out
}

/// Whether one of the types is, or contains, an unresolved template parameter.
pub fn any_has_template_parameter(a: &Vec<CppType>) -> (r: bool)
    ensures
        r == any_contains_template_parameter(types_view(a@)),
    decreases a,
{
    proof {
        lemma_types_view(a@);
    }
    let mut i: usize = 0;
    while i < a.len()
        invariant
            i <= a.len(),
            forall|j: int| 0 <= j < i ==> !contains_template_parameter(#[trigger] types_view(a@)[j]),
            types_view(a@).len() == a.len(),
            forall|i: int| 0 <= i < a.len() ==> #[trigger] types_view(a@)[i] == type_view(a@[i]),
        decreases a.len() - i,
    {
        if a[i].is_or_contains_template_parameter() {
            assert(contains_template_parameter(types_view(a@)[i as int]));
            return true;
        }
        i = i + 1;
    }
    false
}

impl CppFunctionPointerType {
    /// Whether two function pointer types are the same.
    pub fn is_same(&self, other: &CppFunctionPointerType) -> (r: bool)
        ensures
            r == (self@ == other@),
        decreases self,
    {
        self.allows_variadic_arguments == other.allows_variadic_arguments
            && self.return_type.is_same(&other.return_type) && same_types(
            &self.arguments,
            &other.arguments,
        )
    }
}

impl Clone for CppFunctionPointerType {
    fn clone(&self) -> (r: Self)
        ensures
            r@ == self@,
        decreases self,
    {
        CppFunctionPointerType {
            return_type: Box::new((*self.return_type).clone()),
            arguments: clone_types(&self.arguments),
            allows_variadic_arguments: self.allows_variadic_arguments,
        }
    }
}

impl CppType {
    /// The type `T*` or `const T*`.
    pub fn new_pointer(is_const: bool, target: CppType) -> (r: CppType)
        ensures
            r@ == pointer_to(is_const, target@),
    {
        CppType::PointerLike {
            kind: CppPointerLikeTypeKind::Pointer,
            is_const,
            target: Box::new(target),
        }
    }

    /// The type `T&` or `const T&`.
    pub fn new_reference(is_const: bool, target: CppType) -> (r: CppType)
        ensures
            r@ == reference_to(is_const, target@),
    {
        CppType::PointerLike {
            kind: CppPointerLikeTypeKind::Reference,
            is_const,
            target: Box::new(target),
        }
    }

    /// Whether this is `void`.
    pub fn is_void(&self) -> (r: bool)
        ensures
            r == (self@ is Void),
    {
        match self {
            CppType::Void => true,
            _ => false,
        }
    }

    /// Whether this is a class type.
    pub fn is_class(&self) -> (r: bool)
        ensures
            r == (self@ is Class),
    {
        match self {
            CppType::Class(_) => true,
            _ => false,
        }
    }

    /// Whether this is a function pointer type.
    pub fn is_function_pointer(&self) -> (r: bool)
        ensures
            r == (self@ is FunctionPointer),
    {
        match self {
            CppType::FunctionPointer(_) => true,
            _ => false,
        }
    }

    /// Whether two types are the same.
    pub fn is_same(&self, other: &CppType) -> (r: bool)
        ensures
            r == (self@ == other@),
        decreases self,
    {
        match (self, other) {
            (CppType::Void, CppType::Void) => true,
            (CppType::BuiltInNumeric(a), CppType::BuiltInNumeric(b)) => *a == *b,
            (CppType::Enum { path: a }, CppType::Enum { path: b }) => a.is_same(b),
            (CppType::Class(a), CppType::Class(b)) => a.is_same(b),
            (
                CppType::TemplateParameter { nested_level: l1, index: i1, name: n1 },
                CppType::TemplateParameter { nested_level: l2, index: i2, name: n2 },
            ) => *l1 == *l2 && *i1 == *i2 && *n1 == *n2,
            (CppType::FunctionPointer(f), CppType::FunctionPointer(g)) => f.is_same(g),
            (
                CppType::PointerLike { kind: k1, is_const: c1, target: t1 },
                CppType::PointerLike { kind: k2, is_const: c2, target: t2 },
            ) => *k1 == *k2 && *c1 == *c2 && t1.is_same(t2),
            _ => false,
        }
    }

    /// Whether the type is, or contains, an unresolved template parameter.
    pub fn is_or_contains_template_parameter(&self) -> (r: bool)
        ensures
            r == contains_template_parameter(self@),
        decreases self,
    {
        match self {
            CppType::Void => false,
            CppType::BuiltInNumeric(_) => false,
            CppType::Enum { path } => path.has_template_parameter(),
            CppType::Class(path) => path.has_template_parameter(),
            CppType::TemplateParameter { .. } => true,
            CppType::FunctionPointer(f) => {
                assert(self@ == CppTypeView::FunctionPointer(f@));
                assert(f@.arguments == types_view(f.arguments@));
                f.return_type.is_or_contains_template_parameter() || any_has_template_parameter(
                    &f.arguments,
                )
            },
            CppType::PointerLike { target, .. } => target.is_or_contains_template_parameter(),
        }
    }

    /// Whether the type is a reference, or a pointer to one.
    pub fn contains_reference(&self) -> (r: bool)
        ensures
            r == contains_reference(self@),
        decreases self,
    {
        match self {
            CppType::PointerLike { kind, target, .. } => match kind {
                CppPointerLikeTypeKind::Pointer => target.contains_reference(),
                _ => true,
            },
            _ => false,
        }
    }
}

impl Clone for CppType {
    fn clone(&self) -> (r: Self)
        ensures
            r@ == self@,
        decreases self,
    {
        match self {
            CppType::Void => CppType::Void,
            CppType::BuiltInNumeric(n) => CppType::BuiltInNumeric(*n),
            CppType::Enum { path } => CppType::Enum { path: path.clone() },
            CppType::Class(path) => CppType::Class(path.clone()),
            CppType::TemplateParameter { nested_level, index, name } => CppType::TemplateParameter {
                nested_level: *nested_level,
                index: *index,
                name: name.clone(),
            },
            CppType::FunctionPointer(f) => CppType::FunctionPointer(f.clone()),
            CppType::PointerLike { kind, is_const, target } => CppType::PointerLike {
                kind: *kind,
                is_const: *is_const,
                target: Box::new((**target).clone()),
            },
        }
    }
}

} // verus!

verus! {

impl PartialEq for CppType {
    fn eq(&self, other: &Self) -> (r: bool) {
        self.is_same(other)
    }
}

impl vstd::std_specs::cmp::PartialEqSpecImpl for CppType {
    open spec fn obeys_eq_spec() -> bool {
        true
    }

    open spec fn eq_spec(&self, other: &Self) -> bool {
        self@ == other@
    }
}

impl PartialEq for CppPath {
    fn eq(&self, other: &Self) -> (r: bool) {
        self.is_same(other)
    }
}

impl vstd::std_specs::cmp::PartialEqSpecImpl for CppPath {
    open spec fn obeys_eq_spec() -> bool {
        true
    }

    open spec fn eq_spec(&self, other: &Self) -> bool {
        self@ == other@
    }
}

impl PartialEq for CppFunctionPointerType {
    fn eq(&self, other: &Self) -> (r: bool) {
        self.is_same(other)
    }
}

impl vstd::std_specs::cmp::PartialEqSpecImpl for CppFunctionPointerType {
    open spec fn obeys_eq_spec() -> bool {
        true
    }

    open spec fn eq_spec(&self, other: &Self) -> bool {
        self@ == other@
    }
}

} // verus!
