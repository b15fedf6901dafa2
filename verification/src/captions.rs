//! Identifier-safe captions of types and paths, from which the names of
//! boundary functions are made.

use crate::cpp_type::{
    lemma_types_view, types_view, CppBuiltInNumericType, CppPath, CppPathView,
    CppPointerLikeTypeKind, CppType, CppTypeView,
};
use crate::text::{
    ascii_caption, caption_of, captions_of, join, join_display, strings_view,
};
use vstd::prelude::*;

verus! {

/// The C++ spelling of a built-in numeric type.
pub open spec fn numeric_cpp_code(t: CppBuiltInNumericType) -> Seq<char> {
    match t {
        CppBuiltInNumericType::Bool => "bool"@,
        CppBuiltInNumericType::Char => "char"@,
        CppBuiltInNumericType::SChar => "signed char"@,
        CppBuiltInNumericType::UChar => "unsigned char"@,
        CppBuiltInNumericType::WChar => "wchar_t"@,
        CppBuiltInNumericType::Char16 => "char16_t"@,
        CppBuiltInNumericType::Char32 => "char32_t"@,
        CppBuiltInNumericType::Short => "short"@,
        CppBuiltInNumericType::UShort => "unsigned short"@,
        CppBuiltInNumericType::Int => "int"@,
        CppBuiltInNumericType::UInt => "unsigned int"@,
        CppBuiltInNumericType::Long => "long"@,
        CppBuiltInNumericType::ULong => "unsigned long"@,
        CppBuiltInNumericType::LongLong => "long long"@,
        CppBuiltInNumericType::ULongLong => "unsigned long long"@,
        CppBuiltInNumericType::Float => "float"@,
        CppBuiltInNumericType::Double => "double"@,
        CppBuiltInNumericType::LongDouble => "long double"@,
    }
}

impl CppBuiltInNumericType {
    /// The C++ spelling of the type.
    pub fn to_cpp_code(&self) -> (r: &'static str)
        ensures
            r@ == numeric_cpp_code(*self),
    {
        match self {
            CppBuiltInNumericType::Bool => "bool",
            CppBuiltInNumericType::Char => "char",
            CppBuiltInNumericType::SChar => "signed char",
            CppBuiltInNumericType::UChar => "unsigned char",
            CppBuiltInNumericType::WChar => "wchar_t",
            CppBuiltInNumericType::Char16 => "char16_t",
            CppBuiltInNumericType::Char32 => "char32_t",
            CppBuiltInNumericType::Short => "short",
            CppBuiltInNumericType::UShort => "unsigned short",
            CppBuiltInNumericType::Int => "int",
            CppBuiltInNumericType::UInt => "unsigned int",
            CppBuiltInNumericType::Long => "long",
            CppBuiltInNumericType::ULong => "unsigned long",
            CppBuiltInNumericType::LongLong => "long long",
            CppBuiltInNumericType::ULongLong => "unsigned long long",
            CppBuiltInNumericType::Float => "float",
            CppBuiltInNumericType::Double => "double",
            CppBuiltInNumericType::LongDouble => "long double",
        }
    }
}

/// The suffix that a kind of indirection adds to a caption.
pub open spec fn kind_caption(kind: CppPointerLikeTypeKind) -> Seq<char> {
    match kind {
        CppPointerLikeTypeKind::Pointer => "_ptr"@,
        CppPointerLikeTypeKind::Reference => "_ref"@,
        CppPointerLikeTypeKind::RValueReference => "_rref"@,
    }
}

/// The suffix that constness adds to a caption.
pub open spec fn const_caption(is_const: bool) -> Seq<char> {
    if is_const {
        "_const"@
    } else {
        Seq::empty()
    }
}

/// The caption of a type: a text of letters, digits and underscores that
/// describes it.
pub open spec fn type_caption(t: CppTypeView) -> Seq<char>
    decreases t,
{
    match t {
        CppTypeView::Void => "void"@,
        CppTypeView::BuiltInNumeric(n) => caption_of(numeric_cpp_code(n)),
        CppTypeView::Enum { path } => path_caption(path),
        CppTypeView::Class(path) => path_caption(path),
        CppTypeView::TemplateParameter { name, .. } => caption_of(name),
        CppTypeView::FunctionPointer(_) => "func"@,
        CppTypeView::PointerLike { kind, is_const, target } => type_caption(*target)
            + const_caption(is_const) + kind_caption(kind),
    }
}

/// The caption of a path: the captions of its segments joined by
/// underscores, followed, where it has template arguments, by an underscore
/// and the arguments' captions joined by underscores.
pub open spec fn path_caption(p: CppPathView) -> Seq<char>
    decreases p,
{
    match p.template_arguments {
        None => join(captions_of(p.parts), "_"@),
        Some(args) => join(captions_of(p.parts), "_"@) + "_"@ + join(type_captions(args), "_"@),
    }
}

/// The captions of several types, in order.
pub open spec fn type_captions(s: Seq<CppTypeView>) -> Seq<Seq<char>>
    decreases s,
{
    Seq::new(
        s.len(),
        |i: int|
            if 0 <= i < s.len() {
                type_caption(s[i])
            } else {
                Seq::empty()
            },
    )
}

fn part_captions(parts: &Vec<String>) -> (r: Vec<String>)
    ensures
        strings_view(r@) == captions_of(strings_view(parts@)),
{
    let mut out: Vec<String> = Vec::new();
    let mut i: usize = 0;
    while i < parts.len()
        invariant
            i <= parts.len(),
            out.len() == i,
            forall|j: int| 0 <= j < i ==> out@[j]@ == caption_of(parts@[j]@),
        decreases parts.len() - i,
    {
        out.push(ascii_caption(parts[i].as_str()));
        i = i + 1;
    }
    assert(strings_view(out@) =~= captions_of(strings_view(parts@)));
    out
}

fn captions_of_types(a: &Vec<CppType>) -> (r: Vec<String>)
    ensures
        strings_view(r@) == type_captions(types_view(a@)),
    decreases a,
{
    proof {
        lemma_types_view(a@);
    }
    let mut out: Vec<String> = Vec::new();
    let mut i: usize = 0;
    while i < a.len()
        invariant
            i <= a.len(),
            out.len() == i,
            forall|j: int| 0 <= j < i ==> out@[j]@ == type_caption(a@[j]@),
        decreases a.len() - i,
    {
        out.push(a[i].ascii_caption());
        i = i + 1;
    }
    assert(strings_view(out@) =~= type_captions(types_view(a@)));
    out
}

impl CppPath {
    /// The caption of the path.
    pub fn ascii_caption(&self) -> (r: String)
        ensures
            r@ == path_caption(self@),
        decreases self,
    {
        proof {
            reveal_strlit("_");
        }
        let heads = part_captions(&self.name.parts);
        let mut out = join_display(&heads, "_");
        match &self.template_arguments {
            None => {},
            Some(args) => {
                let texts = captions_of_types(args);
                out.append("_");
                let tail = join_display(&texts, "_");
                out.append(tail.as_str());
            },
        }
        out
    }
}

impl CppType {
    /// The caption of the type.
    pub fn ascii_caption(&self) -> (r: String)
        ensures
            r@ == type_caption(self@),
        decreases self,
    {
        match self {
            CppType::Void => String::from_str("void"),
            CppType::BuiltInNumeric(n) => ascii_caption(n.to_cpp_code()),
            CppType::Enum { path } => path.ascii_caption(),
            CppType::Class(path) => path.ascii_caption(),
            CppType::TemplateParameter { name, .. } => ascii_caption(name.as_str()),
            CppType::FunctionPointer(_) => String::from_str("func"),
            CppType::PointerLike { kind, is_const, target } => {
                let mut out = target.ascii_caption();
                if *is_const {
                    out.append("_const");
                }
                out.append(
                    match kind {
                        CppPointerLikeTypeKind::Pointer => "_ptr",
                        CppPointerLikeTypeKind::Reference => "_ref",
                        CppPointerLikeTypeKind::RValueReference => "_rref",
                    },
                );
                assert(out@ =~= type_caption(self@));
                out
            },
        }
    }
}

} // verus!

verus! {

/// The captions of the types, in order.
pub fn type_captions_of(types: &[CppType]) -> (r: Vec<String>)
    ensures
        strings_view(r@) == type_captions(types_view(types@)),
{
    proof {
        lemma_types_view(types@);
    }
    let mut out: Vec<String> = Vec::new();
    let mut i: usize = 0;
    while i < types.len()
        invariant
            i <= types.len(),
            out.len() == i,
            forall|j: int| 0 <= j < i ==> out@[j]@ == type_caption(types@[j]@),
        decreases types.len() - i,
    {
        out.push(types[i].ascii_caption());
        i = i + 1;
    }
    assert(strings_view(out@) =~= type_captions(types_view(types@)));
    out
}

} // verus!
