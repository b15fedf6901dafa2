//! The C++ text of types and paths.

use crate::captions::numeric_cpp_code;
use crate::cpp_ffi_data::{CppFfiFunctionArgument, CppFfiFunctionArgumentView};
use crate::cpp_type::{
    lemma_types_view, types_view, CppPath, CppPathView, CppPointerLikeTypeKind, CppType,
    CppTypeView,
};
use crate::errors::FfiError;
use crate::cpp_data::{CppClassField, CppClassFieldView, CppVisibility};
use crate::text::{join, join_display, join_strings, strings_view};
use vstd::prelude::*;

verus! {

/// The C++ sign of a kind of indirection.
pub open spec fn kind_cpp_code(kind: CppPointerLikeTypeKind) -> Seq<char> {
    match kind {
        CppPointerLikeTypeKind::Pointer => "*"@,
        CppPointerLikeTypeKind::Reference => "&"@,
        CppPointerLikeTypeKind::RValueReference => "&&"@,
    }
}

/// The C++ prefix of a constness.
pub open spec fn const_cpp_code(is_const: bool) -> Seq<char> {
    if is_const {
        "const "@
    } else {
        Seq::empty()
    }
}

/// The C++ text of a type, or the reason for which it has none. For a
/// function pointer type `inner` is the name that stands between the
/// brackets; for every other type it must be `None`.
pub open spec fn type_cpp_code(t: CppTypeView, inner: Option<Seq<char>>) -> Result<
    Seq<char>,
    FfiError,
>
    decreases t, 0nat,
{
    if !(t is FunctionPointer) && inner is Some {
        Err(FfiError::UnexpectedInnerText)
    } else {
        match t {
            CppTypeView::Void => Ok("void"@),
            CppTypeView::BuiltInNumeric(n) => Ok(numeric_cpp_code(n)),
            CppTypeView::Enum { path } => path_cpp_code(path),
            CppTypeView::Class(path) => path_cpp_code(path),
            CppTypeView::TemplateParameter { .. } => Err(FfiError::TemplateParameter),
            CppTypeView::FunctionPointer(f) => if f.allows_variadic_arguments {
                Err(FfiError::UnsupportedFunctionPointer)
            } else {
                match types_cpp_code(f.arguments) {
                    Err(e) => Err(e),
                    Ok(args) => match inner {
                        None => Err(FfiError::MissingInnerText),
                        Some(name) => match type_cpp_code(*f.return_type, None) {
                            Err(e) => Err(e),
                            Ok(ret) => Ok(
                                ret + " (*"@ + name + ")("@ + join(args, ", "@) + ")"@,
                            ),
                        },
                    },
                }
            },
            CppTypeView::PointerLike { kind, is_const, target } => match type_cpp_code(
                *target,
                None,
            ) {
                Err(e) => Err(e),
                Ok(text) => Ok(const_cpp_code(is_const) + text + kind_cpp_code(kind)),
            },
        }
    }
}

/// The C++ text of a path: its segments joined by `::`, followed, where it
/// has template arguments, by their texts between `< ` and ` >`.
pub open spec fn path_cpp_code(p: CppPathView) -> Result<Seq<char>, FfiError>
    decreases p, 0nat,
{
    match p.template_arguments {
        None => Ok(join(p.parts, "::"@)),
        Some(args) => match types_cpp_code(args) {
            Err(e) => Err(e),
            Ok(texts) => Ok(join(p.parts, "::"@) + "< "@ + join(texts, ", "@) + " >"@),
        },
    }
}

/// The C++ texts of several types, in order, or the error of the first
/// among them that has none.
pub open spec fn types_cpp_code(s: Seq<CppTypeView>) -> Result<Seq<Seq<char>>, FfiError>
    decreases s, s.len(),
{
    if s.len() == 0 {
        Ok(Seq::empty())
    } else {
        match types_cpp_code(s.drop_last()) {
            Err(e) => Err(e),
            Ok(head) => match type_cpp_code(s.last(), None) {
                Err(e) => Err(e),
                Ok(text) => Ok(head.push(text)),
            },
        }
    }
}

fn types_to_cpp_code(a: &Vec<CppType>) -> (r: Result<Vec<String>, FfiError>)
    ensures
        match r {
            Ok(texts) => types_cpp_code(types_view(a@)) == Ok::<Seq<Seq<char>>, FfiError>(
                strings_view(texts@),
            ),
            Err(e) => types_cpp_code(types_view(a@)) == Err::<Seq<Seq<char>>, FfiError>(e),
        },
    decreases a,
{
    proof {
        lemma_types_view(a@);
    }
    let ghost all = types_view(a@);
    let mut out: Vec<String> = Vec::new();
    let mut i: usize = 0;
    proof {
        assert(all.subrange(0, 0).len() == 0);
        assert(strings_view(out@) =~= Seq::<Seq<char>>::empty());
    }
    while i < a.len()
        invariant
            i <= a.len(),
            all == types_view(a@),
            all.len() == a.len(),
            forall|j: int| 0 <= j < a.len() ==> #[trigger] all[j] == a@[j]@,
            types_cpp_code(all.subrange(0, i as int)) == Ok::<Seq<Seq<char>>, FfiError>(
                strings_view(out@),
            ),
        decreases a.len() - i,
    {
        proof {
            let next = all.subrange(0, i + 1);
            assert(next.drop_last() =~= all.subrange(0, i as int));
            assert(next.last() == a@[i as int]@);
        }
        match a[i].to_cpp_code(None) {
            Ok(text) => {
                let ghost before = strings_view(out@);
                out.push(text);
                assert(strings_view(out@) =~= before.push(text@));
            },
            Err(e) => {
                proof {
                    lemma_types_cpp_code_error(all, i + 1);
                }
                return Err(e);
            },
        }
        i = i + 1;
    }
    assert(all.subrange(0, i as int) =~= all);
    Ok(out)
}

/// An error among the first `n` types is the error of the whole sequence.
pub proof fn lemma_types_cpp_code_error(s: Seq<CppTypeView>, n: int)
    requires
        0 <= n <= s.len(),
        types_cpp_code(s.subrange(0, n)) is Err,
    ensures
        types_cpp_code(s) == types_cpp_code(s.subrange(0, n)),
    decreases s.len() - n,
{
    if n < s.len() {
        let next = s.subrange(0, n + 1);
        assert(next.drop_last() =~= s.subrange(0, n));
        lemma_types_cpp_code_error(s, n + 1);
    } else {
        assert(s.subrange(0, n) =~= s);
    }
}

impl CppPath {
    /// The C++ text of the path.
    pub fn to_cpp_code(&self) -> (r: Result<String, FfiError>)
        ensures
            match r {
                Ok(text) => path_cpp_code(self@) == Ok::<Seq<char>, FfiError>(text@),
                Err(e) => path_cpp_code(self@) == Err::<Seq<char>, FfiError>(e),
            },
        decreases self,
    {
        let mut out = join_strings(&self.name.parts, "::");
        match &self.template_arguments {
            None => Ok(out),
            Some(args) => match types_to_cpp_code(args) {
                Err(e) => Err(e),
                Ok(texts) => {
                    out.append("< ");
                    let list = join_strings(&texts, ", ");
                    out.append(list.as_str());
                    out.append(" >");
                    Ok(out)
                },
            },
        }
    }
}

impl CppType {
    /// The C++ text of the type. For a function pointer type
    /// `function_pointer_inner_text` is the name that stands between the
    /// brackets; for every other type it must be `None`.
    pub fn to_cpp_code(&self, function_pointer_inner_text: Option<&str>) -> (r: Result<
        String,
        FfiError,
    >)
        ensures
            match r {
                Ok(text) => type_cpp_code(
                    self@,
                    match function_pointer_inner_text {
                        Some(s) => Some(s@),
                        None => None,
                    },
                ) == Ok::<Seq<char>, FfiError>(text@),
                Err(e) => type_cpp_code(
                    self@,
                    match function_pointer_inner_text {
                        Some(s) => Some(s@),
                        None => None,
                    },
                ) == Err::<Seq<char>, FfiError>(e),
            },
        decreases self,
    {
        if !self.is_function_pointer() && function_pointer_inner_text.is_some() {
            return Err(FfiError::UnexpectedInnerText);
        }
        match self {
            CppType::Void => Ok(String::from_str("void")),
            CppType::BuiltInNumeric(n) => Ok(String::from_str(n.to_cpp_code())),
            CppType::Enum { path } => path.to_cpp_code(),
            CppType::Class(path) => path.to_cpp_code(),
            CppType::TemplateParameter { .. } => Err(FfiError::TemplateParameter),
            CppType::FunctionPointer(f) => {
                assert(self@ == CppTypeView::FunctionPointer(f@));
                assert(f@.arguments == types_view(f.arguments@));
                if f.allows_variadic_arguments {
                    return Err(FfiError::UnsupportedFunctionPointer);
                }
                let arg_texts = match types_to_cpp_code(&f.arguments) {
                    Ok(texts) => texts,
                    Err(e) => {
                        return Err(e);
                    },
                };
                match function_pointer_inner_text {
                    None => Err(FfiError::MissingInnerText),
                    Some(name) => {
                        let mut out = match f.return_type.to_cpp_code(None) {
                            Ok(text) => text,
                            Err(e) => {
                                return Err(e);
                            },
                        };
                        out.append(" (*");
                        out.append(name);
                        out.append(")(");
                        let list = join_strings(&arg_texts, ", ");
                        out.append(list.as_str());
                        out.append(")");
                        Ok(out)
                    },
                }
            },
            CppType::PointerLike { kind, is_const, target } => {
                let text = match target.to_cpp_code(None) {
                    Ok(text) => text,
                    Err(e) => {
                        return Err(e);
                    },
                };
                let mut out = String::from_str(if *is_const { "const " } else { "" });
                proof {
                    reveal_strlit("");
                    assert(""@ =~= Seq::<char>::empty());
                }
                out.append(text.as_str());
                out.append(
                    match kind {
                        CppPointerLikeTypeKind::Pointer => "*",
                        CppPointerLikeTypeKind::Reference => "&",
                        CppPointerLikeTypeKind::RValueReference => "&&",
                    },
                );
                Ok(out)
            },
        }
    }
}

/// The C++ text of a boundary argument: for a function pointer the type
/// written around the name, for any other type the type, a space and the name.
pub open spec fn argument_cpp_code(a: CppFfiFunctionArgumentView) -> Result<Seq<char>, FfiError> {
    if a.argument_type.ffi_type is FunctionPointer {
        type_cpp_code(a.argument_type.ffi_type, Some(a.name))
    } else {
        match type_cpp_code(a.argument_type.ffi_type, None) {
            Ok(text) => Ok(text + " "@ + a.name),
            Err(e) => Err(e),
        }
    }
}

impl CppFfiFunctionArgument {
    /// The C++ text of the argument.
    pub fn to_cpp_code(&self) -> (r: Result<String, FfiError>)
        ensures
            match r {
                Ok(text) => argument_cpp_code(self@) == Ok::<Seq<char>, FfiError>(text@),
                Err(e) => argument_cpp_code(self@) == Err::<Seq<char>, FfiError>(e),
            },
    {
        let ffi_type = self.argument_type.ffi_type();
        if ffi_type.is_function_pointer() {
            ffi_type.to_cpp_code(Some(self.name.as_str()))
        } else {
            match ffi_type.to_cpp_code(None) {
                Ok(text) => {
                    let mut out = text;
                    out.append(" ");
                    out.append(self.name.as_str());
                    Ok(out)
                },
                Err(e) => Err(e),
            }
        }
    }
}

} // verus!

verus! {

/// The text that stands for a type in a description meant for a reader: as
/// the C++ text, but a template parameter is written as its name, a function
/// pointer around the name `FN_PTR`, and a type without a C++ text as `[?]`.
pub open spec fn type_pseudo_code(t: CppTypeView) -> Seq<char>
    decreases t,
{
    match t {
        CppTypeView::TemplateParameter { name, .. } => name,
        CppTypeView::Class(path) => path_pseudo_code(path),
        CppTypeView::FunctionPointer(_) => match type_cpp_code(t, Some("FN_PTR"@)) {
            Ok(text) => text,
            Err(_) => "[?]"@,
        },
        CppTypeView::PointerLike { kind, is_const, target } => const_cpp_code(is_const)
            + type_pseudo_code(*target) + kind_cpp_code(kind),
        _ => match type_cpp_code(t, None) {
            Ok(text) => text,
            Err(_) => "[?]"@,
        },
    }
}

/// The text that stands for a path in a description: its segments joined
/// by `::`, followed, where it has template arguments, by their texts
/// between `<` and `>`.
pub open spec fn path_pseudo_code(p: CppPathView) -> Seq<char>
    decreases p,
{
    match p.template_arguments {
        None => join(p.parts, "::"@),
        Some(args) => join(p.parts, "::"@) + "<"@ + join(types_pseudo_code(args), ", "@) + ">"@,
    }
}

/// The descriptive texts of several types, in order.
pub open spec fn types_pseudo_code(s: Seq<CppTypeView>) -> Seq<Seq<char>>
    decreases s,
{
    Seq::new(
        s.len(),
        |i: int|
            if 0 <= i < s.len() {
                type_pseudo_code(s[i])
            } else {
                Seq::empty()
            },
    )
}

fn types_to_pseudo_code(a: &Vec<CppType>) -> (r: Vec<String>)
    ensures
        strings_view(r@) == types_pseudo_code(types_view(a@)),
    decreases a,
{
    proof {
        lemma_types_view(a@);
    }
    let mut out: Vec<String> = Vec::new();
    let mut i: usize = 0;
    while i < a.len()
        invariant
            i <= a.len(),
            out.len() == i,
            forall|j: int| 0 <= j < i ==> out@[j]@ == type_pseudo_code(a@[j]@),
        decreases a.len() - i,
    {
        out.push(a[i].to_cpp_pseudo_code());
        i = i + 1;
    }
    assert(strings_view(out@) =~= types_pseudo_code(types_view(a@)));
    out
}

impl CppPath {
    /// The text that stands for the path in a description.
    pub fn to_cpp_pseudo_code(&self) -> (r: String)
        ensures
            r@ == path_pseudo_code(self@),
        decreases self,
    {
        let mut out = join_strings(&self.name.parts, "::");
        match &self.template_arguments {
            None => {},
            Some(args) => {
                proof {
                    reveal_strlit(", ");
                }
                let texts = types_to_pseudo_code(args);
                out.append("<");
                let list = join_display(&texts, ", ");
                out.append(list.as_str());
                out.append(">");
            },
        }
        out
    }
}

impl CppType {
    /// The text that stands for the type in a description.
    pub fn to_cpp_pseudo_code(&self) -> (r: String)
        ensures
            r@ == type_pseudo_code(self@),
        decreases self,
    {
        match self {
            CppType::TemplateParameter { name, .. } => name.clone(),
            CppType::Class(path) => path.to_cpp_pseudo_code(),
            CppType::FunctionPointer(_) => match self.to_cpp_code(Some("FN_PTR")) {
                Ok(text) => text,
                Err(_) => String::from_str("[?]"),
            },
            CppType::PointerLike { kind, is_const, target } => {
                let mut out = String::from_str(if *is_const { "const " } else { "" });
                proof {
                    reveal_strlit("");
                    assert(""@ =~= Seq::<char>::empty());
                }
                let text = target.to_cpp_pseudo_code();
                out.append(text.as_str());
                out.append(
                    match kind {
                        CppPointerLikeTypeKind::Pointer => "*",
                        CppPointerLikeTypeKind::Reference => "&",
                        CppPointerLikeTypeKind::RValueReference => "&&",
                    },
                );
                out
            },
            _ => match self.to_cpp_code(None) {
                Ok(text) => text,
                Err(_) => String::from_str("[?]"),
            },
        }
    }
}

/// The word that a visibility puts before a member in a description.
pub open spec fn visibility_text(visibility: CppVisibility) -> Seq<char> {
    match visibility {
        CppVisibility::Public => Seq::empty(),
        CppVisibility::Protected => "protected "@,
        CppVisibility::Private => "private "@,
    }
}

/// The description of a field: the class, and between braces the
/// visibility, the type and the name of the field.
pub open spec fn field_short_text(field: CppClassFieldView) -> Seq<char> {
    "class "@ + path_pseudo_code(field.class_type) + " { "@ + visibility_text(field.visibility)
        + type_pseudo_code(field.field_type) + " "@ + field.name + "; }"@
}

impl CppClassField {
    /// A short description of the field.
    pub fn short_text(&self) -> (r: String)
        ensures
            r@ == field_short_text(self@),
    {
        let visibility_text = match self.visibility {
            CppVisibility::Public => "",
            CppVisibility::Protected => "protected ",
            CppVisibility::Private => "private ",
        };
        proof {
            reveal_strlit("");
            assert(""@ =~= Seq::<char>::empty());
        }
        let mut out = String::from_str("class ");
        let class_text = self.class_type.to_cpp_pseudo_code();
        out.append(class_text.as_str());
        out.append(" { ");
        out.append(visibility_text);
        let type_text = self.field_type.to_cpp_pseudo_code();
        out.append(type_text.as_str());
        out.append(" ");
        out.append(self.name.as_str());
        out.append("; }");
        out
    }
}

} // verus!
