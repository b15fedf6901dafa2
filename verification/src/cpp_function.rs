//! Descriptions of C++ functions and member functions.

use crate::cpp_data::CppVisibility;
use crate::cpp_type::{CppPath, CppPathView, CppType, CppTypeView};
use vstd::prelude::*;

verus! {

/// What a member function is to its class.
#[derive(Clone, Copy, Debug, PartialEq, Eq, Structural, Hash)]
pub enum CppFunctionKind {
    Regular,
    Constructor,
    Destructor,
}

impl CppFunctionKind {
    /// Whether this is a constructor.
    pub fn is_constructor(&self) -> (r: bool)
        ensures
            r == (*self == CppFunctionKind::Constructor),
    {
        match self {
            CppFunctionKind::Constructor => true,
            _ => false,
        }
    }

    /// Whether this is a destructor.
    pub fn is_destructor(&self) -> (r: bool)
        ensures
            r == (*self == CppFunctionKind::Destructor),
    {
        match self {
            CppFunctionKind::Destructor => true,
            _ => false,
        }
    }
}

/// Which side owns the storage of a class value that a function returns.
#[derive(Clone, Copy, Debug, PartialEq, Eq, Structural, Hash)]
pub enum ReturnValueAllocationPlace {
    /// The caller supplies the storage.
    Stack,
    /// The callee allocates; the caller owns the object afterwards.
    Heap,
    /// The function returns no class value.
    NotApplicable,
}

/// What a function has as a member of a class.
#[derive(Debug)]
pub struct CppFunctionMemberData {
    /// The class that owns the function.
    pub class_type: CppPath,
    pub kind: CppFunctionKind,
    pub is_virtual: bool,
    pub is_pure_virtual: bool,
    pub is_const: bool,
    pub is_static: bool,
    pub visibility: CppVisibility,
    pub is_signal: bool,
    pub is_slot: bool,
}

/// What a `CppFunctionMemberData` stands for.
pub struct CppFunctionMemberDataView {
    pub class_type: CppPathView,
    pub kind: CppFunctionKind,
    pub is_virtual: bool,
    pub is_pure_virtual: bool,
    pub is_const: bool,
    pub is_static: bool,
    pub visibility: CppVisibility,
    pub is_signal: bool,
    pub is_slot: bool,
}

impl View for CppFunctionMemberData {
    type V = CppFunctionMemberDataView;

    open spec fn view(&self) -> CppFunctionMemberDataView {
        CppFunctionMemberDataView {
            class_type: self.class_type@,
            kind: self.kind,
            is_virtual: self.is_virtual,
            is_pure_virtual: self.is_pure_virtual,
            is_const: self.is_const,
            is_static: self.is_static,
            visibility: self.visibility,
            is_signal: self.is_signal,
            is_slot: self.is_slot,
        }
    }
}

impl Clone for CppFunctionMemberData {
    fn clone(&self) -> (r: Self)
        ensures
            r@ == self@,
    {
        CppFunctionMemberData {
            class_type: self.class_type.clone(),
            kind: self.kind,
            is_virtual: self.is_virtual,
            is_pure_virtual: self.is_pure_virtual,
            is_const: self.is_const,
            is_static: self.is_static,
            visibility: self.visibility,
            is_signal: self.is_signal,
            is_slot: self.is_slot,
        }
    }
}

/// A formal argument of a function.
#[derive(Debug)]
pub struct CppFunctionArgument {
    pub name: String,
    pub argument_type: CppType,
    pub has_default_value: bool,
}

/// What a `CppFunctionArgument` stands for.
pub struct CppFunctionArgumentView {
    pub name: Seq<char>,
    pub argument_type: CppTypeView,
    pub has_default_value: bool,
}

impl View for CppFunctionArgument {
    type V = CppFunctionArgumentView;

    open spec fn view(&self) -> CppFunctionArgumentView {
        CppFunctionArgumentView {
            name: self.name@,
            argument_type: self.argument_type@,
            has_default_value: self.has_default_value,
        }
    }
}

impl Clone for CppFunctionArgument {
    fn clone(&self) -> (r: Self)
        ensures
            r@ == self@,
    {
        CppFunctionArgument {
            name: self.name.clone(),
            argument_type: self.argument_type.clone(),
            has_default_value: self.has_default_value,
        }
    }
}

/// The views of a sequence of arguments, in order.
pub open spec fn arguments_view(s: Seq<CppFunctionArgument>) -> Seq<CppFunctionArgumentView> {
    s.map_values(|a: CppFunctionArgument| a@)
}

/// A copy of the first `n` arguments.
pub fn clone_arguments(a: &Vec<CppFunctionArgument>, n: usize) -> (r: Vec<CppFunctionArgument>)
    requires
        n <= a.len(),
    ensures
        arguments_view(r@) == arguments_view(a@).subrange(0, n as int),
{
    let mut out: Vec<CppFunctionArgument> = Vec::new();
    let mut i: usize = 0;
    while i < n
        invariant
            i <= n <= a.len(),
            out.len() == i,
            forall|j: int| 0 <= j < i ==> out@[j]@ == a@[j]@,
        decreases n - i,
    {
        out.push(a[i].clone());
        i = i + 1;
    }
    assert(arguments_view(out@) =~= arguments_view(a@).subrange(0, n as int));
    out
}

/// A free function or a member function.
#[derive(Debug)]
pub struct CppFunction {
    /// The path of the function, with its template arguments if it is an
    /// instance of a function template.
    pub path: CppPath,
    /// What the function has as a member of a class; `None` for a free function.
    pub member: Option<CppFunctionMemberData>,
    pub return_type: CppType,
    pub arguments: Vec<CppFunctionArgument>,
    pub allows_variadic_arguments: bool,
}

/// What a `CppFunction` stands for.
pub struct CppFunctionView {
    pub path: CppPathView,
    pub member: Option<CppFunctionMemberDataView>,
    pub return_type: CppTypeView,
    pub arguments: Seq<CppFunctionArgumentView>,
    pub allows_variadic_arguments: bool,
}

impl View for CppFunction {
    type V = CppFunctionView;

    open spec fn view(&self) -> CppFunctionView {
        CppFunctionView {
            path: self.path@,
            member: match self.member {
                Some(m) => Some(m@),
                None => None,
            },
            return_type: self.return_type@,
            arguments: arguments_view(self.arguments@),
            allows_variadic_arguments: self.allows_variadic_arguments,
        }
    }
}

impl CppFunctionView {
    /// Whether the function is a constructor.
    pub open spec fn is_constructor(self) -> bool {
        self.member matches Some(m) && m.kind == CppFunctionKind::Constructor
    }

    /// Whether the function is a destructor.
    pub open spec fn is_destructor(self) -> bool {
        self.member matches Some(m) && m.kind == CppFunctionKind::Destructor
    }

    /// The same function with only its first `n` formal arguments.
    pub open spec fn with_arguments(self, n: int) -> CppFunctionView {
        CppFunctionView { arguments: self.arguments.subrange(0, n), ..self }
    }
}

impl CppFunction {
    /// Whether the function is a constructor.
    pub fn is_constructor(&self) -> (r: bool)
        ensures
            r == self@.is_constructor(),
    {
        match &self.member {
            Some(m) => m.kind.is_constructor(),
            None => false,
        }
    }

    /// Whether the function is a destructor.
    pub fn is_destructor(&self) -> (r: bool)
        ensures
            r == self@.is_destructor(),
    {
        match &self.member {
            Some(m) => m.kind.is_destructor(),
            None => false,
        }
    }

    /// A copy of the function that keeps only its first `n` formal arguments.
    pub fn clone_with_arguments(&self, n: usize) -> (r: CppFunction)
        requires
            n <= self.arguments.len(),
        ensures
            r@ == self@.with_arguments(n as int),
    {
        CppFunction {
            path: self.path.clone(),
            member: match &self.member {
                Some(m) => Some(m.clone()),
                None => None,
            },
            return_type: self.return_type.clone(),
            arguments: clone_arguments(&self.arguments, n),
            allows_variadic_arguments: self.allows_variadic_arguments,
        }
    }
}

impl Clone for CppFunction {
    fn clone(&self) -> (r: Self)
        ensures
            r@ == self@,
    {
        let r = self.clone_with_arguments(self.arguments.len());
        assert(self@.arguments.subrange(0, self.arguments.len() as int) =~= self@.arguments);
        r
    }
}

} // verus!
