//! Boundary functions and the boundary forms of types.

use crate::cpp_data::{CppClassField, CppClassFieldView};
use crate::cpp_function::{CppFunction, CppFunctionView, ReturnValueAllocationPlace};
use crate::cpp_type::{
    contains_reference, contains_template_parameter, is_qflags, is_qflags_path, lemma_types_view,
    pointer_to, types_view, CppBuiltInNumericType, CppFunctionPointerType,
    CppFunctionPointerTypeView, CppPath, CppPathView, CppPointerLikeTypeKind, CppType,
    CppTypeRole, CppTypeView,
};
use crate::errors::FfiError;
use vstd::prelude::*;

verus! {

/// What an argument of a boundary function stands for.
#[derive(Clone, Copy, Debug, PartialEq, Eq, Structural, Hash)]
pub enum CppFfiArgumentMeaning {
    /// The object that a member function is called on.
    This,
    /// The formal argument of the C++ function at this index.
    Argument(usize),
    /// The storage that receives the value that the C++ function returns.
    ReturnValue,
}

impl CppFfiArgumentMeaning {
    /// Whether the argument stands for a formal argument of the C++ function.
    pub fn is_argument(&self) -> (r: bool)
        ensures
            r == (*self is Argument),
    {
        match self {
            CppFfiArgumentMeaning::Argument(_) => true,
            _ => false,
        }
    }
}

/// How a value of a C++ type relates to the value of its boundary type.
#[derive(Clone, Copy, Debug, PartialEq, Eq, Structural, Hash)]
pub enum CppToFfiTypeConversion {
    /// The types are the same.
    NoChange,
    /// The C++ type is a class by value and the boundary type a pointer to it.
    ValueToPointer { is_ffi_const: bool },
    /// The C++ type is a reference and the boundary type a pointer.
    ReferenceToPointer,
    /// The C++ type is a set of bit flags and the boundary type `unsigned int`.
    QFlagsToUInt,
}

/// The boundary type that a conversion gives for a type, or the reason
/// for which the conversion does not apply to it.
pub open spec fn converted_type(original: CppTypeView, conversion: CppToFfiTypeConversion) -> Result<
    CppTypeView,
    FfiError,
> {
    match conversion {
        CppToFfiTypeConversion::NoChange => Ok(original),
        CppToFfiTypeConversion::ValueToPointer { is_ffi_const } => Ok(
            pointer_to(is_ffi_const, original),
        ),
        CppToFfiTypeConversion::ReferenceToPointer => match original {
            CppTypeView::PointerLike {
                kind: CppPointerLikeTypeKind::Reference,
                is_const,
                target,
            } => Ok(pointer_to(is_const, *target)),
            _ => Err(FfiError::NotAReference),
        },
        CppToFfiTypeConversion::QFlagsToUInt => Ok(
            CppTypeView::BuiltInNumeric(CppBuiltInNumericType::UInt),
        ),
    }
}

/// Whether a type may stand in the signature of a function pointer type that
/// crosses the boundary: no function pointer, no class by value, no reference.
pub open spec fn function_pointer_part_ok(t: CppTypeView) -> bool {
    !(t is FunctionPointer) && !(t is Class) && !contains_reference(t)
}

/// Whether a function pointer type can cross the boundary.
pub open spec fn function_pointer_supported(f: CppFunctionPointerTypeView) -> bool {
    &&& !f.allows_variadic_arguments
    &&& function_pointer_part_ok(*f.return_type)
    &&& forall|i: int|
        0 <= i < f.arguments.len() ==> function_pointer_part_ok(#[trigger] f.arguments[i])
}

/// The conversion by which a type in the given role crosses the boundary, or
/// the reason for which it cannot.
pub open spec fn conversion_for(t: CppTypeView, role: CppTypeRole) -> Result<
    CppToFfiTypeConversion,
    FfiError,
> {
    if contains_template_parameter(t) {
        Err(FfiError::TemplateParameter)
    } else {
        match t {
            CppTypeView::FunctionPointer(f) => if function_pointer_supported(f) {
                Ok(CppToFfiTypeConversion::NoChange)
            } else {
                Err(FfiError::UnsupportedFunctionPointer)
            },
            CppTypeView::Class(path) => if is_qflags_path(path) {
                Ok(CppToFfiTypeConversion::QFlagsToUInt)
            } else {
                Ok(
                    CppToFfiTypeConversion::ValueToPointer {
                        is_ffi_const: role != CppTypeRole::ReturnType,
                    },
                )
            },
            CppTypeView::PointerLike { kind, is_const, target } => match kind {
                CppPointerLikeTypeKind::Pointer => Ok(CppToFfiTypeConversion::NoChange),
                CppPointerLikeTypeKind::Reference => if is_const && (*target matches CppTypeView::Class(
                    p,
                ) && is_qflags_path(p)) {
                    Ok(CppToFfiTypeConversion::QFlagsToUInt)
                } else {
                    Ok(CppToFfiTypeConversion::ReferenceToPointer)
                },
                CppPointerLikeTypeKind::RValueReference => Err(FfiError::RValueReference),
            },
            _ => Ok(CppToFfiTypeConversion::NoChange),
        }
    }
}

/// What a `CppFfiType` stands for.
pub struct CppFfiTypeView {
    pub original_type: CppTypeView,
    pub ffi_type: CppTypeView,
    pub conversion: CppToFfiTypeConversion,
}

/// The boundary form that a conversion gives to a type.
pub open spec fn ffi_type_with(original: CppTypeView, conversion: CppToFfiTypeConversion) -> Result<
    CppFfiTypeView,
    FfiError,
> {
    match converted_type(original, conversion) {
        Ok(ffi_type) => Ok(CppFfiTypeView { original_type: original, ffi_type, conversion }),
        Err(e) => Err(e),
    }
}

/// The boundary form of a type in the given role, or the reason for which it
/// has none.
pub open spec fn ffi_type_of(t: CppTypeView, role: CppTypeRole) -> Result<CppFfiTypeView, FfiError> {
    match conversion_for(t, role) {
        Ok(conversion) => ffi_type_with(t, conversion),
        Err(e) => Err(e),
    }
}

/// The boundary form of `void`.
pub open spec fn void_ffi_type() -> CppFfiTypeView {
    CppFfiTypeView {
        original_type: CppTypeView::Void,
        ffi_type: CppTypeView::Void,
        conversion: CppToFfiTypeConversion::NoChange,
    }
}

/// A C++ type together with its boundary type and the conversion between them.
#[derive(Debug)]
pub struct CppFfiType {
    original_type: CppType,
    ffi_type: CppType,
    conversion: CppToFfiTypeConversion,
}

impl View for CppFfiType {
    type V = CppFfiTypeView;

    closed spec fn view(&self) -> CppFfiTypeView {
        CppFfiTypeView {
            original_type: self.original_type@,
            ffi_type: self.ffi_type@,
            conversion: self.conversion,
        }
    }
}

impl CppFfiType {
    /// The boundary form that `conversion` gives to `original_type`. It
    /// fails only where a reference-to-pointer conversion is asked for a
    /// type that is no reference.
    pub fn new(original_type: CppType, conversion: CppToFfiTypeConversion) -> (r: Result<
        CppFfiType,
        FfiError,
    >)
        ensures
            match r {
                Ok(t) => ffi_type_with(original_type@, conversion) == Ok::<CppFfiTypeView, FfiError>(
                    t@,
                ),
                Err(e) => ffi_type_with(original_type@, conversion) == Err::<
                    CppFfiTypeView,
                    FfiError,
                >(e),
            },
    {
        let ffi_type = match conversion {
            CppToFfiTypeConversion::NoChange => original_type.clone(),
            CppToFfiTypeConversion::ValueToPointer { is_ffi_const } => CppType::new_pointer(
                is_ffi_const,
                original_type.clone(),
            ),
            CppToFfiTypeConversion::ReferenceToPointer => match &original_type {
                CppType::PointerLike {
                    kind: CppPointerLikeTypeKind::Reference,
                    is_const,
                    target,
                } => CppType::new_pointer(*is_const, (**target).clone()),
                _ => {
                    return Err(FfiError::NotAReference);
                },
            },
            CppToFfiTypeConversion::QFlagsToUInt => CppType::BuiltInNumeric(
                CppBuiltInNumericType::UInt,
            ),
        };
        Ok(CppFfiType { original_type, ffi_type, conversion })
    }

    /// The boundary form of `void`.
    pub fn void() -> (r: CppFfiType)
        ensures
            r@ == void_ffi_type(),
    {
        CppFfiType {
            original_type: CppType::Void,
            ffi_type: CppType::Void,
            conversion: CppToFfiTypeConversion::NoChange,
        }
    }

    /// The C++ type.
    pub fn original_type(&self) -> (r: &CppType)
        ensures
            r@ == self@.original_type,
    {
        &self.original_type
    }

    /// The type at the boundary.
    pub fn ffi_type(&self) -> (r: &CppType)
        ensures
            r@ == self@.ffi_type,
    {
        &self.ffi_type
    }

    /// How the two types relate.
    pub fn conversion(&self) -> (r: &CppToFfiTypeConversion)
        ensures
            *r == self@.conversion,
    {
        &self.conversion
    }

    /// Whether two boundary forms are the same.
    pub fn is_same(&self, other: &CppFfiType) -> (r: bool)
        ensures
            r == (self@ == other@),
    {
        self.original_type.is_same(&other.original_type) && self.ffi_type.is_same(&other.ffi_type)
            && self.conversion == other.conversion
    }
}

impl Clone for CppFfiType {
    fn clone(&self) -> (r: Self)
        ensures
            r@ == self@,
    {
        CppFfiType {
            original_type: self.original_type.clone(),
            ffi_type: self.ffi_type.clone(),
            conversion: self.conversion,
        }
    }
}

fn is_function_pointer_part_ok(t: &CppType) -> (r: bool)
    ensures
        r == function_pointer_part_ok(t@),
{
    match t {
        CppType::FunctionPointer(_) => false,
        CppType::Class(_) => false,
        _ => !t.contains_reference(),
    }
}

fn is_function_pointer_supported(f: &CppFunctionPointerType) -> (r: bool)
    ensures
        r == function_pointer_supported(f@),
{
    proof {
        lemma_types_view(f.arguments@);
    }
    if f.allows_variadic_arguments {
        return false;
    }
    let mut i: usize = 0;
    while i < f.arguments.len()
        invariant
            i <= f.arguments.len(),
            f@.arguments.len() == f.arguments.len(),
            forall|j: int|
                0 <= j < f.arguments.len() ==> #[trigger] f@.arguments[j] == f.arguments@[j]@,
            forall|j: int| 0 <= j < i ==> function_pointer_part_ok(#[trigger] f@.arguments[j]),
        decreases f.arguments.len() - i,
    {
        if !is_function_pointer_part_ok(&f.arguments[i]) {
            assert(!function_pointer_part_ok(f@.arguments[i as int]));
            return false;
        }
        i = i + 1;
    }
    is_function_pointer_part_ok(&f.return_type)
}

impl CppType {
    /// The conversion by which this type crosses the boundary in the given
    /// role.
    pub fn ffi_conversion(&self, role: CppTypeRole) -> (r: Result<CppToFfiTypeConversion, FfiError>)
        ensures
            r == conversion_for(self@, role),
    {
        if self.is_or_contains_template_parameter() {
            return Err(FfiError::TemplateParameter);
        }
        match self {
            CppType::FunctionPointer(f) => {
                assert(self@ == CppTypeView::FunctionPointer(f@));
                if is_function_pointer_supported(f) {
                    Ok(CppToFfiTypeConversion::NoChange)
                } else {
                    Err(FfiError::UnsupportedFunctionPointer)
                }
            },
            CppType::Class(path) => {
                if is_qflags(path) {
                    Ok(CppToFfiTypeConversion::QFlagsToUInt)
                } else {
                    Ok(
                        CppToFfiTypeConversion::ValueToPointer {
                            is_ffi_const: role != CppTypeRole::ReturnType,
                        },
                    )
                }
            },
            CppType::PointerLike { kind, is_const, target } => match kind {
                CppPointerLikeTypeKind::Pointer => Ok(CppToFfiTypeConversion::NoChange),
                CppPointerLikeTypeKind::Reference => {
                    let flags = match &**target {
                        CppType::Class(p) => {
                            assert((**target)@ == CppTypeView::Class(p@));
                            is_qflags(p)
                        },
                        _ => {
                            assert(!((**target)@ is Class));
                            false
                        },
                    };
                    if *is_const && flags {
                        Ok(CppToFfiTypeConversion::QFlagsToUInt)
                    } else {
                        Ok(CppToFfiTypeConversion::ReferenceToPointer)
                    }
                },
                CppPointerLikeTypeKind::RValueReference => Err(FfiError::RValueReference),
            },
            _ => Ok(CppToFfiTypeConversion::NoChange),
        }
    }

    /// The boundary form of this type in the given role, or the reason for
    /// which it has none.
    pub fn to_cpp_ffi_type(&self, role: CppTypeRole) -> (r: Result<CppFfiType, FfiError>)
        ensures
            match r {
                Ok(t) => ffi_type_of(self@, role) == Ok::<CppFfiTypeView, FfiError>(t@),
                Err(e) => ffi_type_of(self@, role) == Err::<CppFfiTypeView, FfiError>(e),
            },
    {
        match self.ffi_conversion(role) {
            Ok(conversion) => CppFfiType::new(self.clone(), conversion),
            Err(e) => Err(e),
        }
    }
}

} // verus!

verus! {

/// An argument of a boundary function.
#[derive(Debug)]
pub struct CppFfiFunctionArgument {
    /// Identifier
    pub name: String,
    /// Type
    pub argument_type: CppFfiType,
    /// What the argument stands for
    pub meaning: CppFfiArgumentMeaning,
}

/// What a `CppFfiFunctionArgument` stands for.
pub struct CppFfiFunctionArgumentView {
    pub name: Seq<char>,
    pub argument_type: CppFfiTypeView,
    pub meaning: CppFfiArgumentMeaning,
}

impl View for CppFfiFunctionArgument {
    type V = CppFfiFunctionArgumentView;

    open spec fn view(&self) -> CppFfiFunctionArgumentView {
        CppFfiFunctionArgumentView {
            name: self.name@,
            argument_type: self.argument_type@,
            meaning: self.meaning,
        }
    }
}

/// The views of a sequence of boundary arguments, in order.
pub open spec fn ffi_arguments_view(s: Seq<CppFfiFunctionArgument>) -> Seq<
    CppFfiFunctionArgumentView,
> {
    s.map_values(|a: CppFfiFunctionArgument| a@)
}

/// The kinds of accessor that a field can have.
#[derive(Clone, Copy, Debug, PartialEq, Eq, Structural, Hash)]
pub enum CppFieldAccessorType {
    /// Returns a copy of the field.
    CopyGetter,
    /// Returns a const reference to the field.
    ConstRefGetter,
    /// Returns a mutable reference to the field.
    MutRefGetter,
    /// Assigns a value to the field.
    Setter,
}

/// A conversion of a pointer along an inheritance edge.
#[derive(Clone, Copy, Debug, PartialEq, Eq, Structural, Hash)]
pub enum CppCast {
    /// `static_cast`: from base to derived where `is_unsafe`, from derived
    /// to base otherwise. `base_index` is the place of the base among the
    /// bases of the derived class.
    Static { is_unsafe: bool, base_index: usize },
    /// `dynamic_cast` from base to derived; the result is null where the
    /// object is no instance of the derived class.
    Dynamic,
}

impl CppCast {
    /// The name of the C++ operator.
    pub open spec fn method_name(self) -> Seq<char> {
        match self {
            CppCast::Static { .. } => "static_cast"@,
            CppCast::Dynamic => "dynamic_cast"@,
        }
    }

    /// The name of the C++ operator that performs the cast.
    pub fn cpp_method_name(&self) -> (r: &'static str)
        ensures
            r@ == self.method_name(),
    {
        match self {
            CppCast::Static { .. } => "static_cast",
            CppCast::Dynamic => "dynamic_cast",
        }
    }

    /// Whether this is a static cast from base to derived.
    pub fn is_unsafe_static_cast(&self) -> (r: bool)
        ensures
            r == (*self matches CppCast::Static { is_unsafe, .. } && is_unsafe),
    {
        match self {
            CppCast::Static { is_unsafe, .. } => *is_unsafe,
            CppCast::Dynamic => false,
        }
    }
}

/// The callable that a boundary function stands for.
#[derive(Debug)]
pub enum CppFfiFunctionKind {
    /// A free or member function, or a cast.
    Function {
        cpp_function: CppFunction,
        /// How many trailing formal arguments of the C++ function were left
        /// to their default values; `None` where none was.
        omitted_arguments: Option<usize>,
        /// The cast that the function performs, if it is one.
        cast: Option<CppCast>,
    },
    /// An accessor of a field.
    FieldAccessor { accessor_type: CppFieldAccessorType, field: CppClassField },
}

/// What a `CppFfiFunctionKind` stands for.
pub enum CppFfiFunctionKindView {
    Function { cpp_function: CppFunctionView, omitted_arguments: Option<usize>, cast: Option<CppCast> },
    FieldAccessor { accessor_type: CppFieldAccessorType, field: CppClassFieldView },
}

impl View for CppFfiFunctionKind {
    type V = CppFfiFunctionKindView;

    open spec fn view(&self) -> CppFfiFunctionKindView {
        match self {
            CppFfiFunctionKind::Function {
                cpp_function,
                omitted_arguments,
                cast,
            } => CppFfiFunctionKindView::Function {
                cpp_function: cpp_function@,
                omitted_arguments: *omitted_arguments,
                cast: *cast,
            },
            CppFfiFunctionKind::FieldAccessor {
                accessor_type,
                field,
            } => CppFfiFunctionKindView::FieldAccessor {
                accessor_type: *accessor_type,
                field: field@,
            },
        }
    }
}

impl CppFfiFunctionKindView {
    /// How many trailing formal arguments were left to their defaults.
    pub open spec fn omitted_count(self) -> nat {
        match self {
            CppFfiFunctionKindView::Function { omitted_arguments: Some(n), .. } => n as nat,
            _ => 0,
        }
    }
}

/// A function with a C calling convention that stands for a C++ callable.
#[derive(Debug)]
pub struct CppFfiFunction {
    /// The arguments, in order.
    pub arguments: Vec<CppFfiFunctionArgument>,
    /// The type that the function returns.
    pub return_type: CppFfiType,
    /// The unique path of the function.
    pub path: CppPath,
    /// Which side owns the storage of a class value that is returned.
    pub allocation_place: ReturnValueAllocationPlace,
    /// The callable that the function stands for.
    pub kind: CppFfiFunctionKind,
}

/// What a `CppFfiFunction` stands for.
pub struct CppFfiFunctionView {
    pub arguments: Seq<CppFfiFunctionArgumentView>,
    pub return_type: CppFfiTypeView,
    pub path: CppPathView,
    pub allocation_place: ReturnValueAllocationPlace,
    pub kind: CppFfiFunctionKindView,
}

impl View for CppFfiFunction {
    type V = CppFfiFunctionView;

    open spec fn view(&self) -> CppFfiFunctionView {
        CppFfiFunctionView {
            arguments: ffi_arguments_view(self.arguments@),
            return_type: self.return_type@,
            path: self.path@,
            allocation_place: self.allocation_place,
            kind: self.kind@,
        }
    }
}

/// The views of a sequence of boundary types, in order.
pub open spec fn ffi_types_view(s: Seq<CppFfiType>) -> Seq<CppFfiTypeView> {
    s.map_values(|t: CppFfiType| t@)
}

/// A class with one slot that hands the arguments of a signal to a callback.
#[derive(Debug)]
pub struct QtSlotWrapper {
    /// The argument types of the signal.
    pub signal_arguments: Vec<CppType>,
    /// The unique path of the class.
    pub class_path: CppPath,
    /// The boundary forms of the argument types.
    pub arguments: Vec<CppFfiType>,
    /// The type of the callback.
    pub function_type: CppFunctionPointerType,
}

/// What a `QtSlotWrapper` stands for.
pub struct QtSlotWrapperView {
    pub signal_arguments: Seq<CppTypeView>,
    pub class_path: CppPathView,
    pub arguments: Seq<CppFfiTypeView>,
    pub function_type: CppFunctionPointerTypeView,
}

impl View for QtSlotWrapper {
    type V = QtSlotWrapperView;

    open spec fn view(&self) -> QtSlotWrapperView {
        QtSlotWrapperView {
            signal_arguments: types_view(self.signal_arguments@),
            class_path: self.class_path@,
            arguments: ffi_types_view(self.arguments@),
            function_type: self.function_type@,
        }
    }
}

/// An item of the boundary: a function or a slot wrapper.
#[derive(Debug)]
pub enum CppFfiItem {
    Function(CppFfiFunction),
    QtSlotWrapper(QtSlotWrapper),
}

/// What a `CppFfiItem` stands for.
pub enum CppFfiItemView {
    Function(CppFfiFunctionView),
    QtSlotWrapper(QtSlotWrapperView),
}

impl CppFfiItemView {
    /// The unique path of the item.
    pub open spec fn path(self) -> CppPathView {
        match self {
            CppFfiItemView::Function(f) => f.path,
            CppFfiItemView::QtSlotWrapper(w) => w.class_path,
        }
    }
}

impl View for CppFfiItem {
    type V = CppFfiItemView;

    open spec fn view(&self) -> CppFfiItemView {
        match self {
            CppFfiItem::Function(f) => CppFfiItemView::Function(f@),
            CppFfiItem::QtSlotWrapper(w) => CppFfiItemView::QtSlotWrapper(w@),
        }
    }
}

/// The views of a sequence of boundary items, in order.
pub open spec fn ffi_items_view(s: Seq<CppFfiItem>) -> Seq<CppFfiItemView> {
    s.map_values(|i: CppFfiItem| i@)
}

impl CppFfiItem {
    /// The item that holds the function.
    pub fn from_function(function: CppFfiFunction) -> (r: CppFfiItem)
        ensures
            r@ == CppFfiItemView::Function(function@),
    {
        CppFfiItem::Function(function)
    }

    /// The unique path of the item.
    pub fn path(&self) -> (r: &CppPath)
        ensures
            r@ == self@.path(),
    {
        match self {
            CppFfiItem::Function(f) => &f.path,
            CppFfiItem::QtSlotWrapper(w) => &w.class_path,
        }
    }

    /// The function, if the item is one.
    pub fn as_function_ref(&self) -> (r: Option<&CppFfiFunction>)
        ensures
            match r {
                Some(f) => self@ == CppFfiItemView::Function(f@),
                None => self@ is QtSlotWrapper,
            },
    {
        match self {
            CppFfiItem::Function(f) => Some(f),
            CppFfiItem::QtSlotWrapper(_) => None,
        }
    }

    /// The slot wrapper, if the item is one.
    pub fn as_slot_wrapper_ref(&self) -> (r: Option<&QtSlotWrapper>)
        ensures
            match r {
                Some(w) => self@ == CppFfiItemView::QtSlotWrapper(w@),
                None => self@ is Function,
            },
    {
        match self {
            CppFfiItem::Function(_) => None,
            CppFfiItem::QtSlotWrapper(w) => Some(w),
        }
    }
}

} // verus!
