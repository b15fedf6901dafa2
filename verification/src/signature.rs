//! The rules by which one callable is given the signature of a boundary
//! function.

use crate::captions::path_caption;
use crate::cpp_data::CppClassFieldView;
use crate::cpp_ffi_data::{
    ffi_type_of, void_ffi_type, CppFfiArgumentMeaning, CppFfiFunctionArgumentView,
    CppFfiFunctionKindView, CppFfiFunctionView, CppFfiTypeView, CppFieldAccessorType,
};
use crate::cpp_function::{CppFunctionArgumentView, CppFunctionKind, ReturnValueAllocationPlace};
use crate::cpp_type::{
    is_qflags_path, pointer_to, reference_to, CppPathView, CppTypeRole, CppTypeView,
};
use crate::errors::FfiError;
use crate::text::caption_of;
use vstd::prelude::*;

verus! {

/// Whether an accessor leaves the object unchanged.
pub open spec fn accessor_is_const(accessor_type: CppFieldAccessorType) -> bool {
    accessor_type == CppFieldAccessorType::CopyGetter || accessor_type
        == CppFieldAccessorType::ConstRefGetter
}

/// The type of the object pointer that the boundary function takes first:
/// for a member function that is neither static nor a constructor, and for an
/// accessor of a field that is not static, a pointer to the owning class,
/// const where the callable does not change the object. `None` for the rest.
pub open spec fn this_type(kind: CppFfiFunctionKindView) -> Option<CppTypeView> {
    match kind {
        CppFfiFunctionKindView::Function { cpp_function, .. } => match cpp_function.member {
            Some(m) => if !m.is_static && m.kind != CppFunctionKind::Constructor {
                Some(pointer_to(m.is_const, CppTypeView::Class(m.class_type)))
            } else {
                None
            },
            None => None,
        },
        CppFfiFunctionKindView::FieldAccessor { accessor_type, field } => if field.is_static {
            None
        } else {
            Some(pointer_to(accessor_is_const(accessor_type), CppTypeView::Class(field.class_type)))
        },
    }
}

/// The object pointer as a list of boundary arguments: empty, or the one
/// argument `this_ptr`.
pub open spec fn this_argument(kind: CppFfiFunctionKindView) -> Result<
    Seq<CppFfiFunctionArgumentView>,
    FfiError,
> {
    match this_type(kind) {
        None => Ok(Seq::empty()),
        Some(t) => match ffi_type_of(t, CppTypeRole::NotReturnType) {
            Ok(argument_type) => Ok(
                seq![
                    CppFfiFunctionArgumentView {
                        name: "this_ptr"@,
                        argument_type,
                        meaning: CppFfiArgumentMeaning::This,
                    },
                ],
            ),
            Err(e) => Err(e),
        },
    }
}

/// The formal arguments of the callable: those of the function, the one
/// argument `value` of a setter, none for a getter.
pub open spec fn formal_arguments(kind: CppFfiFunctionKindView) -> Seq<CppFunctionArgumentView> {
    match kind {
        CppFfiFunctionKindView::Function { cpp_function, .. } => cpp_function.arguments,
        CppFfiFunctionKindView::FieldAccessor { accessor_type, field } => if accessor_type
            == CppFieldAccessorType::Setter {
            seq![
                CppFunctionArgumentView {
                    name: "value"@,
                    argument_type: field.field_type,
                    has_default_value: false,
                },
            ]
        } else {
            Seq::empty()
        },
    }
}

/// The type that the callable really returns: the class for a constructor,
/// the declared type for any other function; the field's type for a copy
/// getter, a reference to it for a reference getter, `void` for a setter.
pub open spec fn real_return_type(kind: CppFfiFunctionKindView) -> CppTypeView {
    match kind {
        CppFfiFunctionKindView::Function { cpp_function, .. } => match cpp_function.member {
            Some(m) => if m.kind == CppFunctionKind::Constructor {
                CppTypeView::Class(m.class_type)
            } else {
                cpp_function.return_type
            },
            None => cpp_function.return_type,
        },
        CppFfiFunctionKindView::FieldAccessor { accessor_type, field } => match accessor_type {
            CppFieldAccessorType::CopyGetter => field.field_type,
            CppFieldAccessorType::ConstRefGetter => reference_to(true, field.field_type),
            CppFieldAccessorType::MutRefGetter => reference_to(false, field.field_type),
            CppFieldAccessorType::Setter => CppTypeView::Void,
        },
    }
}

/// The boundary arguments of the formal arguments, in order, each with its
/// index as its meaning, or the error of the first whose type has no
/// boundary form.
pub open spec fn converted_arguments(args: Seq<CppFunctionArgumentView>) -> Result<
    Seq<CppFfiFunctionArgumentView>,
    FfiError,
>
    decreases args.len(),
{
    if args.len() == 0 {
        Ok(Seq::empty())
    } else {
        match converted_arguments(args.drop_last()) {
            Err(e) => Err(e),
            Ok(head) => match ffi_type_of(args.last().argument_type, CppTypeRole::NotReturnType) {
                Err(e) => Err(e),
                Ok(argument_type) => Ok(
                    head.push(
                        CppFfiFunctionArgumentView {
                            name: args.last().name,
                            argument_type,
                            meaning: CppFfiArgumentMeaning::Argument((args.len() - 1) as usize),
                        },
                    ),
                ),
            },
        }
    }
}

/// Whether the callable takes a variable number of arguments.
pub open spec fn is_variadic(kind: CppFfiFunctionKindView) -> bool {
    kind matches CppFfiFunctionKindView::Function { cpp_function, .. }
        && cpp_function.allows_variadic_arguments
}

/// The allocation place that goes with a class: the stack where it is
/// movable, the heap where it is not.
pub open spec fn class_place(movable: Seq<CppPathView>, class: CppPathView) -> ReturnValueAllocationPlace {
    if movable.contains(class) {
        ReturnValueAllocationPlace::Stack
    } else {
        ReturnValueAllocationPlace::Heap
    }
}

/// The allocation place of a callable that returns no class by value: that
/// of its class for a destructor, none for the rest.
pub open spec fn place_without_class(
    kind: CppFfiFunctionKindView,
    movable: Seq<CppPathView>,
) -> ReturnValueAllocationPlace {
    match kind {
        CppFfiFunctionKindView::Function { cpp_function, .. } => match cpp_function.member {
            Some(m) => if m.kind == CppFunctionKind::Destructor {
                class_place(movable, m.class_type)
            } else {
                ReturnValueAllocationPlace::NotApplicable
            },
            None => ReturnValueAllocationPlace::NotApplicable,
        },
        _ => ReturnValueAllocationPlace::NotApplicable,
    }
}

/// The class that the callable returns by value, if it returns one that is
/// not the bit-flags class.
pub open spec fn returned_class(kind: CppFfiFunctionKindView) -> Option<CppPathView> {
    match real_return_type(kind) {
        CppTypeView::Class(path) => if is_qflags_path(path) {
            None
        } else {
            Some(path)
        },
        _ => None,
    }
}

/// The arguments, return type and allocation place of a boundary function.
pub struct FfiSignature {
    pub arguments: Seq<CppFfiFunctionArgumentView>,
    pub return_type: CppFfiTypeView,
    pub allocation_place: ReturnValueAllocationPlace,
}

/// The argument through which a movable class value is returned.
pub open spec fn output_argument(argument_type: CppFfiTypeView) -> CppFfiFunctionArgumentView {
    CppFfiFunctionArgumentView {
        name: "output"@,
        argument_type,
        meaning: CppFfiArgumentMeaning::ReturnValue,
    }
}

/// The signature made of the converted arguments and the converted return
/// type. A movable class is returned through a last argument `output`, the
/// function itself returning `void`, with the stack as allocation place. Any
/// other class is returned directly, with the heap as allocation place.
pub open spec fn shaped_signature(
    kind: CppFfiFunctionKindView,
    movable: Seq<CppPathView>,
    arguments: Seq<CppFfiFunctionArgumentView>,
    return_type: CppFfiTypeView,
) -> FfiSignature {
    match returned_class(kind) {
        Some(class) => if movable.contains(class) {
            FfiSignature {
                arguments: arguments.push(output_argument(return_type)),
                return_type: void_ffi_type(),
                allocation_place: ReturnValueAllocationPlace::Stack,
            }
        } else {
            FfiSignature {
                arguments,
                return_type,
                allocation_place: ReturnValueAllocationPlace::Heap,
            }
        },
        None => FfiSignature {
            arguments,
            return_type,
            allocation_place: place_without_class(kind, movable),
        },
    }
}

/// The signature of the boundary function of a callable, or the reason for
/// which it has none: that the callable is variadic, or else the first type
/// without a boundary form among the object pointer, the formal arguments
/// in order and the return type.
pub open spec fn ffi_signature(kind: CppFfiFunctionKindView, movable: Seq<CppPathView>) -> Result<
    FfiSignature,
    FfiError,
> {
    if is_variadic(kind) {
        Err(FfiError::VariadicArguments)
    } else {
        match this_argument(kind) {
            Err(e) => Err(e),
            Ok(this) => match converted_arguments(formal_arguments(kind)) {
                Err(e) => Err(e),
                Ok(positional) => match ffi_type_of(
                    real_return_type(kind),
                    CppTypeRole::ReturnType,
                ) {
                    Err(e) => Err(e),
                    Ok(return_type) => Ok(
                        shaped_signature(kind, movable, this + positional, return_type),
                    ),
                },
            },
        }
    }
}

/// The caption of a field: that of its class, an underscore and that of its
/// name.
pub open spec fn field_caption(field: CppClassFieldView) -> Seq<char> {
    path_caption(field.class_type) + "_"@ + caption_of(field.name)
}

/// The base name of the boundary function of a callable: the caption of the
/// function's path; for an accessor the field's caption, with `_mut` behind
/// it for a mutable getter and `set_` before it for a setter.
pub open spec fn function_caption(kind: CppFfiFunctionKindView) -> Seq<char> {
    match kind {
        CppFfiFunctionKindView::Function { cpp_function, .. } => path_caption(cpp_function.path),
        CppFfiFunctionKindView::FieldAccessor { accessor_type, field } => match accessor_type {
            CppFieldAccessorType::CopyGetter => field_caption(field),
            CppFieldAccessorType::ConstRefGetter => field_caption(field),
            CppFieldAccessorType::MutRefGetter => field_caption(field) + "_mut"@,
            CppFieldAccessorType::Setter => "set_"@ + field_caption(field),
        },
    }
}

/// The path of a generated item: the one segment `name`.
pub open spec fn generated_path(name: Seq<char>) -> CppPathView {
    CppPathView { parts: seq![name], template_arguments: None }
}

/// The boundary function with the given signature and path.
pub open spec fn function_with(
    kind: CppFfiFunctionKindView,
    signature: FfiSignature,
    path: CppPathView,
) -> CppFfiFunctionView {
    CppFfiFunctionView {
        arguments: signature.arguments,
        return_type: signature.return_type,
        path,
        allocation_place: signature.allocation_place,
        kind,
    }
}

/// The boundary function of a callable under the given path, or the reason
/// for which it has none.
pub open spec fn ffi_function(
    kind: CppFfiFunctionKindView,
    movable: Seq<CppPathView>,
    path: CppPathView,
) -> Result<CppFfiFunctionView, FfiError> {
    match ffi_signature(kind, movable) {
        Ok(signature) => Ok(function_with(kind, signature, path)),
        Err(e) => Err(e),
    }
}

/// The converted arguments are as many as the formal ones; each has the name
/// and the converted type of its formal argument and its index as meaning.
pub proof fn lemma_converted_arguments(args: Seq<CppFunctionArgumentView>)
    ensures
        converted_arguments(args) matches Ok(r) ==> {
            &&& r.len() == args.len()
            &&& forall|i: int|
                0 <= i < args.len() ==> {
                    &&& (#[trigger] r[i]).name == args[i].name
                    &&& r[i].meaning == CppFfiArgumentMeaning::Argument(i as usize)
                    &&& ffi_type_of(args[i].argument_type, CppTypeRole::NotReturnType) == Ok::<
                        CppFfiTypeView,
                        FfiError,
                    >(r[i].argument_type)
                }
        },
        converted_arguments(args) is Ok <==> forall|i: int|
            0 <= i < args.len() ==> ffi_type_of(
                (#[trigger] args[i]).argument_type,
                CppTypeRole::NotReturnType,
            ) is Ok,
    decreases args.len(),
{
    if args.len() > 0 {
        lemma_converted_arguments(args.drop_last());
        let head = args.drop_last();
        if converted_arguments(args) is Ok {
            assert forall|i: int| 0 <= i < args.len() implies ffi_type_of(
                (#[trigger] args[i]).argument_type,
                CppTypeRole::NotReturnType,
            ) is Ok by {
                if i < args.len() - 1 {
                    assert(args[i] == head[i]);
                }
            }
        }
        if forall|i: int|
            0 <= i < args.len() ==> ffi_type_of(
                (#[trigger] args[i]).argument_type,
                CppTypeRole::NotReturnType,
            ) is Ok {
            assert forall|i: int| 0 <= i < head.len() implies ffi_type_of(
                (#[trigger] head[i]).argument_type,
                CppTypeRole::NotReturnType,
            ) is Ok by {
                assert(args[i] == head[i]);
            }
            assert(ffi_type_of(args[args.len() - 1].argument_type, CppTypeRole::NotReturnType) is Ok);
        }
    }
}

} // verus!

verus! {

/// The shape that every boundary function has: the object pointer can only
/// be the first argument and the return slot only the last; a function with a
/// return slot returns `void`; the positional arguments stand in the order of
/// their indices, which count up from 0 without a gap.
pub open spec fn well_shaped(arguments: Seq<CppFfiFunctionArgumentView>, return_type: CppFfiTypeView) -> bool {
    let first = if arguments.len() > 0 && arguments[0].meaning is This {
        1int
    } else {
        0int
    };
    let last = if arguments.len() > 0 && arguments.last().meaning is ReturnValue {
        arguments.len() - 1
    } else {
        arguments.len() as int
    };
    &&& first <= last
    &&& forall|j: int|
        0 <= j < arguments.len() && (#[trigger] arguments[j]).meaning is This ==> j == 0
    &&& forall|j: int|
        0 <= j < arguments.len() && (#[trigger] arguments[j]).meaning is ReturnValue ==> j
            == arguments.len() - 1
    &&& forall|j: int|
        first <= j < last ==> (#[trigger] arguments[j]).meaning == CppFfiArgumentMeaning::Argument(
            (j - first) as usize,
        )
    &&& last < arguments.len() ==> return_type == void_ffi_type()
}

/// The shape of the boundary function of a member function that is neither
/// static nor a constructor: the first argument is the object pointer, a
/// pointer to the class that is const exactly where the function is, and it
/// is followed by as many positional arguments as the function has formal
/// ones, and by no other positional argument.
pub open spec fn has_this_pointer_shape(
    kind: CppFfiFunctionKindView,
    arguments: Seq<CppFfiFunctionArgumentView>,
) -> bool {
    match kind {
        CppFfiFunctionKindView::Function { cpp_function, .. } => match cpp_function.member {
            Some(m) => !m.is_static && m.kind != CppFunctionKind::Constructor ==> {
                let n = cpp_function.arguments.len();
                let this = pointer_to(m.is_const, CppTypeView::Class(m.class_type));
                &&& arguments.len() >= 1 + n
                &&& arguments[0].meaning == CppFfiArgumentMeaning::This
                &&& arguments[0].argument_type.original_type == this
                &&& arguments[0].argument_type.ffi_type == this
                &&& forall|j: int|
                    0 <= j < arguments.len() ==> ((#[trigger] arguments[j]).meaning is Argument
                        <==> 1 <= j <= n)
                &&& forall|i: int|
                    0 <= i < n ==> (#[trigger] arguments[1 + i]).meaning
                        == CppFfiArgumentMeaning::Argument(i as usize)
            },
            None => true,
        },
        _ => true,
    }
}

/// The convention for a callable that returns a class by value. Where the
/// class is movable, the function returns `void`, its last argument is the
/// return slot with the boundary type of the class, and the allocation place
/// is the stack. Where it is not, the function returns the boundary type of
/// the class, has no return slot, and the allocation place is the heap.
pub open spec fn follows_return_convention(
    kind: CppFfiFunctionKindView,
    movable: Seq<CppPathView>,
    signature: FfiSignature,
) -> bool {
    match returned_class(kind) {
        Some(class) => {
            let boundary = ffi_type_of(CppTypeView::Class(class), CppTypeRole::ReturnType);
            &&& boundary is Ok
            &&& if movable.contains(class) {
                &&& signature.return_type == void_ffi_type()
                &&& signature.arguments.len() > 0
                &&& signature.arguments.last() == output_argument(boundary->Ok_0)
                &&& signature.allocation_place == ReturnValueAllocationPlace::Stack
            } else {
                &&& signature.return_type == boundary->Ok_0
                &&& forall|j: int|
                    0 <= j < signature.arguments.len() ==> !((
                    #[trigger] signature.arguments[j]).meaning is ReturnValue)
                &&& signature.allocation_place == ReturnValueAllocationPlace::Heap
            }
        },
        None => true,
    }
}

/// A destructor has the allocation place that goes with its class, which is
/// also the place of every constructor of that class.
pub open spec fn follows_lifetime_convention(
    kind: CppFfiFunctionKindView,
    movable: Seq<CppPathView>,
    signature: FfiSignature,
) -> bool {
    match kind {
        CppFfiFunctionKindView::Function { cpp_function, .. } => match cpp_function.member {
            Some(m) => {
                &&& m.kind == CppFunctionKind::Destructor && returned_class(kind) is None
                    ==> signature.allocation_place == class_place(movable, m.class_type)
                &&& m.kind == CppFunctionKind::Constructor && !is_qflags_path(m.class_type)
                    ==> signature.allocation_place == class_place(movable, m.class_type)
            },
            None => true,
        },
        _ => true,
    }
}

/// The signature of a boundary function.
pub open spec fn signature_of(f: CppFfiFunctionView) -> FfiSignature {
    FfiSignature {
        arguments: f.arguments,
        return_type: f.return_type,
        allocation_place: f.allocation_place,
    }
}

/// Every signature that the rules give is well shaped, has the object
/// pointer where the callable has an object, and follows the conventions
/// for class values and for lifetimes.
pub proof fn lemma_signature_shape(kind: CppFfiFunctionKindView, movable: Seq<CppPathView>)
    ensures
        ffi_signature(kind, movable) matches Ok(s) ==> {
            &&& well_shaped(s.arguments, s.return_type)
            &&& has_this_pointer_shape(kind, s.arguments)
            &&& follows_return_convention(kind, movable, s)
            &&& follows_lifetime_convention(kind, movable, s)
        },
{
    if ffi_signature(kind, movable) is Ok {
        let s = ffi_signature(kind, movable)->Ok_0;
        let this = this_argument(kind)->Ok_0;
        let formals = formal_arguments(kind);
        let positional = converted_arguments(formals)->Ok_0;
        let ret = ffi_type_of(real_return_type(kind), CppTypeRole::ReturnType)->Ok_0;
        lemma_converted_arguments(formals);
        let all = this + positional;
        assert(s == shaped_signature(kind, movable, all, ret));
        assert(forall|j: int| 0 <= j < this.len() ==> all[j] == this[j]);
        assert(forall|j: int|
            this.len() <= j < all.len() ==> all[j] == positional[j - this.len()]);
        if this_type(kind) is Some {
            let t = this_type(kind)->Some_0;
            assert(this.len() == 1);
            assert(all[0] == this[0]);
            assert(ffi_type_of(t, CppTypeRole::NotReturnType) is Ok);
        } else {
            assert(this.len() == 0);
        }
        assert forall|j: int| this.len() <= j < all.len() implies (#[trigger] all[j]).meaning
            == CppFfiArgumentMeaning::Argument((j - this.len()) as usize) by {
            assert(all[j] == positional[j - this.len()]);
        }
        if returned_class(kind) is Some && movable.contains(returned_class(kind)->Some_0) {
            assert(s.arguments == all.push(output_argument(ret)));
            assert(forall|j: int| 0 <= j < all.len() ==> s.arguments[j] == all[j]);
            assert(s.arguments.last() == output_argument(ret));
        } else {
            assert(s.arguments == all);
        }
    }
}

} // verus!
