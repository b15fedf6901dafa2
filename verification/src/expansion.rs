//! The callables that an item of the API gives rise to, and the boundary
//! functions made of a list of callables.

use crate::cpp_data::{CppBaseSpecifierView, CppClassFieldView, CppVisibility};
use crate::cpp_ffi_data::{
    ffi_type_of, CppCast, CppFfiFunctionKindView, CppFfiItemView, CppFieldAccessorType,
};
use crate::cpp_function::{CppFunctionArgumentView, CppFunctionView};
use crate::cpp_type::{
    contains_template_parameter, pointer_to, CppPathView, CppTypeRole, CppTypeView,
};
use crate::errors::FfiError;
use crate::naming::allocated_name;
use crate::signature::{
    converted_arguments, ffi_signature, formal_arguments, function_caption, function_with,
    generated_path, lemma_converted_arguments, real_return_type, this_type, FfiSignature,
};
use vstd::prelude::*;

verus! {

/// How many formal arguments at the end of the list have a default value.
pub open spec fn trailing_defaults(args: Seq<CppFunctionArgumentView>) -> nat
    decreases args.len(),
{
    if args.len() > 0 && args.last().has_default_value {
        1 + trailing_defaults(args.drop_last())
    } else {
        0
    }
}

/// The callable that stands for `function` called without its last
/// `omitted` arguments.
pub open spec fn overload_kind(function: CppFunctionView, omitted: nat) -> CppFfiFunctionKindView {
    CppFfiFunctionKindView::Function {
        cpp_function: function.with_arguments(function.arguments.len() - omitted),
        omitted_arguments: if omitted == 0 {
            None
        } else {
            Some(omitted as usize)
        },
        cast: None,
    }
}

/// The callables of a function: the function itself, then one for each
/// way of leaving trailing defaulted arguments out, shortest last.
pub open spec fn overload_kinds(function: CppFunctionView) -> Seq<CppFfiFunctionKindView> {
    Seq::new(
        trailing_defaults(function.arguments) + 1,
        |i: int| overload_kind(function, i as nat),
    )
}

/// The accessors of a field: none unless it is public; for a field of class
/// type the two reference getters and the setter, for any other the copy
/// getter and the setter.
pub open spec fn accessor_types(field: CppClassFieldView) -> Seq<CppFieldAccessorType> {
    if field.visibility != CppVisibility::Public {
        Seq::empty()
    } else if field.field_type is Class {
        seq![
            CppFieldAccessorType::ConstRefGetter,
            CppFieldAccessorType::MutRefGetter,
            CppFieldAccessorType::Setter,
        ]
    } else {
        seq![CppFieldAccessorType::CopyGetter, CppFieldAccessorType::Setter]
    }
}

/// The callables of a field: one for each of its accessors.
pub open spec fn accessor_kinds(field: CppClassFieldView) -> Seq<CppFfiFunctionKindView> {
    Seq::new(
        accessor_types(field).len(),
        |i: int|
            CppFfiFunctionKindView::FieldAccessor {
                accessor_type: accessor_types(field)[i],
                field,
            },
    )
}

/// The function that stands for a cast: it is named after the C++ operator,
/// with the destination type as template argument, takes one argument `ptr`
/// of the source type and returns the destination type.
pub open spec fn cast_function(cast: CppCast, from: CppTypeView, to: CppTypeView) -> CppFunctionView {
    CppFunctionView {
        path: CppPathView { parts: seq![cast.method_name()], template_arguments: Some(seq![to]) },
        member: None,
        return_type: to,
        arguments: seq![
            CppFunctionArgumentView { name: "ptr"@, argument_type: from, has_default_value: false },
        ],
        allows_variadic_arguments: false,
    }
}

/// The callable that stands for a cast.
pub open spec fn cast_kind(cast: CppCast, from: CppTypeView, to: CppTypeView) -> CppFfiFunctionKindView {
    CppFfiFunctionKindView::Function {
        cpp_function: cast_function(cast, from, to),
        omitted_arguments: None,
        cast: Some(cast),
    }
}

/// The callables of the casts between a class and one of its bases: the
/// unchecked static cast from base to derived, the static cast from derived
/// to base, and the dynamic cast from base to derived, all on pointers.
pub open spec fn casts_between(
    target: CppPathView,
    base: CppPathView,
    base_index: usize,
) -> Seq<CppFfiFunctionKindView> {
    let target_ptr = pointer_to(false, CppTypeView::Class(target));
    let base_ptr = pointer_to(false, CppTypeView::Class(base));
    seq![
        cast_kind(CppCast::Static { is_unsafe: true, base_index }, base_ptr, target_ptr),
        cast_kind(CppCast::Static { is_unsafe: false, base_index }, target_ptr, base_ptr),
        cast_kind(CppCast::Dynamic, base_ptr, target_ptr),
    ]
}

/// The callables of a base class relationship.
pub open spec fn cast_kinds(base: CppBaseSpecifierView) -> Seq<CppFfiFunctionKindView> {
    casts_between(base.derived_class_type, base.base_class_type, base.base_index)
}

/// Whether every callable of the list has a signature.
pub open spec fn all_have_signatures(
    kinds: Seq<CppFfiFunctionKindView>,
    movable: Seq<CppPathView>,
) -> bool {
    forall|i: int| 0 <= i < kinds.len() ==> ffi_signature(#[trigger] kinds[i], movable) is Ok
}

/// The boundary functions of a list of callables that all have signatures,
/// with the names that are taken afterwards: each callable in turn is given
/// the name that is free when its turn comes.
pub open spec fn synthesized(
    kinds: Seq<CppFfiFunctionKindView>,
    movable: Seq<CppPathView>,
    prefix: Seq<char>,
    names: Set<Seq<char>>,
) -> (Seq<CppFfiItemView>, Set<Seq<char>>)
    decreases kinds.len(),
{
    if kinds.len() == 0 {
        (Seq::empty(), names)
    } else {
        let (head, taken) = synthesized(kinds.drop_last(), movable, prefix, names);
        let name = allocated_name(taken, prefix, function_caption(kinds.last()));
        (
            head.push(
                CppFfiItemView::Function(
                    function_with(
                        kinds.last(),
                        ffi_signature(kinds.last(), movable)->Ok_0,
                        generated_path(name),
                    ),
                ),
            ),
            taken.insert(name),
        )
    }
}

/// What `synthesized` gives for the first `n + 1` callables, from what it
/// gives for the first `n`.
pub proof fn lemma_synthesized_step(
    kinds: Seq<CppFfiFunctionKindView>,
    movable: Seq<CppPathView>,
    prefix: Seq<char>,
    names: Set<Seq<char>>,
    n: int,
)
    requires
        0 <= n < kinds.len(),
    ensures
        ({
            let (head, taken) = synthesized(kinds.subrange(0, n), movable, prefix, names);
            let name = allocated_name(taken, prefix, function_caption(kinds[n]));
            synthesized(kinds.subrange(0, n + 1), movable, prefix, names) == (
                head.push(
                    CppFfiItemView::Function(
                        function_with(
                            kinds[n],
                            ffi_signature(kinds[n], movable)->Ok_0,
                            generated_path(name),
                        ),
                    ),
                ),
                taken.insert(name),
            )
        }),
{
    let next = kinds.subrange(0, n + 1);
    assert(next.drop_last() =~= kinds.subrange(0, n));
    assert(next.last() == kinds[n]);
}

/// `synthesized` gives one item for each callable, takes finitely many names
/// where finitely many were taken, and gives up none.
pub proof fn lemma_synthesized_basics(
    kinds: Seq<CppFfiFunctionKindView>,
    movable: Seq<CppPathView>,
    prefix: Seq<char>,
    names: Set<Seq<char>>,
)
    requires
        names.finite(),
    ensures
        synthesized(kinds, movable, prefix, names).0.len() == kinds.len(),
        synthesized(kinds, movable, prefix, names).1.finite(),
        names.subset_of(synthesized(kinds, movable, prefix, names).1),
    decreases kinds.len(),
{
    if kinds.len() > 0 {
        lemma_synthesized_basics(kinds.drop_last(), movable, prefix, names);
    }
}

/// Whether a type can cross the boundary does not depend on its role.
pub proof fn lemma_conversion_any_role(t: CppTypeView, a: CppTypeRole, b: CppTypeRole)
    ensures
        ffi_type_of(t, a) is Ok <==> ffi_type_of(t, b) is Ok,
        ffi_type_of(t, a) is Err ==> ffi_type_of(t, a)->Err_0 == ffi_type_of(t, b)->Err_0,
{
}

/// A pointer or a reference to a class crosses the boundary exactly where
/// the class holds no unresolved template parameter, and so does the class
/// itself.
pub proof fn lemma_class_conversion(class: CppPathView, is_const: bool, role: CppTypeRole)
    ensures
        ffi_type_of(CppTypeView::Class(class), role) is Ok <==> !contains_template_parameter(
            CppTypeView::Class(class),
        ),
        ffi_type_of(pointer_to(is_const, CppTypeView::Class(class)), role) is Ok
            <==> !contains_template_parameter(CppTypeView::Class(class)),
        ffi_type_of(crate::cpp_type::reference_to(is_const, CppTypeView::Class(class)), role) is Ok
            <==> !contains_template_parameter(CppTypeView::Class(class)),
{
    let c = CppTypeView::Class(class);
    assert(contains_template_parameter(pointer_to(is_const, c)) == contains_template_parameter(c));
    assert(contains_template_parameter(crate::cpp_type::reference_to(is_const, c))
        == contains_template_parameter(c));
}

/// Where a function has a signature, so has each of its overloads.
pub proof fn lemma_overloads_all_or_nothing(function: CppFunctionView, movable: Seq<CppPathView>)
    requires
        ffi_signature(overload_kind(function, 0), movable) is Ok,
    ensures
        all_have_signatures(overload_kinds(function), movable),
{
    let kinds = overload_kinds(function);
    let full = overload_kind(function, 0);
    lemma_trailing_defaults_bound(function.arguments);
    assert(function.arguments.subrange(0, function.arguments.len() as int)
        =~= function.arguments);
    lemma_converted_arguments(formal_arguments(full));
    assert forall|i: int| 0 <= i < kinds.len() implies ffi_signature(
        #[trigger] kinds[i],
        movable,
    ) is Ok by {
        let k = kinds[i];
        let n = function.arguments.len() - i;
        assert(formal_arguments(k) == function.arguments.subrange(0, n));
        lemma_converted_arguments(formal_arguments(k));
        assert(this_type(k) == this_type(full));
        assert(real_return_type(k) == real_return_type(full));
        assert forall|j: int| 0 <= j < n implies ffi_type_of(
            (#[trigger] formal_arguments(k)[j]).argument_type,
            CppTypeRole::NotReturnType,
        ) is Ok by {
            assert(formal_arguments(k)[j] == formal_arguments(full)[j]);
        }
    }
}

/// No more arguments have defaults than there are arguments.
pub proof fn lemma_trailing_defaults_bound(args: Seq<CppFunctionArgumentView>)
    ensures
        trailing_defaults(args) <= args.len(),
    decreases args.len(),
{
    if args.len() > 0 && args.last().has_default_value {
        lemma_trailing_defaults_bound(args.drop_last());
    }
}

/// Where the first accessor of a field has a signature, so has each of them.
pub proof fn lemma_accessors_all_or_nothing(field: CppClassFieldView, movable: Seq<CppPathView>)
    requires
        accessor_kinds(field).len() > 0,
        ffi_signature(accessor_kinds(field)[0], movable) is Ok,
    ensures
        all_have_signatures(accessor_kinds(field), movable),
{
    let kinds = accessor_kinds(field);
    let first = kinds[0];
    let t = field.field_type;
    lemma_class_conversion(field.class_type, true, CppTypeRole::NotReturnType);
    lemma_class_conversion(field.class_type, false, CppTypeRole::NotReturnType);
    lemma_conversion_any_role(t, CppTypeRole::ReturnType, CppTypeRole::NotReturnType);
    if t is Class {
        let class = t->Class_0;
        lemma_class_conversion(class, true, CppTypeRole::ReturnType);
        lemma_class_conversion(class, false, CppTypeRole::ReturnType);
        lemma_class_conversion(class, false, CppTypeRole::NotReturnType);
    }
    assert forall|i: int| 0 <= i < kinds.len() implies ffi_signature(
        #[trigger] kinds[i],
        movable,
    ) is Ok by {
        let k = kinds[i];
        let args = formal_arguments(k);
        if args.len() > 0 {
            assert(args.drop_last() =~= Seq::<CppFunctionArgumentView>::empty());
            assert(converted_arguments(args.drop_last()) is Ok);
        }
    }
}

/// Where the first of the casts between two classes has a signature, so has
/// each of them.
pub proof fn lemma_casts_all_or_nothing(
    target: CppPathView,
    base: CppPathView,
    base_index: usize,
    movable: Seq<CppPathView>,
)
    requires
        ffi_signature(casts_between(target, base, base_index)[0], movable) is Ok,
    ensures
        all_have_signatures(casts_between(target, base, base_index), movable),
{
    let kinds = casts_between(target, base, base_index);
    lemma_class_conversion(target, false, CppTypeRole::ReturnType);
    lemma_class_conversion(target, false, CppTypeRole::NotReturnType);
    lemma_class_conversion(base, false, CppTypeRole::ReturnType);
    lemma_class_conversion(base, false, CppTypeRole::NotReturnType);
    assert forall|i: int| 0 <= i < kinds.len() implies ffi_signature(
        #[trigger] kinds[i],
        movable,
    ) is Ok by {
        let k = kinds[i];
        let args = formal_arguments(k);
        assert(args.len() == 1);
        assert(args.drop_last() =~= Seq::<CppFunctionArgumentView>::empty());
        assert(converted_arguments(args.drop_last()) is Ok);
        lemma_converted_arguments(formal_arguments(kinds[0]));
        assert(formal_arguments(kinds[0]).len() == 1);
    }
}

} // verus!

verus! {

/// What a generator returns for a list of callables: the boundary functions
/// of all of them, with their names taken, where each has a signature;
/// otherwise the error of the first callable, with no name taken.
pub open spec fn generation_outcome(
    kinds: Seq<CppFfiFunctionKindView>,
    movable: Seq<CppPathView>,
    prefix: Seq<char>,
    names_before: Set<Seq<char>>,
    result: Result<Seq<CppFfiItemView>, FfiError>,
    names_after: Set<Seq<char>>,
) -> bool {
    match result {
        Ok(items) => {
            &&& all_have_signatures(kinds, movable)
            &&& (items, names_after) == synthesized(kinds, movable, prefix, names_before)
        },
        Err(e) => {
            &&& kinds.len() > 0
            &&& ffi_signature(kinds[0], movable) == Err::<FfiSignature, FfiError>(e)
            &&& names_after == names_before
        },
    }
}

/// Each item that `synthesized` gives is the boundary function of the
/// callable at its place, under a path of one segment.
pub proof fn lemma_synthesized_items(
    kinds: Seq<CppFfiFunctionKindView>,
    movable: Seq<CppPathView>,
    prefix: Seq<char>,
    names: Set<Seq<char>>,
)
    ensures
        synthesized(kinds, movable, prefix, names).0.len() == kinds.len(),
        forall|j: int|
            0 <= j < kinds.len() ==> {
                let item = #[trigger] synthesized(kinds, movable, prefix, names).0[j];
                &&& item is Function
                &&& item->Function_0 == function_with(
                    kinds[j],
                    ffi_signature(kinds[j], movable)->Ok_0,
                    item->Function_0.path,
                )
                &&& item.path().parts.len() == 1
                &&& item.path().template_arguments is None
            },
    decreases kinds.len(),
{
    if kinds.len() > 0 {
        lemma_synthesized_items(kinds.drop_last(), movable, prefix, names);
        let head = synthesized(kinds.drop_last(), movable, prefix, names).0;
        let all = synthesized(kinds, movable, prefix, names).0;
        assert forall|j: int| 0 <= j < kinds.len() implies {
            let item = #[trigger] all[j];
            &&& item is Function
            &&& item->Function_0 == function_with(
                kinds[j],
                ffi_signature(kinds[j], movable)->Ok_0,
                item->Function_0.path,
            )
            &&& item.path().parts.len() == 1
            &&& item.path().template_arguments is None
        } by {
            if j < kinds.len() - 1 {
                assert(all[j] == head[j]);
                assert(kinds[j] == kinds.drop_last()[j]);
            }
        }
    }
}

} // verus!
