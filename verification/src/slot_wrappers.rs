//! Slot wrappers: one class for each list of signal argument types, with a
//! slot that hands the arguments to a callback.

use crate::captions::{type_captions, type_captions_of};
use crate::cpp_code::path_cpp_code;
use crate::cpp_ffi_data::{
    ffi_items_view, ffi_type_of, ffi_types_view, CppFfiItem, CppFfiItemView, CppFfiType,
    CppFfiTypeView, QtSlotWrapper, QtSlotWrapperView,
};
use crate::cpp_ffi_generator::FfiNameProvider;
use crate::cpp_type::{
    lemma_types_view, pointer_to, same_types, types_view, CppFunctionPointerType,
    CppFunctionPointerTypeView, CppPathView, CppType, CppTypeRole, CppTypeView,
};
use crate::database::{ffi_paths_have_text, ProcessorData};
use crate::errors::FfiError;
use crate::naming::{allocated_name, ffi_item_names, provider_prefix};
use crate::signature::generated_path;
use crate::text::{join, join_display};
use vstd::prelude::*;

verus! {

/// The boundary forms of the types as arguments, in order, or the error of
/// the first that has none.
pub open spec fn converted_types(types: Seq<CppTypeView>) -> Result<Seq<CppFfiTypeView>, FfiError>
    decreases types.len(),
{
    if types.len() == 0 {
        Ok(Seq::empty())
    } else {
        match converted_types(types.drop_last()) {
            Err(e) => Err(e),
            Ok(head) => match ffi_type_of(types.last(), CppTypeRole::NotReturnType) {
                Err(e) => Err(e),
                Ok(t) => Ok(head.push(t)),
            },
        }
    }
}

/// An error among the first `n` types is the error of the whole list.
pub proof fn lemma_converted_types_error(types: Seq<CppTypeView>, n: int)
    requires
        0 <= n <= types.len(),
        converted_types(types.subrange(0, n)) is Err,
    ensures
        converted_types(types) == converted_types(types.subrange(0, n)),
    decreases types.len() - n,
{
    if n < types.len() {
        let next = types.subrange(0, n + 1);
        assert(next.drop_last() =~= types.subrange(0, n));
        lemma_converted_types_error(types, n + 1);
    } else {
        assert(types.subrange(0, n) =~= types);
    }
}

/// The base name of the wrapper for the given signal arguments.
pub open spec fn slot_wrapper_caption(arguments: Seq<CppTypeView>) -> Seq<char> {
    "slot_wrapper_"@ + join(type_captions(arguments), "_"@)
}

/// The type of the callback: it returns nothing and takes a pointer to
/// `void` followed by the boundary types of the signal arguments.
pub open spec fn slot_function_type(arguments: Seq<CppFfiTypeView>) -> CppFunctionPointerTypeView {
    CppFunctionPointerTypeView {
        return_type: Box::new(CppTypeView::Void),
        arguments: seq![pointer_to(false, CppTypeView::Void)] + arguments.map_values(
            |t: CppFfiTypeView| t.ffi_type,
        ),
        allows_variadic_arguments: false,
    }
}

/// The wrapper for the given signal arguments under the given path, or the
/// reason for which there is none.
pub open spec fn slot_wrapper(arguments: Seq<CppTypeView>, path: CppPathView) -> Result<
    QtSlotWrapperView,
    FfiError,
> {
    match converted_types(arguments) {
        Err(e) => Err(e),
        Ok(converted) => Ok(
            QtSlotWrapperView {
                signal_arguments: arguments,
                class_path: path,
                arguments: converted,
                function_type: slot_function_type(converted),
            },
        ),
    }
}

fn convert_types(types: &[CppType]) -> (r: Result<Vec<CppFfiType>, FfiError>)
    ensures
        match r {
            Ok(converted) => converted_types(types_view(types@)) == Ok::<
                Seq<CppFfiTypeView>,
                FfiError,
            >(ffi_types_view(converted@)),
            Err(e) => converted_types(types_view(types@)) == Err::<Seq<CppFfiTypeView>, FfiError>(
                e,
            ),
        },
{
    let ghost all = types_view(types@);
    proof {
        lemma_types_view(types@);
    }
    let mut out: Vec<CppFfiType> = Vec::new();
    let mut i: usize = 0;
    proof {
        assert(all.subrange(0, 0).len() == 0);
        assert(ffi_types_view(out@) =~= Seq::<CppFfiTypeView>::empty());
    }
    while i < types.len()
        invariant
            i <= types.len(),
            all == types_view(types@),
            all.len() == types.len(),
            forall|j: int| 0 <= j < types.len() ==> #[trigger] all[j] == types@[j]@,
            converted_types(all.subrange(0, i as int)) == Ok::<Seq<CppFfiTypeView>, FfiError>(
                ffi_types_view(out@),
            ),
        decreases types.len() - i,
    {
        proof {
            let next = all.subrange(0, i + 1);
            assert(next.drop_last() =~= all.subrange(0, i as int));
            assert(next.last() == types@[i as int]@);
        }
        match types[i].to_cpp_ffi_type(CppTypeRole::NotReturnType) {
            Ok(t) => {
                let ghost before = ffi_types_view(out@);
                out.push(t);
                assert(ffi_types_view(out@) =~= before.push(t@));
            },
            Err(e) => {
                proof {
                    lemma_converted_types_error(all, i + 1);
                }
                return Err(e);
            },
        }
        i = i + 1;
    }
    assert(all.subrange(0, i as int) =~= all);
    Ok(out)
}

fn slice_to_types(types: &[CppType]) -> (r: Vec<CppType>)
    ensures
        types_view(r@) == types_view(types@),
{
    let mut out: Vec<CppType> = Vec::new();
    let mut i: usize = 0;
    while i < types.len()
        invariant
            i <= types.len(),
            out.len() == i,
            forall|j: int| 0 <= j < i ==> out@[j]@ == types@[j]@,
        decreases types.len() - i,
    {
        out.push(types[i].clone());
        i = i + 1;
    }
    proof {
        lemma_types_view(types@);
        lemma_types_view(out@);
        assert(types_view(out@) =~= types_view(types@));
    }
    out
}

fn callback_type(ffi_types: &Vec<CppFfiType>) -> (r: CppFunctionPointerType)
    ensures
        r@ == slot_function_type(ffi_types_view(ffi_types@)),
{
    let void_ptr = CppType::new_pointer(false, CppType::Void);
    let mut func_arguments: Vec<CppType> = Vec::new();
    func_arguments.push(void_ptr);
    let mut i: usize = 0;
    while i < ffi_types.len()
        invariant
            i <= ffi_types.len(),
            func_arguments.len() == i + 1,
            func_arguments@[0]@ == pointer_to(false, CppTypeView::Void),
            forall|j: int| 0 <= j < i ==> func_arguments@[j + 1]@ == ffi_types@[j]@.ffi_type,
        decreases ffi_types.len() - i,
    {
        func_arguments.push(ffi_types[i].ffi_type().clone());
        i = i + 1;
    }
    proof {
        lemma_types_view(func_arguments@);
        assert(types_view(func_arguments@) =~= slot_function_type(
            ffi_types_view(ffi_types@),
        ).arguments);
    }
    CppFunctionPointerType {
        return_type: Box::new(CppType::Void),
        arguments: func_arguments,
        allows_variadic_arguments: false,
    }
}

/// Builds the slot wrapper for a list of signal argument types. The
/// wrapper gets a unique name, which is taken only where every type has a
/// boundary form.
pub fn generate_slot_wrapper(arguments: &[CppType], name_provider: &mut FfiNameProvider) -> (r:
    Result<QtSlotWrapper, FfiError>)
    requires
        old(name_provider).wf(),
    ensures
        final(name_provider).wf(),
        final(name_provider).prefix() == old(name_provider).prefix(),
        match r {
            Ok(w) => {
                let name = allocated_name(
                    old(name_provider).names(),
                    old(name_provider).prefix(),
                    slot_wrapper_caption(types_view(arguments@)),
                );
                &&& slot_wrapper(types_view(arguments@), generated_path(name)) == Ok::<
                    QtSlotWrapperView,
                    FfiError,
                >(w@)
                &&& final(name_provider).names() == old(name_provider).names().insert(name)
                &&& !old(name_provider).names().contains(name)
            },
            Err(e) => {
                &&& converted_types(types_view(arguments@)) == Err::<
                    Seq<CppFfiTypeView>,
                    FfiError,
                >(e)
                &&& final(name_provider).names() == old(name_provider).names()
            },
        },
{
    let ffi_types = match convert_types(arguments) {
        Ok(t) => t,
        Err(e) => {
            return Err(e);
        },
    };
    proof {
        reveal_strlit("_");
    }
    let captions = type_captions_of(arguments);
    let mut caption = String::from_str("slot_wrapper_");
    let joined = join_display(&captions, "_");
    caption.append(joined.as_str());
    let class_path = name_provider.create_path(caption.as_str());
    let function_type = callback_type(&ffi_types);
    Ok(
        QtSlotWrapper {
            signal_arguments: slice_to_types(arguments),
            class_path,
            arguments: ffi_types,
            function_type,
        },
    )
}

/// Whether one of the items is the slot wrapper for the given signal
/// arguments.
pub open spec fn has_slot_wrapper(items: Seq<CppFfiItemView>, arguments: Seq<CppTypeView>) -> bool {
    exists|i: int|
        0 <= i < items.len() && (#[trigger] items[i]) is QtSlotWrapper
            && items[i]->QtSlotWrapper_0.signal_arguments == arguments
}

/// The boundary items and the taken names after the wrapper for one list of
/// signal arguments has been asked for: where there is one already, or the
/// types have no boundary form, nothing changes; otherwise the wrapper is
/// appended under a new name.
pub open spec fn slot_step(
    state: (Seq<CppFfiItemView>, Set<Seq<char>>),
    arguments: Seq<CppTypeView>,
    prefix: Seq<char>,
) -> (Seq<CppFfiItemView>, Set<Seq<char>>) {
    if has_slot_wrapper(state.0, arguments) || converted_types(arguments) is Err {
        state
    } else {
        let name = allocated_name(state.1, prefix, slot_wrapper_caption(arguments));
        (
            state.0.push(
                CppFfiItemView::QtSlotWrapper(
                    slot_wrapper(arguments, generated_path(name))->Ok_0,
                ),
            ),
            state.1.insert(name),
        )
    }
}

/// The boundary items and the taken names after the wrappers for all the
/// lists have been asked for, in order.
pub open spec fn slot_pass(
    all: Seq<Seq<CppTypeView>>,
    prefix: Seq<char>,
    items: Seq<CppFfiItemView>,
    names: Set<Seq<char>>,
) -> (Seq<CppFfiItemView>, Set<Seq<char>>)
    decreases all.len(),
{
    if all.len() == 0 {
        (items, names)
    } else {
        slot_step(slot_pass(all.drop_last(), prefix, items, names), all.last(), prefix)
    }
}

/// The views of several lists of types.
pub open spec fn type_lists_view(all: Seq<Vec<CppType>>) -> Seq<Seq<CppTypeView>> {
    all.map_values(|v: Vec<CppType>| types_view(v@))
}

fn find_slot_wrapper(items: &Vec<CppFfiItem>, arguments: &Vec<CppType>) -> (r: bool)
    ensures
        r == has_slot_wrapper(ffi_items_view(items@), types_view(arguments@)),
{
    let mut i: usize = 0;
    while i < items.len()
        invariant
            i <= items.len(),
            forall|j: int|
                0 <= j < i ==> !((#[trigger] ffi_items_view(items@)[j]) is QtSlotWrapper
                    && ffi_items_view(items@)[j]->QtSlotWrapper_0.signal_arguments == types_view(
                    arguments@,
                )),
        decreases items.len() - i,
    {
        match items[i].as_slot_wrapper_ref() {
            Some(w) => {
                if same_types(&w.signal_arguments, arguments) {
                    assert(ffi_items_view(items@)[i as int] == items@[i as int]@);
                    return true;
                }
            },
            None => {},
        }
        assert(ffi_items_view(items@)[i as int] == items@[i as int]@);
        i = i + 1;
    }
    false
}

/// Adds a slot wrapper for each of the given lists of signal argument
/// types that has none yet. A list with a type that has no boundary form
/// is passed over.
pub fn add_slot_wrappers(data: &mut ProcessorData, all_types: &Vec<Vec<CppType>>) -> (r: Result<
    (),
    FfiError,
>)
    requires
        ffi_paths_have_text(old(data)@.current_database.ffi_items),
    ensures
        r is Ok,
        final(data)@.crate_name == old(data)@.crate_name,
        final(data)@.current_database.cpp_items == old(data)@.current_database.cpp_items,
        final(data)@.current_database.ffi_items == slot_pass(
            type_lists_view(all_types@),
            provider_prefix(old(data)@.crate_name),
            old(data)@.current_database.ffi_items,
            ffi_item_names(old(data)@.current_database.ffi_items),
        ).0,
        ffi_paths_have_text(final(data)@.current_database.ffi_items),
{
    let mut name_provider = FfiNameProvider::new(data);
    let ghost start = data@;
    let ghost all = type_lists_view(all_types@);
    let ghost prefix = provider_prefix(start.crate_name);
    let ghost names = ffi_item_names(start.current_database.ffi_items);
    let mut i: usize = 0;
    proof {
        assert(all.subrange(0, 0) =~= Seq::<Seq<CppTypeView>>::empty());
    }
    while i < all_types.len()
        invariant
            i <= all_types.len(),
            start == old(data)@,
            all == type_lists_view(all_types@),
            prefix == provider_prefix(start.crate_name),
            names == ffi_item_names(start.current_database.ffi_items),
            data@.crate_name == start.crate_name,
            data@.current_database.cpp_items == start.current_database.cpp_items,
            name_provider.wf(),
            name_provider.prefix() == prefix,
            (data@.current_database.ffi_items, name_provider.names()) == slot_pass(
                all.subrange(0, i as int),
                prefix,
                start.current_database.ffi_items,
                names,
            ),
            ffi_paths_have_text(data@.current_database.ffi_items),
        decreases all_types.len() - i,
    {
        let arg_types = &all_types[i];
        proof {
            let next = all.subrange(0, i + 1);
            assert(next.drop_last() =~= all.subrange(0, i as int));
            assert(next.last() == types_view(arg_types@));
        }
        let found = find_slot_wrapper(&data.current_database.ffi_items, arg_types);
        if !found {
            match generate_slot_wrapper(arg_types.as_slice(), &mut name_provider) {
                Ok(slot_wrapper) => {
                    let ghost before = data@.current_database.ffi_items;
                    let item = CppFfiItem::QtSlotWrapper(slot_wrapper);
                    data.current_database.ffi_items.push(item);
                    proof {
                        assert(data@.current_database.ffi_items =~= before.push(item@));
                        assert(item@.path().template_arguments is None);
                        assert(path_cpp_code(item@.path()) is Ok);
                    }
                },
                Err(_) => {},
            }
        }
        i = i + 1;
    }
    assert(all.subrange(0, i as int) =~= all);
    Ok(())
}

} // verus!
