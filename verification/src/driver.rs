//! What one pass over the items of an API does to the database.

use crate::cpp_data::{CppTypeDataKindView, CppVisibility};
use crate::cpp_ffi_data::{CppFfiFunctionKindView, CppFfiItemView};
use crate::cpp_function::CppFunctionView;
use crate::cpp_type::{contains_template_parameter, is_qflags_path, CppPathView};
use crate::database::{
    CppDatabaseItemView, CppItemDataView, DatabaseView, ProcessorDataView,
};
use crate::expansion::{
    accessor_kinds, all_have_signatures, cast_kinds, overload_kinds, synthesized,
};
use crate::errors::FfiError;
use crate::naming::{ffi_item_names, provider_prefix};
use crate::signature::ffi_signature;
use vstd::prelude::*;

verus! {

/// Whether the return type or the type of a formal argument of the function
/// is, or contains, an unresolved template parameter.
pub open spec fn has_template_parameter_type(f: CppFunctionView) -> bool {
    contains_template_parameter(f.return_type) || exists|i: int|
        0 <= i < f.arguments.len() && contains_template_parameter(
            (#[trigger] f.arguments[i]).argument_type,
        )
}

/// Whether boundary functions may be made for a function: not for a member
/// of the bit-flags class, a private or protected member or a signal, nor
/// for a function whose path has template arguments or whose types hold an
/// unresolved template parameter.
pub open spec fn is_eligible_function(f: CppFunctionView) -> bool {
    &&& match f.member {
        Some(m) => !is_qflags_path(m.class_type) && m.visibility == CppVisibility::Public
            && !m.is_signal,
        None => true,
    }
    &&& f.path.template_arguments is None
    &&& !has_template_parameter_type(f)
}

/// Whether boundary functions may be made for an item. Only functions are
/// tested; every other item is eligible.
pub open spec fn is_eligible(item: CppItemDataView) -> bool {
    match item {
        CppItemDataView::Function(f) => is_eligible_function(f),
        _ => true,
    }
}

/// The callables of an item: the overloads of a function, the accessors of
/// a field, the casts of a base; none for a type, an enum value or a
/// namespace.
pub open spec fn item_kinds(item: CppItemDataView) -> Seq<CppFfiFunctionKindView> {
    match item {
        CppItemDataView::Function(f) => overload_kinds(f),
        CppItemDataView::ClassField(f) => accessor_kinds(f),
        CppItemDataView::ClassBase(b) => cast_kinds(b),
        _ => Seq::empty(),
    }
}

/// The movable classes that count for an item: none for a base, whose
/// casts work on pointers, and all of them for the rest.
pub open spec fn item_movable(item: CppItemDataView, movable: Seq<CppPathView>) -> Seq<CppPathView> {
    match item {
        CppItemDataView::ClassBase(_) => Seq::empty(),
        _ => movable,
    }
}

/// Whether a pass makes the boundary functions of an item: the item is not
/// processed yet, it is eligible, and each of its callables has a signature.
pub open spec fn is_due(item: CppDatabaseItemView, movable: Seq<CppPathView>) -> bool {
    &&& !item.is_cpp_ffi_processed
    &&& is_eligible(item.cpp_data)
    &&& all_have_signatures(item_kinds(item.cpp_data), item_movable(item.cpp_data, movable))
}

/// The classes that are declared movable, in the order of their declarations.
pub open spec fn movable_paths(items: Seq<CppDatabaseItemView>) -> Seq<CppPathView>
    decreases items.len(),
{
    if items.len() == 0 {
        Seq::empty()
    } else {
        let head = movable_paths(items.drop_last());
        match items.last().cpp_data {
            CppItemDataView::Type(t) => match t.kind {
                CppTypeDataKindView::Class { type_base } => if t.is_movable {
                    head.push(type_base)
                } else {
                    head
                },
                _ => head,
            },
            _ => head,
        }
    }
}

/// The state of a pass: the items with their marks, the boundary items, and
/// the names that are taken.
pub struct PassState {
    pub cpp_items: Seq<CppDatabaseItemView>,
    pub ffi_items: Seq<CppFfiItemView>,
    pub names: Set<Seq<char>>,
}

/// The state after one item: where the item is due, its boundary functions
/// are appended, their names are taken and the item is marked; otherwise
/// nothing changes.
pub open spec fn pass_step(
    before: PassState,
    item: CppDatabaseItemView,
    movable: Seq<CppPathView>,
    prefix: Seq<char>,
) -> PassState {
    if is_due(item, movable) {
        let made = synthesized(
            item_kinds(item.cpp_data),
            item_movable(item.cpp_data, movable),
            prefix,
            before.names,
        );
        PassState {
            cpp_items: before.cpp_items.push(
                CppDatabaseItemView { cpp_data: item.cpp_data, is_cpp_ffi_processed: true },
            ),
            ffi_items: before.ffi_items + made.0,
            names: made.1,
        }
    } else {
        PassState {
            cpp_items: before.cpp_items.push(item),
            ffi_items: before.ffi_items,
            names: before.names,
        }
    }
}

/// The state after a pass over `items`, in order, that starts with the
/// given boundary items and taken names.
pub open spec fn pass(
    items: Seq<CppDatabaseItemView>,
    movable: Seq<CppPathView>,
    prefix: Seq<char>,
    ffi_items: Seq<CppFfiItemView>,
    names: Set<Seq<char>>,
) -> PassState
    decreases items.len(),
{
    if items.len() == 0 {
        PassState { cpp_items: Seq::empty(), ffi_items, names }
    } else {
        pass_step(
            pass(items.drop_last(), movable, prefix, ffi_items, names),
            items.last(),
            movable,
            prefix,
        )
    }
}

/// The state in which a run over the data ends.
pub open spec fn run_state(data: ProcessorDataView) -> PassState {
    pass(
        data.current_database.cpp_items,
        movable_paths(data.current_database.cpp_items),
        provider_prefix(data.crate_name),
        data.current_database.ffi_items,
        ffi_item_names(data.current_database.ffi_items),
    )
}

/// The data as a run leaves it.
pub open spec fn run_result(data: ProcessorDataView) -> ProcessorDataView {
    ProcessorDataView {
        crate_name: data.crate_name,
        current_database: DatabaseView {
            cpp_items: run_state(data).cpp_items,
            ffi_items: run_state(data).ffi_items,
        },
    }
}

/// What a run did with an item.
#[derive(Clone, Copy, Debug, PartialEq, Eq, Structural)]
pub enum ItemOutcome {
    /// The item was marked as processed before the run.
    AlreadyProcessed,
    /// The item is not eligible.
    Skipped,
    /// No boundary function could be made, for the given reason.
    Failed(FfiError),
    /// The boundary functions were made and the item was marked.
    Processed { added: usize },
}

/// The reason for which the callables of an item cannot all be given a
/// signature: the error of the first of them.
pub open spec fn first_error(kinds: Seq<CppFfiFunctionKindView>, movable: Seq<CppPathView>) -> FfiError {
    ffi_signature(kinds[0], movable)->Err_0
}

/// What a run does with an item.
pub open spec fn item_outcome(item: CppDatabaseItemView, movable: Seq<CppPathView>) -> ItemOutcome {
    let kinds = item_kinds(item.cpp_data);
    let m = item_movable(item.cpp_data, movable);
    if item.is_cpp_ffi_processed {
        ItemOutcome::AlreadyProcessed
    } else if !is_eligible(item.cpp_data) {
        ItemOutcome::Skipped
    } else if all_have_signatures(kinds, m) {
        ItemOutcome::Processed { added: kinds.len() as usize }
    } else {
        ItemOutcome::Failed(first_error(kinds, m))
    }
}

/// What a run over the data does with each item, in order.
pub open spec fn run_report(data: ProcessorDataView) -> Seq<ItemOutcome> {
    Seq::new(
        data.current_database.cpp_items.len(),
        |i: int|
            item_outcome(
                data.current_database.cpp_items[i],
                movable_paths(data.current_database.cpp_items),
            ),
    )
}

/// What a run never does: it changes neither the name of the crate nor
/// the content or the number of the items, it takes no mark away, and it
/// keeps every boundary item that was there in its place.
pub open spec fn run_preserves(before: ProcessorDataView, after: ProcessorDataView) -> bool {
    let old_items = before.current_database.cpp_items;
    let new_items = after.current_database.cpp_items;
    let old_ffi = before.current_database.ffi_items;
    let new_ffi = after.current_database.ffi_items;
    &&& after.crate_name == before.crate_name
    &&& new_items.len() == old_items.len()
    &&& forall|i: int|
        0 <= i < old_items.len() ==> {
            &&& (#[trigger] new_items[i]).cpp_data == old_items[i].cpp_data
            &&& old_items[i].is_cpp_ffi_processed ==> new_items[i].is_cpp_ffi_processed
        }
    &&& old_ffi.len() <= new_ffi.len()
    &&& new_ffi.subrange(0, old_ffi.len() as int) == old_ffi
}

/// Whether the boundary items that `after` holds beyond those of `before`
/// have paths that are all different.
pub open spec fn appends_distinct_paths(before: ProcessorDataView, after: ProcessorDataView) -> bool {
    let old_ffi = before.current_database.ffi_items;
    let new_ffi = after.current_database.ffi_items;
    forall|i: int, j: int|
        old_ffi.len() <= i < j < new_ffi.len() ==> (#[trigger] new_ffi[i]).path() != (
        #[trigger] new_ffi[j]).path()
}

} // verus!
