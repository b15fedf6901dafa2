//! Laws of a pass: a second run adds nothing, the paths that a run
//! generates are all different, and functions of templates yield nothing.

use crate::cpp_code::path_cpp_code;
use crate::cpp_ffi_data::{CppFfiFunctionKindView, CppFfiItemView};
use crate::cpp_type::CppPathView;
use crate::database::{CppDatabaseItemView, ProcessorDataView};
use crate::driver::{
    has_template_parameter_type, is_due, item_kinds, item_movable, movable_paths, pass, pass_step,
    run_preserves, run_result, PassState,
};
use crate::expansion::{lemma_synthesized_basics, synthesized};
use crate::naming::{ffi_item_names, lemma_ffi_item_names_finite, lemma_first_free, provider_prefix};
use crate::signature::generated_path;
use crate::text::join;
use vstd::prelude::*;

verus! {

/// The name of a generated item: the one segment of its path.
pub open spec fn item_name(item: CppFfiItemView) -> Seq<char> {
    item.path().parts[0]
}

/// Whether the items from `from` on are generated items whose names are all
/// different, are among `taken` and are not among `names`.
pub open spec fn fresh_from(
    items: Seq<CppFfiItemView>,
    from: int,
    names: Set<Seq<char>>,
    taken: Set<Seq<char>>,
) -> bool {
    &&& forall|i: int|
        from <= i < items.len() ==> {
            &&& (#[trigger] items[i]).path() == generated_path(item_name(items[i]))
            &&& taken.contains(item_name(items[i]))
            &&& !names.contains(item_name(items[i]))
        }
    &&& forall|i: int, j: int|
        from <= i < j < items.len() ==> item_name(#[trigger] items[i]) != item_name(
            #[trigger] items[j],
        )
}

/// The items that `synthesized` gives have names that are all different,
/// are taken afterwards and were free before.
pub proof fn lemma_synthesized_fresh(
    kinds: Seq<CppFfiFunctionKindView>,
    movable: Seq<CppPathView>,
    prefix: Seq<char>,
    names: Set<Seq<char>>,
)
    requires
        names.finite(),
    ensures
        fresh_from(
            synthesized(kinds, movable, prefix, names).0,
            0,
            names,
            synthesized(kinds, movable, prefix, names).1,
        ),
        synthesized(kinds, movable, prefix, names).1.finite(),
        names.subset_of(synthesized(kinds, movable, prefix, names).1),
        synthesized(kinds, movable, prefix, names).0.len() == kinds.len(),
    decreases kinds.len(),
{
    lemma_synthesized_basics(kinds, movable, prefix, names);
    if kinds.len() > 0 {
        let shorter = kinds.drop_last();
        lemma_synthesized_fresh(shorter, movable, prefix, names);
        let (head, taken) = synthesized(shorter, movable, prefix, names);
        let (all, after) = synthesized(kinds, movable, prefix, names);
        let caption = crate::signature::function_caption(kinds.last());
        let name = crate::naming::allocated_name(taken, prefix, caption);
        lemma_first_free(taken, prefix, caption);
        assert(forall|i: int| 0 <= i < head.len() ==> all[i] == head[i]);
        assert(all[kinds.len() - 1].path() == generated_path(name));
        assert(item_name(all[kinds.len() - 1]) == name);
        assert forall|i: int, j: int| 0 <= i < j < all.len() implies item_name(
            #[trigger] all[i],
        ) != item_name(#[trigger] all[j]) by {
            if j == kinds.len() - 1 {
                assert(taken.contains(item_name(head[i])));
            }
        }
    }
}

/// A pass keeps the boundary items that were there, in their places, gives
/// one item back for each item, with the same content, and leaves no item
/// due. The items that it appends have names that are all different, are
/// taken afterwards and were free before.
pub proof fn lemma_pass(
    items: Seq<CppDatabaseItemView>,
    movable: Seq<CppPathView>,
    prefix: Seq<char>,
    ffi_items: Seq<CppFfiItemView>,
    names: Set<Seq<char>>,
)
    requires
        names.finite(),
    ensures
        ({
            let after = pass(items, movable, prefix, ffi_items, names);
            &&& after.cpp_items.len() == items.len()
            &&& forall|i: int|
                0 <= i < items.len() ==> {
                    &&& (#[trigger] after.cpp_items[i]).cpp_data == items[i].cpp_data
                    &&& !is_due(after.cpp_items[i], movable)
                    &&& items[i].is_cpp_ffi_processed ==> after.cpp_items[i].is_cpp_ffi_processed
                }
            &&& after.ffi_items.len() >= ffi_items.len()
            &&& after.ffi_items.subrange(0, ffi_items.len() as int) == ffi_items
            &&& after.names.finite()
            &&& names.subset_of(after.names)
            &&& fresh_from(after.ffi_items, ffi_items.len() as int, names, after.names)
        }),
    decreases items.len(),
{
    let after = pass(items, movable, prefix, ffi_items, names);
    if items.len() == 0 {
        assert(after.ffi_items.subrange(0, ffi_items.len() as int) =~= ffi_items);
    } else {
        let shorter = items.drop_last();
        let item = items.last();
        lemma_pass(shorter, movable, prefix, ffi_items, names);
        let before = pass(shorter, movable, prefix, ffi_items, names);
        assert(after == pass_step(before, item, movable, prefix));
        assert forall|i: int| 0 <= i < items.len() implies {
            &&& (#[trigger] after.cpp_items[i]).cpp_data == items[i].cpp_data
            &&& !is_due(after.cpp_items[i], movable)
            &&& items[i].is_cpp_ffi_processed ==> after.cpp_items[i].is_cpp_ffi_processed
        } by {
            if i < items.len() - 1 {
                assert(after.cpp_items[i] == before.cpp_items[i]);
                assert(items[i] == shorter[i]);
            }
        }
        if is_due(item, movable) {
            let kinds = item_kinds(item.cpp_data);
            let m = item_movable(item.cpp_data, movable);
            lemma_synthesized_fresh(kinds, m, prefix, before.names);
            let made = synthesized(kinds, m, prefix, before.names);
            assert(after.ffi_items == before.ffi_items + made.0);
            assert(after.ffi_items.subrange(0, ffi_items.len() as int)
                =~= before.ffi_items.subrange(0, ffi_items.len() as int));
            let from = ffi_items.len() as int;
            let split = before.ffi_items.len() as int;
            assert forall|i: int| from <= i < after.ffi_items.len() implies {
                &&& (#[trigger] after.ffi_items[i]).path() == generated_path(
                    item_name(after.ffi_items[i]),
                )
                &&& after.names.contains(item_name(after.ffi_items[i]))
                &&& !names.contains(item_name(after.ffi_items[i]))
            } by {
                if i < split {
                    assert(after.ffi_items[i] == before.ffi_items[i]);
                } else {
                    assert(after.ffi_items[i] == made.0[i - split]);
                }
            }
            assert forall|i: int, j: int| from <= i < j < after.ffi_items.len() implies item_name(
                #[trigger] after.ffi_items[i],
            ) != item_name(#[trigger] after.ffi_items[j]) by {
                if j < split {
                    assert(after.ffi_items[i] == before.ffi_items[i]);
                    assert(after.ffi_items[j] == before.ffi_items[j]);
                } else if i < split {
                    assert(after.ffi_items[i] == before.ffi_items[i]);
                    assert(after.ffi_items[j] == made.0[j - split]);
                    assert(before.names.contains(item_name(before.ffi_items[i])));
                } else {
                    assert(after.ffi_items[i] == made.0[i - split]);
                    assert(after.ffi_items[j] == made.0[j - split]);
                }
            }
        } else {
            assert(after.ffi_items == before.ffi_items);
        }
    }
}

/// A pass over items of which none is due changes nothing.
pub proof fn lemma_pass_idle(
    items: Seq<CppDatabaseItemView>,
    movable: Seq<CppPathView>,
    prefix: Seq<char>,
    ffi_items: Seq<CppFfiItemView>,
    names: Set<Seq<char>>,
)
    requires
        forall|i: int| 0 <= i < items.len() ==> !is_due(#[trigger] items[i], movable),
    ensures
        pass(items, movable, prefix, ffi_items, names) == (PassState {
            cpp_items: items,
            ffi_items,
            names,
        }),
    decreases items.len(),
{
    if items.len() == 0 {
        assert(items =~= Seq::<CppDatabaseItemView>::empty());
    } else {
        let shorter = items.drop_last();
        assert forall|i: int| 0 <= i < shorter.len() implies !is_due(
            #[trigger] shorter[i],
            movable,
        ) by {
            assert(shorter[i] == items[i]);
        }
        lemma_pass_idle(shorter, movable, prefix, ffi_items, names);
        assert(!is_due(items[items.len() - 1], movable));
        assert(shorter.push(items.last()) =~= items);
    }
}

/// Which classes are movable depends on the content of the items alone,
/// not on their marks.
pub proof fn lemma_movable_paths_ignore_marks(
    a: Seq<CppDatabaseItemView>,
    b: Seq<CppDatabaseItemView>,
)
    requires
        a.len() == b.len(),
        forall|i: int| 0 <= i < a.len() ==> (#[trigger] a[i]).cpp_data == b[i].cpp_data,
    ensures
        movable_paths(a) == movable_paths(b),
    decreases a.len(),
{
    if a.len() > 0 {
        assert forall|i: int| 0 <= i < a.len() - 1 implies (#[trigger] a.drop_last()[i]).cpp_data
            == b.drop_last()[i].cpp_data by {
            assert(a.drop_last()[i] == a[i]);
            assert(b.drop_last()[i] == b[i]);
        }
        lemma_movable_paths_ignore_marks(a.drop_last(), b.drop_last());
        assert(a.last() == a[a.len() - 1]);
        assert(a[a.len() - 1].cpp_data == b[a.len() - 1].cpp_data);
    }
}

/// A run changes neither the name of the crate nor the content or the
/// number of the items, takes no mark away, and keeps every boundary item
/// that was there in its place.
pub proof fn lemma_run_preserves(data: ProcessorDataView)
    ensures
        run_preserves(data, run_result(data)),
{
    let ffi_items = data.current_database.ffi_items;
    lemma_ffi_item_names_finite(ffi_items);
    lemma_pass(
        data.current_database.cpp_items,
        movable_paths(data.current_database.cpp_items),
        provider_prefix(data.crate_name),
        ffi_items,
        ffi_item_names(ffi_items),
    );
}

/// Idempotence: a second run over what a run has left changes nothing. It
/// appends no boundary item and marks no item.
pub proof fn lemma_run_idempotent(data: ProcessorDataView)
    ensures
        run_result(run_result(data)) == run_result(data),
        run_result(run_result(data)).current_database.ffi_items == run_result(
            data,
        ).current_database.ffi_items,
{
    let items = data.current_database.cpp_items;
    let ffi_items = data.current_database.ffi_items;
    let movable = movable_paths(items);
    let prefix = provider_prefix(data.crate_name);
    let names = ffi_item_names(ffi_items);
    lemma_ffi_item_names_finite(ffi_items);
    lemma_pass(items, movable, prefix, ffi_items, names);
    let first = run_result(data);
    let items1 = first.current_database.cpp_items;
    let ffi1 = first.current_database.ffi_items;
    lemma_movable_paths_ignore_marks(items1, items);
    lemma_pass_idle(items1, movable, prefix, ffi1, ffi_item_names(ffi1));
}

/// Uniqueness: a run keeps the boundary items that were there and appends
/// items whose paths are all different. Each of these paths is one segment
/// that is not among the names that were taken before the run.
pub proof fn lemma_run_paths_unique(data: ProcessorDataView)
    ensures
        ({
            let before = data.current_database.ffi_items;
            let after = run_result(data).current_database.ffi_items;
            &&& before.len() <= after.len()
            &&& after.subrange(0, before.len() as int) == before
            &&& forall|i: int, j: int|
                before.len() <= i < j < after.len() ==> (#[trigger] after[i]).path() != (
                #[trigger] after[j]).path()
            &&& forall|i: int|
                before.len() <= i < after.len() ==> {
                    &&& (#[trigger] after[i]).path() == generated_path(item_name(after[i]))
                    &&& !ffi_item_names(before).contains(item_name(after[i]))
                }
        }),
{
    let items = data.current_database.cpp_items;
    let before = data.current_database.ffi_items;
    let movable = movable_paths(items);
    let prefix = provider_prefix(data.crate_name);
    let names = ffi_item_names(before);
    lemma_ffi_item_names_finite(before);
    lemma_pass(items, movable, prefix, before, names);
    let after = run_result(data).current_database.ffi_items;
    assert forall|i: int, j: int| before.len() <= i < j < after.len() implies (
    #[trigger] after[i]).path() != (#[trigger] after[j]).path() by {
        assert(item_name(after[i]) != item_name(after[j]));
    }
}

/// The paths that a run appends differ from the path of every boundary
/// item that was there before.
pub proof fn lemma_run_paths_new(data: ProcessorDataView, i: int, j: int)
    requires
        crate::database::ffi_paths_have_text(data.current_database.ffi_items),
        0 <= i < data.current_database.ffi_items.len(),
        data.current_database.ffi_items.len() <= j < run_result(
            data,
        ).current_database.ffi_items.len(),
    ensures
        run_result(data).current_database.ffi_items[i].path() != run_result(
            data,
        ).current_database.ffi_items[j].path(),
{
    let before = data.current_database.ffi_items;
    let after = run_result(data).current_database.ffi_items;
    lemma_run_paths_unique(data);
    assert(after[i] == after.subrange(0, before.len() as int)[i]);
    lemma_names_hold_texts(before, i);
    let old_path = before[i].path();
    let new_path = after[j].path();
    if old_path == new_path {
        let name = item_name(after[j]);
        assert(new_path == generated_path(name));
        assert(path_cpp_code(new_path) == Ok::<Seq<char>, crate::errors::FfiError>(
            join(seq![name], "::"@),
        ));
        assert(join(seq![name], "::"@) == name);
        assert(ffi_item_names(before).contains(name));
    }
}

/// The names of a list of boundary items hold the C++ text of the path of
/// each item that has one.
pub proof fn lemma_names_hold_texts(items: Seq<CppFfiItemView>, i: int)
    requires
        0 <= i < items.len(),
        path_cpp_code(items[i].path()) is Ok,
    ensures
        ffi_item_names(items).contains(path_cpp_code(items[i].path())->Ok_0),
    decreases items.len(),
{
    if i < items.len() - 1 {
        lemma_names_hold_texts(items.drop_last(), i);
    }
}

/// Template exclusion: a function whose path has template arguments, or
/// whose return type or argument types hold an unresolved template
/// parameter, yields no boundary function, and is not marked.
pub proof fn lemma_template_function_yields_nothing(
    before: PassState,
    item: CppDatabaseItemView,
    movable: Seq<CppPathView>,
    prefix: Seq<char>,
)
    requires
        item.cpp_data is Function,
        item.cpp_data->Function_0.path.template_arguments is Some || has_template_parameter_type(
            item.cpp_data->Function_0,
        ),
    ensures
        !is_due(item, movable),
        pass_step(before, item, movable, prefix) == (PassState {
            cpp_items: before.cpp_items.push(item),
            ffi_items: before.ffi_items,
            names: before.names,
        }),
{
}

} // verus!
