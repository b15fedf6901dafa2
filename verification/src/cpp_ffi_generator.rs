//! Generation of boundary functions for the items of a C++ API.

use crate::cpp_code::path_cpp_code;
use crate::cpp_data::{CppBaseSpecifier, CppClassField, CppName, CppTypeDataKind, CppVisibility};
use crate::cpp_ffi_data::{
    ffi_arguments_view, ffi_items_view, CppCast, CppFfiArgumentMeaning, CppFfiFunction,
    CppFfiFunctionArgument, CppFfiFunctionArgumentView, CppFfiFunctionKind, CppFfiFunctionKindView,
    CppFfiFunctionView, CppFfiItem, CppFfiItemView, CppFfiType, CppFieldAccessorType,
};
use crate::cpp_function::{
    arguments_view, clone_arguments, CppFunction, CppFunctionArgument, CppFunctionArgumentView,
    CppFunctionView, ReturnValueAllocationPlace,
};
use crate::cpp_type::{
    contains_template_parameter, is_qflags, lemma_types_view, paths_view, types_view, CppPath,
    CppPathView, CppType, CppTypeRole,
};
use crate::database::{
    database_items_view, ffi_paths_have_text, CppDatabaseItem, CppDatabaseItemView, CppItemData,
    CppItemDataView, ProcessorData,
};
use crate::driver::{
    appends_distinct_paths, first_error, has_template_parameter_type, is_due, is_eligible,
    item_kinds, item_movable, item_outcome, movable_paths, pass, run_preserves, run_report,
    run_result, ItemOutcome,
};
use crate::errors::FfiError;
use crate::expansion::{
    accessor_kinds, accessor_types, all_have_signatures, cast_function, cast_kind, cast_kinds,
    casts_between, generation_outcome, lemma_accessors_all_or_nothing, lemma_casts_all_or_nothing,
    lemma_overloads_all_or_nothing, lemma_synthesized_items, lemma_synthesized_step,
    lemma_trailing_defaults_bound, overload_kind, overload_kinds, synthesized, trailing_defaults,
};
use crate::laws::{lemma_run_paths_unique, lemma_run_preserves};
use crate::naming::{
    allocated_name, candidate_name, ffi_item_names, first_free, is_first_free,
    lemma_candidates_bounded, lemma_ffi_item_names_finite, lemma_first_free, provider_prefix,
};
use crate::processor::{ProcessingStep, ProcessingStepKind};
use crate::signature::{
    converted_arguments, ffi_function, ffi_signature, field_caption, follows_lifetime_convention,
    follows_return_convention, formal_arguments, function_caption, function_with, generated_path,
    has_this_pointer_shape, is_variadic, lemma_signature_shape, place_without_class,
    real_return_type, returned_class, signature_of, this_argument, this_type, well_shaped,
    FfiSignature,
};
use crate::text::{ascii_caption, decimal_string};
use vstd::hash_set::StringHashSet;
use vstd::prelude::*;

verus! {

/// Gives out names that are unique among all the names it has seen.
pub struct FfiNameProvider {
    names: StringHashSet,
    prefix: String,
}

impl FfiNameProvider {
    /// The names that are taken.
    pub closed spec fn names(&self) -> Set<Seq<char>> {
        self.names@
    }

    /// The prefix of every name that is given out.
    pub closed spec fn prefix(&self) -> Seq<char> {
        self.prefix@
    }

    /// The names that are taken are finitely many.
    pub closed spec fn wf(&self) -> bool {
        self.names@.finite()
    }

    /// A well-formed provider has taken finitely many names.
    pub proof fn lemma_names_finite(&self)
        requires
            self.wf(),
        ensures
            self.names().finite(),
    {
    }

    /// A provider for the crate of `data`, with the names of all its
    /// boundary items taken.
    pub fn new(data: &ProcessorData) -> (r: Self)
        requires
            ffi_paths_have_text(data@.current_database.ffi_items),
        ensures
            r.wf(),
            r.prefix() == provider_prefix(data@.crate_name),
            r.names() == ffi_item_names(data@.current_database.ffi_items),
    {
        let mut prefix = String::from_str("ctr_");
        prefix.append(data.crate_name.as_str());
        prefix.append("_ffi");
        let mut names = StringHashSet::new();
        let items = &data.current_database.ffi_items;
        let ghost all = data@.current_database.ffi_items;
        let mut i: usize = 0;
        while i < items.len()
            invariant
                i <= items.len(),
                all == ffi_items_view(items@),
                ffi_paths_have_text(all),
                names@ == ffi_item_names(all.subrange(0, i as int)),
            decreases items.len() - i,
        {
            proof {
                let next = all.subrange(0, i + 1);
                assert(next.drop_last() =~= all.subrange(0, i as int));
                assert(next.last() == all[i as int]);
                assert(all[i as int] == items@[i as int]@);
            }
            match items[i].path().to_cpp_code() {
                Ok(text) => {
                    names.insert(text);
                },
                Err(_) => {
                    assert(false);
                },
            }
            i = i + 1;
        }
        proof {
            assert(all.subrange(0, i as int) =~= all);
            lemma_ffi_item_names_finite(all);
        }
        FfiNameProvider { prefix, names }
    }

    /// A provider with an empty prefix and no name taken.
    pub fn testing() -> (r: Self)
        ensures
            r.wf(),
            r.prefix() == Seq::<char>::empty(),
            r.names() == Set::<Seq<char>>::empty(),
    {
        FfiNameProvider { names: StringHashSet::new(), prefix: String::new() }
    }

    fn candidate(&self, name: &str, n: u64) -> (r: String)
        ensures
            r@ == candidate_name(self.prefix(), name@, n as nat),
    {
        let mut out = self.prefix.clone();
        out.append("_");
        out.append(name);
        if n != 0 {
            let digits = decimal_string(n);
            out.append(digits.as_str());
        }
        assert(out@ =~= candidate_name(self.prefix(), name@, n as nat));
        out
    }

    /// Gives `name` a unique path of one segment: the prefix, an underscore
    /// and `name`, followed by the first of the numbers 1, 2, ... that makes
    /// it differ from every name taken, or by nothing where none is needed.
    /// The name is taken from then on.
    pub fn create_path(&mut self, name: &str) -> (r: CppPath)
        requires
            old(self).wf(),
        ensures
            final(self).wf(),
            final(self).prefix() == old(self).prefix(),
            final(self).names() == old(self).names().insert(
                allocated_name(old(self).names(), old(self).prefix(), name@),
            ),
            r@ == generated_path(allocated_name(old(self).names(), old(self).prefix(), name@)),
            !old(self).names().contains(
                allocated_name(old(self).names(), old(self).prefix(), name@),
            ),
            is_first_free(
                old(self).names(),
                old(self).prefix(),
                name@,
                first_free(old(self).names(), old(self).prefix(), name@),
            ),
    {
        let total = self.names.len();
        let mut n: u64 = 0;
        let mut full_name = self.candidate(name, 0);
        proof {
            lemma_candidates_bounded(self.names@, self.prefix@, name@, 0);
        }
        while self.names.contains(full_name.as_str())
            invariant
                self.names@.finite(),
                total == self.names@.len(),
                n <= total,
                full_name@ == candidate_name(self.prefix@, name@, n as nat),
                forall|m: nat|
                    m < n ==> self.names@.contains(
                        #[trigger] candidate_name(self.prefix@, name@, m),
                    ),
            decreases total - n,
        {
            proof {
                assert forall|m: nat| m < n + 1 implies self.names@.contains(
                    #[trigger] candidate_name(self.prefix@, name@, m),
                ) by {
                    if m == n {
                    }
                }
                lemma_candidates_bounded(self.names@, self.prefix@, name@, (n + 1) as nat);
            }
            n = n + 1;
            full_name = self.candidate(name, n);
        }
        proof {
            assert(is_first_free(self.names@, self.prefix@, name@, n as nat));
            lemma_first_free(self.names@, self.prefix@, name@);
        }
        let r = CppPath::from_name(CppName::from_one_part(full_name.as_str()));
        self.names.insert(full_name);
        r
    }
}

} // verus!

verus! {

/// Whether `path` is one of `list`.
pub fn contains_path(list: &[CppPath], path: &CppPath) -> (r: bool)
    ensures
        r == paths_view(list@).contains(path@),
{
    let mut i: usize = 0;
    while i < list.len()
        invariant
            i <= list.len(),
            forall|j: int| 0 <= j < i ==> paths_view(list@)[j] != path@,
        decreases list.len() - i,
    {
        if list[i].is_same(path) {
            assert(paths_view(list@)[i as int] == path@);
            return true;
        }
        i = i + 1;
    }
    false
}

fn this_type_of(kind: &CppFfiFunctionKind) -> (r: Option<CppType>)
    ensures
        match r {
            Some(t) => this_type(kind@) == Some(t@),
            None => this_type(kind@) is None,
        },
{
    match kind {
        CppFfiFunctionKind::Function { cpp_function, .. } => match &cpp_function.member {
            Some(info) => {
                if !info.is_static && !info.kind.is_constructor() {
                    let class_type = CppType::Class(info.class_type.clone());
                    Some(CppType::new_pointer(info.is_const, class_type))
                } else {
                    None
                }
            },
            None => None,
        },
        CppFfiFunctionKind::FieldAccessor { field, accessor_type } => {
            if field.is_static {
                None
            } else {
                let class_type = CppType::Class(field.class_type.clone());
                let is_const = match accessor_type {
                    CppFieldAccessorType::CopyGetter | CppFieldAccessorType::ConstRefGetter => true,
                    CppFieldAccessorType::MutRefGetter | CppFieldAccessorType::Setter => false,
                };
                Some(CppType::new_pointer(is_const, class_type))
            }
        },
    }
}

fn formal_arguments_of(kind: &CppFfiFunctionKind) -> (r: Vec<CppFunctionArgument>)
    ensures
        arguments_view(r@) == formal_arguments(kind@),
{
    match kind {
        CppFfiFunctionKind::Function { cpp_function, .. } => {
            let r = clone_arguments(&cpp_function.arguments, cpp_function.arguments.len());
            assert(arguments_view(cpp_function.arguments@).subrange(
                0,
                cpp_function.arguments.len() as int,
            ) =~= arguments_view(cpp_function.arguments@));
            r
        },
        CppFfiFunctionKind::FieldAccessor { field, accessor_type } => {
            let mut r: Vec<CppFunctionArgument> = Vec::new();
            match accessor_type {
                CppFieldAccessorType::Setter => {
                    r.push(
                        CppFunctionArgument {
                            name: String::from_str("value"),
                            argument_type: field.field_type.clone(),
                            has_default_value: false,
                        },
                    );
                },
                _ => {},
            }
            assert(arguments_view(r@) =~= formal_arguments(kind@));
            r
        },
    }
}

fn real_return_type_of(kind: &CppFfiFunctionKind) -> (r: CppType)
    ensures
        r@ == real_return_type(kind@),
{
    match kind {
        CppFfiFunctionKind::Function { cpp_function, .. } => match &cpp_function.member {
            Some(info) => {
                if info.kind.is_constructor() {
                    CppType::Class(info.class_type.clone())
                } else {
                    cpp_function.return_type.clone()
                }
            },
            None => cpp_function.return_type.clone(),
        },
        CppFfiFunctionKind::FieldAccessor { field, accessor_type } => match accessor_type {
            CppFieldAccessorType::CopyGetter => field.field_type.clone(),
            CppFieldAccessorType::ConstRefGetter => CppType::new_reference(
                true,
                field.field_type.clone(),
            ),
            CppFieldAccessorType::MutRefGetter => CppType::new_reference(
                false,
                field.field_type.clone(),
            ),
            CppFieldAccessorType::Setter => CppType::Void,
        },
    }
}

fn place_without_class_of(kind: &CppFfiFunctionKind, movable_types: &[CppPath]) -> (r:
    ReturnValueAllocationPlace)
    ensures
        r == place_without_class(kind@, paths_view(movable_types@)),
{
    match kind {
        CppFfiFunctionKind::Function { cpp_function, .. } => match &cpp_function.member {
            Some(info) => {
                if info.kind.is_destructor() {
                    if contains_path(movable_types, &info.class_type) {
                        ReturnValueAllocationPlace::Stack
                    } else {
                        ReturnValueAllocationPlace::Heap
                    }
                } else {
                    ReturnValueAllocationPlace::NotApplicable
                }
            },
            None => ReturnValueAllocationPlace::NotApplicable,
        },
        _ => ReturnValueAllocationPlace::NotApplicable,
    }
}

fn field_caption_of(field: &CppClassField) -> (r: String)
    ensures
        r@ == field_caption(field@),
{
    let mut out = field.class_type.ascii_caption();
    out.append("_");
    let name = ascii_caption(field.name.as_str());
    out.append(name.as_str());
    out
}

fn function_caption_of(kind: &CppFfiFunctionKind) -> (r: String)
    ensures
        r@ == function_caption(kind@),
{
    match kind {
        CppFfiFunctionKind::Function { cpp_function, .. } => cpp_function.path.ascii_caption(),
        CppFfiFunctionKind::FieldAccessor { field, accessor_type } => {
            let field_caption = field_caption_of(field);
            match accessor_type {
                CppFieldAccessorType::CopyGetter => field_caption,
                CppFieldAccessorType::ConstRefGetter => field_caption,
                CppFieldAccessorType::MutRefGetter => {
                    let mut out = field_caption;
                    out.append("_mut");
                    out
                },
                CppFieldAccessorType::Setter => {
                    let mut out = String::from_str("set_");
                    out.append(field_caption.as_str());
                    out
                },
            }
        },
    }
}

fn is_variadic_kind(kind: &CppFfiFunctionKind) -> (r: bool)
    ensures
        r == is_variadic(kind@),
{
    match kind {
        CppFfiFunctionKind::Function { cpp_function, .. } => cpp_function.allows_variadic_arguments,
        _ => false,
    }
}

/// An error among the first `n` arguments is the error of the whole list.
proof fn lemma_converted_arguments_error(args: Seq<CppFunctionArgumentView>, n: int)
    requires
        0 <= n <= args.len(),
        converted_arguments(args.subrange(0, n)) is Err,
    ensures
        converted_arguments(args) == converted_arguments(args.subrange(0, n)),
    decreases args.len() - n,
{
    if n < args.len() {
        let next = args.subrange(0, n + 1);
        assert(next.drop_last() =~= args.subrange(0, n));
        lemma_converted_arguments_error(args, n + 1);
    } else {
        assert(args.subrange(0, n) =~= args);
    }
}

/// Builds the boundary function of a callable:
/// - rejects a callable that takes a variable number of arguments;
/// - makes the object pointer an explicit first argument where there is one;
/// - converts the formal arguments and the return type to their boundary forms;
/// - returns a movable class through a last argument `output`;
/// - gives the function a unique name, which is taken only on success.
pub fn to_ffi_method(
    kind: CppFfiFunctionKind,
    movable_types: &[CppPath],
    name_provider: &mut FfiNameProvider,
) -> (r: Result<CppFfiFunction, FfiError>)
    requires
        old(name_provider).wf(),
    ensures
        final(name_provider).wf(),
        final(name_provider).prefix() == old(name_provider).prefix(),
        match r {
            Ok(f) => {
                let name = allocated_name(
                    old(name_provider).names(),
                    old(name_provider).prefix(),
                    function_caption(kind@),
                );
                &&& ffi_function(kind@, paths_view(movable_types@), generated_path(name)) == Ok::<
                    CppFfiFunctionView,
                    FfiError,
                >(f@)
                &&& final(name_provider).names() == old(name_provider).names().insert(name)
                &&& !old(name_provider).names().contains(name)
            },
            Err(e) => {
                &&& ffi_signature(kind@, paths_view(movable_types@)) == Err::<
                    crate::signature::FfiSignature,
                    FfiError,
                >(e)
                &&& final(name_provider).names() == old(name_provider).names()
            },
        },
        r matches Ok(f) ==> {
            &&& well_shaped(f@.arguments, f@.return_type)
            &&& has_this_pointer_shape(kind@, f@.arguments)
            &&& follows_return_convention(kind@, paths_view(movable_types@), signature_of(f@))
            &&& follows_lifetime_convention(kind@, paths_view(movable_types@), signature_of(f@))
        },
{
    let ghost movable = paths_view(movable_types@);
    proof {
        lemma_signature_shape(kind@, movable);
    }
    if is_variadic_kind(&kind) {
        return Err(FfiError::VariadicArguments);
    }
    let mut arguments: Vec<CppFfiFunctionArgument> = Vec::new();
    match this_type_of(&kind) {
        Some(this_arg_type) => {
            match this_arg_type.to_cpp_ffi_type(CppTypeRole::NotReturnType) {
                Ok(argument_type) => {
                    arguments.push(
                        CppFfiFunctionArgument {
                            name: String::from_str("this_ptr"),
                            argument_type,
                            meaning: CppFfiArgumentMeaning::This,
                        },
                    );
                },
                Err(e) => {
                    return Err(e);
                },
            }
        },
        None => {},
    }
    let ghost this = this_argument(kind@)->Ok_0;
    assert(this_argument(kind@) is Ok);
    assert(ffi_arguments_view(arguments@) =~= this);

    let normal_args = formal_arguments_of(&kind);
    let ghost formals = formal_arguments(kind@);
    let mut index: usize = 0;
    while index < normal_args.len()
        invariant
            index <= normal_args.len(),
            *name_provider == *old(name_provider),
            name_provider.wf(),
            !is_variadic(kind@),
            this_argument(kind@) == Ok::<Seq<CppFfiFunctionArgumentView>, FfiError>(this),
            formals == formal_arguments(kind@),
            formals == arguments_view(normal_args@),
            converted_arguments(formals.subrange(0, index as int)) is Ok,
            ffi_arguments_view(arguments@) == this + converted_arguments(
                formals.subrange(0, index as int),
            )->Ok_0,
        decreases normal_args.len() - index,
    {
        let arg = &normal_args[index];
        proof {
            let next = formals.subrange(0, index + 1);
            assert(next.drop_last() =~= formals.subrange(0, index as int));
            assert(next.last() == arg@);
        }
        match arg.argument_type.to_cpp_ffi_type(CppTypeRole::NotReturnType) {
            Ok(c_type) => {
                let ghost before = ffi_arguments_view(arguments@);
                let new_arg = CppFfiFunctionArgument {
                    name: arg.name.clone(),
                    argument_type: c_type,
                    meaning: CppFfiArgumentMeaning::Argument(index),
                };
                arguments.push(new_arg);
                assert(ffi_arguments_view(arguments@) =~= before.push(new_arg@));
                assert(ffi_arguments_view(arguments@) =~= this + converted_arguments(
                    formals.subrange(0, index + 1),
                )->Ok_0);
            },
            Err(e) => {
                proof {
                    lemma_converted_arguments_error(formals, index + 1);
                }
                return Err(e);
            },
        }
        index = index + 1;
    }
    assert(formals.subrange(0, index as int) =~= formals);

    let real_return_type = real_return_type_of(&kind);
    let real_return_type_ffi = match real_return_type.to_cpp_ffi_type(CppTypeRole::ReturnType) {
        Ok(t) => t,
        Err(e) => {
            return Err(e);
        },
    };
    let mut return_type = CppFfiType::void();
    let mut allocation_place = place_without_class_of(&kind, movable_types);
    let by_value = match &real_return_type {
        CppType::Class(path) => !is_qflags(path),
        _ => false,
    };
    if by_value {
        match &real_return_type {
            CppType::Class(path) => {
                assert(returned_class(kind@) == Some(path@));
                if contains_path(movable_types, path) {
                    let ghost before = ffi_arguments_view(arguments@);
                    let output = CppFfiFunctionArgument {
                        name: String::from_str("output"),
                        argument_type: real_return_type_ffi,
                        meaning: CppFfiArgumentMeaning::ReturnValue,
                    };
                    arguments.push(output);
                    assert(ffi_arguments_view(arguments@) =~= before.push(output@));
                    allocation_place = ReturnValueAllocationPlace::Stack;
                } else {
                    return_type = real_return_type_ffi;
                    allocation_place = ReturnValueAllocationPlace::Heap;
                }
            },
            _ => {
                assert(false);
            },
        }
    } else {
        assert(returned_class(kind@) is None);
        return_type = real_return_type_ffi;
    }
    let caption = function_caption_of(&kind);
    let path = name_provider.create_path(caption.as_str());
    Ok(CppFfiFunction { arguments, return_type, path, allocation_place, kind })
}

} // verus!

verus! {

/// Builds the boundary function of a cast from type `from` to type `to`.
/// No class is taken as movable: a cast works on pointers.
pub fn create_cast_method(
    cast: CppCast,
    from: &CppType,
    to: &CppType,
    name_provider: &mut FfiNameProvider,
) -> (r: Result<CppFfiItem, FfiError>)
    requires
        old(name_provider).wf(),
    ensures
        final(name_provider).wf(),
        final(name_provider).prefix() == old(name_provider).prefix(),
        match r {
            Ok(item) => {
                let kind = cast_kind(cast, from@, to@);
                let name = allocated_name(
                    old(name_provider).names(),
                    old(name_provider).prefix(),
                    function_caption(kind),
                );
                &&& ffi_signature(kind, Seq::empty()) is Ok
                &&& item@ == CppFfiItemView::Function(
                    function_with(
                        kind,
                        ffi_signature(kind, Seq::empty())->Ok_0,
                        generated_path(name),
                    ),
                )
                &&& final(name_provider).names() == old(name_provider).names().insert(name)
                &&& !old(name_provider).names().contains(name)
            },
            Err(e) => {
                &&& ffi_signature(cast_kind(cast, from@, to@), Seq::empty()) == Err::<
                    FfiSignature,
                    FfiError,
                >(e)
                &&& final(name_provider).names() == old(name_provider).names()
            },
        },
{
    let mut template_arguments: Vec<CppType> = Vec::new();
    template_arguments.push(to.clone());
    let mut arguments: Vec<CppFunctionArgument> = Vec::new();
    arguments.push(
        CppFunctionArgument {
            name: String::from_str("ptr"),
            argument_type: from.clone(),
            has_default_value: false,
        },
    );
    let method = CppFunction {
        path: CppPath {
            name: CppName::from_one_part(cast.cpp_method_name()),
            template_arguments: Some(template_arguments),
        },
        member: None,
        return_type: to.clone(),
        arguments,
        allows_variadic_arguments: false,
    };
    proof {
        lemma_types_view(template_arguments@);
        assert(types_view(template_arguments@) =~= seq![to@]);
        assert(method@.arguments =~= seq![
            CppFunctionArgumentView { name: "ptr"@, argument_type: from@, has_default_value: false },
        ]);
        assert(method@ == cast_function(cast, from@, to@));
    }
    let no_movable_types: Vec<CppPath> = Vec::new();
    assert(paths_view(no_movable_types@) =~= Seq::<CppPathView>::empty());
    let r = to_ffi_method(
        CppFfiFunctionKind::Function {
            cpp_function: method,
            omitted_arguments: None,
            cast: Some(cast),
        },
        no_movable_types.as_slice(),
        name_provider,
    );
    match r {
        Ok(f) => Ok(CppFfiItem::from_function(f)),
        Err(e) => Err(e),
    }
}

/// Builds the three casts between a class and one of its bases: the
/// unchecked static cast from base to derived, the static cast from derived
/// to base, and the dynamic cast from base to derived.
pub fn generate_casts_one(
    target_type: &CppPath,
    base_type: &CppPath,
    direct_base_index: usize,
    name_provider: &mut FfiNameProvider,
) -> (r: Result<Vec<CppFfiItem>, FfiError>)
    requires
        old(name_provider).wf(),
    ensures
        final(name_provider).wf(),
        final(name_provider).prefix() == old(name_provider).prefix(),
        generation_outcome(
            casts_between(target_type@, base_type@, direct_base_index),
            Seq::empty(),
            old(name_provider).prefix(),
            old(name_provider).names(),
            match r {
                Ok(items) => Ok(ffi_items_view(items@)),
                Err(e) => Err(e),
            },
            final(name_provider).names(),
        ),
        r matches Ok(items) ==> {
            &&& items.len() == 3
            &&& forall|j: int|
                0 <= j < 3 ==> (#[trigger] items[j])@ is Function && items[j]@->Function_0.kind
                    == casts_between(target_type@, base_type@, direct_base_index)[j]
        },
{
    let ghost kinds = casts_between(target_type@, base_type@, direct_base_index);
    let ghost prefix = name_provider.prefix();
    let ghost names = name_provider.names();
    let ghost none = Seq::<CppPathView>::empty();
    let target_ptr_type = CppType::new_pointer(false, CppType::Class(target_type.clone()));
    let base_ptr_type = CppType::new_pointer(false, CppType::Class(base_type.clone()));
    let mut new_methods: Vec<CppFfiItem> = Vec::new();
    let first = create_cast_method(
        CppCast::Static { is_unsafe: true, base_index: direct_base_index },
        &base_ptr_type,
        &target_ptr_type,
        name_provider,
    );
    match first {
        Ok(item) => {
            new_methods.push(item);
        },
        Err(e) => {
            return Err(e);
        },
    }
    proof {
        lemma_casts_all_or_nothing(target_type@, base_type@, direct_base_index, none);
        lemma_synthesized_step(kinds, none, prefix, names, 0);
        assert(kinds.subrange(0, 0) =~= Seq::<CppFfiFunctionKindView>::empty());
        assert(ffi_items_view(new_methods@) =~= synthesized(
            kinds.subrange(0, 1),
            none,
            prefix,
            names,
        ).0);
    }
    let second = create_cast_method(
        CppCast::Static { is_unsafe: false, base_index: direct_base_index },
        &target_ptr_type,
        &base_ptr_type,
        name_provider,
    );
    match second {
        Ok(item) => {
            new_methods.push(item);
        },
        Err(e) => {
            assert(ffi_signature(kinds[1], none) is Ok);
            assert(false);
            return Err(e);
        },
    }
    proof {
        lemma_synthesized_step(kinds, none, prefix, names, 1);
        assert(ffi_items_view(new_methods@) =~= synthesized(
            kinds.subrange(0, 2),
            none,
            prefix,
            names,
        ).0);
    }
    let third = create_cast_method(
        CppCast::Dynamic,
        &base_ptr_type,
        &target_ptr_type,
        name_provider,
    );
    match third {
        Ok(item) => {
            new_methods.push(item);
        },
        Err(e) => {
            assert(ffi_signature(kinds[2], none) is Ok);
            assert(false);
            return Err(e);
        },
    }
    proof {
        lemma_synthesized_step(kinds, none, prefix, names, 2);
        assert(kinds.subrange(0, 3) =~= kinds);
        assert(ffi_items_view(new_methods@) =~= synthesized(kinds, none, prefix, names).0);
        lemma_synthesized_items(kinds, none, prefix, names);
        assert forall|j: int| 0 <= j < 3 implies (#[trigger] new_methods[j])@ is Function
            && new_methods[j]@->Function_0.kind == kinds[j] by {
            assert(new_methods[j]@ == ffi_items_view(new_methods@)[j]);
            assert(ffi_items_view(new_methods@)[j] == synthesized(kinds, none, prefix, names).0[j]);
        }
    }
    Ok(new_methods)
}

/// Builds the casts of a base class relationship.
pub fn generate_casts(base: &CppBaseSpecifier, name_provider: &mut FfiNameProvider) -> (r: Result<
    Vec<CppFfiItem>,
    FfiError,
>)
    requires
        old(name_provider).wf(),
    ensures
        final(name_provider).wf(),
        final(name_provider).prefix() == old(name_provider).prefix(),
        generation_outcome(
            cast_kinds(base@),
            Seq::empty(),
            old(name_provider).prefix(),
            old(name_provider).names(),
            match r {
                Ok(items) => Ok(ffi_items_view(items@)),
                Err(e) => Err(e),
            },
            final(name_provider).names(),
        ),
        r matches Ok(items) ==> {
            &&& items.len() == 3
            &&& forall|j: int|
                0 <= j < 3 ==> (#[trigger] items[j])@ is Function && items[j]@->Function_0.kind
                    == cast_kinds(base@)[j]
        },
{
    generate_casts_one(
        &base.derived_class_type,
        &base.base_class_type,
        base.base_index,
        name_provider,
    )
}

} // verus!

verus! {

/// Builds the boundary functions of a function: one with all its formal
/// arguments and, for each trailing argument that has a default value, one
/// more that leaves out this argument and those behind it.
pub fn generate_ffi_methods_for_method(
    method: &CppFunction,
    movable_types: &[CppPath],
    name_provider: &mut FfiNameProvider,
) -> (r: Result<Vec<CppFfiItem>, FfiError>)
    requires
        old(name_provider).wf(),
    ensures
        final(name_provider).wf(),
        final(name_provider).prefix() == old(name_provider).prefix(),
        generation_outcome(
            overload_kinds(method@),
            paths_view(movable_types@),
            old(name_provider).prefix(),
            old(name_provider).names(),
            match r {
                Ok(items) => Ok(ffi_items_view(items@)),
                Err(e) => Err(e),
            },
            final(name_provider).names(),
        ),
        r matches Ok(items) ==> {
            &&& items.len() == trailing_defaults(method@.arguments) + 1
            &&& forall|i: int|
                0 <= i < items.len() ==> {
                    &&& (#[trigger] items[i])@ is Function
                    &&& items[i]@->Function_0.kind == overload_kind(method@, i as nat)
                    &&& items[i]@->Function_0.kind.omitted_count() == i
                }
            &&& forall|i: int, j: int|
                0 <= i < j < items.len() ==> (#[trigger] items[i])@->Function_0.arguments.len() > (
                #[trigger] items[j])@->Function_0.arguments.len()
        },
{
    let ghost kinds = overload_kinds(method@);
    let ghost movable = paths_view(movable_types@);
    let ghost prefix = name_provider.prefix();
    let ghost names = name_provider.names();
    let total = method.arguments.len();
    proof {
        lemma_trailing_defaults_bound(method@.arguments);
        assert(method@.arguments.subrange(0, total as int) =~= method@.arguments);
    }
    let mut methods: Vec<CppFfiItem> = Vec::new();
    let full = to_ffi_method(
        CppFfiFunctionKind::Function {
            cpp_function: method.clone(),
            omitted_arguments: None,
            cast: None,
        },
        movable_types,
        name_provider,
    );
    match full {
        Ok(f) => {
            methods.push(CppFfiItem::from_function(f));
        },
        Err(e) => {
            return Err(e);
        },
    }
    proof {
        lemma_overloads_all_or_nothing(method@, movable);
        lemma_synthesized_step(kinds, movable, prefix, names, 0);
        assert(kinds.subrange(0, 0) =~= Seq::<CppFfiFunctionKindView>::empty());
        assert(ffi_items_view(methods@) =~= synthesized(
            kinds.subrange(0, 1),
            movable,
            prefix,
            names,
        ).0);
    }
    let mut remaining = total;
    while remaining > 0 && method.arguments[remaining - 1].has_default_value
        invariant
            remaining <= total,
            total == method.arguments.len(),
            kinds == overload_kinds(method@),
            movable == paths_view(movable_types@),
            prefix == old(name_provider).prefix(),
            names == old(name_provider).names(),
            name_provider.wf(),
            name_provider.prefix() == prefix,
            all_have_signatures(kinds, movable),
            kinds.len() == trailing_defaults(method@.arguments) + 1,
            trailing_defaults(method@.arguments) == (total - remaining) + trailing_defaults(
                method@.arguments.subrange(0, remaining as int),
            ),
            (ffi_items_view(methods@), name_provider.names()) == synthesized(
                kinds.subrange(0, total - remaining + 1),
                movable,
                prefix,
                names,
            ),
        decreases remaining,
    {
        proof {
            let shorter = method@.arguments.subrange(0, remaining as int);
            assert(shorter.last() == method.arguments@[remaining - 1]@);
            assert(shorter.drop_last() =~= method@.arguments.subrange(0, remaining - 1));
        }
        remaining = remaining - 1;
        let omitted = total - remaining;
        let processed_method = to_ffi_method(
            CppFfiFunctionKind::Function {
                cpp_function: method.clone_with_arguments(remaining),
                omitted_arguments: Some(omitted),
                cast: None,
            },
            movable_types,
            name_provider,
        );
        proof {
            assert(kinds[omitted as int] == overload_kind(method@, omitted as nat));
            lemma_synthesized_step(kinds, movable, prefix, names, omitted as int);
        }
        match processed_method {
            Ok(f) => {
                let ghost before = ffi_items_view(methods@);
                let item = CppFfiItem::from_function(f);
                methods.push(item);
                assert(ffi_items_view(methods@) =~= before.push(item@));
            },
            Err(e) => {
                assert(ffi_signature(kinds[omitted as int], movable) is Ok);
                assert(false);
                return Err(e);
            },
        }
    }
    proof {
        let rest = method@.arguments.subrange(0, remaining as int);
        assert(trailing_defaults(rest) == 0) by {
            if remaining > 0 {
                assert(rest.last() == method.arguments@[remaining - 1]@);
            }
        }
        assert(kinds.subrange(0, total - remaining + 1) =~= kinds);
        lemma_synthesized_items(kinds, movable, prefix, names);
        lemma_overload_argument_counts(method@, movable);
        assert forall|i: int| 0 <= i < methods.len() implies {
            &&& (#[trigger] methods[i])@ is Function
            &&& methods[i]@->Function_0.kind == overload_kind(method@, i as nat)
            &&& methods[i]@->Function_0.kind.omitted_count() == i
            &&& methods[i]@->Function_0.arguments == ffi_signature(
                kinds[i],
                movable,
            )->Ok_0.arguments
        } by {
            assert(methods[i]@ == ffi_items_view(methods@)[i]);
            assert(ffi_items_view(methods@)[i] == synthesized(kinds, movable, prefix, names).0[i]);
            assert(kinds[i] == overload_kind(method@, i as nat));
        }
    }
    Ok(methods)
}

/// The overloads of a function have ever fewer arguments: each takes one
/// less than the one before it.
pub proof fn lemma_overload_argument_counts(function: CppFunctionView, movable: Seq<CppPathView>)
    requires
        all_have_signatures(overload_kinds(function), movable),
    ensures
        forall|i: int, j: int|
            0 <= i < j < overload_kinds(function).len() ==> (#[trigger] ffi_signature(
                overload_kinds(function)[i],
                movable,
            ))->Ok_0.arguments.len() > (#[trigger] ffi_signature(
                overload_kinds(function)[j],
                movable,
            ))->Ok_0.arguments.len(),
{
    let kinds = overload_kinds(function);
    lemma_trailing_defaults_bound(function.arguments);
    assert forall|i: int, j: int| 0 <= i < j < kinds.len() implies (#[trigger] ffi_signature(
        kinds[i],
        movable,
    ))->Ok_0.arguments.len() > (#[trigger] ffi_signature(kinds[j], movable))->Ok_0.arguments.len() by {
        let a = kinds[i];
        let b = kinds[j];
        assert(ffi_signature(a, movable) is Ok);
        assert(ffi_signature(b, movable) is Ok);
        crate::signature::lemma_converted_arguments(formal_arguments(a));
        crate::signature::lemma_converted_arguments(formal_arguments(b));
        assert(this_type(a) == this_type(b));
        assert(real_return_type(a) == real_return_type(b));
        assert(returned_class(a) == returned_class(b));
        assert(formal_arguments(a).len() == function.arguments.len() - i);
        assert(formal_arguments(b).len() == function.arguments.len() - j);
    }
}

/// Builds the accessors of a field. A field that is not public has none. A
/// field of class type has a const reference getter, a mutable reference
/// getter and a setter; a class may not be copyable, so it has no copy
/// getter. Any other field has a copy getter and a setter.
pub fn generate_field_accessors(
    field: &CppClassField,
    movable_types: &[CppPath],
    name_provider: &mut FfiNameProvider,
) -> (r: Result<Vec<CppFfiItem>, FfiError>)
    requires
        old(name_provider).wf(),
    ensures
        final(name_provider).wf(),
        final(name_provider).prefix() == old(name_provider).prefix(),
        generation_outcome(
            accessor_kinds(field@),
            paths_view(movable_types@),
            old(name_provider).prefix(),
            old(name_provider).names(),
            match r {
                Ok(items) => Ok(ffi_items_view(items@)),
                Err(e) => Err(e),
            },
            final(name_provider).names(),
        ),
        r matches Ok(items) ==> {
            &&& items.len() == (if field@.visibility != CppVisibility::Public {
                0int
            } else if field@.field_type is Class {
                3int
            } else {
                2int
            })
            &&& forall|i: int|
                0 <= i < items.len() ==> {
                    &&& (#[trigger] items[i])@ is Function
                    &&& items[i]@->Function_0.kind == CppFfiFunctionKindView::FieldAccessor {
                        accessor_type: accessor_types(field@)[i],
                        field: field@,
                    }
                }
        },
{
    let ghost kinds = accessor_kinds(field@);
    let ghost movable = paths_view(movable_types@);
    let ghost prefix = name_provider.prefix();
    let ghost names = name_provider.names();
    let mut accessors: Vec<CppFieldAccessorType> = Vec::new();
    if field.visibility == CppVisibility::Public {
        if field.field_type.is_class() {
            accessors.push(CppFieldAccessorType::ConstRefGetter);
            accessors.push(CppFieldAccessorType::MutRefGetter);
        } else {
            accessors.push(CppFieldAccessorType::CopyGetter);
        }
        accessors.push(CppFieldAccessorType::Setter);
    }
    assert(accessors@ =~= accessor_types(field@));
    let mut new_methods: Vec<CppFfiItem> = Vec::new();
    let mut i: usize = 0;
    proof {
        assert(kinds.subrange(0, 0) =~= Seq::<CppFfiFunctionKindView>::empty());
        assert(ffi_items_view(new_methods@) =~= Seq::<CppFfiItemView>::empty());
    }
    while i < accessors.len()
        invariant
            i <= accessors.len(),
            accessors@ == accessor_types(field@),
            kinds == accessor_kinds(field@),
            movable == paths_view(movable_types@),
            prefix == old(name_provider).prefix(),
            names == old(name_provider).names(),
            name_provider.wf(),
            name_provider.prefix() == prefix,
            i > 0 ==> all_have_signatures(kinds, movable),
            (ffi_items_view(new_methods@), name_provider.names()) == synthesized(
                kinds.subrange(0, i as int),
                movable,
                prefix,
                names,
            ),
        decreases accessors.len() - i,
    {
        let kind = CppFfiFunctionKind::FieldAccessor {
            field: field.clone(),
            accessor_type: accessors[i],
        };
        assert(kind@ == kinds[i as int]);
        let ffi_function = to_ffi_method(kind, movable_types, name_provider);
        proof {
            lemma_synthesized_step(kinds, movable, prefix, names, i as int);
        }
        match ffi_function {
            Ok(f) => {
                let ghost before = ffi_items_view(new_methods@);
                let item = CppFfiItem::from_function(f);
                new_methods.push(item);
                assert(ffi_items_view(new_methods@) =~= before.push(item@));
                proof {
                    if i == 0 {
                        lemma_accessors_all_or_nothing(field@, movable);
                    }
                }
            },
            Err(e) => {
                assert(i == 0);
                return Err(e);
            },
        }
        i = i + 1;
    }
    proof {
        assert(kinds.subrange(0, i as int) =~= kinds);
        assert(kinds.len() == 0 ==> all_have_signatures(kinds, movable));
        lemma_synthesized_items(kinds, movable, prefix, names);
        assert forall|j: int| 0 <= j < new_methods.len() implies {
            &&& (#[trigger] new_methods[j])@ is Function
            &&& new_methods[j]@->Function_0.kind == CppFfiFunctionKindView::FieldAccessor {
                accessor_type: accessor_types(field@)[j],
                field: field@,
            }
        } by {
            assert(new_methods[j]@ == ffi_items_view(new_methods@)[j]);
            assert(ffi_items_view(new_methods@)[j] == synthesized(
                kinds,
                movable,
                prefix,
                names,
            ).0[j]);
        }
    }
    Ok(new_methods)
}

} // verus!

verus! {

fn has_template_parameter_type_in(method: &CppFunction) -> (r: bool)
    ensures
        r == has_template_parameter_type(method@),
{
    if method.return_type.is_or_contains_template_parameter() {
        return true;
    }
    let mut i: usize = 0;
    while i < method.arguments.len()
        invariant
            i <= method.arguments.len(),
            forall|j: int|
                0 <= j < i ==> !contains_template_parameter(
                    (#[trigger] method@.arguments[j]).argument_type,
                ),
        decreases method.arguments.len() - i,
    {
        if method.arguments[i].argument_type.is_or_contains_template_parameter() {
            assert(contains_template_parameter(method@.arguments[i as int].argument_type));
            return true;
        }
        i = i + 1;
    }
    false
}

/// Whether boundary functions may be made for an item. A function is left
/// out where it belongs to the bit-flags class, is private, protected or a
/// signal, has template arguments in its path, or has an unresolved template
/// parameter in the type of an argument or in its return type. Every other
/// item passes.
pub fn should_process_item(item: &CppItemData) -> (r: bool)
    ensures
        r == is_eligible(item@),
        item@ matches CppItemDataView::Function(f) && (f.path.template_arguments is Some
            || has_template_parameter_type(f)) ==> !r,
{
    match item {
        CppItemData::Function(method) => {
            match &method.member {
                Some(membership) => {
                    if is_qflags(&membership.class_type) {
                        return false;
                    }
                    if membership.visibility == CppVisibility::Private {
                        return false;
                    }
                    if membership.visibility == CppVisibility::Protected {
                        return false;
                    }
                    if membership.is_signal {
                        return false;
                    }
                },
                None => {},
            }
            if method.path.template_arguments.is_some() {
                return false;
            }
            if has_template_parameter_type_in(method) {
                return false;
            }
            true
        },
        _ => true,
    }
}

/// The classes that are declared movable among the items.
pub fn movable_types_of(items: &Vec<CppDatabaseItem>) -> (r: Vec<CppPath>)
    ensures
        paths_view(r@) == movable_paths(database_items_view(items@)),
{
    let ghost all = database_items_view(items@);
    let mut out: Vec<CppPath> = Vec::new();
    let mut i: usize = 0;
    proof {
        assert(all.subrange(0, 0) =~= Seq::<CppDatabaseItemView>::empty());
        assert(paths_view(out@) =~= Seq::<CppPathView>::empty());
    }
    while i < items.len()
        invariant
            i <= items.len(),
            all == database_items_view(items@),
            paths_view(out@) == movable_paths(all.subrange(0, i as int)),
        decreases items.len() - i,
    {
        proof {
            let next = all.subrange(0, i + 1);
            assert(next.drop_last() =~= all.subrange(0, i as int));
            assert(next.last() == items@[i as int]@);
        }
        match &items[i].cpp_data {
            CppItemData::Type(type_data) => {
                match &type_data.kind {
                    CppTypeDataKind::Class { type_base } => {
                        if type_data.is_movable {
                            let ghost before = paths_view(out@);
                            let path = type_base.clone();
                            out.push(path);
                            assert(paths_view(out@) =~= before.push(type_base@));
                        }
                    },
                    _ => {},
                }
            },
            _ => {},
        }
        i = i + 1;
    }
    assert(all.subrange(0, i as int) =~= all);
    out
}

fn items_of(
    item: &CppItemData,
    movable_types: &[CppPath],
    name_provider: &mut FfiNameProvider,
) -> (r: Result<Vec<CppFfiItem>, FfiError>)
    requires
        old(name_provider).wf(),
    ensures
        final(name_provider).wf(),
        final(name_provider).prefix() == old(name_provider).prefix(),
        match r {
            Ok(items) => {
                &&& all_have_signatures(
                    item_kinds(item@),
                    item_movable(item@, paths_view(movable_types@)),
                )
                &&& (ffi_items_view(items@), final(name_provider).names()) == synthesized(
                    item_kinds(item@),
                    item_movable(item@, paths_view(movable_types@)),
                    old(name_provider).prefix(),
                    old(name_provider).names(),
                )
            },
            Err(e) => {
                &&& !all_have_signatures(
                    item_kinds(item@),
                    item_movable(item@, paths_view(movable_types@)),
                )
                &&& first_error(item_kinds(item@), item_movable(item@, paths_view(movable_types@)))
                    == e
                &&& final(name_provider).names() == old(name_provider).names()
            },
        },
{
    match item {
        CppItemData::Type(_) | CppItemData::EnumValue(_) | CppItemData::Namespace(_) => {
            let none: Vec<CppFfiItem> = Vec::new();
            assert(ffi_items_view(none@) =~= Seq::<CppFfiItemView>::empty());
            Ok(none)
        },
        CppItemData::Function(method) => generate_ffi_methods_for_method(
            method,
            movable_types,
            name_provider,
        ),
        CppItemData::ClassField(field) => generate_field_accessors(
            field,
            movable_types,
            name_provider,
        ),
        CppItemData::ClassBase(base) => generate_casts(base, name_provider),
    }
}

/// Every item that `synthesized` gives has a path with a C++ text.
proof fn lemma_synthesized_have_text(
    kinds: Seq<CppFfiFunctionKindView>,
    movable: Seq<CppPathView>,
    prefix: Seq<char>,
    names: Set<Seq<char>>,
)
    ensures
        ffi_paths_have_text(synthesized(kinds, movable, prefix, names).0),
{
    lemma_synthesized_items(kinds, movable, prefix, names);
    let made = synthesized(kinds, movable, prefix, names).0;
    assert forall|i: int| 0 <= i < made.len() implies path_cpp_code(
        (#[trigger] made[i]).path(),
    ) is Ok by {
        assert(made[i].path().template_arguments is None);
    }
}

/// Makes the boundary functions of every item that has none yet, and says
/// of each item what became of it. An item that is marked as processed is
/// passed over, and so is one that is not eligible. For any other item the
/// functions are built: those of all its overloads for a function, the
/// accessors for a field, the casts for a base, none for the rest. Where
/// that fails the item is left as it is, to be tried again by a later run;
/// otherwise the functions are appended to the boundary items and the item
/// is marked.
pub fn run_with_report(data: &mut ProcessorData) -> (r: Vec<ItemOutcome>)
    requires
        ffi_paths_have_text(old(data)@.current_database.ffi_items),
    ensures
        final(data)@ == run_result(old(data)@),
        run_preserves(old(data)@, final(data)@),
        appends_distinct_paths(old(data)@, final(data)@),
        ffi_paths_have_text(final(data)@.current_database.ffi_items),
        r@ == run_report(old(data)@),
{
    let movable_types = movable_types_of(&data.current_database.cpp_items);
    let mut name_provider = FfiNameProvider::new(data);
    let ghost start = data@;
    let ghost items = start.current_database.cpp_items;
    let ghost movable = movable_paths(items);
    let ghost prefix = provider_prefix(start.crate_name);
    let ghost names = ffi_item_names(start.current_database.ffi_items);
    let count = data.current_database.cpp_items.len();
    let mut report: Vec<ItemOutcome> = Vec::new();
    let mut i: usize = 0;
    proof {
        assert(items.subrange(0, 0) =~= Seq::<CppDatabaseItemView>::empty());
        assert(database_items_view(data.current_database.cpp_items@).subrange(0, 0)
            =~= Seq::<CppDatabaseItemView>::empty());
    }
    while i < count
        invariant
            i <= count,
            count == data.current_database.cpp_items.len(),
            count == items.len(),
            start == old(data)@,
            items == start.current_database.cpp_items,
            movable == movable_paths(items),
            movable == paths_view(movable_types@),
            prefix == provider_prefix(start.crate_name),
            names == ffi_item_names(start.current_database.ffi_items),
            data.crate_name@ == start.crate_name,
            name_provider.wf(),
            name_provider.prefix() == prefix,
            forall|j: int|
                i <= j < count ==> (#[trigger] data.current_database.cpp_items@[j])@ == items[j],
            database_items_view(data.current_database.cpp_items@).subrange(0, i as int) == pass(
                items.subrange(0, i as int),
                movable,
                prefix,
                start.current_database.ffi_items,
                names,
            ).cpp_items,
            ffi_items_view(data.current_database.ffi_items@) == pass(
                items.subrange(0, i as int),
                movable,
                prefix,
                start.current_database.ffi_items,
                names,
            ).ffi_items,
            name_provider.names() == pass(
                items.subrange(0, i as int),
                movable,
                prefix,
                start.current_database.ffi_items,
                names,
            ).names,
            ffi_paths_have_text(ffi_items_view(data.current_database.ffi_items@)),
            report.len() == i,
            forall|j: int| 0 <= j < i ==> #[trigger] report@[j] == item_outcome(items[j], movable),
        decreases count - i,
    {
        let ghost before = pass(
            items.subrange(0, i as int),
            movable,
            prefix,
            start.current_database.ffi_items,
            names,
        );
        let ghost marks_before = database_items_view(data.current_database.cpp_items@);
        let ghost ffi_before = ffi_items_view(data.current_database.ffi_items@);
        proof {
            let next = items.subrange(0, i + 1);
            assert(next.drop_last() =~= items.subrange(0, i as int));
            assert(next.last() == items[i as int]);
            assert(data.current_database.cpp_items@[i as int]@ == items[i as int]);
        }
        let item = &data.current_database.cpp_items[i];
        let mut produced: Option<Vec<CppFfiItem>> = None;
        if item.is_cpp_ffi_processed {
            report.push(ItemOutcome::AlreadyProcessed);
        } else if !should_process_item(&item.cpp_data) {
            report.push(ItemOutcome::Skipped);
        } else {
            match items_of(&item.cpp_data, movable_types.as_slice(), &mut name_provider) {
                Ok(made) => {
                    proof {
                        lemma_synthesized_items(
                            item_kinds(items[i as int].cpp_data),
                            item_movable(items[i as int].cpp_data, movable),
                            prefix,
                            before.names,
                        );
                    }
                    report.push(ItemOutcome::Processed { added: made.len() });
                    produced = Some(made);
                },
                Err(e) => {
                    report.push(ItemOutcome::Failed(e));
                },
            }
        }
        match produced {
            Some(made) => {
                let mut made = made;
                proof {
                    lemma_synthesized_have_text(
                        item_kinds(items[i as int].cpp_data),
                        item_movable(items[i as int].cpp_data, movable),
                        prefix,
                        before.names,
                    );
                }
                let ghost made_view = ffi_items_view(made@);
                data.current_database.ffi_items.append(&mut made);
                data.current_database.cpp_items[i].is_cpp_ffi_processed = true;
                proof {
                    assert(is_due(items[i as int], movable));
                    assert(ffi_items_view(data.current_database.ffi_items@) =~= ffi_before
                        + made_view);
                    assert(database_items_view(data.current_database.cpp_items@).subrange(
                        0,
                        i + 1,
                    ) =~= marks_before.subrange(0, i as int).push(
                        CppDatabaseItemView {
                            cpp_data: items[i as int].cpp_data,
                            is_cpp_ffi_processed: true,
                        },
                    ));
                }
            },
            None => {
                proof {
                    assert(!is_due(items[i as int], movable));
                    assert(database_items_view(data.current_database.cpp_items@).subrange(
                        0,
                        i + 1,
                    ) =~= marks_before.subrange(0, i as int).push(items[i as int]));
                }
            },
        }
        i = i + 1;
    }
    proof {
        assert(items.subrange(0, i as int) =~= items);
        assert(database_items_view(data.current_database.cpp_items@).subrange(0, i as int)
            =~= database_items_view(data.current_database.cpp_items@));
        assert(report@ =~= run_report(start));
        lemma_run_preserves(start);
        lemma_run_paths_unique(start);
    }
    report
}

/// Makes the boundary functions of every item that has none yet. A failure
/// for one item does not stop the run, so the run itself never fails.
pub fn run(data: &mut ProcessorData) -> (r: Result<(), FfiError>)
    requires
        ffi_paths_have_text(old(data)@.current_database.ffi_items),
    ensures
        r is Ok,
        final(data)@ == run_result(old(data)@),
        run_preserves(old(data)@, final(data)@),
        appends_distinct_paths(old(data)@, final(data)@),
        ffi_paths_have_text(final(data)@.current_database.ffi_items),
{
    let _ = run_with_report(data);
    Ok(())
}

} // verus!

verus! {

/// The step that makes the boundary functions.
pub fn cpp_ffi_generator_step() -> (r: ProcessingStep)
    ensures
        r.name@ == "cpp_ffi_generator"@,
        r.kind == ProcessingStepKind::CppFfiGenerator,
{
    ProcessingStep::new("cpp_ffi_generator", ProcessingStepKind::CppFfiGenerator)
}

} // verus!
