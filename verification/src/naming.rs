//! The scheme by which unique names are given to boundary functions.

use crate::text::{decimal, lemma_decimal_injective, lemma_decimal_value};
use vstd::prelude::*;

verus! {

/// The suffix that tells the `n`-th candidate for a name from the others:
/// nothing for the first, the number in decimal for the rest.
pub open spec fn candidate_suffix(n: nat) -> Seq<char> {
    if n == 0 {
        Seq::empty()
    } else {
        decimal(n)
    }
}

/// The `n`-th candidate for the name of `base`: the prefix, an underscore,
/// the base name and the suffix.
pub open spec fn candidate_name(prefix: Seq<char>, base: Seq<char>, n: nat) -> Seq<char> {
    prefix + "_"@ + base + candidate_suffix(n)
}

/// Whether `n` is the first number whose candidate is not in `names`.
pub open spec fn is_first_free(names: Set<Seq<char>>, prefix: Seq<char>, base: Seq<char>, n: nat) -> bool {
    &&& !names.contains(candidate_name(prefix, base, n))
    &&& forall|m: nat| m < n ==> names.contains(#[trigger] candidate_name(prefix, base, m))
}

/// The first number whose candidate is not in `names`.
pub open spec fn first_free(names: Set<Seq<char>>, prefix: Seq<char>, base: Seq<char>) -> nat {
    choose|n: nat| is_first_free(names, prefix, base, n)
}

/// The name that is given to `base` when `names` are taken.
pub open spec fn allocated_name(names: Set<Seq<char>>, prefix: Seq<char>, base: Seq<char>) -> Seq<
    char,
> {
    candidate_name(prefix, base, first_free(names, prefix, base))
}

/// The first `n` candidates for the name of `base`.
pub open spec fn candidates(prefix: Seq<char>, base: Seq<char>, n: nat) -> Set<Seq<char>>
    decreases n,
{
    if n == 0 {
        Set::empty()
    } else {
        candidates(prefix, base, (n - 1) as nat).insert(
            candidate_name(prefix, base, (n - 1) as nat),
        )
    }
}

/// Different numbers give different candidates.
pub proof fn lemma_candidate_injective(prefix: Seq<char>, base: Seq<char>, a: nat, b: nat)
    requires
        candidate_name(prefix, base, a) == candidate_name(prefix, base, b),
    ensures
        a == b,
{
    let head = prefix + "_"@ + base;
    let ca = candidate_name(prefix, base, a);
    let cb = candidate_name(prefix, base, b);
    assert(ca.subrange(head.len() as int, ca.len() as int) =~= candidate_suffix(a));
    assert(cb.subrange(head.len() as int, cb.len() as int) =~= candidate_suffix(b));
    assert(candidate_suffix(a) == candidate_suffix(b));
    if a != 0 {
        lemma_decimal_value(a);
    }
    if b != 0 {
        lemma_decimal_value(b);
    }
    if a != 0 && b != 0 {
        lemma_decimal_injective(a, b);
    }
}

/// The set of the first `n` candidates is finite, has `n` elements and holds
/// exactly the candidates of the numbers below `n`.
pub proof fn lemma_candidates(prefix: Seq<char>, base: Seq<char>, n: nat)
    ensures
        candidates(prefix, base, n).finite(),
        candidates(prefix, base, n).len() == n,
        forall|m: nat| m < n ==> candidates(prefix, base, n).contains(#[trigger] candidate_name(prefix, base, m)),
        forall|s: Seq<char>| #[trigger]
            candidates(prefix, base, n).contains(s) ==> exists|m: nat|
                m < n && s == candidate_name(prefix, base, m),
    decreases n,
{
    if n > 0 {
        let k = (n - 1) as nat;
        lemma_candidates(prefix, base, k);
        let before = candidates(prefix, base, k);
        let c = candidate_name(prefix, base, k);
        if before.contains(c) {
            let m = choose|m: nat| m < k && c == candidate_name(prefix, base, m);
            lemma_candidate_injective(prefix, base, k, m);
        }
        assert forall|s: Seq<char>| #[trigger]
            candidates(prefix, base, n).contains(s) implies exists|m: nat|
            m < n && s == candidate_name(prefix, base, m) by {
            if s == c {
                assert(k < n && s == candidate_name(prefix, base, k));
            } else {
                assert(before.contains(s));
                let m = choose|m: nat| m < k && s == candidate_name(prefix, base, m);
                assert(m < n && s == candidate_name(prefix, base, m));
            }
        }
    }
}

/// Where the first `n` candidates are all taken, at least `n` names are taken.
pub proof fn lemma_candidates_bounded(
    names: Set<Seq<char>>,
    prefix: Seq<char>,
    base: Seq<char>,
    n: nat,
)
    requires
        names.finite(),
        forall|m: nat| m < n ==> names.contains(#[trigger] candidate_name(prefix, base, m)),
    ensures
        n <= names.len(),
{
    lemma_candidates(prefix, base, n);
    let c = candidates(prefix, base, n);
    assert forall|s: Seq<char>| c.contains(s) implies names.contains(s) by {
        let m = choose|m: nat| m < n && s == candidate_name(prefix, base, m);
        assert(names.contains(candidate_name(prefix, base, m)));
    }
    assert(c.subset_of(names));
    vstd::set_lib::lemma_len_subset(c, names);
}

proof fn lemma_search_first_free(names: Set<Seq<char>>, prefix: Seq<char>, base: Seq<char>, n: nat)
    requires
        names.finite(),
        forall|m: nat| m < n ==> names.contains(#[trigger] candidate_name(prefix, base, m)),
    ensures
        exists|k: nat| is_first_free(names, prefix, base, k),
    decreases names.len() - n,
{
    lemma_candidates_bounded(names, prefix, base, n);
    if names.contains(candidate_name(prefix, base, n)) {
        assert forall|m: nat| m < n + 1 implies names.contains(
            #[trigger] candidate_name(prefix, base, m),
        ) by {
            if m == n {
            }
        }
        lemma_candidates_bounded(names, prefix, base, n + 1);
        lemma_search_first_free(names, prefix, base, n + 1);
    } else {
        assert(is_first_free(names, prefix, base, n));
    }
}

/// Among finitely many names a free candidate exists, and the first free
/// number is the only one that `is_first_free` holds of.
pub proof fn lemma_first_free(names: Set<Seq<char>>, prefix: Seq<char>, base: Seq<char>)
    requires
        names.finite(),
    ensures
        is_first_free(names, prefix, base, first_free(names, prefix, base)),
        !names.contains(allocated_name(names, prefix, base)),
        forall|n: nat| is_first_free(names, prefix, base, n) ==> n == first_free(names, prefix, base),
{
    lemma_search_first_free(names, prefix, base, 0);
    let f = first_free(names, prefix, base);
    assert forall|n: nat| is_first_free(names, prefix, base, n) implies n == f by {
        if n < f {
            assert(names.contains(candidate_name(prefix, base, n)));
        } else if f < n {
            assert(names.contains(candidate_name(prefix, base, f)));
        }
    }
}

} // verus!

verus! {

/// The names that a set of boundary items takes: the C++ texts of their
/// paths.
pub open spec fn ffi_item_names(items: Seq<crate::cpp_ffi_data::CppFfiItemView>) -> Set<Seq<char>>
    decreases items.len(),
{
    if items.len() == 0 {
        Set::empty()
    } else {
        match crate::cpp_code::path_cpp_code(items.last().path()) {
            Ok(text) => ffi_item_names(items.drop_last()).insert(text),
            Err(_) => ffi_item_names(items.drop_last()),
        }
    }
}

/// The names of finitely many items are finitely many.
pub proof fn lemma_ffi_item_names_finite(items: Seq<crate::cpp_ffi_data::CppFfiItemView>)
    ensures
        ffi_item_names(items).finite(),
    decreases items.len(),
{
    if items.len() > 0 {
        lemma_ffi_item_names_finite(items.drop_last());
    }
}

/// The prefix of the names that are generated for a crate.
pub open spec fn provider_prefix(crate_name: Seq<char>) -> Seq<char> {
    "ctr_"@ + crate_name + "_ffi"@
}

} // verus!
