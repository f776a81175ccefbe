//! Trusted boundary around `indexmap::IndexSet<String>`, the insertion-ordered
//! set that holds user identifiers (presence entries and event target sets).
//!
//! The contents of a set are named by the uninterpreted function
//! [`iset_elems`]: the values in insertion order, each exactly once. Every
//! wrapper below states over that name what the crate's source shows of the
//! method it calls.

use vstd::prelude::*;
use indexmap::IndexSet;

verus! {

#[verifier::external_type_specification]
#[verifier::external_body]
#[verifier::reject_recursive_types(T)]
#[verifier::reject_recursive_types(S)]
pub struct ExIndexSet<T, S>(IndexSet<T, S>);

/// The values a set holds, in insertion order. A set never holds two equal
/// values, so the sequence has no duplicates; the wrappers state that fact
/// where it is needed.
pub uninterp spec fn iset_elems(s: IndexSet<String>) -> Seq<Seq<char>>;

/// Relies on IndexSet::new: the new set is empty.
#[verifier::external_body]
pub(crate) fn iset_new() -> (r: IndexSet<String>)
    ensures
        iset_elems(r) == Seq::<Seq<char>>::empty(),
{
    IndexSet::new()
}

/// Relies on IndexSet::insert: a value not yet present is appended at the
/// end and `true` comes back; an equivalent value already present is kept,
/// its position unchanged, and `false` comes back.
#[verifier::external_body]
pub(crate) fn iset_insert(s: &mut IndexSet<String>, v: String) -> (r: bool)
    ensures
        r == !iset_elems(*old(s)).contains(v@),
        iset_elems(*final(s)) == if r {
            iset_elems(*old(s)).push(v@)
        } else {
            iset_elems(*old(s))
        },
        iset_elems(*final(s)).no_duplicates(),
{
    s.insert(v)
}

/// Relies on IndexSet::contains: whether an equivalent value is in the set.
#[verifier::external_body]
pub(crate) fn iset_contains(s: &IndexSet<String>, v: &String) -> (r: bool)
    ensures
        r == iset_elems(*s).contains(v@),
{
    s.contains(v)
}

/// Relies on IndexSet::shift_remove: the value is removed and the values
/// after it shift down, keeping their order; `true` comes back exactly when
/// the value was present.
#[verifier::external_body]
pub(crate) fn iset_shift_remove(s: &mut IndexSet<String>, v: &String) -> (r: bool)
    ensures
        r == iset_elems(*old(s)).contains(v@),
        iset_elems(*final(s)) == iset_elems(*old(s)).remove_value(v@),
        iset_elems(*final(s)).no_duplicates(),
{
    s.shift_remove(v)
}

/// Relies on IndexSet::is_empty.
#[verifier::external_body]
pub(crate) fn iset_is_empty(s: &IndexSet<String>) -> (r: bool)
    ensures
        r == (iset_elems(*s).len() == 0),
{
    s.is_empty()
}

/// Relies on IndexSet::iter (and String::clone): the values in insertion
/// order, each exactly once.
#[verifier::external_body]
pub(crate) fn iset_to_vec(s: &IndexSet<String>) -> (r: Vec<String>)
    ensures
        r.deep_view() == iset_elems(*s),
        r.deep_view().no_duplicates(),
{
    s.iter().cloned().collect()
}

/// Relies on IndexSet::clone (and String::clone): an equal set of equal
/// values, in the same order.
#[verifier::external_body]
pub(crate) fn iset_clone(s: &IndexSet<String>) -> (r: IndexSet<String>)
    ensures
        iset_elems(r) == iset_elems(*s),
        iset_elems(r).no_duplicates(),
{
    s.clone()
}

} // verus!
