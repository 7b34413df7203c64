use ahash::AHashSet;
use vstd::prelude::*;
use vstd::string::*;

verus! {

/// The hash set of the `ahash` crate.
#[verifier::external_type_specification]
#[verifier::external_body]
#[verifier::reject_recursive_types(T)]
#[verifier::reject_recursive_types(S)]
pub struct ExAHashSet<T, S>(ahash::AHashSet<T, S>);

/// The hasher with which `ahash` builds its sets.
#[verifier::external_type_specification]
#[verifier::external_body]
pub struct ExRandomState(ahash::RandomState);

/// The addresses that a set holds.
pub uninterp spec fn url_set(set: AHashSet<String>) -> Set<Seq<char>>;

/// A set that holds nothing (`AHashSet::new`).
#[verifier::external_body]
pub(crate) fn new_url_set() -> (r: AHashSet<String>)
    ensures
        url_set(r) == Set::<Seq<char>>::empty(),
{
    AHashSet::new()
}

/// Whether the set holds an address (`HashSet::contains`, which the set of
/// `ahash` hands on).
#[verifier::external_body]
pub(crate) fn url_set_contains(set: &AHashSet<String>, url: &str) -> (r: bool)
    ensures
        r == url_set(*set).contains(url@),
{
    set.contains(url)
}

/// Adds an address to the set (`HashSet::insert`) and says whether it was
/// new. The other addresses stay.
#[verifier::external_body]
pub(crate) fn url_set_insert(set: &mut AHashSet<String>, url: String) -> (r: bool)
    ensures
        url_set(*final(set)) == url_set(*old(set)).insert(url@),
        r == !url_set(*old(set)).contains(url@),
{
    set.insert(url)
}

} // verus!
