//! Value names by slot: the map that names the values of one argument
//! (`<file> <name>`), kept in a `vec_map::VecMap`.

use vstd::prelude::*;
use vec_map::VecMap;
use crate::text::views;

verus! {

/// `vec_map::VecMap`, taken as it is: contracts speak of what it holds
/// through [`names_of`].
#[verifier::external_type_specification]
#[verifier::external_body]
#[verifier::reject_recursive_types(V)]
pub struct ExVecMap<V>(VecMap<V>);

/// What a map of value names holds: the name at each occupied slot.
pub uninterp spec fn names_of(m: VecMap<&str>) -> Map<usize, Seq<char>>;

/// The names of `m` at the slots below `n`, lowest slot first.
pub open spec fn values_below(m: Map<usize, Seq<char>>, n: nat) -> Seq<Seq<char>>
    decreases n,
{
    if n == 0 {
        Seq::empty()
    } else {
        let rest = values_below(m, (n - 1) as nat);
        if m.dom().contains((n - 1) as usize) {
            rest.push(m[(n - 1) as usize])
        } else {
            rest
        }
    }
}

/// All names of `m`, lowest slot first.
pub open spec fn ordered_values(m: Map<usize, Seq<char>>) -> Seq<Seq<char>> {
    values_below(m, usize::MAX as nat + 1)
}

/// `VecMap::len`: the number of elements in the map, which is the number of
/// values that a walk over it visits.
#[verifier::external_body]
pub(crate) fn count(m: &VecMap<&str>) -> (n: usize)
    ensures
        n == ordered_values(names_of(*m)).len(),
{
    m.len()
}

/// `VecMap::values`: the values in ascending order of their keys, here
/// gathered into a vector.
#[verifier::external_body]
pub(crate) fn values<'b>(m: &VecMap<&'b str>) -> (names: Vec<&'b str>)
    ensures
        views(names@) == ordered_values(names_of(*m)),
{
    m.values().copied().collect()
}

/// `Clone::clone` of `VecMap`: a map that holds what the first one holds.
#[verifier::external_body]
pub(crate) fn duplicate<'b>(m: &VecMap<&'b str>) -> (copy: VecMap<&'b str>)
    ensures
        names_of(copy) == names_of(*m),
{
    m.clone()
}

proof fn lemma_values_below_same(a: Map<usize, Seq<char>>, b: Map<usize, Seq<char>>, n: nat)
    requires
        n <= usize::MAX as nat + 1,
        forall|k: usize|
            #![trigger a.dom().contains(k)]
            #![trigger b.dom().contains(k)]
            k < n ==> (a.dom().contains(k) <==> b.dom().contains(k)) && (a.dom().contains(k)
                ==> a[k] == b[k]),
    ensures
        values_below(a, n) == values_below(b, n),
    decreases n,
{
    if n > 0 {
        lemma_values_below_same(a, b, (n - 1) as nat);
    }
}

proof fn lemma_values_below_past(m: Map<usize, Seq<char>>, from: nat, n: nat)
    requires
        from <= n <= usize::MAX as nat + 1,
        forall|k: usize| m.dom().contains(k) ==> (k as nat) < from,
    ensures
        values_below(m, n) == values_below(m, from),
    decreases n,
{
    if n > from {
        lemma_values_below_past(m, from, (n - 1) as nat);
    }
}

/// A map without slots has no values.
pub proof fn lemma_ordered_values_of_empty()
    ensures
        ordered_values(Map::<usize, Seq<char>>::empty()) == Seq::<Seq<char>>::empty(),
{
    lemma_values_below_past(Map::<usize, Seq<char>>::empty(), 0, usize::MAX as nat + 1);
}

/// Values come in the order of their slots: a name in a slot above all
/// others comes last.
pub proof fn lemma_ordered_values_of_highest(m: Map<usize, Seq<char>>, slot: usize, name: Seq<char>)
    requires
        forall|k: usize| m.dom().contains(k) ==> k < slot,
    ensures
        ordered_values(m.insert(slot, name)) == ordered_values(m).push(name),
{
    let top = usize::MAX as nat + 1;
    let grown = m.insert(slot, name);
    lemma_values_below_past(m, slot as nat, top);
    lemma_values_below_past(grown, slot as nat + 1, top);
    lemma_values_below_same(m, grown, slot as nat);
    assert(values_below(grown, slot as nat + 1) == values_below(grown, slot as nat).push(
        grown[slot],
    ));
}

} // verus!
