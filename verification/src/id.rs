//! The identifier key space shared by all element kinds.

use vstd::prelude::*;

verus! {

use vstd::std_specs::cmp::PartialOrdSpec;

/// Identifier of an element.
///
/// Ids are unique only within one element kind: a node and a way may share a
/// numeric value without being related. Order and hashing follow the wrapped
/// integer; no range validation is performed.
#[derive(Debug, PartialEq, Eq, Structural, Clone, Copy, Hash, Ord)]
pub struct Id(pub i64);

impl PartialOrd for Id {
    fn partial_cmp(&self, other: &Self) -> (r: Option<core::cmp::Ordering>) {
        if self.0 < other.0 {
            Some(core::cmp::Ordering::Less)
        } else if self.0 == other.0 {
            Some(core::cmp::Ordering::Equal)
        } else {
            Some(core::cmp::Ordering::Greater)
        }
    }
}

impl vstd::std_specs::cmp::PartialOrdSpecImpl for Id {
    open spec fn obeys_partial_cmp_spec() -> bool {
        true
    }

    open spec fn partial_cmp_spec(&self, other: &Self) -> Option<core::cmp::Ordering> {
        if self.0 < other.0 {
            Some(core::cmp::Ordering::Less)
        } else if self.0 == other.0 {
            Some(core::cmp::Ordering::Equal)
        } else {
            Some(core::cmp::Ordering::Greater)
        }
    }
}

/// Identifier comparison is a total order consistent with the wrapped
/// integer: exactly one of less, equal, greater holds for each pair, the
/// order is antisymmetric and transitive, and it coincides with the order
/// of the wrapped values.
pub proof fn lemma_id_total_order(a: Id, b: Id, c: Id)
    ensures
        a.partial_cmp_spec(&b) is Some,
        a.partial_cmp_spec(&b) == Some(core::cmp::Ordering::Less) <==> a.0 < b.0,
        a.partial_cmp_spec(&b) == Some(core::cmp::Ordering::Equal) <==> a.0 == b.0,
        a.partial_cmp_spec(&b) == Some(core::cmp::Ordering::Greater) <==> a.0 > b.0,
        a.partial_cmp_spec(&b) == Some(core::cmp::Ordering::Less) <==> b.partial_cmp_spec(&a)
            == Some(core::cmp::Ordering::Greater),
        a.partial_cmp_spec(&b) == Some(core::cmp::Ordering::Less) && b.partial_cmp_spec(&c)
            == Some(core::cmp::Ordering::Less) ==> a.partial_cmp_spec(&c) == Some(
            core::cmp::Ordering::Less,
        ),
{
}

} // verus!
