//! The order of frame priorities: CS0 lowest to CS6 highest, which is the
//! order of their wire codes.
use vstd::prelude::*;

use core::cmp::Ordering;
use vstd::std_specs::cmp::{PartialOrdSpec, PartialOrdSpecImpl};

use crate::frame::metadata::{priority_wire_code, FramePriority};

verus! {

/// How priority `p` compares with `q`: as their wire codes do.
pub open spec fn priority_order(p: FramePriority, q: FramePriority) -> Option<Ordering> {
    if priority_wire_code(p) < priority_wire_code(q) {
        Some(Ordering::Less)
    } else if priority_wire_code(p) == priority_wire_code(q) {
        Some(Ordering::Equal)
    } else {
        Some(Ordering::Greater)
    }
}

impl PartialOrd for FramePriority {
    fn partial_cmp(&self, other: &FramePriority) -> (r: Option<Ordering>) {
        let a = self.wire_code();
        let b = other.wire_code();
        if a < b {
            Some(Ordering::Less)
        } else if a == b {
            Some(Ordering::Equal)
        } else {
            Some(Ordering::Greater)
        }
    }
}

impl PartialOrdSpecImpl for FramePriority {
    open spec fn obeys_partial_cmp_spec() -> bool {
        true
    }

    open spec fn partial_cmp_spec(&self, other: &FramePriority) -> Option<Ordering> {
        priority_order(*self, *other)
    }
}

/// One priority ranks below another exactly when its wire code is smaller,
/// and two priorities rank equal exactly when they are the same; so the
/// order is total, with CS0 lowest and CS6 highest.
pub proof fn lemma_priority_order_is_wire_code_order(p: FramePriority, q: FramePriority)
    ensures
        (PartialOrdSpec::partial_cmp_spec(&p, &q) == Some(Ordering::Less)) <==> priority_wire_code(p) < priority_wire_code(q),
        (PartialOrdSpec::partial_cmp_spec(&p, &q) == Some(Ordering::Equal)) <==> p == q,
        (PartialOrdSpec::partial_cmp_spec(&p, &q) == Some(Ordering::Greater)) <==> priority_wire_code(q) < priority_wire_code(p),
        PartialOrdSpec::partial_cmp_spec(&p, &q) is Some,
{
}

} // verus!
