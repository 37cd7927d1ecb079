//! Queue-family resolution.
//!
//! A device exposes a list of queue families; each family either has the
//! graphics capability flag or not, and either can present to the surface
//! under negotiation or not. The resolver scans the list once and records the
//! first graphics-capable index and, independently, the first present-capable
//! index. The two scans may pick different indices — sharing is not assumed.

use vstd::prelude::*;

use crate::devices::SuitabilityError;
use crate::devices::missing_queue_families_msg;

verus! {

/// What the capability queries report of one queue family, reduced to the two
/// facts the resolver reads.
#[derive(Clone, Copy, Debug)]
pub struct QueueFamilyProps {
    /// The family's queue flags include the graphics capability.
    pub graphics: bool,
    /// The family can present to the surface under negotiation.
    pub present: bool,
}

/// Resolved queue-family indices. Both refer to queue families of the one
/// physical device whose property list produced them.
#[derive(Clone, Copy, Debug, PartialEq, Eq, Structural)]
pub struct QueueFamilyIndices {
    /// Index of the first graphics-capable family.
    pub graphics: u32,
    /// Index of the first present-capable family; may equal `graphics`.
    pub present: u32,
}

/// Some family in the list is graphics-capable.
pub open spec fn has_graphics_family(families: Seq<QueueFamilyProps>) -> bool {
    exists|i: int| 0 <= i < families.len() && families[i].graphics
}

/// Some family in the list can present.
pub open spec fn has_present_family(families: Seq<QueueFamilyProps>) -> bool {
    exists|i: int| 0 <= i < families.len() && families[i].present
}

/// `g` is the first graphics-capable index of the list.
pub open spec fn is_first_graphics(families: Seq<QueueFamilyProps>, g: int) -> bool {
    &&& 0 <= g < families.len()
    &&& families[g].graphics
    &&& forall|j: int| 0 <= j < g ==> !families[j].graphics
}

/// `p` is the first present-capable index of the list.
pub open spec fn is_first_present(families: Seq<QueueFamilyProps>, p: int) -> bool {
    &&& 0 <= p < families.len()
    &&& families[p].present
    &&& forall|j: int| 0 <= j < p ==> !families[j].present
}

impl QueueFamilyIndices {
    /// These indices are exactly what one scan of `families` resolves to.
    pub open spec fn resolves(self, families: Seq<QueueFamilyProps>) -> bool {
        &&& is_first_graphics(families, self.graphics as int)
        &&& is_first_present(families, self.present as int)
    }

    /// Scans the family list once and returns the first graphics-capable and
    /// the first present-capable index, or fails when either is absent.
    pub fn get(families: &Vec<QueueFamilyProps>) -> (r: Result<QueueFamilyIndices, SuitabilityError>)
        requires
            families@.len() <= u32::MAX,
        ensures
            r is Ok <==> has_graphics_family(families@) && has_present_family(families@),
            r matches Ok(indices) ==> indices.resolves(families@),
            r matches Err(e) ==> e.0@ == missing_queue_families_msg(),
    {
        let mut graphics: Option<u32> = None;
        let mut present: Option<u32> = None;
        let mut i: usize = 0;
        while i < families.len()
            invariant
                i <= families@.len(),
                families@.len() <= u32::MAX,
                graphics matches Some(g) ==> is_first_graphics(families@, g as int),
                graphics is None ==> forall|j: int| 0 <= j < i ==> !families@[j].graphics,
                present matches Some(p) ==> is_first_present(families@, p as int),
                present is None ==> forall|j: int| 0 <= j < i ==> !families@[j].present,
            decreases families@.len() - i,
        {
            if graphics.is_none() && families[i].graphics {
                graphics = Some(i as u32);
            }
            if present.is_none() && families[i].present {
                present = Some(i as u32);
            }
            i = i + 1;
        }
        match (graphics, present) {
            (Some(g), Some(p)) => Ok(QueueFamilyIndices { graphics: g, present: p }),
            _ => Err(SuitabilityError("Missing required queue families.")),
        }
    }
}

} // verus!
