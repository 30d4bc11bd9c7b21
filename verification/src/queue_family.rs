use vstd::prelude::*;
use crate::errors::{SuitabilityError, SuitabilityReason};

verus! {

/// What the resolver reads of one queue family, in enumeration order:
/// whether its capability flags include the graphics bit, and whether
/// the per-family surface-support query against the active surface
/// came back true.
#[derive(Clone, Copy, Debug, PartialEq, Eq, Structural)]
pub struct QueueFamilyInfo {
    pub supports_graphics: bool,
    pub supports_presentation: bool,
}

/// The two resolved queue family indices a usable device needs. They
/// may alias the same index.
#[derive(Clone, Copy, Debug, PartialEq, Eq, Structural)]
pub struct QueueFamilyIndices {
    pub graphics: u32,
    pub presentation: u32,
}

/// Some family in the list supports graphics.
pub open spec fn some_graphics(families: Seq<QueueFamilyInfo>) -> bool {
    exists|i: int| 0 <= i < families.len() && families[i].supports_graphics
}

/// Some family in the list can present to the surface.
pub open spec fn some_presentation(families: Seq<QueueFamilyInfo>) -> bool {
    exists|i: int| 0 <= i < families.len() && families[i].supports_presentation
}

/// `i` is the first index, in enumeration order, whose family supports
/// graphics.
pub open spec fn first_graphics(families: Seq<QueueFamilyInfo>, i: int) -> bool {
    &&& 0 <= i < families.len()
    &&& families[i].supports_graphics
    &&& forall|j: int| 0 <= j < i ==> !families[j].supports_graphics
}

/// `i` is the first index, in enumeration order, whose family can
/// present to the surface.
pub open spec fn first_presentation(families: Seq<QueueFamilyInfo>, i: int) -> bool {
    &&& 0 <= i < families.len()
    &&& families[i].supports_presentation
    &&& forall|j: int| 0 <= j < i ==> !families[j].supports_presentation
}

/// First-match positions are well defined: two indices that are each
/// the first graphics-capable (or each the first presentation-capable)
/// family are the same index, so the resolver's answer is determined by
/// the family list alone.
pub proof fn lemma_first_match_unique(families: Seq<QueueFamilyInfo>, i: int, j: int)
    requires
        first_graphics(families, i) && first_graphics(families, j) || first_presentation(
            families,
            i,
        ) && first_presentation(families, j),
    ensures
        i == j,
{
}

/// Scan for the first family with the graphics bit; first match wins.
fn scan_graphics(families: &Vec<QueueFamilyInfo>) -> (r: Option<usize>)
    ensures
        match r {
            Some(i) => first_graphics(families@, i as int),
            None => !some_graphics(families@),
        },
{
    let mut i: usize = 0;
    while i < families.len()
        invariant
            i <= families@.len(),
            forall|j: int| 0 <= j < i ==> !families@[j].supports_graphics,
        decreases families@.len() - i,
    {
        if families[i].supports_graphics {
            return Some(i);
        }
        i += 1;
    }
    None
}

/// Scan for the first family that can present; first match wins,
/// independently of the graphics scan.
fn scan_presentation(families: &Vec<QueueFamilyInfo>) -> (r: Option<usize>)
    ensures
        match r {
            Some(i) => first_presentation(families@, i as int),
            None => !some_presentation(families@),
        },
{
    let mut i: usize = 0;
    while i < families.len()
        invariant
            i <= families@.len(),
            forall|j: int| 0 <= j < i ==> !families@[j].supports_presentation,
        decreases families@.len() - i,
    {
        if families[i].supports_presentation {
            return Some(i);
        }
        i += 1;
    }
    None
}

impl QueueFamilyIndices {
    /// The queue family resolver: two independent first-match scans over
    /// the family list in enumeration order, one for the graphics bit
    /// and one for presentation support. Succeeds exactly when both
    /// searches find a family (possibly the same one, possibly two
    /// different ones); fails with the missing-queue-families reason
    /// when either search comes up empty.
    pub fn get(families: &Vec<QueueFamilyInfo>) -> (r: Result<QueueFamilyIndices, SuitabilityError>)
        requires
            families@.len() <= u32::MAX,
        ensures
            r is Ok <==> some_graphics(families@) && some_presentation(families@),
            match r {
                Ok(ix) => first_graphics(families@, ix.graphics as int) && first_presentation(
                    families@,
                    ix.presentation as int,
                ),
                Err(e) => e.0 == SuitabilityReason::MissingQueueFamilies,
            },
    {
        let graphics = scan_graphics(families);
        let presentation = scan_presentation(families);
        match (graphics, presentation) {
            (Some(g), Some(p)) => Ok(QueueFamilyIndices { graphics: g as u32, presentation: p as u32 }),
            _ => Err(SuitabilityError(SuitabilityReason::MissingQueueFamilies)),
        }
    }
}

} // verus!
