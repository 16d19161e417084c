use vstd::prelude::*;

use crate::binary32::{Binary32, MAX_BITS};
use crate::geometry::Geometry;

verus! {

/// The scene: its surfaces in insertion order.
pub struct World {
    pub entities: Vec<Geometry>,
}

/// A hit parameter that the nearest-hit scan can take: present and below
/// the largest finite value, which the scan starts from.
pub open spec fn candidate(h: Option<Binary32>) -> bool {
    match h {
        Some(t) => t.spec_lt(Binary32 { bits: MAX_BITS }),
        None => false,
    }
}

/// Entity `i` holds the nearest hit: its parameter lies below those of all
/// earlier candidates and no later candidate lies below it, so that among
/// equal parameters the first entity wins.
pub open spec fn is_nearest(hits: Seq<Option<Binary32>>, i: int) -> bool {
    &&& 0 <= i < hits.len()
    &&& candidate(hits[i])
    &&& forall|j: int| 0 <= j < i && candidate(#[trigger] hits[j]) ==> hits[i]->0.spec_lt(hits[j]->0)
    &&& forall|j: int| i < j < hits.len() && candidate(#[trigger] hits[j]) ==> !hits[j]->0.spec_lt(hits[i]->0)
}

/// No entity was hit.
pub open spec fn no_candidate(hits: Seq<Option<Binary32>>) -> bool {
    forall|j: int| 0 <= j < hits.len() ==> !candidate(#[trigger] hits[j])
}

impl World {
    pub fn new() -> (r: World)
        ensures
            r.entities@ == Seq::<Geometry>::empty(),
    {
        World { entities: Vec::new() }
    }

    /// Appends a surface to the scene.
    pub fn add(&mut self, g: Geometry)
        ensures
            final(self).entities@ == old(self).entities@.push(g),
    {
        self.entities.push(g);
    }

    /// Nearest-hit query: given `hits[i]`, the parameter at which the ray
    /// meets entity `i` (if it does), returns the entity hit first, ties going
    /// to the earliest inserted.
    pub fn trace(&self, hits: &Vec<Option<Binary32>>) -> (r: Option<usize>)
        requires
            hits@.len() == self.entities@.len(),
        ensures
            r matches Some(i) ==> is_nearest(hits@, i as int),
            r is None <==> no_candidate(hits@),
    {
        let mut best = Binary32::max_finite();
        let mut best_idx: Option<usize> = None;
        let mut k: usize = 0;
        while k < hits.len()
            invariant
                k <= hits@.len(),
                !best.nan(),
                best_idx is None ==> best.bits == MAX_BITS,
                best_idx is None ==> forall|j: int| 0 <= j < k ==> !candidate(#[trigger] hits@[j]),
                best_idx matches Some(i) ==> {
                    &&& i < k
                    &&& hits@[i as int] == Some(best)
                    &&& candidate(hits@[i as int])
                    &&& forall|j: int| 0 <= j < i && candidate(#[trigger] hits@[j]) ==> best.spec_lt(hits@[j]->0)
                    &&& forall|j: int| i < j < k && candidate(#[trigger] hits@[j]) ==> !hits@[j]->0.spec_lt(best)
                },
            decreases hits@.len() - k,
        {
            if let Some(t) = hits[k] {
                if t.lt(&best) {
                    best = t;
                    best_idx = Some(k);
                }
            }
            k += 1;
        }
        best_idx
    }
}

/// Bit pattern of `0.8`: draws below it give a diffuse surface.
pub const DIFFUSE_BELOW_BITS: u32 = 0x3f4c_cccd;

/// Bit pattern of `0.95`: draws from `0.8` up to below it give a metal.
pub const METAL_BELOW_BITS: u32 = 0x3f73_3333;

/// The kind of material a generated scene cell gets.
#[derive(Clone, Copy, Debug, PartialEq, Eq, Structural)]
pub enum MaterialKind {
    Diffuse,
    Metal,
    Glass,
}

/// The plan of one generated scene cell.
#[derive(Clone, Copy, Debug, PartialEq, Eq, Structural)]
pub struct CellPlan {
    pub kind: MaterialKind,
    pub is_box: bool,
}

/// A generated cell holds a diffuse surface for a material draw below 0.8, a
/// metal below 0.95 and glass otherwise; it is a box when the shape draw lies
/// below the share of boxes, else a sphere.
pub open spec fn cell_plan(material_draw: Binary32, shape_draw: Binary32, box_share: Binary32) -> CellPlan {
    CellPlan {
        kind: if material_draw.spec_lt(Binary32 { bits: DIFFUSE_BELOW_BITS }) {
            MaterialKind::Diffuse
        } else if material_draw.spec_lt(Binary32 { bits: METAL_BELOW_BITS }) {
            MaterialKind::Metal
        } else {
            MaterialKind::Glass
        },
        is_box: shape_draw.spec_lt(box_share),
    }
}

/// Decides what one cell of a generated scene holds, from two uniform draws
/// and the share of boxes among the generated surfaces.
pub fn plan_cell(material_draw: Binary32, shape_draw: Binary32, box_share: Binary32) -> (r: CellPlan)
    ensures
        r == cell_plan(material_draw, shape_draw, box_share),
{
    let kind = if material_draw.lt(&Binary32::from_bits(DIFFUSE_BELOW_BITS)) {
        MaterialKind::Diffuse
    } else if material_draw.lt(&Binary32::from_bits(METAL_BELOW_BITS)) {
        MaterialKind::Metal
    } else {
        MaterialKind::Glass
    };
    CellPlan { kind, is_box: shape_draw.lt(&box_share) }
}

} // verus!
