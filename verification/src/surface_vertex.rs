//! Voxels that either hold a single material or cross the surface of a
//! volume, with a quantized surface vertex and normal.
use vstd::prelude::*;

use vstd::std_specs::cmp::PartialEqSpec;
use vstd::arithmetic::power2::{lemma_pow2_pos, pow2};
use vstd::bits::lemma_u32_shr_is_div;

use crate::fixed::{Fraci8, Fracu8};

verus! {

/// A voxel: either the whole voxel is one material, or it crosses the
/// surface of the volume.
#[derive(Debug, Copy, Clone, PartialEq, Eq)]
pub enum T<Material> {
    /// The entire voxel is a single material.
    Volume(Material),
    /// The voxel crosses the surface of the volume.
    Surface(SurfaceStruct<Material>),
}

/// Every surface voxel keeps track of a single vertex, as well as the
/// material of its lowest-coordinate corner.
#[derive(Debug, Copy, Clone, PartialEq, Eq)]
pub struct SurfaceStruct<Material> {
    /// The position of a free-floating vertex on the surface.
    pub surface_vertex: Vertex,
    /// The surface normal at `surface_vertex`.
    pub normal: Normal,
    /// The material of the voxel's lowest corner.
    pub corner: Material,
}

/// A position inside a voxel, each coordinate a fraction of the voxel's size.
#[derive(Debug, Copy, Clone, PartialEq, Eq, Structural)]
pub struct Vertex {
    pub x: Fracu8,
    pub y: Fracu8,
    pub z: Fracu8,
}

/// A surface normal, each component a fraction in `[-1, 1)`.
#[derive(Debug, Copy, Clone, PartialEq, Eq, Structural)]
pub struct Normal {
    pub x: Fraci8,
    pub y: Fraci8,
    pub z: Fraci8,
}

/// Whether every material slot of the voxel is filled.
pub open spec fn is_filled<X>(voxel: T<Option<X>>) -> bool {
    match voxel {
        T::Volume(m) => m is Some,
        T::Surface(s) => s.corner is Some,
    }
}

/// The voxel with each material taken out of its `Option`.
pub open spec fn unwrapped<X>(voxel: T<Option<X>>) -> T<X> {
    match voxel {
        T::Volume(m) => T::Volume(m->0),
        T::Surface(s) => T::Surface(
            SurfaceStruct { surface_vertex: s.surface_vertex, normal: s.normal, corner: s.corner->0 },
        ),
    }
}

/// Takes every material of the voxel out of its `Option`; the variant, the
/// surface vertex and the normal are kept.
pub fn unwrap<X>(voxel: T<Option<X>>) -> (r: T<X>)
    requires
        is_filled(voxel),
    ensures
        r == unwrapped(voxel),
{
    match voxel {
        T::Volume(x) => T::Volume(x.unwrap()),
        T::Surface(x) => {
            T::Surface(
                SurfaceStruct {
                    surface_vertex: x.surface_vertex,
                    normal: x.normal,
                    corner: x.corner.unwrap(),
                },
            )
        },
    }
}


/// The material of the voxel's lowest corner: the voxel's own material for a
/// volume, the recorded corner material for a surface voxel.
pub open spec fn corner_material<M>(voxel: T<M>) -> M {
    match voxel {
        T::Volume(m) => m,
        T::Surface(s) => s.corner,
    }
}

/// The leaf voxel after a brush stroke. `sampled` is what the brush's field
/// gives for the leaf's bounds (`None` where the brush holds no material), and
/// `low_material` is the brush's material at the leaf's lowest corner.
pub open spec fn brushed<M>(leaf: T<M>, sampled: T<Option<M>>, low_material: Option<M>) -> T<M> {
    match sampled {
        T::Volume(None) => leaf,
        T::Volume(Some(m)) => T::Volume(m),
        T::Surface(s) => T::Surface(
            SurfaceStruct {
                surface_vertex: s.surface_vertex,
                normal: s.normal,
                corner: match low_material {
                    None => corner_material(leaf),
                    Some(m) => m,
                },
            },
        ),
    }
}

impl<M: Copy> T<M> {
    /// Applies a brush stroke to this leaf voxel: an empty sample leaves it
    /// as it is, a full volume sample replaces it, and a surface sample makes
    /// it a surface voxel whose corner material is the brush's material at the
    /// lowest corner, or the leaf's own corner material where the brush has
    /// none there.
    pub fn brush(&mut self, sampled: T<Option<M>>, low_material: Option<M>)
        ensures
            *final(self) == brushed(*old(self), sampled, low_material),
    {
        let corner = match self {
            T::Volume(material) => *material,
            T::Surface(voxel) => voxel.corner,
        };
        match sampled {
            T::Volume(None) => {},
            T::Volume(Some(material)) => {
                *self = T::Volume(material);
            },
            T::Surface(surface) => {
                let corner = match low_material {
                    None => corner,
                    Some(material) => material,
                };
                *self = T::Surface(
                    SurfaceStruct {
                        surface_vertex: surface.surface_vertex,
                        normal: surface.normal,
                        corner: corner,
                    },
                );
            },
        }
    }
}

/// What a stroke makes of a leaf, whatever the leaf was: an empty sample
/// keeps the leaf; a full sample of material `m` makes the leaf all `m`; a
/// surface sample makes a surface voxel with the sample's vertex and normal,
/// whose corner material is the brush's at the lowest corner where it has
/// one, else the leaf's volume material or recorded corner material.
pub proof fn lemma_brush_cases<M>(leaf: T<M>, sampled: T<Option<M>>, low_material: Option<M>)
    ensures
        sampled == T::<Option<M>>::Volume(None) ==> brushed(leaf, sampled, low_material) == leaf,
        forall|m: M|
            sampled == T::<Option<M>>::Volume(Some(m)) ==> brushed(leaf, sampled, low_material)
                == T::<M>::Volume(m),
        forall|s: SurfaceStruct<Option<M>>|
            sampled == T::<Option<M>>::Surface(s) ==> {
                let r = brushed(leaf, sampled, low_material);
                &&& r is Surface
                &&& r->Surface_0.surface_vertex == s.surface_vertex
                &&& r->Surface_0.normal == s.normal
                &&& forall|b: M| low_material == Some(b) ==> r->Surface_0.corner == b
                &&& low_material is None ==> forall|m: M|
                    leaf == T::<M>::Volume(m) ==> r->Surface_0.corner == m
                &&& low_material is None ==> forall|l: SurfaceStruct<M>|
                    leaf == T::<M>::Surface(l) ==> r->Surface_0.corner == l.corner
            },
{
}

/// Brushing a leaf twice with the same stroke gives what one stroke gives.
pub proof fn lemma_brush_idempotent<M>(leaf: T<M>, sampled: T<Option<M>>, low_material: Option<M>)
    ensures
        brushed(brushed(leaf, sampled, low_material), sampled, low_material) == brushed(
            leaf,
            sampled,
            low_material,
        ),
{
}

/// The corner material of a leaf after a surface stroke where the brush has
/// no material at the lowest corner is the leaf's corner material from before.
pub proof fn lemma_brush_keeps_corner<M>(leaf: T<M>, sampled: T<Option<M>>)
    requires
        sampled is Surface,
    ensures
        corner_material(brushed(leaf, sampled, None)) == corner_material(leaf),
{
}

/// Whether the voxel whose eight corners hold `corners` is one material
/// throughout. The corners are indexed by `4 * x + 2 * y + z`, with a
/// coordinate 0 at the voxel's low side and 1 at its high side; corner 0 is
/// the lowest one. Returns that material when every other corner compares
/// equal to corner 0, and `None` when the voxel crosses a surface.
pub fn homogeneous_corner<M: PartialEq + Copy>(corners: &[M; 8]) -> (r: Option<M>)
    ensures
        r is Some ==> r == Some(corners[0]),
        M::obeys_eq_spec() ==> (r is Some <==> forall|i: int|
            1 <= i < 8 ==> #[trigger] corners[i].eq_spec(&corners[0])),
{
    let corner = corners[0];
    let mut i: usize = 1;
    while i < 8
        invariant
            1 <= i <= 8,
            corner == corners[0],
            M::obeys_eq_spec() ==> forall|j: int| 1 <= j < i ==> #[trigger] corners[j].eq_spec(&corners[0]),
        decreases 8 - i,
    {
        if corners[i] != corner {
            return None;
        }
        i = i + 1;
    }
    Some(corner)
}

/// The numerator of the negated fraction: `-max(-127, n)`. Negation first
/// raises `-128` to `-127`, so that the result always fits.
pub open spec fn negated_numerator(n: i8) -> int {
    if n < -127 {
        127
    } else {
        -n
    }
}

/// The normal pointing the other way, component by component.
pub open spec fn negated(n: Normal) -> Normal {
    Normal {
        x: Fraci8 { numerator: negated_numerator(n.x.numerator) as i8 },
        y: Fraci8 { numerator: negated_numerator(n.y.numerator) as i8 },
        z: Fraci8 { numerator: negated_numerator(n.z.numerator) as i8 },
    }
}

/// Whether every component of the normal lies in `[-127, 127]`, the range
/// that quantized normals are kept in.
pub open spec fn in_unit_range(n: Normal) -> bool {
    &&& -127 <= n.x.numerator
    &&& -127 <= n.y.numerator
    &&& -127 <= n.z.numerator
}

fn neg_numerator(n: i8) -> (r: i8)
    ensures
        r == negated_numerator(n),
{
    if n < -127 {
        127
    } else {
        -n
    }
}

impl core::ops::Neg for Normal {
    type Output = Normal;

    fn neg(self) -> (r: Normal)
        ensures
            r == negated(self),
    {
        Normal {
            x: Fraci8::of(neg_numerator(self.x.numerator)),
            y: Fraci8::of(neg_numerator(self.y.numerator)),
            z: Fraci8::of(neg_numerator(self.z.numerator)),
        }
    }
}

impl vstd::std_specs::ops::NegSpecImpl for Normal {
    open spec fn obeys_neg_spec() -> bool {
        true
    }

    open spec fn neg_req(self) -> bool {
        true
    }

    open spec fn neg_spec(self) -> Normal {
        negated(self)
    }
}

/// A negated normal has every component in `[-127, 127]`.
pub proof fn lemma_negated_in_unit_range(n: Normal)
    ensures
        in_unit_range(negated(n)),
        negated(n).x.numerator <= 127,
        negated(n).y.numerator <= 127,
        negated(n).z.numerator <= 127,
{
}

/// Negating twice gives back a normal whose components lie in
/// `[-127, 127]`; a component of `-128` comes back as `-127`.
pub proof fn lemma_negated_twice(n: Normal)
    ensures
        in_unit_range(n) ==> negated(negated(n)) == n,
        negated(negated(n)).x.numerator == if n.x.numerator < -127 { -127 } else { n.x.numerator as int },
        negated(negated(n)).y.numerator == if n.y.numerator < -127 { -127 } else { n.y.numerator as int },
        negated(negated(n)).z.numerator == if n.z.numerator < -127 { -127 } else { n.z.numerator as int },
{
}

/// `v` clamped to `[-127, 127]`.
pub open spec fn clamp_unit(v: int) -> int {
    if v < -127 {
        -127
    } else if v > 127 {
        127
    } else {
        v
    }
}

fn clamp_component(v: i32) -> (r: i8)
    ensures
        r == clamp_unit(v as int),
{
    if v < -127 {
        -127
    } else if v > 127 {
        127
    } else {
        v as i8
    }
}

/// The quantized normal with each component clamped to `[-127, 127]`.
pub open spec fn scaled_normal(x: int, y: int, z: int) -> Normal {
    Normal {
        x: Fraci8 { numerator: clamp_unit(x) as i8 },
        y: Fraci8 { numerator: clamp_unit(y) as i8 },
        z: Fraci8 { numerator: clamp_unit(z) as i8 },
    }
}

impl Normal {
    /// The quantized normal of a unit normal whose components were scaled
    /// by 127 and truncated to integers: each component is clamped to
    /// `[-127, 127]`, with 127 standing for 1.
    pub fn of_scaled(x: i32, y: i32, z: i32) -> (r: Normal)
        ensures
            r == scaled_normal(x as int, y as int, z as int),
    {
        Normal {
            x: Fraci8::of(clamp_component(x)),
            y: Fraci8::of(clamp_component(y)),
            z: Fraci8::of(clamp_component(z)),
        }
    }
}

/// A normal built from scaled components is in the unit range, so negating
/// it twice gives it back.
pub proof fn lemma_scaled_negated_twice(x: int, y: int, z: int)
    ensures
        in_unit_range(scaled_normal(x, y, z)),
        negated(negated(scaled_normal(x, y, z))) == scaled_normal(x, y, z),
{
}

/// The coordinate kept in a vertex for a local coordinate, already scaled by
/// 256 and truncated, of a voxel of size `2^lg_size`: the coordinate's
/// fraction of the voxel in 256ths, the coordinate shifted right by
/// `lg_size`, truncated to a byte and clamped to `[0, 255]`.
pub open spec fn quantized(local: u32, lg_size: u32) -> u8 {
    (local >> lg_size) as u8
}

fn quantize_coordinate(local: u32, lg_size: u32) -> (r: u8)
    requires
        lg_size < 32,
    ensures
        r == quantized(local, lg_size),
{
    let b = (local >> lg_size) as u8;
    let lo: u8 = if b >= 0 { b } else { 0 };
    if lo <= 255 { lo } else { 255 }
}

impl Vertex {
    /// The integer stage of placing a world position in a voxel of size
    /// `2^lg_size`: `x`, `y`, `z` are the position relative to the voxel's
    /// low corner, scaled by 256 and truncated. Each coordinate of the vertex
    /// is the position's fraction of the voxel in 256ths.
    pub fn of_local_scaled(x: u32, y: u32, z: u32, lg_size: i16) -> (r: Vertex)
        requires
            0 <= lg_size < 32,
        ensures
            r.x.numerator == quantized(x, lg_size as u32),
            r.y.numerator == quantized(y, lg_size as u32),
            r.z.numerator == quantized(z, lg_size as u32),
    {
        let s = lg_size as u32;
        Vertex {
            x: Fracu8::of(quantize_coordinate(x, s)),
            y: Fracu8::of(quantize_coordinate(y, s)),
            z: Fracu8::of(quantize_coordinate(z, s)),
        }
    }
}

/// For a position inside the voxel, the kept coordinate is exactly the
/// position's fraction of the voxel in 256ths: `local / 2^lg_size`.
pub proof fn lemma_quantized_inside(local: u32, lg_size: u32)
    requires
        lg_size < 32,
        local < 256 * pow2(lg_size as nat),
    ensures
        quantized(local, lg_size) as int == local as int / pow2(lg_size as nat) as int,
        quantized(local, lg_size) as int * pow2(lg_size as nat) <= local,
{
    lemma_u32_shr_is_div(local, lg_size);
    lemma_pow2_pos(lg_size as nat);
    let p = pow2(lg_size as nat) as int;
    let q = local as int / p;
    assert(q < 256) by (nonlinear_arith)
        requires
            0 <= local < 256 * p,
            p > 0,
            q == local as int / p,
    {
    }
    assert(q * p <= local) by (nonlinear_arith)
        requires
            p > 0,
            q == local as int / p,
            local >= 0,
    {
    }
}

} // verus!
