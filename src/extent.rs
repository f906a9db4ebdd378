//! Image extents: the size of the intermediate target under a resolution
//! scale, and the number of compute work groups that cover a target.
use vstd::prelude::*;

verus! {

/// Width and height of an image, in pixels.
#[derive(Clone, Copy, Debug, PartialEq, Eq, Structural)]
pub struct Extent2D {
    pub width: u32,
    pub height: u32,
}

/// Side of the square tile that one compute work group shades.
pub const WORKGROUP_TILE: u32 = 16;

/// A positive rational factor `numerator / denominator` applied to the
/// surface's pixel dimensions to size the intermediate target.
#[derive(Clone, Copy, Debug)]
pub struct ResolutionScale {
    numerator: u32,
    denominator: u32,
}

impl ResolutionScale {
    #[verifier::type_invariant]
    spec fn positive(self) -> bool {
        self.numerator > 0 && self.denominator > 0
    }

    /// The numerator of the factor.
    pub closed spec fn num(self) -> nat {
        self.numerator as nat
    }

    /// The denominator of the factor.
    pub closed spec fn den(self) -> nat {
        self.denominator as nat
    }

    /// The factor `numerator / denominator`; `None` when either part is zero.
    pub fn new(numerator: u32, denominator: u32) -> (r: Option<ResolutionScale>)
        ensures
            (numerator > 0 && denominator > 0) <==> r is Some,
            r matches Some(s) ==> s.num() == numerator && s.den() == denominator,
    {
        if numerator > 0 && denominator > 0 {
            Some(ResolutionScale { numerator, denominator })
        } else {
            None
        }
    }

    /// The factor one: the target has the surface's size.
    pub fn identity() -> (r: ResolutionScale)
        ensures
            r.num() == 1 && r.den() == 1,
    {
        ResolutionScale { numerator: 1, denominator: 1 }
    }

    pub fn numerator(&self) -> (r: u32)
        ensures
            r == self.num(),
    {
        self.numerator
    }

    pub fn denominator(&self) -> (r: u32)
        ensures
            r == self.den(),
    {
        self.denominator
    }
}

/// Configuration of the renderer.
#[derive(Clone, Copy, Debug)]
pub struct RendererSettings {
    /// Factor from the surface's pixel size to the intermediate target's.
    pub resolution_scaling: ResolutionScale,
}

impl Default for RendererSettings {
    fn default() -> (r: RendererSettings)
        ensures
            r.resolution_scaling.num() == 1 && r.resolution_scaling.den() == 1,
    {
        RendererSettings { resolution_scaling: ResolutionScale::identity() }
    }
}

/// `len * num / den`, truncated toward zero, and held to the largest `u32`.
pub open spec fn scaled_length(len: u32, scale: ResolutionScale) -> int {
    let exact = (len as int * scale.num()) / (scale.den() as int);
    if exact > u32::MAX {
        u32::MAX as int
    } else {
        exact
    }
}

fn scale_length(len: u32, scale: ResolutionScale) -> (r: u32)
    ensures
        r == scaled_length(len, scale),
{
    proof {
        use_type_invariant(scale);
    }
    let num = scale.numerator as u64;
    let den = scale.denominator as u64;
    assert(len as u64 * num <= u32::MAX as u64 * u32::MAX as u64) by (nonlinear_arith)
        requires
            len <= u32::MAX,
            num <= u32::MAX,
    ;
    let product = len as u64 * num;
    let exact = product / den;
    if exact > u32::MAX as u64 {
        u32::MAX
    } else {
        exact as u32
    }
}

/// The intermediate target's extent for a surface of the given extent: each
/// side multiplied by the scale and truncated (not rounded).
pub fn scaled_extent(surface: Extent2D, scale: ResolutionScale) -> (r: Extent2D)
    ensures
        r.width == scaled_length(surface.width, scale),
        r.height == scaled_length(surface.height, scale),
{
    Extent2D { width: scale_length(surface.width, scale), height: scale_length(surface.height, scale) }
}

/// Number of tiles of side `WORKGROUP_TILE` that cover `len` pixels:
/// the quotient rounded up.
pub open spec fn groups_covering(len: u32) -> int {
    (len as int + WORKGROUP_TILE as int - 1) / (WORKGROUP_TILE as int)
}

/// Work-group counts of one compute dispatch.
#[derive(Clone, Copy, Debug, PartialEq, Eq, Structural)]
pub struct WorkGroups {
    pub x: u32,
    pub y: u32,
    pub z: u32,
}

/// The work groups that cover a target of the given extent in square tiles,
/// leaving no pixel out and no whole row or column of tiles beyond it.
pub fn dispatch_group_counts(target: Extent2D) -> (r: WorkGroups)
    ensures
        r.x == groups_covering(target.width),
        r.y == groups_covering(target.height),
        r.z == 1,
        r.x * WORKGROUP_TILE >= target.width,
        r.y * WORKGROUP_TILE >= target.height,
        r.x * WORKGROUP_TILE < target.width + WORKGROUP_TILE,
        r.y * WORKGROUP_TILE < target.height + WORKGROUP_TILE,
{
    WorkGroups { x: tiles_covering(target.width), y: tiles_covering(target.height), z: 1 }
}

fn tiles_covering(len: u32) -> (r: u32)
    ensures
        r == groups_covering(len),
        r * WORKGROUP_TILE >= len,
        r * WORKGROUP_TILE < len + WORKGROUP_TILE,
{
    let whole = len / WORKGROUP_TILE;
    if len % WORKGROUP_TILE == 0 {
        whole
    } else {
        whole + 1
    }
}

} // verus!
