//! The closed set of shape identities the demo can display.

use vstd::prelude::*;

verus! {

/// Identity of a displayable model. The set is closed: the UI only ever
/// offers these four members.
#[derive(Clone, Copy, PartialEq, Eq, Structural, Debug)]
pub enum ShapeId {
    Cube,
    Pyramid,
    Sphere,
    Torus,
}

/// A shape is implemented when a geometry generator exists for it.
/// `Pyramid` is deliberately left without one: requesting it is fatal.
pub open spec fn implemented(shape: ShapeId) -> bool {
    match shape {
        ShapeId::Pyramid => false,
        _ => true,
    }
}

/// The dropdown label of a shape.
pub open spec fn label_of(shape: ShapeId) -> Seq<char> {
    match shape {
        ShapeId::Cube => "Cube"@,
        ShapeId::Pyramid => "Pyramid"@,
        ShapeId::Sphere => "Sphere"@,
        ShapeId::Torus => "Torus"@,
    }
}

/// Tessellation and size parameters handed to the geometry generators.
/// Lengths are in thousandths of a world unit.
#[derive(Clone, Copy, PartialEq, Eq, Structural, Debug)]
pub enum MeshParams {
    Cube { edge_milli: u64 },
    Sphere { radius_milli: u64, sectors: u64, stacks: u64 },
    Torus { radius_milli: u64, ring_milli: u64, segments: u64, sides: u64 },
}

/// The total mapping from an implemented shape to its generator parameters.
pub open spec fn mesh_params_of(shape: ShapeId) -> MeshParams {
    match shape {
        ShapeId::Sphere => MeshParams::Sphere { radius_milli: 1000, sectors: 50, stacks: 50 },
        ShapeId::Torus => MeshParams::Torus {
            radius_milli: 1000,
            ring_milli: 500,
            segments: 50,
            sides: 50,
        },
        _ => MeshParams::Cube { edge_milli: 1000 },
    }
}

impl ShapeId {
    pub fn is_implemented(&self) -> (r: bool)
        ensures
            r == implemented(*self),
    {
        match self {
            ShapeId::Pyramid => false,
            _ => true,
        }
    }

    /// The label shown for this shape in the model-selection dropdown.
    pub fn label(&self) -> (r: &'static str)
        ensures
            r@ == label_of(*self),
    {
        match self {
            ShapeId::Cube => "Cube",
            ShapeId::Pyramid => "Pyramid",
            ShapeId::Sphere => "Sphere",
            ShapeId::Torus => "Torus",
        }
    }

    /// The parameters for this shape's geometry generator.
    pub fn mesh_params(&self) -> (r: MeshParams)
        requires
            implemented(*self),
        ensures
            r == mesh_params_of(*self),
    {
        match self {
            ShapeId::Sphere => MeshParams::Sphere { radius_milli: 1000, sectors: 50, stacks: 50 },
            ShapeId::Torus => MeshParams::Torus {
                radius_milli: 1000,
                ring_milli: 500,
                segments: 50,
                sides: 50,
            },
            _ => MeshParams::Cube { edge_milli: 1000 },
        }
    }

    /// The four options offered by the dropdown, in display order.
    pub fn all_options() -> (r: Vec<ShapeId>)
        ensures
            r@ == seq![ShapeId::Cube, ShapeId::Pyramid, ShapeId::Sphere, ShapeId::Torus],
    {
        let mut v: Vec<ShapeId> = Vec::new();
        v.push(ShapeId::Cube);
        v.push(ShapeId::Pyramid);
        v.push(ShapeId::Sphere);
        v.push(ShapeId::Torus);
        proof {
            assert(v@ =~= seq![ShapeId::Cube, ShapeId::Pyramid, ShapeId::Sphere, ShapeId::Torus]);
        }
        v
    }
}

} // verus!
