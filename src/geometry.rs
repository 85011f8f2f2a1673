use vstd::prelude::*;

verus! {

/// A coordinate axis.
#[derive(Clone, Copy, Debug, PartialEq, Eq, Structural)]
pub enum Axis {
    X,
    Y,
    Z,
}

impl Axis {
    /// The axis's position in a three-component vector.
    pub open spec fn spec_idx(self) -> usize {
        match self {
            Axis::X => 0,
            Axis::Y => 1,
            Axis::Z => 2,
        }
    }

    /// The axis's position in a three-component vector.
    pub fn idx(&self) -> (r: usize)
        ensures
            r == self.spec_idx(),
            r < 3,
    {
        match self {
            Axis::X => 0,
            Axis::Y => 1,
            Axis::Z => 2,
        }
    }

    /// The two components that a rotation about this axis turns, in
    /// increasing order: the two that are not the axis itself.
    pub fn rotation_plane(&self) -> (r: (usize, usize))
        ensures
            r.0 < r.1 < 3,
            r.0 != self.spec_idx(),
            r.1 != self.spec_idx(),
    {
        match self {
            Axis::X => (1, 2),
            Axis::Y => (0, 2),
            Axis::Z => (0, 1),
        }
    }
}

/// The coordinate plane an axis-aligned rectangle lies in.
#[derive(Clone, Copy, Debug, PartialEq, Eq, Structural)]
pub enum Plane {
    XY,
    YZ,
    XZ,
}

impl Plane {
    /// The component indices `(a, b, k)` of a rectangle in this plane: its
    /// bounds run along `a` and `b`, and it sits at a fixed coordinate on `k`,
    /// the axis its normal points along.
    pub open spec fn spec_axes(self) -> (usize, usize, usize) {
        match self {
            Plane::XY => (0, 1, 2),
            Plane::YZ => (1, 2, 0),
            Plane::XZ => (0, 2, 1),
        }
    }

    /// The component indices `(a, b, k)` of a rectangle in this plane.
    pub fn axes(&self) -> (r: (usize, usize, usize))
        ensures
            r == self.spec_axes(),
            r.0 < r.1 < 3,
            r.2 < 3,
            r.2 != r.0 && r.2 != r.1,
    {
        match self {
            Plane::XY => (0, 1, 2),
            Plane::YZ => (1, 2, 0),
            Plane::XZ => (0, 2, 1),
        }
    }
}

/// One face of an axis-aligned box: the plane it lies in, whether it sits at
/// the box's maximum (rather than minimum) coordinate on that plane's fixed
/// axis, and whether its normal is reversed to face outward.
#[derive(Clone, Copy, Debug, PartialEq, Eq, Structural)]
pub struct CuboidFace {
    pub plane: Plane,
    pub at_max: bool,
    pub flipped: bool,
}

/// The six faces of a box, in the order they are tested: for each of the
/// planes XY, XZ and YZ, first the face at the maximum coordinate, whose
/// normal already points outward, then the face at the minimum, flipped.
pub open spec fn spec_cuboid_faces() -> Seq<CuboidFace> {
    seq![
        CuboidFace { plane: Plane::XY, at_max: true, flipped: false },
        CuboidFace { plane: Plane::XY, at_max: false, flipped: true },
        CuboidFace { plane: Plane::XZ, at_max: true, flipped: false },
        CuboidFace { plane: Plane::XZ, at_max: false, flipped: true },
        CuboidFace { plane: Plane::YZ, at_max: true, flipped: false },
        CuboidFace { plane: Plane::YZ, at_max: false, flipped: true },
    ]
}

/// The six faces of a box.
pub fn cuboid_faces() -> (r: Vec<CuboidFace>)
    ensures
        r@ == spec_cuboid_faces(),
        r@.len() == 6,
        forall|i: int| 0 <= i < r@.len() ==> (#[trigger] r@[i]).flipped == !r@[i].at_max,
{
    let mut faces: Vec<CuboidFace> = Vec::new();
    faces.push(CuboidFace { plane: Plane::XY, at_max: true, flipped: false });
    faces.push(CuboidFace { plane: Plane::XY, at_max: false, flipped: true });
    faces.push(CuboidFace { plane: Plane::XZ, at_max: true, flipped: false });
    faces.push(CuboidFace { plane: Plane::XZ, at_max: false, flipped: true });
    faces.push(CuboidFace { plane: Plane::YZ, at_max: true, flipped: false });
    faces.push(CuboidFace { plane: Plane::YZ, at_max: false, flipped: true });
    assert(faces@ =~= spec_cuboid_faces());
    faces
}

} // verus!
