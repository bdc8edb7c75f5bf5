use vstd::prelude::*;

verus! {

/// A point or a displacement in space, with integer coordinates.
#[derive(Clone, Copy, Debug, PartialEq, Eq, Structural)]
pub struct IVec3 {
    pub x: i64,
    pub y: i64,
    pub z: i64,
}

/// The mathematical value of a point: its three coordinates.
pub type Coords = (int, int, int);

impl View for IVec3 {
    type V = Coords;

    open spec fn view(&self) -> Coords {
        (self.x as int, self.y as int, self.z as int)
    }
}

impl IVec3 {
    /// The point `(x, y, z)`.
    pub fn new(x: i64, y: i64, z: i64) -> (r: IVec3)
        ensures
            r@ == (x as int, y as int, z as int),
    {
        IVec3 { x, y, z }
    }
}

/// A size along each axis; sizes are never negative.
#[derive(Clone, Copy, Debug, PartialEq, Eq, Structural)]
pub struct Scale3 {
    pub x: u32,
    pub y: u32,
    pub z: u32,
}

impl Scale3 {
    /// The sizes `x`, `y` and `z` along the three axes.
    pub fn new(x: u32, y: u32, z: u32) -> (r: Scale3)
        ensures
            r == (Scale3 { x, y, z }),
    {
        Scale3 { x, y, z }
    }
}

/// The sum of two vectors.
pub open spec fn add3(a: Coords, b: Coords) -> Coords {
    (a.0 + b.0, a.1 + b.1, a.2 + b.2)
}

/// `a` multiplied by `k`.
pub open spec fn times3(k: int, a: Coords) -> Coords {
    (k * a.0, k * a.1, k * a.2)
}

/// `n` can be held in an `i64`.
pub open spec fn fits_i64(n: int) -> bool {
    i64::MIN <= n <= i64::MAX
}

/// Each coordinate of `a` can be held in an `i64`.
pub open spec fn fits3(a: Coords) -> bool {
    fits_i64(a.0) && fits_i64(a.1) && fits_i64(a.2)
}

/// One of the three coordinate axes.
#[derive(Clone, Copy, Debug, PartialEq, Eq, Structural)]
pub enum Axis {
    X,
    Y,
    Z,
}

/// Position of the axis among x, y, z.
pub open spec fn axis_index(a: Axis) -> int {
    match a {
        Axis::X => 0,
        Axis::Y => 1,
        Axis::Z => 2,
    }
}

/// The coordinate of `v` on axis `a`.
pub open spec fn coord(v: Coords, a: Axis) -> int {
    match a {
        Axis::X => v.0,
        Axis::Y => v.1,
        Axis::Z => v.2,
    }
}

/// `n`, negated where `negated` holds.
pub open spec fn signed(negated: bool, n: int) -> int {
    if negated {
        -n
    } else {
        n
    }
}

/// `v` turned by `k` quarter turns about the z axis, counterclockwise seen from +z.
pub open spec fn z_turned(v: Coords, k: int) -> Coords {
    if k == 0 {
        v
    } else if k == 1 {
        (-v.1, v.0, v.2)
    } else if k == 2 {
        (-v.0, -v.1, v.2)
    } else {
        (v.1, -v.0, v.2)
    }
}

/// `v` turned by `k` quarter turns about the y axis, counterclockwise seen from +y.
pub open spec fn y_turned(v: Coords, k: int) -> Coords {
    if k == 0 {
        v
    } else if k == 1 {
        (v.2, v.1, -v.0)
    } else if k == 2 {
        (-v.0, v.1, -v.2)
    } else {
        (-v.2, v.1, v.0)
    }
}

/// `v` turned by `k` quarter turns about the x axis, counterclockwise seen from +x.
pub open spec fn x_turned(v: Coords, k: int) -> Coords {
    if k == 0 {
        v
    } else if k == 1 {
        (v.0, -v.2, v.1)
    } else if k == 2 {
        (v.0, -v.1, -v.2)
    } else {
        (v.0, v.2, -v.1)
    }
}

/// A rotation that maps each axis onto an axis: one of the 24 turns of a cube.
/// Each coordinate of a rotated vector is one coordinate of the original, perhaps negated.
#[derive(Clone, Copy, Debug, PartialEq, Eq, Structural)]
pub struct Orientation {
    x_from: Axis,
    x_negated: bool,
    y_from: Axis,
    y_negated: bool,
    z_from: Axis,
    z_negated: bool,
}

impl Orientation {
    /// The axes are a permutation, and the permutation's parity agrees with the number of
    /// negated coordinates, so that the map keeps handedness: it is a rotation.
    #[verifier::type_invariant]
    pub closed spec fn is_rotation(&self) -> bool {
        let a = axis_index(self.x_from);
        let b = axis_index(self.y_from);
        let c = axis_index(self.z_from);
        let negations = (if self.x_negated { 1int } else { 0int }) + (if self.y_negated {
            1int
        } else {
            0int
        }) + (if self.z_negated { 1int } else { 0int });
        let even = (a, b, c) == (0int, 1int, 2int) || (a, b, c) == (1int, 2int, 0int) || (a, b, c)
            == (2int, 0int, 1int);
        let odd = (a, b, c) == (0int, 2int, 1int) || (a, b, c) == (2int, 1int, 0int) || (a, b, c)
            == (1int, 0int, 2int);
        (even && negations % 2 == 0) || (odd && negations % 2 == 1)
    }

    /// `v` rotated by this orientation.
    pub closed spec fn apply(&self, v: Coords) -> Coords {
        (
            signed(self.x_negated, coord(v, self.x_from)),
            signed(self.y_negated, coord(v, self.y_from)),
            signed(self.z_negated, coord(v, self.z_from)),
        )
    }

    /// The orientation that leaves every vector as it is.
    pub fn identity() -> (r: Orientation)
        ensures
            forall|v: Coords| #[trigger] r.apply(v) == v,
    {
        Orientation {
            x_from: Axis::X,
            x_negated: false,
            y_from: Axis::Y,
            y_negated: false,
            z_from: Axis::Z,
            z_negated: false,
        }
    }

    /// A rotation by `quarter_turns` times 90 degrees about the z axis.
    pub fn about_z(quarter_turns: u32) -> (r: Orientation)
        ensures
            forall|v: Coords| #[trigger] r.apply(v) == z_turned(v, (quarter_turns % 4) as int),
    {
        let k = quarter_turns % 4;
        if k == 0 {
            Orientation::identity()
        } else if k == 1 {
            Orientation {
                x_from: Axis::Y,
                x_negated: true,
                y_from: Axis::X,
                y_negated: false,
                z_from: Axis::Z,
                z_negated: false,
            }
        } else if k == 2 {
            Orientation {
                x_from: Axis::X,
                x_negated: true,
                y_from: Axis::Y,
                y_negated: true,
                z_from: Axis::Z,
                z_negated: false,
            }
        } else {
            Orientation {
                x_from: Axis::Y,
                x_negated: false,
                y_from: Axis::X,
                y_negated: true,
                z_from: Axis::Z,
                z_negated: false,
            }
        }
    }

    /// A rotation by `quarter_turns` times 90 degrees about the y axis.
    pub fn about_y(quarter_turns: u32) -> (r: Orientation)
        ensures
            forall|v: Coords| #[trigger] r.apply(v) == y_turned(v, (quarter_turns % 4) as int),
    {
        let k = quarter_turns % 4;
        if k == 0 {
            Orientation::identity()
        } else if k == 1 {
            Orientation {
                x_from: Axis::Z,
                x_negated: false,
                y_from: Axis::Y,
                y_negated: false,
                z_from: Axis::X,
                z_negated: true,
            }
        } else if k == 2 {
            Orientation {
                x_from: Axis::X,
                x_negated: true,
                y_from: Axis::Y,
                y_negated: false,
                z_from: Axis::Z,
                z_negated: true,
            }
        } else {
            Orientation {
                x_from: Axis::Z,
                x_negated: true,
                y_from: Axis::Y,
                y_negated: false,
                z_from: Axis::X,
                z_negated: false,
            }
        }
    }

    /// A rotation by `quarter_turns` times 90 degrees about the x axis.
    pub fn about_x(quarter_turns: u32) -> (r: Orientation)
        ensures
            forall|v: Coords| #[trigger] r.apply(v) == x_turned(v, (quarter_turns % 4) as int),
    {
        let k = quarter_turns % 4;
        if k == 0 {
            Orientation::identity()
        } else if k == 1 {
            Orientation {
                x_from: Axis::X,
                x_negated: false,
                y_from: Axis::Z,
                y_negated: true,
                z_from: Axis::Y,
                z_negated: false,
            }
        } else if k == 2 {
            Orientation {
                x_from: Axis::X,
                x_negated: false,
                y_from: Axis::Y,
                y_negated: true,
                z_from: Axis::Z,
                z_negated: true,
            }
        } else {
            Orientation {
                x_from: Axis::X,
                x_negated: false,
                y_from: Axis::Z,
                y_negated: false,
                z_from: Axis::Y,
                z_negated: true,
            }
        }
    }

    /// Picks the coordinate of `(x, y, z)` on `axis`, negated or not.
    fn pick(axis: Axis, negated: bool, x: i128, y: i128, z: i128) -> (r: i128)
        requires
            -i128::MAX <= x <= i128::MAX,
            -i128::MAX <= y <= i128::MAX,
            -i128::MAX <= z <= i128::MAX,
        ensures
            r == signed(negated, coord((x as int, y as int, z as int), axis)),
    {
        let n = match axis {
            Axis::X => x,
            Axis::Y => y,
            Axis::Z => z,
        };
        if negated {
            -n
        } else {
            n
        }
    }

    /// Rotates `(x, y, z)`, in wide integers so that no negation overflows.
    pub fn rotate_wide(&self, x: i128, y: i128, z: i128) -> (r: (i128, i128, i128))
        requires
            -i128::MAX <= x <= i128::MAX,
            -i128::MAX <= y <= i128::MAX,
            -i128::MAX <= z <= i128::MAX,
        ensures
            (r.0 as int, r.1 as int, r.2 as int) == self.apply((x as int, y as int, z as int)),
            r.0 == x || r.0 == -x || r.0 == y || r.0 == -y || r.0 == z || r.0 == -z,
            r.1 == x || r.1 == -x || r.1 == y || r.1 == -y || r.1 == z || r.1 == -z,
            r.2 == x || r.2 == -x || r.2 == y || r.2 == -y || r.2 == z || r.2 == -z,
    {
        (
            Orientation::pick(self.x_from, self.x_negated, x, y, z),
            Orientation::pick(self.y_from, self.y_negated, x, y, z),
            Orientation::pick(self.z_from, self.z_negated, x, y, z),
        )
    }
}

} // verus!
