use vstd::prelude::*;

verus! {

/// A bullet in flight.
#[derive(Clone, Copy, PartialEq, Eq, Structural, Debug)]
pub struct Bullet {
    pub x: i32,
    pub y: i32,
}

/// A station where a tank refuels (oil) or reloads (bullets).
#[derive(Clone, Copy, PartialEq, Eq, Structural, Debug, Default)]
pub struct Station {
    pub x: i32,
    pub y: i32,
    pub power: i32,
}

/// A wall segment.
#[derive(Clone, Copy, PartialEq, Eq, Structural, Debug)]
pub struct Wall {
    pub x: i32,
    pub y: i32,
    pub lives: i32,
}

impl Station {
    /// The station's position.
    pub fn to_pos(&self) -> (pos: (i32, i32))
        ensures
            pos == (self.x, self.y),
    {
        (self.x, self.y)
    }
}

impl Wall {
    /// The wall's position.
    pub fn to_pos(&self) -> (pos: (i32, i32))
        ensures
            pos == (self.x, self.y),
    {
        (self.x, self.y)
    }
}

/// The offset from one point to another and its squared length.
#[derive(Clone, Copy, PartialEq, Eq, Structural, Debug)]
pub struct Displacement {
    pub dx: i32,
    pub dy: i32,
    pub squared_distance: i32,
}

/// Whether the offset from `origin` to `target` and its squared length fit in `i32`.
pub open spec fn displacement_fits(origin: (i32, i32), target: (i32, i32)) -> bool {
    let dx = target.0 - origin.0;
    let dy = target.1 - origin.1;
    &&& i32::MIN <= dx <= i32::MAX
    &&& i32::MIN <= dy <= i32::MAX
    &&& dx * dx + dy * dy <= i32::MAX
}

/// The offset from `origin` to `target`, and the square of its length.
pub fn displacement(origin: (i32, i32), target: (i32, i32)) -> (d: Displacement)
    requires
        displacement_fits(origin, target),
    ensures
        d.dx == target.0 - origin.0,
        d.dy == target.1 - origin.1,
        d.squared_distance == d.dx * d.dx + d.dy * d.dy,
{
    let dx = target.0 - origin.0;
    let dy = target.1 - origin.1;
    assert(0 <= dx * dx) by (nonlinear_arith);
    assert(0 <= dy * dy) by (nonlinear_arith);
    let squared_distance = dx * dx + dy * dy;
    Displacement { dx, dy, squared_distance }
}

} // verus!
