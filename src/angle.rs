use vstd::prelude::*;

verus! {

/// A facing direction of a sprite. `Any` is not a real facing: it holds the
/// default texture and layout of an action.
#[derive(Clone, Copy, Debug, PartialEq, Eq, Structural, Hash)]
pub enum Angle {
    Any,
    Front,
    Back,
    Left,
    Right,
    FrontLeft,
    FrontRight,
    BackLeft,
    BackRight,
}

/// Number of angles, `Any` included.
pub const ANGLE_COUNT: usize = 9;

impl Angle {
    /// Position of the angle in a table of `ANGLE_COUNT` slots.
    pub open spec fn slot(self) -> int {
        match self {
            Angle::Any => 0,
            Angle::Front => 1,
            Angle::Back => 2,
            Angle::Left => 3,
            Angle::Right => 4,
            Angle::FrontLeft => 5,
            Angle::FrontRight => 6,
            Angle::BackLeft => 7,
            Angle::BackRight => 8,
        }
    }

    pub fn index(&self) -> (r: usize)
        ensures
            r as int == self.slot(),
            r < ANGLE_COUNT,
    {
        match self {
            Angle::Any => 0,
            Angle::Front => 1,
            Angle::Back => 2,
            Angle::Left => 3,
            Angle::Right => 4,
            Angle::FrontLeft => 5,
            Angle::FrontRight => 6,
            Angle::BackLeft => 7,
            Angle::BackRight => 8,
        }
    }
}

impl Default for Angle {
    /// An angle left unspecified faces the front.
    fn default() -> (r: Angle)
        ensures
            r == Angle::Front,
    {
        Angle::Front
    }
}

} // verus!
