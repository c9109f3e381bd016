//! The angle of the rotating radius line and the two steps that move it.

use vstd::prelude::*;

verus! {

/// Degrees in a full turn; every angle held lies below it.
pub const FULL_TURN: u32 = 360;

/// What a key press asks of the angle.
#[derive(Clone, Copy, Debug, PartialEq, Eq, Structural)]
pub enum Input {
    /// Rotate toward smaller angles (in the first zone).
    Decrease,
    /// Rotate toward larger angles (in the first zone).
    Increase,
    /// Any other key: the angle stays as it is.
    Ignored,
}

/// The zone in which a step goes the way its key names: the degrees from 0
/// through 90 and from 271 through 360. In the other zone, 91 through 270,
/// the two steps are mirrored.
pub open spec fn in_direct_zone(a: int) -> bool {
    (0 <= a <= 90) || (271 <= a <= 360)
}

/// One step down, with 0 wrapping round to 359.
pub open spec fn step_down(a: int) -> int {
    if a >= 1 {
        a - 1
    } else {
        359
    }
}

/// The angle after one input, from the angle `a` before it.
pub open spec fn next_angle(a: int, input: Input) -> int {
    match input {
        Input::Decrease => (if in_direct_zone(a) {
            step_down(a)
        } else {
            a + 1
        }) % 360,
        Input::Increase => (if in_direct_zone(a) {
            a + 1
        } else {
            step_down(a)
        }) % 360,
        Input::Ignored => a,
    }
}

/// The angle after a sequence of inputs, taken in order, from the angle `a`.
pub open spec fn run(a: int, inputs: Seq<Input>) -> int
    decreases inputs.len(),
{
    if inputs.len() == 0 {
        a
    } else {
        run(next_angle(a, inputs[0]), inputs.drop_first())
    }
}

/// Every input keeps an angle below a full turn.
pub proof fn lemma_next_angle_in_range(a: int, input: Input)
    requires
        0 <= a < 360,
    ensures
        0 <= next_angle(a, input) < 360,
{
}

/// Whatever sequence of inputs is applied to an angle below a full turn, the
/// angle stays below a full turn.
pub proof fn lemma_run_in_range(a: int, inputs: Seq<Input>)
    requires
        0 <= a < 360,
    ensures
        0 <= run(a, inputs) < 360,
    decreases inputs.len(),
{
    if inputs.len() > 0 {
        lemma_next_angle_in_range(a, inputs[0]);
        lemma_run_in_range(next_angle(a, inputs[0]), inputs.drop_first());
    }
}

/// An increase followed by a decrease, or a decrease followed by an
/// increase, gives the angle back whenever the first step stays within one
/// zone. Where the first step crosses from one zone into the other, the
/// mirrored stepping moves the angle on instead: from 90 to 92, from 91 to
/// 89, from 270 to 272 and from 271 to 269.
pub proof fn lemma_step_round_trip(a: int)
    requires
        0 <= a < 360,
    ensures
        in_direct_zone(a) == in_direct_zone(next_angle(a, Input::Increase)) ==> next_angle(
            next_angle(a, Input::Increase),
            Input::Decrease,
        ) == a,
        in_direct_zone(a) == in_direct_zone(next_angle(a, Input::Decrease)) ==> next_angle(
            next_angle(a, Input::Decrease),
            Input::Increase,
        ) == a,
        a == 90 ==> next_angle(next_angle(a, Input::Increase), Input::Decrease) == 92,
        a == 91 ==> next_angle(next_angle(a, Input::Increase), Input::Decrease) == 89,
        a == 270 ==> next_angle(next_angle(a, Input::Decrease), Input::Increase) == 272,
        a == 271 ==> next_angle(next_angle(a, Input::Decrease), Input::Increase) == 269,
{
}

/// The unit circle's rotating radius, held as its angle in whole degrees.
pub struct UnitCircle {
    angle: u32,
}

impl View for UnitCircle {
    type V = int;

    /// The angle in degrees.
    closed spec fn view(&self) -> int {
        self.angle as int
    }
}

impl UnitCircle {
    #[verifier::type_invariant]
    closed spec fn angle_in_range(self) -> bool {
        self.angle < FULL_TURN
    }

    /// A circle whose radius points at 0 degrees.
    pub fn new() -> (c: Self)
        ensures
            c@ == 0,
    {
        UnitCircle { angle: 0 }
    }

    /// A circle whose radius points at `degrees`, if that is below a full turn.
    pub fn from_degrees(degrees: u32) -> (c: Option<Self>)
        ensures
            degrees < FULL_TURN <==> c is Some,
            c matches Some(circle) ==> circle@ == degrees,
    {
        if degrees < FULL_TURN {
            Some(UnitCircle { angle: degrees })
        } else {
            None
        }
    }

    /// The angle in degrees.
    pub fn angle(&self) -> (r: u32)
        ensures
            r == self@,
            r < FULL_TURN,
    {
        proof {
            use_type_invariant(self);
        }
        self.angle
    }

    /// Applies one key press to the angle.
    pub fn handle_input(&mut self, input: Input)
        ensures
            final(self)@ == next_angle(old(self)@, input),
            0 <= final(self)@ < 360,
    {
        proof {
            use_type_invariant(&*self);
        }
        let a = self.angle;
        let direct = a <= 90 || a >= 271;
        let stepped: u32 = match input {
            Input::Decrease => if direct {
                if a >= 1 {
                    a - 1
                } else {
                    359
                }
            } else {
                a + 1
            },
            Input::Increase => if direct {
                a + 1
            } else {
                if a >= 1 {
                    a - 1
                } else {
                    359
                }
            },
            Input::Ignored => a,
        };
        self.angle = stepped % FULL_TURN;
    }
}

} // verus!
