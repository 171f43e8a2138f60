//! The structural move of an annealing epoch: a short window of neighbouring
//! joints, each turned about a fixed axis, by angles that cancel.
//!
//! Angles are counted in steps of one thirty-second of a turn, so that the
//! full move of a sixteenth of a turn and its half are both whole numbers.

use vstd::prelude::*;
use crate::chain::MIN_JOINTS;
use crate::magnitude::{Magnitude, HALF_BITS};

verus! {

/// The angle of a move, in steps: one sixteenth of a turn.
pub const FULL_ANGLE: i8 = 2;

/// The angle of a move whose window starts at the first joint of the chain:
/// half of [`FULL_ANGLE`].
pub const DAMPED_ANGLE: i8 = 1;

/// The rank that a draw from the unit interval must exceed for the window of
/// three joints to be taken: the weight of the window of two.
pub const TWO_WEIGHT_BITS: u64 = HALF_BITS;

/// The number of joints that a move turns.
#[derive(Clone, Copy, Debug, PartialEq, Eq, Structural)]
pub enum Window {
    /// Two neighbouring joints.
    Pair,
    /// Three neighbouring joints.
    Triple,
}

impl Window {
    /// The number of joints in the window.
    pub open spec fn span(self) -> nat {
        match self {
            Window::Pair => 2,
            Window::Triple => 3,
        }
    }

    /// The number of joints in the window.
    pub fn len(self) -> (n: usize)
        ensures
            n == self.span(),
    {
        match self {
            Window::Pair => 2,
            Window::Triple => 3,
        }
    }
}

/// One joint of a window with the angle, in steps, by which it is turned.
#[derive(Clone, Copy, Debug, PartialEq, Eq, Structural)]
pub struct Rotation {
    /// The joint.
    pub joint: usize,
    /// The signed angle, in thirty-seconds of a turn.
    pub angle: i8,
}

/// What a move is, as mathematics.
pub struct PerturbationView {
    /// The first joint of the window.
    pub start: nat,
    /// The size of the window.
    pub window: Window,
    /// The signed angle of the move, in thirty-seconds of a turn.
    pub angle: int,
}

/// The sum of a sequence of angles.
pub open spec fn total_angle(angles: Seq<int>) -> int
    decreases angles.len(),
{
    if angles.len() == 0 {
        0
    } else {
        total_angle(angles.drop_last()) + angles.last()
    }
}

impl PerturbationView {
    /// The angles by which the joints of the window are turned, from the
    /// first joint on: the angle and its opposite for two joints; the angle,
    /// twice its opposite and the angle again for three.
    pub open spec fn offsets(self) -> Seq<int> {
        match self.window {
            Window::Pair => seq![self.angle, -self.angle],
            Window::Triple => seq![self.angle, -2 * self.angle, self.angle],
        }
    }

    /// The turns of the move: joint `start + k` by the `k`-th offset.
    pub open spec fn rotations(self) -> Seq<Rotation> {
        Seq::new(
            self.window.span(),
            |k: int| Rotation { joint: (self.start + k) as usize, angle: self.offsets()[k] as i8 },
        )
    }

    /// Whether the window lies within a chain of `joints` joints.
    pub open spec fn fits(self, joints: nat) -> bool {
        self.start + self.window.span() <= joints
    }

    /// Whether the angle is the one due at this place: a sixteenth of a turn
    /// either way, halved where the window starts at the first joint.
    pub open spec fn damped_at_boundary(self) -> bool {
        if self.start == 0 {
            self.angle == DAMPED_ANGLE || self.angle == -DAMPED_ANGLE
        } else {
            self.angle == FULL_ANGLE || self.angle == -FULL_ANGLE
        }
    }
}

/// The window that a draw from the unit interval selects: three joints when
/// the draw exceeds the weight of the window of two, else two.
pub open spec fn window_for(wide_draw: nat) -> Window {
    if wide_draw > TWO_WEIGHT_BITS {
        Window::Triple
    } else {
        Window::Pair
    }
}

/// The move that given draws select on a chain of `joints` joints.
///
/// The window starts at the remainder of `index_draw` by the number of
/// places where it fits. The angle is a sixteenth of a turn, forwards when
/// `positive` and backwards otherwise, halved when the window starts at the
/// first joint.
pub open spec fn planned(joints: nat, index_draw: u8, positive: bool, wide_draw: nat)
    -> PerturbationView {
    let window = window_for(wide_draw);
    let start = (index_draw as int % (joints - window.span() + 1)) as nat;
    let size: int = if start == 0 {
        DAMPED_ANGLE as int
    } else {
        FULL_ANGLE as int
    };
    PerturbationView {
        start,
        window,
        angle: if positive {
            size
        } else {
            -size
        },
    }
}

/// The offsets of a move cancel: their sum over the window is zero, for the
/// window of three joints as for that of two, whatever the angle.
pub proof fn lemma_offsets_balanced(p: PerturbationView)
    ensures
        p.offsets().len() == p.window.span(),
        total_angle(p.offsets()) == 0,
{
    let offsets = p.offsets();
    reveal_with_fuel(total_angle, 4);
    match p.window {
        Window::Pair => {
            assert(offsets.drop_last() == seq![p.angle]);
            assert(offsets.drop_last().drop_last() == Seq::<int>::empty());
        },
        Window::Triple => {
            assert(offsets.drop_last() == seq![p.angle, -2 * p.angle]);
            assert(offsets.drop_last().drop_last() == seq![p.angle]);
            assert(offsets.drop_last().drop_last().drop_last() == Seq::<int>::empty());
        },
    }
}

/// Whatever the draws, the planned move lies within the chain and its angle
/// is halved exactly where the window starts at the first joint.
pub proof fn lemma_planned_fits(joints: nat, index_draw: u8, positive: bool, wide_draw: nat)
    requires
        joints >= MIN_JOINTS,
    ensures
        planned(joints, index_draw, positive, wide_draw).fits(joints),
        planned(joints, index_draw, positive, wide_draw).damped_at_boundary(),
        planned(joints, index_draw, positive, wide_draw).start <= u8::MAX,
{
    let places: int = joints - window_for(wide_draw).span() + 1;
    assert(0 <= index_draw as int % places < places);
    assert(index_draw as int % places <= index_draw as int) by (nonlinear_arith)
        requires
            places > 0,
            index_draw >= 0,
    ;
}

/// A move: a window of two or three neighbouring joints and the angle by
/// which they are turned.
#[derive(Clone, Copy, Debug, PartialEq, Eq, Structural)]
pub struct Perturbation {
    start: usize,
    window: Window,
    angle: i8,
}

impl View for Perturbation {
    type V = PerturbationView;

    closed spec fn view(&self) -> PerturbationView {
        PerturbationView { start: self.start as nat, window: self.window, angle: self.angle as int }
    }
}

impl Perturbation {
    #[verifier::type_invariant]
    spec fn in_range(self) -> bool {
        &&& self.start <= u8::MAX
        &&& self@.damped_at_boundary()
    }

    /// The move that given draws select on a chain of `joints` joints.
    pub fn plan(joints: usize, index_draw: u8, positive: bool, wide_draw: Magnitude) -> (p:
        Perturbation)
        requires
            joints >= MIN_JOINTS,
        ensures
            p@ == planned(joints as nat, index_draw, positive, wide_draw@),
            p@.fits(joints as nat),
            p@.damped_at_boundary(),
    {
        proof {
            lemma_planned_fits(joints as nat, index_draw, positive, wide_draw@);
        }
        let window: Window = if wide_draw.exceeds(Magnitude::half()) {
            Window::Triple
        } else {
            Window::Pair
        };
        let places: usize = joints - window.len() + 1;
        let start: usize = (index_draw as usize) % places;
        let size: i8 = if start == 0 {
            DAMPED_ANGLE
        } else {
            FULL_ANGLE
        };
        let angle: i8 = if positive {
            size
        } else {
            -size
        };
        Perturbation { start, window, angle }
    }

    /// The first joint of the window.
    pub fn start(&self) -> (start: usize)
        ensures
            start == self@.start,
    {
        self.start
    }

    /// The size of the window.
    pub fn window(&self) -> (window: Window)
        ensures
            window == self@.window,
    {
        self.window
    }

    /// The signed angle of the move, in thirty-seconds of a turn.
    pub fn angle(&self) -> (angle: i8)
        ensures
            angle == self@.angle,
            self@.damped_at_boundary(),
    {
        proof {
            use_type_invariant(self);
        }
        self.angle
    }

    /// The turns that make up the move, from the first joint of the window
    /// on.
    pub fn rotations(&self) -> (turns: Vec<Rotation>)
        ensures
            turns@ == self@.rotations(),
            turns@.len() == self@.window.span(),
            forall|k: int|
                0 <= k < turns@.len() ==> (#[trigger] turns@[k]).joint == self@.start + k
                    && turns@[k].angle == self@.offsets()[k],
    {
        proof {
            use_type_invariant(self);
        }
        let mut turns: Vec<Rotation> = Vec::with_capacity(3);
        turns.push(Rotation { joint: self.start, angle: self.angle });
        match self.window {
            Window::Pair => {
                turns.push(Rotation { joint: self.start + 1, angle: -self.angle });
            },
            Window::Triple => {
                let twice: i8 = self.angle + self.angle;
                turns.push(Rotation { joint: self.start + 1, angle: -twice });
                turns.push(Rotation { joint: self.start + 2, angle: self.angle });
            },
        }
        assert(turns@ =~= self@.rotations());
        turns
    }
}

/// Draws a byte from the thread-local generator of the `rand` crate with
/// `rand::random`. The byte may be any.
#[verifier::external_body]
fn random_byte() -> (byte: u8) {
    rand::random::<u8>()
}

/// Draws a flag from the thread-local generator of the `rand` crate with
/// `rand::random`. The flag may be either.
#[verifier::external_body]
fn random_flag() -> (flag: bool) {
    rand::random::<bool>()
}

/// Draws the place and the direction of a move at random and plans it. The
/// draw that selects the window comes from the caller, who draws it from the
/// unit interval.
pub fn propose(joints: usize, wide_draw: Magnitude) -> (p: Perturbation)
    requires
        joints >= MIN_JOINTS,
    ensures
        exists|index_draw: u8, positive: bool|
            p@ == planned(joints as nat, index_draw, positive, wide_draw@),
        p@.window == window_for(wide_draw@),
        p@.fits(joints as nat),
        p@.damped_at_boundary(),
{
    let index_draw: u8 = random_byte();
    let positive: bool = random_flag();
    Perturbation::plan(joints, index_draw, positive, wide_draw)
}

} // verus!
