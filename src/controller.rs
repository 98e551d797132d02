//! Direction flags fed by key transitions, and the per-tick motion plan of an
//! orbit camera derived from them.
use vstd::prelude::*;

verus! {

/// A logical direction of camera motion.
#[derive(Clone, Copy, Debug, PartialEq, Eq, Structural)]
pub enum Direction {
    Up,
    Down,
    Forward,
    Backward,
    Left,
    Right,
}

/// The physical keys the controller listens to; any other key is `Other`.
#[derive(Clone, Copy, Debug, PartialEq, Eq, Structural)]
pub enum Key {
    Space,
    KeyW,
    ArrowUp,
    KeyA,
    ArrowLeft,
    KeyS,
    ArrowDown,
    KeyD,
    ArrowRight,
    Other,
}

/// The direction a key stands for, if any.
pub open spec fn key_direction(k: Key) -> Option<Direction> {
    match k {
        Key::Space => Some(Direction::Up),
        Key::KeyW | Key::ArrowUp => Some(Direction::Forward),
        Key::KeyA | Key::ArrowLeft => Some(Direction::Left),
        Key::KeyS | Key::ArrowDown => Some(Direction::Backward),
        Key::KeyD | Key::ArrowRight => Some(Direction::Right),
        Key::Other => None,
    }
}

/// Maps a physical key to the direction it controls.
pub fn direction_for_key(key: Key) -> (r: Option<Direction>)
    ensures
        r == key_direction(key),
{
    match key {
        Key::Space => Some(Direction::Up),
        Key::KeyW | Key::ArrowUp => Some(Direction::Forward),
        Key::KeyA | Key::ArrowLeft => Some(Direction::Left),
        Key::KeyS | Key::ArrowDown => Some(Direction::Backward),
        Key::KeyD | Key::ArrowRight => Some(Direction::Right),
        Key::Other => None,
    }
}

/// One key transition: which key, and whether it went down or up.
#[derive(Clone, Copy, Debug, PartialEq, Eq, Structural)]
pub struct KeyInput {
    pub key: Key,
    pub pressed: bool,
}

/// What one tick needs to know of the camera, measured by the caller in its
/// own arithmetic before anything moves.
#[derive(Clone, Copy, Debug, PartialEq, Eq, Structural)]
pub struct Geometry {
    /// The eye sits on the target (their distance is about zero).
    pub on_target: bool,
    /// The eye is farther from the target than one step.
    pub beyond_step: bool,
}

/// Which way the eye swings round the target in one tick.
#[derive(Clone, Copy, Debug, PartialEq, Eq, Structural)]
pub enum Turn {
    Straight,
    Left,
    Right,
}

/// The motion of one tick, to be carried out in order: the step toward the
/// target, the step away from it, then the turn, which keeps the distance
/// reached after the steps.
#[derive(Clone, Copy, Debug, PartialEq, Eq, Structural)]
pub struct UpdatePlan {
    pub step_toward: bool,
    pub step_away: bool,
    pub turn: Turn,
}

impl UpdatePlan {
    /// The plan leaves the camera as it is.
    pub open spec fn is_idle(self) -> bool {
        !self.step_toward && !self.step_away && self.turn == Turn::Straight
    }
}

/// The six direction flags of an orbit camera controller.
///
/// The step length of the camera is a scalar of the caller's arithmetic and is
/// kept beside the controller, not in it.
#[derive(Clone, Copy, Debug, PartialEq, Eq, Structural)]
pub struct CameraController {
    pub is_up_pressed: bool,
    pub is_down_pressed: bool,
    pub is_forward_pressed: bool,
    pub is_backward_pressed: bool,
    pub is_left_pressed: bool,
    pub is_right_pressed: bool,
}

impl View for CameraController {
    type V = Set<Direction>;

    /// The set of directions currently held.
    open spec fn view(&self) -> Set<Direction> {
        Set::new(|d: Direction| self.is_pressed(d))
    }
}

impl CameraController {
    /// Whether the flag of `d` is set.
    pub open spec fn is_pressed(self, d: Direction) -> bool {
        match d {
            Direction::Up => self.is_up_pressed,
            Direction::Down => self.is_down_pressed,
            Direction::Forward => self.is_forward_pressed,
            Direction::Backward => self.is_backward_pressed,
            Direction::Left => self.is_left_pressed,
            Direction::Right => self.is_right_pressed,
        }
    }

    /// A controller with no direction held.
    pub fn new() -> (r: CameraController)
        ensures
            r@ == Set::<Direction>::empty(),
    {
        let r = CameraController {
            is_up_pressed: false,
            is_down_pressed: false,
            is_forward_pressed: false,
            is_backward_pressed: false,
            is_left_pressed: false,
            is_right_pressed: false,
        };
        assert(r@ =~= Set::<Direction>::empty());
        r
    }

    /// Records whether `direction` is held; exactly that one flag changes.
    pub fn set_direction(&mut self, direction: Direction, pressed: bool)
        ensures
            final(self)@ == (if pressed {
                old(self)@.insert(direction)
            } else {
                old(self)@.remove(direction)
            }),
    {
        match direction {
            Direction::Up => self.is_up_pressed = pressed,
            Direction::Down => self.is_down_pressed = pressed,
            Direction::Forward => self.is_forward_pressed = pressed,
            Direction::Backward => self.is_backward_pressed = pressed,
            Direction::Left => self.is_left_pressed = pressed,
            Direction::Right => self.is_right_pressed = pressed,
        }
        proof {
            let want = if pressed {
                old(self)@.insert(direction)
            } else {
                old(self)@.remove(direction)
            };
            assert(self@ =~= want);
        }
    }

    /// Applies a key transition: a key that stands for a direction sets that
    /// direction's flag to whether the key is down, and the transition counts
    /// as consumed; any other key changes nothing and is not consumed.
    pub fn process_events(&mut self, event: KeyInput) -> (r: bool)
        ensures
            r == key_direction(event.key).is_some(),
            match key_direction(event.key) {
                Some(d) => final(self)@ == (if event.pressed {
                    old(self)@.insert(d)
                } else {
                    old(self)@.remove(d)
                }),
                None => *final(self) == *old(self),
            },
    {
        match direction_for_key(event.key) {
            Some(d) => {
                self.set_direction(d, event.pressed);
                true
            },
            None => false,
        }
    }

    /// The plan `update_camera` returns for this controller on `g`.
    pub open spec fn plan(self, g: Geometry) -> UpdatePlan {
        let moving = !g.on_target;
        UpdatePlan {
            step_toward: moving && self.is_forward_pressed && g.beyond_step,
            step_away: moving && self.is_backward_pressed,
            turn: if !moving {
                Turn::Straight
            } else if self.is_left_pressed {
                Turn::Left
            } else if self.is_right_pressed {
                Turn::Right
            } else {
                Turn::Straight
            },
        }
    }

    /// Decides what one tick does to the camera.
    ///
    /// Forward motion is taken only while the eye is farther from the target
    /// than one step; backward motion has no such bound. The right turn is
    /// worked out before the left one and from the same baseline, so with both
    /// held the left turn is what remains. With the eye on the target no
    /// direction is defined and nothing moves. The up and down flags have no
    /// effect.
    pub fn update_camera(&self, g: Geometry) -> (r: UpdatePlan)
        ensures
            r == self.plan(g),
    {
        let moving = !g.on_target;
        let turn = if !moving {
            Turn::Straight
        } else if self.is_left_pressed {
            Turn::Left
        } else if self.is_right_pressed {
            Turn::Right
        } else {
            Turn::Straight
        };
        UpdatePlan {
            step_toward: moving && self.is_forward_pressed && g.beyond_step,
            step_away: moving && self.is_backward_pressed,
            turn,
        }
    }
}

/// Forward guard: while the eye is no farther from the target than one step,
/// a tick takes no step toward the target, whatever flags are held.
pub proof fn lemma_forward_guard(c: CameraController, g: Geometry)
    requires
        !g.beyond_step,
    ensures
        !c.plan(g).step_toward,
{
}

/// Backward motion is unbounded: whenever the backward flag is held and the
/// eye is off the target, a tick steps away from the target, however far the
/// eye already is.
pub proof fn lemma_backward_unbounded(c: CameraController, g: Geometry)
    requires
        c@.contains(Direction::Backward),
        !g.on_target,
    ensures
        c.plan(g).step_away,
{
}

/// With no direction held, a tick leaves the camera as it is.
pub proof fn lemma_idle_flags(c: CameraController, g: Geometry)
    requires
        c@ == Set::<Direction>::empty(),
    ensures
        c.plan(g).is_idle(),
{
    assert(!c@.contains(Direction::Forward));
    assert(!c@.contains(Direction::Backward));
    assert(!c@.contains(Direction::Left));
    assert(!c@.contains(Direction::Right));
}

/// With the eye on the target, a tick moves nothing, so no direction has to
/// be derived from a zero-length vector.
pub proof fn lemma_on_target_still(c: CameraController, g: Geometry)
    requires
        g.on_target,
    ensures
        c.plan(g).is_idle(),
{
}

/// With only left and right held, a tick takes no step toward or away from
/// the target: it can only turn.
pub proof fn lemma_turns_take_no_step(c: CameraController, g: Geometry)
    requires
        c@.subset_of(set![Direction::Left, Direction::Right]),
    ensures
        !c.plan(g).step_toward,
        !c.plan(g).step_away,
{
    assert(!set![Direction::Left, Direction::Right].contains(Direction::Forward));
    assert(!set![Direction::Left, Direction::Right].contains(Direction::Backward));
    assert(!c@.contains(Direction::Forward));
    assert(!c@.contains(Direction::Backward));
}

/// The up and down flags are inert: two controllers that hold the same
/// directions apart from up and down plan the same tick.
pub proof fn lemma_vertical_flags_inert(a: CameraController, b: CameraController, g: Geometry)
    requires
        a@.remove(Direction::Up).remove(Direction::Down) == b@.remove(Direction::Up).remove(
            Direction::Down,
        ),
    ensures
        a.plan(g) == b.plan(g),
{
    let sa = a@.remove(Direction::Up).remove(Direction::Down);
    let sb = b@.remove(Direction::Up).remove(Direction::Down);
    assert(sa.contains(Direction::Forward) == a@.contains(Direction::Forward));
    assert(sb.contains(Direction::Forward) == b@.contains(Direction::Forward));
    assert(sa.contains(Direction::Backward) == a@.contains(Direction::Backward));
    assert(sb.contains(Direction::Backward) == b@.contains(Direction::Backward));
    assert(sa.contains(Direction::Left) == a@.contains(Direction::Left));
    assert(sb.contains(Direction::Left) == b@.contains(Direction::Left));
    assert(sa.contains(Direction::Right) == a@.contains(Direction::Right));
    assert(sb.contains(Direction::Right) == b@.contains(Direction::Right));
    assert(a@.contains(Direction::Forward) == a.is_forward_pressed);
    assert(a@.contains(Direction::Backward) == a.is_backward_pressed);
    assert(a@.contains(Direction::Left) == a.is_left_pressed);
    assert(a@.contains(Direction::Right) == a.is_right_pressed);
    assert(b@.contains(Direction::Forward) == b.is_forward_pressed);
    assert(b@.contains(Direction::Backward) == b.is_backward_pressed);
    assert(b@.contains(Direction::Left) == b.is_left_pressed);
    assert(b@.contains(Direction::Right) == b.is_right_pressed);
}

} // verus!
