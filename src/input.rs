use vstd::prelude::*;

verus! {

/// The physical keys the viewer reacts to.
#[derive(Clone, Copy, Debug, PartialEq, Eq, Structural)]
pub enum Key {
    W,
    A,
    S,
    D,
    Space,
    ControlLeft,
    Escape,
    F2,
}

/// The set of keys currently held down, one flag per key.
#[derive(Clone, Copy, Debug)]
pub struct HeldKeys {
    w: bool,
    a: bool,
    s: bool,
    d: bool,
    space: bool,
    control_left: bool,
    escape: bool,
    f2: bool,
}

impl HeldKeys {
    /// Whether `k` is recorded as held.
    pub closed spec fn holds(&self, k: Key) -> bool {
        match k {
            Key::W => self.w,
            Key::A => self.a,
            Key::S => self.s,
            Key::D => self.d,
            Key::Space => self.space,
            Key::ControlLeft => self.control_left,
            Key::Escape => self.escape,
            Key::F2 => self.f2,
        }
    }
}

impl View for HeldKeys {
    type V = Set<Key>;

    open spec fn view(&self) -> Set<Key> {
        Set::new(|k: Key| self.holds(k))
    }
}

/// Net direction along one axis: +1, -1, or 0 when both or neither
/// of its keys are held.
pub open spec fn axis(positive: bool, negative: bool) -> int {
    (if positive { 1int } else { 0int }) - (if negative { 1int } else { 0int })
}

/// Forward (+1) or backward (-1) motion: W and S.
pub open spec fn forward_axis(held: Set<Key>) -> int {
    axis(held.contains(Key::W), held.contains(Key::S))
}

/// Rightward (+1) or leftward (-1) motion: D and A.
pub open spec fn right_axis(held: Set<Key>) -> int {
    axis(held.contains(Key::D), held.contains(Key::A))
}

/// Upward (+1) or downward (-1) motion: Space and left Control.
pub open spec fn up_axis(held: Set<Key>) -> int {
    axis(held.contains(Key::Space), held.contains(Key::ControlLeft))
}

/// Whether the held keys call for no motion at all.
pub open spec fn is_still_spec(held: Set<Key>) -> bool {
    forward_axis(held) == 0 && right_axis(held) == 0 && up_axis(held) == 0
}

/// The signed combination of the camera's forward, right and up vectors
/// that the held keys ask for; each component is -1, 0 or 1.
#[derive(Clone, Copy, Debug, PartialEq, Eq, Structural)]
pub struct MoveAxes {
    pub forward: i8,
    pub right: i8,
    pub up: i8,
}

impl MoveAxes {
    /// True when no component is set, so the camera stays where it is.
    pub fn is_still(&self) -> (r: bool)
        ensures
            r == (self.forward == 0 && self.right == 0 && self.up == 0),
    {
        self.forward == 0 && self.right == 0 && self.up == 0
    }
}

fn axis_value(positive: bool, negative: bool) -> (r: i8)
    ensures
        r as int == axis(positive, negative),
{
    let p: i8 = if positive { 1 } else { 0 };
    let n: i8 = if negative { 1 } else { 0 };
    p - n
}

impl HeldKeys {
    /// No key held.
    pub fn new() -> (r: HeldKeys)
        ensures
            r@ == Set::<Key>::empty(),
    {
        let r = HeldKeys {
            w: false,
            a: false,
            s: false,
            d: false,
            space: false,
            control_left: false,
            escape: false,
            f2: false,
        };
        assert(r@ =~= Set::<Key>::empty());
        r
    }

    fn set(&mut self, k: Key, value: bool)
        ensures
            forall|j: Key| #[trigger] final(self).holds(j) == if j == k { value } else { old(self).holds(j) },
    {
        match k {
            Key::W => self.w = value,
            Key::A => self.a = value,
            Key::S => self.s = value,
            Key::D => self.d = value,
            Key::Space => self.space = value,
            Key::ControlLeft => self.control_left = value,
            Key::Escape => self.escape = value,
            Key::F2 => self.f2 = value,
        }
    }

    /// Records that `k` went down.
    pub fn press(&mut self, k: Key)
        ensures
            final(self)@ == old(self)@.insert(k),
    {
        self.set(k, true);
        assert(self@ =~= old(self)@.insert(k));
    }

    /// Records that `k` came up.
    pub fn release(&mut self, k: Key)
        ensures
            final(self)@ == old(self)@.remove(k),
    {
        self.set(k, false);
        assert(self@ =~= old(self)@.remove(k));
    }

    /// Whether `k` is held.
    pub fn is_held(&self, k: Key) -> (r: bool)
        ensures
            r == self@.contains(k),
    {
        match k {
            Key::W => self.w,
            Key::A => self.a,
            Key::S => self.s,
            Key::D => self.d,
            Key::Space => self.space,
            Key::ControlLeft => self.control_left,
            Key::Escape => self.escape,
            Key::F2 => self.f2,
        }
    }

    /// The motion the held keys ask for: W/S forward and back, D/A right
    /// and left, Space/left Control up and down. Opposite keys cancel.
    pub fn movement_axes(&self) -> (r: MoveAxes)
        ensures
            r.forward as int == forward_axis(self@),
            r.right as int == right_axis(self@),
            r.up as int == up_axis(self@),
    {
        MoveAxes {
            forward: axis_value(self.w, self.s),
            right: axis_value(self.d, self.a),
            up: axis_value(self.space, self.control_left),
        }
    }
}

/// With no key held, the camera does not move.
pub proof fn lemma_no_keys_no_motion(held: Set<Key>)
    requires
        held == Set::<Key>::empty(),
    ensures
        is_still_spec(held),
{
}

/// Holding forward and backward together gives no forward motion,
/// whatever else is held.
pub proof fn lemma_forward_backward_cancel(held: Set<Key>)
    requires
        held.contains(Key::W),
        held.contains(Key::S),
    ensures
        forward_axis(held) == 0,
{
}

} // verus!
