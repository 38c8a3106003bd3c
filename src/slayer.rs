//! The slayer's control decisions and animation frames.
use vstd::prelude::*;

verus! {

/// The way the slayer faces.
#[derive(Clone, Copy, Debug, PartialEq, Eq, Structural)]
pub enum Facing {
    Left,
    Right,
}

/// Where the slayer's sword points.
#[derive(Clone, Copy, Debug, PartialEq, Eq, Structural)]
pub enum SwordDirection {
    Up,
    Down,
    Left,
    Right,
    NotAttacking,
}

/// The slayer's keys in the current frame.
#[derive(Clone, Copy, Debug, PartialEq, Eq, Structural)]
pub struct SlayerKeys {
    /// Left, held.
    pub a: bool,
    /// Right, held.
    pub d: bool,
    /// Down, held.
    pub s: bool,
    /// Up, held.
    pub w: bool,
    /// Attack, pressed in this frame.
    pub b_just_pressed: bool,
}

/// What the slayer does in a frame.
#[derive(Clone, Copy, Debug, PartialEq, Eq, Structural)]
pub struct SlayerCommand {
    /// Horizontal intent: -1, 0 or 1.
    pub x: i32,
    /// Vertical intent: -1, 0 or 1, up positive.
    pub y: i32,
    /// The sword's new direction, if it changes.
    pub sword: Option<SwordDirection>,
}

pub open spec fn axis_x(k: SlayerKeys) -> int {
    if k.a {
        -1
    } else if k.d {
        1
    } else {
        0
    }
}

pub open spec fn axis_y(k: SlayerKeys) -> int {
    if k.s {
        -1
    } else if k.w {
        1
    } else {
        0
    }
}

/// The direction of an attack: the horizontal intent first, then the
/// vertical one, and where there is none the way the slayer faces.
pub open spec fn attack_direction(k: SlayerKeys, facing: Facing) -> SwordDirection {
    if axis_x(k) > 0 {
        SwordDirection::Right
    } else if axis_x(k) < 0 {
        SwordDirection::Left
    } else if axis_y(k) > 0 {
        SwordDirection::Up
    } else if axis_y(k) < 0 {
        SwordDirection::Down
    } else {
        match facing {
            Facing::Left => SwordDirection::Left,
            Facing::Right => SwordDirection::Right,
        }
    }
}

/// The sword's change: an attack when the attack key is pressed and the
/// cooldown is over, a rest when only the cooldown is over, else none.
pub open spec fn sword_change(k: SlayerKeys, facing: Facing, ready: bool) -> Option<SwordDirection> {
    if k.b_just_pressed && ready {
        Some(attack_direction(k, facing))
    } else if ready {
        Some(SwordDirection::NotAttacking)
    } else {
        None
    }
}

/// The slayer's decisions for one frame, from its keys, the way it faces
/// and whether its attack cooldown is over.
pub fn slayer_controls(keys: SlayerKeys, facing: Facing, cooldown_finished: bool) -> (r:
    SlayerCommand)
    ensures
        r.x == axis_x(keys),
        r.y == axis_y(keys),
        r.sword == sword_change(keys, facing, cooldown_finished),
{
    let x: i32 = if keys.a {
        -1
    } else if keys.d {
        1
    } else {
        0
    };
    let y: i32 = if keys.s {
        -1
    } else if keys.w {
        1
    } else {
        0
    };
    let sword = if keys.b_just_pressed && cooldown_finished {
        if x > 0 {
            Some(SwordDirection::Right)
        } else if x < 0 {
            Some(SwordDirection::Left)
        } else if y > 0 {
            Some(SwordDirection::Up)
        } else if y < 0 {
            Some(SwordDirection::Down)
        } else {
            match facing {
                Facing::Left => Some(SwordDirection::Left),
                Facing::Right => Some(SwordDirection::Right),
            }
        }
    } else if cooldown_finished {
        Some(SwordDirection::NotAttacking)
    } else {
        None
    };
    SlayerCommand { x, y, sword }
}

/// The animation frame after `index` in a strip of `frames` frames.
pub fn slayer_animator(index: usize, frames: usize) -> (r: usize)
    requires
        frames > 0,
    ensures
        r == (index + 1) % (frames as int),
        r < frames,
{
    let i = index % frames;
    let r = if i + 1 == frames {
        0
    } else {
        i + 1
    };
    proof {
        let n = frames as int;
        vstd::arithmetic::div_mod::lemma_add_mod_noop(index as int, 1, n);
        if n == 1 {
            vstd::arithmetic::div_mod::lemma_mod_self_0(n);
            vstd::arithmetic::div_mod::lemma_mod_add_multiples_vanish(index as int, n);
        } else {
            vstd::arithmetic::div_mod::lemma_small_mod(1, n as nat);
            if i + 1 < n {
                vstd::arithmetic::div_mod::lemma_small_mod((i + 1) as nat, n as nat);
            } else {
                vstd::arithmetic::div_mod::lemma_mod_self_0(n);
            }
        }
    }
    r
}

} // verus!
