use vstd::prelude::*;

use crate::keys::{is_held, Key, KeyboardMoveable};

verus! {

/// Speed of an entity, in world units per second.
#[derive(Clone, Copy, Debug, PartialEq, Eq, Structural)]
pub struct MoveSpeed(pub u32);

/// A linear velocity in world units per second.
#[derive(Clone, Copy, Debug, PartialEq, Eq, Structural)]
pub struct Velocity {
    pub x: i64,
    pub y: i64,
}

/// Vertical axis value of a key pair: +1 for up, -1 for down, and the two cancel.
pub open spec fn axis_spec(up: bool, down: bool) -> int {
    (if up { 1int } else { 0int }) - (if down { 1int } else { 0int })
}

/// The velocity that the press state of an (up, down) pair gives an entity of
/// speed `speed`: the unit (or zero) vertical direction scaled by the speed.
pub open spec fn velocity_spec(up: bool, down: bool, speed: int) -> (int, int) {
    (0, axis_spec(up, down) * speed)
}

/// Squared length of a vector.
pub open spec fn norm_sq(x: int, y: int) -> int {
    x * x + y * y
}

/// The vertical axis value that an (up, down) press state gives.
pub fn axis(up: bool, down: bool) -> (r: i8)
    ensures
        r as int == axis_spec(up, down),
{
    let u: i8 = if up { 1 } else { 0 };
    let d: i8 = if down { 1 } else { 0 };
    u - d
}

/// The movement direction of a key pair, normalized to unit length unless it
/// is the zero vector, which stays zero.
pub fn move_delta(up: bool, down: bool) -> (r: (i8, i8))
    ensures
        r.0 == 0,
        r.1 as int == axis_spec(up, down),
        norm_sq(r.0 as int, r.1 as int) == if up != down { 1int } else { 0int },
{
    let x: i8 = 0;
    let mut y: i8 = axis(up, down);
    if x != 0 || y != 0 {
        // The vector lies on the vertical axis, so its length is |y|.
        let magnitude: i8 = if y < 0 { -y } else { y };
        y = y / magnitude;
    }
    (x, y)
}

/// The velocity of an entity of speed `speed` whose up key is `up` held and
/// whose down key is `down` held.
pub fn velocity_for(up: bool, down: bool, speed: MoveSpeed) -> (r: Velocity)
    ensures
        (r.x as int, r.y as int) == velocity_spec(up, down, speed.0 as int),
{
    let (dx, dy) = move_delta(up, down);
    let s = speed.0 as i64;
    assert(-1 <= dy <= 1);
    assert(dy as i64 * s == dy as int * s as int) by (nonlinear_arith)
        requires
            -1 <= dy <= 1,
            0 <= s <= u32::MAX,
    ;
    Velocity { x: dx as i64 * s, y: dy as i64 * s }
}

/// The velocity that the held keys give an entity with this binding and speed.
pub fn keyboard_velocity(binding: KeyboardMoveable, speed: MoveSpeed, held: &Vec<Key>) -> (r:
    Velocity)
    ensures
        (r.x as int, r.y as int) == velocity_spec(
            held@.contains(binding.up),
            held@.contains(binding.down),
            speed.0 as int,
        ),
{
    let up = is_held(held, binding.up);
    let down = is_held(held, binding.down);
    velocity_for(up, down, speed)
}

/// With neither key of the binding held, the velocity is the zero vector.
pub proof fn lemma_idle_is_still(binding: KeyboardMoveable, speed: MoveSpeed, held: Seq<Key>)
    requires
        !held.contains(binding.up),
        !held.contains(binding.down),
    ensures
        velocity_spec(held.contains(binding.up), held.contains(binding.down), speed.0 as int) == (
        0int, 0int),
{
}

/// With exactly one key of the binding held, the velocity is vertical, its
/// length is the speed, and it points up for the up key and down for the down key.
pub proof fn lemma_one_key_full_speed(binding: KeyboardMoveable, speed: MoveSpeed, held: Seq<Key>)
    requires
        held.contains(binding.up) != held.contains(binding.down),
    ensures
        ({
            let v = velocity_spec(
                held.contains(binding.up),
                held.contains(binding.down),
                speed.0 as int,
            );
            &&& v.0 == 0
            &&& held.contains(binding.up) ==> v.1 == speed.0 as int
            &&& held.contains(binding.down) ==> v.1 == -(speed.0 as int)
            &&& norm_sq(v.0, v.1) == speed.0 as int * speed.0 as int
        }),
{
    let s = speed.0 as int;
    let a = axis_spec(held.contains(binding.up), held.contains(binding.down));
    assert(a == 1 || a == -1);
    assert(a * s == s || a * s == -s) by (nonlinear_arith)
        requires
            a == 1 || a == -1,
    ;
    assert((a * s) * (a * s) == s * s) by (nonlinear_arith)
        requires
            a * s == s || a * s == -s,
    ;
}

/// Holding both keys of the binding cancels out: the velocity is the same
/// zero vector as when neither is held.
pub proof fn lemma_both_keys_cancel(binding: KeyboardMoveable, speed: MoveSpeed, held: Seq<Key>)
    requires
        held.contains(binding.up),
        held.contains(binding.down),
    ensures
        velocity_spec(held.contains(binding.up), held.contains(binding.down), speed.0 as int)
            == velocity_spec(false, false, speed.0 as int),
        velocity_spec(false, false, speed.0 as int) == (0int, 0int),
{
}

/// For a fixed press state, doubling the speed doubles the velocity and keeps
/// its direction.
pub proof fn lemma_double_speed(up: bool, down: bool, speed: MoveSpeed)
    ensures
        ({
            let v = velocity_spec(up, down, speed.0 as int);
            let w = velocity_spec(up, down, 2 * speed.0 as int);
            &&& w.0 == 2 * v.0
            &&& w.1 == 2 * v.1
            &&& norm_sq(w.0, w.1) == 4 * norm_sq(v.0, v.1)
        }),
{
    let a = axis_spec(up, down);
    let s = speed.0 as int;
    assert(a * (2 * s) == 2 * (a * s)) by (nonlinear_arith);
    assert((2 * (a * s)) * (2 * (a * s)) == 4 * ((a * s) * (a * s))) by (nonlinear_arith);
}

} // verus!
