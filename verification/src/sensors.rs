//! Decoding of raw robot state into the controller's sensor layout.

use vstd::prelude::*;

verus! {

/// Left and right foot contact from per-foot flags: a missing flag counts as
/// no contact; flags past the second are ignored.
pub fn foot_contacts_from(flags: &Vec<bool>) -> (r: [bool; 2])
    ensures
        r[0] == (flags@.len() > 0 && flags@[0]),
        r[1] == (flags@.len() > 1 && flags@[1]),
{
    let l = if flags.len() > 0 {
        flags[0]
    } else {
        false
    };
    let r = if flags.len() > 1 {
        flags[1]
    } else {
        false
    };
    [l, r]
}

/// The body is upright unless one of the first two tilt readings (roll, then
/// pitch) is out of bounds; a missing reading counts as within bounds.
pub fn upright_from_tilt(within_bounds: &Vec<bool>) -> (r: bool)
    ensures
        r == ((within_bounds@.len() < 1 || within_bounds@[0]) && (within_bounds@.len() < 2
            || within_bounds@[1])),
{
    let roll_ok = if within_bounds.len() > 0 {
        within_bounds[0]
    } else {
        true
    };
    let pitch_ok = if within_bounds.len() > 1 {
        within_bounds[1]
    } else {
        true
    };
    roll_ok && pitch_ok
}

/// Reorders an IMU quaternion from `[w, x, y, z]` to `[x, y, z, w]`; a reading
/// with fewer than four components gives `identity`.
pub fn quat_xyzw_from_wxyz<S: Copy>(quat: &Vec<S>, identity: [S; 4]) -> (r: [S; 4])
    ensures
        quat@.len() >= 4 ==> r == [quat@[1], quat@[2], quat@[3], quat@[0]],
        quat@.len() < 4 ==> r == identity,
{
    if quat.len() >= 4 {
        [quat[1], quat[2], quat[3], quat[0]]
    } else {
        identity
    }
}

/// The first three components of a vector reading; a reading with fewer than
/// three components gives all zeros.
pub fn first_three<S: Copy>(v: &Vec<S>, zero: S) -> (r: [S; 3])
    ensures
        v@.len() >= 3 ==> r == [v@[0], v@[1], v@[2]],
        v@.len() < 3 ==> r == [zero, zero, zero],
{
    if v.len() >= 3 {
        [v[0], v[1], v[2]]
    } else {
        [zero, zero, zero]
    }
}

} // verus!
