//! Keyboard drive input: the W/S/A/D keys as walking directions.

use vstd::prelude::*;

verus! {

/// Which of the four drive keys are held.
#[derive(Clone, Copy, Debug, PartialEq, Eq, Structural)]
pub struct KeyInput {
    /// W: walk forward.
    pub forward: bool,
    /// S: walk backward.
    pub backward: bool,
    /// A: step left.
    pub left: bool,
    /// D: step right.
    pub right: bool,
}

/// 1 for a held key, 0 otherwise.
pub open spec fn held(key: bool) -> int {
    if key {
        1
    } else {
        0
    }
}

impl KeyInput {
    /// The forward/backward axis: +1 forward, -1 backward, 0 for neither or both.
    pub open spec fn spec_direction(self) -> int {
        held(self.forward) - held(self.backward)
    }

    /// The sideways axis: +1 right, -1 left, 0 for neither or both.
    pub open spec fn spec_lateral(self) -> int {
        held(self.right) - held(self.left)
    }

    /// The two drive axes `(direction, lateral)`.
    pub fn axes(&self) -> (r: (i32, i32))
        ensures
            r.0 as int == self.spec_direction(),
            r.1 as int == self.spec_lateral(),
            r.0 == (if self.forward && !self.backward {
                1i32
            } else if self.backward && !self.forward {
                -1i32
            } else {
                0i32
            }),
            r.1 == (if self.right && !self.left {
                1i32
            } else if self.left && !self.right {
                -1i32
            } else {
                0i32
            }),
            -1 <= r.0 <= 1,
            -1 <= r.1 <= 1,
    {
        let f: i32 = if self.forward {
            1
        } else {
            0
        };
        let b: i32 = if self.backward {
            1
        } else {
            0
        };
        let l: i32 = if self.left {
            1
        } else {
            0
        };
        let r: i32 = if self.right {
            1
        } else {
            0
        };
        (f - b, r - l)
    }

    /// No drive input: both axes are zero, and the gait decays to standing.
    pub fn is_idle(&self) -> (r: bool)
        ensures
            r == (self.spec_direction() == 0 && self.spec_lateral() == 0),
    {
        let (d, l) = self.axes();
        d == 0 && l == 0
    }
}

/// Each axis follows its own pair of keys: the forward axis is +1 with W alone,
/// -1 with S alone and 0 otherwise, whatever A and D are; the sideways axis is
/// +1 with D alone, -1 with A alone and 0 otherwise, whatever W and S are.
pub proof fn lemma_axes_follow_own_keys(keys: KeyInput, other: KeyInput)
    ensures
        keys.spec_direction() == (if keys.forward && !keys.backward {
            1int
        } else if keys.backward && !keys.forward {
            -1int
        } else {
            0int
        }),
        keys.spec_lateral() == (if keys.right && !keys.left {
            1int
        } else if keys.left && !keys.right {
            -1int
        } else {
            0int
        }),
        keys.left == other.left && keys.right == other.right ==> keys.spec_lateral()
            == other.spec_lateral(),
        keys.forward == other.forward && keys.backward == other.backward ==> keys.spec_direction()
            == other.spec_direction(),
{
}

/// Opposing keys cancel: the input is idle exactly when forward and backward
/// are both held or both released, and so are left and right.
pub proof fn lemma_idle_iff_opposing_keys_cancel(keys: KeyInput)
    ensures
        (keys.spec_direction() == 0 && keys.spec_lateral() == 0) <==> (keys.forward
            == keys.backward && keys.left == keys.right),
{
}

} // verus!
