//! The camera: three coordinates, each kept inside a closed interval around
//! zero, looking at a fixed target.
//!
//! A coordinate is an IEEE-754 binary32 value carried by its bit pattern. The
//! top bit is the sign and the remaining 31 bits, read as an integer, grow
//! with the magnitude; infinities and NaNs have the largest magnitudes.

use vstd::prelude::*;

verus! {

/// The sign bit of a binary32 pattern.
pub const SIGN_BIT: u32 = 0x8000_0000;

/// The bit pattern of five, the largest magnitude a coordinate may have.
pub const LIMIT_BITS: u32 = 0x40A0_0000;

/// The bit pattern of minus five.
pub const NEG_LIMIT_BITS: u32 = 0xC0A0_0000;

/// The bit pattern of one half, each coordinate of the look-at target.
pub const HALF_BITS: u32 = 0x3F00_0000;

/// The bit pattern of zero.
pub const ZERO_BITS: u32 = 0;

/// The bit pattern of one.
pub const ONE_BITS: u32 = 0x3F80_0000;

/// An integer that orders bit patterns as the values they stand for are
/// ordered: the magnitude bits, negated where the sign bit is set. Both zeros
/// have key 0; a NaN has a key beyond that of the infinity of its sign.
pub open spec fn order_key(bits: u32) -> int {
    if bits < SIGN_BIT {
        bits as int
    } else {
        -(bits - SIGN_BIT)
    }
}

/// Whether a bit pattern stands for a value between minus five and five,
/// both included. No infinity and no NaN is in range.
pub open spec fn in_range(bits: u32) -> bool {
    -(LIMIT_BITS as int) <= order_key(bits) <= LIMIT_BITS as int
}

/// What clamping makes of a bit pattern: the nearer limit where it is out of
/// range, itself otherwise.
pub open spec fn clamped(bits: u32) -> u32 {
    if order_key(bits) > LIMIT_BITS as int {
        LIMIT_BITS
    } else if order_key(bits) < -(LIMIT_BITS as int) {
        NEG_LIMIT_BITS
    } else {
        bits
    }
}

/// Clamps a coordinate to the closed interval from minus five to five. A NaN
/// goes to the limit of its sign, so the result is always in range.
pub fn clamp_coordinate(bits: u32) -> (r: u32)
    ensures
        r == clamped(bits),
        in_range(r),
        in_range(bits) ==> r == bits,
{
    if bits < SIGN_BIT {
        if bits > LIMIT_BITS {
            LIMIT_BITS
        } else {
            bits
        }
    } else if bits > NEG_LIMIT_BITS {
        NEG_LIMIT_BITS
    } else {
        bits
    }
}

/// The camera's position. Every coordinate is in range at all times.
#[derive(Clone, Copy, Debug, PartialEq, Eq, Structural)]
pub struct Camera {
    x: u32,
    y: u32,
    z: u32,
}

impl Camera {
    #[verifier::type_invariant]
    spec fn inv(self) -> bool {
        in_range(self.x) && in_range(self.y) && in_range(self.z)
    }

    /// The bit pattern of the first coordinate.
    pub closed spec fn spec_x(self) -> u32 {
        self.x
    }

    /// The bit pattern of the second coordinate.
    pub closed spec fn spec_y(self) -> u32 {
        self.y
    }

    /// The bit pattern of the third coordinate.
    pub closed spec fn spec_z(self) -> u32 {
        self.z
    }

    /// The camera's invariant: each coordinate is in range.
    pub open spec fn wf(self) -> bool {
        in_range(self.spec_x()) && in_range(self.spec_y()) && in_range(self.spec_z())
    }

    /// A camera at the given position, each coordinate clamped.
    pub fn new(x: u32, y: u32, z: u32) -> (r: Camera)
        ensures
            r.wf(),
            r.spec_x() == clamped(x),
            r.spec_y() == clamped(y),
            r.spec_z() == clamped(z),
    {
        Camera { x: clamp_coordinate(x), y: clamp_coordinate(y), z: clamp_coordinate(z) }
    }

    /// The starting position: five, minus five, five.
    pub fn initial() -> (r: Camera)
        ensures
            r.wf(),
            r.spec_x() == LIMIT_BITS,
            r.spec_y() == NEG_LIMIT_BITS,
            r.spec_z() == LIMIT_BITS,
    {
        Camera { x: LIMIT_BITS, y: NEG_LIMIT_BITS, z: LIMIT_BITS }
    }

    /// The bit pattern of the first coordinate, which is in range.
    pub fn x(&self) -> (r: u32)
        ensures
            r == self.spec_x(),
            in_range(r),
            self.wf(),
    {
        proof {
            use_type_invariant(self);
        }
        self.x
    }

    /// The bit pattern of the second coordinate, which is in range.
    pub fn y(&self) -> (r: u32)
        ensures
            r == self.spec_y(),
            in_range(r),
            self.wf(),
    {
        proof {
            use_type_invariant(self);
        }
        self.y
    }

    /// The bit pattern of the third coordinate, which is in range.
    pub fn z(&self) -> (r: u32)
        ensures
            r == self.spec_z(),
            in_range(r),
            self.wf(),
    {
        proof {
            use_type_invariant(self);
        }
        self.z
    }

    /// Stores an edit of the first coordinate, clamped.
    pub fn set_x(&mut self, bits: u32)
        ensures
            final(self).spec_x() == clamped(bits),
            final(self).spec_y() == old(self).spec_y(),
            final(self).spec_z() == old(self).spec_z(),
            final(self).wf(),
    {
        proof {
            use_type_invariant(&*self);
        }
        self.x = clamp_coordinate(bits);
    }

    /// Stores an edit of the second coordinate, clamped.
    pub fn set_y(&mut self, bits: u32)
        ensures
            final(self).spec_x() == old(self).spec_x(),
            final(self).spec_y() == clamped(bits),
            final(self).spec_z() == old(self).spec_z(),
            final(self).wf(),
    {
        proof {
            use_type_invariant(&*self);
        }
        self.y = clamp_coordinate(bits);
    }

    /// Stores an edit of the third coordinate, clamped.
    pub fn set_z(&mut self, bits: u32)
        ensures
            final(self).spec_x() == old(self).spec_x(),
            final(self).spec_y() == old(self).spec_y(),
            final(self).spec_z() == clamped(bits),
            final(self).wf(),
    {
        proof {
            use_type_invariant(&*self);
        }
        self.z = clamp_coordinate(bits);
    }
}

/// Clamping lands in range whatever the input, leaves a value in range as it
/// is, and sends a value beyond a limit to that limit.
pub proof fn lemma_clamped_in_range(bits: u32)
    ensures
        in_range(clamped(bits)),
        in_range(bits) ==> clamped(bits) == bits,
        order_key(bits) > order_key(LIMIT_BITS) ==> clamped(bits) == LIMIT_BITS,
        order_key(bits) < order_key(NEG_LIMIT_BITS) ==> clamped(bits) == NEG_LIMIT_BITS,
        clamped(clamped(bits)) == clamped(bits),
{
}

} // verus!
