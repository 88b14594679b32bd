//! Messages exchanged with the bridge's topics, and the representation of
//! IEEE 754 single-precision values that they carry.

use vstd::prelude::*;

verus! {

/// An IEEE 754 binary32 value, held as its bit pattern.
#[derive(Clone, Copy, Debug, PartialEq, Eq, Structural)]
pub struct IeeeSingle {
    pub bits: u32,
}

impl IeeeSingle {
    /// The biased exponent field.
    pub open spec fn exponent(self) -> int {
        (self.bits as int / 0x80_0000) % 0x100
    }

    /// The significand field.
    pub open spec fn significand(self) -> int {
        self.bits as int % 0x80_0000
    }

    /// Whether the value is a NaN.
    pub open spec fn is_nan(self) -> bool {
        self.exponent() == 0xff && self.significand() != 0
    }

    /// An integer that orders the non-NaN values as their real values are
    /// ordered: the magnitude bits, negated for a set sign bit (so that the two
    /// zeros meet at 0).
    pub open spec fn order_key(self) -> int {
        let magnitude = self.bits as int % 0x8000_0000;
        if self.bits >= 0x8000_0000 {
            -magnitude
        } else {
            magnitude
        }
    }

    /// `self < other` as IEEE 754 compares.
    pub open spec fn spec_lt(self, other: IeeeSingle) -> bool {
        !self.is_nan() && !other.is_nan() && self.order_key() < other.order_key()
    }

    /// `self <= other` as IEEE 754 compares.
    pub open spec fn spec_le(self, other: IeeeSingle) -> bool {
        !self.is_nan() && !other.is_nan() && self.order_key() <= other.order_key()
    }

    pub fn is_nan_exec(self) -> (res: bool)
        ensures
            res == self.is_nan(),
    {
        let e = (self.bits / 0x80_0000) % 0x100;
        let m = self.bits % 0x80_0000;
        e == 0xff && m != 0
    }

    fn order_key_exec(self) -> (res: i64)
        ensures
            res == self.order_key(),
    {
        let magnitude: i64 = (self.bits % 0x8000_0000) as i64;
        if self.bits >= 0x8000_0000 {
            -magnitude
        } else {
            magnitude
        }
    }

    /// `self < other` as IEEE 754 compares.
    pub fn lt(self, other: IeeeSingle) -> (res: bool)
        ensures
            res == self.spec_lt(other),
    {
        !self.is_nan_exec() && !other.is_nan_exec() && self.order_key_exec()
            < other.order_key_exec()
    }

    /// `self <= other` as IEEE 754 compares.
    pub fn le(self, other: IeeeSingle) -> (res: bool)
        ensures
            res == self.spec_le(other),
    {
        !self.is_nan_exec() && !other.is_nan_exec() && self.order_key_exec()
            <= other.order_key_exec()
    }
}

/// The IEEE 754 comparisons, read off the bits: a NaN (magnitude bits
/// above those of infinity) compares with nothing; the two zeros are equal;
/// between two values of the same sign the larger magnitude bits are larger
/// for positive values and smaller for negative ones; a negative value is
/// below a positive one; `<=` is `<` or equality of value.
pub proof fn single_comparisons_follow_the_bits(x: IeeeSingle, y: IeeeSingle)
    ensures
        x.is_nan() <==> x.bits as int % 0x8000_0000 > 0x7f80_0000,
        x.bits as int % 0x8000_0000 > 0x7f80_0000 ==> !x.spec_lt(y) && !x.spec_le(y) && !y.spec_lt(x)
            && !y.spec_le(x),
        (x.bits == 0 || x.bits == 0x8000_0000) && (y.bits == 0 || y.bits == 0x8000_0000) ==> x.spec_le(
            y,
        ) && !x.spec_lt(y),
        (x.bits < 0x7f80_0001 && y.bits < 0x7f80_0001) ==> (x.spec_lt(y) <==> x.bits < y.bits),
        (0x8000_0000 <= x.bits < 0xff80_0001 && 0x8000_0000 <= y.bits < 0xff80_0001) ==> (x.spec_lt(y)
            <==> x.bits > y.bits),
        (0x8000_0000 < x.bits < 0xff80_0001 && 0 < y.bits < 0x7f80_0001) ==> x.spec_lt(y),
        x.spec_le(y) <==> (x.spec_lt(y) || (!x.is_nan() && !y.is_nan() && !y.spec_lt(x))),
{
    let xb = x.bits as int;
    assert(x.exponent() == (xb / 0x80_0000) % 0x100);
    assert(x.is_nan() <==> xb % 0x8000_0000 > 0x7f80_0000) by (nonlinear_arith)
        requires
            0 <= xb < 0x1_0000_0000,
            x.exponent() == (xb / 0x80_0000) % 0x100,
            x.significand() == xb % 0x80_0000,
            x.is_nan() == (x.exponent() == 0xff && x.significand() != 0),
    ;
    let yb = y.bits as int;
    assert(y.is_nan() <==> yb % 0x8000_0000 > 0x7f80_0000) by (nonlinear_arith)
        requires
            0 <= yb < 0x1_0000_0000,
            y.exponent() == (yb / 0x80_0000) % 0x100,
            y.significand() == yb % 0x80_0000,
            y.is_nan() == (y.exponent() == 0xff && y.significand() != 0),
    ;
    assert(xb < 0x8000_0000 ==> xb % 0x8000_0000 == xb);
    assert(xb >= 0x8000_0000 ==> xb % 0x8000_0000 == xb - 0x8000_0000);
    assert(yb < 0x8000_0000 ==> yb % 0x8000_0000 == yb);
    assert(yb >= 0x8000_0000 ==> yb % 0x8000_0000 == yb - 0x8000_0000);
}

/// A command for one joint, as received on its command topics.
#[derive(Clone, Debug)]
pub struct MotorCommand {
    pub op: String,
    pub pos: Option<IeeeSingle>,
    pub vel: Option<IeeeSingle>,
    pub kp: Option<IeeeSingle>,
    pub kd: Option<IeeeSingle>,
    pub tau: Option<IeeeSingle>,
    pub vlim: Option<IeeeSingle>,
    pub ratio: Option<IeeeSingle>,
    pub continuous: Option<bool>,
    pub request_id: Option<String>,
}

/// The state of one joint, as published on its state topics.
#[derive(Clone, Debug)]
pub struct MotorState {
    pub joint_name: String,
    pub enabled: bool,
    pub pos: Option<IeeeSingle>,
    pub vel: Option<IeeeSingle>,
    pub torque: Option<IeeeSingle>,
    pub t_mos: Option<IeeeSingle>,
    pub t_rotor: Option<IeeeSingle>,
    pub status_code: Option<u8>,
    pub status_name: Option<String>,
    pub ts_millis: i64,
}

/// An emergency-stop message.
#[derive(Clone, Copy, Debug)]
pub struct EStopMessage {
    pub engaged: bool,
}

/// A `std_msgs/String` message.
#[derive(Clone, Debug)]
pub struct RosString {
    pub data: String,
}

} // verus!
