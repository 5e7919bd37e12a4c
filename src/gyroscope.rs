use vstd::prelude::*;

verus! {

/// Gyroscope operating mode, which determines power consumption, speed, etc.
#[derive(Clone, Copy, PartialEq, Eq, Structural, Debug)]
pub enum GyroscopePowerMode {
    LowPower,
    NormalPower,
    HighPerformance,
}

/// Gyroscope full-scale range, in degrees per second.
#[derive(Clone, Copy, PartialEq, Eq, Structural, Debug)]
pub enum GyroscopeScale {
    Scale125Dps,
    Scale250Dps,
    Scale500Dps,
    Scale1000Dps,
    Scale2000Dps,
}

/// The bits of CTRL2_G that hold the gyroscope scale, the 125 dps bit included.
pub const GYROSCOPE_SCALE_MASK: u8 = 0b0000_1111;

impl GyroscopeScale {
    /// The field pattern of this scale within CTRL2_G.
    pub open spec fn spec_bits(self) -> u8 {
        match self {
            GyroscopeScale::Scale125Dps => 0b0000_0010,
            GyroscopeScale::Scale250Dps => 0b0000_0000,
            GyroscopeScale::Scale500Dps => 0b0000_0100,
            GyroscopeScale::Scale1000Dps => 0b0000_1000,
            GyroscopeScale::Scale2000Dps => 0b0000_1100,
        }
    }

    /// The field pattern of this scale within CTRL2_G.
    pub fn bits(self) -> (r: u8)
        ensures
            r == self.spec_bits(),
            r & !GYROSCOPE_SCALE_MASK == 0,
    {
        let r: u8 = match self {
            GyroscopeScale::Scale125Dps => 0b0000_0010,
            GyroscopeScale::Scale250Dps => 0b0000_0000,
            GyroscopeScale::Scale500Dps => 0b0000_0100,
            GyroscopeScale::Scale1000Dps => 0b0000_1000,
            GyroscopeScale::Scale2000Dps => 0b0000_1100,
        };
        assert(r & !0b0000_1111u8 == 0) by (bit_vector)
            requires
                r <= 0b1111,
        ;
        r
    }
}

} // verus!
