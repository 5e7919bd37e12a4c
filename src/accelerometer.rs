use vstd::prelude::*;

verus! {

/// Accelerometer operating mode.
#[derive(Clone, Copy, PartialEq, Eq, Structural, Debug)]
pub enum AccelerometerPowerMode {
    LowPower,
    NormalPower,
    HighPerformance,
}

/// Accelerometer full-scale range.
#[derive(Clone, Copy, PartialEq, Eq, Structural, Debug)]
pub enum AccelerometerScale {
    Scale2g,
    Scale4g,
    Scale8g,
    Scale16g,
}

/// The bits of CTRL1_XL that hold the accelerometer scale.
pub const ACCELEROMETER_SCALE_MASK: u8 = 0b0000_1100;

impl AccelerometerScale {
    /// The field pattern of this scale within CTRL1_XL.
    pub open spec fn spec_bits(self) -> u8 {
        match self {
            AccelerometerScale::Scale2g => 0b0000_0000,
            AccelerometerScale::Scale4g => 0b0000_1000,
            AccelerometerScale::Scale8g => 0b0000_1100,
            AccelerometerScale::Scale16g => 0b0000_0100,
        }
    }

    /// The field pattern of this scale within CTRL1_XL.
    pub fn bits(self) -> (r: u8)
        ensures
            r == self.spec_bits(),
            r & !ACCELEROMETER_SCALE_MASK == 0,
    {
        let r: u8 = match self {
            AccelerometerScale::Scale2g => 0b0000_0000,
            AccelerometerScale::Scale4g => 0b0000_1000,
            AccelerometerScale::Scale8g => 0b0000_1100,
            AccelerometerScale::Scale16g => 0b0000_0100,
        };
        assert(r & !0b0000_1100u8 == 0) by (bit_vector)
            requires
                r == 0 || r == 0b1000 || r == 0b1100 || r == 0b0100,
        ;
        r
    }
}

} // verus!

verus! {

/// Setting the accelerometer scale changes only the scale bits of CTRL1_XL:
/// whatever byte was read, the byte written back keeps every bit outside
/// `ACCELEROMETER_SCALE_MASK` and holds the scale's pattern inside it.
pub proof fn lemma_accelerometer_scale_keeps_other_bits(
    before: Seq<crate::device::Transaction>,
    after: Seq<crate::device::Transaction>,
    scale: AccelerometerScale,
)
    requires
        crate::device::masked_write(
            before,
            after,
            crate::register::Register::CTRL1_XL,
            ACCELEROMETER_SCALE_MASK,
            scale.spec_bits(),
        ),
    ensures
        after.len() == before.len() + 2,
        after.subrange(0, before.len() as int) == before,
        ({
            let read = after[before.len() as int]->Read_bytes[0];
            let written = after[before.len() + 1int]->Write_bytes[0];
            &&& after[before.len() as int] == crate::device::read_of(crate::register::Register::CTRL1_XL, read)
            &&& after[before.len() + 1int] == crate::device::write_of(crate::register::Register::CTRL1_XL, written)
            &&& written & !ACCELEROMETER_SCALE_MASK == read & !ACCELEROMETER_SCALE_MASK
            &&& written & ACCELEROMETER_SCALE_MASK == scale.spec_bits()
        }),
{
    let p = scale.spec_bits();
    assert(p & !0b0000_1100u8 == 0) by (bit_vector)
        requires
            p == 0 || p == 0b1000 || p == 0b1100 || p == 0b0100,
    ;
    crate::device::lemma_masked_write_keeps_other_bits(
        before,
        after,
        crate::register::Register::CTRL1_XL,
        ACCELEROMETER_SCALE_MASK,
        p,
    );
}

} // verus!
