use vstd::prelude::*;

verus! {

/// The documented register map of the chip.
#[derive(Clone, Copy, PartialEq, Eq, Structural, Debug)]
#[allow(non_camel_case_types)]
pub enum Register {
    /// Self identification
    WHO_AM_I,
    /// Embedded functions configuration
    FUNC_CFG_ACCESS,
    /// FIFO control
    FIFO_CTRL1,
    FIFO_CTRL2,
    FIFO_CTRL3,
    FIFO_CTRL4,
    FIFO_CTRL5,
    ORIENT_CFG_G,
    /// Interrupt pin controls
    INT1_CTRL,
    INT2_CTRL,
    /// Accelerometer & gyroscope controls
    CTRL1_XL,
    CTRL2_G,
    CTRL3_C,
    CTRL4_C,
    CTRL5_C,
    CTRL6_C,
    CTRL7_G,
    CTRL8_XL,
    CTRL9_XL,
    CTRL10_C,
    /// Interrupts & functions
    WAKE_UP_SRC,
    TAP_SRC,
    D6D_SRC,
    /// Status
    STATUS_REG,
    /// Temperature output
    OUT_TEMP_L,
    OUT_TEML_H,
    /// Gyroscope output
    OUT_X_L_G,
    OUT_X_H_G,
    OUT_Y_L_G,
    OUT_Y_H_G,
    OUT_Z_L_G,
    OUT_Z_H_G,
    /// Accelerometer output
    OUT_X_L_XL,
    OUT_X_H_XL,
    OUT_Y_L_XL,
    OUT_Y_H_XL,
    OUT_Z_L_XL,
    OUT_Z_H_XL,
    /// FIFO status
    FIFO_STATUS_1,
    FIFO_STATUS_2,
    FIFO_STATUS_3,
    FIFO_STATUS_4,
    /// FIFO data output
    FIFO_DATA_OUT_L,
    FIFO_DATA_OUT_H,
    /// Timestamp output
    TIMESTAMP0_REG,
    TIMESTAMP1_REG,
    TIMESTAMP2_REG,
    /// Step counter timestamp registers
    STEP_TIMESTAMP_L,
    STEP_TIMESTAMP_H,
    /// Interrupt register
    FUNC_SRC,
    TAP_CFG,
    TAP_THS_6D,
    INT_DUR2,
    WAKE_UP_THS,
    WAKE_UP_DUR,
    FREE_FALL,
    MD1_CFG,
    MD2_CFG,
}

impl Register {
    /// The register's byte address in the chip's memory map.
    pub open spec fn spec_address(self) -> u8 {
        match self {
            Register::WHO_AM_I => 0x0F,
            Register::FUNC_CFG_ACCESS => 0x01,
            Register::FIFO_CTRL1 => 0x06,
            Register::FIFO_CTRL2 => 0x07,
            Register::FIFO_CTRL3 => 0x08,
            Register::FIFO_CTRL4 => 0x09,
            Register::FIFO_CTRL5 => 0x0A,
            Register::ORIENT_CFG_G => 0x0B,
            Register::INT1_CTRL => 0x0D,
            Register::INT2_CTRL => 0x0E,
            Register::CTRL1_XL => 0x10,
            Register::CTRL2_G => 0x11,
            Register::CTRL3_C => 0x12,
            Register::CTRL4_C => 0x13,
            Register::CTRL5_C => 0x14,
            Register::CTRL6_C => 0x15,
            Register::CTRL7_G => 0x16,
            Register::CTRL8_XL => 0x17,
            Register::CTRL9_XL => 0x18,
            Register::CTRL10_C => 0x19,
            Register::WAKE_UP_SRC => 0x1B,
            Register::TAP_SRC => 0x1C,
            Register::D6D_SRC => 0x1D,
            Register::STATUS_REG => 0x1E,
            Register::OUT_TEMP_L => 0x20,
            Register::OUT_TEML_H => 0x21,
            Register::OUT_X_L_G => 0x22,
            Register::OUT_X_H_G => 0x23,
            Register::OUT_Y_L_G => 0x24,
            Register::OUT_Y_H_G => 0x25,
            Register::OUT_Z_L_G => 0x26,
            Register::OUT_Z_H_G => 0x27,
            Register::OUT_X_L_XL => 0x28,
            Register::OUT_X_H_XL => 0x29,
            Register::OUT_Y_L_XL => 0x2A,
            Register::OUT_Y_H_XL => 0x2B,
            Register::OUT_Z_L_XL => 0x2C,
            Register::OUT_Z_H_XL => 0x2D,
            Register::FIFO_STATUS_1 => 0x3A,
            Register::FIFO_STATUS_2 => 0x3B,
            Register::FIFO_STATUS_3 => 0x3C,
            Register::FIFO_STATUS_4 => 0x3D,
            Register::FIFO_DATA_OUT_L => 0x3E,
            Register::FIFO_DATA_OUT_H => 0x3F,
            Register::TIMESTAMP0_REG => 0x40,
            Register::TIMESTAMP1_REG => 0x41,
            Register::TIMESTAMP2_REG => 0x42,
            Register::STEP_TIMESTAMP_L => 0x49,
            Register::STEP_TIMESTAMP_H => 0x4A,
            Register::FUNC_SRC => 0x53,
            Register::TAP_CFG => 0x58,
            Register::TAP_THS_6D => 0x59,
            Register::INT_DUR2 => 0x5A,
            Register::WAKE_UP_THS => 0x5B,
            Register::WAKE_UP_DUR => 0x5C,
            Register::FREE_FALL => 0x5D,
            Register::MD1_CFG => 0x5E,
            Register::MD2_CFG => 0x5F,
        }
    }

    /// The byte address of this register.
    pub fn address(self) -> (r: u8)
        ensures
            r == self.spec_address(),
    {
        match self {
            Register::WHO_AM_I => 0x0F,
            Register::FUNC_CFG_ACCESS => 0x01,
            Register::FIFO_CTRL1 => 0x06,
            Register::FIFO_CTRL2 => 0x07,
            Register::FIFO_CTRL3 => 0x08,
            Register::FIFO_CTRL4 => 0x09,
            Register::FIFO_CTRL5 => 0x0A,
            Register::ORIENT_CFG_G => 0x0B,
            Register::INT1_CTRL => 0x0D,
            Register::INT2_CTRL => 0x0E,
            Register::CTRL1_XL => 0x10,
            Register::CTRL2_G => 0x11,
            Register::CTRL3_C => 0x12,
            Register::CTRL4_C => 0x13,
            Register::CTRL5_C => 0x14,
            Register::CTRL6_C => 0x15,
            Register::CTRL7_G => 0x16,
            Register::CTRL8_XL => 0x17,
            Register::CTRL9_XL => 0x18,
            Register::CTRL10_C => 0x19,
            Register::WAKE_UP_SRC => 0x1B,
            Register::TAP_SRC => 0x1C,
            Register::D6D_SRC => 0x1D,
            Register::STATUS_REG => 0x1E,
            Register::OUT_TEMP_L => 0x20,
            Register::OUT_TEML_H => 0x21,
            Register::OUT_X_L_G => 0x22,
            Register::OUT_X_H_G => 0x23,
            Register::OUT_Y_L_G => 0x24,
            Register::OUT_Y_H_G => 0x25,
            Register::OUT_Z_L_G => 0x26,
            Register::OUT_Z_H_G => 0x27,
            Register::OUT_X_L_XL => 0x28,
            Register::OUT_X_H_XL => 0x29,
            Register::OUT_Y_L_XL => 0x2A,
            Register::OUT_Y_H_XL => 0x2B,
            Register::OUT_Z_L_XL => 0x2C,
            Register::OUT_Z_H_XL => 0x2D,
            Register::FIFO_STATUS_1 => 0x3A,
            Register::FIFO_STATUS_2 => 0x3B,
            Register::FIFO_STATUS_3 => 0x3C,
            Register::FIFO_STATUS_4 => 0x3D,
            Register::FIFO_DATA_OUT_L => 0x3E,
            Register::FIFO_DATA_OUT_H => 0x3F,
            Register::TIMESTAMP0_REG => 0x40,
            Register::TIMESTAMP1_REG => 0x41,
            Register::TIMESTAMP2_REG => 0x42,
            Register::STEP_TIMESTAMP_L => 0x49,
            Register::STEP_TIMESTAMP_H => 0x4A,
            Register::FUNC_SRC => 0x53,
            Register::TAP_CFG => 0x58,
            Register::TAP_THS_6D => 0x59,
            Register::INT_DUR2 => 0x5A,
            Register::WAKE_UP_THS => 0x5B,
            Register::WAKE_UP_DUR => 0x5C,
            Register::FREE_FALL => 0x5D,
            Register::MD1_CFG => 0x5E,
            Register::MD2_CFG => 0x5F,
        }
    }
}

} // verus!

verus! {

/// CTRL3_C: reboot memory content.
pub const CTRL3_C_BOOT: u8 = 0b1000_0000;
/// CTRL3_C: block data update; output registers hold until both bytes are read.
pub const CTRL3_C_BDU: u8 = 0b0100_0000;
/// CTRL3_C: interrupt activation level.
pub const CTRL3_C_H_LACTIVE: u8 = 0b0010_0000;
/// CTRL3_C: push-pull or open-drain interrupt pads.
pub const CTRL3_C_PP_OD: u8 = 0b0001_0000;
/// CTRL3_C: SPI serial interface mode.
pub const CTRL3_C_SIM: u8 = 0b0000_1000;
/// CTRL3_C: register address auto-increment.
pub const CTRL3_C_IF_INC: u8 = 0b0000_0100;
/// CTRL3_C: big-endian data selection.
pub const CTRL3_C_BIG_ENDIAN: u8 = 0b0000_0010;
/// CTRL3_C: software reset; the chip clears it when the reset is done.
pub const CTRL3_C_SW_RESET: u8 = 0b0000_0001;

/// Distinct registers have distinct addresses.
pub proof fn lemma_address_injective(a: Register, b: Register)
    ensures
        a.spec_address() == b.spec_address() <==> a == b,
{
}

} // verus!
