pub mod accelerometer;
pub mod device;
pub mod gyroscope;
pub mod register;

pub use accelerometer::{AccelerometerPowerMode, AccelerometerScale, ACCELEROMETER_SCALE_MASK};
pub use device::{Bus, BusCall, Device, I2CDevice, Transaction, MAX_WRITE_LEN};
pub use gyroscope::{GyroscopePowerMode, GyroscopeScale, GYROSCOPE_SCALE_MASK};
pub use register::{
    Register, CTRL3_C_BDU, CTRL3_C_BIG_ENDIAN, CTRL3_C_BOOT, CTRL3_C_H_LACTIVE, CTRL3_C_IF_INC,
    CTRL3_C_PP_OD, CTRL3_C_SIM, CTRL3_C_SW_RESET,
};

use vstd::prelude::*;

verus! {


/// The identity byte that WHO_AM_I holds on this chip.
pub const LSM6D33_CHIP_ID: u8 = 0x69;

/// What can go wrong when talking to the sensor.
#[derive(Debug)]
pub enum Error<E> {
    /// A bus transaction failed, or the device could not be brought up.
    CommunicationError,
    /// Reserved for faults on extra pins (interrupt lines, chip select); never raised.
    PinError,
    /// WHO_AM_I did not hold the identity byte of this chip.
    UnknownChipId,
    /// An error of the underlying device, passed on as it was.
    BusError(E),
}

impl<E> From<E> for Error<E> {
    fn from(err: E) -> (r: Self)
        ensures
            r == Error::BusError(err),
    {
        Error::BusError(err)
    }
}

impl<E> vstd::std_specs::convert::FromSpecImpl<E> for Error<E> {
    open spec fn obeys_from_spec() -> bool {
        true
    }

    open spec fn from_spec(v: E) -> Self {
        Error::BusError(v)
    }
}

/// Output data rate of a sub-sensor.
#[derive(Clone, Copy, PartialEq, Eq, Structural, Debug)]
pub enum DataRate {
    ODR12_5Hz,
    ODR26Hz,
    ODR52Hz,
    ODR104Hz,
    ODR208Hz,
    ODR416Hz,
    ODR833Hz,
    ODR1_66Khz,
    ODR3_33Khz,
    ODR6_66Khz,
}

/// The bits of CTRL1_XL and of CTRL2_G that hold the output data rate.
pub const ODR_MASK: u8 = 0b1111_0000;

impl DataRate {
    /// The field pattern of this rate, the same in CTRL1_XL and in CTRL2_G.
    pub open spec fn spec_bits(self) -> u8 {
        match self {
            DataRate::ODR12_5Hz => 0b0001_0000,
            DataRate::ODR26Hz => 0b0010_0000,
            DataRate::ODR52Hz => 0b0011_0000,
            DataRate::ODR104Hz => 0b0100_0000,
            DataRate::ODR208Hz => 0b0101_0000,
            DataRate::ODR416Hz => 0b0110_0000,
            DataRate::ODR833Hz => 0b0111_0000,
            DataRate::ODR1_66Khz => 0b1000_0000,
            DataRate::ODR3_33Khz => 0b1001_0000,
            DataRate::ODR6_66Khz => 0b1010_0000,
        }
    }

    /// The rate whose pattern fills the data-rate field of the register value
    /// `value`, if there is one.
    pub open spec fn spec_from_register(value: u8) -> Option<DataRate> {
        if exists|d: DataRate| #[trigger] d.spec_bits() == value & ODR_MASK {
            Some(choose|d: DataRate| #[trigger] d.spec_bits() == value & ODR_MASK)
        } else {
            None
        }
    }

    /// The field pattern of this rate, the same in CTRL1_XL and in CTRL2_G.
    pub fn bits(self) -> (r: u8)
        ensures
            r == self.spec_bits(),
            r & !ODR_MASK == 0,
    {
        let r: u8 = match self {
            DataRate::ODR12_5Hz => 0b0001_0000,
            DataRate::ODR26Hz => 0b0010_0000,
            DataRate::ODR52Hz => 0b0011_0000,
            DataRate::ODR104Hz => 0b0100_0000,
            DataRate::ODR208Hz => 0b0101_0000,
            DataRate::ODR416Hz => 0b0110_0000,
            DataRate::ODR833Hz => 0b0111_0000,
            DataRate::ODR1_66Khz => 0b1000_0000,
            DataRate::ODR3_33Khz => 0b1001_0000,
            DataRate::ODR6_66Khz => 0b1010_0000,
        };
        assert(r & !0b1111_0000u8 == 0) by (bit_vector)
            requires
                r == 0x10 || r == 0x20 || r == 0x30 || r == 0x40 || r == 0x50 || r == 0x60
                    || r == 0x70 || r == 0x80 || r == 0x90 || r == 0xA0,
        ;
        r
    }

    /// Reads the data rate back out of a CTRL1_XL or CTRL2_G value.
    pub fn from_register(value: u8) -> (r: Option<DataRate>)
        ensures
            r == DataRate::spec_from_register(value),
    {
        let field: u8 = value & ODR_MASK;
        let r = if field == 0b0001_0000 {
            Some(DataRate::ODR12_5Hz)
        } else if field == 0b0010_0000 {
            Some(DataRate::ODR26Hz)
        } else if field == 0b0011_0000 {
            Some(DataRate::ODR52Hz)
        } else if field == 0b0100_0000 {
            Some(DataRate::ODR104Hz)
        } else if field == 0b0101_0000 {
            Some(DataRate::ODR208Hz)
        } else if field == 0b0110_0000 {
            Some(DataRate::ODR416Hz)
        } else if field == 0b0111_0000 {
            Some(DataRate::ODR833Hz)
        } else if field == 0b1000_0000 {
            Some(DataRate::ODR1_66Khz)
        } else if field == 0b1001_0000 {
            Some(DataRate::ODR3_33Khz)
        } else if field == 0b1010_0000 {
            Some(DataRate::ODR6_66Khz)
        } else {
            None
        };
        proof {
            lemma_data_rate_bits_injective();
            match r {
                Some(d) => assert(d.spec_bits() == field),
                None => assert(forall|d: DataRate| #[trigger] d.spec_bits() != field),
            }
        }
        r
    }
}

proof fn lemma_data_rate_bits_injective()
    ensures
        forall|a: DataRate, b: DataRate| #[trigger] a.spec_bits() == #[trigger] b.spec_bits() ==> a == b,
{
}

/// Writing a data rate's pattern into the data-rate field of any register
/// value, with the other bits kept, reads back as that same data rate.
pub proof fn lemma_data_rate_round_trip(rate: DataRate, value: u8)
    ensures
        DataRate::spec_from_register((value & !ODR_MASK) | rate.spec_bits()) == Some(rate),
{
    let p = rate.spec_bits();
    let w = (value & !ODR_MASK) | p;
    assert(w & ODR_MASK == p) by (bit_vector)
        requires
            w == (value & !0b1111_0000u8) | p,
            p == 0x10 || p == 0x20 || p == 0x30 || p == 0x40 || p == 0x50 || p == 0x60
                || p == 0x70 || p == 0x80 || p == 0x90 || p == 0xA0,
    {
    }
    lemma_data_rate_bits_injective();
}

} // verus!

verus! {

/// The configuration the driver believes the device to be in. It is set by the
/// driver's own writes and never read back from the device.
#[derive(Clone, Copy, PartialEq, Eq, Structural, Debug)]
pub struct Settings {
    pub accelerometer_power_mode: AccelerometerPowerMode,
    pub accelerometer_scale: AccelerometerScale,
    pub accelerometer_data_rate: DataRate,
    pub gyroscope_data_rate: DataRate,
    pub gyroscope_scale: GyroscopeScale,
}

/// The settings that construction applies.
pub open spec fn default_settings() -> Settings {
    Settings {
        accelerometer_power_mode: AccelerometerPowerMode::NormalPower,
        accelerometer_scale: AccelerometerScale::Scale2g,
        accelerometer_data_rate: DataRate::ODR12_5Hz,
        gyroscope_data_rate: DataRate::ODR12_5Hz,
        gyroscope_scale: GyroscopeScale::Scale125Dps,
    }
}

/// Reads of CTRL3_C that returned `values`, in order.
pub open spec fn ctrl3_reads(values: Seq<u8>) -> Seq<Transaction> {
    values.map_values(|v: u8| device::read_of(Register::CTRL3_C, v))
}

/// At least one and at most `max_polls` values of CTRL3_C, of which only the
/// last has the software-reset bit cleared.
pub open spec fn reset_poll_values(values: Seq<u8>, max_polls: nat) -> bool {
    &&& 1 <= values.len() <= max_polls
    &&& forall|i: int| 0 <= i < values.len() - 1 ==> #[trigger] values[i] & CTRL3_C_SW_RESET != 0
    &&& values.last() & CTRL3_C_SW_RESET == 0
}

/// `after` is `before` followed by a soft reset: the software-reset bit set in
/// CTRL3_C, then CTRL3_C polled until the bit reads back cleared.
pub open spec fn soft_reset_trace(before: Seq<Transaction>, after: Seq<Transaction>, max_polls: nat) -> bool {
    exists|mid: Seq<Transaction>, values: Seq<u8>|
        #[trigger] device::masked_write(before, mid, Register::CTRL3_C, CTRL3_C_SW_RESET, CTRL3_C_SW_RESET)
            && #[trigger] reset_poll_values(values, max_polls) && after == mid + ctrl3_reads(values)
}

/// `after` is `before` followed by the software-reset bit set in CTRL3_C and
/// then `n` polls of CTRL3_C that all still showed the bit set.
pub open spec fn reset_pending(before: Seq<Transaction>, after: Seq<Transaction>, n: nat) -> bool {
    exists|mid: Seq<Transaction>, values: Seq<u8>|
        #[trigger] device::masked_write(before, mid, Register::CTRL3_C, CTRL3_C_SW_RESET, CTRL3_C_SW_RESET)
            && #[trigger] reset_still_set(values) && values.len() == n && after == mid + ctrl3_reads(values)
}

/// Every value in `values` has the software-reset bit set.
pub open spec fn reset_still_set(values: Seq<u8>) -> bool {
    forall|i: int| 0 <= i < values.len() ==> #[trigger] values[i] & CTRL3_C_SW_RESET != 0
}

/// `after` is `before` followed by a soft reset that a device error cut short:
/// either setting the bit failed (nothing written), or fewer than `max_polls`
/// polls, all showing the bit set, were completed before a poll failed.
pub open spec fn reset_interrupted(before: Seq<Transaction>, after: Seq<Transaction>, max_polls: nat) -> bool {
    ||| device::read_at_most_once(before, after, Register::CTRL3_C)
    ||| exists|n: nat| n < max_polls && #[trigger] reset_pending(before, after, n)
}

/// A soft reset, then block data update set in CTRL3_C.
pub open spec fn bdu_enabled(before: Seq<Transaction>, after: Seq<Transaction>, max_polls: nat) -> bool {
    exists|l: Seq<Transaction>|
        #[trigger] soft_reset_trace(before, l, max_polls)
            && device::masked_write(l, after, Register::CTRL3_C, CTRL3_C_BDU, CTRL3_C_BDU)
}

/// `bdu_enabled`, then the default accelerometer data rate in CTRL1_XL.
pub open spec fn accelerometer_rate_applied(before: Seq<Transaction>, after: Seq<Transaction>, max_polls: nat) -> bool {
    exists|l: Seq<Transaction>|
        #[trigger] bdu_enabled(before, l, max_polls)
            && device::masked_write(l, after, Register::CTRL1_XL, ODR_MASK, DataRate::ODR12_5Hz.spec_bits())
}

/// `accelerometer_rate_applied`, then the default accelerometer scale in CTRL1_XL.
pub open spec fn accelerometer_scale_applied(before: Seq<Transaction>, after: Seq<Transaction>, max_polls: nat) -> bool {
    exists|l: Seq<Transaction>|
        #[trigger] accelerometer_rate_applied(before, l, max_polls) && device::masked_write(
            l,
            after,
            Register::CTRL1_XL,
            ACCELEROMETER_SCALE_MASK,
            AccelerometerScale::Scale2g.spec_bits(),
        )
}

/// `accelerometer_scale_applied`, then the default gyroscope data rate in CTRL2_G.
pub open spec fn gyroscope_rate_applied(before: Seq<Transaction>, after: Seq<Transaction>, max_polls: nat) -> bool {
    exists|l: Seq<Transaction>|
        #[trigger] accelerometer_scale_applied(before, l, max_polls)
            && device::masked_write(l, after, Register::CTRL2_G, ODR_MASK, DataRate::ODR12_5Hz.spec_bits())
}

/// `after` is `before` followed by the whole configuration sequence: a soft
/// reset, block data update set in CTRL3_C, the default accelerometer data rate
/// and scale, then the default gyroscope data rate and scale.
pub open spec fn configuration_trace(before: Seq<Transaction>, after: Seq<Transaction>, max_polls: nat) -> bool {
    exists|l: Seq<Transaction>|
        #[trigger] gyroscope_rate_applied(before, l, max_polls) && device::masked_write(
            l,
            after,
            Register::CTRL2_G,
            GYROSCOPE_SCALE_MASK,
            GyroscopeScale::Scale125Dps.spec_bits(),
        )
}

/// `after` is `before` followed by the configuration sequence cut short by a
/// device error: some step completed no write, and no later step ran.
pub open spec fn configuration_cut_short(before: Seq<Transaction>, after: Seq<Transaction>, max_polls: nat) -> bool {
    ||| reset_interrupted(before, after, max_polls)
    ||| exists|l: Seq<Transaction>|
        #[trigger] soft_reset_trace(before, l, max_polls) && device::read_at_most_once(l, after, Register::CTRL3_C)
    ||| exists|l: Seq<Transaction>|
        #[trigger] bdu_enabled(before, l, max_polls) && device::read_at_most_once(l, after, Register::CTRL1_XL)
    ||| exists|l: Seq<Transaction>|
        #[trigger] accelerometer_rate_applied(before, l, max_polls) && device::read_at_most_once(l, after, Register::CTRL1_XL)
    ||| exists|l: Seq<Transaction>|
        #[trigger] accelerometer_scale_applied(before, l, max_polls) && device::read_at_most_once(l, after, Register::CTRL2_G)
    ||| exists|l: Seq<Transaction>|
        #[trigger] gyroscope_rate_applied(before, l, max_polls) && device::read_at_most_once(l, after, Register::CTRL2_G)
}

proof fn lemma_masked_write_extends(before: Seq<Transaction>, after: Seq<Transaction>, reg: Register, mask: u8, bits: u8)
    requires
        device::masked_write(before, after, reg, mask, bits),
    ensures
        after.len() == before.len() + 2,
        forall|k: int| 0 <= k < before.len() ==> after[k] == before[k],
{
}

/// The configuration sequence succeeds only where a read of CTRL3_C showed the
/// software-reset bit cleared: against a device that never clears it, no
/// construction succeeds.
pub proof fn lemma_configuration_saw_reset_complete(before: Seq<Transaction>, after: Seq<Transaction>, max_polls: nat)
    requires
        configuration_trace(before, after, max_polls),
    ensures
        exists|i: int, v: u8|
            #![trigger after[i], device::read_of(Register::CTRL3_C, v)]
            before.len() <= i < after.len() && after[i] == device::read_of(Register::CTRL3_C, v)
                && v & CTRL3_C_SW_RESET == 0,
{
    let l5 = choose|l: Seq<Transaction>|
        #[trigger] gyroscope_rate_applied(before, l, max_polls) && device::masked_write(
            l,
            after,
            Register::CTRL2_G,
            GYROSCOPE_SCALE_MASK,
            GyroscopeScale::Scale125Dps.spec_bits(),
        );
    let l4 = choose|l: Seq<Transaction>|
        #[trigger] accelerometer_scale_applied(before, l, max_polls)
            && device::masked_write(l, l5, Register::CTRL2_G, ODR_MASK, DataRate::ODR12_5Hz.spec_bits());
    let l3 = choose|l: Seq<Transaction>|
        #[trigger] accelerometer_rate_applied(before, l, max_polls) && device::masked_write(
            l,
            l4,
            Register::CTRL1_XL,
            ACCELEROMETER_SCALE_MASK,
            AccelerometerScale::Scale2g.spec_bits(),
        );
    let l2 = choose|l: Seq<Transaction>|
        #[trigger] bdu_enabled(before, l, max_polls)
            && device::masked_write(l, l3, Register::CTRL1_XL, ODR_MASK, DataRate::ODR12_5Hz.spec_bits());
    let l1 = choose|l: Seq<Transaction>|
        #[trigger] soft_reset_trace(before, l, max_polls)
            && device::masked_write(l, l2, Register::CTRL3_C, CTRL3_C_BDU, CTRL3_C_BDU);
    let (mid, values) = choose|mid: Seq<Transaction>, values: Seq<u8>|
        device::masked_write(before, mid, Register::CTRL3_C, CTRL3_C_SW_RESET, CTRL3_C_SW_RESET)
            && reset_poll_values(values, max_polls) && l1 == mid + ctrl3_reads(values);
    lemma_masked_write_extends(before, mid, Register::CTRL3_C, CTRL3_C_SW_RESET, CTRL3_C_SW_RESET);
    lemma_masked_write_extends(l1, l2, Register::CTRL3_C, CTRL3_C_BDU, CTRL3_C_BDU);
    lemma_masked_write_extends(l2, l3, Register::CTRL1_XL, ODR_MASK, DataRate::ODR12_5Hz.spec_bits());
    lemma_masked_write_extends(l3, l4, Register::CTRL1_XL, ACCELEROMETER_SCALE_MASK, AccelerometerScale::Scale2g.spec_bits());
    lemma_masked_write_extends(l4, l5, Register::CTRL2_G, ODR_MASK, DataRate::ODR12_5Hz.spec_bits());
    lemma_masked_write_extends(l5, after, Register::CTRL2_G, GYROSCOPE_SCALE_MASK, GyroscopeScale::Scale125Dps.spec_bits());
    let i = l1.len() - 1;
    let v = values.last();
    assert(l1[i] == device::read_of(Register::CTRL3_C, v));
    assert(after[i] == device::read_of(Register::CTRL3_C, v));
}

/// Decides construction's first step from the device's answer to a read of
/// WHO_AM_I: a failed read is a `CommunicationError`, whatever the device's
/// error was; any byte but the chip's identity is `UnknownChipId`.
pub fn check_identity<E, F>(answer: Result<u8, F>) -> (r: Result<(), Error<E>>)
    ensures
        match answer {
            Ok(id) => if id == LSM6D33_CHIP_ID {
                r is Ok
            } else {
                r matches Err(Error::UnknownChipId)
            },
            Err(_) => r matches Err(Error::CommunicationError),
        },
{
    match answer {
        Ok(id) => {
            if id != LSM6D33_CHIP_ID {
                Err(Error::UnknownChipId)
            } else {
                Ok(())
            }
        },
        Err(_) => Err(Error::CommunicationError),
    }
}


/// Driver for the LSM6DS33 accelerometer and gyroscope.
pub struct LSM6DS33<DEV> {
    dev: DEV,
    settings: Settings,
}

impl<DEV> LSM6DS33<DEV> {
    /// The device the driver owns.
    pub closed spec fn device(&self) -> DEV {
        self.dev
    }

    /// The configuration last applied through this driver.
    pub closed spec fn spec_settings(&self) -> Settings {
        self.settings
    }

    /// The configuration last applied through this driver.
    pub fn settings(&self) -> (r: Settings)
        ensures
            r == self.spec_settings(),
    {
        self.settings
    }
}

impl<E, B: Bus<Error = E>> LSM6DS33<I2CDevice<B>> {
    /// Talks to the chip at `address` on the I2C bus `i2c`; see `new_imu`.
    pub fn new(i2c: B, address: u8) -> (r: Result<Self, Error<Error<E>>>)
        ensures
            r matches Ok(imu) ==> {
                &&& imu.device().peer() == address
                &&& configuration_trace(
                    seq![device::read_of(Register::WHO_AM_I, LSM6D33_CHIP_ID)],
                    imu.device().transactions(),
                    u64::MAX as nat,
                )
                &&& imu.spec_settings() == default_settings()
            },
            r matches Err(e) ==> !(e is PinError),
    {
        let dev = I2CDevice::new(i2c, address);
        assert(dev.transactions().push(device::read_of(Register::WHO_AM_I, LSM6D33_CHIP_ID))
            =~= seq![device::read_of(Register::WHO_AM_I, LSM6D33_CHIP_ID)]);
        Self::new_imu(dev)
    }
}

impl<E, DEV: Device<Error = E>> LSM6DS33<DEV> {
    /// Identifies the chip and brings it into the default configuration; see
    /// `new_imu_with_poll_limit`. The wait for the soft reset is bounded only by
    /// `u64::MAX` polls.
    pub fn new_imu(dev: DEV) -> (r: Result<Self, Error<E>>)
        ensures
            r matches Ok(imu) ==> {
                &&& imu.device().target() == dev.target()
                &&& configuration_trace(
                    dev.transactions().push(device::read_of(Register::WHO_AM_I, LSM6D33_CHIP_ID)),
                    imu.device().transactions(),
                    u64::MAX as nat,
                )
                &&& imu.spec_settings() == default_settings()
            },
            r matches Err(e) ==> !(e is PinError),
    {
        Self::new_imu_with_poll_limit(dev, u64::MAX)
    }

    /// Identifies the chip and brings it into the default configuration.
    ///
    /// WHO_AM_I is read first and `check_identity` decides on the answer: a
    /// failed read gives `CommunicationError`, and any byte but the chip's
    /// identity gives `UnknownChipId`, with nothing else done. Then `initialize`
    /// runs: a `CommunicationError` there means the soft reset did not finish
    /// within `max_polls` polls, and a device error ends the sequence as
    /// `BusError`. The device is dropped on failure, so these outcomes are
    /// stated in full by `check_identity` and by the steps' own contracts.
    pub fn new_imu_with_poll_limit(dev: DEV, max_polls: u64) -> (r: Result<Self, Error<E>>)
        ensures
            r matches Ok(imu) ==> {
                &&& imu.device().target() == dev.target()
                &&& configuration_trace(
                    dev.transactions().push(device::read_of(Register::WHO_AM_I, LSM6D33_CHIP_ID)),
                    imu.device().transactions(),
                    max_polls as nat,
                )
                &&& imu.spec_settings() == default_settings()
            },
            r matches Err(e) ==> !(e is PinError),
    {
        let mut imu = LSM6DS33 {
            dev,
            settings: Settings {
                accelerometer_power_mode: AccelerometerPowerMode::NormalPower,
                accelerometer_scale: AccelerometerScale::Scale2g,
                accelerometer_data_rate: DataRate::ODR12_5Hz,
                gyroscope_data_rate: DataRate::ODR12_5Hz,
                gyroscope_scale: GyroscopeScale::Scale250Dps,
            },
        };
        match imu.identify() {
            Ok(()) => {},
            Err(e) => return Err(e),
        }
        match imu.initialize(max_polls) {
            Ok(()) => Ok(imu),
            Err(e) => Err(e),
        }
    }

    /// Reads the identity byte of the chip.
    pub fn who_am_i(&mut self) -> (r: Result<u8, E>)
        ensures
            match r {
                Ok(id) => final(self).device().transactions() == old(self).device().transactions().push(
                    device::read_of(Register::WHO_AM_I, id),
                ),
                Err(_) => final(self).device().transactions() == old(self).device().transactions(),
            },
            final(self).device().target() == old(self).device().target(),
            final(self).spec_settings() == old(self).spec_settings(),
    {
        self.dev.read(Register::WHO_AM_I)
    }

    /// Reads WHO_AM_I and checks the answer against this chip's identity.
    fn identify(&mut self) -> (r: Result<(), Error<E>>)
        ensures
            final(self).spec_settings() == old(self).spec_settings(),
            final(self).device().target() == old(self).device().target(),
            match r {
                Ok(_) => final(self).device().transactions() == old(self).device().transactions().push(
                    device::read_of(Register::WHO_AM_I, LSM6D33_CHIP_ID),
                ),
                Err(Error::UnknownChipId) => exists|id: u8|
                    id != LSM6D33_CHIP_ID && final(self).device().transactions()
                        == old(self).device().transactions().push(
                        #[trigger] device::read_of(Register::WHO_AM_I, id),
                    ),
                Err(Error::CommunicationError) => final(self).device().transactions() == old(
                    self,
                ).device().transactions(),
                Err(_) => false,
            },
    {
        let answer = self.who_am_i();
        check_identity(answer)
    }

    /// Sets the software-reset bit and polls CTRL3_C, at most `max_polls` times,
    /// until the chip clears it. Gives `CommunicationError` when every poll
    /// still showed the bit set, and a device error as `BusError`, at once.
    fn soft_reset(&mut self, max_polls: u64) -> (r: Result<(), Error<E>>)
        ensures
            final(self).spec_settings() == old(self).spec_settings(),
            final(self).device().target() == old(self).device().target(),
            match r {
                Ok(_) => soft_reset_trace(
                    old(self).device().transactions(),
                    final(self).device().transactions(),
                    max_polls as nat,
                ),
                Err(Error::CommunicationError) => reset_pending(
                    old(self).device().transactions(),
                    final(self).device().transactions(),
                    max_polls as nat,
                ),
                Err(Error::BusError(_)) => reset_interrupted(
                    old(self).device().transactions(),
                    final(self).device().transactions(),
                    max_polls as nat,
                ),
                Err(_) => false,
            },
    {
        let set_reset = |r: u8| -> (w: u8)
            ensures
                w == (r & !CTRL3_C_SW_RESET) | CTRL3_C_SW_RESET,
            {
                proof {
                    assert(r | 1u8 == (r & !1u8) | 1u8) by (bit_vector);
                }
                r | CTRL3_C_SW_RESET
            };
        match self.dev.mutate(Register::CTRL3_C, set_reset) {
            Ok(()) => {},
            Err(e) => return Err(Error::from(e)),
        }
        let ghost mid = self.dev.transactions();
        let ghost mut values: Seq<u8> = Seq::empty();
        assert(self.dev.transactions() =~= mid + ctrl3_reads(values));
        let mut count: u64 = 0;
        while count < max_polls
            invariant
                self.settings == old(self).settings,
                self.dev.target() == old(self).dev.target(),
                device::masked_write(
                    old(self).dev.transactions(),
                    mid,
                    Register::CTRL3_C,
                    CTRL3_C_SW_RESET,
                    CTRL3_C_SW_RESET,
                ),
                count <= max_polls,
                values.len() == count,
                self.dev.transactions() == mid + ctrl3_reads(values),
                reset_still_set(values),
            decreases max_polls - count,
        {
            match self.dev.read(Register::CTRL3_C) {
                Ok(ctrl) => {
                    let ghost before = values;
                    proof {
                        values = values.push(ctrl);
                        assert(ctrl3_reads(values) =~= ctrl3_reads(before).push(
                            device::read_of(Register::CTRL3_C, ctrl),
                        ));
                        assert(self.dev.transactions() =~= mid + ctrl3_reads(values));
                    }
                    count = count + 1;
                    if ctrl & CTRL3_C_SW_RESET == 0 {
                        assert(reset_poll_values(values, max_polls as nat));
                        return Ok(());
                    }
                    assert(reset_still_set(values));
                },
                Err(e) => {
                    assert(reset_pending(old(self).dev.transactions(), self.dev.transactions(), values.len()));
                    return Err(Error::from(e));
                },
            }
        }
        assert(reset_pending(old(self).dev.transactions(), self.dev.transactions(), values.len()));
        Err(Error::CommunicationError)
    }

    /// Soft-resets the chip, enables block data update and applies the default
    /// rates and scales, stopping at the first step that fails.
    fn initialize(&mut self, max_polls: u64) -> (r: Result<(), Error<E>>)
        ensures
            final(self).device().target() == old(self).device().target(),
            match r {
                Ok(_) => {
                    &&& configuration_trace(
                        old(self).device().transactions(),
                        final(self).device().transactions(),
                        max_polls as nat,
                    )
                    &&& final(self).spec_settings() == (Settings {
                        accelerometer_scale: AccelerometerScale::Scale2g,
                        accelerometer_data_rate: DataRate::ODR12_5Hz,
                        gyroscope_data_rate: DataRate::ODR12_5Hz,
                        gyroscope_scale: GyroscopeScale::Scale125Dps,
                        ..old(self).spec_settings()
                    })
                },
                Err(Error::CommunicationError) => reset_pending(
                    old(self).device().transactions(),
                    final(self).device().transactions(),
                    max_polls as nat,
                ),
                Err(Error::BusError(_)) => configuration_cut_short(
                    old(self).device().transactions(),
                    final(self).device().transactions(),
                    max_polls as nat,
                ),
                Err(_) => false,
            },
    {
        let ghost l0 = self.dev.transactions();
        match self.soft_reset(max_polls) {
            Ok(()) => {},
            Err(e) => return Err(e),
        }
        let ghost l1 = self.dev.transactions();
        let set_bdu = |r: u8| -> (w: u8)
            ensures
                w == (r & !CTRL3_C_BDU) | CTRL3_C_BDU,
            {
                proof {
                    assert(r | 0x40u8 == (r & !0x40u8) | 0x40u8) by (bit_vector);
                }
                r | CTRL3_C_BDU
            };
        match self.dev.mutate(Register::CTRL3_C, set_bdu) {
            Ok(()) => {},
            Err(e) => {
                assert(soft_reset_trace(l0, l1, max_polls as nat));
                return Err(Error::from(e));
            },
        }
        let ghost l2 = self.dev.transactions();
        assert(bdu_enabled(l0, l2, max_polls as nat)) by {
            assert(soft_reset_trace(l0, l1, max_polls as nat));
        }
        match self.set_accelerometer_data_rate(DataRate::ODR12_5Hz) {
            Ok(()) => {},
            Err(e) => return Err(Error::from(e)),
        }
        let ghost l3 = self.dev.transactions();
        assert(accelerometer_rate_applied(l0, l3, max_polls as nat));
        match self.set_accelerometer_scale(AccelerometerScale::Scale2g) {
            Ok(()) => {},
            Err(e) => return Err(Error::from(e)),
        }
        let ghost l4 = self.dev.transactions();
        assert(accelerometer_scale_applied(l0, l4, max_polls as nat));
        match self.set_gyroscope_data_rate(DataRate::ODR12_5Hz) {
            Ok(()) => {},
            Err(e) => return Err(Error::from(e)),
        }
        let ghost l5 = self.dev.transactions();
        assert(gyroscope_rate_applied(l0, l5, max_polls as nat));
        match self.set_gyroscope_scale(GyroscopeScale::Scale125Dps) {
            Ok(()) => {},
            Err(e) => return Err(Error::from(e)),
        }
        Ok(())
    }

    /// Specify the output data rate of the accelerometer.
    pub fn set_accelerometer_data_rate(&mut self, rate: DataRate) -> (r: Result<(), E>)
        ensures
            final(self).device().target() == old(self).device().target(),
            match r {
                Ok(_) => {
                    &&& device::masked_write(
                        old(self).device().transactions(),
                        final(self).device().transactions(),
                        Register::CTRL1_XL,
                        ODR_MASK,
                        rate.spec_bits(),
                    )
                    &&& final(self).spec_settings() == (Settings {
                        accelerometer_data_rate: rate,
                        ..old(self).spec_settings()
                    })
                },
                Err(_) => {
                    &&& device::read_at_most_once(
                        old(self).device().transactions(),
                        final(self).device().transactions(),
                        Register::CTRL1_XL,
                    )
                    &&& final(self).spec_settings() == old(self).spec_settings()
                },
            },
    {
        let flag = rate.bits();
        let update = move |r: u8| -> (w: u8)
            ensures
                w == (r & !ODR_MASK) | flag,
            { (r & !ODR_MASK) | flag };
        let result = self.dev.mutate(Register::CTRL1_XL, update);
        if result.is_ok() {
            self.settings.accelerometer_data_rate = rate;
        }
        result
    }

    /// Specify the accelerometer measurement scale.
    pub fn set_accelerometer_scale(&mut self, scale: AccelerometerScale) -> (r: Result<(), E>)
        ensures
            final(self).device().target() == old(self).device().target(),
            match r {
                Ok(_) => {
                    &&& device::masked_write(
                        old(self).device().transactions(),
                        final(self).device().transactions(),
                        Register::CTRL1_XL,
                        ACCELEROMETER_SCALE_MASK,
                        scale.spec_bits(),
                    )
                    &&& final(self).spec_settings() == (Settings {
                        accelerometer_scale: scale,
                        ..old(self).spec_settings()
                    })
                },
                Err(_) => {
                    &&& device::read_at_most_once(
                        old(self).device().transactions(),
                        final(self).device().transactions(),
                        Register::CTRL1_XL,
                    )
                    &&& final(self).spec_settings() == old(self).spec_settings()
                },
            },
    {
        let flag = scale.bits();
        let update = move |r: u8| -> (w: u8)
            ensures
                w == (r & !ACCELEROMETER_SCALE_MASK) | flag,
            { (r & !ACCELEROMETER_SCALE_MASK) | flag };
        let result = self.dev.mutate(Register::CTRL1_XL, update);
        if result.is_ok() {
            self.settings.accelerometer_scale = scale;
        }
        result
    }

    /// Specify the output data rate of the gyroscope.
    pub fn set_gyroscope_data_rate(&mut self, rate: DataRate) -> (r: Result<(), E>)
        ensures
            final(self).device().target() == old(self).device().target(),
            match r {
                Ok(_) => {
                    &&& device::masked_write(
                        old(self).device().transactions(),
                        final(self).device().transactions(),
                        Register::CTRL2_G,
                        ODR_MASK,
                        rate.spec_bits(),
                    )
                    &&& final(self).spec_settings() == (Settings {
                        gyroscope_data_rate: rate,
                        ..old(self).spec_settings()
                    })
                },
                Err(_) => {
                    &&& device::read_at_most_once(
                        old(self).device().transactions(),
                        final(self).device().transactions(),
                        Register::CTRL2_G,
                    )
                    &&& final(self).spec_settings() == old(self).spec_settings()
                },
            },
    {
        let flag = rate.bits();
        let update = move |r: u8| -> (w: u8)
            ensures
                w == (r & !ODR_MASK) | flag,
            { (r & !ODR_MASK) | flag };
        let result = self.dev.mutate(Register::CTRL2_G, update);
        if result.is_ok() {
            self.settings.gyroscope_data_rate = rate;
        }
        result
    }

    /// Specify the full scale of gyroscope measurements.
    pub fn set_gyroscope_scale(&mut self, scale: GyroscopeScale) -> (r: Result<(), E>)
        ensures
            final(self).device().target() == old(self).device().target(),
            match r {
                Ok(_) => {
                    &&& device::masked_write(
                        old(self).device().transactions(),
                        final(self).device().transactions(),
                        Register::CTRL2_G,
                        GYROSCOPE_SCALE_MASK,
                        scale.spec_bits(),
                    )
                    &&& final(self).spec_settings() == (Settings {
                        gyroscope_scale: scale,
                        ..old(self).spec_settings()
                    })
                },
                Err(_) => {
                    &&& device::read_at_most_once(
                        old(self).device().transactions(),
                        final(self).device().transactions(),
                        Register::CTRL2_G,
                    )
                    &&& final(self).spec_settings() == old(self).spec_settings()
                },
            },
    {
        let flag = scale.bits();
        let update = move |r: u8| -> (w: u8)
            ensures
                w == (r & !GYROSCOPE_SCALE_MASK) | flag,
            { (r & !GYROSCOPE_SCALE_MASK) | flag };
        let result = self.dev.mutate(Register::CTRL2_G, update);
        if result.is_ok() {
            self.settings.gyroscope_scale = scale;
        }
        result
    }
}

} // verus!
