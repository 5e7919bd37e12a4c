use std::cell::RefCell;
use std::rc::Rc;

use lsm6ds33::{
    check_identity, AccelerometerPowerMode, AccelerometerScale, Settings, DataRate, Device, Error, GyroscopeScale, Register, LSM6DS33,
    ACCELEROMETER_SCALE_MASK, CTRL3_C_SW_RESET, GYROSCOPE_SCALE_MASK, LSM6D33_CHIP_ID, ODR_MASK,
};

/// What the mock chip holds and what was done to it.
struct Chip {
    regs: [u8; 128],
    reset_never_clears: bool,
    fail_identity: bool,
    fail_writes_to: Option<u8>,
    reads: Vec<u8>,
    writes: Vec<(u8, u8)>,
}

impl Chip {
    fn new(id: u8) -> Rc<RefCell<Chip>> {
        let mut regs = [0u8; 128];
        regs[0x0F] = id;
        Rc::new(RefCell::new(Chip {
            regs,
            reset_never_clears: false,
            fail_identity: false,
            fail_writes_to: None,
            reads: Vec::new(),
            writes: Vec::new(),
        }))
    }
}

struct MockDevice(Rc<RefCell<Chip>>);

#[derive(Debug, PartialEq)]
struct MockError;

impl Device for MockDevice {
    type Error = MockError;

    fn read_many(&mut self, reg: Register, buffer: &mut [u8]) -> Result<(), MockError> {
        let mut chip = self.0.borrow_mut();
        let a = reg.address();
        if a == 0x0F && chip.fail_identity {
            return Err(MockError);
        }
        chip.reads.push(a);
        for (i, b) in buffer.iter_mut().enumerate() {
            let mut v = chip.regs[a as usize + i];
            if a as usize + i == 0x12 {
                if chip.reset_never_clears {
                    v |= CTRL3_C_SW_RESET;
                } else {
                    v &= !CTRL3_C_SW_RESET;
                }
            }
            *b = v;
        }
        Ok(())
    }

    fn write(&mut self, reg: Register, value: u8) -> Result<(), MockError> {
        let mut chip = self.0.borrow_mut();
        let a = reg.address();
        if chip.fail_writes_to == Some(a) {
            return Err(MockError);
        }
        chip.regs[a as usize] = value;
        chip.writes.push((a, value));
        Ok(())
    }

    fn write_many(&mut self, reg: Register, buffer: &[u8]) -> Result<(), MockError> {
        for (i, b) in buffer.iter().enumerate() {
            let mut chip = self.0.borrow_mut();
            let a = reg.address() as usize + i;
            chip.regs[a] = *b;
            chip.writes.push((a as u8, *b));
        }
        Ok(())
    }
}

fn configured(chip: &Rc<RefCell<Chip>>) -> LSM6DS33<MockDevice> {
    match LSM6DS33::new_imu(MockDevice(chip.clone())) {
        Ok(imu) => imu,
        Err(e) => panic!("construction failed: {:?}", e),
    }
}

#[test]
fn construction_succeeds_on_chip_id() {
    let chip = Chip::new(0x69);
    assert_eq!(LSM6D33_CHIP_ID, 0x69);
    assert!(LSM6DS33::new_imu(MockDevice(chip.clone())).is_ok());
}

#[test]
fn construction_rejects_other_ids_without_writing() {
    for id in [0x00u8, 0x68, 0x6A, 0x6C, 0xFF] {
        let chip = Chip::new(id);
        let r = LSM6DS33::new_imu(MockDevice(chip.clone()));
        assert!(matches!(r, Err(Error::UnknownChipId)));
        assert_eq!(chip.borrow().writes.len(), 0);
        assert_eq!(chip.borrow().reads, vec![0x0F]);
    }
}

#[test]
fn construction_reports_failed_identity_read_as_communication_error() {
    let chip = Chip::new(0x69);
    chip.borrow_mut().fail_identity = true;
    let r = LSM6DS33::new_imu(MockDevice(chip.clone()));
    assert!(matches!(r, Err(Error::CommunicationError)));
    assert_eq!(chip.borrow().writes.len(), 0);
}

#[test]
fn construction_waits_for_reset_bit_within_poll_limit() {
    let chip = Chip::new(0x69);
    chip.borrow_mut().reset_never_clears = true;
    let r = LSM6DS33::new_imu_with_poll_limit(MockDevice(chip.clone()), 50);
    assert!(matches!(r, Err(Error::CommunicationError)));
    let c = chip.borrow();
    // identity, the read of the reset's read-modify-write, then every poll
    assert_eq!(c.reads.len(), 1 + 1 + 50);
    assert!(c.reads[1..].iter().all(|a| *a == 0x12));
    assert_eq!(c.writes, vec![(0x12, 0x01)]);
}

#[test]
fn construction_with_zero_poll_limit_fails() {
    let chip = Chip::new(0x69);
    let r = LSM6DS33::new_imu_with_poll_limit(MockDevice(chip.clone()), 0);
    assert!(matches!(r, Err(Error::CommunicationError)));
}

#[test]
fn construction_writes_the_configuration_sequence() {
    let chip = Chip::new(0x69);
    let _imu = configured(&chip);
    let c = chip.borrow();
    assert_eq!(
        c.writes,
        vec![(0x12, 0x01), (0x12, 0x40), (0x10, 0x10), (0x10, 0x10), (0x11, 0x10), (0x11, 0x12)]
    );
    assert_eq!(c.reads, vec![0x0F, 0x12, 0x12, 0x12, 0x10, 0x10, 0x11, 0x11]);
}

#[test]
fn construction_keeps_other_ctrl3_bits() {
    let chip = Chip::new(0x69);
    chip.borrow_mut().regs[0x12] = 0b0000_0100;
    let _imu = configured(&chip);
    assert_eq!(chip.borrow().regs[0x12], 0b0100_0100);
}

#[test]
fn construction_passes_on_device_errors_after_identity() {
    let chip = Chip::new(0x69);
    chip.borrow_mut().fail_writes_to = Some(0x11);
    let r = LSM6DS33::new_imu(MockDevice(chip.clone()));
    assert!(matches!(r, Err(Error::BusError(MockError))));
}

#[test]
fn gyroscope_scale_after_construction() {
    let chip = Chip::new(0x69);
    let mut imu = configured(&chip);
    let before = chip.borrow().regs[0x11];
    assert!(imu.set_gyroscope_scale(GyroscopeScale::Scale2000Dps).is_ok());
    let after = chip.borrow().regs[0x11];
    assert_eq!(after & GYROSCOPE_SCALE_MASK, 0b0000_1100);
    assert_eq!(after & !GYROSCOPE_SCALE_MASK, before & !GYROSCOPE_SCALE_MASK);
    assert_eq!(after, 0x1C);
}

#[test]
fn accelerometer_scale_changes_only_its_bits() {
    for initial in [0x00u8, 0xF3, 0xFF, 0x5A, 0x0C] {
        for (scale, bits) in [
            (AccelerometerScale::Scale2g, 0x00u8),
            (AccelerometerScale::Scale4g, 0x08),
            (AccelerometerScale::Scale8g, 0x0C),
            (AccelerometerScale::Scale16g, 0x04),
        ] {
            let chip = Chip::new(0x69);
            let mut imu = configured(&chip);
            chip.borrow_mut().regs[0x10] = initial;
            assert!(imu.set_accelerometer_scale(scale).is_ok());
            let after = chip.borrow().regs[0x10];
            assert_eq!(after & !ACCELEROMETER_SCALE_MASK, initial & !ACCELEROMETER_SCALE_MASK);
            assert_eq!(after & ACCELEROMETER_SCALE_MASK, bits);
        }
    }
    let chip = Chip::new(0x69);
    let mut imu = configured(&chip);
    chip.borrow_mut().regs[0x10] = 0xF3;
    assert!(imu.set_accelerometer_scale(AccelerometerScale::Scale16g).is_ok());
    assert_eq!(chip.borrow().regs[0x10], 0xF7);
}

#[test]
fn data_rates_land_in_the_high_nibble() {
    let chip = Chip::new(0x69);
    let mut imu = configured(&chip);
    chip.borrow_mut().regs[0x10] = 0x0B;
    chip.borrow_mut().regs[0x11] = 0xFE;
    assert!(imu.set_accelerometer_data_rate(DataRate::ODR6_66Khz).is_ok());
    assert!(imu.set_gyroscope_data_rate(DataRate::ODR833Hz).is_ok());
    assert_eq!(chip.borrow().regs[0x10], 0xAB);
    assert_eq!(chip.borrow().regs[0x11], 0x7E);
}

#[test]
fn setter_passes_on_device_error() {
    let chip = Chip::new(0x69);
    let mut imu = configured(&chip);
    chip.borrow_mut().fail_writes_to = Some(0x10);
    assert_eq!(imu.set_accelerometer_scale(AccelerometerScale::Scale4g), Err(MockError));
}

#[test]
fn who_am_i_reads_identity() {
    let chip = Chip::new(0x69);
    let mut imu = configured(&chip);
    assert_eq!(imu.who_am_i(), Ok(0x69));
    assert_eq!(chip.borrow().reads.last(), Some(&0x0F));
}

#[test]
fn mutate_applies_function_to_current_value() {
    let chip = Chip::new(0x69);
    chip.borrow_mut().regs[0x13] = 0x21;
    let mut dev = MockDevice(chip.clone());
    assert!(dev.mutate(Register::CTRL4_C, |v| v ^ 0xFF).is_ok());
    assert_eq!(chip.borrow().regs[0x13], 0xDE);
    assert_eq!(dev.read(Register::CTRL4_C), Ok(0xDE));
}

#[test]
fn data_rate_round_trips_through_register() {
    let rates = [
        (DataRate::ODR12_5Hz, 0x10u8),
        (DataRate::ODR26Hz, 0x20),
        (DataRate::ODR52Hz, 0x30),
        (DataRate::ODR104Hz, 0x40),
        (DataRate::ODR208Hz, 0x50),
        (DataRate::ODR416Hz, 0x60),
        (DataRate::ODR833Hz, 0x70),
        (DataRate::ODR1_66Khz, 0x80),
        (DataRate::ODR3_33Khz, 0x90),
        (DataRate::ODR6_66Khz, 0xA0),
    ];
    for (rate, bits) in rates {
        assert_eq!(rate.bits(), bits);
        for initial in [0x00u8, 0xFF, 0x5A, 0x0F] {
            let value = (initial & !ODR_MASK) | rate.bits();
            assert_eq!(DataRate::from_register(value), Some(rate));
        }
    }
    assert_eq!(DataRate::from_register(0x0F), None);
    assert_eq!(DataRate::from_register(0xB0), None);
    assert_eq!(DataRate::from_register(0xF7), None);
}

#[test]
fn scale_patterns() {
    assert_eq!(AccelerometerScale::Scale8g.bits(), 0b0000_1100);
    assert_eq!(AccelerometerScale::Scale16g.bits(), 0b0000_0100);
    assert_eq!(GyroscopeScale::Scale125Dps.bits(), 0b0000_0010);
    assert_eq!(GyroscopeScale::Scale250Dps.bits(), 0b0000_0000);
    assert_eq!(GyroscopeScale::Scale500Dps.bits(), 0b0000_0100);
    assert_eq!(GyroscopeScale::Scale1000Dps.bits(), 0b0000_1000);
}

#[test]
fn register_addresses() {
    assert_eq!(Register::WHO_AM_I.address(), 0x0F);
    assert_eq!(Register::FUNC_CFG_ACCESS.address(), 0x01);
    assert_eq!(Register::CTRL1_XL.address(), 0x10);
    assert_eq!(Register::CTRL2_G.address(), 0x11);
    assert_eq!(Register::CTRL3_C.address(), 0x12);
    assert_eq!(Register::CTRL10_C.address(), 0x19);
    assert_eq!(Register::OUT_TEML_H.address(), 0x21);
    assert_eq!(Register::OUT_Z_H_XL.address(), 0x2D);
    assert_eq!(Register::STEP_TIMESTAMP_H.address(), 0x4A);
    assert_eq!(Register::MD2_CFG.address(), 0x5F);
}

#[test]
fn error_from_wraps_device_error() {
    let e: Error<u8> = Error::from(7u8);
    assert!(matches!(e, Error::BusError(7)));
}

#[test]
fn settings_follow_successful_writes_only() {
    let chip = Chip::new(0x69);
    let mut imu = configured(&chip);
    let defaults = Settings {
        accelerometer_power_mode: AccelerometerPowerMode::NormalPower,
        accelerometer_scale: AccelerometerScale::Scale2g,
        accelerometer_data_rate: DataRate::ODR12_5Hz,
        gyroscope_data_rate: DataRate::ODR12_5Hz,
        gyroscope_scale: GyroscopeScale::Scale125Dps,
    };
    assert_eq!(imu.settings(), defaults);
    assert!(imu.set_gyroscope_data_rate(DataRate::ODR416Hz).is_ok());
    assert_eq!(imu.settings(), Settings { gyroscope_data_rate: DataRate::ODR416Hz, ..defaults });
    chip.borrow_mut().fail_writes_to = Some(0x10);
    assert!(imu.set_accelerometer_data_rate(DataRate::ODR26Hz).is_err());
    assert_eq!(imu.settings(), Settings { gyroscope_data_rate: DataRate::ODR416Hz, ..defaults });
}

#[test]
fn identity_decision() {
    let ok: Result<(), Error<MockError>> = check_identity::<MockError, MockError>(Ok(0x69));
    assert!(ok.is_ok());
    for id in [0x00u8, 0x68, 0x6A, 0xFF] {
        let r: Result<(), Error<MockError>> = check_identity::<MockError, MockError>(Ok(id));
        assert!(matches!(r, Err(Error::UnknownChipId)));
    }
    let failed: Result<(), Error<MockError>> = check_identity::<MockError, MockError>(Err(MockError));
    assert!(matches!(failed, Err(Error::CommunicationError)));
}

#[test]
fn stuck_reset_stops_at_small_poll_limit() {
    let chip = Chip::new(0x69);
    chip.borrow_mut().reset_never_clears = true;
    let r = LSM6DS33::new_imu_with_poll_limit(MockDevice(chip.clone()), 3);
    assert!(matches!(r, Err(Error::CommunicationError)));
    assert_eq!(chip.borrow().reads.len(), 1 + 1 + 3);
}
