use std::cell::RefCell;
use std::rc::Rc;

use lsm6ds33::{Bus, Device, Error, GyroscopeScale, I2CDevice, Register, LSM6DS33};

#[derive(Debug, PartialEq, Clone)]
enum Call {
    Write(u8, Vec<u8>),
    WriteRead(u8, Vec<u8>, usize),
}

/// A bus with one register-file chip on it, recording every call.
struct MockBus {
    calls: Rc<RefCell<Vec<Call>>>,
    regs: Rc<RefCell<[u8; 128]>>,
    fail: bool,
}

#[derive(Debug, PartialEq)]
struct BusFault;

impl Bus for MockBus {
    type Error = BusFault;

    fn write(&mut self, address: u8, bytes: &[u8]) -> Result<(), BusFault> {
        self.calls.borrow_mut().push(Call::Write(address, bytes.to_vec()));
        if self.fail {
            return Err(BusFault);
        }
        let start = bytes[0] as usize;
        let mut regs = self.regs.borrow_mut();
        for (i, b) in bytes[1..].iter().enumerate() {
            regs[start + i] = *b;
        }
        Ok(())
    }

    fn write_read(&mut self, address: u8, bytes: &[u8], buffer: &mut [u8]) -> Result<(), BusFault> {
        self.calls.borrow_mut().push(Call::WriteRead(address, bytes.to_vec(), buffer.len()));
        if self.fail {
            return Err(BusFault);
        }
        let start = bytes[0] as usize;
        let regs = self.regs.borrow();
        for (i, b) in buffer.iter_mut().enumerate() {
            *b = regs[start + i];
            if start + i == 0x12 {
                *b &= !0x01;
            }
        }
        Ok(())
    }
}

fn bus(fail: bool) -> (MockBus, Rc<RefCell<Vec<Call>>>, Rc<RefCell<[u8; 128]>>) {
    let calls = Rc::new(RefCell::new(Vec::new()));
    let mut init = [0u8; 128];
    init[0x0F] = 0x69;
    let regs = Rc::new(RefCell::new(init));
    (MockBus { calls: calls.clone(), regs: regs.clone(), fail }, calls, regs)
}

#[test]
fn write_many_refuses_more_than_sixteen_bytes() {
    let (b, calls, _) = bus(false);
    let mut dev = I2CDevice::new(b, 0x6B);
    let payload = [0xAAu8; 17];
    let r = dev.write_many(Register::CTRL1_XL, &payload);
    assert!(matches!(r, Err(Error::CommunicationError)));
    assert!(calls.borrow().is_empty());
}

#[test]
fn write_many_sends_address_and_payload_in_one_frame() {
    let (b, calls, regs) = bus(false);
    let mut dev = I2CDevice::new(b, 0x6B);
    let payload: Vec<u8> = (1..=16).collect();
    assert!(dev.write_many(Register::CTRL1_XL, &payload).is_ok());
    let calls = calls.borrow();
    assert_eq!(calls.len(), 1);
    let mut frame = vec![0x10u8];
    frame.extend_from_slice(&payload);
    assert_eq!(frame.len(), 17);
    assert_eq!(calls[0], Call::Write(0x6B, frame));
    assert_eq!(regs.borrow()[0x10], 1);
    assert_eq!(regs.borrow()[0x1F], 16);
}

#[test]
fn write_many_empty_payload_sends_address_only() {
    let (b, calls, _) = bus(false);
    let mut dev = I2CDevice::new(b, 0x6A);
    assert!(dev.write_many(Register::CTRL3_C, &[]).is_ok());
    assert_eq!(calls.borrow()[0], Call::Write(0x6A, vec![0x12]));
}

#[test]
fn single_byte_transfers() {
    let (b, calls, regs) = bus(false);
    let mut dev = I2CDevice::new(b, 0x6B);
    assert!(dev.write(Register::CTRL2_G, 0x4C).is_ok());
    assert_eq!(regs.borrow()[0x11], 0x4C);
    assert!(matches!(dev.read(Register::CTRL2_G), Ok(0x4C)));
    let mut two = [0u8; 2];
    assert!(dev.read_many(Register::CTRL1_XL, &mut two).is_ok());
    assert_eq!(two, [0x00, 0x4C]);
    assert_eq!(
        *calls.borrow(),
        vec![
            Call::Write(0x6B, vec![0x11, 0x4C]),
            Call::WriteRead(0x6B, vec![0x11], 1),
            Call::WriteRead(0x6B, vec![0x10], 2),
        ]
    );
}

#[test]
fn bus_failures_become_communication_errors() {
    let (b, calls, _) = bus(true);
    let mut dev = I2CDevice::new(b, 0x6B);
    assert!(matches!(dev.write(Register::CTRL2_G, 1), Err(Error::CommunicationError)));
    assert!(matches!(dev.read(Register::CTRL2_G), Err(Error::CommunicationError)));
    assert!(matches!(dev.write_many(Register::CTRL2_G, &[1, 2]), Err(Error::CommunicationError)));
    assert_eq!(calls.borrow().len(), 3);
}

#[test]
fn construction_over_i2c() {
    let (b, calls, regs) = bus(false);
    let mut imu = match LSM6DS33::new(b, 0x6B) {
        Ok(imu) => imu,
        Err(e) => panic!("construction failed: {:?}", e),
    };
    assert_eq!(calls.borrow()[0], Call::WriteRead(0x6B, vec![0x0F], 1));
    assert_eq!(regs.borrow()[0x12], 0x40);
    assert!(imu.set_gyroscope_scale(GyroscopeScale::Scale2000Dps).is_ok());
    assert_eq!(regs.borrow()[0x11], 0x1C);
}

#[test]
fn construction_over_i2c_with_wrong_id() {
    let (b, calls, regs) = bus(false);
    regs.borrow_mut()[0x0F] = 0x6A;
    let r = LSM6DS33::new(b, 0x6B);
    assert!(matches!(r, Err(Error::UnknownChipId)));
    assert_eq!(calls.borrow().len(), 1);
}

#[test]
fn construction_over_failing_bus() {
    let (b, _, _) = bus(true);
    assert!(matches!(LSM6DS33::new(b, 0x6B), Err(Error::CommunicationError)));
}

#[test]
fn write_of_one_register_is_one_two_byte_frame() {
    let (b, calls, regs) = bus(false);
    let mut dev = I2CDevice::new(b, 0x6B);
    assert!(matches!(dev.write(Register::CTRL3_C, 0x41), Ok(())));
    assert_eq!(*calls.borrow(), vec![Call::Write(0x6B, vec![0x12, 0x41])]);
    assert_eq!(regs.borrow()[0x12], 0x41);
}
