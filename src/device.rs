use vstd::prelude::*;

use crate::register::Register;
use crate::Error;

verus! {

/// One completed bus transaction, seen at the level of registers.
pub enum Transaction {
    /// `bytes` were read starting at `reg`.
    Read { reg: Register, bytes: Seq<u8> },
    /// `bytes` were written starting at `reg`.
    Write { reg: Register, bytes: Seq<u8> },
}

/// A read of the single byte `value` from `reg`.
pub open spec fn read_of(reg: Register, value: u8) -> Transaction {
    Transaction::Read { reg, bytes: seq![value] }
}

/// A write of the single byte `value` to `reg`.
pub open spec fn write_of(reg: Register, value: u8) -> Transaction {
    Transaction::Write { reg, bytes: seq![value] }
}

/// `after` is `before` followed by one read of `reg`, giving some `v`, and one
/// write to `reg` of `v` with the bits of `mask` replaced by `bits`.
pub open spec fn masked_write(
    before: Seq<Transaction>,
    after: Seq<Transaction>,
    reg: Register,
    mask: u8,
    bits: u8,
) -> bool {
    exists|v: u8|
        after == before.push(#[trigger] read_of(reg, v)).push(write_of(reg, (v & !mask) | bits))
}

/// `after` is `before`, possibly followed by one read of `reg`: nothing was written.
pub open spec fn read_at_most_once(before: Seq<Transaction>, after: Seq<Transaction>, reg: Register) -> bool {
    after == before || exists|v: u8| after == before.push(#[trigger] read_of(reg, v))
}

/// A masked write changes only the bits of `mask`: the byte written back
/// agrees with the byte read outside `mask`, and holds `bits` inside it.
pub proof fn lemma_masked_write_keeps_other_bits(
    before: Seq<Transaction>,
    after: Seq<Transaction>,
    reg: Register,
    mask: u8,
    bits: u8,
)
    requires
        masked_write(before, after, reg, mask, bits),
        bits & !mask == 0,
    ensures
        after.len() == before.len() + 2,
        after.subrange(0, before.len() as int) == before,
        ({
            let read = after[before.len() as int]->Read_bytes[0];
            let written = after[before.len() + 1int]->Write_bytes[0];
            &&& after[before.len() as int] == read_of(reg, read)
            &&& after[before.len() + 1int] == write_of(reg, written)
            &&& written & !mask == read & !mask
            &&& written & mask == bits
        }),
{
    let v = choose|v: u8|
        after == before.push(#[trigger] read_of(reg, v)).push(write_of(reg, (v & !mask) | bits));
    let w = (v & !mask) | bits;
    assert(after.subrange(0, before.len() as int) =~= before);
    assert(w & !mask == v & !mask && w & mask == bits) by (bit_vector)
        requires
            w == (v & !mask) | bits,
            bits & !mask == 0,
    ;
}

/// Register access over some bus (I2C, SPI, ...).
///
/// The model of a device is the sequence of transactions it has completed.
/// A failed operation completes no transaction.
pub trait Device {
    type Error;

    /// Every transaction this device has completed, oldest first.
    ///
    /// An implementation verified in this crate must define it: under the
    /// default, one fixed sequence, no operation could succeed and keep its
    /// contract. The default exists for implementations written in plain Rust
    /// (a test double, an SPI adapter), which Verus does not hold to these
    /// contracts.
    closed spec fn transactions(&self) -> Seq<Transaction> {
        arbitrary()
    }

    /// What identifies the peripheral this device talks to (a bus address, a
    /// chip select). No operation changes it. Defined as `transactions` is.
    closed spec fn target(&self) -> int {
        arbitrary()
    }

    /// Reads one byte from `reg`.
    fn read(&mut self, reg: Register) -> (r: Result<u8, Self::Error>)
        ensures
            final(self).target() == old(self).target(),
            match r {
                Ok(v) => final(self).transactions() == old(self).transactions().push(read_of(reg, v)),
                Err(_) => final(self).transactions() == old(self).transactions(),
            },
    {
        let mut buffer = [0u8];
        match self.read_many(reg, &mut buffer) {
            Ok(()) => {
                assert(buffer@ =~= seq![buffer[0]]);
                Ok(buffer[0])
            },
            Err(e) => Err(e),
        }
    }

    /// Fills `buffer` with the bytes read starting at `reg`.
    fn read_many(&mut self, reg: Register, buffer: &mut [u8]) -> (r: Result<(), Self::Error>)
        ensures
            final(self).target() == old(self).target(),
            final(buffer)@.len() == old(buffer)@.len(),
            match r {
                Ok(_) => final(self).transactions() == old(self).transactions().push(
                    Transaction::Read { reg, bytes: final(buffer)@ },
                ),
                Err(_) => final(self).transactions() == old(self).transactions(),
            },
    ;

    /// Writes `value` to `reg`.
    fn write(&mut self, reg: Register, value: u8) -> (r: Result<(), Self::Error>)
        ensures
            final(self).target() == old(self).target(),
            match r {
                Ok(_) => final(self).transactions() == old(self).transactions().push(write_of(reg, value)),
                Err(_) => final(self).transactions() == old(self).transactions(),
            },
    ;

    /// Writes `buffer` to consecutive registers starting at `reg`.
    fn write_many(&mut self, reg: Register, buffer: &[u8]) -> (r: Result<(), Self::Error>)
        ensures
            final(self).target() == old(self).target(),
            match r {
                Ok(_) => final(self).transactions() == old(self).transactions().push(
                    Transaction::Write { reg, bytes: buffer@ },
                ),
                Err(_) => final(self).transactions() == old(self).transactions(),
            },
    ;

    /// Reads `reg`, then writes back `f` of what was read.
    fn mutate<F>(&mut self, reg: Register, f: F) -> (r: Result<(), Self::Error>) where
        F: FnOnce(u8) -> u8,

        requires
            forall|v: u8| f.requires((v,)),
        ensures
            final(self).target() == old(self).target(),
            match r {
                Ok(_) => exists|v: u8, w: u8|
                    #![trigger f.ensures((v,), w)]
                    f.ensures((v,), w) && final(self).transactions() == old(
                        self,
                    ).transactions().push(read_of(reg, v)).push(write_of(reg, w)),
                Err(_) => read_at_most_once(old(self).transactions(), final(self).transactions(), reg),
            },
    {
        match self.read(reg) {
            Ok(current) => {
                let value = f(current);
                self.write(reg, value)
            },
            Err(e) => Err(e),
        }
    }
}

/// One call made on an I2C bus, with whether the bus reported success.
pub enum BusCall {
    /// `bytes` sent to the peer at `address`.
    Write { address: u8, bytes: Seq<u8>, succeeded: bool },
    /// `bytes` sent to the peer at `address`, then `read_len` bytes read back.
    WriteRead { address: u8, bytes: Seq<u8>, read_len: nat, succeeded: bool },
}

/// A byte-oriented bus transport, such as an I2C controller, with its own
/// error type. Nothing is assumed of what a transfer does or whether it succeeds.
pub trait Bus {
    type Error;

    /// Sends `bytes` to the peer at `address`.
    fn write(&mut self, address: u8, bytes: &[u8]) -> Result<(), Self::Error>;

    /// Sends `bytes` to the peer at `address`, then fills `buffer` with its reply.
    ///
    /// The one clause holds of every implementation: a slice's length is fixed.
    fn write_read(&mut self, address: u8, bytes: &[u8], buffer: &mut [u8]) -> (r: Result<(), Self::Error>)
        ensures
            final(buffer)@.len() == old(buffer)@.len(),
    ;
}

/// The largest payload `write_many` sends in one transaction.
pub const MAX_WRITE_LEN: usize = 16;

/// A `Device` on an I2C bus, talking to the peer at one address.
pub struct I2CDevice<I2C> {
    i2c: I2C,
    address: u8,
    log: Ghost<Seq<Transaction>>,
    calls: Ghost<Seq<BusCall>>,
}

impl<I2C> I2CDevice<I2C> {
    /// The bus address of the peer.
    pub closed spec fn peer(&self) -> u8 {
        self.address
    }

    /// Every transaction this device has completed, oldest first.
    pub closed spec fn completed(&self) -> Seq<Transaction> {
        self.log@
    }

    /// Every call this device has made on the bus, failed ones included, oldest first.
    pub closed spec fn bus_calls(&self) -> Seq<BusCall> {
        self.calls@
    }

    /// A device for the peer at `address` on the bus `i2c`.
    pub fn new(i2c: I2C, address: u8) -> (r: Self)
        ensures
            r.peer() == address,
            r.bus_calls() == Seq::<BusCall>::empty(),
            r.completed() == Seq::<Transaction>::empty(),
    {
        I2CDevice { i2c, address, log: Ghost(Seq::empty()), calls: Ghost(Seq::empty()) }
    }
}

fn i2c_error<E>(_e: E) -> (r: Error<E>)
    ensures
        r is CommunicationError,
{
    Error::CommunicationError
}

impl<E, I2C: Bus<Error = E>> Device for I2CDevice<I2C> {
    type Error = Error<E>;

    open spec fn transactions(&self) -> Seq<Transaction> {
        self.completed()
    }

    open spec fn target(&self) -> int {
        self.peer() as int
    }

    fn read_many(&mut self, reg: Register, buffer: &mut [u8]) -> (r: Result<(), Error<E>>)
        ensures
            r is Err ==> r->Err_0 is CommunicationError,
            final(self).peer() == old(self).peer(),
            final(self).bus_calls() == old(self).bus_calls().push(
                BusCall::WriteRead {
                    address: old(self).peer(),
                    bytes: seq![reg.spec_address()],
                    read_len: old(buffer)@.len(),
                    succeeded: r is Ok,
                },
            ),
    {
        let out = [reg.address()];
        let ghost read_len = buffer@.len();
        let result = self.i2c.write_read(self.address, &out, buffer);
        assert(out@ =~= seq![reg.spec_address()]);
        self.calls = Ghost(self.calls@.push(BusCall::WriteRead {
            address: self.address,
            bytes: out@,
            read_len,
            succeeded: result is Ok,
        }));
        match result {
            Ok(()) => {
                self.log = Ghost(self.log@.push(Transaction::Read { reg, bytes: buffer@ }));
                Ok(())
            },
            Err(e) => Err(i2c_error(e)),
        }
    }

    fn write(&mut self, reg: Register, value: u8) -> (r: Result<(), Error<E>>)
        ensures
            r is Err ==> r->Err_0 is CommunicationError,
            final(self).peer() == old(self).peer(),
            final(self).bus_calls() == old(self).bus_calls().push(
                BusCall::Write {
                    address: old(self).peer(),
                    bytes: seq![reg.spec_address(), value],
                    succeeded: r is Ok,
                },
            ),
    {
        let message = [reg.address(), value];
        assert(message@ =~= seq![reg.spec_address(), value]);
        let result = self.i2c.write(self.address, &message);
        self.calls = Ghost(self.calls@.push(BusCall::Write {
            address: self.address,
            bytes: message@,
            succeeded: result is Ok,
        }));
        match result {
            Ok(()) => {
                self.log = Ghost(self.log@.push(write_of(reg, value)));
                Ok(())
            },
            Err(e) => Err(i2c_error(e)),
        }
    }

    fn write_many(&mut self, reg: Register, buffer: &[u8]) -> (r: Result<(), Error<E>>)
        ensures
            r is Err ==> r->Err_0 is CommunicationError,
            final(self).peer() == old(self).peer(),
            buffer@.len() > MAX_WRITE_LEN ==> r is Err && final(self).bus_calls() == old(self).bus_calls(),
            buffer@.len() <= MAX_WRITE_LEN ==> final(self).bus_calls() == old(self).bus_calls().push(
                BusCall::Write {
                    address: old(self).peer(),
                    bytes: seq![reg.spec_address()] + buffer@,
                    succeeded: r is Ok,
                },
            ),
    {
        if buffer.len() > MAX_WRITE_LEN {
            return Err(Error::CommunicationError);
        }
        let mut message: Vec<u8> = Vec::with_capacity(buffer.len() + 1);
        message.push(reg.address());
        let mut i: usize = 0;
        while i < buffer.len()
            invariant
                i <= buffer@.len(),
                message@ =~= seq![reg.spec_address()] + buffer@.subrange(0, i as int),
            decreases buffer@.len() - i,
        {
            message.push(buffer[i]);
            i = i + 1;
        }
        assert(buffer@.subrange(0, buffer@.len() as int) =~= buffer@);
        let result = self.i2c.write(self.address, message.as_slice());
        self.calls = Ghost(self.calls@.push(BusCall::Write {
            address: self.address,
            bytes: message@,
            succeeded: result is Ok,
        }));
        match result {
            Ok(()) => {
                self.log = Ghost(self.log@.push(Transaction::Write { reg, bytes: buffer@ }));
                Ok(())
            },
            Err(e) => Err(i2c_error(e)),
        }
    }
}

} // verus!
