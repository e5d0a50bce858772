//! The bus primitive that the driver talks through, and the record of what
//! was done on it.

use vstd::prelude::*;
use crate::status::{FT_OK, FT_OTHER_ERROR};

verus! {

pub const I2C_TRANSFER_OPTIONS_START_BIT: u32 = 0x01;
pub const I2C_TRANSFER_OPTIONS_STOP_BIT: u32 = 0x02;
pub const I2C_TRANSFER_OPTIONS_BREAK_ON_NACK: u32 = 0x04;
pub const I2C_TRANSFER_OPTIONS_NACK_LAST_BYTE: u32 = 0x08;
pub const I2C_TRANSFER_OPTIONS_FAST_TRANSFER_BYTES: u32 = 0x10;
pub const I2C_TRANSFER_OPTIONS_FAST_TRANSFER_BITS: u32 = 0x20;
pub const I2C_TRANSFER_OPTIONS_NO_ADDRESS: u32 = 0x40;

pub const I2C_CLOCK_STANDARD_MODE: u32 = 100_000;
pub const I2C_CLOCK_FAST_MODE: u32 = 400_000;
pub const I2C_CLOCK_FAST_MODE_PLUS: u32 = 1_000_000;
pub const I2C_CLOCK_HIGH_SPEED_MODE: u32 = 3_400_000;

/// Framing of a register write: start, stop, fast transfer.
pub const WRITE_OPTIONS: u32 = I2C_TRANSFER_OPTIONS_START_BIT | I2C_TRANSFER_OPTIONS_STOP_BIT
    | I2C_TRANSFER_OPTIONS_FAST_TRANSFER_BYTES;
/// Framing of the address phase of a single read: start, break on nack. The
/// bus is not released.
pub const POINTER_OPTIONS: u32 = I2C_TRANSFER_OPTIONS_START_BIT
    | I2C_TRANSFER_OPTIONS_BREAK_ON_NACK;
/// Framing of the data phase of a single read: start, stop, nack the last
/// byte.
pub const READ_OPTIONS: u32 = I2C_TRANSFER_OPTIONS_START_BIT | I2C_TRANSFER_OPTIONS_STOP_BIT
    | I2C_TRANSFER_OPTIONS_NACK_LAST_BYTE;
/// Framing of the address phase of a burst: as for a single read, with fast
/// transfer.
pub const BURST_POINTER_OPTIONS: u32 = I2C_TRANSFER_OPTIONS_START_BIT
    | I2C_TRANSFER_OPTIONS_BREAK_ON_NACK | I2C_TRANSFER_OPTIONS_FAST_TRANSFER_BYTES;
/// Framing of the data phase of a burst: as for a single read, with fast
/// transfer.
pub const BURST_READ_OPTIONS: u32 = I2C_TRANSFER_OPTIONS_START_BIT | I2C_TRANSFER_OPTIONS_STOP_BIT
    | I2C_TRANSFER_OPTIONS_NACK_LAST_BYTE | I2C_TRANSFER_OPTIONS_FAST_TRANSFER_BYTES;

/// How a channel of the bridge is set up.
#[derive(Debug, Clone, Copy, PartialEq, Eq, Structural)]
pub struct ChannelConfig {
    pub clock_rate: u32,
    pub latency_timer: u8,
    pub options: u32,
    pub pin: u32,
    pub current_pin_state: u16,
}

impl Default for ChannelConfig {
    fn default() -> (config: ChannelConfig)
        ensures
            config == (ChannelConfig {
                clock_rate: I2C_CLOCK_FAST_MODE,
                latency_timer: 8,
                options: 0,
                pin: 0,
                current_pin_state: 0,
            }),
    {
        ChannelConfig {
            clock_rate: I2C_CLOCK_FAST_MODE,
            latency_timer: 8,
            options: 0,
            pin: 0,
            current_pin_state: 0,
        }
    }
}

/// One thing done through a [`Bus`], with what came back.
pub enum BusOp {
    /// The channels of the bridge were counted.
    ChannelCount { status: u32, channels: u32 },
    /// A channel was opened.
    Open { index: u32, status: u32 },
    /// The open channel was set up.
    Configure { config: ChannelConfig, status: u32 },
    /// Bytes were sent to the device at `address`.
    Write { address: u8, bytes: Seq<u8>, options: u32, status: u32, transferred: u32 },
    /// `count` bytes were asked of the device at `address`.
    Read { address: u8, count: nat, options: u32, status: u32, data: Seq<u8>, transferred: u32 },
    /// The channel was closed.
    Close,
    /// The clock was read.
    Now { micros: u64 },
    /// The caller slept.
    Sleep { micros: u64 },
}

impl BusOp {
    /// The status that a transfer came back with; `FT_OK` for what cannot
    /// fail.
    pub open spec fn status(self) -> u32 {
        match self {
            BusOp::ChannelCount { status, .. } => status,
            BusOp::Open { status, .. } => status,
            BusOp::Configure { status, .. } => status,
            BusOp::Write { status, .. } => status,
            BusOp::Read { status, .. } => status,
            BusOp::Close => FT_OK,
            BusOp::Now { .. } => FT_OK,
            BusOp::Sleep { .. } => FT_OK,
        }
    }

    /// Whether the operation came back with a status other than `FT_OK`.
    pub open spec fn failed(self) -> bool {
        self.status() != FT_OK
    }

    /// The bytes that a read came back with.
    pub open spec fn data(self) -> Seq<u8> {
        match self {
            BusOp::Read { data, .. } => data,
            _ => Seq::empty(),
        }
    }

    /// The count that the bridge reported as transferred.
    pub open spec fn transferred(self) -> u32 {
        match self {
            BusOp::Write { transferred, .. } => transferred,
            BusOp::Read { transferred, .. } => transferred,
            _ => 0,
        }
    }
}

/// The bus primitive and the clock of the host, as the driver needs them.
/// Nothing is assumed of an implementation: whatever it returns is taken as
/// the answer of the outside world.
pub trait Bus {
    /// Counts the channels that the bridge offers. Returns status and count.
    fn channel_count(&mut self) -> (u32, u32);

    /// Opens a channel. Returns the status.
    fn open(&mut self, index: u32) -> u32;

    /// Sets clock rate and latency of the open channel. Returns the status.
    fn configure(&mut self, config: ChannelConfig) -> u32;

    /// Sends `bytes` to the device at `address`. Returns status and the
    /// count that the bridge reports as transferred.
    fn write(&mut self, address: u8, bytes: &[u8], options: u32) -> (u32, u32);

    /// Asks `count` bytes of the device at `address`. Returns status, the
    /// bytes and the count that the bridge reports as transferred.
    fn read(&mut self, address: u8, count: usize, options: u32) -> (u32, Vec<u8>, u32);

    /// Closes the channel.
    fn close(&mut self);

    /// Reads the monotonic clock of the host, in microseconds.
    fn now_micros(&mut self) -> u64;

    /// Blocks for `micros` microseconds.
    fn sleep_micros(&mut self, micros: u64);
}

/// A bus together with the record of everything that was done through it.
/// Each method makes the one call of the same name and adds one entry.
pub struct Channel<B: Bus> {
    bus: B,
    log: Ghost<Seq<BusOp>>,
}

impl<B: Bus> Channel<B> {
    /// Everything done through this channel so far, oldest first.
    pub closed spec fn history(&self) -> Seq<BusOp> {
        self.log@
    }

    /// The bus inside.
    pub closed spec fn inner(&self) -> B {
        self.bus
    }

    /// Wraps a bus. Nothing has been done through it yet.
    pub fn new(bus: B) -> (channel: Channel<B>)
        ensures
            channel.history() == Seq::<BusOp>::empty(),
            channel.inner() == bus,
    {
        Channel { bus, log: Ghost(Seq::empty()) }
    }

    /// Hands the bus back.
    pub fn into_inner(self) -> (bus: B)
        ensures
            bus == self.inner(),
    {
        self.bus
    }

    /// Looks at the bus.
    pub fn get_ref(&self) -> (bus: &B)
        ensures
            *bus == self.inner(),
    {
        &self.bus
    }

    /// Counts the channels that the bridge offers. Returns status and count.
    pub fn channel_count(&mut self) -> (r: (u32, u32))
        ensures
            final(self).history() == old(self).history().push(
                BusOp::ChannelCount { status: r.0, channels: r.1 },
            ),
    {
        let r = self.bus.channel_count();
        self.log = Ghost(self.log@.push(BusOp::ChannelCount { status: r.0, channels: r.1 }));
        r
    }

    /// Opens channel `index`. Returns the status.
    pub fn open(&mut self, index: u32) -> (status: u32)
        ensures
            final(self).history() == old(self).history().push(BusOp::Open { index, status }),
    {
        let status = self.bus.open(index);
        self.log = Ghost(self.log@.push(BusOp::Open { index, status }));
        status
    }

    /// Sets the open channel up. Returns the status.
    pub fn configure(&mut self, config: ChannelConfig) -> (status: u32)
        ensures
            final(self).history() == old(self).history().push(
                BusOp::Configure { config, status },
            ),
    {
        let status = self.bus.configure(config);
        self.log = Ghost(self.log@.push(BusOp::Configure { config, status }));
        status
    }

    /// Sends `bytes` to the device at `address`. Returns status and the
    /// count that the bridge reports as transferred.
    pub fn write(&mut self, address: u8, bytes: &[u8], options: u32) -> (r: (u32, u32))
        ensures
            final(self).history() == old(self).history().push(
                BusOp::Write { address, bytes: bytes@, options, status: r.0, transferred: r.1 },
            ),
    {
        let r = self.bus.write(address, bytes, options);
        self.log = Ghost(
            self.log@.push(
                BusOp::Write { address, bytes: bytes@, options, status: r.0, transferred: r.1 },
            ),
        );
        r
    }

    /// Asks `count` bytes of the device at `address`. Returns status, the
    /// bytes and the count that the bridge reports as transferred. A bus
    /// that reports success and hands back another number of bytes than was
    /// asked for has failed: the status is then `FT_OTHER_ERROR`.
    pub fn read(&mut self, address: u8, count: usize, options: u32) -> (r: (u32, Vec<u8>, u32))
        ensures
            r.0 == FT_OK ==> r.1@.len() == count,
            final(self).history() == old(self).history().push(
                BusOp::Read {
                    address,
                    count: count as nat,
                    options,
                    status: r.0,
                    data: r.1@,
                    transferred: r.2,
                },
            ),
    {
        let (raw, data, transferred) = self.bus.read(address, count, options);
        let status: u32 = if raw == FT_OK && data.len() != count {
            FT_OTHER_ERROR
        } else {
            raw
        };
        self.log = Ghost(
            self.log@.push(
                BusOp::Read {
                    address,
                    count: count as nat,
                    options,
                    status,
                    data: data@,
                    transferred,
                },
            ),
        );
        (status, data, transferred)
    }

    /// Closes the channel.
    pub fn close(&mut self)
        ensures
            final(self).history() == old(self).history().push(BusOp::Close),
    {
        self.bus.close();
        self.log = Ghost(self.log@.push(BusOp::Close));
    }

    /// Reads the clock of the host, in microseconds.
    pub fn now_micros(&mut self) -> (micros: u64)
        ensures
            final(self).history() == old(self).history().push(BusOp::Now { micros }),
    {
        let micros = self.bus.now_micros();
        self.log = Ghost(self.log@.push(BusOp::Now { micros }));
        micros
    }

    /// Blocks for `micros` microseconds.
    pub fn sleep_micros(&mut self, micros: u64)
        ensures
            final(self).history() == old(self).history().push(BusOp::Sleep { micros }),
    {
        self.bus.sleep_micros(micros);
        self.log = Ghost(self.log@.push(BusOp::Sleep { micros }));
    }
}

} // verus!
