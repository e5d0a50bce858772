//! The sensor: transactions on its registers, bring-up, and single readings.

use vstd::prelude::*;
use crate::bus::{
    Bus, BusOp, Channel, ChannelConfig, BURST_POINTER_OPTIONS, BURST_READ_OPTIONS,
    I2C_CLOCK_FAST_MODE_PLUS, POINTER_OPTIONS, READ_OPTIONS, WRITE_OPTIONS,
};
use crate::error::{bus_fault, ErrorView, Mpu6050Error};
use crate::fifo::FifoState;
use crate::reading::{be_i16, burst_sample, i16_from_be, parse_burst, SensorData};
use crate::registers::{
    MPU6050_ADDRESS, REG_ACCEL_CONFIG, REG_ACCEL_XOUT_H, REG_CONFIG, REG_FIFO_EN,
    REG_GYRO_CONFIG, REG_GYRO_XOUT_H, REG_PWR_MGMT_1, REG_SMPLRT_DIV, REG_USER_CTRL,
    REG_WHO_AM_I, WAKE_SETTLE_MICROS, WHO_AM_I_VALUE,
};
use crate::status::FT_OK;
use crate::trace::{
    extends, is_run, lemma_extended_twice, lemma_pushed, lemma_unchanged, run_failed,
    run_status, since, window, Step,
};

verus! {

/// One step of a fixed sequence of settings.
#[derive(Debug, Clone, Copy, PartialEq, Eq)]
pub enum Command {
    /// Write `value` to the register `reg`.
    Put { reg: u8, value: u8 },
    /// Wait for the device to settle.
    Settle { micros: u64 },
}

/// The step that writes `value` to the register `reg`.
pub open spec fn set_step(reg: u8, value: u8) -> Step {
    Step::Write { bytes: seq![reg, value], options: WRITE_OPTIONS }
}

impl Command {
    /// What the command does on the bus.
    pub open spec fn step(self) -> Step {
        match self {
            Command::Put { reg, value } => set_step(reg, value),
            Command::Settle { micros } => Step::Sleep { micros },
        }
    }
}

/// What a sequence of commands does on the bus.
pub open spec fn steps(commands: Seq<Command>) -> Seq<Step> {
    Seq::new(commands.len(), |i: int| commands[i].step())
}

/// Reading one register: the address is written without releasing the bus,
/// then one byte is read.
pub open spec fn read_script(reg: u8) -> Seq<Step> {
    seq![
        Step::Write { bytes: seq![reg], options: POINTER_OPTIONS },
        Step::Read { count: 1, options: READ_OPTIONS },
    ]
}

/// Reading `count` registers from `reg` on in one burst.
pub open spec fn burst_script(reg: u8, count: nat) -> Seq<Step> {
    seq![
        Step::Write { bytes: seq![reg], options: BURST_POINTER_OPTIONS },
        Step::Read { count, options: BURST_READ_OPTIONS },
    ]
}

/// A result with its error as a view.
pub open spec fn view_result<T>(res: Result<T, Mpu6050Error>) -> Result<T, ErrorView> {
    match res {
        Ok(v) => Ok(v),
        Err(e) => Err(e@),
    }
}

/// What a run of settings returns: the fault of the step that failed, if one
/// did.
pub open spec fn run_outcome(ops: Seq<BusOp>) -> Result<(), ErrorView> {
    if run_failed(ops) {
        Err(bus_fault(run_status(ops)))
    } else {
        Ok(())
    }
}

/// What reading one register returns. Under this framing the bridge counts
/// bytes, so a count other than one is an error.
pub open spec fn register_value(ops: Seq<BusOp>) -> Result<u8, ErrorView> {
    if run_failed(ops) {
        Err(bus_fault(run_status(ops)))
    } else if ops[1].transferred() != 1 {
        Err(ErrorView::TransferError { expected: 1, actual: ops[1].transferred() })
    } else {
        Ok(ops[1].data()[0])
    }
}

/// What a burst returns. Under fast transfer the count that the bridge
/// reports may be in bits; only the status decides.
pub open spec fn burst_value(ops: Seq<BusOp>) -> Result<Seq<u8>, ErrorView> {
    if run_failed(ops) {
        Err(bus_fault(run_status(ops)))
    } else {
        Ok(ops[1].data())
    }
}

/// The three axes that six bytes hold, most significant byte first.
pub open spec fn axes(bytes: Seq<u8>) -> (i16, i16, i16) {
    (be_i16(bytes[0], bytes[1]), be_i16(bytes[2], bytes[3]), be_i16(bytes[4], bytes[5]))
}

/// What reading three axes returns.
pub open spec fn axes_value(ops: Seq<BusOp>) -> Result<(i16, i16, i16), ErrorView> {
    match burst_value(ops) {
        Ok(bytes) => Ok(axes(bytes)),
        Err(e) => Err(e),
    }
}

/// What reading all six axes returns.
pub open spec fn sample_value(ops: Seq<BusOp>) -> Result<SensorData, ErrorView> {
    match burst_value(ops) {
        Ok(bytes) => Ok(burst_sample(bytes)),
        Err(e) => Err(e),
    }
}

/// How the driver sets the channel up: one megahertz, and the shortest
/// latency that is stable.
pub open spec fn driver_config() -> ChannelConfig {
    ChannelConfig {
        clock_rate: I2C_CLOCK_FAST_MODE_PLUS,
        latency_timer: 1,
        options: 0,
        pin: 0,
        current_pin_state: 0,
    }
}

/// Clears the sleep bit and lets the device wake.
pub open spec fn wake_commands() -> Seq<Command> {
    seq![
        Command::Put { reg: REG_PWR_MGMT_1, value: 0 },
        Command::Settle { micros: WAKE_SETTLE_MICROS },
    ]
}

/// Sets the default ranges: two g, and 250 degrees per second.
pub open spec fn range_commands() -> Seq<Command> {
    seq![
        Command::Put { reg: REG_ACCEL_CONFIG, value: 0 },
        Command::Put { reg: REG_GYRO_CONFIG, value: 0 },
    ]
}

/// Turns buffering off and puts divider and filter back.
pub open spec fn disable_commands() -> Seq<Command> {
    seq![
        Command::Put { reg: REG_USER_CTRL, value: 0 },
        Command::Put { reg: REG_FIFO_EN, value: 0 },
        Command::Put { reg: REG_SMPLRT_DIV, value: 0 },
        Command::Put { reg: REG_CONFIG, value: 0 },
    ]
}

/// Whether `ops` is what opening channel `index` leaves in the history: the
/// channels are counted, the channel is opened and set up, and each step is
/// the last where it fails. A channel that cannot be set up is closed again.
pub open spec fn is_channel_setup(ops: Seq<BusOp>, index: u32) -> bool {
    &&& ops.len() >= 1
    &&& ops[0] is ChannelCount
    &&& if ops[0].failed() || ops[0]->channels == 0 || index >= ops[0]->channels {
        ops.len() == 1
    } else {
        &&& ops.len() >= 2
        &&& ops[1] matches BusOp::Open { index: i, .. } && i == index
        &&& if ops[1].failed() {
            ops.len() == 2
        } else {
            &&& ops.len() >= 3
            &&& ops[2] matches BusOp::Configure { config, .. } && config == driver_config()
            &&& if ops[2].failed() {
                ops.len() == 4 && ops[3] == BusOp::Close
            } else {
                ops.len() == 3
            }
        }
    }
}

/// What opening channel `index` returns.
pub open spec fn channel_setup_result(ops: Seq<BusOp>, index: u32) -> Result<(), ErrorView> {
    if ops[0].failed() {
        Err(bus_fault(ops[0].status()))
    } else if ops[0]->channels == 0 {
        Err(ErrorView::NoChannelsFound)
    } else if index >= ops[0]->channels {
        Err(ErrorView::InvalidChannel(index))
    } else if ops[1].failed() {
        Err(bus_fault(ops[1].status()))
    } else if ops[2].failed() {
        Err(bus_fault(ops[2].status()))
    } else {
        Ok(())
    }
}

/// Whether `ops` is what bringing the device up leaves in the history: it is
/// woken, its identity is read, and where that is the expected one the
/// default ranges are set. The first step that fails is the last.
pub open spec fn is_init(ops: Seq<BusOp>) -> bool {
    let wake = window(ops, 0, 2);
    let identity = window(ops, 2, 2);
    &&& ops.len() <= 6
    &&& is_run(wake, steps(wake_commands()), MPU6050_ADDRESS)
    &&& if run_failed(wake) {
        ops.len() == wake.len()
    } else {
        &&& is_run(identity, read_script(REG_WHO_AM_I), MPU6050_ADDRESS)
        &&& if register_value(identity) != Ok::<u8, ErrorView>(WHO_AM_I_VALUE) {
            ops.len() == 2 + identity.len()
        } else {
            is_run(ops.skip(4), steps(range_commands()), MPU6050_ADDRESS)
        }
    }
}

/// What bringing the device up returns.
pub open spec fn init_result(ops: Seq<BusOp>) -> Result<(), ErrorView> {
    let wake = window(ops, 0, 2);
    let identity = window(ops, 2, 2);
    if run_failed(wake) {
        Err(bus_fault(run_status(wake)))
    } else {
        match register_value(identity) {
            Err(e) => Err(e),
            Ok(id) => if id != WHO_AM_I_VALUE {
                Err(ErrorView::InvalidDeviceId(id))
            } else {
                run_outcome(ops.skip(4))
            },
        }
    }
}

/// Whether `ops` is what giving the device up leaves in the history:
/// buffering is turned off as far as the bus allows, and the channel is
/// closed whatever came of that.
pub open spec fn is_teardown(ops: Seq<BusOp>) -> bool {
    &&& ops.len() >= 1
    &&& ops.last() == BusOp::Close
    &&& is_run(ops.drop_last(), steps(disable_commands()), MPU6050_ADDRESS)
}

/// Whether `ops` is what making a driver on channel `index` leaves in the
/// history, and `result` what it returns: the channel is set up and the
/// device brought up; a device that cannot be brought up is given up.
pub open spec fn is_bring_up(ops: Seq<BusOp>, index: u32, result: Result<(), ErrorView>) -> bool {
    if ops.len() >= 3 && channel_setup_result(ops.take(3), index) is Ok {
        &&& is_channel_setup(ops.take(3), index)
        &&& if result is Ok {
            is_init(ops.skip(3)) && init_result(ops.skip(3)) == result
        } else {
            exists|k: int|
                3 <= k < ops.len() && is_init(#[trigger] ops.subrange(3, k)) && init_result(
                    ops.subrange(3, k),
                ) == result && is_teardown(ops.skip(k))
        }
    } else {
        is_channel_setup(ops, index) && channel_setup_result(ops, index) == result
    }
}

/// The sensor on its bus.
pub struct Mpu6050<B: Bus> {
    channel: Channel<B>,
    fifo: FifoState,
}

impl<B: Bus> Mpu6050<B> {
    /// Everything done on the bus so far, oldest first.
    pub closed spec fn history(&self) -> Seq<BusOp> {
        self.channel.history()
    }

    /// Whether buffering is on, and with which divider.
    pub closed spec fn fifo_state(&self) -> FifoState {
        self.fifo
    }

    /// Whether buffering is on.
    pub open spec fn fifo_on(&self) -> bool {
        self.fifo_state() is Enabled
    }

    /// The bus as it is now.
    pub closed spec fn bus_state(&self) -> B {
        self.channel.inner()
    }

    /// Whether buffering is on, and with which divider.
    pub fn fifo(&self) -> (state: FifoState)
        ensures
            state == self.fifo_state(),
    {
        self.fifo
    }

    /// Whether buffering is on.
    pub fn is_fifo_enabled(&self) -> (on: bool)
        ensures
            on == self.fifo_on(),
    {
        match self.fifo {
            FifoState::Enabled { .. } => true,
            FifoState::Disabled => false,
        }
    }

    /// Looks at the bus.
    pub fn bus(&self) -> (bus: &B)
        ensures
            *bus == self.bus_state(),
    {
        self.channel.get_ref()
    }

    /// Carries out `commands` in order and stops at the first write that
    /// fails.
    pub fn perform(&mut self, commands: &Vec<Command>) -> (res: Result<(), Mpu6050Error>)
        ensures
            final(self).fifo_state() == old(self).fifo_state(),
            extends(final(self).history(), old(self).history()),
            is_run(
                since(old(self).history(), final(self).history()),
                steps(commands@),
                MPU6050_ADDRESS,
            ),
            view_result(res) == run_outcome(since(old(self).history(), final(self).history())),
    {
        let ghost h0 = self.history();
        let ghost script = steps(commands@);
        proof {
            lemma_unchanged(h0);
        }
        let mut i: usize = 0;
        while i < commands.len()
            invariant
                i <= commands.len(),
                script == steps(commands@),
                h0 == old(self).history(),
                self.fifo_state() == old(self).fifo_state(),
                extends(self.history(), h0),
                since(h0, self.history()).len() == i,
                forall|k: int|
                    0 <= k < i ==> (#[trigger] script[k]).done_by(
                        since(h0, self.history())[k],
                        MPU6050_ADDRESS,
                    ),
                forall|k: int| 0 <= k < i ==> !(#[trigger] since(h0, self.history())[k]).failed(),
            decreases commands.len() - i,
        {
            let ghost h1 = self.history();
            let command = commands[i];
            match command {
                Command::Put { reg, value } => {
                    let buffer: [u8; 2] = [reg, value];
                    let (status, _) = self.channel.write(
                        MPU6050_ADDRESS,
                        buffer.as_slice(),
                        WRITE_OPTIONS,
                    );
                    proof {
                        let op = self.history().last();
                        lemma_pushed(h1, op);
                        lemma_extended_twice(h0, h1, self.history());
                        assert(buffer@ =~= seq![reg, value]);
                        assert(script[i as int] == command.step());
                        assert(since(h0, self.history()) =~= since(h0, h1).push(op));
                    }
                    if status != FT_OK {
                        return Err(Mpu6050Error::from(status));
                    }
                },
                Command::Settle { micros } => {
                    self.channel.sleep_micros(micros);
                    proof {
                        let op = self.history().last();
                        lemma_pushed(h1, op);
                        lemma_extended_twice(h0, h1, self.history());
                        assert(script[i as int] == command.step());
                        assert(since(h0, self.history()) =~= since(h0, h1).push(op));
                    }
                },
            }
            i = i + 1;
        }
        Ok(())
    }

    /// Writes `value` to the register `reg` in one transaction.
    pub fn write_register(&mut self, reg: u8, value: u8) -> (res: Result<(), Mpu6050Error>)
        ensures
            final(self).fifo_state() == old(self).fifo_state(),
            extends(final(self).history(), old(self).history()),
            is_run(
                since(old(self).history(), final(self).history()),
                seq![set_step(reg, value)],
                MPU6050_ADDRESS,
            ),
            view_result(res) == run_outcome(since(old(self).history(), final(self).history())),
    {
        let ghost h0 = self.history();
        let buffer: [u8; 2] = [reg, value];
        let (status, _) = self.channel.write(MPU6050_ADDRESS, buffer.as_slice(), WRITE_OPTIONS);
        proof {
            lemma_pushed(h0, self.history().last());
            assert(buffer@ =~= seq![reg, value]);
        }
        if status != FT_OK {
            return Err(Mpu6050Error::from(status));
        }
        Ok(())
    }

    /// Reads the register `reg`.
    pub fn read_register(&mut self, reg: u8) -> (res: Result<u8, Mpu6050Error>)
        ensures
            final(self).fifo_state() == old(self).fifo_state(),
            extends(final(self).history(), old(self).history()),
            is_run(
                since(old(self).history(), final(self).history()),
                read_script(reg),
                MPU6050_ADDRESS,
            ),
            view_result(res) == register_value(since(old(self).history(), final(self).history())),
    {
        let ghost h0 = self.history();
        let pointer: [u8; 1] = [reg];
        let (status, _) = self.channel.write(MPU6050_ADDRESS, pointer.as_slice(), POINTER_OPTIONS);
        let ghost h1 = self.history();
        proof {
            lemma_pushed(h0, h1.last());
            assert(pointer@ =~= seq![reg]);
        }
        if status != FT_OK {
            return Err(Mpu6050Error::from(status));
        }
        let (status, data, transferred) = self.channel.read(MPU6050_ADDRESS, 1, READ_OPTIONS);
        proof {
            lemma_pushed(h1, self.history().last());
            lemma_extended_twice(h0, h1, self.history());
            assert(since(h0, self.history()) =~= seq![h1.last(), self.history().last()]);
        }
        if status != FT_OK {
            return Err(Mpu6050Error::from(status));
        }
        if transferred != 1 {
            return Err(Mpu6050Error::TransferError { expected: 1, actual: transferred });
        }
        Ok(data[0])
    }

    /// Reads `count` registers from `reg` on in one burst.
    pub fn read_registers(&mut self, reg: u8, count: usize) -> (res: Result<Vec<u8>, Mpu6050Error>)
        ensures
            final(self).fifo_state() == old(self).fifo_state(),
            extends(final(self).history(), old(self).history()),
            is_run(
                since(old(self).history(), final(self).history()),
                burst_script(reg, count as nat),
                MPU6050_ADDRESS,
            ),
            match res {
                Ok(data) => data@.len() == count && burst_value(
                    since(old(self).history(), final(self).history()),
                ) == Ok::<Seq<u8>, ErrorView>(data@),
                Err(e) => burst_value(since(old(self).history(), final(self).history())) == Err::<
                    Seq<u8>,
                    ErrorView,
                >(e@),
            },
    {
        let ghost h0 = self.history();
        let pointer: [u8; 1] = [reg];
        let (status, _) = self.channel.write(
            MPU6050_ADDRESS,
            pointer.as_slice(),
            BURST_POINTER_OPTIONS,
        );
        let ghost h1 = self.history();
        proof {
            lemma_pushed(h0, h1.last());
            assert(pointer@ =~= seq![reg]);
        }
        if status != FT_OK {
            return Err(Mpu6050Error::from(status));
        }
        let (status, data, _) = self.channel.read(MPU6050_ADDRESS, count, BURST_READ_OPTIONS);
        proof {
            lemma_pushed(h1, self.history().last());
            lemma_extended_twice(h0, h1, self.history());
            assert(since(h0, self.history()) =~= seq![h1.last(), self.history().last()]);
        }
        if status != FT_OK {
            return Err(Mpu6050Error::from(status));
        }
        Ok(data)
    }

    /// Reads the three axes of the accelerometer.
    pub fn read_accel(&mut self) -> (res: Result<(i16, i16, i16), Mpu6050Error>)
        ensures
            final(self).fifo_state() == old(self).fifo_state(),
            extends(final(self).history(), old(self).history()),
            is_run(
                since(old(self).history(), final(self).history()),
                burst_script(REG_ACCEL_XOUT_H, 6),
                MPU6050_ADDRESS,
            ),
            view_result(res) == axes_value(since(old(self).history(), final(self).history())),
    {
        self.read_axes(REG_ACCEL_XOUT_H)
    }

    /// Reads the three axes of the gyroscope.
    pub fn read_gyro(&mut self) -> (res: Result<(i16, i16, i16), Mpu6050Error>)
        ensures
            final(self).fifo_state() == old(self).fifo_state(),
            extends(final(self).history(), old(self).history()),
            is_run(
                since(old(self).history(), final(self).history()),
                burst_script(REG_GYRO_XOUT_H, 6),
                MPU6050_ADDRESS,
            ),
            view_result(res) == axes_value(since(old(self).history(), final(self).history())),
    {
        self.read_axes(REG_GYRO_XOUT_H)
    }

    fn read_axes(&mut self, reg: u8) -> (res: Result<(i16, i16, i16), Mpu6050Error>)
        ensures
            final(self).fifo_state() == old(self).fifo_state(),
            extends(final(self).history(), old(self).history()),
            is_run(
                since(old(self).history(), final(self).history()),
                burst_script(reg, 6),
                MPU6050_ADDRESS,
            ),
            view_result(res) == axes_value(since(old(self).history(), final(self).history())),
    {
        match self.read_registers(reg, 6) {
            Err(e) => Err(e),
            Ok(data) => Ok(
                (
                    i16_from_be(data[0], data[1]),
                    i16_from_be(data[2], data[3]),
                    i16_from_be(data[4], data[5]),
                ),
            ),
        }
    }

    /// Reads all six axes in one burst over accelerometer, temperature and
    /// gyroscope; the temperature is dropped.
    pub fn read_all(&mut self) -> (res: Result<SensorData, Mpu6050Error>)
        ensures
            final(self).fifo_state() == old(self).fifo_state(),
            extends(final(self).history(), old(self).history()),
            is_run(
                since(old(self).history(), final(self).history()),
                burst_script(REG_ACCEL_XOUT_H, 14),
                MPU6050_ADDRESS,
            ),
            view_result(res) == sample_value(since(old(self).history(), final(self).history())),
    {
        match self.read_registers(REG_ACCEL_XOUT_H, 14) {
            Err(e) => Err(e),
            Ok(data) => Ok(parse_burst(data.as_slice())),
        }
    }

    /// Records whether buffering is on. Nothing is sent to the device.
    pub(crate) fn set_fifo(&mut self, state: FifoState)
        ensures
            final(self).fifo_state() == state,
            final(self).history() == old(self).history(),
    {
        self.fifo = state;
    }

    /// Reads the clock of the host.
    pub(crate) fn now_micros(&mut self) -> (micros: u64)
        ensures
            final(self).fifo_state() == old(self).fifo_state(),
            final(self).history() == old(self).history().push(BusOp::Now { micros }),
    {
        self.channel.now_micros()
    }

    /// Blocks for `micros` microseconds.
    pub(crate) fn sleep_micros(&mut self, micros: u64)
        ensures
            final(self).fifo_state() == old(self).fifo_state(),
            final(self).history() == old(self).history().push(BusOp::Sleep { micros }),
    {
        self.channel.sleep_micros(micros)
    }

    /// Counts the channels, then opens channel `index` and sets it up.
    fn open_channel(channel: &mut Channel<B>, index: u32) -> (res: Result<(), Mpu6050Error>)
        ensures
            extends(final(channel).history(), old(channel).history()),
            is_channel_setup(since(old(channel).history(), final(channel).history()), index),
            view_result(res) == channel_setup_result(
                since(old(channel).history(), final(channel).history()),
                index,
            ),
    {
        let ghost h0 = channel.history();
        let (status, channels) = channel.channel_count();
        let ghost h1 = channel.history();
        proof {
            lemma_pushed(h0, h1.last());
        }
        if status != FT_OK {
            return Err(Mpu6050Error::from(status));
        }
        if channels == 0 {
            return Err(Mpu6050Error::NoChannelsFound);
        }
        if index >= channels {
            return Err(Mpu6050Error::InvalidChannel(index));
        }
        let status = channel.open(index);
        let ghost h2 = channel.history();
        proof {
            lemma_pushed(h1, h2.last());
            lemma_extended_twice(h0, h1, h2);
            assert(since(h0, h2) =~= seq![h1.last(), h2.last()]);
        }
        if status != FT_OK {
            return Err(Mpu6050Error::from(status));
        }
        let config = ChannelConfig {
            clock_rate: I2C_CLOCK_FAST_MODE_PLUS,
            latency_timer: 1,
            options: 0,
            pin: 0,
            current_pin_state: 0,
        };
        let status = channel.configure(config);
        let ghost h3 = channel.history();
        proof {
            lemma_pushed(h2, h3.last());
            lemma_extended_twice(h0, h2, h3);
            assert(since(h0, h3) =~= seq![h1.last(), h2.last(), h3.last()]);
        }
        if status != FT_OK {
            channel.close();
            proof {
                lemma_pushed(h3, BusOp::Close);
                lemma_extended_twice(h0, h3, channel.history());
                assert(since(h0, channel.history()) =~= seq![
                    h1.last(),
                    h2.last(),
                    h3.last(),
                    BusOp::Close,
                ]);
            }
            return Err(Mpu6050Error::from(status));
        }
        Ok(())
    }

    /// Wakes the device, checks its identity and sets the default ranges.
    pub fn init(&mut self) -> (res: Result<(), Mpu6050Error>)
        ensures
            final(self).fifo_state() == old(self).fifo_state(),
            extends(final(self).history(), old(self).history()),
            is_init(since(old(self).history(), final(self).history())),
            view_result(res) == init_result(since(old(self).history(), final(self).history())),
    {
        let ghost h0 = self.history();
        let wake: Vec<Command> = vec![
            Command::Put { reg: REG_PWR_MGMT_1, value: 0 },
            Command::Settle { micros: WAKE_SETTLE_MICROS },
        ];
        assert(wake@ =~= wake_commands());
        let woken = self.perform(&wake);
        let ghost h1 = self.history();
        let ghost a = since(h0, h1);
        proof {
            assert(window(a, 0, 2) =~= a);
            assert(window(a, 2, 2) =~= Seq::<BusOp>::empty());
        }
        match woken {
            Err(e) => {
                return Err(e);
            },
            Ok(()) => {},
        }
        assert(a.len() == 2);
        let identity = self.read_register(REG_WHO_AM_I);
        let ghost h2 = self.history();
        let ghost b = since(h1, h2);
        proof {
            lemma_extended_twice(h0, h1, h2);
            assert(window(a + b, 0, 2) =~= a);
            assert(window(a + b, 2, 2) =~= b);
        }
        let id = match identity {
            Err(e) => {
                return Err(e);
            },
            Ok(id) => id,
        };
        if id != WHO_AM_I_VALUE {
            return Err(Mpu6050Error::InvalidDeviceId(id));
        }
        assert(b.len() == 2);
        let ranges: Vec<Command> = vec![
            Command::Put { reg: REG_ACCEL_CONFIG, value: 0 },
            Command::Put { reg: REG_GYRO_CONFIG, value: 0 },
        ];
        assert(ranges@ =~= range_commands());
        let res = self.perform(&ranges);
        proof {
            let c = since(h2, self.history());
            lemma_extended_twice(h0, h2, self.history());
            let all = since(h0, self.history());
            assert(all =~= a + b + c);
            assert(window(all, 0, 2) =~= a);
            assert(window(all, 2, 2) =~= b);
            assert(all.skip(4) =~= c);
        }
        res
    }

    /// Gives the device up: turns buffering off as far as the bus allows,
    /// then closes the channel whatever came of that, and hands the channel
    /// back.
    pub fn close(self) -> (channel: Channel<B>)
        ensures
            extends(channel.history(), self.history()),
            is_teardown(since(self.history(), channel.history())),
    {
        let ghost h0 = self.history();
        let mut sensor = self;
        let _ = sensor.disable_quietly();
        let ghost h1 = sensor.history();
        let mut channel = sensor.channel;
        channel.close();
        proof {
            lemma_pushed(h1, BusOp::Close);
            lemma_extended_twice(h0, h1, channel.history());
            assert(since(h0, channel.history()).drop_last() =~= since(h0, h1));
        }
        channel
    }

    fn disable_quietly(&mut self) -> (res: Result<(), Mpu6050Error>)
        ensures
            extends(final(self).history(), old(self).history()),
            is_run(
                since(old(self).history(), final(self).history()),
                steps(disable_commands()),
                MPU6050_ADDRESS,
            ),
    {
        let commands: Vec<Command> = vec![
            Command::Put { reg: REG_USER_CTRL, value: 0 },
            Command::Put { reg: REG_FIFO_EN, value: 0 },
            Command::Put { reg: REG_SMPLRT_DIV, value: 0 },
            Command::Put { reg: REG_CONFIG, value: 0 },
        ];
        assert(commands@ =~= disable_commands());
        self.perform(&commands)
    }

    /// Opens channel `channel_index` of `bus`, sets it up and brings the
    /// device up, with buffering off. Where that fails, the channel comes
    /// back closed, as far as it was opened, together with the error.
    pub fn new(bus: B, channel_index: u32) -> (res: Result<
        Mpu6050<B>,
        (Mpu6050Error, Channel<B>),
    >)
        ensures
            match res {
                Ok(sensor) => !sensor.fifo_on() && is_bring_up(
                    sensor.history(),
                    channel_index,
                    Ok(()),
                ),
                Err((e, channel)) => is_bring_up(
                    channel.history(),
                    channel_index,
                    Err::<(), ErrorView>(e@),
                ),
            },
    {
        let mut channel = Channel::new(bus);
        let ghost h0 = channel.history();
        let opened = Self::open_channel(&mut channel, channel_index);
        let ghost h1 = channel.history();
        proof {
            assert(since(h0, h1) =~= h1);
        }
        match opened {
            Err(e) => {
                proof {
                    if h1.len() >= 3 {
                        assert(h1.take(3)[0] == h1[0]);
                        assert(h1.take(3)[1] == h1[1]);
                        assert(h1.take(3)[2] == h1[2]);
                    }
                }
                return Err((e, channel));
            },
            Ok(()) => {},
        }
        let mut sensor = Mpu6050 { channel, fifo: FifoState::Disabled };
        let started = sensor.init();
        let ghost h2 = sensor.history();
        proof {
            assert(h1.len() == 3);
            assert(h2.take(3) =~= h1);
            assert(h2.skip(3) =~= since(h1, h2));
        }
        match started {
            Ok(()) => Ok(sensor),
            Err(e) => {
                let channel = sensor.close();
                proof {
                    let h3 = channel.history();
                    lemma_extended_twice(h1, h2, h3);
                    let k = h2.len() as int;
                    assert(h3.take(3) =~= h1);
                    assert(h3.subrange(3, k) =~= since(h1, h2));
                    assert(h3.skip(k) =~= since(h2, h3));
                }
                Err((e, channel))
            },
        }
    }
}

} // verus!
