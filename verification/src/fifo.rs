//! Buffering on the device: turning it on and off, and draining it.

use vstd::prelude::*;
use vstd::string::*;
use crate::bus::{Bus, BusOp};
use crate::error::{ErrorView, Mpu6050Error};
use crate::mpu6050::{
    burst_script, burst_value, disable_commands, read_script, register_value, run_outcome,
    steps, view_result, Command, Mpu6050,
};
use crate::reading::{decode_samples, parse_fifo_data, SensorData};
use crate::registers::{
    DLPF_1KHZ, ENABLE_SETTLE_MICROS, FIFO_EN_ALL_SENSORS, GYRO_OUTPUT_RATE_HZ,
    INT_STATUS_FIFO_OVERFLOW, MPU6050_ADDRESS, REG_CONFIG, REG_FIFO_COUNTH, REG_FIFO_COUNTL,
    REG_FIFO_EN, REG_FIFO_R_W, REG_INT_STATUS, REG_SMPLRT_DIV, REG_USER_CTRL,
    RESET_SETTLE_MICROS, USER_CTRL_FIFO_EN, USER_CTRL_FIFO_RESET, USER_CTRL_FIFO_RESET_KEEP,
};
use crate::text::{append_decimal, decimal_text};
use crate::trace::{
    extends, is_run, lemma_extended_twice, lemma_runs_in_a_row, lemma_unchanged, run_failed,
    since, window,
};

verus! {

/// Whether the device buffers its samples.
#[derive(Debug, Clone, Copy, PartialEq, Eq, Structural)]
pub enum FifoState {
    /// Samples are read from the data registers.
    Disabled,
    /// Samples of twelve bytes go into the buffer, at the rate that
    /// `divider` gives.
    Enabled { divider: u8 },
}

/// The sample rates at which the device can buffer.
pub open spec fn valid_fifo_rate(rate: u16) -> bool {
    4 <= rate <= 1000
}

/// The divider that brings the 1 kHz of the device down to `rate`: one less
/// than the whole quotient, and zero where that would be negative.
pub open spec fn divider_for(rate: u16) -> int {
    if 1000int / (rate as int) >= 1 {
        1000int / (rate as int) - 1
    } else {
        0
    }
}

/// Why a sample rate is refused.
pub open spec fn rate_text(rate: u16) -> Seq<char> {
    "Sample rate must be 4-1000 Hz, got "@ + decimal_text(rate as nat)
}

/// Sets filter and divider, clears the buffer, routes all six axes into it
/// and turns it on.
pub open spec fn enable_commands(rate: u16) -> Seq<Command> {
    seq![
        Command::Put { reg: REG_CONFIG, value: DLPF_1KHZ },
        Command::Put { reg: REG_SMPLRT_DIV, value: divider_for(rate) as u8 },
        Command::Put { reg: REG_USER_CTRL, value: USER_CTRL_FIFO_RESET },
        Command::Settle { micros: ENABLE_SETTLE_MICROS },
        Command::Put { reg: REG_FIFO_EN, value: FIFO_EN_ALL_SENSORS },
        Command::Put { reg: REG_USER_CTRL, value: USER_CTRL_FIFO_EN },
    ]
}

/// Clears the buffer: the reset bit is set and, after the device has
/// settled, cleared again. The bit that turns buffering on is written as it
/// was: set while buffering is `on`, clear while it is off.
pub open spec fn reset_commands(on: bool) -> Seq<Command> {
    seq![
        Command::Put {
            reg: REG_USER_CTRL,
            value: if on {
                USER_CTRL_FIFO_RESET_KEEP
            } else {
                USER_CTRL_FIFO_RESET
            },
        },
        Command::Settle { micros: RESET_SETTLE_MICROS },
        Command::Put {
            reg: REG_USER_CTRL,
            value: if on {
                USER_CTRL_FIFO_EN
            } else {
                0
            },
        },
    ]
}

/// What turning buffering on sends, given whether it was on before: it is
/// turned off first where it was.
pub open spec fn enable_script(was_on: bool, rate: u16) -> Seq<Command> {
    if was_on {
        disable_commands() + enable_commands(rate)
    } else {
        enable_commands(rate)
    }
}

/// The state after an attempt to turn buffering on at `rate`: it is on
/// where nothing failed, as it was where turning it off first failed, and
/// off else.
pub open spec fn fifo_after_enable(before: FifoState, ops: Seq<BusOp>, rate: u16) -> FifoState {
    if !run_failed(ops) {
        FifoState::Enabled { divider: divider_for(rate) as u8 }
    } else if before is Enabled && ops.len() <= 4 {
        before
    } else {
        FifoState::Disabled
    }
}

/// Whether `ops` is what reading the byte count leaves in the history: the
/// high register is read, then the low one.
pub open spec fn is_count_read(ops: Seq<BusOp>) -> bool {
    let high = window(ops, 0, 2);
    &&& ops.len() <= 4
    &&& is_run(high, read_script(REG_FIFO_COUNTH), MPU6050_ADDRESS)
    &&& if register_value(high) is Err {
        ops.len() == high.len()
    } else {
        is_run(ops.skip(2), read_script(REG_FIFO_COUNTL), MPU6050_ADDRESS)
    }
}

/// The byte count that was read: the two registers, high byte first.
pub open spec fn count_value(ops: Seq<BusOp>) -> Result<u16, ErrorView> {
    match register_value(window(ops, 0, 2)) {
        Err(e) => Err(e),
        Ok(high) => match register_value(ops.skip(2)) {
            Err(e) => Err(e),
            Ok(low) => Ok((high as int * 256 + low as int) as u16),
        },
    }
}

/// Whether the interrupt status reports an overflow of the buffer.
pub open spec fn overflowed(flags: u8) -> bool {
    flags & INT_STATUS_FIFO_OVERFLOW != 0
}

/// The bytes of the whole samples among `count` buffered bytes.
pub open spec fn whole_samples(count: u16) -> nat {
    (count as nat / 12) * 12
}

/// Whether `ops` is what draining the buffer leaves in the history: the
/// interrupt status is read, then the byte count; after an overflow the
/// buffer is cleared, else the whole samples in it are read in one burst, if
/// there is any. The first step that fails is the last.
pub open spec fn is_batch_read(ops: Seq<BusOp>) -> bool {
    let flags = window(ops, 0, 2);
    let count = window(ops, 2, 4);
    &&& is_run(flags, read_script(REG_INT_STATUS), MPU6050_ADDRESS)
    &&& if register_value(flags) is Err {
        ops.len() == flags.len()
    } else {
        &&& is_count_read(count)
        &&& match count_value(count) {
            Err(_) => ops.len() == 2 + count.len(),
            Ok(bytes) => if overflowed(register_value(flags)->Ok_0) {
                is_run(ops.skip(6), steps(reset_commands(true)), MPU6050_ADDRESS)
            } else if whole_samples(bytes) == 0 {
                ops.len() == 6
            } else {
                is_run(
                    ops.skip(6),
                    burst_script(REG_FIFO_R_W, whole_samples(bytes)),
                    MPU6050_ADDRESS,
                )
            },
        }
    }
}

/// What draining the buffer returns: after an overflow the error that says
/// how many samples were in the buffer, unless clearing it failed; else the
/// samples that were read, one for every twelve bytes that the buffer held.
pub open spec fn batch_value(ops: Seq<BusOp>) -> Result<Seq<SensorData>, ErrorView> {
    match register_value(window(ops, 0, 2)) {
        Err(e) => Err(e),
        Ok(flags) => match count_value(window(ops, 2, 4)) {
            Err(e) => Err(e),
            Ok(bytes) => if overflowed(flags) {
                match run_outcome(ops.skip(6)) {
                    Err(e) => Err(e),
                    Ok(_) => Err(ErrorView::FifoOverflow { samples_lost: bytes / 12 }),
                }
            } else if whole_samples(bytes) == 0 {
                Ok(Seq::empty())
            } else {
                match burst_value(ops.skip(6)) {
                    Err(e) => Err(e),
                    Ok(data) => Ok(decode_samples(data)),
                }
            },
        },
    }
}

/// A batch with its samples as a sequence and its error as a view.
pub open spec fn view_batch(res: Result<Vec<SensorData>, Mpu6050Error>) -> Result<
    Seq<SensorData>,
    ErrorView,
> {
    match res {
        Ok(samples) => Ok(samples@),
        Err(e) => Err(e@),
    }
}

/// The divider for a sample rate.
pub fn divider(rate: u16) -> (d: u16)
    requires
        rate > 0,
    ensures
        d == divider_for(rate),
        valid_fifo_rate(rate) ==> d <= 249,
{
    let quotient: u16 = GYRO_OUTPUT_RATE_HZ / rate;
    assert(rate >= 4 ==> 1000int / (rate as int) <= 250) by (nonlinear_arith)
        requires
            rate > 0,
    ;
    if quotient >= 1 {
        quotient - 1
    } else {
        0
    }
}

fn enable_sequence(rate: u16) -> (commands: Vec<Command>)
    requires
        valid_fifo_rate(rate),
    ensures
        commands@ == enable_commands(rate),
{
    let d: u16 = divider(rate);
    let commands: Vec<Command> = vec![
        Command::Put { reg: REG_CONFIG, value: DLPF_1KHZ },
        Command::Put { reg: REG_SMPLRT_DIV, value: d as u8 },
        Command::Put { reg: REG_USER_CTRL, value: USER_CTRL_FIFO_RESET },
        Command::Settle { micros: ENABLE_SETTLE_MICROS },
        Command::Put { reg: REG_FIFO_EN, value: FIFO_EN_ALL_SENSORS },
        Command::Put { reg: REG_USER_CTRL, value: USER_CTRL_FIFO_EN },
    ];
    assert(commands@ =~= enable_commands(rate));
    commands
}

fn disable_sequence() -> (commands: Vec<Command>)
    ensures
        commands@ == disable_commands(),
{
    let commands: Vec<Command> = vec![
        Command::Put { reg: REG_USER_CTRL, value: 0 },
        Command::Put { reg: REG_FIFO_EN, value: 0 },
        Command::Put { reg: REG_SMPLRT_DIV, value: 0 },
        Command::Put { reg: REG_CONFIG, value: 0 },
    ];
    assert(commands@ =~= disable_commands());
    commands
}

fn reset_sequence(on: bool) -> (commands: Vec<Command>)
    ensures
        commands@ == reset_commands(on),
{
    let pulse: u8 = if on {
        USER_CTRL_FIFO_RESET_KEEP
    } else {
        USER_CTRL_FIFO_RESET
    };
    let rest: u8 = if on {
        USER_CTRL_FIFO_EN
    } else {
        0
    };
    let commands: Vec<Command> = vec![
        Command::Put { reg: REG_USER_CTRL, value: pulse },
        Command::Settle { micros: RESET_SETTLE_MICROS },
        Command::Put { reg: REG_USER_CTRL, value: rest },
    ];
    assert(commands@ =~= reset_commands(on));
    commands
}

proof fn lemma_steps_of_both(a: Seq<Command>, b: Seq<Command>)
    ensures
        steps(a + b) == steps(a) + steps(b),
{
    assert(steps(a + b) =~= steps(a) + steps(b));
}

impl<B: Bus> Mpu6050<B> {
    /// Turns buffering on at `sample_rate_hz`. A rate outside 4 to 1000 is
    /// refused before anything is sent.
    pub fn enable_fifo(&mut self, sample_rate_hz: u16) -> (res: Result<(), Mpu6050Error>)
        ensures
            !valid_fifo_rate(sample_rate_hz) ==> {
                &&& final(self).history() == old(self).history()
                &&& final(self).fifo_state() == old(self).fifo_state()
                &&& view_result(res) == Err::<(), ErrorView>(
                    ErrorView::InvalidParameter(rate_text(sample_rate_hz)),
                )
            },
            valid_fifo_rate(sample_rate_hz) ==> {
                let ops = since(old(self).history(), final(self).history());
                &&& extends(final(self).history(), old(self).history())
                &&& is_run(
                    ops,
                    steps(enable_script(old(self).fifo_on(), sample_rate_hz)),
                    MPU6050_ADDRESS,
                )
                &&& view_result(res) == run_outcome(ops)
                &&& final(self).fifo_state() == fifo_after_enable(
                    old(self).fifo_state(),
                    ops,
                    sample_rate_hz,
                )
            },
    {
        if sample_rate_hz < 4 || sample_rate_hz > 1000 {
            let mut reason = String::from_str("Sample rate must be 4-1000 Hz, got ");
            append_decimal(&mut reason, sample_rate_hz as u64);
            return Err(Mpu6050Error::InvalidParameter(reason));
        }
        let ghost h0 = self.history();
        let was_on = self.is_fifo_enabled();
        if was_on {
            let disabled = self.disable_fifo();
            proof {
                let a = since(h0, self.history());
                lemma_steps_of_both(disable_commands(), enable_commands(sample_rate_hz));
                let whole = steps(disable_commands()) + steps(enable_commands(sample_rate_hz));
                if run_failed(a) {
                    assert forall|i: int| 0 <= i < a.len() implies (#[trigger] whole[i]).done_by(
                        a[i],
                        MPU6050_ADDRESS,
                    ) by {
                        assert(steps(disable_commands())[i].done_by(a[i], MPU6050_ADDRESS));
                    }
                }
            }
            match disabled {
                Err(e) => {
                    return Err(e);
                },
                Ok(()) => {},
            }
        }
        let ghost h1 = self.history();
        let commands = enable_sequence(sample_rate_hz);
        let res = self.perform(&commands);
        proof {
            if !was_on {
                lemma_unchanged(h0);
            }
            lemma_extended_twice(h0, h1, self.history());
            let a = since(h0, h1);
            let b = since(h1, self.history());
            if was_on {
                lemma_steps_of_both(disable_commands(), enable_commands(sample_rate_hz));
                lemma_runs_in_a_row(
                    a,
                    b,
                    steps(disable_commands()),
                    steps(enable_commands(sample_rate_hz)),
                    MPU6050_ADDRESS,
                );
                assert(a.len() == 4);
                assert(b.len() > 0);
            } else {
                lemma_unchanged(h0);
                assert(a + b =~= b);
            }
        }
        if res.is_ok() {
            self.set_fifo(FifoState::Enabled { divider: divider(sample_rate_hz) as u8 });
        }
        res
    }

    /// Turns buffering off and puts divider and filter back. May be called
    /// whether or not buffering is on.
    pub fn disable_fifo(&mut self) -> (res: Result<(), Mpu6050Error>)
        ensures
            extends(final(self).history(), old(self).history()),
            is_run(
                since(old(self).history(), final(self).history()),
                steps(disable_commands()),
                MPU6050_ADDRESS,
            ),
            view_result(res) == run_outcome(since(old(self).history(), final(self).history())),
            final(self).fifo_state() == if res is Err {
                old(self).fifo_state()
            } else {
                FifoState::Disabled
            },
    {
        let commands = disable_sequence();
        let res = self.perform(&commands);
        if res.is_ok() {
            self.set_fifo(FifoState::Disabled);
        }
        res
    }

    /// Reads how many bytes the buffer holds.
    pub fn get_fifo_count(&mut self) -> (res: Result<u16, Mpu6050Error>)
        ensures
            final(self).fifo_state() == old(self).fifo_state(),
            extends(final(self).history(), old(self).history()),
            is_count_read(since(old(self).history(), final(self).history())),
            view_result(res) == count_value(since(old(self).history(), final(self).history())),
    {
        let ghost h0 = self.history();
        let high = self.read_register(REG_FIFO_COUNTH);
        let ghost h1 = self.history();
        let ghost a = since(h0, h1);
        proof {
            assert(window(a, 0, 2) =~= a);
        }
        let high = match high {
            Err(e) => {
                return Err(e);
            },
            Ok(v) => v,
        };
        let low = self.read_register(REG_FIFO_COUNTL);
        proof {
            let b = since(h1, self.history());
            lemma_extended_twice(h0, h1, self.history());
            assert(a.len() == 2);
            assert(window(a + b, 0, 2) =~= a);
            assert((a + b).skip(2) =~= b);
        }
        let low = match low {
            Err(e) => {
                return Err(e);
            },
            Ok(v) => v,
        };
        Ok(high as u16 * 256 + low as u16)
    }

    /// Clears the buffer. Buffering stays as it is: on where it was on, off
    /// where it was off.
    pub fn reset_fifo(&mut self) -> (res: Result<(), Mpu6050Error>)
        ensures
            final(self).fifo_state() == old(self).fifo_state(),
            extends(final(self).history(), old(self).history()),
            is_run(
                since(old(self).history(), final(self).history()),
                steps(reset_commands(old(self).fifo_on())),
                MPU6050_ADDRESS,
            ),
            view_result(res) == run_outcome(since(old(self).history(), final(self).history())),
    {
        let commands = reset_sequence(self.is_fifo_enabled());
        self.perform(&commands)
    }

    /// Drains the buffer: returns the whole samples that it holds. After an
    /// overflow the buffer is cleared and the error says how many samples
    /// were in it; buffering stays on. While buffering is off nothing is
    /// sent.
    pub fn read_fifo_batch(&mut self) -> (res: Result<Vec<SensorData>, Mpu6050Error>)
        ensures
            final(self).fifo_state() == old(self).fifo_state(),
            !old(self).fifo_on() ==> {
                &&& final(self).history() == old(self).history()
                &&& view_batch(res) == Err::<Seq<SensorData>, ErrorView>(
                    ErrorView::FifoNotEnabled,
                )
            },
            old(self).fifo_on() ==> {
                let ops = since(old(self).history(), final(self).history());
                &&& extends(final(self).history(), old(self).history())
                &&& is_batch_read(ops)
                &&& view_batch(res) == batch_value(ops)
                &&& res matches Ok(samples) ==> count_value(window(ops, 2, 4)) matches Ok(bytes)
                    && samples@.len() == bytes / 12
            },
    {
        if !self.is_fifo_enabled() {
            return Err(Mpu6050Error::FifoNotEnabled);
        }
        let ghost h0 = self.history();
        let flags = self.read_register(REG_INT_STATUS);
        let ghost h1 = self.history();
        let ghost a = since(h0, h1);
        proof {
            assert(window(a, 0, 2) =~= a);
        }
        let flags = match flags {
            Err(e) => {
                return Err(e);
            },
            Ok(v) => v,
        };
        let overflow: bool = flags & INT_STATUS_FIFO_OVERFLOW != 0;
        let count = self.get_fifo_count();
        let ghost h2 = self.history();
        let ghost b = since(h1, h2);
        proof {
            lemma_extended_twice(h0, h1, h2);
            assert(a.len() == 2);
            assert(window(a + b, 0, 2) =~= a);
            assert(window(a + b, 2, 4) =~= b);
        }
        let count = match count {
            Err(e) => {
                return Err(e);
            },
            Ok(v) => v,
        };
        assert(b.len() == 4);
        if overflow {
            let samples_lost: u16 = count / 12;
            let cleared = self.reset_fifo();
            proof {
                let c = since(h2, self.history());
                lemma_extended_twice(h0, h2, self.history());
                assert(window(a + b + c, 0, 2) =~= a);
                assert(window(a + b + c, 2, 4) =~= b);
                assert((a + b + c).skip(6) =~= c);
            }
            match cleared {
                Err(e) => {
                    return Err(e);
                },
                Ok(()) => {},
            }
            return Err(Mpu6050Error::FifoOverflow { samples_lost });
        }
        let samples: usize = (count / 12) as usize;
        let bytes: usize = samples * 12;
        if bytes == 0 {
            return Ok(Vec::new());
        }
        let data = self.read_registers(REG_FIFO_R_W, bytes);
        proof {
            let c = since(h2, self.history());
            lemma_extended_twice(h0, h2, self.history());
            assert(window(a + b + c, 0, 2) =~= a);
            assert(window(a + b + c, 2, 4) =~= b);
            assert((a + b + c).skip(6) =~= c);
        }
        match data {
            Err(e) => Err(e),
            Ok(data) => parse_fifo_data(data.as_slice()),
        }
    }
}

} // verus!
