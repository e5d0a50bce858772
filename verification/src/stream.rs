//! Paced acquisition: streams of samples to a callback, and collections
//! of samples, from the data registers or through the buffer.

use vstd::prelude::*;
use vstd::string::*;
use crate::bus::{Bus, BusOp};
use crate::error::{bus_fault, ErrorView, Mpu6050Error};
use crate::fifo::{
    enable_commands, fifo_after_enable, rate_text, reset_commands, valid_fifo_rate, view_batch,
};
use crate::mpu6050::{run_outcome, steps, view_result, Mpu6050};
use crate::pacing::next_deadline;
use crate::reading::SensorData;
use crate::registers::MPU6050_ADDRESS;
use crate::sink::{EachBatch, EachSample, NoSink, StreamControl, Watch};
use crate::text::{append_decimal, decimal_text};
use crate::ticks::{
    capped, clock_of, is_passing, is_stream, lemma_collects_what_was_asked, lemma_stop_at_first_sample,
    samples_of, stream_ends, stream_error, view_run, Plan, Source, Stop, Tick,
};
use crate::trace::{
    extends, is_run, lemma_extended_twice, lemma_pushed, lemma_unchanged, run_failed,
    run_status, since, window,
};

verus! {

/// The sample rates at which the data registers can be polled.
pub open spec fn valid_poll_rate(rate: u32) -> bool {
    1 <= rate <= 1000
}

/// Why a polling rate is refused.
pub open spec fn poll_rate_text(rate: u32) -> Seq<char> {
    "Sample rate must be between 1-1000 Hz, got "@ + decimal_text(rate as nat)
}

/// The intervals, in milliseconds, at which the buffer can be drained.
pub open spec fn valid_batch_interval(interval_ms: u64) -> bool {
    10 <= interval_ms <= 1000
}

/// Why a batch interval is refused.
pub open spec fn batch_interval_text(interval_ms: u64) -> Seq<char> {
    "Batch interval must be 10-1000 ms, got "@ + decimal_text(interval_ms as nat)
}

/// How polling at `rate` samples per second runs: the interval is the whole
/// number of microseconds in the `rate`-th part of a second.
pub open spec fn poll_plan(rate: u32, stop: Stop) -> Plan {
    Plan { source: Source::Registers, stop, interval: (1_000_000int / (rate as int)) as u64 }
}

/// How draining the buffer every `interval_ms` milliseconds runs.
pub open spec fn drain_plan(interval_ms: u64, stop: Stop) -> Plan {
    Plan { source: Source::Buffer, stop, interval: (interval_ms * 1000) as u64 }
}

/// The interval, in milliseconds, at which the buffer is drained while
/// samples are collected from it.
pub const COLLECT_INTERVAL_MS: u64 = 50;

/// What a stream that counts returns, for the contract of the stream.
pub open spec fn counted(result: Result<u64, ErrorView>) -> Result<
    (u64, Seq<SensorData>),
    ErrorView,
> {
    match result {
        Ok(total) => Ok((total, Seq::empty())),
        Err(e) => Err(e),
    }
}

/// What a stream that collects returns, for the contract of the stream.
pub open spec fn gathered(result: Result<Seq<SensorData>, ErrorView>) -> Result<
    (u64, Seq<SensorData>),
    ErrorView,
> {
    match result {
        Ok(samples) => Ok((capped(samples.len()), samples)),
        Err(e) => Err(e),
    }
}

/// Why a collection through the buffer is given up: the stream ended by
/// itself, after as many ticks as a `u64` can count, with too few samples.
pub open spec fn starved_text(n: usize) -> Seq<char> {
    "FIFO stream ended with less than "@ + decimal_text(n as nat) + " samples"@
}

/// The operations that getting the buffer ready for collecting takes where
/// nothing fails: six to turn buffering on, where it was off, and three to
/// clear the buffer.
pub open spec fn collect_setup_len(was_on: bool) -> int {
    if was_on {
        3
    } else {
        9
    }
}

/// Whether `ops` is what getting the buffer ready for collecting leaves in
/// the history: buffering is turned on at `rate` where it was off, then the
/// buffer is cleared. A rate out of range is refused before anything is
/// sent, and the first step that fails is the last.
pub open spec fn is_collect_setup(ops: Seq<BusOp>, was_on: bool, rate: u16) -> bool {
    if !was_on && !valid_fifo_rate(rate) {
        ops.len() == 0
    } else {
        let e = collect_setup_len(was_on) - 3;
        let enabling = window(ops, 0, e);
        &&& ops.len() <= e + 3
        &&& was_on ==> enabling.len() == 0
        &&& !was_on ==> is_run(enabling, steps(enable_commands(rate)), MPU6050_ADDRESS)
        &&& if run_failed(enabling) {
            ops.len() == enabling.len()
        } else {
            is_run(ops.skip(e), steps(reset_commands(true)), MPU6050_ADDRESS)
        }
    }
}

/// What getting the buffer ready for collecting returns.
pub open spec fn collect_setup_result(ops: Seq<BusOp>, was_on: bool, rate: u16) -> Result<
    (),
    ErrorView,
> {
    let e = collect_setup_len(was_on) - 3;
    let enabling = window(ops, 0, e);
    if !was_on && !valid_fifo_rate(rate) {
        Err(ErrorView::InvalidParameter(rate_text(rate)))
    } else if run_failed(enabling) {
        Err(bus_fault(run_status(enabling)))
    } else {
        run_outcome(ops.skip(e))
    }
}

/// Whether collecting `n` samples from the buffer left `ops` in the history
/// and returned `result`: the buffer is got ready, and a stream of these
/// `ticks` drains it until it has `n` samples, of which the first `n` are
/// returned. A stream that ended by itself with less is an error.
pub open spec fn fifo_collect_ends(
    ops: Seq<BusOp>,
    was_on: bool,
    rate: u16,
    n: usize,
    ticks: Seq<Tick>,
    result: Result<Seq<SensorData>, ErrorView>,
) -> bool {
    let setup = window(ops, 0, collect_setup_len(was_on));
    let plan = drain_plan(COLLECT_INTERVAL_MS, Stop::Count(n));
    &&& is_collect_setup(setup, was_on, rate)
    &&& match collect_setup_result(setup, was_on, rate) {
        Err(e) => ops.len() == setup.len() && result == Err::<Seq<SensorData>, ErrorView>(e),
        Ok(_) => {
            &&& is_stream(ops.skip(collect_setup_len(was_on)), plan, ticks)
            &&& match result {
                Ok(samples) => {
                    &&& stream_error(ticks, Source::Buffer) is None
                    &&& samples_of(ticks, Source::Buffer).len() >= n
                    &&& samples == samples_of(ticks, Source::Buffer).take(n as int)
                },
                Err(e) => {
                    ||| stream_error(ticks, Source::Buffer) == Some(e)
                    ||| {
                        &&& stream_error(ticks, Source::Buffer) is None
                        &&& samples_of(ticks, Source::Buffer).len() < n
                        &&& e == ErrorView::InvalidFifoConfig(starved_text(n))
                    }
                },
            }
        },
    }
}

/// Collecting through the buffer returns exactly as many samples as were
/// asked for, even where the last batch brought more: the first of all that
/// were read, in order. The stream stops at the first batch with which
/// there are enough.
pub proof fn lemma_fifo_collects_what_was_asked(
    ops: Seq<BusOp>,
    was_on: bool,
    rate: u16,
    n: usize,
    ticks: Seq<Tick>,
    samples: Seq<SensorData>,
)
    requires
        fifo_collect_ends(ops, was_on, rate, n, ticks, Ok(samples)),
    ensures
        samples.len() == n,
        samples == samples_of(ticks, Source::Buffer).take(n as int),
        forall|i: int|
            0 <= i < ticks.len() - 1 ==> samples_of(
                #[trigger] ticks.take(i + 1),
                Source::Buffer,
            ).len() < n,
{
    let setup = collect_setup_len(was_on);
    let plan = drain_plan(COLLECT_INTERVAL_MS, Stop::Count(n));
    let stream = ops.skip(setup);
    assert forall|i: int| 0 <= i < ticks.len() - 1 implies samples_of(
        #[trigger] ticks.take(i + 1),
        Source::Buffer,
    ).len() < n by {
        assert(is_passing(ticks, i, plan, clock_of(stream[0])));
    }
}

fn poll_rate_reason(rate_hz: u32) -> (reason: String)
    ensures
        reason@ == poll_rate_text(rate_hz),
{
    let mut reason = String::from_str("Sample rate must be between 1-1000 Hz, got ");
    append_decimal(&mut reason, rate_hz as u64);
    reason
}

impl<B: Bus> Mpu6050<B> {
    /// Polls the sensor `rate_hz` times a second and hands each sample to
    /// `callback`, until that says stop or a read fails. Returns the number
    /// of samples. A rate outside 1 to 1000 is refused before anything is
    /// done.
    pub fn stream<F: FnMut(SensorData) -> StreamControl>(&mut self, rate_hz: u32, callback: F) -> (res:
        Result<u64, Mpu6050Error>)
        requires
            forall|sample: SensorData| call_requires(callback, (sample,)),
        ensures
            final(self).fifo_state() == old(self).fifo_state(),
            !valid_poll_rate(rate_hz) ==> {
                &&& final(self).history() == old(self).history()
                &&& view_result(res) == Err::<u64, ErrorView>(
                    ErrorView::InvalidParameter(poll_rate_text(rate_hz)),
                )
            },
            valid_poll_rate(rate_hz) ==> {
                &&& extends(final(self).history(), old(self).history())
                &&& exists|ticks: Seq<Tick>|
                    stream_ends(
                        since(old(self).history(), final(self).history()),
                        poll_plan(rate_hz, Stop::Callback),
                        ticks,
                        EachSample::fresh(callback),
                        counted(view_result(res)),
                    )
            },
            valid_poll_rate(rate_hz) && (forall|sample: SensorData, c: StreamControl|
                call_ensures(callback, (sample,), c) ==> c == StreamControl::Break) ==> {
                &&& since(old(self).history(), final(self).history()).len() <= 3
                &&& res is Ok ==> res->Ok_0 == 1
            },
    {
        if rate_hz == 0 || rate_hz > 1000 {
            return Err(Mpu6050Error::InvalidParameter(poll_rate_reason(rate_hz)));
        }
        let ghost h0 = self.history();
        let plan = Plan {
            source: Source::Registers,
            stop: Stop::Callback,
            interval: (1_000_000 / rate_hz) as u64,
        };
        let mut sink = EachSample::new(callback);
        let ghost sink0 = sink;
        let ran = self.run(plan, &mut sink);
        let ghost ticks = choose|ticks: Seq<Tick>|
            stream_ends(since(h0, self.history()), plan, ticks, sink0, view_run(ran));
        let res = match ran {
            Ok((total, _)) => Ok(total),
            Err(e) => Err(e),
        };
        proof {
            assert(stream_ends(
                since(h0, self.history()),
                plan,
                ticks,
                sink0,
                counted(view_result(res)),
            ));
            if forall|sample: SensorData, c: StreamControl|
                call_ensures(callback, (sample,), c) ==> c == StreamControl::Break {
                lemma_stop_at_first_sample(
                    since(h0, self.history()),
                    plan,
                    ticks,
                    sink0,
                    counted(view_result(res)),
                );
            }
        }
        res
    }

    /// Polls the sensor `rate_hz` times a second and hands each sample to
    /// `callback`, until the clock shows that `duration_micros` microseconds
    /// have passed since the call, or a read fails. Returns the number of
    /// samples.
    pub fn stream_for<F: FnMut(SensorData)>(
        &mut self,
        rate_hz: u32,
        duration_micros: u64,
        callback: F,
    ) -> (res: Result<u64, Mpu6050Error>)
        requires
            forall|sample: SensorData| call_requires(callback, (sample,)),
        ensures
            final(self).fifo_state() == old(self).fifo_state(),
            !valid_poll_rate(rate_hz) ==> {
                &&& final(self).history() == old(self).history()
                &&& view_result(res) == Err::<u64, ErrorView>(
                    ErrorView::InvalidParameter(poll_rate_text(rate_hz)),
                )
            },
            valid_poll_rate(rate_hz) ==> {
                let ops = since(old(self).history(), final(self).history());
                &&& extends(final(self).history(), old(self).history())
                &&& ops.len() >= 1
                &&& ops[0] is Now
                &&& exists|ticks: Seq<Tick>|
                    stream_ends(
                        ops.skip(1),
                        poll_plan(
                            rate_hz,
                            Stop::Deadline(next_deadline(clock_of(ops[0]), duration_micros)),
                        ),
                        ticks,
                        Watch::fresh(callback),
                        counted(view_result(res)),
                    )
            },
    {
        if rate_hz == 0 || rate_hz > 1000 {
            return Err(Mpu6050Error::InvalidParameter(poll_rate_reason(rate_hz)));
        }
        let ghost h0 = self.history();
        let begun = self.now_micros();
        let ghost h1 = self.history();
        let end = begun.saturating_add(duration_micros);
        let plan = Plan {
            source: Source::Registers,
            stop: Stop::Deadline(end),
            interval: (1_000_000 / rate_hz) as u64,
        };
        let mut sink = Watch::new(callback);
        let ghost sink0 = sink;
        let ran = self.run(plan, &mut sink);
        let ghost ticks = choose|ticks: Seq<Tick>|
            stream_ends(since(h1, self.history()), plan, ticks, sink0, view_run(ran));
        let res = match ran {
            Ok((total, _)) => Ok(total),
            Err(e) => Err(e),
        };
        proof {
            lemma_pushed(h0, BusOp::Now { micros: begun });
            lemma_extended_twice(h0, h1, self.history());
            let ops = since(h0, self.history());
            assert(ops.skip(1) =~= since(h1, self.history()));
            assert(stream_ends(ops.skip(1), plan, ticks, sink0, counted(view_result(res))));
        }
        res
    }

    /// Polls the sensor `rate_hz` times a second until `num_samples` samples
    /// are there, and returns them: exactly that many, and one where none
    /// was asked for.
    pub fn collect_samples(&mut self, rate_hz: u32, num_samples: usize) -> (res: Result<
        Vec<SensorData>,
        Mpu6050Error,
    >)
        ensures
            final(self).fifo_state() == old(self).fifo_state(),
            !valid_poll_rate(rate_hz) ==> {
                &&& final(self).history() == old(self).history()
                &&& view_batch(res) == Err::<Seq<SensorData>, ErrorView>(
                    ErrorView::InvalidParameter(poll_rate_text(rate_hz)),
                )
            },
            valid_poll_rate(rate_hz) ==> {
                &&& extends(final(self).history(), old(self).history())
                &&& exists|ticks: Seq<Tick>|
                    stream_ends(
                        since(old(self).history(), final(self).history()),
                        poll_plan(rate_hz, Stop::Count(num_samples)),
                        ticks,
                        NoSink::fresh(),
                        gathered(view_batch(res)),
                    )
            },
            res matches Ok(samples) ==> samples@.len() == (if num_samples == 0 {
                1
            } else {
                num_samples as int
            }),
    {
        if rate_hz == 0 || rate_hz > 1000 {
            return Err(Mpu6050Error::InvalidParameter(poll_rate_reason(rate_hz)));
        }
        let ghost h0 = self.history();
        let plan = Plan {
            source: Source::Registers,
            stop: Stop::Count(num_samples),
            interval: (1_000_000 / rate_hz) as u64,
        };
        let mut sink = NoSink::new();
        let ran = self.run(plan, &mut sink);
        let ghost ticks = choose|ticks: Seq<Tick>|
            stream_ends(since(h0, self.history()), plan, ticks, NoSink::fresh(), view_run(ran));
        let res = match ran {
            Ok((_, samples)) => Ok(samples),
            Err(e) => Err(e),
        };
        proof {
            assert(stream_ends(
                since(h0, self.history()),
                plan,
                ticks,
                NoSink::fresh(),
                gathered(view_batch(res)),
            ));
            if res is Ok {
                lemma_collects_what_was_asked(since(h0, self.history()), plan, ticks, num_samples);
            }
        }
        res
    }

    /// Drains the buffer every `batch_interval_ms` milliseconds and hands
    /// each batch to `callback`, also an empty one, until that says stop or
    /// a read fails. Returns the number of samples. An interval outside 10
    /// to 1000 is refused, and so is a stream while buffering is off, before
    /// anything is done.
    pub fn stream_fifo<F: FnMut(&[SensorData]) -> StreamControl>(
        &mut self,
        batch_interval_ms: u64,
        callback: F,
    ) -> (res: Result<u64, Mpu6050Error>)
        requires
            forall|batch: &[SensorData]| call_requires(callback, (batch,)),
        ensures
            final(self).fifo_state() == old(self).fifo_state(),
            !valid_batch_interval(batch_interval_ms) ==> {
                &&& final(self).history() == old(self).history()
                &&& view_result(res) == Err::<u64, ErrorView>(
                    ErrorView::InvalidParameter(batch_interval_text(batch_interval_ms)),
                )
            },
            valid_batch_interval(batch_interval_ms) && !old(self).fifo_on() ==> {
                &&& final(self).history() == old(self).history()
                &&& view_result(res) == Err::<u64, ErrorView>(ErrorView::FifoNotEnabled)
            },
            valid_batch_interval(batch_interval_ms) && old(self).fifo_on() ==> {
                &&& extends(final(self).history(), old(self).history())
                &&& exists|ticks: Seq<Tick>|
                    stream_ends(
                        since(old(self).history(), final(self).history()),
                        drain_plan(batch_interval_ms, Stop::Callback),
                        ticks,
                        EachBatch::fresh(callback),
                        counted(view_result(res)),
                    )
            },
    {
        if batch_interval_ms < 10 || batch_interval_ms > 1000 {
            let mut reason = String::from_str("Batch interval must be 10-1000 ms, got ");
            append_decimal(&mut reason, batch_interval_ms);
            return Err(Mpu6050Error::InvalidParameter(reason));
        }
        let ghost h0 = self.history();
        let ghost on = self.fifo_on();
        let plan = Plan {
            source: Source::Buffer,
            stop: Stop::Callback,
            interval: batch_interval_ms * 1000,
        };
        let mut sink = EachBatch::new(callback);
        let ghost sink0 = sink;
        let ran = self.run(plan, &mut sink);
        let res = match ran {
            Ok((total, _)) => Ok(total),
            Err(e) => Err(e),
        };
        proof {
            if on {
                let ticks = choose|ticks: Seq<Tick>|
                    stream_ends(since(h0, self.history()), plan, ticks, sink0, view_run(ran));
                assert(stream_ends(
                    since(h0, self.history()),
                    plan,
                    ticks,
                    sink0,
                    counted(view_result(res)),
                ));
            }
        }
        res
    }

    /// Gets the buffer ready for collecting: turns buffering on at
    /// `sample_rate_hz` where it is off, and clears the buffer.
    #[verifier::rlimit(60)]
    fn prepare_collect(&mut self, sample_rate_hz: u16) -> (res: Result<(), Mpu6050Error>)
        ensures
            extends(final(self).history(), old(self).history()),
            is_collect_setup(
                since(old(self).history(), final(self).history()),
                old(self).fifo_on(),
                sample_rate_hz,
            ),
            view_result(res) == collect_setup_result(
                since(old(self).history(), final(self).history()),
                old(self).fifo_on(),
                sample_rate_hz,
            ),
            res is Ok ==> final(self).fifo_on() && since(
                old(self).history(),
                final(self).history(),
            ).len() == collect_setup_len(old(self).fifo_on()),
            final(self).fifo_state() == if old(self).fifo_on() || !valid_fifo_rate(
                sample_rate_hz,
            ) {
                old(self).fifo_state()
            } else {
                fifo_after_enable(
                    old(self).fifo_state(),
                    window(since(old(self).history(), final(self).history()), 0, 6),
                    sample_rate_hz,
                )
            },
    {
        let ghost h0 = self.history();
        let was_on = self.is_fifo_enabled();
        proof {
            lemma_unchanged(h0);
        }
        if !was_on {
            let enabled = self.enable_fifo(sample_rate_hz);
            proof {
                let a = since(h0, self.history());
                if valid_fifo_rate(sample_rate_hz) {
                    assert(window(a, 0, 6) =~= a);
                }
            }
            match enabled {
                Err(e) => {
                    return Err(e);
                },
                Ok(()) => {},
            }
        }
        let ghost h1 = self.history();
        let ghost a = since(h0, h1);
        let ghost e: int = if was_on {
            0
        } else {
            6
        };
        assert(a.len() == e);
        let cleared = self.reset_fifo();
        proof {
            let b = since(h1, self.history());
            lemma_extended_twice(h0, h1, self.history());
            assert(window(a + b, 0, e) =~= a);
            assert((a + b).skip(e) =~= b);
            if !was_on {
                assert(window(a + b, 0, 6) =~= a);
            }
        }
        cleared
    }

    /// Collects `num_samples` samples through the buffer of the device:
    /// turns buffering on at `sample_rate_hz` where it is off, clears the
    /// buffer, and drains it every 50 milliseconds until enough samples are
    /// there. What the last batch brought beyond `num_samples` is dropped,
    /// so that exactly `num_samples` samples are returned. Buffering stays
    /// on. A stream that ended by itself before enough samples were there
    /// is an error.
    pub fn collect_samples_fifo(&mut self, sample_rate_hz: u16, num_samples: usize) -> (res:
        Result<Vec<SensorData>, Mpu6050Error>)
        ensures
            extends(final(self).history(), old(self).history()),
            exists|ticks: Seq<Tick>|
                fifo_collect_ends(
                    since(old(self).history(), final(self).history()),
                    old(self).fifo_on(),
                    sample_rate_hz,
                    num_samples,
                    ticks,
                    view_batch(res),
                ),
            res matches Ok(samples) ==> samples@.len() == num_samples,
            final(self).fifo_state() == if old(self).fifo_on() || !valid_fifo_rate(
                sample_rate_hz,
            ) {
                old(self).fifo_state()
            } else {
                fifo_after_enable(
                    old(self).fifo_state(),
                    window(since(old(self).history(), final(self).history()), 0, 6),
                    sample_rate_hz,
                )
            },
    {
        let ghost h0 = self.history();
        let ghost was_on = self.fifo_on();
        let ghost none: Seq<Tick> = Seq::empty();
        let ghost len = collect_setup_len(was_on);
        let prepared = self.prepare_collect(sample_rate_hz);
        let ghost h1 = self.history();
        let ghost a = since(h0, h1);
        proof {
            assert(window(a, 0, len) =~= a);
        }
        match prepared {
            Err(e) => {
                assert(fifo_collect_ends(a, was_on, sample_rate_hz, num_samples, none, Err(e@)));
                return Err(e);
            },
            Ok(()) => {},
        }
        let plan = Plan {
            source: Source::Buffer,
            stop: Stop::Count(num_samples),
            interval: COLLECT_INTERVAL_MS * 1000,
        };
        let mut sink = NoSink::new();
        let ran = self.run(plan, &mut sink);
        let ghost ticks = choose|ticks: Seq<Tick>|
            stream_ends(since(h1, self.history()), plan, ticks, NoSink::fresh(), view_run(ran));
        let ghost ops = since(h0, self.history());
        proof {
            let c = since(h1, self.history());
            lemma_extended_twice(h0, h1, self.history());
            assert(window(ops, 0, len) =~= a);
            assert(ops.skip(len) =~= c);
            if !was_on {
                assert(window(ops, 0, 6) =~= window(a, 0, 6));
            }
        }
        let res = match ran {
            Ok((_, samples)) => {
                let mut samples = samples;
                if samples.len() < num_samples {
                    let mut reason = String::from_str("FIFO stream ended with less than ");
                    append_decimal(&mut reason, num_samples as u64);
                    reason.append(" samples");
                    Err(Mpu6050Error::InvalidFifoConfig(reason))
                } else {
                    samples.truncate(num_samples);
                    Ok(samples)
                }
            },
            Err(e) => Err(e),
        };
        proof {
            assert(fifo_collect_ends(
                ops,
                was_on,
                sample_rate_hz,
                num_samples,
                ticks,
                view_batch(res),
            ));
            if res is Ok {
                lemma_fifo_collects_what_was_asked(
                    ops,
                    was_on,
                    sample_rate_hz,
                    num_samples,
                    ticks,
                    res->Ok_0@,
                );
            }
        }
        res
    }
}

} // verus!
