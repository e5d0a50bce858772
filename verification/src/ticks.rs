//! What a stream leaves in the history: the ticks, one after the other.

use vstd::prelude::*;
use crate::bus::BusOp;
use crate::error::{ErrorView, Mpu6050Error};
use crate::fifo::{batch_value, is_batch_read};
use crate::mpu6050::{burst_script, sample_value};
use crate::pacing::{deadline_at, wait_until};
use crate::reading::SensorData;
use crate::registers::{MPU6050_ADDRESS, REG_ACCEL_XOUT_H};
use crate::sink::{Handing, Sink, StreamControl};
use crate::trace::is_run;

verus! {

/// Where the samples of a tick come from.
#[derive(Debug, Clone, Copy, PartialEq, Eq, Structural)]
pub enum Source {
    /// One sample, read from the data registers.
    Registers,
    /// Whatever the buffer of the device holds.
    Buffer,
}

/// What ends a stream, apart from an error.
#[derive(Debug, Clone, Copy, PartialEq, Eq, Structural)]
pub enum Stop {
    /// The callback says so.
    Callback,
    /// The clock has reached this time, in microseconds.
    Deadline(u64),
    /// This many samples have been collected.
    Count(usize),
}

/// How a stream runs.
#[derive(Debug, Clone, Copy, PartialEq, Eq, Structural)]
pub struct Plan {
    pub source: Source,
    pub stop: Stop,
    /// The time from one tick to the next, in microseconds.
    pub interval: u64,
}

/// A number of samples as the streams report it: it stops at the largest
/// value.
pub open spec fn capped(n: nat) -> u64 {
    if n > u64::MAX {
        u64::MAX
    } else {
        n as u64
    }
}

/// What one tick of a stream leaves in the history.
pub struct Tick {
    /// The samples are fetched.
    pub read: Seq<BusOp>,
    /// The clock is read, where the stream runs up to a deadline.
    pub check: Seq<BusOp>,
    /// The clock is read and the rest of the interval slept, where the
    /// stream goes on.
    pub pause: Seq<BusOp>,
}

impl Tick {
    pub open spec fn ops(self) -> Seq<BusOp> {
        self.read + self.check + self.pause
    }
}

/// What ticks leave in the history, one after the other.
pub open spec fn ops_of(ticks: Seq<Tick>) -> Seq<BusOp>
    decreases ticks.len(),
{
    if ticks.len() == 0 {
        Seq::empty()
    } else {
        ops_of(ticks.drop_last()) + ticks.last().ops()
    }
}

/// Whether `read` is what fetching the samples of one tick leaves in the
/// history.
pub open spec fn is_read(read: Seq<BusOp>, source: Source) -> bool {
    match source {
        Source::Registers => is_run(read, burst_script(REG_ACCEL_XOUT_H, 14), MPU6050_ADDRESS),
        Source::Buffer => is_batch_read(read),
    }
}

/// The samples that one tick fetched, or the error that ended it.
pub open spec fn read_value(read: Seq<BusOp>, source: Source) -> Result<
    Seq<SensorData>,
    ErrorView,
> {
    match source {
        Source::Registers => match sample_value(read) {
            Ok(sample) => Ok(seq![sample]),
            Err(e) => Err(e),
        },
        Source::Buffer => batch_value(read),
    }
}

/// The samples of one tick; none where fetching them failed.
pub open spec fn batch_of(tick: Tick, source: Source) -> Seq<SensorData> {
    match read_value(tick.read, source) {
        Ok(batch) => batch,
        Err(_) => Seq::empty(),
    }
}

/// The samples of all ticks, in order.
pub open spec fn samples_of(ticks: Seq<Tick>, source: Source) -> Seq<SensorData>
    decreases ticks.len(),
{
    if ticks.len() == 0 {
        Seq::empty()
    } else {
        samples_of(ticks.drop_last(), source) + batch_of(ticks.last(), source)
    }
}

/// The time that a reading of the clock gave.
pub open spec fn clock_of(op: BusOp) -> u64 {
    match op {
        BusOp::Now { micros } => micros,
        _ => 0,
    }
}

/// Whether `ops` is a pause before a tick that is due at `deadline`: the
/// clock is read, and the time left until the deadline is slept, if any.
pub open spec fn is_pause(ops: Seq<BusOp>, deadline: u64) -> bool {
    &&& ops.len() >= 1
    &&& ops[0] is Now
    &&& if deadline > clock_of(ops[0]) {
        ops == seq![ops[0], BusOp::Sleep { micros: wait_until(deadline, clock_of(ops[0])) }]
    } else {
        ops.len() == 1
    }
}

/// What the stream decides by itself after tick `i`: to stop, to go on, or
/// nothing, where it asks the callback.
pub open spec fn decided(ticks: Seq<Tick>, i: int, plan: Plan) -> Option<bool> {
    match plan.stop {
        Stop::Callback => None,
        Stop::Deadline(end) => Some(clock_of(ticks[i].check[0]) >= end),
        Stop::Count(n) => Some(samples_of(ticks.take(i + 1), plan.source).len() >= n),
    }
}

/// Whether a tick fetched its samples as the plan says and, where the plan
/// has a deadline and the samples came, read the clock after handing them
/// on.
pub open spec fn is_fetch(tick: Tick, plan: Plan) -> bool {
    &&& is_read(tick.read, plan.source)
    &&& if read_value(tick.read, plan.source) is Ok && plan.stop is Deadline {
        tick.check.len() == 1 && tick.check[0] is Now
    } else {
        tick.check.len() == 0
    }
}

/// Whether tick `i` is one after which the stream went on: its samples
/// came, nothing said stop, and it ends in the pause before tick `i + 1`.
pub open spec fn is_passing(ticks: Seq<Tick>, i: int, plan: Plan, start: u64) -> bool {
    &&& is_fetch(ticks[i], plan)
    &&& read_value(ticks[i].read, plan.source) is Ok
    &&& decided(ticks, i, plan) != Some(true)
    &&& i + 1 < u64::MAX
    &&& is_pause(ticks[i].pause, deadline_at(start, plan.interval, (i + 1) as nat))
}

/// Whether tick `i` is one that ended the stream: fetching its samples
/// failed, or the stream was not to go on after it. A stream ends by itself
/// after as many ticks as a `u64` can count.
pub open spec fn is_final(ticks: Seq<Tick>, i: int, plan: Plan) -> bool {
    &&& is_fetch(ticks[i], plan)
    &&& ticks[i].pause.len() == 0
    &&& read_value(ticks[i].read, plan.source) is Ok ==> decided(ticks, i, plan) != Some(false)
        || i + 1 == u64::MAX
}

/// Whether `ops` is what a stream of these `ticks` leaves in the history:
/// the clock is read for the start of the schedule, then come the ticks, of
/// which the last one ended the stream.
pub open spec fn is_stream(ops: Seq<BusOp>, plan: Plan, ticks: Seq<Tick>) -> bool {
    &&& ticks.len() >= 1
    &&& ops.len() >= 1
    &&& ops[0] is Now
    &&& ops.skip(1) == ops_of(ticks)
    &&& forall|i: int| 0 <= i < ticks.len() - 1 ==> is_passing(ticks, i, plan, clock_of(ops[0]))
    &&& is_final(ticks, ticks.len() - 1, plan)
}

/// The error that ended a stream, if one did.
pub open spec fn stream_error(ticks: Seq<Tick>, source: Source) -> Option<ErrorView> {
    match read_value(ticks.last().read, source) {
        Ok(_) => None,
        Err(e) => Some(e),
    }
}

/// What a stream of these `ticks` hands to its sink, in order: the samples
/// of every tick that brought some, once each, right after they were
/// fetched and before anything else is done on the bus. A stream that
/// collects hands nothing on. `at` is the number of operations in the
/// history when the first tick begins.
pub open spec fn handings(ticks: Seq<Tick>, plan: Plan, at: nat) -> Seq<Handing>
    decreases ticks.len(),
{
    if ticks.len() == 0 {
        Seq::empty()
    } else {
        let before = ticks.drop_last();
        let tick = ticks.last();
        if !(plan.stop is Count) && read_value(tick.read, plan.source) is Ok {
            handings(before, plan, at).push(
                Handing {
                    at: at + ops_of(before).len() + tick.read.len(),
                    batch: batch_of(tick, plan.source),
                },
            )
        } else {
            handings(before, plan, at)
        }
    }
}

/// Whether the sink took `batch` and answered, one way or the other.
pub open spec fn took<S: Sink>(sink: S, batch: Seq<SensorData>) -> bool {
    sink.may_answer(batch, StreamControl::Continue) || sink.may_answer(
        batch,
        StreamControl::Break,
    )
}

/// What the sink was handed and what it answered. A stream that does not
/// collect hands the samples of every tick that brought some to its sink. In
/// a stream that asks its callback the answers were to go on after every
/// tick but the last, and to stop after the last, unless an error or the
/// number of ticks ended the stream.
pub open spec fn answered<S: Sink>(sink: S, ticks: Seq<Tick>, plan: Plan) -> bool {
    &&& !(plan.stop is Count) ==> forall|i: int|
        0 <= i < ticks.len() && read_value(ticks[i].read, plan.source) is Ok ==> took(
            sink,
            #[trigger] batch_of(ticks[i], plan.source),
        )
    &&& plan.stop is Callback ==> {
        &&& forall|i: int|
            0 <= i < ticks.len() - 1 ==> sink.may_answer(
                #[trigger] batch_of(ticks[i], plan.source),
                StreamControl::Continue,
            )
        &&& stream_error(ticks, plan.source) is None && ticks.len() < u64::MAX
            ==> sink.may_answer(
            batch_of(ticks.last(), plan.source),
            StreamControl::Break,
        )
    }
}

/// What a stream returns, with its samples as a sequence and its error as
/// a view: the number of samples and, where it collects, the samples.
pub open spec fn view_run(res: Result<(u64, Vec<SensorData>), Mpu6050Error>) -> Result<
    (u64, Seq<SensorData>),
    ErrorView,
> {
    match res {
        Ok((total, collected)) => Ok((total, collected@)),
        Err(e) => Err(e@),
    }
}

/// Whether a stream of these `ticks` left `ops` in the history, got these
/// answers of its sink and returned `result`.
pub open spec fn stream_ends<S: Sink>(
    ops: Seq<BusOp>,
    plan: Plan,
    ticks: Seq<Tick>,
    sink: S,
    result: Result<(u64, Seq<SensorData>), ErrorView>,
) -> bool {
    &&& is_stream(ops, plan, ticks)
    &&& answered(sink, ticks, plan)
    &&& match result {
        Ok((total, collected)) => {
            &&& stream_error(ticks, plan.source) is None
            &&& total == capped(samples_of(ticks, plan.source).len())
            &&& collected == if plan.stop is Count {
                samples_of(ticks, plan.source)
            } else {
                Seq::empty()
            }
        },
        Err(e) => stream_error(ticks, plan.source) == Some(e),
    }
}

/// Where every tick brought its samples from the data registers, there is
/// one sample for each tick.
pub proof fn lemma_one_sample_each_tick(ticks: Seq<Tick>, k: int)
    requires
        0 <= k <= ticks.len(),
        forall|i: int|
            0 <= i < k ==> read_value((#[trigger] ticks[i]).read, Source::Registers) is Ok,
    ensures
        samples_of(ticks.take(k), Source::Registers).len() == k,
    decreases k,
{
    if k > 0 {
        lemma_one_sample_each_tick(ticks, k - 1);
        assert(ticks.take(k).drop_last() =~= ticks.take(k - 1));
        assert(ticks.take(k).last() == ticks[k - 1]);
    }
}

/// A stream that polls and ends without an error has as many samples as it
/// had ticks.
pub proof fn lemma_polling_counts_ticks(ops: Seq<BusOp>, plan: Plan, ticks: Seq<Tick>)
    requires
        is_stream(ops, plan, ticks),
        plan.source is Registers,
        stream_error(ticks, plan.source) is None,
    ensures
        samples_of(ticks, plan.source).len() == ticks.len(),
{
    assert forall|i: int| 0 <= i < ticks.len() implies read_value(
        (#[trigger] ticks[i]).read,
        Source::Registers,
    ) is Ok by {
        if i < ticks.len() - 1 {
            assert(is_passing(ticks, i, plan, clock_of(ops[0])));
        }
    }
    lemma_one_sample_each_tick(ticks, ticks.len() as int);
    assert(ticks.take(ticks.len() as int) =~= ticks);
}

/// A stream whose callback answers the first sample with stop has one tick:
/// the clock is read once, one sample is read, and the count is one.
pub proof fn lemma_stop_at_first_sample<S: Sink>(
    ops: Seq<BusOp>,
    plan: Plan,
    ticks: Seq<Tick>,
    sink: S,
    result: Result<(u64, Seq<SensorData>), ErrorView>,
)
    requires
        stream_ends(ops, plan, ticks, sink, result),
        plan.source is Registers,
        plan.stop is Callback,
        read_value(ticks[0].read, plan.source) is Ok ==> forall|c: StreamControl|
            sink.may_answer(batch_of(ticks[0], plan.source), c) ==> c == StreamControl::Break,
    ensures
        ticks.len() == 1,
        ops.len() <= 3,
        result is Ok ==> result->Ok_0.0 == 1 && ops.len() == 3,
{
    if ticks.len() > 1 {
        assert(is_passing(ticks, 0, plan, clock_of(ops[0])));
        assert(sink.may_answer(batch_of(ticks[0], plan.source), StreamControl::Continue));
    }
    let tick = ticks[0];
    reveal_with_fuel(ops_of, 2);
    reveal_with_fuel(samples_of, 2);
    assert(ticks.drop_last() =~= Seq::<Tick>::empty());
    assert(ticks.last() == tick);
    assert(is_final(ticks, 0, plan));
    assert(tick.ops() =~= tick.read);
    assert(ops_of(ticks) =~= tick.read);
    assert(ops.len() == 1 + ops.skip(1).len());
    assert(samples_of(ticks, plan.source) =~= batch_of(tick, plan.source));
}

/// A stream that collects from the data registers and ends without an error
/// returns as many samples as were asked for, and one where none was asked
/// for.
pub proof fn lemma_collects_what_was_asked(
    ops: Seq<BusOp>,
    plan: Plan,
    ticks: Seq<Tick>,
    n: usize,
)
    requires
        is_stream(ops, plan, ticks),
        plan.source is Registers,
        plan.stop == Stop::Count(n),
        stream_error(ticks, plan.source) is None,
    ensures
        samples_of(ticks, plan.source).len() == (if n == 0 {
            1
        } else {
            n as int
        }),
{
    lemma_polling_counts_ticks(ops, plan, ticks);
    let last = ticks.len() - 1;
    assert(ticks.take(last + 1) =~= ticks);
    if last > 0 {
        assert(is_passing(ticks, last - 1, plan, clock_of(ops[0])));
        assert forall|i: int| 0 <= i < last implies read_value(
            (#[trigger] ticks[i]).read,
            Source::Registers,
        ) is Ok by {
            assert(is_passing(ticks, i, plan, clock_of(ops[0])));
        }
        lemma_one_sample_each_tick(ticks, last);
    }
}

/// A stream that runs up to a time `end` keeps its rate: where every tick
/// hands its samples on no earlier than it is due and at most `slack`
/// microseconds later, the ticks but the last two fit into the time from the
/// start to `end`, and the ticks but the last fill it up to `slack`.
pub proof fn lemma_timed_stream_keeps_rate(
    ops: Seq<BusOp>,
    plan: Plan,
    ticks: Seq<Tick>,
    end: u64,
    slack: nat,
)
    requires
        is_stream(ops, plan, ticks),
        plan.stop == Stop::Deadline(end),
        stream_error(ticks, plan.source) is None,
        ticks.len() < u64::MAX,
        forall|i: int|
            0 <= i < ticks.len() ==> clock_of(ops[0]) + i * plan.interval <= clock_of(
                (#[trigger] ticks[i]).check[0],
            ) <= clock_of(ops[0]) + i * plan.interval + slack,
    ensures
        ticks.len() >= 2 ==> (ticks.len() - 2) * plan.interval < end - clock_of(ops[0]),
        end - clock_of(ops[0]) <= (ticks.len() - 1) * plan.interval + slack,
{
    let n = ticks.len() as int;
    let last = ticks[n - 1];
    assert(is_final(ticks, n - 1, plan));
    assert(clock_of(last.check[0]) >= end);
    if n >= 2 {
        assert(is_passing(ticks, n - 2, plan, clock_of(ops[0])));
        assert(clock_of(ticks[n - 2].check[0]) < end);
    }
}

} // verus!
