//! The loop that runs a stream.

use vstd::prelude::*;
use crate::bus::{Bus, BusOp};
use crate::error::{ErrorView, Mpu6050Error};
use crate::fifo::view_batch;
use crate::mpu6050::Mpu6050;
use crate::pacing::{deadline_at, lemma_deadline_step, next_deadline, Pacer};
use crate::reading::SensorData;
use crate::sink::{Handing, Sink, StreamControl};
use crate::ticks::{
    answered, batch_of, capped, clock_of, decided, handings, is_fetch, is_final, is_passing,
    is_pause,
    is_read, is_stream, ops_of, read_value, samples_of, stream_ends, stream_error, took,
    view_run,
    Plan, Source, Stop, Tick,
};
use crate::trace::{extends, lemma_added, lemma_extended, since};

verus! {

spec fn failure_view(failure: Option<Mpu6050Error>) -> Option<ErrorView> {
    match failure {
        Some(e) => Some(e@),
        None => None,
    }
}

proof fn lemma_tick_added(ticks: Seq<Tick>, tick: Tick, source: Source)
    ensures
        ops_of(ticks.push(tick)) == ops_of(ticks) + tick.ops(),
        samples_of(ticks.push(tick), source) == samples_of(ticks, source) + batch_of(
            tick,
            source,
        ),
        ticks.push(tick).take(ticks.len() as int + 1) == ticks.push(tick),
{
    assert(ticks.push(tick).drop_last() =~= ticks);
    assert(ticks.push(tick).take(ticks.len() as int + 1) =~= ticks.push(tick));
}

proof fn lemma_handing_added(ticks: Seq<Tick>, tick: Tick, plan: Plan, at: nat)
    ensures
        handings(ticks.push(tick), plan, at) == if !(plan.stop is Count) && read_value(
            tick.read,
            plan.source,
        ) is Ok {
            handings(ticks, plan, at).push(
                Handing {
                    at: at + ops_of(ticks).len() + tick.read.len(),
                    batch: batch_of(tick, plan.source),
                },
            )
        } else {
            handings(ticks, plan, at)
        },
{
    assert(ticks.push(tick).drop_last() =~= ticks);
}

proof fn lemma_passing_kept(ticks: Seq<Tick>, tick: Tick, i: int, plan: Plan, start: u64)
    requires
        0 <= i < ticks.len(),
        is_passing(ticks, i, plan, start),
    ensures
        is_passing(ticks.push(tick), i, plan, start),
{
    assert(ticks.push(tick).take(i + 1) =~= ticks.take(i + 1));
}

/// What holds of the ticks of a stream while it runs: all of them were
/// passed, but for the last once the stream is finished.
#[verifier::opaque]
spec fn so_far<S: Sink>(
    done: Seq<Tick>,
    finished: bool,
    failure: Option<ErrorView>,
    plan: Plan,
    start: u64,
    sink: S,
) -> bool {
    let passed = if finished {
        done.len() - 1
    } else {
        done.len() as int
    };
    &&& forall|i: int| 0 <= i < passed ==> is_passing(done, i, plan, start)
    &&& !(plan.stop is Count) ==> forall|i: int|
        0 <= i < done.len() && read_value(done[i].read, plan.source) is Ok ==> took(
            sink,
            #[trigger] batch_of(done[i], plan.source),
        )
    &&& plan.stop is Callback ==> forall|i: int|
        0 <= i < passed ==> sink.may_answer(
            #[trigger] batch_of(done[i], plan.source),
            StreamControl::Continue,
        )
    &&& finished ==> {
        &&& done.len() >= 1
        &&& is_final(done, done.len() - 1, plan)
        &&& failure == stream_error(done, plan.source)
        &&& plan.stop is Callback && failure is None && done.len() < u64::MAX ==> sink.may_answer(
            batch_of(done.last(), plan.source),
            StreamControl::Break,
        )
    }
}

proof fn lemma_nothing_so_far<S: Sink>(plan: Plan, start: u64, sink: S)
    ensures
        so_far(Seq::<Tick>::empty(), false, None, plan, start, sink),
{
    reveal(so_far);
}

proof fn lemma_tick_failed<S: Sink>(
    done: Seq<Tick>,
    tick: Tick,
    e: ErrorView,
    plan: Plan,
    start: u64,
    sink: S,
)
    requires
        so_far(done, false, None, plan, start, sink),
        is_read(tick.read, plan.source),
        read_value(tick.read, plan.source) == Err::<Seq<SensorData>, ErrorView>(e),
        tick.check.len() == 0,
        tick.pause.len() == 0,
    ensures
        so_far(done.push(tick), true, Some(e), plan, start, sink),
{
    reveal(so_far);
    let next = done.push(tick);
    assert forall|i: int| 0 <= i < next.len() - 1 implies is_passing(next, i, plan, start) by {
        lemma_passing_kept(done, tick, i, plan, start);
    }
    assert forall|i: int| 0 <= i < next.len() - 1 implies next[i] == done[i] by {}
}

proof fn lemma_tick_ended<S: Sink>(
    done: Seq<Tick>,
    tick: Tick,
    plan: Plan,
    start: u64,
    sink: S,
)
    requires
        so_far(done, false, None, plan, start, sink),
        is_fetch(tick, plan),
        read_value(tick.read, plan.source) is Ok,
        tick.pause.len() == 0,
        !(plan.stop is Count) ==> took(sink, batch_of(tick, plan.source)),
        decided(done.push(tick), done.len() as int, plan) != Some(false) || done.len() + 1
            == u64::MAX,
        plan.stop is Callback && done.len() + 1 < u64::MAX ==> sink.may_answer(
            batch_of(tick, plan.source),
            StreamControl::Break,
        ),
    ensures
        so_far(done.push(tick), true, None, plan, start, sink),
{
    reveal(so_far);
    let next = done.push(tick);
    assert forall|i: int| 0 <= i < next.len() - 1 implies is_passing(next, i, plan, start) by {
        lemma_passing_kept(done, tick, i, plan, start);
    }
    assert forall|i: int| 0 <= i < next.len() - 1 implies next[i] == done[i] by {}
}

proof fn lemma_tick_passed<S: Sink>(
    done: Seq<Tick>,
    tick: Tick,
    plan: Plan,
    start: u64,
    sink: S,
)
    requires
        so_far(done, false, None, plan, start, sink),
        is_fetch(tick, plan),
        read_value(tick.read, plan.source) is Ok,
        decided(done.push(tick), done.len() as int, plan) != Some(true),
        done.len() + 1 < u64::MAX,
        is_pause(tick.pause, deadline_at(start, plan.interval, done.len() + 1)),
        !(plan.stop is Count) ==> took(sink, batch_of(tick, plan.source)),
        plan.stop is Callback ==> sink.may_answer(
            batch_of(tick, plan.source),
            StreamControl::Continue,
        ),
    ensures
        so_far(done.push(tick), false, None, plan, start, sink),
{
    reveal(so_far);
    let next = done.push(tick);
    assert forall|i: int| 0 <= i < next.len() implies is_passing(next, i, plan, start) by {
        if i < done.len() {
            lemma_passing_kept(done, tick, i, plan, start);
        }
    }
    assert forall|i: int| 0 <= i < next.len() - 1 implies next[i] == done[i] by {}
}

proof fn lemma_stream_done<S: Sink>(
    ops: Seq<BusOp>,
    done: Seq<Tick>,
    failure: Option<ErrorView>,
    plan: Plan,
    start: u64,
    sink: S,
)
    requires
        so_far(done, true, failure, plan, start, sink),
        ops == seq![BusOp::Now { micros: start }] + ops_of(done),
    ensures
        is_stream(ops, plan, done),
        answered(sink, done, plan),
        failure == stream_error(done, plan.source),
{
    reveal(so_far);
    assert(ops.skip(1) =~= ops_of(done));
    assert(clock_of(ops[0]) == start);
}

impl<B: Bus> Mpu6050<B> {
    /// Fetches the samples of one tick.
    fn fetch(&mut self, source: Source) -> (r: (
        Result<Vec<SensorData>, Mpu6050Error>,
        Ghost<Seq<BusOp>>,
    ))
        requires
            source is Buffer ==> old(self).fifo_on(),
        ensures
            final(self).fifo_state() == old(self).fifo_state(),
            final(self).history() == old(self).history() + r.1@,
            is_read(r.1@, source),
            view_batch(r.0) == read_value(r.1@, source),
    {
        let ghost before = self.history();
        let fetched: Result<Vec<SensorData>, Mpu6050Error> = match source {
            Source::Registers => match self.read_all() {
                Ok(sample) => {
                    let mut batch: Vec<SensorData> = Vec::new();
                    batch.push(sample);
                    assert(batch@ =~= seq![sample]);
                    Ok(batch)
                },
                Err(e) => Err(e),
            },
            Source::Buffer => self.read_fifo_batch(),
        };
        let ghost read = since(before, self.history());
        proof {
            lemma_extended(before, self.history());
        }
        (fetched, Ghost(read))
    }

    /// Hands the samples of one tick on, or collects them, and finds out
    /// whether the stream is to stop.
    fn consult<S: Sink>(
        &mut self,
        stop: Stop,
        sink: &mut S,
        batch: Vec<SensorData>,
        collected: &mut Vec<SensorData>,
    ) -> (r: (bool, Ghost<Seq<BusOp>>))
        requires
            old(sink).ready(),
        ensures
            final(self).fifo_state() == old(self).fifo_state(),
            final(self).history() == old(self).history() + r.1@,
            final(sink).ready(),
            forall|b: Seq<SensorData>, c: StreamControl|
                final(sink).may_answer(b, c) == old(sink).may_answer(b, c),
            match stop {
                Stop::Callback => {
                    &&& r.1@.len() == 0
                    &&& final(collected)@ == old(collected)@
                    &&& final(sink).handed() == old(sink).handed().push(
                        Handing { at: old(self).history().len(), batch: batch@ },
                    )
                    &&& old(sink).may_answer(
                        batch@,
                        if r.0 {
                            StreamControl::Break
                        } else {
                            StreamControl::Continue
                        },
                    )
                },
                Stop::Deadline(end) => {
                    &&& r.1@.len() == 1
                    &&& r.1@[0] is Now
                    &&& r.0 == (clock_of(r.1@[0]) >= end)
                    &&& final(collected)@ == old(collected)@
                    &&& final(sink).handed() == old(sink).handed().push(
                        Handing { at: old(self).history().len(), batch: batch@ },
                    )
                    &&& took(*old(sink), batch@)
                },
                Stop::Count(n) => {
                    &&& r.1@.len() == 0
                    &&& final(sink).handed() == old(sink).handed()
                    &&& final(collected)@ == old(collected)@ + batch@
                    &&& r.0 == (final(collected)@.len() >= n)
                },
            },
    {
        let ghost before = self.history();
        let mut batch = batch;
        let ghost mut check: Seq<BusOp> = Seq::empty();
        assert(before + check =~= before);
        let stop_now: bool = match stop {
            Stop::Callback => {
                let control = sink.deliver(&batch, Ghost(before.len()));
                match control {
                    StreamControl::Break => true,
                    StreamControl::Continue => false,
                }
            },
            Stop::Deadline(end) => {
                let _ = sink.deliver(&batch, Ghost(before.len()));
                let now = self.now_micros();
                proof {
                    check = seq![BusOp::Now { micros: now }];
                    assert(before.push(BusOp::Now { micros: now }) =~= before + check);
                }
                now >= end
            },
            Stop::Count(n) => {
                collected.append(&mut batch);
                collected.len() >= n
            },
        };
        (stop_now, Ghost(check))
    }

    /// Reads the clock and sleeps until the next tick is due.
    fn pause(&mut self, pacer: &mut Pacer) -> (r: Ghost<Seq<BusOp>>)
        ensures
            final(self).fifo_state() == old(self).fifo_state(),
            final(self).history() == old(self).history() + r@,
            final(pacer).interval == old(pacer).interval,
            final(pacer).deadline == next_deadline(old(pacer).deadline, old(pacer).interval),
            is_pause(r@, final(pacer).deadline),
    {
        let ghost before = self.history();
        let now = self.now_micros();
        let wait = pacer.advance(now);
        let ghost clock = BusOp::Now { micros: now };
        let ghost mut ops = seq![clock];
        if wait > 0 {
            self.sleep_micros(wait);
            proof {
                ops = seq![clock, BusOp::Sleep { micros: wait }];
                assert(before.push(clock).push(BusOp::Sleep { micros: wait }) =~= before + ops);
            }
        } else {
            assert(before.push(clock) =~= before + ops);
        }
        Ghost(ops)
    }

    /// Runs a stream as `plan` says: reads the clock, then fetches samples
    /// tick by tick and hands them to `sink`, once each and before the clock
    /// is read again, or collects them, until the plan says stop or
    /// fetching fails. Returns the number of samples and, where the stream
    /// collects, the samples.
    pub fn run<S: Sink>(&mut self, plan: Plan, sink: &mut S) -> (res: Result<
        (u64, Vec<SensorData>),
        Mpu6050Error,
    >)
        requires
            old(sink).ready(),
        ensures
            final(self).fifo_state() == old(self).fifo_state(),
            final(sink).ready(),
            plan.source is Buffer && !old(self).fifo_on() ==> {
                &&& final(self).history() == old(self).history()
                &&& final(sink).handed() == old(sink).handed()
                &&& view_run(res) == Err::<(u64, Seq<SensorData>), ErrorView>(
                    ErrorView::FifoNotEnabled,
                )
            },
            !(plan.source is Buffer && !old(self).fifo_on()) ==> {
                &&& extends(final(self).history(), old(self).history())
                &&& exists|ticks: Seq<Tick>|
                    stream_ends(
                        since(old(self).history(), final(self).history()),
                        plan,
                        ticks,
                        *old(sink),
                        view_run(res),
                    ) && final(sink).handed() == old(sink).handed() + handings(
                        ticks,
                        plan,
                        old(self).history().len() + 1,
                    )
            },
    {
        match plan.source {
            Source::Buffer => {
                if !self.is_fifo_enabled() {
                    return Err(Mpu6050Error::FifoNotEnabled);
                }
            },
            Source::Registers => {},
        }
        let ghost h0 = self.history();
        let ghost sink0 = *sink;
        let start = self.now_micros();
        let ghost base = self.history();
        let mut pacer = Pacer::new(start, plan.interval);
        let mut ticks: u64 = 0;
        let mut total: u64 = 0;
        let mut collected: Vec<SensorData> = Vec::new();
        let mut failure: Option<Mpu6050Error> = None;
        let mut finished = false;
        let ghost mut done: Seq<Tick> = Seq::empty();
        proof {
            assert(base + ops_of(done) =~= base);
            assert(sink0.handed() + handings(done, plan, base.len()) =~= sink0.handed());
            lemma_nothing_so_far(plan, start, sink0);
        }
        while !finished
            invariant
                self.fifo_state() == old(self).fifo_state(),
                plan.source is Buffer ==> self.fifo_on(),
                self.history() == base + ops_of(done),
                base.len() == old(self).history().len() + 1,
                done.len() == ticks,
                sink.ready(),
                sink.handed() == sink0.handed() + handings(done, plan, base.len()),
                forall|b: Seq<SensorData>, c: StreamControl|
                    sink.may_answer(b, c) == sink0.may_answer(b, c),
                pacer.interval == plan.interval,
                !finished ==> pacer.deadline == deadline_at(start, plan.interval, ticks as nat),
                !finished ==> failure is None && ticks < u64::MAX,
                total == capped(samples_of(done, plan.source).len()),
                collected@ == if plan.stop is Count {
                    samples_of(done, plan.source)
                } else {
                    Seq::empty()
                },
                so_far(done, finished, failure_view(failure), plan, start, sink0),
            decreases u64::MAX - ticks + (if finished { 0int } else { 1int }),
        {
            let ghost done0 = done;
            let (fetched, Ghost(read)) = self.fetch(plan.source);
            ticks = ticks + 1;
            match fetched {
                Err(e) => {
                    proof {
                        let tick = Tick { read, check: Seq::empty(), pause: Seq::empty() };
                        done = done0.push(tick);
                        lemma_tick_added(done0, tick, plan.source);
                        assert(tick.ops() =~= read);
                        assert(base + ops_of(done0) + read =~= base + (ops_of(done0) + read));
                        assert(samples_of(done, plan.source) =~= samples_of(done0, plan.source));
                        lemma_handing_added(done0, tick, plan, base.len());
                        lemma_tick_failed(done0, tick, e@, plan, start, sink0);
                    }
                    failure = Some(e);
                    finished = true;
                },
                Ok(batch) => {
                    let ghost samples = batch@;
                    let ghost fetched_at = self.history().len();
                    let ghost handed0 = sink.handed();
                    total = total.saturating_add(batch.len() as u64);
                    let (stop_now, Ghost(check)) = self.consult(
                        plan.stop,
                        sink,
                        batch,
                        &mut collected,
                    );
                    proof {
                        let tick = Tick { read, check, pause: Seq::empty() };
                        assert(fetched_at == base.len() + ops_of(done0).len() + read.len());
                        lemma_handing_added(done0, tick, plan, base.len());
                        assert(batch_of(tick, plan.source) == samples);
                        assert(sink.handed() =~= sink0.handed() + handings(
                            done0.push(tick),
                            plan,
                            base.len(),
                        ));
                    }
                    if stop_now || ticks == u64::MAX {
                        proof {
                            let tick = Tick { read, check, pause: Seq::empty() };
                            done = done0.push(tick);
                            lemma_tick_added(done0, tick, plan.source);
                            assert(tick.ops() =~= read + check);
                            assert(base + ops_of(done0) + read + check =~= base + (ops_of(done0)
                                + (read + check)));
                            assert(batch_of(tick, plan.source) == samples);
                            lemma_tick_ended(done0, tick, plan, start, sink0);
                        }
                        finished = true;
                    } else {
                        let Ghost(pause) = self.pause(&mut pacer);
                        proof {
                            lemma_deadline_step(start, plan.interval, (ticks - 1) as nat);
                            let tick = Tick { read, check, pause };
                            done = done0.push(tick);
                            lemma_tick_added(done0, tick, plan.source);
                            lemma_handing_added(done0, tick, plan, base.len());
                            lemma_handing_added(
                                done0,
                                Tick { read, check, pause: Seq::empty() },
                                plan,
                                base.len(),
                            );
                            assert(base + ops_of(done0) + read + check + pause =~= base + (ops_of(
                                done0,
                            ) + (read + check + pause)));
                            assert(batch_of(tick, plan.source) == samples);
                            lemma_tick_passed(done0, tick, plan, start, sink0);
                        }
                    }
                },
            }
        }
        proof {
            let tail = seq![BusOp::Now { micros: start }] + ops_of(done);
            lemma_added(h0, tail);
            assert(self.history() =~= h0 + tail);
            lemma_stream_done(tail, done, failure_view(failure), plan, start, sink0);
        }
        let res = match failure {
            Some(e) => Err(e),
            None => Ok((total, collected)),
        };
        assert(stream_ends(since(h0, self.history()), plan, done, sink0, view_run(res)));
        res
    }
}

} // verus!
