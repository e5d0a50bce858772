//! What takes the samples of a stream.

use vstd::prelude::*;
use crate::reading::SensorData;

verus! {

/// What a callback tells the loop that called it.
#[derive(Debug, Clone, Copy, PartialEq, Eq, Structural)]
pub enum StreamControl {
    /// Go on.
    Continue,
    /// Stop.
    Break,
}

/// One batch that a sink was handed.
pub struct Handing {
    /// How many operations the stream had done on its bus by then.
    pub at: nat,
    /// The samples.
    pub batch: Seq<SensorData>,
}

/// What takes the samples of each tick and says whether to go on. A sink
/// keeps a record of what it was handed.
pub trait Sink {
    /// Whether the sink can be handed a batch.
    spec fn ready(&self) -> bool;

    /// Whether the sink may answer `control` to `batch`.
    spec fn may_answer(&self, batch: Seq<SensorData>, control: StreamControl) -> bool;

    /// Every batch that the sink was handed so far, oldest first.
    spec fn handed(&self) -> Seq<Handing>;

    /// Takes the samples of one tick, once. `at` is the number of
    /// operations that the caller has done on its bus.
    fn deliver(&mut self, batch: &Vec<SensorData>, at: Ghost<nat>) -> (control: StreamControl)
        requires
            old(self).ready(),
        ensures
            final(self).ready(),
            old(self).may_answer(batch@, control),
            forall|b: Seq<SensorData>, c: StreamControl|
                final(self).may_answer(b, c) == old(self).may_answer(b, c),
            final(self).handed() == old(self).handed().push(
                Handing { at: at@, batch: batch@ },
            ),
    ;
}

/// Hands the sample of each tick to a callback, whose answer counts.
pub struct EachSample<F: FnMut(SensorData) -> StreamControl> {
    pub callback: F,
    pub record: Ghost<Seq<Handing>>,
}

impl<F: FnMut(SensorData) -> StreamControl> EachSample<F> {
    /// The sink around `callback` that has been handed nothing yet.
    pub open spec fn fresh(callback: F) -> Self {
        EachSample { callback, record: Ghost(Seq::empty()) }
    }

    /// A sink around `callback`.
    pub fn new(callback: F) -> (sink: Self)
        ensures
            sink == Self::fresh(callback),
    {
        EachSample { callback, record: Ghost(Seq::empty()) }
    }
}

impl<F: FnMut(SensorData) -> StreamControl> Sink for EachSample<F> {
    open spec fn ready(&self) -> bool {
        forall|sample: SensorData| call_requires(self.callback, (sample,))
    }

    open spec fn may_answer(&self, batch: Seq<SensorData>, control: StreamControl) -> bool {
        if batch.len() == 0 {
            control == StreamControl::Continue
        } else {
            call_ensures(self.callback, (batch[0],), control)
        }
    }

    open spec fn handed(&self) -> Seq<Handing> {
        self.record@
    }

    fn deliver(&mut self, batch: &Vec<SensorData>, at: Ghost<nat>) -> (control: StreamControl) {
        self.record = Ghost(self.record@.push(Handing { at: at@, batch: batch@ }));
        if batch.len() == 0 {
            StreamControl::Continue
        } else {
            (self.callback)(batch[0])
        }
    }
}

/// Hands the sample of each tick to a callback that has no say.
pub struct Watch<F: FnMut(SensorData)> {
    pub callback: F,
    pub record: Ghost<Seq<Handing>>,
}

impl<F: FnMut(SensorData)> Watch<F> {
    /// The sink around `callback` that has been handed nothing yet.
    pub open spec fn fresh(callback: F) -> Self {
        Watch { callback, record: Ghost(Seq::empty()) }
    }

    /// A sink around `callback`.
    pub fn new(callback: F) -> (sink: Self)
        ensures
            sink == Self::fresh(callback),
    {
        Watch { callback, record: Ghost(Seq::empty()) }
    }
}

impl<F: FnMut(SensorData)> Sink for Watch<F> {
    open spec fn ready(&self) -> bool {
        forall|sample: SensorData| call_requires(self.callback, (sample,))
    }

    /// The answer is to go on, whatever the batch; where the batch holds a
    /// sample, the callback took the first one and came back.
    open spec fn may_answer(&self, batch: Seq<SensorData>, control: StreamControl) -> bool {
        &&& control == StreamControl::Continue
        &&& batch.len() > 0 ==> call_ensures(self.callback, (batch[0],), ())
    }

    open spec fn handed(&self) -> Seq<Handing> {
        self.record@
    }

    fn deliver(&mut self, batch: &Vec<SensorData>, at: Ghost<nat>) -> (control: StreamControl) {
        self.record = Ghost(self.record@.push(Handing { at: at@, batch: batch@ }));
        if batch.len() > 0 {
            (self.callback)(batch[0]);
        }
        StreamControl::Continue
    }
}

/// Hands the batch of each tick to a callback, whose answer counts.
pub struct EachBatch<F: FnMut(&[SensorData]) -> StreamControl> {
    pub callback: F,
    pub record: Ghost<Seq<Handing>>,
}

impl<F: FnMut(&[SensorData]) -> StreamControl> EachBatch<F> {
    /// The sink around `callback` that has been handed nothing yet.
    pub open spec fn fresh(callback: F) -> Self {
        EachBatch { callback, record: Ghost(Seq::empty()) }
    }

    /// A sink around `callback`.
    pub fn new(callback: F) -> (sink: Self)
        ensures
            sink == Self::fresh(callback),
    {
        EachBatch { callback, record: Ghost(Seq::empty()) }
    }
}

impl<F: FnMut(&[SensorData]) -> StreamControl> Sink for EachBatch<F> {
    open spec fn ready(&self) -> bool {
        forall|batch: &[SensorData]| call_requires(self.callback, (batch,))
    }

    open spec fn may_answer(&self, batch: Seq<SensorData>, control: StreamControl) -> bool {
        exists|slice: &[SensorData]|
            slice@ == batch && call_ensures(self.callback, (slice,), control)
    }

    open spec fn handed(&self) -> Seq<Handing> {
        self.record@
    }

    fn deliver(&mut self, batch: &Vec<SensorData>, at: Ghost<nat>) -> (control: StreamControl) {
        self.record = Ghost(self.record@.push(Handing { at: at@, batch: batch@ }));
        (self.callback)(batch.as_slice())
    }
}

/// Takes the samples in and does nothing with them: for streams that
/// collect.
pub struct NoSink {
    pub record: Ghost<Seq<Handing>>,
}

impl NoSink {
    /// The sink that has been handed nothing yet.
    pub open spec fn fresh() -> Self {
        NoSink { record: Ghost(Seq::empty()) }
    }

    /// A sink.
    pub fn new() -> (sink: Self)
        ensures
            sink == Self::fresh(),
    {
        NoSink { record: Ghost(Seq::empty()) }
    }
}

impl Sink for NoSink {
    open spec fn ready(&self) -> bool {
        true
    }

    open spec fn may_answer(&self, batch: Seq<SensorData>, control: StreamControl) -> bool {
        control == StreamControl::Continue
    }

    open spec fn handed(&self) -> Seq<Handing> {
        self.record@
    }

    fn deliver(&mut self, batch: &Vec<SensorData>, at: Ghost<nat>) -> (control: StreamControl) {
        self.record = Ghost(self.record@.push(Handing { at: at@, batch: batch@ }));
        StreamControl::Continue
    }
}

} // verus!
