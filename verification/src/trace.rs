//! How a history of bus operations is read: what was added to it, and
//! whether the addition is what a fixed exchange leaves behind.

use vstd::prelude::*;
use crate::bus::BusOp;
use crate::status::FT_OK;

verus! {

/// Whether `after` is `before` with something added at its end.
pub open spec fn extends(after: Seq<BusOp>, before: Seq<BusOp>) -> bool {
    before.len() <= after.len() && after.subrange(0, before.len() as int) == before
}

/// What `after` holds beyond `before`.
pub open spec fn since(before: Seq<BusOp>, after: Seq<BusOp>) -> Seq<BusOp> {
    after.skip(before.len() as int)
}

/// Up to `n` operations of `ops` from index `from` on.
pub open spec fn window(ops: Seq<BusOp>, from: int, n: int) -> Seq<BusOp> {
    if from >= ops.len() {
        Seq::empty()
    } else if from + n >= ops.len() {
        ops.skip(from)
    } else {
        ops.subrange(from, from + n)
    }
}

/// One step of a fixed exchange with the device.
pub enum Step {
    /// Send these bytes with this framing.
    Write { bytes: Seq<u8>, options: u32 },
    /// Ask for this many bytes with this framing.
    Read { count: nat, options: u32 },
    /// Let the device settle.
    Sleep { micros: u64 },
}

impl Step {
    /// Whether `op` is this step, done with the device at `address`. A read
    /// that succeeded brought as many bytes as were asked for.
    pub open spec fn done_by(self, op: BusOp, address: u8) -> bool {
        match self {
            Step::Write { bytes, options } => op matches BusOp::Write {
                address: a,
                bytes: b,
                options: o,
                ..
            } && a == address && b == bytes && o == options,
            Step::Read { count, options } => op matches BusOp::Read {
                address: a,
                count: c,
                options: o,
                status,
                data,
                ..
            } && a == address && c == count && o == options && (status == FT_OK ==> data.len()
                == count),
            Step::Sleep { micros } => op == (BusOp::Sleep { micros }),
        }
    }
}

/// Whether `ops` is what carrying out `script` leaves in the history: the
/// steps in order, up to and including the first that failed, or all of them
/// where none failed.
pub open spec fn is_run(ops: Seq<BusOp>, script: Seq<Step>, address: u8) -> bool {
    &&& ops.len() <= script.len()
    &&& forall|i: int| 0 <= i < ops.len() ==> (#[trigger] script[i]).done_by(ops[i], address)
    &&& forall|i: int| 0 <= i < ops.len() - 1 ==> !(#[trigger] ops[i]).failed()
    &&& ops.len() < script.len() ==> ops.len() > 0 && ops.last().failed()
}

/// Whether a run ended in a step that failed.
pub open spec fn run_failed(ops: Seq<BusOp>) -> bool {
    ops.len() > 0 && ops.last().failed()
}

/// The status that a run ended with: that of the step that failed, or
/// `FT_OK`.
pub open spec fn run_status(ops: Seq<BusOp>) -> u32 {
    if ops.len() > 0 {
        ops.last().status()
    } else {
        FT_OK
    }
}

/// A history that grew by one operation.
pub proof fn lemma_pushed(before: Seq<BusOp>, op: BusOp)
    ensures
        extends(before.push(op), before),
        since(before, before.push(op)) == seq![op],
{
    let after = before.push(op);
    assert(after.subrange(0, before.len() as int) =~= before);
    assert(since(before, after) =~= seq![op]);
}

/// A history that did not grow.
pub proof fn lemma_unchanged(before: Seq<BusOp>)
    ensures
        extends(before, before),
        since(before, before) == Seq::<BusOp>::empty(),
{
    assert(before.subrange(0, before.len() as int) =~= before);
    assert(since(before, before) =~= Seq::<BusOp>::empty());
}

/// A history that grew is the old one with what was added.
pub proof fn lemma_extended(before: Seq<BusOp>, after: Seq<BusOp>)
    requires
        extends(after, before),
    ensures
        after == before + since(before, after),
{
    assert(after.subrange(0, before.len() as int) == before);
    assert forall|i: int| 0 <= i < before.len() implies after[i] == before[i] by {
        assert(after.subrange(0, before.len() as int)[i] == after[i]);
    }
    assert(after =~= before + since(before, after));
}

/// A history with something added has grown by just that.
pub proof fn lemma_added(before: Seq<BusOp>, ops: Seq<BusOp>)
    ensures
        extends(before + ops, before),
        since(before, before + ops) == ops,
{
    assert((before + ops).subrange(0, before.len() as int) =~= before);
    assert(since(before, before + ops) =~= ops);
}

/// A history that grew twice.
pub proof fn lemma_extended_twice(h0: Seq<BusOp>, h1: Seq<BusOp>, h2: Seq<BusOp>)
    requires
        extends(h1, h0),
        extends(h2, h1),
    ensures
        extends(h2, h0),
        since(h0, h2) == since(h0, h1) + since(h1, h2),
        h2 == h0 + since(h0, h2),
{
    assert(h1.subrange(0, h0.len() as int) == h0);
    assert(h2.subrange(0, h1.len() as int) == h1);
    assert forall|i: int| 0 <= i < h0.len() implies h2[i] == h0[i] by {
        assert(h1.subrange(0, h0.len() as int)[i] == h1[i]);
        assert(h2.subrange(0, h1.len() as int)[i] == h2[i]);
    }
    assert(h2.subrange(0, h0.len() as int) =~= h0);
    assert forall|i: int| 0 <= i < h1.len() - h0.len() implies since(h0, h2)[i] == since(h0, h1)[i] by {
        assert(h2.subrange(0, h1.len() as int)[i + h0.len()] == h2[i + h0.len()]);
    }
    assert(since(h0, h2) =~= since(h0, h1) + since(h1, h2));
    assert(h2 =~= h0 + since(h0, h2));
}

/// Two runs one after the other, the first of which went through, are a run
/// of the two scripts one after the other.
pub proof fn lemma_runs_in_a_row(
    first: Seq<BusOp>,
    second: Seq<BusOp>,
    a: Seq<Step>,
    b: Seq<Step>,
    address: u8,
)
    requires
        is_run(first, a, address),
        !run_failed(first),
        is_run(second, b, address),
    ensures
        is_run(first + second, a + b, address),
        run_failed(first + second) == run_failed(second),
        run_status(first + second) == run_status(second),
{
    let ops = first + second;
    let script = a + b;
    assert(first.len() == a.len());
    assert forall|i: int| 0 <= i < ops.len() implies (#[trigger] script[i]).done_by(
        ops[i],
        address,
    ) by {
        if i < first.len() {
            assert(a[i].done_by(first[i], address));
        } else {
            assert(b[i - a.len()].done_by(second[i - first.len()], address));
        }
    }
    assert forall|i: int| 0 <= i < ops.len() - 1 implies !(#[trigger] ops[i]).failed() by {
        if i < first.len() {
            if i < first.len() - 1 {
                assert(!first[i].failed());
            } else {
                assert(first[i] == first.last());
            }
        } else {
            assert(!second[i - first.len()].failed());
        }
    }
    if second.len() > 0 {
        assert(ops.last() == second.last());
    } else {
        assert(ops =~= first);
    }
}

} // verus!
