//! The two metric primitives.
//!
//! A [`Counter`] is a monotonic non-negative accumulator; a [`Gauge`]
//! may move in either direction and carries no bounds.  Both clamp at
//! the edge of the fixed-point range instead of wrapping, and the
//! clamping is part of every contract.  The laws at the end state how a
//! whole sequence of operations determines the final value.

use vstd::prelude::*;
use crate::fixed::Fixed;
use crate::fixed::clamp_i64;

verus! {

/// A monotonic, non-negative accumulator.
pub struct Counter {
    name: String,
    help: String,
    value: Fixed,
}

impl Counter {
    /// A counter's value never leaves the non-negative range.
    pub closed spec fn wf(self) -> bool {
        self.value@ >= 0
    }

    pub closed spec fn spec_name(self) -> Seq<char> {
        self.name@
    }

    pub closed spec fn spec_help(self) -> Seq<char> {
        self.help@
    }

    pub closed spec fn spec_value(self) -> int {
        self.value@
    }

    pub fn new(name: String, help: String) -> (r: Counter)
        ensures
            r.wf(),
            r.spec_name() == name@,
            r.spec_help() == help@,
            r.spec_value() == 0,
    {
        Counter { name, help, value: Fixed::zero() }
    }

    pub fn name(&self) -> (r: &String)
        ensures
            r@ == self.spec_name(),
    {
        &self.name
    }

    pub fn help(&self) -> (r: &String)
        ensures
            r@ == self.spec_help(),
    {
        &self.help
    }

    pub fn value(&self) -> (r: Fixed)
        ensures
            r@ == self.spec_value(),
    {
        self.value
    }

    /// Whether this counter carries the name `other`.
    pub fn name_is(&self, other: &String) -> (r: bool)
        ensures
            r == (self.spec_name() == other@),
    {
        self.name == *other
    }

    /// Adds `delta` and returns the new value.  Negative deltas are a
    /// caller contract violation, kept out here so the value can only
    /// grow.
    pub fn increment_by(&mut self, delta: Fixed) -> (r: Fixed)
        requires
            old(self).wf(),
            delta@ >= 0,
        ensures
            final(self).wf(),
            final(self).spec_name() == old(self).spec_name(),
            final(self).spec_help() == old(self).spec_help(),
            final(self).spec_value() == clamp_i64(old(self).spec_value() + delta@),
            final(self).spec_value() >= old(self).spec_value(),
            r@ == final(self).spec_value(),
    {
        self.value = self.value.add_clamped(delta);
        self.value
    }

    /// Adds one whole unit.
    pub fn increment(&mut self) -> (r: Fixed)
        requires
            old(self).wf(),
        ensures
            final(self).wf(),
            final(self).spec_name() == old(self).spec_name(),
            final(self).spec_help() == old(self).spec_help(),
            final(self).spec_value() == clamp_i64(old(self).spec_value() + crate::fixed::SCALE),
            final(self).spec_value() >= old(self).spec_value(),
            r@ == final(self).spec_value(),
    {
        self.increment_by(Fixed::one())
    }
}

/// A metric that moves freely in both directions.
pub struct Gauge {
    name: String,
    help: String,
    value: Fixed,
}

impl Gauge {
    pub closed spec fn spec_name(self) -> Seq<char> {
        self.name@
    }

    pub closed spec fn spec_help(self) -> Seq<char> {
        self.help@
    }

    pub closed spec fn spec_value(self) -> int {
        self.value@
    }

    pub fn new(name: String, help: String) -> (r: Gauge)
        ensures
            r.spec_name() == name@,
            r.spec_help() == help@,
            r.spec_value() == 0,
    {
        Gauge { name, help, value: Fixed::zero() }
    }

    pub fn name(&self) -> (r: &String)
        ensures
            r@ == self.spec_name(),
    {
        &self.name
    }

    pub fn help(&self) -> (r: &String)
        ensures
            r@ == self.spec_help(),
    {
        &self.help
    }

    pub fn value(&self) -> (r: Fixed)
        ensures
            r@ == self.spec_value(),
    {
        self.value
    }

    /// Whether this gauge carries the name `other`.
    pub fn name_is(&self, other: &String) -> (r: bool)
        ensures
            r == (self.spec_name() == other@),
    {
        self.name == *other
    }

    /// Replaces the value and returns it.
    pub fn set(&mut self, v: Fixed) -> (r: Fixed)
        ensures
            final(self).spec_name() == old(self).spec_name(),
            final(self).spec_help() == old(self).spec_help(),
            final(self).spec_value() == v@,
            r@ == v@,
    {
        self.value = v;
        self.value
    }

    /// Adds `delta` (of either sign) and returns the new value.
    pub fn increment_by(&mut self, delta: Fixed) -> (r: Fixed)
        ensures
            final(self).spec_name() == old(self).spec_name(),
            final(self).spec_help() == old(self).spec_help(),
            final(self).spec_value() == clamp_i64(old(self).spec_value() + delta@),
            r@ == final(self).spec_value(),
    {
        self.value = self.value.add_clamped(delta);
        self.value
    }

    /// Subtracts `delta` and returns the new value.
    pub fn decrement_by(&mut self, delta: Fixed) -> (r: Fixed)
        ensures
            final(self).spec_name() == old(self).spec_name(),
            final(self).spec_help() == old(self).spec_help(),
            final(self).spec_value() == clamp_i64(old(self).spec_value() - delta@),
            r@ == final(self).spec_value(),
    {
        self.value = self.value.sub_clamped(delta);
        self.value
    }

    /// Adds one whole unit.
    pub fn increment(&mut self) -> (r: Fixed)
        ensures
            final(self).spec_name() == old(self).spec_name(),
            final(self).spec_help() == old(self).spec_help(),
            final(self).spec_value() == clamp_i64(old(self).spec_value() + crate::fixed::SCALE),
            r@ == final(self).spec_value(),
    {
        self.increment_by(Fixed::one())
    }

    /// Subtracts one whole unit.
    pub fn decrement(&mut self) -> (r: Fixed)
        ensures
            final(self).spec_name() == old(self).spec_name(),
            final(self).spec_help() == old(self).spec_help(),
            final(self).spec_value() == clamp_i64(old(self).spec_value() - crate::fixed::SCALE),
            r@ == final(self).spec_value(),
    {
        self.decrement_by(Fixed::one())
    }
}

/// What counter well-formedness means to callers: the value is
/// non-negative.
pub broadcast proof fn lemma_counter_wf(c: Counter)
    ensures
        c.wf() ==> #[trigger] c.spec_value() >= 0,
{
}

/// Sum of a sequence of deltas.
pub open spec fn sum_of(deltas: Seq<int>) -> int
    decreases deltas.len(),
{
    if deltas.len() == 0 {
        0
    } else {
        sum_of(deltas.drop_last()) + deltas.last()
    }
}

/// The value a fresh counter holds after the deltas are applied in
/// order, each through [`Counter::increment_by`].
pub open spec fn counter_after(deltas: Seq<int>) -> int
    decreases deltas.len(),
{
    if deltas.len() == 0 {
        0
    } else {
        clamp_i64(counter_after(deltas.drop_last()) + deltas.last())
    }
}

/// A fresh counter driven by any sequence of non-negative deltas that
/// sums within range holds exactly the sum of the deltas.
pub proof fn lemma_counter_value_is_sum(deltas: Seq<int>)
    requires
        forall|i: int| 0 <= i < deltas.len() ==> #[trigger] deltas[i] >= 0,
        sum_of(deltas) <= i64::MAX as int,
    ensures
        counter_after(deltas) == sum_of(deltas),
        sum_of(deltas) >= 0,
    decreases deltas.len(),
{
    if deltas.len() > 0 {
        let pre = deltas.drop_last();
        assert(forall|i: int| 0 <= i < pre.len() ==> #[trigger] pre[i] >= 0);
        assert(deltas.last() >= 0);
        lemma_counter_value_is_sum(pre);
    }
}

/// A counter never decreases: one more non-negative delta can only
/// raise the value it has after any earlier sequence.
pub proof fn lemma_counter_monotone(deltas: Seq<int>, d: int)
    requires
        d >= 0,
    ensures
        counter_after(deltas.push(d)) >= counter_after(deltas),
{
    assert(deltas.push(d).drop_last() =~= deltas);
    assert(deltas.push(d).last() == d);
}

/// One gauge adjustment, for the law over operation sequences.
pub enum GaugeOp {
    SetTo(int),
    IncBy(int),
    DecBy(int),
}

/// How a single operation moves a gauge sitting at `v`.
pub open spec fn gauge_step(v: int, op: GaugeOp) -> int {
    match op {
        GaugeOp::SetTo(x) => x,
        GaugeOp::IncBy(d) => clamp_i64(v + d),
        GaugeOp::DecBy(d) => clamp_i64(v - d),
    }
}

/// The value a fresh gauge holds after the operations are applied in
/// order.
pub open spec fn gauge_after(ops: Seq<GaugeOp>) -> int
    decreases ops.len(),
{
    if ops.len() == 0 {
        0
    } else {
        gauge_step(gauge_after(ops.drop_last()), ops.last())
    }
}

/// Net movement of a sequence of increments and decrements.
pub open spec fn net_of(ops: Seq<GaugeOp>) -> int
    decreases ops.len(),
{
    if ops.len() == 0 {
        0
    } else {
        net_of(ops.drop_last()) + (match ops.last() {
            GaugeOp::SetTo(x) => 0,
            GaugeOp::IncBy(d) => d,
            GaugeOp::DecBy(d) => -d,
        })
    }
}

pub open spec fn no_set(ops: Seq<GaugeOp>) -> bool {
    forall|i: int| 0 <= i < ops.len() ==> !(#[trigger] ops[i] is SetTo)
}

/// A fresh gauge that has seen no `set` holds the net of its
/// increments and decrements, whenever that running net stays in
/// range.
pub proof fn lemma_gauge_value_without_set(ops: Seq<GaugeOp>)
    requires
        no_set(ops),
        forall|k: int|
            0 <= k <= ops.len() ==> i64::MIN as int <= net_of(#[trigger] ops.take(k))
                <= i64::MAX as int,
    ensures
        gauge_after(ops) == net_of(ops),
    decreases ops.len(),
{
    if ops.len() > 0 {
        let pre = ops.drop_last();
        assert(no_set(pre));
        assert(forall|k: int| 0 <= k <= pre.len() ==> #[trigger] pre.take(k) =~= ops.take(k));
        lemma_gauge_value_without_set(pre);
        assert(ops.take(ops.len() as int) =~= ops);
        assert(ops.take(ops.len() - 1) =~= pre);
        assert(!(ops.last() is SetTo));
    }
}

/// A gauge's value is the algebraic sum of the operations applied in
/// order: after a `set` to `v` and any run of increments and
/// decrements whose running total stays in range, the value is `v`
/// plus the net of that run.
pub proof fn lemma_gauge_value_is_algebraic_sum(pre: Seq<GaugeOp>, v: int, tail: Seq<GaugeOp>)
    requires
        no_set(tail),
        forall|k: int|
            0 <= k <= tail.len() ==> i64::MIN as int <= v + net_of(#[trigger] tail.take(k))
                <= i64::MAX as int,
    ensures
        gauge_after(pre.push(GaugeOp::SetTo(v)) + tail) == v + net_of(tail),
    decreases tail.len(),
{
    let whole = pre.push(GaugeOp::SetTo(v)) + tail;
    if tail.len() == 0 {
        assert(whole =~= pre.push(GaugeOp::SetTo(v)));
        assert(whole.drop_last() =~= pre);
        assert(whole.last() == GaugeOp::SetTo(v));
        assert(tail.take(0) =~= tail);
    } else {
        let tpre = tail.drop_last();
        assert(no_set(tpre));
        assert(forall|k: int|
            0 <= k <= tpre.len() ==> #[trigger] tpre.take(k) =~= tail.take(k));
        assert(forall|k: int|
            0 <= k <= tpre.len() ==> i64::MIN as int <= v + net_of(#[trigger] tpre.take(k))
                <= i64::MAX as int);
        lemma_gauge_value_is_algebraic_sum(pre, v, tpre);
        assert(whole.drop_last() =~= pre.push(GaugeOp::SetTo(v)) + tpre);
        assert(whole.last() == tail.last());
        assert(tail.take(tail.len() as int) =~= tail);
        assert(tail.take(tail.len() - 1) =~= tpre);
        assert(!(tail.last() is SetTo));
    }
}

} // verus!
