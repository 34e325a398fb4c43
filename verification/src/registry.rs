//! The metric registry.
//!
//! The registry owns every counter and gauge, built-in and dynamic,
//! and guarantees that a metric name is registered at most once across
//! the combined counter and gauge namespace.  Metrics are addressed by
//! index; the built-in metrics sit at the fixed positions their
//! identifiers in [`crate::builtin`] name.  The host serializes all
//! access: one call runs at a time, and the get-or-create operations
//! are single critical sections, so a name races to exactly one slot.

use vstd::prelude::*;
use vstd::string::StringExecFns;
use crate::builtin::CounterId;
use crate::builtin::GaugeId;
use crate::builtin::NUM_COUNTERS;
use crate::builtin::NUM_GAUGES;
use crate::builtin::counter_name;
use crate::builtin::counter_help;
use crate::builtin::gauge_name;
use crate::builtin::gauge_help;
use crate::builtin::builtin_name;
use crate::builtin::counter_name_str;
use crate::builtin::counter_help_str;
use crate::builtin::gauge_name_str;
use crate::builtin::gauge_help_str;
use crate::builtin::lemma_builtin_names_distinct;
use crate::fixed::Fixed;
use crate::metric::Counter;
use crate::metric::Gauge;

verus! {

/// The error a dynamic lookup reports when a name is already bound to
/// the other kind of metric.
#[derive(Clone, Copy, PartialEq, Eq, Structural, Debug)]
pub enum NameClash {
    /// The name is registered as a gauge, so no counter can carry it.
    BoundToGauge,
    /// The name is registered as a counter, so no gauge can carry it.
    BoundToCounter,
}

pub struct Registry {
    counters: Vec<Counter>,
    gauges: Vec<Gauge>,
}

impl Registry {
    pub closed spec fn counters(self) -> Seq<Counter> {
        self.counters@
    }

    pub closed spec fn gauges(self) -> Seq<Gauge> {
        self.gauges@
    }

    pub open spec fn has_counter_named(self, n: Seq<char>) -> bool {
        exists|i: int| 0 <= i < self.counters().len() && (#[trigger] self.counters()[i]).spec_name() == n
    }

    pub open spec fn has_gauge_named(self, n: Seq<char>) -> bool {
        exists|i: int| 0 <= i < self.gauges().len() && (#[trigger] self.gauges()[i]).spec_name() == n
    }

    pub open spec fn name_used(self, n: Seq<char>) -> bool {
        self.has_counter_named(n) || self.has_gauge_named(n)
    }

    /// The registry invariant: the built-in metrics sit at their fixed
    /// positions, counters are non-negative, and no metric name repeats
    /// anywhere in the combined namespace.
    pub open spec fn wf(self) -> bool {
        &&& self.counters().len() >= NUM_COUNTERS as int
        &&& self.gauges().len() >= NUM_GAUGES as int
        &&& forall|k: int|
            0 <= k < NUM_COUNTERS as int ==> (#[trigger] self.counters()[k]).spec_name()
                == counter_name(k)
        &&& forall|k: int|
            0 <= k < NUM_GAUGES as int ==> (#[trigger] self.gauges()[k]).spec_name()
                == gauge_name(k)
        &&& forall|i: int|
            0 <= i < self.counters().len() ==> (#[trigger] self.counters()[i]).wf()
        &&& forall|i: int, j: int|
            0 <= i < self.counters().len() && 0 <= j < self.counters().len() && i != j
                ==> (#[trigger] self.counters()[i]).spec_name() != (
            #[trigger] self.counters()[j]).spec_name()
        &&& forall|i: int, j: int|
            0 <= i < self.gauges().len() && 0 <= j < self.gauges().len() && i != j ==> (
            #[trigger] self.gauges()[i]).spec_name() != (#[trigger] self.gauges()[j]).spec_name()
        &&& forall|i: int, j: int|
            0 <= i < self.counters().len() && 0 <= j < self.gauges().len() ==> (
            #[trigger] self.counters()[i]).spec_name() != (#[trigger] self.gauges()[j]).spec_name()
    }

    /// Builds the registry the engine starts with: every built-in
    /// metric registered once, at its identifier's position, at zero.
    pub fn new() -> (r: Registry)
        ensures
            r.wf(),
            r.counters().len() == NUM_COUNTERS as int,
            r.gauges().len() == NUM_GAUGES as int,
            forall|i: int|
                0 <= i < NUM_COUNTERS as int ==> (#[trigger] r.counters()[i]).spec_value() == 0,
            forall|i: int|
                0 <= i < NUM_GAUGES as int ==> (#[trigger] r.gauges()[i]).spec_value() == 0,
            forall|i: int|
                0 <= i < NUM_COUNTERS as int ==> (#[trigger] r.counters()[i]).spec_help()
                    == counter_help(i),
            forall|i: int|
                0 <= i < NUM_GAUGES as int ==> (#[trigger] r.gauges()[i]).spec_help()
                    == gauge_help(i),
    {
        let mut counters: Vec<Counter> = Vec::new();
        let mut k: usize = 0;
        while k < NUM_COUNTERS
            invariant
                k <= NUM_COUNTERS,
                counters@.len() == k as int,
                forall|i: int|
                    0 <= i < k as int ==> (#[trigger] counters@[i]).spec_name() == counter_name(i)
                        && counters@[i].spec_help() == counter_help(i) && counters@[i].spec_value()
                        == 0 && counters@[i].wf(),
            decreases NUM_COUNTERS - k,
        {
            let id = counter_id_of(k);
            let c = Counter::new(
                String::from_str(counter_name_str(id)),
                String::from_str(counter_help_str(id)),
            );
            counters.push(c);
            k = k + 1;
        }
        let mut gauges: Vec<Gauge> = Vec::new();
        let mut k: usize = 0;
        while k < NUM_GAUGES
            invariant
                k <= NUM_GAUGES,
                gauges@.len() == k as int,
                forall|i: int|
                    0 <= i < k as int ==> (#[trigger] gauges@[i]).spec_name() == gauge_name(i)
                        && gauges@[i].spec_help() == gauge_help(i) && gauges@[i].spec_value() == 0,
            decreases NUM_GAUGES - k,
        {
            let id = gauge_id_of(k);
            let g = Gauge::new(
                String::from_str(gauge_name_str(id)),
                String::from_str(gauge_help_str(id)),
            );
            gauges.push(g);
            k = k + 1;
        }
        let r = Registry { counters, gauges };
        proof {
            lemma_builtin_names_distinct();
            assert forall|i: int, j: int|
                0 <= i < r.counters().len() && 0 <= j < r.counters().len() && i != j implies (
            r.counters()[i]).spec_name() != (r.counters()[j]).spec_name() by {
                assert(builtin_name(i) == counter_name(i));
                assert(builtin_name(j) == counter_name(j));
            }
            assert forall|i: int, j: int|
                0 <= i < r.gauges().len() && 0 <= j < r.gauges().len() && i != j implies (
            r.gauges()[i]).spec_name() != (r.gauges()[j]).spec_name() by {
                assert(builtin_name(NUM_COUNTERS as int + i) == gauge_name(i));
                assert(builtin_name(NUM_COUNTERS as int + j) == gauge_name(j));
            }
            assert forall|i: int, j: int|
                0 <= i < r.counters().len() && 0 <= j < r.gauges().len() implies (
            r.counters()[i]).spec_name() != (r.gauges()[j]).spec_name() by {
                assert(builtin_name(i) == counter_name(i));
                assert(builtin_name(NUM_COUNTERS as int + j) == gauge_name(j));
            }
        }
        r
    }

    /// Index of the counter carrying `name`, if any.
    pub fn find_counter(&self, name: &String) -> (r: Option<usize>)
        ensures
            match r {
                Some(i) => i < self.counters().len() && self.counters()[i as int].spec_name()
                    == name@,
                None => !self.has_counter_named(name@),
            },
    {
        let mut j: usize = 0;
        while j < self.counters.len()
            invariant
                j <= self.counters@.len(),
                forall|t: int| 0 <= t < j as int ==> (#[trigger] self.counters@[t]).spec_name() != name@,
            decreases self.counters@.len() - j,
        {
            if self.counters[j].name_is(name) {
                return Some(j);
            }
            j = j + 1;
        }
        None
    }

    /// Index of the gauge carrying `name`, if any.
    pub fn find_gauge(&self, name: &String) -> (r: Option<usize>)
        ensures
            match r {
                Some(i) => i < self.gauges().len() && self.gauges()[i as int].spec_name() == name@,
                None => !self.has_gauge_named(name@),
            },
    {
        let mut j: usize = 0;
        while j < self.gauges.len()
            invariant
                j <= self.gauges@.len(),
                forall|t: int| 0 <= t < j as int ==> (#[trigger] self.gauges@[t]).spec_name() != name@,
            decreases self.gauges@.len() - j,
        {
            if self.gauges[j].name_is(name) {
                return Some(j);
            }
            j = j + 1;
        }
        None
    }

    /// Adds a counter under a name the registry does not hold yet.
    pub fn register_counter(&mut self, name: String, help: String) -> (r: usize)
        requires
            old(self).wf(),
            !old(self).name_used(name@),
        ensures
            final(self).wf(),
            r == old(self).counters().len(),
            final(self).counters().len() == old(self).counters().len() + 1,
            final(self).gauges() == old(self).gauges(),
            forall|i: int|
                0 <= i < old(self).counters().len() ==> final(self).counters()[i] == old(
                    self,
                ).counters()[i],
            final(self).counters()[r as int].spec_name() == name@,
            final(self).counters()[r as int].spec_help() == help@,
            final(self).counters()[r as int].spec_value() == 0,
    {
        let ghost oldc = self.counters@;
        let r = self.counters.len();
        let c = Counter::new(name, help);
        self.counters.push(c);
        proof {
            assert forall|i: int, j: int|
                0 <= i < self.counters@.len() && 0 <= j < self.counters@.len() && i != j implies (
            self.counters@[i]).spec_name() != (self.counters@[j]).spec_name() by {
                if i < oldc.len() && j < oldc.len() {
                } else if i == oldc.len() {
                    assert(!old(self).has_counter_named(self.counters@[i].spec_name()));
                } else {
                    assert(!old(self).has_counter_named(self.counters@[j].spec_name()));
                }
            }
        }
        r
    }

    /// Adds a gauge under a name the registry does not hold yet.
    pub fn register_gauge(&mut self, name: String, help: String) -> (r: usize)
        requires
            old(self).wf(),
            !old(self).name_used(name@),
        ensures
            final(self).wf(),
            r == old(self).gauges().len(),
            final(self).gauges().len() == old(self).gauges().len() + 1,
            final(self).counters() == old(self).counters(),
            forall|i: int|
                0 <= i < old(self).gauges().len() ==> final(self).gauges()[i] == old(
                    self,
                ).gauges()[i],
            final(self).gauges()[r as int].spec_name() == name@,
            final(self).gauges()[r as int].spec_help() == help@,
            final(self).gauges()[r as int].spec_value() == 0,
    {
        let ghost oldg = self.gauges@;
        let r = self.gauges.len();
        let g = Gauge::new(name, help);
        self.gauges.push(g);
        proof {
            assert forall|i: int, j: int|
                0 <= i < self.gauges@.len() && 0 <= j < self.gauges@.len() && i != j implies (
            self.gauges@[i]).spec_name() != (self.gauges@[j]).spec_name() by {
                if i < oldg.len() && j < oldg.len() {
                } else if i == oldg.len() {
                    assert(!old(self).has_gauge_named(self.gauges@[i].spec_name()));
                } else {
                    assert(!old(self).has_gauge_named(self.gauges@[j].spec_name()));
                }
            }
        }
        r
    }

    /// Returns the counter registered under `name`, creating and
    /// registering a fresh zero counter (its name doubling as its help
    /// text) when the name is unseen.  The whole check-create-register
    /// sequence runs inside this one call, so concurrent first uses
    /// serialized by the host's lock cannot register a name twice.
    pub fn get_or_create_counter(&mut self, name: &String) -> (r: Result<usize, NameClash>)
        requires
            old(self).wf(),
        ensures
            final(self).wf(),
            match r {
                Ok(i) => {
                    &&& i < final(self).counters().len()
                    &&& final(self).counters()[i as int].spec_name() == name@
                    &&& (if old(self).has_counter_named(name@) {
                        *final(self) == *old(self)
                    } else {
                        &&& i == old(self).counters().len()
                        &&& final(self).counters().len() == old(self).counters().len() + 1
                        &&& final(self).counters()[i as int].spec_value() == 0
                        &&& final(self).counters()[i as int].spec_help() == name@
                        &&& final(self).gauges() == old(self).gauges()
                        &&& forall|t: int|
                            0 <= t < old(self).counters().len() ==> final(self).counters()[t]
                                == old(self).counters()[t]
                    })
                },
                Err(e) => {
                    &&& e == NameClash::BoundToGauge
                    &&& *final(self) == *old(self)
                },
            },
            r is Ok <==> (old(self).has_counter_named(name@) || !old(self).has_gauge_named(name@)),
    {
        match self.find_counter(name) {
            Some(i) => Ok(i),
            None => {
                match self.find_gauge(name) {
                    Some(_) => Err(NameClash::BoundToGauge),
                    None => {
                        let n = name.clone();
                        let h = name.clone();
                        Ok(self.register_counter(n, h))
                    },
                }
            },
        }
    }

    /// Returns the gauge registered under `name`, creating and
    /// registering a fresh zero gauge when the name is unseen; the
    /// sequence is one critical section, as for counters.
    pub fn get_or_create_gauge(&mut self, name: &String) -> (r: Result<usize, NameClash>)
        requires
            old(self).wf(),
        ensures
            final(self).wf(),
            match r {
                Ok(i) => {
                    &&& i < final(self).gauges().len()
                    &&& final(self).gauges()[i as int].spec_name() == name@
                    &&& (if old(self).has_gauge_named(name@) {
                        *final(self) == *old(self)
                    } else {
                        &&& i == old(self).gauges().len()
                        &&& final(self).gauges().len() == old(self).gauges().len() + 1
                        &&& final(self).gauges()[i as int].spec_value() == 0
                        &&& final(self).gauges()[i as int].spec_help() == name@
                        &&& final(self).counters() == old(self).counters()
                        &&& forall|t: int|
                            0 <= t < old(self).gauges().len() ==> final(self).gauges()[t] == old(
                                self,
                            ).gauges()[t]
                    })
                },
                Err(e) => {
                    &&& e == NameClash::BoundToCounter
                    &&& *final(self) == *old(self)
                },
            },
            r is Ok <==> (old(self).has_gauge_named(name@) || !old(self).has_counter_named(name@)),
    {
        match self.find_gauge(name) {
            Some(i) => Ok(i),
            None => {
                match self.find_counter(name) {
                    Some(_) => Err(NameClash::BoundToCounter),
                    None => {
                        let n = name.clone();
                        let h = name.clone();
                        Ok(self.register_gauge(n, h))
                    },
                }
            },
        }
    }

    /// Current value of the counter at `i`.
    pub fn counter_value(&self, i: usize) -> (r: Fixed)
        requires
            i < self.counters().len(),
        ensures
            r@ == self.counters()[i as int].spec_value(),
    {
        self.counters[i].value()
    }

    /// Current value of the gauge at `i`.
    pub fn gauge_value(&self, i: usize) -> (r: Fixed)
        requires
            i < self.gauges().len(),
        ensures
            r@ == self.gauges()[i as int].spec_value(),
    {
        self.gauges[i].value()
    }

    /// Adds `delta` (non-negative) to the counter at `i`.
    pub fn counter_add(&mut self, i: usize, delta: Fixed) -> (r: Fixed)
        requires
            old(self).wf(),
            i < old(self).counters().len(),
            delta@ >= 0,
        ensures
            final(self).wf(),
            final(self).gauges() == old(self).gauges(),
            final(self).counters().len() == old(self).counters().len(),
            forall|t: int|
                0 <= t < old(self).counters().len() && t != i as int ==> final(self).counters()[t]
                    == old(self).counters()[t],
            final(self).counters()[i as int].spec_name() == old(self).counters()[
                i as int
            ].spec_name(),
            final(self).counters()[i as int].spec_help() == old(self).counters()[
                i as int
            ].spec_help(),
            final(self).counters()[i as int].spec_value() == crate::fixed::clamp_i64(
                old(self).counters()[i as int].spec_value() + delta@,
            ),
            r@ == final(self).counters()[i as int].spec_value(),
    {
        let c = &mut self.counters[i];
        c.increment_by(delta)
    }

    /// Sets the gauge at `i`.
    pub fn gauge_set(&mut self, i: usize, v: Fixed) -> (r: Fixed)
        requires
            old(self).wf(),
            i < old(self).gauges().len(),
        ensures
            final(self).wf(),
            final(self).counters() == old(self).counters(),
            final(self).gauges().len() == old(self).gauges().len(),
            forall|t: int|
                0 <= t < old(self).gauges().len() && t != i as int ==> final(self).gauges()[t]
                    == old(self).gauges()[t],
            final(self).gauges()[i as int].spec_name() == old(self).gauges()[i as int].spec_name(),
            final(self).gauges()[i as int].spec_help() == old(self).gauges()[i as int].spec_help(),
            final(self).gauges()[i as int].spec_value() == v@,
            r@ == v@,
    {
        let g = &mut self.gauges[i];
        g.set(v)
    }

    /// Adds `delta` (of either sign) to the gauge at `i`.
    pub fn gauge_add(&mut self, i: usize, delta: Fixed) -> (r: Fixed)
        requires
            old(self).wf(),
            i < old(self).gauges().len(),
        ensures
            final(self).wf(),
            final(self).counters() == old(self).counters(),
            final(self).gauges().len() == old(self).gauges().len(),
            forall|t: int|
                0 <= t < old(self).gauges().len() && t != i as int ==> final(self).gauges()[t]
                    == old(self).gauges()[t],
            final(self).gauges()[i as int].spec_name() == old(self).gauges()[i as int].spec_name(),
            final(self).gauges()[i as int].spec_help() == old(self).gauges()[i as int].spec_help(),
            final(self).gauges()[i as int].spec_value() == crate::fixed::clamp_i64(
                old(self).gauges()[i as int].spec_value() + delta@,
            ),
            r@ == final(self).gauges()[i as int].spec_value(),
    {
        let g = &mut self.gauges[i];
        g.increment_by(delta)
    }

    /// Subtracts `delta` from the gauge at `i`.
    pub fn gauge_sub(&mut self, i: usize, delta: Fixed) -> (r: Fixed)
        requires
            old(self).wf(),
            i < old(self).gauges().len(),
        ensures
            final(self).wf(),
            final(self).counters() == old(self).counters(),
            final(self).gauges().len() == old(self).gauges().len(),
            forall|t: int|
                0 <= t < old(self).gauges().len() && t != i as int ==> final(self).gauges()[t]
                    == old(self).gauges()[t],
            final(self).gauges()[i as int].spec_name() == old(self).gauges()[i as int].spec_name(),
            final(self).gauges()[i as int].spec_help() == old(self).gauges()[i as int].spec_help(),
            final(self).gauges()[i as int].spec_value() == crate::fixed::clamp_i64(
                old(self).gauges()[i as int].spec_value() - delta@,
            ),
            r@ == final(self).gauges()[i as int].spec_value(),
    {
        let g = &mut self.gauges[i];
        g.decrement_by(delta)
    }

    /// The counter at `i`.
    pub fn counter_at(&self, i: usize) -> (r: &Counter)
        requires
            i < self.counters().len(),
        ensures
            *r == self.counters()[i as int],
    {
        &self.counters[i]
    }

    /// The gauge at `i`.
    pub fn gauge_at(&self, i: usize) -> (r: &Gauge)
        requires
            i < self.gauges().len(),
        ensures
            *r == self.gauges()[i as int],
    {
        &self.gauges[i]
    }

    /// How many counters are registered.
    pub fn num_counters(&self) -> (r: usize)
        ensures
            r == self.counters().len(),
    {
        self.counters.len()
    }

    /// How many gauges are registered.
    pub fn num_gauges(&self) -> (r: usize)
        ensures
            r == self.gauges().len(),
    {
        self.gauges.len()
    }
}

fn counter_id_of(k: usize) -> (r: CounterId)
    requires
        k < NUM_COUNTERS,
    ensures
        r.spec_idx() == k as int,
{
    if k == 0 {
        CounterId::Heartbeats
    } else if k == 1 {
        CounterId::SessionsCreated
    } else if k == 2 {
        CounterId::SessionsDestroyed
    } else if k == 3 {
        CounterId::SessionsAnswered
    } else if k == 4 {
        CounterId::SessionsFailed
    } else if k == 5 {
        CounterId::SessionsInboundCreated
    } else if k == 6 {
        CounterId::SessionsInboundAnswered
    } else if k == 7 {
        CounterId::SessionsInboundFailed
    } else if k == 8 {
        CounterId::SessionsOutboundCreated
    } else if k == 9 {
        CounterId::SessionsOutboundAnswered
    } else if k == 10 {
        CounterId::SessionsOutboundFailed
    } else if k == 11 {
        CounterId::Registrations
    } else if k == 12 {
        CounterId::RegistrationAttempts
    } else if k == 13 {
        CounterId::RegistrationFailures
    } else if k == 14 {
        CounterId::SessionsOutboundCallDurationTotal
    } else if k == 15 {
        CounterId::SessionsOutboundCallHangup
    } else if k == 16 {
        CounterId::SessionsOutboundCallHangupComplete
    } else if k == 17 {
        CounterId::SessionsInboundCallDurationTotal
    } else if k == 18 {
        CounterId::SessionsInboundCallHangup
    } else {
        CounterId::SessionsInboundCallHangupComplete
    }
}

fn gauge_id_of(k: usize) -> (r: GaugeId)
    requires
        k < NUM_GAUGES,
    ensures
        r.spec_idx() == k as int,
{
    if k == 0 {
        GaugeId::SessionsActiveInbound
    } else if k == 1 {
        GaugeId::SessionsActiveOutbound
    } else if k == 2 {
        GaugeId::SessionsOutboundAsr
    } else if k == 3 {
        GaugeId::RegistrationsActive
    } else if k == 4 {
        GaugeId::SessionsOutboundAcd
    } else if k == 5 {
        GaugeId::SessionsInboundAcd
    } else {
        GaugeId::SessionsInboundAsr
    }
}

/// Two registries with the same metric listing shape: the same number
/// of counters and gauges, the same names and help texts slot by slot,
/// and the same values in every slot beyond the built-in ones.
pub open spec fn same_shape(a: Registry, b: Registry) -> bool {
    &&& b.counters().len() == a.counters().len()
    &&& b.gauges().len() == a.gauges().len()
    &&& forall|i: int|
        0 <= i < a.counters().len() ==> (#[trigger] b.counters()[i]).spec_name()
            == a.counters()[i].spec_name() && b.counters()[i].spec_help()
            == a.counters()[i].spec_help()
    &&& forall|i: int|
        0 <= i < a.gauges().len() ==> (#[trigger] b.gauges()[i]).spec_name()
            == a.gauges()[i].spec_name() && b.gauges()[i].spec_help() == a.gauges()[i].spec_help()
    &&& forall|i: int|
        NUM_COUNTERS as int <= i < a.counters().len() ==> (#[trigger] b.counters()[i]).spec_value()
            == a.counters()[i].spec_value()
    &&& forall|i: int|
        NUM_GAUGES as int <= i < a.gauges().len() ==> (#[trigger] b.gauges()[i]).spec_value()
            == a.gauges()[i].spec_value()
}

/// A name reaches at most one counter: in a well-formed registry two
/// counter slots that carry the same name are one slot.  Together with
/// the get-or-create contracts this closes the duplicate-registration
/// race for callers serialized by the host's lock.
pub proof fn lemma_counter_name_unique(r: Registry, n: Seq<char>, i: int, j: int)
    requires
        r.wf(),
        0 <= i < r.counters().len(),
        0 <= j < r.counters().len(),
        r.counters()[i].spec_name() == n,
        r.counters()[j].spec_name() == n,
    ensures
        i == j,
{
}

/// The same for gauges.
pub proof fn lemma_gauge_name_unique(r: Registry, n: Seq<char>, i: int, j: int)
    requires
        r.wf(),
        0 <= i < r.gauges().len(),
        0 <= j < r.gauges().len(),
        r.gauges()[i].spec_name() == n,
        r.gauges()[j].spec_name() == n,
    ensures
        i == j,
{
}

/// After startup the exposition listing holds every built-in metric
/// name exactly once, at its identifier's position, with value zero:
/// the names are present by construction, and well-formedness forbids
/// a second slot with the same name anywhere in either list.
pub proof fn lemma_startup_snapshot(r: Registry)
    requires
        r.wf(),
        r.counters().len() == NUM_COUNTERS as int,
        r.gauges().len() == NUM_GAUGES as int,
        forall|i: int|
            0 <= i < NUM_COUNTERS as int ==> (#[trigger] r.counters()[i]).spec_value() == 0,
        forall|i: int| 0 <= i < NUM_GAUGES as int ==> (#[trigger] r.gauges()[i]).spec_value() == 0,
    ensures
        forall|k: int|
            0 <= k < NUM_COUNTERS as int ==> (#[trigger] r.counters()[k]).spec_name()
                == counter_name(k) && r.counters()[k].spec_value() == 0,
        forall|k: int|
            0 <= k < NUM_GAUGES as int ==> (#[trigger] r.gauges()[k]).spec_name() == gauge_name(k)
                && r.gauges()[k].spec_value() == 0,
        forall|k: int, i: int|
            #![trigger r.counters()[i], counter_name(k)]
            0 <= k < NUM_COUNTERS as int && 0 <= i < r.counters().len()
                && r.counters()[i].spec_name() == counter_name(k) ==> i == k,
        forall|k: int, i: int|
            #![trigger r.gauges()[i], gauge_name(k)]
            0 <= k < NUM_GAUGES as int && 0 <= i < r.gauges().len()
                && r.gauges()[i].spec_name() == gauge_name(k) ==> i == k,
        forall|k: int, i: int|
            #![trigger r.gauges()[i], counter_name(k)]
            0 <= k < NUM_COUNTERS as int && 0 <= i < r.gauges().len()
                ==> r.gauges()[i].spec_name() != counter_name(k),
        forall|k: int, i: int|
            #![trigger r.counters()[i], gauge_name(k)]
            0 <= k < NUM_GAUGES as int && 0 <= i < r.counters().len()
                ==> r.counters()[i].spec_name() != gauge_name(k),
{
    assert forall|k: int, i: int|
        0 <= k < NUM_COUNTERS as int && 0 <= i < r.counters().len() && (
        #[trigger] r.counters()[i]).spec_name() == #[trigger] counter_name(k) implies i == k by {
        if i != k {
            assert(r.counters()[k].spec_name() == counter_name(k));
            assert(r.counters()[i].spec_name() != r.counters()[k].spec_name());
        }
    }
    assert forall|k: int, i: int|
        0 <= k < NUM_GAUGES as int && 0 <= i < r.gauges().len() && (
        #[trigger] r.gauges()[i]).spec_name() == #[trigger] gauge_name(k) implies i == k by {
        if i != k {
            assert(r.gauges()[k].spec_name() == gauge_name(k));
            assert(r.gauges()[i].spec_name() != r.gauges()[k].spec_name());
        }
    }
    assert forall|k: int, i: int|
        0 <= k < NUM_COUNTERS as int && 0 <= i < r.gauges().len() implies (
        #[trigger] r.gauges()[i]).spec_name() != #[trigger] counter_name(k) by {
        assert(r.counters()[k].spec_name() == counter_name(k));
        assert(r.counters()[k].spec_name() != r.gauges()[i].spec_name());
    }
    assert forall|k: int, i: int|
        0 <= k < NUM_GAUGES as int && 0 <= i < r.counters().len() implies (
        #[trigger] r.counters()[i]).spec_name() != #[trigger] gauge_name(k) by {
        assert(r.gauges()[k].spec_name() == gauge_name(k));
        assert(r.counters()[i].spec_name() != r.gauges()[k].spec_name());
    }
}

} // verus!
