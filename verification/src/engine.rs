//! The event aggregation engine.
//!
//! The host delivers lifecycle events; each one maps to an update of
//! the built-in counters and gauges and a recomputation of the derived
//! answer-seizure-ratio and average-call-duration gauges.  The whole
//! effect of an event is the mathematical transition [`step`] on the
//! built-in metric values, and [`handle_event`] is proved to apply
//! exactly that transition and nothing else.  A derived gauge is
//! recomputed from the counter values current at the contributing
//! event, which is the documented eventual consistency of the design;
//! a zero denominator skips the recomputation.
//!
//! Missing or malformed header fields never stop event processing:
//! the dependent update is skipped and the anomaly is reported back to
//! the caller as [`anomaly_of`] states.

use vstd::prelude::*;
use vstd::string::StringExecFns;
use crate::builtin::CounterId;
use crate::builtin::GaugeId;
use crate::decimal::parse_i64;
use crate::decimal::parse_i64_spec;
use crate::decimal::parse_u64;
use crate::decimal::parse_u64_spec;
use crate::fixed::Fixed;
use crate::fixed::SCALE;
use crate::fixed::clamp_i64;
use crate::fixed::spec_ratio;
use crate::fixed::ratio;
use crate::registry::Registry;
use crate::registry::same_shape;

verus! {

broadcast use crate::metric::lemma_counter_wf;

/// The lifecycle events the engine subscribes to.
#[derive(Clone, Copy, PartialEq, Eq, Structural, Debug)]
pub enum EventKind {
    Heartbeat,
    ChannelCreate,
    ChannelAnswer,
    ChannelHangup,
    ChannelHangupComplete,
    ChannelDestroy,
    RegisterAttempt,
    RegisterFailure,
    Register,
    Unregister,
    RegisterExpire,
}

/// The header fields the engine reads from a delivered event; a `None`
/// is a header the event did not carry.
pub struct Event {
    pub kind: EventKind,
    /// `Call-Direction`.
    pub direction: Option<String>,
    /// `Caller-Channel-Answered-Time`; zero means never answered.
    pub answered_time: Option<String>,
    /// `Hangup-Cause`.
    pub hangup_cause: Option<String>,
    /// `variable_billsec`, in whole seconds.
    pub billsec: Option<String>,
}

/// What an event handler reports when a header it depends on is
/// missing or malformed; the dependent metric update is skipped.
#[derive(Clone, Copy, PartialEq, Eq, Structural, Debug)]
pub enum Anomaly {
    MissingDirection,
    UnknownDirection,
    MissingAnswerTime,
    MissingHangupCause,
    MissingBillsec,
    BadBillsec,
}

#[derive(Clone, Copy, PartialEq, Eq, Structural, Debug)]
pub enum Direction {
    Inbound,
    Outbound,
    Other,
    Missing,
}

pub open spec fn spec_direction(d: Option<String>) -> Direction {
    match d {
        Option::None => Direction::Missing,
        Option::Some(s) => if s@ == "inbound"@ {
            Direction::Inbound
        } else if s@ == "outbound"@ {
            Direction::Outbound
        } else {
            Direction::Other
        },
    }
}

fn direction_of(e: &Event) -> (r: Direction)
    ensures
        r == spec_direction(e.direction),
{
    match &e.direction {
        Option::None => Direction::Missing,
        Option::Some(s) => {
            if *s == String::from_str("inbound") {
                Direction::Inbound
            } else if *s == String::from_str("outbound") {
                Direction::Outbound
            } else {
                Direction::Other
            }
        },
    }
}

/// The built-in metric values, as one mathematical state.
#[verifier::ext_equal]
pub struct EngineState {
    pub heartbeats: int,
    pub sessions_created: int,
    pub sessions_destroyed: int,
    pub sessions_answered: int,
    pub sessions_failed: int,
    pub in_created: int,
    pub in_answered: int,
    pub in_failed: int,
    pub out_created: int,
    pub out_answered: int,
    pub out_failed: int,
    pub registrations: int,
    pub registration_attempts: int,
    pub registration_failures: int,
    pub out_duration: int,
    pub out_hangup: int,
    pub out_hangup_complete: int,
    pub in_duration: int,
    pub in_hangup: int,
    pub in_hangup_complete: int,
    pub active_inbound: int,
    pub active_outbound: int,
    pub out_asr: int,
    pub registrations_active: int,
    pub out_acd: int,
    pub in_acd: int,
    pub in_asr: int,
}

/// The built-in metric values a registry currently holds.
pub open spec fn state_of(r: Registry) -> EngineState {
    EngineState {
        heartbeats: r.counters()[CounterId::Heartbeats.spec_idx()].spec_value(),
        sessions_created: r.counters()[CounterId::SessionsCreated.spec_idx()].spec_value(),
        sessions_destroyed: r.counters()[CounterId::SessionsDestroyed.spec_idx()].spec_value(),
        sessions_answered: r.counters()[CounterId::SessionsAnswered.spec_idx()].spec_value(),
        sessions_failed: r.counters()[CounterId::SessionsFailed.spec_idx()].spec_value(),
        in_created: r.counters()[CounterId::SessionsInboundCreated.spec_idx()].spec_value(),
        in_answered: r.counters()[CounterId::SessionsInboundAnswered.spec_idx()].spec_value(),
        in_failed: r.counters()[CounterId::SessionsInboundFailed.spec_idx()].spec_value(),
        out_created: r.counters()[CounterId::SessionsOutboundCreated.spec_idx()].spec_value(),
        out_answered: r.counters()[CounterId::SessionsOutboundAnswered.spec_idx()].spec_value(),
        out_failed: r.counters()[CounterId::SessionsOutboundFailed.spec_idx()].spec_value(),
        registrations: r.counters()[CounterId::Registrations.spec_idx()].spec_value(),
        registration_attempts: r.counters()[
            CounterId::RegistrationAttempts.spec_idx()
        ].spec_value(),
        registration_failures: r.counters()[
            CounterId::RegistrationFailures.spec_idx()
        ].spec_value(),
        out_duration: r.counters()[
            CounterId::SessionsOutboundCallDurationTotal.spec_idx()
        ].spec_value(),
        out_hangup: r.counters()[CounterId::SessionsOutboundCallHangup.spec_idx()].spec_value(),
        out_hangup_complete: r.counters()[
            CounterId::SessionsOutboundCallHangupComplete.spec_idx()
        ].spec_value(),
        in_duration: r.counters()[
            CounterId::SessionsInboundCallDurationTotal.spec_idx()
        ].spec_value(),
        in_hangup: r.counters()[CounterId::SessionsInboundCallHangup.spec_idx()].spec_value(),
        in_hangup_complete: r.counters()[
            CounterId::SessionsInboundCallHangupComplete.spec_idx()
        ].spec_value(),
        active_inbound: r.gauges()[GaugeId::SessionsActiveInbound.spec_idx()].spec_value(),
        active_outbound: r.gauges()[GaugeId::SessionsActiveOutbound.spec_idx()].spec_value(),
        out_asr: r.gauges()[GaugeId::SessionsOutboundAsr.spec_idx()].spec_value(),
        registrations_active: r.gauges()[GaugeId::RegistrationsActive.spec_idx()].spec_value(),
        out_acd: r.gauges()[GaugeId::SessionsOutboundAcd.spec_idx()].spec_value(),
        in_acd: r.gauges()[GaugeId::SessionsInboundAcd.spec_idx()].spec_value(),
        in_asr: r.gauges()[GaugeId::SessionsInboundAsr.spec_idx()].spec_value(),
    }
}

/// One whole unit up, clamped.
pub open spec fn cadd(v: int) -> int {
    clamp_i64(v + SCALE as int)
}

/// One whole unit down, clamped.
pub open spec fn csub(v: int) -> int {
    clamp_i64(v - SCALE as int)
}

/// The average call duration in whole seconds, scaled back to a
/// fixed-point value: total and count are fixed-point counters.
pub open spec fn acd_value(total: int, count: int) -> int {
    (total / (SCALE as int)) / (count / (SCALE as int)) * (SCALE as int)
}

pub open spec fn step_heartbeat(s: EngineState) -> EngineState {
    EngineState { heartbeats: cadd(s.heartbeats), ..s }
}

pub open spec fn step_channel_create(s: EngineState, e: Event) -> EngineState {
    let s1 = EngineState { sessions_created: cadd(s.sessions_created), ..s };
    match spec_direction(e.direction) {
        Direction::Inbound => {
            let s2 = EngineState {
                active_inbound: cadd(s1.active_inbound),
                in_created: cadd(s1.in_created),
                ..s1
            };
            EngineState { in_asr: spec_ratio(s2.in_answered, s2.in_created), ..s2 }
        },
        Direction::Outbound => {
            let s2 = EngineState {
                active_outbound: cadd(s1.active_outbound),
                out_created: cadd(s1.out_created),
                ..s1
            };
            EngineState { out_asr: spec_ratio(s2.out_answered, s2.out_created), ..s2 }
        },
        _ => s1,
    }
}

pub open spec fn step_channel_answer(s: EngineState, e: Event) -> EngineState {
    let s1 = EngineState { sessions_answered: cadd(s.sessions_answered), ..s };
    match spec_direction(e.direction) {
        Direction::Inbound => {
            let s2 = EngineState { in_answered: cadd(s1.in_answered), ..s1 };
            if s2.in_created == 0 {
                s2
            } else {
                EngineState { in_asr: spec_ratio(s2.in_answered, s2.in_created), ..s2 }
            }
        },
        Direction::Outbound => {
            let s2 = EngineState { out_answered: cadd(s1.out_answered), ..s1 };
            if s2.out_created == 0 {
                s2
            } else {
                EngineState { out_asr: spec_ratio(s2.out_answered, s2.out_created), ..s2 }
            }
        },
        _ => s1,
    }
}

pub open spec fn step_channel_hangup(s: EngineState, e: Event) -> EngineState {
    let s1 = if e.direction is Some {
        if spec_direction(e.direction) == Direction::Inbound {
            EngineState { in_hangup: cadd(s.in_hangup), ..s }
        } else {
            EngineState { out_hangup: cadd(s.out_hangup), ..s }
        }
    } else {
        s
    };
    match e.answered_time {
        Option::Some(t) => if parse_i64_spec(t@) == Some(0int) && e.direction is Some {
            let s2 = match spec_direction(e.direction) {
                Direction::Inbound => EngineState { in_failed: cadd(s1.in_failed), ..s1 },
                Direction::Outbound => EngineState { out_failed: cadd(s1.out_failed), ..s1 },
                _ => s1,
            };
            EngineState { sessions_failed: cadd(s2.sessions_failed), ..s2 }
        } else {
            s1
        },
        Option::None => s1,
    }
}

pub open spec fn step_channel_hangup_complete(s: EngineState, e: Event) -> EngineState {
    match (e.hangup_cause, e.billsec) {
        (Option::Some(cause), Option::Some(bs)) => {
            if cause@ == "NORMAL_CLEARING"@ {
                match parse_u64_spec(bs@) {
                    Option::Some(bill) => {
                        let dd = clamp_i64(bill * (SCALE as int));
                        match spec_direction(e.direction) {
                            Direction::Outbound => {
                                let s1 = EngineState {
                                    out_duration: clamp_i64(s.out_duration + dd),
                                    out_hangup_complete: cadd(s.out_hangup_complete),
                                    ..s
                                };
                                if s1.out_hangup_complete / (SCALE as int) == 0 {
                                    s1
                                } else {
                                    EngineState {
                                        out_acd: acd_value(s1.out_duration, s1.out_hangup_complete),
                                        ..s1
                                    }
                                }
                            },
                            Direction::Inbound => {
                                let s1 = EngineState {
                                    in_duration: clamp_i64(s.in_duration + dd),
                                    in_hangup_complete: cadd(s.in_hangup_complete),
                                    ..s
                                };
                                if s1.in_hangup_complete / (SCALE as int) == 0 {
                                    s1
                                } else {
                                    EngineState {
                                        in_acd: acd_value(s1.in_duration, s1.in_hangup_complete),
                                        ..s1
                                    }
                                }
                            },
                            _ => s,
                        }
                    },
                    Option::None => s,
                }
            } else {
                s
            }
        },
        _ => s,
    }
}

pub open spec fn step_channel_destroy(s: EngineState, e: Event) -> EngineState {
    let s1 = EngineState { sessions_destroyed: cadd(s.sessions_destroyed), ..s };
    match spec_direction(e.direction) {
        Direction::Inbound => EngineState { active_inbound: csub(s1.active_inbound), ..s1 },
        Direction::Outbound => EngineState { active_outbound: csub(s1.active_outbound), ..s1 },
        _ => s1,
    }
}

/// The full transition an event makes on the built-in metric values.
pub open spec fn step(s: EngineState, e: Event) -> EngineState {
    match e.kind {
        EventKind::Heartbeat => step_heartbeat(s),
        EventKind::ChannelCreate => step_channel_create(s, e),
        EventKind::ChannelAnswer => step_channel_answer(s, e),
        EventKind::ChannelHangup => step_channel_hangup(s, e),
        EventKind::ChannelHangupComplete => step_channel_hangup_complete(s, e),
        EventKind::ChannelDestroy => step_channel_destroy(s, e),
        EventKind::RegisterAttempt => EngineState {
            registration_attempts: cadd(s.registration_attempts),
            ..s
        },
        EventKind::RegisterFailure => EngineState {
            registration_failures: cadd(s.registration_failures),
            ..s
        },
        EventKind::Register => EngineState {
            registrations: cadd(s.registrations),
            registrations_active: cadd(s.registrations_active),
            ..s
        },
        EventKind::Unregister => EngineState {
            registrations_active: csub(s.registrations_active),
            ..s
        },
        EventKind::RegisterExpire => EngineState {
            registrations_active: csub(s.registrations_active),
            ..s
        },
    }
}

/// The anomaly an event surfaces, a function of the event alone.
pub open spec fn anomaly_of(e: Event) -> Option<Anomaly> {
    match e.kind {
        EventKind::ChannelCreate => if e.direction is None {
            Some(Anomaly::MissingDirection)
        } else {
            None
        },
        EventKind::ChannelAnswer => if e.direction is None {
            Some(Anomaly::MissingDirection)
        } else {
            None
        },
        EventKind::ChannelHangup => match e.answered_time {
            Option::None => Some(Anomaly::MissingAnswerTime),
            Option::Some(t) => if parse_i64_spec(t@) == Some(0int) {
                match spec_direction(e.direction) {
                    Direction::Missing => Some(Anomaly::MissingDirection),
                    Direction::Other => Some(Anomaly::UnknownDirection),
                    _ => None,
                }
            } else {
                None
            },
        },
        EventKind::ChannelHangupComplete => match e.hangup_cause {
            Option::None => Some(Anomaly::MissingHangupCause),
            Option::Some(cause) => if cause@ == "NORMAL_CLEARING"@ {
                match e.billsec {
                    Option::None => Some(Anomaly::MissingBillsec),
                    Option::Some(bs) => if parse_u64_spec(bs@) is None {
                        Some(Anomaly::BadBillsec)
                    } else {
                        None
                    },
                }
            } else {
                None
            },
        },
        _ => None,
    }
}

/// Applies one delivered event to the registry: exactly the transition
/// [`step`] on the built-in metric values, no change to any other
/// metric, and the anomaly report [`anomaly_of`] prescribes.
pub fn handle_event(reg: &mut Registry, e: &Event) -> (r: Option<Anomaly>)
    requires
        old(reg).wf(),
    ensures
        final(reg).wf(),
        same_shape(*old(reg), *final(reg)),
        state_of(*final(reg)) == step(state_of(*old(reg)), *e),
        r == anomaly_of(*e),
{
    match e.kind {
        EventKind::Heartbeat => {
            reg.counter_add(CounterId::Heartbeats.idx(), Fixed::one());
            proof {
                assert(state_of(*reg) =~= step(state_of(*old(reg)), *e));
            }
            None
        },
        EventKind::ChannelCreate => handle_channel_create(reg, e),
        EventKind::ChannelAnswer => handle_channel_answer(reg, e),
        EventKind::ChannelHangup => handle_channel_hangup(reg, e),
        EventKind::ChannelHangupComplete => handle_channel_hangup_complete(reg, e),
        EventKind::ChannelDestroy => handle_channel_destroy(reg, e),
        EventKind::RegisterAttempt => {
            reg.counter_add(CounterId::RegistrationAttempts.idx(), Fixed::one());
            proof {
                assert(state_of(*reg) =~= step(state_of(*old(reg)), *e));
            }
            None
        },
        EventKind::RegisterFailure => {
            reg.counter_add(CounterId::RegistrationFailures.idx(), Fixed::one());
            proof {
                assert(state_of(*reg) =~= step(state_of(*old(reg)), *e));
            }
            None
        },
        EventKind::Register => {
            reg.counter_add(CounterId::Registrations.idx(), Fixed::one());
            reg.gauge_add(GaugeId::RegistrationsActive.idx(), Fixed::one());
            proof {
                assert(state_of(*reg) =~= step(state_of(*old(reg)), *e));
            }
            None
        },
        EventKind::Unregister => {
            reg.gauge_sub(GaugeId::RegistrationsActive.idx(), Fixed::one());
            proof {
                assert(state_of(*reg) =~= step(state_of(*old(reg)), *e));
            }
            None
        },
        EventKind::RegisterExpire => {
            reg.gauge_sub(GaugeId::RegistrationsActive.idx(), Fixed::one());
            proof {
                assert(state_of(*reg) =~= step(state_of(*old(reg)), *e));
            }
            None
        },
    }
}

fn handle_channel_create(reg: &mut Registry, e: &Event) -> (r: Option<Anomaly>)
    requires
        old(reg).wf(),
        e.kind == EventKind::ChannelCreate,
    ensures
        final(reg).wf(),
        same_shape(*old(reg), *final(reg)),
        state_of(*final(reg)) == step(state_of(*old(reg)), *e),
        r == anomaly_of(*e),
{
    reg.counter_add(CounterId::SessionsCreated.idx(), Fixed::one());
    let d = direction_of(e);
    match d {
        Direction::Inbound => {
            reg.gauge_add(GaugeId::SessionsActiveInbound.idx(), Fixed::one());
            reg.counter_add(CounterId::SessionsInboundCreated.idx(), Fixed::one());
            let total = reg.counter_value(CounterId::SessionsInboundCreated.idx());
            let answered = reg.counter_value(CounterId::SessionsInboundAnswered.idx());
            let asr = ratio(answered, total);
            reg.gauge_set(GaugeId::SessionsInboundAsr.idx(), asr);
        },
        Direction::Outbound => {
            reg.gauge_add(GaugeId::SessionsActiveOutbound.idx(), Fixed::one());
            reg.counter_add(CounterId::SessionsOutboundCreated.idx(), Fixed::one());
            let total = reg.counter_value(CounterId::SessionsOutboundCreated.idx());
            let answered = reg.counter_value(CounterId::SessionsOutboundAnswered.idx());
            let asr = ratio(answered, total);
            reg.gauge_set(GaugeId::SessionsOutboundAsr.idx(), asr);
        },
        _ => {},
    }
    proof {
        assert(state_of(*reg) =~= step(state_of(*old(reg)), *e));
    }
    if matches!(d, Direction::Missing) {
        Some(Anomaly::MissingDirection)
    } else {
        None
    }
}

fn handle_channel_answer(reg: &mut Registry, e: &Event) -> (r: Option<Anomaly>)
    requires
        old(reg).wf(),
        e.kind == EventKind::ChannelAnswer,
    ensures
        final(reg).wf(),
        same_shape(*old(reg), *final(reg)),
        state_of(*final(reg)) == step(state_of(*old(reg)), *e),
        r == anomaly_of(*e),
{
    reg.counter_add(CounterId::SessionsAnswered.idx(), Fixed::one());
    let d = direction_of(e);
    match d {
        Direction::Inbound => {
            let answered = reg.counter_add(
                CounterId::SessionsInboundAnswered.idx(),
                Fixed::one(),
            );
            let total = reg.counter_value(CounterId::SessionsInboundCreated.idx());
            if total.micros() != 0 {
                let asr = ratio(answered, total);
                reg.gauge_set(GaugeId::SessionsInboundAsr.idx(), asr);
            }
        },
        Direction::Outbound => {
            let answered = reg.counter_add(
                CounterId::SessionsOutboundAnswered.idx(),
                Fixed::one(),
            );
            let total = reg.counter_value(CounterId::SessionsOutboundCreated.idx());
            if total.micros() != 0 {
                let asr = ratio(answered, total);
                reg.gauge_set(GaugeId::SessionsOutboundAsr.idx(), asr);
            }
        },
        _ => {},
    }
    proof {
        assert(state_of(*reg) =~= step(state_of(*old(reg)), *e));
    }
    if matches!(d, Direction::Missing) {
        Some(Anomaly::MissingDirection)
    } else {
        None
    }
}

fn handle_channel_hangup(reg: &mut Registry, e: &Event) -> (r: Option<Anomaly>)
    requires
        old(reg).wf(),
        e.kind == EventKind::ChannelHangup,
    ensures
        final(reg).wf(),
        same_shape(*old(reg), *final(reg)),
        state_of(*final(reg)) == step(state_of(*old(reg)), *e),
        r == anomaly_of(*e),
{
    let d = direction_of(e);
    if !matches!(d, Direction::Missing) {
        if matches!(d, Direction::Inbound) {
            reg.counter_add(CounterId::SessionsInboundCallHangup.idx(), Fixed::one());
        } else {
            reg.counter_add(CounterId::SessionsOutboundCallHangup.idx(), Fixed::one());
        }
    }
    let mut anomaly: Option<Anomaly> = None;
    match &e.answered_time {
        Option::None => {
            anomaly = Some(Anomaly::MissingAnswerTime);
        },
        Option::Some(t) => {
            match parse_i64(t.as_str()) {
                Option::Some(ts) => {
                    if ts == 0 {
                        match d {
                            Direction::Inbound => {
                                reg.counter_add(
                                    CounterId::SessionsInboundFailed.idx(),
                                    Fixed::one(),
                                );
                            },
                            Direction::Outbound => {
                                reg.counter_add(
                                    CounterId::SessionsOutboundFailed.idx(),
                                    Fixed::one(),
                                );
                            },
                            Direction::Other => {
                                anomaly = Some(Anomaly::UnknownDirection);
                            },
                            Direction::Missing => {},
                        }
                        if !matches!(d, Direction::Missing) {
                            reg.counter_add(CounterId::SessionsFailed.idx(), Fixed::one());
                        } else {
                            anomaly = Some(Anomaly::MissingDirection);
                        }
                    }
                },
                Option::None => {},
            }
        },
    }
    proof {
        assert(state_of(*reg) =~= step(state_of(*old(reg)), *e));
    }
    anomaly
}

fn handle_channel_hangup_complete(reg: &mut Registry, e: &Event) -> (r: Option<Anomaly>)
    requires
        old(reg).wf(),
        e.kind == EventKind::ChannelHangupComplete,
    ensures
        final(reg).wf(),
        same_shape(*old(reg), *final(reg)),
        state_of(*final(reg)) == step(state_of(*old(reg)), *e),
        r == anomaly_of(*e),
{
    let d = direction_of(e);
    match &e.hangup_cause {
        Option::None => {
            proof {
                assert(state_of(*reg) =~= step(state_of(*old(reg)), *e));
            }
            Some(Anomaly::MissingHangupCause)
        },
        Option::Some(cause) => {
            if *cause == String::from_str("NORMAL_CLEARING") {
                match &e.billsec {
                    Option::None => {
                        proof {
                            assert(state_of(*reg) =~= step(state_of(*old(reg)), *e));
                        }
                        Some(Anomaly::MissingBillsec)
                    },
                    Option::Some(bs) => {
                        match parse_u64(bs.as_str()) {
                            Option::None => {
                                proof {
                                    assert(state_of(*reg) =~= step(state_of(*old(reg)), *e));
                                }
                                Some(Anomaly::BadBillsec)
                            },
                            Option::Some(bill) => {
                                match d {
                                    Direction::Outbound => {
                                        apply_completed_call(
                                            reg,
                                            bill,
                                            CounterId::SessionsOutboundCallDurationTotal,
                                            CounterId::SessionsOutboundCallHangupComplete,
                                            GaugeId::SessionsOutboundAcd,
                                        );
                                    },
                                    Direction::Inbound => {
                                        apply_completed_call(
                                            reg,
                                            bill,
                                            CounterId::SessionsInboundCallDurationTotal,
                                            CounterId::SessionsInboundCallHangupComplete,
                                            GaugeId::SessionsInboundAcd,
                                        );
                                    },
                                    _ => {},
                                }
                                proof {
                                    assert(state_of(*reg) =~= step(state_of(*old(reg)), *e));
                                }
                                None
                            },
                        }
                    },
                }
            } else {
                proof {
                    assert(state_of(*reg) =~= step(state_of(*old(reg)), *e));
                }
                None
            }
        },
    }
}

/// Adds the billed seconds to the direction's total-duration counter,
/// counts the completed hangup, and recomputes that direction's
/// average call duration from the two counter values just written.
fn apply_completed_call(
    reg: &mut Registry,
    bill: u64,
    duration_id: CounterId,
    count_id: CounterId,
    acd_id: GaugeId,
)
    requires
        old(reg).wf(),
        duration_id.spec_idx() != count_id.spec_idx(),
    ensures
        final(reg).wf(),
        same_shape(*old(reg), *final(reg)),
        ({
            let dd = clamp_i64(bill * (SCALE as int));
            let total = clamp_i64(
                old(reg).counters()[duration_id.spec_idx()].spec_value() + dd,
            );
            let count = cadd(old(reg).counters()[count_id.spec_idx()].spec_value());
            &&& final(reg).counters()[duration_id.spec_idx()].spec_value() == total
            &&& final(reg).counters()[count_id.spec_idx()].spec_value() == count
            &&& forall|t: int|
                0 <= t < old(reg).counters().len() && t != duration_id.spec_idx() && t
                    != count_id.spec_idx() ==> final(reg).counters()[t] == old(reg).counters()[t]
            &&& (if count / (SCALE as int) == 0 {
                final(reg).gauges() == old(reg).gauges()
            } else {
                &&& final(reg).gauges()[acd_id.spec_idx()].spec_value() == acd_value(total, count)
                &&& forall|t: int|
                    0 <= t < old(reg).gauges().len() && t != acd_id.spec_idx()
                        ==> final(reg).gauges()[t] == old(reg).gauges()[t]
                &&& final(reg).gauges().len() == old(reg).gauges().len()
            })
        }),
{
    let delta = seconds_to_fixed(bill);
    reg.counter_add(duration_id.idx(), delta);
    let count = reg.counter_add(count_id.idx(), Fixed::one());
    let total = reg.counter_value(duration_id.idx());
    proof {
        assert(reg.counters()[duration_id.spec_idx()].wf());
        assert(total@ >= 0);
        assert(count@ >= 0);
    }
    let total_seconds: u64 = total.micros() as u64 / 1_000_000;
    let count_whole: u64 = count.micros() as u64 / 1_000_000;
    if count_whole != 0 {
        proof {
            lemma_acd_in_range(total@, count@);
        }
        let acd: u64 = total_seconds / count_whole * 1_000_000;
        reg.gauge_set(acd_id.idx(), Fixed::from_micros(acd as i64));
    }
}

proof fn lemma_acd_in_range(total: int, count: int)
    requires
        0 <= total <= i64::MAX as int,
        0 <= count <= i64::MAX as int,
        count / (SCALE as int) != 0,
    ensures
        0 <= (total / (SCALE as int)) / (count / (SCALE as int)) * (SCALE as int) <= i64::MAX as int,
{
    let ts = total / (SCALE as int);
    let cw = count / (SCALE as int);
    assert(ts >= 0 && cw >= 1);
    assert(ts <= 9_223_372_036_854int);
    assert(ts / cw >= 0 && ts / cw <= ts) by (nonlinear_arith)
        requires
            ts >= 0 && cw >= 1,
    ;
}

/// The billed seconds as a fixed-point delta, clamped from above.
fn seconds_to_fixed(bill: u64) -> (r: Fixed)
    ensures
        r@ == clamp_i64(bill * (SCALE as int)),
{
    let wide: u128 = bill as u128 * SCALE as u128;
    if wide > i64::MAX as u128 {
        Fixed::from_micros(i64::MAX)
    } else {
        Fixed::from_micros(wide as i64)
    }
}

fn handle_channel_destroy(reg: &mut Registry, e: &Event) -> (r: Option<Anomaly>)
    requires
        old(reg).wf(),
        e.kind == EventKind::ChannelDestroy,
    ensures
        final(reg).wf(),
        same_shape(*old(reg), *final(reg)),
        state_of(*final(reg)) == step(state_of(*old(reg)), *e),
        r == anomaly_of(*e),
{
    reg.counter_add(CounterId::SessionsDestroyed.idx(), Fixed::one());
    let d = direction_of(e);
    match d {
        Direction::Inbound => {
            reg.gauge_sub(GaugeId::SessionsActiveInbound.idx(), Fixed::one());
        },
        Direction::Outbound => {
            reg.gauge_sub(GaugeId::SessionsActiveOutbound.idx(), Fixed::one());
        },
        _ => {},
    }
    proof {
        assert(state_of(*reg) =~= step(state_of(*old(reg)), *e));
    }
    None
}

/// The event kinds the engine asks the host to deliver, in the order
/// the host binds them at startup.
pub fn subscriptions() -> (r: Vec<EventKind>)
    ensures
        r@ == seq![
            EventKind::Heartbeat,
            EventKind::ChannelCreate,
            EventKind::ChannelAnswer,
            EventKind::ChannelHangup,
            EventKind::ChannelHangupComplete,
            EventKind::ChannelDestroy,
            EventKind::RegisterAttempt,
            EventKind::RegisterFailure,
            EventKind::Register,
            EventKind::Unregister,
            EventKind::RegisterExpire,
        ],
{
    let mut v: Vec<EventKind> = Vec::new();
    v.push(EventKind::Heartbeat);
    v.push(EventKind::ChannelCreate);
    v.push(EventKind::ChannelAnswer);
    v.push(EventKind::ChannelHangup);
    v.push(EventKind::ChannelHangupComplete);
    v.push(EventKind::ChannelDestroy);
    v.push(EventKind::RegisterAttempt);
    v.push(EventKind::RegisterFailure);
    v.push(EventKind::Register);
    v.push(EventKind::Unregister);
    v.push(EventKind::RegisterExpire);
    proof {
        assert(v@ =~= seq![
            EventKind::Heartbeat,
            EventKind::ChannelCreate,
            EventKind::ChannelAnswer,
            EventKind::ChannelHangup,
            EventKind::ChannelHangupComplete,
            EventKind::ChannelDestroy,
            EventKind::RegisterAttempt,
            EventKind::RegisterFailure,
            EventKind::Register,
            EventKind::Unregister,
            EventKind::RegisterExpire,
        ]);
    }
    v
}

/// Records every subscription handle the host returns at startup so
/// all of them can be released together at shutdown.
pub struct SubscriptionLedger {
    handles: Vec<u64>,
}

impl SubscriptionLedger {
    pub closed spec fn view(self) -> Seq<u64> {
        self.handles@
    }

    pub fn new() -> (r: SubscriptionLedger)
        ensures
            r.view() == Seq::<u64>::empty(),
    {
        SubscriptionLedger { handles: Vec::new() }
    }

    /// Remembers one handle the host handed back.
    pub fn record(&mut self, handle: u64)
        ensures
            final(self).view() == old(self).view().push(handle),
    {
        self.handles.push(handle);
    }

    pub fn len(&self) -> (r: usize)
        ensures
            r == self.view().len(),
    {
        self.handles.len()
    }

    /// Hands every recorded handle out for release and forgets them.
    pub fn take_all(&mut self) -> (r: Vec<u64>)
        ensures
            r@ == old(self).view(),
            final(self).view() == Seq::<u64>::empty(),
    {
        let mut out: Vec<u64> = Vec::new();
        core::mem::swap(&mut out, &mut self.handles);
        out
    }
}

} // verus!
