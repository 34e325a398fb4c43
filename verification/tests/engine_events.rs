use mod_prometheus::builtin::{CounterId, GaugeId};
use mod_prometheus::engine::{
    handle_event, subscriptions, Anomaly, Event, EventKind, SubscriptionLedger,
};
use mod_prometheus::fixed::SCALE;
use mod_prometheus::registry::Registry;

fn event(kind: EventKind) -> Event {
    Event {
        kind,
        direction: None,
        answered_time: None,
        hangup_cause: None,
        billsec: None,
    }
}

fn with_direction(kind: EventKind, dir: &str) -> Event {
    Event {
        direction: Some(dir.to_string()),
        ..event(kind)
    }
}

fn cval(reg: &Registry, id: CounterId) -> i64 {
    reg.counter_value(id.idx()).micros()
}

fn gval(reg: &Registry, id: GaugeId) -> i64 {
    reg.gauge_value(id.idx()).micros()
}

#[test]
fn heartbeat_increments_the_heartbeat_counter() {
    let mut reg = Registry::new();
    assert_eq!(handle_event(&mut reg, &event(EventKind::Heartbeat)), None);
    assert_eq!(handle_event(&mut reg, &event(EventKind::Heartbeat)), None);
    assert_eq!(cval(&reg, CounterId::Heartbeats), 2 * SCALE);
}

#[test]
fn inbound_create_updates_counters_gauge_and_asr() {
    let mut reg = Registry::new();
    // four inbound calls created, two of them answered, before the event
    for _ in 0..4 {
        handle_event(&mut reg, &with_direction(EventKind::ChannelCreate, "inbound"));
    }
    for _ in 0..2 {
        handle_event(&mut reg, &with_direction(EventKind::ChannelAnswer, "inbound"));
    }
    let created_before = cval(&reg, CounterId::SessionsCreated);
    let in_created_before = cval(&reg, CounterId::SessionsInboundCreated);
    let active_before = gval(&reg, GaugeId::SessionsActiveInbound);

    let r = handle_event(&mut reg, &with_direction(EventKind::ChannelCreate, "inbound"));
    assert_eq!(r, None);
    assert_eq!(cval(&reg, CounterId::SessionsCreated), created_before + SCALE);
    assert_eq!(
        cval(&reg, CounterId::SessionsInboundCreated),
        in_created_before + SCALE
    );
    assert_eq!(
        gval(&reg, GaugeId::SessionsActiveInbound),
        active_before + SCALE
    );
    // answered = 2, created = 5: the ratio recomputes to 0.4
    assert_eq!(gval(&reg, GaugeId::SessionsInboundAsr), 400_000);
}

#[test]
fn outbound_answer_recomputes_the_outbound_asr() {
    let mut reg = Registry::new();
    for _ in 0..2 {
        handle_event(&mut reg, &with_direction(EventKind::ChannelCreate, "outbound"));
    }
    handle_event(&mut reg, &with_direction(EventKind::ChannelAnswer, "outbound"));
    assert_eq!(cval(&reg, CounterId::SessionsAnswered), SCALE);
    assert_eq!(cval(&reg, CounterId::SessionsOutboundAnswered), SCALE);
    assert_eq!(gval(&reg, GaugeId::SessionsOutboundAsr), 500_000);
}

#[test]
fn answer_with_no_created_calls_skips_the_asr() {
    let mut reg = Registry::new();
    let r = handle_event(&mut reg, &with_direction(EventKind::ChannelAnswer, "inbound"));
    assert_eq!(r, None);
    assert_eq!(cval(&reg, CounterId::SessionsInboundAnswered), SCALE);
    assert_eq!(gval(&reg, GaugeId::SessionsInboundAsr), 0);
}

#[test]
fn create_without_direction_reports_the_anomaly() {
    let mut reg = Registry::new();
    let r = handle_event(&mut reg, &event(EventKind::ChannelCreate));
    assert_eq!(r, Some(Anomaly::MissingDirection));
    assert_eq!(cval(&reg, CounterId::SessionsCreated), SCALE);
    assert_eq!(cval(&reg, CounterId::SessionsInboundCreated), 0);
    assert_eq!(cval(&reg, CounterId::SessionsOutboundCreated), 0);
}

#[test]
fn hangup_with_zero_answer_time_counts_a_failed_call() {
    let mut reg = Registry::new();
    let e = Event {
        answered_time: Some("0".to_string()),
        ..with_direction(EventKind::ChannelHangup, "inbound")
    };
    assert_eq!(handle_event(&mut reg, &e), None);
    assert_eq!(cval(&reg, CounterId::SessionsInboundCallHangup), SCALE);
    assert_eq!(cval(&reg, CounterId::SessionsInboundFailed), SCALE);
    assert_eq!(cval(&reg, CounterId::SessionsFailed), SCALE);
    assert_eq!(cval(&reg, CounterId::SessionsOutboundFailed), 0);
}

#[test]
fn hangup_with_nonzero_answer_time_counts_no_failure() {
    let mut reg = Registry::new();
    let e = Event {
        answered_time: Some("1714501123".to_string()),
        ..with_direction(EventKind::ChannelHangup, "outbound")
    };
    assert_eq!(handle_event(&mut reg, &e), None);
    assert_eq!(cval(&reg, CounterId::SessionsOutboundCallHangup), SCALE);
    assert_eq!(cval(&reg, CounterId::SessionsFailed), 0);
}

#[test]
fn hangup_without_answer_time_reports_the_anomaly() {
    let mut reg = Registry::new();
    let e = with_direction(EventKind::ChannelHangup, "inbound");
    assert_eq!(handle_event(&mut reg, &e), Some(Anomaly::MissingAnswerTime));
    // the hangup counter still moves; the failure accounting is skipped
    assert_eq!(cval(&reg, CounterId::SessionsInboundCallHangup), SCALE);
    assert_eq!(cval(&reg, CounterId::SessionsFailed), 0);
}

#[test]
fn hangup_with_unknown_direction_reports_the_anomaly() {
    let mut reg = Registry::new();
    let e = Event {
        answered_time: Some("0".to_string()),
        ..with_direction(EventKind::ChannelHangup, "sideways")
    };
    assert_eq!(handle_event(&mut reg, &e), Some(Anomaly::UnknownDirection));
    // a non-inbound direction counts as an outbound hangup, and the
    // global failed counter still moves for a present direction
    assert_eq!(cval(&reg, CounterId::SessionsOutboundCallHangup), SCALE);
    assert_eq!(cval(&reg, CounterId::SessionsFailed), SCALE);
    assert_eq!(cval(&reg, CounterId::SessionsOutboundFailed), 0);
}

#[test]
fn completed_outbound_call_accumulates_duration_and_acd() {
    let mut reg = Registry::new();
    let e = Event {
        hangup_cause: Some("NORMAL_CLEARING".to_string()),
        billsec: Some("30".to_string()),
        ..with_direction(EventKind::ChannelHangupComplete, "outbound")
    };
    assert_eq!(handle_event(&mut reg, &e), None);
    assert_eq!(
        cval(&reg, CounterId::SessionsOutboundCallDurationTotal),
        30 * SCALE
    );
    assert_eq!(
        cval(&reg, CounterId::SessionsOutboundCallHangupComplete),
        SCALE
    );
    assert_eq!(gval(&reg, GaugeId::SessionsOutboundAcd), 30 * SCALE);
}

#[test]
fn acd_truncates_to_whole_seconds() {
    let mut reg = Registry::new();
    for secs in ["10", "25"] {
        let e = Event {
            hangup_cause: Some("NORMAL_CLEARING".to_string()),
            billsec: Some(secs.to_string()),
            ..with_direction(EventKind::ChannelHangupComplete, "inbound")
        };
        assert_eq!(handle_event(&mut reg, &e), None);
    }
    assert_eq!(
        cval(&reg, CounterId::SessionsInboundCallDurationTotal),
        35 * SCALE
    );
    // 35 seconds over 2 calls truncates to 17
    assert_eq!(gval(&reg, GaugeId::SessionsInboundAcd), 17 * SCALE);
}

#[test]
fn bad_billsec_leaves_duration_state_unchanged() {
    let mut reg = Registry::new();
    let e = Event {
        hangup_cause: Some("NORMAL_CLEARING".to_string()),
        billsec: Some("thirty".to_string()),
        ..with_direction(EventKind::ChannelHangupComplete, "outbound")
    };
    assert_eq!(handle_event(&mut reg, &e), Some(Anomaly::BadBillsec));
    assert_eq!(cval(&reg, CounterId::SessionsOutboundCallDurationTotal), 0);
    assert_eq!(cval(&reg, CounterId::SessionsOutboundCallHangupComplete), 0);
    assert_eq!(gval(&reg, GaugeId::SessionsOutboundAcd), 0);
    assert_eq!(gval(&reg, GaugeId::SessionsInboundAcd), 0);
}

#[test]
fn missing_billsec_and_cause_report_their_anomalies() {
    let mut reg = Registry::new();
    let no_cause = with_direction(EventKind::ChannelHangupComplete, "outbound");
    assert_eq!(
        handle_event(&mut reg, &no_cause),
        Some(Anomaly::MissingHangupCause)
    );
    let no_billsec = Event {
        hangup_cause: Some("NORMAL_CLEARING".to_string()),
        ..with_direction(EventKind::ChannelHangupComplete, "outbound")
    };
    assert_eq!(
        handle_event(&mut reg, &no_billsec),
        Some(Anomaly::MissingBillsec)
    );
    let other_cause = Event {
        hangup_cause: Some("ORIGINATOR_CANCEL".to_string()),
        billsec: Some("30".to_string()),
        ..with_direction(EventKind::ChannelHangupComplete, "outbound")
    };
    assert_eq!(handle_event(&mut reg, &other_cause), None);
    assert_eq!(cval(&reg, CounterId::SessionsOutboundCallDurationTotal), 0);
}

#[test]
fn destroy_decrements_the_directional_active_gauge() {
    let mut reg = Registry::new();
    handle_event(&mut reg, &with_direction(EventKind::ChannelCreate, "inbound"));
    handle_event(&mut reg, &with_direction(EventKind::ChannelCreate, "inbound"));
    handle_event(&mut reg, &with_direction(EventKind::ChannelDestroy, "inbound"));
    assert_eq!(cval(&reg, CounterId::SessionsDestroyed), SCALE);
    assert_eq!(gval(&reg, GaugeId::SessionsActiveInbound), SCALE);
    // destroys without a matching create push the gauge below zero
    handle_event(&mut reg, &with_direction(EventKind::ChannelDestroy, "outbound"));
    assert_eq!(gval(&reg, GaugeId::SessionsActiveOutbound), -SCALE);
}

#[test]
fn registration_events_move_their_counters_and_gauge() {
    let mut reg = Registry::new();
    handle_event(&mut reg, &event(EventKind::RegisterAttempt));
    handle_event(&mut reg, &event(EventKind::RegisterAttempt));
    handle_event(&mut reg, &event(EventKind::RegisterFailure));
    handle_event(&mut reg, &event(EventKind::Register));
    handle_event(&mut reg, &event(EventKind::Register));
    handle_event(&mut reg, &event(EventKind::Unregister));
    handle_event(&mut reg, &event(EventKind::RegisterExpire));
    assert_eq!(cval(&reg, CounterId::RegistrationAttempts), 2 * SCALE);
    assert_eq!(cval(&reg, CounterId::RegistrationFailures), SCALE);
    assert_eq!(cval(&reg, CounterId::Registrations), 2 * SCALE);
    assert_eq!(gval(&reg, GaugeId::RegistrationsActive), 0);
}

#[test]
fn subscription_list_covers_every_bound_event() {
    let subs = subscriptions();
    assert_eq!(subs.len(), 11);
    assert_eq!(subs[0], EventKind::Heartbeat);
    assert_eq!(subs[4], EventKind::ChannelHangupComplete);
    assert_eq!(subs[10], EventKind::RegisterExpire);
}

#[test]
fn subscription_ledger_hands_back_everything_once() {
    let mut ledger = SubscriptionLedger::new();
    assert_eq!(ledger.len(), 0);
    ledger.record(7);
    ledger.record(9);
    ledger.record(12);
    assert_eq!(ledger.len(), 3);
    let handles = ledger.take_all();
    assert_eq!(handles, vec![7, 9, 12]);
    assert_eq!(ledger.len(), 0);
    assert_eq!(ledger.take_all(), Vec::<u64>::new());
}

#[test]
fn create_with_unrecognized_direction_touches_only_the_global_counter() {
    let mut reg = Registry::new();
    let r = handle_event(&mut reg, &with_direction(EventKind::ChannelCreate, "internal"));
    assert_eq!(r, None);
    assert_eq!(cval(&reg, CounterId::SessionsCreated), SCALE);
    assert_eq!(cval(&reg, CounterId::SessionsInboundCreated), 0);
    assert_eq!(cval(&reg, CounterId::SessionsOutboundCreated), 0);
    assert_eq!(gval(&reg, GaugeId::SessionsActiveInbound), 0);
    assert_eq!(gval(&reg, GaugeId::SessionsActiveOutbound), 0);
}
