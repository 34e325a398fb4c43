use mod_prometheus::builtin::{GaugeId, NUM_COUNTERS, NUM_GAUGES};
use mod_prometheus::command::{
    counter_increment_cmd, error_text, gauge_decrement_cmd, gauge_increment_cmd, gauge_set_cmd,
    parse_command, CommandError,
};
use mod_prometheus::engine::{handle_event, Event, EventKind};
use mod_prometheus::expo::snapshot_text;
use mod_prometheus::fixed::SCALE;
use mod_prometheus::registry::Registry;

#[test]
fn parse_command_splits_name_and_value() {
    let (name, v) = parse_command("mycounter 3.5").unwrap();
    assert_eq!(name, "mycounter");
    assert_eq!(v.micros(), 3_500_000);
    let (name, v) = parse_command("mycounter").unwrap();
    assert_eq!(name, "mycounter");
    assert_eq!(v.micros(), SCALE);
    // anything after the second token is ignored
    let (name, v) = parse_command("mycounter 2 junk here").unwrap();
    assert_eq!(name, "mycounter");
    assert_eq!(v.micros(), 2 * SCALE);
    assert!(parse_command("mycounter abc").is_none());
    // a doubled space makes an empty, unparseable value token
    assert!(parse_command("mycounter  2").is_none());
}

#[test]
fn counter_increment_command_creates_then_accumulates() {
    let mut reg = Registry::new();
    let r = counter_increment_cmd(&mut reg, "mycounter 3.5");
    assert_eq!(r, Ok("+OK 3.5".to_string()));
    let r = counter_increment_cmd(&mut reg, "mycounter");
    assert_eq!(r, Ok("+OK 4.5".to_string()));
    assert_eq!(reg.num_counters(), NUM_COUNTERS + 1);
    let i = reg.find_counter(&"mycounter".to_string()).unwrap();
    assert_eq!(reg.counter_value(i).micros(), 4_500_000);
}

#[test]
fn counter_increment_command_rejects_bad_input() {
    let mut reg = Registry::new();
    assert_eq!(
        counter_increment_cmd(&mut reg, "mycounter notanumber"),
        Err(CommandError::InvalidValue)
    );
    assert_eq!(
        counter_increment_cmd(&mut reg, "mycounter -1"),
        Err(CommandError::NegativeCounterDelta)
    );
    assert_eq!(
        counter_increment_cmd(&mut reg, "freeswitch_outbound_asr 1"),
        Err(CommandError::WrongMetricKind)
    );
    assert_eq!(reg.num_counters(), NUM_COUNTERS);
}

#[test]
fn gauge_commands_set_and_adjust() {
    let mut reg = Registry::new();
    assert_eq!(
        gauge_set_cmd(&mut reg, "mygauge 10"),
        Ok("+OK 10".to_string())
    );
    assert_eq!(
        gauge_increment_cmd(&mut reg, "mygauge 3"),
        Ok("+OK 13".to_string())
    );
    assert_eq!(
        gauge_decrement_cmd(&mut reg, "mygauge 4.5"),
        Ok("+OK 8.5".to_string())
    );
    // default adjustment is one whole unit; gauges may go negative
    assert_eq!(
        gauge_decrement_cmd(&mut reg, "mygauge"),
        Ok("+OK 7.5".to_string())
    );
    assert_eq!(
        gauge_decrement_cmd(&mut reg, "mygauge 20"),
        Ok("+OK -12.5".to_string())
    );
    assert_eq!(reg.num_gauges(), NUM_GAUGES + 1);
}

#[test]
fn gauge_commands_reject_bad_input() {
    let mut reg = Registry::new();
    assert_eq!(
        gauge_set_cmd(&mut reg, "mygauge 1.2.3"),
        Err(CommandError::InvalidValue)
    );
    assert_eq!(
        gauge_increment_cmd(&mut reg, "freeswitch_heartbeats_total 1"),
        Err(CommandError::WrongMetricKind)
    );
    assert_eq!(reg.num_gauges(), NUM_GAUGES);
}

#[test]
fn command_error_text_is_what_the_caller_sees() {
    assert_eq!(error_text(CommandError::InvalidValue), "Invalid metric value");
    assert_eq!(
        error_text(CommandError::WrongMetricKind),
        "Metric name is bound to the other metric kind"
    );
    assert_eq!(
        error_text(CommandError::NegativeCounterDelta),
        "Counter increment must not be negative"
    );
}

#[test]
fn startup_snapshot_lists_every_builtin_once_at_zero() {
    let reg = Registry::new();
    let text = snapshot_text(&reg);
    let lines: Vec<&str> = text.lines().collect();
    // three lines per metric: help, type, value
    assert_eq!(lines.len(), 3 * (NUM_COUNTERS + NUM_GAUGES));
    let mut names: Vec<String> = Vec::new();
    for i in 0..reg.num_counters() {
        names.push(reg.counter_at(i).name().clone());
    }
    for i in 0..reg.num_gauges() {
        names.push(reg.gauge_at(i).name().clone());
    }
    for name in &names {
        let value_line = format!("{} 0", name);
        let hits = lines.iter().filter(|l| **l == value_line).count();
        assert_eq!(hits, 1, "one zero value line for {}", name);
    }
}

#[test]
fn snapshot_blocks_carry_help_type_and_value() {
    let reg = Registry::new();
    let text = snapshot_text(&reg);
    let expected = "# HELP freeswitch_heartbeats_total FreeSWITCH heartbeat count\n\
                    # TYPE freeswitch_heartbeats_total counter\n\
                    freeswitch_heartbeats_total 0\n";
    assert!(text.starts_with(expected));
    assert!(text.contains("# TYPE freeswitch_outbound_asr gauge\n"));
}

#[test]
fn snapshot_reflects_updates_and_dynamic_metrics() {
    let mut reg = Registry::new();
    handle_event(
        &mut reg,
        &Event {
            kind: EventKind::Heartbeat,
            direction: None,
            answered_time: None,
            hangup_cause: None,
            billsec: None,
        },
    );
    counter_increment_cmd(&mut reg, "mycounter 3.5").unwrap();
    gauge_set_cmd(&mut reg, "mygauge -2.25").unwrap();
    reg.gauge_set(
        GaugeId::SessionsInboundAsr.idx(),
        mod_prometheus::fixed::Fixed::from_micros(400_000),
    );
    let text = snapshot_text(&reg);
    assert!(text.contains("\nfreeswitch_heartbeats_total 1\n"));
    assert!(text.contains("\nfreeswitch_inbound_asr 0.4\n"));
    assert!(text.contains("# HELP mycounter mycounter\n"));
    assert!(text.contains("# TYPE mycounter counter\n"));
    assert!(text.contains("\nmycounter 3.5\n"));
    assert!(text.contains("\nmygauge -2.25\n"));
}

#[test]
fn empty_command_names_the_empty_metric() {
    // the name token may be empty; the default delta still applies
    let mut reg = Registry::new();
    assert_eq!(counter_increment_cmd(&mut reg, ""), Ok("+OK 1".to_string()));
    assert_eq!(reg.num_counters(), NUM_COUNTERS + 1);
    let i = reg.find_counter(&String::new()).unwrap();
    assert_eq!(reg.counter_value(i).micros(), SCALE);
}
