use mod_prometheus::builtin::{CounterId, GaugeId, NUM_COUNTERS, NUM_GAUGES};
use mod_prometheus::fixed::{Fixed, SCALE};
use mod_prometheus::metric::{Counter, Gauge};
use mod_prometheus::registry::{NameClash, Registry};

fn fx(micros: i64) -> Fixed {
    Fixed::from_micros(micros)
}

#[test]
fn counter_value_is_the_sum_of_deltas() {
    let mut c = Counter::new("c".to_string(), "help".to_string());
    assert_eq!(c.value().micros(), 0);
    c.increment();
    c.increment_by(fx(3_500_000));
    c.increment_by(fx(0));
    c.increment_by(fx(2 * SCALE));
    assert_eq!(c.value().micros(), SCALE + 3_500_000 + 2 * SCALE);
}

#[test]
fn counter_never_decreases() {
    let mut c = Counter::new("c".to_string(), "help".to_string());
    let mut last = c.value().micros();
    for d in [0i64, 1, 999_999, SCALE, 7 * SCALE] {
        c.increment_by(fx(d));
        let now = c.value().micros();
        assert!(now >= last);
        last = now;
    }
}

#[test]
fn gauge_value_is_the_algebraic_sum() {
    let mut g = Gauge::new("g".to_string(), "help".to_string());
    g.increment_by(fx(3 * SCALE));
    g.decrement_by(fx(5 * SCALE));
    assert_eq!(g.value().micros(), -2 * SCALE);
    g.set(fx(10 * SCALE));
    g.increment_by(fx(3 * SCALE));
    g.decrement_by(fx(4_500_000));
    assert_eq!(g.value().micros(), 8_500_000);
    g.increment();
    g.decrement();
    g.decrement();
    assert_eq!(g.value().micros(), 7_500_000);
}

#[test]
fn startup_registry_holds_every_builtin_once_at_zero() {
    let reg = Registry::new();
    assert_eq!(reg.num_counters(), NUM_COUNTERS);
    assert_eq!(reg.num_gauges(), NUM_GAUGES);
    let mut names: Vec<String> = Vec::new();
    for i in 0..reg.num_counters() {
        let c = reg.counter_at(i);
        assert_eq!(c.value().micros(), 0);
        names.push(c.name().clone());
    }
    for i in 0..reg.num_gauges() {
        let g = reg.gauge_at(i);
        assert_eq!(g.value().micros(), 0);
        names.push(g.name().clone());
    }
    let total = names.len();
    names.sort();
    names.dedup();
    assert_eq!(names.len(), total);
}

#[test]
fn get_or_create_counter_creates_once_and_reuses() {
    let mut reg = Registry::new();
    let name = "my_dynamic_counter".to_string();
    let i1 = reg.get_or_create_counter(&name).unwrap();
    assert_eq!(reg.num_counters(), NUM_COUNTERS + 1);
    assert_eq!(reg.counter_value(i1).micros(), 0);
    assert_eq!(reg.counter_at(i1).help(), "my_dynamic_counter");
    let i2 = reg.get_or_create_counter(&name).unwrap();
    let i3 = reg.get_or_create_counter(&name).unwrap();
    assert_eq!(i1, i2);
    assert_eq!(i1, i3);
    assert_eq!(reg.num_counters(), NUM_COUNTERS + 1);
    let mut hits = 0;
    for i in 0..reg.num_counters() {
        if reg.counter_at(i).name() == "my_dynamic_counter" {
            hits += 1;
        }
    }
    assert_eq!(hits, 1);
}

#[test]
fn get_or_create_gauge_creates_once_and_reuses() {
    let mut reg = Registry::new();
    let name = "my_dynamic_gauge".to_string();
    let i1 = reg.get_or_create_gauge(&name).unwrap();
    let i2 = reg.get_or_create_gauge(&name).unwrap();
    assert_eq!(i1, i2);
    assert_eq!(reg.num_gauges(), NUM_GAUGES + 1);
}

#[test]
fn get_or_create_reuses_a_builtin_of_the_same_name() {
    let mut reg = Registry::new();
    let name = "freeswitch_heartbeats_total".to_string();
    let i = reg.get_or_create_counter(&name).unwrap();
    assert_eq!(i, CounterId::Heartbeats.idx());
    assert_eq!(reg.num_counters(), NUM_COUNTERS);
}

#[test]
fn get_or_create_rejects_a_name_of_the_other_kind() {
    let mut reg = Registry::new();
    let gauge_name = "freeswitch_registrations_active".to_string();
    assert_eq!(
        reg.get_or_create_counter(&gauge_name),
        Err(NameClash::BoundToGauge)
    );
    let counter_name = "freeswitch_heartbeats_total".to_string();
    assert_eq!(
        reg.get_or_create_gauge(&counter_name),
        Err(NameClash::BoundToCounter)
    );
    assert_eq!(reg.num_counters(), NUM_COUNTERS);
    assert_eq!(reg.num_gauges(), NUM_GAUGES);
}

#[test]
fn registry_metric_operations_reach_the_right_slot() {
    let mut reg = Registry::new();
    let hb = CounterId::Heartbeats.idx();
    reg.counter_add(hb, fx(SCALE));
    reg.counter_add(hb, fx(SCALE));
    assert_eq!(reg.counter_value(hb).micros(), 2 * SCALE);
    assert_eq!(
        reg.counter_value(CounterId::SessionsCreated.idx()).micros(),
        0
    );
    let ra = GaugeId::RegistrationsActive.idx();
    reg.gauge_add(ra, fx(5 * SCALE));
    reg.gauge_sub(ra, fx(2 * SCALE));
    assert_eq!(reg.gauge_value(ra).micros(), 3 * SCALE);
    reg.gauge_set(ra, fx(400_000));
    assert_eq!(reg.gauge_value(ra).micros(), 400_000);
}

#[test]
fn find_counter_and_find_gauge_report_membership() {
    let mut reg = Registry::new();
    assert_eq!(
        reg.find_counter(&"freeswitch_heartbeats_total".to_string()),
        Some(CounterId::Heartbeats.idx())
    );
    assert_eq!(reg.find_counter(&"missing".to_string()), None);
    assert_eq!(
        reg.find_gauge(&"freeswitch_outbound_asr".to_string()),
        Some(GaugeId::SessionsOutboundAsr.idx())
    );
    assert_eq!(reg.find_gauge(&"missing".to_string()), None);
    let i = reg
        .register_counter("fresh_name".to_string(), "fresh help".to_string());
    assert_eq!(reg.find_counter(&"fresh_name".to_string()), Some(i));
}
