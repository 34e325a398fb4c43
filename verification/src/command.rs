//! The operator command layer.
//!
//! A command line is one string: the first space-delimited token is
//! the metric name, the optional second token a decimal value with a
//! default of one whole unit; anything after the second token is
//! ignored.  Each command gets or creates its metric, applies the
//! operation, and reports the resulting value as `+OK <value>`; a
//! malformed value, a name bound to the other metric kind, or a
//! negative delta for a counter is reported as an error and mutates
//! nothing.  The counter layer only grows, so the negative-delta check
//! lives here, in the engine's edge, as the design prescribes.

use vstd::prelude::*;
use vstd::string::StrSliceExecFns;
use vstd::string::StringExecFns;
use crate::decimal::fixed_str;
use crate::decimal::fixed_to_string;
use crate::decimal::parse_fixed;
use crate::decimal::parse_fixed_spec;
use crate::fixed::Fixed;
use crate::fixed::SCALE;
use crate::fixed::clamp_i64;
use crate::registry::Registry;

verus! {

broadcast use vstd::string::group_string_axioms;

/// Why a command was rejected; nothing is mutated in that case.
#[derive(Clone, Copy, PartialEq, Eq, Structural, Debug)]
pub enum CommandError {
    /// The value token does not parse as a decimal in range.
    InvalidValue,
    /// The metric name is registered as the other kind of metric.
    WrongMetricKind,
    /// A counter cannot shrink, so a negative delta is refused.
    NegativeCounterDelta,
}

/// Position of the first space in `s` at or after `i`, or `s.len()`.
pub open spec fn find_space(s: Seq<char>, i: int) -> int
    decreases s.len() - i,
{
    if i < 0 || i >= s.len() {
        s.len() as int
    } else if s[i] == ' ' {
        i
    } else {
        find_space(s, i + 1)
    }
}

/// The name and fixed-point value a command line denotes: the first
/// token names the metric; a missing second token means one whole
/// unit; a second token that does not parse means `None`.
pub open spec fn parse_command_spec(s: Seq<char>) -> Option<(Seq<char>, int)> {
    let p = find_space(s, 0);
    let name = s.subrange(0, p);
    if p == s.len() {
        Some((name, SCALE as int))
    } else {
        let rest = s.subrange(p + 1, s.len() as int);
        let q = find_space(rest, 0);
        let tok = rest.subrange(0, q);
        match parse_fixed_spec(tok) {
            Some(v) => Some((name, v)),
            None => None,
        }
    }
}

proof fn lemma_find_space_reaches(s: Seq<char>, i: int, k: int)
    requires
        0 <= i <= k <= s.len(),
        forall|j: int| i <= j < k ==> #[trigger] s[j] != ' ',
    ensures
        find_space(s, i) == find_space(s, k),
    decreases k - i,
{
    if i < k {
        lemma_find_space_reaches(s, i + 1, k);
    }
}

/// Finds the first space at or after `from`.
fn scan_space(s: &str, from: usize, n: usize) -> (r: usize)
    requires
        n == s@.len(),
        from <= n,
    ensures
        from <= r <= n,
        r == find_space(s@, from as int),
        forall|j: int| from <= j < r ==> #[trigger] s@[j] != ' ',
        r < n ==> s@[r as int] == ' ',
{
    let mut i = from;
    while i < n
        invariant_except_break
            n == s@.len(),
            from <= i <= n,
            forall|j: int| from <= j < i ==> #[trigger] s@[j] != ' ',
        ensures
            from <= i <= n,
            forall|j: int| from <= j < i ==> #[trigger] s@[j] != ' ',
            i < n ==> s@[i as int] == ' ',
        decreases n - i,
    {
        let c = s.get_char(i);
        if c == ' ' {
            break ;
        }
        i = i + 1;
    }
    proof {
        lemma_find_space_reaches(s@, from as int, i as int);
    }
    i
}

/// Splits a command line into the metric name and the value to apply,
/// exactly as [`parse_command_spec`] describes.
pub fn parse_command(s: &str) -> (r: Option<(String, Fixed)>)
    ensures
        (match r {
            Some((nm, v)) => Some((nm@, v@)),
            None => None::<(Seq<char>, int)>,
        }) == parse_command_spec(s@),
{
    let n = s.unicode_len();
    let p = scan_space(s, 0, n);
    let name = s.substring_char(0, p).to_owned();
    if p == n {
        Some((name, Fixed::one()))
    } else {
        let q = scan_space(s, p + 1, n);
        let tok = s.substring_char(p + 1, q);
        let ghost rest = s@.subrange(p as int + 1, n as int);
        proof {
            assert forall|j: int| 0 <= j < q - (p + 1) implies #[trigger] rest[j] != ' ' by {
                assert(rest[j] == s@[p + 1 + j]);
            }
            lemma_find_space_reaches(rest, 0, q - (p + 1));
            if (q - (p + 1)) < rest.len() {
                assert(rest[q - (p + 1)] == s@[q as int]);
            }
            assert(find_space(rest, 0) == q - (p + 1));
            assert(tok@ =~= rest.subrange(0, q - (p + 1)));
        }
        match parse_fixed(tok) {
            Some(v) => Some((name, v)),
            None => None,
        }
    }
}

/// The reply a successful command writes back: `+OK` and the value.
pub open spec fn ok_reply(v: int) -> Seq<char> {
    "+OK "@ + fixed_str(v)
}

fn make_ok_reply(v: Fixed) -> (r: String)
    ensures
        r@ == ok_reply(v@),
{
    let mut out = String::from_str("+OK ");
    let vs = fixed_to_string(v);
    out.append(vs.as_str());
    out
}

/// The human-readable text of a command error, as it is written back
/// to the caller.
pub fn error_text(e: CommandError) -> (r: String)
    ensures
        e == CommandError::InvalidValue ==> r@ == "Invalid metric value"@,
        e == CommandError::WrongMetricKind ==> r@ == "Metric name is bound to the other metric kind"@,
        e == CommandError::NegativeCounterDelta ==> r@ == "Counter increment must not be negative"@,
{
    match e {
        CommandError::InvalidValue => String::from_str("Invalid metric value"),
        CommandError::WrongMetricKind => String::from_str(
            "Metric name is bound to the other metric kind",
        ),
        CommandError::NegativeCounterDelta => String::from_str(
            "Counter increment must not be negative",
        ),
    }
}

/// Whether `r` is the `+OK` reply for the value `v`.
pub open spec fn is_ok_reply(r: Result<String, CommandError>, v: int) -> bool {
    r matches Ok(s) && s@ == ok_reply(v)
}

/// Gets or creates the named counter, adds the value (default one
/// whole unit), and reports the new value.  A malformed value, a name
/// bound to a gauge, or a negative delta is an error, and nothing is
/// mutated.
pub fn counter_increment_cmd(reg: &mut Registry, cmd: &str) -> (r: Result<String, CommandError>)
    requires
        old(reg).wf(),
    ensures
        final(reg).wf(),
        match parse_command_spec(cmd@) {
            Option::None => r == Result::<String, CommandError>::Err(CommandError::InvalidValue)
                && *final(reg) == *old(reg),
            Option::Some((nm, v)) => {
                if v < 0 {
                    r == Result::<String, CommandError>::Err(CommandError::NegativeCounterDelta)
                        && *final(reg) == *old(reg)
                } else if !old(reg).has_counter_named(nm) && old(reg).has_gauge_named(nm) {
                    r == Result::<String, CommandError>::Err(CommandError::WrongMetricKind)
                        && *final(reg) == *old(reg)
                } else {
                    &&& final(reg).gauges() == old(reg).gauges()
                    &&& exists|i: int|
                        {
                            &&& 0 <= i < final(reg).counters().len()
                            &&& (#[trigger] final(reg).counters()[i]).spec_name() == nm
                            &&& (if old(reg).has_counter_named(nm) {
                                &&& i < old(reg).counters().len()
                                &&& final(reg).counters().len() == old(reg).counters().len()
                                &&& final(reg).counters()[i].spec_value() == clamp_i64(
                                    old(reg).counters()[i].spec_value() + v,
                                )
                            } else {
                                &&& i == old(reg).counters().len()
                                &&& final(reg).counters().len() == old(reg).counters().len() + 1
                                &&& final(reg).counters()[i].spec_value() == clamp_i64(v)
                            })
                            &&& forall|t: int|
                                0 <= t < old(reg).counters().len() && t != i
                                    ==> final(reg).counters()[t] == old(reg).counters()[t]
                            &&& is_ok_reply(r, final(reg).counters()[i].spec_value())
                        }
                }
            },
        },
{
    match parse_command(cmd) {
        Option::None => Err(CommandError::InvalidValue),
        Option::Some((name, val)) => {
            if val.is_negative() {
                Err(CommandError::NegativeCounterDelta)
            } else {
                match reg.get_or_create_counter(&name) {
                    Result::Err(_) => Err(CommandError::WrongMetricKind),
                    Result::Ok(i) => {
                        let nv = reg.counter_add(i, val);
                        Ok(make_ok_reply(nv))
                    },
                }
            }
        },
    }
}

/// Gets or creates the named gauge, replaces its value, and reports
/// it.  A malformed value or a name bound to a counter is an error,
/// and nothing is mutated.
pub fn gauge_set_cmd(reg: &mut Registry, cmd: &str) -> (r: Result<String, CommandError>)
    requires
        old(reg).wf(),
    ensures
        final(reg).wf(),
        match parse_command_spec(cmd@) {
            Option::None => r == Result::<String, CommandError>::Err(CommandError::InvalidValue)
                && *final(reg) == *old(reg),
            Option::Some((nm, v)) => {
                if !old(reg).has_gauge_named(nm) && old(reg).has_counter_named(nm) {
                    r == Result::<String, CommandError>::Err(CommandError::WrongMetricKind)
                        && *final(reg) == *old(reg)
                } else {
                    &&& final(reg).counters() == old(reg).counters()
                    &&& exists|i: int|
                        {
                            &&& 0 <= i < final(reg).gauges().len()
                            &&& (#[trigger] final(reg).gauges()[i]).spec_name() == nm
                            &&& final(reg).gauges()[i].spec_value() == v
                            &&& (if old(reg).has_gauge_named(nm) {
                                i < old(reg).gauges().len() && final(reg).gauges().len() == old(
                                    reg,
                                ).gauges().len()
                            } else {
                                i == old(reg).gauges().len() && final(reg).gauges().len() == old(
                                    reg,
                                ).gauges().len() + 1
                            })
                            &&& forall|t: int|
                                0 <= t < old(reg).gauges().len() && t != i
                                    ==> final(reg).gauges()[t] == old(reg).gauges()[t]
                            &&& is_ok_reply(r, v)
                        }
                }
            },
        },
{
    match parse_command(cmd) {
        Option::None => Err(CommandError::InvalidValue),
        Option::Some((name, val)) => {
            match reg.get_or_create_gauge(&name) {
                Result::Err(_) => Err(CommandError::WrongMetricKind),
                Result::Ok(i) => {
                    let nv = reg.gauge_set(i, val);
                    Ok(make_ok_reply(nv))
                },
            }
        },
    }
}

/// Gets or creates the named gauge, adds the value (of either sign,
/// default one whole unit), and reports the new value.
pub fn gauge_increment_cmd(reg: &mut Registry, cmd: &str) -> (r: Result<String, CommandError>)
    requires
        old(reg).wf(),
    ensures
        final(reg).wf(),
        match parse_command_spec(cmd@) {
            Option::None => r == Result::<String, CommandError>::Err(CommandError::InvalidValue)
                && *final(reg) == *old(reg),
            Option::Some((nm, v)) => {
                if !old(reg).has_gauge_named(nm) && old(reg).has_counter_named(nm) {
                    r == Result::<String, CommandError>::Err(CommandError::WrongMetricKind)
                        && *final(reg) == *old(reg)
                } else {
                    &&& final(reg).counters() == old(reg).counters()
                    &&& exists|i: int|
                        {
                            &&& 0 <= i < final(reg).gauges().len()
                            &&& (#[trigger] final(reg).gauges()[i]).spec_name() == nm
                            &&& (if old(reg).has_gauge_named(nm) {
                                &&& i < old(reg).gauges().len()
                                &&& final(reg).gauges().len() == old(reg).gauges().len()
                                &&& final(reg).gauges()[i].spec_value() == clamp_i64(
                                    old(reg).gauges()[i].spec_value() + v,
                                )
                            } else {
                                &&& i == old(reg).gauges().len()
                                &&& final(reg).gauges().len() == old(reg).gauges().len() + 1
                                &&& final(reg).gauges()[i].spec_value() == clamp_i64(v)
                            })
                            &&& forall|t: int|
                                0 <= t < old(reg).gauges().len() && t != i
                                    ==> final(reg).gauges()[t] == old(reg).gauges()[t]
                            &&& is_ok_reply(r, final(reg).gauges()[i].spec_value())
                        }
                }
            },
        },
{
    match parse_command(cmd) {
        Option::None => Err(CommandError::InvalidValue),
        Option::Some((name, val)) => {
            match reg.get_or_create_gauge(&name) {
                Result::Err(_) => Err(CommandError::WrongMetricKind),
                Result::Ok(i) => {
                    let nv = reg.gauge_add(i, val);
                    Ok(make_ok_reply(nv))
                },
            }
        },
    }
}

/// Gets or creates the named gauge, subtracts the value (default one
/// whole unit), and reports the new value.
pub fn gauge_decrement_cmd(reg: &mut Registry, cmd: &str) -> (r: Result<String, CommandError>)
    requires
        old(reg).wf(),
    ensures
        final(reg).wf(),
        match parse_command_spec(cmd@) {
            Option::None => r == Result::<String, CommandError>::Err(CommandError::InvalidValue)
                && *final(reg) == *old(reg),
            Option::Some((nm, v)) => {
                if !old(reg).has_gauge_named(nm) && old(reg).has_counter_named(nm) {
                    r == Result::<String, CommandError>::Err(CommandError::WrongMetricKind)
                        && *final(reg) == *old(reg)
                } else {
                    &&& final(reg).counters() == old(reg).counters()
                    &&& exists|i: int|
                        {
                            &&& 0 <= i < final(reg).gauges().len()
                            &&& (#[trigger] final(reg).gauges()[i]).spec_name() == nm
                            &&& (if old(reg).has_gauge_named(nm) {
                                &&& i < old(reg).gauges().len()
                                &&& final(reg).gauges().len() == old(reg).gauges().len()
                                &&& final(reg).gauges()[i].spec_value() == clamp_i64(
                                    old(reg).gauges()[i].spec_value() - v,
                                )
                            } else {
                                &&& i == old(reg).gauges().len()
                                &&& final(reg).gauges().len() == old(reg).gauges().len() + 1
                                &&& final(reg).gauges()[i].spec_value() == clamp_i64(0 - v)
                            })
                            &&& forall|t: int|
                                0 <= t < old(reg).gauges().len() && t != i
                                    ==> final(reg).gauges()[t] == old(reg).gauges()[t]
                            &&& is_ok_reply(r, final(reg).gauges()[i].spec_value())
                        }
                }
            },
        },
{
    match parse_command(cmd) {
        Option::None => Err(CommandError::InvalidValue),
        Option::Some((name, val)) => {
            match reg.get_or_create_gauge(&name) {
                Result::Err(_) => Err(CommandError::WrongMetricKind),
                Result::Ok(i) => {
                    let nv = reg.gauge_sub(i, val);
                    Ok(make_ok_reply(nv))
                },
            }
        },
    }
}

} // verus!
