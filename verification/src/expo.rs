//! Exposition text.
//!
//! A scrape serializes every registered metric, counters first and
//! then gauges, each in registration order, as the line-oriented
//! convention: a help line, a type line, and a value line per metric.
//! The rendering of a registry is the spec function [`snapshot_spec`],
//! and [`snapshot_text`] produces exactly that text.

use vstd::prelude::*;
use vstd::string::StringExecFns;
use crate::decimal::fixed_str;
use crate::decimal::fixed_to_string;
use crate::metric::Counter;
use crate::metric::Gauge;
use crate::registry::Registry;

verus! {

/// The exposition block for one counter.
pub open spec fn counter_expo(c: Counter) -> Seq<char> {
    "# HELP "@ + c.spec_name() + " "@ + c.spec_help() + "\n# TYPE "@ + c.spec_name()
        + " counter\n"@ + c.spec_name() + " "@ + fixed_str(c.spec_value()) + "\n"@
}

/// The exposition block for one gauge.
pub open spec fn gauge_expo(g: Gauge) -> Seq<char> {
    "# HELP "@ + g.spec_name() + " "@ + g.spec_help() + "\n# TYPE "@ + g.spec_name()
        + " gauge\n"@ + g.spec_name() + " "@ + fixed_str(g.spec_value()) + "\n"@
}

/// The blocks of the first `i` counters, in registration order.
pub open spec fn counters_expo_upto(s: Seq<Counter>, i: int) -> Seq<char>
    decreases i,
{
    if i <= 0 {
        Seq::empty()
    } else {
        counters_expo_upto(s, i - 1) + counter_expo(s[i - 1])
    }
}

/// The blocks of the first `i` gauges, in registration order.
pub open spec fn gauges_expo_upto(s: Seq<Gauge>, i: int) -> Seq<char>
    decreases i,
{
    if i <= 0 {
        Seq::empty()
    } else {
        gauges_expo_upto(s, i - 1) + gauge_expo(s[i - 1])
    }
}

/// The whole snapshot: every counter, then every gauge.
pub open spec fn snapshot_spec(r: Registry) -> Seq<char> {
    counters_expo_upto(r.counters(), r.counters().len() as int) + gauges_expo_upto(
        r.gauges(),
        r.gauges().len() as int,
    )
}

fn append_counter_expo(out: &mut String, c: &Counter)
    ensures
        final(out)@ == old(out)@ + counter_expo(*c),
{
    out.append("# HELP ");
    out.append(c.name().as_str());
    out.append(" ");
    out.append(c.help().as_str());
    out.append("\n# TYPE ");
    out.append(c.name().as_str());
    out.append(" counter\n");
    out.append(c.name().as_str());
    out.append(" ");
    let vs = fixed_to_string(c.value());
    out.append(vs.as_str());
    out.append("\n");
    proof {
        assert(final(out)@ =~= old(out)@ + counter_expo(*c));
    }
}

fn append_gauge_expo(out: &mut String, g: &Gauge)
    ensures
        final(out)@ == old(out)@ + gauge_expo(*g),
{
    out.append("# HELP ");
    out.append(g.name().as_str());
    out.append(" ");
    out.append(g.help().as_str());
    out.append("\n# TYPE ");
    out.append(g.name().as_str());
    out.append(" gauge\n");
    out.append(g.name().as_str());
    out.append(" ");
    let vs = fixed_to_string(g.value());
    out.append(vs.as_str());
    out.append("\n");
    proof {
        assert(final(out)@ =~= old(out)@ + gauge_expo(*g));
    }
}

/// Serializes the registry's current state, exactly as
/// [`snapshot_spec`] describes.
pub fn snapshot_text(reg: &Registry) -> (r: String)
    ensures
        r@ == snapshot_spec(*reg),
{
    let mut out = String::new();
    let n = reg.num_counters();
    let mut i: usize = 0;
    while i < n
        invariant
            n == reg.counters().len(),
            i <= n,
            out@ == counters_expo_upto(reg.counters(), i as int),
        decreases n - i,
    {
        append_counter_expo(&mut out, reg.counter_at(i));
        i = i + 1;
    }
    let ghost cpart = counters_expo_upto(reg.counters(), reg.counters().len() as int);
    let m = reg.num_gauges();
    let mut j: usize = 0;
    while j < m
        invariant
            m == reg.gauges().len(),
            j <= m,
            out@ == cpart + gauges_expo_upto(reg.gauges(), j as int),
            cpart == counters_expo_upto(reg.counters(), reg.counters().len() as int),
        decreases m - j,
    {
        append_gauge_expo(&mut out, reg.gauge_at(j));
        proof {
            assert(out@ =~= cpart + gauges_expo_upto(reg.gauges(), j as int + 1));
        }
        j = j + 1;
    }
    proof {
        assert(out@ =~= snapshot_spec(*reg));
    }
    out
}

} // verus!
