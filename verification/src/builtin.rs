//! The built-in metrics: a closed enumeration of counter and gauge
//! identifiers, their registry order, their exposition names and help
//! texts, and the proof that the names are pairwise distinct.

use vstd::prelude::*;

verus! {

broadcast use vstd::string::group_string_axioms;

/// How many built-in counters the registry starts with.
pub const NUM_COUNTERS: usize = 20;

/// How many built-in gauges the registry starts with.
pub const NUM_GAUGES: usize = 7;

/// The built-in counters, in registry order.
#[derive(Clone, Copy, PartialEq, Eq, Structural, Debug)]
pub enum CounterId {
    Heartbeats,
    SessionsCreated,
    SessionsDestroyed,
    SessionsAnswered,
    SessionsFailed,
    SessionsInboundCreated,
    SessionsInboundAnswered,
    SessionsInboundFailed,
    SessionsOutboundCreated,
    SessionsOutboundAnswered,
    SessionsOutboundFailed,
    Registrations,
    RegistrationAttempts,
    RegistrationFailures,
    SessionsOutboundCallDurationTotal,
    SessionsOutboundCallHangup,
    SessionsOutboundCallHangupComplete,
    SessionsInboundCallDurationTotal,
    SessionsInboundCallHangup,
    SessionsInboundCallHangupComplete,
}

/// The built-in gauges, in registry order.
#[derive(Clone, Copy, PartialEq, Eq, Structural, Debug)]
pub enum GaugeId {
    SessionsActiveInbound,
    SessionsActiveOutbound,
    SessionsOutboundAsr,
    RegistrationsActive,
    SessionsOutboundAcd,
    SessionsInboundAcd,
    SessionsInboundAsr,
}

impl CounterId {
    /// Position of this counter in the registry's counter list.
    pub open spec fn spec_idx(self) -> int {
        match self {
            CounterId::Heartbeats => 0,
            CounterId::SessionsCreated => 1,
            CounterId::SessionsDestroyed => 2,
            CounterId::SessionsAnswered => 3,
            CounterId::SessionsFailed => 4,
            CounterId::SessionsInboundCreated => 5,
            CounterId::SessionsInboundAnswered => 6,
            CounterId::SessionsInboundFailed => 7,
            CounterId::SessionsOutboundCreated => 8,
            CounterId::SessionsOutboundAnswered => 9,
            CounterId::SessionsOutboundFailed => 10,
            CounterId::Registrations => 11,
            CounterId::RegistrationAttempts => 12,
            CounterId::RegistrationFailures => 13,
            CounterId::SessionsOutboundCallDurationTotal => 14,
            CounterId::SessionsOutboundCallHangup => 15,
            CounterId::SessionsOutboundCallHangupComplete => 16,
            CounterId::SessionsInboundCallDurationTotal => 17,
            CounterId::SessionsInboundCallHangup => 18,
            CounterId::SessionsInboundCallHangupComplete => 19,
        }
    }

    pub fn idx(self) -> (r: usize)
        ensures
            r == self.spec_idx(),
    {
        match self {
            CounterId::Heartbeats => 0,
            CounterId::SessionsCreated => 1,
            CounterId::SessionsDestroyed => 2,
            CounterId::SessionsAnswered => 3,
            CounterId::SessionsFailed => 4,
            CounterId::SessionsInboundCreated => 5,
            CounterId::SessionsInboundAnswered => 6,
            CounterId::SessionsInboundFailed => 7,
            CounterId::SessionsOutboundCreated => 8,
            CounterId::SessionsOutboundAnswered => 9,
            CounterId::SessionsOutboundFailed => 10,
            CounterId::Registrations => 11,
            CounterId::RegistrationAttempts => 12,
            CounterId::RegistrationFailures => 13,
            CounterId::SessionsOutboundCallDurationTotal => 14,
            CounterId::SessionsOutboundCallHangup => 15,
            CounterId::SessionsOutboundCallHangupComplete => 16,
            CounterId::SessionsInboundCallDurationTotal => 17,
            CounterId::SessionsInboundCallHangup => 18,
            CounterId::SessionsInboundCallHangupComplete => 19,
        }
    }
}

impl GaugeId {
    /// Position of this gauge in the registry's gauge list.
    pub open spec fn spec_idx(self) -> int {
        match self {
            GaugeId::SessionsActiveInbound => 0,
            GaugeId::SessionsActiveOutbound => 1,
            GaugeId::SessionsOutboundAsr => 2,
            GaugeId::RegistrationsActive => 3,
            GaugeId::SessionsOutboundAcd => 4,
            GaugeId::SessionsInboundAcd => 5,
            GaugeId::SessionsInboundAsr => 6,
        }
    }

    pub fn idx(self) -> (r: usize)
        ensures
            r == self.spec_idx(),
    {
        match self {
            GaugeId::SessionsActiveInbound => 0,
            GaugeId::SessionsActiveOutbound => 1,
            GaugeId::SessionsOutboundAsr => 2,
            GaugeId::RegistrationsActive => 3,
            GaugeId::SessionsOutboundAcd => 4,
            GaugeId::SessionsInboundAcd => 5,
            GaugeId::SessionsInboundAsr => 6,
        }
    }
}

/// Exposition name of the built-in counter at position `k`.
pub open spec fn counter_name(k: int) -> Seq<char> {
    if k == 0 {
        "freeswitch_heartbeats_total"@
    } else if k == 1 {
        "freeswitch_sessions_created_total"@
    } else if k == 2 {
        "freeswitch_sessions_destroyed_total"@
    } else if k == 3 {
        "freeswitch_sessions_answered_total"@
    } else if k == 4 {
        "freeswitch_sessions_failed_total"@
    } else if k == 5 {
        "freeswitch_sessions_inbound_total"@
    } else if k == 6 {
        "freeswitch_sessions_inbound_answered_total"@
    } else if k == 7 {
        "freeswitch_sessions_inbound_failed_total"@
    } else if k == 8 {
        "freeswitch_sessions_outbound_total"@
    } else if k == 9 {
        "freeswitch_sessions_outbound_answered_total"@
    } else if k == 10 {
        "freeswitch_sessions_outbound_failed_total"@
    } else if k == 11 {
        "freeswitch_registrations_total"@
    } else if k == 12 {
        "freeswitch_registration_attempts_total"@
    } else if k == 13 {
        "freeswitch_registration_failures_total"@
    } else if k == 14 {
        "freeswitch_sessions_outbound_duration_total"@
    } else if k == 15 {
        "freeswitch_sessions_outbound_hangup"@
    } else if k == 16 {
        "freeswitch_sessions_outbound_hangup_complete"@
    } else if k == 17 {
        "freeswitch_sessions_inbound_duration_total"@
    } else if k == 18 {
        "freeswitch_sessions_inbound_hangup"@
    } else {
        "freeswitch_sessions_inbound_hangup_complete"@
    }
}

/// Help text of the built-in counter at position `k`.
pub open spec fn counter_help(k: int) -> Seq<char> {
    if k == 0 {
        "FreeSWITCH heartbeat count"@
    } else if k == 1 {
        "FreeSWITCH Session Created Count"@
    } else if k == 2 {
        "FreeSWITCH Session Destroyed Count"@
    } else if k == 3 {
        "FreeSWITCH Answered Sessions Count"@
    } else if k == 4 {
        "FreeSWITCH Failed Sessions Count"@
    } else if k == 5 {
        "FreeSWITCH Inbound Sessions Count"@
    } else if k == 6 {
        "FreeSWITCH Answered Inbound Sessions Count"@
    } else if k == 7 {
        "FreeSWITCH Failed Inbound Sessions Count"@
    } else if k == 8 {
        "FreeSWITCH Outbound Sessions Count"@
    } else if k == 9 {
        "FreeSWITCH Answered Outbound Sessions Count"@
    } else if k == 10 {
        "FreeSWITCH Failed Outbound Sessions Count"@
    } else if k == 11 {
        "FreeSWITCH Registration Count"@
    } else if k == 12 {
        "FreeSWITCH Registration Attempts"@
    } else if k == 13 {
        "FreeSWITCH Registration Failures"@
    } else if k == 14 {
        "FreeSWITCH outbound Calls total duration"@
    } else if k == 15 {
        "FreeSWITCH outbound Calls hangup"@
    } else if k == 16 {
        "FreeSWITCH outbound Calls hangup complete"@
    } else if k == 17 {
        "FreeSWITCH inbound Calls total duration"@
    } else if k == 18 {
        "FreeSWITCH inbound Calls hangup"@
    } else {
        "FreeSWITCH inbound Calls hangup complete"@
    }
}

/// Exposition name of the built-in gauge at position `k`.
pub open spec fn gauge_name(k: int) -> Seq<char> {
    if k == 0 {
        "freeswitch_sessions_active_inbound"@
    } else if k == 1 {
        "freeswitch_sessions_active_outbound"@
    } else if k == 2 {
        "freeswitch_outbound_asr"@
    } else if k == 3 {
        "freeswitch_registrations_active"@
    } else if k == 4 {
        "freeswitch_outbound_acd"@
    } else if k == 5 {
        "freeswitch_inbound_acd"@
    } else {
        "freeswitch_inbound_asr"@
    }
}

/// Help text of the built-in gauge at position `k`.
pub open spec fn gauge_help(k: int) -> Seq<char> {
    if k == 0 {
        "FreeSWITCH Active Sessions inbound"@
    } else if k == 1 {
        "FreeSWITCH Active Sessions outbound"@
    } else if k == 2 {
        "FreeSWITCH outbound Answer Seizure Ratio"@
    } else if k == 3 {
        "FreeSWITCH Active Registrations"@
    } else if k == 4 {
        "FreeSWITCH outbound Calls Average Duration"@
    } else if k == 5 {
        "FreeSWITCH inbound Calls Average Duration"@
    } else {
        "FreeSWITCH inbound Answer Seizure Ratio"@
    }
}

/// Name of any built-in metric, counters first, then gauges.
pub open spec fn builtin_name(i: int) -> Seq<char> {
    if i < NUM_COUNTERS as int {
        counter_name(i)
    } else {
        gauge_name(i - NUM_COUNTERS as int)
    }
}

pub fn counter_name_str(k: CounterId) -> (r: &'static str)
    ensures
        r@ == counter_name(k.spec_idx()),
{
    match k {
        CounterId::Heartbeats => "freeswitch_heartbeats_total",
        CounterId::SessionsCreated => "freeswitch_sessions_created_total",
        CounterId::SessionsDestroyed => "freeswitch_sessions_destroyed_total",
        CounterId::SessionsAnswered => "freeswitch_sessions_answered_total",
        CounterId::SessionsFailed => "freeswitch_sessions_failed_total",
        CounterId::SessionsInboundCreated => "freeswitch_sessions_inbound_total",
        CounterId::SessionsInboundAnswered => "freeswitch_sessions_inbound_answered_total",
        CounterId::SessionsInboundFailed => "freeswitch_sessions_inbound_failed_total",
        CounterId::SessionsOutboundCreated => "freeswitch_sessions_outbound_total",
        CounterId::SessionsOutboundAnswered => "freeswitch_sessions_outbound_answered_total",
        CounterId::SessionsOutboundFailed => "freeswitch_sessions_outbound_failed_total",
        CounterId::Registrations => "freeswitch_registrations_total",
        CounterId::RegistrationAttempts => "freeswitch_registration_attempts_total",
        CounterId::RegistrationFailures => "freeswitch_registration_failures_total",
        CounterId::SessionsOutboundCallDurationTotal => "freeswitch_sessions_outbound_duration_total",
        CounterId::SessionsOutboundCallHangup => "freeswitch_sessions_outbound_hangup",
        CounterId::SessionsOutboundCallHangupComplete => "freeswitch_sessions_outbound_hangup_complete",
        CounterId::SessionsInboundCallDurationTotal => "freeswitch_sessions_inbound_duration_total",
        CounterId::SessionsInboundCallHangup => "freeswitch_sessions_inbound_hangup",
        CounterId::SessionsInboundCallHangupComplete => "freeswitch_sessions_inbound_hangup_complete",
    }
}

pub fn counter_help_str(k: CounterId) -> (r: &'static str)
    ensures
        r@ == counter_help(k.spec_idx()),
{
    match k {
        CounterId::Heartbeats => "FreeSWITCH heartbeat count",
        CounterId::SessionsCreated => "FreeSWITCH Session Created Count",
        CounterId::SessionsDestroyed => "FreeSWITCH Session Destroyed Count",
        CounterId::SessionsAnswered => "FreeSWITCH Answered Sessions Count",
        CounterId::SessionsFailed => "FreeSWITCH Failed Sessions Count",
        CounterId::SessionsInboundCreated => "FreeSWITCH Inbound Sessions Count",
        CounterId::SessionsInboundAnswered => "FreeSWITCH Answered Inbound Sessions Count",
        CounterId::SessionsInboundFailed => "FreeSWITCH Failed Inbound Sessions Count",
        CounterId::SessionsOutboundCreated => "FreeSWITCH Outbound Sessions Count",
        CounterId::SessionsOutboundAnswered => "FreeSWITCH Answered Outbound Sessions Count",
        CounterId::SessionsOutboundFailed => "FreeSWITCH Failed Outbound Sessions Count",
        CounterId::Registrations => "FreeSWITCH Registration Count",
        CounterId::RegistrationAttempts => "FreeSWITCH Registration Attempts",
        CounterId::RegistrationFailures => "FreeSWITCH Registration Failures",
        CounterId::SessionsOutboundCallDurationTotal => "FreeSWITCH outbound Calls total duration",
        CounterId::SessionsOutboundCallHangup => "FreeSWITCH outbound Calls hangup",
        CounterId::SessionsOutboundCallHangupComplete => "FreeSWITCH outbound Calls hangup complete",
        CounterId::SessionsInboundCallDurationTotal => "FreeSWITCH inbound Calls total duration",
        CounterId::SessionsInboundCallHangup => "FreeSWITCH inbound Calls hangup",
        CounterId::SessionsInboundCallHangupComplete => "FreeSWITCH inbound Calls hangup complete",
    }
}

pub fn gauge_name_str(k: GaugeId) -> (r: &'static str)
    ensures
        r@ == gauge_name(k.spec_idx()),
{
    match k {
        GaugeId::SessionsActiveInbound => "freeswitch_sessions_active_inbound",
        GaugeId::SessionsActiveOutbound => "freeswitch_sessions_active_outbound",
        GaugeId::SessionsOutboundAsr => "freeswitch_outbound_asr",
        GaugeId::RegistrationsActive => "freeswitch_registrations_active",
        GaugeId::SessionsOutboundAcd => "freeswitch_outbound_acd",
        GaugeId::SessionsInboundAcd => "freeswitch_inbound_acd",
        GaugeId::SessionsInboundAsr => "freeswitch_inbound_asr",
    }
}

pub fn gauge_help_str(k: GaugeId) -> (r: &'static str)
    ensures
        r@ == gauge_help(k.spec_idx()),
{
    match k {
        GaugeId::SessionsActiveInbound => "FreeSWITCH Active Sessions inbound",
        GaugeId::SessionsActiveOutbound => "FreeSWITCH Active Sessions outbound",
        GaugeId::SessionsOutboundAsr => "FreeSWITCH outbound Answer Seizure Ratio",
        GaugeId::RegistrationsActive => "FreeSWITCH Active Registrations",
        GaugeId::SessionsOutboundAcd => "FreeSWITCH outbound Calls Average Duration",
        GaugeId::SessionsInboundAcd => "FreeSWITCH inbound Calls Average Duration",
        GaugeId::SessionsInboundAsr => "FreeSWITCH inbound Answer Seizure Ratio",
    }
}

/// The combined namespace of built-in counters and gauges has no repeated
/// name: registering them all in order yields exactly one entry per name.
#[verifier::rlimit(100)]
pub proof fn lemma_builtin_names_distinct()
    ensures
        forall|i: int, j: int|
            0 <= i < 27 && 0 <= j < 27 && i != j ==> builtin_name(i) != builtin_name(j),
{
    reveal_strlit("freeswitch_heartbeats_total");
    reveal_strlit("freeswitch_sessions_created_total");
    reveal_strlit("freeswitch_sessions_destroyed_total");
    reveal_strlit("freeswitch_sessions_answered_total");
    reveal_strlit("freeswitch_sessions_failed_total");
    reveal_strlit("freeswitch_sessions_inbound_total");
    reveal_strlit("freeswitch_sessions_inbound_answered_total");
    reveal_strlit("freeswitch_sessions_inbound_failed_total");
    reveal_strlit("freeswitch_sessions_outbound_total");
    reveal_strlit("freeswitch_sessions_outbound_answered_total");
    reveal_strlit("freeswitch_sessions_outbound_failed_total");
    reveal_strlit("freeswitch_registrations_total");
    reveal_strlit("freeswitch_registration_attempts_total");
    reveal_strlit("freeswitch_registration_failures_total");
    reveal_strlit("freeswitch_sessions_outbound_duration_total");
    reveal_strlit("freeswitch_sessions_outbound_hangup");
    reveal_strlit("freeswitch_sessions_outbound_hangup_complete");
    reveal_strlit("freeswitch_sessions_inbound_duration_total");
    reveal_strlit("freeswitch_sessions_inbound_hangup");
    reveal_strlit("freeswitch_sessions_inbound_hangup_complete");
    reveal_strlit("freeswitch_sessions_active_inbound");
    reveal_strlit("freeswitch_sessions_active_outbound");
    reveal_strlit("freeswitch_outbound_asr");
    reveal_strlit("freeswitch_registrations_active");
    reveal_strlit("freeswitch_outbound_acd");
    reveal_strlit("freeswitch_inbound_acd");
    reveal_strlit("freeswitch_inbound_asr");
    assert(builtin_name(0).len() == 27);
    assert(builtin_name(1).len() == 33);
    assert(builtin_name(2).len() == 35);
    assert(builtin_name(3).len() == 34);
    assert(builtin_name(4).len() == 32);
    assert(builtin_name(5).len() == 33);
    assert(builtin_name(6).len() == 42);
    assert(builtin_name(7).len() == 40);
    assert(builtin_name(8).len() == 34);
    assert(builtin_name(9).len() == 43);
    assert(builtin_name(10).len() == 41);
    assert(builtin_name(11).len() == 30);
    assert(builtin_name(12).len() == 38);
    assert(builtin_name(13).len() == 38);
    assert(builtin_name(14).len() == 43);
    assert(builtin_name(15).len() == 35);
    assert(builtin_name(16).len() == 44);
    assert(builtin_name(17).len() == 42);
    assert(builtin_name(18).len() == 34);
    assert(builtin_name(19).len() == 43);
    assert(builtin_name(20).len() == 34);
    assert(builtin_name(21).len() == 35);
    assert(builtin_name(22).len() == 23);
    assert(builtin_name(23).len() == 31);
    assert(builtin_name(24).len() == 23);
    assert(builtin_name(25).len() == 22);
    assert(builtin_name(26).len() == 22);
    assert(!(builtin_name(0) =~= builtin_name(1)));
    assert(!(builtin_name(0) =~= builtin_name(2)));
    assert(!(builtin_name(0) =~= builtin_name(3)));
    assert(!(builtin_name(0) =~= builtin_name(4)));
    assert(!(builtin_name(0) =~= builtin_name(5)));
    assert(!(builtin_name(0) =~= builtin_name(6)));
    assert(!(builtin_name(0) =~= builtin_name(7)));
    assert(!(builtin_name(0) =~= builtin_name(8)));
    assert(!(builtin_name(0) =~= builtin_name(9)));
    assert(!(builtin_name(0) =~= builtin_name(10)));
    assert(!(builtin_name(0) =~= builtin_name(11)));
    assert(!(builtin_name(0) =~= builtin_name(12)));
    assert(!(builtin_name(0) =~= builtin_name(13)));
    assert(!(builtin_name(0) =~= builtin_name(14)));
    assert(!(builtin_name(0) =~= builtin_name(15)));
    assert(!(builtin_name(0) =~= builtin_name(16)));
    assert(!(builtin_name(0) =~= builtin_name(17)));
    assert(!(builtin_name(0) =~= builtin_name(18)));
    assert(!(builtin_name(0) =~= builtin_name(19)));
    assert(!(builtin_name(0) =~= builtin_name(20)));
    assert(!(builtin_name(0) =~= builtin_name(21)));
    assert(!(builtin_name(0) =~= builtin_name(22)));
    assert(!(builtin_name(0) =~= builtin_name(23)));
    assert(!(builtin_name(0) =~= builtin_name(24)));
    assert(!(builtin_name(0) =~= builtin_name(25)));
    assert(!(builtin_name(0) =~= builtin_name(26)));
    assert(!(builtin_name(1) =~= builtin_name(2)));
    assert(!(builtin_name(1) =~= builtin_name(3)));
    assert(!(builtin_name(1) =~= builtin_name(4)));
    assert(builtin_name(1)[20] != builtin_name(5)[20]);
    assert(!(builtin_name(1) =~= builtin_name(5)));
    assert(!(builtin_name(1) =~= builtin_name(6)));
    assert(!(builtin_name(1) =~= builtin_name(7)));
    assert(!(builtin_name(1) =~= builtin_name(8)));
    assert(!(builtin_name(1) =~= builtin_name(9)));
    assert(!(builtin_name(1) =~= builtin_name(10)));
    assert(!(builtin_name(1) =~= builtin_name(11)));
    assert(!(builtin_name(1) =~= builtin_name(12)));
    assert(!(builtin_name(1) =~= builtin_name(13)));
    assert(!(builtin_name(1) =~= builtin_name(14)));
    assert(!(builtin_name(1) =~= builtin_name(15)));
    assert(!(builtin_name(1) =~= builtin_name(16)));
    assert(!(builtin_name(1) =~= builtin_name(17)));
    assert(!(builtin_name(1) =~= builtin_name(18)));
    assert(!(builtin_name(1) =~= builtin_name(19)));
    assert(!(builtin_name(1) =~= builtin_name(20)));
    assert(!(builtin_name(1) =~= builtin_name(21)));
    assert(!(builtin_name(1) =~= builtin_name(22)));
    assert(!(builtin_name(1) =~= builtin_name(23)));
    assert(!(builtin_name(1) =~= builtin_name(24)));
    assert(!(builtin_name(1) =~= builtin_name(25)));
    assert(!(builtin_name(1) =~= builtin_name(26)));
    assert(!(builtin_name(2) =~= builtin_name(3)));
    assert(!(builtin_name(2) =~= builtin_name(4)));
    assert(!(builtin_name(2) =~= builtin_name(5)));
    assert(!(builtin_name(2) =~= builtin_name(6)));
    assert(!(builtin_name(2) =~= builtin_name(7)));
    assert(!(builtin_name(2) =~= builtin_name(8)));
    assert(!(builtin_name(2) =~= builtin_name(9)));
    assert(!(builtin_name(2) =~= builtin_name(10)));
    assert(!(builtin_name(2) =~= builtin_name(11)));
    assert(!(builtin_name(2) =~= builtin_name(12)));
    assert(!(builtin_name(2) =~= builtin_name(13)));
    assert(!(builtin_name(2) =~= builtin_name(14)));
    assert(builtin_name(2)[20] != builtin_name(15)[20]);
    assert(!(builtin_name(2) =~= builtin_name(15)));
    assert(!(builtin_name(2) =~= builtin_name(16)));
    assert(!(builtin_name(2) =~= builtin_name(17)));
    assert(!(builtin_name(2) =~= builtin_name(18)));
    assert(!(builtin_name(2) =~= builtin_name(19)));
    assert(!(builtin_name(2) =~= builtin_name(20)));
    assert(builtin_name(2)[20] != builtin_name(21)[20]);
    assert(!(builtin_name(2) =~= builtin_name(21)));
    assert(!(builtin_name(2) =~= builtin_name(22)));
    assert(!(builtin_name(2) =~= builtin_name(23)));
    assert(!(builtin_name(2) =~= builtin_name(24)));
    assert(!(builtin_name(2) =~= builtin_name(25)));
    assert(!(builtin_name(2) =~= builtin_name(26)));
    assert(!(builtin_name(3) =~= builtin_name(4)));
    assert(!(builtin_name(3) =~= builtin_name(5)));
    assert(!(builtin_name(3) =~= builtin_name(6)));
    assert(!(builtin_name(3) =~= builtin_name(7)));
    assert(builtin_name(3)[20] != builtin_name(8)[20]);
    assert(!(builtin_name(3) =~= builtin_name(8)));
    assert(!(builtin_name(3) =~= builtin_name(9)));
    assert(!(builtin_name(3) =~= builtin_name(10)));
    assert(!(builtin_name(3) =~= builtin_name(11)));
    assert(!(builtin_name(3) =~= builtin_name(12)));
    assert(!(builtin_name(3) =~= builtin_name(13)));
    assert(!(builtin_name(3) =~= builtin_name(14)));
    assert(!(builtin_name(3) =~= builtin_name(15)));
    assert(!(builtin_name(3) =~= builtin_name(16)));
    assert(!(builtin_name(3) =~= builtin_name(17)));
    assert(builtin_name(3)[20] != builtin_name(18)[20]);
    assert(!(builtin_name(3) =~= builtin_name(18)));
    assert(!(builtin_name(3) =~= builtin_name(19)));
    assert(builtin_name(3)[21] != builtin_name(20)[21]);
    assert(!(builtin_name(3) =~= builtin_name(20)));
    assert(!(builtin_name(3) =~= builtin_name(21)));
    assert(!(builtin_name(3) =~= builtin_name(22)));
    assert(!(builtin_name(3) =~= builtin_name(23)));
    assert(!(builtin_name(3) =~= builtin_name(24)));
    assert(!(builtin_name(3) =~= builtin_name(25)));
    assert(!(builtin_name(3) =~= builtin_name(26)));
    assert(!(builtin_name(4) =~= builtin_name(5)));
    assert(!(builtin_name(4) =~= builtin_name(6)));
    assert(!(builtin_name(4) =~= builtin_name(7)));
    assert(!(builtin_name(4) =~= builtin_name(8)));
    assert(!(builtin_name(4) =~= builtin_name(9)));
    assert(!(builtin_name(4) =~= builtin_name(10)));
    assert(!(builtin_name(4) =~= builtin_name(11)));
    assert(!(builtin_name(4) =~= builtin_name(12)));
    assert(!(builtin_name(4) =~= builtin_name(13)));
    assert(!(builtin_name(4) =~= builtin_name(14)));
    assert(!(builtin_name(4) =~= builtin_name(15)));
    assert(!(builtin_name(4) =~= builtin_name(16)));
    assert(!(builtin_name(4) =~= builtin_name(17)));
    assert(!(builtin_name(4) =~= builtin_name(18)));
    assert(!(builtin_name(4) =~= builtin_name(19)));
    assert(!(builtin_name(4) =~= builtin_name(20)));
    assert(!(builtin_name(4) =~= builtin_name(21)));
    assert(!(builtin_name(4) =~= builtin_name(22)));
    assert(!(builtin_name(4) =~= builtin_name(23)));
    assert(!(builtin_name(4) =~= builtin_name(24)));
    assert(!(builtin_name(4) =~= builtin_name(25)));
    assert(!(builtin_name(4) =~= builtin_name(26)));
    assert(!(builtin_name(5) =~= builtin_name(6)));
    assert(!(builtin_name(5) =~= builtin_name(7)));
    assert(!(builtin_name(5) =~= builtin_name(8)));
    assert(!(builtin_name(5) =~= builtin_name(9)));
    assert(!(builtin_name(5) =~= builtin_name(10)));
    assert(!(builtin_name(5) =~= builtin_name(11)));
    assert(!(builtin_name(5) =~= builtin_name(12)));
    assert(!(builtin_name(5) =~= builtin_name(13)));
    assert(!(builtin_name(5) =~= builtin_name(14)));
    assert(!(builtin_name(5) =~= builtin_name(15)));
    assert(!(builtin_name(5) =~= builtin_name(16)));
    assert(!(builtin_name(5) =~= builtin_name(17)));
    assert(!(builtin_name(5) =~= builtin_name(18)));
    assert(!(builtin_name(5) =~= builtin_name(19)));
    assert(!(builtin_name(5) =~= builtin_name(20)));
    assert(!(builtin_name(5) =~= builtin_name(21)));
    assert(!(builtin_name(5) =~= builtin_name(22)));
    assert(!(builtin_name(5) =~= builtin_name(23)));
    assert(!(builtin_name(5) =~= builtin_name(24)));
    assert(!(builtin_name(5) =~= builtin_name(25)));
    assert(!(builtin_name(5) =~= builtin_name(26)));
    assert(!(builtin_name(6) =~= builtin_name(7)));
    assert(!(builtin_name(6) =~= builtin_name(8)));
    assert(!(builtin_name(6) =~= builtin_name(9)));
    assert(!(builtin_name(6) =~= builtin_name(10)));
    assert(!(builtin_name(6) =~= builtin_name(11)));
    assert(!(builtin_name(6) =~= builtin_name(12)));
    assert(!(builtin_name(6) =~= builtin_name(13)));
    assert(!(builtin_name(6) =~= builtin_name(14)));
    assert(!(builtin_name(6) =~= builtin_name(15)));
    assert(!(builtin_name(6) =~= builtin_name(16)));
    assert(builtin_name(6)[28] != builtin_name(17)[28]);
    assert(!(builtin_name(6) =~= builtin_name(17)));
    assert(!(builtin_name(6) =~= builtin_name(18)));
    assert(!(builtin_name(6) =~= builtin_name(19)));
    assert(!(builtin_name(6) =~= builtin_name(20)));
    assert(!(builtin_name(6) =~= builtin_name(21)));
    assert(!(builtin_name(6) =~= builtin_name(22)));
    assert(!(builtin_name(6) =~= builtin_name(23)));
    assert(!(builtin_name(6) =~= builtin_name(24)));
    assert(!(builtin_name(6) =~= builtin_name(25)));
    assert(!(builtin_name(6) =~= builtin_name(26)));
    assert(!(builtin_name(7) =~= builtin_name(8)));
    assert(!(builtin_name(7) =~= builtin_name(9)));
    assert(!(builtin_name(7) =~= builtin_name(10)));
    assert(!(builtin_name(7) =~= builtin_name(11)));
    assert(!(builtin_name(7) =~= builtin_name(12)));
    assert(!(builtin_name(7) =~= builtin_name(13)));
    assert(!(builtin_name(7) =~= builtin_name(14)));
    assert(!(builtin_name(7) =~= builtin_name(15)));
    assert(!(builtin_name(7) =~= builtin_name(16)));
    assert(!(builtin_name(7) =~= builtin_name(17)));
    assert(!(builtin_name(7) =~= builtin_name(18)));
    assert(!(builtin_name(7) =~= builtin_name(19)));
    assert(!(builtin_name(7) =~= builtin_name(20)));
    assert(!(builtin_name(7) =~= builtin_name(21)));
    assert(!(builtin_name(7) =~= builtin_name(22)));
    assert(!(builtin_name(7) =~= builtin_name(23)));
    assert(!(builtin_name(7) =~= builtin_name(24)));
    assert(!(builtin_name(7) =~= builtin_name(25)));
    assert(!(builtin_name(7) =~= builtin_name(26)));
    assert(!(builtin_name(8) =~= builtin_name(9)));
    assert(!(builtin_name(8) =~= builtin_name(10)));
    assert(!(builtin_name(8) =~= builtin_name(11)));
    assert(!(builtin_name(8) =~= builtin_name(12)));
    assert(!(builtin_name(8) =~= builtin_name(13)));
    assert(!(builtin_name(8) =~= builtin_name(14)));
    assert(!(builtin_name(8) =~= builtin_name(15)));
    assert(!(builtin_name(8) =~= builtin_name(16)));
    assert(!(builtin_name(8) =~= builtin_name(17)));
    assert(builtin_name(8)[20] != builtin_name(18)[20]);
    assert(!(builtin_name(8) =~= builtin_name(18)));
    assert(!(builtin_name(8) =~= builtin_name(19)));
    assert(builtin_name(8)[20] != builtin_name(20)[20]);
    assert(!(builtin_name(8) =~= builtin_name(20)));
    assert(!(builtin_name(8) =~= builtin_name(21)));
    assert(!(builtin_name(8) =~= builtin_name(22)));
    assert(!(builtin_name(8) =~= builtin_name(23)));
    assert(!(builtin_name(8) =~= builtin_name(24)));
    assert(!(builtin_name(8) =~= builtin_name(25)));
    assert(!(builtin_name(8) =~= builtin_name(26)));
    assert(!(builtin_name(9) =~= builtin_name(10)));
    assert(!(builtin_name(9) =~= builtin_name(11)));
    assert(!(builtin_name(9) =~= builtin_name(12)));
    assert(!(builtin_name(9) =~= builtin_name(13)));
    assert(builtin_name(9)[29] != builtin_name(14)[29]);
    assert(!(builtin_name(9) =~= builtin_name(14)));
    assert(!(builtin_name(9) =~= builtin_name(15)));
    assert(!(builtin_name(9) =~= builtin_name(16)));
    assert(!(builtin_name(9) =~= builtin_name(17)));
    assert(!(builtin_name(9) =~= builtin_name(18)));
    assert(builtin_name(9)[20] != builtin_name(19)[20]);
    assert(!(builtin_name(9) =~= builtin_name(19)));
    assert(!(builtin_name(9) =~= builtin_name(20)));
    assert(!(builtin_name(9) =~= builtin_name(21)));
    assert(!(builtin_name(9) =~= builtin_name(22)));
    assert(!(builtin_name(9) =~= builtin_name(23)));
    assert(!(builtin_name(9) =~= builtin_name(24)));
    assert(!(builtin_name(9) =~= builtin_name(25)));
    assert(!(builtin_name(9) =~= builtin_name(26)));
    assert(!(builtin_name(10) =~= builtin_name(11)));
    assert(!(builtin_name(10) =~= builtin_name(12)));
    assert(!(builtin_name(10) =~= builtin_name(13)));
    assert(!(builtin_name(10) =~= builtin_name(14)));
    assert(!(builtin_name(10) =~= builtin_name(15)));
    assert(!(builtin_name(10) =~= builtin_name(16)));
    assert(!(builtin_name(10) =~= builtin_name(17)));
    assert(!(builtin_name(10) =~= builtin_name(18)));
    assert(!(builtin_name(10) =~= builtin_name(19)));
    assert(!(builtin_name(10) =~= builtin_name(20)));
    assert(!(builtin_name(10) =~= builtin_name(21)));
    assert(!(builtin_name(10) =~= builtin_name(22)));
    assert(!(builtin_name(10) =~= builtin_name(23)));
    assert(!(builtin_name(10) =~= builtin_name(24)));
    assert(!(builtin_name(10) =~= builtin_name(25)));
    assert(!(builtin_name(10) =~= builtin_name(26)));
    assert(!(builtin_name(11) =~= builtin_name(12)));
    assert(!(builtin_name(11) =~= builtin_name(13)));
    assert(!(builtin_name(11) =~= builtin_name(14)));
    assert(!(builtin_name(11) =~= builtin_name(15)));
    assert(!(builtin_name(11) =~= builtin_name(16)));
    assert(!(builtin_name(11) =~= builtin_name(17)));
    assert(!(builtin_name(11) =~= builtin_name(18)));
    assert(!(builtin_name(11) =~= builtin_name(19)));
    assert(!(builtin_name(11) =~= builtin_name(20)));
    assert(!(builtin_name(11) =~= builtin_name(21)));
    assert(!(builtin_name(11) =~= builtin_name(22)));
    assert(!(builtin_name(11) =~= builtin_name(23)));
    assert(!(builtin_name(11) =~= builtin_name(24)));
    assert(!(builtin_name(11) =~= builtin_name(25)));
    assert(!(builtin_name(11) =~= builtin_name(26)));
    assert(builtin_name(12)[24] != builtin_name(13)[24]);
    assert(!(builtin_name(12) =~= builtin_name(13)));
    assert(!(builtin_name(12) =~= builtin_name(14)));
    assert(!(builtin_name(12) =~= builtin_name(15)));
    assert(!(builtin_name(12) =~= builtin_name(16)));
    assert(!(builtin_name(12) =~= builtin_name(17)));
    assert(!(builtin_name(12) =~= builtin_name(18)));
    assert(!(builtin_name(12) =~= builtin_name(19)));
    assert(!(builtin_name(12) =~= builtin_name(20)));
    assert(!(builtin_name(12) =~= builtin_name(21)));
    assert(!(builtin_name(12) =~= builtin_name(22)));
    assert(!(builtin_name(12) =~= builtin_name(23)));
    assert(!(builtin_name(12) =~= builtin_name(24)));
    assert(!(builtin_name(12) =~= builtin_name(25)));
    assert(!(builtin_name(12) =~= builtin_name(26)));
    assert(!(builtin_name(13) =~= builtin_name(14)));
    assert(!(builtin_name(13) =~= builtin_name(15)));
    assert(!(builtin_name(13) =~= builtin_name(16)));
    assert(!(builtin_name(13) =~= builtin_name(17)));
    assert(!(builtin_name(13) =~= builtin_name(18)));
    assert(!(builtin_name(13) =~= builtin_name(19)));
    assert(!(builtin_name(13) =~= builtin_name(20)));
    assert(!(builtin_name(13) =~= builtin_name(21)));
    assert(!(builtin_name(13) =~= builtin_name(22)));
    assert(!(builtin_name(13) =~= builtin_name(23)));
    assert(!(builtin_name(13) =~= builtin_name(24)));
    assert(!(builtin_name(13) =~= builtin_name(25)));
    assert(!(builtin_name(13) =~= builtin_name(26)));
    assert(!(builtin_name(14) =~= builtin_name(15)));
    assert(!(builtin_name(14) =~= builtin_name(16)));
    assert(!(builtin_name(14) =~= builtin_name(17)));
    assert(!(builtin_name(14) =~= builtin_name(18)));
    assert(builtin_name(14)[20] != builtin_name(19)[20]);
    assert(!(builtin_name(14) =~= builtin_name(19)));
    assert(!(builtin_name(14) =~= builtin_name(20)));
    assert(!(builtin_name(14) =~= builtin_name(21)));
    assert(!(builtin_name(14) =~= builtin_name(22)));
    assert(!(builtin_name(14) =~= builtin_name(23)));
    assert(!(builtin_name(14) =~= builtin_name(24)));
    assert(!(builtin_name(14) =~= builtin_name(25)));
    assert(!(builtin_name(14) =~= builtin_name(26)));
    assert(!(builtin_name(15) =~= builtin_name(16)));
    assert(!(builtin_name(15) =~= builtin_name(17)));
    assert(!(builtin_name(15) =~= builtin_name(18)));
    assert(!(builtin_name(15) =~= builtin_name(19)));
    assert(!(builtin_name(15) =~= builtin_name(20)));
    assert(builtin_name(15)[20] != builtin_name(21)[20]);
    assert(!(builtin_name(15) =~= builtin_name(21)));
    assert(!(builtin_name(15) =~= builtin_name(22)));
    assert(!(builtin_name(15) =~= builtin_name(23)));
    assert(!(builtin_name(15) =~= builtin_name(24)));
    assert(!(builtin_name(15) =~= builtin_name(25)));
    assert(!(builtin_name(15) =~= builtin_name(26)));
    assert(!(builtin_name(16) =~= builtin_name(17)));
    assert(!(builtin_name(16) =~= builtin_name(18)));
    assert(!(builtin_name(16) =~= builtin_name(19)));
    assert(!(builtin_name(16) =~= builtin_name(20)));
    assert(!(builtin_name(16) =~= builtin_name(21)));
    assert(!(builtin_name(16) =~= builtin_name(22)));
    assert(!(builtin_name(16) =~= builtin_name(23)));
    assert(!(builtin_name(16) =~= builtin_name(24)));
    assert(!(builtin_name(16) =~= builtin_name(25)));
    assert(!(builtin_name(16) =~= builtin_name(26)));
    assert(!(builtin_name(17) =~= builtin_name(18)));
    assert(!(builtin_name(17) =~= builtin_name(19)));
    assert(!(builtin_name(17) =~= builtin_name(20)));
    assert(!(builtin_name(17) =~= builtin_name(21)));
    assert(!(builtin_name(17) =~= builtin_name(22)));
    assert(!(builtin_name(17) =~= builtin_name(23)));
    assert(!(builtin_name(17) =~= builtin_name(24)));
    assert(!(builtin_name(17) =~= builtin_name(25)));
    assert(!(builtin_name(17) =~= builtin_name(26)));
    assert(!(builtin_name(18) =~= builtin_name(19)));
    assert(builtin_name(18)[20] != builtin_name(20)[20]);
    assert(!(builtin_name(18) =~= builtin_name(20)));
    assert(!(builtin_name(18) =~= builtin_name(21)));
    assert(!(builtin_name(18) =~= builtin_name(22)));
    assert(!(builtin_name(18) =~= builtin_name(23)));
    assert(!(builtin_name(18) =~= builtin_name(24)));
    assert(!(builtin_name(18) =~= builtin_name(25)));
    assert(!(builtin_name(18) =~= builtin_name(26)));
    assert(!(builtin_name(19) =~= builtin_name(20)));
    assert(!(builtin_name(19) =~= builtin_name(21)));
    assert(!(builtin_name(19) =~= builtin_name(22)));
    assert(!(builtin_name(19) =~= builtin_name(23)));
    assert(!(builtin_name(19) =~= builtin_name(24)));
    assert(!(builtin_name(19) =~= builtin_name(25)));
    assert(!(builtin_name(19) =~= builtin_name(26)));
    assert(!(builtin_name(20) =~= builtin_name(21)));
    assert(!(builtin_name(20) =~= builtin_name(22)));
    assert(!(builtin_name(20) =~= builtin_name(23)));
    assert(!(builtin_name(20) =~= builtin_name(24)));
    assert(!(builtin_name(20) =~= builtin_name(25)));
    assert(!(builtin_name(20) =~= builtin_name(26)));
    assert(!(builtin_name(21) =~= builtin_name(22)));
    assert(!(builtin_name(21) =~= builtin_name(23)));
    assert(!(builtin_name(21) =~= builtin_name(24)));
    assert(!(builtin_name(21) =~= builtin_name(25)));
    assert(!(builtin_name(21) =~= builtin_name(26)));
    assert(!(builtin_name(22) =~= builtin_name(23)));
    assert(builtin_name(22)[21] != builtin_name(24)[21]);
    assert(!(builtin_name(22) =~= builtin_name(24)));
    assert(!(builtin_name(22) =~= builtin_name(25)));
    assert(!(builtin_name(22) =~= builtin_name(26)));
    assert(!(builtin_name(23) =~= builtin_name(24)));
    assert(!(builtin_name(23) =~= builtin_name(25)));
    assert(!(builtin_name(23) =~= builtin_name(26)));
    assert(!(builtin_name(24) =~= builtin_name(25)));
    assert(!(builtin_name(24) =~= builtin_name(26)));
    assert(builtin_name(25)[20] != builtin_name(26)[20]);
    assert(!(builtin_name(25) =~= builtin_name(26)));
    assert forall|i: int, j: int|
        0 <= i < 27 && 0 <= j < 27 && i != j implies builtin_name(i) != builtin_name(j) by {
    }
}

} // verus!
