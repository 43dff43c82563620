//! The health scope controller's decisions: when a scope's health is due to
//! be aggregated, how it is probed, and the status it then records.
use vstd::prelude::*;
use crate::schematic::scopes::health::HealthScope;
use crate::strings::str_eq;
use crate::strmap::{opt_view, views};

verus! {

pub const DEFAULT_PROBE_INTERVAL: i64 = 30;

/// A component instance of a health scope, with the health last probed.
#[derive(Debug)]
pub struct ScopeComponent {
    pub name: String,
    pub instance_name: String,
    pub status: Option<String>,
}

/// The status the health scope controller records: the components with
/// their health, and when it last aggregated them.
#[derive(Debug)]
pub struct AggregateStatus {
    pub components: Option<Vec<ScopeComponent>>,
    pub last_aggregate_timestamp: Option<String>,
}

impl Default for AggregateStatus {
    fn default() -> (s: Self)
        ensures
            s.components is None,
            s.last_aggregate_timestamp is None,
    {
        AggregateStatus { components: None, last_aggregate_timestamp: None }
    }
}

/// The text is a date and time as RFC 3339 writes it, as
/// `chrono::DateTime::parse_from_rfc3339` reads it.
pub uninterp spec fn rfc3339_valid(s: Seq<char>) -> bool;

/// Calls `chrono::DateTime::parse_from_rfc3339` on the text, and where it
/// reads, `Utc::now().signed_duration_since(..).num_seconds()`: the whole
/// seconds from that time to now. The contract says only that the result is
/// there exactly when the text reads; the number depends on the clock.
#[verifier::external_body]
fn seconds_since_rfc3339(s: &str) -> (r: Option<i64>)
    ensures
        r is Some <==> rfc3339_valid(s@),
{
    match chrono::DateTime::parse_from_rfc3339(s) {
        Ok(last) => Some(chrono::Utc::now().signed_duration_since(last).num_seconds()),
        Err(_) => None,
    }
}

/// The time of the last aggregation a status records.
pub open spec fn last_timestamp(status: Option<AggregateStatus>) -> Option<Seq<char>> {
    match status {
        Some(s) => opt_view(s.last_aggregate_timestamp),
        None => None,
    }
}

/// Aggregation is due: the interval is not positive, nothing records the last
/// aggregation, the record does not read as a time, or at least the interval
/// has passed since it.
pub open spec fn spec_time_to_aggregate(status: Option<AggregateStatus>, interval: i64, elapsed: Option<i64>) -> bool {
    interval <= 0 || last_timestamp(status) is None || match elapsed {
        None => true,
        Some(e) => e >= interval,
    }
}

/// Whether aggregation is due, given the seconds elapsed since the recorded
/// time (`None` where it does not read as a time).
pub fn time_to_aggregate_after(status: &Option<AggregateStatus>, interval: i64, elapsed: Option<i64>) -> (b: bool)
    ensures
        b == spec_time_to_aggregate(*status, interval, elapsed),
{
    if interval <= 0 {
        return true;
    }
    match status {
        None => true,
        Some(s) => match &s.last_aggregate_timestamp {
            None => true,
            Some(_) => match elapsed {
                None => true,
                Some(e) => e >= interval,
            },
        },
    }
}

/// Whether aggregation is due now. Where the interval is positive and a
/// readable time is recorded, the answer depends on the clock.
pub fn time_to_aggregate(status: &Option<AggregateStatus>, interval: i64) -> (b: bool)
    ensures
        interval <= 0 ==> b,
        last_timestamp(*status) is None ==> b,
        (last_timestamp(*status) matches Some(t) && !rfc3339_valid(t)) ==> b,
{
    let elapsed = match status {
        Some(s) => match &s.last_aggregate_timestamp {
            Some(t) => seconds_since_rfc3339(t.as_str()),
            None => None,
        },
        None => None,
    };
    time_to_aggregate_after(status, interval, elapsed)
}

/// What the controller does with a health scope.
#[derive(Debug, PartialEq)]
pub enum AggregatePlan {
    /// Aggregation is not due yet.
    Skip,
    /// Probe each component's instance status.
    Probe,
    /// The scope asks for a probe the controller does not know.
    UnknownProbe(String),
}

/// The interval between aggregations of a scope: its probe interval, else the default.
pub open spec fn probe_interval(spec: HealthScope) -> i64 {
    match spec.probe_interval {
        Some(i) => i,
        None => 30,
    }
}

/// The plan for a scope: nothing where aggregation is not due; a probe of
/// the instances' status for the `kube-get` method on `.status`; an error
/// for any other probe.
pub fn aggregate_plan(spec: &HealthScope, due: bool) -> (p: AggregatePlan)
    ensures
        !due ==> p == AggregatePlan::Skip,
        due && spec.probe_method@ == "kube-get"@ && spec.probe_endpoint@ == ".status"@ ==> p == AggregatePlan::Probe,
        due && !(spec.probe_method@ == "kube-get"@ && spec.probe_endpoint@ == ".status"@) ==> (p matches AggregatePlan::UnknownProbe(
            m,
        ) && m@ == "unknown probe-method "@ + spec.probe_method@ + " and probe_endpoint "@ + spec.probe_endpoint@),
{
    if !due {
        return AggregatePlan::Skip;
    }
    if str_eq(spec.probe_method.as_str(), "kube-get") && str_eq(spec.probe_endpoint.as_str(), ".status") {
        AggregatePlan::Probe
    } else {
        AggregatePlan::UnknownProbe(
            "unknown probe-method ".to_string().concat(spec.probe_method.as_str()).concat(" and probe_endpoint ").concat(
                spec.probe_endpoint.as_str(),
            ),
        )
    }
}

/// The health of a component from what reading its instance gave: its
/// status, `unhealthy` where it has none or could not be read.
pub fn component_health(read: Result<Option<String>, String>) -> (s: String)
    ensures
        s@ == match read {
            Ok(Some(st)) => st@,
            _ => "unhealthy"@,
        },
{
    match read {
        Ok(Some(st)) => st,
        _ => "unhealthy".to_string(),
    }
}

/// The components a status lists.
pub open spec fn listed(status: Option<AggregateStatus>) -> Option<Seq<ScopeComponent>> {
    match status {
        Some(s) => match s.components {
            Some(v) => Some(v@),
            None => None,
        },
        None => None,
    }
}

/// `r` lists each component that `status` lists, in order, with the health
/// probed for it; it lists none where `status` lists none.
pub open spec fn components_probed(r: AggregateStatus, status: Option<AggregateStatus>, healths: Seq<String>) -> bool {
    match listed(status) {
        None => r.components is None,
        Some(cs) => r.components matches Some(v) && v@.len() == cs.len() && forall|i: int|
            0 <= i < cs.len() ==> (#[trigger] v@[i]).name@ == cs[i].name@ && v@[i].instance_name@
                == cs[i].instance_name@ && opt_view(v@[i].status) == Some(healths[i]@),
    }
}

/// The status after a probe: each listed component with its probed health,
/// and the time of the probe.
pub fn probed_status(status: &Option<AggregateStatus>, healths: &Vec<String>, timestamp: String) -> (r: AggregateStatus)
    requires
        listed(*status) matches Some(cs) ==> cs.len() == healths@.len(),
    ensures
        opt_view(r.last_aggregate_timestamp) == Some(timestamp@),
        components_probed(r, *status, healths@),
{
    let components = match status {
        Some(s) => match &s.components {
            Some(cs) => {
                let mut out: Vec<ScopeComponent> = Vec::new();
                let n = cs.len();
                let mut i: usize = 0;
                while i < n
                    invariant
                        n == cs@.len(),
                        n == healths@.len(),
                        i <= n,
                        out@.len() == i,
                        forall|j: int|
                            0 <= j < i ==> (#[trigger] out@[j]).name@ == cs@[j].name@ && out@[j].instance_name@
                                == cs@[j].instance_name@ && opt_view(out@[j].status) == Some(healths@[j]@),
                    decreases n - i,
                {
                    out.push(
                        ScopeComponent {
                            name: cs[i].name.clone(),
                            instance_name: cs[i].instance_name.clone(),
                            status: Some(healths[i].clone()),
                        },
                    );
                    i = i + 1;
                }
                Some(out)
            },
            None => None,
        },
        None => None,
    };
    AggregateStatus { components, last_aggregate_timestamp: Some(timestamp) }
}

/// Calls `chrono::Utc::now().to_rfc3339()`: the time now, as RFC 3339 writes
/// it. The contract says that `parse_from_rfc3339` reads the text, as the
/// documentation of both says; which time it holds depends on the clock and
/// is left unsaid.
#[verifier::external_body]
fn now_rfc3339() -> (r: String)
    ensures
        rfc3339_valid(r@),
{
    chrono::Utc::now().to_rfc3339()
}

/// The status after a probe made now: each listed component with its probed
/// health, and the current time, which reads back as a time.
pub fn probed_status_now(status: &Option<AggregateStatus>, healths: &Vec<String>) -> (r: AggregateStatus)
    requires
        listed(*status) matches Some(cs) ==> cs.len() == healths@.len(),
    ensures
        last_timestamp(Some(r)) matches Some(t) && rfc3339_valid(t),
        components_probed(r, *status, healths@),
{
    let now = now_rfc3339();
    probed_status(status, healths, now)
}

/// Once a scope is due for aggregation, it stays due as more time passes.
pub proof fn lemma_due_stays_due(status: Option<AggregateStatus>, interval: i64, e1: i64, e2: i64)
    requires
        spec_time_to_aggregate(status, interval, Some(e1)),
        e1 <= e2,
    ensures
        spec_time_to_aggregate(status, interval, Some(e2)),
{
}

/// A status that records a readable time of its last aggregation is next due
/// exactly when the interval is not positive or has passed since that time.
pub proof fn lemma_recorded_time_decides(status: AggregateStatus, interval: i64, elapsed: i64)
    requires
        last_timestamp(Some(status)) is Some,
    ensures
        spec_time_to_aggregate(Some(status), interval, Some(elapsed)) <==> (interval <= 0 || elapsed >= interval),
{
}

} // verus!
