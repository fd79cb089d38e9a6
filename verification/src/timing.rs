//! How long the answer to a request took: which metric records it, under
//! which labels. The clock is the caller's; times are in milliseconds.
use vstd::prelude::*;
use vstd::string::*;
use crate::actions::name_of;
use crate::actions::ActionType;
use crate::params::Param;

verus! {

/// A running measurement: the metric it will be recorded in, its labels and
/// the time at which it started.
#[derive(Clone, Debug)]
pub struct TimeMeasurement {
    pub metric_name: String,
    pub labels: Vec<Param>,
    pub started_at_ms: u64,
}

/// The name of the counter of the frames that subscriptions sent.
pub const EXCHANGE_FRAMES_SENT: &'static str = "flight_do_exchange_data_updates_sent";

impl TimeMeasurement {
    /// Starts a measurement at `now_ms`.
    pub fn new(metric_name: &str, labels: Vec<Param>, now_ms: u64) -> (r: TimeMeasurement)
        ensures
            r.metric_name@ == metric_name@,
            r.labels == labels,
            r.started_at_ms == now_ms,
    {
        TimeMeasurement { metric_name: metric_name.to_owned(), labels, started_at_ms: now_ms }
    }

    /// The time that has passed since the measurement started. A clock that
    /// went backwards gives zero.
    pub fn elapsed_ms(&self, now_ms: u64) -> (r: u64)
        ensures
            r == if now_ms >= self.started_at_ms {
                now_ms - self.started_at_ms
            } else {
                0
            },
    {
        if now_ms >= self.started_at_ms {
            now_ms - self.started_at_ms
        } else {
            0
        }
    }
}

/// The measurement of a listing of the actions: it has no labels.
pub fn list_actions_measurement(now_ms: u64) -> (r: TimeMeasurement)
    ensures
        r.metric_name@ == "flight_list_actions_duration_ms"@,
        r.labels@.len() == 0,
        r.started_at_ms == now_ms,
{
    TimeMeasurement::new("flight_list_actions_duration_ms", Vec::new(), now_ms)
}

/// The measurement of an action: its one label is the kind of the action.
pub fn do_action_measurement(kind: ActionType, now_ms: u64) -> (r: TimeMeasurement)
    ensures
        r.metric_name@ == "flight_do_action_duration_ms"@,
        r.labels@.len() == 1,
        r.labels@[0].key@ == "action_type"@,
        r.labels@[0].value@ == name_of(kind),
        r.started_at_ms == now_ms,
{
    let mut labels: Vec<Param> = Vec::new();
    labels.push(Param { key: "action_type".to_owned(), value: kind.to_string() });
    TimeMeasurement::new("flight_do_action_duration_ms", labels, now_ms)
}

/// The measurement of a listing of the catalogs: it has no labels.
pub fn get_catalogs_measurement(now_ms: u64) -> (r: TimeMeasurement)
    ensures
        r.metric_name@ == "flight_do_get_get_catalogs_duration_ms"@,
        r.labels@.len() == 0,
        r.started_at_ms == now_ms,
{
    TimeMeasurement::new("flight_do_get_get_catalogs_duration_ms", Vec::new(), now_ms)
}

} // verus!
