use vstd::prelude::*;

use rand::Rng;

use crate::telemetry::TelemetryEvent;

verus! {

/// Exclusive upper bound of a synthetic reading, in hundredths (100.00).
pub const MAX_GENERATED_VALUE: usize = 10000;

/// The values a synthetic reading is drawn from.
pub struct Catalog {
    pub devices: Vec<String>,
    pub ips: Vec<String>,
    pub locations: Vec<String>,
    /// Ids of the metric types a reading may name.
    pub metric_type_ids: Vec<i32>,
    pub actions: Vec<String>,
}

/// Which entry of each list of a catalog a reading takes, and its value.
pub struct Picks {
    pub device: usize,
    pub ip: usize,
    pub location: usize,
    pub metric: usize,
    pub value: i64,
    pub action: usize,
}

impl Catalog {
    /// Every list has at least one entry.
    pub open spec fn wf(&self) -> bool {
        &&& self.devices.len() > 0
        &&& self.ips.len() > 0
        &&& self.locations.len() > 0
        &&& self.metric_type_ids.len() > 0
        &&& self.actions.len() > 0
    }

    /// `p` names an entry of every list.
    pub open spec fn admits(&self, p: Picks) -> bool {
        &&& p.device < self.devices.len()
        &&& p.ip < self.ips.len()
        &&& p.location < self.locations.len()
        &&& p.metric < self.metric_type_ids.len()
        &&& p.action < self.actions.len()
    }

    /// The reading that `p` selects.
    pub open spec fn event_spec(&self, p: Picks) -> TelemetryEvent {
        TelemetryEvent {
            device_name: self.devices@[p.device as int],
            ip_address: self.ips@[p.ip as int],
            location: Some(self.locations@[p.location as int]),
            metric_type_id: self.metric_type_ids@[p.metric as int],
            metric_value: p.value,
            action_description: Some(self.actions@[p.action as int]),
        }
    }

    /// The reading that `p` selects from this catalog.
    pub fn event_from_picks(&self, p: &Picks) -> (r: TelemetryEvent)
        requires
            self.admits(*p),
        ensures
            r == self.event_spec(*p),
    {
        TelemetryEvent {
            device_name: self.devices[p.device].clone(),
            ip_address: self.ips[p.ip].clone(),
            location: Some(self.locations[p.location].clone()),
            metric_type_id: self.metric_type_ids[p.metric],
            metric_value: p.value,
            action_description: Some(self.actions[p.action].clone()),
        }
    }
}

/// Relies on rand::thread_rng and Rng::gen_range: a uniformly drawn index
/// below `n` (gen_range panics on an empty range, hence `n > 0`).
#[verifier::external_body]
fn random_below(n: usize) -> (r: usize)
    requires
        n > 0,
    ensures
        r < n,
{
    rand::thread_rng().gen_range(0..n)
}

/// A random reading in the shape of a pushed event: one entry of each list, and a value in
/// `[0, MAX_GENERATED_VALUE)` hundredths.
pub fn generate_event(catalog: &Catalog) -> (r: TelemetryEvent)
    requires
        catalog.wf(),
    ensures
        exists|p: Picks|
            catalog.admits(p) && 0 <= p.value < MAX_GENERATED_VALUE && r == catalog.event_spec(p),
{
    let p = Picks {
        device: random_below(catalog.devices.len()),
        ip: random_below(catalog.ips.len()),
        location: random_below(catalog.locations.len()),
        metric: random_below(catalog.metric_type_ids.len()),
        value: random_below(MAX_GENERATED_VALUE) as i64,
        action: random_below(catalog.actions.len()),
    };
    catalog.event_from_picks(&p)
}

/// Readings produced but not yet handed to a fetch.
pub struct EventBuffer {
    pub events: Vec<TelemetryEvent>,
}

impl EventBuffer {
    pub fn new() -> (r: Self)
        ensures
            r.events@.len() == 0,
    {
        EventBuffer { events: Vec::new() }
    }

    /// Appends one reading.
    pub fn push(&mut self, e: TelemetryEvent)
        ensures
            final(self).events@ == old(self).events@.push(e),
    {
        self.events.push(e);
    }

    /// Hands out every buffered reading, in order, and empties the buffer.
    pub fn get_events(&mut self) -> (r: Vec<TelemetryEvent>)
        ensures
            r@ == old(self).events@,
            final(self).events@.len() == 0,
    {
        let mut out: Vec<TelemetryEvent> = Vec::new();
        core::mem::swap(&mut out, &mut self.events);
        out
    }

    /// Drops every buffered reading.
    pub fn clear(&mut self)
        ensures
            final(self).events@.len() == 0,
    {
        self.events.clear();
    }
}

} // verus!
