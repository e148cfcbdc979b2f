use vstd::prelude::*;

use crate::clock::now_micros;
use crate::models::{Device, DeviceStatus, MetricType, TelemetryData, Threshold};
use crate::threshold::{anomaly_spec, is_anomaly, owned};

verus! {

/// Largest row id a table can hand out (ids are positive `i32`).
pub const MAX_ROWS: usize = 2147483647;

/// An inbound reading, as pushed by a client or fetched by the poller.
pub struct TelemetryEvent {
    pub device_name: String,
    pub ip_address: String,
    pub location: Option<String>,
    pub metric_type_id: i32,
    /// Hundredths of a unit.
    pub metric_value: i64,
    pub action_description: Option<String>,
}

/// A stored reading joined with its device, as listed to operators.
pub struct TelemetryResponse {
    pub device_name: String,
    pub ip_address: String,
    pub location: Option<String>,
    /// Hundredths of a unit.
    pub metric_value: i64,
    pub is_anomaly: bool,
    pub action_description: Option<String>,
    /// Server time of ingestion, in microseconds since the Unix epoch.
    pub recorded_at: i64,
}

/// Why one event of a batch was skipped.
#[derive(PartialEq, Eq, Structural, Clone, Copy, Debug)]
pub enum IngestError {
    /// The event names a metric type that the catalog does not hold.
    UnknownMetricType,
    /// A table has handed out every row id.
    StorageFull,
}

/// Devices, the metric catalog, thresholds and classified readings.
pub struct TelemetryStore {
    pub devices: Vec<Device>,
    pub metric_types: Vec<MetricType>,
    pub thresholds: Vec<Threshold>,
    /// Kept ordered by `recorded_at`, most recent first.
    pub records: Vec<TelemetryData>,
}

pub open spec fn has_device(devices: Seq<Device>, name: Seq<char>) -> bool {
    exists|k: int| 0 <= k < devices.len() && devices[k].device_name@ == name
}

pub open spec fn metric_known(types: Seq<MetricType>, id: i32) -> bool {
    exists|k: int| 0 <= k < types.len() && types[k].id == id
}

/// The threshold row of a metric type: the first row that names it.
pub open spec fn threshold_for(s: Seq<Threshold>, id: i32) -> Option<Threshold>
    decreases s.len(),
{
    if s.len() == 0 {
        None
    } else if s[0].metric_type_id == Some(id) {
        Some(s[0])
    } else {
        threshold_for(s.drop_first(), id)
    }
}

pub open spec fn sorted_desc(s: Seq<TelemetryData>) -> bool {
    forall|i: int, j: int| 0 <= i < j < s.len() ==> s[i].recorded_at >= s[j].recorded_at
}

/// The device a record points at lies among the first `n` device rows.
pub open spec fn refers_to_device(r: TelemetryData, n: int) -> bool {
    match r.device_id {
        Some(d) => 1 <= d <= n,
        None => false,
    }
}

/// Get-or-create by name: an existing device is kept as it is; otherwise a
/// new row with the next id and the given attributes is appended.
pub open spec fn resolve_spec(
    devices: Seq<Device>,
    name: String,
    ip: String,
    location: Option<String>,
) -> Seq<Device> {
    if has_device(devices, name@) {
        devices
    } else {
        devices.push(
            Device {
                id: (devices.len() + 1) as i32,
                device_name: name,
                ip_address: ip,
                location,
                status: DeviceStatus::Active,
                added_by: None,
            },
        )
    }
}

/// `r` is the record written for event `e` at time `t` with anomaly flag `a`,
/// its device taken from `devices`.
pub open spec fn record_of(
    r: TelemetryData,
    e: TelemetryEvent,
    t: i64,
    a: bool,
    devices: Seq<Device>,
) -> bool {
    &&& r.metric_type_id == Some(e.metric_type_id)
    &&& r.metric_value == e.metric_value
    &&& r.recorded_at == t
    &&& r.is_anomaly == a
    &&& r.action_description == e.action_description
    &&& match r.device_id {
        Some(d) => 1 <= d <= devices.len() && devices[d - 1].device_name@ == e.device_name@,
        None => false,
    }
}

/// `e` can be stored: its metric type is known and no table is out of ids.
pub open spec fn ingest_possible(s: TelemetryStore, e: TelemetryEvent) -> bool {
    &&& metric_known(s.metric_types@, e.metric_type_id)
    &&& has_device(s.devices@, e.device_name@) || s.devices.len() < MAX_ROWS
    &&& s.records.len() < MAX_ROWS
}

/// `new` is `old` after storing `e` at server time `t`: the device resolved,
/// the reading classified against the threshold of its metric, and one
/// record inserted at its place in the time order.
pub open spec fn ingested(old: TelemetryStore, new: TelemetryStore, e: TelemetryEvent, t: i64) -> bool {
    &&& new.metric_types == old.metric_types
    &&& new.thresholds == old.thresholds
    &&& new.devices@ == resolve_spec(old.devices@, e.device_name, e.ip_address, e.location)
    &&& exists|p: int|
        0 <= p <= old.records.len() && new.records@ == old.records@.insert(p, new.records@[p])
            && record_of(
            new.records@[p],
            e,
            t,
            anomaly_spec(threshold_for(old.thresholds@, e.metric_type_id), e.metric_value as int),
            new.devices@,
        )
}

/// Every event of the batch names a known metric type and no table can run
/// out of ids while the batch is stored.
pub open spec fn batch_fits(s: TelemetryStore, events: Seq<TelemetryEvent>) -> bool {
    &&& forall|k: int| 0 <= k < events.len() ==> metric_known(s.metric_types@, #[trigger] events[k].metric_type_id)
    &&& s.records.len() + events.len() <= MAX_ROWS
    &&& s.devices.len() + events.len() <= MAX_ROWS
}

/// One step of a batch: a storable event is stored at some server time; any
/// other event leaves the store as it was.
pub open spec fn step(s: TelemetryStore, next: TelemetryStore, e: TelemetryEvent) -> bool {
    if ingest_possible(s, e) {
        exists|t: i64| ingested(s, next, e, t)
    } else {
        next == s
    }
}

/// How many of the first `k` events were stored along `states`.
pub open spec fn stored_count(states: Seq<TelemetryStore>, events: Seq<TelemetryEvent>, k: int) -> int
    decreases k,
{
    if k <= 0 {
        0
    } else {
        stored_count(states, events, k - 1) + if ingest_possible(states[k - 1], events[k - 1]) {
            1int
        } else {
            0int
        }
    }
}

/// `states` runs from `old` to `new` through one step per event, in order.
pub open spec fn batch_run(
    old: TelemetryStore,
    new: TelemetryStore,
    events: Seq<TelemetryEvent>,
    states: Seq<TelemetryStore>,
) -> bool {
    &&& states.len() == events.len() + 1
    &&& states[0] == old
    &&& states[events.len() as int] == new
    &&& forall|i: int| 0 <= i < events.len() ==> step(#[trigger] states[i], states[i + 1], events[i])
}

proof fn lemma_stored_count_prefix(
    a: Seq<TelemetryStore>,
    b: Seq<TelemetryStore>,
    events: Seq<TelemetryEvent>,
    k: int,
)
    requires
        0 <= k <= a.len(),
        k <= b.len(),
        forall|i: int| 0 <= i < k ==> a[i] == b[i],
    ensures
        stored_count(a, events, k) == stored_count(b, events, k),
    decreases k,
{
    if k > 0 {
        lemma_stored_count_prefix(a, b, events, k - 1);
    }
}

/// Every record of `old` is still in `new`.
pub open spec fn keeps_records(old: TelemetryStore, new: TelemetryStore) -> bool {
    forall|i: int| 0 <= i < old.records.len() ==> new.records@.contains(#[trigger] old.records@[i])
}

/// What a listed reading shows of record `r` and its device.
pub open spec fn response_of(resp: TelemetryResponse, r: TelemetryData, devices: Seq<Device>) -> bool {
    let d = devices[r.device_id->Some_0 - 1];
    &&& resp.device_name == d.device_name
    &&& resp.ip_address == d.ip_address
    &&& resp.location == d.location
    &&& resp.metric_value == r.metric_value
    &&& resp.is_anomaly == r.is_anomaly
    &&& resp.action_description == r.action_description
    &&& resp.recorded_at == r.recorded_at
}

pub(crate) fn clone_text(o: &Option<String>) -> (r: Option<String>)
    ensures
        r == *o,
{
    match o {
        Some(s) => Some(s.clone()),
        None => None,
    }
}


fn find_device(devices: &Vec<Device>, name: &String) -> (r: Option<usize>)
    ensures
        match r {
            Some(k) => k < devices.len() && devices@[k as int].device_name@ == name@,
            None => !has_device(devices@, name@),
        },
{
    let mut i: usize = 0;
    while i < devices.len()
        invariant
            i <= devices.len(),
            forall|k: int| 0 <= k < i ==> devices@[k].device_name@ != name@,
        decreases devices.len() - i,
    {
        if devices[i].device_name == *name {
            return Some(i);
        }
        i += 1;
    }
    None
}

fn metric_type_exists(types: &Vec<MetricType>, id: i32) -> (r: bool)
    ensures
        r == metric_known(types@, id),
{
    let mut i: usize = 0;
    while i < types.len()
        invariant
            i <= types.len(),
            forall|k: int| 0 <= k < i ==> types@[k].id != id,
        decreases types.len() - i,
    {
        if types[i].id == id {
            return true;
        }
        i += 1;
    }
    false
}

fn find_threshold(thresholds: &Vec<Threshold>, id: i32) -> (r: Option<&Threshold>)
    ensures
        owned(r) == threshold_for(thresholds@, id),
{
    let mut i: usize = thresholds.len();
    let mut found: Option<&Threshold> = None;
    while i > 0
        invariant
            i <= thresholds.len(),
            owned(found) == threshold_for(
                thresholds@.subrange(i as int, thresholds.len() as int),
                id,
            ),
        decreases i,
    {
        i -= 1;
        assert(thresholds@.subrange(i as int, thresholds.len() as int).drop_first()
            =~= thresholds@.subrange(i + 1, thresholds.len() as int));
        let names = match thresholds[i].metric_type_id {
            Some(m) => m == id,
            None => false,
        };
        if names {
            found = Some(&thresholds[i]);
        }
    }
    assert(thresholds@.subrange(0, thresholds.len() as int) =~= thresholds@);
    found
}

/// First position whose record is strictly older than `t`: inserting there
/// keeps the order, after any records of the same time.
fn insert_position(records: &Vec<TelemetryData>, t: i64) -> (p: usize)
    requires
        sorted_desc(records@),
    ensures
        p <= records.len(),
        forall|k: int| 0 <= k < p ==> records@[k].recorded_at >= t,
        forall|k: int| p <= k < records.len() ==> records@[k].recorded_at < t,
{
    let mut i: usize = 0;
    while i < records.len() && records[i].recorded_at >= t
        invariant
            i <= records.len(),
            forall|k: int| 0 <= k < i ==> records@[k].recorded_at >= t,
        decreases records.len() - i,
    {
        i += 1;
    }
    i
}

impl TelemetryStore {
    /// Device names are unique, ids follow positions, every record points at
    /// a device, and records are ordered most recent first.
    pub open spec fn wf(&self) -> bool {
        &&& self.devices.len() <= MAX_ROWS
        &&& self.records.len() <= MAX_ROWS
        &&& forall|i: int| 0 <= i < self.devices.len() ==> self.devices@[i].id == i + 1
        &&& forall|i: int, j: int|
            0 <= i < j < self.devices.len() ==> self.devices@[i].device_name@
                != self.devices@[j].device_name@
        &&& forall|i: int|
            0 <= i < self.records.len() ==> refers_to_device(
                self.records@[i],
                self.devices.len() as int,
            )
        &&& sorted_desc(self.records@)
    }

    /// A store with the given metric catalog and thresholds, and no devices
    /// or readings.
    pub fn new(metric_types: Vec<MetricType>, thresholds: Vec<Threshold>) -> (r: Self)
        ensures
            r.wf(),
            r.metric_types == metric_types,
            r.thresholds == thresholds,
            r.devices@.len() == 0,
            r.records@.len() == 0,
    {
        TelemetryStore { devices: Vec::new(), metric_types, thresholds, records: Vec::new() }
    }

    /// Get-or-create a device by name. An existing device keeps its address
    /// and location; the given ones are used only for a new row.
    pub fn resolve_device(
        &mut self,
        name: &String,
        ip: &String,
        location: &Option<String>,
    ) -> (r: Result<i32, IngestError>)
        requires
            old(self).wf(),
        ensures
            final(self).wf(),
            final(self).metric_types == old(self).metric_types,
            final(self).thresholds == old(self).thresholds,
            final(self).records == old(self).records,
            r is Ok <==> (has_device(old(self).devices@, name@) || old(self).devices.len()
                < MAX_ROWS),
            r is Err ==> r == Err::<i32, IngestError>(IngestError::StorageFull) && *final(self)
                == *old(self),
            r is Ok ==> final(self).devices@ == resolve_spec(
                old(self).devices@,
                *name,
                *ip,
                *location,
            ),
            r is Ok ==> 1 <= r->Ok_0 <= final(self).devices.len(),
            r is Ok ==> final(self).devices@[r->Ok_0 - 1].device_name@ == name@,
    {
        match find_device(&self.devices, name) {
            Some(k) => Ok(self.devices[k].id),
            None => {
                if self.devices.len() >= MAX_ROWS {
                    return Err(IngestError::StorageFull);
                }
                let id = (self.devices.len() + 1) as i32;
                let d = Device {
                    id,
                    device_name: name.clone(),
                    ip_address: ip.clone(),
                    location: clone_text(location),
                    status: DeviceStatus::Active,
                    added_by: None,
                };
                self.devices.push(d);
                assert forall|i: int| 0 <= i < self.records.len() implies refers_to_device(
                    self.records@[i],
                    self.devices.len() as int,
                ) by {
                    assert(refers_to_device(self.records@[i], self.devices.len() - 1));
                }
                Ok(id)
            },
        }
    }

    /// Lists every stored reading joined with its device, most recent first.
    pub fn get_telemetry(&self) -> (r: Vec<TelemetryResponse>)
        requires
            self.wf(),
        ensures
            r.len() == self.records.len(),
            forall|i: int| 0 <= i < r.len() ==> response_of(r@[i], self.records@[i], self.devices@),
            forall|i: int, j: int| 0 <= i < j < r.len() ==> r@[i].recorded_at >= r@[j].recorded_at,
    {
        let mut out: Vec<TelemetryResponse> = Vec::new();
        let mut i: usize = 0;
        while i < self.records.len()
            invariant
                self.wf(),
                i <= self.records.len(),
                out.len() == i,
                forall|k: int| 0 <= k < i ==> response_of(out@[k], self.records@[k], self.devices@),
            decreases self.records.len() - i,
        {
            let rec = &self.records[i];
            assert(refers_to_device(self.records@[i as int], self.devices.len() as int));
            let d = match rec.device_id {
                Some(d) => d,
                None => 0,
            };
            let dev = &self.devices[(d - 1) as usize];
            out.push(
                TelemetryResponse {
                    device_name: dev.device_name.clone(),
                    ip_address: dev.ip_address.clone(),
                    location: clone_text(&dev.location),
                    metric_value: rec.metric_value,
                    is_anomaly: rec.is_anomaly,
                    action_description: clone_text(&rec.action_description),
                    recorded_at: rec.recorded_at,
                },
            );
            i += 1;
        }
        out
    }

    /// Stores one event at server time `t`: resolves its device, classifies
    /// the reading against its metric's threshold, and inserts the record at
    /// its place in the time order. On failure nothing changes.
    pub fn ingest_at(&mut self, e: &TelemetryEvent, t: i64) -> (r: Result<(), IngestError>)
        requires
            old(self).wf(),
        ensures
            final(self).wf(),
            r is Ok <==> ingest_possible(*old(self), *e),
            r is Err ==> *final(self) == *old(self),
            !metric_known(old(self).metric_types@, e.metric_type_id) ==> r == Err::<
                (),
                IngestError,
            >(IngestError::UnknownMetricType),
            r is Ok ==> ingested(*old(self), *final(self), *e, t),
            keeps_records(*old(self), *final(self)),
    {
        if !metric_type_exists(&self.metric_types, e.metric_type_id) {
            return Err(IngestError::UnknownMetricType);
        }
        if self.records.len() >= MAX_ROWS {
            return Err(IngestError::StorageFull);
        }
        let ghost old_self = *self;
        let device_id = match self.resolve_device(&e.device_name, &e.ip_address, &e.location) {
            Ok(id) => id,
            Err(err) => return Err(err),
        };
        let anomaly = is_anomaly(find_threshold(&self.thresholds, e.metric_type_id), e.metric_value);
        let rec = TelemetryData {
            id: (self.records.len() + 1) as i32,
            device_id: Some(device_id),
            metric_type_id: Some(e.metric_type_id),
            metric_value: e.metric_value,
            recorded_at: t,
            is_anomaly: anomaly,
            action_description: clone_text(&e.action_description),
        };
        let p = insert_position(&self.records, t);
        self.records.insert(p, rec);
        assert(self.records@[p as int] == rec);
        assert forall|i: int| 0 <= i < old_self.records.len() implies self.records@.contains(
            #[trigger] old_self.records@[i],
        ) by {
            if i < p {
                assert(self.records@[i] == old_self.records@[i]);
            } else {
                assert(self.records@[i + 1] == old_self.records@[i]);
            }
        }
        assert(sorted_desc(self.records@)) by {
            assert forall|i: int, j: int| 0 <= i < j < self.records.len() implies self.records@[i].recorded_at
                >= self.records@[j].recorded_at by {
                if j < p {
                } else if j == p {
                } else if i < p {
                } else if i == p {
                } else {
                }
            }
        }
        assert(record_of(
            self.records@[p as int],
            *e,
            t,
            anomaly_spec(threshold_for(old_self.thresholds@, e.metric_type_id), e.metric_value as int),
            self.devices@,
        ));
        Ok(())
    }
}

/// Seconds between two fetches of the polling loop.
pub const POLL_INTERVAL_SECS: u64 = 20;

/// What one tick of the polling loop did, and when the next one comes.
#[derive(PartialEq, Eq, Structural, Clone, Copy, Debug)]
pub struct TickReport {
    /// A batch of events was received and decoded.
    pub fetched: bool,
    /// Events of the batch that were stored.
    pub ingested: usize,
    /// Seconds to wait before the next fetch.
    pub next_delay_secs: u64,
}

/// Stores one event, stamped with the current server time.
pub fn insert_event_to_db(store: &mut TelemetryStore, event: &TelemetryEvent) -> (r: Result<
    (),
    IngestError,
>)
    requires
        old(store).wf(),
    ensures
        final(store).wf(),
        r is Ok <==> ingest_possible(*old(store), *event),
        r is Err ==> *final(store) == *old(store),
        !metric_known(old(store).metric_types@, event.metric_type_id) ==> r == Err::<
            (),
            IngestError,
        >(IngestError::UnknownMetricType),
        r is Ok ==> exists|t: i64| ingested(*old(store), *final(store), *event, t),
        keeps_records(*old(store), *final(store)),
{
    let t = now_micros();
    store.ingest_at(event, t)
}

/// Stores a batch event by event, in order. An event that cannot be stored
/// is skipped and does not stop the others. Returns how many were stored.
pub fn receive_telemetry(store: &mut TelemetryStore, events: &Vec<TelemetryEvent>) -> (n: usize)
    requires
        old(store).wf(),
    ensures
        final(store).wf(),
        n <= events.len(),
        batch_fits(*old(store), events@) ==> n == events.len(),
        final(store).records.len() == old(store).records.len() + n,
        exists|states: Seq<TelemetryStore>|
            batch_run(*old(store), *final(store), events@, states) && n == stored_count(
                states,
                events@,
                events.len() as int,
            ),
        keeps_records(*old(store), *final(store)),
        final(store).metric_types == old(store).metric_types,
        final(store).thresholds == old(store).thresholds,
        old(store).devices@.len() <= final(store).devices@.len(),
        final(store).devices@.subrange(0, old(store).devices@.len() as int) == old(
            store,
        ).devices@,
{
    let ghost start = *store;
    let ghost mut states: Seq<TelemetryStore> = seq![*store];
    let mut n: usize = 0;
    let mut i: usize = 0;
    while i < events.len()
        invariant
            store.wf(),
            i <= events.len(),
            n <= i,
            batch_fits(start, events@) ==> n == i,
            store.devices.len() <= start.devices.len() + i,
            store.records.len() == start.records.len() + n,
            keeps_records(start, *store),
            states.len() == i + 1,
            states[0] == start,
            states[i as int] == *store,
            forall|j: int| 0 <= j < i ==> step(#[trigger] states[j], states[j + 1], events@[j]),
            n == stored_count(states, events@, i as int),
            store.metric_types == start.metric_types,
            store.thresholds == start.thresholds,
            start.devices@.len() <= store.devices@.len(),
            store.devices@.subrange(0, start.devices@.len() as int) == start.devices@,
        decreases events.len() - i,
    {
        let ghost before = *store;
        let stored = insert_event_to_db(store, &events[i]).is_ok();
        assert forall|k: int| 0 <= k < start.records.len() implies store.records@.contains(
            #[trigger] start.records@[k],
        ) by {
            let j = choose|j: int| 0 <= j < before.records.len() && before.records@[j] == start.records@[k];
            assert(store.records@.contains(before.records@[j]));
        }
        proof {
            let next = states.push(*store);
            lemma_stored_count_prefix(states, next, events@, i as int);
            assert(step(next[i as int], next[i + 1], events@[i as int]));
            states = next;
        }
        if stored {
            n += 1;
            assert(store.devices@.subrange(0, start.devices@.len() as int) =~= start.devices@) by {
                assert(before.devices@.subrange(0, start.devices@.len() as int) == start.devices@);
            }
        }
        i += 1;
    }
    n
}

/// One tick of the polling loop. `fetched` is the decoded batch, or `None`
/// where the source could not be reached or its payload not decoded. A
/// failed tick leaves the store as it was; every tick schedules the next.
pub fn poll_tick(store: &mut TelemetryStore, fetched: Option<Vec<TelemetryEvent>>) -> (r: TickReport)
    requires
        old(store).wf(),
    ensures
        final(store).wf(),
        r.next_delay_secs == POLL_INTERVAL_SECS,
        r.fetched == fetched is Some,
        fetched is None ==> *final(store) == *old(store) && r.ingested == 0,
        fetched is Some ==> r.ingested <= fetched->Some_0.len(),
        fetched is Some && batch_fits(*old(store), fetched->Some_0@) ==> r.ingested
            == fetched->Some_0.len(),
        fetched is Some ==> exists|states: Seq<TelemetryStore>|
            batch_run(*old(store), *final(store), fetched->Some_0@, states) && r.ingested
                == stored_count(states, fetched->Some_0@, fetched->Some_0.len() as int),
        final(store).records.len() == old(store).records.len() + r.ingested,
        keeps_records(*old(store), *final(store)),
        final(store).metric_types == old(store).metric_types,
        final(store).thresholds == old(store).thresholds,
        final(store).devices@.subrange(0, old(store).devices@.len() as int) == old(
            store,
        ).devices@,
{
    match fetched {
        Some(events) => {
            let n = receive_telemetry(store, &events);
            TickReport { fetched: true, ingested: n, next_delay_secs: POLL_INTERVAL_SECS }
        },
        None => {
            assert(store.devices@.subrange(0, store.devices@.len() as int) =~= store.devices@);
            assert forall|i: int| 0 <= i < store.records.len() implies store.records@.contains(
                #[trigger] store.records@[i],
            ) by {
                assert(store.records@[i] == store.records@[i]);
            }
            TickReport { fetched: false, ingested: 0, next_delay_secs: POLL_INTERVAL_SECS }
        },
    }
}

/// Two events for the same device name leave at most one row for it, and
/// the second event's address and location are discarded: resolving the
/// second name changes nothing.
pub proof fn lemma_same_device_single_row(
    devices: Seq<Device>,
    first: TelemetryEvent,
    second: TelemetryEvent,
)
    requires
        first.device_name@ == second.device_name@,
    ensures
        ({
            let once = resolve_spec(devices, first.device_name, first.ip_address, first.location);
            let twice = resolve_spec(once, second.device_name, second.ip_address, second.location);
            &&& twice == once
            &&& once.len() <= devices.len() + 1
            &&& !has_device(devices, first.device_name@) ==> once.last().ip_address
                == first.ip_address && once.last().location == first.location
        }),
{
    let once = resolve_spec(devices, first.device_name, first.ip_address, first.location);
    if !has_device(devices, first.device_name@) {
        assert(once[devices.len() as int].device_name@ == second.device_name@);
    }
    assert(has_device(once, second.device_name@));
}

/// With distinct server times, stored readings are listed strictly newest
/// first.
pub proof fn lemma_distinct_times_strictly_descending(store: TelemetryStore)
    requires
        store.wf(),
        forall|i: int, j: int|
            0 <= i < j < store.records.len() ==> store.records@[i].recorded_at
                != store.records@[j].recorded_at,
    ensures
        forall|i: int, j: int|
            0 <= i < j < store.records.len() ==> store.records@[i].recorded_at
                > store.records@[j].recorded_at,
{
}

} // verus!
