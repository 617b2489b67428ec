//! Sensor readings, the moisture store, and the pure classifier that maps a
//! reading to a tier.

use vstd::prelude::*;

use crate::errors::StoreError;

verus! {

/// One moisture reading of one sensor, immutable once stored.
#[derive(Clone, Copy, Debug, PartialEq, Eq, Structural)]
pub struct SensorReading {
    pub sensor_id: i64,
    /// Percentage of soil moisture; a stored reading always lies in [0, 100].
    pub moisture_content: i64,
    /// Unix seconds at which the reading was ingested.
    pub recorded_at: i64,
}

/// The three-valued moisture classification that drives the watering
/// decision.
#[derive(Clone, Copy, Debug, PartialEq, Eq, Structural)]
pub enum MoistureLevel {
    Plenty,
    Low,
    Critical,
}

/// The tier a moisture value falls under: at 25 or above there is plenty
/// of water, from 11 to 24 it is low, and at 10 or below it is critical.
/// The boundaries are exact: 25 is plenty, 11 is low, 10 is critical.
pub open spec fn classify_spec(moisture_content: int) -> MoistureLevel {
    if moisture_content >= 25 {
        MoistureLevel::Plenty
    } else if moisture_content > 10 {
        MoistureLevel::Low
    } else {
        MoistureLevel::Critical
    }
}

/// Classifies a moisture reading into its tier.
pub fn classify(moisture_content: i64) -> (level: MoistureLevel)
    ensures
        level == classify_spec(moisture_content as int),
{
    if moisture_content >= 25 {
        MoistureLevel::Plenty
    } else if moisture_content > 10 {
        MoistureLevel::Low
    } else {
        MoistureLevel::Critical
    }
}

/// The tier of a stored reading.
pub fn describe_moisture(garden_record: &SensorReading) -> (level: MoistureLevel)
    ensures
        level == classify_spec(garden_record.moisture_content as int),
{
    classify(garden_record.moisture_content)
}

/// The reading of `sensor_id` with the greatest `recorded_at`; on equal
/// timestamps the one appended last wins, so the answer is deterministic.
pub open spec fn latest_reading(s: Seq<SensorReading>, sensor_id: i64) -> Option<SensorReading>
    decreases s.len(),
{
    if s.len() == 0 {
        None
    } else {
        let prev = latest_reading(s.drop_last(), sensor_id);
        let last = s.last();
        if last.sensor_id == sensor_id {
            match prev {
                None => Some(last),
                Some(p) => if last.recorded_at >= p.recorded_at {
                    Some(last)
                } else {
                    prev
                },
            }
        } else {
            prev
        }
    }
}

/// The latest reading is a function of the store's state alone, so reading
/// it twice with no intervening write returns identical results.
pub proof fn lemma_latest_read_idempotent(
    s: Seq<SensorReading>,
    sensor_id: i64,
    r1: Option<SensorReading>,
    r2: Option<SensorReading>,
)
    requires
        r1 == latest_reading(s, sensor_id),
        r2 == latest_reading(s, sensor_id),
    ensures
        r1 == r2,
{
}

/// The latest reading, when there is one, is a stored reading of the asked
/// sensor; when there is none, the store holds no reading of that sensor.
pub proof fn lemma_latest_is_stored(s: Seq<SensorReading>, sensor_id: i64)
    ensures
        match latest_reading(s, sensor_id) {
            Some(p) => p.sensor_id == sensor_id && exists|i: int| 0 <= i < s.len() && s[i] == p,
            None => forall|i: int| 0 <= i < s.len() ==> s[i].sensor_id != sensor_id,
        },
    decreases s.len(),
{
    if s.len() > 0 {
        let pre = s.drop_last();
        let last = s.last();
        lemma_latest_is_stored(pre, sensor_id);
        let r = latest_reading(s, sensor_id);
        if r == Some(last) && last.sensor_id == sensor_id {
            assert(0 <= s.len() - 1 < s.len() && s[s.len() - 1] == last);
        }
        match latest_reading(pre, sensor_id) {
            Some(p) => {
                if r == Some(p) {
                    let i = choose|i: int| 0 <= i < pre.len() && pre[i] == p;
                    assert(s[i] == p);
                }
            },
            None => {
                if r is None {
                    assert forall|i: int| 0 <= i < s.len() implies s[i].sensor_id != sensor_id by {
                        if i < s.len() - 1 {
                            assert(pre[i] == s[i]);
                        } else {
                            assert(s[i] == last);
                        }
                    }
                }
            },
        }
    }
}

/// The latest reading carries the greatest `recorded_at` among the asked
/// sensor's stored readings.
pub proof fn lemma_latest_is_max(s: Seq<SensorReading>, sensor_id: i64)
    requires
        latest_reading(s, sensor_id) is Some,
    ensures
        forall|i: int|
            0 <= i < s.len() && (#[trigger] s[i]).sensor_id == sensor_id ==> s[i].recorded_at
                <= latest_reading(s, sensor_id)->Some_0.recorded_at,
    decreases s.len(),
{
    if s.len() > 0 {
        let pre = s.drop_last();
        let last = s.last();
        let r = latest_reading(s, sensor_id)->Some_0;
        if latest_reading(pre, sensor_id) is Some {
            lemma_latest_is_max(pre, sensor_id);
        } else {
            lemma_latest_is_stored(pre, sensor_id);
        }
        assert forall|i: int|
            0 <= i < s.len() && (#[trigger] s[i]).sensor_id == sensor_id implies s[i].recorded_at
            <= r.recorded_at by {
            if i < s.len() - 1 {
                assert(s[i] == pre[i]);
            } else {
                assert(s[i] == last);
            }
        }
    }
}

/// Ordering of writes: a reading appended with a `recorded_at` no older
/// than every stored reading of its sensor becomes that sensor's latest
/// reading (on a tie, the later write wins).
pub proof fn lemma_latest_after_record(s: Seq<SensorReading>, reading: SensorReading)
    requires
        forall|i: int|
            0 <= i < s.len() && (#[trigger] s[i]).sensor_id == reading.sensor_id
                ==> s[i].recorded_at <= reading.recorded_at,
    ensures
        latest_reading(s.push(reading), reading.sensor_id) == Some(reading),
{
    let grown = s.push(reading);
    assert(grown.drop_last() =~= s);
    assert(grown.last() == reading);
    lemma_latest_is_stored(s, reading.sensor_id);
    match latest_reading(s, reading.sensor_id) {
        Some(p) => {
            let i = choose|i: int| 0 <= i < s.len() && s[i] == p;
            assert(s[i].recorded_at <= reading.recorded_at);
        },
        None => {},
    }
}

/// A moisture value a sensor may report; anything else is rejected.
pub open spec fn valid_moisture(moisture_content: int) -> bool {
    0 <= moisture_content <= 100
}

/// Append-only store of sensor readings, answering "latest reading of
/// sensor X".
pub struct MoistureStore {
    readings: Vec<SensorReading>,
}

impl View for MoistureStore {
    type V = Seq<SensorReading>;

    closed spec fn view(&self) -> Seq<SensorReading> {
        self.readings@
    }
}

impl MoistureStore {
    /// Every stored reading lies in the accepted moisture range.
    pub open spec fn wf(&self) -> bool {
        forall|i: int| 0 <= i < self@.len() ==> valid_moisture(#[trigger] self@[i].moisture_content as int)
    }

    /// An empty store.
    pub fn new() -> (store: MoistureStore)
        ensures
            store@ == Seq::<SensorReading>::empty(),
            store.wf(),
    {
        MoistureStore { readings: Vec::new() }
    }

    /// Appends a reading taken at `now`. A moisture value outside [0, 100]
    /// is rejected and nothing is persisted.
    pub fn record_at(&mut self, sensor_id: i64, moisture_content: i64, now: i64) -> (r: Result<
        (),
        StoreError,
    >)
        ensures
            valid_moisture(moisture_content as int) ==> {
                &&& r == Ok::<(), StoreError>(())
                &&& final(self)@ == old(self)@.push(
                    SensorReading { sensor_id, moisture_content, recorded_at: now },
                )
            },
            !valid_moisture(moisture_content as int) ==> {
                &&& r == Err::<(), StoreError>(StoreError::ValidationError)
                &&& final(self)@ == old(self)@
            },
            old(self).wf() ==> final(self).wf(),
    {
        if moisture_content < 0 || moisture_content > 100 {
            return Err(StoreError::ValidationError);
        }
        self.readings.push(SensorReading { sensor_id, moisture_content, recorded_at: now });
        proof {
            if old(self).wf() {
                assert forall|i: int| 0 <= i < self@.len() implies valid_moisture(
                    #[trigger] self@[i].moisture_content as int,
                ) by {
                    if i < self@.len() - 1 {
                        assert(self@[i] == old(self)@[i]);
                    }
                }
            }
        }
        Ok(())
    }

    /// The reading of `sensor_id` with the greatest `recorded_at`, the last
    /// appended one on ties; `NotFound` if the sensor has no readings.
    pub fn latest(&self, sensor_id: i64) -> (r: Result<SensorReading, StoreError>)
        ensures
            r == match latest_reading(self@, sensor_id) {
                Some(reading) => Ok::<SensorReading, StoreError>(reading),
                None => Err::<SensorReading, StoreError>(StoreError::NotFound),
            },
    {
        let mut best: Option<SensorReading> = None;
        let mut i: usize = 0;
        while i < self.readings.len()
            invariant
                i <= self.readings@.len(),
                best == latest_reading(self.readings@.subrange(0, i as int), sensor_id),
            decreases self.readings@.len() - i,
        {
            let reading = self.readings[i];
            proof {
                let grown = self.readings@.subrange(0, i + 1 as int);
                assert(grown.drop_last() =~= self.readings@.subrange(0, i as int));
                assert(grown.last() == self.readings@[i as int]);
            }
            match best {
                None => {
                    if reading.sensor_id == sensor_id {
                        best = Some(reading);
                    }
                },
                Some(b) => {
                    if reading.sensor_id == sensor_id && reading.recorded_at >= b.recorded_at {
                        best = Some(reading);
                    }
                },
            }
            i += 1;
        }
        proof {
            assert(self.readings@.subrange(0, self.readings@.len() as int) =~= self.readings@);
        }
        match best {
            Some(reading) => Ok(reading),
            None => Err(StoreError::NotFound),
        }
    }
}

} // verus!
