//! Sensor specifications, and the exchange with the key-value store that
//! holds one string value per sensor.

use crate::templates::SensorTemplate;
use std::sync::Arc;
use vstd::prelude::*;
use vstd::std_specs::convert::FromSpecImpl;

verus! {

/// Why the store did not carry out a command.
#[derive(Debug, Clone, Copy, PartialEq, Eq, Structural)]
pub enum StoreError {
    /// The store could not be reached, or did not answer as the protocol
    /// says. A key that holds no value is answered this way too.
    Unavailable,
    /// No connection became free within the time that the pool waits.
    PoolTimeout,
}

/// A problem that occurred while reading or updating a sensor value.
#[derive(Debug, PartialEq, Eq)]
pub enum SensorError {
    /// No sensor is registered under this identifier.
    UnknownSensor(String),
    /// The store could not be reached, or holds no value under the key.
    StoreUnavailable,
    /// No connection to the store became free in time.
    PoolTimeout,
}

/// The sensor error that a failure of the store amounts to.
pub open spec fn store_failure(err: StoreError) -> SensorError {
    match err {
        StoreError::Unavailable => SensorError::StoreUnavailable,
        StoreError::PoolTimeout => SensorError::PoolTimeout,
    }
}

impl From<StoreError> for SensorError {
    fn from(err: StoreError) -> (res: SensorError) {
        match err {
            StoreError::Unavailable => SensorError::StoreUnavailable,
            StoreError::PoolTimeout => SensorError::PoolTimeout,
        }
    }
}

impl FromSpecImpl<StoreError> for SensorError {
    open spec fn obeys_from_spec() -> bool {
        true
    }

    open spec fn from_spec(err: StoreError) -> SensorError {
        store_failure(err)
    }
}

/// What the store answered when it was asked for the value under `key`.
#[derive(Debug, PartialEq, Eq)]
pub struct Reading {
    pub key: String,
    pub outcome: Result<String, StoreError>,
}

/// The view of a [`Reading`].
pub struct ReadingView {
    pub key: Seq<char>,
    pub outcome: Result<Seq<char>, StoreError>,
}

impl View for Reading {
    type V = ReadingView;

    open spec fn view(&self) -> ReadingView {
        ReadingView {
            key: self.key@,
            outcome: match self.outcome {
                Ok(value) => Ok(value@),
                Err(err) => Err(err),
            },
        }
    }
}

/// The views of a list of readings.
pub open spec fn readings_view(readings: Seq<Reading>) -> Seq<ReadingView> {
    readings.map_values(|r: Reading| r@)
}

/// A write that the store is asked to carry out: `value` is to be stored
/// under `key`, whether or not the key holds a value already.
#[derive(Debug, PartialEq, Eq)]
pub struct WriteCommand {
    pub key: String,
    pub value: String,
}

/// The outcome of the first reading taken for `key`, if there is any.
pub open spec fn outcome_for(readings: Seq<ReadingView>, key: Seq<char>) -> Option<
    Result<Seq<char>, StoreError>,
>
    decreases readings.len(),
{
    if readings.len() == 0 {
        None
    } else if readings[0].key == key {
        Some(readings[0].outcome)
    } else {
        outcome_for(readings.drop_first(), key)
    }
}

/// What a sensor stored under `key` reads from `readings`. A key for which no
/// reading was taken reads like a key without a value.
pub open spec fn stored_value(readings: Seq<ReadingView>, key: Seq<char>) -> Result<
    Seq<char>,
    SensorError,
> {
    match outcome_for(readings, key) {
        Some(Ok(value)) => Ok(value),
        Some(Err(err)) => Err(store_failure(err)),
        None => Err(SensorError::StoreUnavailable),
    }
}

/// The characters of a value that was read, or the error in its place.
pub open spec fn value_view(res: Result<String, SensorError>) -> Result<Seq<char>, SensorError> {
    match res {
        Ok(value) => Ok(value@),
        Err(err) => Err(err),
    }
}

/// A specification of a sensor.
///
/// The `template` field holds the static data of a sensor and `data_key` says
/// under which key the store holds its value. The key is also the identifier
/// by which an update names the sensor.
pub struct SensorSpec {
    pub template: Box<dyn SensorTemplate>,
    pub data_key: String,
}

/// A vector of sensor specs, shared between the handlers of concurrent
/// requests and never changed.
pub type SafeSensorSpecs = Arc<Vec<SensorSpec>>;

impl SensorSpec {
    /// Retrieve the sensor's value from what the store answered.
    pub fn get_sensor_value(&self, readings: &Vec<Reading>) -> (res: Result<String, SensorError>)
        ensures
            value_view(res) == stored_value(readings_view(readings@), self.data_key@),
    {
        let mut i: usize = 0;
        assert(readings_view(readings@).skip(0) == readings_view(readings@));
        while i < readings.len()
            invariant
                i <= readings.len(),
                outcome_for(readings_view(readings@), self.data_key@) == outcome_for(
                    readings_view(readings@).skip(i as int),
                    self.data_key@,
                ),
            decreases readings.len() - i,
        {
            let ghost rest = readings_view(readings@).skip(i as int);
            assert(rest[0] == readings@[i as int]@);
            assert(rest.drop_first() == readings_view(readings@).skip(i + 1));
            if readings[i].key == self.data_key {
                return match &readings[i].outcome {
                    Ok(value) => Ok(value.clone()),
                    Err(err) => Err(SensorError::from(*err)),
                };
            }
            i += 1;
        }
        Err(SensorError::StoreUnavailable)
    }

    /// The write that sets the sensor's value in the store.
    pub fn set_sensor_value(&self, value: &str) -> (write: WriteCommand)
        ensures
            write.key@ == self.data_key@,
            write.value@ == value@,
    {
        WriteCommand { key: self.data_key.clone(), value: String::from_str(value) }
    }
}

/// Whether a sensor is registered in `specs` under the identifier `sensor`.
pub open spec fn is_registered(specs: Seq<SensorSpec>, sensor: Seq<char>) -> bool {
    exists|i: int| 0 <= i < specs.len() && #[trigger] specs[i].data_key@ == sensor
}

/// Whether no two sensors of `specs` share a key.
pub open spec fn keys_are_unique(specs: Seq<SensorSpec>) -> bool {
    forall|i: int, j: int|
        0 <= i < j < specs.len() ==> #[trigger] specs[i].data_key@ != #[trigger] specs[j].data_key@
}

/// Registers `spec` behind the sensors of `specs`, unless a sensor is
/// registered under its key already: then `specs` stays as it is and `spec`
/// is handed back. A registry that is built by this function alone never
/// holds two sensors with one key.
pub fn register_sensor(specs: &mut Vec<SensorSpec>, spec: SensorSpec) -> (res: Result<
    (),
    SensorSpec,
>)
    ensures
        match res {
            Ok(_) => !is_registered(old(specs)@, spec.data_key@) && final(specs)@ == old(
                specs,
            )@.push(spec),
            Err(refused) => is_registered(old(specs)@, spec.data_key@) && final(specs)@ == old(
                specs,
            )@ && refused == spec,
        },
        keys_are_unique(old(specs)@) ==> keys_are_unique(final(specs)@),
{
    let mut i: usize = 0;
    while i < specs.len()
        invariant
            i <= specs@.len(),
            specs@ == old(specs)@,
            forall|k: int| 0 <= k < i ==> specs@[k].data_key@ != spec.data_key@,
        decreases specs@.len() - i,
    {
        if specs[i].data_key == spec.data_key {
            return Err(spec);
        }
        i += 1;
    }
    specs.push(spec);
    Ok(())
}

} // verus!
