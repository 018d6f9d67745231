//! The latest readings of each device seen during a scan.

use std::collections::HashMap;
use vstd::prelude::*;
use crate::advertisement::{reading_value, AdvertisementKind};

verus! {

broadcast use vstd::std_specs::hash::group_hash_axioms;

/// The latest reading of each quantity of one device, in tenths of its unit.
#[derive(Clone, Copy, Debug, PartialEq, Eq, Structural)]
pub struct SensorData {
    pub temperature: Option<i32>,
    pub humidity: Option<i32>,
    pub battery: Option<i32>,
}

impl SensorData {
    /// A device of which nothing was read yet.
    pub fn new() -> (data: SensorData)
        ensures
            data == (SensorData { temperature: None, humidity: None, battery: None }),
    {
        SensorData { humidity: None, temperature: None, battery: None }
    }

    /// Keeps `value` as the latest temperature.
    pub fn set_temperature(&mut self, value: i32)
        ensures
            *final(self) == (SensorData { temperature: Some(value), ..*old(self) }),
    {
        self.temperature = Some(value);
    }

    /// Keeps `value` as the latest humidity.
    pub fn set_humidity(&mut self, value: i32)
        ensures
            *final(self) == (SensorData { humidity: Some(value), ..*old(self) }),
    {
        self.humidity = Some(value);
    }

    /// Keeps `value` as the latest battery level.
    pub fn set_battery(&mut self, value: i32)
        ensures
            *final(self) == (SensorData { battery: Some(value), ..*old(self) }),
    {
        self.battery = Some(value);
    }

    /// This snapshot after `reading`: the quantity that it carries is
    /// replaced, the others stay.
    pub open spec fn with_reading(self, reading: AdvertisementKind) -> SensorData {
        match reading {
            AdvertisementKind::Temperature(v) => SensorData {
                temperature: Some(v.tenths),
                ..self
            },
            AdvertisementKind::Humidity(v) => SensorData { humidity: Some(v.tenths), ..self },
            AdvertisementKind::Battery(v) => SensorData { battery: Some(v.tenths), ..self },
            _ => self,
        }
    }
}

/// The snapshot of `address`; an empty one where none was made yet.
pub open spec fn snapshot_of(sensors: Map<u64, SensorData>, address: u64) -> SensorData {
    if sensors.contains_key(address) {
        sensors[address]
    } else {
        SensorData { temperature: None, humidity: None, battery: None }
    }
}

/// The snapshots after `reading`: that of the reading's device has the
/// reading in it, all others are as before.
pub open spec fn recorded(sensors: Map<u64, SensorData>, reading: AdvertisementKind) -> Map<
    u64,
    SensorData,
> {
    match reading_value(reading) {
        Some(v) => sensors.insert(v.address, snapshot_of(sensors, v.address).with_reading(reading)),
        None => sensors,
    }
}

/// Whether two readings are of one quantity of one device.
pub open spec fn same_quantity(first: AdvertisementKind, second: AdvertisementKind) -> bool {
    match (first, second) {
        (AdvertisementKind::Temperature(a), AdvertisementKind::Temperature(b)) => a.address
            == b.address,
        (AdvertisementKind::Humidity(a), AdvertisementKind::Humidity(b)) => a.address == b.address,
        (AdvertisementKind::Battery(a), AdvertisementKind::Battery(b)) => a.address == b.address,
        _ => false,
    }
}

/// The last value stands: of two readings of one quantity of one device,
/// taken one after the other, the first leaves no trace.
pub proof fn lemma_last_value_stands(
    sensors: Map<u64, SensorData>,
    first: AdvertisementKind,
    second: AdvertisementKind,
)
    requires
        same_quantity(first, second),
    ensures
        recorded(recorded(sensors, first), second) == recorded(sensors, second),
{
    assert(recorded(recorded(sensors, first), second) =~= recorded(sensors, second));
}

/// A reading changes the snapshot of its own device only, and there only
/// its own quantity.
pub proof fn lemma_reading_is_local(
    sensors: Map<u64, SensorData>,
    reading: AdvertisementKind,
    other: u64,
)
    ensures
        reading_value(reading) matches Some(v) && v.address == other || snapshot_of(
            recorded(sensors, reading),
            other,
        ) == snapshot_of(sensors, other),
        reading_value(reading) matches Some(v) ==> snapshot_of(
            recorded(sensors, reading),
            v.address,
        ) == snapshot_of(sensors, v.address).with_reading(reading),
{
}

/// Takes a reading into the snapshots: the latest value of a quantity
/// replaces the one before, and a device seen for the first time gets a
/// snapshot of its own. What is no reading changes nothing.
pub fn record(sensors: &mut HashMap<u64, SensorData>, reading: &AdvertisementKind)
    ensures
        final(sensors)@ == recorded(old(sensors)@, *reading),
{
    let address: u64 = match reading {
        AdvertisementKind::Temperature(v) => v.address,
        AdvertisementKind::Humidity(v) => v.address,
        AdvertisementKind::Battery(v) => v.address,
        _ => {
            return ;
        },
    };
    let mut snapshot: SensorData = match sensors.get(&address) {
        Some(known) => *known,
        None => SensorData::new(),
    };
    match reading {
        AdvertisementKind::Temperature(v) => snapshot.set_temperature(v.tenths),
        AdvertisementKind::Humidity(v) => snapshot.set_humidity(v.tenths),
        AdvertisementKind::Battery(v) => snapshot.set_battery(v.tenths),
        _ => {},
    }
    sensors.insert(address, snapshot);
}

} // verus!
