//! Decoding of one received broadcast into a typed sensor reading.

use vstd::prelude::*;

verus! {

/// Identifier of the environmental-sensing service that the sensors advertise.
pub const ENVIRONMENTAL_SENSING_SERVICE_UUID: u128 = 0x0000181a00001000800000805f9b34fb;

/// Type tag of a "service data" section of an advertisement.
pub const SERVICE_DATA_TYPE: u8 = 0x16;

/// Offset of the byte that tells which quantity a payload carries.
pub const KIND_OFFSET: usize = 14;

/// Offset of the first byte of the payload's value.
pub const VALUE_OFFSET: usize = 17;

pub const KIND_TEMPERATURE: u8 = 4;

pub const KIND_HUMIDITY: u8 = 6;

pub const KIND_BATTERY: u8 = 10;

/// One typed section of an advertisement: a tag and its bytes.
#[derive(Clone, Debug)]
pub struct DataSection {
    pub data_type: u8,
    pub data: Vec<u8>,
}

/// A received broadcast, as plain values.
#[derive(Clone, Debug)]
pub struct Advertisement {
    /// Address of the sender (48 bits).
    pub address: u64,
    /// The service identifiers that the sender advertises.
    pub service_uuids: Vec<u128>,
    /// The data sections, in the order in which they were received.
    pub sections: Vec<DataSection>,
}

/// A reading of one device. The value is kept in tenths of its unit
/// (degrees Celsius or percent), so `tenths == 253` stands for `25.3`.
#[derive(Clone, Copy, Debug, PartialEq, Eq, Structural)]
pub struct SensorValue {
    pub address: u64,
    pub tenths: i32,
}

/// What an advertisement turned out to be.
#[derive(Clone, Copy, Debug, PartialEq, Eq, Structural)]
pub enum AdvertisementKind {
    /// Not an advertisement of a sensor: none was given, or it lacks the
    /// environmental-sensing service.
    Unknown,
    /// From a sensor, but without a reading that could be decoded.
    Omit,
    Temperature(SensorValue),
    Humidity(SensorValue),
    Battery(SensorValue),
}

/// The value that a reading carries, if it is one.
pub open spec fn reading_value(reading: AdvertisementKind) -> Option<SensorValue> {
    match reading {
        AdvertisementKind::Temperature(v) => Some(v),
        AdvertisementKind::Humidity(v) => Some(v),
        AdvertisementKind::Battery(v) => Some(v),
        _ => None,
    }
}

impl AdvertisementKind {
    /// The value of a temperature, humidity or battery reading; none of
    /// anything else.
    pub fn sensor_value(&self) -> (value: Option<SensorValue>)
        ensures
            value == reading_value(*self),
    {
        match self {
            AdvertisementKind::Temperature(v) => Some(*v),
            AdvertisementKind::Humidity(v) => Some(*v),
            AdvertisementKind::Battery(v) => Some(*v),
            _ => None,
        }
    }
}

/// The signed 16-bit number whose little-endian bytes are `low`, `high`.
pub open spec fn signed_le16(low: u8, high: u8) -> int {
    let raw = low as int + 256 * (high as int);
    if raw >= 32768 {
        raw - 65536
    } else {
        raw
    }
}

/// The reading that a service-data payload of the device `address` carries.
pub open spec fn payload_reading(address: u64, data: Seq<u8>) -> AdvertisementKind {
    if data.len() <= KIND_OFFSET {
        AdvertisementKind::Omit
    } else if data[14] == KIND_TEMPERATURE && data.len() > VALUE_OFFSET + 1 {
        AdvertisementKind::Temperature(
            SensorValue { address, tenths: signed_le16(data[17], data[18]) as i32 },
        )
    } else if data[14] == KIND_HUMIDITY && data.len() > VALUE_OFFSET + 1 {
        AdvertisementKind::Humidity(
            SensorValue { address, tenths: signed_le16(data[17], data[18]) as i32 },
        )
    } else if data[14] == KIND_BATTERY && data.len() > VALUE_OFFSET {
        AdvertisementKind::Battery(SensorValue { address, tenths: (10 * (data[17] as int)) as i32 })
    } else {
        AdvertisementKind::Omit
    }
}

/// Index of the first service-data section at or after `from`, or the number
/// of sections if there is none.
pub open spec fn first_service_data(sections: Seq<DataSection>, from: int) -> int
    decreases sections.len() - from,
{
    if from < 0 || from >= sections.len() {
        sections.len() as int
    } else if sections[from].data_type == SERVICE_DATA_TYPE {
        from
    } else {
        first_service_data(sections, from + 1)
    }
}

impl Advertisement {
    /// Whether the sender advertises the service `uuid`.
    pub open spec fn advertises(&self, uuid: u128) -> bool {
        self.service_uuids@.contains(uuid)
    }

    /// The reading of this advertisement: that of its first service-data
    /// section, if it advertises the environmental-sensing service.
    pub open spec fn reading(&self) -> AdvertisementKind {
        let at = first_service_data(self.sections@, 0);
        if !self.advertises(ENVIRONMENTAL_SENSING_SERVICE_UUID) {
            AdvertisementKind::Unknown
        } else if at < self.sections@.len() {
            payload_reading(self.address, self.sections@[at].data@)
        } else {
            AdvertisementKind::Omit
        }
    }

    /// Tells whether the sender advertises the service `uuid`.
    pub fn has_service(&self, uuid: u128) -> (found: bool)
        ensures
            found == self.advertises(uuid),
    {
        let mut i: usize = 0;
        while i < self.service_uuids.len()
            invariant
                i <= self.service_uuids@.len(),
                forall|j: int| 0 <= j < i ==> self.service_uuids@[j] != uuid,
            decreases self.service_uuids@.len() - i,
        {
            if self.service_uuids[i] == uuid {
                return true;
            }
            i += 1;
        }
        false
    }
}

/// Reads the little-endian signed 16-bit number in `low`, `high`.
pub fn read_signed_le16(low: u8, high: u8) -> (value: i32)
    ensures
        value == signed_le16(low, high),
        -32768 <= value <= 32767,
{
    let raw: i32 = low as i32 + 256 * (high as i32);
    if raw >= 32768 {
        raw - 65536
    } else {
        raw
    }
}

/// Decodes the payload of a service-data section sent by `address`.
///
/// The byte at offset 14 names the quantity; the value follows at offset 17,
/// two bytes for temperature and humidity, one for the battery level. A
/// payload too short for what it announces carries no reading.
pub fn decode_service_data(address: u64, data: &[u8]) -> (kind: AdvertisementKind)
    ensures
        kind == payload_reading(address, data@),
{
    if data.len() <= KIND_OFFSET {
        return AdvertisementKind::Omit;
    }
    let tag: u8 = data[KIND_OFFSET];
    if tag == KIND_TEMPERATURE && data.len() > VALUE_OFFSET + 1 {
        let tenths: i32 = read_signed_le16(data[VALUE_OFFSET], data[VALUE_OFFSET + 1]);
        AdvertisementKind::Temperature(SensorValue { address, tenths })
    } else if tag == KIND_HUMIDITY && data.len() > VALUE_OFFSET + 1 {
        let tenths: i32 = read_signed_le16(data[VALUE_OFFSET], data[VALUE_OFFSET + 1]);
        AdvertisementKind::Humidity(SensorValue { address, tenths })
    } else if tag == KIND_BATTERY && data.len() > VALUE_OFFSET {
        let tenths: i32 = 10 * (data[VALUE_OFFSET] as i32);
        AdvertisementKind::Battery(SensorValue { address, tenths })
    } else {
        AdvertisementKind::Omit
    }
}

impl Advertisement {
    /// Decodes this advertisement: `Unknown` without the
    /// environmental-sensing service, else what the first service-data
    /// section carries, else `Omit`.
    pub fn decode(&self) -> (kind: AdvertisementKind)
        ensures
            kind == self.reading(),
    {
        if !self.has_service(ENVIRONMENTAL_SENSING_SERVICE_UUID) {
            return AdvertisementKind::Unknown;
        }
        let mut i: usize = 0;
        while i < self.sections.len()
            invariant
                i <= self.sections@.len(),
                self.advertises(ENVIRONMENTAL_SENSING_SERVICE_UUID),
                first_service_data(self.sections@, 0) == first_service_data(
                    self.sections@,
                    i as int,
                ),
            decreases self.sections@.len() - i,
        {
            if self.sections[i].data_type == SERVICE_DATA_TYPE {
                return decode_service_data(self.address, self.sections[i].data.as_slice());
            }
            i += 1;
        }
        AdvertisementKind::Omit
    }
}

/// What `decode_advertisement` returns for `args`.
pub open spec fn decoded(args: Option<Advertisement>) -> AdvertisementKind {
    match args {
        None => AdvertisementKind::Unknown,
        Some(adv) => adv.reading(),
    }
}

/// Classifies a received advertisement.
///
/// Without an advertisement, or without the environmental-sensing service
/// among its identifiers, the result is `Unknown` whatever the sections hold.
/// Otherwise the first service-data section decides; if there is none, or it
/// cannot be decoded, the result is `Omit`.
pub fn decode_advertisement(args: &Option<Advertisement>) -> (kind: AdvertisementKind)
    ensures
        kind == decoded(*args),
        args matches Some(adv) && !adv.advertises(ENVIRONMENTAL_SENSING_SERVICE_UUID) ==> kind
            == AdvertisementKind::Unknown,
{
    match args {
        None => AdvertisementKind::Unknown,
        Some(adv) => adv.decode(),
    }
}

} // verus!
