use std::collections::HashMap;
use xiaomi::aggregate::record;
use xiaomi::{AdvertisementKind, SensorData, SensorValue};

fn tenths(value: f32) -> i32 {
    (value * 10.0).round() as i32
}

fn shown(value: Option<i32>) -> Option<f32> {
    value.map(|t| t as f32 / 10.0)
}

#[test]
fn the_latest_reading_of_each_quantity_stands() {
    let address: u64 = 0xA4C1_3811_2233;
    let mut sensors: HashMap<u64, SensorData> = HashMap::new();
    record(&mut sensors, &AdvertisementKind::Temperature(SensorValue { address, tenths: tenths(25.0) }));
    record(&mut sensors, &AdvertisementKind::Temperature(SensorValue { address, tenths: tenths(26.0) }));
    record(&mut sensors, &AdvertisementKind::Humidity(SensorValue { address, tenths: tenths(40.0) }));
    assert_eq!(sensors.len(), 1);
    let snapshot = sensors[&address];
    assert_eq!(shown(snapshot.temperature), Some(26.0));
    assert_eq!(shown(snapshot.humidity), Some(40.0));
    assert_eq!(shown(snapshot.battery), None);
    assert_eq!(snapshot, SensorData { temperature: Some(260), humidity: Some(400), battery: None });
}

#[test]
fn each_device_has_its_own_snapshot() {
    let mut sensors: HashMap<u64, SensorData> = HashMap::new();
    record(&mut sensors, &AdvertisementKind::Battery(SensorValue { address: 1, tenths: 800 }));
    record(&mut sensors, &AdvertisementKind::Temperature(SensorValue { address: 2, tenths: -35 }));
    record(&mut sensors, &AdvertisementKind::Unknown);
    record(&mut sensors, &AdvertisementKind::Omit);
    assert_eq!(sensors.len(), 2);
    assert_eq!(sensors[&1], SensorData { temperature: None, humidity: None, battery: Some(800) });
    assert_eq!(sensors[&2], SensorData { temperature: Some(-35), humidity: None, battery: None });
}

#[test]
fn setters_replace_one_quantity() {
    let mut data = SensorData::new();
    assert_eq!(data, SensorData { temperature: None, humidity: None, battery: None });
    data.set_temperature(251);
    data.set_humidity(402);
    data.set_battery(990);
    data.set_temperature(249);
    assert_eq!(data, SensorData { temperature: Some(249), humidity: Some(402), battery: Some(990) });
}
