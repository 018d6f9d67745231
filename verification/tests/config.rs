use xiaomi::config::{offset_hours, position_of};
use xiaomi::{decode_bluetooth_adddress, Config, DeviceConfig};

fn device(address: u64, name: Option<&str>, timezone: Option<&str>) -> DeviceConfig {
    DeviceConfig {
        address,
        name: name.map(|n| n.to_string()),
        omit: None,
        timezone: timezone.map(|z| z.to_string()),
        offset_seconds: None,
    }
}

fn config_from_toml(text: &str) -> Config {
    let table: toml::Table = text.parse().unwrap();
    let devices = table.get("device").map(|list| {
        list.as_array()
            .unwrap()
            .iter()
            .map(|entry| DeviceConfig {
                address: decode_bluetooth_adddress(entry.get("address").unwrap().as_str().unwrap())
                    .unwrap(),
                name: entry.get("name").map(|v| v.as_str().unwrap().to_string()),
                omit: entry.get("omit").map(|v| v.as_bool().unwrap()),
                timezone: entry.get("timezone").map(|v| v.as_str().unwrap().to_string()),
                offset_seconds: entry.get("offset_seconds").map(|v| v.as_integer().unwrap() as i32),
            })
            .collect()
    });
    Config { devices }
}

#[test]
fn test_toml1() {
    let s = r#"
        [[device]]
        address = "11:22:33:44:55:66"
        name = "test1"
        "#;

    let config: Config = config_from_toml(s);
    assert!(config.devices.is_some());
}

#[test]
fn test_toml() {
    let s = r#"
        [[device]]
        address = "11:22:33:44:55:66"
        name = "test1"
        omit = true
        offset_seconds = +32
        timezone = "US/Pacific"

        [[device]]
        address = "665544332211"
        name = "test2"
        timezone = "Asia/Seoul"
        "#;

    let config: Config = config_from_toml(s);
    assert!(config.devices.is_some());

    {
        let test1 = config.get_device_by_name("test1").unwrap();
        assert_eq!(test1.address, 0x112233445566);
        assert_eq!(test1.name.as_ref().unwrap(), "test1");
        assert_eq!(test1.omit.unwrap(), true);
        assert_eq!(test1.offset_seconds.unwrap(), 32);
        assert_eq!(test1.timezone.as_ref().unwrap(), "US/Pacific");

        let diff = test1.get_timezone_diff_hour().unwrap();
        assert!(diff == -7 || diff == -8);
    }

    {
        let test2 = config.get_device_by_name("test2").unwrap();
        assert_eq!(test2.address, 0x665544332211);
        assert_eq!(test2.name.as_ref().unwrap(), "test2");
        assert!(test2.omit.is_none());
        assert!(test2.offset_seconds.is_none());

        let diff = test2.get_timezone_diff_hour().unwrap();
        assert_eq!(diff, 9);
    }
}

#[test]
fn names_are_found_whatever_their_case() {
    let config = Config {
        devices: Some(vec![
            device(1, None, None),
            device(2, Some("Bedroom"), None),
            device(3, Some("BEDROOM"), None),
            device(4, Some("Küche"), None),
        ]),
    };
    assert_eq!(config.get_device_by_name("bedroom").unwrap().address, 2);
    assert_eq!(config.get_device_by_name("BedRoom").unwrap().address, 2);
    assert_eq!(config.get_device_by_name("KÜCHE").unwrap().address, 4);
    assert!(config.get_device_by_name("bed").is_none());
    assert!(config.get_device_by_name("").is_none());
    assert!(Config { devices: None }.get_device_by_name("bedroom").is_none());
    assert!(Config { devices: Some(vec![]) }.get_device_by_name("bedroom").is_none());
}

#[test]
fn position_is_that_of_the_first_equal_name() {
    let names = vec![None, Some("a".to_string()), Some("b".to_string()), Some("a".to_string())];
    assert_eq!(position_of(&names, &"a".to_string()), Some(1));
    assert_eq!(position_of(&names, &"b".to_string()), Some(2));
    assert_eq!(position_of(&names, &"A".to_string()), None);
    assert_eq!(position_of(&vec![], &"a".to_string()), None);
}

#[test]
fn timezone_difference_follows_the_tz_database() {
    let seoul = device(1, None, Some("Asia/Seoul"));
    let pacific = device(2, None, Some("US/Pacific"));
    let kolkata = device(3, None, Some("Asia/Kolkata"));
    let newfoundland = device(4, None, Some("America/St_Johns"));
    // 2024-01-15T00:00:00Z and 2024-07-15T00:00:00Z
    let winter: u64 = 1_705_276_800;
    let summer: u64 = 1_721_001_600;
    assert_eq!(seoul.get_timezone_diff_hour_at(winter), Some(9));
    assert_eq!(pacific.get_timezone_diff_hour_at(winter), Some(-8));
    assert_eq!(pacific.get_timezone_diff_hour_at(summer), Some(-7));
    assert_eq!(kolkata.get_timezone_diff_hour_at(summer), Some(5));
    assert_eq!(newfoundland.get_timezone_diff_hour_at(winter), Some(-3));
    assert_eq!(newfoundland.get_timezone_diff_hour_at(summer), Some(-2));
}

#[test]
fn no_timezone_difference_without_a_known_timezone() {
    assert_eq!(device(1, None, None).get_timezone_diff_hour(), None);
    assert_eq!(device(1, None, None).get_timezone_diff_hour_at(0), None);
    assert_eq!(device(1, None, Some("Mars/Olympus")).get_timezone_diff_hour_at(0), None);
    assert_eq!(device(1, None, Some("Asia/Seoul")).get_timezone_diff_hour_at(u64::MAX), None);
    assert_eq!(
        device(1, None, Some("Asia/Seoul")).get_timezone_diff_hour_at(i64::MAX as u64),
        None
    );
}

#[test]
fn hours_are_rounded_towards_zero() {
    assert_eq!(offset_hours(0), 0);
    assert_eq!(offset_hours(3599), 0);
    assert_eq!(offset_hours(-3599), 0);
    assert_eq!(offset_hours(3600), 1);
    assert_eq!(offset_hours(-3600), -1);
    assert_eq!(offset_hours(19800), 5);
    assert_eq!(offset_hours(-12600), -3);
    assert_eq!(offset_hours(86399), 23);
    assert_eq!(offset_hours(-86399), -23);
}

#[test]
fn device_map_keeps_the_later_of_two_with_one_address() {
    let config = Config {
        devices: Some(vec![
            device(1, Some("first"), None),
            device(2, Some("second"), None),
            device(1, Some("third"), Some("Asia/Seoul")),
        ]),
    };
    let map = config.device_map();
    assert_eq!(map.len(), 2);
    assert_eq!(map[&1].name.as_deref(), Some("third"));
    assert_eq!(map[&1].timezone.as_deref(), Some("Asia/Seoul"));
    assert_eq!(map[&2].name.as_deref(), Some("second"));
    assert!(Config { devices: None }.device_map().is_empty());
}

#[test]
fn duplicate_is_equal_in_every_field() {
    let mut source = device(7, Some("x"), Some("Asia/Seoul"));
    source.omit = Some(true);
    source.offset_seconds = Some(-5);
    let copy = source.duplicate();
    assert_eq!(copy.address, 7);
    assert_eq!(copy.name, source.name);
    assert_eq!(copy.omit, Some(true));
    assert_eq!(copy.timezone, source.timezone);
    assert_eq!(copy.offset_seconds, Some(-5));
}
