use xiaomi::protocol::{
    adjust_message, check_lookup, compute_time, done_message, sync_xiaomi_clock, write_buffer,
    ClockSetting, LookupReply, LYWSD02_CHARACTERISTIC_TIME_UUID, LYWSD02_SERVICE_UUID,
};
use xiaomi::text::{decimal_string, padded_decimal_string, signed_decimal_string};
use xiaomi::SyncLogKind;

const ADDRESS: u64 = 0xA4C1_3811_2233;

fn texts(log: &Vec<SyncLogKind>) -> Vec<(bool, u64, String)> {
    log.iter()
        .map(|e| match e {
            SyncLogKind::Progress { address, log } => (false, *address, log.clone()),
            SyncLogKind::Error { address, log } => (true, *address, log.clone()),
        })
        .collect()
}

#[test]
fn offset_goes_into_the_time() {
    let setting = compute_time(1000, None, Some(120));
    assert_eq!(setting.epoch, 1120);
    assert!(setting.adjusted);
    assert_eq!(adjust_message(120), "Adjust clock +2:00 ");
}

#[test]
fn offset_that_would_not_leave_a_positive_time_is_left_out() {
    let setting = compute_time(1000, None, Some(-2000));
    assert_eq!(setting.epoch, 1000);
    assert!(!setting.adjusted);
    let zero = compute_time(1000, None, Some(-1000));
    assert_eq!(zero.epoch, 1000);
    assert!(!zero.adjusted);
    let one = compute_time(1000, None, Some(-999));
    assert_eq!(one.epoch, 1);
    assert!(one.adjusted);
    let none = compute_time(1000, Some(3), None);
    assert_eq!(none, ClockSetting { epoch: 1000, timezone: 3, adjusted: false });
}

#[test]
fn offset_is_taken_in_signed_64_bits() {
    let top = i64::MAX as u64;
    assert_eq!(compute_time(top, None, Some(1)).epoch, top);
    assert!(!compute_time(top, None, Some(1)).adjusted);
    assert_eq!(compute_time(top, None, Some(-1)).epoch, top - 1);
    assert_eq!(compute_time(top + 1, None, Some(-1)).epoch, top + 1);
    assert_eq!(compute_time(u64::MAX, None, Some(5)).epoch, u64::MAX);
}

#[test]
fn timezone_within_a_day_is_taken_else_the_default() {
    assert_eq!(compute_time(1000, Some(25), None).timezone, 9);
    assert_eq!(compute_time(1000, Some(-25), None).timezone, 9);
    assert_eq!(compute_time(1000, Some(-24), None).timezone, -24);
    assert_eq!(compute_time(1000, Some(24), None).timezone, 24);
    assert_eq!(compute_time(1000, Some(0), None).timezone, 0);
    assert_eq!(compute_time(1000, Some(i8::MIN), None).timezone, 9);
    assert_eq!(compute_time(1000, None, None).timezone, 9);
}

#[test]
fn buffer_is_little_endian_time_then_timezone() {
    let setting = ClockSetting { epoch: 0x0102_0304, timezone: 9, adjusted: false };
    assert_eq!(write_buffer(&setting), vec![0x04, 0x03, 0x02, 0x01, 9]);
    let wide = ClockSetting { epoch: 0xAABB_CCDD_1122_3344, timezone: -8, adjusted: false };
    assert_eq!(write_buffer(&wide), vec![0x44, 0x33, 0x22, 0x11, 0xF8]);
    let mut expected = 1_700_000_000u32.to_le_bytes().to_vec();
    expected.push((-24i8) as u8);
    let now = ClockSetting { epoch: 1_700_000_000, timezone: -24, adjusted: true };
    assert_eq!(write_buffer(&now), expected);
}

#[test]
fn numbers_are_written_as_the_standard_formatter_writes_them() {
    for n in [0u64, 7, 10, 99, 100, 1_700_000_000, u64::MAX] {
        assert_eq!(decimal_string(n), format!("{}", n));
    }
    for v in [0i32, 1, -1, 9, 10, -9, -10, 59, -59, 24, -24, i32::MAX, i32::MIN] {
        assert_eq!(signed_decimal_string(v), format!("{:+}", v));
        assert_eq!(padded_decimal_string(v), format!("{:02}", v));
    }
}

#[test]
fn messages_have_their_wording() {
    for diff in [120i32, 32, -90, 0, 59, -59, 3600, i32::MAX, i32::MIN] {
        assert_eq!(adjust_message(diff), format!("Adjust clock {:+}:{:02} ", diff / 60, diff % 60));
    }
    let setting = ClockSetting { epoch: 1120, timezone: 9, adjusted: true };
    assert_eq!(done_message(&setting), "Sync clock 1120 [timezone:+9]");
    let west = ClockSetting { epoch: 1_700_000_000, timezone: -8, adjusted: false };
    assert_eq!(done_message(&west), format!("Sync clock {} [timezone:{:+}]", 1_700_000_000u64, -8));
}

#[test]
fn lookup_fails_in_three_ways() {
    assert_eq!(check_lookup(LookupReply::TransportError, "t", "e"), Err("t".to_string()));
    assert_eq!(
        check_lookup(LookupReply::Answered { success: false, count: 3 }, "t", "e"),
        Err("Communication error".to_string())
    );
    assert_eq!(
        check_lookup(LookupReply::Answered { success: false, count: 0 }, "t", "e"),
        Err("Communication error".to_string())
    );
    assert_eq!(
        check_lookup(LookupReply::Answered { success: true, count: 0 }, "t", "e"),
        Err("e".to_string())
    );
    assert_eq!(check_lookup(LookupReply::Answered { success: true, count: 1 }, "t", "e"), Ok(()));
}

#[test]
fn a_run_goes_through_every_stage() {
    let mut log = Vec::new();
    let connecting = sync_xiaomi_clock(&mut log, ADDRESS, Some(-8), Some(120));
    let service = connecting.connected(true, &mut log).unwrap();
    assert_eq!(service.service_uuid(), LYWSD02_SERVICE_UUID);
    let found = LookupReply::Answered { success: true, count: 2 };
    let characteristic = service.answered(found, &mut log).unwrap();
    assert_eq!(characteristic.characteristic_uuid(), LYWSD02_CHARACTERISTIC_TIME_UUID);
    let compute = characteristic.answered(found).unwrap();
    let writing = compute.clock_read(1000, &mut log);
    assert_eq!(writing.setting, ClockSetting { epoch: 1120, timezone: -8, adjusted: true });
    assert_eq!(writing.buffer(), vec![0x60, 0x04, 0, 0, 0xF8]);
    assert_eq!(writing.written(true, &mut log), Ok(()));
    assert_eq!(
        texts(&log),
        vec![
            (false, ADDRESS, "Connecting...".to_string()),
            (false, ADDRESS, format!("Querying service, UUID={:x}", LYWSD02_SERVICE_UUID)),
            (
                false,
                ADDRESS,
                format!("Querying characteristic, UUID={:x}", LYWSD02_CHARACTERISTIC_TIME_UUID)
            ),
            (false, ADDRESS, "Adjust clock +2:00 ".to_string()),
            (false, ADDRESS, "Sync clock 1120 [timezone:-8]".to_string()),
        ]
    );
}

#[test]
fn a_run_without_a_committed_offset_reports_none() {
    let mut log = Vec::new();
    let found = LookupReply::Answered { success: true, count: 1 };
    let writing = sync_xiaomi_clock(&mut log, ADDRESS, Some(30), Some(-2000))
        .connected(true, &mut log)
        .unwrap()
        .answered(found, &mut log)
        .unwrap()
        .answered(found)
        .unwrap()
        .clock_read(1000, &mut log);
    assert_eq!(writing.setting, ClockSetting { epoch: 1000, timezone: 9, adjusted: false });
    assert_eq!(log.len(), 3);
}

#[test]
fn each_stage_fails_with_its_own_reason() {
    let mut log = Vec::new();
    let found = LookupReply::Answered { success: true, count: 1 };
    let empty = LookupReply::Answered { success: true, count: 0 };
    let refused = LookupReply::Answered { success: false, count: 1 };
    let start = sync_xiaomi_clock(&mut log, ADDRESS, None, None);
    assert_eq!(start.connected(false, &mut log), Err("Failed to connect".to_string()));
    assert_eq!(log.len(), 1);
    let service = start.connected(true, &mut log).unwrap();
    assert_eq!(log.len(), 2);
    assert_eq!(
        service.answered(LookupReply::TransportError, &mut log),
        Err("Failed to query service".to_string())
    );
    assert_eq!(service.answered(refused, &mut log), Err("Communication error".to_string()));
    assert_eq!(service.answered(empty, &mut log), Err("No services returned".to_string()));
    assert_eq!(log.len(), 2);
    let characteristic = service.answered(found, &mut log).unwrap();
    assert_eq!(
        characteristic.answered(LookupReply::TransportError),
        Err("Failed to query characteristic".to_string())
    );
    assert_eq!(characteristic.answered(refused), Err("Communication error".to_string()));
    assert_eq!(characteristic.answered(empty), Err("No characteristic returned".to_string()));
    let writing = characteristic.answered(found).unwrap().clock_read(5, &mut log);
    assert_eq!(log.len(), 3);
    assert_eq!(writing.written(false, &mut log), Err("Failed to sync time".to_string()));
    assert_eq!(log.len(), 3);
}
