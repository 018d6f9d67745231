use xiaomi::{decode_bluetooth_adddress, format_bluetooth_address, get_unix_epoc};

#[test]
fn test_format_bluetooth_address() {
    assert_eq!(format_bluetooth_address(0x112233445566), "11:22:33:44:55:66");

    // Use upper case.
    assert_eq!(format_bluetooth_address(0x0a0b0c0d0e0f), "0A:0B:0C:0D:0E:0F");
}

#[test]
fn test_decode_bluetooth_adddress() {
    // normal hex form.
    assert_eq!(decode_bluetooth_adddress("112233445566").unwrap(), 0x112233445566);

    // delimited
    assert_eq!(decode_bluetooth_adddress("11:22:33:44:55:66").unwrap(), 0x112233445566);
    assert_eq!(decode_bluetooth_adddress("A:b:c:d:e:f").unwrap(), 0x0a0b0c0d0e0f);

    // error checking.
    assert!(decode_bluetooth_adddress("11:22").is_err());
    assert!(decode_bluetooth_adddress("11:22:33:44:55:66:77").is_err());
}

#[test]
fn test_get_unix_epoc() {
    assert!(get_unix_epoc() != 0);
}

#[test]
fn format_leaves_out_the_two_highest_bytes() {
    assert_eq!(format_bluetooth_address(0xABCD_1122_3344_5566), "11:22:33:44:55:66");
    assert_eq!(format_bluetooth_address(0), "00:00:00:00:00:00");
    assert_eq!(format_bluetooth_address(u64::MAX), "FF:FF:FF:FF:FF:FF");
}

#[test]
fn format_then_decode_gives_the_address_back() {
    let address: u64 = 0x00A4_C138_9F0E_7B;
    let text = format_bluetooth_address(address);
    assert_eq!(decode_bluetooth_adddress(&text), Ok(address & 0xFFFF_FFFF_FFFF));
}

#[test]
fn decode_tells_the_two_errors_apart() {
    assert_eq!(decode_bluetooth_adddress("11:22"), Err("given address is not 6 byte form"));
    assert_eq!(decode_bluetooth_adddress(""), Err("given address is not 6 byte form"));
    assert_eq!(decode_bluetooth_adddress("xyz"), Err("given address is not 6 byte form"));
    assert_eq!(decode_bluetooth_adddress("11:22:33:44:55:GG"), Err("parsing error."));
    assert_eq!(decode_bluetooth_adddress("11:22:33:44:55:"), Err("parsing error."));
    assert_eq!(decode_bluetooth_adddress("11:22:33:44:55:100"), Err("parsing error."));
    assert_eq!(decode_bluetooth_adddress(":::::"), Err("parsing error."));
}

#[test]
fn decode_agrees_with_the_standard_parser() {
    let samples = [
        "0", "+1f", "+", "-1", "ffffffffffffffff", "10000000000000000", "0000000000000000000001",
        "12 ", "é", "+:1:2:3:4:5", "+a:+b:00c:d:e:f", "1:2:3:4:5:-6",
    ];
    for s in samples {
        let plain = u64::from_str_radix(s, 16).ok();
        let got = decode_bluetooth_adddress(s);
        if let Some(v) = plain {
            assert_eq!(got, Ok(v));
        } else {
            let pieces: Vec<&str> = s.split(':').collect();
            if pieces.len() != 6 {
                assert_eq!(got, Err("given address is not 6 byte form"));
            } else if pieces.iter().any(|p| u8::from_str_radix(p, 16).is_err()) {
                assert_eq!(got, Err("parsing error."));
            } else {
                let mut v: u64 = 0;
                for p in pieces {
                    v = (v << 8) | u64::from(u8::from_str_radix(p, 16).unwrap());
                }
                assert_eq!(got, Ok(v));
            }
        }
    }
    assert_eq!(decode_bluetooth_adddress("+a:+b:00c:d:e:f"), Ok(0x0a0b0c0d0e0f));
}
