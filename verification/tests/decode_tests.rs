use obd_datalog::channels::decode_from_config;
use obd_datalog::channels::DecodeConfig;
use obd_datalog::channels::DecodeKind;
use obd_datalog::hex::bytes_to_hex;
use obd_datalog::hex::parse_hex_tokens;
use obd_datalog::pids::decode_pid_value;
use obd_datalog::pids::find_pid_payload;
use obd_datalog::pids::pid_code_of_command;
use obd_datalog::pids::pid_for_key;
use obd_datalog::PhysValue;

fn as_f64(v: PhysValue) -> f64 {
    v.num as f64 / v.den as f64
}

#[test]
fn decode_table_engine_speed() {
    let v = decode_pid_value("engine-rpm", &[0x1a, 0xf8]).unwrap();
    assert_eq!(v.num, 6904);
    assert_eq!(v.den, 4);
    assert_eq!(as_f64(v), (26.0 * 256.0 + 248.0) / 4.0);
}

#[test]
fn decode_table_coolant_temp() {
    let v = decode_pid_value("coolant-temp", &[0x5a]).unwrap();
    assert_eq!(as_f64(v), 50.0);
}

#[test]
fn decode_table_other_formulas() {
    assert_eq!(as_f64(decode_pid_value("vehicle-speed", &[120]).unwrap()), 120.0);
    assert_eq!(as_f64(decode_pid_value("throttle-position", &[255]).unwrap()), 100.0);
    assert_eq!(as_f64(decode_pid_value("timing-avg", &[0x80]).unwrap()), 0.0);
    assert_eq!(as_f64(decode_pid_value("fuel-pressure", &[100]).unwrap()), 300.0);
    let boost = decode_pid_value("boost-actual", &[110]).unwrap();
    assert!((as_f64(boost) - 10.0 * 0.145038).abs() < 1e-12);
    let afr = decode_pid_value("afr-bank1", &[0x80, 0x00]).unwrap();
    assert_eq!(as_f64(afr), 32768.0 / 32768.0);
    assert_eq!(as_f64(decode_pid_value("iat", &[40]).unwrap()), 0.0);
    assert_eq!(as_f64(decode_pid_value("oil-temp", &[0]).unwrap()), -40.0);
}

#[test]
fn decode_table_misses() {
    assert!(decode_pid_value("engine-rpm", &[0x1a]).is_none());
    assert!(decode_pid_value("coolant-temp", &[]).is_none());
    assert!(decode_pid_value("no-such-key", &[0x5a, 0x5a]).is_none());
}

#[test]
fn parse_hex_tokens_standard_response() {
    assert_eq!(parse_hex_tokens("41 0C 1A F8 >"), vec![0x41, 0x0c, 0x1a, 0xf8]);
}

#[test]
fn parse_hex_tokens_drops_noise() {
    assert_eq!(parse_hex_tokens("xx 1A zzz 3 \r\n2b>"), vec![0x1a, 0x2b]);
    assert_eq!(parse_hex_tokens(""), Vec::<u8>::new());
    assert_eq!(parse_hex_tokens("SEARCHING..."), Vec::<u8>::new());
    assert_eq!(parse_hex_tokens("+A 2B"), vec![0x2b]);
}

#[test]
fn find_marker_payload() {
    let bytes = parse_hex_tokens("41 0C 1A F8 >");
    assert_eq!(find_pid_payload(&bytes, 0x0c), Some(&[0x1a, 0xf8][..]));
    assert_eq!(find_pid_payload(&bytes, 0x0d), None);
    assert_eq!(find_pid_payload(&[0x41], 0x0c), None);
}

#[test]
fn pid_table_lookup() {
    assert_eq!(pid_for_key("engine-rpm"), Some("010C"));
    assert_eq!(pid_for_key("oil-temp"), Some("015C"));
    assert_eq!(pid_for_key("boost-target"), Some("010B"));
    assert_eq!(pid_for_key("afr-bank2"), Some("0144"));
    assert_eq!(pid_for_key("unknown"), None);
}

#[test]
fn pid_code_parsing() {
    assert_eq!(pid_code_of_command("010C"), Some(0x0c));
    assert_eq!(pid_code_of_command("0144"), Some(0x44));
    assert_eq!(pid_code_of_command("01"), None);
    assert_eq!(pid_code_of_command("01XY"), None);
}

#[test]
fn generic_channel_decode_i16be() {
    let cfg = DecodeConfig {
        kind: DecodeKind::I16Be,
        byte_index: 2,
        scale_micro: 100_000,
        offset_micro: -40_000_000,
    };
    let v = decode_from_config(&[0x00, 0x00, 0xff, 0x38], &cfg).unwrap();
    assert_eq!(v.num, -60_000_000);
    assert_eq!(v.den, 1_000_000);
    assert_eq!(as_f64(v), -60.0);
}

#[test]
fn generic_channel_decode_u8_and_u16be() {
    let cfg8 = DecodeConfig {
        kind: DecodeKind::U8,
        byte_index: 1,
        scale_micro: 2_000_000,
        offset_micro: 500_000,
    };
    let v = decode_from_config(&[9, 7], &cfg8).unwrap();
    assert_eq!(as_f64(v), 14.5);
    let cfg16 = DecodeConfig {
        kind: DecodeKind::U16Be,
        byte_index: 0,
        scale_micro: 1_000_000,
        offset_micro: 0,
    };
    let v = decode_from_config(&[0x01, 0x02], &cfg16).unwrap();
    assert_eq!(as_f64(v), 258.0);
}

#[test]
fn generic_channel_decode_out_of_range() {
    let cfg = DecodeConfig {
        kind: DecodeKind::U16Be,
        byte_index: 3,
        scale_micro: 1_000_000,
        offset_micro: 0,
    };
    assert!(decode_from_config(&[1, 2, 3, 4], &cfg).is_none());
    assert!(decode_from_config(&[], &cfg).is_none());
}

#[test]
fn hex_dump_rendering() {
    assert_eq!(bytes_to_hex(&[0x0a, 0xff, 0x00]), "0A FF 00");
    assert_eq!(bytes_to_hex(&[]), "");
    assert_eq!(bytes_to_hex(&[0x7b]), "7B");
}

#[test]
fn full_pid_response_decode() {
    let v = obd_datalog::pids::decode_pid_response("engine-rpm", 0x0c, "41 0C 1A F8 \r>").unwrap();
    assert_eq!(as_f64(v), 1726.0);
    assert!(obd_datalog::pids::decode_pid_response("engine-rpm", 0x0c, "NO DATA >").is_none());
    assert!(obd_datalog::pids::decode_pid_response("engine-rpm", 0x0c, "").is_none());
}

#[test]
fn full_channel_response_decode() {
    let cfg = DecodeConfig {
        kind: DecodeKind::I16Be,
        byte_index: 2,
        scale_micro: 100_000,
        offset_micro: -40_000_000,
    };
    let v = obd_datalog::channels::decode_channel_response(&cfg, "00 00 FF 38 >").unwrap();
    assert_eq!(as_f64(v), -60.0);
    assert!(obd_datalog::channels::decode_channel_response(&cfg, "???").is_none());
}
