use obd_datalog::buffer::effective_line_limit;
use obd_datalog::buffer::DatalogPollUpdate;
use obd_datalog::buffer::DatalogSharedState;
use obd_datalog::buffer::DecodedSample;
use obd_datalog::buffer::ProtocolMode;
use obd_datalog::channels::BmwChannelConfig;
use obd_datalog::channels::DecodeConfig;
use obd_datalog::channels::DecodeKind;
use obd_datalog::engine::build_bmw_pairs;
use obd_datalog::engine::build_pid_pairs;
use obd_datalog::engine::default_parameter_keys;
use obd_datalog::engine::elm_init_commands;
use obd_datalog::simulator::build_simulated_sample;
use obd_datalog::text::init_response_ok;
use obd_datalog::text::contains_prompt;
use obd_datalog::text::is_simulator_mode;
use obd_datalog::PhysValue;

fn as_f64(v: PhysValue) -> f64 {
    v.num as f64 / v.den as f64
}

#[test]
fn poll_with_no_session_is_stopped_and_empty() {
    let r = DatalogPollUpdate::stopped();
    assert!(!r.is_logging);
    assert!(r.last_error.is_none());
    assert!(r.lines.is_empty());
    assert_eq!(r.total_bytes, 0);
    assert!(r.decoded_samples.is_empty());
    assert_eq!(r.protocol_mode, ProtocolMode::Stopped);
    assert_eq!(r.protocol_mode.label(), "stopped");
}

#[test]
fn line_buffer_capped_at_1500() {
    let mut st = DatalogSharedState::new();
    for i in 0..2100u32 {
        st.push_line(format!("line {i}"));
    }
    let r = st.drain(1_000_000);
    assert_eq!(r.lines.len(), 1500);
    assert_eq!(r.lines[0], "line 600");
    assert_eq!(r.lines[1499], "line 2099");
}

#[test]
fn sample_buffer_capped_at_500() {
    let mut st = DatalogSharedState::new();
    for i in 0..730u64 {
        st.push_sample(DecodedSample { timestamp_ms: i as u128, values: Vec::new() });
    }
    let r = st.drain(1);
    assert_eq!(r.decoded_samples.len(), 500);
    assert_eq!(r.decoded_samples[0].timestamp_ms, 230);
    assert_eq!(r.decoded_samples[499].timestamp_ms, 729);
}

#[test]
fn drain_respects_line_budget_and_consumes() {
    let mut st = DatalogSharedState::new();
    for i in 0..10u32 {
        st.push_line(format!("l{i}"));
    }
    let r = st.drain(4);
    assert_eq!(r.lines, vec!["l6", "l7", "l8", "l9"]);
    let again = st.drain(4);
    assert!(again.lines.is_empty());
    assert!(again.decoded_samples.is_empty());
}

#[test]
fn effective_limit_defaults() {
    assert_eq!(effective_line_limit(None), 400);
    assert_eq!(effective_line_limit(Some(0)), 1);
    assert_eq!(effective_line_limit(Some(7)), 7);
}

#[test]
fn commit_tick_counts_bytes_and_upgrades_mode() {
    let mut st = DatalogSharedState::new();
    st.set_mode(ProtocolMode::ElmObd);
    let values = vec![(String::from("engine-rpm"), PhysValue { num: 6904, den: 4 })];
    let lines = vec![String::from("abcd"), String::from("ef")];
    st.commit_tick(17, values, lines, false);
    let r = st.drain(100);
    assert_eq!(r.protocol_mode, ProtocolMode::ElmObd);
    assert_eq!(r.total_bytes, 6);
    assert_eq!(r.lines, vec!["abcd", "ef"]);
    assert_eq!(r.decoded_samples.len(), 1);
    assert_eq!(r.decoded_samples[0].timestamp_ms, 17);
    assert_eq!(r.decoded_samples[0].values[0].0, "engine-rpm");

    let values = vec![(String::from("boost-ecu"), PhysValue { num: 1, den: 2 })];
    st.commit_tick(18, values, Vec::new(), true);
    assert_eq!(st.protocol_mode, ProtocolMode::ElmBmw);
    st.commit_tick(19, Vec::new(), Vec::new(), false);
    assert_eq!(st.protocol_mode, ProtocolMode::ElmBmw);
    assert_eq!(st.protocol_mode.label(), "elm+bmw");
}

#[test]
fn commit_tick_skips_empty_sample() {
    let mut st = DatalogSharedState::new();
    st.commit_tick(5, Vec::new(), vec![String::from("x")], false);
    let r = st.drain(10);
    assert!(r.decoded_samples.is_empty());
    assert_eq!(r.lines.len(), 1);
}

#[test]
fn raw_chunk_commit_counts_raw_bytes() {
    let mut st = DatalogSharedState::new();
    st.commit_raw_chunk(3, String::from("[0] 41 0C 1A"));
    st.commit_raw_chunk(2, String::from("[1] F8 3E"));
    let r = st.drain(10);
    assert_eq!(r.total_bytes, 5);
    assert_eq!(r.lines, vec!["[0] 41 0C 1A", "[1] F8 3E"]);
    assert!(r.decoded_samples.is_empty());
}

#[test]
fn init_failure_drives_raw_fallback_with_error() {
    assert!(!init_response_ok("ELM327 v1.5"));
    let mut st = DatalogSharedState::new();
    st.set_mode(ProtocolMode::ElmInitializing);
    st.mark_init_failure();
    assert_eq!(st.protocol_mode, ProtocolMode::RawFallback);
    assert_eq!(st.protocol_mode.label(), "raw_fallback");
    let r = st.drain(1);
    let err = r.last_error.expect("an error must be recorded");
    assert!(!err.is_empty());
    assert_eq!(err, "Adapter init failed. Falling back to raw serial capture.");
}

#[test]
fn init_response_validation() {
    assert!(init_response_ok("OK\r\n"));
    assert!(init_response_ok("ok"));
    assert!(init_response_ok("ELM327 v1.5 >"));
    assert!(init_response_ok("\r\n>"));
    assert!(!init_response_ok("?"));
    assert!(!init_response_ok(""));
    assert!(contains_prompt("abc>"));
    assert!(!contains_prompt("abc"));
}

#[test]
fn command_framing_and_response_finish() {
    assert_eq!(obd_datalog::text::command_payload("ATZ"), "ATZ\r");
    assert_eq!(obd_datalog::text::command_payload("010C"), "010C\r");
    let ok = obd_datalog::text::finish_response(String::from("41 0C"));
    assert_eq!(ok, Ok(String::from("41 0C")));
    let err = obd_datalog::text::finish_response(String::new()).unwrap_err();
    assert_eq!(err, "No response from adapter.");
}

#[test]
fn recorded_error_is_never_cleared_by_polling() {
    let mut st = DatalogSharedState::new();
    st.record_error(String::from("Serial read failed: boom"));
    let first = st.drain(10);
    assert_eq!(first.last_error.as_deref(), Some("Serial read failed: boom"));
    st.push_line(String::from("healthy line"));
    let second = st.drain(10);
    assert_eq!(second.last_error.as_deref(), Some("Serial read failed: boom"));
}

#[test]
fn mode_string_matching() {
    assert!(is_simulator_mode("simulator"));
    assert!(is_simulator_mode("SIMULATOR"));
    assert!(is_simulator_mode("Simulator"));
    assert!(!is_simulator_mode("hardware"));
    assert!(!is_simulator_mode("sim"));
}

#[test]
fn init_command_sequence() {
    let cmds = elm_init_commands();
    assert_eq!(cmds, vec!["ATZ", "ATE0", "ATL0", "ATH0", "ATS0", "ATSP0"]);
}

#[test]
fn default_keys() {
    let keys = default_parameter_keys();
    assert_eq!(keys, vec!["engine-rpm"]);
}

#[test]
fn pid_plan_with_fallback() {
    let keys = vec![String::from("engine-rpm"), String::from("mystery"), String::from("iat")];
    let plan = build_pid_pairs(&keys);
    assert_eq!(plan.len(), 2);
    assert_eq!(plan[0].0, "engine-rpm");
    assert_eq!(plan[0].1, "010C");
    assert_eq!(plan[1].0, "iat");
    assert_eq!(plan[1].1, "010F");

    let none = build_pid_pairs(&vec![String::from("mystery")]);
    assert_eq!(none.len(), 1);
    assert_eq!(none[0].0, "engine-rpm");
    assert_eq!(none[0].1, "010C");
}

#[test]
fn bmw_plan_from_catalog() {
    let cfg = DecodeConfig {
        kind: DecodeKind::U16Be,
        byte_index: 0,
        scale_micro: 1_000_000,
        offset_micro: 0,
    };
    let catalog = vec![
        (
            String::from("boost-ecu"),
            BmwChannelConfig { command: String::from("22F40C"), decode: cfg },
        ),
    ];
    let keys = vec![String::from("boost-ecu"), String::from("engine-rpm")];
    let plan = build_bmw_pairs(&keys, &catalog);
    assert_eq!(plan.len(), 1);
    assert_eq!(plan[0].0, "boost-ecu");
    assert_eq!(plan[0].1.command, "22F40C");
    assert_eq!(plan[0].1.decode, cfg);
    assert!(build_bmw_pairs(&keys, &Vec::new()).is_empty());
}

#[test]
fn simulator_samples_never_empty_and_deterministic() {
    for i in [0u64, 1, 7, 219, 220, 1000] {
        let keys = vec![String::from("engine-rpm"), String::from("coolant-temp")];
        let a = build_simulated_sample(&keys, i);
        let b = build_simulated_sample(&keys, i);
        assert!(!a.is_empty());
        assert_eq!(a, b);
    }
    let fallback = build_simulated_sample(&vec![String::from("nope")], 3);
    assert_eq!(fallback.len(), 1);
    assert_eq!(fallback[0].0, "engine-rpm");
    let empty = build_simulated_sample(&Vec::new(), 3);
    assert_eq!(empty.len(), 1);
}

#[test]
fn simulator_values_match_formulas() {
    let keys = vec![
        String::from("engine-rpm"),
        String::from("throttle-position"),
        String::from("coolant-temp"),
        String::from("vehicle-speed"),
    ];
    let idx = 13u64;
    let sample = build_simulated_sample(&keys, idx);
    assert_eq!(sample.len(), 4);
    let rpm = (750i64 + ((idx % 220) as i64 - 110) * 8).max(650) as f64;
    assert_eq!(as_f64(sample[0].1), rpm);
    assert_eq!(as_f64(sample[1].1), 13.0);
    assert_eq!(as_f64(sample[2].1), 88.0 + ((idx % 12) as f64 - 6.0) * 0.15);
    assert_eq!(as_f64(sample[3].1), (idx % 145) as f64);
}

#[test]
fn simulator_remaining_formulas_exact() {
    let keys = vec![
        String::from("iat"),
        String::from("timing-avg"),
        String::from("boost-actual"),
        String::from("afr-bank2"),
        String::from("oil-temp"),
        String::from("fuel-pressure"),
    ];
    let sample = build_simulated_sample(&keys, 37);
    assert_eq!(sample.len(), 6);
    assert_eq!((sample[0].1.num, sample[0].1.den), (394, 10));
    assert_eq!((sample[1].1.num, sample[1].1.den), (725, 100));
    assert_eq!((sample[2].1.num, sample[2].1.den), (169 * 145038, 10_000_000));
    assert_eq!((sample[3].1.num, sample[3].1.den), (8280, 10_000));
    assert_eq!((sample[4].1.num, sample[4].1.den), (944, 10));
    assert_eq!((sample[5].1.num, sample[5].1.den), (6375, 10));
}

#[test]
fn simulator_tick_stamps_and_fills() {
    let keys = vec![String::from("vehicle-speed")];
    let a = obd_datalog::simulator::simulator_tick(&keys, 1);
    let b = obd_datalog::simulator::simulator_tick(&keys, 2);
    assert_eq!(a.values.len(), 1);
    assert_eq!(a.values[0].0, "vehicle-speed");
    assert!(a.timestamp_ms > 0);
    assert!(b.timestamp_ms >= a.timestamp_ms);
}

#[test]
fn simulator_rpm_floor() {
    let sample = build_simulated_sample(&vec![String::from("engine-rpm")], 1);
    assert_eq!(as_f64(sample[0].1), 650.0);
}
