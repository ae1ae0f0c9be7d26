use thermav_lib::api::error::{not_found, ErrorResponse};
use thermav_lib::config::{listen_address, HttpConfig, ThermaConfig, DEFAULT_BAUD_RATE, DEFAULT_TIMEOUT};
use thermav_lib::text::{decimal_string, hex_digits};
use thermav_lib::{
    after_failed_read, read_failed, remap_topic_from_modbus, set_failed, Bank, Position,
    ReadFailure, Step, ThermaV, BOOLEAN_PAUSE_MS, CYCLE_PAUSE_MS, INITIAL_READS, WORD_PAUSE_MS,
};

fn therma_config() -> ThermaConfig {
    ThermaConfig { tty_path: "/dev/ttyUSB0".to_string(), slave_id: 1, timeout_ms: 750 }
}

fn topic_list(items: &[(&str, u16)]) -> Vec<(String, u16)> {
    items.iter().map(|(t, r)| (t.to_string(), *r)).collect()
}

#[test]
fn three_topics_are_remapped() {
    assert_eq!(remap_topic_from_modbus("operation_mode".to_string()), "");
    assert_eq!(
        remap_topic_from_modbus("target_temp_heating_cooling_circuit2".to_string()),
        "dhw/temperature"
    );
    assert_eq!(
        remap_topic_from_modbus("room_air_temperature_circuit2".to_string()),
        "dhw/current_temperature"
    );
    assert_eq!(remap_topic_from_modbus("control_method".to_string()), "control_method");
    assert_eq!(remap_topic_from_modbus(String::new()), "");
}

#[test]
fn failure_messages_name_the_address_in_hex() {
    assert_eq!(read_failed(0x0a), "read failed 0x0a");
    assert_eq!(read_failed(0), "read failed 0x00");
    assert_eq!(read_failed(0x1ff), "read failed 0x1ff");
    assert_eq!(set_failed(0xffff), "set failed 0xffff");
    for reg in [0u16, 9, 15, 16, 255, 256, 4096, 65535] {
        assert_eq!(read_failed(reg), format!("read failed 0x{:02x}", reg));
        assert_eq!(set_failed(reg), format!("set failed 0x{:02x}", reg));
    }
}

#[test]
fn a_failed_read_is_tried_once_more() {
    assert_eq!(after_failed_read(7, 0), ReadFailure::Retry { pause_ms: 50 });
    assert_eq!(after_failed_read(7, 1), ReadFailure::Retry { pause_ms: 50 });
    assert_eq!(
        after_failed_read(7, 2),
        ReadFailure::Failed { message: "read failed 0x07".to_string() }
    );
    assert_eq!(
        after_failed_read(0x20, 9),
        ReadFailure::Failed { message: "read failed 0x20".to_string() }
    );
}

#[test]
fn the_device_takes_its_timeout_from_the_configuration() {
    let device = ThermaV::with_registers(
        therma_config(),
        topic_list(&[("d", 1)]),
        topic_list(&[("c", 2)]),
        topic_list(&[("h", 3)]),
        topic_list(&[("i", 4)]),
    );
    assert_eq!(device.req_timeout_ms, 750);
    assert_eq!(device.cfg, therma_config());
    assert_eq!(device.discrete_registers, topic_list(&[("d", 1)]));
    assert_eq!(device.coils, topic_list(&[("c", 2)]));
    assert_eq!(device.holding_registers, topic_list(&[("h", 3)]));
    assert_eq!(device.input_registers, topic_list(&[("i", 4)]));
}

#[test]
fn a_cycle_polls_coils_discretes_inputs_and_holdings() {
    let device = ThermaV::with_registers(
        therma_config(),
        topic_list(&[("water_flow_status", 0), ("compressor_status", 3)]),
        topic_list(&[("silent_mode_set", 2)]),
        topic_list(&[("operation_mode", 0), ("target_temp_heating_cooling_circuit2", 5), ("control_method", 1)]),
        topic_list(&[("error_code", 0)]),
    );
    let mut at = device.start();
    assert_eq!(at, Position { bank: Bank::Coil, index: 0 });
    let mut steps = Vec::new();
    for _ in 0..9 {
        let (step, next) = device.step(at);
        steps.push(step);
        at = next;
    }
    let poll = |bank: Bank, reg: u16, topic: &str, pause_ms: u64| Step::Poll {
        bank,
        reg,
        topic: topic.to_string(),
        pause_ms,
    };
    assert_eq!(
        steps,
        vec![
            poll(Bank::Coil, 2, "silent_mode_set", 500),
            poll(Bank::Discrete, 0, "water_flow_status", 500),
            poll(Bank::Discrete, 3, "compressor_status", 500),
            poll(Bank::Input, 0, "error_code", 50),
            poll(Bank::Holding, 0, "", 50),
            poll(Bank::Holding, 5, "dhw/temperature", 50),
            poll(Bank::Holding, 1, "control_method", 50),
            Step::Rest { pause_ms: 2000 },
            poll(Bank::Coil, 2, "silent_mode_set", 500),
        ]
    );
    assert_eq!(at, Position { bank: Bank::Coil, index: 1 });
}

#[test]
fn a_device_without_registers_rests() {
    let device = ThermaV::with_registers(therma_config(), vec![], vec![], vec![], vec![]);
    let (step, next) = device.step(device.start());
    assert_eq!(step, Step::Rest { pause_ms: 2000 });
    assert_eq!(next, Position { bank: Bank::Coil, index: 0 });
    let (step, next) = device.step(Position { bank: Bank::Input, index: 4 });
    assert_eq!(step, Step::Rest { pause_ms: 2000 });
    assert_eq!(next, device.start());
}

#[test]
fn empty_banks_are_passed_over() {
    let device = ThermaV::with_registers(
        therma_config(),
        vec![],
        vec![],
        topic_list(&[("h", 7)]),
        vec![],
    );
    let (step, next) = device.step(device.start());
    assert_eq!(step, Step::Poll { bank: Bank::Holding, reg: 7, topic: "h".to_string(), pause_ms: 50 });
    assert_eq!(next, Position { bank: Bank::Holding, index: 1 });
}

#[test]
fn pauses_and_defaults() {
    assert_eq!(BOOLEAN_PAUSE_MS, 500);
    assert_eq!(WORD_PAUSE_MS, 50);
    assert_eq!(CYCLE_PAUSE_MS, 2000);
    assert_eq!(INITIAL_READS, 3);
    assert_eq!(DEFAULT_BAUD_RATE, 9600);
    assert_eq!(DEFAULT_TIMEOUT, 1000);
}

#[test]
fn the_service_listens_at_address_and_port() {
    let cfg = HttpConfig { listen_address: "0.0.0.0".to_string(), listen_port: 8080 };
    assert_eq!(listen_address(&cfg), "0.0.0.0:8080");
    let cfg = HttpConfig { listen_address: "::1".to_string(), listen_port: 0 };
    assert_eq!(listen_address(&cfg), "::1:0");
}

#[test]
fn numbers_are_written_in_decimal_and_hex() {
    assert_eq!(decimal_string(0), "0");
    assert_eq!(decimal_string(7), "7");
    assert_eq!(decimal_string(10), "10");
    assert_eq!(decimal_string(65535), "65535");
    assert_eq!(decimal_string(u64::MAX), u64::MAX.to_string());
    assert_eq!(hex_digits(0), vec!['0']);
    assert_eq!(hex_digits(0xbeef), vec!['b', 'e', 'e', 'f']);
    assert_eq!(hex_digits(u32::MAX).iter().collect::<String>(), format!("{:x}", u32::MAX));
}

#[test]
fn an_error_answer_carries_message_and_details() {
    assert_eq!(
        not_found("Register not found".to_string(), None),
        ErrorResponse { message: "Register not found".to_string(), details: None }
    );
    assert_eq!(
        not_found("x".to_string(), Some("y".to_string())).details,
        Some("y".to_string())
    );
}
