use thermav_lib::config::ThermaConfig;
use thermav_lib::hass::{
    add_component, availability_payload, availability_topic, command_for, create_discovery_message,
    discovery_topic, holds_state, normalized_topic, sensor_state, sensor_topic, subscriptions, BinarySensor,
    Command, Component, Device, DeviceConfig, DeviceProperties, SensorState,
};
use thermav_lib::modbus::{CoilRegister, DiscreteRegister, HoldingRegister, InputRegister};
use thermav_lib::{Register, ThermaV};

fn heat_pump() -> ThermaV {
    ThermaV::with_registers(
        ThermaConfig { tty_path: "/dev/ttyUSB0".to_string(), slave_id: 1, timeout_ms: 1000 },
        vec![],
        vec![],
        vec![],
        vec![],
    )
}

#[test]
fn a_new_component_derives_its_topics() {
    let c = Component::new("Inlet Temperature", "ThermaV", "thermav", "water_inlet_temperature", "mdi:water-thermometer");
    assert_eq!(c.name, "Inlet Temperature");
    assert_eq!(c.object_id, "ThermaV.water_inlet_temperature");
    assert_eq!(c.unique_id, "ThermaV.water_inlet_temperature");
    assert_eq!(c.state_topic, "ThermaV/thermav.water_inlet_temperature");
    assert_eq!(c.availability_topic, "ThermaV/$state");
    assert_eq!(c.payload_available, "ready");
    assert_eq!(c.payload_not_available, "lost");
    assert_eq!(c.icon, "mdi:water-thermometer");
    assert_eq!(c.platform, "");
    assert_eq!(c.device_class, None);
    assert_eq!(c.unit_of_measurement, None);
    assert_eq!(c.modes, None);
    assert_eq!(c.mode_state_topic, None);
    assert_eq!(c.mode_command_topic, None);
    assert_eq!(c.temperature_state_topic, None);
    assert_eq!(c.temperature_command_topic, None);
    assert_eq!(c.current_temperature_topic, None);
    assert_eq!(c.options, None);
    assert_eq!(c.command_topic, None);
}

#[test]
fn a_temperature_sensor_has_its_class_and_unit() {
    let base = Component::new("n", "d", "i", "x", "icon");
    let c = base.clone().temperature_sensor();
    assert_eq!(c.platform, "sensor");
    assert_eq!(c.device_class, Some("temperature".to_string()));
    assert_eq!(c.unit_of_measurement, Some("\u{c2}\u{b0}C".to_string()));
    let mut expected = base;
    expected.platform = "sensor".to_string();
    expected.device_class = Some("temperature".to_string());
    expected.unit_of_measurement = Some("\u{c2}\u{b0}C".to_string());
    assert_eq!(c, expected);
}

#[test]
fn a_binary_sensor_has_its_class() {
    let base = Component::new("n", "d", "i", "x", "icon");
    let c = base.clone().binary_sensor();
    let mut expected = base;
    expected.platform = "binary_sensor".to_string();
    expected.device_class = Some("opening".to_string());
    assert_eq!(c, expected);
}

#[test]
fn a_water_heater_has_its_topics_and_modes() {
    let base = Component::new("DHW", "ThermaV", "thermav", "dhw", "mdi:water-boiler");
    let c = base.clone().water_heater(vec!["off", "heat_pump"]);
    let mut expected = base;
    expected.platform = "water_heater".to_string();
    expected.mode_state_topic = Some("ThermaV/thermav.dhw/mode".to_string());
    expected.mode_command_topic = Some("ThermaV/thermav.dhw/mode/set".to_string());
    expected.temperature_state_topic = Some("ThermaV/thermav.dhw/temperature".to_string());
    expected.temperature_command_topic = Some("ThermaV/thermav.dhw/temperature/set".to_string());
    expected.current_temperature_topic = Some("ThermaV/thermav.dhw/current_temperature".to_string());
    expected.modes = Some(vec!["off".to_string(), "heat_pump".to_string()]);
    assert_eq!(c, expected);
}

#[test]
fn a_select_has_its_options_and_command_topic() {
    let base = Component::new("Energy", "ThermaV", "thermav", "energy_mode", "mdi:battery");
    let c = base.clone().select(vec!["Not Use", "Forced Off"]);
    let mut expected = base;
    expected.platform = "select".to_string();
    expected.options = Some(vec!["Not Use".to_string(), "Forced Off".to_string()]);
    expected.command_topic = Some("ThermaV/thermav.energy_mode/mode".to_string());
    assert_eq!(c, expected);
    let none = Component::new("n", "d", "i", "x", "icon").select(vec![]);
    assert_eq!(none.options, Some(vec![]));
}

#[test]
fn a_device_is_made_from_its_configuration() {
    let device = Device::from(DeviceConfig {
        id: "thermav".to_string(),
        name: "ThermaV R32".to_string(),
        manufacturer: "LG".to_string(),
        model: "R32".to_string(),
    });
    assert_eq!(
        device,
        Device {
            identifiers: vec!["thermav".to_string()],
            name: "ThermaV R32".to_string(),
            manufacturer: Some("LG".to_string()),
            model: Some("R32".to_string()),
            model_id: None,
            sw_version: None,
            serial_number: None,
            hw_version: None,
            suggested_area: None,
        }
    );
}

#[test]
fn the_heat_pump_tells_of_itself() {
    let pump = heat_pump();
    assert_eq!(pump.base_topic(), "ThermaV");
    assert_eq!(pump.id(), "thermav");
    assert_eq!(pump.name(), "ThermaV R32");
    assert_eq!(pump.manufacturer(), "LG");
    assert_eq!(pump.origin_name(), "LG ThermaV");
    assert_eq!(pump.model(), "ThermaV R32");
}

#[test]
fn the_discovery_message_holds_eight_numbered_components() {
    let discovery = create_discovery_message(&heat_pump());
    assert_eq!(discovery.device.identifiers, vec!["thermav"]);
    assert_eq!(discovery.device.name, "ThermaV R32");
    assert_eq!(discovery.device.manufacturer, Some("LG".to_string()));
    assert_eq!(discovery.device.model, Some("ThermaV R32".to_string()));
    assert_eq!(discovery.origin.name, "LG ThermaV");
    assert_eq!(discovery.origin.sw_version, None);
    assert_eq!(discovery.origin.support_url, None);
    let keys: Vec<&str> = discovery.components.iter().map(|c| c.0.as_str()).collect();
    assert_eq!(keys, vec!["0", "1", "2", "3", "4", "5", "6", "7"]);
    let names: Vec<&str> = discovery.components.iter().map(|c| c.1.name.as_str()).collect();
    assert_eq!(
        names,
        vec![
            "Inlet Temperature",
            "Outlet Temperature",
            "Water Flow Status",
            "Water Pump Status",
            "Compressor Status",
            "DHW Heating Status",
            "DHW",
            "Energy State Input",
        ]
    );
    let platforms: Vec<&str> = discovery.components.iter().map(|c| c.1.platform.as_str()).collect();
    assert_eq!(
        platforms,
        vec![
            "sensor",
            "sensor",
            "binary_sensor",
            "binary_sensor",
            "binary_sensor",
            "binary_sensor",
            "water_heater",
            "select",
        ]
    );
    assert_eq!(
        discovery.components[0].1,
        Component::new(
            "Inlet Temperature",
            "ThermaV",
            "thermav",
            "water_inlet_temperature",
            "mdi:water-thermometer"
        )
        .temperature_sensor()
    );
    assert_eq!(
        discovery.components[5].1.state_topic,
        "ThermaV/thermav.d_h_w_heating_status_d_h_w_thermal_on_off"
    );
    assert_eq!(
        discovery.components[6].1.modes,
        Some(vec!["off".to_string(), "heat_pump".to_string()])
    );
    assert_eq!(discovery.components[7].1.options.as_ref().unwrap().len(), 8);
    assert_eq!(discovery.components[7].1.options.as_ref().unwrap()[7], "Super Energy saving mode");
    assert_eq!(discovery.components[7].1.icon, "mdi:battery-charging-high");
}

#[test]
fn components_are_added_under_the_number_of_their_place() {
    let mut components = Vec::new();
    for i in 0..12 {
        add_component(&mut components, Component::new("n", "d", "i", "x", "icon"));
        assert_eq!(components.len(), i + 1);
        assert_eq!(components[i].0, i.to_string());
    }
}

#[test]
fn the_water_heater_is_subscribed_to() {
    let discovery = create_discovery_message(&heat_pump());
    assert_eq!(
        subscriptions(&discovery),
        vec!["ThermaV/thermav.dhw/mode/set", "ThermaV/thermav.dhw/temperature/set"]
    );
}

#[test]
fn a_binary_sensor_is_published_as_on_or_off() {
    assert_eq!(BinarySensor(true).payload(), b"ON".to_vec());
    assert_eq!(BinarySensor(false).payload(), b"OFF".to_vec());
}

#[test]
fn topics_are_put_together() {
    assert_eq!(sensor_topic("ThermaV", "thermav.dhw/mode"), "ThermaV/thermav.dhw/mode");
    assert_eq!(availability_topic("ThermaV"), "ThermaV/$state");
    assert_eq!(normalized_topic("thermav", "water_flow_status"), "thermav.water_flow_status");
    assert_eq!(discovery_topic("thermav"), "device/thermav/config");
}

#[test]
fn availability_is_ready_or_lost() {
    assert_eq!(availability_payload(true), "ready");
    assert_eq!(availability_payload(false), "lost");
}

#[test]
fn only_the_temperature_topic_sets_a_coil() {
    assert_eq!(
        command_for("ThermaV/thermav.dhw/temperature/set", "true", 3),
        Some(Command::SetCoil { reg: 3, value: true })
    );
    assert_eq!(
        command_for("ThermaV/thermav.dhw/temperature/set", "55", 3),
        Some(Command::SetCoil { reg: 3, value: false })
    );
    assert_eq!(command_for("ThermaV/thermav.dhw/mode/set", "true", 3), None);
    assert_eq!(command_for("", "true", 3), None);
}

#[test]
fn readings_are_published_as_states() {
    assert_eq!(
        sensor_state(&Register::Coil(CoilRegister(1, true))),
        SensorState::Binary(BinarySensor(true))
    );
    assert_eq!(
        sensor_state(&Register::Discrete(DiscreteRegister(1, false))),
        SensorState::Binary(BinarySensor(false))
    );
    assert_eq!(
        sensor_state(&Register::Holding(HoldingRegister(2, vec![435]))),
        SensorState::Tenths(435)
    );
    assert_eq!(
        sensor_state(&Register::Input(InputRegister(2, vec![350, 9]))),
        SensorState::Tenths(350)
    );
}

#[test]
fn a_word_reading_without_words_holds_no_state() {
    assert!(holds_state(&Register::Coil(CoilRegister(1, true))));
    assert!(holds_state(&Register::Discrete(DiscreteRegister(1, true))));
    assert!(holds_state(&Register::Holding(HoldingRegister(2, vec![1]))));
    assert!(!holds_state(&Register::Holding(HoldingRegister(2, vec![]))));
    assert!(!holds_state(&Register::Input(InputRegister(2, vec![]))));
}

#[test]
fn the_default_component_holds_nothing() {
    let c = Component::default();
    assert_eq!(c.name, "");
    assert_eq!(c.object_id, "");
    assert_eq!(c.state_topic, "");
    assert_eq!(c.payload_available, "");
    assert_eq!(c.device_class, None);
    assert_eq!(c.modes, None);
    assert_eq!(c.options, None);
    assert_eq!(c.command_topic, None);
    let mut made = Component::new("", "", "", "", "");
    made.object_id = String::new();
    made.unique_id = String::new();
    made.state_topic = String::new();
    made.availability_topic = String::new();
    made.payload_available = String::new();
    made.payload_not_available = String::new();
    assert_eq!(c, made);
}
