use thermav_lib::modbus::{CoilRegister, DiscreteRegister, HoldingRegister, InputRegister};
use thermav_lib::mqtt::hass::{
    based_sensor_topic, create_discovery_message, sensor_topic, tells_availability, Component,
    Device, DeviceConfig,
};
use thermav_lib::mqtt::modbus_to_mqtt::{le_bytes, publication};
use thermav_lib::mqtt::topic_below_base;
use thermav_lib::Register;

#[test]
fn booleans_are_published_as_one_byte() {
    assert_eq!(
        publication(&Register::Coil(CoilRegister(0x2, true))),
        ("coils/002".to_string(), vec![1u8])
    );
    assert_eq!(
        publication(&Register::Coil(CoilRegister(0x2, false))),
        ("coils/002".to_string(), vec![0u8])
    );
    assert_eq!(
        publication(&Register::Discrete(DiscreteRegister(0xabc, true))),
        ("discrete/abc".to_string(), vec![1u8])
    );
}

#[test]
fn words_are_published_low_byte_first() {
    assert_eq!(
        publication(&Register::Holding(HoldingRegister(0, vec![0x1234, 0x00ff]))),
        ("holding/000".to_string(), vec![0x34, 0x12, 0xff, 0x00])
    );
    assert_eq!(
        publication(&Register::Input(InputRegister(0xffff, vec![]))),
        ("input/ffff".to_string(), vec![])
    );
    assert_eq!(le_bytes(&[0x0102]), 0x0102u16.to_le_bytes().to_vec());
}

#[test]
fn addresses_are_written_with_three_hex_digits_at_least() {
    for (reg, text) in [(0u16, "000"), (0xf, "00f"), (0x10, "010"), (0xfff, "fff"), (0x1000, "1000")] {
        let (topic, _) = publication(&Register::Coil(CoilRegister(reg, false)));
        assert_eq!(topic, format!("coils/{}", text));
        assert_eq!(topic, format!("coils/{:03x}", reg));
    }
}

#[test]
fn a_topic_is_put_below_the_base_topic() {
    assert_eq!(topic_below_base("home", "device/thermav/config"), "home/device/thermav/config");
}

#[test]
fn the_first_component_form_derives_its_ids() {
    let c = Component::new("ThermaV".to_string(), "inlet_temperature".to_string());
    assert_eq!(
        c,
        Component {
            name: String::new(),
            object_id: "ThermaV.inlet_temperature".to_string(),
            unique_id: "ThermaV.inlet_temperature".to_string(),
            state_topic: String::new(),
            platform: String::new(),
            availability_topic: "ThermaV/$state".to_string(),
            device_class: None,
            payload_available: "ready".to_string(),
            payload_not_available: "lost".to_string(),
            unit_of_measurement: None,
            icon: String::new(),
        }
    );
}

#[test]
fn the_fixed_discovery_message_holds_three_components() {
    let discovery = create_discovery_message();
    assert_eq!(
        discovery.device,
        Device::from(DeviceConfig {
            id: "lg_therma_v".to_string(),
            name: "ThermaV R32".to_string(),
            manufacturer: "LG".to_string(),
            model: "ThermaV R32".to_string(),
        })
    );
    assert_eq!(discovery.device.identifiers, vec!["lg_therma_v"]);
    assert_eq!(discovery.origin.name, "LG ThermaV");
    let keys: Vec<&str> = discovery.components.iter().map(|c| c.0.as_str()).collect();
    assert_eq!(keys, vec!["inlet_temperature1234", "water_flow1234", "dhw1234"]);
    let inlet = &discovery.components[0].1;
    assert_eq!(inlet.name, "Inlet Temperature");
    assert_eq!(inlet.object_id, "ThermaV.inlet_temperature");
    assert_eq!(inlet.state_topic, "ThermaV/inlet_temperature");
    assert_eq!(inlet.platform, "sensor");
    assert_eq!(inlet.device_class, Some("temperature".to_string()));
    assert_eq!(inlet.unit_of_measurement, Some("\u{b0}C".to_string()));
    assert_eq!(inlet.icon, "mdi:water-thermometer");
    let flow = &discovery.components[1].1;
    assert_eq!(flow.object_id, "thermav.water_flow_status");
    assert_eq!(flow.platform, "binary_sensor");
    assert_eq!(flow.icon, "mdi:water-pump");
    let dhw = &discovery.components[2].1;
    assert_eq!(dhw.state_topic, "ThermaV/dhw/availability");
    assert_eq!(dhw.platform, "water_heater");
    assert_eq!(dhw.device_class, None);
}

#[test]
fn sensor_topics_of_the_first_form() {
    assert_eq!(sensor_topic("ThermaV", "thermav.water_flow_status"), "ThermaV/thermav.water_flow_status");
    assert_eq!(based_sensor_topic("ThermaV", "flow"), "sensor/ThermaV/flow");
    assert!(tells_availability("dhw_availability"));
    assert!(!tells_availability("dhw"));
}

#[test]
fn the_default_component_of_the_first_form_holds_nothing() {
    let c = Component::default();
    assert_eq!(c.name, "");
    assert_eq!(c.object_id, "");
    assert_eq!(c.availability_topic, "");
    assert_eq!(c.payload_not_available, "");
    assert_eq!(c.unit_of_measurement, None);
    assert_eq!(c.icon, "");
}
