//! Home Assistant discovery: the device, its origin and its components, and
//! the topics and payloads of the bridge between the device and MQTT.

use vstd::prelude::*;
use crate::text::{
    concat2, concat3, decimal_string, decimal_text, option_text, owned_strings, texts,
};
use crate::Register;

verus! {

/// The discovery message of a device. The components are kept in the order in
/// which they were added, each under its key; no key occurs twice.
#[derive(Debug, Clone, PartialEq, Eq)]
pub struct Discovery {
    pub device: Device,
    pub origin: Origin,
    pub components: Vec<(String, Component)>,
}

/// Where a discovery message comes from.
#[derive(Debug, Clone, PartialEq, Eq)]
pub struct Origin {
    pub name: String,
    pub sw_version: Option<String>,
    pub support_url: Option<String>,
}

/// One component of a device.
#[derive(Debug, Clone, PartialEq, Eq)]
pub struct Component {
    pub name: String,
    pub object_id: String,
    pub unique_id: String,
    pub state_topic: String,
    pub platform: String,
    pub availability_topic: String,
    pub device_class: Option<String>,
    pub payload_available: String,
    pub payload_not_available: String,
    pub unit_of_measurement: Option<String>,
    pub icon: String,
    pub modes: Option<Vec<String>>,
    pub mode_state_topic: Option<String>,
    pub mode_command_topic: Option<String>,
    pub temperature_state_topic: Option<String>,
    pub temperature_command_topic: Option<String>,
    pub current_temperature_topic: Option<String>,
    pub options: Option<Vec<String>>,
    pub command_topic: Option<String>,
}

/// The device of a discovery message.
#[derive(Debug, Clone, PartialEq, Eq)]
pub struct Device {
    pub identifiers: Vec<String>,
    pub name: String,
    pub manufacturer: Option<String>,
    pub model: Option<String>,
    pub model_id: Option<String>,
    pub sw_version: Option<String>,
    pub serial_number: Option<String>,
    pub hw_version: Option<String>,
    pub suggested_area: Option<String>,
}

/// What is configured of a device.
#[derive(Debug, Clone, PartialEq, Eq)]
pub struct DeviceConfig {
    pub id: String,
    pub name: String,
    pub manufacturer: String,
    pub model: String,
}

/// What a `Component` stands for.
pub ghost struct ComponentView {
    pub name: Seq<char>,
    pub object_id: Seq<char>,
    pub unique_id: Seq<char>,
    pub state_topic: Seq<char>,
    pub platform: Seq<char>,
    pub availability_topic: Seq<char>,
    pub device_class: Option<Seq<char>>,
    pub payload_available: Seq<char>,
    pub payload_not_available: Seq<char>,
    pub unit_of_measurement: Option<Seq<char>>,
    pub icon: Seq<char>,
    pub modes: Option<Seq<Seq<char>>>,
    pub mode_state_topic: Option<Seq<char>>,
    pub mode_command_topic: Option<Seq<char>>,
    pub temperature_state_topic: Option<Seq<char>>,
    pub temperature_command_topic: Option<Seq<char>>,
    pub current_temperature_topic: Option<Seq<char>>,
    pub options: Option<Seq<Seq<char>>>,
    pub command_topic: Option<Seq<char>>,
}

/// What a `Device` stands for.
pub ghost struct DeviceView {
    pub identifiers: Seq<Seq<char>>,
    pub name: Seq<char>,
    pub manufacturer: Option<Seq<char>>,
    pub model: Option<Seq<char>>,
    pub model_id: Option<Seq<char>>,
    pub sw_version: Option<Seq<char>>,
    pub serial_number: Option<Seq<char>>,
    pub hw_version: Option<Seq<char>>,
    pub suggested_area: Option<Seq<char>>,
}

/// What a `DeviceConfig` stands for.
pub ghost struct DeviceConfigView {
    pub id: Seq<char>,
    pub name: Seq<char>,
    pub manufacturer: Seq<char>,
    pub model: Seq<char>,
}

/// What an `Origin` stands for.
pub ghost struct OriginView {
    pub name: Seq<char>,
    pub sw_version: Option<Seq<char>>,
    pub support_url: Option<Seq<char>>,
}

/// What a `Discovery` stands for.
pub ghost struct DiscoveryView {
    pub device: DeviceView,
    pub origin: OriginView,
    pub components: Seq<(Seq<char>, ComponentView)>,
}

/// The texts of an optional list of strings.
pub open spec fn option_texts(list: Option<Vec<String>>) -> Option<Seq<Seq<char>>> {
    match list {
        Some(l) => Some(texts(l@)),
        None => None,
    }
}

impl View for Component {
    type V = ComponentView;

    open spec fn view(&self) -> ComponentView {
        ComponentView {
            name: self.name@,
            object_id: self.object_id@,
            unique_id: self.unique_id@,
            state_topic: self.state_topic@,
            platform: self.platform@,
            availability_topic: self.availability_topic@,
            device_class: option_text(self.device_class),
            payload_available: self.payload_available@,
            payload_not_available: self.payload_not_available@,
            unit_of_measurement: option_text(self.unit_of_measurement),
            icon: self.icon@,
            modes: option_texts(self.modes),
            mode_state_topic: option_text(self.mode_state_topic),
            mode_command_topic: option_text(self.mode_command_topic),
            temperature_state_topic: option_text(self.temperature_state_topic),
            temperature_command_topic: option_text(self.temperature_command_topic),
            current_temperature_topic: option_text(self.current_temperature_topic),
            options: option_texts(self.options),
            command_topic: option_text(self.command_topic),
        }
    }
}

impl View for Device {
    type V = DeviceView;

    open spec fn view(&self) -> DeviceView {
        DeviceView {
            identifiers: texts(self.identifiers@),
            name: self.name@,
            manufacturer: option_text(self.manufacturer),
            model: option_text(self.model),
            model_id: option_text(self.model_id),
            sw_version: option_text(self.sw_version),
            serial_number: option_text(self.serial_number),
            hw_version: option_text(self.hw_version),
            suggested_area: option_text(self.suggested_area),
        }
    }
}

impl View for DeviceConfig {
    type V = DeviceConfigView;

    open spec fn view(&self) -> DeviceConfigView {
        DeviceConfigView {
            id: self.id@,
            name: self.name@,
            manufacturer: self.manufacturer@,
            model: self.model@,
        }
    }
}

impl View for Origin {
    type V = OriginView;

    open spec fn view(&self) -> OriginView {
        OriginView {
            name: self.name@,
            sw_version: option_text(self.sw_version),
            support_url: option_text(self.support_url),
        }
    }
}

/// The views of a list of keyed components.
pub open spec fn component_views(components: Seq<(String, Component)>) -> Seq<
    (Seq<char>, ComponentView),
> {
    components.map_values(|c: (String, Component)| (c.0@, c.1@))
}

impl View for Discovery {
    type V = DiscoveryView;

    open spec fn view(&self) -> DiscoveryView {
        DiscoveryView {
            device: self.device@,
            origin: self.origin@,
            components: component_views(self.components@),
        }
    }
}

/// Whether no key occurs twice among the components.
pub open spec fn distinct_keys(components: Seq<(Seq<char>, ComponentView)>) -> bool {
    forall|i: int, j: int|
        0 <= i < j < components.len() ==> (#[trigger] components[i]).0 != (
        #[trigger] components[j]).0
}

/// The component that `Component::new` makes.
pub open spec fn component_of(
    name: Seq<char>,
    device_name: Seq<char>,
    device_id: Seq<char>,
    id: Seq<char>,
    icon: Seq<char>,
) -> ComponentView {
    ComponentView {
        name,
        object_id: device_name + "."@ + id,
        unique_id: device_name + "."@ + id,
        state_topic: device_name + "/"@ + device_id + "."@ + id,
        platform: Seq::empty(),
        availability_topic: device_name + "/$state"@,
        device_class: None,
        payload_available: "ready"@,
        payload_not_available: "lost"@,
        unit_of_measurement: None,
        icon,
        modes: None,
        mode_state_topic: None,
        mode_command_topic: None,
        temperature_state_topic: None,
        temperature_command_topic: None,
        current_temperature_topic: None,
        options: None,
        command_topic: None,
    }
}

/// A component turned into a temperature sensor.
pub open spec fn as_temperature_sensor(c: ComponentView) -> ComponentView {
    ComponentView {
        platform: "sensor"@,
        device_class: Some("temperature"@),
        unit_of_measurement: Some("\u{c2}\u{b0}C"@),
        ..c
    }
}

/// A component turned into a binary sensor.
pub open spec fn as_binary_sensor(c: ComponentView) -> ComponentView {
    ComponentView { platform: "binary_sensor"@, device_class: Some("opening"@), ..c }
}

/// A component turned into a water heater with the given modes.
pub open spec fn as_water_heater(c: ComponentView, modes: Seq<Seq<char>>) -> ComponentView {
    ComponentView {
        platform: "water_heater"@,
        mode_state_topic: Some(c.state_topic + "/mode"@),
        mode_command_topic: Some(c.state_topic + "/mode/set"@),
        temperature_state_topic: Some(c.state_topic + "/temperature"@),
        temperature_command_topic: Some(c.state_topic + "/temperature/set"@),
        current_temperature_topic: Some(c.state_topic + "/current_temperature"@),
        modes: Some(modes),
        ..c
    }
}

/// A component turned into a select with the given options.
pub open spec fn as_select(c: ComponentView, options: Seq<Seq<char>>) -> ComponentView {
    ComponentView {
        platform: "select"@,
        options: Some(options),
        command_topic: Some(c.state_topic + "/mode"@),
        ..c
    }
}

/// The device that a configuration describes.
pub open spec fn device_of(cfg: DeviceConfigView) -> DeviceView {
    DeviceView {
        identifiers: seq![cfg.id],
        name: cfg.name,
        manufacturer: Some(cfg.manufacturer),
        model: Some(cfg.model),
        model_id: None,
        sw_version: None,
        serial_number: None,
        hw_version: None,
        suggested_area: None,
    }
}

/// The component that holds nothing: every text is empty and every optional
/// field is absent.
pub open spec fn empty_component() -> ComponentView {
    ComponentView {
        name: Seq::empty(),
        object_id: Seq::empty(),
        unique_id: Seq::empty(),
        state_topic: Seq::empty(),
        platform: Seq::empty(),
        availability_topic: Seq::empty(),
        device_class: None,
        payload_available: Seq::empty(),
        payload_not_available: Seq::empty(),
        unit_of_measurement: None,
        icon: Seq::empty(),
        modes: None,
        mode_state_topic: None,
        mode_command_topic: None,
        temperature_state_topic: None,
        temperature_command_topic: None,
        current_temperature_topic: None,
        options: None,
        command_topic: None,
    }
}

impl Default for Component {
    /// The component that holds nothing.
    fn default() -> (component: Self)
        ensures
            component@ == empty_component(),
    {
        Component {
            name: String::new(),
            object_id: String::new(),
            unique_id: String::new(),
            state_topic: String::new(),
            platform: String::new(),
            availability_topic: String::new(),
            device_class: None,
            payload_available: String::new(),
            payload_not_available: String::new(),
            unit_of_measurement: None,
            icon: String::new(),
            modes: None,
            mode_state_topic: None,
            mode_command_topic: None,
            temperature_state_topic: None,
            temperature_command_topic: None,
            current_temperature_topic: None,
            options: None,
            command_topic: None,
        }
    }
}

impl Component {
    /// A component of the device `device_name` with the identifier `id`. Its
    /// topics are derived from the names; it is available with `ready` and
    /// lost with `lost`; it has no platform yet.
    pub fn new(name: &str, device_name: &str, device_id: &str, id: &str, icon: &str) -> (component:
        Self)
        ensures
            component@ == component_of(name@, device_name@, device_id@, id@, icon@),
    {
        let mut state_topic = concat3(device_name, "/", device_id);
        state_topic.append(".");
        state_topic.append(id);
        Component {
            name: String::from_str(name),
            object_id: concat3(device_name, ".", id),
            unique_id: concat3(device_name, ".", id),
            state_topic,
            platform: String::new(),
            availability_topic: concat2(device_name, "/$state"),
            device_class: None,
            payload_available: String::from_str("ready"),
            payload_not_available: String::from_str("lost"),
            unit_of_measurement: None,
            icon: String::from_str(icon),
            modes: None,
            mode_state_topic: None,
            mode_command_topic: None,
            temperature_state_topic: None,
            temperature_command_topic: None,
            current_temperature_topic: None,
            options: None,
            command_topic: None,
        }
    }

    /// Turns the component into a temperature sensor.
    pub fn temperature_sensor(self) -> (component: Self)
        ensures
            component@ == as_temperature_sensor(self@),
    {
        let mut component = self;
        component.platform = String::from_str("sensor");
        component.device_class = Some(String::from_str("temperature"));
        component.unit_of_measurement = Some(String::from_str("\u{c2}\u{b0}C"));
        component
    }

    /// Turns the component into a binary sensor.
    pub fn binary_sensor(self) -> (component: Self)
        ensures
            component@ == as_binary_sensor(self@),
    {
        let mut component = self;
        component.platform = String::from_str("binary_sensor");
        component.device_class = Some(String::from_str("opening"));
        component
    }

    /// Turns the component into a water heater with the given modes. Its mode
    /// and temperature topics lie under its state topic.
    pub fn water_heater(self, modes: Vec<&str>) -> (component: Self)
        ensures
            component@ == as_water_heater(self@, modes@.map_values(|s: &str| s@)),
    {
        let mut component = self;
        component.platform = String::from_str("water_heater");
        component.mode_state_topic = Some(concat2(component.state_topic.as_str(), "/mode"));
        component.mode_command_topic = Some(concat2(component.state_topic.as_str(), "/mode/set"));
        component.temperature_state_topic = Some(
            concat2(component.state_topic.as_str(), "/temperature"),
        );
        component.temperature_command_topic = Some(
            concat2(component.state_topic.as_str(), "/temperature/set"),
        );
        component.current_temperature_topic = Some(
            concat2(component.state_topic.as_str(), "/current_temperature"),
        );
        component.modes = Some(owned_strings(modes.as_slice()));
        component
    }

    /// Turns the component into a select with the given options. Its command
    /// topic lies under its state topic.
    pub fn select(self, options: Vec<&str>) -> (component: Self)
        ensures
            component@ == as_select(self@, options@.map_values(|s: &str| s@)),
    {
        let mut component = self;
        component.platform = String::from_str("select");
        component.options = Some(owned_strings(options.as_slice()));
        component.command_topic = Some(concat2(component.state_topic.as_str(), "/mode"));
        component
    }
}

impl From<DeviceConfig> for Device {
    /// The device that a configuration describes: it is identified by the
    /// configured id alone, and nothing is known of its versions.
    fn from(cfg: DeviceConfig) -> (device: Self)
        ensures
            device@ == device_of(cfg@),
    {
        let mut identifiers: Vec<String> = Vec::new();
        identifiers.push(cfg.id);
        proof {
            assert(texts(identifiers@) =~= seq![cfg.id@]);
        }
        Device {
            name: cfg.name,
            identifiers,
            manufacturer: Some(cfg.manufacturer),
            model: Some(cfg.model),
            model_id: None,
            sw_version: None,
            serial_number: None,
            hw_version: None,
            suggested_area: None,
        }
    }
}

/// The conversion is told by the contract of `from`, over the views: no
/// device is singled out among those with the same view.
impl vstd::std_specs::convert::FromSpecImpl<DeviceConfig> for Device {
    open spec fn obeys_from_spec() -> bool {
        false
    }

    open spec fn from_spec(cfg: DeviceConfig) -> Device {
        choose|device: Device| device@ == device_of(cfg@)
    }
}

/// What a device tells of itself. The texts are fixed for a device: every call
/// gives the same.
pub trait DeviceProperties {
    spec fn base_topic_text(&self) -> Seq<char>;

    spec fn id_text(&self) -> Seq<char>;

    spec fn name_text(&self) -> Seq<char>;

    spec fn manufacturer_text(&self) -> Seq<char>;

    spec fn origin_name_text(&self) -> Seq<char>;

    spec fn model_text(&self) -> Seq<char>;

    fn base_topic(&self) -> (text: String)
        ensures
            text@ == self.base_topic_text(),
    ;

    fn id(&self) -> (text: String)
        ensures
            text@ == self.id_text(),
    ;

    fn name(&self) -> (text: String)
        ensures
            text@ == self.name_text(),
    ;

    fn manufacturer(&self) -> (text: String)
        ensures
            text@ == self.manufacturer_text(),
    ;

    fn origin_name(&self) -> (text: String)
        ensures
            text@ == self.origin_name_text(),
    ;

    fn model(&self) -> (text: String)
        ensures
            text@ == self.model_text(),
    ;
}

/// The components of the heat pump, in the order of their keys.
pub open spec fn heat_pump_components(base: Seq<char>, id: Seq<char>) -> Seq<ComponentView> {
    seq![
        as_temperature_sensor(
            component_of(
                "Inlet Temperature"@,
                base,
                id,
                "water_inlet_temperature"@,
                "mdi:water-thermometer"@,
            ),
        ),
        as_temperature_sensor(
            component_of(
                "Outlet Temperature"@,
                base,
                id,
                "water_outlet_temperature"@,
                "mdi:water-thermometer"@,
            ),
        ),
        as_binary_sensor(
            component_of(
                "Water Flow Status"@,
                base,
                id,
                "water_flow_status"@,
                "mdi:waves-arrow-right"@,
            ),
        ),
        as_binary_sensor(
            component_of("Water Pump Status"@, base, id, "water_pump_status"@, "mdi:heat-pump"@),
        ),
        as_binary_sensor(
            component_of(
                "Compressor Status"@,
                base,
                id,
                "compressor_status"@,
                "mdi:arrow-collapse-all"@,
            ),
        ),
        as_binary_sensor(
            component_of(
                "DHW Heating Status"@,
                base,
                id,
                "d_h_w_heating_status_d_h_w_thermal_on_off"@,
                "mdi:water-boiler"@,
            ),
        ),
        as_water_heater(
            component_of("DHW"@, base, id, "dhw"@, "mdi:water-boiler"@),
            seq!["off"@, "heat_pump"@],
        ),
        as_select(
            component_of(
                "Energy State Input"@,
                base,
                id,
                "energy_mode"@,
                "mdi:battery-charging-high"@,
            ),
            seq![
                "Not Use"@,
                "Forced Off"@,
                "Normal Operation"@,
                "On-recommendation"@,
                "On-command step 2"@,
                "On-recommendation Step 1"@,
                "Energy Saving mode"@,
                "Super Energy saving mode"@,
            ],
        ),
    ]
}

/// The discovery message of the heat pump: each component under the decimal
/// number of its position.
pub open spec fn discovery_of(
    base: Seq<char>,
    id: Seq<char>,
    name: Seq<char>,
    manufacturer: Seq<char>,
    model: Seq<char>,
    origin_name: Seq<char>,
) -> DiscoveryView {
    DiscoveryView {
        device: device_of(DeviceConfigView { id, name, manufacturer, model }),
        origin: OriginView { name: origin_name, sw_version: None, support_url: None },
        components: Seq::new(
            heat_pump_components(base, id).len(),
            |i: int| (decimal_text(i as nat), heat_pump_components(base, id)[i]),
        ),
    }
}

/// Adds a component under the decimal number of the components that are
/// already there.
pub fn add_component(components: &mut Vec<(String, Component)>, component: Component)
    ensures
        component_views(final(components)@) == component_views(old(components)@).push(
            (decimal_text(old(components)@.len()), component@),
        ),
{
    let key = decimal_string(components.len() as u64);
    proof {
        assert(component_views(components@.push((key, component))) =~= component_views(
            components@,
        ).push((key@, component@)));
    }
    components.push((key, component));
}

/// The keys of fewer than ten components that were each added under the
/// number of its position differ.
pub proof fn lemma_numbered_keys_distinct(components: Seq<(Seq<char>, ComponentView)>)
    requires
        components.len() <= 10,
        forall|i: int|
            0 <= i < components.len() ==> (#[trigger] components[i]).0 == decimal_text(i as nat),
    ensures
        distinct_keys(components),
{
    assert forall|i: int, j: int| 0 <= i < j < components.len() implies (
    #[trigger] components[i]).0 != (#[trigger] components[j]).0 by {
        assert(decimal_text(i as nat)[0] != decimal_text(j as nat)[0]);
    }
}

/// Builds the discovery message of a device from what the device tells of
/// itself.
pub fn create_discovery_message<P: DeviceProperties>(device_properties: &P) -> (discovery:
    Discovery)
    ensures
        discovery@ == discovery_of(
            device_properties.base_topic_text(),
            device_properties.id_text(),
            device_properties.name_text(),
            device_properties.manufacturer_text(),
            device_properties.model_text(),
            device_properties.origin_name_text(),
        ),
        distinct_keys(discovery@.components),
{
    let device_config = DeviceConfig {
        id: device_properties.id(),
        name: device_properties.name(),
        manufacturer: device_properties.manufacturer(),
        model: device_properties.model(),
    };
    let base = device_properties.base_topic();
    let mut map: Vec<(String, Component)> = Vec::new();
    proof {
        assert(component_views(map@) =~= Seq::<(Seq<char>, ComponentView)>::empty());
    }
    add_component(
        &mut map,
        Component::new(
            "Inlet Temperature",
            base.as_str(),
            device_config.id.as_str(),
            "water_inlet_temperature",
            "mdi:water-thermometer",
        ).temperature_sensor(),
    );
    add_component(
        &mut map,
        Component::new(
            "Outlet Temperature",
            base.as_str(),
            device_config.id.as_str(),
            "water_outlet_temperature",
            "mdi:water-thermometer",
        ).temperature_sensor(),
    );
    add_component(
        &mut map,
        Component::new(
            "Water Flow Status",
            base.as_str(),
            device_config.id.as_str(),
            "water_flow_status",
            "mdi:waves-arrow-right",
        ).binary_sensor(),
    );
    add_component(
        &mut map,
        Component::new(
            "Water Pump Status",
            base.as_str(),
            device_config.id.as_str(),
            "water_pump_status",
            "mdi:heat-pump",
        ).binary_sensor(),
    );
    add_component(
        &mut map,
        Component::new(
            "Compressor Status",
            base.as_str(),
            device_config.id.as_str(),
            "compressor_status",
            "mdi:arrow-collapse-all",
        ).binary_sensor(),
    );
    add_component(
        &mut map,
        Component::new(
            "DHW Heating Status",
            base.as_str(),
            device_config.id.as_str(),
            "d_h_w_heating_status_d_h_w_thermal_on_off",
            "mdi:water-boiler",
        ).binary_sensor(),
    );
    let modes: Vec<&str> = vec!["off", "heat_pump"];
    proof {
        assert(modes@.map_values(|s: &str| s@) =~= seq!["off"@, "heat_pump"@]);
    }
    add_component(
        &mut map,
        Component::new(
            "DHW",
            base.as_str(),
            device_config.id.as_str(),
            "dhw",
            "mdi:water-boiler",
        ).water_heater(modes),
    );
    let options: Vec<&str> = vec![
        "Not Use",
        "Forced Off",
        "Normal Operation",
        "On-recommendation",
        "On-command step 2",
        "On-recommendation Step 1",
        "Energy Saving mode",
        "Super Energy saving mode",
    ];
    proof {
        assert(options@.map_values(|s: &str| s@) =~= seq![
            "Not Use"@,
            "Forced Off"@,
            "Normal Operation"@,
            "On-recommendation"@,
            "On-command step 2"@,
            "On-recommendation Step 1"@,
            "Energy Saving mode"@,
            "Super Energy saving mode"@,
        ]);
    }
    add_component(
        &mut map,
        Component::new(
            "Energy State Input",
            base.as_str(),
            device_config.id.as_str(),
            "energy_mode",
            "mdi:battery-charging-high",
        ).select(options),
    );
    let ghost wanted = discovery_of(
        device_properties.base_topic_text(),
        device_properties.id_text(),
        device_properties.name_text(),
        device_properties.manufacturer_text(),
        device_properties.model_text(),
        device_properties.origin_name_text(),
    );
    proof {
        assert(component_views(map@) =~= wanted.components);
        lemma_numbered_keys_distinct(wanted.components);
    }
    let origin = Origin {
        name: device_properties.origin_name(),
        sw_version: None,
        support_url: None,
    };
    Discovery { device: Device::from(device_config), origin, components: map }
}

/// The state of a binary sensor.
#[derive(Debug, Clone, Copy, PartialEq, Eq, Structural)]
pub struct BinarySensor(pub bool);

/// The payload of a binary sensor: the bytes of `ON` or of `OFF`.
pub open spec fn binary_payload(on: bool) -> Seq<u8> {
    if on {
        seq![79u8, 78u8]
    } else {
        seq![79u8, 70u8, 70u8]
    }
}

impl BinarySensor {
    /// The payload that publishes the state: `ON` or `OFF`.
    pub fn payload(&self) -> (bytes: Vec<u8>)
        ensures
            bytes@ == binary_payload(self.0),
    {
        let mut bytes: Vec<u8> = Vec::new();
        bytes.push(79u8);
        if self.0 {
            bytes.push(78u8);
        } else {
            bytes.push(70u8);
            bytes.push(70u8);
        }
        proof {
            assert(bytes@ =~= binary_payload(self.0));
        }
        bytes
    }
}

/// The topic under which an instance publishes the state of a sensor.
pub fn sensor_topic(instance_name: &str, sensor_id: &str) -> (topic: String)
    ensures
        topic@ == instance_name@ + "/"@ + sensor_id@,
{
    concat3(instance_name, "/", sensor_id)
}

/// The topic under which an instance publishes whether it is available.
pub fn availability_topic(instance_name: &str) -> (topic: String)
    ensures
        topic@ == instance_name@ + "/$state"@,
{
    concat2(instance_name, "/$state")
}

/// The text that tells whether an instance is available: `ready` or `lost`.
pub fn availability_payload(state: bool) -> (text: String)
    ensures
        text@ == if state {
            "ready"@
        } else {
            "lost"@
        },
{
    if state {
        String::from_str("ready")
    } else {
        String::from_str("lost")
    }
}

/// The topic of a reading: the id of the device, a dot, and the topic of the
/// register.
pub fn normalized_topic(device_id: &str, topic: &str) -> (normalized: String)
    ensures
        normalized@ == device_id@ + "."@ + topic@,
{
    concat3(device_id, ".", topic)
}

/// The topic under which the discovery message of a device is published,
/// below the base topic of the client.
pub fn discovery_topic(device_id: &str) -> (topic: String)
    ensures
        topic@ == "device/"@ + device_id@ + "/config"@,
{
    concat3("device/", device_id, "/config")
}

/// What a message from MQTT asks of the device.
#[derive(Debug, Clone, Copy, PartialEq, Eq, Structural)]
pub enum Command {
    /// Write `value` to the coil at `reg`.
    SetCoil { reg: u16, value: bool },
}

/// The command that a message asks for. Only the topic that sets the hot
/// water temperature asks for one: it writes to the register `target`, true
/// where the payload is `true`, false otherwise.
pub open spec fn command_of(topic: Seq<char>, payload: Seq<char>, target: u16) -> Option<Command> {
    if topic == "ThermaV/thermav.dhw/temperature/set"@ {
        Some(Command::SetCoil { reg: target, value: payload == "true"@ })
    } else {
        None
    }
}

/// Decides what a message from MQTT asks of the device.
pub fn command_for(topic: &str, payload: &str, target: u16) -> (command: Option<Command>)
    ensures
        command == command_of(topic@, payload@, target),
{
    if topic.eq("ThermaV/thermav.dhw/temperature/set") {
        Some(Command::SetCoil { reg: target, value: payload.eq("true") })
    } else {
        None
    }
}

/// The state that a reading is published as.
#[derive(Debug, Clone, Copy, PartialEq, Eq, Structural)]
pub enum SensorState {
    /// The state of a coil or of a discrete input.
    Binary(BinarySensor),
    /// The first word of a holding or of an input register. It counts tenths:
    /// the state is a tenth of it.
    Tenths(u16),
}

/// Whether a reading holds what its state is made of: a word reading holds a
/// word at least.
pub open spec fn has_state(reg: Register) -> bool {
    match reg {
        Register::Holding(r) => r.1@.len() >= 1,
        Register::Input(r) => r.1@.len() >= 1,
        _ => true,
    }
}

/// Tells whether a reading holds what its state is made of.
pub fn holds_state(reg: &Register) -> (holds: bool)
    ensures
        holds == has_state(*reg),
{
    match reg {
        Register::Holding(r) => r.1.len() >= 1,
        Register::Input(r) => r.1.len() >= 1,
        _ => true,
    }
}

/// The state of a reading.
pub open spec fn state_of(reg: Register) -> SensorState {
    match reg {
        Register::Coil(r) => SensorState::Binary(BinarySensor(r.1)),
        Register::Discrete(r) => SensorState::Binary(BinarySensor(r.1)),
        Register::Holding(r) => SensorState::Tenths(r.1@[0]),
        Register::Input(r) => SensorState::Tenths(r.1@[0]),
    }
}

/// Tells the state that a reading is published as.
pub fn sensor_state(reg: &Register) -> (state: SensorState)
    requires
        has_state(*reg),
    ensures
        state == state_of(*reg),
{
    match reg {
        Register::Coil(r) => SensorState::Binary(BinarySensor(r.1)),
        Register::Discrete(r) => SensorState::Binary(BinarySensor(r.1)),
        Register::Holding(r) => SensorState::Tenths(r.1[0]),
        Register::Input(r) => SensorState::Tenths(r.1[0]),
    }
}

/// The command topics of one component: its mode command topic, then its
/// temperature command topic, as far as it has them.
pub open spec fn component_commands(c: ComponentView) -> Seq<Seq<char>> {
    (match c.mode_command_topic {
        Some(t) => seq![t],
        None => Seq::empty(),
    }) + (match c.temperature_command_topic {
        Some(t) => seq![t],
        None => Seq::empty(),
    })
}

/// The command topics of a discovery message, component by component.
pub open spec fn command_topics(d: DiscoveryView) -> Seq<Seq<char>> {
    d.components.map_values(|c: (Seq<char>, ComponentView)| component_commands(c.1)).flatten()
}

/// The topics to subscribe to for a device: the command topics of its
/// components, in the order of the components.
pub fn subscriptions(device_discovery: &Discovery) -> (topics: Vec<String>)
    ensures
        texts(topics@) == command_topics(device_discovery@),
{
    let mut topics: Vec<String> = Vec::new();
    let n: usize = device_discovery.components.len();
    let mut i: usize = 0;
    let ghost views = component_views(device_discovery.components@);
    proof {
        crate::seqs::lemma_flat_map_empty(
            views,
            |c: (Seq<char>, ComponentView)| component_commands(c.1),
        );
        assert(texts(topics@) =~= Seq::<Seq<char>>::empty());
    }
    while i < n
        invariant
            n == device_discovery.components@.len(),
            i <= n,
            views == component_views(device_discovery.components@),
            texts(topics@) == views.take(i as int).map_values(
                |c: (Seq<char>, ComponentView)| component_commands(c.1),
            ).flatten(),
        decreases n - i,
    {
        let component = &device_discovery.components[i].1;
        let ghost before = texts(topics@);
        proof {
            crate::seqs::lemma_flat_map_step(
                views,
                |c: (Seq<char>, ComponentView)| component_commands(c.1),
                i as int,
            );
            assert(views[i as int].1 == component@);
        }
        match &component.mode_command_topic {
            Some(topic) => {
                let copy = topic.clone();
                proof {
                    assert(texts(topics@.push(copy)) =~= texts(topics@).push(copy@));
                }
                topics.push(copy);
            },
            None => {},
        }
        let ghost middle = texts(topics@);
        match &component.temperature_command_topic {
            Some(topic) => {
                let copy = topic.clone();
                proof {
                    assert(texts(topics@.push(copy)) =~= texts(topics@).push(copy@));
                }
                topics.push(copy);
            },
            None => {},
        }
        proof {
            assert(texts(topics@) =~= before + component_commands(component@));
        }
        i = i + 1;
    }
    proof {
        crate::seqs::lemma_take_all(views);
    }
    topics
}

} // verus!
