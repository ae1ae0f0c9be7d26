//! The first form of the Home Assistant discovery: a fixed message for the
//! heat pump, with three components.

use vstd::prelude::*;
use crate::hass::{device_of, DeviceConfigView, DeviceView, OriginView};
use crate::text::{concat2, concat3, option_text, texts};

verus! {

/// The discovery message of a device. The components are kept in the order in
/// which they were added, each under its key; no key occurs twice.
#[derive(Debug, Clone, PartialEq, Eq)]
pub struct Discovery {
    pub device: Device,
    pub origin: Origin,
    pub components: Vec<(String, Component)>,
}

/// Where a discovery message comes from.
#[derive(Debug, Clone, PartialEq, Eq)]
pub struct Origin {
    pub name: String,
    pub sw_version: Option<String>,
    pub support_url: Option<String>,
}

/// One component of a device.
#[derive(Debug, Clone, PartialEq, Eq)]
pub struct Component {
    pub name: String,
    pub object_id: String,
    pub unique_id: String,
    pub state_topic: String,
    pub platform: String,
    pub availability_topic: String,
    pub device_class: Option<String>,
    pub payload_available: String,
    pub payload_not_available: String,
    pub unit_of_measurement: Option<String>,
    pub icon: String,
}

/// The device of a discovery message.
#[derive(Debug, Clone, PartialEq, Eq)]
pub struct Device {
    pub identifiers: Vec<String>,
    pub name: String,
    pub manufacturer: Option<String>,
    pub model: Option<String>,
    pub model_id: Option<String>,
    pub sw_version: Option<String>,
    pub serial_number: Option<String>,
    pub hw_version: Option<String>,
    pub suggested_area: Option<String>,
}

/// What is configured of a device.
#[derive(Debug, Clone, PartialEq, Eq)]
pub struct DeviceConfig {
    pub id: String,
    pub name: String,
    pub manufacturer: String,
    pub model: String,
}

/// What a `Component` stands for.
pub ghost struct ComponentView {
    pub name: Seq<char>,
    pub object_id: Seq<char>,
    pub unique_id: Seq<char>,
    pub state_topic: Seq<char>,
    pub platform: Seq<char>,
    pub availability_topic: Seq<char>,
    pub device_class: Option<Seq<char>>,
    pub payload_available: Seq<char>,
    pub payload_not_available: Seq<char>,
    pub unit_of_measurement: Option<Seq<char>>,
    pub icon: Seq<char>,
}

/// What a `Discovery` stands for.
pub ghost struct DiscoveryView {
    pub device: DeviceView,
    pub origin: OriginView,
    pub components: Seq<(Seq<char>, ComponentView)>,
}

impl View for Component {
    type V = ComponentView;

    open spec fn view(&self) -> ComponentView {
        ComponentView {
            name: self.name@,
            object_id: self.object_id@,
            unique_id: self.unique_id@,
            state_topic: self.state_topic@,
            platform: self.platform@,
            availability_topic: self.availability_topic@,
            device_class: option_text(self.device_class),
            payload_available: self.payload_available@,
            payload_not_available: self.payload_not_available@,
            unit_of_measurement: option_text(self.unit_of_measurement),
            icon: self.icon@,
        }
    }
}

impl View for Device {
    type V = DeviceView;

    open spec fn view(&self) -> DeviceView {
        DeviceView {
            identifiers: texts(self.identifiers@),
            name: self.name@,
            manufacturer: option_text(self.manufacturer),
            model: option_text(self.model),
            model_id: option_text(self.model_id),
            sw_version: option_text(self.sw_version),
            serial_number: option_text(self.serial_number),
            hw_version: option_text(self.hw_version),
            suggested_area: option_text(self.suggested_area),
        }
    }
}

impl View for DeviceConfig {
    type V = DeviceConfigView;

    open spec fn view(&self) -> DeviceConfigView {
        DeviceConfigView {
            id: self.id@,
            name: self.name@,
            manufacturer: self.manufacturer@,
            model: self.model@,
        }
    }
}

impl View for Origin {
    type V = OriginView;

    open spec fn view(&self) -> OriginView {
        OriginView {
            name: self.name@,
            sw_version: option_text(self.sw_version),
            support_url: option_text(self.support_url),
        }
    }
}

/// The views of a list of keyed components.
pub open spec fn component_views(components: Seq<(String, Component)>) -> Seq<
    (Seq<char>, ComponentView),
> {
    components.map_values(|c: (String, Component)| (c.0@, c.1@))
}

impl View for Discovery {
    type V = DiscoveryView;

    open spec fn view(&self) -> DiscoveryView {
        DiscoveryView {
            device: self.device@,
            origin: self.origin@,
            components: component_views(self.components@),
        }
    }
}

/// Whether no key occurs twice among the components.
pub open spec fn distinct_keys(components: Seq<(Seq<char>, ComponentView)>) -> bool {
    forall|i: int, j: int|
        0 <= i < j < components.len() ==> (#[trigger] components[i]).0 != (
        #[trigger] components[j]).0
}

/// The component that `Component::new` makes.
pub open spec fn component_of(device_name: Seq<char>, id: Seq<char>) -> ComponentView {
    ComponentView {
        name: Seq::empty(),
        object_id: device_name + "."@ + id,
        unique_id: device_name + "."@ + id,
        state_topic: Seq::empty(),
        platform: Seq::empty(),
        availability_topic: device_name + "/$state"@,
        device_class: None,
        payload_available: "ready"@,
        payload_not_available: "lost"@,
        unit_of_measurement: None,
        icon: Seq::empty(),
    }
}

/// The component that holds nothing: every text is empty and every optional
/// field is absent.
pub open spec fn empty_component() -> ComponentView {
    ComponentView {
        name: Seq::empty(),
        object_id: Seq::empty(),
        unique_id: Seq::empty(),
        state_topic: Seq::empty(),
        platform: Seq::empty(),
        availability_topic: Seq::empty(),
        device_class: None,
        payload_available: Seq::empty(),
        payload_not_available: Seq::empty(),
        unit_of_measurement: None,
        icon: Seq::empty(),
    }
}

impl Default for Component {
    /// The component that holds nothing.
    fn default() -> (component: Self)
        ensures
            component@ == empty_component(),
    {
        Component {
            name: String::new(),
            object_id: String::new(),
            unique_id: String::new(),
            state_topic: String::new(),
            platform: String::new(),
            availability_topic: String::new(),
            device_class: None,
            payload_available: String::new(),
            payload_not_available: String::new(),
            unit_of_measurement: None,
            icon: String::new(),
        }
    }
}

impl Component {
    /// A component of the device `device_name` with the identifier `id`. It
    /// is available with `ready` and lost with `lost`; its name, state topic,
    /// platform and icon are yet empty.
    pub fn new(device_name: String, id: String) -> (component: Self)
        ensures
            component@ == component_of(device_name@, id@),
    {
        Component {
            name: String::new(),
            object_id: concat3(device_name.as_str(), ".", id.as_str()),
            unique_id: concat3(device_name.as_str(), ".", id.as_str()),
            state_topic: String::new(),
            platform: String::new(),
            availability_topic: concat2(device_name.as_str(), "/$state"),
            device_class: None,
            payload_available: String::from_str("ready"),
            payload_not_available: String::from_str("lost"),
            unit_of_measurement: None,
            icon: String::new(),
        }
    }
}

impl From<DeviceConfig> for Device {
    /// The device that a configuration describes: it is identified by the
    /// configured id alone, and nothing is known of its versions.
    fn from(cfg: DeviceConfig) -> (device: Self)
        ensures
            device@ == device_of(cfg@),
    {
        let mut identifiers: Vec<String> = Vec::new();
        identifiers.push(cfg.id);
        proof {
            assert(texts(identifiers@) =~= seq![cfg.id@]);
        }
        Device {
            name: cfg.name,
            identifiers,
            manufacturer: Some(cfg.manufacturer),
            model: Some(cfg.model),
            model_id: None,
            sw_version: None,
            serial_number: None,
            hw_version: None,
            suggested_area: None,
        }
    }
}

/// The conversion is told by the contract of `from`, over the views: no
/// device is singled out among those with the same view.
impl vstd::std_specs::convert::FromSpecImpl<DeviceConfig> for Device {
    open spec fn obeys_from_spec() -> bool {
        false
    }

    open spec fn from_spec(cfg: DeviceConfig) -> Device {
        choose|device: Device| device@ == device_of(cfg@)
    }
}

/// The discovery message of the heat pump.
pub open spec fn heat_pump_discovery() -> DiscoveryView {
    DiscoveryView {
        device: device_of(
            DeviceConfigView {
                id: "lg_therma_v"@,
                name: "ThermaV R32"@,
                manufacturer: "LG"@,
                model: "ThermaV R32"@,
            },
        ),
        origin: OriginView { name: "LG ThermaV"@, sw_version: None, support_url: None },
        components: seq![
            (
                "inlet_temperature1234"@,
                ComponentView {
                    name: "Inlet Temperature"@,
                    state_topic: "ThermaV/inlet_temperature"@,
                    platform: "sensor"@,
                    device_class: Some("temperature"@),
                    unit_of_measurement: Some("\u{b0}C"@),
                    icon: "mdi:water-thermometer"@,
                    ..component_of("ThermaV"@, "inlet_temperature"@)
                },
            ),
            (
                "water_flow1234"@,
                ComponentView {
                    name: "Water Flow Status"@,
                    object_id: "thermav.water_flow_status"@,
                    unique_id: "thermav.water_flow_status"@,
                    state_topic: "ThermaV/thermav.water_flow_status"@,
                    platform: "binary_sensor"@,
                    availability_topic: "ThermaV/$state"@,
                    device_class: Some("opening"@),
                    payload_available: "ready"@,
                    payload_not_available: "lost"@,
                    unit_of_measurement: None,
                    icon: "mdi:water-pump"@,
                },
            ),
            (
                "dhw1234"@,
                ComponentView {
                    name: "DHW"@,
                    object_id: "thermav.dhw"@,
                    unique_id: "thermav.dhw"@,
                    state_topic: "ThermaV/dhw/availability"@,
                    platform: "water_heater"@,
                    availability_topic: "ThermaV/$state"@,
                    device_class: None,
                    payload_available: "ready"@,
                    payload_not_available: "lost"@,
                    unit_of_measurement: None,
                    icon: "mdi:water-boiler"@,
                },
            ),
        ],
    }
}

/// Builds the discovery message of the heat pump.
pub fn create_discovery_message() -> (discovery: Discovery)
    ensures
        discovery@ == heat_pump_discovery(),
        distinct_keys(discovery@.components),
{
    let device_config = DeviceConfig {
        id: String::from_str("lg_therma_v"),
        name: String::from_str("ThermaV R32"),
        manufacturer: String::from_str("LG"),
        model: String::from_str("ThermaV R32"),
    };
    let mut map: Vec<(String, Component)> = Vec::new();
    let mut comp = Component::new(
        String::from_str("ThermaV"),
        String::from_str("inlet_temperature"),
    );
    comp.name = String::from_str("Inlet Temperature");
    comp.state_topic = String::from_str("ThermaV/inlet_temperature");
    comp.platform = String::from_str("sensor");
    comp.device_class = Some(String::from_str("temperature"));
    comp.unit_of_measurement = Some(String::from_str("\u{b0}C"));
    comp.icon = String::from_str("mdi:water-thermometer");
    map.push((String::from_str("inlet_temperature1234"), comp));
    map.push(
        (
            String::from_str("water_flow1234"),
            Component {
                name: String::from_str("Water Flow Status"),
                object_id: String::from_str("thermav.water_flow_status"),
                unique_id: String::from_str("thermav.water_flow_status"),
                state_topic: String::from_str("ThermaV/thermav.water_flow_status"),
                platform: String::from_str("binary_sensor"),
                availability_topic: String::from_str("ThermaV/$state"),
                device_class: Some(String::from_str("opening")),
                payload_available: String::from_str("ready"),
                payload_not_available: String::from_str("lost"),
                unit_of_measurement: None,
                icon: String::from_str("mdi:water-pump"),
            },
        ),
    );
    map.push(
        (
            String::from_str("dhw1234"),
            Component {
                name: String::from_str("DHW"),
                object_id: String::from_str("thermav.dhw"),
                unique_id: String::from_str("thermav.dhw"),
                state_topic: String::from_str("ThermaV/dhw/availability"),
                availability_topic: String::from_str("ThermaV/$state"),
                payload_available: String::from_str("ready"),
                payload_not_available: String::from_str("lost"),
                device_class: None,
                unit_of_measurement: None,
                platform: String::from_str("water_heater"),
                icon: String::from_str("mdi:water-boiler"),
            },
        ),
    );
    proof {
        assert(component_views(map@) =~= heat_pump_discovery().components);
        reveal_strlit("inlet_temperature1234");
        reveal_strlit("water_flow1234");
        reveal_strlit("dhw1234");
        assert("inlet_temperature1234"@.len() == 21);
        assert("water_flow1234"@.len() == 14);
        assert("dhw1234"@.len() == 7);
    }
    let origin = Origin { name: String::from_str("LG ThermaV"), sw_version: None, support_url: None };
    Discovery { device: Device::from(device_config), origin, components: map }
}

/// The topic under which an instance publishes the state of a sensor.
pub fn sensor_topic(instance_name: &str, sensor_id: &str) -> (topic: String)
    ensures
        topic@ == instance_name@ + "/"@ + sensor_id@,
{
    concat3(instance_name, "/", sensor_id)
}

/// The topic, below the base topic of the client, under which an instance
/// publishes the state of a sensor.
pub fn based_sensor_topic(instance_name: &str, sensor_id: &str) -> (topic: String)
    ensures
        topic@ == "sensor/"@ + instance_name@ + "/"@ + sensor_id@,
{
    let mut topic = concat3("sensor/", instance_name, "/");
    topic.append(sensor_id);
    topic
}

/// Whether a reading under this topic tells that the hot water is available.
pub fn tells_availability(topic: &str) -> (tells: bool)
    ensures
        tells == (topic@ == "dhw_availability"@),
{
    topic.eq("dhw_availability")
}

} // verus!
