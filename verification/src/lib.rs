//! Register-schema compiler for Modbus-style devices, with the data model of the
//! bridge that forwards decoded readings to MQTT and Home Assistant.
//!
//! A schema lists the holding, coil, discrete and input registers of a device.
//! The compiler turns it into typed descriptors: one per register, each with
//! its address and the rule that decodes a raw reading into a value. The
//! emitter renders the descriptors as source text.

use vstd::prelude::*;

pub mod api;
pub mod codec;
pub mod compiler;
pub mod config;
pub mod descriptor;
pub mod emit;
pub mod error;
pub mod hass;
pub mod http_server;
pub mod ident;
pub mod loader;
pub mod modbus;
pub mod mqtt;
pub mod schema;
pub mod seqs;
pub mod text;

verus! {

/// A reading of one register, of any of the four kinds.
#[derive(Debug, Clone, PartialEq, Eq)]
pub enum Register {
    Coil(modbus::CoilRegister),
    Discrete(modbus::DiscreteRegister),
    Holding(modbus::HoldingRegister),
    Input(modbus::InputRegister),
}

/// The four kinds of register, in the order in which they are polled.
#[derive(Debug, Clone, Copy, PartialEq, Eq, Structural)]
pub enum Bank {
    Coil,
    Discrete,
    Input,
    Holding,
}

/// The heat pump: the registers to poll, each with the topic of its
/// readings, and how the device is reached.
#[derive(Debug, Clone, PartialEq)]
pub struct ThermaV {
    pub discrete_registers: Vec<(String, u16)>,
    pub coils: Vec<(String, u16)>,
    pub holding_registers: Vec<(String, u16)>,
    pub input_registers: Vec<(String, u16)>,
    pub cfg: config::ThermaConfig,
    pub req_timeout_ms: u64,
}

/// A place in the polling cycle: the register at `index` of `bank`.
#[derive(Debug, Clone, Copy, PartialEq, Eq, Structural)]
pub struct Position {
    pub bank: Bank,
    pub index: usize,
}

/// What to do next in the polling cycle.
#[derive(Debug, Clone, PartialEq, Eq)]
pub enum Step {
    /// Read the register `reg` of `bank`, forward the reading under `topic`
    /// if there is one, then pause.
    Poll { bank: Bank, reg: u16, topic: String, pause_ms: u64 },
    /// The cycle is through: pause before the next one.
    Rest { pause_ms: u64 },
}

/// What a `Step` stands for.
pub ghost enum StepView {
    Poll { bank: Bank, reg: u16, topic: Seq<char>, pause_ms: u64 },
    Rest { pause_ms: u64 },
}

impl View for Step {
    type V = StepView;

    open spec fn view(&self) -> StepView {
        match self {
            Step::Poll { bank, reg, topic, pause_ms } => StepView::Poll {
                bank: *bank,
                reg: *reg,
                topic: topic@,
                pause_ms: *pause_ms,
            },
            Step::Rest { pause_ms } => StepView::Rest { pause_ms: *pause_ms },
        }
    }
}

/// What to do after a read that failed.
#[derive(Debug, Clone, PartialEq, Eq)]
pub enum ReadFailure {
    /// Pause, then read once more.
    Retry { pause_ms: u64 },
    /// Give up with this message.
    Failed { message: String },
}

/// The pause, in milliseconds, after a coil or a discrete input was polled.
pub const BOOLEAN_PAUSE_MS: u64 = 500;

/// The pause, in milliseconds, after an input or a holding register was
/// polled, and before a failed read is tried again.
pub const WORD_PAUSE_MS: u64 = 50;

/// The pause, in milliseconds, between two polling cycles.
pub const CYCLE_PAUSE_MS: u64 = 2000;

/// How often the bus is read when it is taken into service, before polling
/// starts.
pub const INITIAL_READS: u32 = 3;

/// The topic under which a reading of a holding register is forwarded.
pub open spec fn remapped_topic(topic: Seq<char>) -> Seq<char> {
    if topic == "operation_mode"@ {
        Seq::empty()
    } else if topic == "target_temp_heating_cooling_circuit2"@ {
        "dhw/temperature"@
    } else if topic == "room_air_temperature_circuit2"@ {
        "dhw/current_temperature"@
    } else {
        topic
    }
}

/// Maps the topic of a holding register to the topic under which its readings
/// are forwarded. Three topics are renamed; every other topic stays.
pub fn remap_topic_from_modbus(topic: String) -> (remapped: String)
    ensures
        remapped@ == remapped_topic(topic@),
{
    if topic.as_str().eq("operation_mode") {
        String::new()
    } else if topic.as_str().eq("target_temp_heating_cooling_circuit2") {
        String::from_str("dhw/temperature")
    } else if topic.as_str().eq("room_air_temperature_circuit2") {
        String::from_str("dhw/current_temperature")
    } else {
        topic
    }
}

/// The pause after a register of a bank was polled.
pub open spec fn pause_after(bank: Bank) -> u64 {
    match bank {
        Bank::Coil => BOOLEAN_PAUSE_MS,
        Bank::Discrete => BOOLEAN_PAUSE_MS,
        Bank::Input => WORD_PAUSE_MS,
        Bank::Holding => WORD_PAUSE_MS,
    }
}

/// The bank that is polled after a bank, if the cycle goes on.
pub open spec fn bank_after(bank: Bank) -> Option<Bank> {
    match bank {
        Bank::Coil => Some(Bank::Discrete),
        Bank::Discrete => Some(Bank::Input),
        Bank::Input => Some(Bank::Holding),
        Bank::Holding => None,
    }
}

/// How many banks follow a bank in the cycle.
pub open spec fn banks_left(bank: Bank) -> nat {
    match bank {
        Bank::Coil => 3,
        Bank::Discrete => 2,
        Bank::Input => 1,
        Bank::Holding => 0,
    }
}

/// The message of a read that failed for good: `read failed 0x` and the
/// address in hexadecimal, with two digits at least.
pub open spec fn read_failed_text(reg: u16) -> Seq<char> {
    "read failed 0x"@ + text::padded_hex_text(reg as nat, 2)
}

/// The message of a write that failed: `set failed 0x` and the address in
/// hexadecimal, with two digits at least.
pub open spec fn set_failed_text(reg: u16) -> Seq<char> {
    "set failed 0x"@ + text::padded_hex_text(reg as nat, 2)
}

/// The message of a read that failed for good.
pub fn read_failed(reg: u16) -> (message: String)
    ensures
        message@ == read_failed_text(reg),
{
    let mut message = String::from_str("read failed 0x");
    text::push_padded_hex(&mut message, reg as u32, 2);
    message
}

/// The message of a write that failed.
pub fn set_failed(reg: u16) -> (message: String)
    ensures
        message@ == set_failed_text(reg),
{
    let mut message = String::from_str("set failed 0x");
    text::push_padded_hex(&mut message, reg as u32, 2);
    message
}

/// Decides what follows a read that failed, given how many reads of the
/// register failed in a row: the first failure is followed by a pause and a
/// second read, the second one ends the request.
pub fn after_failed_read(reg: u16, failures: u32) -> (next: ReadFailure)
    ensures
        failures <= 1 ==> next == (ReadFailure::Retry { pause_ms: WORD_PAUSE_MS }),
        failures > 1 ==> (next matches ReadFailure::Failed { message } && message@
            == read_failed_text(reg)),
{
    if failures <= 1 {
        ReadFailure::Retry { pause_ms: WORD_PAUSE_MS }
    } else {
        ReadFailure::Failed { message: read_failed(reg) }
    }
}

impl ThermaV {
    /// The device with the given registers. A request may take as long as the
    /// configuration says.
    pub fn with_registers(
        cfg: config::ThermaConfig,
        discrete_registers: Vec<(String, u16)>,
        coils: Vec<(String, u16)>,
        holding_registers: Vec<(String, u16)>,
        input_registers: Vec<(String, u16)>,
    ) -> (device: Self)
        ensures
            device.cfg == cfg,
            device.discrete_registers == discrete_registers,
            device.coils == coils,
            device.holding_registers == holding_registers,
            device.input_registers == input_registers,
            device.req_timeout_ms == cfg.timeout_ms,
    {
        let req_timeout_ms = cfg.timeout_ms;
        ThermaV {
            discrete_registers,
            coils,
            holding_registers,
            input_registers,
            cfg,
            req_timeout_ms,
        }
    }

    /// The registers of a bank, each with its topic.
    pub open spec fn bank(&self, bank: Bank) -> Seq<(String, u16)> {
        match bank {
            Bank::Coil => self.coils@,
            Bank::Discrete => self.discrete_registers@,
            Bank::Input => self.input_registers@,
            Bank::Holding => self.holding_registers@,
        }
    }

    /// The topic under which a reading of the register at `index` of `bank`
    /// is forwarded: that of the register, remapped for a holding register.
    pub open spec fn forwarded_topic(&self, bank: Bank, index: int) -> Seq<char> {
        match bank {
            Bank::Holding => remapped_topic(self.bank(bank)[index].0@),
            _ => self.bank(bank)[index].0@,
        }
    }

    /// The step at a place of the cycle, and the place after it. The banks
    /// are gone through in order, register by register; a bank that is
    /// through hands over to the next one, and the last one to the rest
    /// before the next cycle, which starts at the first coil.
    pub open spec fn step_at(&self, at: Position) -> (StepView, Position)
        decreases banks_left(at.bank),
    {
        if at.index < self.bank(at.bank).len() {
            (
                StepView::Poll {
                    bank: at.bank,
                    reg: self.bank(at.bank)[at.index as int].1,
                    topic: self.forwarded_topic(at.bank, at.index as int),
                    pause_ms: pause_after(at.bank),
                },
                Position { bank: at.bank, index: (at.index + 1) as usize },
            )
        } else {
            match bank_after(at.bank) {
                Some(next) => self.step_at(Position { bank: next, index: 0 }),
                None => (
                    StepView::Rest { pause_ms: CYCLE_PAUSE_MS },
                    Position { bank: Bank::Coil, index: 0 },
                ),
            }
        }
    }

    /// The place at which polling starts: the first coil.
    pub fn start(&self) -> (at: Position)
        ensures
            at == (Position { bank: Bank::Coil, index: 0 }),
    {
        Position { bank: Bank::Coil, index: 0 }
    }

    /// Decides the next step of the polling cycle and the place after it.
    pub fn step(&self, at: Position) -> (next: (Step, Position))
        ensures
            next.0@ == self.step_at(at).0,
            next.1 == self.step_at(at).1,
        decreases banks_left(at.bank),
    {
        let registers = match at.bank {
            Bank::Coil => &self.coils,
            Bank::Discrete => &self.discrete_registers,
            Bank::Input => &self.input_registers,
            Bank::Holding => &self.holding_registers,
        };
        if at.index < registers.len() {
            let reg = registers[at.index].1;
            let topic = registers[at.index].0.clone();
            let (topic, pause_ms) = match at.bank {
                Bank::Coil => (topic, BOOLEAN_PAUSE_MS),
                Bank::Discrete => (topic, BOOLEAN_PAUSE_MS),
                Bank::Input => (topic, WORD_PAUSE_MS),
                Bank::Holding => (remap_topic_from_modbus(topic), WORD_PAUSE_MS),
            };
            (
                Step::Poll { bank: at.bank, reg, topic, pause_ms },
                Position { bank: at.bank, index: at.index + 1 },
            )
        } else {
            match at.bank {
                Bank::Coil => self.step(Position { bank: Bank::Discrete, index: 0 }),
                Bank::Discrete => self.step(Position { bank: Bank::Input, index: 0 }),
                Bank::Input => self.step(Position { bank: Bank::Holding, index: 0 }),
                Bank::Holding => (
                    Step::Rest { pause_ms: CYCLE_PAUSE_MS },
                    Position { bank: Bank::Coil, index: 0 },
                ),
            }
        }
    }
}

impl hass::DeviceProperties for ThermaV {
    open spec fn base_topic_text(&self) -> Seq<char> {
        "ThermaV"@
    }

    open spec fn id_text(&self) -> Seq<char> {
        "thermav"@
    }

    open spec fn name_text(&self) -> Seq<char> {
        "ThermaV R32"@
    }

    open spec fn manufacturer_text(&self) -> Seq<char> {
        "LG"@
    }

    open spec fn origin_name_text(&self) -> Seq<char> {
        "LG ThermaV"@
    }

    open spec fn model_text(&self) -> Seq<char> {
        "ThermaV R32"@
    }

    fn base_topic(&self) -> (text: String) {
        String::from_str("ThermaV")
    }

    fn id(&self) -> (text: String) {
        String::from_str("thermav")
    }

    fn name(&self) -> (text: String) {
        String::from_str("ThermaV R32")
    }

    fn manufacturer(&self) -> (text: String) {
        String::from_str("LG")
    }

    fn origin_name(&self) -> (text: String) {
        String::from_str("LG ThermaV")
    }

    fn model(&self) -> (text: String) {
        String::from_str("ThermaV R32")
    }
}

/// What a document compiles to: the artifact of its schema, or the first
/// fault. A fault of the document comes before a fault of a type name.
pub open spec fn compiled(doc: loader::DocumentView) -> Result<Seq<char>, error::SchemaErrorView> {
    match loader::loaded(doc) {
        Err(fault) => Err(fault),
        Ok(schema) => {
            let names = compiler::catalog_identifiers(compiler::catalog_of(schema));
            if compiler::all_valid(names) {
                Ok(emit::artifact(compiler::catalog_of(schema)))
            } else {
                Err(
                    error::SchemaErrorView::InvalidIdentifier {
                        name: names[choose|i: int| compiler::first_invalid(names, i)],
                    },
                )
            }
        },
    }
}

/// Compiles a schema document into source text: loads the schema, builds the
/// descriptors, and renders them.
pub fn compile(doc: &loader::Document) -> (result: Result<String, error::SchemaError>)
    ensures
        compiled(doc@) == match result {
            Ok(text) => Ok::<Seq<char>, error::SchemaErrorView>(text@),
            Err(fault) => Err(fault@),
        },
{
    let schema = match loader::load_schema(doc) {
        Err(fault) => {
            return Err(fault);
        },
        Ok(schema) => schema,
    };
    match compiler::generate_registers(&schema) {
        Err(fault) => {
            proof {
                let names = compiler::catalog_identifiers(compiler::catalog_of(schema@));
                let i = choose|i: int|
                    {
                        &&& #[trigger] compiler::first_invalid(names, i)
                        &&& fault@ == (error::SchemaErrorView::InvalidIdentifier { name: names[i] })
                    };
                let k = choose|k: int| compiler::first_invalid(names, k);
                assert(compiler::first_invalid(names, k));
                assert(i == k);
            }
            Err(fault)
        },
        Ok(catalog) => Ok(emit::emit(&catalog)),
    }
}

} // verus!
