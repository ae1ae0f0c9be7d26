use thermav_lib::compile;
use thermav_lib::compiler::{generate_registers, Catalog};
use thermav_lib::descriptor::{Decoder, Descriptor, EnumVariant};
use thermav_lib::emit::{emit, push_escaped, push_string_literal};
use thermav_lib::error::{Category, SchemaError};
use thermav_lib::loader::{Document, RawBoolean, RawBooleanValues, RawRegister};
use thermav_lib::schema::{EnumData, EnumLabel, HoldingRegister, Registers};

fn catalog_of_one(d: Descriptor, into_coil: bool) -> Catalog {
    let mut catalog = Catalog { holding: vec![], coil: vec![], discrete: vec![], input: vec![] };
    if into_coil {
        catalog.coil.push(d);
    } else {
        catalog.holding.push(d);
    }
    catalog
}

fn sample_document() -> Document {
    Document {
        holding: Some(vec![
            RawRegister {
                type_tag: Some("float".to_string()),
                description: Some("Target Temp".to_string()),
                reg: Some(2),
                enum_values: None,
                gain: Some(0.1f32.to_bits()),
            },
            RawRegister {
                type_tag: Some("enum".to_string()),
                description: Some("Operation Mode".to_string()),
                reg: Some(1),
                enum_values: Some(vec![
                    EnumLabel { label: "Auto".to_string(), code: 0 },
                    EnumLabel { label: "Heating".to_string(), code: 1 },
                ]),
                gain: None,
            },
            RawRegister {
                type_tag: Some("i8".to_string()),
                description: Some("Shift Value".to_string()),
                reg: Some(8),
                enum_values: None,
                gain: None,
            },
        ]),
        coil: Some(vec![RawBoolean {
            description: Some("Silent Mode".to_string()),
            reg: Some(3),
            values: Some(RawBooleanValues {
                false_label: Some("say \"off\"".to_string()),
                true_label: Some("ON".to_string()),
            }),
        }]),
        discrete: Some(vec![]),
        input: Some(vec![RawRegister {
            type_tag: Some("u16".to_string()),
            description: Some("Flow Rate".to_string()),
            reg: Some(9),
            enum_values: None,
            gain: None,
        }]),
    }
}

const PREAMBLE: &str = "pub fn register_to_bytes(register_data: Vec<u16>) -> Vec<u8> {\n    register_data.iter().flat_map(|&w| [(w >> 8) as u8, w as u8]).collect::<Vec<_>>()\n}\npub fn register_to_f32(data: Vec<u16>) -> f32 {\n    f32::from_be_bytes(register_to_bytes(data).try_into().unwrap())\n}\npub fn register_to_u16(data: Vec<u16>) -> u16 {\n    u16::from_be_bytes(register_to_bytes(data).try_into().unwrap())\n}\npub fn register_to_i16(data: Vec<u16>) -> i16 {\n    i16::from_be_bytes(register_to_bytes(data).try_into().unwrap())\n}\npub trait ModbusRegister<T>: From<T> {\n    fn reg() -> u16;\n}\n";

const EMPTY_MODULES_BEFORE_HOLDING: &str = "pub mod coil {\n    use std::fmt;\n    use crate::registers::ModbusRegister;\n}\npub mod discrete {\n    use std::fmt;\n    use crate::registers::ModbusRegister;\n}\npub mod input {\n    use crate::registers::ModbusRegister;\n}\npub mod holding {\n    use crate::registers::ModbusRegister;\n";

#[test]
fn an_empty_catalog_is_rendered_to_the_frame() {
    let catalog = Catalog { holding: vec![], coil: vec![], discrete: vec![], input: vec![] };
    let expected = format!("{}{}}}\n", PREAMBLE, EMPTY_MODULES_BEFORE_HOLDING);
    assert_eq!(emit(&catalog), expected);
}

#[test]
fn an_enum_is_rendered_with_its_variants_and_arms() {
    let d = Descriptor {
        name: "OperationMode".to_string(),
        reg: 1,
        decoder: Decoder::Enum {
            variants: vec![
                EnumVariant { name: "Auto".to_string(), code: 0 },
                EnumVariant { name: "Heating".to_string(), code: 10 },
            ],
        },
    };
    let item = "    #[derive(Debug)]\n    pub enum OperationMode {\n        Auto,\n        Heating,\n        Unknown,\n    }\n    impl ModbusRegister<Vec<u16>> for OperationMode {\n        fn reg() -> u16 {\n            1u16\n        }\n    }\n    impl From<Vec<u16>> for OperationMode {\n        fn from(value: Vec<u16>) -> Self {\n            match value[0] {\n                0u16 => OperationMode::Auto,\n                10u16 => OperationMode::Heating,\n                _ => OperationMode::Unknown,\n            }\n        }\n    }\n";
    let expected = format!("{}{}{}}}\n", PREAMBLE, EMPTY_MODULES_BEFORE_HOLDING, item);
    assert_eq!(emit(&catalog_of_one(d, false)), expected);
}

#[test]
fn a_float_is_rendered_with_the_bits_of_its_gain() {
    let d = Descriptor {
        name: "TargetTemp".to_string(),
        reg: 65535,
        decoder: Decoder::Float { gain: 0x3f80_0000 },
    };
    let item = "    #[allow(unused)]\n    #[derive(Debug)]\n    pub struct TargetTemp(f32);\n    impl ModbusRegister<Vec<u16>> for TargetTemp {\n        fn reg() -> u16 {\n            65535u16\n        }\n    }\n    impl From<Vec<u16>> for TargetTemp {\n        fn from(value: Vec<u16>) -> Self {\n            TargetTemp(value[0] as f32 * f32::from_bits(1065353216u32))\n        }\n    }\n";
    let expected = format!("{}{}{}}}\n", PREAMBLE, EMPTY_MODULES_BEFORE_HOLDING, item);
    assert_eq!(emit(&catalog_of_one(d, false)), expected);
}

#[test]
fn integers_are_rendered_with_their_word_type() {
    let signed = Descriptor { name: "Shift".to_string(), reg: 0, decoder: Decoder::Signed };
    let item = "    #[allow(unused)]\n    #[derive(Debug)]\n    pub struct Shift(i16);\n    impl Shift {\n        pub fn reg() -> u16 {\n            0u16\n        }\n    }\n    impl From<Vec<u16>> for Shift {\n        fn from(value: Vec<u16>) -> Self {\n            Shift(super::register_to_i16(value))\n        }\n    }\n";
    let expected = format!("{}{}{}}}\n", PREAMBLE, EMPTY_MODULES_BEFORE_HOLDING, item);
    assert_eq!(emit(&catalog_of_one(signed, false)), expected);
    let unsigned = Descriptor { name: "Flow".to_string(), reg: 9, decoder: Decoder::Unsigned };
    let text = emit(&catalog_of_one(unsigned, false));
    assert!(text.contains("    pub struct Flow(u16);\n"));
    assert!(text.contains("            Flow(super::register_to_u16(value))\n"));
}

#[test]
fn a_boolean_is_rendered_with_its_labels() {
    let d = Descriptor {
        name: "SilentMode".to_string(),
        reg: 3,
        decoder: Decoder::Boolean { true_label: "ON".to_string(), false_label: "OFF".to_string() },
    };
    let item = "    pub struct SilentMode(bool);\n    impl From<Vec<bool>> for SilentMode {\n        fn from(value: Vec<bool>) -> Self {\n            SilentMode(value[0])\n        }\n    }\n    impl ModbusRegister<Vec<bool>> for SilentMode {\n        fn reg() -> u16 {\n            3u16\n        }\n    }\n    impl SilentMode {\n        fn as_str(&self) -> &str {\n            if self.0 {\n                \"ON\"\n            } else {\n                \"OFF\"\n            }\n        }\n    }\n    impl fmt::Display for SilentMode {\n        fn fmt(&self, f: &mut fmt::Formatter<'_>) -> fmt::Result {\n            f.write_str(self.as_str())\n        }\n    }\n";
    let text = emit(&catalog_of_one(d, true));
    let expected = format!(
        "{}pub mod coil {{\n    use std::fmt;\n    use crate::registers::ModbusRegister;\n{}}}\npub mod discrete {{\n    use std::fmt;\n    use crate::registers::ModbusRegister;\n}}\npub mod input {{\n    use crate::registers::ModbusRegister;\n}}\npub mod holding {{\n    use crate::registers::ModbusRegister;\n}}\n",
        PREAMBLE, item
    );
    assert_eq!(text, expected);
}

#[test]
fn characters_are_escaped_for_a_string_literal() {
    let mut out = String::from("x");
    for c in ['a', ' ', '~', '"', '\\', '\n', '\u{7f}', '\u{b0}', '\u{1f600}', '\0', '\''] {
        push_escaped(&mut out, c);
    }
    assert_eq!(out, "xa ~\\\"\\\\\\u{a}\\u{7f}\\u{b0}\\u{1f600}\\u{0}'");
}

#[test]
fn a_string_literal_parses_back_to_its_text() {
    for text in ["", "ON", "say \"off\"", "a\\b", "20 \u{b0}C\n", "tab\there", "{braces}"] {
        let mut out = String::new();
        push_string_literal(&mut out, text);
        let literal: syn::LitStr = syn::parse_str(&out).unwrap();
        assert_eq!(literal.value(), text);
    }
    let mut out = String::from("= ");
    push_string_literal(&mut out, "a\"b");
    assert_eq!(out, "= \"a\\\"b\"");
}

#[test]
fn the_artifact_of_a_document_is_rust_source() {
    let text = compile(&sample_document()).unwrap();
    let file = syn::parse_file(&text).unwrap();
    assert_eq!(file.items.len(), 9);
    assert!(text.contains("pub enum OperationMode {\n        Auto,\n        Heating,\n        Unknown,\n    }"));
    assert!(text.contains("pub struct TargetTemp(f32);"));
    assert!(text.contains(&format!("f32::from_bits({}u32)", 0.1f32.to_bits())));
    assert!(text.contains("pub struct ShiftValue(i16);"));
    assert!(text.contains("pub struct FlowRate(u16);"));
    assert!(text.contains("\"say \\\"off\\\"\""));
    let holding = text.find("pub mod holding").unwrap();
    let mode = text.find("pub enum OperationMode").unwrap();
    let temp = text.find("pub struct TargetTemp").unwrap();
    let shift = text.find("pub struct ShiftValue").unwrap();
    assert!(holding < mode && mode < temp && temp < shift);
}

#[test]
fn two_runs_over_one_document_give_the_same_text() {
    let first = compile(&sample_document()).unwrap();
    let second = compile(&sample_document()).unwrap();
    assert_eq!(first.as_bytes(), second.as_bytes());
}

#[test]
fn emitting_follows_the_schema_label_order() {
    let forward = Registers {
        holding: vec![HoldingRegister::Enum(EnumData {
            description: "Mode".to_string(),
            reg: 1,
            enum_values: Some(vec![
                EnumLabel { label: "b".to_string(), code: 1 },
                EnumLabel { label: "a".to_string(), code: 0 },
            ]),
        })],
        coil: vec![],
        discrete: vec![],
        input: vec![],
    };
    let text = emit(&generate_registers(&forward).unwrap());
    assert!(text.contains("        B,\n        A,\n        Unknown,\n"));
    assert!(text.contains("                1u16 => Mode::B,\n                0u16 => Mode::A,\n"));
}

#[test]
fn a_faulty_document_compiles_to_its_first_fault() {
    let mut doc = sample_document();
    doc.discrete = None;
    assert_eq!(compile(&doc), Err(SchemaError::MissingCollection { category: Category::Discrete }));
    let mut doc = sample_document();
    doc.input = Some(vec![RawRegister {
        type_tag: Some("u16".to_string()),
        description: Some("9 lives".to_string()),
        reg: Some(9),
        enum_values: None,
        gain: None,
    }]);
    assert_eq!(compile(&doc), Err(SchemaError::InvalidIdentifier { name: "9Lives".to_string() }));
}
