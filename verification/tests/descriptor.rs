use thermav_lib::descriptor::{
    decode_enum, position_of, Decoder, Descriptor, EnumVariant, Value, UNIT_GAIN,
};

fn plain_variant(name: &str, code: u16) -> EnumVariant {
    EnumVariant { name: name.to_string(), code }
}

fn operation_mode_descriptor() -> Descriptor {
    Descriptor {
        name: "OperationMode".to_string(),
        reg: 1,
        decoder: Decoder::Enum {
            variants: vec![plain_variant("Auto", 0), plain_variant("Heating", 1), plain_variant("Cooling", 2)],
        },
    }
}

fn silent_mode_coil() -> Descriptor {
    Descriptor {
        name: "SilentModeSet".to_string(),
        reg: 3,
        decoder: Decoder::Boolean { true_label: "ON".to_string(), false_label: "OFF".to_string() },
    }
}

fn scaled_value(value: Value) -> f32 {
    match value {
        Value::Scaled { raw, gain } => raw as f32 * f32::from_bits(gain),
        other => panic!("not a scaled value: {:?}", other),
    }
}

#[test]
fn declared_codes_select_their_variant() {
    let d = operation_mode_descriptor();
    assert_eq!(d.decode_words(&[0]), Value::Variant(0));
    assert_eq!(d.decode_words(&[1]), Value::Variant(1));
    assert_eq!(d.decode_words(&[2]), Value::Variant(2));
}

#[test]
fn undeclared_codes_select_unknown() {
    let d = operation_mode_descriptor();
    assert_eq!(d.decode_words(&[7]), Value::Unknown);
    assert_eq!(d.decode_words(&[3]), Value::Unknown);
    assert_eq!(d.decode_words(&[65535]), Value::Unknown);
}

#[test]
fn every_code_selects_exactly_one_outcome() {
    let d = operation_mode_descriptor();
    for code in 0..=u16::MAX {
        let value = d.decode_words(&[code]);
        let expected = if code < 3 { Value::Variant(code as usize) } else { Value::Unknown };
        assert_eq!(value, expected);
    }
}

#[test]
fn first_of_two_variants_with_one_code_is_selected() {
    let variants = vec![plain_variant("A", 5), plain_variant("B", 5), plain_variant("C", 6)];
    assert_eq!(decode_enum(&variants, 5), Value::Variant(0));
    assert_eq!(decode_enum(&variants, 6), Value::Variant(2));
    assert_eq!(decode_enum(&[], 0), Value::Unknown);
}

#[test]
fn enum_decode_reads_the_first_word_only() {
    let d = operation_mode_descriptor();
    assert_eq!(d.decode_words(&[2, 0]), Value::Variant(2));
}

#[test]
fn an_enum_has_one_outcome_more_than_declared() {
    let d = operation_mode_descriptor();
    let names = d.variant_names().unwrap();
    assert_eq!(names, vec!["Auto", "Heating", "Cooling", "Unknown"]);
    assert_eq!(silent_mode_coil().variant_names(), None);
    let empty = Descriptor { name: "E".to_string(), reg: 0, decoder: Decoder::Enum { variants: vec![] } };
    assert_eq!(empty.variant_names().unwrap(), vec!["Unknown"]);
}

#[test]
fn enum_values_are_rendered_by_their_names() {
    let d = operation_mode_descriptor();
    assert_eq!(d.render(Value::Variant(1)), Some("Heating".to_string()));
    assert_eq!(d.render(Value::Unknown), Some("Unknown".to_string()));
    assert_eq!(d.render(Value::Variant(3)), None);
    assert_eq!(d.render(Value::Flag(true)), None);
}

#[test]
fn booleans_are_rendered_by_their_labels() {
    let d = silent_mode_coil();
    assert_eq!(d.render(d.decode_bits(&[true])), Some("ON".to_string()));
    assert_eq!(d.render(d.decode_bits(&[false])), Some("OFF".to_string()));
    assert_eq!(d.decode_bits(&[true]), Value::Flag(true));
    assert_eq!(d.render(Value::Unknown), None);
}

#[test]
fn numeric_values_have_no_rendering() {
    let d = Descriptor { name: "T".to_string(), reg: 4, decoder: Decoder::Signed };
    assert_eq!(d.render(Value::Signed(3)), None);
}

#[test]
fn signed_registers_decode_in_twos_complement() {
    let d = Descriptor { name: "T".to_string(), reg: 4, decoder: Decoder::Signed };
    assert_eq!(d.decode_words(&[0xFFFF]), Value::Signed(-1));
    assert_eq!(d.decode_words(&[0x0001]), Value::Signed(1));
    assert_eq!(d.decode_words(&[0x8000]), Value::Signed(-32768));
}

#[test]
fn unsigned_registers_decode_to_the_word() {
    let d = Descriptor { name: "T".to_string(), reg: 4, decoder: Decoder::Unsigned };
    assert_eq!(d.decode_words(&[0xFFFF]), Value::Unsigned(65535));
    assert_eq!(d.decode_words(&[12]), Value::Unsigned(12));
}

#[test]
fn float_decode_takes_the_word_as_a_scalar() {
    let d = Descriptor { name: "T".to_string(), reg: 4, decoder: Decoder::Float { gain: UNIT_GAIN } };
    let value = d.decode_words(&[0x0041]);
    assert_eq!(value, Value::Scaled { raw: 0x41, gain: 0x3f80_0000 });
    assert_eq!(scaled_value(value), 65.0);
}

#[test]
fn float_decode_scales_with_the_gain() {
    let tenth = 0.1f32;
    let unit = Descriptor { name: "T".to_string(), reg: 4, decoder: Decoder::Float { gain: UNIT_GAIN } };
    let d = Descriptor { name: "T".to_string(), reg: 4, decoder: Decoder::Float { gain: tenth.to_bits() } };
    for w in [0u16, 1, 0x41, 215, 1000, 65535] {
        assert_eq!(scaled_value(d.decode_words(&[w])), scaled_value(unit.decode_words(&[w])) * tenth);
    }
    assert_eq!(scaled_value(d.decode_words(&[215])), 215.0f32 * 0.1f32);
}

#[test]
fn unit_gain_is_one() {
    assert_eq!(f32::from_bits(UNIT_GAIN), 1.0);
}

#[test]
fn reg_gives_the_address() {
    assert_eq!(operation_mode_descriptor().reg(), 1);
    assert_eq!(silent_mode_coil().reg(), 3);
}

#[test]
fn a_register_is_looked_up_by_its_name() {
    let list = vec![
        operation_mode_descriptor(),
        silent_mode_coil(),
        Descriptor { name: "OperationMode".to_string(), reg: 9, decoder: Decoder::Signed },
    ];
    assert_eq!(position_of(&list, "OperationMode"), Some(0));
    assert_eq!(position_of(&list, "SilentModeSet"), Some(1));
    assert_eq!(position_of(&list, "operationmode"), None);
    assert_eq!(position_of(&[], "OperationMode"), None);
    assert_eq!(position_of(&list[1..], "OperationMode"), Some(1));
}

#[test]
fn readings_are_accepted_by_kind_and_length() {
    let mode = operation_mode_descriptor();
    assert!(!mode.accepts_words(0));
    assert!(mode.accepts_words(1));
    assert!(mode.accepts_words(2));
    assert!(!mode.accepts_bits(1));
    let signed = Descriptor { name: "T".to_string(), reg: 4, decoder: Decoder::Signed };
    assert!(signed.accepts_words(1));
    assert!(!signed.accepts_words(2));
    assert!(!signed.accepts_words(0));
    let unsigned = Descriptor { name: "T".to_string(), reg: 4, decoder: Decoder::Unsigned };
    assert!(unsigned.accepts_words(1));
    assert!(!unsigned.accepts_words(2));
    let float = Descriptor { name: "T".to_string(), reg: 4, decoder: Decoder::Float { gain: UNIT_GAIN } };
    assert!(float.accepts_words(2));
    assert!(!float.accepts_words(0));
    let coil = silent_mode_coil();
    assert!(coil.accepts_bits(1));
    assert!(coil.accepts_bits(3));
    assert!(!coil.accepts_bits(0));
    assert!(!coil.accepts_words(1));
}
