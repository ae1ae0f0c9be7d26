use thermav_lib::error::{Category, Field, SchemaError};
use thermav_lib::loader::{
    classify_tag, load_schema, Document, Kind, RawBoolean, RawBooleanValues, RawRegister,
};
use thermav_lib::schema::{
    BooleanValues, CoilRegister, DiscreteRegister, EnumData, EnumLabel, FloatData,
    HoldingRegister, InputRegister, Registers, SignedData, UnsignedShortData,
};

fn raw_register(tag: &str, description: &str, reg: u16) -> RawRegister {
    RawRegister {
        type_tag: Some(tag.to_string()),
        description: Some(description.to_string()),
        reg: Some(reg),
        enum_values: None,
        gain: None,
    }
}

fn raw_boolean(description: &str, reg: u16, on: &str, off: &str) -> RawBoolean {
    RawBoolean {
        description: Some(description.to_string()),
        reg: Some(reg),
        values: Some(RawBooleanValues {
            false_label: Some(off.to_string()),
            true_label: Some(on.to_string()),
        }),
    }
}

fn empty_document() -> Document {
    Document { holding: Some(vec![]), coil: Some(vec![]), discrete: Some(vec![]), input: Some(vec![]) }
}

#[test]
fn an_empty_document_loads_to_an_empty_schema() {
    let schema = load_schema(&empty_document()).unwrap();
    assert_eq!(schema, Registers { holding: vec![], coil: vec![], discrete: vec![], input: vec![] });
}

#[test]
fn entries_load_in_the_order_of_the_document() {
    let mut mode = raw_register("enum", "Operation Mode", 1);
    mode.enum_values = Some(vec![
        EnumLabel { label: "Auto".to_string(), code: 0 },
        EnumLabel { label: "Heating".to_string(), code: 1 },
    ]);
    let mut temp = raw_register("float", "Target Temp", 2);
    temp.gain = Some(0.1f32.to_bits());
    let doc = Document {
        holding: Some(vec![mode.clone(), temp.clone(), raw_register("i8", "Shift", 9)]),
        coil: Some(vec![raw_boolean("Silent Mode", 3, "ON", "OFF")]),
        discrete: Some(vec![raw_boolean("Pump", 4, "running", "stopped")]),
        input: Some(vec![raw_register("u16", "Flow Rate", 8), raw_register("float", "Inlet", 2)]),
    };
    let schema = load_schema(&doc).unwrap();
    assert_eq!(
        schema.holding,
        vec![
            HoldingRegister::Enum(EnumData {
                description: "Operation Mode".to_string(),
                reg: 1,
                enum_values: Some(vec![
                    EnumLabel { label: "Auto".to_string(), code: 0 },
                    EnumLabel { label: "Heating".to_string(), code: 1 },
                ]),
            }),
            HoldingRegister::Float(FloatData {
                description: "Target Temp".to_string(),
                reg: 2,
                data_type: Some("float".to_string()),
                gain: Some(0.1f32.to_bits()),
            }),
            HoldingRegister::SignedChar(SignedData {
                description: "Shift".to_string(),
                reg: 9,
                data_type: Some("i8".to_string()),
            }),
        ]
    );
    assert_eq!(
        schema.coil,
        vec![CoilRegister {
            description: "Silent Mode".to_string(),
            reg: 3,
            values: BooleanValues { false_label: "OFF".to_string(), true_label: "ON".to_string() },
        }]
    );
    assert_eq!(
        schema.discrete,
        vec![DiscreteRegister {
            description: "Pump".to_string(),
            reg: 4,
            values: BooleanValues {
                false_label: "stopped".to_string(),
                true_label: "running".to_string(),
            },
        }]
    );
    assert_eq!(
        schema.input,
        vec![
            InputRegister::UnsignedShort(UnsignedShortData {
                description: "Flow Rate".to_string(),
                reg: 8,
                data_type: Some("u16".to_string()),
            }),
            InputRegister::Float(FloatData {
                description: "Inlet".to_string(),
                reg: 2,
                data_type: Some("float".to_string()),
                gain: None,
            }),
        ]
    );
}

#[test]
fn a_missing_collection_is_refused() {
    let mut doc = empty_document();
    doc.discrete = None;
    assert_eq!(load_schema(&doc), Err(SchemaError::MissingCollection { category: Category::Discrete }));
    let mut doc = empty_document();
    doc.holding = None;
    doc.input = None;
    assert_eq!(load_schema(&doc), Err(SchemaError::MissingCollection { category: Category::Holding }));
    let mut doc = empty_document();
    doc.coil = None;
    assert_eq!(load_schema(&doc), Err(SchemaError::MissingCollection { category: Category::Coil }));
    let mut doc = empty_document();
    doc.input = None;
    assert_eq!(load_schema(&doc), Err(SchemaError::MissingCollection { category: Category::Input }));
}

#[test]
fn an_unrecognized_tag_fails_the_whole_load() {
    let mut doc = empty_document();
    doc.holding = Some(vec![raw_register("i8", "A", 1), raw_register("double", "B", 2)]);
    assert_eq!(
        load_schema(&doc),
        Err(SchemaError::UnsupportedTypeTag {
            category: Category::Holding,
            index: 1,
            tag: "double".to_string(),
        })
    );
}

#[test]
fn unsigned_short_is_for_input_registers_only() {
    let mut doc = empty_document();
    doc.holding = Some(vec![raw_register("u16", "A", 1)]);
    assert_eq!(
        load_schema(&doc),
        Err(SchemaError::UnsupportedTypeTag {
            category: Category::Holding,
            index: 0,
            tag: "u16".to_string(),
        })
    );
    let mut doc = empty_document();
    doc.input = Some(vec![raw_register("u16", "A", 1)]);
    assert!(load_schema(&doc).is_ok());
}

#[test]
fn a_missing_tag_is_refused() {
    let mut entry = raw_register("enum", "A", 1);
    entry.type_tag = None;
    let mut doc = empty_document();
    doc.input = Some(vec![entry]);
    assert_eq!(
        load_schema(&doc),
        Err(SchemaError::MissingTypeTag { category: Category::Input, index: 0 })
    );
}

#[test]
fn a_missing_required_field_is_refused() {
    let mut no_description = raw_register("float", "A", 1);
    no_description.description = None;
    let mut doc = empty_document();
    doc.holding = Some(vec![no_description]);
    assert_eq!(
        load_schema(&doc),
        Err(SchemaError::MissingField {
            category: Category::Holding,
            index: 0,
            field: Field::Description,
        })
    );
    let mut no_reg = raw_register("float", "A", 1);
    no_reg.reg = None;
    let mut doc = empty_document();
    doc.input = Some(vec![raw_register("i8", "B", 2), raw_register("i8", "C", 2), no_reg]);
    assert_eq!(
        load_schema(&doc),
        Err(SchemaError::MissingField { category: Category::Input, index: 2, field: Field::Reg })
    );
}

#[test]
fn a_boolean_entry_needs_both_labels() {
    let mut entry = raw_boolean("A", 1, "ON", "OFF");
    entry.values = None;
    let mut doc = empty_document();
    doc.coil = Some(vec![entry]);
    assert_eq!(
        load_schema(&doc),
        Err(SchemaError::MissingField { category: Category::Coil, index: 0, field: Field::Values })
    );
    let mut entry = raw_boolean("A", 1, "ON", "OFF");
    entry.values = Some(RawBooleanValues { false_label: None, true_label: Some("ON".to_string()) });
    let mut doc = empty_document();
    doc.discrete = Some(vec![entry]);
    assert_eq!(
        load_schema(&doc),
        Err(SchemaError::MissingField {
            category: Category::Discrete,
            index: 0,
            field: Field::FalseLabel,
        })
    );
    let mut entry = raw_boolean("A", 1, "ON", "OFF");
    entry.values = Some(RawBooleanValues { false_label: Some("OFF".to_string()), true_label: None });
    let mut doc = empty_document();
    doc.coil = Some(vec![raw_boolean("B", 2, "1", "0"), entry]);
    assert_eq!(
        load_schema(&doc),
        Err(SchemaError::MissingField {
            category: Category::Coil,
            index: 1,
            field: Field::TrueLabel,
        })
    );
    let mut entry = raw_boolean("A", 1, "ON", "OFF");
    entry.description = None;
    entry.reg = None;
    let mut doc = empty_document();
    doc.coil = Some(vec![entry]);
    assert_eq!(
        load_schema(&doc),
        Err(SchemaError::MissingField {
            category: Category::Coil,
            index: 0,
            field: Field::Description,
        })
    );
}

#[test]
fn the_first_fault_is_reported() {
    let mut doc = empty_document();
    doc.holding = Some(vec![raw_register("nope", "A", 1)]);
    doc.coil = None;
    assert_eq!(
        load_schema(&doc),
        Err(SchemaError::UnsupportedTypeTag {
            category: Category::Holding,
            index: 0,
            tag: "nope".to_string(),
        })
    );
    let mut bad = raw_register("nope", "A", 1);
    bad.description = None;
    let mut doc = empty_document();
    doc.input = Some(vec![bad]);
    assert!(matches!(load_schema(&doc), Err(SchemaError::UnsupportedTypeTag { .. })));
}

#[test]
fn duplicate_addresses_are_allowed() {
    let mut doc = empty_document();
    doc.holding = Some(vec![raw_register("i8", "A", 7), raw_register("float", "B", 7)]);
    doc.coil = Some(vec![raw_boolean("C", 7, "1", "0"), raw_boolean("D", 7, "1", "0")]);
    let schema = load_schema(&doc).unwrap();
    assert_eq!(schema.holding.len(), 2);
    assert_eq!(schema.coil.len(), 2);
}

#[test]
fn tags_are_classified_by_collection() {
    assert_eq!(classify_tag("enum", Category::Holding), Some(Kind::Enum));
    assert_eq!(classify_tag("float", Category::Input), Some(Kind::Float));
    assert_eq!(classify_tag("i8", Category::Holding), Some(Kind::SignedChar));
    assert_eq!(classify_tag("u16", Category::Input), Some(Kind::UnsignedShort));
    assert_eq!(classify_tag("u16", Category::Holding), None);
    assert_eq!(classify_tag("Enum", Category::Holding), None);
    assert_eq!(classify_tag("", Category::Input), None);
}
