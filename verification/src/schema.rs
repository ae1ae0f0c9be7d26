//! The register schema: the declarative description of a device's registers.
//!
//! A schema holds four ordered collections: holding registers, coils, discrete
//! inputs and input registers. Order is that of the source document and
//! decides the order of what the compiler emits.

use vstd::prelude::*;
use crate::text::option_text;

verus! {

/// One label of an enumeration register and the code that stands for it.
#[derive(Debug, Clone, PartialEq, Eq)]
pub struct EnumLabel {
    pub label: String,
    pub code: u16,
}

/// An enumeration register. The labels are kept in the order of the document.
/// Where `enum_values` is absent, nothing is generated for the register.
#[derive(Debug, Clone, PartialEq, Eq)]
pub struct EnumData {
    pub description: String,
    pub reg: u16,
    pub enum_values: Option<Vec<EnumLabel>>,
}

/// A scaled numeric register. `gain` holds the bits of an IEEE-754 binary32
/// multiplier; where it is absent the multiplier is one.
#[derive(Debug, Clone, PartialEq, Eq)]
pub struct FloatData {
    pub description: String,
    pub reg: u16,
    pub data_type: Option<String>,
    pub gain: Option<u32>,
}

/// A register read as a two's-complement 16-bit integer.
#[derive(Debug, Clone, PartialEq, Eq)]
pub struct SignedData {
    pub description: String,
    pub reg: u16,
    pub data_type: Option<String>,
}

/// A register read as an unsigned 16-bit integer.
#[derive(Debug, Clone, PartialEq, Eq)]
pub struct UnsignedShortData {
    pub description: String,
    pub reg: u16,
    pub data_type: Option<String>,
}

/// An entry of the holding collection.
#[derive(Debug, Clone, PartialEq, Eq)]
pub enum HoldingRegister {
    Enum(EnumData),
    Float(FloatData),
    SignedChar(SignedData),
}

/// An entry of the input collection.
#[derive(Debug, Clone, PartialEq, Eq)]
pub enum InputRegister {
    Enum(EnumData),
    Float(FloatData),
    SignedChar(SignedData),
    UnsignedShort(UnsignedShortData),
}

/// The two labels of a boolean register.
#[derive(Debug, Clone, PartialEq, Eq)]
pub struct BooleanValues {
    pub false_label: String,
    pub true_label: String,
}

/// An entry of the coil collection.
#[derive(Debug, Clone, PartialEq, Eq)]
pub struct CoilRegister {
    pub description: String,
    pub reg: u16,
    pub values: BooleanValues,
}

/// An entry of the discrete collection.
#[derive(Debug, Clone, PartialEq, Eq)]
pub struct DiscreteRegister {
    pub description: String,
    pub reg: u16,
    pub values: BooleanValues,
}

/// The schema: the root of the document.
#[derive(Debug, Clone, PartialEq, Eq)]
pub struct Registers {
    pub holding: Vec<HoldingRegister>,
    pub coil: Vec<CoilRegister>,
    pub discrete: Vec<DiscreteRegister>,
    pub input: Vec<InputRegister>,
}

/// What an `EnumLabel` stands for.
pub ghost struct EnumLabelView {
    pub label: Seq<char>,
    pub code: u16,
}

/// What an `EnumData` stands for.
pub ghost struct EnumDataView {
    pub description: Seq<char>,
    pub reg: u16,
    pub enum_values: Option<Seq<EnumLabelView>>,
}

/// What a `FloatData` stands for.
pub ghost struct FloatDataView {
    pub description: Seq<char>,
    pub reg: u16,
    pub data_type: Option<Seq<char>>,
    pub gain: Option<u32>,
}

/// What a `SignedData` or an `UnsignedShortData` stands for.
pub ghost struct WordDataView {
    pub description: Seq<char>,
    pub reg: u16,
    pub data_type: Option<Seq<char>>,
}

/// What a `HoldingRegister` stands for.
pub ghost enum HoldingView {
    Enum(EnumDataView),
    Float(FloatDataView),
    SignedChar(WordDataView),
}

/// What an `InputRegister` stands for.
pub ghost enum InputView {
    Enum(EnumDataView),
    Float(FloatDataView),
    SignedChar(WordDataView),
    UnsignedShort(WordDataView),
}

/// What a `CoilRegister` or a `DiscreteRegister` stands for.
pub ghost struct BooleanView {
    pub description: Seq<char>,
    pub reg: u16,
    pub true_label: Seq<char>,
    pub false_label: Seq<char>,
}

/// What a `Registers` stands for.
pub ghost struct RegistersView {
    pub holding: Seq<HoldingView>,
    pub coil: Seq<BooleanView>,
    pub discrete: Seq<BooleanView>,
    pub input: Seq<InputView>,
}

impl View for EnumLabel {
    type V = EnumLabelView;

    open spec fn view(&self) -> EnumLabelView {
        EnumLabelView { label: self.label@, code: self.code }
    }
}

/// The views of a list of labels.
pub open spec fn label_views(labels: Seq<EnumLabel>) -> Seq<EnumLabelView> {
    labels.map_values(|l: EnumLabel| l@)
}

impl View for EnumData {
    type V = EnumDataView;

    open spec fn view(&self) -> EnumDataView {
        EnumDataView {
            description: self.description@,
            reg: self.reg,
            enum_values: match self.enum_values {
                Some(labels) => Some(label_views(labels@)),
                None => None,
            },
        }
    }
}

impl View for FloatData {
    type V = FloatDataView;

    open spec fn view(&self) -> FloatDataView {
        FloatDataView {
            description: self.description@,
            reg: self.reg,
            data_type: option_text(self.data_type),
            gain: self.gain,
        }
    }
}

impl View for SignedData {
    type V = WordDataView;

    open spec fn view(&self) -> WordDataView {
        WordDataView {
            description: self.description@,
            reg: self.reg,
            data_type: option_text(self.data_type),
        }
    }
}

impl View for UnsignedShortData {
    type V = WordDataView;

    open spec fn view(&self) -> WordDataView {
        WordDataView {
            description: self.description@,
            reg: self.reg,
            data_type: option_text(self.data_type),
        }
    }
}

impl View for HoldingRegister {
    type V = HoldingView;

    open spec fn view(&self) -> HoldingView {
        match self {
            HoldingRegister::Enum(d) => HoldingView::Enum(d@),
            HoldingRegister::Float(d) => HoldingView::Float(d@),
            HoldingRegister::SignedChar(d) => HoldingView::SignedChar(d@),
        }
    }
}

impl View for InputRegister {
    type V = InputView;

    open spec fn view(&self) -> InputView {
        match self {
            InputRegister::Enum(d) => InputView::Enum(d@),
            InputRegister::Float(d) => InputView::Float(d@),
            InputRegister::SignedChar(d) => InputView::SignedChar(d@),
            InputRegister::UnsignedShort(d) => InputView::UnsignedShort(d@),
        }
    }
}

impl View for CoilRegister {
    type V = BooleanView;

    open spec fn view(&self) -> BooleanView {
        BooleanView {
            description: self.description@,
            reg: self.reg,
            true_label: self.values.true_label@,
            false_label: self.values.false_label@,
        }
    }
}

impl View for DiscreteRegister {
    type V = BooleanView;

    open spec fn view(&self) -> BooleanView {
        BooleanView {
            description: self.description@,
            reg: self.reg,
            true_label: self.values.true_label@,
            false_label: self.values.false_label@,
        }
    }
}

/// The views of a list of holding entries.
pub open spec fn holding_views(entries: Seq<HoldingRegister>) -> Seq<HoldingView> {
    entries.map_values(|e: HoldingRegister| e@)
}

/// The views of a list of input entries.
pub open spec fn input_views(entries: Seq<InputRegister>) -> Seq<InputView> {
    entries.map_values(|e: InputRegister| e@)
}

/// The views of a list of coil entries.
pub open spec fn coil_views(entries: Seq<CoilRegister>) -> Seq<BooleanView> {
    entries.map_values(|e: CoilRegister| e@)
}

/// The views of a list of discrete entries.
pub open spec fn discrete_views(entries: Seq<DiscreteRegister>) -> Seq<BooleanView> {
    entries.map_values(|e: DiscreteRegister| e@)
}

impl View for Registers {
    type V = RegistersView;

    open spec fn view(&self) -> RegistersView {
        RegistersView {
            holding: holding_views(self.holding@),
            coil: coil_views(self.coil@),
            discrete: discrete_views(self.discrete@),
            input: input_views(self.input@),
        }
    }
}

} // verus!
