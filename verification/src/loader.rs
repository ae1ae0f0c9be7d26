//! The schema loader: validates a parsed schema document and builds the schema.
//!
//! A document holds the four collections as they were found: every field may
//! be absent, and the type tag of an entry is a plain string. Loading checks
//! that the four collections are there, that each entry carries its required
//! fields, and that each tag is one that its collection recognizes. The first
//! fault ends the load: there is no partial schema.
//!
//! Two entries of a collection may declare the same address. That is allowed:
//! the loader does not look for it.

use vstd::prelude::*;
use crate::error::{Category, Field, SchemaError, SchemaErrorView};
use crate::schema::{
    label_views, BooleanValues, BooleanView, CoilRegister, DiscreteRegister, EnumData,
    EnumDataView, EnumLabel, EnumLabelView, FloatData, FloatDataView, HoldingRegister,
    HoldingView, InputRegister, InputView, Registers, RegistersView, SignedData,
    UnsignedShortData, WordDataView,
};
use crate::seqs::lemma_take_all;
use crate::text::option_text;

verus! {

/// An entry of the holding or of the input collection, as found in the
/// document. `gain` holds the bits of an IEEE-754 binary32 value.
#[derive(Debug, Clone, PartialEq, Eq)]
pub struct RawRegister {
    pub type_tag: Option<String>,
    pub description: Option<String>,
    pub reg: Option<u16>,
    pub enum_values: Option<Vec<EnumLabel>>,
    pub gain: Option<u32>,
}

/// The labels of a boolean entry, as found in the document.
#[derive(Debug, Clone, PartialEq, Eq)]
pub struct RawBooleanValues {
    pub false_label: Option<String>,
    pub true_label: Option<String>,
}

/// An entry of the coil or of the discrete collection, as found in the
/// document.
#[derive(Debug, Clone, PartialEq, Eq)]
pub struct RawBoolean {
    pub description: Option<String>,
    pub reg: Option<u16>,
    pub values: Option<RawBooleanValues>,
}

/// A schema document, as found.
#[derive(Debug, Clone, PartialEq, Eq)]
pub struct Document {
    pub holding: Option<Vec<RawRegister>>,
    pub coil: Option<Vec<RawBoolean>>,
    pub discrete: Option<Vec<RawBoolean>>,
    pub input: Option<Vec<RawRegister>>,
}

/// What a `RawRegister` stands for.
pub ghost struct RawRegisterView {
    pub type_tag: Option<Seq<char>>,
    pub description: Option<Seq<char>>,
    pub reg: Option<u16>,
    pub enum_values: Option<Seq<EnumLabelView>>,
    pub gain: Option<u32>,
}

/// What a `RawBoolean` stands for.
pub ghost struct RawBooleanView {
    pub description: Option<Seq<char>>,
    pub reg: Option<u16>,
    pub values: Option<(Option<Seq<char>>, Option<Seq<char>>)>,
}

/// What a `Document` stands for.
pub ghost struct DocumentView {
    pub holding: Option<Seq<RawRegisterView>>,
    pub coil: Option<Seq<RawBooleanView>>,
    pub discrete: Option<Seq<RawBooleanView>>,
    pub input: Option<Seq<RawRegisterView>>,
}

/// The views of optional labels.
pub open spec fn option_labels(labels: Option<Vec<EnumLabel>>) -> Option<Seq<EnumLabelView>> {
    match labels {
        Some(l) => Some(label_views(l@)),
        None => None,
    }
}

impl View for RawRegister {
    type V = RawRegisterView;

    open spec fn view(&self) -> RawRegisterView {
        RawRegisterView {
            type_tag: option_text(self.type_tag),
            description: option_text(self.description),
            reg: self.reg,
            enum_values: option_labels(self.enum_values),
            gain: self.gain,
        }
    }
}

impl View for RawBoolean {
    type V = RawBooleanView;

    /// The labels are paired false label first.
    open spec fn view(&self) -> RawBooleanView {
        RawBooleanView {
            description: option_text(self.description),
            reg: self.reg,
            values: match self.values {
                Some(v) => Some((option_text(v.false_label), option_text(v.true_label))),
                None => None,
            },
        }
    }
}

/// The views of a list of raw register entries.
pub open spec fn raw_register_views(entries: Seq<RawRegister>) -> Seq<RawRegisterView> {
    entries.map_values(|e: RawRegister| e@)
}

/// The views of a list of raw boolean entries.
pub open spec fn raw_boolean_views(entries: Seq<RawBoolean>) -> Seq<RawBooleanView> {
    entries.map_values(|e: RawBoolean| e@)
}

impl View for Document {
    type V = DocumentView;

    open spec fn view(&self) -> DocumentView {
        DocumentView {
            holding: match self.holding {
                Some(entries) => Some(raw_register_views(entries@)),
                None => None,
            },
            coil: match self.coil {
                Some(entries) => Some(raw_boolean_views(entries@)),
                None => None,
            },
            discrete: match self.discrete {
                Some(entries) => Some(raw_boolean_views(entries@)),
                None => None,
            },
            input: match self.input {
                Some(entries) => Some(raw_register_views(entries@)),
                None => None,
            },
        }
    }
}

/// The kinds of register that a type tag can select.
#[derive(Debug, Clone, Copy, PartialEq, Eq, Structural)]
pub enum Kind {
    Enum,
    Float,
    SignedChar,
    UnsignedShort,
}

/// The kind that a type tag selects in a collection, if the collection
/// recognizes the tag. Holding and input registers know `enum`, `float` and
/// `i8`; input registers know `u16` too.
pub open spec fn kind_of_tag(tag: Seq<char>, category: Category) -> Option<Kind> {
    if tag == "enum"@ {
        Some(Kind::Enum)
    } else if tag == "float"@ {
        Some(Kind::Float)
    } else if tag == "i8"@ {
        Some(Kind::SignedChar)
    } else if tag == "u16"@ && category == Category::Input {
        Some(Kind::UnsignedShort)
    } else {
        None
    }
}

/// The tag, the kind, the description and the address of a register entry, or
/// the first fault of the entry: a missing tag, a tag that the collection does
/// not recognize, a missing description, a missing address, in that order.
pub open spec fn checked_register(
    e: RawRegisterView,
    category: Category,
    index: usize,
) -> Result<(Seq<char>, Kind, Seq<char>, u16), SchemaErrorView> {
    match e.type_tag {
        None => Err(SchemaErrorView::MissingTypeTag { category, index }),
        Some(tag) => match kind_of_tag(tag, category) {
            None => Err(SchemaErrorView::UnsupportedTypeTag { category, index, tag }),
            Some(kind) => match e.description {
                None => Err(
                    SchemaErrorView::MissingField { category, index, field: Field::Description },
                ),
                Some(description) => match e.reg {
                    None => Err(
                        SchemaErrorView::MissingField { category, index, field: Field::Reg },
                    ),
                    Some(reg) => Ok((tag, kind, description, reg)),
                },
            },
        },
    }
}

/// The holding entry that a raw entry at `index` loads to, or its first fault.
pub open spec fn holding_entry(e: RawRegisterView, index: usize) -> Result<
    HoldingView,
    SchemaErrorView,
> {
    match checked_register(e, Category::Holding, index) {
        Err(error) => Err(error),
        Ok((tag, kind, description, reg)) => Ok(
            match kind {
                Kind::Enum => HoldingView::Enum(
                    EnumDataView { description, reg, enum_values: e.enum_values },
                ),
                Kind::Float => HoldingView::Float(
                    FloatDataView { description, reg, data_type: Some(tag), gain: e.gain },
                ),
                _ => HoldingView::SignedChar(
                    WordDataView { description, reg, data_type: Some(tag) },
                ),
            },
        ),
    }
}

/// The input entry that a raw entry at `index` loads to, or its first fault.
pub open spec fn input_entry(e: RawRegisterView, index: usize) -> Result<
    InputView,
    SchemaErrorView,
> {
    match checked_register(e, Category::Input, index) {
        Err(error) => Err(error),
        Ok((tag, kind, description, reg)) => Ok(
            match kind {
                Kind::Enum => InputView::Enum(
                    EnumDataView { description, reg, enum_values: e.enum_values },
                ),
                Kind::Float => InputView::Float(
                    FloatDataView { description, reg, data_type: Some(tag), gain: e.gain },
                ),
                Kind::SignedChar => InputView::SignedChar(
                    WordDataView { description, reg, data_type: Some(tag) },
                ),
                Kind::UnsignedShort => InputView::UnsignedShort(
                    WordDataView { description, reg, data_type: Some(tag) },
                ),
            },
        ),
    }
}

/// The boolean entry that a raw entry at `index` loads to, or its first fault:
/// a missing description, address, pair of labels, false label, true label, in
/// that order.
pub open spec fn boolean_entry(e: RawBooleanView, category: Category, index: usize) -> Result<
    BooleanView,
    SchemaErrorView,
> {
    match e.description {
        None => Err(SchemaErrorView::MissingField { category, index, field: Field::Description }),
        Some(description) => match e.reg {
            None => Err(SchemaErrorView::MissingField { category, index, field: Field::Reg }),
            Some(reg) => match e.values {
                None => Err(
                    SchemaErrorView::MissingField { category, index, field: Field::Values },
                ),
                Some((None, _)) => Err(
                    SchemaErrorView::MissingField { category, index, field: Field::FalseLabel },
                ),
                Some((Some(_), None)) => Err(
                    SchemaErrorView::MissingField { category, index, field: Field::TrueLabel },
                ),
                Some((Some(false_label), Some(true_label))) => Ok(
                    BooleanView { description, reg, true_label, false_label },
                ),
            },
        },
    }
}

/// The values of a list of results, or the first error among them.
pub open spec fn all_or_first_error<T, E>(results: Seq<Result<T, E>>) -> Result<Seq<T>, E>
    decreases results.len(),
{
    if results.len() == 0 {
        Ok(Seq::empty())
    } else {
        match all_or_first_error(results.drop_last()) {
            Err(error) => Err(error),
            Ok(values) => match results.last() {
                Ok(value) => Ok(values.push(value)),
                Err(error) => Err(error),
            },
        }
    }
}

/// The holding collection that a list of raw entries loads to.
pub open spec fn loaded_holding(entries: Seq<RawRegisterView>) -> Result<
    Seq<HoldingView>,
    SchemaErrorView,
> {
    all_or_first_error(Seq::new(entries.len(), |i: int| holding_entry(entries[i], i as usize)))
}

/// The input collection that a list of raw entries loads to.
pub open spec fn loaded_input(entries: Seq<RawRegisterView>) -> Result<
    Seq<InputView>,
    SchemaErrorView,
> {
    all_or_first_error(Seq::new(entries.len(), |i: int| input_entry(entries[i], i as usize)))
}

/// The coil or discrete collection that a list of raw entries loads to.
pub open spec fn loaded_booleans(entries: Seq<RawBooleanView>, category: Category) -> Result<
    Seq<BooleanView>,
    SchemaErrorView,
> {
    all_or_first_error(
        Seq::new(entries.len(), |i: int| boolean_entry(entries[i], category, i as usize)),
    )
}

/// The schema that a document loads to, or its first fault. The collections
/// are taken in the order holding, coil, discrete, input; a collection that is
/// absent is a fault where it is due.
pub open spec fn loaded(doc: DocumentView) -> Result<RegistersView, SchemaErrorView> {
    match doc.holding {
        None => Err(SchemaErrorView::MissingCollection { category: Category::Holding }),
        Some(raw_holding) => match loaded_holding(raw_holding) {
            Err(error) => Err(error),
            Ok(holding) => match doc.coil {
                None => Err(SchemaErrorView::MissingCollection { category: Category::Coil }),
                Some(raw_coil) => match loaded_booleans(raw_coil, Category::Coil) {
                    Err(error) => Err(error),
                    Ok(coil) => match doc.discrete {
                        None => Err(
                            SchemaErrorView::MissingCollection { category: Category::Discrete },
                        ),
                        Some(raw_discrete) => match loaded_booleans(
                            raw_discrete,
                            Category::Discrete,
                        ) {
                            Err(error) => Err(error),
                            Ok(discrete) => match doc.input {
                                None => Err(
                                    SchemaErrorView::MissingCollection {
                                        category: Category::Input,
                                    },
                                ),
                                Some(raw_input) => match loaded_input(raw_input) {
                                    Err(error) => Err(error),
                                    Ok(input) => Ok(
                                        RegistersView { holding, coil, discrete, input },
                                    ),
                                },
                            },
                        },
                    },
                },
            },
        },
    }
}

/// An error among the first results is the error of the whole list.
pub proof fn lemma_first_error_stays<T, E>(results: Seq<Result<T, E>>, n: int)
    requires
        0 <= n <= results.len(),
        all_or_first_error(results.take(n)) is Err,
    ensures
        all_or_first_error(results) == all_or_first_error(results.take(n)),
    decreases results.len() - n,
{
    if n == results.len() {
        lemma_take_all(results);
    } else {
        assert(results.take(n + 1).drop_last() =~= results.take(n));
        lemma_first_error_stays(results, n + 1);
    }
}

/// A copy of a list of labels.
pub fn clone_labels(labels: &Option<Vec<EnumLabel>>) -> (copy: Option<Vec<EnumLabel>>)
    ensures
        option_labels(copy) == option_labels(*labels),
{
    match labels {
        None => None,
        Some(list) => {
            let mut copy: Vec<EnumLabel> = Vec::new();
            let n: usize = list.len();
            let mut i: usize = 0;
            proof {
                assert(label_views(copy@) =~= label_views(list@).take(0));
            }
            while i < n
                invariant
                    n == list@.len(),
                    i <= n,
                    label_views(copy@) == label_views(list@).take(i as int),
                decreases n - i,
            {
                let label = EnumLabel { label: list[i].label.clone(), code: list[i].code };
                proof {
                    assert(label@ == list@[i as int]@);
                    assert(label_views(copy@.push(label)) =~= label_views(copy@).push(label@));
                    assert(label_views(list@).take(i as int).push(list@[i as int]@)
                        =~= label_views(list@).take(i + 1));
                }
                copy.push(label);
                i = i + 1;
            }
            proof {
                lemma_take_all(label_views(list@));
            }
            Some(copy)
        },
    }
}

/// Tells the kind that a type tag selects in a collection.
pub fn classify_tag(tag: &str, category: Category) -> (kind: Option<Kind>)
    ensures
        kind == kind_of_tag(tag@, category),
{
    if tag.eq("enum") {
        Some(Kind::Enum)
    } else if tag.eq("float") {
        Some(Kind::Float)
    } else if tag.eq("i8") {
        Some(Kind::SignedChar)
    } else if tag.eq("u16") {
        match category {
            Category::Input => Some(Kind::UnsignedShort),
            _ => None,
        }
    } else {
        None
    }
}

/// Loads one entry of the holding collection.
pub fn load_holding_entry(entry: &RawRegister, index: usize) -> (result: Result<
    HoldingRegister,
    SchemaError,
>)
    ensures
        holding_entry(entry@, index) == match result {
            Ok(register) => Ok::<HoldingView, SchemaErrorView>(register@),
            Err(error) => Err(error@),
        },
{
    let category = Category::Holding;
    let tag = match &entry.type_tag {
        None => {
            return Err(SchemaError::MissingTypeTag { category, index });
        },
        Some(tag) => tag.clone(),
    };
    let kind = match classify_tag(tag.as_str(), category) {
        None => {
            return Err(SchemaError::UnsupportedTypeTag { category, index, tag });
        },
        Some(kind) => kind,
    };
    let description = match &entry.description {
        None => {
            return Err(SchemaError::MissingField { category, index, field: Field::Description });
        },
        Some(description) => description.clone(),
    };
    let reg = match entry.reg {
        None => {
            return Err(SchemaError::MissingField { category, index, field: Field::Reg });
        },
        Some(reg) => reg,
    };
    Ok(
        match kind {
            Kind::Enum => HoldingRegister::Enum(
                EnumData { description, reg, enum_values: clone_labels(&entry.enum_values) },
            ),
            Kind::Float => HoldingRegister::Float(
                FloatData { description, reg, data_type: Some(tag), gain: entry.gain },
            ),
            _ => HoldingRegister::SignedChar(SignedData { description, reg, data_type: Some(tag) }),
        },
    )
}

/// Loads one entry of the input collection.
pub fn load_input_entry(entry: &RawRegister, index: usize) -> (result: Result<
    InputRegister,
    SchemaError,
>)
    ensures
        input_entry(entry@, index) == match result {
            Ok(register) => Ok::<InputView, SchemaErrorView>(register@),
            Err(error) => Err(error@),
        },
{
    let category = Category::Input;
    let tag = match &entry.type_tag {
        None => {
            return Err(SchemaError::MissingTypeTag { category, index });
        },
        Some(tag) => tag.clone(),
    };
    let kind = match classify_tag(tag.as_str(), category) {
        None => {
            return Err(SchemaError::UnsupportedTypeTag { category, index, tag });
        },
        Some(kind) => kind,
    };
    let description = match &entry.description {
        None => {
            return Err(SchemaError::MissingField { category, index, field: Field::Description });
        },
        Some(description) => description.clone(),
    };
    let reg = match entry.reg {
        None => {
            return Err(SchemaError::MissingField { category, index, field: Field::Reg });
        },
        Some(reg) => reg,
    };
    Ok(
        match kind {
            Kind::Enum => InputRegister::Enum(
                EnumData { description, reg, enum_values: clone_labels(&entry.enum_values) },
            ),
            Kind::Float => InputRegister::Float(
                FloatData { description, reg, data_type: Some(tag), gain: entry.gain },
            ),
            Kind::SignedChar => InputRegister::SignedChar(
                SignedData { description, reg, data_type: Some(tag) },
            ),
            Kind::UnsignedShort => InputRegister::UnsignedShort(
                UnsignedShortData { description, reg, data_type: Some(tag) },
            ),
        },
    )
}

/// Checks one boolean entry and hands out its parts: description, address,
/// false label, true label.
fn load_boolean_parts(entry: &RawBoolean, category: Category, index: usize) -> (result: Result<
    (String, u16, BooleanValues),
    SchemaError,
>)
    ensures
        boolean_entry(entry@, category, index) == match result {
            Ok(parts) => Ok::<BooleanView, SchemaErrorView>(
                BooleanView {
                    description: parts.0@,
                    reg: parts.1,
                    true_label: parts.2.true_label@,
                    false_label: parts.2.false_label@,
                },
            ),
            Err(error) => Err(error@),
        },
{
    let description = match &entry.description {
        None => {
            return Err(SchemaError::MissingField { category, index, field: Field::Description });
        },
        Some(description) => description.clone(),
    };
    let reg = match entry.reg {
        None => {
            return Err(SchemaError::MissingField { category, index, field: Field::Reg });
        },
        Some(reg) => reg,
    };
    let values = match &entry.values {
        None => {
            return Err(SchemaError::MissingField { category, index, field: Field::Values });
        },
        Some(values) => values,
    };
    let false_label = match &values.false_label {
        None => {
            return Err(SchemaError::MissingField { category, index, field: Field::FalseLabel });
        },
        Some(label) => label.clone(),
    };
    let true_label = match &values.true_label {
        None => {
            return Err(SchemaError::MissingField { category, index, field: Field::TrueLabel });
        },
        Some(label) => label.clone(),
    };
    Ok((description, reg, BooleanValues { false_label, true_label }))
}

/// Loads one entry of the coil collection.
pub fn load_coil_entry(entry: &RawBoolean, index: usize) -> (result: Result<
    CoilRegister,
    SchemaError,
>)
    ensures
        boolean_entry(entry@, Category::Coil, index) == match result {
            Ok(register) => Ok::<BooleanView, SchemaErrorView>(register@),
            Err(error) => Err(error@),
        },
{
    match load_boolean_parts(entry, Category::Coil, index) {
        Err(error) => Err(error),
        Ok((description, reg, values)) => Ok(CoilRegister { description, reg, values }),
    }
}

/// Loads one entry of the discrete collection.
pub fn load_discrete_entry(entry: &RawBoolean, index: usize) -> (result: Result<
    DiscreteRegister,
    SchemaError,
>)
    ensures
        boolean_entry(entry@, Category::Discrete, index) == match result {
            Ok(register) => Ok::<BooleanView, SchemaErrorView>(register@),
            Err(error) => Err(error@),
        },
{
    match load_boolean_parts(entry, Category::Discrete, index) {
        Err(error) => Err(error),
        Ok((description, reg, values)) => Ok(DiscreteRegister { description, reg, values }),
    }
}

/// Loads the holding collection.
pub fn load_holding(entries: &[RawRegister]) -> (result: Result<Vec<HoldingRegister>, SchemaError>)
    ensures
        loaded_holding(raw_register_views(entries@)) == match result {
            Ok(registers) => Ok::<Seq<HoldingView>, SchemaErrorView>(
                crate::schema::holding_views(registers@),
            ),
            Err(error) => Err(error@),
        },
{
    let mut registers: Vec<HoldingRegister> = Vec::new();
    let n: usize = entries.len();
    let mut i: usize = 0;
    let ghost views = raw_register_views(entries@);
    let ghost results = Seq::new(views.len(), |k: int| holding_entry(views[k], k as usize));
    proof {
        assert(crate::schema::holding_views(registers@) =~= Seq::<HoldingView>::empty());
        assert(results.take(0) =~= Seq::<Result<HoldingView, SchemaErrorView>>::empty());
    }
    while i < n
        invariant
            n == entries@.len(),
            i <= n,
            views == raw_register_views(entries@),
            results == Seq::new(views.len(), |k: int| holding_entry(views[k], k as usize)),
            all_or_first_error(results.take(i as int)) == Ok::<Seq<HoldingView>, SchemaErrorView>(
                crate::schema::holding_views(registers@),
            ),
        decreases n - i,
    {
        proof {
            assert(results.take(i + 1).drop_last() =~= results.take(i as int));
            assert(results.take(i + 1).last() == holding_entry(entries@[i as int]@, i));
        }
        match load_holding_entry(&entries[i], i) {
            Err(error) => {
                proof {
                    lemma_first_error_stays(results, i + 1);
                }
                return Err(error);
            },
            Ok(register) => {
                proof {
                    assert(crate::schema::holding_views(registers@.push(register))
                        =~= crate::schema::holding_views(registers@).push(register@));
                }
                registers.push(register);
            },
        }
        i = i + 1;
    }
    proof {
        lemma_take_all(results);
    }
    Ok(registers)
}

/// Loads the input collection.
pub fn load_input(entries: &[RawRegister]) -> (result: Result<Vec<InputRegister>, SchemaError>)
    ensures
        loaded_input(raw_register_views(entries@)) == match result {
            Ok(registers) => Ok::<Seq<InputView>, SchemaErrorView>(
                crate::schema::input_views(registers@),
            ),
            Err(error) => Err(error@),
        },
{
    let mut registers: Vec<InputRegister> = Vec::new();
    let n: usize = entries.len();
    let mut i: usize = 0;
    let ghost views = raw_register_views(entries@);
    let ghost results = Seq::new(views.len(), |k: int| input_entry(views[k], k as usize));
    proof {
        assert(crate::schema::input_views(registers@) =~= Seq::<InputView>::empty());
        assert(results.take(0) =~= Seq::<Result<InputView, SchemaErrorView>>::empty());
    }
    while i < n
        invariant
            n == entries@.len(),
            i <= n,
            views == raw_register_views(entries@),
            results == Seq::new(views.len(), |k: int| input_entry(views[k], k as usize)),
            all_or_first_error(results.take(i as int)) == Ok::<Seq<InputView>, SchemaErrorView>(
                crate::schema::input_views(registers@),
            ),
        decreases n - i,
    {
        proof {
            assert(results.take(i + 1).drop_last() =~= results.take(i as int));
            assert(results.take(i + 1).last() == input_entry(entries@[i as int]@, i));
        }
        match load_input_entry(&entries[i], i) {
            Err(error) => {
                proof {
                    lemma_first_error_stays(results, i + 1);
                }
                return Err(error);
            },
            Ok(register) => {
                proof {
                    assert(crate::schema::input_views(registers@.push(register))
                        =~= crate::schema::input_views(registers@).push(register@));
                }
                registers.push(register);
            },
        }
        i = i + 1;
    }
    proof {
        lemma_take_all(results);
    }
    Ok(registers)
}

/// Loads the coil collection.
pub fn load_coils(entries: &[RawBoolean]) -> (result: Result<Vec<CoilRegister>, SchemaError>)
    ensures
        loaded_booleans(raw_boolean_views(entries@), Category::Coil) == match result {
            Ok(registers) => Ok::<Seq<BooleanView>, SchemaErrorView>(
                crate::schema::coil_views(registers@),
            ),
            Err(error) => Err(error@),
        },
{
    let mut registers: Vec<CoilRegister> = Vec::new();
    let n: usize = entries.len();
    let mut i: usize = 0;
    let ghost views = raw_boolean_views(entries@);
    let ghost results = Seq::new(
        views.len(),
        |k: int| boolean_entry(views[k], Category::Coil, k as usize),
    );
    proof {
        assert(crate::schema::coil_views(registers@) =~= Seq::<BooleanView>::empty());
        assert(results.take(0) =~= Seq::<Result<BooleanView, SchemaErrorView>>::empty());
    }
    while i < n
        invariant
            n == entries@.len(),
            i <= n,
            views == raw_boolean_views(entries@),
            results == Seq::new(
                views.len(),
                |k: int| boolean_entry(views[k], Category::Coil, k as usize),
            ),
            all_or_first_error(results.take(i as int)) == Ok::<Seq<BooleanView>, SchemaErrorView>(
                crate::schema::coil_views(registers@),
            ),
        decreases n - i,
    {
        proof {
            assert(results.take(i + 1).drop_last() =~= results.take(i as int));
            assert(results.take(i + 1).last() == boolean_entry(
                entries@[i as int]@,
                Category::Coil,
                i,
            ));
        }
        match load_coil_entry(&entries[i], i) {
            Err(error) => {
                proof {
                    lemma_first_error_stays(results, i + 1);
                }
                return Err(error);
            },
            Ok(register) => {
                proof {
                    assert(crate::schema::coil_views(registers@.push(register))
                        =~= crate::schema::coil_views(registers@).push(register@));
                }
                registers.push(register);
            },
        }
        i = i + 1;
    }
    proof {
        lemma_take_all(results);
    }
    Ok(registers)
}

/// Loads the discrete collection.
pub fn load_discretes(entries: &[RawBoolean]) -> (result: Result<
    Vec<DiscreteRegister>,
    SchemaError,
>)
    ensures
        loaded_booleans(raw_boolean_views(entries@), Category::Discrete) == match result {
            Ok(registers) => Ok::<Seq<BooleanView>, SchemaErrorView>(
                crate::schema::discrete_views(registers@),
            ),
            Err(error) => Err(error@),
        },
{
    let mut registers: Vec<DiscreteRegister> = Vec::new();
    let n: usize = entries.len();
    let mut i: usize = 0;
    let ghost views = raw_boolean_views(entries@);
    let ghost results = Seq::new(
        views.len(),
        |k: int| boolean_entry(views[k], Category::Discrete, k as usize),
    );
    proof {
        assert(crate::schema::discrete_views(registers@) =~= Seq::<BooleanView>::empty());
        assert(results.take(0) =~= Seq::<Result<BooleanView, SchemaErrorView>>::empty());
    }
    while i < n
        invariant
            n == entries@.len(),
            i <= n,
            views == raw_boolean_views(entries@),
            results == Seq::new(
                views.len(),
                |k: int| boolean_entry(views[k], Category::Discrete, k as usize),
            ),
            all_or_first_error(results.take(i as int)) == Ok::<Seq<BooleanView>, SchemaErrorView>(
                crate::schema::discrete_views(registers@),
            ),
        decreases n - i,
    {
        proof {
            assert(results.take(i + 1).drop_last() =~= results.take(i as int));
            assert(results.take(i + 1).last() == boolean_entry(
                entries@[i as int]@,
                Category::Discrete,
                i,
            ));
        }
        match load_discrete_entry(&entries[i], i) {
            Err(error) => {
                proof {
                    lemma_first_error_stays(results, i + 1);
                }
                return Err(error);
            },
            Ok(register) => {
                proof {
                    assert(crate::schema::discrete_views(registers@.push(register))
                        =~= crate::schema::discrete_views(registers@).push(register@));
                }
                registers.push(register);
            },
        }
        i = i + 1;
    }
    proof {
        lemma_take_all(results);
    }
    Ok(registers)
}

/// Loads a schema from a document: the validated schema, or the first fault.
pub fn load_schema(doc: &Document) -> (result: Result<Registers, SchemaError>)
    ensures
        loaded(doc@) == match result {
            Ok(schema) => Ok::<RegistersView, SchemaErrorView>(schema@),
            Err(error) => Err(error@),
        },
{
    let holding = match &doc.holding {
        None => {
            return Err(SchemaError::MissingCollection { category: Category::Holding });
        },
        Some(entries) => match load_holding(entries.as_slice()) {
            Err(error) => {
                return Err(error);
            },
            Ok(holding) => holding,
        },
    };
    let coil = match &doc.coil {
        None => {
            return Err(SchemaError::MissingCollection { category: Category::Coil });
        },
        Some(entries) => match load_coils(entries.as_slice()) {
            Err(error) => {
                return Err(error);
            },
            Ok(coil) => coil,
        },
    };
    let discrete = match &doc.discrete {
        None => {
            return Err(SchemaError::MissingCollection { category: Category::Discrete });
        },
        Some(entries) => match load_discretes(entries.as_slice()) {
            Err(error) => {
                return Err(error);
            },
            Ok(discrete) => discrete,
        },
    };
    let input = match &doc.input {
        None => {
            return Err(SchemaError::MissingCollection { category: Category::Input });
        },
        Some(entries) => match load_input(entries.as_slice()) {
            Err(error) => {
                return Err(error);
            },
            Ok(input) => input,
        },
    };
    Ok(Registers { holding, coil, discrete, input })
}

} // verus!
