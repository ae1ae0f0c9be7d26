//! The descriptor builder: compiles a schema into the catalog of its register
//! descriptors.
//!
//! Each entry is dispatched by its kind. Within the holding and the input
//! collection the enumeration registers come first, then the others, each
//! group in the order of the schema. Coils and discrete inputs keep the order
//! of the schema.

use vstd::prelude::*;
use crate::descriptor::{
    descriptor_views, outcome_names, variant_views, Decoder, DecoderView, Descriptor,
    DescriptorView, EnumVariant, EnumVariantView, UNIT_GAIN,
};
use crate::error::{SchemaError, SchemaErrorView};
use crate::ident::{identifier, sanitize_identifier};
use crate::schema::{
    coil_views, discrete_views, holding_views, input_views, label_views, BooleanView,
    CoilRegister, DiscreteRegister, EnumDataView, EnumLabel, EnumLabelView, FloatData,
    FloatDataView, HoldingRegister, HoldingView, InputRegister, InputView, Registers,
    RegistersView, SignedData, UnsignedShortData, WordDataView,
};
use crate::seqs::{
    lemma_flat_map_empty, lemma_flat_map_member, lemma_flat_map_step, lemma_map_step,
    lemma_take_all,
};
use crate::text::texts;

verus! {

/// Whether a text is a Rust identifier that is no keyword, as parsing it with
/// `syn` as an `Ident` tells it.
pub uninterp spec fn rust_identifier(s: Seq<char>) -> bool;

/// Calls `syn::parse_str` for a `syn::Ident` and says whether it succeeded.
/// Success depends on the text alone, and `rust_identifier` names it.
#[verifier::external_body]
fn is_identifier(s: &str) -> (valid: bool)
    ensures
        valid == rust_identifier(s@),
{
    syn::parse_str::<syn::Ident>(s).is_ok()
}

/// The compiled registers of a device, by collection.
#[derive(Debug, Clone, PartialEq, Eq)]
pub struct Catalog {
    pub holding: Vec<Descriptor>,
    pub coil: Vec<Descriptor>,
    pub discrete: Vec<Descriptor>,
    pub input: Vec<Descriptor>,
}

/// What a `Catalog` stands for.
pub ghost struct CatalogView {
    pub holding: Seq<DescriptorView>,
    pub coil: Seq<DescriptorView>,
    pub discrete: Seq<DescriptorView>,
    pub input: Seq<DescriptorView>,
}

impl View for Catalog {
    type V = CatalogView;

    open spec fn view(&self) -> CatalogView {
        CatalogView {
            holding: descriptor_views(self.holding@),
            coil: descriptor_views(self.coil@),
            discrete: descriptor_views(self.discrete@),
            input: descriptor_views(self.input@),
        }
    }
}

/// The variant that a label declares: its name is synthesized from the label.
pub open spec fn variant_of(label: EnumLabelView) -> EnumVariantView {
    EnumVariantView { name: identifier(label.label), code: label.code }
}

/// The variants that a list of labels declares, in order.
pub open spec fn variants_of(labels: Seq<EnumLabelView>) -> Seq<EnumVariantView> {
    labels.map_values(|l: EnumLabelView| variant_of(l))
}

/// The descriptor of an enumeration register.
pub open spec fn enum_descriptor(
    name: Seq<char>,
    labels: Seq<EnumLabelView>,
    reg: u16,
) -> DescriptorView {
    DescriptorView { name, reg, decoder: DecoderView::Enum { variants: variants_of(labels) } }
}

/// What an enumeration entry contributes: its descriptor, or nothing where it
/// declares no labels.
pub open spec fn enum_part(d: EnumDataView) -> Seq<DescriptorView> {
    match d.enum_values {
        Some(labels) => seq![enum_descriptor(identifier(d.description), labels, d.reg)],
        None => Seq::empty(),
    }
}

/// The descriptor of a scaled numeric register. An absent gain is one.
pub open spec fn float_descriptor(d: FloatDataView) -> DescriptorView {
    DescriptorView {
        name: identifier(d.description),
        reg: d.reg,
        decoder: DecoderView::Float {
            gain: match d.gain {
                Some(g) => g,
                None => UNIT_GAIN,
            },
        },
    }
}

/// The descriptor of a signed register.
pub open spec fn signed_descriptor(d: WordDataView) -> DescriptorView {
    DescriptorView { name: identifier(d.description), reg: d.reg, decoder: DecoderView::Signed }
}

/// The descriptor of an unsigned register.
pub open spec fn unsigned_descriptor(d: WordDataView) -> DescriptorView {
    DescriptorView { name: identifier(d.description), reg: d.reg, decoder: DecoderView::Unsigned }
}

/// The descriptor of a coil or of a discrete input.
pub open spec fn boolean_descriptor(e: BooleanView) -> DescriptorView {
    DescriptorView {
        name: identifier(e.description),
        reg: e.reg,
        decoder: DecoderView::Boolean { true_label: e.true_label, false_label: e.false_label },
    }
}

/// What a holding entry adds to the enumerations of its collection.
pub open spec fn holding_enums(e: HoldingView) -> Seq<DescriptorView> {
    match e {
        HoldingView::Enum(d) => enum_part(d),
        _ => Seq::empty(),
    }
}

/// What a holding entry adds to the other registers of its collection.
pub open spec fn holding_structs(e: HoldingView) -> Seq<DescriptorView> {
    match e {
        HoldingView::Enum(_) => Seq::empty(),
        HoldingView::Float(d) => seq![float_descriptor(d)],
        HoldingView::SignedChar(d) => seq![signed_descriptor(d)],
    }
}

/// What an input entry adds to the enumerations of its collection.
pub open spec fn input_enums(e: InputView) -> Seq<DescriptorView> {
    match e {
        InputView::Enum(d) => enum_part(d),
        _ => Seq::empty(),
    }
}

/// What an input entry adds to the other registers of its collection.
pub open spec fn input_structs(e: InputView) -> Seq<DescriptorView> {
    match e {
        InputView::Enum(_) => Seq::empty(),
        InputView::Float(d) => seq![float_descriptor(d)],
        InputView::SignedChar(d) => seq![signed_descriptor(d)],
        InputView::UnsignedShort(d) => seq![unsigned_descriptor(d)],
    }
}

/// The descriptors of the holding collection: the enumerations, then the
/// others.
pub open spec fn holding_catalog(entries: Seq<HoldingView>) -> Seq<DescriptorView> {
    entries.map_values(|e: HoldingView| holding_enums(e)).flatten() + entries.map_values(
        |e: HoldingView| holding_structs(e),
    ).flatten()
}

/// The descriptors of the input collection: the enumerations, then the others.
pub open spec fn input_catalog(entries: Seq<InputView>) -> Seq<DescriptorView> {
    entries.map_values(|e: InputView| input_enums(e)).flatten() + entries.map_values(
        |e: InputView| input_structs(e),
    ).flatten()
}

/// The descriptors of a collection of coils or of discrete inputs.
pub open spec fn boolean_catalog(entries: Seq<BooleanView>) -> Seq<DescriptorView> {
    entries.map_values(|e: BooleanView| boolean_descriptor(e))
}

/// The catalog that a schema compiles to.
pub open spec fn catalog_of(schema: RegistersView) -> CatalogView {
    CatalogView {
        holding: holding_catalog(schema.holding),
        coil: boolean_catalog(schema.coil),
        discrete: boolean_catalog(schema.discrete),
        input: input_catalog(schema.input),
    }
}

/// The type names that a descriptor introduces: its own, then those of its
/// declared variants.
pub open spec fn descriptor_identifiers(d: DescriptorView) -> Seq<Seq<char>> {
    match d.decoder {
        DecoderView::Enum { variants } => seq![d.name] + variants.map_values(
            |v: EnumVariantView| v.name,
        ),
        _ => seq![d.name],
    }
}

/// The type names that a list of descriptors introduces, in order.
pub open spec fn identifiers_of(descriptors: Seq<DescriptorView>) -> Seq<Seq<char>> {
    descriptors.map_values(|d: DescriptorView| descriptor_identifiers(d)).flatten()
}

/// The type names that a catalog introduces: those of the holding registers,
/// the input registers, the coils and the discrete inputs, in that order.
pub open spec fn catalog_identifiers(c: CatalogView) -> Seq<Seq<char>> {
    identifiers_of(c.holding) + identifiers_of(c.input) + identifiers_of(c.coil) + identifiers_of(
        c.discrete,
    )
}

/// Whether position `i` holds the first name that is no valid identifier.
pub open spec fn first_invalid(names: Seq<Seq<char>>, i: int) -> bool {
    &&& 0 <= i < names.len()
    &&& !rust_identifier(names[i])
    &&& forall|j: int| 0 <= j < i ==> rust_identifier(#[trigger] names[j])
}

/// Whether every name is a valid identifier.
pub open spec fn all_valid(names: Seq<Seq<char>>) -> bool {
    forall|j: int| 0 <= j < names.len() ==> rust_identifier(#[trigger] names[j])
}

/// Builds the descriptor of an enumeration register and appends it to
/// `generated_enums`. The variants follow the order of the labels; the
/// `Unknown` fallback is not among them: every decoder has it.
pub fn generate_enum(
    generated_enums: &mut Vec<Descriptor>,
    enum_name: String,
    reg: &[EnumLabel],
    reg_value: u16,
)
    ensures
        descriptor_views(final(generated_enums)@) == descriptor_views(old(generated_enums)@).push(
            enum_descriptor(enum_name@, label_views(reg@), reg_value),
        ),
        outcome_names(variants_of(label_views(reg@))).len() == reg@.len() + 1,
{
    let mut variants: Vec<EnumVariant> = Vec::new();
    let n: usize = reg.len();
    let mut i: usize = 0;
    let ghost labels = label_views(reg@);
    proof {
        assert(variant_views(variants@) =~= variants_of(labels.take(0)));
    }
    while i < n
        invariant
            n == reg@.len(),
            i <= n,
            labels == label_views(reg@),
            variant_views(variants@) == variants_of(labels.take(i as int)),
        decreases n - i,
    {
        let name = sanitize_identifier(reg[i].label.as_str());
        let variant = EnumVariant { name, code: reg[i].code };
        proof {
            lemma_map_step(labels, |l: EnumLabelView| variant_of(l), i as int);
            assert(variant@ == variant_of(labels[i as int]));
            assert(variant_views(variants@.push(variant)) =~= variant_views(variants@).push(
                variant@,
            ));
        }
        variants.push(variant);
        i = i + 1;
    }
    proof {
        lemma_take_all(labels);
    }
    let descriptor = Descriptor {
        name: enum_name,
        reg: reg_value,
        decoder: Decoder::Enum { variants },
    };
    proof {
        assert(descriptor_views(generated_enums@.push(descriptor)) =~= descriptor_views(
            generated_enums@,
        ).push(descriptor@));
    }
    generated_enums.push(descriptor);
}

/// Builds the descriptor of a scaled numeric register.
pub fn describe_float(d: &FloatData) -> (descriptor: Descriptor)
    ensures
        descriptor@ == float_descriptor(d@),
{
    let gain: u32 = match d.gain {
        Some(g) => g,
        None => UNIT_GAIN,
    };
    Descriptor {
        name: sanitize_identifier(d.description.as_str()),
        reg: d.reg,
        decoder: Decoder::Float { gain },
    }
}

/// Builds the descriptor of a signed register.
pub fn describe_signed(d: &SignedData) -> (descriptor: Descriptor)
    ensures
        descriptor@ == signed_descriptor(d@),
{
    Descriptor {
        name: sanitize_identifier(d.description.as_str()),
        reg: d.reg,
        decoder: Decoder::Signed,
    }
}

/// Builds the descriptor of an unsigned register.
pub fn describe_unsigned(d: &UnsignedShortData) -> (descriptor: Descriptor)
    ensures
        descriptor@ == unsigned_descriptor(d@),
{
    Descriptor {
        name: sanitize_identifier(d.description.as_str()),
        reg: d.reg,
        decoder: Decoder::Unsigned,
    }
}

/// Builds the descriptor of a coil.
pub fn describe_coil(entry: &CoilRegister) -> (descriptor: Descriptor)
    ensures
        descriptor@ == boolean_descriptor(entry@),
{
    Descriptor {
        name: sanitize_identifier(entry.description.as_str()),
        reg: entry.reg,
        decoder: Decoder::Boolean {
            true_label: entry.values.true_label.clone(),
            false_label: entry.values.false_label.clone(),
        },
    }
}

/// Builds the descriptor of a discrete input.
pub fn describe_discrete(entry: &DiscreteRegister) -> (descriptor: Descriptor)
    ensures
        descriptor@ == boolean_descriptor(entry@),
{
    Descriptor {
        name: sanitize_identifier(entry.description.as_str()),
        reg: entry.reg,
        decoder: Decoder::Boolean {
            true_label: entry.values.true_label.clone(),
            false_label: entry.values.false_label.clone(),
        },
    }
}

/// Appends `tail` to `head`.
fn join(head: Vec<Descriptor>, tail: Vec<Descriptor>) -> (all: Vec<Descriptor>)
    ensures
        descriptor_views(all@) == descriptor_views(head@) + descriptor_views(tail@),
{
    let mut all = head;
    let mut rest = tail;
    all.append(&mut rest);
    proof {
        assert(descriptor_views(all@) =~= descriptor_views(head@) + descriptor_views(tail@));
    }
    all
}

/// Compiles the holding collection.
pub fn describe_holding(entries: &[HoldingRegister]) -> (descriptors: Vec<Descriptor>)
    ensures
        descriptor_views(descriptors@) == holding_catalog(holding_views(entries@)),
{
    let mut enums: Vec<Descriptor> = Vec::new();
    let mut structs: Vec<Descriptor> = Vec::new();
    let n: usize = entries.len();
    let mut i: usize = 0;
    let ghost views = holding_views(entries@);
    proof {
        lemma_flat_map_empty(views, |e: HoldingView| holding_enums(e));
        lemma_flat_map_empty(views, |e: HoldingView| holding_structs(e));
        assert(descriptor_views(enums@) =~= Seq::<DescriptorView>::empty());
        assert(descriptor_views(structs@) =~= Seq::<DescriptorView>::empty());
    }
    while i < n
        invariant
            n == entries@.len(),
            i <= n,
            views == holding_views(entries@),
            descriptor_views(enums@) == views.take(i as int).map_values(
                |e: HoldingView| holding_enums(e),
            ).flatten(),
            descriptor_views(structs@) == views.take(i as int).map_values(
                |e: HoldingView| holding_structs(e),
            ).flatten(),
        decreases n - i,
    {
        proof {
            lemma_flat_map_step(views, |e: HoldingView| holding_enums(e), i as int);
            lemma_flat_map_step(views, |e: HoldingView| holding_structs(e), i as int);
            assert(views[i as int] == entries@[i as int]@);
        }
        match &entries[i] {
            HoldingRegister::Enum(reg) => {
                let name = sanitize_identifier(reg.description.as_str());
                match &reg.enum_values {
                    Some(labels) => {
                        generate_enum(&mut enums, name, labels.as_slice(), reg.reg);
                    },
                    None => {},
                }
            },
            HoldingRegister::Float(reg) => {
                let descriptor = describe_float(reg);
                proof {
                    assert(descriptor_views(structs@.push(descriptor)) =~= descriptor_views(
                        structs@,
                    ).push(descriptor@));
                }
                structs.push(descriptor);
            },
            HoldingRegister::SignedChar(reg) => {
                let descriptor = describe_signed(reg);
                proof {
                    assert(descriptor_views(structs@.push(descriptor)) =~= descriptor_views(
                        structs@,
                    ).push(descriptor@));
                }
                structs.push(descriptor);
            },
        }
        proof {
            assert(descriptor_views(enums@) =~= views.take(i as int).map_values(
                |e: HoldingView| holding_enums(e),
            ).flatten() + holding_enums(views[i as int]));
            assert(descriptor_views(structs@) =~= views.take(i as int).map_values(
                |e: HoldingView| holding_structs(e),
            ).flatten() + holding_structs(views[i as int]));
        }
        i = i + 1;
    }
    proof {
        lemma_take_all(views);
    }
    join(enums, structs)
}

/// Compiles the input collection.
pub fn describe_input(entries: &[InputRegister]) -> (descriptors: Vec<Descriptor>)
    ensures
        descriptor_views(descriptors@) == input_catalog(input_views(entries@)),
{
    let mut enums: Vec<Descriptor> = Vec::new();
    let mut structs: Vec<Descriptor> = Vec::new();
    let n: usize = entries.len();
    let mut i: usize = 0;
    let ghost views = input_views(entries@);
    proof {
        lemma_flat_map_empty(views, |e: InputView| input_enums(e));
        lemma_flat_map_empty(views, |e: InputView| input_structs(e));
        assert(descriptor_views(enums@) =~= Seq::<DescriptorView>::empty());
        assert(descriptor_views(structs@) =~= Seq::<DescriptorView>::empty());
    }
    while i < n
        invariant
            n == entries@.len(),
            i <= n,
            views == input_views(entries@),
            descriptor_views(enums@) == views.take(i as int).map_values(
                |e: InputView| input_enums(e),
            ).flatten(),
            descriptor_views(structs@) == views.take(i as int).map_values(
                |e: InputView| input_structs(e),
            ).flatten(),
        decreases n - i,
    {
        proof {
            lemma_flat_map_step(views, |e: InputView| input_enums(e), i as int);
            lemma_flat_map_step(views, |e: InputView| input_structs(e), i as int);
            assert(views[i as int] == entries@[i as int]@);
        }
        match &entries[i] {
            InputRegister::Enum(reg) => {
                let name = sanitize_identifier(reg.description.as_str());
                match &reg.enum_values {
                    Some(labels) => {
                        generate_enum(&mut enums, name, labels.as_slice(), reg.reg);
                    },
                    None => {},
                }
            },
            InputRegister::Float(reg) => {
                let descriptor = describe_float(reg);
                proof {
                    assert(descriptor_views(structs@.push(descriptor)) =~= descriptor_views(
                        structs@,
                    ).push(descriptor@));
                }
                structs.push(descriptor);
            },
            InputRegister::SignedChar(reg) => {
                let descriptor = describe_signed(reg);
                proof {
                    assert(descriptor_views(structs@.push(descriptor)) =~= descriptor_views(
                        structs@,
                    ).push(descriptor@));
                }
                structs.push(descriptor);
            },
            InputRegister::UnsignedShort(reg) => {
                let descriptor = describe_unsigned(reg);
                proof {
                    assert(descriptor_views(structs@.push(descriptor)) =~= descriptor_views(
                        structs@,
                    ).push(descriptor@));
                }
                structs.push(descriptor);
            },
        }
        proof {
            assert(descriptor_views(enums@) =~= views.take(i as int).map_values(
                |e: InputView| input_enums(e),
            ).flatten() + input_enums(views[i as int]));
            assert(descriptor_views(structs@) =~= views.take(i as int).map_values(
                |e: InputView| input_structs(e),
            ).flatten() + input_structs(views[i as int]));
        }
        i = i + 1;
    }
    proof {
        lemma_take_all(views);
    }
    join(enums, structs)
}

/// Compiles the coil collection.
pub fn describe_coils(entries: &[CoilRegister]) -> (descriptors: Vec<Descriptor>)
    ensures
        descriptor_views(descriptors@) == boolean_catalog(coil_views(entries@)),
{
    let mut descriptors: Vec<Descriptor> = Vec::new();
    let n: usize = entries.len();
    let mut i: usize = 0;
    let ghost views = coil_views(entries@);
    proof {
        assert(descriptor_views(descriptors@) =~= boolean_catalog(views.take(0)));
    }
    while i < n
        invariant
            n == entries@.len(),
            i <= n,
            views == coil_views(entries@),
            descriptor_views(descriptors@) == boolean_catalog(views.take(i as int)),
        decreases n - i,
    {
        let descriptor = describe_coil(&entries[i]);
        proof {
            lemma_map_step(views, |e: BooleanView| boolean_descriptor(e), i as int);
            assert(views[i as int] == entries@[i as int]@);
            assert(descriptor_views(descriptors@.push(descriptor)) =~= descriptor_views(
                descriptors@,
            ).push(descriptor@));
        }
        descriptors.push(descriptor);
        i = i + 1;
    }
    proof {
        lemma_take_all(views);
    }
    descriptors
}

/// Compiles the discrete collection.
pub fn describe_discretes(entries: &[DiscreteRegister]) -> (descriptors: Vec<Descriptor>)
    ensures
        descriptor_views(descriptors@) == boolean_catalog(discrete_views(entries@)),
{
    let mut descriptors: Vec<Descriptor> = Vec::new();
    let n: usize = entries.len();
    let mut i: usize = 0;
    let ghost views = discrete_views(entries@);
    proof {
        assert(descriptor_views(descriptors@) =~= boolean_catalog(views.take(0)));
    }
    while i < n
        invariant
            n == entries@.len(),
            i <= n,
            views == discrete_views(entries@),
            descriptor_views(descriptors@) == boolean_catalog(views.take(i as int)),
        decreases n - i,
    {
        let descriptor = describe_discrete(&entries[i]);
        proof {
            lemma_map_step(views, |e: BooleanView| boolean_descriptor(e), i as int);
            assert(views[i as int] == entries@[i as int]@);
            assert(descriptor_views(descriptors@.push(descriptor)) =~= descriptor_views(
                descriptors@,
            ).push(descriptor@));
        }
        descriptors.push(descriptor);
        i = i + 1;
    }
    proof {
        lemma_take_all(views);
    }
    descriptors
}

/// Compiles a schema into its catalog, without judging the type names.
pub fn build_catalog(schema: &Registers) -> (catalog: Catalog)
    ensures
        catalog@ == catalog_of(schema@),
{
    let holding = describe_holding(schema.holding.as_slice());
    let input = describe_input(schema.input.as_slice());
    let coil = describe_coils(schema.coil.as_slice());
    let discrete = describe_discretes(schema.discrete.as_slice());
    Catalog { holding, coil, discrete, input }
}

/// Appends the type names that a list of descriptors introduces.
fn collect_identifiers(names: &mut Vec<String>, descriptors: &[Descriptor])
    ensures
        texts(final(names)@) == texts(old(names)@) + identifiers_of(descriptor_views(descriptors@)),
{
    let n: usize = descriptors.len();
    let mut i: usize = 0;
    let ghost views = descriptor_views(descriptors@);
    proof {
        lemma_flat_map_empty(views, |d: DescriptorView| descriptor_identifiers(d));
        assert(texts(names@) + Seq::<Seq<char>>::empty() =~= texts(names@));
    }
    while i < n
        invariant
            n == descriptors@.len(),
            i <= n,
            views == descriptor_views(descriptors@),
            texts(names@) == texts(old(names)@) + identifiers_of(views.take(i as int)),
        decreases n - i,
    {
        let descriptor = &descriptors[i];
        let ghost before = names@;
        let own = descriptor.name.clone();
        proof {
            lemma_flat_map_step(views, |d: DescriptorView| descriptor_identifiers(d), i as int);
            assert(views[i as int] == descriptor@);
            assert(texts(names@.push(own)) =~= texts(names@).push(own@));
        }
        names.push(own);
        match &descriptor.decoder {
            Decoder::Enum { variants } => {
                let m: usize = variants.len();
                let mut k: usize = 0;
                let ghost declared = variant_views(variants@).map_values(
                    |v: EnumVariantView| v.name,
                );
                proof {
                    assert(declared.take(0) =~= Seq::<Seq<char>>::empty());
                    assert(texts(names@) =~= texts(before) + seq![descriptor.name@] + declared.take(
                        0,
                    ));
                }
                while k < m
                    invariant
                        m == variants@.len(),
                        k <= m,
                        declared == variant_views(variants@).map_values(
                            |v: EnumVariantView| v.name,
                        ),
                        texts(names@) == texts(before) + seq![descriptor.name@] + declared.take(
                            k as int,
                        ),
                    decreases m - k,
                {
                    let name = variants[k].name.clone();
                    proof {
                        assert(texts(names@.push(name)) =~= texts(names@).push(name@));
                        assert(declared.take(k + 1) =~= declared.take(k as int).push(name@));
                        assert((texts(before) + seq![descriptor.name@] + declared.take(
                            k as int,
                        )).push(name@) =~= texts(before) + seq![descriptor.name@] + declared.take(
                            k + 1,
                        ));
                    }
                    names.push(name);
                    k = k + 1;
                }
                proof {
                    lemma_take_all(declared);
                    assert(texts(names@) =~= texts(before) + descriptor_identifiers(descriptor@));
                }
            },
            _ => {
                proof {
                    assert(texts(names@) =~= texts(before) + descriptor_identifiers(descriptor@));
                }
            },
        }
        proof {
            assert(texts(old(names)@) + identifiers_of(views.take(i as int))
                + descriptor_identifiers(descriptor@) =~= texts(old(names)@) + (identifiers_of(
                views.take(i as int),
            ) + descriptor_identifiers(descriptor@)));
        }
        i = i + 1;
    }
    proof {
        lemma_take_all(views);
    }
}

impl Catalog {
    /// The type names that the catalog introduces: those of the holding
    /// registers, the input registers, the coils and the discrete inputs, in
    /// that order, each register's own name before those of its variants.
    pub fn identifiers(&self) -> (names: Vec<String>)
        ensures
            texts(names@) == catalog_identifiers(self@),
    {
        let mut names: Vec<String> = Vec::new();
        proof {
            assert(texts(names@) =~= Seq::<Seq<char>>::empty());
        }
        collect_identifiers(&mut names, self.holding.as_slice());
        collect_identifiers(&mut names, self.input.as_slice());
        collect_identifiers(&mut names, self.coil.as_slice());
        collect_identifiers(&mut names, self.discrete.as_slice());
        proof {
            assert(texts(names@) =~= catalog_identifiers(self@));
        }
        names
    }
}

/// Finds the first name that is no valid identifier.
pub fn find_invalid(names: &[String]) -> (found: Option<usize>)
    ensures
        match found {
            Some(i) => first_invalid(texts(names@), i as int),
            None => all_valid(texts(names@)),
        },
{
    let n: usize = names.len();
    let mut i: usize = 0;
    while i < n
        invariant
            n == names@.len(),
            i <= n,
            forall|j: int| 0 <= j < i ==> rust_identifier(#[trigger] texts(names@)[j]),
        decreases n - i,
    {
        if !is_identifier(names[i].as_str()) {
            proof {
                assert(texts(names@)[i as int] == names@[i as int]@);
            }
            return Some(i);
        }
        proof {
            assert(texts(names@)[i as int] == names@[i as int]@);
        }
        i = i + 1;
    }
    None
}

/// Compiles a schema into the catalog of its register descriptors.
///
/// The schema is refused where a description or a label does not yield a valid
/// type name: the error carries the first such name, in the order of
/// `catalog_identifiers`.
pub fn generate_registers(schema: &Registers) -> (result: Result<Catalog, SchemaError>)
    ensures
        match result {
            Ok(catalog) => {
                &&& catalog@ == catalog_of(schema@)
                &&& all_valid(catalog_identifiers(catalog_of(schema@)))
            },
            Err(error) => exists|i: int|
                {
                    &&& #[trigger] first_invalid(catalog_identifiers(catalog_of(schema@)), i)
                    &&& error@ == (SchemaErrorView::InvalidIdentifier {
                        name: catalog_identifiers(catalog_of(schema@))[i],
                    })
                },
        },
{
    let catalog = build_catalog(schema);
    let names = catalog.identifiers();
    match find_invalid(names.as_slice()) {
        Some(i) => {
            let name = names[i].clone();
            proof {
                assert(texts(names@)[i as int] == names@[i as int]@);
                assert(first_invalid(catalog_identifiers(catalog_of(schema@)), i as int));
            }
            Err(SchemaError::InvalidIdentifier { name })
        },
        None => Ok(catalog),
    }
}

/// An enumeration register has one outcome for each declared label, and the
/// `Unknown` fallback besides.
pub proof fn lemma_enum_variant_count(name: Seq<char>, labels: Seq<EnumLabelView>, reg: u16)
    ensures
        enum_descriptor(name, labels, reg).decoder matches DecoderView::Enum { variants }
            && outcome_names(variants).len() == labels.len() + 1,
{
}

/// The address that a holding entry declares.
pub open spec fn holding_reg(e: HoldingView) -> u16 {
    match e {
        HoldingView::Enum(d) => d.reg,
        HoldingView::Float(d) => d.reg,
        HoldingView::SignedChar(d) => d.reg,
    }
}

/// The description of a holding entry.
pub open spec fn holding_description(e: HoldingView) -> Seq<char> {
    match e {
        HoldingView::Enum(d) => d.description,
        HoldingView::Float(d) => d.description,
        HoldingView::SignedChar(d) => d.description,
    }
}

/// The address that an input entry declares.
pub open spec fn input_reg(e: InputView) -> u16 {
    match e {
        InputView::Enum(d) => d.reg,
        InputView::Float(d) => d.reg,
        InputView::SignedChar(d) => d.reg,
        InputView::UnsignedShort(d) => d.reg,
    }
}

/// The description of an input entry.
pub open spec fn input_description(e: InputView) -> Seq<char> {
    match e {
        InputView::Enum(d) => d.description,
        InputView::Float(d) => d.description,
        InputView::SignedChar(d) => d.description,
        InputView::UnsignedShort(d) => d.description,
    }
}

/// Whether a descriptor carries the address that a holding entry declares,
/// under the name synthesized from the description of the entry.
pub open spec fn of_holding(d: DescriptorView, e: HoldingView) -> bool {
    d.reg == holding_reg(e) && d.name == identifier(holding_description(e))
}

/// Whether a descriptor carries the address that an input entry declares,
/// under the name synthesized from the description of the entry.
pub open spec fn of_input(d: DescriptorView, e: InputView) -> bool {
    d.reg == input_reg(e) && d.name == identifier(input_description(e))
}

/// Every register of a compiled catalog has the address that the schema
/// declares for it, in every collection. A coil or a discrete input stands at
/// the place of its entry. A holding or an input register stems from an entry
/// of its collection, whose address and name it carries.
pub proof fn lemma_addresses_kept(schema: RegistersView)
    ensures
        catalog_of(schema).coil.len() == schema.coil.len(),
        forall|i: int|
            0 <= i < schema.coil.len() ==> (#[trigger] catalog_of(schema).coil[i]).reg
                == schema.coil[i].reg,
        catalog_of(schema).discrete.len() == schema.discrete.len(),
        forall|i: int|
            0 <= i < schema.discrete.len() ==> (#[trigger] catalog_of(schema).discrete[i]).reg
                == schema.discrete[i].reg,
        forall|k: int|
            0 <= k < catalog_of(schema).holding.len() ==> exists|j: int|
                0 <= j < schema.holding.len() && of_holding(
                    #[trigger] catalog_of(schema).holding[k],
                    #[trigger] schema.holding[j],
                ),
        forall|k: int|
            0 <= k < catalog_of(schema).input.len() ==> exists|j: int|
                0 <= j < schema.input.len() && of_input(
                    #[trigger] catalog_of(schema).input[k],
                    #[trigger] schema.input[j],
                ),
{
    let catalog = catalog_of(schema);
    assert forall|k: int| 0 <= k < catalog.holding.len() implies exists|j: int|
        0 <= j < schema.holding.len() && of_holding(
            #[trigger] catalog.holding[k],
            #[trigger] schema.holding[j],
        ) by {
        let enums = schema.holding.map_values(|e: HoldingView| holding_enums(e)).flatten();
        if k < enums.len() {
            lemma_flat_map_member(schema.holding, |e: HoldingView| holding_enums(e), k);
            let j = choose|j: int|
                0 <= j < schema.holding.len() && holding_enums(#[trigger] schema.holding[j]).contains(
                    enums[k],
                );
            assert(of_holding(catalog.holding[k], schema.holding[j]));
        } else {
            let structs = schema.holding.map_values(|e: HoldingView| holding_structs(e)).flatten();
            let m = k - enums.len();
            lemma_flat_map_member(schema.holding, |e: HoldingView| holding_structs(e), m);
            let j = choose|j: int|
                0 <= j < schema.holding.len() && holding_structs(
                    #[trigger] schema.holding[j],
                ).contains(structs[m]);
            assert(of_holding(catalog.holding[k], schema.holding[j]));
        }
    }
    assert forall|k: int| 0 <= k < catalog.input.len() implies exists|j: int|
        0 <= j < schema.input.len() && of_input(
            #[trigger] catalog.input[k],
            #[trigger] schema.input[j],
        ) by {
        let enums = schema.input.map_values(|e: InputView| input_enums(e)).flatten();
        if k < enums.len() {
            lemma_flat_map_member(schema.input, |e: InputView| input_enums(e), k);
            let j = choose|j: int|
                0 <= j < schema.input.len() && input_enums(#[trigger] schema.input[j]).contains(
                    enums[k],
                );
            assert(of_input(catalog.input[k], schema.input[j]));
        } else {
            let structs = schema.input.map_values(|e: InputView| input_structs(e)).flatten();
            let m = k - enums.len();
            lemma_flat_map_member(schema.input, |e: InputView| input_structs(e), m);
            let j = choose|j: int|
                0 <= j < schema.input.len() && input_structs(#[trigger] schema.input[j]).contains(
                    structs[m],
                );
            assert(of_input(catalog.input[k], schema.input[j]));
        }
    }
}

/// Compiling is a function of the schema: schemas that stand for the same
/// document compile to the same catalog.
pub proof fn lemma_compilation_deterministic(a: Registers, b: Registers)
    requires
        a@ == b@,
    ensures
        catalog_of(a@) == catalog_of(b@),
{
}

} // verus!
