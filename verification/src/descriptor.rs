//! Register descriptors: the compiled form of one register, made of its type
//! name, its address and the rule that decodes a raw reading.

use vstd::prelude::*;
use crate::codec::{register_to_i16, register_to_u16, word_as_signed};

verus! {

/// The bits of the IEEE-754 binary32 value one: the gain of a scaled register
/// that declares none.
pub const UNIT_GAIN: u32 = 0x3f80_0000;

/// One declared outcome of an enumeration register.
#[derive(Debug, Clone, PartialEq, Eq)]
pub struct EnumVariant {
    pub name: String,
    pub code: u16,
}

/// The decode rule of a register: a closed sum over the five value kinds.
#[derive(Debug, Clone, PartialEq, Eq)]
pub enum Decoder {
    /// The first word selects the declared variant with that code, or the
    /// `Unknown` fallback.
    Enum { variants: Vec<EnumVariant> },
    /// The first word is taken as a scalar and multiplied by the gain, whose
    /// IEEE-754 binary32 bits are held here.
    Float { gain: u32 },
    /// The one word is read as a two's-complement 16-bit integer.
    Signed,
    /// The one word is read as an unsigned 16-bit integer.
    Unsigned,
    /// The first bit is the value; it is rendered by one of the two labels.
    Boolean { true_label: String, false_label: String },
}

/// The compiled form of one register.
#[derive(Debug, Clone, PartialEq, Eq)]
pub struct Descriptor {
    pub name: String,
    pub reg: u16,
    pub decoder: Decoder,
}

/// A decoded reading.
#[derive(Debug, Clone, Copy, PartialEq, Eq, Structural)]
pub enum Value {
    /// The declared variant at this position of an enumeration register.
    Variant(usize),
    /// The fallback of an enumeration register: no declared code matched.
    Unknown,
    /// A scaled reading, as its two factors: the raw word, taken as a scalar,
    /// and the bits of the gain. The value is their floating-point product.
    Scaled { raw: u16, gain: u32 },
    Signed(i16),
    Unsigned(u16),
    Flag(bool),
}

/// What an `EnumVariant` stands for.
pub ghost struct EnumVariantView {
    pub name: Seq<char>,
    pub code: u16,
}

/// What a `Decoder` stands for.
pub ghost enum DecoderView {
    Enum { variants: Seq<EnumVariantView> },
    Float { gain: u32 },
    Signed,
    Unsigned,
    Boolean { true_label: Seq<char>, false_label: Seq<char> },
}

/// What a `Descriptor` stands for.
pub ghost struct DescriptorView {
    pub name: Seq<char>,
    pub reg: u16,
    pub decoder: DecoderView,
}

impl View for EnumVariant {
    type V = EnumVariantView;

    open spec fn view(&self) -> EnumVariantView {
        EnumVariantView { name: self.name@, code: self.code }
    }
}

/// The views of a list of variants.
pub open spec fn variant_views(variants: Seq<EnumVariant>) -> Seq<EnumVariantView> {
    variants.map_values(|v: EnumVariant| v@)
}

impl View for Decoder {
    type V = DecoderView;

    open spec fn view(&self) -> DecoderView {
        match self {
            Decoder::Enum { variants } => DecoderView::Enum { variants: variant_views(variants@) },
            Decoder::Float { gain } => DecoderView::Float { gain: *gain },
            Decoder::Signed => DecoderView::Signed,
            Decoder::Unsigned => DecoderView::Unsigned,
            Decoder::Boolean { true_label, false_label } => DecoderView::Boolean {
                true_label: true_label@,
                false_label: false_label@,
            },
        }
    }
}

impl View for Descriptor {
    type V = DescriptorView;

    open spec fn view(&self) -> DescriptorView {
        DescriptorView { name: self.name@, reg: self.reg, decoder: self.decoder@ }
    }
}

/// The views of a list of descriptors.
pub open spec fn descriptor_views(descriptors: Seq<Descriptor>) -> Seq<DescriptorView> {
    descriptors.map_values(|d: Descriptor| d@)
}

/// The position of the first variant declared with the given code, if any.
pub open spec fn first_with_code(variants: Seq<EnumVariantView>, code: u16) -> Option<int>
    decreases variants.len(),
{
    if variants.len() == 0 {
        None
    } else if variants[0].code == code {
        Some(0)
    } else {
        match first_with_code(variants.skip(1), code) {
            Some(i) => Some(i + 1),
            None => None,
        }
    }
}

/// The outcome of an enumeration register for a raw code.
pub open spec fn enum_outcome(variants: Seq<EnumVariantView>, code: u16) -> Value {
    match first_with_code(variants, code) {
        Some(i) => Value::Variant(i as usize),
        None => Value::Unknown,
    }
}

/// The names of all outcomes of an enumeration register: the declared
/// variants in order, then `Unknown`.
pub open spec fn outcome_names(variants: Seq<EnumVariantView>) -> Seq<Seq<char>> {
    variants.map_values(|v: EnumVariantView| v.name).push("Unknown"@)
}

/// Whether a decode rule takes a word reading of the given length.
pub open spec fn takes_words(decoder: DecoderView, len: nat) -> bool {
    match decoder {
        DecoderView::Enum { .. } => len >= 1,
        DecoderView::Float { .. } => len >= 1,
        DecoderView::Signed => len == 1,
        DecoderView::Unsigned => len == 1,
        DecoderView::Boolean { .. } => false,
    }
}

/// Whether a decode rule takes a bit reading of the given length.
pub open spec fn takes_bits(decoder: DecoderView, len: nat) -> bool {
    decoder is Boolean && len >= 1
}

/// The value that a decode rule gives to a word reading.
pub open spec fn decoded_words(decoder: DecoderView, words: Seq<u16>) -> Value {
    match decoder {
        DecoderView::Enum { variants } => enum_outcome(variants, words[0]),
        DecoderView::Float { gain } => Value::Scaled { raw: words[0], gain },
        DecoderView::Signed => Value::Signed(word_as_signed(words[0]) as i16),
        DecoderView::Unsigned => Value::Unsigned(words[0]),
        DecoderView::Boolean { .. } => Value::Unknown,
    }
}

/// The text that renders a decoded value of a boolean or an enumeration
/// register. Numeric values, and values that the rule cannot give, have none.
pub open spec fn rendered(decoder: DecoderView, value: Value) -> Option<Seq<char>> {
    match decoder {
        DecoderView::Boolean { true_label, false_label } => match value {
            Value::Flag(b) => Some(
                if b {
                    true_label
                } else {
                    false_label
                },
            ),
            _ => None,
        },
        DecoderView::Enum { variants } => match value {
            Value::Variant(i) => if i < variants.len() {
                Some(variants[i as int].name)
            } else {
                None
            },
            Value::Unknown => Some("Unknown"@),
            _ => None,
        },
        _ => None,
    }
}

/// What `first_with_code` finds: the least position that holds the code, or
/// nothing where no position holds it.
pub proof fn lemma_first_with_code(variants: Seq<EnumVariantView>, code: u16)
    ensures
        match first_with_code(variants, code) {
            Some(i) => 0 <= i < variants.len() && variants[i].code == code && forall|j: int|
                0 <= j < i ==> (#[trigger] variants[j]).code != code,
            None => forall|j: int| 0 <= j < variants.len() ==> (#[trigger] variants[j]).code != code,
        },
    decreases variants.len(),
{
    if variants.len() > 0 && variants[0].code != code {
        let rest = variants.skip(1);
        lemma_first_with_code(rest, code);
        match first_with_code(rest, code) {
            Some(i) => {
                assert forall|j: int| 0 <= j < i + 1 implies (#[trigger] variants[j]).code
                    != code by {
                    if j > 0 {
                        assert(variants[j] == rest[j - 1]);
                    }
                }
            },
            None => {
                assert forall|j: int| 0 <= j < variants.len() implies (#[trigger] variants[j]).code
                    != code by {
                    if j > 0 {
                        assert(variants[j] == rest[j - 1]);
                    }
                }
            },
        }
    }
}

/// Decoding is a total function of the code: a code that no variant declares
/// gives `Unknown`, and a declared code gives the first variant declared with
/// it, whose position lies within the declared variants.
pub proof fn lemma_enum_outcome_total(variants: Seq<EnumVariantView>, code: u16)
    requires
        variants.len() <= usize::MAX,
    ensures
        (forall|j: int| 0 <= j < variants.len() ==> (#[trigger] variants[j]).code != code)
            ==> enum_outcome(variants, code) == Value::Unknown,
        (exists|j: int| 0 <= j < variants.len() && (#[trigger] variants[j]).code == code)
            ==> (enum_outcome(variants, code) matches Value::Variant(i) && i < variants.len()
            && variants[i as int].code == code),
        enum_outcome(variants, code) is Unknown || enum_outcome(variants, code) is Variant,
{
    lemma_first_with_code(variants, code);
}

/// A scaled reading is made of the first word and the gain of the register:
/// the gain does not touch the raw factor, and the reading carries the gain as
/// its other factor. The value, their floating-point product, is not formed
/// here.
pub proof fn lemma_scaled_factors(words: Seq<u16>, gain: u32, other: u32)
    requires
        words.len() >= 1,
    ensures
        decoded_words(DecoderView::Float { gain }, words) == (Value::Scaled {
            raw: words[0],
            gain,
        }),
        decoded_words(DecoderView::Float { gain }, words)->raw == decoded_words(
            DecoderView::Float { gain: other },
            words,
        )->raw,
{
}

/// An enumeration register has one outcome more than it declares variants.
pub proof fn lemma_outcome_count(variants: Seq<EnumVariantView>)
    ensures
        outcome_names(variants).len() == variants.len() + 1,
        outcome_names(variants).last() == "Unknown"@,
{
}

/// Selects the outcome of an enumeration register for a raw code.
pub fn decode_enum(variants: &[EnumVariant], code: u16) -> (value: Value)
    ensures
        value == enum_outcome(variant_views(variants@), code),
{
    let n: usize = variants.len();
    let mut i: usize = 0;
    while i < n
        invariant
            n == variants@.len(),
            i <= n,
            forall|j: int| 0 <= j < i ==> (#[trigger] variant_views(variants@)[j]).code != code,
        decreases n - i,
    {
        if variants[i].code == code {
            proof {
                lemma_first_with_code(variant_views(variants@), code);
                assert(variant_views(variants@)[i as int].code == code);
            }
            return Value::Variant(i);
        }
        i = i + 1;
    }
    proof {
        lemma_first_with_code(variant_views(variants@), code);
    }
    Value::Unknown
}

/// Whether position `i` holds the first descriptor with the given name.
pub open spec fn first_named(descriptors: Seq<DescriptorView>, name: Seq<char>, i: int) -> bool {
    &&& 0 <= i < descriptors.len()
    &&& descriptors[i].name == name
    &&& forall|j: int| 0 <= j < i ==> (#[trigger] descriptors[j]).name != name
}

/// Looks a register up by the name of its type: the position of the first
/// descriptor with that name, if there is one.
pub fn position_of(descriptors: &[Descriptor], name: &str) -> (found: Option<usize>)
    ensures
        match found {
            Some(i) => first_named(descriptor_views(descriptors@), name@, i as int),
            None => forall|j: int|
                0 <= j < descriptors@.len() ==> (#[trigger] descriptor_views(descriptors@)[j]).name
                    != name@,
        },
{
    let n: usize = descriptors.len();
    let mut i: usize = 0;
    while i < n
        invariant
            n == descriptors@.len(),
            i <= n,
            forall|j: int|
                0 <= j < i ==> (#[trigger] descriptor_views(descriptors@)[j]).name != name@,
        decreases n - i,
    {
        if descriptors[i].name.as_str().eq(name) {
            proof {
                assert(descriptor_views(descriptors@)[i as int].name == name@);
            }
            return Some(i);
        }
        proof {
            assert(descriptor_views(descriptors@)[i as int].name != name@);
        }
        i = i + 1;
    }
    None
}

impl Descriptor {
    /// The address of the register.
    pub fn reg(&self) -> (address: u16)
        ensures
            address == self@.reg,
    {
        self.reg
    }

    /// Tells whether the register takes a word reading of the given length.
    pub fn accepts_words(&self, len: usize) -> (accepts: bool)
        ensures
            accepts == takes_words(self@.decoder, len as nat),
    {
        match &self.decoder {
            Decoder::Enum { .. } => len >= 1,
            Decoder::Float { .. } => len >= 1,
            Decoder::Signed => len == 1,
            Decoder::Unsigned => len == 1,
            Decoder::Boolean { .. } => false,
        }
    }

    /// Tells whether the register takes a bit reading of the given length.
    pub fn accepts_bits(&self, len: usize) -> (accepts: bool)
        ensures
            accepts == takes_bits(self@.decoder, len as nat),
    {
        match &self.decoder {
            Decoder::Boolean { .. } => len >= 1,
            _ => false,
        }
    }

    /// Decodes a word reading, as holding and input registers give it.
    pub fn decode_words(&self, words: &[u16]) -> (value: Value)
        requires
            takes_words(self@.decoder, words@.len()),
        ensures
            value == decoded_words(self@.decoder, words@),
    {
        match &self.decoder {
            Decoder::Enum { variants } => decode_enum(variants.as_slice(), words[0]),
            Decoder::Float { gain } => Value::Scaled { raw: words[0], gain: *gain },
            Decoder::Signed => Value::Signed(register_to_i16(words)),
            Decoder::Unsigned => Value::Unsigned(register_to_u16(words)),
            Decoder::Boolean { .. } => Value::Unknown,
        }
    }

    /// Decodes a bit reading, as coils and discrete inputs give it.
    pub fn decode_bits(&self, bits: &[bool]) -> (value: Value)
        requires
            takes_bits(self@.decoder, bits@.len()),
        ensures
            value == Value::Flag(bits@[0]),
    {
        Value::Flag(bits[0])
    }

    /// Renders a decoded value of a boolean or an enumeration register by its
    /// label or its variant name.
    pub fn render(&self, value: Value) -> (text: Option<String>)
        ensures
            crate::text::option_text(text) == rendered(self@.decoder, value),
    {
        match &self.decoder {
            Decoder::Boolean { true_label, false_label } => match value {
                Value::Flag(b) => {
                    if b {
                        Some(true_label.clone())
                    } else {
                        Some(false_label.clone())
                    }
                },
                _ => None,
            },
            Decoder::Enum { variants } => match value {
                Value::Variant(i) => {
                    if i < variants.len() {
                        proof {
                            assert(variant_views(variants@)[i as int].name == variants@[i as int].name@);
                        }
                        Some(variants[i].name.clone())
                    } else {
                        None
                    }
                },
                Value::Unknown => Some("Unknown".to_string()),
                _ => None,
            },
            _ => None,
        }
    }

    /// The names of all outcomes of an enumeration register, the fallback
    /// last. Other registers have none.
    pub fn variant_names(&self) -> (names: Option<Vec<String>>)
        ensures
            match self@.decoder {
                DecoderView::Enum { variants } => names is Some && crate::text::texts(names->0@)
                    == outcome_names(variants),
                _ => names is None,
            },
    {
        match &self.decoder {
            Decoder::Enum { variants } => {
                let mut names: Vec<String> = Vec::new();
                let n: usize = variants.len();
                let mut i: usize = 0;
                let ghost declared = variant_views(variants@).map_values(
                    |v: EnumVariantView| v.name,
                );
                while i < n
                    invariant
                        n == variants@.len(),
                        i <= n,
                        declared == variant_views(variants@).map_values(
                            |v: EnumVariantView| v.name,
                        ),
                        crate::text::texts(names@) == declared.take(i as int),
                    decreases n - i,
                {
                    let name = variants[i].name.clone();
                    proof {
                        assert(crate::text::texts(names@.push(name)) =~= crate::text::texts(
                            names@,
                        ).push(name@));
                        assert(declared.take(i as int).push(declared[i as int]) =~= declared.take(
                            i + 1,
                        ));
                    }
                    names.push(name);
                    i = i + 1;
                }
                let fallback = "Unknown".to_string();
                proof {
                    assert(declared.take(n as int) =~= declared);
                    assert(crate::text::texts(names@.push(fallback)) =~= crate::text::texts(
                        names@,
                    ).push(fallback@));
                }
                names.push(fallback);
                Some(names)
            },
            _ => None,
        }
    }
}

} // verus!
