//! The emitter: renders a catalog as the source text of a Rust module.
//!
//! The text holds the shared codec functions, the `ModbusRegister` trait, and
//! one module for each collection with one type for each register: its
//! address, its decode function and, for boolean registers, its rendering.
//! The text is a function of the catalog: the same catalog gives the same
//! text, character for character.

use vstd::prelude::*;
use crate::compiler::{catalog_of, Catalog, CatalogView};
use crate::descriptor::{
    descriptor_views, variant_views, Decoder, DecoderView, Descriptor, DescriptorView,
    EnumVariant, EnumVariantView,
};
use crate::schema::Registers;
use crate::seqs::{lemma_flat_map_empty, lemma_flat_map_step, lemma_take_all};
use crate::text::{chars_of, decimal_text, hex_text, push_decimal, push_hex};

verus! {

/// Whether a character stands for itself in a string literal: the printable
/// ASCII characters but the double quote and the backslash.
pub open spec fn plain(c: char) -> bool {
    0x20 <= c as u32 <= 0x7e && c != '"' && c != '\\'
}

/// A character as it is written inside a string literal. The double quote and
/// the backslash get a backslash before them; every other character that is
/// not plain is written as a Unicode escape.
pub open spec fn escaped_char(c: char) -> Seq<char> {
    if plain(c) {
        seq![c]
    } else if c == '"' {
        seq!['\\', '"']
    } else if c == '\\' {
        seq!['\\', '\\']
    } else {
        seq!['\\', 'u', '{'] + hex_text(c as nat) + seq!['}']
    }
}

/// A text written as a string literal, between double quotes.
pub open spec fn string_literal(s: Seq<char>) -> Seq<char> {
    seq!['"'] + s.map_values(|c: char| escaped_char(c)).flatten() + seq!['"']
}

/// The line that declares one variant.
pub open spec fn variant_line(v: EnumVariantView) -> Seq<char> {
    "        "@ + v.name + ",\n"@
}

/// The match arm that maps a code to its variant.
pub open spec fn arm_line(name: Seq<char>, v: EnumVariantView) -> Seq<char> {
    "                "@ + decimal_text(v.code as nat) + "u16 => "@ + name + "::"@ + v.name
        + ",\n"@
}

/// The lines that declare the variants of an enumeration.
pub open spec fn variant_lines(variants: Seq<EnumVariantView>) -> Seq<char> {
    variants.map_values(|v: EnumVariantView| variant_line(v)).flatten()
}

/// The match arms of an enumeration.
pub open spec fn arm_lines(name: Seq<char>, variants: Seq<EnumVariantView>) -> Seq<char> {
    variants.map_values(|v: EnumVariantView| arm_line(name, v)).flatten()
}

/// The line that gives the address of a register.
pub open spec fn reg_line(reg: u16) -> Seq<char> {
    "            "@ + decimal_text(reg as nat) + "u16\n"@
}

/// The text of an enumeration register.
pub open spec fn enum_text(name: Seq<char>, reg: u16, variants: Seq<EnumVariantView>) -> Seq<
    char,
> {
    "    #[derive(Debug)]\n    pub enum "@ + name + " {\n"@ + variant_lines(variants)
        + "        Unknown,\n    }\n    impl ModbusRegister<Vec<u16>> for "@ + name
        + " {\n        fn reg() -> u16 {\n"@ + reg_line(reg)
        + "        }\n    }\n    impl From<Vec<u16>> for "@ + name
        + " {\n        fn from(value: Vec<u16>) -> Self {\n            match value[0] {\n"@
        + arm_lines(name, variants) + "                _ => "@ + name
        + "::Unknown,\n            }\n        }\n    }\n"@
}

/// The text of a scaled numeric register.
pub open spec fn float_text(name: Seq<char>, reg: u16, gain: u32) -> Seq<char> {
    "    #[allow(unused)]\n    #[derive(Debug)]\n    pub struct "@ + name
        + "(f32);\n    impl ModbusRegister<Vec<u16>> for "@ + name
        + " {\n        fn reg() -> u16 {\n"@ + reg_line(reg)
        + "        }\n    }\n    impl From<Vec<u16>> for "@ + name
        + " {\n        fn from(value: Vec<u16>) -> Self {\n            "@ + name
        + "(value[0] as f32 * f32::from_bits("@ + decimal_text(gain as nat)
        + "u32))\n        }\n    }\n"@
}

/// The text of a signed or of an unsigned register: `word` is the type of its
/// value, `i16` or `u16`.
pub open spec fn integer_text(name: Seq<char>, reg: u16, word: Seq<char>) -> Seq<char> {
    "    #[allow(unused)]\n    #[derive(Debug)]\n    pub struct "@ + name + "("@ + word
        + ");\n    impl "@ + name + " {\n        pub fn reg() -> u16 {\n"@ + reg_line(reg)
        + "        }\n    }\n    impl From<Vec<u16>> for "@ + name
        + " {\n        fn from(value: Vec<u16>) -> Self {\n            "@ + name
        + "(super::register_to_"@ + word + "(value))\n        }\n    }\n"@
}

/// The text of a coil or of a discrete input.
pub open spec fn boolean_text(
    name: Seq<char>,
    reg: u16,
    true_label: Seq<char>,
    false_label: Seq<char>,
) -> Seq<char> {
    "    pub struct "@ + name + "(bool);\n    impl From<Vec<bool>> for "@ + name
        + " {\n        fn from(value: Vec<bool>) -> Self {\n            "@ + name
        + "(value[0])\n        }\n    }\n    impl ModbusRegister<Vec<bool>> for "@ + name
        + " {\n        fn reg() -> u16 {\n"@ + reg_line(reg) + "        }\n    }\n    impl "@
        + name + " {\n        fn as_str(&self) -> &str {\n            if self.0 {\n                "@
        + string_literal(true_label) + "\n            } else {\n                "@
        + string_literal(false_label)
        + "\n            }\n        }\n    }\n    impl fmt::Display for "@ + name
        + " {\n        fn fmt(&self, f: &mut fmt::Formatter<'_>) -> fmt::Result {\n            f.write_str(self.as_str())\n        }\n    }\n"@
}

/// The text of one register.
pub open spec fn descriptor_text(d: DescriptorView) -> Seq<char> {
    match d.decoder {
        DecoderView::Enum { variants } => enum_text(d.name, d.reg, variants),
        DecoderView::Float { gain } => float_text(d.name, d.reg, gain),
        DecoderView::Signed => integer_text(d.name, d.reg, "i16"@),
        DecoderView::Unsigned => integer_text(d.name, d.reg, "u16"@),
        DecoderView::Boolean { true_label, false_label } => boolean_text(
            d.name,
            d.reg,
            true_label,
            false_label,
        ),
    }
}

/// The texts of a list of registers, one after the other.
pub open spec fn descriptor_texts(descriptors: Seq<DescriptorView>) -> Seq<char> {
    descriptors.map_values(|d: DescriptorView| descriptor_text(d)).flatten()
}

/// The text that every artifact begins with: the codec functions and the
/// trait of the registers.
pub open spec fn preamble() -> Seq<char> {
    "pub fn register_to_bytes(register_data: Vec<u16>) -> Vec<u8> {\n    register_data.iter().flat_map(|&w| [(w >> 8) as u8, w as u8]).collect::<Vec<_>>()\n}\npub fn register_to_f32(data: Vec<u16>) -> f32 {\n    f32::from_be_bytes(register_to_bytes(data).try_into().unwrap())\n}\npub fn register_to_u16(data: Vec<u16>) -> u16 {\n    u16::from_be_bytes(register_to_bytes(data).try_into().unwrap())\n}\npub fn register_to_i16(data: Vec<u16>) -> i16 {\n    i16::from_be_bytes(register_to_bytes(data).try_into().unwrap())\n}\npub trait ModbusRegister<T>: From<T> {\n    fn reg() -> u16;\n}\n"@
}

/// The artifact: the text that a catalog is rendered to.
pub open spec fn artifact(c: CatalogView) -> Seq<char> {
    preamble() + "pub mod coil {\n    use std::fmt;\n    use crate::registers::ModbusRegister;\n"@
        + descriptor_texts(c.coil)
        + "}\npub mod discrete {\n    use std::fmt;\n    use crate::registers::ModbusRegister;\n"@
        + descriptor_texts(c.discrete)
        + "}\npub mod input {\n    use crate::registers::ModbusRegister;\n"@ + descriptor_texts(
        c.input,
    ) + "}\npub mod holding {\n    use crate::registers::ModbusRegister;\n"@ + descriptor_texts(
        c.holding,
    ) + "}\n"@
}

/// Appends a character as it is written inside a string literal.
pub fn push_escaped(out: &mut String, c: char)
    ensures
        final(out)@ == old(out)@ + escaped_char(c),
{
    let code: u32 = c as u32;
    if 0x20 <= code && code <= 0x7e && c != '"' && c != '\\' {
        out.push(c);
        proof {
            assert(out@ =~= old(out)@ + seq![c]);
        }
    } else if c == '"' {
        out.push('\\');
        out.push('"');
        proof {
            assert(out@ =~= old(out)@ + seq!['\\', '"']);
        }
    } else if c == '\\' {
        out.push('\\');
        out.push('\\');
        proof {
            assert(out@ =~= old(out)@ + seq!['\\', '\\']);
        }
    } else {
        out.push('\\');
        out.push('u');
        out.push('{');
        push_hex(out, code);
        out.push('}');
        proof {
            assert(out@ =~= old(out)@ + (seq!['\\', 'u', '{'] + hex_text(c as nat) + seq!['}']));
        }
    }
}

/// Appends a text as a string literal.
pub fn push_string_literal(out: &mut String, s: &str)
    ensures
        final(out)@ == old(out)@ + string_literal(s@),
{
    let chars = chars_of(s);
    out.push('"');
    let n: usize = chars.len();
    let mut i: usize = 0;
    let ghost start = out@;
    proof {
        lemma_flat_map_empty(chars@, |c: char| escaped_char(c));
        assert(start + Seq::<char>::empty() =~= start);
    }
    while i < n
        invariant
            n == chars@.len(),
            i <= n,
            out@ == start + chars@.take(i as int).map_values(|c: char| escaped_char(c)).flatten(),
        decreases n - i,
    {
        let ghost before = out@;
        push_escaped(out, chars[i]);
        proof {
            lemma_flat_map_step(chars@, |c: char| escaped_char(c), i as int);
            assert(before + escaped_char(chars@[i as int]) =~= start + (chars@.take(
                i as int,
            ).map_values(|c: char| escaped_char(c)).flatten() + escaped_char(chars@[i as int])));
        }
        i = i + 1;
    }
    out.push('"');
    proof {
        lemma_take_all(chars@);
        assert(out@ =~= old(out)@ + string_literal(s@));
    }
}

/// Appends the line that gives the address of a register.
fn push_reg_line(out: &mut String, reg: u16)
    ensures
        final(out)@ == old(out)@ + reg_line(reg),
{
    out.append("            ");
    push_decimal(out, reg as u64);
    out.append("u16\n");
    proof {
        assert(out@ =~= old(out)@ + reg_line(reg));
    }
}

/// Appends the lines that declare the variants of an enumeration.
fn push_variant_lines(out: &mut String, variants: &[EnumVariant])
    ensures
        final(out)@ == old(out)@ + variant_lines(variant_views(variants@)),
{
    let n: usize = variants.len();
    let mut i: usize = 0;
    let ghost views = variant_views(variants@);
    proof {
        lemma_flat_map_empty(views, |v: EnumVariantView| variant_line(v));
        assert(out@ + Seq::<char>::empty() =~= out@);
    }
    while i < n
        invariant
            n == variants@.len(),
            i <= n,
            views == variant_views(variants@),
            out@ == old(out)@ + variant_lines(views.take(i as int)),
        decreases n - i,
    {
        let ghost before = out@;
        out.append("        ");
        out.append(variants[i].name.as_str());
        out.append(",\n");
        proof {
            lemma_flat_map_step(views, |v: EnumVariantView| variant_line(v), i as int);
            assert(views[i as int] == variants@[i as int]@);
            assert(out@ =~= before + variant_line(views[i as int]));
            assert(before + variant_line(views[i as int]) =~= old(out)@ + (variant_lines(
                views.take(i as int),
            ) + variant_line(views[i as int])));
        }
        i = i + 1;
    }
    proof {
        lemma_take_all(views);
    }
}

/// Appends the match arms of an enumeration.
fn push_arm_lines(out: &mut String, name: &str, variants: &[EnumVariant])
    ensures
        final(out)@ == old(out)@ + arm_lines(name@, variant_views(variants@)),
{
    let n: usize = variants.len();
    let mut i: usize = 0;
    let ghost views = variant_views(variants@);
    proof {
        lemma_flat_map_empty(views, |v: EnumVariantView| arm_line(name@, v));
        assert(out@ + Seq::<char>::empty() =~= out@);
    }
    while i < n
        invariant
            n == variants@.len(),
            i <= n,
            views == variant_views(variants@),
            out@ == old(out)@ + arm_lines(name@, views.take(i as int)),
        decreases n - i,
    {
        let ghost before = out@;
        out.append("                ");
        push_decimal(out, variants[i].code as u64);
        out.append("u16 => ");
        out.append(name);
        out.append("::");
        out.append(variants[i].name.as_str());
        out.append(",\n");
        proof {
            lemma_flat_map_step(views, |v: EnumVariantView| arm_line(name@, v), i as int);
            assert(views[i as int] == variants@[i as int]@);
            assert(out@ =~= before + arm_line(name@, views[i as int]));
            assert(before + arm_line(name@, views[i as int]) =~= old(out)@ + (arm_lines(
                name@,
                views.take(i as int),
            ) + arm_line(name@, views[i as int])));
        }
        i = i + 1;
    }
    proof {
        lemma_take_all(views);
    }
}

/// Appends the text of an enumeration register.
pub fn push_enum(out: &mut String, name: &str, reg: u16, variants: &[EnumVariant])
    ensures
        final(out)@ == old(out)@ + enum_text(name@, reg, variant_views(variants@)),
{
    out.append("    #[derive(Debug)]\n    pub enum ");
    out.append(name);
    out.append(" {\n");
    push_variant_lines(out, variants);
    out.append("        Unknown,\n    }\n    impl ModbusRegister<Vec<u16>> for ");
    out.append(name);
    out.append(" {\n        fn reg() -> u16 {\n");
    push_reg_line(out, reg);
    out.append("        }\n    }\n    impl From<Vec<u16>> for ");
    out.append(name);
    out.append(
        " {\n        fn from(value: Vec<u16>) -> Self {\n            match value[0] {\n",
    );
    push_arm_lines(out, name, variants);
    out.append("                _ => ");
    out.append(name);
    out.append("::Unknown,\n            }\n        }\n    }\n");
    proof {
        assert(out@ =~= old(out)@ + enum_text(name@, reg, variant_views(variants@)));
    }
}

/// Appends the text of a scaled numeric register.
pub fn push_float(out: &mut String, name: &str, reg: u16, gain: u32)
    ensures
        final(out)@ == old(out)@ + float_text(name@, reg, gain),
{
    out.append("    #[allow(unused)]\n    #[derive(Debug)]\n    pub struct ");
    out.append(name);
    out.append("(f32);\n    impl ModbusRegister<Vec<u16>> for ");
    out.append(name);
    out.append(" {\n        fn reg() -> u16 {\n");
    push_reg_line(out, reg);
    out.append("        }\n    }\n    impl From<Vec<u16>> for ");
    out.append(name);
    out.append(" {\n        fn from(value: Vec<u16>) -> Self {\n            ");
    out.append(name);
    out.append("(value[0] as f32 * f32::from_bits(");
    push_decimal(out, gain as u64);
    out.append("u32))\n        }\n    }\n");
    proof {
        assert(out@ =~= old(out)@ + float_text(name@, reg, gain));
    }
}

/// Appends the text of a signed or of an unsigned register.
pub fn push_integer(out: &mut String, name: &str, reg: u16, word: &str)
    ensures
        final(out)@ == old(out)@ + integer_text(name@, reg, word@),
{
    out.append("    #[allow(unused)]\n    #[derive(Debug)]\n    pub struct ");
    out.append(name);
    out.append("(");
    out.append(word);
    out.append(");\n    impl ");
    out.append(name);
    out.append(" {\n        pub fn reg() -> u16 {\n");
    push_reg_line(out, reg);
    out.append("        }\n    }\n    impl From<Vec<u16>> for ");
    out.append(name);
    out.append(" {\n        fn from(value: Vec<u16>) -> Self {\n            ");
    out.append(name);
    out.append("(super::register_to_");
    out.append(word);
    out.append("(value))\n        }\n    }\n");
    proof {
        assert(out@ =~= old(out)@ + integer_text(name@, reg, word@));
    }
}

/// Appends the text of a coil or of a discrete input.
pub fn push_boolean(out: &mut String, name: &str, reg: u16, true_label: &str, false_label: &str)
    ensures
        final(out)@ == old(out)@ + boolean_text(name@, reg, true_label@, false_label@),
{
    out.append("    pub struct ");
    out.append(name);
    out.append("(bool);\n    impl From<Vec<bool>> for ");
    out.append(name);
    out.append(" {\n        fn from(value: Vec<bool>) -> Self {\n            ");
    out.append(name);
    out.append("(value[0])\n        }\n    }\n    impl ModbusRegister<Vec<bool>> for ");
    out.append(name);
    out.append(" {\n        fn reg() -> u16 {\n");
    push_reg_line(out, reg);
    out.append("        }\n    }\n    impl ");
    out.append(name);
    out.append(
        " {\n        fn as_str(&self) -> &str {\n            if self.0 {\n                ",
    );
    push_string_literal(out, true_label);
    out.append("\n            } else {\n                ");
    push_string_literal(out, false_label);
    out.append("\n            }\n        }\n    }\n    impl fmt::Display for ");
    out.append(name);
    out.append(
        " {\n        fn fmt(&self, f: &mut fmt::Formatter<'_>) -> fmt::Result {\n            f.write_str(self.as_str())\n        }\n    }\n",
    );
    proof {
        assert(out@ =~= old(out)@ + boolean_text(name@, reg, true_label@, false_label@));
    }
}

/// Appends the text of one register.
pub fn push_descriptor(out: &mut String, d: &Descriptor)
    ensures
        final(out)@ == old(out)@ + descriptor_text(d@),
{
    match &d.decoder {
        Decoder::Enum { variants } => push_enum(out, d.name.as_str(), d.reg, variants.as_slice()),
        Decoder::Float { gain } => push_float(out, d.name.as_str(), d.reg, *gain),
        Decoder::Signed => push_integer(out, d.name.as_str(), d.reg, "i16"),
        Decoder::Unsigned => push_integer(out, d.name.as_str(), d.reg, "u16"),
        Decoder::Boolean { true_label, false_label } => push_boolean(
            out,
            d.name.as_str(),
            d.reg,
            true_label.as_str(),
            false_label.as_str(),
        ),
    }
}

/// Appends the texts of a list of registers.
pub fn push_descriptors(out: &mut String, descriptors: &[Descriptor])
    ensures
        final(out)@ == old(out)@ + descriptor_texts(descriptor_views(descriptors@)),
{
    let n: usize = descriptors.len();
    let mut i: usize = 0;
    let ghost views = descriptor_views(descriptors@);
    proof {
        lemma_flat_map_empty(views, |d: DescriptorView| descriptor_text(d));
        assert(out@ + Seq::<char>::empty() =~= out@);
    }
    while i < n
        invariant
            n == descriptors@.len(),
            i <= n,
            views == descriptor_views(descriptors@),
            out@ == old(out)@ + descriptor_texts(views.take(i as int)),
        decreases n - i,
    {
        let ghost before = out@;
        push_descriptor(out, &descriptors[i]);
        proof {
            lemma_flat_map_step(views, |d: DescriptorView| descriptor_text(d), i as int);
            assert(views[i as int] == descriptors@[i as int]@);
            assert(before + descriptor_text(views[i as int]) =~= old(out)@ + (descriptor_texts(
                views.take(i as int),
            ) + descriptor_text(views[i as int])));
        }
        i = i + 1;
    }
    proof {
        lemma_take_all(views);
    }
}

/// Renders a catalog as the source text of a Rust module.
pub fn emit(catalog: &Catalog) -> (text: String)
    ensures
        text@ == artifact(catalog@),
{
    let mut out = String::new();
    out.append(
        "pub fn register_to_bytes(register_data: Vec<u16>) -> Vec<u8> {\n    register_data.iter().flat_map(|&w| [(w >> 8) as u8, w as u8]).collect::<Vec<_>>()\n}\npub fn register_to_f32(data: Vec<u16>) -> f32 {\n    f32::from_be_bytes(register_to_bytes(data).try_into().unwrap())\n}\npub fn register_to_u16(data: Vec<u16>) -> u16 {\n    u16::from_be_bytes(register_to_bytes(data).try_into().unwrap())\n}\npub fn register_to_i16(data: Vec<u16>) -> i16 {\n    i16::from_be_bytes(register_to_bytes(data).try_into().unwrap())\n}\npub trait ModbusRegister<T>: From<T> {\n    fn reg() -> u16;\n}\n",
    );
    out.append(
        "pub mod coil {\n    use std::fmt;\n    use crate::registers::ModbusRegister;\n",
    );
    push_descriptors(&mut out, catalog.coil.as_slice());
    out.append(
        "}\npub mod discrete {\n    use std::fmt;\n    use crate::registers::ModbusRegister;\n",
    );
    push_descriptors(&mut out, catalog.discrete.as_slice());
    out.append("}\npub mod input {\n    use crate::registers::ModbusRegister;\n");
    push_descriptors(&mut out, catalog.input.as_slice());
    out.append("}\npub mod holding {\n    use crate::registers::ModbusRegister;\n");
    push_descriptors(&mut out, catalog.holding.as_slice());
    out.append("}\n");
    proof {
        assert(out@ =~= artifact(catalog@));
    }
    out
}

/// Emission is a function of the schema: schemas that stand for the same
/// document are rendered to the same text, character for character.
pub proof fn lemma_artifact_deterministic(a: Registers, b: Registers)
    requires
        a@ == b@,
    ensures
        artifact(catalog_of(a@)) == artifact(catalog_of(b@)),
{
}

} // verus!
