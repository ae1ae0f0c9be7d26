//! The plain forwarding of readings to MQTT: each reading is published under
//! the kind and the address of its register, as raw bytes.

use vstd::prelude::*;
use crate::text::{padded_hex_text, push_padded_hex};
use crate::Register;

verus! {

/// The bytes of a list of words, each word low byte first.
pub open spec fn words_le_bytes(words: Seq<u16>) -> Seq<u8> {
    Seq::new(
        2 * words.len(),
        |i: int|
            if i % 2 == 0 {
                (words[i / 2] % 256) as u8
            } else {
                (words[i / 2] / 256) as u8
            },
    )
}

/// The byte of a boolean: one for true, zero for false.
pub open spec fn bool_byte(b: bool) -> u8 {
    if b {
        1
    } else {
        0
    }
}

/// The topic of a reading: the kind of its register, a slash, and the address
/// in hexadecimal, with three digits at least.
pub open spec fn reading_topic(reg: Register) -> Seq<char> {
    match reg {
        Register::Coil(r) => "coils/"@ + padded_hex_text(r.0 as nat, 3),
        Register::Discrete(r) => "discrete/"@ + padded_hex_text(r.0 as nat, 3),
        Register::Holding(r) => "holding/"@ + padded_hex_text(r.0 as nat, 3),
        Register::Input(r) => "input/"@ + padded_hex_text(r.0 as nat, 3),
    }
}

/// The payload of a reading: one byte for a boolean, and the words of a word
/// reading, each low byte first.
pub open spec fn reading_payload(reg: Register) -> Seq<u8> {
    match reg {
        Register::Coil(r) => seq![bool_byte(r.1)],
        Register::Discrete(r) => seq![bool_byte(r.1)],
        Register::Holding(r) => words_le_bytes(r.1@),
        Register::Input(r) => words_le_bytes(r.1@),
    }
}

/// Flattens each word into two bytes, low byte first.
pub fn le_bytes(words: &[u16]) -> (bytes: Vec<u8>)
    ensures
        bytes@ == words_le_bytes(words@),
{
    let mut bytes: Vec<u8> = Vec::new();
    let n: usize = words.len();
    let mut i: usize = 0;
    proof {
        assert(bytes@ =~= words_le_bytes(words@.take(0)));
    }
    while i < n
        invariant
            n == words@.len(),
            i <= n,
            bytes@ == words_le_bytes(words@.take(i as int)),
        decreases n - i,
    {
        let w: u16 = words[i];
        let lo: u8 = (w & 0xff) as u8;
        let hi: u8 = (w >> 8) as u8;
        proof {
            assert(w >> 8 == w / 256) by (bit_vector);
            assert(w & 0xff == w % 256) by (bit_vector);
            let before = words_le_bytes(words@.take(i as int));
            let after = words_le_bytes(words@.take(i + 1));
            assert(after.len() == before.len() + 2);
            assert forall|k: int| 0 <= k < after.len() implies after[k] == before.push(lo).push(
                hi,
            )[k] by {
                if k < 2 * i {
                    assert(words@.take(i + 1)[k / 2] == words@.take(i as int)[k / 2]);
                } else {
                    assert(k / 2 == i);
                    assert(words@.take(i + 1)[k / 2] == w);
                }
            }
            assert(after =~= before.push(lo).push(hi));
        }
        bytes.push(lo);
        bytes.push(hi);
        i = i + 1;
    }
    proof {
        assert(words@.take(n as int) =~= words@);
    }
    bytes
}

/// The topic and the payload under which a reading is published.
pub fn publication(reg: &Register) -> (message: (String, Vec<u8>))
    ensures
        message.0@ == reading_topic(*reg),
        message.1@ == reading_payload(*reg),
{
    match reg {
        Register::Coil(r) => {
            let mut topic = String::from_str("coils/");
            push_padded_hex(&mut topic, r.0 as u32, 3);
            let mut payload: Vec<u8> = Vec::new();
            payload.push(if r.1 { 1u8 } else { 0u8 });
            proof {
                assert(payload@ =~= seq![bool_byte(r.1)]);
            }
            (topic, payload)
        },
        Register::Discrete(r) => {
            let mut topic = String::from_str("discrete/");
            push_padded_hex(&mut topic, r.0 as u32, 3);
            let mut payload: Vec<u8> = Vec::new();
            payload.push(if r.1 { 1u8 } else { 0u8 });
            proof {
                assert(payload@ =~= seq![bool_byte(r.1)]);
            }
            (topic, payload)
        },
        Register::Holding(r) => {
            let mut topic = String::from_str("holding/");
            push_padded_hex(&mut topic, r.0 as u32, 3);
            (topic, le_bytes(r.1.as_slice()))
        },
        Register::Input(r) => {
            let mut topic = String::from_str("input/");
            push_padded_hex(&mut topic, r.0 as u32, 3);
            (topic, le_bytes(r.1.as_slice()))
        },
    }
}

} // verus!
