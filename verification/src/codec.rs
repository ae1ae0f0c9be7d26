//! Numeric codec shared by the register descriptors: big-endian packing of
//! 16-bit words into bytes, and reinterpretation of byte groups as integers.

use vstd::prelude::*;

verus! {

/// The two bytes of a word, high byte first.
pub open spec fn word_bytes(w: u16) -> Seq<u8> {
    seq![(w / 256) as u8, (w % 256) as u8]
}

/// Every word flattened into two bytes, high byte first, in word order.
pub open spec fn words_to_bytes(words: Seq<u16>) -> Seq<u8> {
    Seq::new(
        2 * words.len(),
        |i: int|
            if i % 2 == 0 {
                (words[i / 2] / 256) as u8
            } else {
                (words[i / 2] % 256) as u8
            },
    )
}

/// The unsigned 16-bit integer that two big-endian bytes spell.
pub open spec fn be_u16(bytes: Seq<u8>) -> int
    recommends
        bytes.len() == 2,
{
    bytes[0] * 256 + bytes[1]
}

/// The two's-complement 16-bit integer that two big-endian bytes spell.
pub open spec fn be_i16(bytes: Seq<u8>) -> int
    recommends
        bytes.len() == 2,
{
    if be_u16(bytes) >= 32768 {
        be_u16(bytes) - 65536
    } else {
        be_u16(bytes)
    }
}

/// The 32-bit pattern that four big-endian bytes spell. Read as IEEE-754
/// binary32, it is the floating-point value that the bytes encode.
pub open spec fn be_u32(bytes: Seq<u8>) -> int
    recommends
        bytes.len() == 4,
{
    bytes[0] * 16777216 + bytes[1] * 65536 + bytes[2] * 256 + bytes[3]
}

/// The signed reading of one word: its bit pattern taken as two's complement.
pub open spec fn word_as_signed(w: u16) -> int {
    if w >= 32768 {
        w - 65536
    } else {
        w as int
    }
}

/// Appending one word appends its two bytes.
pub proof fn lemma_words_to_bytes_push(words: Seq<u16>, w: u16)
    ensures
        words_to_bytes(words.push(w)) == words_to_bytes(words) + word_bytes(w),
{
    let a = words_to_bytes(words.push(w));
    let b = words_to_bytes(words) + word_bytes(w);
    assert(a.len() == b.len());
    assert forall|i: int| 0 <= i < a.len() implies a[i] == b[i] by {
        if i < 2 * words.len() {
            assert(words.push(w)[i / 2] == words[i / 2]);
        } else {
            assert(i / 2 == words.len());
            assert(words.push(w)[i / 2] == w);
        }
    }
    assert(a =~= b);
}

/// Packing and reading back one word gives the word itself.
pub proof fn lemma_word_round_trip(w: u16)
    ensures
        be_u16(words_to_bytes(seq![w])) == w,
        be_i16(words_to_bytes(seq![w])) == word_as_signed(w),
{
    let bytes = words_to_bytes(seq![w]);
    assert(bytes[0] == (w / 256) as u8);
    assert(bytes[1] == (w % 256) as u8);
}

/// Flattens each word into two bytes, high byte first, preserving word order.
pub fn register_to_bytes(register_data: &[u16]) -> (bytes: Vec<u8>)
    ensures
        bytes@ == words_to_bytes(register_data@),
{
    let mut bytes: Vec<u8> = Vec::new();
    let n: usize = register_data.len();
    let mut i: usize = 0;
    while i < n
        invariant
            n == register_data@.len(),
            i <= n,
            bytes@ == words_to_bytes(register_data@.take(i as int)),
        decreases n - i,
    {
        let w: u16 = register_data[i];
        let hi: u8 = (w >> 8) as u8;
        let lo: u8 = (w & 0xff) as u8;
        proof {
            assert(w >> 8 == w / 256) by (bit_vector);
            assert(w & 0xff == w % 256) by (bit_vector);
            lemma_words_to_bytes_push(register_data@.take(i as int), w);
            assert(register_data@.take(i as int).push(w) =~= register_data@.take(i + 1));
            assert(word_bytes(w) =~= seq![hi, lo]);
            assert(bytes@.push(hi).push(lo) =~= bytes@ + seq![hi, lo]);
        }
        bytes.push(hi);
        bytes.push(lo);
        i = i + 1;
    }
    proof {
        assert(register_data@.take(n as int) =~= register_data@);
    }
    bytes
}

/// Reinterprets exactly two bytes as an unsigned 16-bit integer, big-endian.
pub fn bytes_to_u16(bytes: &[u8]) -> (value: u16)
    requires
        bytes@.len() == 2,
    ensures
        value == be_u16(bytes@),
{
    let hi: u16 = bytes[0] as u16;
    let lo: u16 = bytes[1] as u16;
    hi * 256 + lo
}

/// Reinterprets exactly two bytes as a two's-complement 16-bit integer,
/// big-endian.
pub fn bytes_to_i16(bytes: &[u8]) -> (value: i16)
    requires
        bytes@.len() == 2,
    ensures
        value == be_i16(bytes@),
{
    let u: u16 = bytes_to_u16(bytes);
    if u >= 32768 {
        let below: u16 = u - 32768;
        (below as i16) - 32767 - 1
    } else {
        u as i16
    }
}

/// Reinterprets exactly four bytes as a 32-bit pattern, big-endian: the bits of
/// the IEEE-754 binary32 value that the bytes encode.
pub fn bytes_to_f32_bits(bytes: &[u8]) -> (bits: u32)
    requires
        bytes@.len() == 4,
    ensures
        bits == be_u32(bytes@),
{
    let b0: u32 = bytes[0] as u32;
    let b1: u32 = bytes[1] as u32;
    let b2: u32 = bytes[2] as u32;
    let b3: u32 = bytes[3] as u32;
    b0 * 16777216 + b1 * 65536 + b2 * 256 + b3
}

/// Decodes one register word as an unsigned 16-bit integer.
pub fn register_to_u16(data: &[u16]) -> (value: u16)
    requires
        data@.len() == 1,
    ensures
        value == be_u16(words_to_bytes(data@)),
        value == data@[0],
{
    let bytes = register_to_bytes(data);
    proof {
        lemma_word_round_trip(data@[0]);
        assert(data@ =~= seq![data@[0]]);
    }
    bytes_to_u16(bytes.as_slice())
}

/// Decodes one register word as a two's-complement 16-bit integer.
pub fn register_to_i16(data: &[u16]) -> (value: i16)
    requires
        data@.len() == 1,
    ensures
        value == be_i16(words_to_bytes(data@)),
        value == word_as_signed(data@[0]),
{
    let bytes = register_to_bytes(data);
    proof {
        lemma_word_round_trip(data@[0]);
        assert(data@ =~= seq![data@[0]]);
    }
    bytes_to_i16(bytes.as_slice())
}

/// Decodes two consecutive register words as the bit pattern of an IEEE-754
/// binary32 value, first word most significant.
pub fn register_to_f32_bits(data: &[u16]) -> (bits: u32)
    requires
        data@.len() == 2,
    ensures
        bits == be_u32(words_to_bytes(data@)),
        bits == data@[0] * 65536 + data@[1],
{
    let bytes = register_to_bytes(data);
    proof {
        let b = words_to_bytes(data@);
        assert(b[0] == (data@[0] / 256) as u8);
        assert(b[1] == (data@[0] % 256) as u8);
        assert(b[2] == (data@[1] / 256) as u8);
        assert(b[3] == (data@[1] % 256) as u8);
    }
    bytes_to_f32_bits(bytes.as_slice())
}

} // verus!
