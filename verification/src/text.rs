//! Text helpers: characters of a string, and strings built from characters.

use vstd::prelude::*;

verus! {

/// Specification of `String::push`: the character is appended to the string.
pub assume_specification[ String::push ](s: &mut String, c: char)
    ensures
        final(s)@ == old(s)@.push(c),
;

/// Specification of `==` on `str`: two strings are equal when they hold the
/// same characters.
pub assume_specification[ <str as PartialEq>::eq ](a: &str, b: &str) -> (same: bool)
    ensures
        same == (a@ == b@),
;

/// The text of an optional string.
pub open spec fn option_text(s: Option<String>) -> Option<Seq<char>> {
    match s {
        Some(t) => Some(t@),
        None => None,
    }
}

/// The texts of a list of strings.
pub open spec fn texts(strings: Seq<String>) -> Seq<Seq<char>> {
    strings.map_values(|s: String| s@)
}

/// The characters of a string, in order.
pub fn chars_of(s: &str) -> (chars: Vec<char>)
    ensures
        chars@ == s@,
{
    let mut chars: Vec<char> = Vec::new();
    for c in it: s.chars()
        invariant
            it.seq() == s@,
            chars@ == s@.take(it.index()),
    {
        proof {
            assert(s@.take(it.index()).push(c) =~= s@.take(it.index() + 1));
        }
        chars.push(c);
    }
    proof {
        assert(s@.take(s@.len() as int) =~= s@);
    }
    chars
}

/// The character of a decimal digit.
pub open spec fn digit_char(d: int) -> char {
    if d == 0 {
        '0'
    } else if d == 1 {
        '1'
    } else if d == 2 {
        '2'
    } else if d == 3 {
        '3'
    } else if d == 4 {
        '4'
    } else if d == 5 {
        '5'
    } else if d == 6 {
        '6'
    } else if d == 7 {
        '7'
    } else if d == 8 {
        '8'
    } else {
        '9'
    }
}

/// A number written in decimal, without leading zeros.
pub open spec fn decimal_text(n: nat) -> Seq<char>
    decreases n,
{
    if n < 10 {
        seq![digit_char(n as int)]
    } else {
        decimal_text(n / 10).push(digit_char((n % 10) as int))
    }
}

/// The character of a decimal digit.
pub fn decimal_digit(d: u64) -> (c: char)
    requires
        d < 10,
    ensures
        c == digit_char(d as int),
{
    if d == 0 {
        '0'
    } else if d == 1 {
        '1'
    } else if d == 2 {
        '2'
    } else if d == 3 {
        '3'
    } else if d == 4 {
        '4'
    } else if d == 5 {
        '5'
    } else if d == 6 {
        '6'
    } else if d == 7 {
        '7'
    } else if d == 8 {
        '8'
    } else {
        '9'
    }
}

/// Appends a number in decimal.
pub fn push_decimal(out: &mut String, n: u64)
    ensures
        final(out)@ == old(out)@ + decimal_text(n as nat),
    decreases n,
{
    if n >= 10 {
        push_decimal(out, n / 10);
    }
    let ghost before = out@;
    out.push(decimal_digit(n % 10));
    proof {
        if n >= 10 {
            assert(before.push(digit_char((n % 10) as int)) =~= old(out)@ + decimal_text(
                (n / 10) as nat,
            ).push(digit_char((n % 10) as int)));
        } else {
            assert(before.push(digit_char(n as int)) =~= old(out)@ + seq![digit_char(n as int)]);
        }
    }
}

/// A number written in decimal.
pub fn decimal_string(n: u64) -> (s: String)
    ensures
        s@ == decimal_text(n as nat),
{
    let mut s = String::new();
    push_decimal(&mut s, n);
    proof {
        assert(Seq::<char>::empty() + decimal_text(n as nat) =~= decimal_text(n as nat));
    }
    s
}

/// The character of a hexadecimal digit, in lower case.
pub open spec fn hex_char(d: int) -> char {
    if d < 10 {
        digit_char(d)
    } else if d == 10 {
        'a'
    } else if d == 11 {
        'b'
    } else if d == 12 {
        'c'
    } else if d == 13 {
        'd'
    } else if d == 14 {
        'e'
    } else {
        'f'
    }
}

/// A number written in hexadecimal, in lower case, without leading zeros.
pub open spec fn hex_text(n: nat) -> Seq<char>
    decreases n,
{
    if n < 16 {
        seq![hex_char(n as int)]
    } else {
        hex_text(n / 16).push(hex_char((n % 16) as int))
    }
}

/// A number written in hexadecimal, in lower case, with zeros before it where
/// it has fewer than `width` digits.
pub open spec fn padded_hex_text(n: nat, width: nat) -> Seq<char> {
    if hex_text(n).len() >= width {
        hex_text(n)
    } else {
        Seq::new((width - hex_text(n).len()) as nat, |i: int| '0') + hex_text(n)
    }
}

/// The character of a hexadecimal digit.
pub fn hex_digit(d: u32) -> (c: char)
    requires
        d < 16,
    ensures
        c == hex_char(d as int),
{
    if d < 10 {
        decimal_digit(d as u64)
    } else if d == 10 {
        'a'
    } else if d == 11 {
        'b'
    } else if d == 12 {
        'c'
    } else if d == 13 {
        'd'
    } else if d == 14 {
        'e'
    } else {
        'f'
    }
}

/// The hexadecimal digits of a number.
pub fn hex_digits(n: u32) -> (digits: Vec<char>)
    ensures
        digits@ == hex_text(n as nat),
    decreases n,
{
    if n >= 16 {
        let mut digits = hex_digits(n / 16);
        digits.push(hex_digit(n % 16));
        digits
    } else {
        let mut digits: Vec<char> = Vec::new();
        digits.push(hex_digit(n));
        proof {
            assert(digits@ =~= seq![hex_char(n as int)]);
        }
        digits
    }
}

/// Appends the given characters.
pub fn push_chars(out: &mut String, chars: &[char])
    ensures
        final(out)@ == old(out)@ + chars@,
{
    let n: usize = chars.len();
    let mut i: usize = 0;
    proof {
        assert(out@ + chars@.take(0) =~= out@);
    }
    while i < n
        invariant
            n == chars@.len(),
            i <= n,
            out@ == old(out)@ + chars@.take(i as int),
        decreases n - i,
    {
        proof {
            assert((old(out)@ + chars@.take(i as int)).push(chars@[i as int]) =~= old(out)@
                + chars@.take(i + 1));
        }
        out.push(chars[i]);
        i = i + 1;
    }
    proof {
        assert(chars@.take(n as int) =~= chars@);
    }
}

/// Appends a number in hexadecimal.
pub fn push_hex(out: &mut String, n: u32)
    ensures
        final(out)@ == old(out)@ + hex_text(n as nat),
{
    let digits = hex_digits(n);
    push_chars(out, digits.as_slice());
}

/// Appends a number in hexadecimal, with zeros before it where it has fewer
/// than `width` digits.
pub fn push_padded_hex(out: &mut String, n: u32, width: usize)
    ensures
        final(out)@ == old(out)@ + padded_hex_text(n as nat, width as nat),
{
    let digits = hex_digits(n);
    let mut k: usize = digits.len();
    let ghost zeros = Seq::new((width - digits@.len()) as nat, |i: int| '0');
    proof {
        assert(out@ + Seq::<char>::empty() =~= out@);
    }
    while k < width
        invariant
            digits@.len() <= k,
            k <= width || k == digits@.len(),
            out@ == old(out)@ + Seq::new((k - digits@.len()) as nat, |i: int| '0'),
        decreases width - k,
    {
        proof {
            assert((old(out)@ + Seq::new((k - digits@.len()) as nat, |i: int| '0')).push('0')
                =~= old(out)@ + Seq::new((k + 1 - digits@.len()) as nat, |i: int| '0'));
        }
        out.push('0');
        k = k + 1;
    }
    let ghost before = out@;
    push_chars(out, digits.as_slice());
    proof {
        if digits@.len() >= width {
            assert(before =~= old(out)@);
        } else {
            assert(out@ =~= old(out)@ + (zeros + digits@));
        }
    }
}

/// The concatenation of two strings.
pub fn concat2(a: &str, b: &str) -> (s: String)
    ensures
        s@ == a@ + b@,
{
    let mut s = String::new();
    s.append(a);
    s.append(b);
    proof {
        assert(s@ =~= a@ + b@);
    }
    s
}

/// The concatenation of three strings.
pub fn concat3(a: &str, b: &str, c: &str) -> (s: String)
    ensures
        s@ == a@ + b@ + c@,
{
    let mut s = String::new();
    s.append(a);
    s.append(b);
    s.append(c);
    proof {
        assert(s@ =~= a@ + b@ + c@);
    }
    s
}

/// A copy of a list of string slices as owned strings.
pub fn owned_strings(items: &[&str]) -> (owned: Vec<String>)
    ensures
        texts(owned@) == items@.map_values(|s: &str| s@),
{
    let mut owned: Vec<String> = Vec::new();
    let n: usize = items.len();
    let mut i: usize = 0;
    let ghost wanted = items@.map_values(|s: &str| s@);
    proof {
        assert(texts(owned@) =~= wanted.take(0));
    }
    while i < n
        invariant
            n == items@.len(),
            i <= n,
            wanted == items@.map_values(|s: &str| s@),
            texts(owned@) == wanted.take(i as int),
        decreases n - i,
    {
        let item = String::from_str(items[i]);
        proof {
            assert(texts(owned@.push(item)) =~= texts(owned@).push(item@));
            assert(wanted.take(i as int).push(wanted[i as int]) =~= wanted.take(i + 1));
        }
        owned.push(item);
        i = i + 1;
    }
    proof {
        assert(wanted.take(n as int) =~= wanted);
    }
    owned
}

/// The string made of the given characters, in order.
pub fn string_of(chars: &[char]) -> (s: String)
    ensures
        s@ == chars@,
{
    let mut s = String::new();
    let n: usize = chars.len();
    let mut i: usize = 0;
    while i < n
        invariant
            n == chars@.len(),
            i <= n,
            s@ == chars@.take(i as int),
        decreases n - i,
    {
        proof {
            assert(chars@.take(i as int).push(chars@[i as int]) =~= chars@.take(i + 1));
        }
        s.push(chars[i]);
        i = i + 1;
    }
    proof {
        assert(chars@.take(n as int) =~= chars@);
    }
    s
}

} // verus!
