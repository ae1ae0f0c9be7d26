//! Identifier synthesis: turns the free-text description of a register into
//! the name of its type.
//!
//! The description is split into whitespace-delimited words. In each word every
//! character that is not alphanumeric becomes an underscore, and the first
//! character of the word is put in upper case. The words are concatenated and
//! every underscore is dropped.

use vstd::prelude::*;
use crate::text::{chars_of, string_of};

verus! {

/// Whether a character is alphanumeric, as `char::is_alphanumeric` tells it.
pub uninterp spec fn alphanumeric(c: char) -> bool;

/// Whether a character is white space, as `char::is_whitespace` tells it.
pub uninterp spec fn whitespace(c: char) -> bool;

/// The upper-case form of a character, as `char::to_uppercase` yields it. It
/// may hold more than one character.
pub uninterp spec fn uppercase(c: char) -> Seq<char>;

/// Specification of `char::is_alphanumeric`: the answer depends on the
/// character alone, and `alphanumeric` names it.
pub assume_specification[ char::is_alphanumeric ](c: char) -> (b: bool)
    ensures
        b == alphanumeric(c),
;

/// Specification of `char::is_whitespace`: the answer depends on the character
/// alone, and `whitespace` names it.
pub assume_specification[ char::is_whitespace ](c: char) -> (b: bool)
    ensures
        b == whitespace(c),
;

/// Calls `char::to_uppercase` and collects the characters it yields. They
/// depend on the character alone, and `uppercase` names them.
#[verifier::external_body]
fn to_uppercase(c: char) -> (upper: Vec<char>)
    ensures
        upper@ == uppercase(c),
{
    c.to_uppercase().collect()
}

/// The length of the longest prefix that holds no white space.
pub open spec fn word_len(s: Seq<char>) -> nat
    decreases s.len(),
{
    if s.len() == 0 || whitespace(s[0]) {
        0
    } else {
        1 + word_len(s.skip(1))
    }
}

/// The first word of a text that does not start with white space is not
/// empty, and no longer than the text.
pub proof fn lemma_word_len_bounds(s: Seq<char>)
    ensures
        word_len(s) <= s.len(),
        s.len() > 0 && !whitespace(s[0]) ==> word_len(s) >= 1,
    decreases s.len(),
{
    if s.len() > 0 && !whitespace(s[0]) {
        lemma_word_len_bounds(s.skip(1));
    }
}

/// The whitespace-delimited words of a text, in order: its maximal runs of
/// characters that are not white space.
pub open spec fn split_words(s: Seq<char>) -> Seq<Seq<char>>
    decreases s.len(),
{
    if s.len() == 0 {
        Seq::empty()
    } else if whitespace(s[0]) {
        split_words(s.skip(1))
    } else {
        proof {
            lemma_word_len_bounds(s);
        }
        seq![s.take(word_len(s) as int)] + split_words(s.skip(word_len(s) as int))
    }
}

/// A word with every character that is not alphanumeric replaced by an
/// underscore.
pub open spec fn sanitized_word(word: Seq<char>) -> Seq<char> {
    word.map_values(
        |c: char|
            if alphanumeric(c) {
                c
            } else {
                '_'
            },
    )
}

/// A word with its first character put in upper case, the rest unchanged.
pub open spec fn capitalized(word: Seq<char>) -> Seq<char> {
    if word.len() == 0 {
        word
    } else {
        uppercase(word[0]) + word.skip(1)
    }
}

/// What one word contributes to the identifier, before underscores are dropped.
pub open spec fn word_fragment(word: Seq<char>) -> Seq<char> {
    capitalized(sanitized_word(word))
}

/// The test that keeps every character but the underscore.
pub open spec fn not_underscore() -> spec_fn(char) -> bool {
    |c: char| c != '_'
}

/// A sequence of characters without its underscores.
pub open spec fn without_underscores(s: Seq<char>) -> Seq<char> {
    s.filter(not_underscore())
}

/// The identifier synthesized from a description.
pub open spec fn identifier(description: Seq<char>) -> Seq<char> {
    without_underscores(split_words(description).map_values(|w: Seq<char>| word_fragment(w)).flatten())
}

/// The views of a list of words.
pub open spec fn word_views(words: Seq<Vec<char>>) -> Seq<Seq<char>> {
    words.map_values(|w: Vec<char>| w@)
}

/// A prefix of `k` characters without white space, which ends the text or is
/// followed by white space, is the first word.
proof fn lemma_word_len(s: Seq<char>, k: int)
    requires
        0 <= k <= s.len(),
        forall|m: int| 0 <= m < k ==> !whitespace(#[trigger] s[m]),
        k == s.len() || whitespace(s[k]),
    ensures
        word_len(s) == k,
    decreases k,
{
    if k > 0 {
        let t = s.skip(1);
        assert forall|m: int| 0 <= m < k - 1 implies !whitespace(#[trigger] t[m]) by {
            assert(t[m] == s[m + 1]);
        }
        lemma_word_len(t, k - 1);
    }
}

/// The word at the head of a text that does not start with white space is
/// followed by the words of the rest.
proof fn lemma_split_words_head(s: Seq<char>, k: int)
    requires
        0 < k <= s.len(),
        forall|m: int| 0 <= m < k ==> !whitespace(#[trigger] s[m]),
        k == s.len() || whitespace(s[k]),
    ensures
        split_words(s) == seq![s.take(k)] + split_words(s.skip(k)),
{
    lemma_word_len(s, k);
    assert(!whitespace(s[0]));
}

/// Splits a text into its whitespace-delimited words.
pub fn split_whitespace(chars: &[char]) -> (words: Vec<Vec<char>>)
    ensures
        word_views(words@) == split_words(chars@),
{
    let n: usize = chars.len();
    let mut words: Vec<Vec<char>> = Vec::new();
    let mut i: usize = 0;
    proof {
        assert(chars@.skip(0) =~= chars@);
        assert(word_views(words@) + split_words(chars@) =~= split_words(chars@));
    }
    while i < n
        invariant
            n == chars@.len(),
            i <= n,
            word_views(words@) + split_words(chars@.skip(i as int)) == split_words(chars@),
        decreases n - i,
    {
        if chars[i].is_whitespace() {
            proof {
                assert(chars@.skip(i as int).skip(1) =~= chars@.skip(i + 1));
            }
            i = i + 1;
        } else {
            let mut word: Vec<char> = Vec::new();
            let mut j: usize = i;
            while j < n && !chars[j].is_whitespace()
                invariant
                    n == chars@.len(),
                    i <= j <= n,
                    word@ == chars@.subrange(i as int, j as int),
                    forall|m: int| i <= m < j ==> !whitespace(#[trigger] chars@[m]),
                decreases n - j,
            {
                proof {
                    assert(chars@.subrange(i as int, j as int).push(chars@[j as int])
                        =~= chars@.subrange(i as int, j + 1));
                }
                word.push(chars[j]);
                j = j + 1;
            }
            proof {
                let rest = chars@.skip(i as int);
                let k = j - i;
                assert forall|m: int| 0 <= m < k implies !whitespace(#[trigger] rest[m]) by {
                    assert(rest[m] == chars@[i + m]);
                }
                lemma_split_words_head(rest, k);
                assert(rest.take(k) =~= word@);
                assert(rest.skip(k) =~= chars@.skip(j as int));
                assert(word_views(words@.push(word)) =~= word_views(words@) + seq![word@]);
                assert(word_views(words@) + (seq![word@] + split_words(chars@.skip(j as int)))
                    =~= word_views(words@) + seq![word@] + split_words(chars@.skip(j as int)));
            }
            words.push(word);
            i = j;
        }
    }
    proof {
        assert(word_views(words@) + Seq::<Seq<char>>::empty() =~= word_views(words@));
    }
    words
}

/// Replaces every character of a word that is not alphanumeric by an
/// underscore.
pub fn sanitize_word(word: &[char]) -> (out: Vec<char>)
    ensures
        out@ == sanitized_word(word@),
{
    let n: usize = word.len();
    let mut out: Vec<char> = Vec::new();
    let mut i: usize = 0;
    while i < n
        invariant
            n == word@.len(),
            i <= n,
            out@ == sanitized_word(word@.take(i as int)),
        decreases n - i,
    {
        let c: char = word[i];
        let kept: char = if c.is_alphanumeric() {
            c
        } else {
            '_'
        };
        proof {
            assert(sanitized_word(word@.take(i as int)).push(kept) =~= sanitized_word(
                word@.take(i + 1),
            ));
        }
        out.push(kept);
        i = i + 1;
    }
    proof {
        assert(word@.take(n as int) =~= word@);
    }
    out
}

/// Appends the characters of `tail`, from index `from` on, to `out`.
fn append_from(out: &mut Vec<char>, tail: &[char], from: usize)
    requires
        from <= tail@.len(),
    ensures
        final(out)@ == old(out)@ + tail@.skip(from as int),
{
    let n: usize = tail.len();
    let mut i: usize = from;
    proof {
        assert(out@ + tail@.subrange(from as int, from as int) =~= out@);
    }
    while i < n
        invariant
            n == tail@.len(),
            from <= i <= n,
            out@ == old(out)@ + tail@.subrange(from as int, i as int),
        decreases n - i,
    {
        proof {
            assert((old(out)@ + tail@.subrange(from as int, i as int)).push(tail@[i as int])
                =~= old(out)@ + tail@.subrange(from as int, i + 1));
        }
        out.push(tail[i]);
        i = i + 1;
    }
    proof {
        assert(tail@.subrange(from as int, n as int) =~= tail@.skip(from as int));
    }
}

/// Puts the first character of a word in upper case and leaves the rest
/// unchanged.
pub fn capitalize(word: &[char]) -> (out: Vec<char>)
    ensures
        out@ == capitalized(word@),
{
    if word.len() == 0 {
        let out: Vec<char> = Vec::new();
        proof {
            assert(out@ =~= word@);
        }
        out
    } else {
        let mut out: Vec<char> = to_uppercase(word[0]);
        append_from(&mut out, word, 1);
        out
    }
}

/// Drops every underscore.
pub fn strip_underscores(chars: &[char]) -> (out: Vec<char>)
    ensures
        out@ == without_underscores(chars@),
{
    let n: usize = chars.len();
    let mut out: Vec<char> = Vec::new();
    let mut i: usize = 0;
    proof {
        reveal(Seq::filter);
        assert(chars@.take(0) =~= Seq::<char>::empty());
    }
    while i < n
        invariant
            n == chars@.len(),
            i <= n,
            out@ == without_underscores(chars@.take(i as int)),
        decreases n - i,
    {
        let c: char = chars[i];
        proof {
            assert(chars@.take(i + 1) =~= chars@.take(i as int).push(c));
            chars@.take(i as int).lemma_filter_push(c, not_underscore());
        }
        if c != '_' {
            out.push(c);
        }
        i = i + 1;
    }
    proof {
        assert(chars@.take(n as int) =~= chars@);
    }
    out
}

/// Synthesizes the identifier of a register from its description.
pub fn sanitize_identifier(name: &str) -> (ident: String)
    ensures
        ident@ == identifier(name@),
        !ident@.contains('_'),
{
    let chars = chars_of(name);
    let words = split_whitespace(chars.as_slice());
    let ghost fragments = split_words(name@).map_values(|w: Seq<char>| word_fragment(w));
    let mut joined: Vec<char> = Vec::new();
    let n: usize = words.len();
    let mut i: usize = 0;
    proof {
        assert(fragments.take(0) =~= Seq::<Seq<char>>::empty());
    }
    while i < n
        invariant
            n == words@.len(),
            i <= n,
            word_views(words@) == split_words(name@),
            fragments == split_words(name@).map_values(|w: Seq<char>| word_fragment(w)),
            joined@ == fragments.take(i as int).flatten(),
        decreases n - i,
    {
        let sanitized = sanitize_word(words[i].as_slice());
        let fragment = capitalize(sanitized.as_slice());
        proof {
            assert(word_views(words@)[i as int] == words@[i as int]@);
            assert(fragment@ == fragments[i as int]);
            assert(fragments.take(i + 1) =~= fragments.take(i as int).push(fragments[i as int]));
            fragments.take(i as int).lemma_flatten_push(fragments[i as int]);
        }
        append_from(&mut joined, fragment.as_slice(), 0);
        proof {
            assert(fragment@.skip(0) =~= fragment@);
        }
        i = i + 1;
    }
    proof {
        assert(word_views(words@).len() == n);
        assert(fragments.take(n as int) =~= fragments);
        lemma_no_underscore(joined@);
    }
    let stripped = strip_underscores(joined.as_slice());
    string_of(stripped.as_slice())
}

/// Nothing is left of the underscores once they are dropped.
pub proof fn lemma_no_underscore(s: Seq<char>)
    ensures
        !without_underscores(s).contains('_'),
{
    let kept = without_underscores(s);
    if kept.contains('_') {
        let k = choose|k: int| 0 <= k < kept.len() && kept[k] == '_';
        s.lemma_filter_pred(not_underscore(), k);
    }
}

} // verus!
