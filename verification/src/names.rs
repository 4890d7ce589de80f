//! Option-value spelling: from the spelling of a variant's identifier to the
//! label that callers write.

use vstd::prelude::*;
use vstd::string::*;

verus! {

/// Whether a character has the Unicode property Uppercase.
pub uninterp spec fn is_uppercase(c: char) -> bool;

/// Whether a character is upper case: among the ASCII characters exactly
/// the letters 'A' to 'Z', beyond them the characters with the Unicode
/// property Uppercase.
pub open spec fn upper_case(c: char) -> bool {
    if (c as u32) < 128 {
        'A' <= c <= 'Z'
    } else {
        is_uppercase(c)
    }
}

/// The lower-case form of an ASCII capital letter; any other character
/// unchanged.
pub open spec fn ascii_lowercase(c: char) -> char {
    if 'A' <= c <= 'Z' {
        ((c as u32) + 32) as char
    } else {
        c
    }
}

/// What one character of an identifier contributes to its label: an
/// upper-case character starts a new word, set off by an underscore unless
/// it is the first character.
pub open spec fn snake_piece(c: char, index: int) -> Seq<char> {
    if upper_case(c) {
        if index > 0 {
            seq!['_', ascii_lowercase(c)]
        } else {
            seq![ascii_lowercase(c)]
        }
    } else {
        seq![c]
    }
}

/// The label of an identifier written in capitalised words.
pub open spec fn snake_case(s: Seq<char>) -> Seq<char>
    decreases s.len(),
{
    if s.len() == 0 {
        Seq::empty()
    } else {
        snake_case(s.drop_last()) + snake_piece(s.last(), s.len() - 1)
    }
}

/// `char::is_uppercase` of std: whether the character has the Unicode
/// property Uppercase, which among the ASCII characters the letters 'A' to
/// 'Z' have and no other. The answer depends on the character alone.
#[verifier::external_body]
fn char_is_uppercase(c: char) -> (upper: bool)
    ensures
        (c as u32) < 128 ==> upper == ('A' <= c <= 'Z'),
        (c as u32) >= 128 ==> upper == is_uppercase(c),
{
    c.is_uppercase()
}

/// The lower-case form of an ASCII capital letter; any other character
/// unchanged.
fn char_to_ascii_lowercase(c: char) -> (lower: char)
    ensures
        lower == ascii_lowercase(c),
{
    if 'A' <= c && c <= 'Z' {
        ((c as u8) + 32) as char
    } else {
        c
    }
}

/// `String::push` of std: the character is appended at the end.
#[verifier::external_body]
fn string_push(s: &mut String, c: char)
    ensures
        final(s)@ == old(s)@.push(c),
{
    s.push(c)
}

/// Converts an identifier written in capitalised words to the label with
/// lower-case words joined by underscores.
pub fn to_snake_case(s: &str) -> (label: String)
    ensures
        label@ == snake_case(s@),
{
    let mut result = String::new();
    let n = s.unicode_len();
    let mut i: usize = 0;
    while i < n
        invariant
            0 <= i <= n,
            n == s@.len(),
            result@ == snake_case(s@.take(i as int)),
        decreases n - i,
    {
        let c = s.get_char(i);
        proof {
            assert(s@.take(i + 1).drop_last() =~= s@.take(i as int));
            assert(s@.take(i + 1).last() == c);
        }
        let ghost before = result@;
        if char_is_uppercase(c) {
            if i > 0 {
                string_push(&mut result, '_');
            }
            string_push(&mut result, char_to_ascii_lowercase(c));
        } else {
            string_push(&mut result, c);
        }
        assert(result@ =~= before + snake_piece(c, i as int));
        i += 1;
    }
    proof {
        assert(s@.take(n as int) =~= s@);
    }
    result
}

} // verus!
