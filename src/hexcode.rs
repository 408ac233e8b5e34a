//! Textual forms of binary identifiers: lowercase hex for commit ids and the
//! `z`..`k` "reverse hex" alphabet for change ids.
use vstd::prelude::*;

verus! {

/// The value of a hex digit (either case), or -1 for any other character.
pub open spec fn hex_value(c: char) -> int {
    if '0' <= c && c <= '9' {
        (c as u32) as int - ('0' as u32) as int
    } else if 'a' <= c && c <= 'f' {
        (c as u32) as int - ('a' as u32) as int + 10
    } else if 'A' <= c && c <= 'F' {
        (c as u32) as int - ('A' as u32) as int + 10
    } else {
        -1
    }
}

pub open spec fn is_hex_digit(c: char) -> bool {
    hex_value(c) >= 0
}

/// Every character is a hex digit (an empty text qualifies).
pub open spec fn is_hex_text(s: Seq<char>) -> bool {
    forall|i: int| 0 <= i < s.len() ==> #[trigger] is_hex_digit(s[i])
}

/// A text that decodes as whole bytes: an even number of hex digits.
pub open spec fn is_hex_bytes_text(s: Seq<char>) -> bool {
    s.len() % 2 == 0 && is_hex_text(s)
}

/// The bytes that a text of hex digit pairs stands for.
pub open spec fn hex_decoded(s: Seq<char>) -> Seq<u8> {
    Seq::new(s.len() / 2, |i: int| (hex_value(s[2 * i]) * 16 + hex_value(s[2 * i + 1])) as u8)
}

/// The lowercase digit of a nibble.
pub open spec fn lower_digit(n: int) -> char {
    if n < 10 {
        ((('0' as u32) as int + n) as u32) as char
    } else {
        ((('a' as u32) as int + n - 10) as u32) as char
    }
}

/// Lowercase hex text of a byte string, two digits per byte, high nibble first.
pub open spec fn hex_of(b: Seq<u8>) -> Seq<char> {
    Seq::new(
        2 * b.len(),
        |i: int|
            if i % 2 == 0 {
                lower_digit(b[i / 2] as int / 16)
            } else {
                lower_digit(b[i / 2] as int % 16)
            },
    )
}

/// A character folded to lowercase when it is an uppercase hex letter.
pub open spec fn fold_hex_char(c: char) -> char {
    if 'A' <= c && c <= 'F' {
        (((c as u32) as int + 32) as u32) as char
    } else {
        c
    }
}

/// A hex text with its uppercase letters folded to lowercase.
pub open spec fn fold_hex(s: Seq<char>) -> Seq<char> {
    Seq::new(s.len(), |i: int| fold_hex_char(s[i]))
}

/// The value of a reverse-hex digit: `z` is 0 and `k` is 15, in either case.
pub open spec fn reverse_hex_value(c: char) -> int {
    if 'k' <= c && c <= 'z' {
        ('z' as u32) as int - (c as u32) as int
    } else if 'K' <= c && c <= 'Z' {
        ('Z' as u32) as int - (c as u32) as int
    } else {
        -1
    }
}

pub open spec fn is_reverse_hex_bytes_text(s: Seq<char>) -> bool {
    s.len() % 2 == 0 && forall|i: int| 0 <= i < s.len() ==> #[trigger] reverse_hex_value(s[i]) >= 0
}

pub open spec fn reverse_hex_decoded(s: Seq<char>) -> Seq<u8> {
    Seq::new(
        s.len() / 2,
        |i: int| (reverse_hex_value(s[2 * i]) * 16 + reverse_hex_value(s[2 * i + 1])) as u8,
    )
}

pub open spec fn reverse_digit(n: int) -> char {
    ((('z' as u32) as int - n) as u32) as char
}

/// Reverse-hex text of a byte string: two `z`..`k` digits per byte.
pub open spec fn reverse_hex_of(b: Seq<u8>) -> Seq<char> {
    Seq::new(
        2 * b.len(),
        |i: int|
            if i % 2 == 0 {
                reverse_digit(b[i / 2] as int / 16)
            } else {
                reverse_digit(b[i / 2] as int % 16)
            },
    )
}

#[verifier::external_type_specification]
#[verifier::external_body]
pub struct ExFromHexError(hex::FromHexError);

/// Relies on `hex::decode`: an even number of hex digits of either case decodes
/// to one byte per pair, high nibble first; anything else is an error.
#[verifier::external_body]
pub(crate) fn decode_hex(text: &str) -> (r: Result<Vec<u8>, hex::FromHexError>)
    ensures
        r is Ok <==> is_hex_bytes_text(text@),
        r is Ok ==> r->Ok_0@ == hex_decoded(text@),
{
    hex::decode(text)
}

/// The text of a decoding error.
pub(crate) fn hex_error_text(e: &hex::FromHexError) -> String {
    e.to_string()
}

/// Does `text` begin with `prefix`, hex letters compared without regard to case?
pub open spec fn text_has_hex_prefix(text: Seq<char>, prefix: Seq<char>) -> bool {
    prefix.len() <= text.len() && fold_hex(text).subrange(0, prefix.len() as int) == fold_hex(prefix)
}

pub fn starts_with_hex_prefix(text: &str, prefix: &str) -> (r: bool)
    ensures
        r == text_has_hex_prefix(text@, prefix@),
{
    let n = prefix.unicode_len();
    let m = text.unicode_len();
    if n > m {
        return false;
    }
    let mut i: usize = 0;
    while i < n
        invariant
            i <= n,
            n == prefix@.len(),
            n <= m,
            m == text@.len(),
            forall|j: int| 0 <= j < i ==> fold_hex_char(text@[j]) == fold_hex_char(prefix@[j]),
        decreases n - i,
    {
        let a = text.get_char(i);
        let b = prefix.get_char(i);
        if fold_char(a) != fold_char(b) {
            assert(fold_hex(text@).subrange(0, n as int)[i as int] != fold_hex(prefix@)[i as int]);
            return false;
        }
        i = i + 1;
    }
    assert(fold_hex(text@).subrange(0, n as int) =~= fold_hex(prefix@));
    true
}

/// Hex text of bytes is made of hex digits only, two per byte.
pub proof fn lemma_hex_of_is_hex(b: Seq<u8>)
    ensures
        is_hex_bytes_text(hex_of(b)),
{
    assert forall|i: int| 0 <= i < hex_of(b).len() implies #[trigger] is_hex_digit(hex_of(b)[i]) by {
        let n: int = if i % 2 == 0 { b[i / 2] as int / 16 } else { b[i / 2] as int % 16 };
        assert(0 <= n < 16);
        lemma_lower_digit(n);
    }
}

proof fn lemma_lower_digit(n: int)
    requires
        0 <= n < 16,
    ensures
        is_hex_digit(lower_digit(n)),
{
}

/// A lowercase hex digit.
pub open spec fn is_lower_hex_char(c: char) -> bool {
    ('0' <= c && c <= '9') || ('a' <= c && c <= 'f')
}

/// Every character is a lowercase hex digit.
pub open spec fn is_lower_hex_text(s: Seq<char>) -> bool {
    forall|i: int| 0 <= i < s.len() ==> #[trigger] is_lower_hex_char(s[i])
}

/// Hex text of bytes is lowercase.
pub proof fn lemma_hex_of_is_lower(b: Seq<u8>)
    ensures
        is_lower_hex_text(hex_of(b)),
{
    assert forall|i: int| 0 <= i < hex_of(b).len() implies #[trigger] is_lower_hex_char(
        hex_of(b)[i],
    ) by {
        let n: int = if i % 2 == 0 { b[i / 2] as int / 16 } else { b[i / 2] as int % 16 };
        assert(0 <= n < 16);
    }
}

/// Folding leaves a lowercase hex text as it is.
pub proof fn lemma_fold_lower(s: Seq<char>)
    requires
        is_lower_hex_text(s),
    ensures
        fold_hex(s) == s,
{
    assert forall|i: int| 0 <= i < s.len() implies #[trigger] fold_hex(s)[i] == s[i] by {
        assert(is_lower_hex_char(s[i]));
    }
    assert(fold_hex(s) =~= s);
}

/// Reverse-hex text of bytes is made of reverse-hex digits only, two per byte.
pub proof fn lemma_reverse_hex_of_is_reverse_hex(b: Seq<u8>)
    ensures
        is_reverse_hex_bytes_text(reverse_hex_of(b)),
{
    assert forall|i: int| 0 <= i < reverse_hex_of(b).len() implies #[trigger] reverse_hex_value(
        reverse_hex_of(b)[i],
    ) >= 0 by {
        let n: int = if i % 2 == 0 { b[i / 2] as int / 16 } else { b[i / 2] as int % 16 };
        assert(0 <= n < 16);
    }
}

fn fold_char(c: char) -> (r: char)
    ensures
        r == fold_hex_char(c),
{
    if 'A' <= c && c <= 'F' {
        let v: u32 = c as u32 + 32;
        char_of(v)
    } else {
        c
    }
}

fn char_of(v: u32) -> (r: char)
    requires
        0x61 <= v <= 0x66,
    ensures
        r == v as char,
{
    if v == 0x61 {
        'a'
    } else if v == 0x62 {
        'b'
    } else if v == 0x63 {
        'c'
    } else if v == 0x64 {
        'd'
    } else if v == 0x65 {
        'e'
    } else {
        'f'
    }
}

} // verus!
