use vstd::prelude::*;
use vstd::utf8::*;

verus! {

/// `c` with an ASCII upper-case letter made lower case.
pub open spec fn ascii_lower(c: char) -> char {
    if 'A' <= c && c <= 'Z' {
        ((c as int) + 32) as char
    } else {
        c
    }
}

/// `c` with an ASCII lower-case letter made upper case.
pub open spec fn ascii_upper(c: char) -> char {
    if 'a' <= c && c <= 'z' {
        ((c as int) - 32) as char
    } else {
        c
    }
}

/// `s` with its ASCII letters made lower case.
pub open spec fn ascii_lowercase(s: Seq<char>) -> Seq<char> {
    s.map_values(|c: char| ascii_lower(c))
}

/// `s` with its ASCII letters made upper case.
pub open spec fn ascii_uppercase(s: Seq<char>) -> Seq<char> {
    s.map_values(|c: char| ascii_upper(c))
}

/// Whether `a` and `b` are equal up to the case of ASCII letters.
pub open spec fn eq_ignore_ascii_case(a: Seq<char>, b: Seq<char>) -> bool {
    a.len() == b.len() && forall|i: int| 0 <= i < a.len() ==> ascii_lower(a[i]) == ascii_lower(b[i])
}


/// What `str::to_uppercase` makes of the text `s` (its Unicode uppercase mapping).
pub uninterp spec fn uppercase(s: Seq<char>) -> Seq<char>;

/// Calls `str::to_uppercase`. Claimed: the result is the text that `uppercase`
/// names for the argument, and, as std documents the mapping by the Unicode
/// `Uppercase` property, a text of ASCII characters has its letters `a`-`z`
/// made `A`-`Z` and keeps every other character. Nothing more is stated of
/// the Unicode case mapping.
#[verifier::external_body]
pub(crate) fn to_uppercase(s: &str) -> (upper: String)
    ensures
        upper@ == uppercase(s@),
        is_ascii_chars(s@) ==> upper@ == ascii_uppercase(s@),
{
    s.to_uppercase()
}

/// Calls `std::str::from_utf8` and copies the text out. Claimed, as std
/// documents it: the bytes are accepted exactly when they are valid UTF-8,
/// and then the text is the sequence of characters they encode.
#[verifier::external_body]
pub(crate) fn utf8_text(bytes: &[u8]) -> (text: Option<String>)
    ensures
        text is Some <==> valid_utf8(bytes@),
        text matches Some(t) ==> t@ == decode_utf8(bytes@),
{
    std::str::from_utf8(bytes).ok().map(|t| t.to_string())
}

/// A byte that may stand in a header value read as text: visible ASCII or tab.
pub open spec fn is_visible_ascii(b: u8) -> bool {
    (32 <= b && b < 127) || b == 9
}

/// Whether every byte of `bytes` is visible ASCII or tab.
pub open spec fn all_visible_ascii(bytes: Seq<u8>) -> bool {
    forall|i: int| 0 <= i < bytes.len() ==> is_visible_ascii(#[trigger] bytes[i])
}

/// The characters of a sequence of ASCII bytes, one per byte.
pub open spec fn ascii_chars(bytes: Seq<u8>) -> Seq<char> {
    bytes.map_values(|b: u8| b as char)
}

/// The text of a header value: its characters when it is visible ASCII,
/// and the empty text otherwise.
pub open spec fn header_text(bytes: Seq<u8>) -> Seq<char> {
    if all_visible_ascii(bytes) {
        ascii_chars(bytes)
    } else {
        Seq::empty()
    }
}

/// A sequence of ASCII bytes is valid UTF-8 and encodes one character per byte.
pub proof fn lemma_ascii_is_utf8(bytes: Seq<u8>)
    requires
        forall|i: int| 0 <= i < bytes.len() ==> #[trigger] bytes[i] < 128,
    ensures
        valid_utf8(bytes),
        decode_utf8(bytes) == ascii_chars(bytes),
    decreases bytes.len(),
{
    if bytes.len() > 0 {
        let b = bytes[0];
        assert(b < 128);
        assert(b & 0x7f == b) by (bit_vector)
            requires
                b < 128,
        ;
        let rest = bytes.subrange(1, bytes.len() as int);
        assert(valid_first_scalar(bytes));
        assert(pop_first_scalar(bytes) =~= rest);
        assert forall|i: int| 0 <= i < rest.len() implies #[trigger] rest[i] < 128 by {
            assert(rest[i] == bytes[i + 1]);
        }
        lemma_ascii_is_utf8(rest);
        assert(decode_utf8(bytes) =~= ascii_chars(bytes));
    }
}

/// The text of a header value, as `HeaderValue::to_str` reads it, with the
/// empty text in place of a value that is not visible ASCII.
pub fn header_value_text(bytes: &[u8]) -> (text: String)
    ensures
        text@ == header_text(bytes@),
{
    let n = bytes.len();
    let mut i: usize = 0;
    while i < n
        invariant
            n == bytes@.len(),
            i <= n,
            forall|j: int| 0 <= j < i ==> is_visible_ascii(#[trigger] bytes@[j]),
        decreases n - i,
    {
        let b = bytes[i];
        if !((32 <= b && b < 127) || b == 9) {
            assert(!is_visible_ascii(bytes@[i as int]));
            return String::new();
        }
        i = i + 1;
    }
    proof {
        lemma_ascii_is_utf8(bytes@);
    }
    match utf8_text(bytes) {
        Some(t) => t,
        None => String::new(),
    }
}


/// A header value whose bytes are all tab or in `0x20..=0x7E` (the space
/// included) reads as exactly those characters, one per byte; a value with
/// any other byte reads as the empty text.
pub proof fn lemma_header_text_bytes(bytes: Seq<u8>)
    ensures
        (forall|i: int| 0 <= i < bytes.len() ==> (#[trigger] bytes[i] == 9 || (0x20 <= bytes[i]
            && bytes[i] <= 0x7e))) ==> (header_text(bytes).len() == bytes.len() && forall|i: int|
            0 <= i < bytes.len() ==> #[trigger] header_text(bytes)[i] == bytes[i] as char),
        (exists|i: int| 0 <= i < bytes.len() && !(#[trigger] bytes[i] == 9 || (0x20 <= bytes[i]
            && bytes[i] <= 0x7e))) ==> header_text(bytes) == Seq::<char>::empty(),
{
    if exists|i: int| 0 <= i < bytes.len() && !(#[trigger] bytes[i] == 9 || (0x20 <= bytes[i]
        && bytes[i] <= 0x7e)) {
        let i = choose|i: int| 0 <= i < bytes.len() && !(#[trigger] bytes[i] == 9 || (0x20
            <= bytes[i] && bytes[i] <= 0x7e));
        assert(!is_visible_ascii(bytes[i]));
    }
}


/// Lower-casing changes exactly the ASCII capitals, each to the letter 32
/// code points above it, and upper-casing exactly the ASCII small letters,
/// each to the letter 32 code points below it.
pub proof fn lemma_ascii_case_maps(c: char)
    ensures
        ('A' <= c && c <= 'Z') ==> ascii_lower(c) as int == c as int + 32,
        !('A' <= c && c <= 'Z') ==> ascii_lower(c) == c,
        ('a' <= c && c <= 'z') ==> ascii_upper(c) as int == c as int - 32,
        !('a' <= c && c <= 'z') ==> ascii_upper(c) == c,
{
}

/// Against a text without ASCII capitals, comparing up to ASCII case is
/// comparing the other text made lower case.
pub proof fn lemma_eq_ignore_case_lowercase(a: Seq<char>, b: Seq<char>)
    requires
        forall|i: int| 0 <= i < b.len() ==> !('A' <= #[trigger] b[i] && b[i] <= 'Z'),
    ensures
        eq_ignore_ascii_case(a, b) <==> ascii_lowercase(a) == b,
{
    if eq_ignore_ascii_case(a, b) {
        assert forall|i: int| 0 <= i < a.len() implies ascii_lowercase(a)[i] == b[i] by {
            assert(ascii_lower(a[i]) == ascii_lower(b[i]));
        }
        assert(ascii_lowercase(a) =~= b);
    }
    if ascii_lowercase(a) == b {
        assert forall|i: int| 0 <= i < a.len() implies ascii_lower(a[i]) == ascii_lower(b[i]) by {
            assert(ascii_lowercase(a)[i] == b[i]);
        }
    }
}

} // verus!
