use vstd::prelude::*;
use vstd::utf8::{decode_utf8, encode_utf8, encode_utf8_decode_utf8, is_char_boundary};

verus! {

/// What `str::to_lowercase` gives for a text: its Unicode lowercase form (a character may
/// map to several, and a capital sigma maps by its place in a word).
pub uninterp spec fn lowercase(s: Seq<char>) -> Seq<char>;

/// The ASCII lowercase of a character: `A` to `Z` become `a` to `z`, any other stays.
pub open spec fn ascii_lower_char(c: char) -> char {
    if 'A' <= c && c <= 'Z' {
        ((c as u32) + 32) as char
    } else {
        c
    }
}

/// The ASCII lowercase of a text, character by character.
pub open spec fn ascii_lowercase(s: Seq<char>) -> Seq<char> {
    s.map_values(|c: char| ascii_lower_char(c))
}

/// Every character of the text is ASCII.
pub open spec fn all_ascii(s: Seq<char>) -> bool {
    forall|i: int| 0 <= i < s.len() ==> (s[i] as u32) < 128
}

/// `needle` stands somewhere in `hay` as a run of consecutive characters.
pub open spec fn contains_text(hay: Seq<char>, needle: Seq<char>) -> bool {
    exists|i: int| 0 <= i <= hay.len() - needle.len() && #[trigger] hay.subrange(i, i + needle.len()) == needle
}

/// Calls `str::to_lowercase`. Claims that the result is the lowercase form of the text,
/// a function of the text alone; that the empty text stays empty; and that an ASCII text
/// lowercases letter by letter, `A` to `Z` becoming `a` to `z`. What the form is for
/// other characters is left unsaid.
#[verifier::external_body]
pub(crate) fn to_lowercase(s: &str) -> (r: String)
    ensures
        r@ == lowercase(s@),
        s@.len() == 0 ==> r@.len() == 0,
        all_ascii(s@) ==> r@ == ascii_lowercase(s@),
{
    s.to_lowercase()
}

/// Calls `str::contains` with a text pattern. Claims what its documentation states: the
/// answer is whether the pattern matches a part of the text.
#[verifier::external_body]
pub(crate) fn contains(hay: &str, needle: &str) -> (r: bool)
    ensures
        r == contains_text(hay@, needle@),
{
    hay.contains(needle)
}

/// The bytes of the UTF-8 encoding of a text.
pub open spec fn utf8_bytes(s: Seq<char>) -> Seq<u8> {
    encode_utf8(s)
}

/// A token id short enough for display: whole when its encoding is at most 14 bytes long,
/// else the text of its first 8 bytes, `...`, and the text of its last 6 bytes.
pub open spec fn shortened_token_id(token_id: Seq<char>) -> Seq<char> {
    let bytes = utf8_bytes(token_id);
    if bytes.len() <= 14 {
        token_id
    } else {
        decode_utf8(bytes.subrange(0, 8)) + "..."@ + decode_utf8(bytes.subrange(bytes.len() - 6, bytes.len() as int))
    }
}

/// A token id short enough for display. Where the id is longer than 14 bytes, the cuts
/// after its first 8 bytes and before its last 6 must fall between characters.
pub fn shorten_token_id(token_id: &str) -> (r: String)
    requires
        utf8_bytes(token_id@).len() <= usize::MAX,
        utf8_bytes(token_id@).len() <= 14 || (is_char_boundary(utf8_bytes(token_id@), 8)
            && is_char_boundary(utf8_bytes(token_id@), utf8_bytes(token_id@).len() - 6)),
    ensures
        r@ == shortened_token_id(token_id@),
{
    let n = token_id.len();
    if n <= 14 {
        return token_id.to_owned();
    }
    let (head, _) = token_id.split_at(8);
    let (_, tail) = token_id.split_at(n - 6);
    let mut r = head.to_owned();
    r.append("...");
    r.append(tail);
    proof {
        encode_utf8_decode_utf8(head@);
        encode_utf8_decode_utf8(tail@);
    }
    r
}

} // verus!
