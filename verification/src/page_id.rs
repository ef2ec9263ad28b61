//! The identifiers of Notion pages.
//!
//! An identifier is written with or without hyphens. Written with hyphens
//! its UTF-8 encoding stands in five groups: of eight bytes, three times four
//! bytes, and the rest.

use vstd::prelude::*;
use vstd::std_specs::iter::IteratorSpec;
use vstd::string::{StringExecFns, StringSliceAdditionalSpecFns};
use vstd::utf8::*;

verus! {

/// The text that the bytes `from..to` of a text's UTF-8 encoding hold.
pub open spec fn page_id_part(id: Seq<char>, from: int, to: int) -> Seq<char> {
    decode_utf8(encode_utf8(id).subrange(from, to))
}

/// Whether a text can be cut into the five groups: it has at least twenty
/// bytes, and no cut falls inside a character.
pub open spec fn can_be_hyphenated(id: Seq<char>) -> bool {
    let bytes = encode_utf8(id);
    &&& bytes.len() >= 20
    &&& is_char_boundary(bytes, 8)
    &&& is_char_boundary(bytes, 12)
    &&& is_char_boundary(bytes, 16)
    &&& is_char_boundary(bytes, 20)
}

/// A text in five groups, with a hyphen between each two.
pub open spec fn hyphenated(id: Seq<char>) -> Seq<char> {
    page_id_part(id, 0, 8) + seq!['-'] + page_id_part(id, 8, 12) + seq!['-'] + page_id_part(
        id,
        12,
        16,
    ) + seq!['-'] + page_id_part(id, 16, 20) + seq!['-'] + page_id_part(
        id,
        20,
        encode_utf8(id).len() as int,
    )
}

/// A page identifier in the form with hyphens: one that holds a hyphen is
/// left as it is, any other is cut into the five groups.
pub open spec fn formatted_page_id(id: Seq<char>) -> Seq<char> {
    if id.contains('-') {
        id
    } else {
        hyphenated(id)
    }
}

/// Whether a page identifier can be brought into the form with hyphens.
pub open spec fn is_formattable(id: Seq<char>) -> bool {
    id.contains('-') || can_be_hyphenated(id)
}

/// The five groups of a text are the text, cut at four places.
pub proof fn lemma_groups_make_up_text(id: Seq<char>)
    requires
        can_be_hyphenated(id),
    ensures
        id == page_id_part(id, 0, 8) + page_id_part(id, 8, 12) + page_id_part(id, 12, 16)
            + page_id_part(id, 16, 20) + page_id_part(id, 20, encode_utf8(id).len() as int),
{
    let bytes = encode_utf8(id);
    let len = bytes.len() as int;
    encode_utf8_valid_utf8(id);
    encode_utf8_decode_utf8(id);
    decode_utf8_split(bytes, 8);
    let rest8 = bytes.subrange(8, len);
    lemma_boundary_of_rest(bytes, 8, 12);
    decode_utf8_split(rest8, 4);
    assert(rest8.subrange(0, 4) =~= bytes.subrange(8, 12));
    assert(rest8.subrange(4, rest8.len() as int) =~= bytes.subrange(12, len));
    let rest12 = bytes.subrange(12, len);
    lemma_boundary_of_rest(bytes, 12, 16);
    decode_utf8_split(rest12, 4);
    assert(rest12.subrange(0, 4) =~= bytes.subrange(12, 16));
    assert(rest12.subrange(4, rest12.len() as int) =~= bytes.subrange(16, len));
    let rest16 = bytes.subrange(16, len);
    lemma_boundary_of_rest(bytes, 16, 20);
    decode_utf8_split(rest16, 4);
    assert(rest16.subrange(0, 4) =~= bytes.subrange(16, 20));
    assert(rest16.subrange(4, rest16.len() as int) =~= bytes.subrange(20, len));
}

/// A text of ASCII characters can be cut wherever it is long enough, and its
/// groups are its characters 0 to 8, 8 to 12, 12 to 16, 16 to 20 and the
/// rest: an identifier of 32 hexadecimal digits comes out in the groups of 8,
/// 4, 4, 4 and 12 digits.
pub proof fn lemma_hyphenated_ascii(id: Seq<char>)
    requires
        is_ascii_chars(id),
        id.len() >= 20,
    ensures
        can_be_hyphenated(id),
        hyphenated(id) == id.subrange(0, 8) + seq!['-'] + id.subrange(8, 12) + seq!['-']
            + id.subrange(12, 16) + seq!['-'] + id.subrange(16, 20) + seq!['-'] + id.subrange(
            20,
            id.len() as int,
        ),
{
    is_ascii_chars_encode_utf8(id);
    lemma_ascii_boundary(id, 8);
    lemma_ascii_boundary(id, 12);
    lemma_ascii_boundary(id, 16);
    lemma_ascii_boundary(id, 20);
    lemma_ascii_part(id, 0, 8);
    lemma_ascii_part(id, 8, 12);
    lemma_ascii_part(id, 12, 16);
    lemma_ascii_part(id, 16, 20);
    lemma_ascii_part(id, 20, id.len() as int);
}

/// Every place in a text of ASCII characters is a boundary.
proof fn lemma_ascii_boundary(id: Seq<char>, index: int)
    requires
        is_ascii_chars(id),
        0 <= index <= id.len(),
    ensures
        is_char_boundary(encode_utf8(id), index),
{
    let bytes = encode_utf8(id);
    encode_utf8_valid_utf8(id);
    is_ascii_chars_encode_utf8(id);
    if index == bytes.len() {
        is_char_boundary_start_end_of_seq(bytes);
    } else {
        is_char_boundary_iff_not_is_continuation_byte(bytes, index);
    }
}

/// A part of a text of ASCII characters holds the characters at its bytes'
/// places.
proof fn lemma_ascii_part(id: Seq<char>, from: int, to: int)
    requires
        is_ascii_chars(id),
        0 <= from <= to <= id.len(),
    ensures
        page_id_part(id, from, to) == id.subrange(from, to),
{
    let part = id.subrange(from, to);
    is_ascii_chars_encode_utf8(id);
    is_ascii_chars_encode_utf8(part);
    assert(encode_utf8(part) =~= encode_utf8(id).subrange(from, to));
    encode_utf8_decode_utf8(part);
}

/// A boundary of a text is a boundary of what follows an earlier boundary.
proof fn lemma_boundary_of_rest(bytes: Seq<u8>, from: int, index: int)
    requires
        valid_utf8(bytes),
        0 <= from <= index <= bytes.len(),
        is_char_boundary(bytes, from),
        is_char_boundary(bytes, index),
    ensures
        valid_utf8(bytes.subrange(from, bytes.len() as int)),
        is_char_boundary(bytes.subrange(from, bytes.len() as int), index - from),
{
    let rest = bytes.subrange(from, bytes.len() as int);
    valid_utf8_split(bytes, from);
    if index == from {
    } else if index == bytes.len() {
        is_char_boundary_start_end_of_seq(rest);
    } else {
        is_char_boundary_iff_not_is_continuation_byte(bytes, index);
        is_char_boundary_iff_not_is_continuation_byte(rest, index - from);
    }
}

/// Whether a text holds a hyphen.
fn has_hyphen(id: &str) -> (found: bool)
    ensures
        found == id@.contains('-'),
{
    let chars = id.chars();
    for c in it: chars
        invariant
            it.seq() == id@,
            forall|k: int| 0 <= k < it.index() ==> id@[k] != '-',
    {
        if c == '-' {
            return true;
        }
    }
    false
}

/// A page identifier in the form with hyphens: see [`formatted_page_id`].
/// An identifier without a hyphen has to allow the cuts.
pub fn format_page_id(id: &str) -> (formatted: String)
    requires
        is_formattable(id@),
    ensures
        formatted@ == formatted_page_id(id@),
{
    if has_hyphen(id) {
        String::from_str(id)
    } else {
        let ghost bytes = id.spec_bytes();
        let ghost len = bytes.len() as int;
        proof {
            encode_utf8_valid_utf8(id@);
            lemma_boundary_of_rest(bytes, 8, 12);
            lemma_boundary_of_rest(bytes, 12, 16);
            lemma_boundary_of_rest(bytes, 16, 20);
        }
        let (first, rest) = id.split_at(8);
        let (second, rest) = rest.split_at(4);
        assert(second.spec_bytes() =~= bytes.subrange(8, 12));
        assert(rest.spec_bytes() =~= bytes.subrange(12, len));
        let (third, rest) = rest.split_at(4);
        assert(third.spec_bytes() =~= bytes.subrange(12, 16));
        assert(rest.spec_bytes() =~= bytes.subrange(16, len));
        let (fourth, fifth) = rest.split_at(4);
        assert(fourth.spec_bytes() =~= bytes.subrange(16, 20));
        assert(fifth.spec_bytes() =~= bytes.subrange(20, len));
        proof {
            reveal_strlit("-");
            encode_utf8_decode_utf8(first@);
            encode_utf8_decode_utf8(second@);
            encode_utf8_decode_utf8(third@);
            encode_utf8_decode_utf8(fourth@);
            encode_utf8_decode_utf8(fifth@);
        }
        String::from_str(first).concat("-").concat(second).concat("-").concat(third).concat(
            "-",
        ).concat(fourth).concat("-").concat(fifth)
    }
}

/// A page identifier in the form with hyphens, where it can be brought into
/// it: not where it holds no hyphen and does not allow the cuts.
pub fn try_format_page_id(id: &str) -> (formatted: Option<String>)
    ensures
        formatted is Some <==> is_formattable(id@),
        formatted matches Some(text) ==> text@ == formatted_page_id(id@),
{
    let length: usize = id.as_bytes().len();
    if has_hyphen(id) || (length >= 20 && id.is_char_boundary(8) && id.is_char_boundary(12)
        && id.is_char_boundary(16) && id.is_char_boundary(20)) {
        Some(format_page_id(id))
    } else {
        None
    }
}

} // verus!
