//! The origins that may call the service, as a setting names them: a list of
//! origins with commas between them.

use http::HeaderValue;
use vstd::prelude::*;
use vstd::std_specs::iter::IteratorSpec;
use vstd::string::{StrSliceExecFns, StringExecFns};
use vstd::utf8::encode_utf8;

verus! {

/// The parts of a text between its commas, in order. A text without a comma
/// is its only part, and a comma at either end has an empty part beside it.
pub open spec fn split_commas(text: Seq<char>) -> Seq<Seq<char>>
    decreases text.len(),
{
    if text.len() == 0 {
        seq![Seq::empty()]
    } else {
        let before = split_commas(text.drop_last());
        if text.last() == ',' {
            before.push(Seq::empty())
        } else {
            before.drop_last().push(before.last().push(text.last()))
        }
    }
}

/// What `str::trim` returns for a text: the text without the white space at
/// its start and at its end.
pub uninterp spec fn trimmed(text: Seq<char>) -> Seq<char>;

/// Whether a byte may stand in the value of a header: a tab may, and any
/// other byte that is no control character.
pub open spec fn is_header_byte(byte: u8) -> bool {
    (byte >= 32 && byte != 127) || byte == 9
}

/// Whether a text may be the value of a header: every byte of its UTF-8
/// encoding may stand in one.
pub open spec fn is_header_text(text: Seq<char>) -> bool {
    forall|i: int| 0 <= i < encode_utf8(text).len() ==> is_header_byte(#[trigger] encode_utf8(text)[i])
}

/// The origins among the parts of a setting: each part without the white
/// space around it, if that may be the value of a header. The order is kept.
pub open spec fn valid_origins(parts: Seq<Seq<char>>) -> Seq<Seq<char>>
    decreases parts.len(),
{
    if parts.len() == 0 {
        Seq::empty()
    } else {
        let before = valid_origins(parts.drop_last());
        if is_header_text(trimmed(parts.last())) {
            before.push(trimmed(parts.last()))
        } else {
            before
        }
    }
}

/// The views of a list of texts, in order.
pub open spec fn text_list_view(texts: Seq<String>) -> Seq<Seq<char>> {
    Seq::new(texts.len(), |i: int| texts[i]@)
}

/// The origins that may call the service.
#[derive(Debug, PartialEq, Eq)]
pub enum OriginPolicy {
    /// Any origin may.
    Any,
    /// These origins may, and no other. There is at least one, and none is
    /// the wildcard `*`.
    Listed(Vec<String>),
}

/// What an [`OriginPolicy`] holds, as mathematical values.
pub enum OriginPolicyView {
    Any,
    Listed(Seq<Seq<char>>),
}

impl View for OriginPolicy {
    type V = OriginPolicyView;

    open spec fn view(&self) -> OriginPolicyView {
        match self {
            OriginPolicy::Any => OriginPolicyView::Any,
            OriginPolicy::Listed(origins) => OriginPolicyView::Listed(text_list_view(origins@)),
        }
    }
}

/// The policy that a setting gives. Without a setting any origin may call,
/// and so it is where the setting names no origin that may be the value of a
/// header, or names the wildcard `*`. Otherwise every origin that the setting
/// names may call, and no other.
pub open spec fn origin_policy(setting: Option<Seq<char>>) -> OriginPolicyView {
    match setting {
        None => OriginPolicyView::Any,
        Some(text) => {
            let origins = valid_origins(split_commas(text));
            if origins.len() == 0 || origins.contains("*"@) {
                OriginPolicyView::Any
            } else {
                OriginPolicyView::Listed(origins)
            }
        },
    }
}

/// `str::trim` of the standard library. The text that comes back is given a
/// name, [`trimmed`]; nothing else is claimed of it.
#[verifier::external_body]
fn trim(text: &str) -> (inner: &str)
    ensures
        inner@ == trimmed(text@),
{
    text.trim()
}

/// `HeaderValue::from_str` of the `http` crate, asked only whether it
/// succeeds. It does where each byte of the text is 32 or more and not 127,
/// or is a tab.
#[verifier::external_body]
fn is_header_value(text: &str) -> (valid: bool)
    ensures
        valid == is_header_text(text@),
{
    HeaderValue::from_str(text).is_ok()
}

/// The parts of a text between its commas: see [`split_commas`].
pub fn split_at_commas(text: &str) -> (parts: Vec<String>)
    ensures
        text_list_view(parts@) == split_commas(text@),
{
    let count: usize = text.unicode_len();
    let mut parts: Vec<String> = Vec::new();
    let mut start: usize = 0;
    let mut i: usize = 0;
    let chars = text.chars();
    assert(split_commas(text@.take(0)) =~~= text_list_view(parts@).push(text@.subrange(0, 0)));
    for c in it: chars
        invariant
            it.seq() == text@,
            count == text@.len(),
            i == it.index(),
            start <= i <= count,
            split_commas(text@.take(i as int)) == text_list_view(parts@).push(
                text@.subrange(start as int, i as int),
            ),
    {
        let ghost open = text@.subrange(start as int, i as int);
        assert(text@.take(i + 1).drop_last() =~= text@.take(i as int));
        if c == ',' {
            parts.push(String::from_str(text.substring_char(start, i)));
            start = i + 1;
            assert(text@.subrange(i + 1, i + 1) =~= Seq::<char>::empty());
        } else {
            assert(text@.subrange(start as int, i + 1) =~= open.push(c));
        }
        i += 1;
    }
    assert(text@.take(i as int) =~= text@);
    parts.push(String::from_str(text.substring_char(start, count)));
    parts
}

/// The policy that a setting gives: see [`origin_policy`].
pub fn allowed_origins(setting: Option<&str>) -> (policy: OriginPolicy)
    ensures
        policy@ == origin_policy(
            match setting {
                Some(text) => Some(text@),
                None => None,
            },
        ),
{
    match setting {
        None => OriginPolicy::Any,
        Some(text) => {
            let parts = split_at_commas(text);
            let ghost listed = text_list_view(parts@);
            let wildcard = String::from_str("*");
            let mut origins: Vec<String> = Vec::new();
            let mut any = false;
            let mut k: usize = 0;
            while k < parts.len()
                invariant
                    k <= parts.len(),
                    wildcard@ == "*"@,
                    listed == text_list_view(parts@),
                    text_list_view(origins@) == valid_origins(listed.take(k as int)),
                    any <==> text_list_view(origins@).contains("*"@),
                decreases parts.len() - k,
            {
                let ghost found = text_list_view(origins@);
                let inner = trim(parts[k].as_str());
                assert(listed.take(k + 1).drop_last() =~~= listed.take(k as int));
                if is_header_value(inner) {
                    let origin = String::from_str(inner);
                    if origin == wildcard {
                        any = true;
                    }
                    origins.push(origin);
                    assert(text_list_view(origins@) =~~= found.push(inner@));
                    assert(found.push(inner@).last() == inner@);
                    assert forall|i: int| 0 <= i < found.len() implies found.push(inner@)[i]
                        == found[i] by {}
                }
                k += 1;
            }
            assert(listed.take(k as int) =~~= listed);
            if origins.len() == 0 || any {
                OriginPolicy::Any
            } else {
                OriginPolicy::Listed(origins)
            }
        },
    }
}

} // verus!
