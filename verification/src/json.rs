//! JSON: strings that go into it, and texts of it that are shown.

use vstd::prelude::*;
use crate::text;

verus! {

/// A character inside a JSON string.
pub open spec fn json_char(c: char) -> Seq<char> {
    if c == '"' {
        seq!['\\', '"']
    } else if c == '\\' {
        seq!['\\', '\\']
    } else if c == '\u{8}' {
        seq!['\\', 'b']
    } else if c == '\u{9}' {
        seq!['\\', 't']
    } else if c == '\u{a}' {
        seq!['\\', 'n']
    } else if c == '\u{c}' {
        seq!['\\', 'f']
    } else if c == '\u{d}' {
        seq!['\\', 'r']
    } else if ' ' > c {
        seq!['\\', 'u', '0', '0', text::hex_digit(c as int / 16), text::hex_digit(c as int % 16)]
    } else {
        seq![c]
    }
}

pub open spec fn json_chars(s: Seq<char>) -> Seq<char>
    decreases s.len(),
{
    if s.len() == 0 {
        Seq::empty()
    } else {
        json_char(s.first()) + json_chars(s.drop_first())
    }
}

/// A text as a JSON string, in quotes.
pub open spec fn quoted(s: Seq<char>) -> Seq<char> {
    seq!['"'] + json_chars(s) + seq!['"']
}

/// Calls `serde_json::to_string` on a string: the text in quotes, with the quote, the backslash
/// and the control characters below the space escaped. Writing a string does not fail.
#[verifier::external_body]
pub(crate) fn quote(s: &str) -> (r: String)
    ensures
        r@ == quoted(s@),
{
    serde_json::to_string(s).unwrap_or_default()
}

/// The character DEL, which JSON leaves as it is.
pub open spec fn is_delete(c: char) -> bool {
    c == '\u{7f}'
}

pub open spec fn has_delete(s: Seq<char>) -> bool {
    exists|i: int| 0 <= i < s.len() && is_delete(#[trigger] s[i])
}

/// A JSON string holds no raw control character below the space, and DEL only where the text
/// does.
pub proof fn law_quoted_has_no_controls(s: Seq<char>)
    ensures
        forall|i: int| 0 <= i < quoted(s).len() ==> #[trigger] quoted(s)[i] >= ' ',
        has_delete(quoted(s)) ==> has_delete(s),
{
    lemma_chars_no_controls(s);
    let body = json_chars(s);
    assert forall|i: int| 0 <= i < quoted(s).len() implies #[trigger] quoted(s)[i] >= ' ' by {
        if 0 < i <= body.len() {
            assert(quoted(s)[i] == body[i - 1]);
        }
    }
    if has_delete(quoted(s)) {
        let i = choose|i: int| 0 <= i < quoted(s).len() && is_delete(#[trigger] quoted(s)[i]);
        assert(quoted(s)[i] == body[i - 1]);
    }
}

proof fn lemma_char_no_controls(c: char)
    ensures
        forall|i: int| 0 <= i < json_char(c).len() ==> #[trigger] json_char(c)[i] >= ' ',
        forall|i: int| 0 <= i < json_char(c).len() && is_delete(#[trigger] json_char(c)[i]) ==> is_delete(c),
{
    if ' ' > c {
        let hi = c as int / 16;
        let lo = c as int % 16;
        assert(0 <= hi < 16 && 0 <= lo < 16);
        assert(text::hex_digit(hi) >= ' ' && text::hex_digit(lo) >= ' ');
        assert(!is_delete(text::hex_digit(hi)) && !is_delete(text::hex_digit(lo)));
    }
}

proof fn lemma_chars_no_controls(s: Seq<char>)
    ensures
        forall|i: int| 0 <= i < json_chars(s).len() ==> #[trigger] json_chars(s)[i] >= ' ',
        has_delete(json_chars(s)) ==> has_delete(s),
    decreases s.len(),
{
    if s.len() > 0 {
        let head = json_char(s.first());
        let tail = json_chars(s.drop_first());
        lemma_char_no_controls(s.first());
        lemma_chars_no_controls(s.drop_first());
        assert forall|i: int| 0 <= i < json_chars(s).len() implies #[trigger] json_chars(s)[i]
            >= ' ' by {
            if i < head.len() {
                assert(json_chars(s)[i] == head[i]);
            } else {
                assert(json_chars(s)[i] == tail[i - head.len()]);
            }
        }
        if has_delete(json_chars(s)) {
            let i = choose|i: int| 0 <= i < json_chars(s).len() && is_delete(#[trigger] json_chars(s)[i]);
            if i < head.len() {
                assert(is_delete(head[i]));
                assert(is_delete(s[0]));
            } else {
                assert(is_delete(tail[i - head.len()]));
                let k = choose|k: int| 0 <= k < s.drop_first().len() && is_delete(#[trigger] s.drop_first()[k]);
                assert(is_delete(s[k + 1]));
            }
        }
    }
}

// ---- Indented JSON ---------------------------------------------------------------------------

/// What `serde_json` writes, one value to a line and indented, for a JSON text that it reads; none
/// for a text that it does not take for JSON.
pub uninterp spec fn indented(s: Seq<char>) -> Option<Seq<char>>;

/// Calls `serde_json::to_string_pretty` on what `serde_json::from_str` reads as a
/// `serde_json::Value`. Its result depends on the text alone; nothing more is claimed of it.
#[verifier::external_body]
fn indent(s: &str) -> (r: Option<String>)
    ensures
        text::opt_string(r) == indented(s@),
{
    let value: serde_json::Value = serde_json::from_str(s).ok()?;
    serde_json::to_string_pretty(&value).ok()
}

/// A JSON text as it is shown: indented, or as it is where it could not be indented.
pub open spec fn readable(indented: Option<Seq<char>>, s: Seq<char>) -> Seq<char> {
    match indented {
        Some(t) => t,
        None => s,
    }
}

pub fn indented_or(indented: Option<String>, s: &str) -> (r: String)
    ensures
        r@ == readable(text::opt_string(indented), s@),
{
    match indented {
        Some(t) => t,
        None => s.to_owned(),
    }
}

/// Makes a JSON text readable.
pub fn pretty(s: &str) -> (r: String)
    ensures
        r@ == readable(indented(s@), s@),
{
    indented_or(indent(s), s)
}

} // verus!
