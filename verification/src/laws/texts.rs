//! Texts: trimming, searching, writing numbers, and putting texts into HTML, JSON and addresses.

use vstd::prelude::*;
use crate::cookies;
use crate::display;
use crate::forms;
use crate::html;
use crate::json;
use crate::text;

verus! {

// ---- Trimming and searching ------------------------------------------------------------------

/// A trimmed text is what stands between the white space at both ends of it: nothing else is cut,
/// and what is left neither starts nor ends with white space.
pub proof fn law_trimmed(s: Seq<char>)
    ensures
        ({
            let t = text::trimmed(s);
            &&& exists|i: int, j: int|
                0 <= i <= j <= s.len() && t == #[trigger] s.subrange(i, j) && (forall|k: int|
                    0 <= k < s.len() && (k < i || j <= k) ==> text::white_space(#[trigger] s[k]))
            &&& t.len() > 0 ==> !text::white_space(t[0]) && !text::white_space(t[t.len() - 1])
        }),
{
    let i = lemma_trimmed_start(s);
    let a = text::trimmed_start(s);
    let n = lemma_trimmed_end(a);
    let t = text::trimmed(s);
    assert(t =~= s.subrange(i, i + n));
    assert forall|k: int| 0 <= k < s.len() && (k < i || i + n <= k) implies text::white_space(
        #[trigger] s[k],
    ) by {
        if k >= i {
            assert(a[k - i] == s[k]);
        }
    }
    if t.len() > 0 {
        assert(t[0] == a[0]);
    }
}

proof fn lemma_trimmed_start(s: Seq<char>) -> (i: int)
    ensures
        0 <= i <= s.len(),
        text::trimmed_start(s) == s.skip(i),
        forall|k: int| 0 <= k < i ==> text::white_space(#[trigger] s[k]),
        i < s.len() ==> !text::white_space(s[i]),
    decreases s.len(),
{
    if s.len() > 0 && text::white_space(s.first()) {
        let rest = s.drop_first();
        let j = lemma_trimmed_start(rest);
        assert(rest.skip(j) =~= s.skip(j + 1));
        assert forall|k: int| 0 <= k < j + 1 implies text::white_space(#[trigger] s[k]) by {
            if k > 0 {
                assert(rest[k - 1] == s[k]);
            }
        }
        if j < rest.len() {
            assert(rest[j] == s[j + 1]);
        }
        j + 1
    } else {
        assert(s.skip(0) =~= s);
        0
    }
}

proof fn lemma_trimmed_end(s: Seq<char>) -> (n: int)
    ensures
        0 <= n <= s.len(),
        text::trimmed_end(s) == s.take(n),
        forall|k: int| n <= k < s.len() ==> text::white_space(#[trigger] s[k]),
        n > 0 ==> !text::white_space(s[n - 1]),
    decreases s.len(),
{
    if s.len() > 0 && text::white_space(s.last()) {
        let front = s.drop_last();
        let n = lemma_trimmed_end(front);
        assert(front.take(n) =~= s.take(n));
        assert forall|k: int| n <= k < s.len() implies text::white_space(#[trigger] s[k]) by {
            if k < front.len() {
                assert(front[k] == s[k]);
            }
        }
        n
    } else {
        assert(s.take(s.len() as int) =~= s);
        s.len() as int
    }
}

/// Blanks, tabs and line ends are white space; letters, digits and punctuation of ASCII are not.
pub proof fn law_white_space(c: char)
    ensures
        c == ' ' || c == '\t' || c == '\n' || c == '\r' ==> text::white_space(c),
        '!' <= c <= '~' ==> !text::white_space(c),
        text::white_space('\u{a0}'),
        text::white_space('\u{3000}'),
{
}

/// What a form leaves blank is nothing; what is filled in is kept but for the white space around it.
pub proof fn law_filled_in(s: Seq<char>, value: String)
    ensures
        forms::filled_in(s) is None <==> text::trimmed(s).len() == 0,
        forms::filled_in(s) is Some ==> forms::filled_in(s)->0 == text::trimmed(s),
        forms::cleaned(None) is None,
        forms::cleaned(Some(value)) == forms::filled_in(value@),
{
}

/// An email has something before its first `@` and a dot behind it.
pub proof fn law_emails(name: Seq<char>, host: Seq<char>)
    requires
        !name.contains('@'),
    ensures
        forms::email_shaped(name + seq!['@'] + host) <==> name.len() > 0 && host.contains('.'),
        !forms::email_shaped(name),
{
    let s = name + seq!['@'] + host;
    assert forall|k: int| 0 <= k < name.len() implies s[k] != '@' by {
        assert(name.contains(name[k]));
    }
    text::lemma_find_char_at(s, '@', name.len() as int);
    assert(s.subrange(0, name.len() as int) =~= name);
    assert(s.subrange(name.len() as int + 1, s.len() as int) =~= host);
    text::lemma_find_char(name, '@');
    if text::find_char(name, '@') < name.len() {
        assert(name[text::find_char(name, '@')] == '@');
    }
}

/// A text is found in another where it stands in it.
pub proof fn law_contained(before: Seq<char>, s: Seq<char>, after: Seq<char>)
    ensures
        text::contained(before + s + after, s),
        text::has_prefix(s + after, s),
{
    let all = before + s + after;
    assert(all.subrange(before.len() as int, before.len() as int + s.len()) =~= s);
    assert(text::occurs_at(all, s, before.len() as int));
    assert((s + after).subrange(0, s.len() as int) =~= s);
}

/// The longer of two texts is the later one where it starts with the other; otherwise the first
/// place at which they differ decides.
pub proof fn law_text_order(p: Seq<char>, a: Seq<char>, b: Seq<char>)
    ensures
        a.len() > 0 ==> text::text_less(p, p + a),
        !text::text_less(p + a, p),
        a.len() > 0 && b.len() > 0 && a[0] < b[0] ==> text::text_less(p + a, p + b)
            && !text::text_less(p + b, p + a),
    decreases p.len(),
{
    if p.len() > 0 {
        let q = p.drop_first();
        law_text_order(q, a, b);
        assert((p + a).drop_first() =~= q + a);
        assert((p + b).drop_first() =~= q + b);
        assert((p + a).first() == p.first() && (p + b).first() == p.first());
    } else {
        assert(p + a =~= a);
        assert(p + b =~= b);
    }
}

// ---- Numbers ---------------------------------------------------------------------------------

/// A number is written in decimal digits, without a leading zero unless it is zero, and with a sign
/// where it is negative.
pub proof fn law_decimal_numbers(n: nat)
    ensures
        n == 0 ==> text::decimal(n) == seq!['0'],
        n > 0 ==> text::decimal(n)[0] != '0',
        text::all_digits(text::decimal(n)),
        text::decimal_value(text::decimal(n)) == n,
        text::decimal_int(n as int) == text::decimal(n),
        n > 0 ==> text::decimal_int(-(n as int)) == seq!['-'] + text::decimal(n),
{
    text::law_decimal_round_trip(n);
    lemma_no_leading_zero(n);
}

proof fn lemma_no_leading_zero(n: nat)
    ensures
        text::decimal(n).len() > 0,
        n > 0 ==> text::decimal(n)[0] != '0',
    decreases n,
{
    if n >= 10 {
        lemma_no_leading_zero(n / 10);
    }
}

/// The port of a form is read as a decimal number, a plus sign before it allowed, if sixteen bits
/// hold it.
pub proof fn law_ports(n: nat)
    ensures
        n <= 0xffff ==> text::u16_of(text::decimal(n)) == Some(n as u16) && text::u16_of(
            seq!['+'] + text::decimal(n),
        ) == Some(n as u16),
        n > 0xffff ==> text::u16_of(text::decimal(n)) is None,
        text::u16_of(Seq::empty()) is None,
        text::u16_of(seq!['-'] + text::decimal(n)) is None,
{
    text::law_decimal_round_trip(n);
    lemma_no_leading_zero(n);
    let d = text::decimal(n);
    assert(text::is_digit(d[0]));
    assert((seq!['+'] + d).drop_first() =~= d);
    let m = seq!['-'] + d;
    assert(!text::is_digit(m[0]));
}

// ---- HTML, JSON and addresses ----------------------------------------------------------------

/// The characters that mean something in HTML are written as their references, every other one as
/// itself, and a text is written character by character.
pub proof fn law_escaping(c: char, s: Seq<char>, t: Seq<char>)
    ensures
        html::escaped_char('&') == "&amp;"@,
        html::escaped_char('<') == "&lt;"@,
        html::escaped_char('>') == "&gt;"@,
        html::escaped_char('"') == "&quot;"@,
        c != '&' && c != '<' && c != '>' && c != '"' ==> html::escaped_char(c) == seq![c],
        html::escaped(Seq::empty()) == Seq::<char>::empty(),
        html::escaped(seq![c]) == html::escaped_char(c),
        html::escaped(s + t) == html::escaped(s) + html::escaped(t),
    decreases s.len(),
{
    reveal_strlit("&amp;");
    reveal_strlit("&lt;");
    reveal_strlit("&gt;");
    reveal_strlit("&quot;");
    assert(html::escaped_char('&') =~= "&amp;"@);
    assert(html::escaped_char('<') =~= "&lt;"@);
    assert(html::escaped_char('>') =~= "&gt;"@);
    assert(html::escaped_char('"') =~= "&quot;"@);
    assert(seq![c].drop_first() =~= Seq::<char>::empty());
    assert(html::escaped(Seq::<char>::empty()) =~= Seq::<char>::empty());
    assert(html::escaped(seq![c]) =~= html::escaped_char(c));
    if s.len() > 0 {
        law_escaping(c, s.drop_first(), t);
        assert((s + t).drop_first() =~= s.drop_first() + t);
        assert((s + t).first() == s.first());
        assert(html::escaped(s + t) =~= html::escaped(s) + html::escaped(t));
    } else {
        assert(s + t =~= t);
        assert(html::escaped(s) + html::escaped(t) =~= html::escaped(t));
    }
}

/// In JSON a text stands between quotes; quotes, backslashes and line ends in it are escaped, other
/// printable characters stand as they are.
pub proof fn law_json_texts(c: char)
    ensures
        json::quoted(Seq::empty()) == seq!['"', '"'],
        json::quoted(seq![c]) == seq!['"'] + json::json_char(c) + seq!['"'],
        json::json_char('"') == seq!['\\', '"'],
        json::json_char('\\') == seq!['\\', '\\'],
        json::json_char('\n') == seq!['\\', 'n'],
        json::json_char('\r') == seq!['\\', 'r'],
        json::json_char('\t') == seq!['\\', 't'],
        json::json_char('\u{8}') == seq!['\\', 'b'],
        json::json_char('\u{c}') == seq!['\\', 'f'],
        ' ' <= c && c != '"' && c != '\\' ==> json::json_char(c) == seq![c],
        json::json_char('\u{1b}') == "\\u001b"@,
        json::json_char('\u{0}') == "\\u0000"@,
{
    reveal_strlit("\\u001b");
    reveal_strlit("\\u0000");
    assert(json::json_char('\u{1b}') =~= "\\u001b"@);
    assert(json::json_char('\u{0}') =~= "\\u0000"@);
    assert(json::quoted(Seq::empty()) =~= seq!['"', '"']);
    assert(seq![c].drop_first() =~= Seq::<char>::empty());
    assert(json::json_chars(seq![c]) =~= json::json_char(c));
}

/// In an address the bytes that may stand in it stand as they are, every other one as a percent sign
/// and two upper-case hexadecimal digits, and bytes are written one by one.
pub proof fn law_percent_encoding(b: u8, s: Seq<u8>)
    ensures
        ('a' as int <= b <= 'z' as int) || ('A' as int <= b <= 'Z' as int) || ('0' as int <= b
            <= '9' as int) || b == '-' as int || b == '_' as int || b == '.' as int || b == '~' as int
            ==> display::percent_byte(b) == seq![b as char],
        b == ' ' as int ==> display::percent_byte(b) == "%20"@,
        b == '/' as int ==> display::percent_byte(b) == "%2F"@,
        b == '&' as int ==> display::percent_byte(b) == "%26"@,
        b == '=' as int ==> display::percent_byte(b) == "%3D"@,
        b == '+' as int ==> display::percent_byte(b) == "%2B"@,
        b == '%' as int ==> display::percent_byte(b) == "%25"@,
        b >= 128 ==> display::percent_byte(b).len() == 3 && display::percent_byte(b)[0] == '%',
        display::percent_bytes(Seq::empty()) == Seq::<char>::empty(),
        display::percent_bytes(s.push(b)) == display::percent_bytes(s) + display::percent_byte(b),
{
    reveal_strlit("%20");
    reveal_strlit("%2F");
    reveal_strlit("%26");
    reveal_strlit("%3D");
    reveal_strlit("%2B");
    reveal_strlit("%25");
    assert(b == ' ' as int ==> display::percent_byte(b) =~= "%20"@);
    assert(b == '/' as int ==> display::percent_byte(b) =~= "%2F"@);
    assert(b == '&' as int ==> display::percent_byte(b) =~= "%26"@);
    assert(b == '=' as int ==> display::percent_byte(b) =~= "%3D"@);
    assert(b == '+' as int ==> display::percent_byte(b) =~= "%2B"@);
    assert(b == '%' as int ==> display::percent_byte(b) =~= "%25"@);
    assert(s.push(b).drop_last() =~= s);
}

/// After signing out a browser goes where it asked to, if that is a path of this server, and to the
/// sign-in page otherwise.
pub proof fn law_signing_out_leads(rest: Seq<char>)
    ensures
        rest.len() == 0 || rest[0] != '/' ==> cookies::logout_target(Some("/"@ + rest)) == "/"@
            + rest,
        cookies::logout_target(Some("//"@ + rest)) == "/login"@,
        rest.len() > 0 && rest[0] != '/' ==> cookies::logout_target(Some(rest)) == "/login"@,
        cookies::logout_target(Some(Seq::empty())) == "/login"@,
        cookies::logout_target(None) == "/login"@,
{
    reveal_strlit("/");
    reveal_strlit("//");
    let s = "/"@ + rest;
    assert(s.subrange(0, 1) =~= "/"@);
    if s.len() >= 2 {
        assert(s.subrange(0, 2)[1] == s[1]);
        assert("//"@[1] == '/');
    }
    let d = "//"@ + rest;
    assert(d.subrange(0, 1) =~= "/"@);
    assert(d.subrange(0, 2) =~= "//"@);
    if rest.len() > 0 {
        assert(rest.subrange(0, 1)[0] == rest[0]);
        assert("/"@[0] == '/');
    }
}

} // verus!
