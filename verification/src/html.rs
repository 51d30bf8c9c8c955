//! HTML fragments and the templates they are filled from.
//!
//! A template is a text with holes, each marked by [`HOLE`]. Filling replaces the holes from left
//! to right, either by escaped text or by a finished fragment; what was put into a hole is never
//! searched for holes again.

use vstd::prelude::*;
use vstd::string::*;
use crate::model;
use crate::model::{Instant, Timestamp, Uuid};
use crate::text;

verus! {

/// Marks the place of a value in a template.
pub const HOLE: char = '¤';

/// What a character becomes where text is put into HTML.
pub open spec fn escaped_char(c: char) -> Seq<char> {
    if c == '&' {
        seq!['&', 'a', 'm', 'p', ';']
    } else if c == '<' {
        seq!['&', 'l', 't', ';']
    } else if c == '>' {
        seq!['&', 'g', 't', ';']
    } else if c == '"' {
        seq!['&', 'q', 'u', 'o', 't', ';']
    } else {
        seq![c]
    }
}

/// A text as it stands in HTML: its special characters replaced by character references.
pub open spec fn escaped(s: Seq<char>) -> Seq<char>
    decreases s.len(),
{
    if s.len() == 0 {
        Seq::empty()
    } else {
        escaped_char(s.first()) + escaped(s.drop_first())
    }
}

/// Calls `maud::Render::render` on a string: maud replaces `&`, `<`, `>` and `"` by their
/// character references and passes everything else through.
#[verifier::external_body]
pub(crate) fn render_text(s: &str) -> (r: String)
    ensures
        r@ == escaped(s@),
{
    maud::Render::render(s).into_string()
}

/// A finished piece of HTML.
pub struct Markup {
    html: String,
}

impl View for Markup {
    type V = Seq<char>;

    closed spec fn view(&self) -> Seq<char> {
        self.html@
    }
}

impl Markup {
    /// Markup taken as it stands.
    pub fn raw(html: &str) -> (m: Markup)
        ensures
            m@ == html@,
    {
        Markup { html: html.to_owned() }
    }

    /// Markup that shows a text.
    pub fn text(s: &str) -> (m: Markup)
        ensures
            m@ == escaped(s@),
    {
        Markup { html: render_text(s) }
    }

    /// No markup at all.
    pub fn empty() -> (m: Markup)
        ensures
            m@ == Seq::<char>::empty(),
    {
        Markup { html: String::new() }
    }

    /// `html` where `cond` holds, nothing otherwise.
    pub fn when(cond: bool, html: &str) -> (m: Markup)
        ensures
            m@ == when(cond, html@),
    {
        if cond {
            Markup::raw(html)
        } else {
            Markup::empty()
        }
    }

    /// This markup followed by another.
    pub fn then_html(self, other: &Markup) -> (m: Markup)
        ensures
            m@ == self@ + other@,
    {
        Markup { html: self.html.concat(other.html.as_str()) }
    }

    pub fn as_str(&self) -> (s: &str)
        ensures
            s@ == self@,
    {
        self.html.as_str()
    }

    pub fn into_string(self) -> (s: String)
        ensures
            s@ == self@,
    {
        self.html
    }
}

/// `html` where `cond` holds, nothing otherwise.
pub open spec fn when(cond: bool, html: Seq<char>) -> Seq<char> {
    if cond {
        html
    } else {
        Seq::empty()
    }
}

/// A template on the way: what is finished and what is left to fill.
pub struct Filling {
    pub done: Seq<char>,
    pub rest: Seq<char>,
}

/// A template with none of its holes filled.
pub open spec fn template(t: Seq<char>) -> Filling {
    Filling { done: Seq::empty(), rest: t }
}

impl Filling {
    /// Puts `x` into the first hole left.
    #[verifier::opaque]
    pub open spec fn html(self, x: Seq<char>) -> Filling {
        let i = text::find_char(self.rest, HOLE);
        Filling {
            done: self.done + self.rest.take(i) + x,
            rest: if i < self.rest.len() {
                self.rest.skip(i + 1)
            } else {
                Seq::empty()
            },
        }
    }

    /// Puts a text, escaped, into the first hole left.
    pub open spec fn text(self, s: Seq<char>) -> Filling {
        self.html(escaped(s))
    }

    /// Puts a number into the first hole left.
    pub open spec fn num(self, n: int) -> Filling {
        self.html(text::decimal_int(n))
    }

    /// Puts a single character, escaped, into the first hole left.
    pub open spec fn char(self, c: char) -> Filling {
        self.text(seq![c])
    }

    /// Puts an identifier into the first hole left.
    pub open spec fn uuid(self, id: Uuid) -> Filling {
        self.text(model::uuid_text(id))
    }

    /// Puts an instant, under a date pattern, into the first hole left.
    pub open spec fn date(self, t: Instant, pattern: Seq<char>) -> Filling {
        self.text(model::date_text(t, pattern))
    }

    /// Puts `html` into the first hole left where `cond` holds, nothing otherwise.
    pub open spec fn when(self, cond: bool, html: Seq<char>) -> Filling {
        self.html(when(cond, html))
    }

    /// The filled template.
    pub open spec fn done(self) -> Seq<char> {
        self.done + self.rest
    }
}

/// The first hole is the first hole mark of the template.
pub proof fn law_first_hole(a: Seq<char>, b: Seq<char>, x: Seq<char>)
    requires
        !a.contains(HOLE),
    ensures
        template(a + seq![HOLE] + b).html(x) == (Filling { done: a + x, rest: b }),
{
    reveal(Filling::html);
    let t = a + seq![HOLE] + b;
    assert forall|k: int| 0 <= k < a.len() implies t[k] != HOLE by {
        assert(a.contains(a[k]));
    }
    text::lemma_find_char_at(t, HOLE, a.len() as int);
    assert(t.take(a.len() as int) =~= a);
    assert(Seq::<char>::empty() + a + x =~= a + x);
    assert(t.skip((a.len() + 1) as int) =~= b);
}

/// A character that would end a text or an attribute value in HTML.
pub open spec fn is_markup_char(c: char) -> bool {
    c == '<' || c == '>' || c == '"'
}

/// Escaped text holds no tag bracket and no double quote, whatever the text was: put into a
/// template it stays inside the text or attribute value it was put into.
pub proof fn law_escaped_is_inert(s: Seq<char>)
    ensures
        forall|i: int| 0 <= i < escaped(s).len() ==> !is_markup_char(#[trigger] escaped(s)[i]),
    decreases s.len(),
{
    if s.len() > 0 {
        let head = escaped_char(s.first());
        let tail = escaped(s.drop_first());
        law_escaped_is_inert(s.drop_first());
        assert forall|i: int| 0 <= i < escaped(s).len() implies !is_markup_char(
            #[trigger] escaped(s)[i],
        ) by {
            if i < head.len() {
                assert(escaped(s)[i] == head[i]);
            } else {
                assert(escaped(s)[i] == tail[i - head.len()]);
            }
        }
    }
}

/// Two characters whose escaped forms agree in their first two places are the same.
proof fn lemma_escaped_char_prefix(a: char, b: char)
    requires
        escaped_char(a)[0] == escaped_char(b)[0],
        escaped_char(a).len() > 1 && escaped_char(b).len() > 1 ==> escaped_char(a)[1]
            == escaped_char(b)[1],
    ensures
        a == b,
{
}

/// Texts that look the same in HTML are the same.
pub proof fn law_escaped_injective(s: Seq<char>, t: Seq<char>)
    requires
        escaped(s) == escaped(t),
    ensures
        s == t,
    decreases s.len(),
{
    if s.len() == 0 || t.len() == 0 {
        assert(escaped_char(s.first()).len() > 0 && escaped_char(t.first()).len() > 0);
        assert(s =~= t);
    } else {
        let x = escaped_char(s.first());
        let y = escaped_char(t.first());
        let u = escaped(s.drop_first());
        let v = escaped(t.drop_first());
        assert((x + u)[0] == x[0] && (y + v)[0] == y[0]);
        assert(x.len() > 1 ==> (x + u)[1] == x[1]);
        assert(y.len() > 1 ==> (y + v)[1] == y[1]);
        lemma_escaped_char_prefix(s.first(), t.first());
        assert(u =~= (x + u).skip(x.len() as int));
        assert(v =~= (y + v).skip(y.len() as int));
        law_escaped_injective(s.drop_first(), t.drop_first());
        assert(s =~= seq![s.first()] + s.drop_first());
        assert(t =~= seq![t.first()] + t.drop_first());
    }
}

/// A template being filled.
pub struct Template {
    out: String,
    rest: Vec<char>,
    at: usize,
}

impl View for Template {
    type V = Filling;

    closed spec fn view(&self) -> Filling {
        Filling { done: self.out@, rest: self.rest@.skip(self.at as int) }
    }
}

impl Template {
    #[verifier::type_invariant]
    spec fn in_range(self) -> bool {
        self.at <= self.rest@.len()
    }

    pub fn new(t: &str) -> (r: Template)
        ensures
            r@ == template(t@),
    {
        let rest = text::chars_of(t);
        assert(rest@.skip(0) =~= t@);
        Template { out: String::new(), rest, at: 0 }
    }

    fn put(self, x: &str) -> (r: Template)
        ensures
            r@ == self@.html(x@),
    {
        proof {
            use_type_invariant(&self);
            reveal(Filling::html);
        }
        let ghost before = self@;
        let ghost start = self.at;
        let mut out = self.out;
        let rest = self.rest;
        let mut i: usize = self.at;
        while i < rest.len() && rest[i] != HOLE
            invariant
                start <= i <= rest@.len(),
                before.rest == rest@.skip(start as int),
                out@ == before.done + before.rest.take(i - start),
                forall|k: int| 0 <= k < i - start ==> before.rest[k] != HOLE,
            decreases rest@.len() - i,
        {
            out.push(rest[i]);
            assert(before.rest.take(i - start + 1) =~= before.rest.take(i - start).push(rest@[i as int]));
            i += 1;
        }
        proof {
            text::lemma_find_char_at(before.rest, HOLE, i - start);
        }
        out.append(x);
        let at: usize = if i < rest.len() {
            i + 1
        } else {
            i
        };
        assert(rest@.skip(at as int) =~= before.html(x@).rest);
        assert(out@ =~= before.html(x@).done);
        Template { out, rest, at }
    }

    /// Puts a fragment into the first hole left.
    pub fn html(self, x: &Markup) -> (r: Template)
        ensures
            r@ == self@.html(x@),
    {
        self.put(x.as_str())
    }

    /// Puts markup, taken as it stands, into the first hole left.
    pub fn raw(self, x: &str) -> (r: Template)
        ensures
            r@ == self@.html(x@),
    {
        self.put(x)
    }

    /// Puts a text, escaped, into the first hole left.
    pub fn text(self, s: &str) -> (r: Template)
        ensures
            r@ == self@.text(s@),
    {
        let x = render_text(s);
        self.put(x.as_str())
    }

    /// Puts a number into the first hole left.
    pub fn num(self, n: i64) -> (r: Template)
        ensures
            r@ == self@.num(n as int),
    {
        let x = text::decimal_int_string(n);
        self.put(x.as_str())
    }

    /// Puts a single character, escaped, into the first hole left.
    pub fn char(self, c: char) -> (r: Template)
        ensures
            r@ == self@.char(c),
    {
        let mut s = String::new();
        s.push(c);
        assert(s@ =~= seq![c]);
        self.text(s.as_str())
    }

    /// Puts an identifier into the first hole left.
    pub fn uuid(self, id: Uuid) -> (r: Template)
        ensures
            r@ == self@.uuid(id),
    {
        let s = id.text();
        self.text(s.as_str())
    }

    /// Puts an instant, under a date pattern, into the first hole left.
    pub fn date(self, t: &Timestamp, pattern: &str) -> (r: Template)
        requires
            model::date_pattern(pattern@),
        ensures
            r@ == self@.date(t@, pattern@),
    {
        let s = t.format(pattern);
        self.text(s.as_str())
    }

    /// Puts `html` into the first hole left where `cond` holds, nothing otherwise.
    pub fn when(self, cond: bool, html: &str) -> (r: Template)
        ensures
            r@ == self@.when(cond, html@),
    {
        if cond {
            self.put(html)
        } else {
            proof {
                reveal_strlit("");
                assert(""@ =~= Seq::<char>::empty());
            }
            self.put("")
        }
    }

    /// The filled template.
    pub fn done(self) -> (m: Markup)
        ensures
            m@ == self@.done(),
    {
        proof {
            use_type_invariant(&self);
        }
        let mut out = self.out;
        let rest = self.rest;
        let ghost start = self.at;
        let ghost before = self@;
        let mut i: usize = self.at;
        while i < rest.len()
            invariant
                start <= i <= rest@.len(),
                before.rest == rest@.skip(start as int),
                out@ == before.done + before.rest.take(i - start),
            decreases rest@.len() - i,
        {
            out.push(rest[i]);
            assert(before.rest.take(i - start + 1) =~= before.rest.take(i - start).push(rest@[i as int]));
            i += 1;
        }
        assert(before.rest.take(i - start) =~= before.rest);
        Markup { html: out }
    }
}

} // verus!
