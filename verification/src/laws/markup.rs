//! What stands in a filled template.

use vstd::prelude::*;
use crate::html;
use crate::html::HOLE;
use crate::text;

verus! {

/// Whether a piece of HTML stands in another.
pub open spec fn shows(html: Seq<char>, part: Seq<char>) -> bool {
    exists|a: Seq<char>, b: Seq<char>| html == #[trigger] (a + part + b)
}

pub proof fn lemma_shows(a: Seq<char>, part: Seq<char>, b: Seq<char>)
    ensures
        shows(a + part + b, part),
{
}

/// A piece of a piece is a piece.
pub proof fn lemma_shows_inner(html: Seq<char>, part: Seq<char>, inner: Seq<char>)
    requires
        shows(html, part),
        shows(part, inner),
    ensures
        shows(html, inner),
{
    let (a, b) = choose|a: Seq<char>, b: Seq<char>| html == #[trigger] (a + part + b);
    let (c, d) = choose|c: Seq<char>, d: Seq<char>| part == #[trigger] (c + inner + d);
    assert(html =~= (a + c) + inner + (d + b));
}

/// Filling the next hole, which stands at `p` of the template `t`, of which the part before `q` is
/// used up.
pub proof fn lemma_fill(f: html::Filling, t: Seq<char>, q: int, p: int, x: Seq<char>)
    requires
        0 <= q <= p < t.len(),
        f.rest == t.skip(q),
        t[p] == HOLE,
        forall|k: int| q <= k < p ==> t[k] != HOLE,
    ensures
        f.html(x).done == f.done + t.subrange(q, p) + x,
        f.html(x).rest == t.skip(p + 1),
{
    reveal(html::Filling::html);
    let r = t.skip(q);
    assert forall|k: int| 0 <= k < p - q implies r[k] != HOLE by {
        assert(r[k] == t[q + k]);
    }
    assert(r[p - q] == t[p]);
    text::lemma_find_char_at(r, HOLE, p - q);
    assert(r.take(p - q) =~= t.subrange(q, p));
    assert(r.skip(p - q + 1) =~= t.skip(p + 1));
}

/// A template with its first `n` holes filled, one value after the other.
pub open spec fn filled(t: Seq<char>, xs: Seq<Seq<char>>, n: nat) -> html::Filling
    decreases n,
{
    if n == 0 {
        html::template(t)
    } else {
        filled(t, xs, (n - 1) as nat).html(xs[n - 1])
    }
}

/// Where the piece of a template before its hole `i` starts, the holes standing at `ps`.
pub open spec fn piece_start(ps: Seq<int>, i: int) -> int {
    if i <= 0 {
        0
    } else {
        ps[i - 1] + 1
    }
}

/// Where it ends.
pub open spec fn piece_end(t: Seq<char>, ps: Seq<int>, i: int) -> int {
    if i < ps.len() {
        ps[i]
    } else {
        t.len() as int
    }
}

/// Whether the hole `i` of a template stands at its place, and none between it and the one before.
pub open spec fn hole_at(t: Seq<char>, ps: Seq<int>, i: int) -> bool {
    &&& 0 <= piece_start(ps, i) <= ps[i] < t.len()
    &&& t[ps[i]] == HOLE
    &&& forall|k: int| piece_start(ps, i) <= k < ps[i] ==> t[k] != HOLE
}

/// Whether the holes of a template stand at `ps`.
pub open spec fn holes_at(t: Seq<char>, ps: Seq<int>) -> bool {
    forall|i: int| 0 <= i < ps.len() ==> #[trigger] hole_at(t, ps, i)
}

/// The values, each behind the piece of the template before its hole.
pub open spec fn laid_out(t: Seq<char>, ps: Seq<int>, xs: Seq<Seq<char>>, n: nat) -> Seq<char>
    decreases n,
{
    if n == 0 {
        Seq::empty()
    } else {
        laid_out(t, ps, xs, (n - 1) as nat) + t.subrange(piece_start(ps, n - 1), ps[n - 1])
            + xs[n - 1]
    }
}

proof fn lemma_filled(t: Seq<char>, ps: Seq<int>, xs: Seq<Seq<char>>, n: nat)
    requires
        holes_at(t, ps),
        n <= ps.len(),
    ensures
        filled(t, xs, n).done == laid_out(t, ps, xs, n),
        filled(t, xs, n).rest == t.skip(piece_start(ps, n as int)),
        0 <= piece_start(ps, n as int) <= t.len(),
    decreases n,
{
    if n == 0 {
        assert(t.skip(0) =~= t);
    } else {
        let m = (n - 1) as nat;
        lemma_filled(t, ps, xs, m);
        assert(hole_at(t, ps, m as int));
        lemma_fill(filled(t, xs, m), t, piece_start(ps, m as int), ps[m as int], xs[m as int]);
    }
}

/// The rest of a filled template, from the piece before hole `i` on.
pub open spec fn laid_out_from(t: Seq<char>, ps: Seq<int>, xs: Seq<Seq<char>>, i: nat) -> Seq<char>
    decreases ps.len() - i,
{
    if i >= ps.len() {
        t.skip(piece_start(ps, ps.len() as int))
    } else {
        t.subrange(piece_start(ps, i as int), ps[i as int]) + xs[i as int] + laid_out_from(
            t,
            ps,
            xs,
            i + 1,
        )
    }
}

proof fn lemma_regroup(a: Seq<char>, p: Seq<char>, x: Seq<char>, b: Seq<char>)
    ensures
        (a + p + x) + b == a + (p + x + b),
{
    assert((a + p + x) + b =~= a + (p + x + b));
}

proof fn lemma_split(t: Seq<char>, ps: Seq<int>, xs: Seq<Seq<char>>, i: nat)
    requires
        holes_at(t, ps),
        i <= ps.len(),
    ensures
        filled(t, xs, ps.len()).done() == laid_out(t, ps, xs, i) + laid_out_from(t, ps, xs, i),
    decreases ps.len() - i,
{
    if i == ps.len() {
        lemma_filled(t, ps, xs, i);
    } else {
        lemma_split(t, ps, xs, i + 1);
        lemma_regroup(
            laid_out(t, ps, xs, i),
            t.subrange(piece_start(ps, i as int), ps[i as int]),
            xs[i as int],
            laid_out_from(t, ps, xs, i + 1),
        );
    }
}

proof fn lemma_between(
    front: Seq<char>,
    piece: Seq<char>,
    before: Seq<char>,
    x: Seq<char>,
    after: Seq<char>,
    rest: Seq<char>,
)
    requires
        before.len() <= piece.len(),
        piece.skip(piece.len() - before.len()) == before,
        after.len() <= rest.len(),
        rest.take(after.len() as int) == after,
    ensures
        shows(front + (piece + x + rest), before + x + after),
{
    let a = front + piece.take(piece.len() - before.len());
    let b = rest.skip(after.len() as int);
    assert(piece =~= piece.take(piece.len() - before.len()) + before);
    assert(rest =~= after + b);
    assert(front + (piece + x + rest) =~= a + (before + x + after) + b);
}

/// What was put into a hole stands between the texts that surround the hole in the template.
pub proof fn lemma_hole(
    t: Seq<char>,
    ps: Seq<int>,
    xs: Seq<Seq<char>>,
    i: int,
    before: Seq<char>,
    after: Seq<char>,
)
    requires
        holes_at(t, ps),
        0 <= i < ps.len(),
        piece_start(ps, i) <= ps[i] - before.len(),
        t.subrange(ps[i] - before.len(), ps[i]) == before,
        ps[i] + 1 + after.len() <= piece_end(t, ps, i + 1),
        t.subrange(ps[i] + 1, ps[i] + 1 + after.len()) == after,
    ensures
        shows(filled(t, xs, ps.len()).done(), before + xs[i] + after),
{
    assert(hole_at(t, ps, i));
    lemma_split(t, ps, xs, i as nat);
    lemma_filled(t, ps, xs, i as nat);
    lemma_filled(t, ps, xs, (i + 1) as nat);
    let piece = t.subrange(piece_start(ps, i), ps[i]);
    let rest = laid_out_from(t, ps, xs, (i + 1) as nat);
    assert(piece.skip(piece.len() - before.len()) =~= t.subrange(ps[i] - before.len(), ps[i]));
    assert(after.len() <= rest.len() && rest.take(after.len() as int) =~= after) by {
        let next = t.subrange(piece_start(ps, i + 1), piece_end(t, ps, i + 1));
        if i + 1 < ps.len() {
            assert(hole_at(t, ps, i + 1));
            assert(rest.len() >= next.len());
        } else {
            assert(next =~= t.skip(piece_start(ps, i + 1)));
        }
        assert(next.take(after.len() as int) =~= after);
        assert(rest.take(after.len() as int) =~= next.take(after.len() as int));
    }
    lemma_between(laid_out(t, ps, xs, i as nat), piece, before, xs[i], after, rest);
}

/// What was put into two holes in a row stands in their order, between the texts that surround them.
pub proof fn lemma_two_holes(
    t: Seq<char>,
    ps: Seq<int>,
    xs: Seq<Seq<char>>,
    i: int,
    before: Seq<char>,
    mid: Seq<char>,
    after: Seq<char>,
)
    requires
        holes_at(t, ps),
        0 <= i,
        i + 1 < ps.len(),
        piece_start(ps, i) <= ps[i] - before.len(),
        t.subrange(ps[i] - before.len(), ps[i]) == before,
        t.subrange(ps[i] + 1, ps[i + 1]) == mid,
        ps[i + 1] + 1 + after.len() <= piece_end(t, ps, i + 2),
        t.subrange(ps[i + 1] + 1, ps[i + 1] + 1 + after.len()) == after,
    ensures
        shows(
            filled(t, xs, ps.len()).done(),
            before + (xs[i] + mid + xs[i + 1]) + after,
        ),
{
    let j = i + 1;
    assert(hole_at(t, ps, i));
    assert(hole_at(t, ps, j));
    lemma_split(t, ps, xs, i as nat);
    lemma_filled(t, ps, xs, i as nat);
    lemma_filled(t, ps, xs, (j + 1) as nat);
    let piece = t.subrange(piece_start(ps, i), ps[i]);
    let rest = laid_out_from(t, ps, xs, (j + 1) as nat);
    assert(piece.skip(piece.len() - before.len()) =~= t.subrange(ps[i] - before.len(), ps[i]));
    assert(after.len() <= rest.len() && rest.take(after.len() as int) =~= after) by {
        let next = t.subrange(piece_start(ps, j + 1), piece_end(t, ps, j + 1));
        if j + 1 < ps.len() {
            assert(hole_at(t, ps, j + 1));
            assert(rest.len() >= next.len());
        } else {
            assert(next =~= t.skip(piece_start(ps, j + 1)));
        }
        assert(next.take(after.len() as int) =~= after);
        assert(rest.take(after.len() as int) =~= next.take(after.len() as int));
    }
    let both = xs[i] + mid + xs[j];
    assert(laid_out_from(t, ps, xs, j as nat) == mid + xs[j] + rest);
    assert(laid_out_from(t, ps, xs, i as nat) == piece + xs[i] + laid_out_from(
        t,
        ps,
        xs,
        j as nat,
    ));
    assert(piece + xs[i] + (mid + xs[j] + rest) =~= piece + both + rest);
    lemma_between(laid_out(t, ps, xs, i as nat), piece, before, both, after, rest);
}

} // verus!
