//! The order of the members table.

use vstd::prelude::*;
use crate::listing;
use crate::listing::{SortColumn, SortDirection, SortState};
use crate::model;
use crate::model::{InstanceRole, User, UserLifecycle};
use crate::text;

verus! {

/// Owners first, then admins, then members.
pub open spec fn role_rank(r: InstanceRole) -> int {
    match r {
        InstanceRole::Owner => 0,
        InstanceRole::Admin => 1,
        InstanceRole::Member => 2,
    }
}

/// Live accounts first, then dormant, then terminal ones.
pub open spec fn status_rank(l: UserLifecycle) -> int {
    match l {
        UserLifecycle::Active => 0,
        UserLifecycle::PendingInvite => 1,
        UserLifecycle::Deactivated => 2,
        UserLifecycle::Anonymized => 3,
    }
}

fn role_rank_of(r: InstanceRole) -> (k: u8)
    ensures
        k == role_rank(r),
{
    match r {
        InstanceRole::Owner => 0,
        InstanceRole::Admin => 1,
        InstanceRole::Member => 2,
    }
}

fn status_rank_of(l: UserLifecycle) -> (k: u8)
    ensures
        k == status_rank(l),
{
    match l {
        UserLifecycle::Active => 0,
        UserLifecycle::PendingInvite => 1,
        UserLifecycle::Deactivated => 2,
        UserLifecycle::Anonymized => 3,
    }
}

/// Whether `a` comes before `b` by a column alone, ascending. Names are compared in lower case.
pub open spec fn column_less(a: User, b: User, column: SortColumn) -> bool {
    match column {
        SortColumn::Name => text::text_less(
            text::lowercase(a.display_name@),
            text::lowercase(b.display_name@),
        ),
        SortColumn::Role => role_rank(a.instance_role) < role_rank(b.instance_role),
        SortColumn::Status => status_rank(a.lifecycle) < status_rank(b.lifecycle),
        SortColumn::Joined => model::before(a.created_at@, b.created_at@),
    }
}

/// Whether `a` comes before `b` by the column in the requested direction.
pub open spec fn primary_less(a: User, b: User, sort: SortState) -> bool {
    match sort.direction {
        SortDirection::Asc => column_less(a, b, sort.column),
        SortDirection::Desc => column_less(b, a, sort.column),
    }
}

/// The order of the table: by the column in the requested direction, then by joining date, oldest
/// first whatever the direction.
pub open spec fn user_less(a: User, b: User, sort: SortState) -> bool {
    primary_less(a, b, sort) || (!primary_less(b, a, sort) && model::before(
        a.created_at@,
        b.created_at@,
    ))
}

/// Whether the order does not tell two accounts apart.
pub open spec fn user_tied(a: User, b: User, sort: SortState) -> bool {
    !user_less(a, b, sort) && !user_less(b, a, sort)
}

/// Whether no account stands before one that should come first.
pub open spec fn is_sorted(s: Seq<User>, sort: SortState) -> bool {
    forall|i: int, j: int| 0 <= i < j < s.len() ==> !user_less(#[trigger] s[j], #[trigger] s[i], sort)
}

/// The accounts of `s` tied with `u`, in their order.
pub open spec fn tied_with(s: Seq<User>, u: User, sort: SortState) -> Seq<User> {
    s.filter(|v: User| user_tied(u, v, sort))
}

/// Whether `out` is `input` put in order: the same accounts, sorted, and tied accounts in the
/// order they came in.
pub open spec fn sorts(input: Seq<User>, out: Seq<User>, sort: SortState) -> bool {
    &&& out.to_multiset() == input.to_multiset()
    &&& is_sorted(out, sort)
    &&& forall|u: User| #[trigger] tied_with(out, u, sort) == tied_with(input, u, sort)
}

proof fn lemma_column_order(a: User, b: User, c: User, column: SortColumn)
    ensures
        !(column_less(a, b, column) && column_less(b, a, column)),
        column_less(a, b, column) && column_less(b, c, column) ==> column_less(a, c, column),
        !column_less(a, b, column) && !column_less(b, c, column) ==> !column_less(a, c, column),
{
    if column == SortColumn::Name {
        let x = text::lowercase(a.display_name@);
        let y = text::lowercase(b.display_name@);
        let z = text::lowercase(c.display_name@);
        text::lemma_text_less_total(x, y);
        text::lemma_text_less_total(y, z);
        text::lemma_text_less_total(x, z);
        if text::text_less(x, y) && text::text_less(y, z) {
            text::lemma_text_less_trans(x, y, z);
        }
        if text::text_less(z, y) && text::text_less(y, x) {
            text::lemma_text_less_trans(z, y, x);
        }
    }
}

/// The order of the table is a strict weak order.
pub proof fn law_user_order(a: User, b: User, c: User, sort: SortState)
    ensures
        !user_less(a, a, sort),
        !(user_less(a, b, sort) && user_less(b, a, sort)),
        user_less(a, b, sort) && user_less(b, c, sort) ==> user_less(a, c, sort),
        !user_less(a, b, sort) && !user_less(b, c, sort) ==> !user_less(a, c, sort),
{
    let k = sort.column;
    lemma_column_order(a, a, a, k);
    lemma_column_order(a, b, c, k);
    lemma_column_order(b, a, c, k);
    lemma_column_order(a, c, b, k);
    lemma_column_order(c, a, b, k);
    lemma_column_order(b, c, a, k);
    lemma_column_order(c, b, a, k);
}

fn column_less_of(a: &User, a_key: &str, b: &User, b_key: &str, column: SortColumn) -> (r: bool)
    requires
        column == SortColumn::Name ==> a_key@ == text::lowercase(a.display_name@) && b_key@
            == text::lowercase(b.display_name@),
    ensures
        r == column_less(*a, *b, column),
{
    match column {
        SortColumn::Name => text::is_less(a_key, b_key),
        SortColumn::Role => role_rank_of(a.instance_role) < role_rank_of(b.instance_role),
        SortColumn::Status => status_rank_of(a.lifecycle) < status_rank_of(b.lifecycle),
        SortColumn::Joined => a.created_at.is_before(&b.created_at),
    }
}

fn user_less_of(a: &User, a_key: &str, b: &User, b_key: &str, sort: SortState) -> (r: bool)
    requires
        sort.column == SortColumn::Name ==> a_key@ == text::lowercase(a.display_name@) && b_key@
            == text::lowercase(b.display_name@),
    ensures
        r == user_less(*a, *b, sort),
{
    let forward = column_less_of(a, a_key, b, b_key, sort.column);
    let backward = column_less_of(b, b_key, a, a_key, sort.column);
    match sort.direction {
        SortDirection::Asc => forward || (!backward && a.created_at.is_before(&b.created_at)),
        SortDirection::Desc => backward || (!forward && a.created_at.is_before(&b.created_at)),
    }
}

/// What an account is compared by where the column is the name; nothing otherwise.
fn sort_key(u: &User, column: SortColumn) -> (r: String)
    ensures
        column == SortColumn::Name ==> r@ == text::lowercase(u.display_name@),
{
    match column {
        SortColumn::Name => text::to_lowercase(u.display_name.as_str()),
        _ => String::new(),
    }
}

proof fn lemma_tied_insert(s: Seq<User>, at: int, x: User, u: User, sort: SortState)
    requires
        0 <= at <= s.len(),
        forall|k: int| 0 <= k < at ==> user_less(#[trigger] s[k], x, sort),
    ensures
        tied_with(s.insert(at, x), u, sort) == tied_with(seq![x], u, sort) + tied_with(s, u, sort),
{
    let p = |v: User| user_tied(u, v, sort);
    let front = s.take(at);
    let back = s.skip(at);
    assert(s =~= front + back);
    assert(s.insert(at, x) =~= front + (seq![x] + back));
    Seq::filter_distributes_over_add(front, back, p);
    Seq::filter_distributes_over_add(front, seq![x] + back, p);
    Seq::filter_distributes_over_add(seq![x], back, p);
    if user_tied(u, x, sort) {
        // Nothing in front of `x` is tied with `u`: it comes strictly before `x`.
        let kept = front.filter(p);
        if kept.len() > 0 {
            let v = kept[0];
            front.lemma_filter_pred(p, 0);
            assert(kept.contains(v));
            front.lemma_filter_contains_rev(p, v);
            let k = choose|k: int| 0 <= k < front.len() && front[k] == v;
            assert(user_less(s[k], x, sort));
            law_user_order(v, x, u, sort);
            law_user_order(v, u, x, sort);
            law_user_order(x, u, v, sort);
            assert(false);
        }
        assert(kept =~= Seq::<User>::empty());
        assert(kept + (seq![x].filter(p) + back.filter(p)) =~= seq![x].filter(p) + (kept
            + back.filter(p)));
    } else {
        listing::lemma_filter_one(x, p);
        assert(front.filter(p) + (seq![x].filter(p) + back.filter(p)) =~= seq![x].filter(p) + (
        front.filter(p) + back.filter(p)));
    }
}

proof fn lemma_sorts_extend(tail: Seq<User>, out: Seq<User>, at: int, x: User, sort: SortState)
    requires
        sorts(tail, out, sort),
        0 <= at <= out.len(),
        forall|k: int| 0 <= k < at ==> user_less(#[trigger] out[k], x, sort),
        at < out.len() ==> !user_less(out[at], x, sort),
    ensures
        sorts(seq![x] + tail, out.insert(at, x), sort),
{
    let new = out.insert(at, x);
    let input = seq![x] + tail;
    broadcast use vstd::seq_lib::group_to_multiset_ensures;

    assert(new.to_multiset() =~= out.to_multiset().insert(x));
    assert(input =~= tail.insert(0, x));
    assert(input.to_multiset() =~= tail.to_multiset().insert(x));
    assert forall|i: int, j: int| 0 <= i < j < new.len() implies !user_less(
        #[trigger] new[j],
        #[trigger] new[i],
        sort,
    ) by {
        let oi = if i < at { i } else { i - 1 };
        let oj = if j < at { j } else { j - 1 };
        if j == at {
            law_user_order(x, out[oi], x, sort);
        } else if i == at {
            // out[at] is not before x, and nothing behind it is before it.
            if oj > at {
                assert(!user_less(out[oj], out[at], sort));
            } else {
                law_user_order(x, x, x, sort);
            }
            law_user_order(out[oj], out[at], x, sort);
        } else {
            assert(!user_less(out[oj], out[oi], sort));
        }
    }
    assert forall|u: User| #[trigger] tied_with(new, u, sort) == tied_with(input, u, sort) by {
        lemma_tied_insert(out, at, x, u, sort);
        assert(tied_with(out, u, sort) == tied_with(tail, u, sort));
        Seq::filter_distributes_over_add(seq![x], tail, |v: User| user_tied(u, v, sort));
    }
}

/// Puts the accounts in the requested order.
pub fn sort_users(users: Vec<User>, sort: SortState) -> (r: Vec<User>)
    ensures
        sorts(users@, r@, sort),
{
    let mut rest = users;
    let ghost all = rest@;
    let mut out: Vec<User> = Vec::new();
    let mut keys: Vec<String> = Vec::new();
    proof {
        assert(all.skip(all.len() as int) =~= Seq::<User>::empty());
    }
    while rest.len() > 0
        invariant
            rest@.len() <= all.len(),
            rest@ == all.take(rest@.len() as int),
            sorts(all.skip(rest@.len() as int), out@, sort),
            keys@.len() == out@.len(),
            sort.column == SortColumn::Name ==> forall|k: int|
                0 <= k < keys@.len() ==> (#[trigger] keys@[k])@ == text::lowercase(
                    out@[k].display_name@,
                ),
        decreases rest@.len(),
    {
        let ghost n = rest@.len() as int;
        let x = rest.pop().unwrap();
        let key = sort_key(&x, sort.column);
        let mut at: usize = 0;
        while at < out.len() && user_less_of(
            &out[at],
            keys[at].as_str(),
            &x,
            key.as_str(),
            sort,
        )
            invariant
                at <= out@.len() == keys@.len(),
                forall|k: int| 0 <= k < at ==> user_less(#[trigger] out@[k], x, sort),
                sort.column == SortColumn::Name ==> key@ == text::lowercase(x.display_name@),
                sort.column == SortColumn::Name ==> forall|k: int|
                    0 <= k < keys@.len() ==> (#[trigger] keys@[k])@ == text::lowercase(
                        out@[k].display_name@,
                    ),
            decreases out@.len() - at,
        {
            at += 1;
        }
        proof {
            lemma_sorts_extend(all.skip(n), out@, at as int, x, sort);
            assert(seq![x] + all.skip(n) =~= all.skip(n - 1));
        }
        out.insert(at, x);
        keys.insert(at, key);
    }
    assert(all.skip(0) =~= all);
    out
}

} // verus!
