//! The member directory: which accounts it is about, their order, its pages, and what may be done
//! to a member.

use vstd::prelude::*;
use crate::flows::members;
use crate::flows::members::{
    Accounts, LastActivity, LifecycleOutcome, MemberAction, MemberChange, MembersAnswers,
    MembersAskView, RoleOutcome,
};
use crate::flows::step;
use crate::flows::step::{Asked, LookUp};
use crate::forms::MembersPageQuery;
use crate::gate::Caller;
use crate::laws::outcome;
use crate::listing;
use crate::listing::MemberFetch;
use crate::model;
use crate::model::{InstanceRole, Invitation, Timestamp, TransitionRow, User, UserLifecycle, Uuid};
use crate::reply;
use crate::sorting;
use crate::text;
use crate::views::members as rows;
use crate::views::members::{MemberRow, RowAction};
use crate::views::shell::ChromeContext;

verus! {

// ---- Which accounts --------------------------------------------------------------------------

/// The word for a state of an account in an address.
pub open spec fn status_word(l: UserLifecycle) -> Seq<char> {
    match l {
        UserLifecycle::Active => "active"@,
        UserLifecycle::PendingInvite => "pending"@,
        UserLifecycle::Deactivated => "deactivated"@,
        UserLifecycle::Anonymized => "anonymized"@,
    }
}

/// The word for a role in an address.
pub open spec fn role_word(r: InstanceRole) -> Seq<char> {
    match r {
        InstanceRole::Owner => "owner"@,
        InstanceRole::Admin => "admin"@,
        InstanceRole::Member => "member"@,
    }
}

/// Whether a request filters by this state.
pub open spec fn by_status(q: &MembersPageQuery, l: UserLifecycle) -> bool {
    q.filter matches Some(t) && t@ == "status:"@ + status_word(l)
}

/// Whether a request filters by this role.
pub open spec fn by_role(q: &MembersPageQuery, r: InstanceRole) -> bool {
    q.filter matches Some(t) && t@ == "role:"@ + role_word(r)
}

/// Whether a request filters by nothing.
pub open spec fn unfiltered(q: &MembersPageQuery) -> bool {
    &&& forall|l: UserLifecycle| !by_status(q, l)
    &&& forall|r: InstanceRole| !by_role(q, r)
}

proof fn lemma_words()
    ensures
        "status:"@ + "active"@ == "status:active"@,
        "status:"@ + "pending"@ == "status:pending"@,
        "status:"@ + "deactivated"@ == "status:deactivated"@,
        "status:"@ + "anonymized"@ == "status:anonymized"@,
        "role:"@ + "owner"@ == "role:owner"@,
        "role:"@ + "admin"@ == "role:admin"@,
        "role:"@ + "member"@ == "role:member"@,
        "role:owner"@.len() == 10,
        "role:admin"@.len() == 10,
        "role:owner"@[5] != "role:admin"@[5],
        "role:member"@.len() == 11,
        "status:active"@.len() == 13,
        "status:pending"@.len() == 14,
        "status:deactivated"@.len() == 18,
        "status:anonymized"@.len() == 17,
{
    reveal_strlit("status:");
    reveal_strlit("active");
    reveal_strlit("pending");
    reveal_strlit("deactivated");
    reveal_strlit("anonymized");
    reveal_strlit("role:");
    reveal_strlit("owner");
    reveal_strlit("admin");
    reveal_strlit("member");
    reveal_strlit("status:active");
    reveal_strlit("status:pending");
    reveal_strlit("status:deactivated");
    reveal_strlit("status:anonymized");
    reveal_strlit("role:owner");
    reveal_strlit("role:admin");
    reveal_strlit("role:member");
    assert("status:"@ + "active"@ =~= "status:active"@);
    assert("status:"@ + "pending"@ =~= "status:pending"@);
    assert("status:"@ + "deactivated"@ =~= "status:deactivated"@);
    assert("status:"@ + "anonymized"@ =~= "status:anonymized"@);
    assert("role:"@ + "owner"@ =~= "role:owner"@);
    assert("role:"@ + "admin"@ =~= "role:admin"@);
    assert("role:"@ + "member"@ =~= "role:member"@);
    assert("role:owner"@[5] == 'o' && "role:admin"@[5] == 'a');
}

/// A directory that is filtered by a state asks for exactly the accounts in that state, and no
/// invitations; filtered by the state of an open invitation it asks for invitations and no
/// accounts. Otherwise it asks for the listing, and for invitations only where nothing is filtered.
pub proof fn law_directory_asks_for_what_is_filtered(
    ctx: &ChromeContext,
    q: &MembersPageQuery,
    a: MembersAnswers,
    now: &Timestamp,
    status: UserLifecycle,
    role: InstanceRole,
)
    requires
        outcome::admin(ctx.user.instance_role),
        a.accounts is NotYet,
    ensures
        ({
            let s = members::members_step(ctx, q, a, now);
            let asks = |fetch: MemberFetch|
                s == step::StepView::<MembersAskView>::Ask(MembersAskView::Accounts(fetch));
            &&& by_status(q, status) && status != UserLifecycle::PendingInvite ==> asks(
                MemberFetch::InLifecycle(status),
            )
            &&& by_status(q, UserLifecycle::PendingInvite) && a.invitations is NotYet ==> s
                == step::StepView::<MembersAskView>::Ask(MembersAskView::Invitations)
            &&& by_role(q, role) ==> asks(MemberFetch::Listed)
            &&& unfiltered(q) ==> asks(MemberFetch::Listed)
        }),
{
    lemma_words();
    if unfiltered(q) && q.filter is Some {
        let t = q.filter->0@;
        assert(!by_status(q, UserLifecycle::Active));
        assert(!by_status(q, UserLifecycle::PendingInvite));
        assert(!by_status(q, UserLifecycle::Deactivated));
        assert(!by_status(q, UserLifecycle::Anonymized));
        assert(!by_role(q, InstanceRole::Owner));
        assert(!by_role(q, InstanceRole::Admin));
        assert(!by_role(q, InstanceRole::Member));
    }
}

/// The accounts of the directory come from the listing, each as often as there. Filtered by a role
/// they are those with that role, all of them; without such a filter none is left out.
pub proof fn law_directory_shows_whom_it_is_about(
    q: &MembersPageQuery,
    users: Seq<User>,
    out: Seq<User>,
    role: InstanceRole,
    u: User,
)
    requires
        members::arranged(users, out, members::request_of(q)),
    ensures
        by_role(q, role) ==> (out.contains(u) <==> users.contains(u) && u.instance_role == role),
        (forall|r: InstanceRole| !by_role(q, r)) ==> (out.contains(u) <==> users.contains(u)),
        (forall|r: InstanceRole| !by_role(q, r)) ==> out.to_multiset() == users.to_multiset(),
{
    lemma_words();
    let request = members::request_of(q);
    let keep = |v: User| listing::passes_filter(v, request.filter);
    let kept = users.filter(keep);
    broadcast use vstd::seq_lib::group_filter_ensures;

    kept.to_multiset_ensures();
    out.to_multiset_ensures();
    users.to_multiset_ensures();
    assert(out.contains(u) <==> kept.contains(u)) by {
        assert(out.to_multiset().count(u) == kept.to_multiset().count(u));
    }
    assert(kept.contains(u) <==> users.contains(u) && keep(u)) by {
        if kept.contains(u) {
            let i = choose|i: int| 0 <= i < kept.len() && kept[i] == u;
            assert(keep(kept[i]));
            assert(users.contains(kept[i])) by {
                lemma_filter_within(users, keep, i);
            }
        }
        if users.contains(u) && keep(u) {
            let i = choose|i: int| 0 <= i < users.len() && users[i] == u;
            assert(kept.contains(users[i]));
        }
    }
    if forall|r: InstanceRole| !by_role(q, r) {
        assert(!by_role(q, InstanceRole::Owner));
        assert(!by_role(q, InstanceRole::Admin));
        assert(!by_role(q, InstanceRole::Member));
        lemma_filter_all(users, keep);
    }
}

proof fn lemma_filter_within(users: Seq<User>, keep: spec_fn(User) -> bool, i: int)
    requires
        0 <= i < users.filter(keep).len(),
    ensures
        users.contains(users.filter(keep)[i]),
    decreases users.len(),
{
    reveal(Seq::filter);
    if users.len() > 0 {
        let rest = users.drop_last();
        if i < rest.filter(keep).len() {
            lemma_filter_within(rest, keep, i);
            let x = rest.filter(keep)[i];
            let k = choose|k: int| 0 <= k < rest.len() && rest[k] == x;
            assert(users[k] == x);
            assert(users.filter(keep)[i] == x);
        } else {
            assert(users.filter(keep)[i] == users.last());
            assert(users[users.len() - 1] == users.last());
        }
    }
}

proof fn lemma_filter_all(users: Seq<User>, keep: spec_fn(User) -> bool)
    requires
        forall|i: int| 0 <= i < users.len() ==> keep(#[trigger] users[i]),
    ensures
        users.filter(keep) == users,
    decreases users.len(),
{
    reveal(Seq::filter);
    if users.len() > 0 {
        assert forall|i: int| 0 <= i < users.drop_last().len() implies keep(
            #[trigger] users.drop_last()[i],
        ) by {
            assert(keep(users[i]));
        }
        assert(keep(users[users.len() - 1]));
        lemma_filter_all(users.drop_last(), keep);
        assert(users.drop_last().push(users.last()) =~= users);
    }
}

// ---- Their order -----------------------------------------------------------------------------

/// Whether a request sorts by this column.
pub open spec fn sorted_by(q: &MembersPageQuery, column: Seq<char>) -> bool {
    q.sort matches Some(t) && t@ == column
}

/// Whether a request sorts from the last to the first.
pub open spec fn descending(q: &MembersPageQuery) -> bool {
    q.dir matches Some(t) && t@ == "desc"@
}

/// Of two accounts in the directory the one further up comes first by the column that was asked
/// for, or last where the order is turned round: by name whatever its case, by role from owners to
/// members, by state from active to anonymized, by the date of joining otherwise. Where the column
/// does not tell them apart, who joined first comes first, in either direction.
pub proof fn law_directory_is_in_order(
    q: &MembersPageQuery,
    users: Seq<User>,
    out: Seq<User>,
    i: int,
    j: int,
)
    requires
        members::arranged(users, out, members::request_of(q)),
        0 <= i < j < out.len(),
    ensures
        ({
            let (x, y) = if descending(q) {
                (out[j], out[i])
            } else {
                (out[i], out[j])
            };
            let lower = |u: User| text::lowercase(u.display_name@);
            let rank = |u: User|
                match u.instance_role {
                    InstanceRole::Owner => 0int,
                    InstanceRole::Admin => 1int,
                    InstanceRole::Member => 2int,
                };
            let stage = |u: User|
                match u.lifecycle {
                    UserLifecycle::Active => 0int,
                    UserLifecycle::PendingInvite => 1int,
                    UserLifecycle::Deactivated => 2int,
                    UserLifecycle::Anonymized => 3int,
                };
            let joined = !model::before(out[j].created_at@, out[i].created_at@);
            &&& sorted_by(q, "name"@) ==> {
                &&& !text::text_less(lower(y), lower(x))
                &&& lower(x) == lower(y) ==> joined
            }
            &&& sorted_by(q, "role"@) ==> {
                &&& rank(x) <= rank(y)
                &&& rank(x) == rank(y) ==> joined
            }
            &&& sorted_by(q, "status"@) ==> {
                &&& stage(x) <= stage(y)
                &&& stage(x) == stage(y) ==> joined
            }
            &&& !sorted_by(q, "name"@) && !sorted_by(q, "role"@) && !sorted_by(q, "status"@)
                ==> !model::before(y.created_at@, x.created_at@)
        }),
{
    let request = members::request_of(q);
    reveal_strlit("name");
    reveal_strlit("role");
    reveal_strlit("status");
    assert("name"@[0] == 'n' && "role"@[0] == 'r' && "status"@[0] == 's');
    assert(!sorting::user_less(out[j], out[i], request.sort));
    text::lemma_text_less_total(
        text::lowercase(out[i].display_name@),
        text::lowercase(out[j].display_name@),
    );
    text::lemma_text_less_total(
        text::lowercase(out[j].display_name@),
        text::lowercase(out[i].display_name@),
    );
}

// ---- Its pages -------------------------------------------------------------------------------

/// Once its accounts are there, the directory asks when each of them was last seen, then for the
/// waiting transitions of those on the shown page, and is drawn from all of that.
pub proof fn law_directory_runs(
    ctx: &ChromeContext,
    q: &MembersPageQuery,
    a: MembersAnswers,
    now: &Timestamp,
    users: Vec<User>,
    open: Vec<Invitation>,
    activity: Vec<LastActivity>,
    pending: Vec<TransitionRow>,
)
    requires
        outcome::admin(ctx.user.instance_role),
        !by_status(q, UserLifecycle::PendingInvite),
        a.accounts == Accounts::Arranged(users),
    ensures
        ({
            let s = members::members_step(ctx, q, a, now);
            let invited = if unfiltered(q) {
                open@
            } else {
                Seq::empty()
            };
            &&& unfiltered(q) && a.invitations is NotYet ==> s == step::StepView::<
                MembersAskView,
            >::Ask(MembersAskView::Invitations)
            &&& unfiltered(q) ==> a.invitations == Asked::Answer(open) ==> {
                &&& a.activity is NotYet ==> s is Ask && s->Ask_0 is Activity
                &&& a.activity is Answer && a.pending is None ==> s is Ask && s->Ask_0 is Pending
            }
            &&& s is Ask && s->Ask_0 is Activity ==> {
                &&& s->Ask_0->Activity_0.len() == users@.len()
                &&& forall|i: int|
                    0 <= i < users@.len() ==> #[trigger] s->Ask_0->Activity_0[i] == users@[i].id
            }
            &&& s is Ask && s->Ask_0 is Pending ==> {
                &&& unfiltered(q) ==> a.invitations is Answer
                &&& forall|id: Uuid| #[trigger]
                    s->Ask_0->Pending_0.contains(id) ==> exists|i: int|
                        0 <= i < users@.len() && #[trigger] users@[i].id == id
            }
            &&& (unfiltered(q) ==> a.invitations == Asked::Answer(open)) && a.activity
                == Asked::Answer(activity) && a.pending == Some(pending) ==> outcome::ends_with(
                s,
                reply::ok_page(
                    rows::members_page_html(
                        ctx,
                        members::window(users@, invited, activity@, q),
                        members::request_of(q).sort,
                        members::request_of(q).filter,
                        members::table_paging(users@.len(), invited.len(), q),
                        pending@,
                        now,
                    ),
                ),
            )
        }),
{
    lemma_words();
    if q.filter is Some {
        let t = q.filter->0@;
        if unfiltered(q) {
            assert(!by_status(q, UserLifecycle::Active));
            assert(!by_status(q, UserLifecycle::Deactivated));
            assert(!by_status(q, UserLifecycle::Anonymized));
            assert(!by_role(q, InstanceRole::Owner));
            assert(!by_role(q, InstanceRole::Admin));
            assert(!by_role(q, InstanceRole::Member));
        } else {
            assert(exists|l: UserLifecycle| by_status(q, l) || exists|r: InstanceRole| by_role(q, r));
        }
    } else {
        assert(unfiltered(q));
    }
    let s = members::members_step(ctx, q, a, now);
    let n = if unfiltered(q) {
        a.invitations->Answer_0@.len()
    } else {
        0
    };
    if s is Ask && s->Ask_0 is Pending {
        let ids = s->Ask_0->Pending_0;
        let start = listing::first_row(members::table_paging(users@.len(), n, q));
        listing::law_page_in_table(members::counted_rows(users@.len(), n), q.page, q.rows);
        assert(0 <= start) by (nonlinear_arith)
            requires
                start == (members::table_paging(users@.len(), n, q).current_page - 1)
                    * members::table_paging(users@.len(), n, q).rows_per_page,
                members::table_paging(users@.len(), n, q).current_page >= 1,
        ;
        assert forall|id: Uuid| #[trigger] ids.contains(id) implies exists|i: int|
            0 <= i < users@.len() && #[trigger] users@[i].id == id by {
            let k = choose|k: int| 0 <= k < ids.len() && ids[k] == id;
            assert(users@[start + k].id == id);
        }
    }
}

/// A row of the directory is an account or an open invitation of it, the accounts first. The row
/// of an account says when that account was last seen, if the answers hold it.
pub proof fn law_directory_rows(
    users: Seq<User>,
    open: Seq<Invitation>,
    activity: Seq<LastActivity>,
    q: &MembersPageQuery,
    i: int,
)
    requires
        0 <= i < members::window(users, open, activity, q).len(),
    ensures
        ({
            let row = members::window(users, open, activity, q)[i];
            let p = members::table_paging(users.len(), open.len(), q);
            let k = (p.current_page - 1) * p.rows_per_page + i;
            &&& 0 <= i < p.rows_per_page
            &&& 0 <= k < users.len() + open.len()
            &&& k < users.len() ==> row is Member && row->user == users[k] && match row->last_activity {
                Some(t) => exists|n: int|
                    0 <= n < activity.len() && (#[trigger] activity[n]).user_id == users[k].id
                        && activity[n].at == t,
                None => forall|n: int|
                    0 <= n < activity.len() ==> (#[trigger] activity[n]).user_id != users[k].id,
            }
            &&& k >= users.len() ==> row == MemberRow::PendingInvite(&open[k - users.len()])
        }),
{
    let p = members::table_paging(users.len(), open.len(), q);
    let k = (p.current_page - 1) * p.rows_per_page + i;
    listing::law_page_in_table(members::counted_rows(users.len(), open.len()), q.page, q.rows);
    assert((p.current_page - 1) * p.rows_per_page >= 0) by (nonlinear_arith)
        requires
            p.current_page >= 1,
    ;
    if k < users.len() {
        lemma_activity(activity, users[k].id);
    }
}

proof fn lemma_activity(activity: Seq<LastActivity>, id: Uuid)
    ensures
        match members::activity_of(activity, id) {
            Some(t) => exists|n: int|
                0 <= n < activity.len() && (#[trigger] activity[n]).user_id == id && activity[n].at
                    == t,
            None => forall|n: int|
                0 <= n < activity.len() ==> (#[trigger] activity[n]).user_id != id,
        },
    decreases activity.len(),
{
    if activity.len() > 0 && activity[0].user_id != id {
        let rest = activity.skip(1);
        lemma_activity(rest, id);
        match members::activity_of(rest, id) {
            Some(t) => {
                let n = choose|n: int|
                    0 <= n < rest.len() && (#[trigger] rest[n]).user_id == id && rest[n].at == t;
                assert(activity[n + 1] == rest[n]);
            },
            None => {
                assert forall|n: int| 0 <= n < activity.len() implies (
                #[trigger] activity[n]).user_id != id by {
                    if n > 0 {
                        assert(activity[n] == rest[n - 1]);
                    }
                }
            },
        }
    }
}

/// The waiting transitions that are asked for are those of the members whose rows are shown, of all
/// of them and nobody else.
pub proof fn law_directory_asks_for_the_shown(
    users: Seq<User>,
    open: Seq<Invitation>,
    activity: Seq<LastActivity>,
    q: &MembersPageQuery,
    id: Uuid,
)
    ensures
        members::displayed(users, open.len(), q).contains(id) <==> exists|i: int|
            0 <= i < members::window(users, open, activity, q).len() && (
            #[trigger] members::window(users, open, activity, q)[i]) is Member
                && members::window(users, open, activity, q)[i]->user.id == id,
{
    let rows = members::window(users, open, activity, q);
    let ids = members::displayed(users, open.len(), q);
    let p = members::table_paging(users.len(), open.len(), q);
    let start = listing::first_row(p);
    listing::law_page_in_table(members::counted_rows(users.len(), open.len()), q.page, q.rows);
    assert(start >= 0) by (nonlinear_arith)
        requires
            start == (p.current_page - 1) * p.rows_per_page,
            p.current_page >= 1,
    ;
    if ids.contains(id) {
        let k = choose|k: int| 0 <= k < ids.len() && ids[k] == id;
        assert(rows[k] is Member && rows[k]->user.id == id);
    }
    if exists|i: int| 0 <= i < rows.len() && (#[trigger] rows[i]) is Member && rows[i]->user.id
        == id {
        let i = choose|i: int|
            0 <= i < rows.len() && (#[trigger] rows[i]) is Member && rows[i]->user.id == id;
        assert(ids[i] == id);
    }
}

/// Members who joined at the same moment stay in the order of the listing, where the directory is
/// sorted by the date of joining.
pub proof fn law_ties_keep_their_order(
    q: &MembersPageQuery,
    users: Seq<User>,
    out: Seq<User>,
    u: User,
)
    requires
        q.filter is None,
        q.sort is None,
        members::arranged(users, out, members::request_of(q)),
    ensures
        ({
            let alike = |v: User| v.created_at@ == u.created_at@;
            out.filter(alike) == users.filter(alike)
        }),
{
    let request = members::request_of(q);
    let keep = |v: User| listing::passes_filter(v, request.filter);
    assert forall|i: int| 0 <= i < users.len() implies keep(#[trigger] users[i]) by {}
    lemma_filter_all(users, keep);
    let alike = |v: User| v.created_at@ == u.created_at@;
    let tied = |v: User| sorting::user_tied(u, v, request.sort);
    assert(alike =~= tied);
    assert(sorting::tied_with(out, u, request.sort) == sorting::tied_with(users, u, request.sort));
}

// ---- What may be done to a member ------------------------------------------------------------

/// An action on a member is asked of the store in the name of the confirmed caller, about the
/// member who was picked. The caller is sent back to the directory, and told in the words of the
/// outcome.
pub proof fn law_member_actions_run(
    c: &Caller,
    change: MemberChange,
    done: Seq<char>,
    waiting: Seq<char>,
    o: Option<LifecycleOutcome>,
    name: String,
    code: String,
)
    requires
        outcome::confirmed(c),
        outcome::admin(c.role),
    ensures
        ({
            let s = members::lifecycle_step(c, change, done, waiting, o);
            let failing = |why: Seq<char>|
                outcome::ends_with(s, reply::moved_failing("/members"@, c.htmx, why));
            &&& o is None ==> s == step::StepView::<MemberAction>::Ask(
                MemberAction { by: c.user_id, change },
            )
            &&& o == Some(LifecycleOutcome::Applied { name }) ==> outcome::ends_with(
                s,
                reply::moved_after("/members"@, c.htmx, done, Some(name@)),
            )
            &&& o == Some(LifecycleOutcome::Pending) ==> outcome::ends_with(
                s,
                reply::moved_after("/members"@, c.htmx, waiting, None),
            )
            &&& o == Some(LifecycleOutcome::NotFound) ==> failing("user_not_found"@)
            &&& o == Some(LifecycleOutcome::SelfTarget) ==> failing("cannot_target_self"@)
            &&& o == Some(LifecycleOutcome::PeerOrHigher) ==> failing(
                "cannot_target_peer_or_higher"@,
            )
            &&& o == Some(LifecycleOutcome::Conflict(code)) ==> failing(code@)
            &&& o == Some(LifecycleOutcome::InvalidRecoveryCode) ==> failing(
                "invalid_recovery_code"@,
            )
            &&& o == Some(LifecycleOutcome::PendingActionExists) ==> failing(
                "pending_action_exists"@,
            )
            &&& o == Some(LifecycleOutcome::Failed) ==> s is Finish && outcome::has_status(
                s->Finish_0.reply,
                500,
            )
        }),
{
}

/// A change of role is asked of the store in the name of the confirmed caller, for the member and
/// the role that were picked. The caller is sent back to the directory, and told in the words of
/// the outcome.
pub proof fn law_role_changes_run(
    c: &Caller,
    target: Uuid,
    role: InstanceRole,
    o: Option<RoleOutcome>,
    name: String,
)
    requires
        outcome::confirmed(c),
        outcome::admin(c.role),
    ensures
        ({
            let s = members::role_step(c, target, role, o);
            let failing = |why: Seq<char>|
                outcome::ends_with(s, reply::moved_failing("/members"@, c.htmx, why));
            &&& o is None ==> s == step::StepView::<MemberAction>::Ask(
                MemberAction { by: c.user_id, change: MemberChange::SetRole { target, role } },
            )
            &&& o == Some(RoleOutcome::Applied { name }) ==> outcome::ends_with(
                s,
                reply::moved_after("/members"@, c.htmx, "role_changed"@, Some(name@)),
            )
            &&& o == Some(RoleOutcome::Pending) ==> outcome::ends_with(
                s,
                reply::moved_after("/members"@, c.htmx, "pending_role_change"@, None),
            )
            &&& o == Some(RoleOutcome::Forbidden) ==> failing("forbidden"@)
            &&& o == Some(RoleOutcome::NotFound) ==> failing("user_not_found"@)
            &&& o == Some(RoleOutcome::SelfTarget) ==> failing("cannot_target_self"@)
            &&& o == Some(RoleOutcome::NotActive) ==> failing("not_active"@)
            &&& o == Some(RoleOutcome::AlreadyInRole) ==> failing("already_in_role"@)
            &&& o == Some(RoleOutcome::InvalidRecoveryCode) ==> failing("invalid_recovery_code"@)
            &&& o == Some(RoleOutcome::PendingActionExists) ==> failing("pending_action_exists"@)
            &&& o == Some(RoleOutcome::Failed) ==> s is Finish && outcome::has_status(
                s->Finish_0.reply,
                500,
            )
        }),
{
}

/// Whether one role stands above another: an owner above everybody, an admin above members.
pub open spec fn above(viewer: InstanceRole, target: InstanceRole) -> bool {
    viewer == InstanceRole::Owner || (viewer == InstanceRole::Admin && target
        == InstanceRole::Member)
}

/// What may be done to another member: nothing by those who do not stand above them or to an
/// account that is anonymized or not yet joined; an active account is deactivated and a
/// deactivated one reactivated, only owners change roles, and both kinds of account can be
/// anonymized and deleted.
pub proof fn law_actions_offered(
    viewer: InstanceRole,
    role: InstanceRole,
    lifecycle: UserLifecycle,
    action: RowAction,
)
    ensures
        rows::offered_actions(viewer, role, lifecycle, false).contains(action) <==> {
            &&& above(viewer, role)
            &&& lifecycle == UserLifecycle::Active || lifecycle == UserLifecycle::Deactivated
            &&& match action {
                RowAction::Deactivate => lifecycle == UserLifecycle::Active,
                RowAction::Reactivate => lifecycle == UserLifecycle::Deactivated,
                RowAction::ChangeRole => viewer == InstanceRole::Owner,
                RowAction::Anonymize => true,
                RowAction::Delete => true,
            }
        },
{
    let s = rows::offered_actions(viewer, role, lifecycle, false);
    let n = s.len() as int;
    if n > 0 {
        assert(s[n - 1] == RowAction::Delete && s[n - 2] == RowAction::Anonymize);
        assert(n == 3 || n == 4);
        assert(viewer == InstanceRole::Owner ==> s[1] == RowAction::ChangeRole);
        assert(lifecycle == UserLifecycle::Active ==> s[0] == RowAction::Deactivate);
        assert(lifecycle == UserLifecycle::Deactivated ==> s[0] == RowAction::Reactivate);
    }
}

/// The dialog of an action is about the member who was picked, and goes to admins who may take the
/// action on them.
pub proof fn law_action_dialogs_run(
    ctx: &ChromeContext,
    id: Uuid,
    segment: Seq<char>,
    target: Asked<Option<User>>,
    user: User,
    action: RowAction,
)
    requires
        outcome::admin(ctx.user.instance_role),
        rows::segment_action(segment) == Some(action),
    ensures
        ({
            let s = members::action_modal_step(ctx, id, segment, target);
            &&& target is NotYet ==> s == step::StepView::<LookUp>::Ask(LookUp { id })
            &&& target == Asked::Answer(None::<User>) ==> s is Finish && outcome::has_status(
                s->Finish_0.reply,
                404,
            )
            &&& target == Asked::Answer(Some(user)) ==> {
                let may = ctx.user.id != id && rows::offered_actions(
                    ctx.user.instance_role,
                    user.instance_role,
                    user.lifecycle,
                    false,
                ).contains(action);
                &&& !may ==> s is Finish && outcome::has_status(s->Finish_0.reply, 403)
                &&& may && rows::action_modal_html(segment, &user, ctx.csrf_token@) is Some
                    ==> outcome::ends_with(
                    s,
                    reply::ok_page(
                        rows::action_modal_html(segment, &user, ctx.csrf_token@)->0,
                    ),
                )
            }
        }),
{
}

/// The last part of a dialog's address says what the dialog does.
pub proof fn law_dialog_addresses(segment: Seq<char>)
    ensures
        segment == "deactivate"@ ==> rows::segment_action(segment) == Some(RowAction::Deactivate),
        segment == "reactivate"@ ==> rows::segment_action(segment) == Some(RowAction::Reactivate),
        segment == "role"@ ==> rows::segment_action(segment) == Some(RowAction::ChangeRole),
        segment == "role-owner-confirm"@ ==> rows::segment_action(segment) == Some(
            RowAction::ChangeRole,
        ),
        segment == "anonymize"@ ==> rows::segment_action(segment) == Some(RowAction::Anonymize),
        segment == "delete"@ ==> rows::segment_action(segment) == Some(RowAction::Delete),
        rows::segment_action(segment) is Some ==> segment == "deactivate"@ || segment
            == "reactivate"@ || segment == "role"@ || segment == "role-owner-confirm"@ || segment
            == "anonymize"@ || segment == "delete"@,
{
    reveal_strlit("deactivate");
    reveal_strlit("reactivate");
    reveal_strlit("role");
    reveal_strlit("role-owner-confirm");
    reveal_strlit("anonymize");
    reveal_strlit("delete");
    assert("deactivate"@[0] == 'd' && "deactivate"@.len() == 10);
    assert("reactivate"@[0] == 'r' && "reactivate"@.len() == 10);
    assert("role"@.len() == 4 && "role-owner-confirm"@.len() == 18);
    assert("anonymize"@.len() == 9 && "delete"@.len() == 6);
}

} // verus!
