//! The member directory and the actions on members.

use vstd::prelude::*;
use crate::flows::step;
use crate::flows::step::{Asked, LookUp, Step};
use crate::forms::{MembersPageQuery, RoleChangeForm};
use crate::gate;
use crate::gate::{Caller, Floor};
use crate::html::Markup;
use crate::listing;
use crate::listing::{MemberFetch, MemberFilter, PaginationState, SortState};
use crate::model::{InstanceRole, Invitation, Timestamp, TransitionRow, User, Uuid};
use crate::reply;
use crate::reply::{error_response, redirect_with_action_toast, redirect_with_error_toast, Reply};
use crate::sorting;
use crate::text;
use crate::views::members;
use crate::views::members::{MemberRow, MembersBanner, RowAction};
use crate::views::shell::{ChromeContext, SiteInfo};

verus! {

// ---- The directory ---------------------------------------------------------------------------

/// What a request for the directory is about.
#[derive(Clone, Copy, Debug, PartialEq, Eq, Structural)]
pub struct MembersRequest {
    pub filter: MemberFilter,
    pub sort: SortState,
    /// Which accounts to look up.
    pub accounts: MemberFetch,
    /// Whether open invitations are listed too.
    pub invitations: bool,
}

pub open spec fn request_of(q: &MembersPageQuery) -> MembersRequest {
    let filter = listing::requested_filter(text::opt_string(q.filter));
    MembersRequest {
        filter,
        sort: SortState {
            column: listing::sort_column_of(text::opt_string(q.sort)),
            direction: listing::sort_direction_of(text::opt_string(q.dir)),
        },
        accounts: listing::member_fetch_of(filter),
        invitations: listing::shows_invitations(filter),
    }
}

/// Reads a request for the directory, which is for admins and owners.
pub fn members_request(site: &SiteInfo, role: InstanceRole, q: &MembersPageQuery) -> (r: Result<MembersRequest, Reply>)
    ensures
        match r {
            Ok(request) => gate::reaches(role, Floor::Admin) && request == request_of(q),
            Err(reply) => !gate::reaches(role, Floor::Admin) && reply@ == gate::too_low(
                site,
                Floor::Admin,
            ),
        },
{
    match gate::require_admin(site, role) {
        Ok(()) => {
            let filter = listing::filter_from_query(text::lend(&q.filter));
            Ok(
                MembersRequest {
                    filter,
                    sort: SortState {
                        column: listing::parse_sort_column(text::lend(&q.sort)),
                        direction: listing::parse_sort_direction(text::lend(&q.dir)),
                    },
                    accounts: listing::member_fetch(filter),
                    invitations: listing::fetches_invitations(filter),
                },
            )
        },
        Err(reply) => Err(reply),
    }
}

/// Whether `out` is the accounts of `users` that a request is about, in the order it asks for.
pub open spec fn arranged(users: Seq<User>, out: Seq<User>, request: MembersRequest) -> bool {
    sorting::sorts(
        users.filter(|u: User| listing::passes_filter(u, request.filter)),
        out,
        request.sort,
    )
}

/// Filters and sorts the accounts that were looked up.
pub fn arrange_members(users: Vec<User>, request: MembersRequest) -> (r: Vec<User>)
    ensures
        arranged(users@, r@, request),
{
    sorting::sort_users(listing::retain_by_role(users, request.filter), request.sort)
}

/// When an account was last seen.
#[derive(Clone, Copy)]
pub struct LastActivity {
    pub user_id: Uuid,
    pub at: Timestamp,
}

/// When an account was last seen, if it ever was: the first entry for it.
pub open spec fn activity_of(activity: Seq<LastActivity>, id: Uuid) -> Option<Timestamp>
    decreases activity.len(),
{
    if activity.len() == 0 {
        None
    } else if activity[0].user_id == id {
        Some(activity[0].at)
    } else {
        activity_of(activity.skip(1), id)
    }
}

fn find_activity(activity: &Vec<LastActivity>, id: Uuid) -> (r: Option<Timestamp>)
    ensures
        r == activity_of(activity@, id),
{
    let mut i: usize = 0;
    assert(activity@.skip(0) =~= activity@);
    while i < activity.len()
        invariant
            i <= activity@.len(),
            activity_of(activity@, id) == activity_of(activity@.skip(i as int), id),
        decreases activity@.len() - i,
    {
        assert(activity@.skip(i as int).skip(1) =~= activity@.skip(i + 1));
        if activity[i].user_id == id {
            return Some(activity[i].at);
        }
        i += 1;
    }
    None
}

/// The accounts and then the invitations, as rows of one table.
pub open spec fn table_row_at(
    members: Seq<User>,
    invitations: Seq<Invitation>,
    activity: Seq<LastActivity>,
    i: int,
) -> MemberRow<'static> {
    if i < members.len() {
        MemberRow::Member {
            user: &members[i],
            last_activity: activity_of(activity, members[i].id),
        }
    } else {
        MemberRow::PendingInvite(&invitations[i - members.len()])
    }
}

/// The number of rows of the table, as far as 32 bits go.
pub open spec fn counted_rows(members: nat, invitations: nat) -> u32 {
    ((members + invitations) % 0x1_0000_0000) as u32
}

/// The paging of the table.
pub open spec fn table_paging(members: nat, invitations: nat, q: &MembersPageQuery) -> PaginationState {
    listing::pagination_of(counted_rows(members, invitations), q.page, q.rows)
}

/// Index behind the last row shown.
pub open spec fn window_end(members: nat, invitations: nat, q: &MembersPageQuery) -> int {
    let p = table_paging(members, invitations, q);
    if listing::first_row(p) + p.rows_per_page < members + invitations {
        listing::first_row(p) + p.rows_per_page
    } else {
        (members + invitations) as int
    }
}

/// The rows of the shown page.
pub open spec fn window(
    members: Seq<User>,
    invitations: Seq<Invitation>,
    activity: Seq<LastActivity>,
    q: &MembersPageQuery,
) -> Seq<MemberRow<'static>> {
    let start = listing::first_row(table_paging(members.len(), invitations.len(), q));
    let end = window_end(members.len(), invitations.len(), q);
    Seq::new(
        (end - start) as nat,
        |i: int| table_row_at(members, invitations, activity, start + i),
    )
}

/// Where the shown page starts and ends.
struct Window {
    paging: PaginationState,
    start: usize,
    end: usize,
}

proof fn lemma_window(members: nat, invitations: nat, q: &MembersPageQuery)
    ensures
        0 <= listing::first_row(table_paging(members, invitations, q)) <= window_end(
            members,
            invitations,
            q,
        ) <= members + invitations,
        listing::first_row(table_paging(members, invitations, q)) <= u32::MAX,
{
    let total = counted_rows(members, invitations);
    listing::law_page_in_table(total, q.page, q.rows);
    let n = (members + invitations) as int;
    assert(n % 0x1_0000_0000 <= n) by (nonlinear_arith)
        requires
            n >= 0,
    ;
}

fn window_of(members: usize, invitations: usize, q: &MembersPageQuery) -> (w: Window)
    requires
        members + invitations <= usize::MAX,
    ensures
        w.paging == table_paging(members as nat, invitations as nat, q),
        w.start == listing::first_row(w.paging),
        w.end == window_end(members as nat, invitations as nat, q),
        w.start <= w.end <= members + invitations,
{
    let n: usize = members + invitations;
    let total: u32 = (n as u64 % 0x1_0000_0000) as u32;
    let paging = listing::paginate(total, q.page, q.rows);
    proof {
        lemma_window(members as nat, invitations as nat, q);
    }
    let start: u64 = (paging.current_page - 1) as u64 * paging.rows_per_page as u64;
    let stop: u64 = start + paging.rows_per_page as u64;
    let end: usize = if stop < n as u64 {
        stop as usize
    } else {
        n
    };
    Window { paging, start: start as usize, end }
}

/// The accounts on the shown page.
pub open spec fn displayed(members: Seq<User>, invitations: nat, q: &MembersPageQuery) -> Seq<Uuid> {
    let start = listing::first_row(table_paging(members.len(), invitations, q));
    let end = window_end(members.len(), invitations, q);
    let last = if end < members.len() {
        end
    } else {
        members.len() as int
    };
    Seq::new(
        if start < last {
            (last - start) as nat
        } else {
            0
        },
        |i: int| members[start + i].id,
    )
}

/// The accounts on the shown page, whose waiting transitions are to be looked up.
pub fn displayed_target_ids(members: &Vec<User>, invitations: &Vec<Invitation>, q: &MembersPageQuery) -> (r: Vec<Uuid>)
    requires
        members@.len() + invitations@.len() <= usize::MAX,
    ensures
        r@ == displayed(members@, invitations@.len(), q),
{
    let w = window_of(members.len(), invitations.len(), q);
    let mut ids: Vec<Uuid> = Vec::new();
    let mut i: usize = w.start;
    while i < w.end && i < members.len()
        invariant
            w.start <= i <= w.end,
            i <= members@.len() || i == w.start,
            w.start == listing::first_row(table_paging(members@.len(), invitations@.len(), q)),
            w.end == window_end(members@.len(), invitations@.len(), q),
            ids@.len() == i - w.start,
            forall|k: int| 0 <= k < ids@.len() ==> ids@[k] == #[trigger] members@[w.start + k].id,
        decreases w.end - i,
    {
        ids.push(members[i].id);
        i += 1;
    }
    assert(ids@ =~= displayed(members@, invitations@.len(), q));
    ids
}

/// The ids of accounts, in their order.
pub fn member_ids(users: &Vec<User>) -> (r: Vec<Uuid>)
    ensures
        r@ == users@.map_values(|u: User| u.id),
{
    let mut ids: Vec<Uuid> = Vec::new();
    let mut i: usize = 0;
    while i < users.len()
        invariant
            i <= users@.len(),
            ids@ == users@.take(i as int).map_values(|u: User| u.id),
        decreases users@.len() - i,
    {
        ids.push(users[i].id);
        i += 1;
        assert(ids@ =~= users@.take(i as int).map_values(|u: User| u.id));
    }
    assert(users@.take(i as int) =~= users@);
    ids
}

/// The shown page of the directory.
pub open spec fn directory_html(
    ctx: &ChromeContext,
    request: MembersRequest,
    q: &MembersPageQuery,
    members: Seq<User>,
    invitations: Seq<Invitation>,
    activity: Seq<LastActivity>,
    pending: Seq<TransitionRow>,
    now: &Timestamp,
) -> Seq<char> {
    members::members_page_html(
        ctx,
        window(members, invitations, activity, q),
        request.sort,
        request.filter,
        table_paging(members.len(), invitations.len(), q),
        pending,
        now,
    )
}

fn draw_directory(
    ctx: &ChromeContext,
    request: MembersRequest,
    q: &MembersPageQuery,
    members: &Vec<User>,
    invitations: &Vec<Invitation>,
    activity: &Vec<LastActivity>,
    pending: &Vec<TransitionRow>,
    now: &Timestamp,
) -> (m: Markup)
    requires
        members@.len() + invitations@.len() <= usize::MAX,
    ensures
        m@ == directory_html(
            ctx,
            request,
            q,
            members@,
            invitations@,
            activity@,
            pending@,
            now,
        ),
{
    let w = window_of(members.len(), invitations.len(), q);
    let ghost shown = window(members@, invitations@, activity@, q);
    let mut rows: Vec<MemberRow> = Vec::new();
    let mut i: usize = w.start;
    while i < w.end
        invariant
            w.start <= i <= w.end <= members@.len() + invitations@.len(),
            w.start == listing::first_row(table_paging(members@.len(), invitations@.len(), q)),
            w.end == window_end(members@.len(), invitations@.len(), q),
            shown == window(members@, invitations@, activity@, q),
            rows@ == shown.take(i - w.start),
        decreases w.end - i,
    {
        if i < members.len() {
            let user = &members[i];
            rows.push(MemberRow::Member { user, last_activity: find_activity(activity, user.id) });
        } else {
            rows.push(MemberRow::PendingInvite(&invitations[i - members.len()]));
        }
        i += 1;
        assert(rows@ =~= shown.take(i - w.start));
    }
    assert(shown.take(i - w.start) =~= shown);
    let banner = MembersBanner {
        action: text::lend(&q.action),
        target: text::lend(&q.target),
        error: text::lend(&q.error),
    };
    members::members_page(
        ctx,
        rows.as_slice(),
        &banner,
        request.sort,
        request.filter,
        w.paging,
        pending.as_slice(),
        now,
    )
}

/// What the directory asks for.
pub enum MembersAsk {
    /// The accounts that the filter is about.
    Accounts(MemberFetch),
    /// The open invitations.
    Invitations,
    /// When each of these accounts was last seen.
    Activity(Vec<Uuid>),
    /// The waiting transitions that target one of these accounts.
    Pending(Vec<Uuid>),
}

pub enum MembersAskView {
    Accounts(MemberFetch),
    Invitations,
    Activity(Seq<Uuid>),
    Pending(Seq<Uuid>),
}

impl View for MembersAsk {
    type V = MembersAskView;

    open spec fn view(&self) -> MembersAskView {
        match *self {
            MembersAsk::Accounts(fetch) => MembersAskView::Accounts(fetch),
            MembersAsk::Invitations => MembersAskView::Invitations,
            MembersAsk::Activity(ids) => MembersAskView::Activity(ids@),
            MembersAsk::Pending(ids) => MembersAskView::Pending(ids@),
        }
    }
}

/// The accounts of the directory.
pub enum Accounts {
    NotYet,
    /// The store could not list them.
    Failed,
    /// As the store lists them.
    Listed(Vec<User>),
    /// Filtered and sorted.
    Arranged(Vec<User>),
}

/// What is known of the directory so far.
pub struct MembersAnswers {
    pub accounts: Accounts,
    pub invitations: Asked<Vec<Invitation>>,
    pub activity: Asked<Vec<LastActivity>>,
    /// Without those that could not be looked up.
    pub pending: Option<Vec<TransitionRow>>,
}

impl Accounts {
    pub open spec fn count(self) -> nat {
        match self {
            Accounts::Listed(users) => users@.len(),
            Accounts::Arranged(users) => users@.len(),
            _ => 0,
        }
    }
}

impl MembersAnswers {
    /// Number of rows that the table has at most.
    pub open spec fn rows(self) -> nat {
        self.accounts.count() + match self.invitations {
            Asked::Answer(list) => list@.len(),
            _ => 0,
        }
    }
}

/// The directory, once its rows are there.
pub open spec fn rows_step(
    ctx: &ChromeContext,
    q: &MembersPageQuery,
    members: Seq<User>,
    invitations: Seq<Invitation>,
    a: MembersAnswers,
    now: &Timestamp,
) -> step::StepView<MembersAskView> {
    match a.activity {
        Asked::NotYet => step::StepView::Ask(
            MembersAskView::Activity(members.map_values(|u: User| u.id)),
        ),
        Asked::Failed => step::gave_up(ctx.site),
        Asked::Answer(activity) => match a.pending {
            None => step::StepView::Ask(
                MembersAskView::Pending(displayed(members, invitations.len(), q)),
            ),
            Some(pending) => step::replied(
                reply::ok_page(
                    directory_html(
                        ctx,
                        request_of(q),
                        q,
                        members,
                        invitations,
                        activity@,
                        pending@,
                        now,
                    ),
                ),
            ),
        },
    }
}

/// The directory, once its accounts are there.
pub open spec fn invitations_step(
    ctx: &ChromeContext,
    q: &MembersPageQuery,
    members: Seq<User>,
    a: MembersAnswers,
    now: &Timestamp,
) -> step::StepView<MembersAskView> {
    if request_of(q).invitations {
        match a.invitations {
            Asked::NotYet => step::StepView::Ask(MembersAskView::Invitations),
            Asked::Failed => step::gave_up(ctx.site),
            Asked::Answer(list) => rows_step(ctx, q, members, list@, a, now),
        }
    } else {
        rows_step(ctx, q, members, Seq::empty(), a, now)
    }
}

/// The directory. Accounts that were only listed have yet to be arranged.
pub open spec fn members_step(
    ctx: &ChromeContext,
    q: &MembersPageQuery,
    a: MembersAnswers,
    now: &Timestamp,
) -> step::StepView<MembersAskView> {
    if !gate::reaches(ctx.user.instance_role, Floor::Admin) {
        step::replied(gate::too_low(ctx.site, Floor::Admin))
    } else if request_of(q).accounts == MemberFetch::Nothing {
        invitations_step(ctx, q, Seq::empty(), a, now)
    } else {
        match a.accounts {
            Accounts::NotYet | Accounts::Listed(_) => step::StepView::Ask(
                MembersAskView::Accounts(request_of(q).accounts),
            ),
            Accounts::Failed => step::gave_up(ctx.site),
            Accounts::Arranged(users) => invitations_step(ctx, q, users@, a, now),
        }
    }
}

/// The answers with the accounts arranged, where they were only listed.
pub open spec fn arranges(before: MembersAnswers, after: MembersAnswers, q: &MembersPageQuery) -> bool {
    &&& after.invitations == before.invitations
    &&& after.activity == before.activity
    &&& after.pending == before.pending
    &&& match before.accounts {
        Accounts::Listed(users) => after.accounts matches Accounts::Arranged(members) && arranged(
            users@,
            members@,
            request_of(q),
        ),
        _ => after.accounts == before.accounts,
    }
}

fn arrange_accounts(a: &mut MembersAnswers, request: MembersRequest, Ghost(q): Ghost<&MembersPageQuery>)
    requires
        request == request_of(q),
    ensures
        arranges(*old(a), *final(a), q),
        final(a).rows() <= old(a).rows(),
{
    let mut accounts = Accounts::NotYet;
    std::mem::swap(&mut accounts, &mut a.accounts);
    a.accounts = match accounts {
        Accounts::Listed(users) => {
            let members = arrange_members(users, request);
            proof {
                let kept = users@.filter(|u: User| listing::passes_filter(u, request.filter));
                users@.lemma_filter_len(|u: User| listing::passes_filter(u, request.filter));
                kept.to_multiset_ensures();
                members@.to_multiset_ensures();
            }
            Accounts::Arranged(members)
        },
        other => other,
    };
}

fn show_rows(
    ctx: &ChromeContext,
    q: &MembersPageQuery,
    request: MembersRequest,
    members: &Vec<User>,
    invitations: &Vec<Invitation>,
    a: &MembersAnswers,
    now: &Timestamp,
) -> (r: Step<MembersAsk>)
    requires
        request == request_of(q),
        members@.len() + invitations@.len() <= usize::MAX,
    ensures
        r@ == rows_step(ctx, q, members@, invitations@, *a, now),
{
    match &a.activity {
        Asked::NotYet => Step::Ask(MembersAsk::Activity(member_ids(members))),
        Asked::Failed => Step::gave_up(ctx.site),
        Asked::Answer(activity) => match &a.pending {
            None => Step::Ask(MembersAsk::Pending(displayed_target_ids(members, invitations, q))),
            Some(pending) => Step::replied(
                Reply::ok_page(
                    draw_directory(ctx, request, q, members, invitations, activity, pending, now),
                ),
            ),
        },
    }
}

/// `GET /members`: the directory of accounts and open invitations, for admins and owners.
/// Accounts that were only listed are arranged in place.
pub fn members_page(
    ctx: &ChromeContext,
    q: &MembersPageQuery,
    a: &mut MembersAnswers,
    now: &Timestamp,
) -> (r: Step<MembersAsk>)
    requires
        old(a).rows() <= usize::MAX,
    ensures
        gate::reaches(ctx.user.instance_role, Floor::Admin) ==> arranges(*old(a), *final(a), q),
        !gate::reaches(ctx.user.instance_role, Floor::Admin) ==> *final(a) == *old(a),
        r@ == members_step(ctx, q, *final(a), now),
{
    let request = match members_request(ctx.site, ctx.user.instance_role, q) {
        Ok(request) => request,
        Err(reply) => {
            return Step::replied(reply);
        },
    };
    arrange_accounts(a, request, Ghost(q));
    let none: Vec<User> = Vec::new();
    let members: &Vec<User> = match request.accounts {
        MemberFetch::Nothing => &none,
        _ => match &a.accounts {
            Accounts::NotYet | Accounts::Listed(_) => {
                return Step::Ask(MembersAsk::Accounts(request.accounts));
            },
            Accounts::Failed => {
                return Step::gave_up(ctx.site);
            },
            Accounts::Arranged(users) => users,
        },
    };
    if request.invitations {
        match &a.invitations {
            Asked::NotYet => Step::Ask(MembersAsk::Invitations),
            Asked::Failed => Step::gave_up(ctx.site),
            Asked::Answer(list) => show_rows(ctx, q, request, members, list, a, now),
        }
    } else {
        let nobody: Vec<Invitation> = Vec::new();
        show_rows(ctx, q, request, members, &nobody, a, now)
    }
}

/// Nobody below an admin gets to see the directory, whatever is asked of it.
pub proof fn law_directory_is_gated(
    ctx: &ChromeContext,
    q: &MembersPageQuery,
    a: MembersAnswers,
    now: &Timestamp,
)
    requires
        ctx.user.instance_role == InstanceRole::Member,
    ensures
        members_step(ctx, q, a, now) == step::replied::<MembersAskView>(
            gate::too_low(ctx.site, Floor::Admin),
        ),
{
}

/// The shown page never holds more rows than the page size, and it is empty only where the table
/// is.
pub proof fn law_window_size(
    members: Seq<User>,
    invitations: Seq<Invitation>,
    activity: Seq<LastActivity>,
    q: &MembersPageQuery,
)
    requires
        members.len() + invitations.len() <= u32::MAX,
    ensures
        window(members, invitations, activity, q).len() <= table_paging(
            members.len(),
            invitations.len(),
            q,
        ).rows_per_page,
        members.len() + invitations.len() > 0 ==> window(members, invitations, activity, q).len()
            > 0,
{
    let n = (members.len() + invitations.len()) as int;
    lemma_window(members.len(), invitations.len(), q);
    assert(n % 0x1_0000_0000 == n) by (nonlinear_arith)
        requires
            0 <= n < 0x1_0000_0000,
    ;
    listing::law_page_in_table(n as u32, q.page, q.rows);
}

// ---- Actions ---------------------------------------------------------------------------------

/// What is to be done to a member.
#[derive(Clone, Copy, Debug, PartialEq, Eq, Structural)]
pub enum MemberChange {
    Deactivate(Uuid),
    Reactivate(Uuid),
    Anonymize(Uuid),
    Delete(Uuid),
    SetRole { target: Uuid, role: InstanceRole },
}

/// What is to be done to a member, in whose name.
#[derive(Clone, Copy, Debug, PartialEq, Eq, Structural)]
pub struct MemberAction {
    pub by: Uuid,
    pub change: MemberChange,
}

impl View for MemberAction {
    type V = MemberAction;

    open spec fn view(&self) -> MemberAction {
        *self
    }
}

/// How an action on a member went.
pub enum LifecycleOutcome {
    /// It was done, to the member of this name.
    Applied { name: String },
    /// It waits for its veto window.
    Pending,
    NotFound,
    SelfTarget,
    PeerOrHigher,
    /// The account is in a state that rules it out; the code says which.
    Conflict(String),
    InvalidRecoveryCode,
    PendingActionExists,
    Failed,
}

/// The code of a failed action, unless the store failed.
pub open spec fn lifecycle_code(o: LifecycleOutcome) -> Option<Seq<char>> {
    match o {
        LifecycleOutcome::NotFound => Some("user_not_found"@),
        LifecycleOutcome::SelfTarget => Some("cannot_target_self"@),
        LifecycleOutcome::PeerOrHigher => Some("cannot_target_peer_or_higher"@),
        LifecycleOutcome::Conflict(code) => Some(code@),
        LifecycleOutcome::InvalidRecoveryCode => Some("invalid_recovery_code"@),
        LifecycleOutcome::PendingActionExists => Some("pending_action_exists"@),
        _ => None,
    }
}

/// The reply to an action on a member: back to the directory with a toast, or a failure.
pub open spec fn lifecycle_reply(
    c: &Caller,
    done: Seq<char>,
    waiting: Seq<char>,
    o: LifecycleOutcome,
) -> reply::ReplyView {
    match o {
        LifecycleOutcome::Applied { name } => reply::moved_after(
            "/members"@,
            c.htmx,
            done,
            Some(name@),
        ),
        LifecycleOutcome::Pending => reply::moved_after("/members"@, c.htmx, waiting, None),
        _ => match lifecycle_code(o) {
            Some(code) => reply::moved_failing("/members"@, c.htmx, code),
            None => reply::internal_failure(c.site),
        },
    }
}

/// The steps of an action on a member, which is for admins and owners, freshly confirmed.
pub open spec fn lifecycle_step(
    c: &Caller,
    change: MemberChange,
    done: Seq<char>,
    waiting: Seq<char>,
    outcome: Option<LifecycleOutcome>,
) -> step::StepView<MemberAction> {
    if !gate::admitted(c, Floor::Admin, true) {
        step::replied(gate::refusal(c, Floor::Admin))
    } else {
        match outcome {
            None => step::StepView::Ask(MemberAction { by: c.user_id, change }),
            Some(o) => step::replied(lifecycle_reply(c, done, waiting, o)),
        }
    }
}

fn lifecycle_error_to_response(c: &Caller, o: &LifecycleOutcome) -> (r: Reply)
    ensures
        r@ == (match lifecycle_code(*o) {
            Some(code) => reply::moved_failing("/members"@, c.htmx, code),
            None => reply::internal_failure(c.site),
        }),
{
    let code: &str = match o {
        LifecycleOutcome::NotFound => "user_not_found",
        LifecycleOutcome::SelfTarget => "cannot_target_self",
        LifecycleOutcome::PeerOrHigher => "cannot_target_peer_or_higher",
        LifecycleOutcome::Conflict(code) => code.as_str(),
        LifecycleOutcome::InvalidRecoveryCode => "invalid_recovery_code",
        LifecycleOutcome::PendingActionExists => "pending_action_exists",
        _ => {
            return Reply::internal_failure(c.site);
        },
    };
    redirect_with_error_toast("/members", c.htmx, code)
}

fn act_on_member(
    c: &Caller,
    change: MemberChange,
    done: &str,
    waiting: &str,
    outcome: &Option<LifecycleOutcome>,
) -> (r: Step<MemberAction>)
    ensures
        r@ == lifecycle_step(c, change, done@, waiting@, *outcome),
{
    match gate::check_all(c, Floor::Admin, true) {
        Ok(()) => {},
        Err(reply) => {
            return Step::replied(reply);
        },
    }
    match outcome {
        None => Step::Ask(MemberAction { by: c.user_id, change }),
        Some(LifecycleOutcome::Applied { name }) => Step::replied(
            redirect_with_action_toast("/members", c.htmx, done, Some(name.as_str())),
        ),
        Some(LifecycleOutcome::Pending) => Step::replied(
            redirect_with_action_toast("/members", c.htmx, waiting, None),
        ),
        Some(o) => Step::replied(lifecycle_error_to_response(c, o)),
    }
}

/// `POST /members/{id}/deactivate`.
pub fn deactivate_member(c: &Caller, target: Uuid, outcome: &Option<LifecycleOutcome>) -> (r: Step<MemberAction>)
    ensures
        r@ == lifecycle_step(
            c,
            MemberChange::Deactivate(target),
            "deactivated"@,
            "pending_deactivate"@,
            *outcome,
        ),
{
    act_on_member(c, MemberChange::Deactivate(target), "deactivated", "pending_deactivate", outcome)
}

/// `POST /members/{id}/anonymize`.
pub fn anonymize_member(c: &Caller, target: Uuid, outcome: &Option<LifecycleOutcome>) -> (r: Step<MemberAction>)
    ensures
        r@ == lifecycle_step(
            c,
            MemberChange::Anonymize(target),
            "anonymized"@,
            "pending_anonymize"@,
            *outcome,
        ),
{
    act_on_member(c, MemberChange::Anonymize(target), "anonymized", "pending_anonymize", outcome)
}

/// `POST /members/{id}/delete`.
pub fn delete_member(c: &Caller, target: Uuid, outcome: &Option<LifecycleOutcome>) -> (r: Step<MemberAction>)
    ensures
        r@ == lifecycle_step(
            c,
            MemberChange::Delete(target),
            "deleted"@,
            "pending_delete"@,
            *outcome,
        ),
{
    act_on_member(c, MemberChange::Delete(target), "deleted", "pending_delete", outcome)
}

/// `POST /members/{id}/reactivate`, which never waits for a veto window.
pub fn reactivate_member(c: &Caller, target: Uuid, outcome: &Option<LifecycleOutcome>) -> (r: Step<MemberAction>)
    ensures
        r@ == lifecycle_step(
            c,
            MemberChange::Reactivate(target),
            "reactivated"@,
            ""@,
            *outcome,
        ),
{
    act_on_member(c, MemberChange::Reactivate(target), "reactivated", "", outcome)
}

/// How a change of role went.
pub enum RoleOutcome {
    Applied { name: String },
    Pending,
    Forbidden,
    NotFound,
    SelfTarget,
    NotActive,
    AlreadyInRole,
    InvalidRecoveryCode,
    PendingActionExists,
    Failed,
}

/// The code of a failed change of role, unless the store failed.
pub open spec fn role_code(o: RoleOutcome) -> Option<Seq<char>> {
    match o {
        RoleOutcome::Forbidden => Some("forbidden"@),
        RoleOutcome::NotFound => Some("user_not_found"@),
        RoleOutcome::SelfTarget => Some("cannot_target_self"@),
        RoleOutcome::NotActive => Some("not_active"@),
        RoleOutcome::AlreadyInRole => Some("already_in_role"@),
        RoleOutcome::InvalidRecoveryCode => Some("invalid_recovery_code"@),
        RoleOutcome::PendingActionExists => Some("pending_action_exists"@),
        _ => None,
    }
}

pub open spec fn role_step(
    c: &Caller,
    target: Uuid,
    role: InstanceRole,
    outcome: Option<RoleOutcome>,
) -> step::StepView<MemberAction> {
    if !gate::admitted(c, Floor::Admin, true) {
        step::replied(gate::refusal(c, Floor::Admin))
    } else {
        match outcome {
            None => step::StepView::Ask(
                MemberAction { by: c.user_id, change: MemberChange::SetRole { target, role } },
            ),
            Some(RoleOutcome::Applied { name }) => step::replied(
                reply::moved_after("/members"@, c.htmx, "role_changed"@, Some(name@)),
            ),
            Some(RoleOutcome::Pending) => step::replied(
                reply::moved_after("/members"@, c.htmx, "pending_role_change"@, None),
            ),
            Some(o) => match role_code(o) {
                Some(code) => step::replied(reply::moved_failing("/members"@, c.htmx, code)),
                None => step::gave_up(c.site),
            },
        }
    }
}

fn role_error_to_response(c: &Caller, o: &RoleOutcome) -> (r: Reply)
    ensures
        r@ == (match role_code(*o) {
            Some(code) => reply::moved_failing("/members"@, c.htmx, code),
            None => reply::internal_failure(c.site),
        }),
{
    let code: &'static str = match o {
        RoleOutcome::Forbidden => "forbidden",
        RoleOutcome::NotFound => "user_not_found",
        RoleOutcome::SelfTarget => "cannot_target_self",
        RoleOutcome::NotActive => "not_active",
        RoleOutcome::AlreadyInRole => "already_in_role",
        RoleOutcome::InvalidRecoveryCode => "invalid_recovery_code",
        RoleOutcome::PendingActionExists => "pending_action_exists",
        _ => {
            return Reply::internal_failure(c.site);
        },
    };
    redirect_with_error_toast("/members", c.htmx, code)
}

/// `POST /members/{id}/role`.
pub fn change_member_role(
    c: &Caller,
    target: Uuid,
    form: &RoleChangeForm,
    outcome: &Option<RoleOutcome>,
) -> (r: Step<MemberAction>)
    ensures
        r@ == role_step(c, target, form.role, *outcome),
{
    match gate::check_all(c, Floor::Admin, true) {
        Ok(()) => {},
        Err(reply) => {
            return Step::replied(reply);
        },
    }
    match outcome {
        None => Step::Ask(
            MemberAction {
                by: c.user_id,
                change: MemberChange::SetRole { target, role: form.role },
            },
        ),
        Some(RoleOutcome::Applied { name }) => Step::replied(
            redirect_with_action_toast("/members", c.htmx, "role_changed", Some(name.as_str())),
        ),
        Some(RoleOutcome::Pending) => Step::replied(
            redirect_with_action_toast("/members", c.htmx, "pending_role_change", None),
        ),
        Some(o) => Step::replied(role_error_to_response(c, o)),
    }
}

/// Nothing is done to a member unless an admin or owner asks for it with the token of their own
/// session and a fresh confirmation of their own identity; it is then done in their name.
pub proof fn law_member_actions_are_gated(
    c: &Caller,
    change: MemberChange,
    done: Seq<char>,
    waiting: Seq<char>,
    outcome: Option<LifecycleOutcome>,
    target: Uuid,
    role: InstanceRole,
    role_outcome: Option<RoleOutcome>,
)
    requires
        lifecycle_step(c, change, done, waiting, outcome) is Ask || role_step(
            c,
            target,
            role,
            role_outcome,
        ) is Ask,
    ensures
        c.csrf_ok,
        c.role == InstanceRole::Admin || c.role == InstanceRole::Owner,
        c.sudo == Some(c.user_id),
        lifecycle_step(c, change, done, waiting, outcome) matches step::StepView::Ask(q) ==> q.by
            == c.user_id && q.change == change,
        role_step(c, target, role, role_outcome) matches step::StepView::Ask(q) ==> q.by
            == c.user_id && q.change == (MemberChange::SetRole { target, role }),
{
}

// ---- Dialogs ---------------------------------------------------------------------------------

fn is_among(actions: &Vec<RowAction>, action: RowAction) -> (r: bool)
    ensures
        r == actions@.contains(action),
{
    let mut i: usize = 0;
    while i < actions.len()
        invariant
            i <= actions@.len(),
            forall|k: int| 0 <= k < i ==> actions@[k] != action,
        decreases actions@.len() - i,
    {
        if actions[i] == action {
            assert(actions@[i as int] == action);
            return true;
        }
        i += 1;
    }
    false
}

pub open spec fn action_modal_step(
    ctx: &ChromeContext,
    target_id: Uuid,
    segment: Seq<char>,
    target: Asked<Option<User>>,
) -> step::StepView<LookUp> {
    let viewer = ctx.user.instance_role;
    if !gate::reaches(viewer, Floor::Admin) {
        step::replied(gate::too_low(ctx.site, Floor::Admin))
    } else {
        match members::segment_action(segment) {
            None => step::replied(reply::failure(ctx.site, 404, "Unknown action."@)),
            Some(action) => match target {
                Asked::NotYet => step::StepView::Ask(LookUp { id: target_id }),
                Asked::Failed => step::gave_up(ctx.site),
                Asked::Answer(None) => step::replied(
                    reply::failure(ctx.site, 404, "Member not found."@),
                ),
                Asked::Answer(Some(user)) => if ctx.user.id == target_id {
                    step::replied(reply::failure(ctx.site, 403, "You can't target yourself."@))
                } else if !members::offered_actions(
                    viewer,
                    user.instance_role,
                    user.lifecycle,
                    false,
                ).contains(action) {
                    step::replied(
                        reply::failure(
                            ctx.site,
                            403,
                            "You can't perform that action on this member."@,
                        ),
                    )
                } else {
                    match members::action_modal_html(segment, &user, ctx.csrf_token@) {
                        Some(html) => step::replied(reply::ok_page(html)),
                        None => step::replied(reply::failure(ctx.site, 404, "Unknown action."@)),
                    }
                },
            },
        }
    }
}

/// `GET /members/{id}/modal/{action}`: the dialog of an action, for those who may take it.
pub fn member_action_modal(
    ctx: &ChromeContext,
    target_id: Uuid,
    segment: &str,
    target: &Asked<Option<User>>,
) -> (r: Step<LookUp>)
    ensures
        r@ == action_modal_step(ctx, target_id, segment@, *target),
{
    let viewer = ctx.user.instance_role;
    match gate::require_admin(ctx.site, viewer) {
        Ok(()) => {},
        Err(reply) => {
            return Step::replied(reply);
        },
    }
    let action = match members::row_action_for_segment(segment) {
        Some(action) => action,
        None => {
            return Step::replied(error_response(ctx.site, 404, "Unknown action."));
        },
    };
    let user = match target {
        Asked::NotYet => {
            return Step::Ask(LookUp { id: target_id });
        },
        Asked::Failed => {
            return Step::gave_up(ctx.site);
        },
        Asked::Answer(None) => {
            return Step::replied(error_response(ctx.site, 404, "Member not found."));
        },
        Asked::Answer(Some(user)) => user,
    };
    if ctx.user.id == target_id {
        return Step::replied(error_response(ctx.site, 403, "You can't target yourself."));
    }
    let allowed = members::available_actions(viewer, user.instance_role, user.lifecycle, false);
    if !is_among(&allowed, action) {
        return Step::replied(
            error_response(ctx.site, 403, "You can't perform that action on this member."),
        );
    }
    match members::member_action_modal(segment, user, ctx.csrf_token) {
        Some(html) => Step::replied(Reply::ok_page(html)),
        None => Step::replied(error_response(ctx.site, 404, "Unknown action.")),
    }
}

/// Nobody is handed the dialog of an action on themselves.
pub proof fn law_no_dialog_on_oneself(
    ctx: &ChromeContext,
    segment: Seq<char>,
    target: Asked<Option<User>>,
)
    ensures
        action_modal_step(ctx, ctx.user.id, segment, target) matches step::StepView::Finish(f)
            ==> f.reply.content matches reply::ContentView::Page { status, .. } && status >= 400,
{
}

} // verus!
