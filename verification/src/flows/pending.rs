//! Owner-on-owner actions that wait for their veto window.

use vstd::prelude::*;
use crate::flows::step;
use crate::flows::step::{Asked, Step};
use crate::forms::{ForceApplyForm, PendingPageQuery};
use crate::gate;
use crate::gate::{Caller, Floor};
use crate::model::{Timestamp, TransitionRow, TransitionState, User, Uuid};
use crate::reply;
use crate::reply::{
    error_response, redirect_or_hx_redirect, redirect_with_action_toast,
    redirect_with_error_toast, with_toast, Reply,
};
use crate::text;
use crate::toast;
use crate::toast::{Toast, ToastKind};
use crate::views::pending;
use crate::views::pending::PendingBanner;
use crate::views::shell::ChromeContext;

verus! {

/// How many resolved transitions the history shows.
pub const HISTORY_LIMIT: i64 = 50;

// ---- Who is mentioned ------------------------------------------------------------------------

/// Whether a transition mentions an account: who began it, whom it targets, who resolved it.
pub open spec fn mentions(row: TransitionRow, id: Uuid) -> bool {
    row.initiator_user_id == Some(id) || row.target_user_id == Some(id) || row.resolved_by_user_id
        == Some(id)
}

pub open spec fn mentioned_in(rows: Seq<TransitionRow>, id: Uuid) -> bool {
    exists|k: int| 0 <= k < rows.len() && mentions(#[trigger] rows[k], id)
}

/// Ids in ascending order, none twice.
pub open spec fn ascending(ids: Seq<Uuid>) -> bool {
    forall|i: int, j: int| 0 <= i < j < ids.len() ==> (#[trigger] ids[i]).value < (#[trigger] ids[j]).value
}

fn insert_id(ids: &mut Vec<Uuid>, id: Uuid)
    requires
        ascending(old(ids)@),
    ensures
        ascending(final(ids)@),
        forall|x: Uuid| #[trigger] final(ids)@.contains(x) <==> old(ids)@.contains(x) || x == id,
{
    let ghost before = ids@;
    let mut at: usize = 0;
    while at < ids.len() && ids[at].value < id.value
        invariant
            at <= ids@.len(),
            ids@ == before,
            forall|k: int| 0 <= k < at ==> (#[trigger] before[k]).value < id.value,
        decreases ids@.len() - at,
    {
        at += 1;
    }
    if at < ids.len() && ids[at].value == id.value {
        assert(before[at as int] == id);
        return;
    }
    ids.insert(at, id);
    proof {
        let after = ids@;
        assert forall|x: Uuid| #[trigger] after.contains(x) <==> before.contains(x) || x == id by {
            if before.contains(x) {
                let k = choose|k: int| 0 <= k < before.len() && before[k] == x;
                if k < at {
                    assert(after[k] == x);
                } else {
                    assert(after[k + 1] == x);
                }
            }
            if after.contains(x) {
                let k = choose|k: int| 0 <= k < after.len() && after[k] == x;
                if k < at {
                    assert(before[k] == x);
                } else if k > at {
                    assert(before[k - 1] == x);
                }
            }
            assert(after[at as int] == id);
        }
    }
}

fn insert_optional(ids: &mut Vec<Uuid>, id: Option<Uuid>)
    requires
        ascending(old(ids)@),
    ensures
        ascending(final(ids)@),
        forall|x: Uuid| #[trigger] final(ids)@.contains(x) <==> old(ids)@.contains(x) || id == Some(x),
{
    match id {
        Some(id) => insert_id(ids, id),
        None => {},
    }
}

fn insert_mentioned(ids: &mut Vec<Uuid>, rows: &Vec<TransitionRow>)
    requires
        ascending(old(ids)@),
    ensures
        ascending(final(ids)@),
        forall|x: Uuid| #[trigger] final(ids)@.contains(x) <==> old(ids)@.contains(x) || mentioned_in(rows@, x),
{
    let ghost before = ids@;
    let mut i: usize = 0;
    while i < rows.len()
        invariant
            i <= rows@.len(),
            ascending(ids@),
            forall|x: Uuid| #[trigger] ids@.contains(x) <==> before.contains(x) || mentioned_in(rows@.take(i as int), x),
        decreases rows@.len() - i,
    {
        let ghost prev = ids@;
        insert_optional(ids, rows[i].initiator_user_id);
        insert_optional(ids, rows[i].target_user_id);
        insert_optional(ids, rows[i].resolved_by_user_id);
        proof {
            let now = rows@.take(i + 1);
            let then = rows@.take(i as int);
            assert forall|x: Uuid| #[trigger] ids@.contains(x) <==> before.contains(x) || mentioned_in(now, x) by {
                assert(ids@.contains(x) <==> prev.contains(x) || mentions(rows@[i as int], x));
                if mentioned_in(then, x) {
                    let k = choose|k: int| 0 <= k < then.len() && mentions(#[trigger] then[k], x);
                    assert(now[k] == then[k]);
                }
                if mentions(rows@[i as int], x) {
                    assert(now[i as int] == rows@[i as int]);
                }
                if mentioned_in(now, x) {
                    let k = choose|k: int| 0 <= k < now.len() && mentions(#[trigger] now[k], x);
                    if k < i {
                        assert(then[k] == now[k]);
                    }
                }
            }
        }
        i += 1;
    }
    assert(rows@.take(i as int) =~= rows@);
}

/// Every account that the transitions mention, once each, in ascending order.
pub fn mentioned_users(active: &Vec<TransitionRow>, history: &Vec<TransitionRow>) -> (r: Vec<Uuid>)
    ensures
        ascending(r@),
        forall|x: Uuid| #[trigger] r@.contains(x) <==> mentioned_in(active@, x) || mentioned_in(history@, x),
{
    let mut ids: Vec<Uuid> = Vec::new();
    insert_mentioned(&mut ids, active);
    insert_mentioned(&mut ids, history);
    ids
}

/// There is only one such list, so [`mentioned_users`] is determined.
pub proof fn law_ascending_lists_are_unique(a: Seq<Uuid>, b: Seq<Uuid>)
    requires
        ascending(a),
        ascending(b),
        forall|x: Uuid| #[trigger] a.contains(x) <==> b.contains(x),
    ensures
        a == b,
    decreases a.len(),
{
    if a.len() == 0 {
        if b.len() > 0 {
            assert(b.contains(b[0]));
            assert(a.contains(b[0]));
        }
        assert(a =~= b);
    } else {
        assert(a.contains(a[0]));
        assert(b.contains(a[0]));
        assert(b.contains(b[0]));
        assert(a.contains(b[0]));
        let i = choose|i: int| 0 <= i < b.len() && b[i] == a[0];
        let j = choose|j: int| 0 <= j < a.len() && a[j] == b[0];
        if i > 0 {
            assert(b[0].value < b[i].value);
            if j > 0 {
                assert(a[0].value < a[j].value);
            }
        }
        assert(a[0] == b[0]);
        let ta = a.skip(1);
        let tb = b.skip(1);
        assert forall|x: Uuid| #[trigger] ta.contains(x) <==> tb.contains(x) by {
            if ta.contains(x) {
                let k = choose|k: int| 0 <= k < ta.len() && ta[k] == x;
                assert(a[k + 1] == x);
                assert(a[0].value < a[k + 1].value);
                assert(a.contains(x));
                assert(b.contains(x));
                let m = choose|m: int| 0 <= m < b.len() && b[m] == x;
                assert(m > 0);
                assert(tb[m - 1] == x);
            }
            if tb.contains(x) {
                let k = choose|k: int| 0 <= k < tb.len() && tb[k] == x;
                assert(b[k + 1] == x);
                assert(b[0].value < b[k + 1].value);
                assert(b.contains(x));
                assert(a.contains(x));
                let m = choose|m: int| 0 <= m < a.len() && a[m] == x;
                assert(m > 0);
                assert(ta[m - 1] == x);
            }
        }
        law_ascending_lists_are_unique(ta, tb);
        assert(a =~= seq![a[0]] + ta);
        assert(b =~= seq![b[0]] + tb);
    }
}

// ---- The page --------------------------------------------------------------------------------

/// What the page asks for.
pub enum PendingAsk {
    /// The transitions that wait.
    Active,
    /// The transitions resolved last, so many of them.
    History { limit: i64 },
    /// These accounts.
    Users(Vec<Uuid>),
}

pub enum PendingAskView {
    Active,
    History { limit: i64 },
    Users(Seq<Uuid>),
}

impl View for PendingAsk {
    type V = PendingAskView;

    open spec fn view(&self) -> PendingAskView {
        match *self {
            PendingAsk::Active => PendingAskView::Active,
            PendingAsk::History { limit } => PendingAskView::History { limit },
            PendingAsk::Users(ids) => PendingAskView::Users(ids@),
        }
    }
}

pub struct PendingAnswers {
    pub active: Asked<Vec<TransitionRow>>,
    pub history: Asked<Vec<TransitionRow>>,
    pub users: Asked<Vec<User>>,
}

/// Whether a step is the next one of the page.
pub open spec fn pending_next(
    ctx: &ChromeContext,
    a: &PendingAnswers,
    now: &Timestamp,
    next: step::StepView<PendingAskView>,
) -> bool {
    if !gate::reaches(ctx.user.instance_role, Floor::Owner) {
        next == step::replied::<PendingAskView>(gate::too_low(ctx.site, Floor::Owner))
    } else {
        match a.active {
            Asked::NotYet => next == step::StepView::<PendingAskView>::Ask(PendingAskView::Active),
            Asked::Failed => next == step::gave_up::<PendingAskView>(ctx.site),
            Asked::Answer(active) => match a.history {
                Asked::NotYet => next == step::StepView::<PendingAskView>::Ask(
                    PendingAskView::History { limit: HISTORY_LIMIT },
                ),
                Asked::Failed => next == step::gave_up::<PendingAskView>(ctx.site),
                Asked::Answer(history) => match a.users {
                    Asked::NotYet => next matches step::StepView::Ask(PendingAskView::Users(ids))
                        && ascending(ids) && (forall|x: Uuid| #[trigger]
                        ids.contains(x) <==> mentioned_in(active@, x) || mentioned_in(
                            history@,
                            x,
                        )),
                    Asked::Failed => next == step::gave_up::<PendingAskView>(ctx.site),
                    Asked::Answer(users) => next == step::replied::<PendingAskView>(
                        reply::ok_page(
                            pending::pending_page_html(
                                &ChromeContext {
                                    pending_count: Some(
                                        (active@.len() % 0x1_0000_0000) as u32,
                                    ),
                                    ..*ctx
                                },
                                active@,
                                history@,
                                users@,
                                now,
                            ),
                        ),
                    ),
                },
            },
        }
    }
}

/// `GET /pending`: what waits and what was resolved, for owners. The badge counts what is on the
/// page.
pub fn pending_page(
    ctx: &ChromeContext,
    q: &PendingPageQuery,
    a: &PendingAnswers,
    now: &Timestamp,
) -> (r: Step<PendingAsk>)
    ensures
        pending_next(ctx, a, now, r@),
{
    match gate::require_role(ctx.site, ctx.user.instance_role, Floor::Owner) {
        Ok(()) => {},
        Err(reply) => {
            return Step::replied(reply);
        },
    }
    let active = match &a.active {
        Asked::NotYet => {
            return Step::Ask(PendingAsk::Active);
        },
        Asked::Failed => {
            return Step::gave_up(ctx.site);
        },
        Asked::Answer(rows) => rows,
    };
    let history = match &a.history {
        Asked::NotYet => {
            return Step::Ask(PendingAsk::History { limit: HISTORY_LIMIT });
        },
        Asked::Failed => {
            return Step::gave_up(ctx.site);
        },
        Asked::Answer(rows) => rows,
    };
    match &a.users {
        Asked::NotYet => Step::Ask(PendingAsk::Users(mentioned_users(active, history))),
        Asked::Failed => Step::gave_up(ctx.site),
        Asked::Answer(users) => {
            let ctx = ChromeContext {
                site: ctx.site,
                instance_name: ctx.instance_name,
                user: ctx.user,
                csrf_token: ctx.csrf_token,
                pending_count: Some((active.len() as u64 % 0x1_0000_0000) as u32),
            };
            let banner = PendingBanner {
                action: text::lend(&q.action),
                error: text::lend(&q.error),
            };
            Step::replied(
                Reply::ok_page(
                    pending::pending_page(
                        &ctx,
                        active.as_slice(),
                        history.as_slice(),
                        users.as_slice(),
                        now,
                        &banner,
                    ),
                ),
            )
        },
    }
}

// ---- Veto ------------------------------------------------------------------------------------

/// How a veto went.
#[derive(Clone, Copy, Debug, PartialEq, Eq, Structural)]
pub enum VetoOutcome {
    Vetoed,
    NotOwner,
    NotFound,
    NotPending,
    Failed,
}

/// To veto a transition.
#[derive(Clone, Copy, Debug, PartialEq, Eq, Structural)]
pub struct Veto {
    pub id: Uuid,
    /// The owner who vetoes.
    pub by: Uuid,
}

impl View for Veto {
    type V = Veto;

    open spec fn view(&self) -> Veto {
        *self
    }
}

pub open spec fn veto_step(c: &Caller, id: Uuid, outcome: Option<VetoOutcome>) -> step::StepView<Veto> {
    if !gate::admitted(c, Floor::Owner, true) {
        step::replied(gate::refusal(c, Floor::Owner))
    } else {
        match outcome {
            None => step::StepView::Ask(Veto { id, by: c.user_id }),
            Some(VetoOutcome::Vetoed) => step::replied(
                reply::moved_after("/pending"@, c.htmx, "vetoed"@, None),
            ),
            Some(VetoOutcome::NotOwner) => step::replied(gate::too_low(c.site, Floor::Owner)),
            Some(VetoOutcome::NotFound) => step::replied(
                reply::moved_failing("/pending"@, c.htmx, "transition_not_found"@),
            ),
            Some(VetoOutcome::NotPending) => step::replied(
                reply::moved_failing("/pending"@, c.htmx, "not_pending"@),
            ),
            Some(VetoOutcome::Failed) => step::gave_up(c.site),
        }
    }
}

/// `POST /pending/{id}/veto`.
pub fn veto_pending(c: &Caller, id: Uuid, outcome: Option<VetoOutcome>) -> (r: Step<Veto>)
    ensures
        r@ == veto_step(c, id, outcome),
{
    match gate::check_all(c, Floor::Owner, true) {
        Ok(()) => {},
        Err(reply) => {
            return Step::replied(reply);
        },
    }
    match outcome {
        None => Step::Ask(Veto { id, by: c.user_id }),
        Some(VetoOutcome::Vetoed) => Step::replied(
            redirect_with_action_toast("/pending", c.htmx, "vetoed", None),
        ),
        Some(VetoOutcome::NotOwner) => Step::replied(error_response(c.site, 403, "Owners only.")),
        Some(VetoOutcome::NotFound) => Step::replied(
            redirect_with_error_toast("/pending", c.htmx, "transition_not_found"),
        ),
        Some(VetoOutcome::NotPending) => Step::replied(
            redirect_with_error_toast("/pending", c.htmx, "not_pending"),
        ),
        Some(VetoOutcome::Failed) => Step::gave_up(c.site),
    }
}

/// Only an owner vetoes, freshly confirmed and in their own name.
pub proof fn law_veto_is_gated(c: &Caller, id: Uuid, outcome: Option<VetoOutcome>)
    requires
        veto_step(c, id, outcome) is Ask,
    ensures
        gate::admitted(c, Floor::Owner, true),
        veto_step(c, id, outcome) == step::StepView::Ask(Veto { id, by: c.user_id }),
{
}

/// What a dialog about a transition asks for.
#[derive(Clone, Copy, Debug, PartialEq, Eq, Structural)]
pub enum DialogAsk {
    /// The transition.
    Transition(Uuid),
    /// The display name of the account it targets.
    TargetName(Uuid),
    /// What [`transition_labels`] says of the transition.
    Labels(Uuid),
}

impl View for DialogAsk {
    type V = DialogAsk;

    open spec fn view(&self) -> DialogAsk {
        *self
    }
}

pub open spec fn name_or_unknown(name: Option<Seq<char>>) -> Seq<char> {
    match name {
        Some(n) => n,
        None => "(unknown member)"@,
    }
}

fn name_or_default<'a>(name: &'a Option<String>) -> (r: &'a str)
    ensures
        r@ == name_or_unknown(text::opt_string(*name)),
{
    match name {
        Some(n) => n.as_str(),
        None => "(unknown member)",
    }
}

pub open spec fn veto_dialog(ctx: &ChromeContext, id: Uuid, row: TransitionRow, name: Option<Seq<char>>) -> reply::ReplyView {
    reply::ok_page(
        pending::veto_pending_dialog_html(
            id,
            name_or_unknown(name),
            pending::action_label_of(row.kind),
            ctx.csrf_token@,
        ),
    )
}

pub open spec fn veto_modal_step(
    ctx: &ChromeContext,
    id: Uuid,
    found: Asked<Option<TransitionRow>>,
    target_name: Option<Option<String>>,
) -> step::StepView<DialogAsk> {
    if !gate::reaches(ctx.user.instance_role, Floor::Owner) {
        step::replied(gate::too_low(ctx.site, Floor::Owner))
    } else {
        match found {
            Asked::NotYet => step::StepView::Ask(DialogAsk::Transition(id)),
            Asked::Failed => step::gave_up(ctx.site),
            Asked::Answer(None) => step::replied(
                reply::failure(ctx.site, 404, "That pending action no longer exists."@),
            ),
            Asked::Answer(Some(row)) => match (row.target_user_id, target_name) {
                (Some(target), None) => step::StepView::Ask(DialogAsk::TargetName(target)),
                (Some(_), Some(name)) => step::replied(
                    veto_dialog(ctx, id, row, text::opt_string(name)),
                ),
                (None, _) => step::replied(veto_dialog(ctx, id, row, None)),
            },
        }
    }
}

/// `GET /pending/{id}/modal/veto`: the veto dialog. A target that cannot be looked up is called
/// unknown.
pub fn veto_modal(
    ctx: &ChromeContext,
    id: Uuid,
    found: &Asked<Option<TransitionRow>>,
    target_name: &Option<Option<String>>,
) -> (r: Step<DialogAsk>)
    ensures
        r@ == veto_modal_step(ctx, id, *found, *target_name),
{
    match gate::require_role(ctx.site, ctx.user.instance_role, Floor::Owner) {
        Ok(()) => {},
        Err(reply) => {
            return Step::replied(reply);
        },
    }
    let row = match found {
        Asked::NotYet => {
            return Step::Ask(DialogAsk::Transition(id));
        },
        Asked::Failed => {
            return Step::gave_up(ctx.site);
        },
        Asked::Answer(None) => {
            return Step::replied(
                error_response(ctx.site, 404, "That pending action no longer exists."),
            );
        },
        Asked::Answer(Some(row)) => row,
    };
    let name: &str = match row.target_user_id {
        Some(target) => match target_name {
            None => {
                return Step::Ask(DialogAsk::TargetName(target));
            },
            Some(name) => name_or_default(name),
        },
        None => "(unknown member)",
    };
    Step::replied(
        Reply::ok_page(
            pending::veto_pending_dialog(
                id,
                name,
                pending::pending_action_label(row),
                ctx.csrf_token,
            ),
        ),
    )
}

// ---- Force -----------------------------------------------------------------------------------

/// What a dialog calls a transition: the name of its target and its action.
pub struct Labels {
    pub target_name: String,
    pub action: String,
}

pub struct LabelsView {
    pub target_name: Seq<char>,
    pub action: Seq<char>,
}

impl View for Labels {
    type V = LabelsView;

    open spec fn view(&self) -> LabelsView {
        LabelsView { target_name: self.target_name@, action: self.action@ }
    }
}

/// The labels of a transition, with placeholders for what could not be looked up. `name` is the
/// display name of its target.
pub open spec fn labels_of(row: Option<TransitionRow>, name: Option<Seq<char>>) -> LabelsView {
    match row {
        Some(row) => LabelsView {
            target_name: if row.target_user_id is Some {
                name_or_unknown(name)
            } else {
                "(unknown member)"@
            },
            action: pending::action_label_of(row.kind),
        },
        None => LabelsView { target_name: "(unknown member)"@, action: "action"@ },
    }
}

pub fn transition_labels(row: &Option<TransitionRow>, name: &Option<String>) -> (r: Labels)
    ensures
        r@ == labels_of(*row, text::opt_string(*name)),
{
    match row {
        Some(row) => {
            let target: &str = match row.target_user_id {
                Some(_) => name_or_default(name),
                None => "(unknown member)",
            };
            Labels {
                target_name: target.to_owned(),
                action: pending::pending_action_label(row).to_owned(),
            }
        },
        None => Labels {
            target_name: "(unknown member)".to_owned(),
            action: "action".to_owned(),
        },
    }
}

pub open spec fn force_modal_step(
    ctx: &ChromeContext,
    id: Uuid,
    found: Asked<Option<TransitionRow>>,
    labels: Option<Labels>,
) -> step::StepView<DialogAsk> {
    if !gate::reaches(ctx.user.instance_role, Floor::Owner) {
        step::replied(gate::too_low(ctx.site, Floor::Owner))
    } else {
        match found {
            Asked::NotYet => step::StepView::Ask(DialogAsk::Transition(id)),
            Asked::Failed => step::gave_up(ctx.site),
            Asked::Answer(row) => if row matches Some(r) && r.state == TransitionState::Pending {
                match labels {
                    None => step::StepView::Ask(DialogAsk::Labels(id)),
                    Some(l) => step::replied(
                        reply::ok_page(
                            pending::force_apply_dialog_html(
                                id,
                                l.target_name@,
                                l.action@,
                                ctx.csrf_token@,
                            ),
                        ),
                    ),
                }
            } else {
                step::replied(
                    reply::failure(ctx.site, 404, "That pending action no longer exists."@),
                )
            },
        }
    }
}

/// `GET /pending/{id}/modal/force-apply`: the dialog to force a transition that still waits.
pub fn force_apply_modal(
    ctx: &ChromeContext,
    id: Uuid,
    found: &Asked<Option<TransitionRow>>,
    labels: &Option<Labels>,
) -> (r: Step<DialogAsk>)
    ensures
        r@ == force_modal_step(ctx, id, *found, *labels),
{
    match gate::require_role(ctx.site, ctx.user.instance_role, Floor::Owner) {
        Ok(()) => {},
        Err(reply) => {
            return Step::replied(reply);
        },
    }
    let waits: bool = match found {
        Asked::NotYet => {
            return Step::Ask(DialogAsk::Transition(id));
        },
        Asked::Failed => {
            return Step::gave_up(ctx.site);
        },
        Asked::Answer(Some(row)) => row.state == TransitionState::Pending,
        Asked::Answer(None) => false,
    };
    if !waits {
        return Step::replied(
            error_response(ctx.site, 404, "That pending action no longer exists."),
        );
    }
    match labels {
        None => Step::Ask(DialogAsk::Labels(id)),
        Some(l) => Step::replied(
            Reply::ok_page(
                pending::force_apply_dialog(
                    id,
                    l.target_name.as_str(),
                    l.action.as_str(),
                    ctx.csrf_token,
                ),
            ),
        ),
    }
}

/// What forcing a transition asks for.
pub enum ForceAsk {
    /// Whether this is the recovery code of the server.
    RecoveryCode(String),
    /// What [`transition_labels`] says of the transition.
    Labels(Uuid),
    /// To apply the transition now, in the name of this owner.
    Apply { id: Uuid, by: Uuid },
}

pub enum ForceAskView {
    RecoveryCode(Seq<char>),
    Labels(Uuid),
    Apply { id: Uuid, by: Uuid },
}

impl View for ForceAsk {
    type V = ForceAskView;

    open spec fn view(&self) -> ForceAskView {
        match *self {
            ForceAsk::RecoveryCode(code) => ForceAskView::RecoveryCode(code@),
            ForceAsk::Labels(id) => ForceAskView::Labels(id),
            ForceAsk::Apply { id, by } => ForceAskView::Apply { id, by },
        }
    }
}

/// How forcing a transition went.
#[derive(Clone, Copy, Debug, PartialEq, Eq, Structural)]
pub enum ForceOutcome {
    Applied,
    NotFound,
    NotPending,
    Failed,
}

pub struct ForceAnswers {
    pub code_ok: Asked<bool>,
    pub labels: Option<Labels>,
    pub outcome: Option<ForceOutcome>,
}

pub open spec fn forced_toast() -> toast::ToastText {
    toast::ToastText {
        kind: ToastKind::Info,
        title: "Applied"@,
        message: "The pending action was forced through with the recovery code."@,
    }
}

pub open spec fn force_step(
    c: &Caller,
    ctx: &ChromeContext,
    id: Uuid,
    form: &ForceApplyForm,
    a: &ForceAnswers,
) -> step::StepView<ForceAskView> {
    if !gate::admitted(c, Floor::Owner, false) {
        step::replied(gate::refusal(c, Floor::Owner))
    } else {
        match a.code_ok {
            Asked::NotYet => step::StepView::Ask(ForceAskView::RecoveryCode(form.recovery_code@)),
            Asked::Failed => step::gave_up(c.site),
            Asked::Answer(false) => match a.labels {
                None => step::StepView::Ask(ForceAskView::Labels(id)),
                Some(l) => step::replied(
                    reply::ok_page(
                        pending::force_apply_form_html(
                            id,
                            l.target_name@,
                            l.action@,
                            ctx.csrf_token@,
                            Some("That server recovery code is not valid."@),
                        ),
                    ),
                ),
            },
            Asked::Answer(true) => match a.outcome {
                None => step::StepView::Ask(ForceAskView::Apply { id, by: c.user_id }),
                Some(ForceOutcome::Applied) => step::replied(
                    reply::moved("/pending"@, c.htmx).toasting(Some(forced_toast())),
                ),
                Some(ForceOutcome::NotFound) => step::replied(
                    reply::moved_failing("/pending"@, c.htmx, "transition_not_found"@),
                ),
                Some(ForceOutcome::NotPending) => step::replied(
                    reply::moved_failing("/pending"@, c.htmx, "not_pending"@),
                ),
                Some(ForceOutcome::Failed) => step::gave_up(c.site),
            },
        }
    }
}

/// `POST /pending/{id}/force-apply`: applies a transition before its veto window ends, on the
/// strength of the server's recovery code.
pub fn force_apply_pending(
    c: &Caller,
    ctx: &ChromeContext,
    id: Uuid,
    form: &ForceApplyForm,
    a: &ForceAnswers,
) -> (r: Step<ForceAsk>)
    ensures
        r@ == force_step(c, ctx, id, form, a),
{
    match gate::check_all(c, Floor::Owner, false) {
        Ok(()) => {},
        Err(reply) => {
            return Step::replied(reply);
        },
    }
    match &a.code_ok {
        Asked::NotYet => Step::Ask(
            ForceAsk::RecoveryCode(form.recovery_code.as_str().to_owned()),
        ),
        Asked::Failed => Step::gave_up(c.site),
        Asked::Answer(false) => match &a.labels {
            None => Step::Ask(ForceAsk::Labels(id)),
            Some(l) => Step::replied(
                Reply::ok_page(
                    pending::force_apply_form(
                        id,
                        l.target_name.as_str(),
                        l.action.as_str(),
                        ctx.csrf_token,
                        Some("That server recovery code is not valid."),
                    ),
                ),
            ),
        },
        Asked::Answer(true) => match a.outcome {
            None => Step::Ask(ForceAsk::Apply { id, by: c.user_id }),
            Some(ForceOutcome::Applied) => {
                let t = Toast::new(
                    ToastKind::Info,
                    "Applied",
                    "The pending action was forced through with the recovery code.",
                );
                Step::replied(with_toast(redirect_or_hx_redirect("/pending", c.htmx), Some(t)))
            },
            Some(ForceOutcome::NotFound) => Step::replied(
                redirect_with_error_toast("/pending", c.htmx, "transition_not_found"),
            ),
            Some(ForceOutcome::NotPending) => Step::replied(
                redirect_with_error_toast("/pending", c.htmx, "not_pending"),
            ),
            Some(ForceOutcome::Failed) => Step::gave_up(c.site),
        },
    }
}

/// A transition is forced only in the name of an owner who presents the server's recovery code.
pub proof fn law_force_needs_the_recovery_code(
    c: &Caller,
    ctx: &ChromeContext,
    id: Uuid,
    form: &ForceApplyForm,
    a: &ForceAnswers,
    forced: Uuid,
    by: Uuid,
)
    requires
        force_step(c, ctx, id, form, a) == step::StepView::<ForceAskView>::Ask(
            ForceAskView::Apply { id: forced, by },
        ),
    ensures
        forced == id,
        by == c.user_id,
        c.csrf_ok,
        gate::reaches(c.role, Floor::Owner),
        a.code_ok == Asked::<bool>::Answer(true),
{
}

} // verus!
