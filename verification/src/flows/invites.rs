//! Inviting people and looking after open invitations.

use vstd::prelude::*;
use crate::flows::step;
use crate::flows::step::{Asked, LookUp, Step};
use crate::forms::InviteForm;
use crate::gate;
use crate::gate::{Caller, Floor};
use crate::html::Markup;
use crate::model::{InstanceRole, Invitation, Timestamp, Uuid};
use crate::reply;
use crate::reply::{error_response, redirect_with_action_toast, redirect_with_error_toast, Reply};
use crate::text;
use crate::views::invite;
use crate::views::shell::ChromeContext;

verus! {

/// `GET /members/invite`: the form, as a fragment where HTMX asks for it.
pub fn invite_form(ctx: &ChromeContext, htmx: bool) -> (r: Reply)
    ensures
        r@ == (if !gate::reaches(ctx.user.instance_role, Floor::Admin) {
            gate::too_low(ctx.site, Floor::Admin)
        } else if htmx {
            reply::ok_page(invite::invite_modal_content_form_html(ctx, ""@, None))
        } else {
            reply::ok_page(invite::members_invite_form_page_html(ctx, ""@, None))
        }),
{
    match gate::require_admin(ctx.site, ctx.user.instance_role) {
        Ok(()) => if htmx {
            Reply::ok_page(invite::invite_modal_content_form(ctx, "", None))
        } else {
            Reply::ok_page(invite::members_invite_form_page(ctx, "", None))
        },
        Err(reply) => reply,
    }
}

/// `GET /modals/invite`: the dialog.
pub fn invite_modal_fragment(ctx: &ChromeContext) -> (r: Reply)
    ensures
        r@ == (if gate::reaches(ctx.user.instance_role, Floor::Admin) {
            reply::ok_page(invite::invite_modal_html(ctx))
        } else {
            gate::too_low(ctx.site, Floor::Admin)
        }),
{
    match gate::require_admin(ctx.site, ctx.user.instance_role) {
        Ok(()) => Reply::ok_page(invite::invite_modal(ctx)),
        Err(reply) => reply,
    }
}

/// The address at which an invitation is accepted.
pub open spec fn accept_url_of(base: Seq<char>, token: Seq<char>) -> Seq<char> {
    base + "/invite/"@ + token
}

pub fn accept_url(base: &str, token: &str) -> (r: String)
    ensures
        r@ == accept_url_of(base@, token@),
{
    text::join(base, "/invite/").concat(token)
}

pub const INVITE_TARGET: &'static str = "#invite-modal-content";

/// The events that bring the invite dialog back, and tell the page to refresh once it closes.
pub open spec fn swap_events(succeeded: bool) -> Seq<char> {
    if succeeded {
        "switch-to-invite-modal, invite-success"@
    } else {
        "switch-to-invite-modal"@
    }
}

/// A fragment that goes into the invite dialog instead of the confirmation it was asked from.
pub open spec fn into_invite_modal(html: Seq<char>, succeeded: bool) -> reply::ReplyView {
    reply::ReplyView {
        hx_retarget: Some(INVITE_TARGET@),
        hx_trigger: Some(swap_events(succeeded)),
        ..reply::ok_page(html)
    }
}

fn invite_modal_swap_response(body: Markup, succeeded: bool) -> (r: Reply)
    ensures
        r@ == into_invite_modal(body@, succeeded),
{
    let events: &'static str = if succeeded {
        "switch-to-invite-modal, invite-success"
    } else {
        "switch-to-invite-modal"
    };
    Reply {
        hx_retarget: Some(INVITE_TARGET.to_owned()),
        hx_trigger: Some(events.to_owned()),
        ..Reply::ok_page(body)
    }
}

/// An invitation with its token, which is shown once.
pub struct IssuedInvite {
    pub email: String,
    pub role: InstanceRole,
    pub raw_token: String,
    pub expires_at: Timestamp,
}

/// What is to be done about an invitation, in the name of `by`.
pub enum InviteAsk {
    Create { by: Uuid, email: String, role: InstanceRole },
    Revoke { by: Uuid, id: Uuid },
    /// To replace its token.
    Reissue { by: Uuid, id: Uuid },
}

pub enum InviteAskView {
    Create { by: Uuid, email: Seq<char>, role: InstanceRole },
    Revoke { by: Uuid, id: Uuid },
    Reissue { by: Uuid, id: Uuid },
}

impl View for InviteAsk {
    type V = InviteAskView;

    open spec fn view(&self) -> InviteAskView {
        match *self {
            InviteAsk::Create { by, email, role } => InviteAskView::Create {
                by,
                email: email@,
                role,
            },
            InviteAsk::Revoke { by, id } => InviteAskView::Revoke { by, id },
            InviteAsk::Reissue { by, id } => InviteAskView::Reissue { by, id },
        }
    }
}

/// How making an invitation went.
pub enum InviteOutcome {
    Created(IssuedInvite),
    EmailRequired,
    CannotInviteHigherRole,
    EmailAlreadyInUse,
    ActiveInviteExists,
    Failed,
}

/// The code of a refused invitation, unless the store failed.
pub open spec fn invite_code(o: InviteOutcome) -> Option<Seq<char>> {
    match o {
        InviteOutcome::EmailRequired => Some("email_required"@),
        InviteOutcome::CannotInviteHigherRole => Some("cannot_invite_higher_role"@),
        InviteOutcome::EmailAlreadyInUse => Some("email_already_in_use"@),
        InviteOutcome::ActiveInviteExists => Some("active_invite_exists"@),
        _ => None,
    }
}

fn refused_code(o: &InviteOutcome) -> (r: Option<&'static str>)
    ensures
        text::opt(r) == invite_code(*o),
{
    match o {
        InviteOutcome::EmailRequired => Some("email_required"),
        InviteOutcome::CannotInviteHigherRole => Some("cannot_invite_higher_role"),
        InviteOutcome::EmailAlreadyInUse => Some("email_already_in_use"),
        InviteOutcome::ActiveInviteExists => Some("active_invite_exists"),
        _ => None,
    }
}

/// The reply that shows an acceptance link: a page of its own, never a redirect, so that the
/// token stands in no address.
pub open spec fn link_page(ctx: &ChromeContext, base: Seq<char>, i: IssuedInvite) -> reply::ReplyView {
    reply::ok_page(
        invite::members_invite_result_page_html(
            ctx,
            i.email@,
            i.role,
            accept_url_of(base, i.raw_token@),
            &i.expires_at,
        ),
    )
}

pub open spec fn invite_step(
    c: &Caller,
    ctx: &ChromeContext,
    base: Seq<char>,
    form: &InviteForm,
    outcome: Option<InviteOutcome>,
) -> step::StepView<InviteAskView> {
    if !gate::admitted(c, Floor::Admin, true) {
        step::replied(gate::refusal(c, Floor::Admin))
    } else {
        match outcome {
            None => step::StepView::Ask(
                InviteAskView::Create { by: c.user_id, email: form.email@, role: form.role },
            ),
            Some(InviteOutcome::Created(i)) => step::replied(
                if c.htmx {
                    into_invite_modal(
                        invite::invite_modal_content_success_html(
                            i.email@,
                            i.role,
                            accept_url_of(base, i.raw_token@),
                            &i.expires_at,
                        ),
                        true,
                    )
                } else {
                    link_page(ctx, base, i)
                },
            ),
            Some(o) => match invite_code(o) {
                Some(code) => step::replied(
                    if c.htmx {
                        into_invite_modal(
                            invite::invite_modal_content_form_html(ctx, form.email@, Some(code)),
                            false,
                        )
                    } else {
                        reply::ok_page(
                            invite::members_invite_form_page_html(ctx, form.email@, Some(code)),
                        )
                    },
                ),
                None => step::gave_up(c.site),
            },
        }
    }
}

/// `POST /members/invite`: makes an invitation for the email and role of the form.
pub fn invite_submit(
    c: &Caller,
    ctx: &ChromeContext,
    base: &str,
    form: &InviteForm,
    outcome: &Option<InviteOutcome>,
) -> (r: Step<InviteAsk>)
    ensures
        r@ == invite_step(c, ctx, base@, form, *outcome),
{
    match gate::check_all(c, Floor::Admin, true) {
        Ok(()) => {},
        Err(reply) => {
            return Step::replied(reply);
        },
    }
    match outcome {
        None => Step::Ask(
            InviteAsk::Create {
                by: c.user_id,
                email: form.email.as_str().to_owned(),
                role: form.role,
            },
        ),
        Some(InviteOutcome::Created(i)) => {
            let url = accept_url(base, i.raw_token.as_str());
            Step::replied(
                if c.htmx {
                    invite_modal_swap_response(
                        invite::invite_modal_content_success(
                            i.email.as_str(),
                            i.role,
                            url.as_str(),
                            &i.expires_at,
                        ),
                        true,
                    )
                } else {
                    Reply::ok_page(
                        invite::members_invite_result_page(
                            ctx,
                            i.email.as_str(),
                            i.role,
                            url.as_str(),
                            &i.expires_at,
                        ),
                    )
                },
            )
        },
        Some(o) => match refused_code(o) {
            Some(code) => Step::replied(
                if c.htmx {
                    invite_modal_swap_response(
                        invite::invite_modal_content_form(ctx, form.email.as_str(), Some(code)),
                        false,
                    )
                } else {
                    Reply::ok_page(
                        invite::members_invite_form_page(ctx, form.email.as_str(), Some(code)),
                    )
                },
            ),
            None => Step::gave_up(c.site),
        },
    }
}

/// How revoking an invitation went.
#[derive(Clone, Copy, Debug, PartialEq, Eq, Structural)]
pub enum RevokeOutcome {
    Revoked,
    NotFound,
    AlreadyAccepted,
    Failed,
}

pub open spec fn revoke_step(c: &Caller, id: Uuid, outcome: Option<RevokeOutcome>) -> step::StepView<InviteAskView> {
    if !gate::admitted(c, Floor::Admin, true) {
        step::replied(gate::refusal(c, Floor::Admin))
    } else {
        match outcome {
            None => step::StepView::Ask(InviteAskView::Revoke { by: c.user_id, id }),
            Some(RevokeOutcome::Revoked) => step::replied(
                reply::moved_after("/members"@, c.htmx, "invite_revoked"@, None),
            ),
            Some(RevokeOutcome::NotFound) => step::replied(
                reply::moved_failing("/members"@, c.htmx, "invite_not_found"@),
            ),
            Some(RevokeOutcome::AlreadyAccepted) => step::replied(
                reply::moved_failing("/members"@, c.htmx, "invite_already_accepted"@),
            ),
            Some(RevokeOutcome::Failed) => step::gave_up(c.site),
        }
    }
}

/// `POST /members/invitations/{id}/revoke`.
pub fn revoke_invitation(c: &Caller, id: Uuid, outcome: Option<RevokeOutcome>) -> (r: Step<InviteAsk>)
    ensures
        r@ == revoke_step(c, id, outcome),
{
    match gate::check_all(c, Floor::Admin, true) {
        Ok(()) => {},
        Err(reply) => {
            return Step::replied(reply);
        },
    }
    match outcome {
        None => Step::Ask(InviteAsk::Revoke { by: c.user_id, id }),
        Some(RevokeOutcome::Revoked) => Step::replied(
            redirect_with_action_toast("/members", c.htmx, "invite_revoked", None),
        ),
        Some(RevokeOutcome::NotFound) => Step::replied(
            redirect_with_error_toast("/members", c.htmx, "invite_not_found"),
        ),
        Some(RevokeOutcome::AlreadyAccepted) => Step::replied(
            redirect_with_error_toast("/members", c.htmx, "invite_already_accepted"),
        ),
        Some(RevokeOutcome::Failed) => Step::gave_up(c.site),
    }
}

/// How renewing an invitation went.
pub enum ReissueOutcome {
    Reissued(IssuedInvite),
    NotFound,
    AlreadyAccepted,
    AlreadyRevoked,
    Expired,
    Failed,
}

/// The code of a refused renewal, unless the store failed. One that was revoked counts as gone.
pub open spec fn reissue_code(o: ReissueOutcome) -> Option<Seq<char>> {
    match o {
        ReissueOutcome::NotFound => Some("invite_not_found"@),
        ReissueOutcome::AlreadyAccepted => Some("invite_already_accepted"@),
        ReissueOutcome::AlreadyRevoked => Some("invite_not_found"@),
        ReissueOutcome::Expired => Some("invite_expired"@),
        _ => None,
    }
}

pub open spec fn reissue_step(
    c: &Caller,
    ctx: &ChromeContext,
    id: Uuid,
    base: Seq<char>,
    outcome: Option<ReissueOutcome>,
) -> step::StepView<InviteAskView> {
    if !gate::admitted(c, Floor::Admin, true) {
        step::replied(gate::refusal(c, Floor::Admin))
    } else {
        match outcome {
            None => step::StepView::Ask(InviteAskView::Reissue { by: c.user_id, id }),
            Some(ReissueOutcome::Reissued(i)) => step::replied(
                if c.htmx {
                    into_invite_modal(
                        invite::reissue_modal_content_success_html(
                            i.email@,
                            i.role,
                            accept_url_of(base, i.raw_token@),
                            &i.expires_at,
                        ),
                        true,
                    )
                } else {
                    link_page(ctx, base, i)
                },
            ),
            Some(o) => match reissue_code(o) {
                Some(code) => step::replied(reply::moved_failing("/members"@, c.htmx, code)),
                None => step::gave_up(c.site),
            },
        }
    }
}

/// `POST /members/invitations/{id}/reissue`: a new link for an invitation; the old one is dead.
pub fn reissue_invitation(
    c: &Caller,
    ctx: &ChromeContext,
    id: Uuid,
    base: &str,
    outcome: &Option<ReissueOutcome>,
) -> (r: Step<InviteAsk>)
    ensures
        r@ == reissue_step(c, ctx, id, base@, *outcome),
{
    match gate::check_all(c, Floor::Admin, true) {
        Ok(()) => {},
        Err(reply) => {
            return Step::replied(reply);
        },
    }
    let code: &'static str = match outcome {
        None => {
            return Step::Ask(InviteAsk::Reissue { by: c.user_id, id });
        },
        Some(ReissueOutcome::Reissued(i)) => {
            let url = accept_url(base, i.raw_token.as_str());
            return Step::replied(
                if c.htmx {
                    invite_modal_swap_response(
                        invite::reissue_modal_content_success(
                            i.email.as_str(),
                            i.role,
                            url.as_str(),
                            &i.expires_at,
                        ),
                        true,
                    )
                } else {
                    Reply::ok_page(
                        invite::members_invite_result_page(
                            ctx,
                            i.email.as_str(),
                            i.role,
                            url.as_str(),
                            &i.expires_at,
                        ),
                    )
                },
            );
        },
        Some(ReissueOutcome::NotFound) => "invite_not_found",
        Some(ReissueOutcome::AlreadyAccepted) => "invite_already_accepted",
        Some(ReissueOutcome::AlreadyRevoked) => "invite_not_found",
        Some(ReissueOutcome::Expired) => "invite_expired",
        Some(ReissueOutcome::Failed) => {
            return Step::gave_up(c.site);
        },
    };
    Step::replied(redirect_with_error_toast("/members", c.htmx, code))
}

/// The token of an invitation never leaves in an address: no reply to making or renewing one
/// sends the browser anywhere.
pub proof fn law_links_stay_in_the_body(
    c: &Caller,
    ctx: &ChromeContext,
    base: Seq<char>,
    form: &InviteForm,
    id: Uuid,
    i: IssuedInvite,
)
    requires
        gate::admitted(c, Floor::Admin, true),
    ensures
        invite_step(c, ctx, base, form, Some(InviteOutcome::Created(i))) matches step::StepView::Finish(
            f,
        ) && f.reply.content is Page && f.reply.hx_redirect is None,
        reissue_step(c, ctx, id, base, Some(ReissueOutcome::Reissued(i))) matches step::StepView::Finish(
            f,
        ) && f.reply.content is Page && f.reply.hx_redirect is None,
{
}

/// Nobody invites, renews or revokes but admins and owners, freshly confirmed.
pub proof fn law_invitations_are_gated(
    c: &Caller,
    ctx: &ChromeContext,
    base: Seq<char>,
    form: &InviteForm,
    id: Uuid,
    created: Option<InviteOutcome>,
    revoked: Option<RevokeOutcome>,
    reissued: Option<ReissueOutcome>,
)
    requires
        invite_step(c, ctx, base, form, created) is Ask || revoke_step(c, id, revoked) is Ask
            || reissue_step(c, ctx, id, base, reissued) is Ask,
    ensures
        gate::admitted(c, Floor::Admin, true),
{
}

// ---- Dialogs ---------------------------------------------------------------------------------

pub open spec fn invitation_modal_step(
    ctx: &ChromeContext,
    id: Uuid,
    action: Seq<char>,
    found: Asked<Option<Invitation>>,
) -> step::StepView<LookUp> {
    if !gate::reaches(ctx.user.instance_role, Floor::Admin) {
        step::replied(gate::too_low(ctx.site, Floor::Admin))
    } else {
        match found {
            Asked::NotYet => step::StepView::Ask(LookUp { id }),
            Asked::Failed => step::gave_up(ctx.site),
            Asked::Answer(None) => step::replied(
                reply::failure(ctx.site, 404, "That invitation no longer exists."@),
            ),
            Asked::Answer(Some(i)) => if action == "reissue"@ {
                step::replied(
                    reply::ok_page(
                        invite::reissue_invite_dialog_html(id, i.email@, ctx.csrf_token@),
                    ),
                )
            } else if action == "revoke"@ {
                step::replied(
                    reply::ok_page(
                        invite::revoke_invite_dialog_html(id, i.email@, ctx.csrf_token@),
                    ),
                )
            } else {
                step::replied(reply::failure(ctx.site, 404, "Unknown action."@))
            },
        }
    }
}

/// `GET /members/invitations/{id}/modal/{action}`: the dialog to renew or to revoke an
/// invitation.
pub fn invitation_action_modal(
    ctx: &ChromeContext,
    id: Uuid,
    action: &str,
    found: &Asked<Option<Invitation>>,
) -> (r: Step<LookUp>)
    ensures
        r@ == invitation_modal_step(ctx, id, action@, *found),
{
    match gate::require_admin(ctx.site, ctx.user.instance_role) {
        Ok(()) => {},
        Err(reply) => {
            return Step::replied(reply);
        },
    }
    match found {
        Asked::NotYet => Step::Ask(LookUp { id }),
        Asked::Failed => Step::gave_up(ctx.site),
        Asked::Answer(None) => Step::replied(
            error_response(ctx.site, 404, "That invitation no longer exists."),
        ),
        Asked::Answer(Some(i)) => if text::same(action, "reissue") {
            Step::replied(
                Reply::ok_page(
                    invite::reissue_invite_dialog(id, i.email.as_str(), ctx.csrf_token),
                ),
            )
        } else if text::same(action, "revoke") {
            Step::replied(
                Reply::ok_page(
                    invite::revoke_invite_dialog(id, i.email.as_str(), ctx.csrf_token),
                ),
            )
        } else {
            Step::replied(error_response(ctx.site, 404, "Unknown action."))
        },
    }
}

} // verus!
