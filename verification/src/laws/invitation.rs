//! Inviting people, and accepting an invitation.

use vstd::prelude::*;
use crate::flows::invitation;
use crate::flows::invitation::{AcceptAskView, AcceptOutcome};
use crate::flows::invites;
use crate::flows::invites::{
    InviteAskView, InviteOutcome, IssuedInvite, ReissueOutcome, RevokeOutcome,
};
use crate::flows::step;
use crate::flows::step::{Asked, LookUp};
use crate::forms::{AcceptInviteForm, InviteForm};
use crate::gate::Caller;
use crate::laws::outcome;
use crate::model::{Invitation, Uuid};
use crate::reply;
use crate::text;
use crate::views;
use crate::views::shell::{ChromeContext, SiteInfo};

verus! {

/// An account is made with the token of the link and with the name and the password of the form,
/// every character of them; its owner is signed in and shown the recovery code.
pub proof fn law_accepting_runs(
    site: &SiteInfo,
    secure: bool,
    token: Seq<char>,
    form: &AcceptInviteForm,
    refetched: Asked<Option<Invitation>>,
    session: String,
    code: String,
)
    ensures
        invitation::accept_step(site, secure, token, form, None, refetched)
            == step::StepView::<AcceptAskView>::Ask(
            AcceptAskView::Accept {
                token,
                display_name: form.display_name@,
                password: form.password@,
            },
        ),
        ({
            let s = invitation::accept_step(
                site,
                secure,
                token,
                form,
                Some(AcceptOutcome::Accepted { session_token: session, recovery_code: code }),
                refetched,
            );
            s is Finish && s->Finish_0.reply.content == (reply::ContentView::Page {
                status: 200,
                html: views::login::accept_invite_recovery_code_page_html(site, code@),
            }) && outcome::sets_only(s->Finish_0.reply, outcome::signs_in(session@, secure))
        }),
        ({
            let s = invitation::accept_step(
                site,
                secure,
                token,
                form,
                Some(AcceptOutcome::InvalidOrExpiredToken),
                refetched,
            );
            s is Finish && outcome::has_status(s->Finish_0.reply, 404)
                && s->Finish_0.reply.cookies.len() == 0
        }),
{
}

/// The form of an invitation is shown for the open invitation of the link: its email and role. A
/// form that lacks a field comes back with the name that was entered and says which one.
pub proof fn law_invitation_form(
    site: &SiteInfo,
    secure: bool,
    token: Seq<char>,
    form: &AcceptInviteForm,
    found: Asked<Option<Invitation>>,
    i: Invitation,
)
    ensures
        ({
            let s = invitation::form_step(site, token, ""@, None, found);
            &&& found is NotYet ==> s == step::StepView::<AcceptAskView>::Ask(
                AcceptAskView::Invitation(token),
            )
            &&& found == Asked::Answer(None::<Invitation>) ==> s is Finish && outcome::has_status(
                s->Finish_0.reply,
                404,
            )
            &&& found == Asked::Answer(Some(i)) ==> s is Finish && outcome::is_page(
                s->Finish_0.reply,
                200,
                views::login::accept_invite_page_html(
                    site,
                    token,
                    i.email@,
                    i.instance_role,
                    ""@,
                    None,
                ),
            )
        }),
        ({
            let name = invitation::accept_step(
                site,
                secure,
                token,
                form,
                Some(AcceptOutcome::DisplayNameRequired),
                found,
            );
            let password = invitation::accept_step(
                site,
                secure,
                token,
                form,
                Some(AcceptOutcome::PasswordRequired),
                found,
            );
            &&& found is NotYet ==> name == step::StepView::<AcceptAskView>::Ask(
                AcceptAskView::Invitation(token),
            ) && password == name
            &&& found == Asked::Answer(Some(i)) ==> {
                &&& name is Finish && outcome::is_page(
                    name->Finish_0.reply,
                    200,
                    views::login::accept_invite_page_html(
                        site,
                        token,
                        i.email@,
                        i.instance_role,
                        text::trimmed(form.display_name@),
                        Some("display_name_required"@),
                    ),
                )
                &&& password is Finish && outcome::is_page(
                    password->Finish_0.reply,
                    200,
                    views::login::accept_invite_page_html(
                        site,
                        token,
                        i.email@,
                        i.instance_role,
                        text::trimmed(form.display_name@),
                        Some("password_required"@),
                    ),
                )
            }
        }),
{
}

/// An invitation is made for the email and the role of the form, in the name of the caller; the
/// link that is shown leads to its token.
pub proof fn law_inviting_runs(
    c: &Caller,
    ctx: &ChromeContext,
    base: Seq<char>,
    form: &InviteForm,
    issued: IssuedInvite,
)
    requires
        outcome::confirmed(c),
        outcome::admin(c.role),
    ensures
        invites::invite_step(c, ctx, base, form, None) == step::StepView::<InviteAskView>::Ask(
            InviteAskView::Create { by: c.user_id, email: form.email@, role: form.role },
        ),
        ({
            let s = invites::invite_step(
                c,
                ctx,
                base,
                form,
                Some(InviteOutcome::Created(issued)),
            );
            let link = base + "/invite/"@ + issued.raw_token@;
            s is Finish && s->Finish_0.reply.content == (reply::ContentView::Page {
                status: 200,
                html: if c.htmx {
                    views::invite::invite_modal_content_success_html(
                        issued.email@,
                        issued.role,
                        link,
                        &issued.expires_at,
                    )
                } else {
                    views::invite::members_invite_result_page_html(
                        ctx,
                        issued.email@,
                        issued.role,
                        link,
                        &issued.expires_at,
                    )
                },
            })
        }),
        forall|o: InviteOutcome, code: Seq<char>| #[trigger]
            refusal_is(o, code) ==> {
                let s = invites::invite_step(c, ctx, base, form, Some(o));
                s is Finish && s->Finish_0.reply.content == (reply::ContentView::Page {
                    status: 200,
                    html: if c.htmx {
                        views::invite::invite_modal_content_form_html(
                            ctx,
                            form.email@,
                            Some(code),
                        )
                    } else {
                        views::invite::members_invite_form_page_html(ctx, form.email@, Some(code))
                    },
                })
            },
{
}

/// What a refused invitation is called.
pub open spec fn refusal_is(o: InviteOutcome, code: Seq<char>) -> bool {
    ||| o is EmailRequired && code == "email_required"@
    ||| o is CannotInviteHigherRole && code == "cannot_invite_higher_role"@
    ||| o is EmailAlreadyInUse && code == "email_already_in_use"@
    ||| o is ActiveInviteExists && code == "active_invite_exists"@
}

/// An invitation is revoked by its id, in the name of the caller, and the directory is told how
/// that went.
pub proof fn law_revoking_runs(c: &Caller, id: Uuid)
    requires
        outcome::confirmed(c),
        outcome::admin(c.role),
    ensures
        invites::revoke_step(c, id, None) == step::StepView::<InviteAskView>::Ask(
            InviteAskView::Revoke { by: c.user_id, id },
        ),
        invites::revoke_step(c, id, Some(RevokeOutcome::Revoked)) == step::replied::<
            InviteAskView,
        >(reply::moved_after("/members"@, c.htmx, "invite_revoked"@, None)),
        invites::revoke_step(c, id, Some(RevokeOutcome::NotFound)) == step::replied::<
            InviteAskView,
        >(reply::moved_failing("/members"@, c.htmx, "invite_not_found"@)),
        invites::revoke_step(c, id, Some(RevokeOutcome::AlreadyAccepted)) == step::replied::<
            InviteAskView,
        >(reply::moved_failing("/members"@, c.htmx, "invite_already_accepted"@)),
{
}

/// An invitation is renewed by its id, in the name of the caller; the link that is shown leads to
/// the new token.
pub proof fn law_renewing_runs(
    c: &Caller,
    ctx: &ChromeContext,
    id: Uuid,
    base: Seq<char>,
    issued: IssuedInvite,
)
    requires
        outcome::confirmed(c),
        outcome::admin(c.role),
    ensures
        invites::reissue_step(c, ctx, id, base, None) == step::StepView::<InviteAskView>::Ask(
            InviteAskView::Reissue { by: c.user_id, id },
        ),
        ({
            let s = invites::reissue_step(
                c,
                ctx,
                id,
                base,
                Some(ReissueOutcome::Reissued(issued)),
            );
            let link = base + "/invite/"@ + issued.raw_token@;
            s is Finish && s->Finish_0.reply.content == (reply::ContentView::Page {
                status: 200,
                html: if c.htmx {
                    views::invite::reissue_modal_content_success_html(
                        issued.email@,
                        issued.role,
                        link,
                        &issued.expires_at,
                    )
                } else {
                    views::invite::members_invite_result_page_html(
                        ctx,
                        issued.email@,
                        issued.role,
                        link,
                        &issued.expires_at,
                    )
                },
            })
        }),
        invites::reissue_step(c, ctx, id, base, Some(ReissueOutcome::Expired)) == step::replied::<
            InviteAskView,
        >(reply::moved_failing("/members"@, c.htmx, "invite_expired"@)),
        invites::reissue_step(c, ctx, id, base, Some(ReissueOutcome::AlreadyAccepted))
            == step::replied::<InviteAskView>(
            reply::moved_failing("/members"@, c.htmx, "invite_already_accepted"@),
        ),
        invites::reissue_step(c, ctx, id, base, Some(ReissueOutcome::NotFound)) == step::replied::<
            InviteAskView,
        >(reply::moved_failing("/members"@, c.htmx, "invite_not_found"@)),
        invites::reissue_step(c, ctx, id, base, Some(ReissueOutcome::AlreadyRevoked))
            == step::replied::<InviteAskView>(
            reply::moved_failing("/members"@, c.htmx, "invite_not_found"@),
        ),
{
}

/// The dialog about an invitation is that of the action asked for, on the invitation that was
/// looked up by the id asked for.
pub proof fn law_invitation_dialogs(
    ctx: &ChromeContext,
    id: Uuid,
    found: Asked<Option<Invitation>>,
    i: Invitation,
)
    requires
        outcome::admin(ctx.user.instance_role),
    ensures
        forall|action: Seq<char>| found is NotYet ==> #[trigger] invites::invitation_modal_step(
            ctx,
            id,
            action,
            found,
        ) == step::StepView::<LookUp>::Ask(LookUp { id }),
        found == Asked::Answer(Some(i)) ==> outcome::ends_with(
            invites::invitation_modal_step(ctx, id, "reissue"@, found),
            reply::ok_page(
                views::invite::reissue_invite_dialog_html(id, i.email@, ctx.csrf_token@),
            ),
        ) && outcome::ends_with(
            invites::invitation_modal_step(ctx, id, "revoke"@, found),
            reply::ok_page(
                views::invite::revoke_invite_dialog_html(id, i.email@, ctx.csrf_token@),
            ),
        ),
        found == Asked::Answer(None::<Invitation>) ==> outcome::has_status(
            invites::invitation_modal_step(ctx, id, "revoke"@, found)->Finish_0.reply,
            404,
        ),
{
    reveal_strlit("reissue");
    reveal_strlit("revoke");
    assert("reissue"@.len() == 7 && "revoke"@.len() == 6);
}

} // verus!
