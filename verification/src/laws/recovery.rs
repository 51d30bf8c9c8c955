//! Getting back into an account.

use vstd::prelude::*;
use crate::audit;
use crate::flows::recovery;
use crate::flows::recovery::{
    Candidate, RecoverAnswers, RecoverAskView, ResetAnswers, ResetAskView, ResetDone,
};
use crate::flows::step;
use crate::flows::step::Asked;
use crate::forms::{RecoverForm, RecoverResetForm};
use crate::laws::outcome;
use crate::model::{UserLifecycle, Uuid};
use crate::reply;
use crate::text;
use crate::views;
use crate::views::shell::SiteInfo;

verus! {

/// A recovery looks up the email that was entered, holds the code that was entered against the
/// account it found, if that is active, and hands its owner a token for ten minutes.
pub proof fn law_recovery_runs(
    site: &SiteInfo,
    secure: bool,
    form: &RecoverForm,
    client: Seq<char>,
    a: &RecoverAnswers,
    user: Uuid,
    token: String,
)
    ensures
        ({
            let s = recovery::recover_step(site, secure, form, client, a);
            let key = "recover"@ + ":"@ + client;
            &&& a.allowed is None ==> s == step::StepView::<RecoverAskView>::Ask(
                RecoverAskView::Allowed(key),
            )
            &&& a.allowed == Some(false) ==> s is Finish && outcome::has_status(
                s->Finish_0.reply,
                429,
            ) && s->Finish_0.record_failure is None
            &&& a.allowed == Some(true) ==> {
                &&& a.candidate is NotYet ==> s == step::StepView::<RecoverAskView>::Ask(
                    RecoverAskView::FindByEmail(text::trimmed(form.email@)),
                )
                &&& a.candidate is Failed ==> s is Finish && outcome::has_status(
                    s->Finish_0.reply,
                    500,
                )
                &&& a.candidate == Asked::Answer(
                    Some(Candidate { id: user, lifecycle: UserLifecycle::Active }),
                ) ==> {
                    &&& a.verified is NotYet ==> s == step::StepView::<RecoverAskView>::Ask(
                        RecoverAskView::VerifyCode {
                            user,
                            code: text::trimmed(form.recovery_code@),
                        },
                    )
                    &&& a.verified == Asked::Answer(true) && a.reset_token is None ==> s
                        == step::StepView::<RecoverAskView>::Ask(RecoverAskView::ResetToken(user))
                    &&& a.verified == Asked::Answer(true) && a.reset_token == Some(token) ==> s
                        is Finish && outcome::leads_to(
                        s->Finish_0.reply,
                        "/recover/reset"@,
                        false,
                    ) && outcome::sets_only(
                        s->Finish_0.reply,
                        outcome::lasts("hearth_recovery"@, token@, 600, secure),
                    ) && s->Finish_0.record_failure is None
                    &&& a.verified == Asked::Answer(false) ==> s is Finish
                        && s->Finish_0.record_failure == Some(key) && s->Finish_0.audit is None
                        && s->Finish_0.reply.cookies.len() == 0
                }
                &&& (a.candidate == Asked::Answer(None::<Candidate>)) ==> s is Finish
                    && s->Finish_0.record_failure == Some(key) && s->Finish_0.audit == Some(
                    audit::entry("recovery_failed"@).text("email"@, text::trimmed(form.email@)).text(
                        "reason"@,
                        "unknown_or_inactive"@,
                    ),
                ) && s->Finish_0.reply.cookies.len() == 0
            }
        }),
{
}

/// The new password is the one that was entered twice, for the account the recovery cookie names;
/// its owner is signed in, is shown the new recovery code, and the cookie is spent.
pub proof fn law_reset_runs(
    site: &SiteInfo,
    secure: bool,
    form: &RecoverResetForm,
    recovering: Option<Uuid>,
    a: &ResetAnswers,
    user: Uuid,
    hash: String,
    done: ResetDone,
)
    requires
        reply::header_text(outcome::signs_in(done.session_token@, secure)),
        reply::header_text(outcome::drops("hearth_recovery"@, secure)),
    ensures
        ({
            let s = recovery::reset_step(site, secure, form, recovering, a);
            let ready = form.new_password@.len() > 0 && form.new_password@
                == form.confirm_password@;
            &&& recovering is None ==> s is Finish && outcome::leads_to(
                s->Finish_0.reply,
                "/recover"@,
                false,
            )
            &&& recovering == Some(user) && !ready ==> s is Finish && outcome::has_status(
                s->Finish_0.reply,
                200,
            ) && s->Finish_0.reply.cookies.len() == 0
            &&& recovering == Some(user) && ready ==> {
                &&& a.user_found is NotYet ==> s == step::StepView::<ResetAskView>::Ask(
                    ResetAskView::User(user),
                )
                &&& a.user_found == Asked::Answer(false) ==> s is Finish && outcome::leads_to(
                    s->Finish_0.reply,
                    "/recover"@,
                    false,
                )
                &&& a.user_found == Asked::Answer(true) && a.hashed is NotYet ==> s
                    == step::StepView::<ResetAskView>::Ask(ResetAskView::Hash(form.new_password@))
                &&& a.user_found == Asked::Answer(true) && a.hashed == Asked::Answer(hash) ==> {
                    &&& a.applied is NotYet ==> s == step::StepView::<ResetAskView>::Ask(
                        ResetAskView::Apply { user, hash: hash@ },
                    )
                    &&& a.applied == Asked::Answer(done) ==> s is Finish
                        && s->Finish_0.reply.content == (reply::ContentView::Page {
                        status: 200,
                        html: views::login::accept_invite_recovery_code_page_html(
                            site,
                            done.recovery_code@,
                        ),
                    }) && s->Finish_0.reply.cookies == seq![
                        outcome::signs_in(done.session_token@, secure),
                        outcome::drops("hearth_recovery"@, secure),
                    ]
                    &&& a.applied is Failed ==> s is Finish && outcome::has_status(
                        s->Finish_0.reply,
                        500,
                    ) && s->Finish_0.reply.cookies.len() == 0
                }
            }
        }),
{
}

/// What is logged of a recovery: that a code was accepted or refused, and in the end how many
/// sessions were ended and which one was opened.
pub proof fn law_recoveries_are_logged(
    user: Uuid,
    code: Seq<char>,
    hash: Seq<char>,
    accepted: bool,
    revoked: u64,
    session: Uuid,
)
    ensures
        (RecoverAskView::VerifyCode { user, code }).entry(accepted) == Some(
            audit::entry(
                if accepted {
                    "recovery_started"@
                } else {
                    "recovery_failed"@
                },
            ).text("via"@, "web"@),
        ),
        (ResetAskView::Apply { user, hash }).entry(revoked, session) == Some(
            audit::entry("recovery_succeeded"@).count("sessions_revoked"@, revoked).id(
                "session_id"@,
                session,
            ),
        ),
{
}

} // verus!
