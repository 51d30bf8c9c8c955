//! Attempts that are refused: they count against whoever made them, are logged, and come back with
//! the reason.

use vstd::prelude::*;
use crate::audit::{EntryView, FieldValueView, FieldView};
use crate::flows::login;
use crate::flows::login::{Factors, LoginAnswers, PasskeyAnswers, VerifyAnswers};
use crate::flows::reauth;
use crate::flows::reauth::ReauthAnswers;
use crate::flows::recovery;
use crate::flows::recovery::{RecoverAnswers, ResetAnswers};
use crate::flows::step;
use crate::flows::step::Asked;
use crate::forms::{
    LoginForm, LoginPasskeyFinishForm, LoginVerifyForm, MeReauthForm, RecoverForm, RecoverResetForm,
};
use crate::gate::Caller;
use crate::laws::outcome;
use crate::model;
use crate::model::{UserLifecycle, Uuid};
use crate::text;
use crate::views;
use crate::views::shell::{ChromeContext, SiteInfo};

verus! {

/// Whether a step ends a request with this page, counting against a key and logging an entry, if
/// there are any.
pub open spec fn refused<Q>(
    s: step::StepView<Q>,
    key: Option<Seq<char>>,
    entry: Option<EntryView>,
    status: u16,
    page: Seq<char>,
) -> bool {
    &&& s is Finish
    &&& s->Finish_0.record_failure == key
    &&& s->Finish_0.audit == entry
    &&& outcome::is_page(s->Finish_0.reply, status, page)
}

/// A refused password, or a passkey nobody has, counts against the client and brings the sign-in
/// page back with the reason, the email as it was entered. Too many attempts are told as such.
pub proof fn law_refused_sign_in(
    site: &SiteInfo,
    form: &LoginForm,
    passkey: &LoginPasskeyFinishForm,
    client: Seq<char>,
    secure: bool,
    a: &LoginAnswers,
    b: &PasskeyAnswers,
    user: Uuid,
    lifecycle: Option<UserLifecycle>,
)
    ensures
        ({
            let s = login::login_step(site, form, client, secure, a);
            let p = login::passkey_step(site, passkey, client, secure, b);
            let key = Some("login"@ + ":"@ + client);
            let page = |message: Seq<char>, email: Option<Seq<char>>|
                views::login::login_page_html(site, Some(message), email);
            let wait = "Too many attempts. Wait a moment and try again."@;
            &&& a.allowed == Some(false) ==> refused(s, None, None, 429, page(wait, None))
            &&& a.allowed == Some(true) && a.credentials == Asked::Answer(None::<Uuid>) ==> refused(
                s,
                key,
                None,
                200,
                page("Invalid email or password."@, Some(form.email@)),
            )
            &&& b.allowed == Some(false) ==> refused(p, None, None, 429, page(wait, None))
            &&& b.allowed == Some(true) && b.assertion == Asked::Answer(None::<Uuid>) ==> refused(
                p,
                key,
                None,
                200,
                page(
                    "Passkey sign-in didn't work. Try again, or sign in with your password."@,
                    None,
                ),
            )
            &&& b.allowed == Some(true) && b.assertion == Asked::Answer(Some(user)) && b.lifecycle
                == Asked::Answer(lifecycle) && lifecycle != Some(UserLifecycle::Active) ==> refused(
                p,
                key,
                None,
                200,
                page("That account can't sign in."@, None),
            )
        }),
{
}

/// A refused second factor counts against the user, is logged with the factor that was tried, and
/// brings the page back with the reason and the factors that the user has.
pub proof fn law_refused_second_factor(
    site: &SiteInfo,
    secure: bool,
    form: &LoginVerifyForm,
    user: Uuid,
    a: &VerifyAnswers,
    f: Factors,
    challenge: Uuid,
)
    requires
        a.factors == Some(f),
    ensures
        ({
            let s = login::verify_step(site, secure, form, Some(user), a);
            let passkey = form.passkey matches Some(p) && p@.len() > 0;
            let code = form.code matches Some(t) && text::trimmed(t@).len() > 0;
            let recovery = form.recovery_code matches Some(t) && text::trimmed(t@).len() > 0;
            let page = |message: Seq<char>|
                views::login::login_verify_page_html(site, Some(message), f.totp, f.passkey);
            let key = Some("mfa"@ + ":"@ + model::uuid_text(user));
            let tried = |factor: Seq<char>|
                Some(
                    EntryView {
                        event_type: "mfa_failed"@,
                        data: seq![
                            FieldView { key: "via"@, value: FieldValueView::Text("web"@) },
                            FieldView { key: "factor"@, value: FieldValueView::Text(factor) },
                        ],
                    },
                );
            &&& a.allowed == Some(true) && a.user_found == Asked::Answer(true) ==> {
                &&& passkey && form.challenge_id == Some(challenge) && a.passkey == Asked::Answer(
                    false,
                ) ==> refused(
                    s,
                    key,
                    tried("passkey"@),
                    200,
                    page("That passkey didn't work. Try again."@),
                )
                &&& !passkey && code && a.totp == Asked::Answer(None::<Uuid>) ==> refused(
                    s,
                    key,
                    tried("totp"@),
                    200,
                    page("That code didn't match. Try again."@),
                )
                &&& !passkey && !code && recovery && a.recovery == Asked::Answer(false) ==> refused(
                    s,
                    key,
                    tried("recovery_code"@),
                    200,
                    page("That recovery code didn't match."@),
                )
                &&& !passkey && !code && !recovery ==> refused(
                    s,
                    None,
                    None,
                    200,
                    page("Choose a verification method to continue."@),
                )
            }
            &&& a.allowed == Some(false) ==> refused(
                s,
                None,
                None,
                429,
                page("Too many attempts. Wait a moment and try again."@),
            )
        }),
{
    let data = |factor: Seq<char>|
        seq![
            FieldView { key: "via"@, value: FieldValueView::Text("web"@) },
            FieldView { key: "factor"@, value: FieldValueView::Text(factor) },
        ];
    assert(crate::audit::mfa_failure("passkey"@).data =~= data("passkey"@));
    assert(crate::audit::mfa_failure("totp"@).data =~= data("totp"@));
    assert(crate::audit::mfa_failure("recovery_code"@).data =~= data("recovery_code"@));
}

/// A refused confirmation brings the dialog back with the reason, the factors that the user has and
/// what the confirmation is for.
pub proof fn law_refused_confirmation(
    c: &Caller,
    ctx: &ChromeContext,
    secure: bool,
    form: &MeReauthForm,
    a: &ReauthAnswers,
    f: Factors,
    challenge: Uuid,
)
    requires
        c.csrf_ok,
        a.factors == Some(f),
    ensures
        ({
            let s = reauth::reauth_step(c, ctx, secure, form, a);
            let critical = form.critical matches Some(t) && t@ == "1"@;
            let passkey = form.passkey matches Some(p) && p@.len() > 0;
            let password = form.password matches Some(p) && p@.len() > 0;
            let page = |message: Seq<char>|
                views::account::reauth_modal_content_html(
                    ctx,
                    f.totp,
                    f.passkey,
                    Some(message),
                    critical,
                );
            let key = Some("reauth"@ + ":"@ + model::uuid_text(c.user_id));
            let tried = |factor: Seq<char>|
                Some(
                    EntryView {
                        event_type: "reauth_failed"@,
                        data: seq![
                            FieldView { key: "factor"@, value: FieldValueView::Text(factor) },
                        ],
                    },
                );
            &&& a.allowed == Some(false) ==> refused(
                s,
                None,
                None,
                200,
                page("Too many attempts. Wait a moment and try again."@),
            )
            &&& a.allowed == Some(true) ==> {
                &&& passkey && form.challenge_id is None ==> refused(
                    s,
                    None,
                    None,
                    200,
                    page("Passkey verification failed. Try again."@),
                )
                &&& passkey && form.challenge_id == Some(challenge) && a.passkey == Asked::Answer(
                    false,
                ) ==> refused(
                    s,
                    key,
                    tried("passkey"@),
                    200,
                    page("That passkey didn't work. Try again."@),
                )
                &&& !passkey && f.passkey && !f.totp ==> refused(
                    s,
                    None,
                    None,
                    200,
                    page("Verify with your passkey to continue."@),
                )
                &&& !passkey && (!f.passkey || f.totp) && !password ==> refused(
                    s,
                    None,
                    None,
                    200,
                    page("Enter your password to continue."@),
                )
                &&& !passkey && (!f.passkey || f.totp) && password && a.password == Asked::Answer(
                    false,
                ) ==> refused(
                    s,
                    key,
                    tried("password"@),
                    200,
                    page("That password is incorrect."@),
                )
                &&& !passkey && f.totp && password && a.password == Asked::Answer(true) && a.totp
                    == Asked::Answer(false) ==> refused(
                    s,
                    key,
                    tried("password+totp"@),
                    200,
                    page("That authenticator code didn't match."@),
                )
            }
        }),
{
    let data = |factor: Seq<char>|
        seq![FieldView { key: "factor"@, value: FieldValueView::Text(factor) }];
    assert(crate::audit::reauth("passkey"@, false).data =~= data("passkey"@));
    assert(crate::audit::reauth("password"@, false).data =~= data("password"@));
    assert(crate::audit::reauth("password+totp"@, false).data =~= data("password+totp"@));
}

/// A refused recovery always says the same, whether the email, the account or the code was wrong; a
/// new password has to be entered twice.
pub proof fn law_refused_recovery(
    site: &SiteInfo,
    secure: bool,
    form: &RecoverForm,
    client: Seq<char>,
    a: &RecoverAnswers,
    reset: &RecoverResetForm,
    user: Uuid,
    b: &ResetAnswers,
)
    ensures
        ({
            let s = recovery::recover_step(site, secure, form, client, a);
            let r = recovery::reset_step(site, secure, reset, Some(user), b);
            let page = |message: Seq<char>| views::login::recover_page_html(site, Some(message));
            let again = |message: Seq<char>|
                views::login::recover_reset_page_html(site, Some(message));
            &&& a.allowed == Some(false) ==> refused(
                s,
                None,
                None,
                429,
                page("Too many attempts. Wait a moment and try again."@),
            )
            &&& s is Finish && s->Finish_0.record_failure is Some ==> outcome::is_page(
                s->Finish_0.reply,
                200,
                page("That email and recovery code didn't match. Check both and try again."@),
            )
            &&& reset.new_password@.len() == 0 ==> refused(
                r,
                None,
                None,
                200,
                again("Enter a new password."@),
            )
            &&& reset.new_password@.len() > 0 && reset.new_password@ != reset.confirm_password@
                ==> refused(r, None, None, 200, again("Those passwords don't match."@))
        }),
{
}

} // verus!
