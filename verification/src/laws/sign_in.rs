//! Signing in and out: what is checked, of whom, and what opens a session.

use vstd::prelude::*;
use crate::audit;
use crate::flows::login;
use crate::flows::login::{
    DiscoverAskView, Factors, LoginAnswers, LoginAskView, MfaFactor, OpenSession, PasskeyAnswers,
    PasskeyAskView, VerifyAnswers, VerifyAskView,
};
use crate::flows::step;
use crate::flows::step::Asked;
use crate::forms::{LoginForm, LoginPasskeyFinishForm, LoginVerifyForm, LogoutForm};
use crate::gate::Caller;
use crate::laws::outcome;
use crate::model;
use crate::model::{UserLifecycle, Uuid};
use crate::reply;
use crate::text;
use crate::views::shell::SiteInfo;

verus! {

/// The password step asks about the email and the password as they were entered, limited by the
/// address they came from. A refused password counts against that address. A user with a second
/// factor gets a token for it and no session, any other user a session.
pub proof fn law_password_step(
    site: &SiteInfo,
    form: &LoginForm,
    client: Seq<char>,
    secure: bool,
    a: &LoginAnswers,
    user: Uuid,
)
    ensures
        ({
            let s = login::login_step(site, form, client, secure, a);
            let key = "login"@ + ":"@ + client;
            &&& a.allowed is None ==> s == step::StepView::Ask(LoginAskView::Allowed(key))
            &&& a.allowed == Some(false) ==> s is Finish
                && s->Finish_0.record_failure is None && s->Finish_0.reply.cookies.len() == 0
                && outcome::has_status(s->Finish_0.reply, 429)
            &&& a.allowed == Some(true) ==> {
                &&& a.credentials is NotYet ==> s == step::StepView::Ask(
                    LoginAskView::Credentials { email: form.email@, password: form.password@ },
                )
                &&& a.credentials == Asked::Answer(None::<Uuid>) ==> s is Finish && s->Finish_0.record_failure == Some(key)
                    && s->Finish_0.reply.cookies.len() == 0
                    && outcome::has_status(s->Finish_0.reply, 200)
                &&& a.credentials == Asked::Answer(Some(user)) ==> {
                    &&& a.second_factor is NotYet ==> s == step::StepView::Ask(
                        LoginAskView::SecondFactor(user),
                    )
                    &&& a.second_factor == Asked::Answer(true) ==> {
                        &&& a.pending_token is None ==> s == step::StepView::Ask(
                            LoginAskView::PendingToken(user),
                        )
                        &&& a.pending_token matches Some(token) ==> s is Finish && s->Finish_0.record_failure is None
                            && outcome::leads_to(s->Finish_0.reply, "/login/verify"@, false)
                            && outcome::sets_only(
                            s->Finish_0.reply,
                            outcome::lasts("hearth_mfa"@, token@, 600, secure),
                        )
                    }
                    &&& a.second_factor == Asked::Answer(false) ==> {
                        &&& a.session is NotYet ==> s == step::StepView::Ask(
                            LoginAskView::Session(OpenSession { user, factor: None }),
                        )
                        &&& a.session matches Asked::Answer(token) ==> s is Finish && s->Finish_0.record_failure is None
                            && outcome::leads_to(s->Finish_0.reply, "/me"@, false) && outcome::sets_only(
                            s->Finish_0.reply,
                            outcome::signs_in(token@, secure),
                        )
                    }
                }
            }
        }),
{
}

/// A passkey alone signs in whom it belongs to, if the account is active, on the strength of the
/// challenge and the answer of the form.
pub proof fn law_passkey_step(
    site: &SiteInfo,
    form: &LoginPasskeyFinishForm,
    client: Seq<char>,
    secure: bool,
    a: &PasskeyAnswers,
    user: Uuid,
    lifecycle: Option<UserLifecycle>,
    token: String,
)
    ensures
        ({
            let s = login::passkey_step(site, form, client, secure, a);
            let key = "login"@ + ":"@ + client;
            &&& a.allowed is None ==> s == step::StepView::Ask(PasskeyAskView::Allowed(key))
            &&& a.allowed == Some(true) ==> {
                &&& a.assertion is NotYet ==> s == step::StepView::Ask(
                    PasskeyAskView::Assertion {
                        challenge_id: form.challenge_id,
                        assertion: form.passkey@,
                    },
                )
                &&& a.assertion == Asked::Answer(None::<Uuid>) ==> s is Finish && s->Finish_0.record_failure == Some(key)
                    && s->Finish_0.reply.cookies.len() == 0
                &&& a.assertion == Asked::Answer(Some(user)) ==> {
                    &&& a.lifecycle is NotYet ==> s == step::StepView::Ask(
                        PasskeyAskView::Lifecycle(user),
                    )
                    &&& a.lifecycle == Asked::Answer(lifecycle) && lifecycle != Some(
                        UserLifecycle::Active,
                    ) ==> s is Finish && s->Finish_0.record_failure == Some(key)
                        && s->Finish_0.reply.cookies.len() == 0
                    &&& a.lifecycle == Asked::Answer(Some(UserLifecycle::Active)) && a.session
                        is NotYet ==> s == step::StepView::Ask(
                        PasskeyAskView::Session(
                            OpenSession { user, factor: Some(MfaFactor::Passkey) },
                        ),
                    )
                    &&& a.lifecycle == Asked::Answer(Some(UserLifecycle::Active))
                        && a.session == Asked::Answer(token) ==> s is Finish && s->Finish_0.record_failure is None
                        && outcome::leads_to(s->Finish_0.reply, "/me"@, false) && (reply::header_text(
                        outcome::signs_in(token@, secure),
                    ) ==> s->Finish_0.reply.cookies.len() > 0 && s->Finish_0.reply.cookies[0] == outcome::signs_in(
                        token@,
                        secure,
                    ))
                }
            }
        }),
{
}

/// Every question about a second factor is about the user that the pending cookie names, and
/// carries what the form holds: the challenge and the answer of a passkey, or a code without the
/// white space around it. A passkey comes first, then a code, then a recovery code.
pub proof fn law_second_factor_questions(
    site: &SiteInfo,
    secure: bool,
    form: &LoginVerifyForm,
    pending: Option<Uuid>,
    a: &VerifyAnswers,
)
    ensures
        match login::verify_step(site, secure, form, pending, a) {
            step::StepView::Ask(VerifyAskView::Factors(user)) => pending == Some(user),
            step::StepView::Ask(VerifyAskView::Allowed(key)) => pending is Some && key == "mfa"@
                + ":"@ + model::uuid_text(pending->0),
            step::StepView::Ask(VerifyAskView::User(user)) => pending == Some(user),
            step::StepView::Ask(VerifyAskView::Passkey { user, challenge_id, assertion }) => {
                &&& pending == Some(user)
                &&& form.challenge_id == Some(challenge_id)
                &&& form.passkey matches Some(p) && p@ == assertion && assertion.len() > 0
            },
            step::StepView::Ask(VerifyAskView::Totp { user, code }) => {
                &&& pending == Some(user)
                &&& form.code matches Some(t) && code == text::trimmed(t@) && code.len() > 0
                &&& form.passkey matches Some(p) ==> p@.len() == 0
            },
            step::StepView::Ask(VerifyAskView::Recovery { user, code }) => {
                &&& pending == Some(user)
                &&& form.recovery_code matches Some(t) && code == text::trimmed(t@) && code.len()
                    > 0
                &&& form.passkey matches Some(p) ==> p@.len() == 0
                &&& form.code matches Some(t) ==> text::trimmed(t@).len() == 0
            },
            step::StepView::Ask(VerifyAskView::Session(s)) => pending == Some(s.user)
                && s.factor is Some,
            step::StepView::Finish(_) => true,
        },
{
}

/// The second factor that a form presents is judged: it is asked about, an accepted one asks for
/// the session of that factor, a refused one ends the attempt.
pub proof fn law_second_factor_is_judged(
    site: &SiteInfo,
    secure: bool,
    form: &LoginVerifyForm,
    user: Uuid,
    a: &VerifyAnswers,
    challenge: Uuid,
    credential: Uuid,
)
    requires
        a.factors is Some,
        a.allowed == Some(true),
        a.user_found == Asked::Answer(true),
    ensures
        ({
            let s = login::verify_step(site, secure, form, Some(user), a);
            let passkey = form.passkey matches Some(p) && p@.len() > 0;
            let code = form.code matches Some(t) && text::trimmed(t@).len() > 0;
            let recovery = form.recovery_code matches Some(t) && text::trimmed(t@).len() > 0;
            &&& passkey && form.challenge_id == Some(challenge) ==> {
                &&& a.passkey is NotYet ==> s == step::StepView::Ask(
                    VerifyAskView::Passkey {
                        user,
                        challenge_id: challenge,
                        assertion: form.passkey->0@,
                    },
                )
                &&& a.passkey == Asked::Answer(true) && a.session is NotYet ==> s
                    == step::StepView::Ask(
                    VerifyAskView::Session(
                        OpenSession { user, factor: Some(MfaFactor::Passkey) },
                    ),
                )
            }
            &&& !passkey && code ==> {
                &&& a.totp is NotYet ==> s == step::StepView::Ask(
                    VerifyAskView::Totp { user, code: text::trimmed(form.code->0@) },
                )
                &&& a.totp == Asked::Answer(Some(credential)) && a.session is NotYet ==> s
                    == step::StepView::Ask(
                    VerifyAskView::Session(
                        OpenSession { user, factor: Some(MfaFactor::Totp(credential)) },
                    ),
                )
            }
            &&& !passkey && !code && recovery ==> {
                &&& a.recovery is NotYet ==> s == step::StepView::Ask(
                    VerifyAskView::Recovery {
                        user,
                        code: text::trimmed(form.recovery_code->0@),
                    },
                )
                &&& a.recovery == Asked::Answer(true) && a.session is NotYet ==> s
                    == step::StepView::Ask(
                    VerifyAskView::Session(
                        OpenSession { user, factor: Some(MfaFactor::RecoveryCode) },
                    ),
                )
            }
            &&& !passkey && !code && !recovery ==> s is Finish
                && s->Finish_0.record_failure is None && s->Finish_0.reply.cookies.len() == 0
        }),
{
}

/// Before the factor is judged, the step finds out what the user has, whether they may try, and
/// whether they are still there; without a pending cookie it goes back to the start.
pub proof fn law_second_factor_order(
    site: &SiteInfo,
    secure: bool,
    form: &LoginVerifyForm,
    user: Uuid,
    a: &VerifyAnswers,
    f: Factors,
)
    ensures
        ({
            let s = login::verify_step(site, secure, form, Some(user), a);
            let nobody = login::verify_step(site, secure, form, None, a);
            &&& a.factors is None ==> s == step::StepView::Ask(VerifyAskView::Factors(user))
            &&& a.factors == Some(f) ==> {
                &&& a.allowed is None ==> s == step::StepView::Ask(
                    VerifyAskView::Allowed("mfa"@ + ":"@ + model::uuid_text(user)),
                )
                &&& a.allowed == Some(false) ==> s is Finish
                    && s->Finish_0.record_failure is None
                    && outcome::has_status(s->Finish_0.reply, 429)
                &&& a.allowed == Some(true) && a.user_found is NotYet ==> s
                    == step::StepView::Ask(VerifyAskView::User(user))
                &&& a.allowed == Some(true) && a.user_found == Asked::Answer(false) ==> s is Finish && outcome::leads_to(
                    s->Finish_0.reply,
                    "/login"@,
                    false,
                )
            }
            &&& nobody is Finish && outcome::leads_to(nobody->Finish_0.reply, "/login"@, false)
        }),
{
}

/// A session that was opened after a second factor reaches the browser, and the wait for the
/// factor ends.
pub proof fn law_second_factor_signs_in(
    site: &SiteInfo,
    secure: bool,
    form: &LoginVerifyForm,
    user: Uuid,
    a: &VerifyAnswers,
    token: String,
)
    requires
        login::verify_step(
            site,
            secure,
            form,
            Some(user),
            &VerifyAnswers { session: Asked::NotYet, ..*a },
        ) matches step::StepView::Ask(VerifyAskView::Session(_)),
        a.session == Asked::Answer(token),
        reply::header_text(outcome::signs_in(token@, secure)),
        reply::header_text(outcome::drops("hearth_mfa"@, secure)),
    ensures
        login::verify_step(site, secure, form, Some(user), a) matches step::StepView::Finish(f)
            && f.record_failure is None && outcome::leads_to(f.reply, "/me"@, false)
            && f.reply.cookies == seq![
            outcome::signs_in(token@, secure),
            outcome::drops("hearth_mfa"@, secure),
        ],
{
}

/// What is logged of a session names the email, the session and the factor it was opened with.
pub proof fn law_sessions_are_logged(email: Seq<char>, session: Uuid, factor: Seq<char>)
    ensures
        audit::signin_entry(email, session, None).event_type == "signin_success"@,
        audit::signin_entry(email, session, None).data == seq![
            audit::FieldView { key: "email"@, value: audit::FieldValueView::Text(email) },
            audit::FieldView { key: "session_id"@, value: audit::FieldValueView::Id(session) },
            audit::FieldView { key: "via"@, value: audit::FieldValueView::Text("web"@) },
        ],
        audit::signin_entry(email, session, Some(factor)).data == audit::signin_entry(
            email,
            session,
            None,
        ).data.push(
            audit::FieldView { key: "mfa"@, value: audit::FieldValueView::Text(factor) },
        ),
        audit::signin_entry(email, session, Some(factor)).event_type == "signin_success"@,
{
    let e = audit::signin_entry(email, session, None);
    assert(e.data =~= seq![
        audit::FieldView { key: "email"@, value: audit::FieldValueView::Text(email) },
        audit::FieldView { key: "session_id"@, value: audit::FieldValueView::Id(session) },
        audit::FieldView { key: "via"@, value: audit::FieldValueView::Text("web"@) },
    ]);
}

/// A passkey sign-in begins with a challenge, limited by the address that asks; the browser gets
/// the challenge and its options.
pub proof fn law_passkey_start(
    site: &SiteInfo,
    client: Seq<char>,
    allowed: Option<bool>,
    started: Asked<(Uuid, String)>,
    challenge: Uuid,
    options: String,
)
    ensures
        ({
            let s = login::discover_step(site, client, allowed, started);
            &&& allowed is None ==> s == step::StepView::Ask(
                DiscoverAskView::Allowed("pklogin"@ + ":"@ + client),
            )
            &&& allowed == Some(true) && started is NotYet ==> s == step::StepView::Ask(
                DiscoverAskView::Begin,
            )
            &&& allowed == Some(true) && started == Asked::Answer((challenge, options)) ==> s is Finish && s->Finish_0.reply.content == (
                reply::ContentView::Json { json: reply::challenge_json(challenge, options@) })
        }),
{
}

/// Signing out ends the session the form came with and logs it; the cookie goes either way, but
/// not for a form with a foreign token.
pub proof fn law_signing_out(c: &Caller, current: Uuid, form: &LogoutForm, secure: bool)
    ensures
        c.csrf_ok ==> {
            &&& login::logout_step(c, current, form, secure, false)
                matches step::StepView::Ask(q) && q.user == c.user_id && q.session == current
                && q.entry.event_type == "signout"@ && q.entry.data == seq![
                audit::FieldView { key: "session_id"@, value: audit::FieldValueView::Id(current) },
                audit::FieldView { key: "via"@, value: audit::FieldValueView::Text("web"@) },
            ]
            &&& login::logout_step(c, current, form, secure, true)
                matches step::StepView::Finish(f) && f.reply.content
                is Redirect && outcome::sets_only(
                f.reply,
                outcome::drops("hearth_session"@, secure),
            )
        },
        !c.csrf_ok ==> forall|tried: bool|
            #[trigger] login::logout_step(c, current, form, secure, tried)
                matches step::StepView::Finish(f) && f.reply.cookies.len() == 0
                && outcome::has_status(f.reply, 403),
{
    let e = audit::signout_entry(current);
    assert(e.data =~= seq![
        audit::FieldView { key: "session_id"@, value: audit::FieldValueView::Id(current) },
        audit::FieldView { key: "via"@, value: audit::FieldValueView::Text("web"@) },
    ]);
}

} // verus!
