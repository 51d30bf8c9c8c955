//! Confirming one's identity before a sensitive action.

use vstd::prelude::*;
use crate::audit;
use crate::cookies;
use crate::cookies::{SUDO_COOKIE_NAME, SUDO_TTL_SECS};
use crate::flows::login;
use crate::flows::login::{given, Factors, TOO_MANY_ATTEMPTS};
use crate::flows::step;
use crate::flows::step::{Asked, Finish, Step};
use crate::forms::MeReauthForm;
use crate::gate;
use crate::gate::{Caller, Floor};
use crate::model;
use crate::model::Uuid;
use crate::reply;
use crate::reply::{set_cookie_header, Reply};
use crate::text;
use crate::views::account;
use crate::views::shell::ChromeContext;

verus! {

/// Whether a field marks the action behind it as critical.
pub open spec fn critical_action(field: Option<String>) -> bool {
    field matches Some(s) && s@ == "1"@
}

fn is_critical(field: &Option<String>) -> (r: bool)
    ensures
        r == critical_action(*field),
{
    match field {
        Some(s) => text::same(s.as_str(), "1"),
        None => false,
    }
}

/// `GET /modals/reauth`: the dialog, which also tells whether a fresh confirmation is already
/// there. With `critical` set to `1` it asks for one that is made for a critical action.
pub fn reauth_modal(
    ctx: &ChromeContext,
    factors: Factors,
    granted_to: Option<Uuid>,
    critical: &Option<String>,
) -> (r: Reply)
    ensures
        r@ == reply::ok_page(
            account::reauth_modal_html(
                ctx,
                factors.totp,
                factors.passkey,
                granted_to == Some(ctx.user.id),
                critical_action(*critical),
            ),
        ),
{
    let fresh = gate::require_fresh_sudo(granted_to, ctx.user.id);
    Reply::ok_page(
        account::reauth_modal(ctx, factors.totp, factors.passkey, fresh, is_critical(critical)),
    )
}

/// What a confirmation asks for, each of the user who is to be confirmed.
pub enum ReauthAsk {
    /// Which factors the user has.
    Factors(Uuid),
    /// Whether the rate limit has room under this key.
    Allowed(String),
    /// Whether the user's passkey signed the challenge.
    Passkey { user: Uuid, challenge_id: Uuid, assertion: String },
    /// Whether this is the user's password.
    Password { user: Uuid, password: String },
    /// Whether one of the user's authenticators shows this code; it is used up.
    Totp { user: Uuid, code: String },
    /// A token that vouches for the user, for critical actions too where it says so.
    Grant { user: Uuid, critical: bool },
}

pub enum ReauthAskView {
    Factors(Uuid),
    Allowed(Seq<char>),
    Passkey { user: Uuid, challenge_id: Uuid, assertion: Seq<char> },
    Password { user: Uuid, password: Seq<char> },
    Totp { user: Uuid, code: Seq<char> },
    Grant { user: Uuid, critical: bool },
}

impl View for ReauthAsk {
    type V = ReauthAskView;

    open spec fn view(&self) -> ReauthAskView {
        match *self {
            ReauthAsk::Factors(user) => ReauthAskView::Factors(user),
            ReauthAsk::Allowed(key) => ReauthAskView::Allowed(key@),
            ReauthAsk::Passkey { user, challenge_id, assertion } => ReauthAskView::Passkey {
                user,
                challenge_id,
                assertion: assertion@,
            },
            ReauthAsk::Password { user, password } => ReauthAskView::Password {
                user,
                password: password@,
            },
            ReauthAsk::Totp { user, code } => ReauthAskView::Totp { user, code: code@ },
            ReauthAsk::Grant { user, critical } => ReauthAskView::Grant { user, critical },
        }
    }
}

pub struct ReauthAnswers {
    pub factors: Option<Factors>,
    pub allowed: Option<bool>,
    pub passkey: Asked<bool>,
    pub password: Asked<bool>,
    /// Whether the code was accepted.
    pub totp: Asked<bool>,
    pub grant: Option<String>,
}

/// The dialog that says why the last attempt failed.
pub open spec fn reauth_retry(
    ctx: &ChromeContext,
    form: &MeReauthForm,
    f: Factors,
    message: Seq<char>,
) -> reply::ReplyView {
    reply::ok_page(
        account::reauth_modal_content_html(
            ctx,
            f.totp,
            f.passkey,
            Some(message),
            critical_action(form.critical),
        ),
    )
}

fn reauth_modal_error(ctx: &ChromeContext, form: &MeReauthForm, f: Factors, message: &str) -> (r: Reply)
    ensures
        r@ == reauth_retry(ctx, form, f, message@),
{
    let critical = is_critical(&form.critical);
    Reply::ok_page(
        account::reauth_modal_content(ctx, f.totp, f.passkey, Some(message), critical),
    )
}

/// The key under which the confirmations of a user are limited.
pub open spec fn reauth_key(user: Uuid) -> Seq<char> {
    login::limit_key("reauth"@, model::uuid_text(user))
}

fn reauth_rate_key(user: Uuid) -> (r: String)
    ensures
        r@ == reauth_key(user),
{
    let subject = user.text();
    login::rate_key("reauth", subject.as_str())
}

/// The reply that hands the confirmation over and lets the waiting action go on.
pub open spec fn granted(token: Seq<char>, secure: bool) -> reply::ReplyView {
    reply::plain(reply::ContentView::Empty { status: 204 }).triggering("reauth-ok"@).only_cookie(
        cookies::timed_cookie(SUDO_COOKIE_NAME@, token, SUDO_TTL_SECS as nat, secure),
    )
}

/// The step behind a confirmed identity.
pub open spec fn grant_step(
    user: Uuid,
    factor: Seq<char>,
    secure: bool,
    form: &MeReauthForm,
    a: &ReauthAnswers,
) -> step::StepView<ReauthAskView> {
    match a.grant {
        None => step::StepView::Ask(
            ReauthAskView::Grant { user, critical: critical_action(form.critical) },
        ),
        Some(token) => step::StepView::Finish(
            step::FinishView {
                record_failure: None,
                audit: Some(audit::reauth(factor, true)),
                reply: granted(token@, secure),
            },
        ),
    }
}

fn grant_and_proceed(
    user: Uuid,
    factor: &str,
    secure: bool,
    form: &MeReauthForm,
    a: &ReauthAnswers,
) -> (r: Step<ReauthAsk>)
    ensures
        r@ == grant_step(user, factor@, secure, form, a),
{
    match &a.grant {
        None => Step::Ask(ReauthAsk::Grant { user, critical: is_critical(&form.critical) }),
        Some(token) => {
            let cookie = cookies::sudo_cookie_value(token.as_str(), false, secure);
            Step::Finish(
                Finish {
                    record_failure: None,
                    audit: Some(audit::audit_reauth(factor, true)),
                    reply: set_cookie_header(
                        Reply::empty(204).triggering("reauth-ok"),
                        cookie.as_str(),
                    ),
                },
            )
        },
    }
}

/// The name, in the audit log, of the factors that a password is checked with.
pub open spec fn password_factor(f: Factors) -> Seq<char> {
    if f.totp {
        "password+totp"@
    } else {
        "password"@
    }
}

/// The steps that judge a password, and the code that has to come with it where an authenticator
/// is enrolled.
pub open spec fn password_step(
    user: Uuid,
    ctx: &ChromeContext,
    secure: bool,
    form: &MeReauthForm,
    a: &ReauthAnswers,
    f: Factors,
) -> step::StepView<ReauthAskView> {
    if f.passkey && !f.totp {
        step::replied(reauth_retry(ctx, form, f, "Verify with your passkey to continue."@))
    } else if text::or_blank(text::opt_string(form.password)).len() == 0 {
        step::replied(reauth_retry(ctx, form, f, "Enter your password to continue."@))
    } else {
        match a.password {
            Asked::NotYet => step::StepView::Ask(
                ReauthAskView::Password {
                    user,
                    password: text::or_blank(text::opt_string(form.password)),
                },
            ),
            Asked::Failed => step::gave_up(ctx.site),
            Asked::Answer(false) => step::attempt_failed(
                reauth_key(user),
                Some(audit::reauth("password"@, false)),
                reauth_retry(ctx, form, f, "That password is incorrect."@),
            ),
            Asked::Answer(true) => if f.totp {
                match a.totp {
                    Asked::NotYet => step::StepView::Ask(
                        ReauthAskView::Totp {
                            user,
                            code: text::trimmed(text::or_blank(text::opt_string(form.code))),
                        },
                    ),
                    Asked::Failed => step::gave_up(ctx.site),
                    Asked::Answer(false) => step::attempt_failed(
                        reauth_key(user),
                        Some(audit::reauth("password+totp"@, false)),
                        reauth_retry(ctx, form, f, "That authenticator code didn't match."@),
                    ),
                    Asked::Answer(true) => grant_step(user, password_factor(f), secure, form, a),
                }
            } else {
                grant_step(user, password_factor(f), secure, form, a)
            },
        }
    }
}

fn judge_password(
    user: Uuid,
    ctx: &ChromeContext,
    secure: bool,
    form: &MeReauthForm,
    a: &ReauthAnswers,
    f: Factors,
) -> (r: Step<ReauthAsk>)
    ensures
        r@ == password_step(user, ctx, secure, form, a, f),
{
    if f.passkey && !f.totp {
        return Step::replied(
            reauth_modal_error(ctx, form, f, "Verify with your passkey to continue."),
        );
    }
    let password = text::blank_or(&form.password);
    if password.is_empty() {
        return Step::replied(reauth_modal_error(ctx, form, f, "Enter your password to continue."));
    }
    match &a.password {
        Asked::NotYet => Step::Ask(
            ReauthAsk::Password { user, password: password.to_owned() },
        ),
        Asked::Failed => Step::gave_up(ctx.site),
        Asked::Answer(false) => Step::attempt_failed(
            reauth_rate_key(user),
            Some(audit::audit_reauth("password", false)),
            reauth_modal_error(ctx, form, f, "That password is incorrect."),
        ),
        Asked::Answer(true) => if f.totp {
            match &a.totp {
                Asked::NotYet => Step::Ask(
                    ReauthAsk::Totp { user, code: text::trim(text::blank_or(&form.code)) },
                ),
                Asked::Failed => Step::gave_up(ctx.site),
                Asked::Answer(false) => Step::attempt_failed(
                    reauth_rate_key(user),
                    Some(audit::audit_reauth("password+totp", false)),
                    reauth_modal_error(ctx, form, f, "That authenticator code didn't match."),
                ),
                Asked::Answer(true) => grant_and_proceed(user, "password+totp", secure, form, a),
            }
        } else {
            grant_and_proceed(user, "password", secure, form, a)
        },
    }
}

/// The steps that judge what a form presents: a passkey where there is one, a password otherwise.
pub open spec fn identity_step(
    user: Uuid,
    ctx: &ChromeContext,
    secure: bool,
    form: &MeReauthForm,
    a: &ReauthAnswers,
    f: Factors,
) -> step::StepView<ReauthAskView> {
    match login::entered(form.passkey) {
        Some(assertion) => match form.challenge_id {
            None => step::replied(
                reauth_retry(ctx, form, f, "Passkey verification failed. Try again."@),
            ),
            Some(challenge_id) => match a.passkey {
                Asked::NotYet => step::StepView::Ask(
                    ReauthAskView::Passkey { user, challenge_id, assertion },
                ),
                Asked::Failed => step::gave_up(ctx.site),
                Asked::Answer(true) => grant_step(user, "passkey"@, secure, form, a),
                Asked::Answer(false) => step::attempt_failed(
                    reauth_key(user),
                    Some(audit::reauth("passkey"@, false)),
                    reauth_retry(ctx, form, f, "That passkey didn't work. Try again."@),
                ),
            },
        },
        None => password_step(user, ctx, secure, form, a, f),
    }
}

pub open spec fn reauth_step(
    c: &Caller,
    ctx: &ChromeContext,
    secure: bool,
    form: &MeReauthForm,
    a: &ReauthAnswers,
) -> step::StepView<ReauthAskView> {
    if !c.csrf_ok {
        step::replied(gate::bad_token(c.site))
    } else {
        match a.factors {
            None => step::StepView::Ask(ReauthAskView::Factors(c.user_id)),
            Some(f) => match a.allowed {
                None => step::StepView::Ask(
                    ReauthAskView::Allowed(reauth_key(c.user_id)),
                ),
                Some(false) => step::replied(reauth_retry(ctx, form, f, TOO_MANY_ATTEMPTS@)),
                Some(true) => identity_step(c.user_id, ctx, secure, form, a, f),
            },
        }
    }
}

/// `POST /me/reauth`: confirms the identity of the signed-in user, at the strength their account
/// demands: a passkey, or the password with the code of an authenticator where one is enrolled.
pub fn me_reauth_submit(
    c: &Caller,
    ctx: &ChromeContext,
    secure: bool,
    form: &MeReauthForm,
    a: &ReauthAnswers,
) -> (r: Step<ReauthAsk>)
    ensures
        r@ == reauth_step(c, ctx, secure, form, a),
{
    match gate::check_all(c, Floor::Member, false) {
        Ok(()) => {},
        Err(reply) => {
            return Step::replied(reply);
        },
    }
    let user = c.user_id;
    match a.factors {
        None => Step::Ask(ReauthAsk::Factors(user)),
        Some(f) => match a.allowed {
            None => Step::Ask(ReauthAsk::Allowed(reauth_rate_key(user))),
            Some(false) => Step::replied(reauth_modal_error(ctx, form, f, TOO_MANY_ATTEMPTS)),
            Some(true) => match given(&form.passkey) {
                Some(assertion) => match form.challenge_id {
                    None => Step::replied(
                        reauth_modal_error(ctx, form, f, "Passkey verification failed. Try again."),
                    ),
                    Some(challenge_id) => match &a.passkey {
                        Asked::NotYet => Step::Ask(
                            ReauthAsk::Passkey { user, challenge_id, assertion },
                        ),
                        Asked::Failed => Step::gave_up(ctx.site),
                        Asked::Answer(true) => grant_and_proceed(user, "passkey", secure, form, a),
                        Asked::Answer(false) => Step::attempt_failed(
                            reauth_rate_key(user),
                            Some(audit::audit_reauth("passkey", false)),
                            reauth_modal_error(ctx, form, f, "That passkey didn't work. Try again."),
                        ),
                    },
                },
                None => judge_password(user, ctx, secure, form, a, f),
            },
        },
    }
}

/// A confirmation never falls below the strength of the account: it takes a passkey that was
/// accepted; or the right password, with an accepted code where an authenticator is enrolled, and
/// never for an account that has passkeys alone. It vouches for the caller and nobody else, and
/// for critical actions only where the form was for one.
pub proof fn law_confirmation_strength(
    c: &Caller,
    ctx: &ChromeContext,
    secure: bool,
    form: &MeReauthForm,
    a: &ReauthAnswers,
    f: Factors,
    user: Uuid,
    critical: bool,
)
    requires
        reauth_step(c, ctx, secure, form, a) == step::StepView::<ReauthAskView>::Ask(
            ReauthAskView::Grant { user, critical },
        ),
        a.factors == Some(f),
    ensures
        user == c.user_id,
        critical == critical_action(form.critical),
        c.csrf_ok,
        a.allowed == Some(true),
        a.passkey == Asked::<bool>::Answer(true) || {
            &&& a.password == Asked::<bool>::Answer(true)
            &&& f.totp ==> a.totp == Asked::<bool>::Answer(true)
            &&& f.passkey ==> f.totp
        },
{
}

/// Only a finished confirmation hands out the cookie: every other reply of the handler sets none.
pub proof fn law_only_a_grant_sets_the_cookie(
    c: &Caller,
    ctx: &ChromeContext,
    secure: bool,
    form: &MeReauthForm,
    a: &ReauthAnswers,
)
    requires
        a.grant is None,
    ensures
        reauth_step(c, ctx, secure, form, a) matches step::StepView::Finish(f)
            ==> f.reply.cookies.len() == 0,
{
}

/// No question is asked twice.
pub proof fn law_reauth_asks_once(
    c: &Caller,
    ctx: &ChromeContext,
    secure: bool,
    form: &MeReauthForm,
    a: &ReauthAnswers,
)
    ensures
        match reauth_step(c, ctx, secure, form, a) {
            step::StepView::Ask(ReauthAskView::Factors(_)) => a.factors is None,
            step::StepView::Ask(ReauthAskView::Allowed(_)) => a.allowed is None,
            step::StepView::Ask(ReauthAskView::Passkey { .. }) => a.passkey is NotYet,
            step::StepView::Ask(ReauthAskView::Password { .. }) => a.password is NotYet,
            step::StepView::Ask(ReauthAskView::Totp { .. }) => a.totp is NotYet,
            step::StepView::Ask(ReauthAskView::Grant { .. }) => a.grant is None,
            step::StepView::Finish(_) => true,
        },
{
}

} // verus!
