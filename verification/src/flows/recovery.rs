//! Getting back into an account with a recovery code.

use vstd::prelude::*;
use crate::audit;
use crate::audit::AuditEntry;
use crate::cookies;
use crate::cookies::{RECOVERY_COOKIE_NAME, RESET_TTL_SECS, SESSION_COOKIE_NAME};
use crate::flows;
use crate::flows::login::TOO_MANY_ATTEMPTS;
use crate::flows::step;
use crate::flows::step::{Asked, Step};
use crate::forms::{RecoverForm, RecoverResetForm};
use crate::model::{UserLifecycle, Uuid};
use crate::reply;
use crate::reply::{append_cookie_header, set_cookie_header, Reply};
use crate::text;
use crate::views::login;
use crate::views::shell::SiteInfo;

verus! {

/// The one answer to every recovery that fails, so that nobody learns which emails have accounts.
pub const RECOVER_GENERIC_ERROR: &'static str =
    "That email and recovery code didn't match. Check both and try again.";

/// `GET /recover`.
pub fn recover_page(site: &SiteInfo) -> (r: Reply)
    ensures
        r@ == reply::ok_page(login::recover_page_html(site, None)),
{
    Reply::ok_page(login::recover_page(site, None))
}

// ---- The code --------------------------------------------------------------------------------

/// What a recovery asks for.
pub enum RecoverAsk {
    /// Whether the rate limit has room under this key.
    Allowed(String),
    /// Who has this email.
    FindByEmail(String),
    /// Whether this is the user's recovery code; the attempt is logged either way.
    VerifyCode { user: Uuid, code: String },
    /// A token that lets the user set a new password.
    ResetToken(Uuid),
}

pub enum RecoverAskView {
    Allowed(Seq<char>),
    FindByEmail(Seq<char>),
    VerifyCode { user: Uuid, code: Seq<char> },
    ResetToken(Uuid),
}

impl View for RecoverAsk {
    type V = RecoverAskView;

    open spec fn view(&self) -> RecoverAskView {
        match *self {
            RecoverAsk::Allowed(key) => RecoverAskView::Allowed(key@),
            RecoverAsk::FindByEmail(email) => RecoverAskView::FindByEmail(email@),
            RecoverAsk::VerifyCode { user, code } => RecoverAskView::VerifyCode {
                user,
                code: code@,
            },
            RecoverAsk::ResetToken(user) => RecoverAskView::ResetToken(user),
        }
    }
}

impl RecoverAskView {
    /// What is logged with the answer, both or neither.
    pub open spec fn entry(self, accepted: bool) -> Option<audit::EntryView> {
        match self {
            RecoverAskView::VerifyCode { .. } => Some(audit::recovery_attempt_entry(accepted)),
            _ => None,
        }
    }
}

impl RecoverAsk {
    pub fn entry(&self, accepted: bool) -> (r: Option<AuditEntry>)
        ensures
            audit::of(r) == self@.entry(accepted),
    {
        match self {
            RecoverAsk::VerifyCode { .. } => Some(audit::recovery_attempt(accepted)),
            _ => None,
        }
    }
}

/// An account that was found by its email.
#[derive(Clone, Copy, Debug, PartialEq, Eq, Structural)]
pub struct Candidate {
    pub id: Uuid,
    pub lifecycle: UserLifecycle,
}

pub struct RecoverAnswers {
    pub allowed: Option<bool>,
    pub candidate: Asked<Option<Candidate>>,
    pub verified: Asked<bool>,
    pub reset_token: Option<String>,
}

/// The form that says no more than that the two did not match.
pub open spec fn recover_retry(site: &SiteInfo) -> reply::ReplyView {
    reply::ok_page(login::recover_page_html(site, Some(RECOVER_GENERIC_ERROR@)))
}

fn retry(site: &SiteInfo) -> (r: Reply)
    ensures
        r@ == recover_retry(site),
{
    Reply::ok_page(login::recover_page(site, Some(RECOVER_GENERIC_ERROR)))
}

pub open spec fn recover_step(
    site: &SiteInfo,
    secure: bool,
    form: &RecoverForm,
    client: Seq<char>,
    a: &RecoverAnswers,
) -> step::StepView<RecoverAskView> {
    match a.allowed {
        None => step::StepView::Ask(
            RecoverAskView::Allowed(flows::login::limit_key("recover"@, client)),
        ),
        Some(false) => step::replied(
            reply::page_with(429, login::recover_page_html(site, Some(TOO_MANY_ATTEMPTS@))),
        ),
        Some(true) => match a.candidate {
            Asked::NotYet => step::StepView::Ask(
                RecoverAskView::FindByEmail(text::trimmed(form.email@)),
            ),
            Asked::Failed => step::gave_up(site),
            Asked::Answer(found) => match found {
                Some(c) => if c.lifecycle == UserLifecycle::Active {
                    match a.verified {
                        Asked::NotYet => step::StepView::Ask(
                            RecoverAskView::VerifyCode {
                                user: c.id,
                                code: text::trimmed(form.recovery_code@),
                            },
                        ),
                        Asked::Failed => step::gave_up(site),
                        Asked::Answer(true) => match a.reset_token {
                            None => step::StepView::Ask(RecoverAskView::ResetToken(c.id)),
                            Some(token) => step::replied(
                                reply::see_other("/recover/reset"@).only_cookie(
                                    cookies::timed_cookie(
                                        RECOVERY_COOKIE_NAME@,
                                        token@,
                                        RESET_TTL_SECS as nat,
                                        secure,
                                    ),
                                ),
                            ),
                        },
                        Asked::Answer(false) => step::attempt_failed(
                            flows::login::limit_key("recover"@, client),
                            None,
                            recover_retry(site),
                        ),
                    }
                } else {
                    step::attempt_failed(
                        flows::login::limit_key("recover"@, client),
                        Some(audit::recovery_without_account(text::trimmed(form.email@))),
                        recover_retry(site),
                    )
                },
                None => step::attempt_failed(
                    flows::login::limit_key("recover"@, client),
                    Some(audit::recovery_without_account(text::trimmed(form.email@))),
                    recover_retry(site),
                ),
            },
        },
    }
}

/// The end of a recovery for an email without an active account.
fn no_account(site: &SiteInfo, client: &str, email: &str) -> (r: Step<RecoverAsk>)
    ensures
        r@ == step::attempt_failed::<RecoverAskView>(
            flows::login::limit_key("recover"@, client@),
            Some(audit::recovery_without_account(email@)),
            recover_retry(site),
        ),
{
    Step::attempt_failed(
        flows::login::rate_key("recover", client),
        Some(audit::recovery_unknown(email)),
        retry(site),
    )
}

/// `POST /recover`: checks an email and a recovery code.
pub fn recover_submit(
    site: &SiteInfo,
    secure: bool,
    form: &RecoverForm,
    client: &str,
    a: &RecoverAnswers,
) -> (r: Step<RecoverAsk>)
    ensures
        r@ == recover_step(site, secure, form, client@, a),
{
    match a.allowed {
        None => Step::Ask(RecoverAsk::Allowed(flows::login::rate_key("recover", client))),
        Some(false) => Step::replied(
            Reply::page(429, login::recover_page(site, Some(TOO_MANY_ATTEMPTS))),
        ),
        Some(true) => {
            let email = text::trim(form.email.as_str());
            match &a.candidate {
                Asked::NotYet => Step::Ask(RecoverAsk::FindByEmail(email)),
                Asked::Failed => Step::gave_up(site),
                Asked::Answer(Some(c)) => if c.lifecycle == UserLifecycle::Active {
                    match &a.verified {
                        Asked::NotYet => Step::Ask(
                            RecoverAsk::VerifyCode {
                                user: c.id,
                                code: text::trim(form.recovery_code.as_str()),
                            },
                        ),
                        Asked::Failed => Step::gave_up(site),
                        Asked::Answer(true) => match &a.reset_token {
                            None => Step::Ask(RecoverAsk::ResetToken(c.id)),
                            Some(token) => {
                                let cookie = cookies::recovery_cookie_value(
                                    token.as_str(),
                                    false,
                                    secure,
                                );
                                Step::replied(
                                    set_cookie_header(
                                        Reply::see_other("/recover/reset"),
                                        cookie.as_str(),
                                    ),
                                )
                            },
                        },
                        Asked::Answer(false) => Step::attempt_failed(
                            flows::login::rate_key("recover", client),
                            None,
                            retry(site),
                        ),
                    }
                } else {
                    no_account(site, client, email.as_str())
                },
                Asked::Answer(None) => no_account(site, client, email.as_str()),
            }
        },
    }
}

/// Whether a recovery has been judged and refused.
pub open spec fn refused(a: &RecoverAnswers) -> bool {
    a.allowed == Some(true) && match a.candidate {
        Asked::Answer(Some(c)) => c.lifecycle != UserLifecycle::Active || a.verified
            == Asked::<bool>::Answer(false),
        Asked::Answer(None) => true,
        _ => false,
    }
}

/// Nobody can tell from the reply why a recovery was refused: an unknown email, an account that
/// is not active and a wrong code are answered alike, and each counts against the rate limit of
/// the client it came from.
pub proof fn law_refused_recoveries_look_alike(
    site: &SiteInfo,
    secure: bool,
    form1: &RecoverForm,
    form2: &RecoverForm,
    client1: Seq<char>,
    client2: Seq<char>,
    a1: &RecoverAnswers,
    a2: &RecoverAnswers,
)
    requires
        refused(a1),
        refused(a2),
    ensures
        match (
            recover_step(site, secure, form1, client1, a1),
            recover_step(site, secure, form2, client2, a2),
        ) {
            (step::StepView::Finish(f1), step::StepView::Finish(f2)) => f1.reply == f2.reply
                && f1.record_failure == Some(flows::login::limit_key("recover"@, client1))
                && f2.record_failure == Some(flows::login::limit_key("recover"@, client2)),
            _ => false,
        },
{
}

/// A reset token is made only for an active account whose recovery code was right.
pub proof fn law_reset_needs_the_code(
    site: &SiteInfo,
    secure: bool,
    form: &RecoverForm,
    client: Seq<char>,
    a: &RecoverAnswers,
    user: Uuid,
)
    requires
        recover_step(site, secure, form, client, a) == step::StepView::<RecoverAskView>::Ask(
            RecoverAskView::ResetToken(user),
        ),
    ensures
        a.allowed == Some(true),
        a.candidate == Asked::Answer(
            Some(Candidate { id: user, lifecycle: UserLifecycle::Active }),
        ),
        a.verified == Asked::<bool>::Answer(true),
{
}

/// No question is asked twice.
pub proof fn law_recover_asks_once(
    site: &SiteInfo,
    secure: bool,
    form: &RecoverForm,
    client: Seq<char>,
    a: &RecoverAnswers,
)
    ensures
        match recover_step(site, secure, form, client, a) {
            step::StepView::Ask(RecoverAskView::Allowed(_)) => a.allowed is None,
            step::StepView::Ask(RecoverAskView::FindByEmail(_)) => a.candidate is NotYet,
            step::StepView::Ask(RecoverAskView::VerifyCode { .. }) => a.verified is NotYet,
            step::StepView::Ask(RecoverAskView::ResetToken(_)) => a.reset_token is None,
            step::StepView::Finish(_) => true,
        },
{
}

// ---- The new password ------------------------------------------------------------------------

/// `GET /recover/reset`: the form for a new password, for whoever the recovery cookie names.
pub fn recover_reset_page(site: &SiteInfo, recovering: Option<Uuid>) -> (r: Reply)
    ensures
        r@ == (match recovering {
            Some(_) => reply::ok_page(login::recover_reset_page_html(site, None)),
            None => reply::see_other("/recover"@),
        }),
{
    match recovering {
        Some(_) => Reply::ok_page(login::recover_reset_page(site, None)),
        None => Reply::see_other("/recover"),
    }
}

/// What setting the new password asks for.
pub enum ResetAsk {
    /// Whether the account is still there.
    User(Uuid),
    /// The hash of the new password.
    Hash(String),
    /// Sets the password, makes a new recovery code, ends every session and opens one; all or
    /// nothing.
    Apply { user: Uuid, hash: String },
}

pub enum ResetAskView {
    User(Uuid),
    Hash(Seq<char>),
    Apply { user: Uuid, hash: Seq<char> },
}

impl View for ResetAsk {
    type V = ResetAskView;

    open spec fn view(&self) -> ResetAskView {
        match *self {
            ResetAsk::User(user) => ResetAskView::User(user),
            ResetAsk::Hash(password) => ResetAskView::Hash(password@),
            ResetAsk::Apply { user, hash } => ResetAskView::Apply { user, hash: hash@ },
        }
    }
}

impl ResetAskView {
    /// What is logged with the new password, both or neither: how many sessions it ended, and which
    /// one it opened.
    pub open spec fn entry(self, revoked: u64, session: Uuid) -> Option<audit::EntryView> {
        match self {
            ResetAskView::Apply { .. } => Some(audit::recovery_succeeded_entry(revoked, session)),
            _ => None,
        }
    }
}

impl ResetAsk {
    pub fn entry(&self, revoked: u64, session: Uuid) -> (r: Option<AuditEntry>)
        ensures
            audit::of(r) == self@.entry(revoked, session),
    {
        match self {
            ResetAsk::Apply { .. } => Some(audit::recovery_succeeded(revoked, session)),
            _ => None,
        }
    }
}

/// A password that was set anew: the token of the session and the new recovery code.
pub struct ResetDone {
    pub session_token: String,
    pub recovery_code: String,
}

pub struct ResetAnswers {
    pub user_found: Asked<bool>,
    pub hashed: Asked<String>,
    pub applied: Asked<ResetDone>,
}

/// The page that shows a new recovery code once, with the session cookie set and the recovery
/// cookie spent.
pub open spec fn reset_done(site: &SiteInfo, secure: bool, done: ResetDone) -> reply::ReplyView {
    reply::ok_page(
        login::accept_invite_recovery_code_page_html(site, done.recovery_code@),
    ).with_cookie(
        cookies::session_cookie(SESSION_COOKIE_NAME@, done.session_token@, secure),
    ).with_cookie(cookies::cleared_cookie(RECOVERY_COOKIE_NAME@, secure))
}

pub open spec fn reset_step(
    site: &SiteInfo,
    secure: bool,
    form: &RecoverResetForm,
    recovering: Option<Uuid>,
    a: &ResetAnswers,
) -> step::StepView<ResetAskView> {
    match recovering {
        None => step::replied(reply::see_other("/recover"@)),
        Some(user) => if form.new_password@.len() == 0 {
            step::replied(
                reply::ok_page(
                    login::recover_reset_page_html(site, Some("Enter a new password."@)),
                ),
            )
        } else if form.new_password@ != form.confirm_password@ {
            step::replied(
                reply::ok_page(
                    login::recover_reset_page_html(site, Some("Those passwords don't match."@)),
                ),
            )
        } else {
            match a.user_found {
                Asked::NotYet => step::StepView::Ask(ResetAskView::User(user)),
                Asked::Failed => step::gave_up(site),
                Asked::Answer(false) => step::replied(reply::see_other("/recover"@)),
                Asked::Answer(true) => match a.hashed {
                    Asked::NotYet => step::StepView::Ask(ResetAskView::Hash(form.new_password@)),
                    Asked::Failed => step::gave_up(site),
                    Asked::Answer(hash) => match a.applied {
                        Asked::NotYet => step::StepView::Ask(
                            ResetAskView::Apply { user, hash: hash@ },
                        ),
                        Asked::Failed => step::gave_up(site),
                        Asked::Answer(done) => step::replied(reset_done(site, secure, done)),
                    },
                },
            }
        },
    }
}

/// `POST /recover/reset`: sets the new password of whoever the recovery cookie names.
pub fn recover_reset_submit(
    site: &SiteInfo,
    secure: bool,
    form: &RecoverResetForm,
    recovering: Option<Uuid>,
    a: &ResetAnswers,
) -> (r: Step<ResetAsk>)
    ensures
        r@ == reset_step(site, secure, form, recovering, a),
{
    match recovering {
        None => Step::replied(Reply::see_other("/recover")),
        Some(user) => if form.new_password.as_str().is_empty() {
            Step::replied(
                Reply::ok_page(login::recover_reset_page(site, Some("Enter a new password."))),
            )
        } else if !text::same(form.new_password.as_str(), form.confirm_password.as_str()) {
            Step::replied(
                Reply::ok_page(
                    login::recover_reset_page(site, Some("Those passwords don't match.")),
                ),
            )
        } else {
            match &a.user_found {
                Asked::NotYet => Step::Ask(ResetAsk::User(user)),
                Asked::Failed => Step::gave_up(site),
                Asked::Answer(false) => Step::replied(Reply::see_other("/recover")),
                Asked::Answer(true) => match &a.hashed {
                    Asked::NotYet => Step::Ask(
                        ResetAsk::Hash(form.new_password.as_str().to_owned()),
                    ),
                    Asked::Failed => Step::gave_up(site),
                    Asked::Answer(hash) => match &a.applied {
                        Asked::NotYet => Step::Ask(
                            ResetAsk::Apply { user, hash: hash.as_str().to_owned() },
                        ),
                        Asked::Failed => Step::gave_up(site),
                        Asked::Answer(done) => {
                            let session = cookies::cookie_value(
                                SESSION_COOKIE_NAME,
                                done.session_token.as_str(),
                                false,
                                secure,
                            );
                            let spent = cookies::recovery_cookie_value("", true, secure);
                            let page = Reply::ok_page(
                                login::accept_invite_recovery_code_page(
                                    site,
                                    done.recovery_code.as_str(),
                                ),
                            );
                            Step::replied(
                                append_cookie_header(
                                    append_cookie_header(page, session.as_str()),
                                    spent.as_str(),
                                ),
                            )
                        },
                    },
                },
            }
        },
    }
}

/// A password is set only for the user of the recovery cookie, and only where it was entered
/// twice alike.
pub proof fn law_reset_needs_matching_passwords(
    site: &SiteInfo,
    secure: bool,
    form: &RecoverResetForm,
    recovering: Option<Uuid>,
    a: &ResetAnswers,
    user: Uuid,
    hash: Seq<char>,
)
    requires
        reset_step(site, secure, form, recovering, a) == step::StepView::<ResetAskView>::Ask(
            ResetAskView::Apply { user, hash },
        ),
    ensures
        a.hashed matches Asked::Answer(h) && h@ == hash,
        recovering == Some(user),
        form.new_password@.len() > 0,
        form.new_password@ == form.confirm_password@,
{
}

/// No question is asked twice.
pub proof fn law_reset_asks_once(
    site: &SiteInfo,
    secure: bool,
    form: &RecoverResetForm,
    recovering: Option<Uuid>,
    a: &ResetAnswers,
)
    ensures
        match reset_step(site, secure, form, recovering, a) {
            step::StepView::Ask(ResetAskView::User(_)) => a.user_found is NotYet,
            step::StepView::Ask(ResetAskView::Hash(_)) => a.hashed is NotYet,
            step::StepView::Ask(ResetAskView::Apply { .. }) => a.applied is NotYet,
            step::StepView::Finish(_) => true,
        },
{
}

} // verus!
