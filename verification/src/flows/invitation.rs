//! Accepting an invitation.

use vstd::prelude::*;
use crate::cookies;
use crate::cookies::SESSION_COOKIE_NAME;
use crate::flows::step;
use crate::flows::step::{Asked, Step};
use crate::forms::AcceptInviteForm;
use crate::model::Invitation;
use crate::reply;
use crate::reply::{set_cookie_header, Reply};
use crate::text;
use crate::views::login;
use crate::views::shell::SiteInfo;

verus! {

/// The reply to a link that leads to no open invitation, whatever the reason.
pub open spec fn unavailable(site: &SiteInfo) -> reply::ReplyView {
    reply::page_with(404, login::accept_invite_invalid_page_html(site))
}

fn gone(site: &SiteInfo) -> (r: Reply)
    ensures
        r@ == unavailable(site),
{
    Reply::page(404, login::accept_invite_invalid_page(site))
}

/// What the page of an invitation asks for.
pub enum AcceptAsk {
    /// The open invitation of this token.
    Invitation(String),
    /// To make the account.
    Accept { token: String, display_name: String, password: String },
}

pub enum AcceptAskView {
    Invitation(Seq<char>),
    Accept { token: Seq<char>, display_name: Seq<char>, password: Seq<char> },
}

impl View for AcceptAsk {
    type V = AcceptAskView;

    open spec fn view(&self) -> AcceptAskView {
        match *self {
            AcceptAsk::Invitation(token) => AcceptAskView::Invitation(token@),
            AcceptAsk::Accept { token, display_name, password } => AcceptAskView::Accept {
                token: token@,
                display_name: display_name@,
                password: password@,
            },
        }
    }
}

/// The form of an invitation, filled in as it was, with the field that is missing.
pub open spec fn form_step(
    site: &SiteInfo,
    token: Seq<char>,
    display_name: Seq<char>,
    missing: Option<Seq<char>>,
    found: Asked<Option<Invitation>>,
) -> step::StepView<AcceptAskView> {
    match found {
        Asked::NotYet => step::StepView::Ask(AcceptAskView::Invitation(token)),
        Asked::Failed => step::gave_up(site),
        Asked::Answer(None) => step::replied(unavailable(site)),
        Asked::Answer(Some(i)) => step::replied(
            reply::ok_page(
                login::accept_invite_page_html(
                    site,
                    token,
                    i.email@,
                    i.instance_role,
                    display_name,
                    missing,
                ),
            ),
        ),
    }
}

fn show_form(
    site: &SiteInfo,
    token: &str,
    display_name: &str,
    missing: Option<&str>,
    found: &Asked<Option<Invitation>>,
) -> (r: Step<AcceptAsk>)
    ensures
        r@ == form_step(site, token@, display_name@, text::opt(missing), *found),
{
    match found {
        Asked::NotYet => Step::Ask(AcceptAsk::Invitation(token.to_owned())),
        Asked::Failed => Step::gave_up(site),
        Asked::Answer(None) => Step::replied(gone(site)),
        Asked::Answer(Some(i)) => Step::replied(
            Reply::ok_page(
                login::accept_invite_page(
                    site,
                    token,
                    i.email.as_str(),
                    i.instance_role,
                    display_name,
                    missing,
                ),
            ),
        ),
    }
}

/// `GET /invite/{token}`: the form of an open invitation.
pub fn accept_invite_form(site: &SiteInfo, token: &str, found: &Asked<Option<Invitation>>) -> (r: Step<AcceptAsk>)
    ensures
        r@ == form_step(site, token@, ""@, None, *found),
{
    show_form(site, token, "", None, found)
}

/// How accepting an invitation went.
pub enum AcceptOutcome {
    /// The account was made: the token of its session and its recovery code.
    Accepted { session_token: String, recovery_code: String },
    InvalidOrExpiredToken,
    DisplayNameRequired,
    PasswordRequired,
    Failed,
}

/// The code of a form that has to be filled in again.
pub open spec fn missing_field(outcome: AcceptOutcome) -> Option<Seq<char>> {
    match outcome {
        AcceptOutcome::DisplayNameRequired => Some("display_name_required"@),
        AcceptOutcome::PasswordRequired => Some("password_required"@),
        _ => None,
    }
}

fn missing(outcome: &AcceptOutcome) -> (r: Option<&'static str>)
    ensures
        text::opt(r) == missing_field(*outcome),
{
    match outcome {
        AcceptOutcome::DisplayNameRequired => Some("display_name_required"),
        AcceptOutcome::PasswordRequired => Some("password_required"),
        _ => None,
    }
}

pub open spec fn accept_step(
    site: &SiteInfo,
    secure: bool,
    token: Seq<char>,
    form: &AcceptInviteForm,
    outcome: Option<AcceptOutcome>,
    refetched: Asked<Option<Invitation>>,
) -> step::StepView<AcceptAskView> {
    match outcome {
        None => step::StepView::Ask(
            AcceptAskView::Accept {
                token,
                display_name: form.display_name@,
                password: form.password@,
            },
        ),
        Some(AcceptOutcome::Accepted { session_token, recovery_code }) => step::replied(
            reply::ok_page(
                login::accept_invite_recovery_code_page_html(site, recovery_code@),
            ).only_cookie(
                cookies::session_cookie(SESSION_COOKIE_NAME@, session_token@, secure),
            ),
        ),
        Some(AcceptOutcome::InvalidOrExpiredToken) => step::replied(unavailable(site)),
        Some(AcceptOutcome::Failed) => step::gave_up(site),
        Some(o) => form_step(
            site,
            token,
            text::trimmed(form.display_name@),
            missing_field(o),
            refetched,
        ),
    }
}

/// `POST /invite/{token}`: makes the account and shows its recovery code once, on the reply that
/// signs its owner in, so that the code never stands in an address. Where a field is missing, the
/// invitation is looked up again to show its form.
pub fn accept_invite_submit(
    site: &SiteInfo,
    secure: bool,
    token: &str,
    form: &AcceptInviteForm,
    outcome: &Option<AcceptOutcome>,
    refetched: &Asked<Option<Invitation>>,
) -> (r: Step<AcceptAsk>)
    ensures
        r@ == accept_step(site, secure, token@, form, *outcome, *refetched),
{
    match outcome {
        None => Step::Ask(
            AcceptAsk::Accept {
                token: token.to_owned(),
                display_name: form.display_name.as_str().to_owned(),
                password: form.password.as_str().to_owned(),
            },
        ),
        Some(AcceptOutcome::Accepted { session_token, recovery_code }) => {
            let page = Reply::ok_page(
                login::accept_invite_recovery_code_page(site, recovery_code.as_str()),
            );
            let cookie = cookies::cookie_value(
                SESSION_COOKIE_NAME,
                session_token.as_str(),
                false,
                secure,
            );
            Step::replied(set_cookie_header(page, cookie.as_str()))
        },
        Some(AcceptOutcome::InvalidOrExpiredToken) => Step::replied(gone(site)),
        Some(AcceptOutcome::Failed) => Step::gave_up(site),
        Some(o) => {
            let name = text::trim(form.display_name.as_str());
            show_form(site, token, name.as_str(), missing(o), refetched)
        },
    }
}

/// A link that never led anywhere and one whose invitation is gone are answered alike, whether
/// the form is asked for or sent.
pub proof fn law_dead_links_look_alike(
    site: &SiteInfo,
    secure: bool,
    token: Seq<char>,
    form: &AcceptInviteForm,
)
    ensures
        form_step(site, token, ""@, None, Asked::Answer(None)) == step::replied::<AcceptAskView>(
            unavailable(site),
        ),
        accept_step(
            site,
            secure,
            token,
            form,
            Some(AcceptOutcome::InvalidOrExpiredToken),
            Asked::NotYet,
        ) == step::replied::<AcceptAskView>(unavailable(site)),
        accept_step(
            site,
            secure,
            token,
            form,
            Some(AcceptOutcome::PasswordRequired),
            Asked::Answer(None),
        ) == step::replied::<AcceptAskView>(unavailable(site)),
{
}

} // verus!
