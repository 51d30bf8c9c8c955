//! The settings of the instance, for owners.

use vstd::prelude::*;
use crate::cookies;
use crate::cookies::SESSION_COOKIE_NAME;
use crate::flows::step;
use crate::flows::step::{Asked, Proceed, Step};
use crate::forms;
use crate::forms::{SettingsIdentityForm, SettingsNotificationsForm};
use crate::gate;
use crate::gate::{Caller, Floor};
use crate::model::{NotificationsConfig, Timestamp};
use crate::reply;
use crate::reply::{redirect_or_hx_redirect, set_cookie_header, with_toast, Reply};
use crate::text;
use crate::toast;
use crate::toast::{Toast, ToastKind};
use crate::views::settings;
use crate::views::shell::ChromeContext;

verus! {

/// What the settings page shows.
pub struct InstanceSettings {
    pub notifications: NotificationsConfig,
    /// Whether a password for the mail server is stored.
    pub smtp_password_set: bool,
    /// When the recovery code of the server was made.
    pub recovery_created_at: Option<Timestamp>,
}

pub open spec fn settings_step(ctx: &ChromeContext, found: Asked<InstanceSettings>) -> step::StepView<Proceed> {
    if !gate::reaches(ctx.user.instance_role, Floor::Owner) {
        step::replied(gate::too_low(ctx.site, Floor::Owner))
    } else {
        match found {
            Asked::NotYet => step::StepView::Ask(Proceed),
            Asked::Failed => step::gave_up(ctx.site),
            Asked::Answer(s) => step::replied(
                reply::ok_page(
                    settings::settings_page_html(
                        ctx,
                        &s.notifications,
                        s.smtp_password_set,
                        match s.recovery_created_at {
                            Some(t) => Some(&t),
                            None => None,
                        },
                    ),
                ),
            ),
        }
    }
}

/// `GET /settings`.
pub fn settings_page(ctx: &ChromeContext, found: &Asked<InstanceSettings>) -> (r: Step<Proceed>)
    ensures
        r@ == settings_step(ctx, *found),
{
    match gate::require_role(ctx.site, ctx.user.instance_role, Floor::Owner) {
        Ok(()) => {},
        Err(reply) => {
            return Step::replied(reply);
        },
    }
    match found {
        Asked::NotYet => Step::Ask(Proceed),
        Asked::Failed => Step::gave_up(ctx.site),
        Asked::Answer(s) => {
            let made: Option<&Timestamp> = match &s.recovery_created_at {
                Some(t) => Some(t),
                None => None,
            };
            Step::replied(
                Reply::ok_page(
                    settings::settings_page(ctx, &s.notifications, s.smtp_password_set, made),
                ),
            )
        },
    }
}

// ---- How it went -----------------------------------------------------------------------------

/// Back to the settings with a toast.
pub open spec fn back_with(htmx: bool, kind: ToastKind, title: Seq<char>, message: Seq<char>) -> reply::ReplyView {
    reply::moved("/settings"@, htmx).toasting(Some(toast::ToastText { kind, title, message }))
}

pub open spec fn saved(htmx: bool, title: Seq<char>, message: Seq<char>) -> reply::ReplyView {
    back_with(htmx, ToastKind::Success, title, message)
}

pub open spec fn not_saved(htmx: bool, message: Seq<char>) -> reply::ReplyView {
    back_with(htmx, ToastKind::Error, "Couldn't save"@, message)
}

fn settings_success(htmx: bool, title: &str, message: &str) -> (r: Reply)
    ensures
        r@ == saved(htmx, title@, message@),
{
    with_toast(
        redirect_or_hx_redirect("/settings", htmx),
        Some(Toast::new(ToastKind::Success, title, message)),
    )
}

fn settings_error(htmx: bool, message: &str) -> (r: Reply)
    ensures
        r@ == not_saved(htmx, message@),
{
    with_toast(
        redirect_or_hx_redirect("/settings", htmx),
        Some(Toast::new(ToastKind::Error, "Couldn't save", message)),
    )
}

// ---- Name ------------------------------------------------------------------------------------

/// Characters a name of an instance holds at most.
pub const INSTANCE_NAME_CHARS: usize = 64;

/// What a change of the instance name asks for: to store the name, or to take it away.
pub struct RenameInstance {
    pub name: Option<String>,
}

pub struct RenameInstanceView {
    pub name: Option<Seq<char>>,
}

impl View for RenameInstance {
    type V = RenameInstanceView;

    open spec fn view(&self) -> RenameInstanceView {
        RenameInstanceView { name: text::opt_string(self.name) }
    }
}

pub open spec fn identity_step(
    c: &Caller,
    form: &SettingsIdentityForm,
    stored: Asked<()>,
) -> step::StepView<RenameInstanceView> {
    if !gate::admitted(c, Floor::Owner, false) {
        step::replied(gate::refusal(c, Floor::Owner))
    } else if text::trimmed(form.instance_name@).len() > INSTANCE_NAME_CHARS {
        step::replied(not_saved(c.htmx, "Instance name is too long (max 64 characters)."@))
    } else {
        match stored {
            Asked::NotYet => step::StepView::Ask(
                RenameInstanceView { name: forms::filled_in(form.instance_name@) },
            ),
            Asked::Failed => step::gave_up(c.site),
            Asked::Answer(_) => step::replied(saved(c.htmx, "Saved"@, "Instance name updated."@)),
        }
    }
}

/// `POST /settings/identity`: names the instance. An empty name goes back to the configured one.
pub fn settings_identity_submit(
    c: &Caller,
    form: &SettingsIdentityForm,
    stored: &Asked<()>,
) -> (r: Step<RenameInstance>)
    ensures
        r@ == identity_step(c, form, *stored),
{
    match gate::check_all(c, Floor::Owner, false) {
        Ok(()) => {},
        Err(reply) => {
            return Step::replied(reply);
        },
    }
    let trimmed = text::trim(form.instance_name.as_str());
    if trimmed.as_str().unicode_len() > INSTANCE_NAME_CHARS {
        return Step::replied(
            settings_error(c.htmx, "Instance name is too long (max 64 characters)."),
        );
    }
    match stored {
        Asked::NotYet => Step::Ask(
            RenameInstance { name: forms::trim_to_option(form.instance_name.as_str()) },
        ),
        Asked::Failed => Step::gave_up(c.site),
        Asked::Answer(_) => Step::replied(
            settings_success(c.htmx, "Saved", "Instance name updated."),
        ),
    }
}

// ---- Mail ------------------------------------------------------------------------------------

/// A mail server to store. Without a password the stored one stays.
pub struct SmtpInput {
    pub host: String,
    pub port: i32,
    pub tls: String,
    pub username: String,
    pub from_email: String,
    pub from_name: Option<String>,
    pub password: Option<String>,
}

pub struct SmtpInputView {
    pub host: Seq<char>,
    pub port: i32,
    pub tls: Seq<char>,
    pub username: Seq<char>,
    pub from_email: Seq<char>,
    pub from_name: Option<Seq<char>>,
    pub password: Option<Seq<char>>,
}

impl View for SmtpInput {
    type V = SmtpInputView;

    open spec fn view(&self) -> SmtpInputView {
        SmtpInputView {
            host: self.host@,
            port: self.port,
            tls: self.tls@,
            username: self.username@,
            from_email: self.from_email@,
            from_name: text::opt_string(self.from_name),
            password: text::opt_string(self.password),
        }
    }
}

/// What a change of the delivery asks for.
pub enum MailAsk {
    /// Whether a password is stored.
    PasswordStored,
    /// To store the delivery mode and, for `smtp`, the server.
    Store { mode: String, smtp: Option<SmtpInput> },
}

pub enum MailAskView {
    PasswordStored,
    Store { mode: Seq<char>, smtp: Option<SmtpInputView> },
}

impl View for MailAsk {
    type V = MailAskView;

    open spec fn view(&self) -> MailAskView {
        match *self {
            MailAsk::PasswordStored => MailAskView::PasswordStored,
            MailAsk::Store { mode, smtp } => MailAskView::Store {
                mode: mode@,
                smtp: match smtp {
                    Some(s) => Some(s@),
                    None => None,
                },
            },
        }
    }
}

pub struct MailAnswers {
    /// Whether a password is stored; not where that could not be looked up.
    pub password_stored: Option<bool>,
    pub stored: Asked<()>,
}

pub open spec fn is_mode(mode: Seq<char>) -> bool {
    mode == "disabled"@ || mode == "log"@ || mode == "smtp"@
}

pub open spec fn is_encryption(tls: Seq<char>) -> bool {
    tls == "starttls"@ || tls == "implicit"@ || tls == "none"@
}

/// The port of a form: a number from 1 to 65535.
pub open spec fn port_of(s: Seq<char>) -> Option<i32> {
    match text::u16_of(text::trimmed(s)) {
        Some(p) => if p > 0 {
            Some(p as i32)
        } else {
            None
        },
        None => None,
    }
}

fn parse_port(s: &str) -> (r: Option<i32>)
    ensures
        r == port_of(s@),
{
    let t = text::trim(s);
    match text::parse_u16(t.as_str()) {
        Some(p) => if p > 0 {
            Some(p as i32)
        } else {
            None
        },
        None => None,
    }
}

/// A password that was entered. White space counts.
pub open spec fn entered_password(s: Seq<char>) -> Option<Seq<char>> {
    if s.len() == 0 {
        None
    } else {
        Some(s)
    }
}

/// What is wrong with the server of a form, if anything, before its password is looked at.
pub open spec fn smtp_problem(form: &SettingsNotificationsForm) -> Option<Seq<char>> {
    if text::trimmed(form.smtp_host@).len() == 0 || text::trimmed(form.smtp_username@).len() == 0
        || text::trimmed(form.smtp_from_email@).len() == 0 {
        Some("Fill in the SMTP host, username, and from-address."@)
    } else if !is_encryption(text::trimmed(form.smtp_tls@)) {
        Some("Choose a valid encryption mode."@)
    } else if port_of(form.smtp_port@) is None {
        Some("Port must be a number between 1 and 65535."@)
    } else {
        None
    }
}

/// The server of a form without a problem.
pub open spec fn smtp_of(form: &SettingsNotificationsForm) -> SmtpInputView {
    SmtpInputView {
        host: text::trimmed(form.smtp_host@),
        port: port_of(form.smtp_port@)->0,
        tls: text::trimmed(form.smtp_tls@),
        username: text::trimmed(form.smtp_username@),
        from_email: text::trimmed(form.smtp_from_email@),
        from_name: forms::filled_in(form.smtp_from_name@),
        password: entered_password(form.smtp_password@),
    }
}

/// The steps behind a delivery that may be stored.
pub open spec fn store_step(
    c: &Caller,
    mode: Seq<char>,
    smtp: Option<SmtpInputView>,
    stored: Asked<()>,
) -> step::StepView<MailAskView> {
    match stored {
        Asked::NotYet => step::StepView::Ask(MailAskView::Store { mode, smtp }),
        Asked::Failed => step::gave_up(c.site),
        Asked::Answer(_) => step::replied(saved(c.htmx, "Saved"@, "Email settings updated."@)),
    }
}

pub open spec fn notifications_step(
    c: &Caller,
    form: &SettingsNotificationsForm,
    a: &MailAnswers,
) -> step::StepView<MailAskView> {
    let mode = text::trimmed(form.mode@);
    if !gate::admitted(c, Floor::Owner, true) {
        step::replied(gate::refusal(c, Floor::Owner))
    } else if !is_mode(mode) {
        step::replied(not_saved(c.htmx, "Choose a valid delivery mode."@))
    } else if mode != "smtp"@ {
        store_step(c, mode, None, a.stored)
    } else {
        match smtp_problem(form) {
            Some(problem) => step::replied(not_saved(c.htmx, problem)),
            None => if form.smtp_password@.len() > 0 {
                store_step(c, mode, Some(smtp_of(form)), a.stored)
            } else {
                match a.password_stored {
                    None => step::StepView::Ask(MailAskView::PasswordStored),
                    Some(false) => step::replied(
                        not_saved(c.htmx, "Set an SMTP password — none is stored yet."@),
                    ),
                    Some(true) => store_step(c, mode, Some(smtp_of(form)), a.stored),
                }
            },
        }
    }
}

/// Reads the server of a form, or says what is wrong with it.
fn read_smtp(form: &SettingsNotificationsForm) -> (r: Result<SmtpInput, &'static str>)
    ensures
        match r {
            Ok(s) => smtp_problem(form) is None && s@ == smtp_of(form),
            Err(problem) => smtp_problem(form) == Some(problem@),
        },
{
    let host = text::trim(form.smtp_host.as_str());
    let username = text::trim(form.smtp_username.as_str());
    let from_email = text::trim(form.smtp_from_email.as_str());
    let tls = text::trim(form.smtp_tls.as_str());
    if host.as_str().is_empty() || username.as_str().is_empty() || from_email.as_str().is_empty() {
        return Err("Fill in the SMTP host, username, and from-address.");
    }
    if !(text::same(tls.as_str(), "starttls") || text::same(tls.as_str(), "implicit")
        || text::same(tls.as_str(), "none")) {
        return Err("Choose a valid encryption mode.");
    }
    let port: i32 = match parse_port(form.smtp_port.as_str()) {
        Some(p) => p,
        None => {
            return Err("Port must be a number between 1 and 65535.");
        },
    };
    let password: Option<String> = if form.smtp_password.as_str().is_empty() {
        None
    } else {
        Some(form.smtp_password.as_str().to_owned())
    };
    Ok(
        SmtpInput {
            host,
            port,
            tls,
            username,
            from_email,
            from_name: forms::trim_to_option(form.smtp_from_name.as_str()),
            password,
        },
    )
}

fn store(c: &Caller, mode: String, smtp: Option<SmtpInput>, stored: &Asked<()>) -> (r: Step<MailAsk>)
    ensures
        r@ == store_step(
            c,
            mode@,
            match smtp {
                Some(s) => Some(s@),
                None => None,
            },
            *stored,
        ),
{
    match stored {
        Asked::NotYet => Step::Ask(MailAsk::Store { mode, smtp }),
        Asked::Failed => Step::gave_up(c.site),
        Asked::Answer(_) => Step::replied(
            settings_success(c.htmx, "Saved", "Email settings updated."),
        ),
    }
}

/// `POST /settings/notifications`: sets how mail is delivered.
pub fn settings_notifications_submit(
    c: &Caller,
    form: &SettingsNotificationsForm,
    a: &MailAnswers,
) -> (r: Step<MailAsk>)
    ensures
        r@ == notifications_step(c, form, a),
{
    match gate::check_all(c, Floor::Owner, true) {
        Ok(()) => {},
        Err(reply) => {
            return Step::replied(reply);
        },
    }
    let mode = text::trim(form.mode.as_str());
    let smtp: bool = text::same(mode.as_str(), "smtp");
    if !(text::same(mode.as_str(), "disabled") || text::same(mode.as_str(), "log") || smtp) {
        return Step::replied(settings_error(c.htmx, "Choose a valid delivery mode."));
    }
    if !smtp {
        return store(c, mode, None, &a.stored);
    }
    let input = match read_smtp(form) {
        Ok(input) => input,
        Err(problem) => {
            return Step::replied(settings_error(c.htmx, problem));
        },
    };
    if form.smtp_password.as_str().is_empty() {
        match a.password_stored {
            None => {
                return Step::Ask(MailAsk::PasswordStored);
            },
            Some(false) => {
                return Step::replied(
                    settings_error(c.htmx, "Set an SMTP password — none is stored yet."),
                );
            },
            Some(true) => {},
        }
    }
    store(c, mode, Some(input), &a.stored)
}

/// A delivery that is stored is complete: a known mode; with `smtp`, a host, a user, an address to
/// send from, a known encryption, a port, and a password, new or stored.
pub proof fn law_stored_delivery_is_complete(c: &Caller, form: &SettingsNotificationsForm, a: &MailAnswers)
    ensures
        notifications_step(c, form, a) matches step::StepView::Ask(
            MailAskView::Store { mode, smtp },
        ) ==> {
            &&& gate::admitted(c, Floor::Owner, true)
            &&& is_mode(mode)
            &&& smtp is Some <==> mode == "smtp"@
            &&& smtp matches Some(s) ==> {
                &&& s.host.len() > 0
                &&& s.username.len() > 0
                &&& s.from_email.len() > 0
                &&& is_encryption(s.tls)
                &&& 1 <= s.port <= 65535
                &&& s.password is Some || a.password_stored == Some(true)
            }
        },
{
}

// ---- Test mail -------------------------------------------------------------------------------

/// How sending a test mail went.
pub enum TestEmailOutcome {
    Sent,
    Disabled,
    Failed(String),
}

/// A test email to be sent.
pub struct SendTest {
    pub to: String,
}

pub struct SendTestView {
    pub to: Seq<char>,
}

impl View for SendTest {
    type V = SendTestView;

    open spec fn view(&self) -> SendTestView {
        SendTestView { to: self.to@ }
    }
}

pub open spec fn test_email_step(c: &Caller, to: Seq<char>, outcome: Option<TestEmailOutcome>) -> step::StepView<SendTestView> {
    if !gate::admitted(c, Floor::Owner, false) {
        step::replied(gate::refusal(c, Floor::Owner))
    } else {
        match outcome {
            None => step::StepView::Ask(SendTestView { to }),
            Some(TestEmailOutcome::Sent) => step::replied(
                saved(c.htmx, "Test sent"@, "Sent a test email to "@ + to + "."@),
            ),
            Some(TestEmailOutcome::Disabled) => step::replied(
                back_with(
                    c.htmx,
                    ToastKind::Info,
                    "Notifications disabled"@,
                    "Set the delivery mode to Log or SMTP, save, then try again."@,
                ),
            ),
            Some(TestEmailOutcome::Failed(why)) => step::replied(
                not_saved(c.htmx, "Test email failed: "@ + why@),
            ),
        }
    }
}

/// `POST /settings/notifications/test`: sends a test mail to the owner's own address `to`.
pub fn settings_test_email(c: &Caller, to: &str, outcome: &Option<TestEmailOutcome>) -> (r: Step<SendTest>)
    ensures
        r@ == test_email_step(c, to@, *outcome),
{
    match gate::check_all(c, Floor::Owner, false) {
        Ok(()) => {},
        Err(reply) => {
            return Step::replied(reply);
        },
    }
    match outcome {
        None => Step::Ask(SendTest { to: to.to_owned() }),
        Some(TestEmailOutcome::Sent) => {
            let message = text::join("Sent a test email to ", to).concat(".");
            Step::replied(settings_success(c.htmx, "Test sent", message.as_str()))
        },
        Some(TestEmailOutcome::Disabled) => Step::replied(
            with_toast(
                redirect_or_hx_redirect("/settings", c.htmx),
                Some(
                    Toast::new(
                        ToastKind::Info,
                        "Notifications disabled",
                        "Set the delivery mode to Log or SMTP, save, then try again.",
                    ),
                ),
            ),
        ),
        Some(TestEmailOutcome::Failed(why)) => {
            let message = text::join("Test email failed: ", why.as_str());
            Step::replied(settings_error(c.htmx, message.as_str()))
        },
    }
}

// ---- Shutting down ---------------------------------------------------------------------------

/// `GET /modals/settings/shutdown`.
pub fn settings_shutdown_modal(ctx: &ChromeContext) -> (r: Reply)
    ensures
        r@ == (if gate::reaches(ctx.user.instance_role, Floor::Owner) {
            reply::ok_page(settings::settings_shutdown_modal_html(ctx))
        } else {
            gate::too_low(ctx.site, Floor::Owner)
        }),
{
    match gate::require_role(ctx.site, ctx.user.instance_role, Floor::Owner) {
        Ok(()) => Reply::ok_page(settings::settings_shutdown_modal(ctx)),
        Err(reply) => reply,
    }
}

/// The reply to someone whose account is gone: on to `target`, without the session cookie.
pub open spec fn account_closed(target: Seq<char>, htmx: bool, secure: bool) -> reply::ReplyView {
    reply::moved(target, htmx).only_cookie(cookies::cleared_cookie(SESSION_COOKIE_NAME@, secure))
}

fn account_closed_response(target: &str, htmx: bool, secure: bool) -> (r: Reply)
    ensures
        r@ == account_closed(target@, htmx, secure),
{
    let cookie = cookies::cookie_value(SESSION_COOKIE_NAME, "", true, secure);
    set_cookie_header(redirect_or_hx_redirect(target, htmx), cookie.as_str())
}

pub open spec fn shutdown_step(c: &Caller, secure: bool, closed: Asked<()>) -> step::StepView<Proceed> {
    if !gate::admitted_critical(c) {
        step::replied(gate::refusal(c, Floor::Owner))
    } else {
        match closed {
            Asked::NotYet => step::StepView::Ask(Proceed),
            Asked::Failed => step::gave_up(c.site),
            Asked::Answer(_) => step::replied(account_closed("/"@, c.htmx, secure)),
        }
    }
}

/// `POST /settings/shutdown`: closes the instance for good. It takes a confirmation that was made
/// for a critical action; the usual one does not do.
pub fn settings_shutdown_submit(c: &Caller, secure: bool, closed: &Asked<()>) -> (r: Step<Proceed>)
    ensures
        r@ == shutdown_step(c, secure, *closed),
{
    match gate::check_critical(c) {
        Ok(()) => {},
        Err(reply) => {
            return Step::replied(reply);
        },
    }
    match closed {
        Asked::NotYet => Step::Ask(Proceed),
        Asked::Failed => Step::gave_up(c.site),
        Asked::Answer(_) => Step::replied(account_closed_response("/", c.htmx, secure)),
    }
}

/// The instance is closed only by an owner with a fresh critical confirmation of their own
/// identity.
pub proof fn law_shutdown_is_gated(c: &Caller, secure: bool, closed: Asked<()>)
    requires
        shutdown_step(c, secure, closed) is Ask,
    ensures
        c.csrf_ok,
        gate::reaches(c.role, Floor::Owner),
        c.critical == Some(c.user_id),
{
}

/// Without a critical confirmation an owner is asked for one, whatever else they confirmed.
pub proof fn law_usual_confirmation_closes_nothing(c: &Caller, secure: bool, closed: Asked<()>)
    requires
        c.csrf_ok,
        gate::reaches(c.role, Floor::Owner),
        c.critical != Some(c.user_id),
    ensures
        shutdown_step(c, secure, closed) == step::replied::<Proceed>(gate::unconfirmed()),
{
}

} // verus!
