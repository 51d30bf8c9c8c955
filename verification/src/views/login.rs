//! The pages in front of the sign-in.

use vstd::prelude::*;
use crate::html;
use crate::html::{Markup, Template};
use crate::model::InstanceRole;
use crate::text;
use crate::views::shell;
use crate::views::shell::SiteInfo;
use crate::views::icons::{ALERT_CIRCLE_ICON, FINGERPRINT_ICON};
use crate::views::scripts::INVITE_COPY_JS;

verus! {

pub const ERROR_LINE: &'static str = "<p class=\"error\">¤</p>";

/// The message above a form, if there is one.
pub open spec fn error_line_html(error: Option<Seq<char>>) -> Seq<char> {
    match error {
        Some(msg) => html::template(ERROR_LINE@).text(msg).done(),
        None => Seq::empty(),
    }
}

fn error_line(error: Option<&str>) -> (m: Markup)
    ensures
        m@ == error_line_html(text::opt(error)),
{
    match error {
        Some(msg) => Template::new(ERROR_LINE).text(msg).done(),
        None => Markup::empty(),
    }
}

/// The email a sign-in form starts with: the one handed over, unless it is empty.
pub open spec fn prefilled(email: Option<Seq<char>>) -> Option<Seq<char>> {
    match email {
        Some(e) => if e.len() == 0 {
            None
        } else {
            Some(e)
        },
        None => None,
    }
}

fn prefill<'a>(email: Option<&'a str>) -> (r: Option<&'a str>)
    ensures
        text::opt(r) == prefilled(text::opt(email)),
{
    match email {
        Some(e) => if e.is_empty() {
            None
        } else {
            Some(e)
        },
        None => None,
    }
}

pub const LOGIN_PAGE: &'static str = "\
    <h1>Sign in</h1>\
    <div class=\"card\">\
      <form method=\"post\" action=\"/login\">¤\
        <div class=\"field\">\
          <label for=\"email\">Email</label>¤\
        </div>\
        <div class=\"field\">\
          <label for=\"password\">Password</label>¤\
        </div>\
        <button type=\"submit\" class=\"btn\">Sign in</button>\
      </form>\
      <p class=\"login-verify-or\">or</p>\
      <form id=\"form-passkey-login\" method=\"post\" action=\"/login/passkey/finish\">\
        <input type=\"hidden\" name=\"challenge_id\">\
        <input type=\"hidden\" name=\"passkey\">\
      </form>\
      <p class=\"error\" id=\"passkey-error\" hidden></p>\
      <button type=\"button\" class=\"btn-secondary login-passkey-btn\" \
        data-passkey-auth=\"/login/passkey/start\" data-passkey-form=\"form-passkey-login\">¤\
        <span>Sign in with a passkey</span>\
      </button>\
      <p class=\"login-recover-link\">\
        <a href=\"/recover\">Lost access?</a>\
      </p>\
    </div>";

pub const EMAIL_FILLED: &'static str = "\
    <input type=\"email\" name=\"email\" id=\"email\" required autocomplete=\"username\" \
      value=\"¤\">";

pub const EMAIL_EMPTY: &'static str = "\
    <input type=\"email\" name=\"email\" id=\"email\" required autocomplete=\"username\" \
      autofocus>";

pub const PASSWORD_FOCUSED: &'static str = "\
    <input type=\"password\" name=\"password\" id=\"password\" required \
      autocomplete=\"current-password\" autofocus>";

pub const PASSWORD_PLAIN: &'static str = "\
    <input type=\"password\" name=\"password\" id=\"password\" required \
      autocomplete=\"current-password\">";

/// The HTML of [`login_page`].
pub open spec fn login_page_html(
    site: &SiteInfo,
    error: Option<Seq<char>>,
    prefill_email: Option<Seq<char>>,
) -> Seq<char> {
    let start = prefilled(prefill_email);
    let content = html::template(LOGIN_PAGE@)
        .html(error_line_html(error))
        .html(match start {
            Some(email) => html::template(EMAIL_FILLED@)
                .text(email)
                .done(),
            None => EMAIL_EMPTY@,
        })
        .html(if start is Some {
            PASSWORD_FOCUSED@
        } else {
            PASSWORD_PLAIN@
        })
        .html(FINGERPRINT_ICON@)
        .done();
    shell::shell_public_html(site, "Sign in"@, content)
}

/// `GET /login`: the sign-in form, with a message above it after a failed attempt. An email that
/// is handed over is filled in, and the password field gets the focus.
pub fn login_page(site: &SiteInfo, error: Option<&str>, prefill_email: Option<&str>) -> (m: Markup)
    ensures
        m@ == login_page_html(site, text::opt(error), text::opt(prefill_email)),
{
    let start = prefill(prefill_email);
    let content = Template::new(LOGIN_PAGE)
        .html(&error_line(error))
        .html(&match start {
            Some(email) => Template::new(EMAIL_FILLED)
                .text(email)
                .done(),
            None => Markup::raw(EMAIL_EMPTY),
        })
        .html(&if start.is_some() {
            Markup::raw(PASSWORD_FOCUSED)
        } else {
            Markup::raw(PASSWORD_PLAIN)
        })
        .raw(FINGERPRINT_ICON)
        .done();
    shell::shell_public(site, "Sign in", &content)
}

pub const GOODBYE_DELETED_TITLE: &'static str = "Your account has been deleted";

pub const GOODBYE_DELETED: &'static str = "Everything tied to your account has been permanently removed from \
    this server, including anything you created or shared. There's nothing left to recover. \
    Thank you for having been here.";

pub const GOODBYE_CLOSED_TITLE: &'static str = "Your account has been closed";

pub const GOODBYE_CLOSED: &'static str = "Your account is closed and your personal information has been \
    removed from it. Anything you took part in stays in place, no longer linked to you. Thank you \
    for having been here.";

pub const GOODBYE_PAGE: &'static str = "\
    <h1>¤</h1>\
    <div class=\"card\">\
      <p class=\"muted\">¤</p>\
      <p class=\"login-recover-link\">\
        <a href=\"/login\">Back to sign in</a>\
      </p>\
    </div>";

/// The HTML of [`goodbye_page`].
pub open spec fn goodbye_page_html(site: &SiteInfo, mode: Seq<char>) -> Seq<char> {
    let (title, body) = if mode == "deleted"@ {
        (GOODBYE_DELETED_TITLE, GOODBYE_DELETED)
    } else {
        (GOODBYE_CLOSED_TITLE, GOODBYE_CLOSED)
    };
    let content = html::template(GOODBYE_PAGE@)
        .text(title@)
        .text(body@)
        .done();
    shell::shell_public_html(site, title@, content)
}

/// `GET /goodbye`: shown after a user closed their own account.
pub fn goodbye_page(site: &SiteInfo, mode: &str) -> (m: Markup)
    ensures
        m@ == goodbye_page_html(site, mode@),
{
    let (title, body): (&str, &str) = if text::same(mode, "deleted") {
        (GOODBYE_DELETED_TITLE, GOODBYE_DELETED)
    } else {
        (GOODBYE_CLOSED_TITLE, GOODBYE_CLOSED)
    };
    let content = Template::new(GOODBYE_PAGE)
        .text(title)
        .text(body)
        .done();
    shell::shell_public(site, title, &content)
}

pub const INSTANCE_CLOSED_PAGE: &'static str = "\
    <h1>This server has been closed. Goodbye.</h1>\
    <div class=\"card\">\
      <p class=\"muted\">An owner has deleted this instance and all its data. This \
        instance is no longer in use and there's nothing here anymore. For users, feel \
        free to close this tab and move on. Desktop and mobile apps will no longer sync \
        any of your data, and will switch to offline mode on next use. For owners, please \
        shut down the server application one last  time and uninstall the software from \
        the host.</p>\
    </div>";

/// The HTML of [`instance_closed_page`].
pub open spec fn instance_closed_page_html(site: &SiteInfo) -> Seq<char> {
    let content = INSTANCE_CLOSED_PAGE@;
    shell::shell_public_html(site, "Server closed"@, content)
}

/// Served on every route once the instance has been closed.
pub fn instance_closed_page(site: &SiteInfo) -> (m: Markup)
    ensures
        m@ == instance_closed_page_html(site),
{
    let content = Markup::raw(INSTANCE_CLOSED_PAGE);
    shell::shell_public(site, "Server closed", &content)
}

pub const RECOVER_PAGE: &'static str = "\
    <h1>Recover your account</h1>\
    <div class=\"card\">\
      <p class=\"muted recover-intro\">Enter your email and the recovery code you saved. \
        We'll let you set a new password. Sylva is offline-first - there's no reset \
        email, so the recovery code is the only way back in.</p>\
      <form method=\"post\" action=\"/recover\">¤\
        <div class=\"field\">\
          <label for=\"email\">Email</label>\
          <input type=\"email\" name=\"email\" id=\"email\" required autocomplete=\"username\" \
            autofocus>\
        </div>\
        <div class=\"field\">\
          <label for=\"recovery_code\">Recovery code</label>\
          <input type=\"text\" name=\"recovery_code\" id=\"recovery_code\" required \
            autocomplete=\"off\" spellcheck=\"false\" \
            placeholder=\"XXXX-XXXX-XXXX-XXXX-XXXX-XXXX-XXXX-XXXX\">\
        </div>\
        <button type=\"submit\" class=\"btn\">Continue</button>\
      </form>\
      <p class=\"login-recover-link\">\
        <a href=\"/login\">Back to sign in</a>\
      </p>\
    </div>";

/// The HTML of [`recover_page`].
pub open spec fn recover_page_html(site: &SiteInfo, error: Option<Seq<char>>) -> Seq<char> {
    let content = html::template(RECOVER_PAGE@)
        .html(error_line_html(error))
        .done();
    shell::shell_public_html(site, "Recover your account"@, content)
}

/// `GET /recover`: the start of account recovery by recovery code.
pub fn recover_page(site: &SiteInfo, error: Option<&str>) -> (m: Markup)
    ensures
        m@ == recover_page_html(site, text::opt(error)),
{
    let content = Template::new(RECOVER_PAGE)
        .html(&error_line(error))
        .done();
    shell::shell_public(site, "Recover your account", &content)
}

pub const RECOVER_RESET_PAGE: &'static str = "\
    <h1>Set a new password</h1>\
    <div class=\"card\">\
      <form method=\"post\" action=\"/recover/reset\">¤\
        <div class=\"field\">\
          <label for=\"new_password\">New password</label>\
          <input type=\"password\" name=\"new_password\" id=\"new_password\" required \
            minlength=\"8\" autocomplete=\"new-password\" autofocus>\
        </div>\
        <div class=\"field\">\
          <label for=\"confirm_password\">Confirm new password</label>\
          <input type=\"password\" name=\"confirm_password\" id=\"confirm_password\" required \
            minlength=\"8\" autocomplete=\"new-password\">\
        </div>\
        <button type=\"submit\" class=\"btn\">Set password</button>\
      </form>\
    </div>";

/// The HTML of [`recover_reset_page`].
pub open spec fn recover_reset_page_html(site: &SiteInfo, error: Option<Seq<char>>) -> Seq<char> {
    let content = html::template(RECOVER_RESET_PAGE@)
        .html(error_line_html(error))
        .done();
    shell::shell_public_html(site, "Set a new password"@, content)
}

/// `GET /recover/reset`: the new-password step of account recovery.
pub fn recover_reset_page(site: &SiteInfo, error: Option<&str>) -> (m: Markup)
    ensures
        m@ == recover_reset_page_html(site, text::opt(error)),
{
    let content = Template::new(RECOVER_RESET_PAGE)
        .html(&error_line(error))
        .done();
    shell::shell_public(site, "Set a new password", &content)
}

pub const LOGIN_VERIFY_PAGE: &'static str = "\
    <h1>Two-step verification</h1>\
    <div class=\"card\">¤¤¤\
      <details class=\"login-verify-alt\">\
        <summary>Use a recovery code instead</summary>\
        <p class=\"muted\">If you've lost access to your second factor, enter one of your \
          saved recovery codes to sign in, then re-enroll from settings.</p>\
        <form method=\"post\" action=\"/login/verify\">\
          <div class=\"field\">\
            <label for=\"recovery_code\">Recovery code</label>\
            <input type=\"text\" name=\"recovery_code\" id=\"recovery_code\" \
              autocomplete=\"off\" spellcheck=\"false\" required>\
          </div>\
          <button type=\"submit\" class=\"btn-secondary\">Sign in with recovery code</button>\
        </form>\
      </details>\
      <p class=\"login-recover-link\">\
        <a href=\"/login\">Back to sign in</a>\
      </p>\
    </div>";

pub const VERIFY_PASSKEY: &'static str = "\
    <p class=\"muted recover-intro\">Use one of your registered passkeys to finish \
      signing in.</p>\
    <form method=\"post\" action=\"/login/verify\" id=\"form-passkey-login\">\
      <input type=\"hidden\" name=\"challenge_id\">\
      <input type=\"hidden\" name=\"passkey\">\
    </form>\
    <p class=\"error\" id=\"passkey-error\" hidden></p>\
    <button type=\"button\" class=\"btn\" data-passkey-auth=\"/login/verify/passkey/start\" \
      data-passkey-form=\"form-passkey-login\">Use a passkey</button>";

pub const VERIFY_CODE: &'static str = "\
    ¤\
    <form method=\"post\" action=\"/login/verify\">\
      <div class=\"field\">\
        <label for=\"code\">Authenticator code</label>\
        <input type=\"text\" name=\"code\" id=\"code\" inputmode=\"numeric\" \
          autocomplete=\"one-time-code\" pattern=\"[0-9]*\" maxlength=\"6\" required>\
      </div>\
      <button type=\"submit\" class=\"¤\">Verify</button>\
    </form>";

pub const VERIFY_OR_CODE: &'static str = "<p class=\"login-verify-or\">or enter a code</p>";

pub const VERIFY_CODE_INTRO: &'static str = "\
    <p class=\"muted recover-intro\">Enter the 6-digit code from your authenticator app \
      to finish signing in.</p>";

/// The HTML of [`login_verify_page`].
pub open spec fn login_verify_page_html(
    site: &SiteInfo,
    error: Option<Seq<char>>,
    has_totp: bool,
    has_passkey: bool,
) -> Seq<char> {
    let content = html::template(LOGIN_VERIFY_PAGE@)
        .html(error_line_html(error))
        .when(has_passkey, VERIFY_PASSKEY@)
        .html(if has_totp {
            html::template(VERIFY_CODE@)
                .html(if has_passkey {
                    VERIFY_OR_CODE@
                } else {
                    VERIFY_CODE_INTRO@
                })
                .text(if has_passkey { "btn-secondary"@ } else { "btn"@ })
                .done()
        } else {
            Seq::empty()
        })
        .done();
    shell::shell_public_html(site, "Two-step verification"@, content)
}

/// `GET /login/verify`: the second step of a sign-in, with the factors the user has enrolled. A
/// recovery code always works.
pub fn login_verify_page(
    site: &SiteInfo,
    error: Option<&str>,
    has_totp: bool,
    has_passkey: bool,
) -> (m: Markup)
    ensures
        m@ == login_verify_page_html(site, text::opt(error), has_totp, has_passkey),
{
    let content = Template::new(LOGIN_VERIFY_PAGE)
        .html(&error_line(error))
        .when(has_passkey, VERIFY_PASSKEY)
        .html(&if has_totp {
            Template::new(VERIFY_CODE)
                .html(&if has_passkey {
                    Markup::raw(VERIFY_OR_CODE)
                } else {
                    Markup::raw(VERIFY_CODE_INTRO)
                })
                .text(if has_passkey { "btn-secondary" } else { "btn" })
                .done()
        } else {
            Markup::empty()
        })
        .done();
    shell::shell_public(site, "Two-step verification", &content)
}

pub const ACCEPT_INVITE_ERROR_BANNER: &'static str = "\
    <div class=\"banner banner-error\" role=\"alert\">¤</div>";

/// The text behind an error code of the acceptance form.
pub open spec fn accept_error_text(code: Seq<char>) -> Seq<char> {
    if code == "display_name_required"@ {
        "Enter a display name."@
    } else if code == "password_required"@ {
        "Enter a password."@
    } else if code == "invalid_or_expired_token"@ {
        "This invitation link is invalid or has expired."@
    } else {
        "Something went wrong."@
    }
}

fn accept_error_message(code: &str) -> (r: &'static str)
    ensures
        r@ == accept_error_text(code@),
{
    if text::same(code, "display_name_required") {
        "Enter a display name."
    } else if text::same(code, "password_required") {
        "Enter a password."
    } else if text::same(code, "invalid_or_expired_token") {
        "This invitation link is invalid or has expired."
    } else {
        "Something went wrong."
    }
}

pub open spec fn accept_invite_error_html(error: Option<Seq<char>>) -> Seq<char> {
    match error {
        Some(code) => html::template(ACCEPT_INVITE_ERROR_BANNER@)
            .text(accept_error_text(code))
            .done(),
        None => Seq::empty(),
    }
}

fn accept_invite_error(error: Option<&str>) -> (m: Markup)
    ensures
        m@ == accept_invite_error_html(text::opt(error)),
{
    match error {
        Some(code) => Template::new(ACCEPT_INVITE_ERROR_BANNER)
            .text(accept_error_message(code))
            .done(),
        None => Markup::empty(),
    }
}

pub const ACCEPT_INVITE_PAGE: &'static str = "\
    <h1>Accept invitation</h1>\
    <div class=\"card invite-card\">\
      <form method=\"post\" action=\"¤\" class=\"invite-form\">\
        <p class=\"invite-intro\">You've been invited to join as \
          <span class=\"¤\">¤</span>.\
        </p>¤\
        <div class=\"field\">\
          <label for=\"email\">Email</label>\
          <input type=\"email\" name=\"email_readonly\" id=\"email\" value=\"¤\" readonly \
            autocomplete=\"email\">\
        </div>\
        <div class=\"field\">\
          <label for=\"display_name\">Display name</label>\
          <input type=\"text\" name=\"display_name\" id=\"display_name\" value=\"¤\" \
            autocomplete=\"name\" required autofocus>\
        </div>\
        <div class=\"field\">\
          <label for=\"password\">Choose a password</label>\
          <input type=\"password\" name=\"password\" id=\"password\" \
            autocomplete=\"new-password\" required minlength=\"8\">\
        </div>\
        <div class=\"invite-form-actions\">\
          <button type=\"submit\" class=\"btn\">Create account</button>\
        </div>\
      </form>\
    </div>";

/// The HTML of [`accept_invite_page`].
pub open spec fn accept_invite_page_html(
    site: &SiteInfo,
    token: Seq<char>,
    invitation_email: Seq<char>,
    instance_role: InstanceRole,
    prefill_display_name: Seq<char>,
    error: Option<Seq<char>>,
) -> Seq<char> {
    let content = html::template(ACCEPT_INVITE_PAGE@)
        .text("/invite/"@ + token)
        .text(shell::role_class_text(instance_role))
        .text(shell::role_label_text(instance_role))
        .html(accept_invite_error_html(error))
        .text(invitation_email)
        .text(prefill_display_name)
        .done();
    shell::shell_public_html(site, "Accept invitation"@, content)
}

/// `GET /invite/{token}`: the form by which an invitee opens their account.
pub fn accept_invite_page(
    site: &SiteInfo,
    token: &str,
    invitation_email: &str,
    instance_role: InstanceRole,
    prefill_display_name: &str,
    error: Option<&str>,
) -> (m: Markup)
    ensures
        m@ == accept_invite_page_html(
            site,
            token@,
            invitation_email@,
            instance_role,
            prefill_display_name@,
            text::opt(error),
        ),
{
    let action = text::join("/invite/", token);
    let content = Template::new(ACCEPT_INVITE_PAGE)
        .text(action.as_str())
        .text(shell::role_class(instance_role))
        .text(shell::role_label(instance_role))
        .html(&accept_invite_error(error))
        .text(invitation_email)
        .text(prefill_display_name)
        .done();
    shell::shell_public(site, "Accept invitation", &content)
}

pub const ACCEPT_INVITE_RECOVERY_CODE_PAGE: &'static str = "\
    <h1>Save your recovery code</h1>\
    <div class=\"card recovery-code-card\">\
      <p class=\"recovery-code-intro\">This is your account recovery code. You'll need it \
        if you ever forget your password or lose access to a second factor. Sylva is \
        offline-first — we won't email you a reset link, so this code is the only way back in.</p>\
      <div class=\"recovery-code-display\">\
        <input id=\"recovery-code\" type=\"text\" class=\"recovery-code-input\" value=\"¤\" \
          readonly aria-label=\"Account recovery code\">\
        <button type=\"button\" class=\"btn-secondary\" \
          data-copy-target=\"recovery-code\">Copy</button>\
      </div>\
      <div class=\"dialog-alert dialog-alert-danger\" role=\"alert\">¤\
        <span>Save it somewhere safe before continuing. We won't show this code again. \
          If you lose it, regenerating a new one from settings will replace this one — \
          any saved copy will stop working.</span>\
      </div>\
      <form method=\"get\" action=\"/me\" class=\"recovery-code-actions\">\
        <label class=\"recovery-code-confirm\">\
          <input type=\"checkbox\" class=\"member-checkbox\" required>\
          <span>I've saved my recovery code somewhere safe.</span>\
        </label>\
        <button type=\"submit\" class=\"btn\">Continue to your account</button>\
      </form>\
    </div>\
    <script>¤</script>";

/// The HTML of [`accept_invite_recovery_code_page`].
pub open spec fn accept_invite_recovery_code_page_html(
    site: &SiteInfo,
    recovery_code: Seq<char>,
) -> Seq<char> {
    let content = html::template(ACCEPT_INVITE_RECOVERY_CODE_PAGE@)
        .text(recovery_code)
        .html(ALERT_CIRCLE_ICON@)
        .html(INVITE_COPY_JS@)
        .done();
    shell::shell_public_html(site, "Save your recovery code"@, content)
}

/// `POST /invite/{token}`: shows the recovery code of a new account, once.
pub fn accept_invite_recovery_code_page(site: &SiteInfo, recovery_code: &str) -> (m: Markup)
    ensures
        m@ == accept_invite_recovery_code_page_html(site, recovery_code@),
{
    let content = Template::new(ACCEPT_INVITE_RECOVERY_CODE_PAGE)
        .text(recovery_code)
        .raw(ALERT_CIRCLE_ICON)
        .raw(INVITE_COPY_JS)
        .done();
    shell::shell_public(site, "Save your recovery code", &content)
}

pub const ACCEPT_INVITE_INVALID_PAGE: &'static str = "\
    <h1>Invitation unavailable</h1>\
    <div class=\"card\">\
      <p>This invitation link is invalid or has expired. Check with the person who \
        invited you for a fresh link.</p>\
      <p>\
        <a href=\"/login\">Go to sign in</a>\
      </p>\
    </div>";

/// The HTML of [`accept_invite_invalid_page`].
pub open spec fn accept_invite_invalid_page_html(site: &SiteInfo) -> Seq<char> {
    let content = ACCEPT_INVITE_INVALID_PAGE@;
    shell::shell_public_html(site, "Invitation unavailable"@, content)
}

/// Shown for a link that matches no open invitation, whatever the reason.
pub fn accept_invite_invalid_page(site: &SiteInfo) -> (m: Markup)
    ensures
        m@ == accept_invite_invalid_page_html(site),
{
    let content = Markup::raw(ACCEPT_INVITE_INVALID_PAGE);
    shell::shell_public(site, "Invitation unavailable", &content)
}

} // verus!
