//! Passwords, second factors and signed-in devices.

use vstd::prelude::*;
use crate::display;
use crate::html;
use crate::html::{Markup, Template};
use crate::model;
use crate::model::{Session, Timestamp, TotpCredential, Uuid, WebauthnCredentialRow};
use crate::text;
use crate::views::shell;
use crate::views::shell::ChromeContext;
use crate::views::icons::{
    ALERT_CIRCLE_ICON, CHECK_CIRCLE_ICON, CLOSE_ICON, DEVICE_MOBILE_ICON, EYE_ICON, EYE_OFF_ICON,
    FINGERPRINT_ICON, INFO_ICON, KEY_ICON, LAPTOP_ICON, PENCIL_ICON, SHIELD_ICON, TRASH_ICON,
};

verus! {

/// Which row of a list is in a state of its own.
#[derive(Clone, Copy, Debug, PartialEq, Eq, Structural)]
pub enum SectionMode {
    Normal,
    Renaming(Uuid),
    ConfirmDelete(Uuid),
}

/// Whether a list of `len` factors has reached its limit.
pub open spec fn is_full(len: nat, max: i64) -> bool {
    len >= max
}

fn reached(len: usize, max: i64) -> (r: bool)
    ensures
        r == is_full(len as nat, max),
{
    max <= 0 || len as u64 >= max as u64
}

/// How many factors of each kind an account may enrol.
#[derive(Clone, Copy, Debug, PartialEq, Eq, Structural)]
pub struct FactorLimits {
    pub authenticators: i64,
    pub passkeys: i64,
}

pub const CHANGE_PASSWORD_INPUT: &'static str = "\
    <div class=\"password-input-wrap\" id=\"change-pw-field\"¤>\
      <input type=\"password\" id=\"change-pw-new\" name=\"new_password\" \
        data-pw-gate=\"form-change-password\" autocomplete=\"new-password\" minlength=\"8\" \
        placeholder=\"New password\" required>\
      <button type=\"button\" class=\"password-toggle\" data-pw-toggle=\"change-pw-new\" \
        aria-label=\"Show password\">\
        <span class=\"pw-eye\">¤</span>\
        <span class=\"pw-eye-off\">¤</span>\
      </button>\
    </div>";

/// The HTML of [`change_password_input`].
pub open spec fn change_password_input_html(oob: bool) -> Seq<char> {
    html::template(CHANGE_PASSWORD_INPUT@)
        .when(oob, " hx-swap-oob=\"true\""@)
        .html(EYE_ICON@)
        .html(EYE_OFF_ICON@)
        .done()
}

/// The new-password field; `oob` makes it replace the one on the page.
fn change_password_input(oob: bool) -> (m: Markup)
    ensures
        m@ == change_password_input_html(oob),
{
    Template::new(CHANGE_PASSWORD_INPUT)
        .when(oob, " hx-swap-oob=\"true\"")
        .raw(EYE_ICON)
        .raw(EYE_OFF_ICON)
        .done()
}

pub const CHANGE_PASSWORD_BUTTON: &'static str = "\
    <button type=\"button\" id=\"change-pw-btn\" class=\"btn-secondary\"¤ \
      data-reauth-confirm=\"form-change-password\" data-keep-source-open disabled>¤\
      <span>Change password</span>\
    </button>";

/// The HTML of [`change_password_button`].
pub open spec fn change_password_button_html(oob: bool) -> Seq<char> {
    html::template(CHANGE_PASSWORD_BUTTON@)
        .when(oob, " hx-swap-oob=\"true\""@)
        .html(KEY_ICON@)
        .done()
}

/// The change-password button; `oob` makes it replace the one on the page.
fn change_password_button(oob: bool) -> (m: Markup)
    ensures
        m@ == change_password_button_html(oob),
{
    Template::new(CHANGE_PASSWORD_BUTTON)
        .when(oob, " hx-swap-oob=\"true\"")
        .raw(KEY_ICON)
        .done()
}

pub const PASSWORD_CHANGED_SUCCESS_CONTENT: &'static str = "\
    <div class=\"dialog-header\">\
      <div class=\"dialog-icon dialog-icon-success\">¤</div>\
      <button type=\"button\" class=\"dialog-close\" data-close-dialog \
        aria-label=\"Close\">¤</button>\
    </div>\
    <h2 class=\"dialog-center-title\">Password updated</h2>\
    <p class=\"dialog-description dialog-center-text\">Your password has been changed. \
      Other devices have been signed out; this one stays active.</p>\
    <div class=\"dialog-actions dialog-actions-centered\">\
      <button type=\"button\" class=\"btn\" data-close-dialog>Done</button>\
    </div>¤¤";

/// The HTML of [`password_changed_success_content`].
pub open spec fn password_changed_success_content_html() -> Seq<char> {
    html::template(PASSWORD_CHANGED_SUCCESS_CONTENT@)
        .html(CHECK_CIRCLE_ICON@)
        .html(CLOSE_ICON@)
        .html(change_password_input_html(true))
        .html(change_password_button_html(true))
        .done()
}

/// Shown after a password change; empties the form behind it.
pub fn password_changed_success_content() -> (m: Markup)
    ensures
        m@ == password_changed_success_content_html(),
{
    Template::new(PASSWORD_CHANGED_SUCCESS_CONTENT)
        .raw(CHECK_CIRCLE_ICON)
        .raw(CLOSE_ICON)
        .html(&change_password_input(true))
        .html(&change_password_button(true))
        .done()
}

pub const FACTOR_REMOVED_CONTENT: &'static str = "\
    <div class=\"dialog-header\">\
      <div class=\"dialog-icon dialog-icon-shield\">¤</div>\
      <button type=\"button\" class=\"dialog-close\" data-close-dialog \
        aria-label=\"Close\">¤</button>\
    </div>\
    <h2 class=\"dialog-center-title\">¤</h2>\
    <p class=\"dialog-description dialog-center-text\">¤</p>\
    <div class=\"dialog-actions dialog-actions-centered\">\
      <button type=\"button\" class=\"btn\" data-close-dialog>Done</button>\
    </div>";

/// The HTML of [`factor_removed_content`].
pub open spec fn factor_removed_content_html(title: Seq<char>, message: Seq<char>) -> Seq<char> {
    html::template(FACTOR_REMOVED_CONTENT@)
        .html(SHIELD_ICON@)
        .html(CLOSE_ICON@)
        .text(title)
        .text(message)
        .done()
}

/// Shown after a sign-in factor was removed.
pub fn factor_removed_content(title: &str, message: &str) -> (m: Markup)
    ensures
        m@ == factor_removed_content_html(title@, message@),
{
    Template::new(FACTOR_REMOVED_CONTENT)
        .raw(SHIELD_ICON)
        .raw(CLOSE_ICON)
        .text(title)
        .text(message)
        .done()
}

pub const TOTP_RENAMING: &'static str = "\
    <li class=\"totp-row totp-row-editing\">\
      <form class=\"totp-rename-form\" hx-post=\"/me/totp/¤/rename\" \
        hx-target=\"#totp-section\" hx-swap=\"outerHTML\">¤\
        <input type=\"text\" name=\"label\" value=\"¤\" maxlength=\"60\" required autofocus \
          class=\"totp-rename-input\" aria-label=\"Authenticator name\">\
        <div class=\"totp-row-actions\">\
          <button type=\"submit\" class=\"btn-secondary\">Save</button>\
          <button type=\"button\" class=\"btn-secondary\" hx-get=\"/me/totp/section\" \
            hx-target=\"#totp-section\" hx-swap=\"outerHTML\">Cancel</button>\
        </div>\
      </form>\
    </li>";

pub const TOTP_CONFIRM_DELETE: &'static str = "\
    <li class=\"totp-row totp-row-confirm\">\
      <div class=\"totp-row-main\">\
        <span class=\"totp-row-name\">Remove “¤”?</span>\
        <span class=\"totp-row-meta\">¤</span>\
      </div>\
      <div class=\"totp-row-actions\">\
        <form id=\"form-totp-delete-¤\" method=\"post\" action=\"/me/totp/¤/delete\" \
          style=\"display:contents\">¤\
          <button type=\"button\" class=\"btn-danger\" \
            data-reauth-confirm=\"form-totp-delete-¤\" data-keep-source-open>Remove</button>\
        </form>\
        <button type=\"button\" class=\"btn-secondary\" hx-get=\"/me/totp/section\" \
          hx-target=\"#totp-section\" hx-swap=\"outerHTML\">Cancel</button>\
      </div>\
    </li>";

pub const TOTP_LAST_WARNING: &'static str = "\
    This is your last authenticator — removing it turns off two-factor sign-in.";

pub const TOTP_DELETE_WARNING: &'static str = "You'll need to re-add it to use it again.";

pub const TOTP_ROW: &'static str = "\
    <li class=\"totp-row\">\
      <span class=\"totp-row-icon\" aria-hidden=\"true\">¤</span>\
      <div class=\"totp-row-main\">\
        <span class=\"totp-row-name\">¤</span>\
        <span class=\"totp-row-meta\">Added ¤¤</span>\
      </div>\
      <div class=\"totp-row-actions\">\
        <button type=\"button\" class=\"icon-btn\" aria-label=\"Rename authenticator\" \
          hx-get=\"/me/totp/¤/edit\" hx-target=\"#totp-section\" hx-swap=\"outerHTML\">¤</button>\
        <button type=\"button\" class=\"icon-btn icon-btn-danger\" aria-label=\"Remove \
          authenticator\" hx-get=\"/me/totp/¤/confirm-delete\" hx-target=\"#totp-section\" \
          hx-swap=\"outerHTML\">¤</button>\
      </div>\
    </li>";

pub const TOTP_LAST_USED: &'static str = " • Last used ¤";

pub const TOTP_NEVER_USED: &'static str = " • Never used";

/// The HTML of [`totp_row`].
pub open spec fn totp_row_html(
    ctx: &ChromeContext,
    cred: &TotpCredential,
    mode: SectionMode,
    is_last: bool,
) -> Seq<char> {
    let id = cred.id;
    if mode == SectionMode::Renaming(id) {
        html::template(TOTP_RENAMING@)
            .uuid(id)
            .html(shell::csrf_input_html(ctx.csrf_token@))
            .text(cred.label@)
            .done()
    } else if mode == SectionMode::ConfirmDelete(id) {
        html::template(TOTP_CONFIRM_DELETE@)
            .text(cred.label@)
            .html(if is_last {
                TOTP_LAST_WARNING@
            } else {
                TOTP_DELETE_WARNING@
            })
            .uuid(id)
            .uuid(id)
            .html(shell::csrf_input_html(ctx.csrf_token@))
            .uuid(id)
            .done()
    } else {
        html::template(TOTP_ROW@)
            .html(DEVICE_MOBILE_ICON@)
            .text(cred.label@)
            .date(cred.created_at@, model::SHORT_DATE@)
            .html(match cred.last_used_at {
                Some(used) => html::template(TOTP_LAST_USED@)
                    .date(used@, model::SHORT_DATE@)
                    .done(),
                None => TOTP_NEVER_USED@,
            })
            .uuid(id)
            .html(PENCIL_ICON@)
            .uuid(id)
            .html(TRASH_ICON@)
            .done()
    }
}

/// One enrolled factor: its name and dates, or the form that renames it, or the question whether to
/// remove it.
fn totp_row(
    ctx: &ChromeContext,
    cred: &TotpCredential,
    mode: SectionMode,
    is_last: bool,
) -> (m: Markup)
    ensures
        m@ == totp_row_html(ctx, cred, mode, is_last),
{
    let id = cred.id;
    if mode == SectionMode::Renaming(id) {
        Template::new(TOTP_RENAMING)
            .uuid(id)
            .html(&shell::csrf_input(ctx.csrf_token))
            .text(cred.label.as_str())
            .done()
    } else if mode == SectionMode::ConfirmDelete(id) {
        Template::new(TOTP_CONFIRM_DELETE)
            .text(cred.label.as_str())
            .html(&if is_last {
                Markup::raw(TOTP_LAST_WARNING)
            } else {
                Markup::raw(TOTP_DELETE_WARNING)
            })
            .uuid(id)
            .uuid(id)
            .html(&shell::csrf_input(ctx.csrf_token))
            .uuid(id)
            .done()
    } else {
        Template::new(TOTP_ROW)
            .raw(DEVICE_MOBILE_ICON)
            .text(cred.label.as_str())
            .date(&cred.created_at, model::SHORT_DATE)
            .html(&match cred.last_used_at {
                Some(used) => Template::new(TOTP_LAST_USED)
                    .date(&used, model::SHORT_DATE)
                    .done(),
                None => Markup::raw(TOTP_NEVER_USED),
            })
            .uuid(id)
            .raw(PENCIL_ICON)
            .uuid(id)
            .raw(TRASH_ICON)
            .done()
    }
}

pub open spec fn totp_rows_html(creds: Seq<TotpCredential>, ctx: &ChromeContext, mode: SectionMode, is_last: bool) -> Seq<char>
    decreases creds.len(),
{
    if creds.len() == 0 {
        Seq::empty()
    } else {
        let cred = creds.last();
        totp_rows_html(creds.drop_last(), ctx, mode, is_last) + totp_row_html(ctx, &cred, mode, is_last)
    }
}

fn totp_rows(creds: &[TotpCredential], ctx: &ChromeContext, mode: SectionMode, is_last: bool) -> (m: Markup)
    ensures
        m@ == totp_rows_html(creds@, ctx, mode, is_last),
{
    let mut out = Markup::empty();
    let mut i: usize = 0;
    while i < creds.len()
        invariant
            i <= creds@.len(),
            out@ == totp_rows_html(creds@.take(i as int), ctx, mode, is_last),
        decreases creds@.len() - i,
    {
        let cred = &creds[i];
        let row = totp_row(ctx, cred, mode, is_last);
        out = out.then_html(&row);
        i += 1;
        assert(creds@.take(i as int).drop_last() =~= creds@.take(i - 1));
    }
    assert(creds@.take(i as int) =~= creds@);
    out
}

pub const TOTP_SECTION: &'static str = "\
    <section id=\"totp-section\" class=\"settings-section\"¤>\
      <div class=\"settings-section-header settings-section-header-actions\">\
        <div class=\"settings-section-heading\">\
          <span class=\"settings-section-icon\" aria-hidden=\"true\">¤</span>\
          <div>\
            <h3>Registered Authenticators</h3>\
            <p class=\"settings-section-tagline\">Verification codes using apps or \
              password managers.</p>\
          </div>\
        </div>\
        <form id=\"form-totp-start\" method=\"post\" action=\"/me/totp/start\" \
          style=\"display:contents\">¤\
          <button type=\"button\" class=\"btn-secondary\" \
            data-reauth-confirm=\"form-totp-start\" data-keep-source-open¤>¤\
            <span>Add Authenticator</span>\
          </button>\
        </form>\
      </div>\
      <div class=\"settings-section-body\">¤¤\
        <div class=\"settings-info\">\
          <span class=\"settings-info-icon\" aria-hidden=\"true\">¤</span>\
          <div>\
            <h4>What are authenticators?</h4>\
            <p>Authenticators provide a second factor of authentication (2FA) using \
              temporary verification codes (TOTP). These codes are 6 digits and refresh \
              every 30 seconds.</p>\
          </div>\
        </div>\
      </div>\
    </section>";

pub const TOTP_NONE: &'static str = "\
    <p class=\"settings-row-hint totp-empty\">No authenticators yet. Add one to require a \
      6-digit code at sign-in.</p>";

pub const FACTOR_LIST: &'static str = "<ul class=\"totp-list\">¤</ul>";

pub const TOTP_FULL: &'static str = "\
    <p class=\"settings-row-hint\">You've reached the maximum of ¤ authenticators.</p>";

/// The HTML of [`totp_authenticators_section`].
pub open spec fn totp_authenticators_section_html(
    ctx: &ChromeContext,
    creds: Seq<TotpCredential>,
    mode: SectionMode,
    max: i64,
    oob: bool,
) -> Seq<char> {
    let at_max = is_full(creds.len(), max);
    html::template(TOTP_SECTION@)
        .when(oob, " hx-swap-oob=\"true\""@)
        .html(DEVICE_MOBILE_ICON@)
        .html(shell::csrf_input_html(ctx.csrf_token@))
        .when(at_max, " disabled"@)
        .html(KEY_ICON@)
        .html(if creds.len() == 0 {
            TOTP_NONE@
        } else {
            html::template(FACTOR_LIST@)
                .html(totp_rows_html(creds, ctx, mode, creds.len() == 1))
                .done()
        })
        .html(if at_max {
            html::template(TOTP_FULL@)
                .num(max as int)
                .done()
        } else {
            Seq::empty()
        })
        .html(INFO_ICON@)
        .done()
}

/// The enrolled authenticator apps; no more than `max` can be added.
pub fn totp_authenticators_section(
    ctx: &ChromeContext,
    creds: &[TotpCredential],
    mode: SectionMode,
    max: i64,
    oob: bool,
) -> (m: Markup)
    ensures
        m@ == totp_authenticators_section_html(ctx, creds@, mode, max, oob),
{
    let at_max: bool = reached(creds.len(), max);
    Template::new(TOTP_SECTION)
        .when(oob, " hx-swap-oob=\"true\"")
        .raw(DEVICE_MOBILE_ICON)
        .html(&shell::csrf_input(ctx.csrf_token))
        .when(at_max, " disabled")
        .raw(KEY_ICON)
        .html(&if creds.len() == 0 {
            Markup::raw(TOTP_NONE)
        } else {
            Template::new(FACTOR_LIST)
                .html(&totp_rows(creds, ctx, mode, creds.len() == 1))
                .done()
        })
        .html(&if at_max {
            Template::new(TOTP_FULL)
                .num(max)
                .done()
        } else {
            Markup::empty()
        })
        .raw(INFO_ICON)
        .done()
}

pub const TOTP_ENROLL_MODAL_CONTENT: &'static str = "\
    <div class=\"dialog-header\">\
      <div class=\"dialog-icon\">¤</div>\
      <button type=\"button\" class=\"dialog-close\" data-close-dialog \
        aria-label=\"Close\">¤</button>\
    </div>\
    <h2 class=\"dialog-center-title\">Add an authenticator</h2>\
    <p class=\"dialog-description dialog-center-text\">Scan this with your authenticator \
      app, name it, then enter the 6-digit code it shows to finish.</p>\
    <div class=\"totp-qr\" aria-hidden=\"true\">¤</div>\
    <details class=\"login-verify-alt\">\
      <summary>Can't scan? Enter this key</summary>\
      <div class=\"recovery-code-display\">\
        <input id=\"totp-secret\" type=\"text\" class=\"recovery-code-input\" value=\"¤\" \
          readonly aria-label=\"Authenticator setup key\">\
        <button type=\"button\" class=\"btn-secondary\" \
          data-copy-target=\"totp-secret\">Copy</button>\
      </div>\
    </details>\
    <form id=\"form-totp-confirm\" method=\"post\" action=\"/me/totp/confirm\" \
      hx-post=\"/me/totp/confirm\" hx-target=\"#reauth-modal-content\" hx-swap=\"innerHTML\">¤\
      <input type=\"hidden\" name=\"cred_id\" value=\"¤\">¤\
      <div class=\"field\">\
        <label for=\"totp-label\">Name</label>\
        <input type=\"text\" name=\"label\" id=\"totp-label\" value=\"Authenticator\" \
          maxlength=\"60\" required autocomplete=\"off\" placeholder=\"e.g. 1Password, Ente \
          Auth\">\
      </div>\
      <div class=\"field\">\
        <label for=\"totp-confirm-code\">6-digit code</label>\
        <input type=\"text\" name=\"code\" id=\"totp-confirm-code\" inputmode=\"numeric\" \
          autocomplete=\"one-time-code\" pattern=\"[0-9]*\" maxlength=\"6\" required>\
      </div>\
      <div class=\"dialog-actions\">\
        <button type=\"submit\" class=\"btn\">Add authenticator</button>\
      </div>\
    </form>";

pub const TOTP_ENROLL_ERROR: &'static str = "<p class=\"error\">¤</p>";

/// The HTML of [`totp_enroll_modal_content`].
pub open spec fn totp_enroll_modal_content_html(
    qr_svg: Seq<char>,
    secret_b32: Seq<char>,
    cred_id: Uuid,
    csrf_token: Seq<char>,
    error: Option<Seq<char>>,
) -> Seq<char> {
    html::template(TOTP_ENROLL_MODAL_CONTENT@)
        .html(DEVICE_MOBILE_ICON@)
        .html(CLOSE_ICON@)
        .html(qr_svg)
        .text(secret_b32)
        .html(shell::csrf_input_html(csrf_token))
        .uuid(cred_id)
        .html(match error {
            Some(msg) => html::template(TOTP_ENROLL_ERROR@)
                .text(msg)
                .done(),
            None => Seq::empty(),
        })
        .done()
}

/// Enrols an authenticator app: the QR code, the secret and the form for the first code.
pub fn totp_enroll_modal_content(
    qr_svg: &str,
    secret_b32: &str,
    cred_id: Uuid,
    csrf_token: &str,
    error: Option<&str>,
) -> (m: Markup)
    ensures
        m@ == totp_enroll_modal_content_html(qr_svg@, secret_b32@, cred_id, csrf_token@, text::opt(error)),
{
    Template::new(TOTP_ENROLL_MODAL_CONTENT)
        .raw(DEVICE_MOBILE_ICON)
        .raw(CLOSE_ICON)
        .raw(qr_svg)
        .text(secret_b32)
        .html(&shell::csrf_input(csrf_token))
        .uuid(cred_id)
        .html(&match error {
            Some(msg) => Template::new(TOTP_ENROLL_ERROR)
                .text(msg)
                .done(),
            None => Markup::empty(),
        })
        .done()
}

pub const TOTP_ENROLLED_SUCCESS_CONTENT: &'static str = "\
    <div class=\"dialog-header\">\
      <div class=\"dialog-icon dialog-icon-success\">¤</div>\
      <button type=\"button\" class=\"dialog-close\" data-close-dialog \
        aria-label=\"Close\">¤</button>\
    </div>\
    <h2 class=\"dialog-center-title\">Authenticator added</h2>\
    <p class=\"dialog-description dialog-center-text\">You'll enter a code from one of \
      your authenticators the next time you sign in. If you ever lose access, use your \
      recovery code to get back in.</p>\
    <div class=\"dialog-actions\">\
      <button type=\"button\" class=\"btn\" data-close-dialog>Done</button>\
    </div>";

/// The HTML of [`totp_enrolled_success_content`].
pub open spec fn totp_enrolled_success_content_html() -> Seq<char> {
    html::template(TOTP_ENROLLED_SUCCESS_CONTENT@)
        .html(CHECK_CIRCLE_ICON@)
        .html(CLOSE_ICON@)
        .done()
}

/// Shown once an authenticator app is enrolled.
pub fn totp_enrolled_success_content() -> (m: Markup)
    ensures
        m@ == totp_enrolled_success_content_html(),
{
    Template::new(TOTP_ENROLLED_SUCCESS_CONTENT)
        .raw(CHECK_CIRCLE_ICON)
        .raw(CLOSE_ICON)
        .done()
}

pub const TOTP_LIMIT_REACHED_CONTENT: &'static str = "\
    <div class=\"dialog-header\">\
      <div class=\"dialog-icon\">¤</div>\
      <button type=\"button\" class=\"dialog-close\" data-close-dialog \
        aria-label=\"Close\">¤</button>\
    </div>\
    <h2 class=\"dialog-center-title\">Authenticator limit reached</h2>\
    <p class=\"dialog-description dialog-center-text\">You already have the maximum \
      number of authenticators. Remove one before adding another.</p>\
    <div class=\"dialog-actions\">\
      <button type=\"button\" class=\"btn\" data-close-dialog>Close</button>\
    </div>";

/// The HTML of [`totp_limit_reached_content`].
pub open spec fn totp_limit_reached_content_html() -> Seq<char> {
    html::template(TOTP_LIMIT_REACHED_CONTENT@)
        .html(DEVICE_MOBILE_ICON@)
        .html(CLOSE_ICON@)
        .done()
}

/// Shown where no further authenticator app can be added.
pub fn totp_limit_reached_content() -> (m: Markup)
    ensures
        m@ == totp_limit_reached_content_html(),
{
    Template::new(TOTP_LIMIT_REACHED_CONTENT)
        .raw(DEVICE_MOBILE_ICON)
        .raw(CLOSE_ICON)
        .done()
}

pub const PASSKEY_RENAMING: &'static str = "\
    <li class=\"totp-row totp-row-editing\">\
      <form class=\"totp-rename-form\" hx-post=\"/me/passkey/¤/rename\" \
        hx-target=\"#passkey-section\" hx-swap=\"outerHTML\">¤\
        <input type=\"text\" name=\"label\" value=\"¤\" maxlength=\"60\" required autofocus \
          class=\"totp-rename-input\" aria-label=\"Passkey name\">\
        <div class=\"totp-row-actions\">\
          <button type=\"submit\" class=\"btn-secondary\">Save</button>\
          <button type=\"button\" class=\"btn-secondary\" hx-get=\"/me/passkey/section\" \
            hx-target=\"#passkey-section\" hx-swap=\"outerHTML\">Cancel</button>\
        </div>\
      </form>\
    </li>";

pub const PASSKEY_CONFIRM_DELETE: &'static str = "\
    <li class=\"totp-row totp-row-confirm\">\
      <div class=\"totp-row-main\">\
        <span class=\"totp-row-name\">Remove “¤”?</span>\
        <span class=\"totp-row-meta\">¤</span>\
      </div>\
      <div class=\"totp-row-actions\">\
        <form id=\"form-passkey-delete-¤\" method=\"post\" action=\"/me/passkey/¤/delete\" \
          style=\"display:contents\">¤\
          <button type=\"button\" class=\"btn-danger\" \
            data-reauth-confirm=\"form-passkey-delete-¤\" data-keep-source-open>Remove</button>\
        </form>\
        <button type=\"button\" class=\"btn-secondary\" hx-get=\"/me/passkey/section\" \
          hx-target=\"#passkey-section\" hx-swap=\"outerHTML\">Cancel</button>\
      </div>\
    </li>";

pub const PASSKEY_LAST_WARNING: &'static str = "This is your last passkey.";

pub const PASSKEY_ROW: &'static str = "\
    <li class=\"totp-row\">\
      <span class=\"totp-row-icon\" aria-hidden=\"true\">¤</span>\
      <div class=\"totp-row-main\">\
        <span class=\"totp-row-name\">¤</span>\
        <span class=\"totp-row-meta\">Added ¤¤</span>\
      </div>\
      <div class=\"totp-row-actions\">\
        <button type=\"button\" class=\"icon-btn\" aria-label=\"Rename passkey\" \
          hx-get=\"/me/passkey/¤/edit\" hx-target=\"#passkey-section\" \
          hx-swap=\"outerHTML\">¤</button>\
        <button type=\"button\" class=\"icon-btn icon-btn-danger\" aria-label=\"Remove \
          passkey\" hx-get=\"/me/passkey/¤/confirm-delete\" hx-target=\"#passkey-section\" \
          hx-swap=\"outerHTML\">¤</button>\
      </div>\
    </li>";

/// The HTML of [`passkey_row`].
pub open spec fn passkey_row_html(
    ctx: &ChromeContext,
    cred: &WebauthnCredentialRow,
    mode: SectionMode,
    is_last: bool,
) -> Seq<char> {
    let id = cred.id;
    if mode == SectionMode::Renaming(id) {
        html::template(PASSKEY_RENAMING@)
            .uuid(id)
            .html(shell::csrf_input_html(ctx.csrf_token@))
            .text(cred.label@)
            .done()
    } else if mode == SectionMode::ConfirmDelete(id) {
        html::template(PASSKEY_CONFIRM_DELETE@)
            .text(cred.label@)
            .html(if is_last {
                PASSKEY_LAST_WARNING@
            } else {
                TOTP_DELETE_WARNING@
            })
            .uuid(id)
            .uuid(id)
            .html(shell::csrf_input_html(ctx.csrf_token@))
            .uuid(id)
            .done()
    } else {
        html::template(PASSKEY_ROW@)
            .html(FINGERPRINT_ICON@)
            .text(cred.label@)
            .date(cred.created_at@, model::SHORT_DATE@)
            .html(match cred.last_used_at {
                Some(used) => html::template(TOTP_LAST_USED@)
                    .date(used@, model::SHORT_DATE@)
                    .done(),
                None => TOTP_NEVER_USED@,
            })
            .uuid(id)
            .html(PENCIL_ICON@)
            .uuid(id)
            .html(TRASH_ICON@)
            .done()
    }
}

/// One enrolled factor: its name and dates, or the form that renames it, or the question whether to
/// remove it.
fn passkey_row(
    ctx: &ChromeContext,
    cred: &WebauthnCredentialRow,
    mode: SectionMode,
    is_last: bool,
) -> (m: Markup)
    ensures
        m@ == passkey_row_html(ctx, cred, mode, is_last),
{
    let id = cred.id;
    if mode == SectionMode::Renaming(id) {
        Template::new(PASSKEY_RENAMING)
            .uuid(id)
            .html(&shell::csrf_input(ctx.csrf_token))
            .text(cred.label.as_str())
            .done()
    } else if mode == SectionMode::ConfirmDelete(id) {
        Template::new(PASSKEY_CONFIRM_DELETE)
            .text(cred.label.as_str())
            .html(&if is_last {
                Markup::raw(PASSKEY_LAST_WARNING)
            } else {
                Markup::raw(TOTP_DELETE_WARNING)
            })
            .uuid(id)
            .uuid(id)
            .html(&shell::csrf_input(ctx.csrf_token))
            .uuid(id)
            .done()
    } else {
        Template::new(PASSKEY_ROW)
            .raw(FINGERPRINT_ICON)
            .text(cred.label.as_str())
            .date(&cred.created_at, model::SHORT_DATE)
            .html(&match cred.last_used_at {
                Some(used) => Template::new(TOTP_LAST_USED)
                    .date(&used, model::SHORT_DATE)
                    .done(),
                None => Markup::raw(TOTP_NEVER_USED),
            })
            .uuid(id)
            .raw(PENCIL_ICON)
            .uuid(id)
            .raw(TRASH_ICON)
            .done()
    }
}

pub open spec fn passkey_rows_html(creds: Seq<WebauthnCredentialRow>, ctx: &ChromeContext, mode: SectionMode, is_last: bool) -> Seq<char>
    decreases creds.len(),
{
    if creds.len() == 0 {
        Seq::empty()
    } else {
        let cred = creds.last();
        passkey_rows_html(creds.drop_last(), ctx, mode, is_last) + passkey_row_html(ctx, &cred, mode, is_last)
    }
}

fn passkey_rows(creds: &[WebauthnCredentialRow], ctx: &ChromeContext, mode: SectionMode, is_last: bool) -> (m: Markup)
    ensures
        m@ == passkey_rows_html(creds@, ctx, mode, is_last),
{
    let mut out = Markup::empty();
    let mut i: usize = 0;
    while i < creds.len()
        invariant
            i <= creds@.len(),
            out@ == passkey_rows_html(creds@.take(i as int), ctx, mode, is_last),
        decreases creds@.len() - i,
    {
        let cred = &creds[i];
        let row = passkey_row(ctx, cred, mode, is_last);
        out = out.then_html(&row);
        i += 1;
        assert(creds@.take(i as int).drop_last() =~= creds@.take(i - 1));
    }
    assert(creds@.take(i as int) =~= creds@);
    out
}

pub const PASSKEY_SECTION: &'static str = "\
    <section id=\"passkey-section\" class=\"settings-section\"¤>\
      <div class=\"settings-section-header settings-section-header-actions\">\
        <div class=\"settings-section-heading\">\
          <span class=\"settings-section-icon\" aria-hidden=\"true\">¤</span>\
          <div>\
            <h3>Registered Passkeys</h3>\
            <p class=\"settings-section-tagline\">Passwordless authentication using \
              biometrics or security keys.</p>\
          </div>\
        </div>¤\
      </div>\
      <div class=\"settings-section-body\">¤\
        <div class=\"settings-info\">\
          <span class=\"settings-info-icon\" aria-hidden=\"true\">¤</span>\
          <div>\
            <h4>What are passkeys?</h4>\
            <p>Passkeys let you sign in with your device's fingerprint, face, screen \
              lock, or a security key instead of (or on top of) a password. They can't be \
              phished or reused across sites.</p>\
          </div>\
        </div>\
      </div>\
    </section>";

pub const PASSKEY_ADD: &'static str = "\
    <form id=\"form-passkey-start\" method=\"post\" action=\"/me/passkey/start\" \
      style=\"display:contents\">¤\
      <button type=\"button\" class=\"btn-secondary\" \
        data-reauth-confirm=\"form-passkey-start\" data-keep-source-open¤>¤\
        <span>Add passkey</span>\
      </button>\
    </form>";

pub const PASSKEY_UNAVAILABLE: &'static str = "\
    <p class=\"settings-row-hint\">Passkeys need this site to be reached over https or at \
      a hostname like localhost (not a bare IP address). Set SYLVA_PUBLIC_BASE_URL \
      accordingly to enable them.</p>";

pub const PASSKEY_NONE: &'static str = "\
    <p class=\"settings-row-hint totp-empty\">No passkeys yet. Add one for passwordless, \
      phishing-resistant sign-in.</p>";

pub const PASSKEY_FULL: &'static str = "\
    <p class=\"settings-row-hint\">You've reached the maximum of ¤ passkeys.</p>";

/// The HTML of [`passkey_credentials_section`].
pub open spec fn passkey_credentials_section_html(
    ctx: &ChromeContext,
    creds: Seq<WebauthnCredentialRow>,
    mode: SectionMode,
    available: bool,
    max: i64,
    oob: bool,
) -> Seq<char> {
    let at_max = is_full(creds.len(), max);
    html::template(PASSKEY_SECTION@)
        .when(oob, " hx-swap-oob=\"true\""@)
        .html(FINGERPRINT_ICON@)
        .html(if available {
            html::template(PASSKEY_ADD@)
                .html(shell::csrf_input_html(ctx.csrf_token@))
                .when(at_max, " disabled"@)
                .html(FINGERPRINT_ICON@)
                .done()
        } else {
            Seq::empty()
        })
        .html(if !available {
            PASSKEY_UNAVAILABLE@
        } else {
            (if creds.len() == 0 {
                PASSKEY_NONE@
            } else {
                html::template(FACTOR_LIST@)
                    .html(passkey_rows_html(creds, ctx, mode, creds.len() == 1))
                    .done()
            }) + (if at_max {
                html::template(PASSKEY_FULL@)
                    .num(max as int)
                    .done()
            } else {
                Seq::empty()
            })
        })
        .html(INFO_ICON@)
        .done()
}

/// The enrolled passkeys; no more than `max` can be added, none where the instance cannot use them.
pub fn passkey_credentials_section(
    ctx: &ChromeContext,
    creds: &[WebauthnCredentialRow],
    mode: SectionMode,
    available: bool,
    max: i64,
    oob: bool,
) -> (m: Markup)
    ensures
        m@ == passkey_credentials_section_html(ctx, creds@, mode, available, max, oob),
{
    let at_max: bool = reached(creds.len(), max);
    Template::new(PASSKEY_SECTION)
        .when(oob, " hx-swap-oob=\"true\"")
        .raw(FINGERPRINT_ICON)
        .html(&if available {
            Template::new(PASSKEY_ADD)
                .html(&shell::csrf_input(ctx.csrf_token))
                .when(at_max, " disabled")
                .raw(FINGERPRINT_ICON)
                .done()
        } else {
            Markup::empty()
        })
        .html(&if !available {
            Markup::raw(PASSKEY_UNAVAILABLE)
        } else {
            (if creds.len() == 0 {
                Markup::raw(PASSKEY_NONE)
            } else {
                Template::new(FACTOR_LIST)
                    .html(&passkey_rows(creds, ctx, mode, creds.len() == 1))
                    .done()
            })
                .then_html(&(if at_max {
                    Template::new(PASSKEY_FULL)
                        .num(max)
                        .done()
                } else {
                    Markup::empty()
                }))
        })
        .raw(INFO_ICON)
        .done()
}

pub const PASSKEY_ENROLL_MODAL_CONTENT: &'static str = "\
    <div class=\"dialog-header\">\
      <div class=\"dialog-icon\">¤</div>\
      <button type=\"button\" class=\"dialog-close\" data-close-dialog \
        aria-label=\"Close\">¤</button>\
    </div>\
    <h2 class=\"dialog-center-title\">Add a passkey</h2>\
    <p class=\"dialog-description dialog-center-text\">Name it, then follow your \
      browser's prompt to create the passkey with your fingerprint, face, screen lock, or \
      security key.</p>\
    <script type=\"application/json\" id=\"passkey-options\">¤</script>\
    <form id=\"form-passkey-finish\" hx-post=\"/me/passkey/finish\" \
      hx-target=\"#reauth-modal-content\" hx-swap=\"innerHTML\">¤\
      <input type=\"hidden\" name=\"challenge_id\" value=\"¤\">\
      <input type=\"hidden\" name=\"credential\" id=\"passkey-credential\">\
      <div class=\"field\">\
        <label for=\"passkey-label\">Name</label>\
        <input type=\"text\" name=\"label\" id=\"passkey-label\" value=\"Passkey\" \
          maxlength=\"60\" required autocomplete=\"off\" placeholder=\"e.g. MacBook Touch ID, \
          YubiKey\">\
      </div>\
      <p class=\"error\" id=\"passkey-error\" hidden></p>\
      <div class=\"dialog-actions\">\
        <button type=\"button\" class=\"btn\" data-passkey-create>Create passkey</button>\
      </div>\
    </form>";

/// The HTML of [`passkey_enroll_modal_content`].
pub open spec fn passkey_enroll_modal_content_html(
    options_json: Seq<char>,
    challenge_id: Uuid,
    csrf_token: Seq<char>,
) -> Seq<char> {
    html::template(PASSKEY_ENROLL_MODAL_CONTENT@)
        .html(FINGERPRINT_ICON@)
        .html(CLOSE_ICON@)
        .html(options_json)
        .html(shell::csrf_input_html(csrf_token))
        .uuid(challenge_id)
        .done()
}

/// Enrols a passkey: hands the creation options to the browser.
pub fn passkey_enroll_modal_content(
    options_json: &str,
    challenge_id: Uuid,
    csrf_token: &str,
) -> (m: Markup)
    ensures
        m@ == passkey_enroll_modal_content_html(options_json@, challenge_id, csrf_token@),
{
    Template::new(PASSKEY_ENROLL_MODAL_CONTENT)
        .raw(FINGERPRINT_ICON)
        .raw(CLOSE_ICON)
        .raw(options_json)
        .html(&shell::csrf_input(csrf_token))
        .uuid(challenge_id)
        .done()
}

pub const PASSKEY_ENROLLED_SUCCESS_CONTENT: &'static str = "\
    <div class=\"dialog-header\">\
      <div class=\"dialog-icon dialog-icon-success\">¤</div>\
      <button type=\"button\" class=\"dialog-close\" data-close-dialog \
        aria-label=\"Close\">¤</button>\
    </div>\
    <h2 class=\"dialog-center-title\">Passkey added</h2>\
    <p class=\"dialog-description dialog-center-text\">You can use this passkey to sign \
      in. If you ever lose access to it, use another passkey, an authenticator code, or \
      your recovery code.</p>\
    <div class=\"dialog-actions\">\
      <button type=\"button\" class=\"btn\" data-close-dialog>Done</button>\
    </div>";

/// The HTML of [`passkey_enrolled_success_content`].
pub open spec fn passkey_enrolled_success_content_html() -> Seq<char> {
    html::template(PASSKEY_ENROLLED_SUCCESS_CONTENT@)
        .html(CHECK_CIRCLE_ICON@)
        .html(CLOSE_ICON@)
        .done()
}

/// Shown once a passkey is enrolled.
pub fn passkey_enrolled_success_content() -> (m: Markup)
    ensures
        m@ == passkey_enrolled_success_content_html(),
{
    Template::new(PASSKEY_ENROLLED_SUCCESS_CONTENT)
        .raw(CHECK_CIRCLE_ICON)
        .raw(CLOSE_ICON)
        .done()
}

pub const PASSKEY_ERROR_CONTENT: &'static str = "\
    <div class=\"dialog-header\">\
      <div class=\"dialog-icon dialog-alert\">¤</div>\
      <button type=\"button\" class=\"dialog-close\" data-close-dialog \
        aria-label=\"Close\">¤</button>\
    </div>\
    <h2 class=\"dialog-center-title\">Couldn't add passkey</h2>\
    <p class=\"dialog-description dialog-center-text\">¤</p>\
    <div class=\"dialog-actions\">\
      <button type=\"button\" class=\"btn\" data-close-dialog>Close</button>\
    </div>";

/// The HTML of [`passkey_error_content`].
pub open spec fn passkey_error_content_html(message: Seq<char>) -> Seq<char> {
    html::template(PASSKEY_ERROR_CONTENT@)
        .html(ALERT_CIRCLE_ICON@)
        .html(CLOSE_ICON@)
        .text(message)
        .done()
}

/// Shown where enrolling a passkey failed.
pub fn passkey_error_content(message: &str) -> (m: Markup)
    ensures
        m@ == passkey_error_content_html(message@),
{
    Template::new(PASSKEY_ERROR_CONTENT)
        .raw(ALERT_CIRCLE_ICON)
        .raw(CLOSE_ICON)
        .text(message)
        .done()
}

pub const PASSKEY_LIMIT_REACHED_CONTENT: &'static str = "\
    <div class=\"dialog-header\">\
      <div class=\"dialog-icon\">¤</div>\
      <button type=\"button\" class=\"dialog-close\" data-close-dialog \
        aria-label=\"Close\">¤</button>\
    </div>\
    <h2 class=\"dialog-center-title\">Passkey limit reached</h2>\
    <p class=\"dialog-description dialog-center-text\">You already have the maximum \
      number of passkeys. Remove one before adding another.</p>\
    <div class=\"dialog-actions\">\
      <button type=\"button\" class=\"btn\" data-close-dialog>Close</button>\
    </div>";

/// The HTML of [`passkey_limit_reached_content`].
pub open spec fn passkey_limit_reached_content_html() -> Seq<char> {
    html::template(PASSKEY_LIMIT_REACHED_CONTENT@)
        .html(FINGERPRINT_ICON@)
        .html(CLOSE_ICON@)
        .done()
}

/// Shown where no further passkey can be added.
pub fn passkey_limit_reached_content() -> (m: Markup)
    ensures
        m@ == passkey_limit_reached_content_html(),
{
    Template::new(PASSKEY_LIMIT_REACHED_CONTENT)
        .raw(FINGERPRINT_ICON)
        .raw(CLOSE_ICON)
        .done()
}

pub const SETTINGS_SECURITY_PANEL: &'static str = "\
    <section class=\"settings-section\">\
      <div class=\"settings-section-header settings-section-header-actions\">\
        <div class=\"settings-section-heading\">\
          <span class=\"settings-section-icon\" aria-hidden=\"true\">¤</span>\
          <div>\
            <h3>Password</h3>\
            <p class=\"settings-section-tagline\">Change the password you use to sign in.</p>\
          </div>\
        </div>¤\
      </div>\
      <div class=\"settings-section-body\">\
        <form id=\"form-change-password\" class=\"settings-row\" method=\"post\" \
          action=\"/me/password\">¤\
          <div class=\"settings-row-label\">\
            <label for=\"change-pw-new\">New password</label>\
            <p class=\"settings-row-hint\">At least 8 characters. Changing it signs out \
              your other devices.</p>\
          </div>\
          <div class=\"settings-row-control\">¤</div>\
        </form>\
      </div>\
    </section>\
    <hr class=\"settings-divider\">¤\
    <hr class=\"settings-divider\">¤";

/// The HTML of [`settings_security_panel`].
pub open spec fn settings_security_panel_html(
    ctx: &ChromeContext,
    totp_creds: Seq<TotpCredential>,
    passkey_creds: Seq<WebauthnCredentialRow>,
    passkey_available: bool,
    limits: FactorLimits,
) -> Seq<char> {
    html::template(SETTINGS_SECURITY_PANEL@)
        .html(SHIELD_ICON@)
        .html(change_password_button_html(false))
        .html(shell::csrf_input_html(ctx.csrf_token@))
        .html(change_password_input_html(false))
        .html(totp_authenticators_section_html(
            ctx,
            totp_creds,
            SectionMode::Normal,
            limits.authenticators,
            false,
        ))
        .html(passkey_credentials_section_html(
            ctx,
            passkey_creds,
            SectionMode::Normal,
            passkey_available,
            limits.passkeys,
            false,
        ))
        .done()
}

/// The security tab of the account settings: password, authenticator apps and passkeys.
pub fn settings_security_panel(
    ctx: &ChromeContext,
    totp_creds: &[TotpCredential],
    passkey_creds: &[WebauthnCredentialRow],
    passkey_available: bool,
    limits: FactorLimits,
) -> (m: Markup)
    ensures
        m@ == settings_security_panel_html(
            ctx,
            totp_creds@,
            passkey_creds@,
            passkey_available,
            limits,
        ),
{
    Template::new(SETTINGS_SECURITY_PANEL)
        .raw(SHIELD_ICON)
        .html(&change_password_button(false))
        .html(&shell::csrf_input(ctx.csrf_token))
        .html(&change_password_input(false))
        .html(&totp_authenticators_section(
            ctx,
            totp_creds,
            SectionMode::Normal,
            limits.authenticators,
            false,
        ))
        .html(&passkey_credentials_section(
            ctx,
            passkey_creds,
            SectionMode::Normal,
            passkey_available,
            limits.passkeys,
            false,
        ))
        .done()
}

/// The `User-Agent` a session was opened with, or nothing.
pub open spec fn agent_of(s: &Session) -> Seq<char> {
    match s.user_agent {
        Some(ua) => ua@,
        None => Seq::empty(),
    }
}

fn agent(s: &Session) -> (r: &str)
    ensures
        r@ == agent_of(s),
{
    match &s.user_agent {
        Some(ua) => ua.as_str(),
        None => {
            proof {
                reveal_strlit("");
                assert(""@ =~= Seq::<char>::empty());
            }
            ""
        },
    }
}

/// The name a user gave a device; none where it is blank.
pub open spec fn custom_label_of(s: &Session) -> Option<Seq<char>> {
    match s.label {
        Some(l) => if text::trimmed(l@).len() == 0 {
            None
        } else {
            Some(text::trimmed(l@))
        },
        None => None,
    }
}

fn custom_label(s: &Session) -> (r: Option<String>)
    ensures
        match r {
            Some(l) => custom_label_of(s) == Some(l@),
            None => custom_label_of(s) is None,
        },
{
    match &s.label {
        Some(l) => {
            let t = text::trim(l.as_str());
            if t.as_str().is_empty() {
                None
            } else {
                Some(t)
            }
        },
        None => None,
    }
}

pub const VALUE_ATTRIBUTE: &'static str = " value=\"¤\"";

pub const SESSION_RENAMING: &'static str = "\
    <li class=\"totp-row totp-row-editing\">\
      <form class=\"totp-rename-form\" hx-post=\"/me/sessions/¤/rename\" \
        hx-target=\"#devices-section\" hx-swap=\"outerHTML\">¤\
        <input type=\"text\" name=\"label\"¤ placeholder=\"¤\" maxlength=\"60\" autofocus \
          class=\"totp-rename-input\" aria-label=\"Device name\">\
        <div class=\"totp-row-actions\">\
          <button type=\"submit\" class=\"btn-secondary\">Save</button>\
          <button type=\"button\" class=\"btn-secondary\" hx-get=\"/me/sessions/section\" \
            hx-target=\"#devices-section\" hx-swap=\"outerHTML\">Cancel</button>\
        </div>\
      </form>\
    </li>";

pub const SESSION_ROW: &'static str = "\
    <li class=\"totp-row\">\
      <span class=\"totp-row-icon\" aria-hidden=\"true\">¤</span>\
      <div class=\"totp-row-main\">\
        <span class=\"totp-row-name\">¤¤</span>\
        <span class=\"totp-row-meta\">¤¤¤</span>\
      </div>\
      <div class=\"totp-row-actions\">\
        <button type=\"button\" class=\"icon-btn\" aria-label=\"Rename device\" \
          hx-get=\"/me/sessions/¤/edit\" hx-target=\"#devices-section\" \
          hx-swap=\"outerHTML\">¤</button>¤\
      </div>\
    </li>";

pub const SESSION_CURRENT: &'static str = "\
    <span class=\"device-current-badge\">This device</span>";

pub const SESSION_DETAIL: &'static str = "¤ • ";

pub const SESSION_LAST_ACTIVE: &'static str = "Last active ¤";

pub const SESSION_SIGNED_IN: &'static str = "Signed in ¤";

pub const SESSION_SIGN_OUT: &'static str = "\
    <form method=\"post\" action=\"/me/sessions/¤/revoke\" hx-post=\"/me/sessions/¤/revoke\" \
      hx-target=\"#devices-section\" hx-swap=\"outerHTML\" style=\"display:contents\">¤\
      <button type=\"submit\" class=\"btn-secondary\">Sign out</button>\
    </form>";

/// The HTML of [`session_row`].
pub open spec fn session_row_html(
    ctx: &ChromeContext,
    s: &Session,
    is_current: bool,
    now: &Timestamp,
    mode: SectionMode,
) -> Seq<char> {
    let id = s.id;
    let ua = agent_of(s);
    let auto = display::device_name(ua);
    let custom = custom_label_of(s);
    if mode == SectionMode::Renaming(id) {
        html::template(SESSION_RENAMING@)
            .uuid(id)
            .html(shell::csrf_input_html(ctx.csrf_token@))
            .html(match custom {
                Some(l) => html::template(VALUE_ATTRIBUTE@).text(l).done(),
                None => Seq::empty(),
            })
            .text(auto)
            .done()
    } else {
        html::template(SESSION_ROW@)
            .html(if display::is_mobile(ua) {
                DEVICE_MOBILE_ICON@
            } else {
                LAPTOP_ICON@
            })
            .text(match custom {
                Some(l) => l,
                None => auto,
            })
            .when(is_current, SESSION_CURRENT@)
            .html(if custom is Some {
                html::template(SESSION_DETAIL@)
                    .text(auto)
                    .done()
            } else {
                Seq::empty()
            })
            .html(match s.ip_address {
                Some(ip) => html::template(SESSION_DETAIL@).text(ip@).done(),
                None => Seq::empty(),
            })
            .html(match s.last_seen_at {
                Some(seen) => html::template(SESSION_LAST_ACTIVE@)
                    .text(display::relative(seen@, now@))
                    .done(),
                None => html::template(SESSION_SIGNED_IN@)
                    .date(s.created_at@, model::SHORT_DATE@)
                    .done(),
            })
            .uuid(id)
            .html(PENCIL_ICON@)
            .html(if !is_current {
                html::template(SESSION_SIGN_OUT@)
                    .uuid(id)
                    .uuid(id)
                    .html(shell::csrf_input_html(ctx.csrf_token@))
                    .done()
            } else {
                Seq::empty()
            })
            .done()
    }
}

/// One signed-in device: its name, where it was last seen, and the buttons that rename it and sign it
/// out; or the form that renames it.
fn session_row(
    ctx: &ChromeContext,
    s: &Session,
    is_current: bool,
    now: &Timestamp,
    mode: SectionMode,
) -> (m: Markup)
    ensures
        m@ == session_row_html(ctx, s, is_current, now, mode),
{
    let id = s.id;
    let ua = agent(s);
    let auto = display::device_label(ua);
    let custom = custom_label(s);
    if mode == SectionMode::Renaming(id) {
        Template::new(SESSION_RENAMING)
            .uuid(id)
            .html(&shell::csrf_input(ctx.csrf_token))
            .html(&match &custom {
                Some(l) => Template::new(VALUE_ATTRIBUTE).text(l.as_str()).done(),
                None => Markup::empty(),
            })
            .text(auto.as_str())
            .done()
    } else {
        Template::new(SESSION_ROW)
            .html(&if display::device_is_mobile(ua) {
                Markup::raw(DEVICE_MOBILE_ICON)
            } else {
                Markup::raw(LAPTOP_ICON)
            })
            .text(match &custom {
                Some(l) => l.as_str(),
                None => auto.as_str(),
            })
            .when(is_current, SESSION_CURRENT)
            .html(&if custom.is_some() {
                Template::new(SESSION_DETAIL)
                    .text(auto.as_str())
                    .done()
            } else {
                Markup::empty()
            })
            .html(&match &s.ip_address {
                Some(ip) => Template::new(SESSION_DETAIL).text(ip.as_str()).done(),
                None => Markup::empty(),
            })
            .html(&match &s.last_seen_at {
                Some(seen) => Template::new(SESSION_LAST_ACTIVE)
                    .text(display::relative_time(seen, now).as_str())
                    .done(),
                None => Template::new(SESSION_SIGNED_IN)
                    .date(&s.created_at, model::SHORT_DATE)
                    .done(),
            })
            .uuid(id)
            .raw(PENCIL_ICON)
            .html(&if !is_current {
                Template::new(SESSION_SIGN_OUT)
                    .uuid(id)
                    .uuid(id)
                    .html(&shell::csrf_input(ctx.csrf_token))
                    .done()
            } else {
                Markup::empty()
            })
            .done()
    }
}

pub open spec fn session_rows_html(sessions: Seq<Session>, ctx: &ChromeContext, current: Uuid, now: &Timestamp, mode: SectionMode) -> Seq<char>
    decreases sessions.len(),
{
    if sessions.len() == 0 {
        Seq::empty()
    } else {
        let s = sessions.last();
        session_rows_html(sessions.drop_last(), ctx, current, now, mode) + session_row_html(ctx, &s, s.id == current, now, mode)
    }
}

fn session_rows(sessions: &[Session], ctx: &ChromeContext, current: Uuid, now: &Timestamp, mode: SectionMode) -> (m: Markup)
    ensures
        m@ == session_rows_html(sessions@, ctx, current, now, mode),
{
    let mut out = Markup::empty();
    let mut i: usize = 0;
    while i < sessions.len()
        invariant
            i <= sessions@.len(),
            out@ == session_rows_html(sessions@.take(i as int), ctx, current, now, mode),
        decreases sessions@.len() - i,
    {
        let s = &sessions[i];
        let row = session_row(ctx, s, s.id == current, now, mode);
        out = out.then_html(&row);
        i += 1;
        assert(sessions@.take(i as int).drop_last() =~= sessions@.take(i - 1));
    }
    assert(sessions@.take(i as int) =~= sessions@);
    out
}

/// Whether a list holds a session other than `current`.
pub open spec fn has_others(sessions: Seq<Session>, current: Uuid) -> bool {
    exists|i: int| 0 <= i < sessions.len() && (#[trigger] sessions[i]).id != current
}

fn any_other(sessions: &[Session], current: Uuid) -> (r: bool)
    ensures
        r == has_others(sessions@, current),
{
    let mut i: usize = 0;
    while i < sessions.len()
        invariant
            i <= sessions@.len(),
            forall|k: int| 0 <= k < i ==> (#[trigger] sessions@[k]).id == current,
        decreases sessions@.len() - i,
    {
        if sessions[i].id != current {
            return true;
        }
        i += 1;
    }
    false
}

pub const SESSIONS_SECTION: &'static str = "\
    <section id=\"devices-section\" class=\"settings-section\"¤>\
      <div class=\"settings-section-header settings-section-header-actions\">\
        <div class=\"settings-section-heading\">\
          <span class=\"settings-section-icon\" aria-hidden=\"true\">¤</span>\
          <div>\
            <h3>Devices</h3>\
            <p class=\"settings-section-tagline\">Browsers and devices signed in to your \
              account.</p>\
          </div>\
        </div>¤\
      </div>\
      <div class=\"settings-section-body\">\
        <ul class=\"totp-list\">¤</ul>\
        <div class=\"settings-info\">\
          <span class=\"settings-info-icon\" aria-hidden=\"true\">¤</span>\
          <div>\
            <h4>Don't recognise a device?</h4>\
            <p>Sign it out, then change your password. Signing a device out ends its \
              session immediately — it has to sign in again with your password and any \
              second factor.</p>\
          </div>\
        </div>\
      </div>\
    </section>";

pub const SESSIONS_SIGN_OUT_OTHERS: &'static str = "\
    <form method=\"post\" action=\"/me/sessions/revoke-others\" \
      hx-post=\"/me/sessions/revoke-others\" hx-target=\"#devices-section\" \
      hx-swap=\"outerHTML\" style=\"display:contents\">¤\
      <button type=\"submit\" class=\"btn-secondary\">Sign out all other devices</button>\
    </form>";

/// The HTML of [`sessions_section`].
pub open spec fn sessions_section_html(
    ctx: &ChromeContext,
    sessions: Seq<Session>,
    current_session_id: Uuid,
    now: &Timestamp,
    mode: SectionMode,
    oob: bool,
) -> Seq<char> {
    html::template(SESSIONS_SECTION@)
        .when(oob, " hx-swap-oob=\"true\""@)
        .html(LAPTOP_ICON@)
        .html(if has_others(sessions, current_session_id) {
            html::template(SESSIONS_SIGN_OUT_OTHERS@)
                .html(shell::csrf_input_html(ctx.csrf_token@))
                .done()
        } else {
            Seq::empty()
        })
        .html(session_rows_html(sessions, ctx, current_session_id, now, mode))
        .html(INFO_ICON@)
        .done()
}

/// The signed-in devices of an account.
pub fn sessions_section(
    ctx: &ChromeContext,
    sessions: &[Session],
    current_session_id: Uuid,
    now: &Timestamp,
    mode: SectionMode,
    oob: bool,
) -> (m: Markup)
    ensures
        m@ == sessions_section_html(ctx, sessions@, current_session_id, now, mode, oob),
{
    Template::new(SESSIONS_SECTION)
        .when(oob, " hx-swap-oob=\"true\"")
        .raw(LAPTOP_ICON)
        .html(&if any_other(sessions, current_session_id) {
            Template::new(SESSIONS_SIGN_OUT_OTHERS)
                .html(&shell::csrf_input(ctx.csrf_token))
                .done()
        } else {
            Markup::empty()
        })
        .html(&session_rows(sessions, ctx, current_session_id, now, mode))
        .raw(INFO_ICON)
        .done()
}

} // verus!
