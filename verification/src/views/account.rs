//! A user's own account: profile, identity checks and closing it.

use vstd::prelude::*;
use crate::html;
use crate::html::{Markup, Template};
use crate::model;
use crate::model::{
    Session, Timestamp, TotpCredential, UserLifecycle, UserRecoveryCodeRow, Uuid,
    WebauthnCredentialRow,
};
use crate::text;
use crate::views::security;
use crate::views::security::{FactorLimits, SectionMode};
use crate::views::shell;
use crate::views::shell::{ChromeContext, PageId};
use crate::views::icons::{
    ALERT_CIRCLE_ICON, CHECK_CIRCLE_ICON, CLOSE_ICON, DATABASE_ICON, FINGERPRINT_ICON,
    INCOGNITO_ICON, LAPTOP_ICON, SETTINGS_ICON, SHIELD_ICON, SIGNOUT_ICON, TRASH_ICON, USER_ICON,
};

verus! {

pub const ME_PAGE: &'static str = "\
    <div class=\"card me-card\">\
      <dl class=\"meta\">\
        <dt>Email</dt>\
        <dd>¤</dd>\
        <dt>Role</dt>\
        <dd>¤</dd>\
        <dt>Status</dt>\
        <dd>¤</dd>\
      </dl>\
      <div class=\"me-actions\">\
        <button type=\"button\" class=\"btn\" \
          data-open-modal=\"/modals/account-settings\">Manage account</button>\
      </div>\
    </div>";

/// The HTML of [`me_page`].
pub open spec fn me_page_html(ctx: &ChromeContext) -> Seq<char> {
    let user = ctx.user;
    let lifecycle_label = match user.lifecycle {
        UserLifecycle::Active => "Active",
        UserLifecycle::Deactivated => "Deactivated",
        UserLifecycle::PendingInvite => "Pending invitation",
        UserLifecycle::Anonymized => "Anonymized",
    };
    let content = html::template(ME_PAGE@)
        .text(user.email@)
        .text(shell::role_label_text(user.instance_role))
        .text(lifecycle_label@)
        .done();
    shell::shell_app_html(ctx, "Your account"@, PageId::Profile, content)
}

/// `GET /me`: the signed-in user's account at a glance.
pub fn me_page(ctx: &ChromeContext) -> (m: Markup)
    ensures
        m@ == me_page_html(ctx),
{
    let user = ctx.user;
    let lifecycle_label: &str = match user.lifecycle {
        UserLifecycle::Active => "Active",
        UserLifecycle::Deactivated => "Deactivated",
        UserLifecycle::PendingInvite => "Pending invitation",
        UserLifecycle::Anonymized => "Anonymized",
    };
    let content = Template::new(ME_PAGE)
        .text(user.email.as_str())
        .text(shell::role_label(user.instance_role))
        .text(lifecycle_label)
        .done();
    shell::shell_app(ctx, "Your account", PageId::Profile, &content)
}

pub const REAUTH_MODAL: &'static str = "\
    <dialog id=\"dlg-reauth\" class=\"action-dialog reauth-dialog\"¤>\
      <div id=\"reauth-modal-content\">¤</div>\
    </dialog>";

/// The HTML of [`reauth_modal`].
pub open spec fn reauth_modal_html(
    ctx: &ChromeContext,
    has_totp: bool,
    has_passkey: bool,
    fresh: bool,
    critical: bool,
) -> Seq<char> {
    html::template(REAUTH_MODAL@)
        .when(fresh && !critical, " data-sudo-fresh=\"1\""@)
        .html(reauth_modal_content_html(ctx, has_totp, has_passkey, None, critical))
        .done()
}

/// The dialog that confirms who is at the keyboard. Where the user did so a moment ago and the action
/// is not critical, it tells the browser to go on without asking.
pub fn reauth_modal(
    ctx: &ChromeContext,
    has_totp: bool,
    has_passkey: bool,
    fresh: bool,
    critical: bool,
) -> (m: Markup)
    ensures
        m@ == reauth_modal_html(ctx, has_totp, has_passkey, fresh, critical),
{
    Template::new(REAUTH_MODAL)
        .when(fresh && !critical, " data-sudo-fresh=\"1\"")
        .html(&reauth_modal_content(ctx, has_totp, has_passkey, None, critical))
        .done()
}

pub const REAUTH_PASSKEY: &'static str = "\
    <div class=\"reauth-view\" data-reauth-view=\"passkey\"¤>\
      <div class=\"dialog-header\">\
        <div class=\"dialog-icon dialog-icon-passkey\">¤</div>\
        <button type=\"button\" class=\"dialog-close\" data-close-dialog \
          aria-label=\"Close\">¤</button>\
      </div>\
      <h2 class=\"dialog-center-title\">Confirm it's you</h2>\
      <p class=\"dialog-description dialog-center-text\">Use your passkey to continue.</p>\
      <form id=\"form-reauth-passkey\" hx-post=\"/me/reauth\" \
        hx-target=\"#reauth-modal-content\" hx-swap=\"innerHTML\">¤¤\
        <input type=\"hidden\" name=\"challenge_id\">\
        <input type=\"hidden\" name=\"passkey\">\
      </form>¤\
      <button type=\"button\" class=\"btn login-passkey-btn reauth-passkey-btn\" \
        data-passkey-auth=\"/me/reauth/passkey/start\" \
        data-passkey-form=\"form-reauth-passkey\">Verify with passkey</button>¤\
    </div>";

pub const REAUTH_CRITICAL: &'static str = "<input type=\"hidden\" name=\"critical\" value=\"1\">";

pub const REAUTH_PASSKEY_ERROR: &'static str = "<p class=\"error\" id=\"passkey-error\">¤</p>";

pub const REAUTH_PASSKEY_NO_ERROR: &'static str = "\
    <p class=\"error\" id=\"passkey-error\" hidden></p>";

pub const REAUTH_USE_PASSWORD: &'static str = "\
    <button type=\"button\" class=\"reauth-switch-link\" data-reauth-show-password>Use \
      password instead</button>";

pub const REAUTH_PASSKEY_ONLY: &'static str = "\
    <p class=\"muted reauth-note\">Lost access to your passkey? Sign out and use your \
      saved recovery code to get back in.</p>";

pub const REAUTH_PASSWORD: &'static str = "\
    <div class=\"reauth-view\" data-reauth-view=\"password\"¤>\
      <div class=\"dialog-header\">\
        <div class=\"dialog-icon dialog-icon-shield\">¤</div>\
        <button type=\"button\" class=\"dialog-close\" data-close-dialog \
          aria-label=\"Close\">¤</button>\
      </div>\
      <h2 class=\"dialog-center-title\">Confirm it's you</h2>\
      <p class=\"dialog-description dialog-center-text\">¤</p>¤\
      <form id=\"form-reauth\" hx-post=\"/me/reauth\" hx-target=\"#reauth-modal-content\" \
        hx-swap=\"innerHTML\">¤¤\
        <div class=\"field\">\
          <label for=\"reauth-password\">Password</label>\
          <input type=\"password\" id=\"reauth-password\" name=\"password\" \
            autocomplete=\"current-password\" required>\
        </div>¤\
        <div class=\"dialog-actions\">\
          <button type=\"button\" class=\"btn-secondary\" data-close-dialog>Cancel</button>\
          <button type=\"submit\" class=\"btn\">Verify</button>\
        </div>\
      </form>¤\
    </div>";

pub const REAUTH_INTRO_CODE: &'static str = "\
    Enter your password and authenticator code to continue.";

pub const REAUTH_INTRO: &'static str = "Enter your password to continue.";

pub const REAUTH_ERROR: &'static str = "<p class=\"error\">¤</p>";

pub const REAUTH_CODE: &'static str = "\
    <div class=\"field\">\
      <label for=\"reauth-code\">Authenticator code</label>\
      <input type=\"text\" id=\"reauth-code\" name=\"code\" inputmode=\"numeric\" \
        autocomplete=\"one-time-code\" pattern=\"[0-9]*\" maxlength=\"6\" required>\
    </div>";

pub const REAUTH_USE_PASSKEY: &'static str = "\
    <button type=\"button\" class=\"reauth-switch-link\" data-reauth-show-passkey>Use a \
      passkey instead</button>";

/// The HTML of [`reauth_modal_content`].
pub open spec fn reauth_modal_content_html(
    ctx: &ChromeContext,
    has_totp: bool,
    has_passkey: bool,
    error: Option<Seq<char>>,
    critical: bool,
) -> Seq<char> {
    let show_password = !has_passkey || has_totp;
    let passkey_default = has_passkey && (error is None || !show_password);
    (if has_passkey {
        html::template(REAUTH_PASSKEY@)
            .when(!passkey_default, " hidden"@)
            .html(FINGERPRINT_ICON@)
            .html(CLOSE_ICON@)
            .html(shell::csrf_input_html(ctx.csrf_token@))
            .when(critical, REAUTH_CRITICAL@)
            .html(match error {
                Some(msg) => html::template(REAUTH_PASSKEY_ERROR@)
                    .text(msg)
                    .done(),
                None => REAUTH_PASSKEY_NO_ERROR@,
            })
            .html(if show_password {
                REAUTH_USE_PASSWORD@
            } else {
                REAUTH_PASSKEY_ONLY@
            })
            .done()
    } else {
        Seq::empty()
    }) + (if show_password {
        html::template(REAUTH_PASSWORD@)
            .when(passkey_default, " hidden"@)
            .html(SHIELD_ICON@)
            .html(CLOSE_ICON@)
            .html(if has_totp {
                REAUTH_INTRO_CODE@
            } else {
                REAUTH_INTRO@
            })
            .html(match error {
                Some(msg) => html::template(REAUTH_ERROR@)
                    .text(msg)
                    .done(),
                None => Seq::empty(),
            })
            .html(shell::csrf_input_html(ctx.csrf_token@))
            .when(critical, REAUTH_CRITICAL@)
            .when(has_totp, REAUTH_CODE@)
            .when(has_passkey, REAUTH_USE_PASSKEY@)
            .done()
    } else {
        Seq::empty()
    })
}

/// The content of the identity dialog. A user with a passkey is offered it first; the password form is
/// offered to users without one and to those who also have an authenticator app.
pub fn reauth_modal_content(
    ctx: &ChromeContext,
    has_totp: bool,
    has_passkey: bool,
    error: Option<&str>,
    critical: bool,
) -> (m: Markup)
    ensures
        m@ == reauth_modal_content_html(ctx, has_totp, has_passkey, text::opt(error), critical),
{
    let show_password: bool = !has_passkey || has_totp;
    let passkey_default: bool = has_passkey && (error.is_none() || !show_password);
    (if has_passkey {
        Template::new(REAUTH_PASSKEY)
            .when(!passkey_default, " hidden")
            .raw(FINGERPRINT_ICON)
            .raw(CLOSE_ICON)
            .html(&shell::csrf_input(ctx.csrf_token))
            .when(critical, REAUTH_CRITICAL)
            .html(&match error {
                Some(msg) => Template::new(REAUTH_PASSKEY_ERROR)
                    .text(msg)
                    .done(),
                None => Markup::raw(REAUTH_PASSKEY_NO_ERROR),
            })
            .html(&if show_password {
                Markup::raw(REAUTH_USE_PASSWORD)
            } else {
                Markup::raw(REAUTH_PASSKEY_ONLY)
            })
            .done()
    } else {
        Markup::empty()
    })
        .then_html(&(if show_password {
            Template::new(REAUTH_PASSWORD)
                .when(passkey_default, " hidden")
                .raw(SHIELD_ICON)
                .raw(CLOSE_ICON)
                .html(&if has_totp {
                    Markup::raw(REAUTH_INTRO_CODE)
                } else {
                    Markup::raw(REAUTH_INTRO)
                })
                .html(&match error {
                    Some(msg) => Template::new(REAUTH_ERROR)
                        .text(msg)
                        .done(),
                    None => Markup::empty(),
                })
                .html(&shell::csrf_input(ctx.csrf_token))
                .when(critical, REAUTH_CRITICAL)
                .when(has_totp, REAUTH_CODE)
                .when(has_passkey, REAUTH_USE_PASSKEY)
                .done()
        } else {
            Markup::empty()
        }))
}

/// How saving a form went, shown above it.
pub enum SettingsFeedback {
    Success(String),
    Error(String),
}

/// The content of a [`SettingsFeedback`].
pub enum FeedbackText {
    Success(Seq<char>),
    Error(Seq<char>),
}

impl View for SettingsFeedback {
    type V = FeedbackText;

    open spec fn view(&self) -> FeedbackText {
        match *self {
            SettingsFeedback::Success(msg) => FeedbackText::Success(msg@),
            SettingsFeedback::Error(msg) => FeedbackText::Error(msg@),
        }
    }
}

pub const FEEDBACK_SUCCESS: &'static str = "\
    <div class=\"settings-feedback settings-feedback-success\" role=\"status\">¤\
      <span>¤</span>\
    </div>";

pub const FEEDBACK_ERROR: &'static str = "\
    <div class=\"settings-feedback settings-feedback-error\" role=\"alert\">¤\
      <span>¤</span>\
    </div>";

/// The HTML of [`settings_feedback_tile`].
pub open spec fn settings_feedback_tile_html(fb: FeedbackText) -> Seq<char> {
    match fb {
        FeedbackText::Success(msg) => html::template(FEEDBACK_SUCCESS@)
            .html(CHECK_CIRCLE_ICON@)
            .text(msg)
            .done(),
        FeedbackText::Error(msg) => html::template(FEEDBACK_ERROR@)
            .html(ALERT_CIRCLE_ICON@)
            .text(msg)
            .done(),
    }
}

/// How saving a form went.
fn settings_feedback_tile(fb: &SettingsFeedback) -> (m: Markup)
    ensures
        m@ == settings_feedback_tile_html(fb@),
{
    match fb {
        SettingsFeedback::Success(msg) => Template::new(FEEDBACK_SUCCESS)
            .raw(CHECK_CIRCLE_ICON)
            .text(msg.as_str())
            .done(),
        SettingsFeedback::Error(msg) => Template::new(FEEDBACK_ERROR)
            .raw(ALERT_CIRCLE_ICON)
            .text(msg.as_str())
            .done(),
    }
}

pub const SETTINGS_NAME_FORM: &'static str = "\
    ¤\
    <form id=\"form-settings-name\" class=\"settings-row\" method=\"post\" \
      action=\"/me/profile\" hx-post=\"/me/profile\" hx-target=\"#form-settings-name-wrap\" \
      hx-swap=\"innerHTML\">¤\
      <div class=\"settings-row-label\">\
        <label for=\"settings-display-name\">Display name</label>\
        <p class=\"settings-row-hint\">How you appear to others on this instance.</p>\
      </div>\
      <div class=\"settings-row-control\">\
        <input type=\"text\" id=\"settings-display-name\" name=\"display_name\" value=\"¤\" \
          autocomplete=\"name\" required>\
        <div class=\"settings-row-actions\">\
          <button type=\"submit\" class=\"btn-secondary\">Save</button>\
        </div>\
      </div>\
    </form>";

/// The HTML of [`settings_name_form`].
pub open spec fn settings_name_form_html(
    ctx: &ChromeContext,
    feedback: Option<FeedbackText>,
) -> Seq<char> {
    let user = ctx.user;
    html::template(SETTINGS_NAME_FORM@)
        .html(match feedback {
            Some(fb) => settings_feedback_tile_html(fb),
            None => Seq::empty(),
        })
        .html(shell::csrf_input_html(ctx.csrf_token@))
        .text(user.display_name@)
        .done()
}

/// The display-name row of the account settings, with how the last save went.
pub fn settings_name_form(ctx: &ChromeContext, feedback: Option<&SettingsFeedback>) -> (m: Markup)
    ensures
        m@ == settings_name_form_html(
            ctx,
            match feedback {
                Some(fb) => Some(fb@),
                None => None,
            },
        ),
{
    let user = ctx.user;
    Template::new(SETTINGS_NAME_FORM)
        .html(&match feedback {
            Some(fb) => settings_feedback_tile(fb),
            None => Markup::empty(),
        })
        .html(&shell::csrf_input(ctx.csrf_token))
        .text(user.display_name.as_str())
        .done()
}

pub const SETTINGS_EMAIL_FORM: &'static str = "\
    <form id=\"form-settings-email\" class=\"settings-row\" method=\"post\" \
      action=\"/me/email\">¤\
      <div class=\"settings-row-label\">\
        <label for=\"settings-email\">Email address</label>\
        <p class=\"settings-row-hint\">The address you sign in with.</p>\
      </div>\
      <div class=\"settings-row-control\">\
        <input type=\"email\" id=\"settings-email\" name=\"email\" value=\"¤\" \
          autocomplete=\"email\" required>\
        <div class=\"settings-row-actions\">\
          <button type=\"button\" class=\"btn-secondary\" \
            data-reauth-confirm=\"form-settings-email\">Update email</button>\
        </div>\
      </div>\
    </form>";

/// The HTML of [`settings_email_form`].
pub open spec fn settings_email_form_html(ctx: &ChromeContext) -> Seq<char> {
    let user = ctx.user;
    html::template(SETTINGS_EMAIL_FORM@)
        .html(shell::csrf_input_html(ctx.csrf_token@))
        .text(user.email@)
        .done()
}

/// The email row of the account settings.
pub fn settings_email_form(ctx: &ChromeContext) -> (m: Markup)
    ensures
        m@ == settings_email_form_html(ctx),
{
    let user = ctx.user;
    Template::new(SETTINGS_EMAIL_FORM)
        .html(&shell::csrf_input(ctx.csrf_token))
        .text(user.email.as_str())
        .done()
}

pub const SETTINGS_PROFILE_PANEL: &'static str = "\
    <section class=\"settings-section\">\
      <div class=\"settings-section-header\">\
        <span class=\"settings-section-icon\" aria-hidden=\"true\">¤</span>\
        <div>\
          <h3>Account Information</h3>\
          <p class=\"settings-section-tagline\">Manage your identity and sign-in \
            credentials.</p>\
        </div>\
      </div>\
      <div class=\"settings-section-body\">\
        <div id=\"form-settings-name-wrap\">¤</div>\
        <div class=\"settings-row-divider\"></div>\
        <div id=\"form-settings-email-wrap\">¤</div>\
      </div>\
    </section>";

/// The HTML of [`settings_profile_panel`].
pub open spec fn settings_profile_panel_html(ctx: &ChromeContext) -> Seq<char> {
    html::template(SETTINGS_PROFILE_PANEL@)
        .html(USER_ICON@)
        .html(settings_name_form_html(ctx, None))
        .html(settings_email_form_html(ctx))
        .done()
}

/// The profile tab of the account settings.
fn settings_profile_panel(ctx: &ChromeContext) -> (m: Markup)
    ensures
        m@ == settings_profile_panel_html(ctx),
{
    Template::new(SETTINGS_PROFILE_PANEL)
        .raw(USER_ICON)
        .html(&settings_name_form(ctx, None))
        .html(&settings_email_form(ctx))
        .done()
}

pub const RECOVERY_STATUS: &'static str = "<div id=\"recovery-status\"¤>¤</div>";

pub const RECOVERY_GENERATED: &'static str = "<p class=\"settings-row-hint\">Generated ¤. ¤</p>";

pub const RECOVERY_LAST_USED: &'static str = "Last used ¤.";

pub const RECOVERY_NEVER_USED: &'static str = "Never used.";

pub const RECOVERY_NONE: &'static str = "\
    <p class=\"settings-row-hint\">No recovery code on file. Generate one now so you can \
      recover this account later.</p>";

/// The HTML of [`recovery_status`].
pub open spec fn recovery_status_html(
    recovery_meta: Option<&UserRecoveryCodeRow>,
    oob: bool,
) -> Seq<char> {
    html::template(RECOVERY_STATUS@)
        .when(oob, " hx-swap-oob=\"true\""@)
        .html(match recovery_meta {
            Some(meta) => html::template(RECOVERY_GENERATED@)
                .date(meta.generated_at@, model::SHORT_DATE@)
                .html(match meta.last_used_at {
                    Some(used) => html::template(RECOVERY_LAST_USED@)
                        .date(used@, model::SHORT_DATE@)
                        .done(),
                    None => RECOVERY_NEVER_USED@,
                })
                .done(),
            None => RECOVERY_NONE@,
        })
        .done()
}

/// When the recovery code was made and last used; `oob` makes it replace the one on the page.
pub fn recovery_status(recovery_meta: Option<&UserRecoveryCodeRow>, oob: bool) -> (m: Markup)
    ensures
        m@ == recovery_status_html(recovery_meta, oob),
{
    Template::new(RECOVERY_STATUS)
        .when(oob, " hx-swap-oob=\"true\"")
        .html(&match recovery_meta {
            Some(meta) => Template::new(RECOVERY_GENERATED)
                .date(&meta.generated_at, model::SHORT_DATE)
                .html(&match meta.last_used_at {
                    Some(used) => Template::new(RECOVERY_LAST_USED)
                        .date(&used, model::SHORT_DATE)
                        .done(),
                    None => Markup::raw(RECOVERY_NEVER_USED),
                })
                .done(),
            None => Markup::raw(RECOVERY_NONE),
        })
        .done()
}

pub const CLOSE_DELETE_TAGLINE: &'static str = "\
    Permanently erase your account and everything you created across the ecosystem.";

pub const CLOSE_DELETE_HINT: &'static str = "\
    Everything tied to your account is removed from the server, even data shared with \
    others. This cannot be undone.";

pub const CLOSE_DELETE_LEAD: &'static str = "\
    Everything you created across the ecosystem is permanently removed, even data shared \
    with others, leaving no trace of your footprint. Your account becomes inaccessible \
    right away.";

pub const CLOSE_DELETE_ALERT: &'static str = "\
    This permanently deletes your account and all of its data. It cannot be undone.";

pub const CLOSE_ANONYMIZE_TAGLINE: &'static str = "\
    Close your account and strip your personal information, leaving anything you took \
    part in under a closed account.";

pub const CLOSE_ANONYMIZE_HINT: &'static str = "\
    Your sign-in is removed and the account can't be reopened; your data stays in place, \
    no longer linked to you. This cannot be undone.";

pub const CLOSE_ANONYMIZE_LEAD: &'static str = "\
    Your account is closed and your personal information is removed from it. Anything \
    you took part in stays in place under a closed account, no longer linked to you. \
    Your account becomes inaccessible right away.";

pub const CLOSE_ANONYMIZE_ALERT: &'static str = "\
    This permanently closes your account. It cannot be undone.";

/// The texts of a way to close an account.
pub struct CloseTexts {
    pub slug: &'static str,
    pub section_title: &'static str,
    pub tagline: &'static str,
    pub hint: &'static str,
    pub label: &'static str,
    pub modal: &'static str,
    pub action: &'static str,
    pub title: &'static str,
    pub lead: &'static str,
    pub alert: &'static str,
}

pub open spec fn close_texts_of(delete_mode: bool) -> CloseTexts {
    if delete_mode {
        CloseTexts {
            slug: "delete",
            section_title: "Delete my account",
            tagline: CLOSE_DELETE_TAGLINE,
            hint: CLOSE_DELETE_HINT,
            label: "Delete my account",
            modal: "/modals/account/delete",
            action: "/me/account/delete",
            title: "Delete your account",
            lead: CLOSE_DELETE_LEAD,
            alert: CLOSE_DELETE_ALERT,
        }
    } else {
        CloseTexts {
            slug: "anonymize",
            section_title: "Anonymize my account",
            tagline: CLOSE_ANONYMIZE_TAGLINE,
            hint: CLOSE_ANONYMIZE_HINT,
            label: "Anonymize my account",
            modal: "/modals/account/anonymize",
            action: "/me/account/anonymize",
            title: "Anonymize your account",
            lead: CLOSE_ANONYMIZE_LEAD,
            alert: CLOSE_ANONYMIZE_ALERT,
        }
    }
}

fn close_texts(delete_mode: bool) -> (r: CloseTexts)
    ensures
        r == close_texts_of(delete_mode),
{
    if delete_mode {
        CloseTexts {
            slug: "delete",
            section_title: "Delete my account",
            tagline: CLOSE_DELETE_TAGLINE,
            hint: CLOSE_DELETE_HINT,
            label: "Delete my account",
            modal: "/modals/account/delete",
            action: "/me/account/delete",
            title: "Delete your account",
            lead: CLOSE_DELETE_LEAD,
            alert: CLOSE_DELETE_ALERT,
        }
    } else {
        CloseTexts {
            slug: "anonymize",
            section_title: "Anonymize my account",
            tagline: CLOSE_ANONYMIZE_TAGLINE,
            hint: CLOSE_ANONYMIZE_HINT,
            label: "Anonymize my account",
            modal: "/modals/account/anonymize",
            action: "/me/account/anonymize",
            title: "Anonymize your account",
            lead: CLOSE_ANONYMIZE_LEAD,
            alert: CLOSE_ANONYMIZE_ALERT,
        }
    }
}

pub const ACCOUNT_CLOSE_SECTION: &'static str = "\
    <section class=\"settings-section settings-section-danger\">\
      <div class=\"settings-section-header\">\
        <span class=\"settings-section-icon\" aria-hidden=\"true\">¤</span>\
        <div>\
          <h3>¤</h3>\
          <p class=\"settings-section-tagline\">¤</p>\
        </div>\
      </div>\
      <div class=\"settings-section-body\">\
        <div class=\"settings-danger-row\">\
          <p class=\"settings-row-hint\">¤</p>¤\
        </div>\
      </div>\
    </section>";

pub const ACCOUNT_CLOSE_LOCKED: &'static str = "\
    <p class=\"settings-row-note\">You're the last owner. Transfer ownership to someone \
      first (Members → ⋯ → Change role → Owner), then you can close your account.</p>\
    <div class=\"settings-row-actions\">\
      <button type=\"button\" class=\"btn-danger-ghost\" disabled>¤</button>\
    </div>";

pub const ACCOUNT_CLOSE_OPEN: &'static str = "\
    <div class=\"settings-row-actions\">\
      <button type=\"button\" class=\"btn-danger-ghost\" data-open-modal=\"¤\">¤</button>\
    </div>";

/// The HTML of [`account_close_section`].
pub open spec fn account_close_section_html(delete_mode: bool, blocked: bool) -> Seq<char> {
    let t = close_texts_of(delete_mode);
    html::template(ACCOUNT_CLOSE_SECTION@)
        .html(if delete_mode {
            TRASH_ICON@
        } else {
            INCOGNITO_ICON@
        })
        .text(t.section_title@)
        .text(t.tagline@)
        .text(t.hint@)
        .html(if blocked {
            html::template(ACCOUNT_CLOSE_LOCKED@)
                .text(t.label@)
                .done()
        } else {
            html::template(ACCOUNT_CLOSE_OPEN@)
                .text(t.modal@)
                .text(t.label@)
                .done()
        })
        .done()
}

/// The part of the account settings that closes the account; locked for the last owner.
fn account_close_section(delete_mode: bool, blocked: bool) -> (m: Markup)
    ensures
        m@ == account_close_section_html(delete_mode, blocked),
{
    let t = close_texts(delete_mode);
    Template::new(ACCOUNT_CLOSE_SECTION)
        .html(&if delete_mode {
            Markup::raw(TRASH_ICON)
        } else {
            Markup::raw(INCOGNITO_ICON)
        })
        .text(t.section_title)
        .text(t.tagline)
        .text(t.hint)
        .html(&if blocked {
            Template::new(ACCOUNT_CLOSE_LOCKED)
                .text(t.label)
                .done()
        } else {
            Template::new(ACCOUNT_CLOSE_OPEN)
                .text(t.modal)
                .text(t.label)
                .done()
        })
        .done()
}

pub const ACCOUNT_CLOSE_BLOCKED_CONTENT: &'static str = "\
    <div class=\"dialog-header\">\
      <div class=\"dialog-icon dialog-alert\">¤</div>\
      <button type=\"button\" class=\"dialog-close\" data-close-dialog \
        aria-label=\"Close\">¤</button>\
    </div>\
    <h2 class=\"dialog-center-title\">Transfer ownership first</h2>\
    <p class=\"dialog-description dialog-center-text\">You're the last owner of this \
      server. Make someone else an owner (Members → ⋯ → Change role → Owner) before you \
      close your account, so the instance isn't left without an administrator.</p>\
    <div class=\"dialog-actions dialog-actions-centered\">\
      <button type=\"button\" class=\"btn\" data-close-dialog>Got it</button>\
    </div>";

/// The HTML of [`account_close_blocked_content`].
pub open spec fn account_close_blocked_content_html() -> Seq<char> {
    html::template(ACCOUNT_CLOSE_BLOCKED_CONTENT@)
        .html(ALERT_CIRCLE_ICON@)
        .html(CLOSE_ICON@)
        .done()
}

/// Tells the last owner why their account cannot be closed.
pub fn account_close_blocked_content() -> (m: Markup)
    ensures
        m@ == account_close_blocked_content_html(),
{
    Template::new(ACCOUNT_CLOSE_BLOCKED_CONTENT)
        .raw(ALERT_CIRCLE_ICON)
        .raw(CLOSE_ICON)
        .done()
}

pub const ACCOUNT_CLOSE_BLOCKED_DIALOG: &'static str = "\
    <dialog id=\"dlg-account-¤\" class=\"action-dialog action-dialog-centered\">¤</dialog>";

pub const ACCOUNT_CLOSE_DIALOG: &'static str = "\
    <dialog id=\"dlg-account-¤\" class=\"action-dialog action-dialog-centered\">\
      <form id=\"¤\" method=\"post\" action=\"¤\">\
        <div class=\"dialog-header\">\
          <div class=\"dialog-icon dialog-icon-danger\">¤</div>\
          <button type=\"button\" class=\"dialog-close\" data-close-dialog \
            aria-label=\"Close\">¤</button>\
        </div>\
        <h2 class=\"dialog-center-title\">¤</h2>\
        <p class=\"dialog-description dialog-center-text\">¤</p>\
        <div class=\"dialog-alert dialog-alert-danger\" role=\"alert\">¤\
          <span>¤</span>\
        </div>¤\
        <label class=\"confirm-checkbox-field\">\
          <input type=\"checkbox\" class=\"member-checkbox\" data-close-ack>\
          <span>I understand this is permanent and that I won't be able to sign in again.</span>\
        </label>\
        <div class=\"field confirm-name-field\">\
          <label for=\"¤\">Type your email \
            <strong>&quot;¤&quot;</strong> to confirm\
          </label>\
          <input type=\"text\" id=\"¤\" data-close-email=\"¤\" autocomplete=\"off\" \
            spellcheck=\"false\" autocapitalize=\"off\">\
        </div>\
        <div class=\"dialog-actions\">\
          <button type=\"button\" class=\"btn-secondary\" data-close-dialog>Cancel</button>\
          <button type=\"button\" class=\"btn-danger\" data-reauth-confirm=\"¤\" \
            data-reauth-critical disabled>¤</button>\
        </div>\
      </form>\
    </dialog>";

/// The HTML of [`account_close_modal`].
pub open spec fn account_close_modal_html(
    ctx: &ChromeContext,
    delete_mode: bool,
    blocked: bool,
) -> Seq<char> {
    let t = close_texts_of(delete_mode);
    if blocked {
        html::template(ACCOUNT_CLOSE_BLOCKED_DIALOG@)
            .text(t.slug@)
            .html(account_close_blocked_content_html())
            .done()
    } else {
        html::template(ACCOUNT_CLOSE_DIALOG@)
            .text(t.slug@)
            .text("form-account-"@ + t.slug@)
            .text(t.action@)
            .html(if delete_mode {
                TRASH_ICON@
            } else {
                INCOGNITO_ICON@
            })
            .html(CLOSE_ICON@)
            .text(t.title@)
            .text(t.lead@)
            .html(ALERT_CIRCLE_ICON@)
            .text(t.alert@)
            .html(shell::csrf_input_html(ctx.csrf_token@))
            .text("confirm-email-"@ + t.slug@)
            .text(ctx.user.email@)
            .text("confirm-email-"@ + t.slug@)
            .text(ctx.user.email@)
            .text("form-account-"@ + t.slug@)
            .text(t.label@)
            .done()
    }
}

/// The dialog that closes an account; it asks for a tick and for the email before its button works.
pub fn account_close_modal(ctx: &ChromeContext, delete_mode: bool, blocked: bool) -> (m: Markup)
    ensures
        m@ == account_close_modal_html(ctx, delete_mode, blocked),
{
    let t = close_texts(delete_mode);
    if blocked {
        Template::new(ACCOUNT_CLOSE_BLOCKED_DIALOG)
            .text(t.slug)
            .html(&account_close_blocked_content())
            .done()
    } else {
        let form_id = text::join("form-account-", t.slug);
        let input_id = text::join("confirm-email-", t.slug);
        Template::new(ACCOUNT_CLOSE_DIALOG)
            .text(t.slug)
            .text(form_id.as_str())
            .text(t.action)
            .html(&if delete_mode {
                Markup::raw(TRASH_ICON)
            } else {
                Markup::raw(INCOGNITO_ICON)
            })
            .raw(CLOSE_ICON)
            .text(t.title)
            .text(t.lead)
            .raw(ALERT_CIRCLE_ICON)
            .text(t.alert)
            .html(&shell::csrf_input(ctx.csrf_token))
            .text(input_id.as_str())
            .text(ctx.user.email.as_str())
            .text(input_id.as_str())
            .text(ctx.user.email.as_str())
            .text(form_id.as_str())
            .text(t.label)
            .done()
    }
}

pub const SETTINGS_DATA_PANEL: &'static str = "\
    <section class=\"settings-section\">\
      <div class=\"settings-section-header\">\
        <span class=\"settings-section-icon\" aria-hidden=\"true\">¤</span>\
        <div>\
          <h3>Recovery code</h3>\
          <p class=\"settings-section-tagline\">Your offline way back in if you forget \
            your password or lose a second factor.</p>\
        </div>\
      </div>\
      <div class=\"settings-section-body\">\
        <form id=\"form-regenerate-recovery\" class=\"settings-row\" method=\"post\" \
          action=\"/me/recovery-code/regenerate\">¤\
          <div class=\"settings-row-label\">\
            <label>Status</label>¤\
          </div>\
          <div class=\"settings-row-control\">\
            <p class=\"settings-row-hint\">Regenerating shows a new code once and \
              immediately invalidates the old one. You'll confirm it's you first.</p>\
            <div class=\"settings-row-actions\">\
              <button type=\"button\" class=\"btn-secondary\" \
                data-reauth-confirm=\"form-regenerate-recovery\" \
                data-keep-source-open>Regenerate</button>\
            </div>\
          </div>\
        </form>\
      </div>\
    </section>¤¤";

/// The HTML of [`settings_data_panel`].
pub open spec fn settings_data_panel_html(
    ctx: &ChromeContext,
    recovery_meta: Option<&UserRecoveryCodeRow>,
    last_owner_blocked: bool,
) -> Seq<char> {
    html::template(SETTINGS_DATA_PANEL@)
        .html(DATABASE_ICON@)
        .html(shell::csrf_input_html(ctx.csrf_token@))
        .html(recovery_status_html(recovery_meta, false))
        .html(account_close_section_html(false, last_owner_blocked))
        .html(account_close_section_html(true, last_owner_blocked))
        .done()
}

/// The data tab of the account settings.
fn settings_data_panel(
    ctx: &ChromeContext,
    recovery_meta: Option<&UserRecoveryCodeRow>,
    last_owner_blocked: bool,
) -> (m: Markup)
    ensures
        m@ == settings_data_panel_html(ctx, recovery_meta, last_owner_blocked),
{
    Template::new(SETTINGS_DATA_PANEL)
        .raw(DATABASE_ICON)
        .html(&shell::csrf_input(ctx.csrf_token))
        .html(&recovery_status(recovery_meta, false))
        .html(&account_close_section(false, last_owner_blocked))
        .html(&account_close_section(true, last_owner_blocked))
        .done()
}

pub const RECOVERY_CODE_MODAL_CONTENT: &'static str = "\
    <div class=\"dialog-header\">\
      <div class=\"dialog-icon dialog-icon-success\">¤</div>\
      <button type=\"button\" class=\"dialog-close\" data-close-dialog \
        aria-label=\"Close\">¤</button>\
    </div>\
    <h2 class=\"dialog-center-title\">Your new recovery code</h2>\
    <p class=\"dialog-description dialog-center-text\">Save this somewhere safe. The \
      previous code no longer works, and we won't show this one again.</p>\
    <div class=\"recovery-code-display\">\
      <input id=\"recovery-code\" type=\"text\" class=\"recovery-code-input\" value=\"¤\" \
        readonly aria-label=\"Account recovery code\">\
      <button type=\"button\" class=\"btn-secondary\" \
        data-copy-target=\"recovery-code\">Copy</button>\
    </div>\
    <div class=\"dialog-actions\">\
      <button type=\"button\" class=\"btn\" data-close-dialog>Done</button>\
    </div>";

/// The HTML of [`recovery_code_modal_content`].
pub open spec fn recovery_code_modal_content_html(recovery_code: Seq<char>) -> Seq<char> {
    html::template(RECOVERY_CODE_MODAL_CONTENT@)
        .html(CHECK_CIRCLE_ICON@)
        .html(CLOSE_ICON@)
        .text(recovery_code)
        .done()
}

/// Shows a new recovery code, once.
pub fn recovery_code_modal_content(recovery_code: &str) -> (m: Markup)
    ensures
        m@ == recovery_code_modal_content_html(recovery_code@),
{
    Template::new(RECOVERY_CODE_MODAL_CONTENT)
        .raw(CHECK_CIRCLE_ICON)
        .raw(CLOSE_ICON)
        .text(recovery_code)
        .done()
}

pub const ACCOUNT_SETTINGS_MODAL: &'static str = "\
    <dialog id=\"dlg-account-settings\" class=\"action-dialog action-dialog-large \
      settings-dialog\">\
      <div class=\"settings-header\">\
        <div class=\"settings-header-title\">\
          <span class=\"settings-header-icon\" aria-hidden=\"true\">¤</span>\
          <div class=\"settings-header-text\">\
            <h2>Account settings</h2>\
            <p class=\"settings-header-tagline\">Manage your preferences.</p>\
          </div>\
        </div>\
        <div class=\"settings-header-actions\">\
          <form method=\"post\" action=\"/logout\" class=\"settings-header-signout-form\">¤\
            <button type=\"submit\" class=\"btn-secondary settings-header-signout\">¤\
              <span>Sign out</span>\
            </button>\
          </form>\
          <button type=\"button\" class=\"dialog-close\" data-close-dialog \
            aria-label=\"Close\">¤</button>\
        </div>\
      </div>\
      <div class=\"settings-layout\">\
        <nav class=\"settings-tabs\" role=\"tablist\" aria-label=\"Account settings sections\">\
          <button type=\"button\" class=\"settings-tab settings-tab-active\" role=\"tab\" \
            aria-selected=\"true\" data-settings-tab=\"profile\">\
            <span class=\"settings-tab-icon\">¤</span>\
            <span>Profile</span>\
          </button>\
          <button type=\"button\" class=\"settings-tab\" role=\"tab\" aria-selected=\"false\" \
            data-settings-tab=\"security\">\
            <span class=\"settings-tab-icon\">¤</span>\
            <span>Security</span>\
          </button>\
          <button type=\"button\" class=\"settings-tab\" role=\"tab\" aria-selected=\"false\" \
            data-settings-tab=\"devices\">\
            <span class=\"settings-tab-icon\">¤</span>\
            <span>Devices</span>\
          </button>\
          <button type=\"button\" class=\"settings-tab\" role=\"tab\" aria-selected=\"false\" \
            data-settings-tab=\"data\">\
            <span class=\"settings-tab-icon\">¤</span>\
            <span>Data Control</span>\
          </button>\
        </nav>\
        <div class=\"settings-panes\">\
          <div class=\"settings-panel settings-panel-active\" role=\"tabpanel\" \
            data-settings-panel=\"profile\">¤</div>\
          <div class=\"settings-panel\" role=\"tabpanel\" \
            data-settings-panel=\"security\">¤</div>\
          <div class=\"settings-panel\" role=\"tabpanel\" \
            data-settings-panel=\"devices\">¤</div>\
          <div class=\"settings-panel\" role=\"tabpanel\" data-settings-panel=\"data\">¤</div>\
        </div>\
      </div>\
    </dialog>";

/// The HTML of [`account_settings_modal`].
pub open spec fn account_settings_modal_html(
    ctx: &ChromeContext,
    recovery_meta: Option<&UserRecoveryCodeRow>,
    totp_creds: Seq<TotpCredential>,
    passkey_creds: Seq<WebauthnCredentialRow>,
    passkey_available: bool,
    limits: FactorLimits,
    sessions: Seq<Session>,
    current_session_id: Uuid,
    now: &Timestamp,
    last_owner_blocked: bool,
) -> Seq<char> {
    html::template(ACCOUNT_SETTINGS_MODAL@)
        .html(SETTINGS_ICON@)
        .html(shell::csrf_input_html(ctx.csrf_token@))
        .html(SIGNOUT_ICON@)
        .html(CLOSE_ICON@)
        .html(USER_ICON@)
        .html(SHIELD_ICON@)
        .html(LAPTOP_ICON@)
        .html(DATABASE_ICON@)
        .html(settings_profile_panel_html(ctx))
        .html(security::settings_security_panel_html(
            ctx,
            totp_creds,
            passkey_creds,
            passkey_available,
            limits,
        ))
        .html(security::sessions_section_html(
            ctx,
            sessions,
            current_session_id,
            now,
            SectionMode::Normal,
            false,
        ))
        .html(settings_data_panel_html(ctx, recovery_meta, last_owner_blocked))
        .done()
}

/// The account settings: profile, security, devices and data.
pub fn account_settings_modal(
    ctx: &ChromeContext,
    recovery_meta: Option<&UserRecoveryCodeRow>,
    totp_creds: &[TotpCredential],
    passkey_creds: &[WebauthnCredentialRow],
    passkey_available: bool,
    limits: FactorLimits,
    sessions: &[Session],
    current_session_id: Uuid,
    now: &Timestamp,
    last_owner_blocked: bool,
) -> (m: Markup)
    ensures
        m@ == account_settings_modal_html(
            ctx,
            recovery_meta,
            totp_creds@,
            passkey_creds@,
            passkey_available,
            limits,
            sessions@,
            current_session_id,
            now,
            last_owner_blocked,
        ),
{
    Template::new(ACCOUNT_SETTINGS_MODAL)
        .raw(SETTINGS_ICON)
        .html(&shell::csrf_input(ctx.csrf_token))
        .raw(SIGNOUT_ICON)
        .raw(CLOSE_ICON)
        .raw(USER_ICON)
        .raw(SHIELD_ICON)
        .raw(LAPTOP_ICON)
        .raw(DATABASE_ICON)
        .html(&settings_profile_panel(ctx))
        .html(&security::settings_security_panel(
            ctx,
            totp_creds,
            passkey_creds,
            passkey_available,
            limits,
        ))
        .html(&security::sessions_section(
            ctx,
            sessions,
            current_session_id,
            now,
            SectionMode::Normal,
            false,
        ))
        .html(&settings_data_panel(ctx, recovery_meta, last_owner_blocked))
        .done()
}

} // verus!
