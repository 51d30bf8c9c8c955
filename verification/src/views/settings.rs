//! The configuration of the instance.

use vstd::prelude::*;
use crate::html;
use crate::html::{Markup, Template};
use crate::model;
use crate::model::{NotificationsConfig, SmtpTls, Timestamp};
use crate::text;
use crate::views::shell;
use crate::views::shell::{ChromeContext, PageId};
use crate::views::icons::{
    ALERT_CIRCLE_ICON, CLOSE_ICON, KEY_ICON, MAIL_ICON, SETTINGS_ICON, TRASH_ICON,
};
use crate::views::scripts::SETTINGS_SMTP_TOGGLE_JS;

verus! {

pub const SETTINGS_IDENTITY_SECTION: &'static str = "\
    <section class=\"settings-section\">\
      <div class=\"settings-section-header\">\
        <span class=\"settings-section-icon\" aria-hidden=\"true\">¤</span>\
        <div>\
          <h3>Instance</h3>\
          <p class=\"settings-section-tagline\">The name shown in the sidebar and on page \
            titles.</p>\
        </div>\
      </div>\
      <div class=\"settings-section-body\">\
        <form id=\"form-settings-identity\" class=\"settings-row\" \
          hx-post=\"/settings/identity\" hx-swap=\"none\">¤\
          <div class=\"settings-row-label\">\
            <label for=\"settings-instance-name\">Display name</label>\
            <p class=\"settings-row-hint\">Up to 64 characters. Leaving it blank restores \
              the configured default.</p>\
          </div>\
          <div class=\"settings-row-control\">\
            <input type=\"text\" id=\"settings-instance-name\" name=\"instance_name\" \
              value=\"¤\" maxlength=\"64\" autocomplete=\"off\">\
            <button type=\"submit\" class=\"btn-secondary\">Save</button>\
          </div>\
        </form>\
      </div>\
    </section>";

/// The HTML of [`settings_identity_section`].
pub open spec fn settings_identity_section_html(ctx: &ChromeContext) -> Seq<char> {
    html::template(SETTINGS_IDENTITY_SECTION@)
        .html(SETTINGS_ICON@)
        .html(shell::csrf_input_html(ctx.csrf_token@))
        .text(ctx.instance_name@)
        .done()
}

/// The display name of the instance.
fn settings_identity_section(ctx: &ChromeContext) -> (m: Markup)
    ensures
        m@ == settings_identity_section_html(ctx),
{
    Template::new(SETTINGS_IDENTITY_SECTION)
        .raw(SETTINGS_ICON)
        .html(&shell::csrf_input(ctx.csrf_token))
        .text(ctx.instance_name)
        .done()
}

pub const SETTINGS_TEXT_ROW: &'static str = "\
    <div class=\"settings-row\">\
      <div class=\"settings-row-label\">\
        <label for=\"¤\">¤</label>\
      </div>\
      <div class=\"settings-row-control\">\
        <input type=\"¤\" id=\"¤\" name=\"¤\" value=\"¤\" placeholder=\"¤\" \
          autocomplete=\"off\">\
      </div>\
    </div>";

/// The HTML of [`settings_text_row`].
pub open spec fn settings_text_row_html(
    id: Seq<char>,
    name: Seq<char>,
    label_text: Seq<char>,
    input_type: Seq<char>,
    value: Seq<char>,
    placeholder: Seq<char>,
) -> Seq<char> {
    html::template(SETTINGS_TEXT_ROW@)
        .text(id)
        .text(label_text)
        .text(input_type)
        .text(id)
        .text(name)
        .text(value)
        .text(placeholder)
        .done()
}

/// A labelled text field.
fn settings_text_row(
    id: &str,
    name: &str,
    label_text: &str,
    input_type: &str,
    value: &str,
    placeholder: &str,
) -> (m: Markup)
    ensures
        m@ == settings_text_row_html(id@, name@, label_text@, input_type@, value@, placeholder@),
{
    Template::new(SETTINGS_TEXT_ROW)
        .text(id)
        .text(label_text)
        .text(input_type)
        .text(id)
        .text(name)
        .text(value)
        .text(placeholder)
        .done()
}

/// The texts of a mail configuration as its form shows them; the fields of a mail server that is
/// not set are empty, its port is the usual one.
pub struct SmtpTexts {
    pub host: Seq<char>,
    pub port: Seq<char>,
    pub username: Seq<char>,
    pub from_email: Seq<char>,
    pub from_name: Seq<char>,
}

pub open spec fn smtp_texts(n: &NotificationsConfig) -> SmtpTexts {
    match n {
        NotificationsConfig::Smtp(s) => SmtpTexts {
            host: s.host@,
            port: text::decimal(s.port as nat),
            username: s.username@,
            from_email: s.from_email@,
            from_name: match s.from_name {
                Some(name) => name@,
                None => ""@,
            },
        },
        _ => SmtpTexts {
            host: ""@,
            port: text::decimal(587),
            username: ""@,
            from_email: ""@,
            from_name: ""@,
        },
    }
}

/// The encryption that is chosen in the form: of the server, or the one to begin with.
pub open spec fn chosen_tls(n: &NotificationsConfig) -> SmtpTls {
    match n {
        NotificationsConfig::Smtp(s) => s.tls,
        _ => SmtpTls::Starttls,
    }
}

/// Which option of the delivery mode is selected: disabled, log, SMTP.
pub open spec fn mode_marks(n: &NotificationsConfig) -> Seq<bool> {
    seq![n is Disabled, n is Log, n is Smtp]
}

/// Which option of the encryption is selected: STARTTLS, implicit, none.
pub open spec fn tls_marks(n: &NotificationsConfig) -> Seq<bool> {
    seq![
        chosen_tls(n) is Starttls,
        chosen_tls(n) is Implicit,
        chosen_tls(n) is Unencrypted,
    ]
}

/// Whether exactly one of the marks is set.
pub open spec fn one_mark(marks: Seq<bool>) -> bool {
    exists|i: int|
        0 <= i < marks.len() && marks[i] && forall|j: int|
            0 <= j < marks.len() && j != i ==> !marks[j]
}

struct SmtpFields<'a> {
    host: &'a str,
    port: String,
    tls: SmtpTls,
    username: &'a str,
    from_email: &'a str,
    from_name: &'a str,
}

impl<'a> SmtpFields<'a> {
    spec fn shows(self, t: SmtpTexts) -> bool {
        &&& self.host@ == t.host
        &&& self.port@ == t.port
        &&& self.username@ == t.username
        &&& self.from_email@ == t.from_email
        &&& self.from_name@ == t.from_name
    }
}

fn smtp_fields<'a>(n: &'a NotificationsConfig) -> (r: SmtpFields<'a>)
    ensures
        r.shows(smtp_texts(n)),
        r.tls == chosen_tls(n),
{
    match n {
        NotificationsConfig::Smtp(s) => SmtpFields {
            host: s.host.as_str(),
            port: text::decimal_string(s.port as u64),
            tls: s.tls,
            username: s.username.as_str(),
            from_email: s.from_email.as_str(),
            from_name: match &s.from_name {
                Some(name) => name.as_str(),
                None => "",
            },
        },
        _ => SmtpFields {
            host: "",
            port: text::decimal_string(587),
            tls: SmtpTls::Starttls,
            username: "",
            from_email: "",
            from_name: "",
        },
    }
}

pub const SETTINGS_NOTIFICATIONS_SECTION: &'static str = "\
    <section class=\"settings-section\">\
      <div class=\"settings-section-header settings-section-header-actions\">\
        <div class=\"settings-section-heading\">\
          <span class=\"settings-section-icon\" aria-hidden=\"true\">¤</span>\
          <div>\
            <h3>Email</h3>\
            <p class=\"settings-section-tagline\">How the instance sends mail — \
              invitations and account notifications.</p>\
          </div>\
        </div>\
        <button type=\"button\" class=\"btn-secondary\" \
          data-reauth-confirm=\"form-settings-notifications\">Save email settings</button>\
      </div>\
      <div class=\"settings-section-body\">\
        <form id=\"form-settings-notifications\" method=\"post\" \
          action=\"/settings/notifications\">¤\
          <div class=\"settings-row\">\
            <div class=\"settings-row-label\">\
              <label for=\"settings-notifications-mode\">Delivery mode</label>\
              <p class=\"settings-row-hint\">Disabled sends nothing. Log records without \
                sending. SMTP delivers real email.</p>\
            </div>\
            <div class=\"settings-row-control\">\
              <select name=\"mode\" id=\"settings-notifications-mode\" \
                class=\"settings-select\">\
                <option value=\"disabled\"¤>Disabled</option>\
                <option value=\"log\"¤>Log only</option>\
                <option value=\"smtp\"¤>SMTP</option>\
              </select>\
            </div>\
          </div>\
          <div data-smtp-fields¤>¤¤\
            <div class=\"settings-row\">\
              <div class=\"settings-row-label\">\
                <label for=\"settings-smtp-tls\">Encryption</label>\
              </div>\
              <div class=\"settings-row-control\">\
                <select name=\"smtp_tls\" id=\"settings-smtp-tls\" class=\"settings-select\">\
                  <option value=\"starttls\"¤>STARTTLS</option>\
                  <option value=\"implicit\"¤>Implicit TLS</option>\
                  <option value=\"none\"¤>None</option>\
                </select>\
              </div>\
            </div>¤\
            <div class=\"settings-row\">\
              <div class=\"settings-row-label\">\
                <label for=\"settings-smtp-password\">Password</label>\
                <p class=\"settings-row-hint\">Stored encrypted. Leave blank to keep the \
                  current password.</p>\
              </div>\
              <div class=\"settings-row-control\">\
                <input type=\"password\" id=\"settings-smtp-password\" name=\"smtp_password\" \
                  placeholder=\"¤\" autocomplete=\"off\">\
              </div>\
            </div>¤¤\
          </div>\
        </form>\
        <form class=\"settings-row\" hx-post=\"/settings/notifications/test\" hx-swap=\"none\">¤\
          <div class=\"settings-row-label\">\
            <label>Test delivery</label>\
            <p class=\"settings-row-hint\">Sends a test message to your address using the \
              saved settings.</p>\
          </div>\
          <div class=\"settings-row-control\">\
            <button type=\"submit\" class=\"btn-secondary\">Send test email</button>\
          </div>\
        </form>\
      </div>\
    </section>";

/// The section with `f` in the fields of the mail server, which are hidden or not, and with the
/// marked options selected.
pub open spec fn notifications_section_of(
    ctx: &ChromeContext,
    f: SmtpTexts,
    smtp_password_set: bool,
    modes: Seq<bool>,
    smtp_hidden: bool,
    tls: Seq<bool>,
) -> Seq<char> {
    let pw_placeholder = if smtp_password_set {
        "Saved — leave blank to keep"
    } else {
        "SMTP password"
    };
    html::template(SETTINGS_NOTIFICATIONS_SECTION@)
        .html(MAIL_ICON@)
        .html(shell::csrf_input_html(ctx.csrf_token@))
        .when(modes[0], " selected"@)
        .when(modes[1], " selected"@)
        .when(modes[2], " selected"@)
        .when(smtp_hidden, " hidden"@)
        .html(settings_text_row_html(
            "settings-smtp-host"@,
            "smtp_host"@,
            "SMTP host"@,
            "text"@,
            f.host,
            "mail.example.com"@,
        ))
        .html(settings_text_row_html(
            "settings-smtp-port"@,
            "smtp_port"@,
            "Port"@,
            "number"@,
            f.port,
            "587"@,
        ))
        .when(tls[0], " selected"@)
        .when(tls[1], " selected"@)
        .when(tls[2], " selected"@)
        .html(settings_text_row_html(
            "settings-smtp-username"@,
            "smtp_username"@,
            "Username"@,
            "text"@,
            f.username,
            "user@example.com"@,
        ))
        .text(pw_placeholder@)
        .html(settings_text_row_html(
            "settings-smtp-from-email"@,
            "smtp_from_email"@,
            "From address"@,
            "email"@,
            f.from_email,
            "noreply@example.com"@,
        ))
        .html(settings_text_row_html(
            "settings-smtp-from-name"@,
            "smtp_from_name"@,
            "From name"@,
            "text"@,
            f.from_name,
            "Sylva Hearth"@,
        ))
        .html(shell::csrf_input_html(ctx.csrf_token@))
        .done()
}

/// The HTML of [`settings_notifications_section`].
pub open spec fn settings_notifications_section_html(
    ctx: &ChromeContext,
    notifications: &NotificationsConfig,
    smtp_password_set: bool,
) -> Seq<char> {
    notifications_section_of(
        ctx,
        smtp_texts(notifications),
        smtp_password_set,
        mode_marks(notifications),
        !(notifications is Smtp),
        tls_marks(notifications),
    )
}

/// How the instance sends mail. The password is never shown, only whether one is saved.
pub fn settings_notifications_section(
    ctx: &ChromeContext,
    notifications: &NotificationsConfig,
    smtp_password_set: bool,
) -> (m: Markup)
    ensures
        m@ == settings_notifications_section_html(ctx, notifications, smtp_password_set),
{
    let f = smtp_fields(notifications);
    let pw_placeholder: &str = if smtp_password_set {
        "Saved — leave blank to keep"
    } else {
        "SMTP password"
    };
    let disabled: bool = matches!(notifications, NotificationsConfig::Disabled);
    let log: bool = matches!(notifications, NotificationsConfig::Log);
    let smtp: bool = matches!(notifications, NotificationsConfig::Smtp(_));
    Template::new(SETTINGS_NOTIFICATIONS_SECTION)
        .raw(MAIL_ICON)
        .html(&shell::csrf_input(ctx.csrf_token))
        .when(disabled, " selected")
        .when(log, " selected")
        .when(smtp, " selected")
        .when(!smtp, " hidden")
        .html(&settings_text_row(
            "settings-smtp-host",
            "smtp_host",
            "SMTP host",
            "text",
            f.host,
            "mail.example.com",
        ))
        .html(&settings_text_row(
            "settings-smtp-port",
            "smtp_port",
            "Port",
            "number",
            f.port.as_str(),
            "587",
        ))
        .when(f.tls == SmtpTls::Starttls, " selected")
        .when(f.tls == SmtpTls::Implicit, " selected")
        .when(f.tls == SmtpTls::Unencrypted, " selected")
        .html(&settings_text_row(
            "settings-smtp-username",
            "smtp_username",
            "Username",
            "text",
            f.username,
            "user@example.com",
        ))
        .text(pw_placeholder)
        .html(&settings_text_row(
            "settings-smtp-from-email",
            "smtp_from_email",
            "From address",
            "email",
            f.from_email,
            "noreply@example.com",
        ))
        .html(&settings_text_row(
            "settings-smtp-from-name",
            "smtp_from_name",
            "From name",
            "text",
            f.from_name,
            "Sylva Hearth",
        ))
        .html(&shell::csrf_input(ctx.csrf_token))
        .done()
}

/// The section shows the fields of the mail server only where one is set up, and selects exactly
/// one delivery mode and one encryption: those that are set up.
pub proof fn law_one_option_is_selected(
    ctx: &ChromeContext,
    notifications: &NotificationsConfig,
    smtp_password_set: bool,
)
    ensures
        settings_notifications_section_html(ctx, notifications, smtp_password_set)
            == notifications_section_of(
            ctx,
            smtp_texts(notifications),
            smtp_password_set,
            mode_marks(notifications),
            !(notifications is Smtp),
            tls_marks(notifications),
        ),
        mode_marks(notifications).len() == 3,
        one_mark(mode_marks(notifications)),
        tls_marks(notifications).len() == 3,
        one_mark(tls_marks(notifications)),
{
    let modes = mode_marks(notifications);
    let tls = tls_marks(notifications);
    assert(modes[0] || modes[1] || modes[2]);
    assert(tls[0] || tls[1] || tls[2]);
}

/// Two configurations that differ in nothing but the stored password.
pub open spec fn same_but_password(a: &NotificationsConfig, b: &NotificationsConfig) -> bool {
    match (a, b) {
        (NotificationsConfig::Smtp(s), NotificationsConfig::Smtp(t)) => {
            &&& s.host@ == t.host@
            &&& s.port == t.port
            &&& s.tls == t.tls
            &&& s.username@ == t.username@
            &&& s.from_email@ == t.from_email@
            &&& text::opt_string(s.from_name) == text::opt_string(t.from_name)
        },
        _ => a == b,
    }
}

/// Nothing of the stored password shows: whatever it is, the section and the page around it are
/// the same. All they tell is whether one is saved.
pub proof fn law_password_is_never_shown(
    ctx: &ChromeContext,
    a: &NotificationsConfig,
    b: &NotificationsConfig,
    smtp_password_set: bool,
    recovery_created_at: Option<&Timestamp>,
)
    requires
        same_but_password(a, b),
    ensures
        settings_notifications_section_html(ctx, a, smtp_password_set)
            == settings_notifications_section_html(ctx, b, smtp_password_set),
        settings_page_html(ctx, a, smtp_password_set, recovery_created_at) == settings_page_html(
            ctx,
            b,
            smtp_password_set,
            recovery_created_at,
        ),
{
    assert(mode_marks(a) =~= mode_marks(b));
    assert(tls_marks(a) =~= tls_marks(b));
}

pub const SETTINGS_RECOVERY_SECTION: &'static str = "\
    <section class=\"settings-section\">\
      <div class=\"settings-section-header\">\
        <span class=\"settings-section-icon\" aria-hidden=\"true\">¤</span>\
        <div>\
          <h3>Server recovery code</h3>\
          <p class=\"settings-section-tagline\">The break-glass key: it unlocks owner \
            recovery and forcing owner changes past the veto window. Rotate it if it may \
            be exposed.</p>\
        </div>\
      </div>\
      <div class=\"settings-section-body\">\
        <div class=\"settings-row\">\
          <div class=\"settings-row-label\">¤\
            <p class=\"settings-row-hint\">Rotating shows the new code once and \
              immediately invalidates the old one.</p>\
          </div>\
          <div class=\"settings-row-control\">\
            <button type=\"button\" class=\"btn-secondary\" \
              data-open-modal=\"/modals/settings/recovery-code\">Rotate recovery code</button>\
          </div>\
        </div>\
      </div>\
    </section>";

pub const RECOVERY_CODE_ACTIVE: &'static str = "<span>Active code generated ¤.</span>";

pub const RECOVERY_CODE_NONE: &'static str = "<span>No active recovery code.</span>";

/// The HTML of [`settings_recovery_section`].
pub open spec fn settings_recovery_section_html(created_at: Option<&Timestamp>) -> Seq<char> {
    html::template(SETTINGS_RECOVERY_SECTION@)
        .html(KEY_ICON@)
        .html(match created_at {
            Some(at) => html::template(RECOVERY_CODE_ACTIVE@)
                .date(at@, model::SHORT_DATE@)
                .done(),
            None => RECOVERY_CODE_NONE@,
        })
        .done()
}

/// The recovery code of the server.
fn settings_recovery_section(created_at: Option<&Timestamp>) -> (m: Markup)
    ensures
        m@ == settings_recovery_section_html(created_at),
{
    Template::new(SETTINGS_RECOVERY_SECTION)
        .raw(KEY_ICON)
        .html(&match created_at {
            Some(at) => Template::new(RECOVERY_CODE_ACTIVE)
                .date(at, model::SHORT_DATE)
                .done(),
            None => Markup::raw(RECOVERY_CODE_NONE),
        })
        .done()
}

pub const SETTINGS_DANGER_SECTION: &'static str = "\
    <section class=\"settings-section settings-section-danger\">\
      <div class=\"settings-section-header\">\
        <span class=\"settings-section-icon\" aria-hidden=\"true\">¤</span>\
        <div>\
          <h3>Close this server</h3>\
          <p class=\"settings-section-tagline\">Permanently shut down the whole instance \
            and erase all of its data, for everyone.</p>\
        </div>\
      </div>\
      <div class=\"settings-section-body\">\
        <div class=\"settings-danger-row\">\
          <p class=\"settings-row-hint\">Every account and everything created on this \
            server is removed, the server is closed for all members, and this cannot be \
            undone — the same teardown as the last member deleting their account. Use it \
            only to decommission the instance.</p>\
          <div class=\"settings-row-actions\">\
            <button type=\"button\" class=\"btn-danger-ghost\" \
              data-open-modal=\"/modals/settings/shutdown\">Close this server</button>\
          </div>\
        </div>\
      </div>\
    </section>";

/// The HTML of [`settings_danger_section`].
pub open spec fn settings_danger_section_html() -> Seq<char> {
    html::template(SETTINGS_DANGER_SECTION@)
        .html(TRASH_ICON@)
        .done()
}

/// Closing the server.
fn settings_danger_section() -> (m: Markup)
    ensures
        m@ == settings_danger_section_html(),
{
    Template::new(SETTINGS_DANGER_SECTION)
        .raw(TRASH_ICON)
        .done()
}

pub const SETTINGS_PAGE: &'static str = "\
    ¤\
    <hr class=\"settings-divider\">¤\
    <hr class=\"settings-divider\">¤\
    <hr class=\"settings-divider\">¤\
    <script>¤</script>";

/// The HTML of [`settings_page`].
pub open spec fn settings_page_html(
    ctx: &ChromeContext,
    notifications: &NotificationsConfig,
    smtp_password_set: bool,
    recovery_created_at: Option<&Timestamp>,
) -> Seq<char> {
    let content = html::template(SETTINGS_PAGE@)
        .html(settings_identity_section_html(ctx))
        .html(settings_notifications_section_html(ctx, notifications, smtp_password_set))
        .html(settings_recovery_section_html(recovery_created_at))
        .html(settings_danger_section_html())
        .html(SETTINGS_SMTP_TOGGLE_JS@)
        .done();
    shell::shell_app_wide_html(ctx, "Settings"@, PageId::Settings, content)
}

/// `GET /settings`: the configuration of the instance.
pub fn settings_page(
    ctx: &ChromeContext,
    notifications: &NotificationsConfig,
    smtp_password_set: bool,
    recovery_created_at: Option<&Timestamp>,
) -> (m: Markup)
    ensures
        m@ == settings_page_html(ctx, notifications, smtp_password_set, recovery_created_at),
{
    let content = Template::new(SETTINGS_PAGE)
        .html(&settings_identity_section(ctx))
        .html(&settings_notifications_section(ctx, notifications, smtp_password_set))
        .html(&settings_recovery_section(recovery_created_at))
        .html(&settings_danger_section())
        .raw(SETTINGS_SMTP_TOGGLE_JS)
        .done();
    shell::shell_app_wide(ctx, "Settings", PageId::Settings, &content)
}

pub const SETTINGS_SHUTDOWN_MODAL: &'static str = "\
    <dialog id=\"dlg-settings-shutdown\" class=\"action-dialog action-dialog-centered\">\
      <form id=\"form-settings-shutdown\" method=\"post\" action=\"/settings/shutdown\">\
        <div class=\"dialog-header\">\
          <div class=\"dialog-icon dialog-icon-danger\">¤</div>\
          <button type=\"button\" class=\"dialog-close\" data-close-dialog \
            aria-label=\"Close\">¤</button>\
        </div>\
        <h2 class=\"dialog-center-title\">Close this server</h2>\
        <p class=\"dialog-description dialog-center-text\">This permanently shuts down \
          <strong>¤</strong> and erases every account and all data on it. Everyone is \
            signed out and the server shows a closed page from now on.\
        </p>\
        <div class=\"dialog-alert dialog-alert-danger\" role=\"alert\">¤\
          <span>This wipes all data for everyone and cannot be undone.</span>\
        </div>¤\
        <label class=\"confirm-checkbox-field\">\
          <input type=\"checkbox\" class=\"member-checkbox\" data-close-ack>\
          <span>I understand this permanently closes the server for all members.</span>\
        </label>\
        <div class=\"field confirm-name-field\">\
          <label for=\"confirm-shutdown-name\">Type the server name \
            <strong>&quot;¤&quot;</strong> to confirm\
          </label>\
          <input type=\"text\" id=\"confirm-shutdown-name\" data-close-email=\"¤\" \
            autocomplete=\"off\" spellcheck=\"false\" autocapitalize=\"off\">\
        </div>\
        <div class=\"dialog-actions\">\
          <button type=\"button\" class=\"btn-secondary\" data-close-dialog>Cancel</button>\
          <button type=\"button\" class=\"btn-danger\" \
            data-reauth-confirm=\"form-settings-shutdown\" data-reauth-critical \
            disabled>Close this server</button>\
        </div>\
      </form>\
    </dialog>";

/// The HTML of [`settings_shutdown_modal`].
pub open spec fn settings_shutdown_modal_html(ctx: &ChromeContext) -> Seq<char> {
    let name = ctx.instance_name;
    html::template(SETTINGS_SHUTDOWN_MODAL@)
        .html(TRASH_ICON@)
        .html(CLOSE_ICON@)
        .text(name@)
        .html(ALERT_CIRCLE_ICON@)
        .html(shell::csrf_input_html(ctx.csrf_token@))
        .text(name@)
        .text(name@)
        .done()
}

/// The dialog that closes the server; it asks for a tick and for the name of the server.
pub fn settings_shutdown_modal(ctx: &ChromeContext) -> (m: Markup)
    ensures
        m@ == settings_shutdown_modal_html(ctx),
{
    let name = ctx.instance_name;
    Template::new(SETTINGS_SHUTDOWN_MODAL)
        .raw(TRASH_ICON)
        .raw(CLOSE_ICON)
        .text(name)
        .raw(ALERT_CIRCLE_ICON)
        .html(&shell::csrf_input(ctx.csrf_token))
        .text(name)
        .text(name)
        .done()
}

pub const RECOVERY_ROTATE_FORM: &'static str = "\
    <form id=\"form-recovery-rotate\" hx-post=\"/settings/recovery-code/rotate\" \
      hx-target=\"#recovery-rotate-content\" hx-swap=\"innerHTML\">\
      <div class=\"dialog-header\">\
        <div class=\"dialog-icon\">¤</div>\
        <button type=\"button\" class=\"dialog-close\" data-close-dialog \
          aria-label=\"Close\">¤</button>\
      </div>\
      <h2 class=\"dialog-center-title\">Rotate the server recovery code</h2>\
      <p class=\"dialog-description dialog-center-text\">This generates a new server \
        recovery code and immediately invalidates the current one. Enter the current code \
        to confirm.</p>¤¤\
      <div class=\"field\">\
        <label for=\"rotate-current-code\">Current recovery code</label>\
        <input type=\"text\" id=\"rotate-current-code\" name=\"current_code\" \
          autocomplete=\"off\" spellcheck=\"false\" autocapitalize=\"off\" \
          placeholder=\"XXXX-XXXX-XXXX-…\" required>\
      </div>\
      <div class=\"dialog-actions\">\
        <button type=\"button\" class=\"btn-secondary\" data-close-dialog>Cancel</button>\
        <button type=\"submit\" class=\"btn-danger\">Rotate code</button>\
      </div>\
    </form>";

pub const ROTATE_ERROR: &'static str = "\
    <div class=\"dialog-alert dialog-alert-danger\" role=\"alert\">¤\
      <span>¤</span>\
    </div>";

/// The HTML of [`recovery_rotate_form`].
pub open spec fn recovery_rotate_form_html(
    csrf_token: Seq<char>,
    error: Option<Seq<char>>,
) -> Seq<char> {
    html::template(RECOVERY_ROTATE_FORM@)
        .html(KEY_ICON@)
        .html(CLOSE_ICON@)
        .html(match error {
            Some(err) => html::template(ROTATE_ERROR@)
                .html(ALERT_CIRCLE_ICON@)
                .text(err)
                .done(),
            None => Seq::empty(),
        })
        .html(shell::csrf_input_html(csrf_token))
        .done()
}

/// Asks for the current recovery code of the server before a new one is made.
pub fn recovery_rotate_form(csrf_token: &str, error: Option<&str>) -> (m: Markup)
    ensures
        m@ == recovery_rotate_form_html(csrf_token@, text::opt(error)),
{
    Template::new(RECOVERY_ROTATE_FORM)
        .raw(KEY_ICON)
        .raw(CLOSE_ICON)
        .html(&match error {
            Some(err) => Template::new(ROTATE_ERROR)
                .raw(ALERT_CIRCLE_ICON)
                .text(err)
                .done(),
            None => Markup::empty(),
        })
        .html(&shell::csrf_input(csrf_token))
        .done()
}

pub const RECOVERY_ROTATE_MODAL: &'static str = "\
    <dialog id=\"dlg-recovery-rotate\" class=\"action-dialog action-dialog-centered\">\
      <div id=\"recovery-rotate-content\">¤</div>\
    </dialog>";

/// The HTML of [`recovery_rotate_modal`].
pub open spec fn recovery_rotate_modal_html(ctx: &ChromeContext) -> Seq<char> {
    html::template(RECOVERY_ROTATE_MODAL@)
        .html(recovery_rotate_form_html(ctx.csrf_token@, None))
        .done()
}

/// The dialog around [`recovery_rotate_form`].
pub fn recovery_rotate_modal(ctx: &ChromeContext) -> (m: Markup)
    ensures
        m@ == recovery_rotate_modal_html(ctx),
{
    Template::new(RECOVERY_ROTATE_MODAL)
        .html(&recovery_rotate_form(ctx.csrf_token, None))
        .done()
}

} // verus!
