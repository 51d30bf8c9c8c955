//! What the settings of the instance show.

use vstd::prelude::*;
use crate::html;
use crate::laws::markup;
use crate::laws::pages::shell as around;
use crate::model::{NotificationsConfig, SmtpTls, Timestamp};
use crate::model;
use crate::text;
use crate::views::icons::{
    ALERT_CIRCLE_ICON, CLOSE_ICON, KEY_ICON, MAIL_ICON, SETTINGS_ICON, TRASH_ICON,
};
use crate::views::scripts::SETTINGS_SMTP_TOGGLE_JS;
use crate::views::settings as page;
use crate::views::shell::{ChromeContext, PageId};
use crate::views::shell;

verus! {

/// Where the holes of the template stand, and the texts around them.
proof fn lemma_settings_identity_section() -> (at: (Seq<char>, Seq<int>))
    ensures
        at.0 == page::SETTINGS_IDENTITY_SECTION@,
        at.1 == seq![126int, 391, 698],
        at.0.len() == 821,
        markup::holes_at(at.0, at.1),
        at.0.subrange(347, 391) == "hx-post=\"/settings/identity\" hx-swap=\"none\">"@,
        at.0.subrange(392, 424) == "<div class=\"settings-row-label\">"@,
        at.0.subrange(642, 698) == "id=\"settings-instance-name\" name=\"instance_name\" value=\""@,
        at.0.subrange(699, 700) == "\""@,
        "hx-post=\"/settings/identity\" hx-swap=\"none\">"@.len() == 44,
        "<div class=\"settings-row-label\">"@.len() == 32,
        "id=\"settings-instance-name\" name=\"instance_name\" value=\""@.len() == 56,
        "\""@.len() == 1,
{
    reveal_strlit("<section class=\"settings-section\"><div class=\"settings-section-header\"><span class=\"settings-section-icon\" aria-hidden=\"true\">¤</span><div><h3>Instance</h3><p class=\"settings-section-tagline\">The name shown in the sidebar and on page titles.</p></div></div><div class=\"settings-section-body\"><form id=\"form-settings-identity\" class=\"settings-row\" hx-post=\"/settings/identity\" hx-swap=\"none\">¤<div class=\"settings-row-label\"><label for=\"settings-instance-name\">Display name</label><p class=\"settings-row-hint\">Up to 64 characters. Leaving it blank restores the configured default.</p></div><div class=\"settings-row-control\"><input type=\"text\" id=\"settings-instance-name\" name=\"instance_name\" value=\"¤\" maxlength=\"64\" autocomplete=\"off\"><button type=\"submit\" class=\"btn-secondary\">Save</button></div></form></div></section>");
    reveal_strlit("hx-post=\"/settings/identity\" hx-swap=\"none\">");
    reveal_strlit("<div class=\"settings-row-label\">");
    reveal_strlit("id=\"settings-instance-name\" name=\"instance_name\" value=\"");
    reveal_strlit("\"");
    let tpl = page::SETTINGS_IDENTITY_SECTION@;
    let holes = seq![126int, 391, 698];
    assert(markup::hole_at(tpl, holes, 0));
    assert(markup::hole_at(tpl, holes, 1));
    assert(markup::hole_at(tpl, holes, 2));
    assert(tpl.subrange(347, 391) =~= "hx-post=\"/settings/identity\" hx-swap=\"none\">"@);
    assert(tpl.subrange(392, 424) =~= "<div class=\"settings-row-label\">"@);
    assert(tpl.subrange(642, 698) =~= "id=\"settings-instance-name\" name=\"instance_name\" value=\""@);
    assert(tpl.subrange(699, 700) =~= "\""@);
    (tpl, holes)
}

/// The name of the instance stands in its field.
pub proof fn law_settings_identity_section(ctx: &ChromeContext)
    ensures
        ({
            let out = page::settings_identity_section_html(ctx);
            &&& markup::shows(
                out,
                "hx-post=\"/settings/identity\" hx-swap=\"none\">"@ + shell::csrf_input_html(ctx.csrf_token@) + "<div class=\"settings-row-label\">"@,
            )
            &&& markup::shows(
                out,
                "id=\"settings-instance-name\" name=\"instance_name\" value=\""@ + html::escaped(ctx.instance_name@) + "\""@,
            )
        }),
{
    let (tpl, holes) = lemma_settings_identity_section();
    let parts = seq![
        SETTINGS_ICON@,
        shell::csrf_input_html(ctx.csrf_token@),
        html::escaped(ctx.instance_name@),
    ];
    assert(page::settings_identity_section_html(ctx) == markup::filled(tpl, parts, 3).done()) by {
        reveal_with_fuel(markup::filled, 4);
    }
    markup::lemma_hole(
        tpl,
        holes,
        parts,
        1,
        "hx-post=\"/settings/identity\" hx-swap=\"none\">"@,
        "<div class=\"settings-row-label\">"@,
    );
    markup::lemma_hole(
        tpl,
        holes,
        parts,
        2,
        "id=\"settings-instance-name\" name=\"instance_name\" value=\""@,
        "\""@,
    );
}

/// Where the holes of the template stand, and the texts around them.
proof fn lemma_settings_text_row() -> (at: (Seq<char>, Seq<int>))
    ensures
        at.0 == page::SETTINGS_TEXT_ROW@,
        at.1 == seq![70int, 73, 135, 142, 151, 161, 177],
        at.0.len() == 211,
        markup::holes_at(at.0, at.1),
        at.0.subrange(58, 70) == "<label for=\""@,
        at.0.subrange(71, 72) == "\""@,
        at.0.subrange(71, 73) == "\">"@,
        at.0.subrange(74, 82) == "</label>"@,
        at.0.subrange(122, 135) == "<input type=\""@,
        at.0.subrange(136, 137) == "\""@,
        at.0.subrange(136, 142) == "\" id=\""@,
        at.0.subrange(143, 144) == "\""@,
        at.0.subrange(143, 151) == "\" name=\""@,
        at.0.subrange(152, 153) == "\""@,
        at.0.subrange(152, 161) == "\" value=\""@,
        at.0.subrange(162, 163) == "\""@,
        at.0.subrange(162, 177) == "\" placeholder=\""@,
        at.0.subrange(178, 179) == "\""@,
        "<label for=\""@.len() == 12,
        "\""@.len() == 1,
        "\">"@.len() == 2,
        "</label>"@.len() == 8,
        "<input type=\""@.len() == 13,
        "\" id=\""@.len() == 6,
        "\" name=\""@.len() == 8,
        "\" value=\""@.len() == 9,
        "\" placeholder=\""@.len() == 15,
{
    reveal_strlit("<div class=\"settings-row\"><div class=\"settings-row-label\"><label for=\"¤\">¤</label></div><div class=\"settings-row-control\"><input type=\"¤\" id=\"¤\" name=\"¤\" value=\"¤\" placeholder=\"¤\" autocomplete=\"off\"></div></div>");
    reveal_strlit("<label for=\"");
    reveal_strlit("\"");
    reveal_strlit("\">");
    reveal_strlit("</label>");
    reveal_strlit("<input type=\"");
    reveal_strlit("\" id=\"");
    reveal_strlit("\" name=\"");
    reveal_strlit("\" value=\"");
    reveal_strlit("\" placeholder=\"");
    let tpl = page::SETTINGS_TEXT_ROW@;
    let holes = seq![70int, 73, 135, 142, 151, 161, 177];
    assert(markup::hole_at(tpl, holes, 0));
    assert(markup::hole_at(tpl, holes, 1));
    assert(markup::hole_at(tpl, holes, 2));
    assert(markup::hole_at(tpl, holes, 3));
    assert(markup::hole_at(tpl, holes, 4));
    assert(markup::hole_at(tpl, holes, 5));
    assert(markup::hole_at(tpl, holes, 6));
    assert(tpl.subrange(58, 70) =~= "<label for=\""@);
    assert(tpl.subrange(71, 72) =~= "\""@);
    assert(tpl.subrange(71, 73) =~= "\">"@);
    assert(tpl.subrange(74, 82) =~= "</label>"@);
    assert(tpl.subrange(122, 135) =~= "<input type=\""@);
    assert(tpl.subrange(136, 137) =~= "\""@);
    assert(tpl.subrange(136, 142) =~= "\" id=\""@);
    assert(tpl.subrange(143, 144) =~= "\""@);
    assert(tpl.subrange(143, 151) =~= "\" name=\""@);
    assert(tpl.subrange(152, 153) =~= "\""@);
    assert(tpl.subrange(152, 161) =~= "\" value=\""@);
    assert(tpl.subrange(162, 163) =~= "\""@);
    assert(tpl.subrange(162, 177) =~= "\" placeholder=\""@);
    assert(tpl.subrange(178, 179) =~= "\""@);
    (tpl, holes)
}

/// A row of the mail form shows its value under its label and its name.
pub proof fn law_settings_text_row(
    id: Seq<char>,
    name: Seq<char>,
    label_text: Seq<char>,
    input_type: Seq<char>,
    value: Seq<char>,
    placeholder: Seq<char>,
)
    ensures
        ({
            let out = page::settings_text_row_html(id, name, label_text, input_type, value, placeholder);
            &&& markup::shows(out, "<label for=\""@ + html::escaped(id) + "\""@)
            &&& markup::shows(out, "\">"@ + html::escaped(label_text) + "</label>"@)
            &&& markup::shows(out, "<input type=\""@ + html::escaped(input_type) + "\""@)
            &&& markup::shows(out, "\" id=\""@ + html::escaped(id) + "\""@)
            &&& markup::shows(out, "\" name=\""@ + html::escaped(name) + "\""@)
            &&& markup::shows(out, "\" value=\""@ + html::escaped(value) + "\""@)
            &&& markup::shows(out, "\" placeholder=\""@ + html::escaped(placeholder) + "\""@)
        }),
{
    let (tpl, holes) = lemma_settings_text_row();
    let parts = seq![
        html::escaped(id),
        html::escaped(label_text),
        html::escaped(input_type),
        html::escaped(id),
        html::escaped(name),
        html::escaped(value),
        html::escaped(placeholder),
    ];
    assert(page::settings_text_row_html(id, name, label_text, input_type, value, placeholder) == markup::filled(tpl, parts, 7).done()) by {
        reveal_with_fuel(markup::filled, 8);
    }
    markup::lemma_hole(tpl, holes, parts, 0, "<label for=\""@, "\""@);
    markup::lemma_hole(tpl, holes, parts, 1, "\">"@, "</label>"@);
    markup::lemma_hole(tpl, holes, parts, 2, "<input type=\""@, "\""@);
    markup::lemma_hole(tpl, holes, parts, 3, "\" id=\""@, "\""@);
    markup::lemma_hole(tpl, holes, parts, 4, "\" name=\""@, "\""@);
    markup::lemma_hole(tpl, holes, parts, 5, "\" value=\""@, "\""@);
    markup::lemma_hole(tpl, holes, parts, 6, "\" placeholder=\""@, "\""@);
}

/// Where the holes of the template stand, and the texts around them.
proof fn lemma_notifications_section_of() -> (at: (Seq<char>, Seq<int>))
    ensures
        at.0 == page::SETTINGS_NOTIFICATIONS_SECTION@,
        at.1 == seq![196int, 592, 965, 1003, 1042, 1099, 1101, 1102, 1345, 1388, 1431, 1467, 1795, 1829, 1830, 1925],
        at.0.len() == 2218,
        markup::holes_at(at.0, at.1),
        at.0.subrange(545, 592) == "method=\"post\" action=\"/settings/notifications\">"@,
        at.0.subrange(593, 619) == "<div class=\"settings-row\">"@,
        at.0.subrange(941, 965) == "<option value=\"disabled\""@,
        at.0.subrange(966, 975) == ">Disabled"@,
        at.0.subrange(984, 1003) == "<option value=\"log\""@,
        at.0.subrange(1004, 1013) == ">Log only"@,
        at.0.subrange(1022, 1042) == "<option value=\"smtp\""@,
        at.0.subrange(1043, 1048) == ">SMTP"@,
        at.0.subrange(1078, 1099) == "<div data-smtp-fields"@,
        at.0.subrange(1100, 1101) == ">"@,
        at.0.subrange(1103, 1129) == "<div class=\"settings-row\">"@,
        at.0.subrange(1321, 1345) == "<option value=\"starttls\""@,
        at.0.subrange(1346, 1355) == ">STARTTLS"@,
        at.0.subrange(1364, 1388) == "<option value=\"implicit\""@,
        at.0.subrange(1389, 1402) == ">Implicit TLS"@,
        at.0.subrange(1411, 1431) == "<option value=\"none\""@,
        at.0.subrange(1432, 1437) == ">None"@,
        at.0.subrange(1461, 1467) == "</div>"@,
        at.0.subrange(1468, 1494) == "<div class=\"settings-row\">"@,
        at.0.subrange(1761, 1795) == "name=\"smtp_password\" placeholder=\""@,
        at.0.subrange(1796, 1797) == "\""@,
        at.0.subrange(1823, 1829) == "</div>"@,
        at.0.subrange(1831, 1837) == "</div>"@,
        at.0.subrange(1871, 1925) == "hx-post=\"/settings/notifications/test\" hx-swap=\"none\">"@,
        at.0.subrange(1926, 1958) == "<div class=\"settings-row-label\">"@,
        "method=\"post\" action=\"/settings/notifications\">"@.len() == 47,
        "<div class=\"settings-row\">"@.len() == 26,
        "<option value=\"disabled\""@.len() == 24,
        ">Disabled"@.len() == 9,
        "<option value=\"log\""@.len() == 19,
        ">Log only"@.len() == 9,
        "<option value=\"smtp\""@.len() == 20,
        ">SMTP"@.len() == 5,
        "<div data-smtp-fields"@.len() == 21,
        ">"@.len() == 1,
        "<option value=\"starttls\""@.len() == 24,
        ">STARTTLS"@.len() == 9,
        "<option value=\"implicit\""@.len() == 24,
        ">Implicit TLS"@.len() == 13,
        "<option value=\"none\""@.len() == 20,
        ">None"@.len() == 5,
        "</div>"@.len() == 6,
        "name=\"smtp_password\" placeholder=\""@.len() == 34,
        "\""@.len() == 1,
        "hx-post=\"/settings/notifications/test\" hx-swap=\"none\">"@.len() == 54,
        "<div class=\"settings-row-label\">"@.len() == 32,
{
    reveal_strlit("<section class=\"settings-section\"><div class=\"settings-section-header settings-section-header-actions\"><div class=\"settings-section-heading\"><span class=\"settings-section-icon\" aria-hidden=\"true\">¤</span><div><h3>Email</h3><p class=\"settings-section-tagline\">How the instance sends mail — invitations and account notifications.</p></div></div><button type=\"button\" class=\"btn-secondary\" data-reauth-confirm=\"form-settings-notifications\">Save email settings</button></div><div class=\"settings-section-body\"><form id=\"form-settings-notifications\" method=\"post\" action=\"/settings/notifications\">¤<div class=\"settings-row\"><div class=\"settings-row-label\"><label for=\"settings-notifications-mode\">Delivery mode</label><p class=\"settings-row-hint\">Disabled sends nothing. Log records without sending. SMTP delivers real email.</p></div><div class=\"settings-row-control\"><select name=\"mode\" id=\"settings-notifications-mode\" class=\"settings-select\"><option value=\"disabled\"¤>Disabled</option><option value=\"log\"¤>Log only</option><option value=\"smtp\"¤>SMTP</option></select></div></div><div data-smtp-fields¤>¤¤<div class=\"settings-row\"><div class=\"settings-row-label\"><label for=\"settings-smtp-tls\">Encryption</label></div><div class=\"settings-row-control\"><select name=\"smtp_tls\" id=\"settings-smtp-tls\" class=\"settings-select\"><option value=\"starttls\"¤>STARTTLS</option><option value=\"implicit\"¤>Implicit TLS</option><option value=\"none\"¤>None</option></select></div></div>¤<div class=\"settings-row\"><div class=\"settings-row-label\"><label for=\"settings-smtp-password\">Password</label><p class=\"settings-row-hint\">Stored encrypted. Leave blank to keep the current password.</p></div><div class=\"settings-row-control\"><input type=\"password\" id=\"settings-smtp-password\" name=\"smtp_password\" placeholder=\"¤\" autocomplete=\"off\"></div></div>¤¤</div></form><form class=\"settings-row\" hx-post=\"/settings/notifications/test\" hx-swap=\"none\">¤<div class=\"settings-row-label\"><label>Test delivery</label><p class=\"settings-row-hint\">Sends a test message to your address using the saved settings.</p></div><div class=\"settings-row-control\"><button type=\"submit\" class=\"btn-secondary\">Send test email</button></div></form></div></section>");
    reveal_strlit("method=\"post\" action=\"/settings/notifications\">");
    reveal_strlit("<div class=\"settings-row\">");
    reveal_strlit("<option value=\"disabled\"");
    reveal_strlit(">Disabled");
    reveal_strlit("<option value=\"log\"");
    reveal_strlit(">Log only");
    reveal_strlit("<option value=\"smtp\"");
    reveal_strlit(">SMTP");
    reveal_strlit("<div data-smtp-fields");
    reveal_strlit(">");
    reveal_strlit("<option value=\"starttls\"");
    reveal_strlit(">STARTTLS");
    reveal_strlit("<option value=\"implicit\"");
    reveal_strlit(">Implicit TLS");
    reveal_strlit("<option value=\"none\"");
    reveal_strlit(">None");
    reveal_strlit("</div>");
    reveal_strlit("name=\"smtp_password\" placeholder=\"");
    reveal_strlit("\"");
    reveal_strlit("hx-post=\"/settings/notifications/test\" hx-swap=\"none\">");
    reveal_strlit("<div class=\"settings-row-label\">");
    let tpl = page::SETTINGS_NOTIFICATIONS_SECTION@;
    let holes = seq![196int, 592, 965, 1003, 1042, 1099, 1101, 1102, 1345, 1388, 1431, 1467, 1795, 1829, 1830, 1925];
    assert(markup::hole_at(tpl, holes, 0));
    assert(markup::hole_at(tpl, holes, 1));
    assert(markup::hole_at(tpl, holes, 2));
    assert(markup::hole_at(tpl, holes, 3));
    assert(markup::hole_at(tpl, holes, 4));
    assert(markup::hole_at(tpl, holes, 5));
    assert(markup::hole_at(tpl, holes, 6));
    assert(markup::hole_at(tpl, holes, 7));
    assert(markup::hole_at(tpl, holes, 8));
    assert(markup::hole_at(tpl, holes, 9));
    assert(markup::hole_at(tpl, holes, 10));
    assert(markup::hole_at(tpl, holes, 11));
    assert(markup::hole_at(tpl, holes, 12));
    assert(markup::hole_at(tpl, holes, 13));
    assert(markup::hole_at(tpl, holes, 14));
    assert(markup::hole_at(tpl, holes, 15));
    assert(tpl.subrange(545, 592) =~= "method=\"post\" action=\"/settings/notifications\">"@);
    assert(tpl.subrange(593, 619) =~= "<div class=\"settings-row\">"@);
    assert(tpl.subrange(941, 965) =~= "<option value=\"disabled\""@);
    assert(tpl.subrange(966, 975) =~= ">Disabled"@);
    assert(tpl.subrange(984, 1003) =~= "<option value=\"log\""@);
    assert(tpl.subrange(1004, 1013) =~= ">Log only"@);
    assert(tpl.subrange(1022, 1042) =~= "<option value=\"smtp\""@);
    assert(tpl.subrange(1043, 1048) =~= ">SMTP"@);
    assert(tpl.subrange(1078, 1099) =~= "<div data-smtp-fields"@);
    assert(tpl.subrange(1100, 1101) =~= ">"@);
    assert(tpl.subrange(1103, 1129) =~= "<div class=\"settings-row\">"@);
    assert(tpl.subrange(1321, 1345) =~= "<option value=\"starttls\""@);
    assert(tpl.subrange(1346, 1355) =~= ">STARTTLS"@);
    assert(tpl.subrange(1364, 1388) =~= "<option value=\"implicit\""@);
    assert(tpl.subrange(1389, 1402) =~= ">Implicit TLS"@);
    assert(tpl.subrange(1411, 1431) =~= "<option value=\"none\""@);
    assert(tpl.subrange(1432, 1437) =~= ">None"@);
    assert(tpl.subrange(1461, 1467) =~= "</div>"@);
    assert(tpl.subrange(1468, 1494) =~= "<div class=\"settings-row\">"@);
    assert(tpl.subrange(1761, 1795) =~= "name=\"smtp_password\" placeholder=\""@);
    assert(tpl.subrange(1796, 1797) =~= "\""@);
    assert(tpl.subrange(1823, 1829) =~= "</div>"@);
    assert(tpl.subrange(1831, 1837) =~= "</div>"@);
    assert(tpl.subrange(1871, 1925) =~= "hx-post=\"/settings/notifications/test\" hx-swap=\"none\">"@);
    assert(tpl.subrange(1926, 1958) =~= "<div class=\"settings-row-label\">"@);
    (tpl, holes)
}

/// The form of the mail server shows each value in the row of its own name.
pub proof fn law_notifications_section_of(
    ctx: &ChromeContext,
    f: page::SmtpTexts,
    smtp_password_set: bool,
    modes: Seq<bool>,
    smtp_hidden: bool,
    tls: Seq<bool>,
)
    ensures
        ({
            let out = page::notifications_section_of(ctx, f, smtp_password_set, modes, smtp_hidden, tls);
            let pw_placeholder = if smtp_password_set { "Saved — leave blank to keep" } else { "SMTP password" };
            &&& markup::shows(
                out,
                "method=\"post\" action=\"/settings/notifications\">"@ + shell::csrf_input_html(ctx.csrf_token@) + "<div class=\"settings-row\">"@,
            )
            &&& markup::shows(
                out,
                "<option value=\"disabled\""@ + html::when(modes[0], " selected"@) + ">Disabled"@,
            )
            &&& markup::shows(
                out,
                "<option value=\"log\""@ + html::when(modes[1], " selected"@) + ">Log only"@,
            )
            &&& markup::shows(
                out,
                "<option value=\"smtp\""@ + html::when(modes[2], " selected"@) + ">SMTP"@,
            )
            &&& markup::shows(
                out,
                "<div data-smtp-fields"@ + html::when(smtp_hidden, " hidden"@) + ">"@,
            )
            &&& markup::shows(
                out,
                ">"@ + page::settings_text_row_html( "settings-smtp-host"@, "smtp_host"@, "SMTP host"@, "text"@, f.host, "mail.example.com"@),
            )
            &&& markup::shows(
                out,
                page::settings_text_row_html( "settings-smtp-port"@, "smtp_port"@, "Port"@, "number"@, f.port, "587"@) + "<div class=\"settings-row\">"@,
            )
            &&& markup::shows(
                out,
                "<option value=\"starttls\""@ + html::when(tls[0], " selected"@) + ">STARTTLS"@,
            )
            &&& markup::shows(
                out,
                "<option value=\"implicit\""@ + html::when(tls[1], " selected"@) + ">Implicit TLS"@,
            )
            &&& markup::shows(
                out,
                "<option value=\"none\""@ + html::when(tls[2], " selected"@) + ">None"@,
            )
            &&& markup::shows(
                out,
                "</div>"@ + page::settings_text_row_html( "settings-smtp-username"@, "smtp_username"@, "Username"@, "text"@, f.username, "user@example.com"@) + "<div class=\"settings-row\">"@,
            )
            &&& markup::shows(
                out,
                "name=\"smtp_password\" placeholder=\""@ + html::escaped(pw_placeholder@) + "\""@,
            )
            &&& markup::shows(
                out,
                "</div>"@ + page::settings_text_row_html( "settings-smtp-from-email"@, "smtp_from_email"@, "From address"@, "email"@, f.from_email, "noreply@example.com"@),
            )
            &&& markup::shows(
                out,
                page::settings_text_row_html( "settings-smtp-from-name"@, "smtp_from_name"@, "From name"@, "text"@, f.from_name, "Sylva Hearth"@) + "</div>"@,
            )
            &&& markup::shows(
                out,
                "hx-post=\"/settings/notifications/test\" hx-swap=\"none\">"@ + shell::csrf_input_html(ctx.csrf_token@) + "<div class=\"settings-row-label\">"@,
            )
        }),
{
    let pw_placeholder = if smtp_password_set { "Saved — leave blank to keep" } else { "SMTP password" };
    let (tpl, holes) = lemma_notifications_section_of();
    let parts = seq![
        MAIL_ICON@,
        shell::csrf_input_html(ctx.csrf_token@),
        html::when(modes[0], " selected"@),
        html::when(modes[1], " selected"@),
        html::when(modes[2], " selected"@),
        html::when(smtp_hidden, " hidden"@),
        page::settings_text_row_html( "settings-smtp-host"@, "smtp_host"@, "SMTP host"@, "text"@, f.host, "mail.example.com"@),
        page::settings_text_row_html( "settings-smtp-port"@, "smtp_port"@, "Port"@, "number"@, f.port, "587"@),
        html::when(tls[0], " selected"@),
        html::when(tls[1], " selected"@),
        html::when(tls[2], " selected"@),
        page::settings_text_row_html( "settings-smtp-username"@, "smtp_username"@, "Username"@, "text"@, f.username, "user@example.com"@),
        html::escaped(pw_placeholder@),
        page::settings_text_row_html( "settings-smtp-from-email"@, "smtp_from_email"@, "From address"@, "email"@, f.from_email, "noreply@example.com"@),
        page::settings_text_row_html( "settings-smtp-from-name"@, "smtp_from_name"@, "From name"@, "text"@, f.from_name, "Sylva Hearth"@),
        shell::csrf_input_html(ctx.csrf_token@),
    ];
    assert(page::notifications_section_of(ctx, f, smtp_password_set, modes, smtp_hidden, tls) == markup::filled(tpl, parts, 16).done()) by {
        reveal_with_fuel(markup::filled, 17);
    }
    markup::lemma_hole(
        tpl,
        holes,
        parts,
        1,
        "method=\"post\" action=\"/settings/notifications\">"@,
        "<div class=\"settings-row\">"@,
    );
    markup::lemma_hole(tpl, holes, parts, 2, "<option value=\"disabled\""@, ">Disabled"@);
    markup::lemma_hole(tpl, holes, parts, 3, "<option value=\"log\""@, ">Log only"@);
    markup::lemma_hole(tpl, holes, parts, 4, "<option value=\"smtp\""@, ">SMTP"@);
    markup::lemma_hole(tpl, holes, parts, 5, "<div data-smtp-fields"@, ">"@);
    assert(tpl.subrange(1102, 1102) =~= Seq::<char>::empty());
    markup::lemma_hole(tpl, holes, parts, 6, ">"@, Seq::<char>::empty());
    assert(">"@ + parts[6] + Seq::<char>::empty() =~= ">"@ + parts[6]);
    assert(tpl.subrange(1102, 1102) =~= Seq::<char>::empty());
    markup::lemma_hole(tpl, holes, parts, 7, Seq::<char>::empty(), "<div class=\"settings-row\">"@);
    assert(Seq::<char>::empty() + parts[7] + "<div class=\"settings-row\">"@ =~= parts[7] + "<div class=\"settings-row\">"@);
    markup::lemma_hole(tpl, holes, parts, 8, "<option value=\"starttls\""@, ">STARTTLS"@);
    markup::lemma_hole(tpl, holes, parts, 9, "<option value=\"implicit\""@, ">Implicit TLS"@);
    markup::lemma_hole(tpl, holes, parts, 10, "<option value=\"none\""@, ">None"@);
    markup::lemma_hole(tpl, holes, parts, 11, "</div>"@, "<div class=\"settings-row\">"@);
    markup::lemma_hole(tpl, holes, parts, 12, "name=\"smtp_password\" placeholder=\""@, "\""@);
    assert(tpl.subrange(1830, 1830) =~= Seq::<char>::empty());
    markup::lemma_hole(tpl, holes, parts, 13, "</div>"@, Seq::<char>::empty());
    assert("</div>"@ + parts[13] + Seq::<char>::empty() =~= "</div>"@ + parts[13]);
    assert(tpl.subrange(1830, 1830) =~= Seq::<char>::empty());
    markup::lemma_hole(tpl, holes, parts, 14, Seq::<char>::empty(), "</div>"@);
    assert(Seq::<char>::empty() + parts[14] + "</div>"@ =~= parts[14] + "</div>"@);
    markup::lemma_hole(
        tpl,
        holes,
        parts,
        15,
        "hx-post=\"/settings/notifications/test\" hx-swap=\"none\">"@,
        "<div class=\"settings-row-label\">"@,
    );
}

/// Where the holes of the template stand, and the texts around them.
proof fn lemma_settings_recovery_section() -> (at: (Seq<char>, Seq<int>))
    ensures
        at.0 == page::SETTINGS_RECOVERY_SECTION@,
        at.1 == seq![126int, 439],
        at.0.len() == 736,
        markup::holes_at(at.0, at.1),
        at.0.subrange(407, 439) == "<div class=\"settings-row-label\">"@,
        at.0.subrange(440, 469) == "<p class=\"settings-row-hint\">"@,
        "<div class=\"settings-row-label\">"@.len() == 32,
        "<p class=\"settings-row-hint\">"@.len() == 29,
{
    reveal_strlit("<section class=\"settings-section\"><div class=\"settings-section-header\"><span class=\"settings-section-icon\" aria-hidden=\"true\">¤</span><div><h3>Server recovery code</h3><p class=\"settings-section-tagline\">The break-glass key: it unlocks owner recovery and forcing owner changes past the veto window. Rotate it if it may be exposed.</p></div></div><div class=\"settings-section-body\"><div class=\"settings-row\"><div class=\"settings-row-label\">¤<p class=\"settings-row-hint\">Rotating shows the new code once and immediately invalidates the old one.</p></div><div class=\"settings-row-control\"><button type=\"button\" class=\"btn-secondary\" data-open-modal=\"/modals/settings/recovery-code\">Rotate recovery code</button></div></div></div></section>");
    reveal_strlit("<div class=\"settings-row-label\">");
    reveal_strlit("<p class=\"settings-row-hint\">");
    let tpl = page::SETTINGS_RECOVERY_SECTION@;
    let holes = seq![126int, 439];
    assert(markup::hole_at(tpl, holes, 0));
    assert(markup::hole_at(tpl, holes, 1));
    assert(tpl.subrange(407, 439) =~= "<div class=\"settings-row-label\">"@);
    assert(tpl.subrange(440, 469) =~= "<p class=\"settings-row-hint\">"@);
    (tpl, holes)
}

/// The section of the recovery code says when the code was made, if there is one.
pub proof fn law_settings_recovery_section(created_at: Option<&Timestamp>)
    ensures
        ({
            let out = page::settings_recovery_section_html(created_at);
            &&& markup::shows(
                out,
                "<div class=\"settings-row-label\">"@ + (match created_at { Some(at) => html::template(page::RECOVERY_CODE_ACTIVE@) .date(at@, model::SHORT_DATE@) .done(), None => page::RECOVERY_CODE_NONE@, }) + "<p class=\"settings-row-hint\">"@,
            )
        }),
{
    let (tpl, holes) = lemma_settings_recovery_section();
    let parts = seq![
        KEY_ICON@,
        match created_at { Some(at) => html::template(page::RECOVERY_CODE_ACTIVE@) .date(at@, model::SHORT_DATE@) .done(), None => page::RECOVERY_CODE_NONE@, },
    ];
    assert(page::settings_recovery_section_html(created_at) == markup::filled(tpl, parts, 2).done()) by {
        reveal_with_fuel(markup::filled, 3);
    }
    markup::lemma_hole(
        tpl,
        holes,
        parts,
        1,
        "<div class=\"settings-row-label\">"@,
        "<p class=\"settings-row-hint\">"@,
    );
}

/// Where the holes of the template stand, and the texts around them.
proof fn lemma_settings_shutdown_modal() -> (at: (Seq<char>, Seq<int>))
    ensures
        at.0 == page::SETTINGS_SHUTDOWN_MODAL@,
        at.1 == seq![227int, 314, 469, 658, 732, 1026, 1125],
        at.0.len() == 1462,
        markup::holes_at(at.0, at.1),
        at.0.subrange(461, 469) == "<strong>"@,
        at.0.subrange(470, 479) == "</strong>"@,
        at.0.subrange(726, 732) == "</div>"@,
        at.0.subrange(733, 771) == "<label class=\"confirm-checkbox-field\">"@,
        at.0.subrange(1012, 1026) == "<strong>&quot;"@,
        at.0.subrange(1027, 1033) == "&quot;"@,
        at.0.subrange(1080, 1125) == "id=\"confirm-shutdown-name\" data-close-email=\""@,
        at.0.subrange(1126, 1127) == "\""@,
        "<strong>"@.len() == 8,
        "</strong>"@.len() == 9,
        "</div>"@.len() == 6,
        "<label class=\"confirm-checkbox-field\">"@.len() == 38,
        "<strong>&quot;"@.len() == 14,
        "&quot;"@.len() == 6,
        "id=\"confirm-shutdown-name\" data-close-email=\""@.len() == 45,
        "\""@.len() == 1,
{
    reveal_strlit("<dialog id=\"dlg-settings-shutdown\" class=\"action-dialog action-dialog-centered\"><form id=\"form-settings-shutdown\" method=\"post\" action=\"/settings/shutdown\"><div class=\"dialog-header\"><div class=\"dialog-icon dialog-icon-danger\">¤</div><button type=\"button\" class=\"dialog-close\" data-close-dialog aria-label=\"Close\">¤</button></div><h2 class=\"dialog-center-title\">Close this server</h2><p class=\"dialog-description dialog-center-text\">This permanently shuts down <strong>¤</strong> and erases every account and all data on it. Everyone is signed out and the server shows a closed page from now on.</p><div class=\"dialog-alert dialog-alert-danger\" role=\"alert\">¤<span>This wipes all data for everyone and cannot be undone.</span></div>¤<label class=\"confirm-checkbox-field\"><input type=\"checkbox\" class=\"member-checkbox\" data-close-ack><span>I understand this permanently closes the server for all members.</span></label><div class=\"field confirm-name-field\"><label for=\"confirm-shutdown-name\">Type the server name <strong>&quot;¤&quot;</strong> to confirm</label><input type=\"text\" id=\"confirm-shutdown-name\" data-close-email=\"¤\" autocomplete=\"off\" spellcheck=\"false\" autocapitalize=\"off\"></div><div class=\"dialog-actions\"><button type=\"button\" class=\"btn-secondary\" data-close-dialog>Cancel</button><button type=\"button\" class=\"btn-danger\" data-reauth-confirm=\"form-settings-shutdown\" data-reauth-critical disabled>Close this server</button></div></form></dialog>");
    reveal_strlit("<strong>");
    reveal_strlit("</strong>");
    reveal_strlit("</div>");
    reveal_strlit("<label class=\"confirm-checkbox-field\">");
    reveal_strlit("<strong>&quot;");
    reveal_strlit("&quot;");
    reveal_strlit("id=\"confirm-shutdown-name\" data-close-email=\"");
    reveal_strlit("\"");
    let tpl = page::SETTINGS_SHUTDOWN_MODAL@;
    let holes = seq![227int, 314, 469, 658, 732, 1026, 1125];
    assert(markup::hole_at(tpl, holes, 0));
    assert(markup::hole_at(tpl, holes, 1));
    assert(markup::hole_at(tpl, holes, 2));
    assert(markup::hole_at(tpl, holes, 3));
    assert(markup::hole_at(tpl, holes, 4));
    assert(markup::hole_at(tpl, holes, 5));
    assert(markup::hole_at(tpl, holes, 6));
    assert(tpl.subrange(461, 469) =~= "<strong>"@);
    assert(tpl.subrange(470, 479) =~= "</strong>"@);
    assert(tpl.subrange(726, 732) =~= "</div>"@);
    assert(tpl.subrange(733, 771) =~= "<label class=\"confirm-checkbox-field\">"@);
    assert(tpl.subrange(1012, 1026) =~= "<strong>&quot;"@);
    assert(tpl.subrange(1027, 1033) =~= "&quot;"@);
    assert(tpl.subrange(1080, 1125) =~= "id=\"confirm-shutdown-name\" data-close-email=\""@);
    assert(tpl.subrange(1126, 1127) =~= "\""@);
    (tpl, holes)
}

/// The dialog that closes the instance asks for its name and carries the token of the session.
pub proof fn law_settings_shutdown_modal(ctx: &ChromeContext)
    ensures
        ({
            let out = page::settings_shutdown_modal_html(ctx);
            let name = ctx.instance_name;
            &&& markup::shows(out, "<strong>"@ + html::escaped(name@) + "</strong>"@)
            &&& markup::shows(
                out,
                "</div>"@ + shell::csrf_input_html(ctx.csrf_token@) + "<label class=\"confirm-checkbox-field\">"@,
            )
            &&& markup::shows(out, "<strong>&quot;"@ + html::escaped(name@) + "&quot;"@)
            &&& markup::shows(
                out,
                "id=\"confirm-shutdown-name\" data-close-email=\""@ + html::escaped(name@) + "\""@,
            )
        }),
{
    let name = ctx.instance_name;
    let (tpl, holes) = lemma_settings_shutdown_modal();
    let parts = seq![
        TRASH_ICON@,
        CLOSE_ICON@,
        html::escaped(name@),
        ALERT_CIRCLE_ICON@,
        shell::csrf_input_html(ctx.csrf_token@),
        html::escaped(name@),
        html::escaped(name@),
    ];
    assert(page::settings_shutdown_modal_html(ctx) == markup::filled(tpl, parts, 7).done()) by {
        reveal_with_fuel(markup::filled, 8);
    }
    markup::lemma_hole(tpl, holes, parts, 2, "<strong>"@, "</strong>"@);
    markup::lemma_hole(
        tpl,
        holes,
        parts,
        4,
        "</div>"@,
        "<label class=\"confirm-checkbox-field\">"@,
    );
    markup::lemma_hole(tpl, holes, parts, 5, "<strong>&quot;"@, "&quot;"@);
    markup::lemma_hole(
        tpl,
        holes,
        parts,
        6,
        "id=\"confirm-shutdown-name\" data-close-email=\""@,
        "\""@,
    );
}

/// Where the holes of the template stand, and the texts around them.
proof fn lemma_recovery_rotate_form() -> (at: (Seq<char>, Seq<int>))
    ensures
        at.0 == page::RECOVERY_ROTATE_FORM@,
        at.1 == seq![182int, 269, 527, 528],
        at.0.len() == 958,
        markup::holes_at(at.0, at.1),
        at.0.subrange(523, 527) == "</p>"@,
        at.0.subrange(529, 548) == "<div class=\"field\">"@,
        "</p>"@.len() == 4,
        "<div class=\"field\">"@.len() == 19,
{
    reveal_strlit("<form id=\"form-recovery-rotate\" hx-post=\"/settings/recovery-code/rotate\" hx-target=\"#recovery-rotate-content\" hx-swap=\"innerHTML\"><div class=\"dialog-header\"><div class=\"dialog-icon\">¤</div><button type=\"button\" class=\"dialog-close\" data-close-dialog aria-label=\"Close\">¤</button></div><h2 class=\"dialog-center-title\">Rotate the server recovery code</h2><p class=\"dialog-description dialog-center-text\">This generates a new server recovery code and immediately invalidates the current one. Enter the current code to confirm.</p>¤¤<div class=\"field\"><label for=\"rotate-current-code\">Current recovery code</label><input type=\"text\" id=\"rotate-current-code\" name=\"current_code\" autocomplete=\"off\" spellcheck=\"false\" autocapitalize=\"off\" placeholder=\"XXXX-XXXX-XXXX-…\" required></div><div class=\"dialog-actions\"><button type=\"button\" class=\"btn-secondary\" data-close-dialog>Cancel</button><button type=\"submit\" class=\"btn-danger\">Rotate code</button></div></form>");
    reveal_strlit("</p>");
    reveal_strlit("<div class=\"field\">");
    let tpl = page::RECOVERY_ROTATE_FORM@;
    let holes = seq![182int, 269, 527, 528];
    assert(markup::hole_at(tpl, holes, 0));
    assert(markup::hole_at(tpl, holes, 1));
    assert(markup::hole_at(tpl, holes, 2));
    assert(markup::hole_at(tpl, holes, 3));
    assert(tpl.subrange(523, 527) =~= "</p>"@);
    assert(tpl.subrange(529, 548) =~= "<div class=\"field\">"@);
    (tpl, holes)
}

/// The form of a new recovery code shows its error and carries the token of the session.
pub proof fn law_recovery_rotate_form(csrf_token: Seq<char>, error: Option<Seq<char>>)
    ensures
        ({
            let out = page::recovery_rotate_form_html(csrf_token, error);
            &&& markup::shows(
                out,
                "</p>"@ + (match error { Some(err) => html::template(page::ROTATE_ERROR@) .html(ALERT_CIRCLE_ICON@) .text(err) .done(), None => Seq::empty(), }),
            )
            &&& markup::shows(out, shell::csrf_input_html(csrf_token) + "<div class=\"field\">"@)
        }),
{
    let (tpl, holes) = lemma_recovery_rotate_form();
    let parts = seq![
        KEY_ICON@,
        CLOSE_ICON@,
        match error { Some(err) => html::template(page::ROTATE_ERROR@) .html(ALERT_CIRCLE_ICON@) .text(err) .done(), None => Seq::empty(), },
        shell::csrf_input_html(csrf_token),
    ];
    assert(page::recovery_rotate_form_html(csrf_token, error) == markup::filled(tpl, parts, 4).done()) by {
        reveal_with_fuel(markup::filled, 5);
    }
    assert(tpl.subrange(528, 528) =~= Seq::<char>::empty());
    markup::lemma_hole(tpl, holes, parts, 2, "</p>"@, Seq::<char>::empty());
    assert("</p>"@ + parts[2] + Seq::<char>::empty() =~= "</p>"@ + parts[2]);
    assert(tpl.subrange(528, 528) =~= Seq::<char>::empty());
    markup::lemma_hole(tpl, holes, parts, 3, Seq::<char>::empty(), "<div class=\"field\">"@);
    assert(Seq::<char>::empty() + parts[3] + "<div class=\"field\">"@ =~= parts[3] + "<div class=\"field\">"@);
}

/// Where the holes of the template stand, and the texts around them.
proof fn lemma_recovery_rotate_modal() -> (at: (Seq<char>, Seq<int>))
    ensures
        at.0 == page::RECOVERY_ROTATE_MODAL@,
        at.1 == seq![112int],
        at.0.len() == 128,
        markup::holes_at(at.0, at.1),
        at.0.subrange(78, 112) == "<div id=\"recovery-rotate-content\">"@,
        at.0.subrange(113, 119) == "</div>"@,
        "<div id=\"recovery-rotate-content\">"@.len() == 34,
        "</div>"@.len() == 6,
{
    reveal_strlit("<dialog id=\"dlg-recovery-rotate\" class=\"action-dialog action-dialog-centered\"><div id=\"recovery-rotate-content\">¤</div></dialog>");
    reveal_strlit("<div id=\"recovery-rotate-content\">");
    reveal_strlit("</div>");
    let tpl = page::RECOVERY_ROTATE_MODAL@;
    let holes = seq![112int];
    assert(markup::hole_at(tpl, holes, 0));
    assert(tpl.subrange(78, 112) =~= "<div id=\"recovery-rotate-content\">"@);
    assert(tpl.subrange(113, 119) =~= "</div>"@);
    (tpl, holes)
}

/// The dialog of a new recovery code holds its form.
pub proof fn law_recovery_rotate_modal(ctx: &ChromeContext)
    ensures
        ({
            let out = page::recovery_rotate_modal_html(ctx);
            &&& markup::shows(
                out,
                "<div id=\"recovery-rotate-content\">"@ + page::recovery_rotate_form_html(ctx.csrf_token@, None) + "</div>"@,
            )
        }),
{
    let (tpl, holes) = lemma_recovery_rotate_modal();
    let parts = seq![page::recovery_rotate_form_html(ctx.csrf_token@, None)];
    assert(page::recovery_rotate_modal_html(ctx) == markup::filled(tpl, parts, 1).done()) by {
        reveal_with_fuel(markup::filled, 2);
    }
    markup::lemma_hole(tpl, holes, parts, 0, "<div id=\"recovery-rotate-content\">"@, "</div>"@);
}

/// Where the holes of the template stand, and the texts around them.
proof fn lemma_settings_page() -> (at: (Seq<char>, Seq<int>))
    ensures
        at.0 == page::SETTINGS_PAGE@,
        at.1 == seq![0int, 30, 60, 90, 99],
        at.0.len() == 109,
        markup::holes_at(at.0, at.1),
        at.0.subrange(1, 30) == "<hr class=\"settings-divider\">"@,
        at.0.subrange(31, 60) == "<hr class=\"settings-divider\">"@,
        at.0.subrange(61, 90) == "<hr class=\"settings-divider\">"@,
        at.0.subrange(91, 99) == "<script>"@,
        "<hr class=\"settings-divider\">"@.len() == 29,
        "<script>"@.len() == 8,
{
    reveal_strlit("¤<hr class=\"settings-divider\">¤<hr class=\"settings-divider\">¤<hr class=\"settings-divider\">¤<script>¤</script>");
    reveal_strlit("<hr class=\"settings-divider\">");
    reveal_strlit("<script>");
    let tpl = page::SETTINGS_PAGE@;
    let holes = seq![0int, 30, 60, 90, 99];
    assert(markup::hole_at(tpl, holes, 0));
    assert(markup::hole_at(tpl, holes, 1));
    assert(markup::hole_at(tpl, holes, 2));
    assert(markup::hole_at(tpl, holes, 3));
    assert(markup::hole_at(tpl, holes, 4));
    assert(tpl.subrange(1, 30) =~= "<hr class=\"settings-divider\">"@);
    assert(tpl.subrange(31, 60) =~= "<hr class=\"settings-divider\">"@);
    assert(tpl.subrange(61, 90) =~= "<hr class=\"settings-divider\">"@);
    assert(tpl.subrange(91, 99) =~= "<script>"@);
    (tpl, holes)
}

/// The settings hold the sections in their places.
pub proof fn law_settings_page(
    ctx: &ChromeContext,
    notifications: &NotificationsConfig,
    smtp_password_set: bool,
    recovery_created_at: Option<&Timestamp>,
)
    ensures
        ({
            let out = page::settings_page_html(ctx, notifications, smtp_password_set, recovery_created_at);
            &&& markup::shows(out, "<title>"@ + html::escaped("Settings"@) + " · "@)
            &&& markup::shows(
                out,
                page::settings_identity_section_html(ctx) + "<hr class=\"settings-divider\">"@,
            )
            &&& markup::shows(
                out,
                "<hr class=\"settings-divider\">"@ + page::settings_notifications_section_html(ctx, notifications, smtp_password_set) + "<hr class=\"settings-divider\">"@,
            )
            &&& markup::shows(
                out,
                "<hr class=\"settings-divider\">"@ + page::settings_recovery_section_html(recovery_created_at) + "<hr class=\"settings-divider\">"@,
            )
            &&& markup::shows(
                out,
                "<hr class=\"settings-divider\">"@ + page::settings_danger_section_html() + "<script>"@,
            )
            &&& markup::shows(
                out,
                (page::settings_identity_section_html(ctx) + "<hr class=\"settings-divider\">"@ + page::settings_notifications_section_html(ctx, notifications, smtp_password_set)) + "<hr class=\"settings-divider\">"@,
            )
            &&& markup::shows(
                out,
                "<hr class=\"settings-divider\">"@ + (page::settings_notifications_section_html(ctx, notifications, smtp_password_set) + "<hr class=\"settings-divider\">"@ + page::settings_recovery_section_html(recovery_created_at)) + "<hr class=\"settings-divider\">"@,
            )
        }),
{
    let (tpl, holes) = lemma_settings_page();
    let parts = seq![
        page::settings_identity_section_html(ctx),
        page::settings_notifications_section_html(ctx, notifications, smtp_password_set),
        page::settings_recovery_section_html(recovery_created_at),
        page::settings_danger_section_html(),
        SETTINGS_SMTP_TOGGLE_JS@,
    ];
    let content = markup::filled(tpl, parts, 5).done();
    let out = page::settings_page_html(ctx, notifications, smtp_password_set, recovery_created_at);
    assert(out == shell::shell_app_wide_html(ctx, "Settings"@, PageId::Settings, content)) by {
        reveal_with_fuel(markup::filled, 6);
    }
    around::lemma_app_content(ctx, "Settings"@, PageId::Settings, content, true);
    assert(tpl.subrange(0, 0) =~= Seq::<char>::empty());
    markup::lemma_hole(
        tpl,
        holes,
        parts,
        0,
        Seq::<char>::empty(),
        "<hr class=\"settings-divider\">"@,
    );
    assert(Seq::<char>::empty() + parts[0] + "<hr class=\"settings-divider\">"@ =~= parts[0] + "<hr class=\"settings-divider\">"@);
    markup::lemma_shows_inner(
        out,
        content,
        page::settings_identity_section_html(ctx) + "<hr class=\"settings-divider\">"@,
    );
    markup::lemma_hole(
        tpl,
        holes,
        parts,
        1,
        "<hr class=\"settings-divider\">"@,
        "<hr class=\"settings-divider\">"@,
    );
    markup::lemma_shows_inner(
        out,
        content,
        "<hr class=\"settings-divider\">"@ + page::settings_notifications_section_html(ctx, notifications, smtp_password_set) + "<hr class=\"settings-divider\">"@,
    );
    markup::lemma_hole(
        tpl,
        holes,
        parts,
        2,
        "<hr class=\"settings-divider\">"@,
        "<hr class=\"settings-divider\">"@,
    );
    markup::lemma_shows_inner(
        out,
        content,
        "<hr class=\"settings-divider\">"@ + page::settings_recovery_section_html(recovery_created_at) + "<hr class=\"settings-divider\">"@,
    );
    markup::lemma_hole(tpl, holes, parts, 3, "<hr class=\"settings-divider\">"@, "<script>"@);
    markup::lemma_shows_inner(
        out,
        content,
        "<hr class=\"settings-divider\">"@ + page::settings_danger_section_html() + "<script>"@,
    );
    assert(tpl.subrange(0, 0) =~= Seq::<char>::empty());
    markup::lemma_two_holes(
        tpl,
        holes,
        parts,
        0,
        Seq::<char>::empty(),
        "<hr class=\"settings-divider\">"@,
        "<hr class=\"settings-divider\">"@,
    );
    assert(Seq::<char>::empty() + (parts[0] + "<hr class=\"settings-divider\">"@ + parts[1]) + "<hr class=\"settings-divider\">"@ =~= (parts[0] + "<hr class=\"settings-divider\">"@ + parts[1]) + "<hr class=\"settings-divider\">"@);
    markup::lemma_two_holes(
        tpl,
        holes,
        parts,
        1,
        "<hr class=\"settings-divider\">"@,
        "<hr class=\"settings-divider\">"@,
        "<hr class=\"settings-divider\">"@,
    );
    markup::lemma_shows_inner(
        out,
        content,
        (page::settings_identity_section_html(ctx) + "<hr class=\"settings-divider\">"@ + page::settings_notifications_section_html(ctx, notifications, smtp_password_set)) + "<hr class=\"settings-divider\">"@,
    );
    markup::lemma_shows_inner(
        out,
        content,
        "<hr class=\"settings-divider\">"@ + (page::settings_notifications_section_html(ctx, notifications, smtp_password_set) + "<hr class=\"settings-divider\">"@ + page::settings_recovery_section_html(recovery_created_at)) + "<hr class=\"settings-divider\">"@,
    );
}

/// The form of the mail server holds what is set up, each value in its own place, and the usual port
/// where nothing is.
pub proof fn law_mail_server_texts(n: &NotificationsConfig, s: model::SmtpConfig, name: String)
    ensures
        ({
            let f = page::smtp_texts(n);
            &&& n == NotificationsConfig::Smtp(s) ==> {
                &&& f.host == s.host@
                &&& f.port == text::decimal(s.port as nat)
                &&& f.username == s.username@
                &&& f.from_email == s.from_email@
                &&& s.from_name == Some(name) ==> f.from_name == name@
                &&& s.from_name is None ==> f.from_name == ""@
                &&& page::tls_marks(n) == seq![
                    s.tls == SmtpTls::Starttls,
                    s.tls == SmtpTls::Implicit,
                    s.tls == SmtpTls::Unencrypted,
                ]
                &&& page::mode_marks(n) == seq![false, false, true]
            }
            &&& n == NotificationsConfig::Disabled || n == NotificationsConfig::Log ==> {
                &&& f.host == ""@
                &&& f.port == text::decimal(587)
                &&& f.username == ""@
                &&& f.from_email == ""@
                &&& f.from_name == ""@
                &&& page::tls_marks(n) == seq![true, false, false]
            }
            &&& n == NotificationsConfig::Disabled ==> page::mode_marks(n) == seq![
                true,
                false,
                false,
            ]
            &&& n == NotificationsConfig::Log ==> page::mode_marks(n) == seq![false, true, false]
        }),
{
}

/// The section shows what is set up.
pub proof fn law_notifications_section(
    ctx: &ChromeContext,
    n: &NotificationsConfig,
    saved: bool,
)
    ensures
        page::settings_notifications_section_html(ctx, n, saved) == page::notifications_section_of(
            ctx,
            page::smtp_texts(n),
            saved,
            page::mode_marks(n),
            n == NotificationsConfig::Disabled || n == NotificationsConfig::Log,
            page::tls_marks(n),
        ),
{
}

} // verus!
