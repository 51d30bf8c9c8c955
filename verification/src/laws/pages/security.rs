//! What the security settings show.

use vstd::prelude::*;
use crate::display;
use crate::html;
use crate::laws::markup;
use crate::model::{Session, Timestamp, TotpCredential, Uuid, WebauthnCredentialRow};
use crate::model;
use crate::text;
use crate::views::icons::{
    ALERT_CIRCLE_ICON, CLOSE_ICON, DEVICE_MOBILE_ICON, EYE_ICON, EYE_OFF_ICON, FINGERPRINT_ICON,
    INFO_ICON, KEY_ICON, LAPTOP_ICON, PENCIL_ICON, SHIELD_ICON, TRASH_ICON,
};
use crate::views::security as page;
use crate::views::shell::ChromeContext;
use crate::views::shell;

verus! {

/// Where the holes of the template stand, and the texts around them.
proof fn lemma_change_password_input() -> (at: (Seq<char>, Seq<int>))
    ensures
        at.0 == page::CHANGE_PASSWORD_INPUT@,
        at.1 == seq![53int, 356, 389],
        at.0.len() == 412,
        markup::holes_at(at.0, at.1),
        at.0.subrange(0, 53) == "<div class=\"password-input-wrap\" id=\"change-pw-field\""@,
        at.0.subrange(54, 55) == ">"@,
        "<div class=\"password-input-wrap\" id=\"change-pw-field\""@.len() == 53,
        ">"@.len() == 1,
{
    reveal_strlit("<div class=\"password-input-wrap\" id=\"change-pw-field\"¤><input type=\"password\" id=\"change-pw-new\" name=\"new_password\" data-pw-gate=\"form-change-password\" autocomplete=\"new-password\" minlength=\"8\" placeholder=\"New password\" required><button type=\"button\" class=\"password-toggle\" data-pw-toggle=\"change-pw-new\" aria-label=\"Show password\"><span class=\"pw-eye\">¤</span><span class=\"pw-eye-off\">¤</span></button></div>");
    reveal_strlit("<div class=\"password-input-wrap\" id=\"change-pw-field\"");
    reveal_strlit(">");
    let tpl = page::CHANGE_PASSWORD_INPUT@;
    let holes = seq![53int, 356, 389];
    assert(markup::hole_at(tpl, holes, 0));
    assert(markup::hole_at(tpl, holes, 1));
    assert(markup::hole_at(tpl, holes, 2));
    assert(tpl.subrange(0, 53) =~= "<div class=\"password-input-wrap\" id=\"change-pw-field\""@);
    assert(tpl.subrange(54, 55) =~= ">"@);
    (tpl, holes)
}

/// The field of the new password takes the place of the one on the page where that is asked for.
pub proof fn law_change_password_input(oob: bool)
    ensures
        ({
            let out = page::change_password_input_html(oob);
            &&& markup::shows(
                out,
                "<div class=\"password-input-wrap\" id=\"change-pw-field\""@ + html::when(oob, " hx-swap-oob=\"true\""@) + ">"@,
            )
        }),
{
    let (tpl, holes) = lemma_change_password_input();
    let parts = seq![html::when(oob, " hx-swap-oob=\"true\""@), EYE_ICON@, EYE_OFF_ICON@];
    assert(page::change_password_input_html(oob) == markup::filled(tpl, parts, 3).done()) by {
        reveal_with_fuel(markup::filled, 4);
    }
    markup::lemma_hole(
        tpl,
        holes,
        parts,
        0,
        "<div class=\"password-input-wrap\" id=\"change-pw-field\""@,
        ">"@,
    );
}

/// Where the holes of the template stand, and the texts around them.
proof fn lemma_change_password_button() -> (at: (Seq<char>, Seq<int>))
    ensures
        at.0 == page::CHANGE_PASSWORD_BUTTON@,
        at.1 == seq![62int, 138],
        at.0.len() == 176,
        markup::holes_at(at.0, at.1),
        at.0.subrange(8, 62) == "type=\"button\" id=\"change-pw-btn\" class=\"btn-secondary\""@,
        at.0.subrange(63, 85) == " data-reauth-confirm=\""@,
        "type=\"button\" id=\"change-pw-btn\" class=\"btn-secondary\""@.len() == 54,
        " data-reauth-confirm=\""@.len() == 22,
{
    reveal_strlit("<button type=\"button\" id=\"change-pw-btn\" class=\"btn-secondary\"¤ data-reauth-confirm=\"form-change-password\" data-keep-source-open disabled>¤<span>Change password</span></button>");
    reveal_strlit("type=\"button\" id=\"change-pw-btn\" class=\"btn-secondary\"");
    reveal_strlit(" data-reauth-confirm=\"");
    let tpl = page::CHANGE_PASSWORD_BUTTON@;
    let holes = seq![62int, 138];
    assert(markup::hole_at(tpl, holes, 0));
    assert(markup::hole_at(tpl, holes, 1));
    assert(tpl.subrange(8, 62) =~= "type=\"button\" id=\"change-pw-btn\" class=\"btn-secondary\""@);
    assert(tpl.subrange(63, 85) =~= " data-reauth-confirm=\""@);
    (tpl, holes)
}

/// The button of the new password takes the place of the one on the page where that is asked for.
pub proof fn law_change_password_button(oob: bool)
    ensures
        ({
            let out = page::change_password_button_html(oob);
            &&& markup::shows(
                out,
                "type=\"button\" id=\"change-pw-btn\" class=\"btn-secondary\""@ + html::when(oob, " hx-swap-oob=\"true\""@) + " data-reauth-confirm=\""@,
            )
        }),
{
    let (tpl, holes) = lemma_change_password_button();
    let parts = seq![html::when(oob, " hx-swap-oob=\"true\""@), KEY_ICON@];
    assert(page::change_password_button_html(oob) == markup::filled(tpl, parts, 2).done()) by {
        reveal_with_fuel(markup::filled, 3);
    }
    markup::lemma_hole(
        tpl,
        holes,
        parts,
        0,
        "type=\"button\" id=\"change-pw-btn\" class=\"btn-secondary\""@,
        " data-reauth-confirm=\""@,
    );
}

/// Where the holes of the template stand, and the texts around them.
proof fn lemma_factor_removed_content() -> (at: (Seq<char>, Seq<int>))
    ensures
        at.0 == page::FACTOR_REMOVED_CONTENT@,
        at.1 == seq![71int, 158, 206, 261],
        at.0.len() == 389,
        markup::holes_at(at.0, at.1),
        at.0.subrange(174, 206) == "<h2 class=\"dialog-center-title\">"@,
        at.0.subrange(207, 212) == "</h2>"@,
        at.0.subrange(212, 261) == "<p class=\"dialog-description dialog-center-text\">"@,
        at.0.subrange(262, 266) == "</p>"@,
        "<h2 class=\"dialog-center-title\">"@.len() == 32,
        "</h2>"@.len() == 5,
        "<p class=\"dialog-description dialog-center-text\">"@.len() == 49,
        "</p>"@.len() == 4,
{
    reveal_strlit("<div class=\"dialog-header\"><div class=\"dialog-icon dialog-icon-shield\">¤</div><button type=\"button\" class=\"dialog-close\" data-close-dialog aria-label=\"Close\">¤</button></div><h2 class=\"dialog-center-title\">¤</h2><p class=\"dialog-description dialog-center-text\">¤</p><div class=\"dialog-actions dialog-actions-centered\"><button type=\"button\" class=\"btn\" data-close-dialog>Done</button></div>");
    reveal_strlit("<h2 class=\"dialog-center-title\">");
    reveal_strlit("</h2>");
    reveal_strlit("<p class=\"dialog-description dialog-center-text\">");
    reveal_strlit("</p>");
    let tpl = page::FACTOR_REMOVED_CONTENT@;
    let holes = seq![71int, 158, 206, 261];
    assert(markup::hole_at(tpl, holes, 0));
    assert(markup::hole_at(tpl, holes, 1));
    assert(markup::hole_at(tpl, holes, 2));
    assert(markup::hole_at(tpl, holes, 3));
    assert(tpl.subrange(174, 206) =~= "<h2 class=\"dialog-center-title\">"@);
    assert(tpl.subrange(207, 212) =~= "</h2>"@);
    assert(tpl.subrange(212, 261) =~= "<p class=\"dialog-description dialog-center-text\">"@);
    assert(tpl.subrange(262, 266) =~= "</p>"@);
    (tpl, holes)
}

/// A removed factor is told with its own words.
pub proof fn law_factor_removed_content(title: Seq<char>, message: Seq<char>)
    ensures
        ({
            let out = page::factor_removed_content_html(title, message);
            &&& markup::shows(
                out,
                "<h2 class=\"dialog-center-title\">"@ + html::escaped(title) + "</h2>"@,
            )
            &&& markup::shows(
                out,
                "<p class=\"dialog-description dialog-center-text\">"@ + html::escaped(message) + "</p>"@,
            )
        }),
{
    let (tpl, holes) = lemma_factor_removed_content();
    let parts = seq![SHIELD_ICON@, CLOSE_ICON@, html::escaped(title), html::escaped(message)];
    assert(page::factor_removed_content_html(title, message) == markup::filled(tpl, parts, 4).done()) by {
        reveal_with_fuel(markup::filled, 5);
    }
    markup::lemma_hole(tpl, holes, parts, 2, "<h2 class=\"dialog-center-title\">"@, "</h2>"@);
    markup::lemma_hole(
        tpl,
        holes,
        parts,
        3,
        "<p class=\"dialog-description dialog-center-text\">"@,
        "</p>"@,
    );
}

/// Where the holes of the template stand, and the texts around them.
proof fn lemma_totp_authenticators_section() -> (at: (Seq<char>, Seq<int>))
    ensures
        at.0 == page::TOTP_SECTION@,
        at.1 == seq![51int, 215, 455, 559, 561, 649, 650, 730],
        at.0.len() == 971,
        markup::holes_at(at.0, at.1),
        at.0.subrange(0, 51) == "<section id=\"totp-section\" class=\"settings-section\""@,
        at.0.subrange(52, 53) == ">"@,
        at.0.subrange(406, 455) == "action=\"/me/totp/start\" style=\"display:contents\">"@,
        at.0.subrange(456, 559) == "<button type=\"button\" class=\"btn-secondary\" data-reauth-confirm=\"form-totp-start\" data-keep-source-open"@,
        at.0.subrange(538, 559) == "data-keep-source-open"@,
        at.0.subrange(560, 561) == ">"@,
        at.0.subrange(614, 649) == "<div class=\"settings-section-body\">"@,
        at.0.subrange(651, 678) == "<div class=\"settings-info\">"@,
        "<section id=\"totp-section\" class=\"settings-section\""@.len() == 51,
        ">"@.len() == 1,
        "action=\"/me/totp/start\" style=\"display:contents\">"@.len() == 49,
        "<button type=\"button\" class=\"btn-secondary\" data-reauth-confirm=\"form-totp-start\" data-keep-source-open"@.len() == 103,
        "data-keep-source-open"@.len() == 21,
        "<div class=\"settings-section-body\">"@.len() == 35,
        "<div class=\"settings-info\">"@.len() == 27,
{
    reveal_strlit("<section id=\"totp-section\" class=\"settings-section\"¤><div class=\"settings-section-header settings-section-header-actions\"><div class=\"settings-section-heading\"><span class=\"settings-section-icon\" aria-hidden=\"true\">¤</span><div><h3>Registered Authenticators</h3><p class=\"settings-section-tagline\">Verification codes using apps or password managers.</p></div></div><form id=\"form-totp-start\" method=\"post\" action=\"/me/totp/start\" style=\"display:contents\">¤<button type=\"button\" class=\"btn-secondary\" data-reauth-confirm=\"form-totp-start\" data-keep-source-open¤>¤<span>Add Authenticator</span></button></form></div><div class=\"settings-section-body\">¤¤<div class=\"settings-info\"><span class=\"settings-info-icon\" aria-hidden=\"true\">¤</span><div><h4>What are authenticators?</h4><p>Authenticators provide a second factor of authentication (2FA) using temporary verification codes (TOTP). These codes are 6 digits and refresh every 30 seconds.</p></div></div></div></section>");
    reveal_strlit("<section id=\"totp-section\" class=\"settings-section\"");
    reveal_strlit(">");
    reveal_strlit("action=\"/me/totp/start\" style=\"display:contents\">");
    reveal_strlit("<button type=\"button\" class=\"btn-secondary\" data-reauth-confirm=\"form-totp-start\" data-keep-source-open");
    reveal_strlit("data-keep-source-open");
    reveal_strlit("<div class=\"settings-section-body\">");
    reveal_strlit("<div class=\"settings-info\">");
    let tpl = page::TOTP_SECTION@;
    let holes = seq![51int, 215, 455, 559, 561, 649, 650, 730];
    assert(markup::hole_at(tpl, holes, 0));
    assert(markup::hole_at(tpl, holes, 1));
    assert(markup::hole_at(tpl, holes, 2));
    assert(markup::hole_at(tpl, holes, 3));
    assert(markup::hole_at(tpl, holes, 4));
    assert(markup::hole_at(tpl, holes, 5));
    assert(markup::hole_at(tpl, holes, 6));
    assert(markup::hole_at(tpl, holes, 7));
    assert(tpl.subrange(0, 51) =~= "<section id=\"totp-section\" class=\"settings-section\""@);
    assert(tpl.subrange(52, 53) =~= ">"@);
    assert(tpl.subrange(406, 455) =~= "action=\"/me/totp/start\" style=\"display:contents\">"@);
    assert(tpl.subrange(456, 559) =~= "<button type=\"button\" class=\"btn-secondary\" data-reauth-confirm=\"form-totp-start\" data-keep-source-open"@);
    assert(tpl.subrange(538, 559) =~= "data-keep-source-open"@);
    assert(tpl.subrange(560, 561) =~= ">"@);
    assert(tpl.subrange(614, 649) =~= "<div class=\"settings-section-body\">"@);
    assert(tpl.subrange(651, 678) =~= "<div class=\"settings-info\">"@);
    (tpl, holes)
}

/// The section of the authenticators holds a row for each of them.
pub proof fn law_totp_authenticators_section(
    ctx: &ChromeContext,
    creds: Seq<TotpCredential>,
    mode: page::SectionMode,
    max: i64,
    oob: bool,
)
    ensures
        ({
            let out = page::totp_authenticators_section_html(ctx, creds, mode, max, oob);
            let at_max = page::is_full(creds.len(), max);
            &&& markup::shows(
                out,
                "<section id=\"totp-section\" class=\"settings-section\""@ + html::when(oob, " hx-swap-oob=\"true\""@) + ">"@,
            )
            &&& markup::shows(
                out,
                "action=\"/me/totp/start\" style=\"display:contents\">"@ + shell::csrf_input_html(ctx.csrf_token@) + "<button type=\"button\" class=\"btn-secondary\" data-reauth-confirm=\"form-totp-start\" data-keep-source-open"@,
            )
            &&& markup::shows(
                out,
                "data-keep-source-open"@ + html::when(at_max, " disabled"@) + ">"@,
            )
            &&& markup::shows(
                out,
                "<div class=\"settings-section-body\">"@ + (if creds.len() == 0 { page::TOTP_NONE@ } else { html::template(page::FACTOR_LIST@) .html(page::totp_rows_html(creds, ctx, mode, creds.len() == 1)) .done() }),
            )
            &&& markup::shows(
                out,
                (if at_max { html::template(page::TOTP_FULL@) .num(max as int) .done() } else { Seq::empty() }) + "<div class=\"settings-info\">"@,
            )
        }),
{
    let at_max = page::is_full(creds.len(), max);
    let (tpl, holes) = lemma_totp_authenticators_section();
    let parts = seq![
        html::when(oob, " hx-swap-oob=\"true\""@),
        DEVICE_MOBILE_ICON@,
        shell::csrf_input_html(ctx.csrf_token@),
        html::when(at_max, " disabled"@),
        KEY_ICON@,
        if creds.len() == 0 { page::TOTP_NONE@ } else { html::template(page::FACTOR_LIST@) .html(page::totp_rows_html(creds, ctx, mode, creds.len() == 1)) .done() },
        if at_max { html::template(page::TOTP_FULL@) .num(max as int) .done() } else { Seq::empty() },
        INFO_ICON@,
    ];
    assert(page::totp_authenticators_section_html(ctx, creds, mode, max, oob) == markup::filled(tpl, parts, 8).done()) by {
        reveal_with_fuel(markup::filled, 9);
    }
    markup::lemma_hole(
        tpl,
        holes,
        parts,
        0,
        "<section id=\"totp-section\" class=\"settings-section\""@,
        ">"@,
    );
    markup::lemma_hole(
        tpl,
        holes,
        parts,
        2,
        "action=\"/me/totp/start\" style=\"display:contents\">"@,
        "<button type=\"button\" class=\"btn-secondary\" data-reauth-confirm=\"form-totp-start\" data-keep-source-open"@,
    );
    markup::lemma_hole(tpl, holes, parts, 3, "data-keep-source-open"@, ">"@);
    assert(tpl.subrange(650, 650) =~= Seq::<char>::empty());
    markup::lemma_hole(
        tpl,
        holes,
        parts,
        5,
        "<div class=\"settings-section-body\">"@,
        Seq::<char>::empty(),
    );
    assert("<div class=\"settings-section-body\">"@ + parts[5] + Seq::<char>::empty() =~= "<div class=\"settings-section-body\">"@ + parts[5]);
    assert(tpl.subrange(650, 650) =~= Seq::<char>::empty());
    markup::lemma_hole(
        tpl,
        holes,
        parts,
        6,
        Seq::<char>::empty(),
        "<div class=\"settings-info\">"@,
    );
    assert(Seq::<char>::empty() + parts[6] + "<div class=\"settings-info\">"@ =~= parts[6] + "<div class=\"settings-info\">"@);
}

/// Where the holes of the template stand, and the texts around them.
proof fn lemma_totp_enroll_modal_content() -> (at: (Seq<char>, Seq<int>))
    ensures
        at.0 == page::TOTP_ENROLL_MODAL_CONTENT@,
        at.1 == seq![52int, 139, 400, 592, 895, 939, 942],
        at.0.len() == 1477,
        markup::holes_at(at.0, at.1),
        at.0.subrange(360, 400) == "<div class=\"totp-qr\" aria-hidden=\"true\">"@,
        at.0.subrange(401, 407) == "</div>"@,
        at.0.subrange(545, 592) == "type=\"text\" class=\"recovery-code-input\" value=\""@,
        at.0.subrange(593, 594) == "\""@,
        at.0.subrange(841, 895) == "hx-target=\"#reauth-modal-content\" hx-swap=\"innerHTML\">"@,
        at.0.subrange(896, 939) == "<input type=\"hidden\" name=\"cred_id\" value=\""@,
        at.0.subrange(940, 941) == "\""@,
        at.0.subrange(940, 942) == "\">"@,
        at.0.subrange(943, 962) == "<div class=\"field\">"@,
        "<div class=\"totp-qr\" aria-hidden=\"true\">"@.len() == 40,
        "</div>"@.len() == 6,
        "type=\"text\" class=\"recovery-code-input\" value=\""@.len() == 47,
        "\""@.len() == 1,
        "hx-target=\"#reauth-modal-content\" hx-swap=\"innerHTML\">"@.len() == 54,
        "<input type=\"hidden\" name=\"cred_id\" value=\""@.len() == 43,
        "\">"@.len() == 2,
        "<div class=\"field\">"@.len() == 19,
{
    reveal_strlit("<div class=\"dialog-header\"><div class=\"dialog-icon\">¤</div><button type=\"button\" class=\"dialog-close\" data-close-dialog aria-label=\"Close\">¤</button></div><h2 class=\"dialog-center-title\">Add an authenticator</h2><p class=\"dialog-description dialog-center-text\">Scan this with your authenticator app, name it, then enter the 6-digit code it shows to finish.</p><div class=\"totp-qr\" aria-hidden=\"true\">¤</div><details class=\"login-verify-alt\"><summary>Can't scan? Enter this key</summary><div class=\"recovery-code-display\"><input id=\"totp-secret\" type=\"text\" class=\"recovery-code-input\" value=\"¤\" readonly aria-label=\"Authenticator setup key\"><button type=\"button\" class=\"btn-secondary\" data-copy-target=\"totp-secret\">Copy</button></div></details><form id=\"form-totp-confirm\" method=\"post\" action=\"/me/totp/confirm\" hx-post=\"/me/totp/confirm\" hx-target=\"#reauth-modal-content\" hx-swap=\"innerHTML\">¤<input type=\"hidden\" name=\"cred_id\" value=\"¤\">¤<div class=\"field\"><label for=\"totp-label\">Name</label><input type=\"text\" name=\"label\" id=\"totp-label\" value=\"Authenticator\" maxlength=\"60\" required autocomplete=\"off\" placeholder=\"e.g. 1Password, Ente Auth\"></div><div class=\"field\"><label for=\"totp-confirm-code\">6-digit code</label><input type=\"text\" name=\"code\" id=\"totp-confirm-code\" inputmode=\"numeric\" autocomplete=\"one-time-code\" pattern=\"[0-9]*\" maxlength=\"6\" required></div><div class=\"dialog-actions\"><button type=\"submit\" class=\"btn\">Add authenticator</button></div></form>");
    reveal_strlit("<div class=\"totp-qr\" aria-hidden=\"true\">");
    reveal_strlit("</div>");
    reveal_strlit("type=\"text\" class=\"recovery-code-input\" value=\"");
    reveal_strlit("\"");
    reveal_strlit("hx-target=\"#reauth-modal-content\" hx-swap=\"innerHTML\">");
    reveal_strlit("<input type=\"hidden\" name=\"cred_id\" value=\"");
    reveal_strlit("\">");
    reveal_strlit("<div class=\"field\">");
    let tpl = page::TOTP_ENROLL_MODAL_CONTENT@;
    let holes = seq![52int, 139, 400, 592, 895, 939, 942];
    assert(markup::hole_at(tpl, holes, 0));
    assert(markup::hole_at(tpl, holes, 1));
    assert(markup::hole_at(tpl, holes, 2));
    assert(markup::hole_at(tpl, holes, 3));
    assert(markup::hole_at(tpl, holes, 4));
    assert(markup::hole_at(tpl, holes, 5));
    assert(markup::hole_at(tpl, holes, 6));
    assert(tpl.subrange(360, 400) =~= "<div class=\"totp-qr\" aria-hidden=\"true\">"@);
    assert(tpl.subrange(401, 407) =~= "</div>"@);
    assert(tpl.subrange(545, 592) =~= "type=\"text\" class=\"recovery-code-input\" value=\""@);
    assert(tpl.subrange(593, 594) =~= "\""@);
    assert(tpl.subrange(841, 895) =~= "hx-target=\"#reauth-modal-content\" hx-swap=\"innerHTML\">"@);
    assert(tpl.subrange(896, 939) =~= "<input type=\"hidden\" name=\"cred_id\" value=\""@);
    assert(tpl.subrange(940, 941) =~= "\""@);
    assert(tpl.subrange(940, 942) =~= "\">"@);
    assert(tpl.subrange(943, 962) =~= "<div class=\"field\">"@);
    (tpl, holes)
}

/// The enrollment of an authenticator shows its code and its secret, and its form carries its
/// identifier and the token of the session.
pub proof fn law_totp_enroll_modal_content(
    qr_svg: Seq<char>,
    secret_b32: Seq<char>,
    cred_id: Uuid,
    csrf_token: Seq<char>,
    error: Option<Seq<char>>,
)
    ensures
        ({
            let out = page::totp_enroll_modal_content_html(qr_svg, secret_b32, cred_id, csrf_token, error);
            &&& markup::shows(
                out,
                "<div class=\"totp-qr\" aria-hidden=\"true\">"@ + qr_svg + "</div>"@,
            )
            &&& markup::shows(
                out,
                "type=\"text\" class=\"recovery-code-input\" value=\""@ + html::escaped(secret_b32) + "\""@,
            )
            &&& markup::shows(
                out,
                "hx-target=\"#reauth-modal-content\" hx-swap=\"innerHTML\">"@ + shell::csrf_input_html(csrf_token) + "<input type=\"hidden\" name=\"cred_id\" value=\""@,
            )
            &&& markup::shows(
                out,
                "<input type=\"hidden\" name=\"cred_id\" value=\""@ + html::escaped(model::uuid_text(cred_id)) + "\""@,
            )
            &&& markup::shows(
                out,
                "\">"@ + (match error { Some(msg) => html::template(page::TOTP_ENROLL_ERROR@) .text(msg) .done(), None => Seq::empty(), }) + "<div class=\"field\">"@,
            )
        }),
{
    let (tpl, holes) = lemma_totp_enroll_modal_content();
    let parts = seq![
        DEVICE_MOBILE_ICON@,
        CLOSE_ICON@,
        qr_svg,
        html::escaped(secret_b32),
        shell::csrf_input_html(csrf_token),
        html::escaped(model::uuid_text(cred_id)),
        match error { Some(msg) => html::template(page::TOTP_ENROLL_ERROR@) .text(msg) .done(), None => Seq::empty(), },
    ];
    assert(page::totp_enroll_modal_content_html(qr_svg, secret_b32, cred_id, csrf_token, error) == markup::filled(tpl, parts, 7).done()) by {
        reveal_with_fuel(markup::filled, 8);
    }
    markup::lemma_hole(
        tpl,
        holes,
        parts,
        2,
        "<div class=\"totp-qr\" aria-hidden=\"true\">"@,
        "</div>"@,
    );
    markup::lemma_hole(
        tpl,
        holes,
        parts,
        3,
        "type=\"text\" class=\"recovery-code-input\" value=\""@,
        "\""@,
    );
    markup::lemma_hole(
        tpl,
        holes,
        parts,
        4,
        "hx-target=\"#reauth-modal-content\" hx-swap=\"innerHTML\">"@,
        "<input type=\"hidden\" name=\"cred_id\" value=\""@,
    );
    markup::lemma_hole(
        tpl,
        holes,
        parts,
        5,
        "<input type=\"hidden\" name=\"cred_id\" value=\""@,
        "\""@,
    );
    markup::lemma_hole(tpl, holes, parts, 6, "\">"@, "<div class=\"field\">"@);
}

/// Where the holes of the template stand, and the texts around them.
proof fn lemma_passkey_credentials_section() -> (at: (Seq<char>, Seq<int>))
    ensures
        at.0 == page::PASSKEY_SECTION@,
        at.1 == seq![54int, 218, 373, 415, 495],
        at.0.len() == 747,
        markup::holes_at(at.0, at.1),
        at.0.subrange(0, 54) == "<section id=\"passkey-section\" class=\"settings-section\""@,
        at.0.subrange(55, 56) == ">"@,
        at.0.subrange(367, 373) == "</div>"@,
        at.0.subrange(374, 380) == "</div>"@,
        at.0.subrange(380, 415) == "<div class=\"settings-section-body\">"@,
        at.0.subrange(416, 443) == "<div class=\"settings-info\">"@,
        "<section id=\"passkey-section\" class=\"settings-section\""@.len() == 54,
        ">"@.len() == 1,
        "</div>"@.len() == 6,
        "<div class=\"settings-section-body\">"@.len() == 35,
        "<div class=\"settings-info\">"@.len() == 27,
{
    reveal_strlit("<section id=\"passkey-section\" class=\"settings-section\"¤><div class=\"settings-section-header settings-section-header-actions\"><div class=\"settings-section-heading\"><span class=\"settings-section-icon\" aria-hidden=\"true\">¤</span><div><h3>Registered Passkeys</h3><p class=\"settings-section-tagline\">Passwordless authentication using biometrics or security keys.</p></div></div>¤</div><div class=\"settings-section-body\">¤<div class=\"settings-info\"><span class=\"settings-info-icon\" aria-hidden=\"true\">¤</span><div><h4>What are passkeys?</h4><p>Passkeys let you sign in with your device's fingerprint, face, screen lock, or a security key instead of (or on top of) a password. They can't be phished or reused across sites.</p></div></div></div></section>");
    reveal_strlit("<section id=\"passkey-section\" class=\"settings-section\"");
    reveal_strlit(">");
    reveal_strlit("</div>");
    reveal_strlit("<div class=\"settings-section-body\">");
    reveal_strlit("<div class=\"settings-info\">");
    let tpl = page::PASSKEY_SECTION@;
    let holes = seq![54int, 218, 373, 415, 495];
    assert(markup::hole_at(tpl, holes, 0));
    assert(markup::hole_at(tpl, holes, 1));
    assert(markup::hole_at(tpl, holes, 2));
    assert(markup::hole_at(tpl, holes, 3));
    assert(markup::hole_at(tpl, holes, 4));
    assert(tpl.subrange(0, 54) =~= "<section id=\"passkey-section\" class=\"settings-section\""@);
    assert(tpl.subrange(55, 56) =~= ">"@);
    assert(tpl.subrange(367, 373) =~= "</div>"@);
    assert(tpl.subrange(374, 380) =~= "</div>"@);
    assert(tpl.subrange(380, 415) =~= "<div class=\"settings-section-body\">"@);
    assert(tpl.subrange(416, 443) =~= "<div class=\"settings-info\">"@);
    (tpl, holes)
}

/// The section of the passkeys holds a row for each of them.
pub proof fn law_passkey_credentials_section(
    ctx: &ChromeContext,
    creds: Seq<WebauthnCredentialRow>,
    mode: page::SectionMode,
    available: bool,
    max: i64,
    oob: bool,
)
    ensures
        ({
            let out = page::passkey_credentials_section_html(ctx, creds, mode, available, max, oob);
            let at_max = page::is_full(creds.len(), max);
            &&& markup::shows(
                out,
                "<section id=\"passkey-section\" class=\"settings-section\""@ + html::when(oob, " hx-swap-oob=\"true\""@) + ">"@,
            )
            &&& markup::shows(
                out,
                "</div>"@ + (if available { html::template(page::PASSKEY_ADD@) .html(shell::csrf_input_html(ctx.csrf_token@)) .when(at_max, " disabled"@) .html(FINGERPRINT_ICON@) .done() } else { Seq::empty() }) + "</div>"@,
            )
            &&& markup::shows(
                out,
                "<div class=\"settings-section-body\">"@ + (if !available { page::PASSKEY_UNAVAILABLE@ } else { (if creds.len() == 0 { page::PASSKEY_NONE@ } else { html::template(page::FACTOR_LIST@) .html(page::passkey_rows_html(creds, ctx, mode, creds.len() == 1)) .done() }) + (if at_max { html::template(page::PASSKEY_FULL@) .num(max as int) .done() } else { Seq::empty() }) }) + "<div class=\"settings-info\">"@,
            )
        }),
{
    let at_max = page::is_full(creds.len(), max);
    let (tpl, holes) = lemma_passkey_credentials_section();
    let parts = seq![
        html::when(oob, " hx-swap-oob=\"true\""@),
        FINGERPRINT_ICON@,
        if available { html::template(page::PASSKEY_ADD@) .html(shell::csrf_input_html(ctx.csrf_token@)) .when(at_max, " disabled"@) .html(FINGERPRINT_ICON@) .done() } else { Seq::empty() },
        if !available { page::PASSKEY_UNAVAILABLE@ } else { (if creds.len() == 0 { page::PASSKEY_NONE@ } else { html::template(page::FACTOR_LIST@) .html(page::passkey_rows_html(creds, ctx, mode, creds.len() == 1)) .done() }) + (if at_max { html::template(page::PASSKEY_FULL@) .num(max as int) .done() } else { Seq::empty() }) },
        INFO_ICON@,
    ];
    assert(page::passkey_credentials_section_html(ctx, creds, mode, available, max, oob) == markup::filled(tpl, parts, 5).done()) by {
        reveal_with_fuel(markup::filled, 6);
    }
    markup::lemma_hole(
        tpl,
        holes,
        parts,
        0,
        "<section id=\"passkey-section\" class=\"settings-section\""@,
        ">"@,
    );
    markup::lemma_hole(tpl, holes, parts, 2, "</div>"@, "</div>"@);
    markup::lemma_hole(
        tpl,
        holes,
        parts,
        3,
        "<div class=\"settings-section-body\">"@,
        "<div class=\"settings-info\">"@,
    );
}

/// Where the holes of the template stand, and the texts around them.
proof fn lemma_passkey_enroll_modal_content() -> (at: (Seq<char>, Seq<int>))
    ensures
        at.0 == page::PASSKEY_ENROLL_MODAL_CONTENT@,
        at.1 == seq![52int, 139, 434, 558, 607],
        at.0.len() == 1057,
        markup::holes_at(at.0, at.1),
        at.0.subrange(381, 434) == "<script type=\"application/json\" id=\"passkey-options\">"@,
        at.0.subrange(435, 444) == "</script>"@,
        at.0.subrange(504, 558) == "hx-target=\"#reauth-modal-content\" hx-swap=\"innerHTML\">"@,
        at.0.subrange(559, 607) == "<input type=\"hidden\" name=\"challenge_id\" value=\""@,
        at.0.subrange(608, 609) == "\""@,
        "<script type=\"application/json\" id=\"passkey-options\">"@.len() == 53,
        "</script>"@.len() == 9,
        "hx-target=\"#reauth-modal-content\" hx-swap=\"innerHTML\">"@.len() == 54,
        "<input type=\"hidden\" name=\"challenge_id\" value=\""@.len() == 48,
        "\""@.len() == 1,
{
    reveal_strlit("<div class=\"dialog-header\"><div class=\"dialog-icon\">¤</div><button type=\"button\" class=\"dialog-close\" data-close-dialog aria-label=\"Close\">¤</button></div><h2 class=\"dialog-center-title\">Add a passkey</h2><p class=\"dialog-description dialog-center-text\">Name it, then follow your browser's prompt to create the passkey with your fingerprint, face, screen lock, or security key.</p><script type=\"application/json\" id=\"passkey-options\">¤</script><form id=\"form-passkey-finish\" hx-post=\"/me/passkey/finish\" hx-target=\"#reauth-modal-content\" hx-swap=\"innerHTML\">¤<input type=\"hidden\" name=\"challenge_id\" value=\"¤\"><input type=\"hidden\" name=\"credential\" id=\"passkey-credential\"><div class=\"field\"><label for=\"passkey-label\">Name</label><input type=\"text\" name=\"label\" id=\"passkey-label\" value=\"Passkey\" maxlength=\"60\" required autocomplete=\"off\" placeholder=\"e.g. MacBook Touch ID, YubiKey\"></div><p class=\"error\" id=\"passkey-error\" hidden></p><div class=\"dialog-actions\"><button type=\"button\" class=\"btn\" data-passkey-create>Create passkey</button></div></form>");
    reveal_strlit("<script type=\"application/json\" id=\"passkey-options\">");
    reveal_strlit("</script>");
    reveal_strlit("hx-target=\"#reauth-modal-content\" hx-swap=\"innerHTML\">");
    reveal_strlit("<input type=\"hidden\" name=\"challenge_id\" value=\"");
    reveal_strlit("\"");
    let tpl = page::PASSKEY_ENROLL_MODAL_CONTENT@;
    let holes = seq![52int, 139, 434, 558, 607];
    assert(markup::hole_at(tpl, holes, 0));
    assert(markup::hole_at(tpl, holes, 1));
    assert(markup::hole_at(tpl, holes, 2));
    assert(markup::hole_at(tpl, holes, 3));
    assert(markup::hole_at(tpl, holes, 4));
    assert(tpl.subrange(381, 434) =~= "<script type=\"application/json\" id=\"passkey-options\">"@);
    assert(tpl.subrange(435, 444) =~= "</script>"@);
    assert(tpl.subrange(504, 558) =~= "hx-target=\"#reauth-modal-content\" hx-swap=\"innerHTML\">"@);
    assert(tpl.subrange(559, 607) =~= "<input type=\"hidden\" name=\"challenge_id\" value=\""@);
    assert(tpl.subrange(608, 609) =~= "\""@);
    (tpl, holes)
}

/// The enrollment of a passkey carries the options and the challenge it is for, and the token of
/// the session.
pub proof fn law_passkey_enroll_modal_content(
    options_json: Seq<char>,
    challenge_id: Uuid,
    csrf_token: Seq<char>,
)
    ensures
        ({
            let out = page::passkey_enroll_modal_content_html(options_json, challenge_id, csrf_token);
            &&& markup::shows(
                out,
                "<script type=\"application/json\" id=\"passkey-options\">"@ + options_json + "</script>"@,
            )
            &&& markup::shows(
                out,
                "hx-target=\"#reauth-modal-content\" hx-swap=\"innerHTML\">"@ + shell::csrf_input_html(csrf_token) + "<input type=\"hidden\" name=\"challenge_id\" value=\""@,
            )
            &&& markup::shows(
                out,
                "<input type=\"hidden\" name=\"challenge_id\" value=\""@ + html::escaped(model::uuid_text(challenge_id)) + "\""@,
            )
        }),
{
    let (tpl, holes) = lemma_passkey_enroll_modal_content();
    let parts = seq![
        FINGERPRINT_ICON@,
        CLOSE_ICON@,
        options_json,
        shell::csrf_input_html(csrf_token),
        html::escaped(model::uuid_text(challenge_id)),
    ];
    assert(page::passkey_enroll_modal_content_html(options_json, challenge_id, csrf_token) == markup::filled(tpl, parts, 5).done()) by {
        reveal_with_fuel(markup::filled, 6);
    }
    markup::lemma_hole(
        tpl,
        holes,
        parts,
        2,
        "<script type=\"application/json\" id=\"passkey-options\">"@,
        "</script>"@,
    );
    markup::lemma_hole(
        tpl,
        holes,
        parts,
        3,
        "hx-target=\"#reauth-modal-content\" hx-swap=\"innerHTML\">"@,
        "<input type=\"hidden\" name=\"challenge_id\" value=\""@,
    );
    markup::lemma_hole(
        tpl,
        holes,
        parts,
        4,
        "<input type=\"hidden\" name=\"challenge_id\" value=\""@,
        "\""@,
    );
}

/// Where the holes of the template stand, and the texts around them.
proof fn lemma_passkey_error_content() -> (at: (Seq<char>, Seq<int>))
    ensures
        at.0 == page::PASSKEY_ERROR_CONTENT@,
        at.1 == seq![65int, 152, 274],
        at.0.len() == 379,
        markup::holes_at(at.0, at.1),
        at.0.subrange(225, 274) == "<p class=\"dialog-description dialog-center-text\">"@,
        at.0.subrange(275, 279) == "</p>"@,
        "<p class=\"dialog-description dialog-center-text\">"@.len() == 49,
        "</p>"@.len() == 4,
{
    reveal_strlit("<div class=\"dialog-header\"><div class=\"dialog-icon dialog-alert\">¤</div><button type=\"button\" class=\"dialog-close\" data-close-dialog aria-label=\"Close\">¤</button></div><h2 class=\"dialog-center-title\">Couldn't add passkey</h2><p class=\"dialog-description dialog-center-text\">¤</p><div class=\"dialog-actions\"><button type=\"button\" class=\"btn\" data-close-dialog>Close</button></div>");
    reveal_strlit("<p class=\"dialog-description dialog-center-text\">");
    reveal_strlit("</p>");
    let tpl = page::PASSKEY_ERROR_CONTENT@;
    let holes = seq![65int, 152, 274];
    assert(markup::hole_at(tpl, holes, 0));
    assert(markup::hole_at(tpl, holes, 1));
    assert(markup::hole_at(tpl, holes, 2));
    assert(tpl.subrange(225, 274) =~= "<p class=\"dialog-description dialog-center-text\">"@);
    assert(tpl.subrange(275, 279) =~= "</p>"@);
    (tpl, holes)
}

/// A failed enrollment says why.
pub proof fn law_passkey_error_content(message: Seq<char>)
    ensures
        ({
            let out = page::passkey_error_content_html(message);
            &&& markup::shows(
                out,
                "<p class=\"dialog-description dialog-center-text\">"@ + html::escaped(message) + "</p>"@,
            )
        }),
{
    let (tpl, holes) = lemma_passkey_error_content();
    let parts = seq![ALERT_CIRCLE_ICON@, CLOSE_ICON@, html::escaped(message)];
    assert(page::passkey_error_content_html(message) == markup::filled(tpl, parts, 3).done()) by {
        reveal_with_fuel(markup::filled, 4);
    }
    markup::lemma_hole(
        tpl,
        holes,
        parts,
        2,
        "<p class=\"dialog-description dialog-center-text\">"@,
        "</p>"@,
    );
}

/// Where the holes of the template stand, and the texts around them.
proof fn lemma_settings_security_panel() -> (at: (Seq<char>, Seq<int>))
    ensures
        at.0 == page::SETTINGS_SECURITY_PANEL@,
        at.1 == seq![196int, 317, 448, 665, 724, 754],
        at.0.len() == 755,
        markup::holes_at(at.0, at.1),
        at.0.subrange(311, 317) == "</div>"@,
        at.0.subrange(318, 324) == "</div>"@,
        at.0.subrange(412, 448) == "method=\"post\" action=\"/me/password\">"@,
        at.0.subrange(449, 481) == "<div class=\"settings-row-label\">"@,
        at.0.subrange(631, 665) == "<div class=\"settings-row-control\">"@,
        at.0.subrange(666, 672) == "</div>"@,
        at.0.subrange(695, 724) == "<hr class=\"settings-divider\">"@,
        at.0.subrange(725, 754) == "<hr class=\"settings-divider\">"@,
        "</div>"@.len() == 6,
        "method=\"post\" action=\"/me/password\">"@.len() == 36,
        "<div class=\"settings-row-label\">"@.len() == 32,
        "<div class=\"settings-row-control\">"@.len() == 34,
        "<hr class=\"settings-divider\">"@.len() == 29,
{
    reveal_strlit("<section class=\"settings-section\"><div class=\"settings-section-header settings-section-header-actions\"><div class=\"settings-section-heading\"><span class=\"settings-section-icon\" aria-hidden=\"true\">¤</span><div><h3>Password</h3><p class=\"settings-section-tagline\">Change the password you use to sign in.</p></div></div>¤</div><div class=\"settings-section-body\"><form id=\"form-change-password\" class=\"settings-row\" method=\"post\" action=\"/me/password\">¤<div class=\"settings-row-label\"><label for=\"change-pw-new\">New password</label><p class=\"settings-row-hint\">At least 8 characters. Changing it signs out your other devices.</p></div><div class=\"settings-row-control\">¤</div></form></div></section><hr class=\"settings-divider\">¤<hr class=\"settings-divider\">¤");
    reveal_strlit("</div>");
    reveal_strlit("method=\"post\" action=\"/me/password\">");
    reveal_strlit("<div class=\"settings-row-label\">");
    reveal_strlit("<div class=\"settings-row-control\">");
    reveal_strlit("<hr class=\"settings-divider\">");
    let tpl = page::SETTINGS_SECURITY_PANEL@;
    let holes = seq![196int, 317, 448, 665, 724, 754];
    assert(markup::hole_at(tpl, holes, 0));
    assert(markup::hole_at(tpl, holes, 1));
    assert(markup::hole_at(tpl, holes, 2));
    assert(markup::hole_at(tpl, holes, 3));
    assert(markup::hole_at(tpl, holes, 4));
    assert(markup::hole_at(tpl, holes, 5));
    assert(tpl.subrange(311, 317) =~= "</div>"@);
    assert(tpl.subrange(318, 324) =~= "</div>"@);
    assert(tpl.subrange(412, 448) =~= "method=\"post\" action=\"/me/password\">"@);
    assert(tpl.subrange(449, 481) =~= "<div class=\"settings-row-label\">"@);
    assert(tpl.subrange(631, 665) =~= "<div class=\"settings-row-control\">"@);
    assert(tpl.subrange(666, 672) =~= "</div>"@);
    assert(tpl.subrange(695, 724) =~= "<hr class=\"settings-divider\">"@);
    assert(tpl.subrange(725, 754) =~= "<hr class=\"settings-divider\">"@);
    (tpl, holes)
}

/// The panel holds the sections in their places.
pub proof fn law_settings_security_panel(
    ctx: &ChromeContext,
    totp_creds: Seq<TotpCredential>,
    passkey_creds: Seq<WebauthnCredentialRow>,
    passkey_available: bool,
    limits: page::FactorLimits,
)
    ensures
        ({
            let out = page::settings_security_panel_html(ctx, totp_creds, passkey_creds, passkey_available, limits);
            &&& markup::shows(out, "</div>"@ + page::change_password_button_html(false) + "</div>"@)
            &&& markup::shows(
                out,
                "method=\"post\" action=\"/me/password\">"@ + shell::csrf_input_html(ctx.csrf_token@) + "<div class=\"settings-row-label\">"@,
            )
            &&& markup::shows(
                out,
                "<div class=\"settings-row-control\">"@ + page::change_password_input_html(false) + "</div>"@,
            )
            &&& markup::shows(
                out,
                "<hr class=\"settings-divider\">"@ + page::totp_authenticators_section_html(ctx, totp_creds, page::SectionMode::Normal, limits.authenticators, false) + "<hr class=\"settings-divider\">"@,
            )
            &&& markup::shows(
                out,
                "<hr class=\"settings-divider\">"@ + page::passkey_credentials_section_html(ctx, passkey_creds, page::SectionMode::Normal, passkey_available, limits.passkeys, false),
            )
        }),
{
    let (tpl, holes) = lemma_settings_security_panel();
    let parts = seq![
        SHIELD_ICON@,
        page::change_password_button_html(false),
        shell::csrf_input_html(ctx.csrf_token@),
        page::change_password_input_html(false),
        page::totp_authenticators_section_html(ctx, totp_creds, page::SectionMode::Normal, limits.authenticators, false),
        page::passkey_credentials_section_html(ctx, passkey_creds, page::SectionMode::Normal, passkey_available, limits.passkeys, false),
    ];
    assert(page::settings_security_panel_html(ctx, totp_creds, passkey_creds, passkey_available, limits) == markup::filled(tpl, parts, 6).done()) by {
        reveal_with_fuel(markup::filled, 7);
    }
    markup::lemma_hole(tpl, holes, parts, 1, "</div>"@, "</div>"@);
    markup::lemma_hole(
        tpl,
        holes,
        parts,
        2,
        "method=\"post\" action=\"/me/password\">"@,
        "<div class=\"settings-row-label\">"@,
    );
    markup::lemma_hole(tpl, holes, parts, 3, "<div class=\"settings-row-control\">"@, "</div>"@);
    markup::lemma_hole(
        tpl,
        holes,
        parts,
        4,
        "<hr class=\"settings-divider\">"@,
        "<hr class=\"settings-divider\">"@,
    );
    assert(tpl.subrange(755, 755) =~= Seq::<char>::empty());
    markup::lemma_hole(
        tpl,
        holes,
        parts,
        5,
        "<hr class=\"settings-divider\">"@,
        Seq::<char>::empty(),
    );
    assert("<hr class=\"settings-divider\">"@ + parts[5] + Seq::<char>::empty() =~= "<hr class=\"settings-divider\">"@ + parts[5]);
}

/// Where the holes of the template stand, and the texts around them.
proof fn lemma_sessions_section() -> (at: (Seq<char>, Seq<int>))
    ensures
        at.0 == page::SESSIONS_SECTION@,
        at.1 == seq![54int, 218, 346, 410, 495],
        at.0.len() == 734,
        markup::holes_at(at.0, at.1),
        at.0.subrange(0, 54) == "<section id=\"devices-section\" class=\"settings-section\""@,
        at.0.subrange(55, 56) == ">"@,
        at.0.subrange(340, 346) == "</div>"@,
        at.0.subrange(347, 353) == "</div>"@,
        at.0.subrange(388, 410) == "<ul class=\"totp-list\">"@,
        at.0.subrange(411, 416) == "</ul>"@,
        "<section id=\"devices-section\" class=\"settings-section\""@.len() == 54,
        ">"@.len() == 1,
        "</div>"@.len() == 6,
        "<ul class=\"totp-list\">"@.len() == 22,
        "</ul>"@.len() == 5,
{
    reveal_strlit("<section id=\"devices-section\" class=\"settings-section\"¤><div class=\"settings-section-header settings-section-header-actions\"><div class=\"settings-section-heading\"><span class=\"settings-section-icon\" aria-hidden=\"true\">¤</span><div><h3>Devices</h3><p class=\"settings-section-tagline\">Browsers and devices signed in to your account.</p></div></div>¤</div><div class=\"settings-section-body\"><ul class=\"totp-list\">¤</ul><div class=\"settings-info\"><span class=\"settings-info-icon\" aria-hidden=\"true\">¤</span><div><h4>Don't recognise a device?</h4><p>Sign it out, then change your password. Signing a device out ends its session immediately — it has to sign in again with your password and any second factor.</p></div></div></div></section>");
    reveal_strlit("<section id=\"devices-section\" class=\"settings-section\"");
    reveal_strlit(">");
    reveal_strlit("</div>");
    reveal_strlit("<ul class=\"totp-list\">");
    reveal_strlit("</ul>");
    let tpl = page::SESSIONS_SECTION@;
    let holes = seq![54int, 218, 346, 410, 495];
    assert(markup::hole_at(tpl, holes, 0));
    assert(markup::hole_at(tpl, holes, 1));
    assert(markup::hole_at(tpl, holes, 2));
    assert(markup::hole_at(tpl, holes, 3));
    assert(markup::hole_at(tpl, holes, 4));
    assert(tpl.subrange(0, 54) =~= "<section id=\"devices-section\" class=\"settings-section\""@);
    assert(tpl.subrange(55, 56) =~= ">"@);
    assert(tpl.subrange(340, 346) =~= "</div>"@);
    assert(tpl.subrange(347, 353) =~= "</div>"@);
    assert(tpl.subrange(388, 410) =~= "<ul class=\"totp-list\">"@);
    assert(tpl.subrange(411, 416) =~= "</ul>"@);
    (tpl, holes)
}

/// The section of the devices holds a row for each of them.
pub proof fn law_sessions_section(
    ctx: &ChromeContext,
    sessions: Seq<Session>,
    current_session_id: Uuid,
    now: &Timestamp,
    mode: page::SectionMode,
    oob: bool,
)
    ensures
        ({
            let out = page::sessions_section_html(ctx, sessions, current_session_id, now, mode, oob);
            &&& markup::shows(
                out,
                "<section id=\"devices-section\" class=\"settings-section\""@ + html::when(oob, " hx-swap-oob=\"true\""@) + ">"@,
            )
            &&& markup::shows(
                out,
                "</div>"@ + (if page::has_others(sessions, current_session_id) { html::template(page::SESSIONS_SIGN_OUT_OTHERS@) .html(shell::csrf_input_html(ctx.csrf_token@)) .done() } else { Seq::empty() }) + "</div>"@,
            )
            &&& markup::shows(
                out,
                "<ul class=\"totp-list\">"@ + page::session_rows_html(sessions, ctx, current_session_id, now, mode) + "</ul>"@,
            )
        }),
{
    let (tpl, holes) = lemma_sessions_section();
    let parts = seq![
        html::when(oob, " hx-swap-oob=\"true\""@),
        LAPTOP_ICON@,
        if page::has_others(sessions, current_session_id) { html::template(page::SESSIONS_SIGN_OUT_OTHERS@) .html(shell::csrf_input_html(ctx.csrf_token@)) .done() } else { Seq::empty() },
        page::session_rows_html(sessions, ctx, current_session_id, now, mode),
        INFO_ICON@,
    ];
    assert(page::sessions_section_html(ctx, sessions, current_session_id, now, mode, oob) == markup::filled(tpl, parts, 5).done()) by {
        reveal_with_fuel(markup::filled, 6);
    }
    markup::lemma_hole(
        tpl,
        holes,
        parts,
        0,
        "<section id=\"devices-section\" class=\"settings-section\""@,
        ">"@,
    );
    markup::lemma_hole(tpl, holes, parts, 2, "</div>"@, "</div>"@);
    markup::lemma_hole(tpl, holes, parts, 3, "<ul class=\"totp-list\">"@, "</ul>"@);
}

/// Where the holes of the template stand, and the texts around them.
proof fn lemma_authenticator_renaming() -> (at: (Seq<char>, Seq<int>))
    ensures
        at.0 == page::TOTP_RENAMING@,
        at.1 == seq![87int, 143, 183],
        at.0.len() == 514,
        markup::holes_at(at.0, at.1),
        at.0.subrange(38, 87) == "<form class=\"totp-rename-form\" hx-post=\"/me/totp/"@,
        at.0.subrange(88, 96) == "/rename\""@,
        at.0.subrange(88, 143) == "/rename\" hx-target=\"#totp-section\" hx-swap=\"outerHTML\">"@,
        at.0.subrange(144, 183) == "<input type=\"text\" name=\"label\" value=\""@,
        at.0.subrange(184, 185) == "\""@,
        "<form class=\"totp-rename-form\" hx-post=\"/me/totp/"@.len() == 49,
        "/rename\""@.len() == 8,
        "/rename\" hx-target=\"#totp-section\" hx-swap=\"outerHTML\">"@.len() == 55,
        "<input type=\"text\" name=\"label\" value=\""@.len() == 39,
        "\""@.len() == 1,
{
    reveal_strlit("<li class=\"totp-row totp-row-editing\"><form class=\"totp-rename-form\" hx-post=\"/me/totp/¤/rename\" hx-target=\"#totp-section\" hx-swap=\"outerHTML\">¤<input type=\"text\" name=\"label\" value=\"¤\" maxlength=\"60\" required autofocus class=\"totp-rename-input\" aria-label=\"Authenticator name\"><div class=\"totp-row-actions\"><button type=\"submit\" class=\"btn-secondary\">Save</button><button type=\"button\" class=\"btn-secondary\" hx-get=\"/me/totp/section\" hx-target=\"#totp-section\" hx-swap=\"outerHTML\">Cancel</button></div></form></li>");
    reveal_strlit("<form class=\"totp-rename-form\" hx-post=\"/me/totp/");
    reveal_strlit("/rename\"");
    reveal_strlit("/rename\" hx-target=\"#totp-section\" hx-swap=\"outerHTML\">");
    reveal_strlit("<input type=\"text\" name=\"label\" value=\"");
    reveal_strlit("\"");
    let tpl = page::TOTP_RENAMING@;
    let holes = seq![87int, 143, 183];
    assert(markup::hole_at(tpl, holes, 0));
    assert(markup::hole_at(tpl, holes, 1));
    assert(markup::hole_at(tpl, holes, 2));
    assert(tpl.subrange(38, 87) =~= "<form class=\"totp-rename-form\" hx-post=\"/me/totp/"@);
    assert(tpl.subrange(88, 96) =~= "/rename\""@);
    assert(tpl.subrange(88, 143) =~= "/rename\" hx-target=\"#totp-section\" hx-swap=\"outerHTML\">"@);
    assert(tpl.subrange(144, 183) =~= "<input type=\"text\" name=\"label\" value=\""@);
    assert(tpl.subrange(184, 185) =~= "\""@);
    (tpl, holes)
}

/// The form that renames an authenticator holds its name and goes to that very one.
pub proof fn law_authenticator_renaming(
    ctx: &ChromeContext,
    cred: &TotpCredential,
    mode: page::SectionMode,
    is_last: bool,
)
    requires
        mode == page::SectionMode::Renaming(cred.id),
    ensures
        ({
            let out = page::totp_row_html(ctx, cred, mode, is_last);
            let id = cred.id;
            &&& markup::shows(
                out,
                "<form class=\"totp-rename-form\" hx-post=\"/me/totp/"@ + html::escaped(model::uuid_text(id)) + "/rename\""@,
            )
            &&& markup::shows(
                out,
                "/rename\" hx-target=\"#totp-section\" hx-swap=\"outerHTML\">"@ + shell::csrf_input_html(ctx.csrf_token@) + "<input type=\"text\" name=\"label\" value=\""@,
            )
            &&& markup::shows(
                out,
                "<input type=\"text\" name=\"label\" value=\""@ + html::escaped(cred.label@) + "\""@,
            )
        }),
{
    let id = cred.id;
    let (tpl, holes) = lemma_authenticator_renaming();
    let parts = seq![
        html::escaped(model::uuid_text(id)),
        shell::csrf_input_html(ctx.csrf_token@),
        html::escaped(cred.label@),
    ];
    assert(page::totp_row_html(ctx, cred, mode, is_last) == markup::filled(tpl, parts, 3).done()) by {
        reveal_with_fuel(markup::filled, 4);
    }
    markup::lemma_hole(
        tpl,
        holes,
        parts,
        0,
        "<form class=\"totp-rename-form\" hx-post=\"/me/totp/"@,
        "/rename\""@,
    );
    markup::lemma_hole(
        tpl,
        holes,
        parts,
        1,
        "/rename\" hx-target=\"#totp-section\" hx-swap=\"outerHTML\">"@,
        "<input type=\"text\" name=\"label\" value=\""@,
    );
    markup::lemma_hole(
        tpl,
        holes,
        parts,
        2,
        "<input type=\"text\" name=\"label\" value=\""@,
        "\""@,
    );
}

/// Where the holes of the template stand, and the texts around them.
proof fn lemma_authenticator_removal() -> (at: (Seq<char>, Seq<int>))
    ensures
        at.0 == page::TOTP_CONFIRM_DELETE@,
        at.1 == seq![101int, 139, 210, 244, 279, 359],
        at.0.len() == 548,
        markup::holes_at(at.0, at.1),
        at.0.subrange(65, 101) == "<span class=\"totp-row-name\">Remove “"@,
        at.0.subrange(102, 104) == "”?"@,
        at.0.subrange(111, 139) == "<span class=\"totp-row-meta\">"@,
        at.0.subrange(140, 147) == "</span>"@,
        at.0.subrange(183, 210) == "<form id=\"form-totp-delete-"@,
        at.0.subrange(211, 212) == "\""@,
        at.0.subrange(211, 244) == "\" method=\"post\" action=\"/me/totp/"@,
        at.0.subrange(245, 253) == "/delete\""@,
        at.0.subrange(245, 279) == "/delete\" style=\"display:contents\">"@,
        at.0.subrange(280, 359) == "<button type=\"button\" class=\"btn-danger\" data-reauth-confirm=\"form-totp-delete-"@,
        at.0.subrange(321, 359) == "data-reauth-confirm=\"form-totp-delete-"@,
        at.0.subrange(360, 361) == "\""@,
        "<span class=\"totp-row-name\">Remove “"@.len() == 36,
        "”?"@.len() == 2,
        "<span class=\"totp-row-meta\">"@.len() == 28,
        "</span>"@.len() == 7,
        "<form id=\"form-totp-delete-"@.len() == 27,
        "\""@.len() == 1,
        "\" method=\"post\" action=\"/me/totp/"@.len() == 33,
        "/delete\""@.len() == 8,
        "/delete\" style=\"display:contents\">"@.len() == 34,
        "<button type=\"button\" class=\"btn-danger\" data-reauth-confirm=\"form-totp-delete-"@.len() == 79,
        "data-reauth-confirm=\"form-totp-delete-"@.len() == 38,
{
    reveal_strlit("<li class=\"totp-row totp-row-confirm\"><div class=\"totp-row-main\"><span class=\"totp-row-name\">Remove “¤”?</span><span class=\"totp-row-meta\">¤</span></div><div class=\"totp-row-actions\"><form id=\"form-totp-delete-¤\" method=\"post\" action=\"/me/totp/¤/delete\" style=\"display:contents\">¤<button type=\"button\" class=\"btn-danger\" data-reauth-confirm=\"form-totp-delete-¤\" data-keep-source-open>Remove</button></form><button type=\"button\" class=\"btn-secondary\" hx-get=\"/me/totp/section\" hx-target=\"#totp-section\" hx-swap=\"outerHTML\">Cancel</button></div></li>");
    reveal_strlit("<span class=\"totp-row-name\">Remove “");
    reveal_strlit("”?");
    reveal_strlit("<span class=\"totp-row-meta\">");
    reveal_strlit("</span>");
    reveal_strlit("<form id=\"form-totp-delete-");
    reveal_strlit("\"");
    reveal_strlit("\" method=\"post\" action=\"/me/totp/");
    reveal_strlit("/delete\"");
    reveal_strlit("/delete\" style=\"display:contents\">");
    reveal_strlit("<button type=\"button\" class=\"btn-danger\" data-reauth-confirm=\"form-totp-delete-");
    reveal_strlit("data-reauth-confirm=\"form-totp-delete-");
    let tpl = page::TOTP_CONFIRM_DELETE@;
    let holes = seq![101int, 139, 210, 244, 279, 359];
    assert(markup::hole_at(tpl, holes, 0));
    assert(markup::hole_at(tpl, holes, 1));
    assert(markup::hole_at(tpl, holes, 2));
    assert(markup::hole_at(tpl, holes, 3));
    assert(markup::hole_at(tpl, holes, 4));
    assert(markup::hole_at(tpl, holes, 5));
    assert(tpl.subrange(65, 101) =~= "<span class=\"totp-row-name\">Remove “"@);
    assert(tpl.subrange(102, 104) =~= "”?"@);
    assert(tpl.subrange(111, 139) =~= "<span class=\"totp-row-meta\">"@);
    assert(tpl.subrange(140, 147) =~= "</span>"@);
    assert(tpl.subrange(183, 210) =~= "<form id=\"form-totp-delete-"@);
    assert(tpl.subrange(211, 212) =~= "\""@);
    assert(tpl.subrange(211, 244) =~= "\" method=\"post\" action=\"/me/totp/"@);
    assert(tpl.subrange(245, 253) =~= "/delete\""@);
    assert(tpl.subrange(245, 279) =~= "/delete\" style=\"display:contents\">"@);
    assert(tpl.subrange(280, 359) =~= "<button type=\"button\" class=\"btn-danger\" data-reauth-confirm=\"form-totp-delete-"@);
    assert(tpl.subrange(321, 359) =~= "data-reauth-confirm=\"form-totp-delete-"@);
    assert(tpl.subrange(360, 361) =~= "\""@);
    (tpl, holes)
}

/// The form that removes an authenticator names it and goes to that very one.
pub proof fn law_authenticator_removal(
    ctx: &ChromeContext,
    cred: &TotpCredential,
    mode: page::SectionMode,
    is_last: bool,
)
    requires
        mode == page::SectionMode::ConfirmDelete(cred.id),
    ensures
        ({
            let out = page::totp_row_html(ctx, cred, mode, is_last);
            let id = cred.id;
            &&& markup::shows(
                out,
                "<span class=\"totp-row-name\">Remove “"@ + html::escaped(cred.label@) + "”?"@,
            )
            &&& markup::shows(
                out,
                "<span class=\"totp-row-meta\">"@ + (if is_last { page::TOTP_LAST_WARNING@ } else { page::TOTP_DELETE_WARNING@ }) + "</span>"@,
            )
            &&& markup::shows(
                out,
                "<form id=\"form-totp-delete-"@ + html::escaped(model::uuid_text(id)) + "\""@,
            )
            &&& markup::shows(
                out,
                "\" method=\"post\" action=\"/me/totp/"@ + html::escaped(model::uuid_text(id)) + "/delete\""@,
            )
            &&& markup::shows(
                out,
                "/delete\" style=\"display:contents\">"@ + shell::csrf_input_html(ctx.csrf_token@) + "<button type=\"button\" class=\"btn-danger\" data-reauth-confirm=\"form-totp-delete-"@,
            )
            &&& markup::shows(
                out,
                "data-reauth-confirm=\"form-totp-delete-"@ + html::escaped(model::uuid_text(id)) + "\""@,
            )
        }),
{
    let id = cred.id;
    let (tpl, holes) = lemma_authenticator_removal();
    let parts = seq![
        html::escaped(cred.label@),
        if is_last { page::TOTP_LAST_WARNING@ } else { page::TOTP_DELETE_WARNING@ },
        html::escaped(model::uuid_text(id)),
        html::escaped(model::uuid_text(id)),
        shell::csrf_input_html(ctx.csrf_token@),
        html::escaped(model::uuid_text(id)),
    ];
    assert(page::totp_row_html(ctx, cred, mode, is_last) == markup::filled(tpl, parts, 6).done()) by {
        reveal_with_fuel(markup::filled, 7);
    }
    markup::lemma_hole(tpl, holes, parts, 0, "<span class=\"totp-row-name\">Remove “"@, "”?"@);
    markup::lemma_hole(tpl, holes, parts, 1, "<span class=\"totp-row-meta\">"@, "</span>"@);
    markup::lemma_hole(tpl, holes, parts, 2, "<form id=\"form-totp-delete-"@, "\""@);
    markup::lemma_hole(
        tpl,
        holes,
        parts,
        3,
        "\" method=\"post\" action=\"/me/totp/"@,
        "/delete\""@,
    );
    markup::lemma_hole(
        tpl,
        holes,
        parts,
        4,
        "/delete\" style=\"display:contents\">"@,
        "<button type=\"button\" class=\"btn-danger\" data-reauth-confirm=\"form-totp-delete-"@,
    );
    markup::lemma_hole(tpl, holes, parts, 5, "data-reauth-confirm=\"form-totp-delete-"@, "\""@);
}

/// Where the holes of the template stand, and the texts around them.
proof fn lemma_authenticator_row() -> (at: (Seq<char>, Seq<int>))
    ensures
        at.0 == page::TOTP_ROW@,
        at.1 == seq![68int, 131, 173, 174, 308, 362, 478, 542],
        at.0.len() == 563,
        markup::holes_at(at.0, at.1),
        at.0.subrange(103, 131) == "<span class=\"totp-row-name\">"@,
        at.0.subrange(132, 139) == "</span>"@,
        at.0.subrange(139, 173) == "<span class=\"totp-row-meta\">Added "@,
        at.0.subrange(175, 182) == "</span>"@,
        at.0.subrange(257, 308) == "aria-label=\"Rename authenticator\" hx-get=\"/me/totp/"@,
        at.0.subrange(309, 315) == "/edit\""@,
        at.0.subrange(427, 478) == "aria-label=\"Remove authenticator\" hx-get=\"/me/totp/"@,
        at.0.subrange(479, 495) == "/confirm-delete\""@,
        "<span class=\"totp-row-name\">"@.len() == 28,
        "</span>"@.len() == 7,
        "<span class=\"totp-row-meta\">Added "@.len() == 34,
        "aria-label=\"Rename authenticator\" hx-get=\"/me/totp/"@.len() == 51,
        "/edit\""@.len() == 6,
        "aria-label=\"Remove authenticator\" hx-get=\"/me/totp/"@.len() == 51,
        "/confirm-delete\""@.len() == 16,
{
    reveal_strlit("<li class=\"totp-row\"><span class=\"totp-row-icon\" aria-hidden=\"true\">¤</span><div class=\"totp-row-main\"><span class=\"totp-row-name\">¤</span><span class=\"totp-row-meta\">Added ¤¤</span></div><div class=\"totp-row-actions\"><button type=\"button\" class=\"icon-btn\" aria-label=\"Rename authenticator\" hx-get=\"/me/totp/¤/edit\" hx-target=\"#totp-section\" hx-swap=\"outerHTML\">¤</button><button type=\"button\" class=\"icon-btn icon-btn-danger\" aria-label=\"Remove authenticator\" hx-get=\"/me/totp/¤/confirm-delete\" hx-target=\"#totp-section\" hx-swap=\"outerHTML\">¤</button></div></li>");
    reveal_strlit("<span class=\"totp-row-name\">");
    reveal_strlit("</span>");
    reveal_strlit("<span class=\"totp-row-meta\">Added ");
    reveal_strlit("aria-label=\"Rename authenticator\" hx-get=\"/me/totp/");
    reveal_strlit("/edit\"");
    reveal_strlit("aria-label=\"Remove authenticator\" hx-get=\"/me/totp/");
    reveal_strlit("/confirm-delete\"");
    let tpl = page::TOTP_ROW@;
    let holes = seq![68int, 131, 173, 174, 308, 362, 478, 542];
    assert(markup::hole_at(tpl, holes, 0));
    assert(markup::hole_at(tpl, holes, 1));
    assert(markup::hole_at(tpl, holes, 2));
    assert(markup::hole_at(tpl, holes, 3));
    assert(markup::hole_at(tpl, holes, 4));
    assert(markup::hole_at(tpl, holes, 5));
    assert(markup::hole_at(tpl, holes, 6));
    assert(markup::hole_at(tpl, holes, 7));
    assert(tpl.subrange(103, 131) =~= "<span class=\"totp-row-name\">"@);
    assert(tpl.subrange(132, 139) =~= "</span>"@);
    assert(tpl.subrange(139, 173) =~= "<span class=\"totp-row-meta\">Added "@);
    assert(tpl.subrange(175, 182) =~= "</span>"@);
    assert(tpl.subrange(257, 308) =~= "aria-label=\"Rename authenticator\" hx-get=\"/me/totp/"@);
    assert(tpl.subrange(309, 315) =~= "/edit\""@);
    assert(tpl.subrange(427, 478) =~= "aria-label=\"Remove authenticator\" hx-get=\"/me/totp/"@);
    assert(tpl.subrange(479, 495) =~= "/confirm-delete\""@);
    (tpl, holes)
}

/// The row of an authenticator shows its name, when it was added and last used, and works on that
/// very one.
pub proof fn law_authenticator_row(
    ctx: &ChromeContext,
    cred: &TotpCredential,
    mode: page::SectionMode,
    is_last: bool,
)
    requires
        mode != page::SectionMode::Renaming(cred.id),
        mode != page::SectionMode::ConfirmDelete(cred.id),
    ensures
        ({
            let out = page::totp_row_html(ctx, cred, mode, is_last);
            let id = cred.id;
            &&& markup::shows(
                out,
                "<span class=\"totp-row-name\">"@ + html::escaped(cred.label@) + "</span>"@,
            )
            &&& markup::shows(
                out,
                "<span class=\"totp-row-meta\">Added "@ + html::escaped(model::date_text(cred.created_at@, model::SHORT_DATE@)),
            )
            &&& markup::shows(
                out,
                (match cred.last_used_at { Some(used) => html::template(page::TOTP_LAST_USED@) .date(used@, model::SHORT_DATE@) .done(), None => page::TOTP_NEVER_USED@, }) + "</span>"@,
            )
            &&& markup::shows(
                out,
                "aria-label=\"Rename authenticator\" hx-get=\"/me/totp/"@ + html::escaped(model::uuid_text(id)) + "/edit\""@,
            )
            &&& markup::shows(
                out,
                "aria-label=\"Remove authenticator\" hx-get=\"/me/totp/"@ + html::escaped(model::uuid_text(id)) + "/confirm-delete\""@,
            )
        }),
{
    let id = cred.id;
    let (tpl, holes) = lemma_authenticator_row();
    let parts = seq![
        DEVICE_MOBILE_ICON@,
        html::escaped(cred.label@),
        html::escaped(model::date_text(cred.created_at@, model::SHORT_DATE@)),
        match cred.last_used_at { Some(used) => html::template(page::TOTP_LAST_USED@) .date(used@, model::SHORT_DATE@) .done(), None => page::TOTP_NEVER_USED@, },
        html::escaped(model::uuid_text(id)),
        PENCIL_ICON@,
        html::escaped(model::uuid_text(id)),
        TRASH_ICON@,
    ];
    assert(page::totp_row_html(ctx, cred, mode, is_last) == markup::filled(tpl, parts, 8).done()) by {
        reveal_with_fuel(markup::filled, 9);
    }
    markup::lemma_hole(tpl, holes, parts, 1, "<span class=\"totp-row-name\">"@, "</span>"@);
    assert(tpl.subrange(174, 174) =~= Seq::<char>::empty());
    markup::lemma_hole(
        tpl,
        holes,
        parts,
        2,
        "<span class=\"totp-row-meta\">Added "@,
        Seq::<char>::empty(),
    );
    assert("<span class=\"totp-row-meta\">Added "@ + parts[2] + Seq::<char>::empty() =~= "<span class=\"totp-row-meta\">Added "@ + parts[2]);
    assert(tpl.subrange(174, 174) =~= Seq::<char>::empty());
    markup::lemma_hole(tpl, holes, parts, 3, Seq::<char>::empty(), "</span>"@);
    assert(Seq::<char>::empty() + parts[3] + "</span>"@ =~= parts[3] + "</span>"@);
    markup::lemma_hole(
        tpl,
        holes,
        parts,
        4,
        "aria-label=\"Rename authenticator\" hx-get=\"/me/totp/"@,
        "/edit\""@,
    );
    markup::lemma_hole(
        tpl,
        holes,
        parts,
        6,
        "aria-label=\"Remove authenticator\" hx-get=\"/me/totp/"@,
        "/confirm-delete\""@,
    );
}

/// Where the holes of the template stand, and the texts around them.
proof fn lemma_passkey_renaming() -> (at: (Seq<char>, Seq<int>))
    ensures
        at.0 == page::PASSKEY_RENAMING@,
        at.1 == seq![90int, 149, 189],
        at.0.len() == 520,
        markup::holes_at(at.0, at.1),
        at.0.subrange(38, 90) == "<form class=\"totp-rename-form\" hx-post=\"/me/passkey/"@,
        at.0.subrange(91, 99) == "/rename\""@,
        at.0.subrange(100, 149) == "hx-target=\"#passkey-section\" hx-swap=\"outerHTML\">"@,
        at.0.subrange(150, 189) == "<input type=\"text\" name=\"label\" value=\""@,
        at.0.subrange(190, 191) == "\""@,
        "<form class=\"totp-rename-form\" hx-post=\"/me/passkey/"@.len() == 52,
        "/rename\""@.len() == 8,
        "hx-target=\"#passkey-section\" hx-swap=\"outerHTML\">"@.len() == 49,
        "<input type=\"text\" name=\"label\" value=\""@.len() == 39,
        "\""@.len() == 1,
{
    reveal_strlit("<li class=\"totp-row totp-row-editing\"><form class=\"totp-rename-form\" hx-post=\"/me/passkey/¤/rename\" hx-target=\"#passkey-section\" hx-swap=\"outerHTML\">¤<input type=\"text\" name=\"label\" value=\"¤\" maxlength=\"60\" required autofocus class=\"totp-rename-input\" aria-label=\"Passkey name\"><div class=\"totp-row-actions\"><button type=\"submit\" class=\"btn-secondary\">Save</button><button type=\"button\" class=\"btn-secondary\" hx-get=\"/me/passkey/section\" hx-target=\"#passkey-section\" hx-swap=\"outerHTML\">Cancel</button></div></form></li>");
    reveal_strlit("<form class=\"totp-rename-form\" hx-post=\"/me/passkey/");
    reveal_strlit("/rename\"");
    reveal_strlit("hx-target=\"#passkey-section\" hx-swap=\"outerHTML\">");
    reveal_strlit("<input type=\"text\" name=\"label\" value=\"");
    reveal_strlit("\"");
    let tpl = page::PASSKEY_RENAMING@;
    let holes = seq![90int, 149, 189];
    assert(markup::hole_at(tpl, holes, 0));
    assert(markup::hole_at(tpl, holes, 1));
    assert(markup::hole_at(tpl, holes, 2));
    assert(tpl.subrange(38, 90) =~= "<form class=\"totp-rename-form\" hx-post=\"/me/passkey/"@);
    assert(tpl.subrange(91, 99) =~= "/rename\""@);
    assert(tpl.subrange(100, 149) =~= "hx-target=\"#passkey-section\" hx-swap=\"outerHTML\">"@);
    assert(tpl.subrange(150, 189) =~= "<input type=\"text\" name=\"label\" value=\""@);
    assert(tpl.subrange(190, 191) =~= "\""@);
    (tpl, holes)
}

/// The form that renames a passkey holds its name and goes to that very one.
pub proof fn law_passkey_renaming(
    ctx: &ChromeContext,
    cred: &WebauthnCredentialRow,
    mode: page::SectionMode,
    is_last: bool,
)
    requires
        mode == page::SectionMode::Renaming(cred.id),
    ensures
        ({
            let out = page::passkey_row_html(ctx, cred, mode, is_last);
            let id = cred.id;
            &&& markup::shows(
                out,
                "<form class=\"totp-rename-form\" hx-post=\"/me/passkey/"@ + html::escaped(model::uuid_text(id)) + "/rename\""@,
            )
            &&& markup::shows(
                out,
                "hx-target=\"#passkey-section\" hx-swap=\"outerHTML\">"@ + shell::csrf_input_html(ctx.csrf_token@) + "<input type=\"text\" name=\"label\" value=\""@,
            )
            &&& markup::shows(
                out,
                "<input type=\"text\" name=\"label\" value=\""@ + html::escaped(cred.label@) + "\""@,
            )
        }),
{
    let id = cred.id;
    let (tpl, holes) = lemma_passkey_renaming();
    let parts = seq![
        html::escaped(model::uuid_text(id)),
        shell::csrf_input_html(ctx.csrf_token@),
        html::escaped(cred.label@),
    ];
    assert(page::passkey_row_html(ctx, cred, mode, is_last) == markup::filled(tpl, parts, 3).done()) by {
        reveal_with_fuel(markup::filled, 4);
    }
    markup::lemma_hole(
        tpl,
        holes,
        parts,
        0,
        "<form class=\"totp-rename-form\" hx-post=\"/me/passkey/"@,
        "/rename\""@,
    );
    markup::lemma_hole(
        tpl,
        holes,
        parts,
        1,
        "hx-target=\"#passkey-section\" hx-swap=\"outerHTML\">"@,
        "<input type=\"text\" name=\"label\" value=\""@,
    );
    markup::lemma_hole(
        tpl,
        holes,
        parts,
        2,
        "<input type=\"text\" name=\"label\" value=\""@,
        "\""@,
    );
}

/// Where the holes of the template stand, and the texts around them.
proof fn lemma_passkey_removal() -> (at: (Seq<char>, Seq<int>))
    ensures
        at.0 == page::PASSKEY_CONFIRM_DELETE@,
        at.1 == seq![101int, 139, 213, 250, 285, 368],
        at.0.len() == 563,
        markup::holes_at(at.0, at.1),
        at.0.subrange(65, 101) == "<span class=\"totp-row-name\">Remove “"@,
        at.0.subrange(102, 104) == "”?"@,
        at.0.subrange(111, 139) == "<span class=\"totp-row-meta\">"@,
        at.0.subrange(140, 147) == "</span>"@,
        at.0.subrange(183, 213) == "<form id=\"form-passkey-delete-"@,
        at.0.subrange(214, 215) == "\""@,
        at.0.subrange(214, 250) == "\" method=\"post\" action=\"/me/passkey/"@,
        at.0.subrange(251, 259) == "/delete\""@,
        at.0.subrange(251, 285) == "/delete\" style=\"display:contents\">"@,
        at.0.subrange(286, 368) == "<button type=\"button\" class=\"btn-danger\" data-reauth-confirm=\"form-passkey-delete-"@,
        at.0.subrange(327, 368) == "data-reauth-confirm=\"form-passkey-delete-"@,
        at.0.subrange(369, 370) == "\""@,
        "<span class=\"totp-row-name\">Remove “"@.len() == 36,
        "”?"@.len() == 2,
        "<span class=\"totp-row-meta\">"@.len() == 28,
        "</span>"@.len() == 7,
        "<form id=\"form-passkey-delete-"@.len() == 30,
        "\""@.len() == 1,
        "\" method=\"post\" action=\"/me/passkey/"@.len() == 36,
        "/delete\""@.len() == 8,
        "/delete\" style=\"display:contents\">"@.len() == 34,
        "<button type=\"button\" class=\"btn-danger\" data-reauth-confirm=\"form-passkey-delete-"@.len() == 82,
        "data-reauth-confirm=\"form-passkey-delete-"@.len() == 41,
{
    reveal_strlit("<li class=\"totp-row totp-row-confirm\"><div class=\"totp-row-main\"><span class=\"totp-row-name\">Remove “¤”?</span><span class=\"totp-row-meta\">¤</span></div><div class=\"totp-row-actions\"><form id=\"form-passkey-delete-¤\" method=\"post\" action=\"/me/passkey/¤/delete\" style=\"display:contents\">¤<button type=\"button\" class=\"btn-danger\" data-reauth-confirm=\"form-passkey-delete-¤\" data-keep-source-open>Remove</button></form><button type=\"button\" class=\"btn-secondary\" hx-get=\"/me/passkey/section\" hx-target=\"#passkey-section\" hx-swap=\"outerHTML\">Cancel</button></div></li>");
    reveal_strlit("<span class=\"totp-row-name\">Remove “");
    reveal_strlit("”?");
    reveal_strlit("<span class=\"totp-row-meta\">");
    reveal_strlit("</span>");
    reveal_strlit("<form id=\"form-passkey-delete-");
    reveal_strlit("\"");
    reveal_strlit("\" method=\"post\" action=\"/me/passkey/");
    reveal_strlit("/delete\"");
    reveal_strlit("/delete\" style=\"display:contents\">");
    reveal_strlit("<button type=\"button\" class=\"btn-danger\" data-reauth-confirm=\"form-passkey-delete-");
    reveal_strlit("data-reauth-confirm=\"form-passkey-delete-");
    let tpl = page::PASSKEY_CONFIRM_DELETE@;
    let holes = seq![101int, 139, 213, 250, 285, 368];
    assert(markup::hole_at(tpl, holes, 0));
    assert(markup::hole_at(tpl, holes, 1));
    assert(markup::hole_at(tpl, holes, 2));
    assert(markup::hole_at(tpl, holes, 3));
    assert(markup::hole_at(tpl, holes, 4));
    assert(markup::hole_at(tpl, holes, 5));
    assert(tpl.subrange(65, 101) =~= "<span class=\"totp-row-name\">Remove “"@);
    assert(tpl.subrange(102, 104) =~= "”?"@);
    assert(tpl.subrange(111, 139) =~= "<span class=\"totp-row-meta\">"@);
    assert(tpl.subrange(140, 147) =~= "</span>"@);
    assert(tpl.subrange(183, 213) =~= "<form id=\"form-passkey-delete-"@);
    assert(tpl.subrange(214, 215) =~= "\""@);
    assert(tpl.subrange(214, 250) =~= "\" method=\"post\" action=\"/me/passkey/"@);
    assert(tpl.subrange(251, 259) =~= "/delete\""@);
    assert(tpl.subrange(251, 285) =~= "/delete\" style=\"display:contents\">"@);
    assert(tpl.subrange(286, 368) =~= "<button type=\"button\" class=\"btn-danger\" data-reauth-confirm=\"form-passkey-delete-"@);
    assert(tpl.subrange(327, 368) =~= "data-reauth-confirm=\"form-passkey-delete-"@);
    assert(tpl.subrange(369, 370) =~= "\""@);
    (tpl, holes)
}

/// The form that removes a passkey names it and goes to that very one.
pub proof fn law_passkey_removal(
    ctx: &ChromeContext,
    cred: &WebauthnCredentialRow,
    mode: page::SectionMode,
    is_last: bool,
)
    requires
        mode == page::SectionMode::ConfirmDelete(cred.id),
    ensures
        ({
            let out = page::passkey_row_html(ctx, cred, mode, is_last);
            let id = cred.id;
            &&& markup::shows(
                out,
                "<span class=\"totp-row-name\">Remove “"@ + html::escaped(cred.label@) + "”?"@,
            )
            &&& markup::shows(
                out,
                "<span class=\"totp-row-meta\">"@ + (if is_last { page::PASSKEY_LAST_WARNING@ } else { page::TOTP_DELETE_WARNING@ }) + "</span>"@,
            )
            &&& markup::shows(
                out,
                "<form id=\"form-passkey-delete-"@ + html::escaped(model::uuid_text(id)) + "\""@,
            )
            &&& markup::shows(
                out,
                "\" method=\"post\" action=\"/me/passkey/"@ + html::escaped(model::uuid_text(id)) + "/delete\""@,
            )
            &&& markup::shows(
                out,
                "/delete\" style=\"display:contents\">"@ + shell::csrf_input_html(ctx.csrf_token@) + "<button type=\"button\" class=\"btn-danger\" data-reauth-confirm=\"form-passkey-delete-"@,
            )
            &&& markup::shows(
                out,
                "data-reauth-confirm=\"form-passkey-delete-"@ + html::escaped(model::uuid_text(id)) + "\""@,
            )
        }),
{
    let id = cred.id;
    let (tpl, holes) = lemma_passkey_removal();
    let parts = seq![
        html::escaped(cred.label@),
        if is_last { page::PASSKEY_LAST_WARNING@ } else { page::TOTP_DELETE_WARNING@ },
        html::escaped(model::uuid_text(id)),
        html::escaped(model::uuid_text(id)),
        shell::csrf_input_html(ctx.csrf_token@),
        html::escaped(model::uuid_text(id)),
    ];
    assert(page::passkey_row_html(ctx, cred, mode, is_last) == markup::filled(tpl, parts, 6).done()) by {
        reveal_with_fuel(markup::filled, 7);
    }
    markup::lemma_hole(tpl, holes, parts, 0, "<span class=\"totp-row-name\">Remove “"@, "”?"@);
    markup::lemma_hole(tpl, holes, parts, 1, "<span class=\"totp-row-meta\">"@, "</span>"@);
    markup::lemma_hole(tpl, holes, parts, 2, "<form id=\"form-passkey-delete-"@, "\""@);
    markup::lemma_hole(
        tpl,
        holes,
        parts,
        3,
        "\" method=\"post\" action=\"/me/passkey/"@,
        "/delete\""@,
    );
    markup::lemma_hole(
        tpl,
        holes,
        parts,
        4,
        "/delete\" style=\"display:contents\">"@,
        "<button type=\"button\" class=\"btn-danger\" data-reauth-confirm=\"form-passkey-delete-"@,
    );
    markup::lemma_hole(tpl, holes, parts, 5, "data-reauth-confirm=\"form-passkey-delete-"@, "\""@);
}

/// Where the holes of the template stand, and the texts around them.
proof fn lemma_passkey_row() -> (at: (Seq<char>, Seq<int>))
    ensures
        at.0 == page::PASSKEY_ROW@,
        at.1 == seq![68int, 131, 173, 174, 305, 362, 475, 542],
        at.0.len() == 563,
        markup::holes_at(at.0, at.1),
        at.0.subrange(103, 131) == "<span class=\"totp-row-name\">"@,
        at.0.subrange(132, 139) == "</span>"@,
        at.0.subrange(139, 173) == "<span class=\"totp-row-meta\">Added "@,
        at.0.subrange(175, 182) == "</span>"@,
        at.0.subrange(257, 305) == "aria-label=\"Rename passkey\" hx-get=\"/me/passkey/"@,
        at.0.subrange(306, 312) == "/edit\""@,
        at.0.subrange(427, 475) == "aria-label=\"Remove passkey\" hx-get=\"/me/passkey/"@,
        at.0.subrange(476, 492) == "/confirm-delete\""@,
        "<span class=\"totp-row-name\">"@.len() == 28,
        "</span>"@.len() == 7,
        "<span class=\"totp-row-meta\">Added "@.len() == 34,
        "aria-label=\"Rename passkey\" hx-get=\"/me/passkey/"@.len() == 48,
        "/edit\""@.len() == 6,
        "aria-label=\"Remove passkey\" hx-get=\"/me/passkey/"@.len() == 48,
        "/confirm-delete\""@.len() == 16,
{
    reveal_strlit("<li class=\"totp-row\"><span class=\"totp-row-icon\" aria-hidden=\"true\">¤</span><div class=\"totp-row-main\"><span class=\"totp-row-name\">¤</span><span class=\"totp-row-meta\">Added ¤¤</span></div><div class=\"totp-row-actions\"><button type=\"button\" class=\"icon-btn\" aria-label=\"Rename passkey\" hx-get=\"/me/passkey/¤/edit\" hx-target=\"#passkey-section\" hx-swap=\"outerHTML\">¤</button><button type=\"button\" class=\"icon-btn icon-btn-danger\" aria-label=\"Remove passkey\" hx-get=\"/me/passkey/¤/confirm-delete\" hx-target=\"#passkey-section\" hx-swap=\"outerHTML\">¤</button></div></li>");
    reveal_strlit("<span class=\"totp-row-name\">");
    reveal_strlit("</span>");
    reveal_strlit("<span class=\"totp-row-meta\">Added ");
    reveal_strlit("aria-label=\"Rename passkey\" hx-get=\"/me/passkey/");
    reveal_strlit("/edit\"");
    reveal_strlit("aria-label=\"Remove passkey\" hx-get=\"/me/passkey/");
    reveal_strlit("/confirm-delete\"");
    let tpl = page::PASSKEY_ROW@;
    let holes = seq![68int, 131, 173, 174, 305, 362, 475, 542];
    assert(markup::hole_at(tpl, holes, 0));
    assert(markup::hole_at(tpl, holes, 1));
    assert(markup::hole_at(tpl, holes, 2));
    assert(markup::hole_at(tpl, holes, 3));
    assert(markup::hole_at(tpl, holes, 4));
    assert(markup::hole_at(tpl, holes, 5));
    assert(markup::hole_at(tpl, holes, 6));
    assert(markup::hole_at(tpl, holes, 7));
    assert(tpl.subrange(103, 131) =~= "<span class=\"totp-row-name\">"@);
    assert(tpl.subrange(132, 139) =~= "</span>"@);
    assert(tpl.subrange(139, 173) =~= "<span class=\"totp-row-meta\">Added "@);
    assert(tpl.subrange(175, 182) =~= "</span>"@);
    assert(tpl.subrange(257, 305) =~= "aria-label=\"Rename passkey\" hx-get=\"/me/passkey/"@);
    assert(tpl.subrange(306, 312) =~= "/edit\""@);
    assert(tpl.subrange(427, 475) =~= "aria-label=\"Remove passkey\" hx-get=\"/me/passkey/"@);
    assert(tpl.subrange(476, 492) =~= "/confirm-delete\""@);
    (tpl, holes)
}

/// The row of a passkey shows its name, when it was added and last used, and works on that very
/// one.
pub proof fn law_passkey_row(
    ctx: &ChromeContext,
    cred: &WebauthnCredentialRow,
    mode: page::SectionMode,
    is_last: bool,
)
    requires
        mode != page::SectionMode::Renaming(cred.id),
        mode != page::SectionMode::ConfirmDelete(cred.id),
    ensures
        ({
            let out = page::passkey_row_html(ctx, cred, mode, is_last);
            let id = cred.id;
            &&& markup::shows(
                out,
                "<span class=\"totp-row-name\">"@ + html::escaped(cred.label@) + "</span>"@,
            )
            &&& markup::shows(
                out,
                "<span class=\"totp-row-meta\">Added "@ + html::escaped(model::date_text(cred.created_at@, model::SHORT_DATE@)),
            )
            &&& markup::shows(
                out,
                (match cred.last_used_at { Some(used) => html::template(page::TOTP_LAST_USED@) .date(used@, model::SHORT_DATE@) .done(), None => page::TOTP_NEVER_USED@, }) + "</span>"@,
            )
            &&& markup::shows(
                out,
                "aria-label=\"Rename passkey\" hx-get=\"/me/passkey/"@ + html::escaped(model::uuid_text(id)) + "/edit\""@,
            )
            &&& markup::shows(
                out,
                "aria-label=\"Remove passkey\" hx-get=\"/me/passkey/"@ + html::escaped(model::uuid_text(id)) + "/confirm-delete\""@,
            )
        }),
{
    let id = cred.id;
    let (tpl, holes) = lemma_passkey_row();
    let parts = seq![
        FINGERPRINT_ICON@,
        html::escaped(cred.label@),
        html::escaped(model::date_text(cred.created_at@, model::SHORT_DATE@)),
        match cred.last_used_at { Some(used) => html::template(page::TOTP_LAST_USED@) .date(used@, model::SHORT_DATE@) .done(), None => page::TOTP_NEVER_USED@, },
        html::escaped(model::uuid_text(id)),
        PENCIL_ICON@,
        html::escaped(model::uuid_text(id)),
        TRASH_ICON@,
    ];
    assert(page::passkey_row_html(ctx, cred, mode, is_last) == markup::filled(tpl, parts, 8).done()) by {
        reveal_with_fuel(markup::filled, 9);
    }
    markup::lemma_hole(tpl, holes, parts, 1, "<span class=\"totp-row-name\">"@, "</span>"@);
    assert(tpl.subrange(174, 174) =~= Seq::<char>::empty());
    markup::lemma_hole(
        tpl,
        holes,
        parts,
        2,
        "<span class=\"totp-row-meta\">Added "@,
        Seq::<char>::empty(),
    );
    assert("<span class=\"totp-row-meta\">Added "@ + parts[2] + Seq::<char>::empty() =~= "<span class=\"totp-row-meta\">Added "@ + parts[2]);
    assert(tpl.subrange(174, 174) =~= Seq::<char>::empty());
    markup::lemma_hole(tpl, holes, parts, 3, Seq::<char>::empty(), "</span>"@);
    assert(Seq::<char>::empty() + parts[3] + "</span>"@ =~= parts[3] + "</span>"@);
    markup::lemma_hole(
        tpl,
        holes,
        parts,
        4,
        "aria-label=\"Rename passkey\" hx-get=\"/me/passkey/"@,
        "/edit\""@,
    );
    markup::lemma_hole(
        tpl,
        holes,
        parts,
        6,
        "aria-label=\"Remove passkey\" hx-get=\"/me/passkey/"@,
        "/confirm-delete\""@,
    );
}

/// Where the holes of the template stand, and the texts around them.
proof fn lemma_session_renaming() -> (at: (Seq<char>, Seq<int>))
    ensures
        at.0 == page::SESSION_RENAMING@,
        at.1 == seq![91int, 150, 182, 197],
        at.0.len() == 519,
        markup::holes_at(at.0, at.1),
        at.0.subrange(38, 91) == "<form class=\"totp-rename-form\" hx-post=\"/me/sessions/"@,
        at.0.subrange(92, 100) == "/rename\""@,
        at.0.subrange(101, 150) == "hx-target=\"#devices-section\" hx-swap=\"outerHTML\">"@,
        at.0.subrange(151, 182) == "<input type=\"text\" name=\"label\""@,
        at.0.subrange(183, 197) == " placeholder=\""@,
        at.0.subrange(198, 199) == "\""@,
        "<form class=\"totp-rename-form\" hx-post=\"/me/sessions/"@.len() == 53,
        "/rename\""@.len() == 8,
        "hx-target=\"#devices-section\" hx-swap=\"outerHTML\">"@.len() == 49,
        "<input type=\"text\" name=\"label\""@.len() == 31,
        " placeholder=\""@.len() == 14,
        "\""@.len() == 1,
{
    reveal_strlit("<li class=\"totp-row totp-row-editing\"><form class=\"totp-rename-form\" hx-post=\"/me/sessions/¤/rename\" hx-target=\"#devices-section\" hx-swap=\"outerHTML\">¤<input type=\"text\" name=\"label\"¤ placeholder=\"¤\" maxlength=\"60\" autofocus class=\"totp-rename-input\" aria-label=\"Device name\"><div class=\"totp-row-actions\"><button type=\"submit\" class=\"btn-secondary\">Save</button><button type=\"button\" class=\"btn-secondary\" hx-get=\"/me/sessions/section\" hx-target=\"#devices-section\" hx-swap=\"outerHTML\">Cancel</button></div></form></li>");
    reveal_strlit("<form class=\"totp-rename-form\" hx-post=\"/me/sessions/");
    reveal_strlit("/rename\"");
    reveal_strlit("hx-target=\"#devices-section\" hx-swap=\"outerHTML\">");
    reveal_strlit("<input type=\"text\" name=\"label\"");
    reveal_strlit(" placeholder=\"");
    reveal_strlit("\"");
    let tpl = page::SESSION_RENAMING@;
    let holes = seq![91int, 150, 182, 197];
    assert(markup::hole_at(tpl, holes, 0));
    assert(markup::hole_at(tpl, holes, 1));
    assert(markup::hole_at(tpl, holes, 2));
    assert(markup::hole_at(tpl, holes, 3));
    assert(tpl.subrange(38, 91) =~= "<form class=\"totp-rename-form\" hx-post=\"/me/sessions/"@);
    assert(tpl.subrange(92, 100) =~= "/rename\""@);
    assert(tpl.subrange(101, 150) =~= "hx-target=\"#devices-section\" hx-swap=\"outerHTML\">"@);
    assert(tpl.subrange(151, 182) =~= "<input type=\"text\" name=\"label\""@);
    assert(tpl.subrange(183, 197) =~= " placeholder=\""@);
    assert(tpl.subrange(198, 199) =~= "\""@);
    (tpl, holes)
}

/// The form that names a device holds its nickname and goes to that very session.
pub proof fn law_session_renaming(
    ctx: &ChromeContext,
    s: &Session,
    is_current: bool,
    now: &Timestamp,
    mode: page::SectionMode,
)
    requires
        mode == page::SectionMode::Renaming(s.id),
    ensures
        ({
            let out = page::session_row_html(ctx, s, is_current, now, mode);
            let id = s.id;
            let ua = page::agent_of(s);
            let auto = display::device_name(ua);
            let custom = page::custom_label_of(s);
            &&& markup::shows(
                out,
                "<form class=\"totp-rename-form\" hx-post=\"/me/sessions/"@ + html::escaped(model::uuid_text(id)) + "/rename\""@,
            )
            &&& markup::shows(
                out,
                "hx-target=\"#devices-section\" hx-swap=\"outerHTML\">"@ + shell::csrf_input_html(ctx.csrf_token@) + "<input type=\"text\" name=\"label\""@,
            )
            &&& markup::shows(
                out,
                "<input type=\"text\" name=\"label\""@ + (match custom { Some(l) => html::template(page::VALUE_ATTRIBUTE@).text(l).done(), None => Seq::empty(), }) + " placeholder=\""@,
            )
            &&& markup::shows(out, " placeholder=\""@ + html::escaped(auto) + "\""@)
        }),
{
    let id = s.id;
    let ua = page::agent_of(s);
    let auto = display::device_name(ua);
    let custom = page::custom_label_of(s);
    let (tpl, holes) = lemma_session_renaming();
    let parts = seq![
        html::escaped(model::uuid_text(id)),
        shell::csrf_input_html(ctx.csrf_token@),
        match custom { Some(l) => html::template(page::VALUE_ATTRIBUTE@).text(l).done(), None => Seq::empty(), },
        html::escaped(auto),
    ];
    assert(page::session_row_html(ctx, s, is_current, now, mode) == markup::filled(tpl, parts, 4).done()) by {
        reveal_with_fuel(markup::filled, 5);
    }
    markup::lemma_hole(
        tpl,
        holes,
        parts,
        0,
        "<form class=\"totp-rename-form\" hx-post=\"/me/sessions/"@,
        "/rename\""@,
    );
    markup::lemma_hole(
        tpl,
        holes,
        parts,
        1,
        "hx-target=\"#devices-section\" hx-swap=\"outerHTML\">"@,
        "<input type=\"text\" name=\"label\""@,
    );
    markup::lemma_hole(
        tpl,
        holes,
        parts,
        2,
        "<input type=\"text\" name=\"label\""@,
        " placeholder=\""@,
    );
    markup::lemma_hole(tpl, holes, parts, 3, " placeholder=\""@, "\""@);
}

/// Where the holes of the template stand, and the texts around them.
proof fn lemma_session_row() -> (at: (Seq<char>, Seq<int>))
    ensures
        at.0 == page::SESSION_ROW@,
        at.1 == seq![68int, 131, 132, 168, 169, 170, 301, 358, 368],
        at.0.len() == 380,
        markup::holes_at(at.0, at.1),
        at.0.subrange(21, 68) == "<span class=\"totp-row-icon\" aria-hidden=\"true\">"@,
        at.0.subrange(69, 76) == "</span>"@,
        at.0.subrange(103, 131) == "<span class=\"totp-row-name\">"@,
        at.0.subrange(133, 140) == "</span>"@,
        at.0.subrange(140, 168) == "<span class=\"totp-row-meta\">"@,
        at.0.subrange(171, 178) == "</span>"@,
        at.0.subrange(253, 301) == "aria-label=\"Rename device\" hx-get=\"/me/sessions/"@,
        at.0.subrange(302, 308) == "/edit\""@,
        at.0.subrange(359, 368) == "</button>"@,
        at.0.subrange(369, 375) == "</div>"@,
        "<span class=\"totp-row-icon\" aria-hidden=\"true\">"@.len() == 47,
        "</span>"@.len() == 7,
        "<span class=\"totp-row-name\">"@.len() == 28,
        "<span class=\"totp-row-meta\">"@.len() == 28,
        "aria-label=\"Rename device\" hx-get=\"/me/sessions/"@.len() == 48,
        "/edit\""@.len() == 6,
        "</button>"@.len() == 9,
        "</div>"@.len() == 6,
{
    reveal_strlit("<li class=\"totp-row\"><span class=\"totp-row-icon\" aria-hidden=\"true\">¤</span><div class=\"totp-row-main\"><span class=\"totp-row-name\">¤¤</span><span class=\"totp-row-meta\">¤¤¤</span></div><div class=\"totp-row-actions\"><button type=\"button\" class=\"icon-btn\" aria-label=\"Rename device\" hx-get=\"/me/sessions/¤/edit\" hx-target=\"#devices-section\" hx-swap=\"outerHTML\">¤</button>¤</div></li>");
    reveal_strlit("<span class=\"totp-row-icon\" aria-hidden=\"true\">");
    reveal_strlit("</span>");
    reveal_strlit("<span class=\"totp-row-name\">");
    reveal_strlit("<span class=\"totp-row-meta\">");
    reveal_strlit("aria-label=\"Rename device\" hx-get=\"/me/sessions/");
    reveal_strlit("/edit\"");
    reveal_strlit("</button>");
    reveal_strlit("</div>");
    let tpl = page::SESSION_ROW@;
    let holes = seq![68int, 131, 132, 168, 169, 170, 301, 358, 368];
    assert(markup::hole_at(tpl, holes, 0));
    assert(markup::hole_at(tpl, holes, 1));
    assert(markup::hole_at(tpl, holes, 2));
    assert(markup::hole_at(tpl, holes, 3));
    assert(markup::hole_at(tpl, holes, 4));
    assert(markup::hole_at(tpl, holes, 5));
    assert(markup::hole_at(tpl, holes, 6));
    assert(markup::hole_at(tpl, holes, 7));
    assert(markup::hole_at(tpl, holes, 8));
    assert(tpl.subrange(21, 68) =~= "<span class=\"totp-row-icon\" aria-hidden=\"true\">"@);
    assert(tpl.subrange(69, 76) =~= "</span>"@);
    assert(tpl.subrange(103, 131) =~= "<span class=\"totp-row-name\">"@);
    assert(tpl.subrange(133, 140) =~= "</span>"@);
    assert(tpl.subrange(140, 168) =~= "<span class=\"totp-row-meta\">"@);
    assert(tpl.subrange(171, 178) =~= "</span>"@);
    assert(tpl.subrange(253, 301) =~= "aria-label=\"Rename device\" hx-get=\"/me/sessions/"@);
    assert(tpl.subrange(302, 308) =~= "/edit\""@);
    assert(tpl.subrange(359, 368) =~= "</button>"@);
    assert(tpl.subrange(369, 375) =~= "</div>"@);
    (tpl, holes)
}

/// The row of a device shows its nickname or else what it is, its address and when it was last
/// seen, and works on that very session; the current one cannot be signed out here.
pub proof fn law_session_row(
    ctx: &ChromeContext,
    s: &Session,
    is_current: bool,
    now: &Timestamp,
    mode: page::SectionMode,
)
    requires
        mode != page::SectionMode::Renaming(s.id),
    ensures
        ({
            let out = page::session_row_html(ctx, s, is_current, now, mode);
            let id = s.id;
            let ua = page::agent_of(s);
            let auto = display::device_name(ua);
            let custom = page::custom_label_of(s);
            &&& markup::shows(
                out,
                "<span class=\"totp-row-icon\" aria-hidden=\"true\">"@ + (if display::is_mobile(ua) { DEVICE_MOBILE_ICON@ } else { LAPTOP_ICON@ }) + "</span>"@,
            )
            &&& markup::shows(
                out,
                "<span class=\"totp-row-name\">"@ + html::escaped(match custom { Some(l) => l, None => auto, }),
            )
            &&& markup::shows(out, html::when(is_current, page::SESSION_CURRENT@) + "</span>"@)
            &&& markup::shows(
                out,
                "<span class=\"totp-row-meta\">"@ + (if custom is Some { html::template(page::SESSION_DETAIL@) .text(auto) .done() } else { Seq::empty() }),
            )
            &&& markup::shows(
                out,
                (match s.ip_address { Some(ip) => html::template(page::SESSION_DETAIL@).text(ip@).done(), None => Seq::empty(), }),
            )
            &&& markup::shows(
                out,
                (match s.last_seen_at { Some(seen) => html::template(page::SESSION_LAST_ACTIVE@) .text(display::relative(seen@, now@)) .done(), None => html::template(page::SESSION_SIGNED_IN@) .date(s.created_at@, model::SHORT_DATE@) .done(), }) + "</span>"@,
            )
            &&& markup::shows(
                out,
                "aria-label=\"Rename device\" hx-get=\"/me/sessions/"@ + html::escaped(model::uuid_text(id)) + "/edit\""@,
            )
            &&& markup::shows(
                out,
                "</button>"@ + (if !is_current { html::template(page::SESSION_SIGN_OUT@) .uuid(id) .uuid(id) .html(shell::csrf_input_html(ctx.csrf_token@)) .done() } else { Seq::empty() }) + "</div>"@,
            )
            &&& markup::shows(
                out,
                "<span class=\"totp-row-name\">"@ + (html::escaped(match custom { Some(l) => l, None => auto, }) + html::when(is_current, page::SESSION_CURRENT@)) + "</span>"@,
            )
            &&& markup::shows(
                out,
                ((match s.ip_address { Some(ip) => html::template(page::SESSION_DETAIL@).text(ip@).done(), None => Seq::empty(), }) + (match s.last_seen_at { Some(seen) => html::template(page::SESSION_LAST_ACTIVE@) .text(display::relative(seen@, now@)) .done(), None => html::template(page::SESSION_SIGNED_IN@) .date(s.created_at@, model::SHORT_DATE@) .done(), })) + "</span>"@,
            )
        }),
{
    let id = s.id;
    let ua = page::agent_of(s);
    let auto = display::device_name(ua);
    let custom = page::custom_label_of(s);
    let (tpl, holes) = lemma_session_row();
    let parts = seq![
        if display::is_mobile(ua) { DEVICE_MOBILE_ICON@ } else { LAPTOP_ICON@ },
        html::escaped(match custom { Some(l) => l, None => auto, }),
        html::when(is_current, page::SESSION_CURRENT@),
        if custom is Some { html::template(page::SESSION_DETAIL@) .text(auto) .done() } else { Seq::empty() },
        match s.ip_address { Some(ip) => html::template(page::SESSION_DETAIL@).text(ip@).done(), None => Seq::empty(), },
        match s.last_seen_at { Some(seen) => html::template(page::SESSION_LAST_ACTIVE@) .text(display::relative(seen@, now@)) .done(), None => html::template(page::SESSION_SIGNED_IN@) .date(s.created_at@, model::SHORT_DATE@) .done(), },
        html::escaped(model::uuid_text(id)),
        PENCIL_ICON@,
        if !is_current { html::template(page::SESSION_SIGN_OUT@) .uuid(id) .uuid(id) .html(shell::csrf_input_html(ctx.csrf_token@)) .done() } else { Seq::empty() },
    ];
    assert(page::session_row_html(ctx, s, is_current, now, mode) == markup::filled(tpl, parts, 9).done()) by {
        reveal_with_fuel(markup::filled, 10);
    }
    markup::lemma_hole(
        tpl,
        holes,
        parts,
        0,
        "<span class=\"totp-row-icon\" aria-hidden=\"true\">"@,
        "</span>"@,
    );
    assert(tpl.subrange(132, 132) =~= Seq::<char>::empty());
    markup::lemma_hole(
        tpl,
        holes,
        parts,
        1,
        "<span class=\"totp-row-name\">"@,
        Seq::<char>::empty(),
    );
    assert("<span class=\"totp-row-name\">"@ + parts[1] + Seq::<char>::empty() =~= "<span class=\"totp-row-name\">"@ + parts[1]);
    assert(tpl.subrange(132, 132) =~= Seq::<char>::empty());
    markup::lemma_hole(tpl, holes, parts, 2, Seq::<char>::empty(), "</span>"@);
    assert(Seq::<char>::empty() + parts[2] + "</span>"@ =~= parts[2] + "</span>"@);
    assert(tpl.subrange(169, 169) =~= Seq::<char>::empty());
    markup::lemma_hole(
        tpl,
        holes,
        parts,
        3,
        "<span class=\"totp-row-meta\">"@,
        Seq::<char>::empty(),
    );
    assert("<span class=\"totp-row-meta\">"@ + parts[3] + Seq::<char>::empty() =~= "<span class=\"totp-row-meta\">"@ + parts[3]);
    assert(tpl.subrange(169, 169) =~= Seq::<char>::empty());
    assert(tpl.subrange(170, 170) =~= Seq::<char>::empty());
    markup::lemma_hole(tpl, holes, parts, 4, Seq::<char>::empty(), Seq::<char>::empty());
    assert(Seq::<char>::empty() + parts[4] + Seq::<char>::empty() =~= parts[4]);
    assert(tpl.subrange(170, 170) =~= Seq::<char>::empty());
    markup::lemma_hole(tpl, holes, parts, 5, Seq::<char>::empty(), "</span>"@);
    assert(Seq::<char>::empty() + parts[5] + "</span>"@ =~= parts[5] + "</span>"@);
    markup::lemma_hole(
        tpl,
        holes,
        parts,
        6,
        "aria-label=\"Rename device\" hx-get=\"/me/sessions/"@,
        "/edit\""@,
    );
    markup::lemma_hole(tpl, holes, parts, 8, "</button>"@, "</div>"@);
    assert(tpl.subrange(132, 132) =~= Seq::<char>::empty());
    markup::lemma_two_holes(
        tpl,
        holes,
        parts,
        1,
        "<span class=\"totp-row-name\">"@,
        Seq::<char>::empty(),
        "</span>"@,
    );
    assert("<span class=\"totp-row-name\">"@ + (parts[1] + Seq::<char>::empty() + parts[2]) + "</span>"@ =~= "<span class=\"totp-row-name\">"@ + (parts[1] + parts[2]) + "</span>"@);
    assert(tpl.subrange(169, 169) =~= Seq::<char>::empty());
    assert(tpl.subrange(170, 170) =~= Seq::<char>::empty());
    markup::lemma_two_holes(
        tpl,
        holes,
        parts,
        4,
        Seq::<char>::empty(),
        Seq::<char>::empty(),
        "</span>"@,
    );
    assert(Seq::<char>::empty() + (parts[4] + Seq::<char>::empty() + parts[5]) + "</span>"@ =~= (parts[4] + parts[5]) + "</span>"@);
}

/// Every authenticator has its row.
pub proof fn law_every_authenticator_has_its_row(
    creds: Seq<TotpCredential>,
    ctx: &ChromeContext,
    mode: page::SectionMode,
    is_last: bool,
    i: int,
)
    requires
        0 <= i < creds.len(),
    ensures
        markup::shows(
            page::totp_rows_html(creds, ctx, mode, is_last),
            page::totp_row_html(ctx, &creds[i], mode, is_last),
        ),
    decreases creds.len(),
{
    let front = creds.drop_last();
    let row = page::totp_row_html(ctx, &creds[i], mode, is_last);
    let last = page::totp_row_html(ctx, &creds.last(), mode, is_last);
    let before = page::totp_rows_html(front, ctx, mode, is_last);
    let whole = page::totp_rows_html(creds, ctx, mode, is_last);
    if i == front.len() {
        assert(whole =~= before + row + Seq::empty());
    } else {
        law_every_authenticator_has_its_row(front, ctx, mode, is_last, i);
        assert(front[i] == creds[i]);
        assert(whole =~= Seq::empty() + before + last);
        markup::lemma_shows_inner(whole, before, row);
    }
}

/// Every passkey has its row.
pub proof fn law_every_passkey_has_its_row(
    creds: Seq<WebauthnCredentialRow>,
    ctx: &ChromeContext,
    mode: page::SectionMode,
    is_last: bool,
    i: int,
)
    requires
        0 <= i < creds.len(),
    ensures
        markup::shows(
            page::passkey_rows_html(creds, ctx, mode, is_last),
            page::passkey_row_html(ctx, &creds[i], mode, is_last),
        ),
    decreases creds.len(),
{
    let front = creds.drop_last();
    let row = page::passkey_row_html(ctx, &creds[i], mode, is_last);
    let last = page::passkey_row_html(ctx, &creds.last(), mode, is_last);
    let before = page::passkey_rows_html(front, ctx, mode, is_last);
    let whole = page::passkey_rows_html(creds, ctx, mode, is_last);
    if i == front.len() {
        assert(whole =~= before + row + Seq::empty());
    } else {
        law_every_passkey_has_its_row(front, ctx, mode, is_last, i);
        assert(front[i] == creds[i]);
        assert(whole =~= Seq::empty() + before + last);
        markup::lemma_shows_inner(whole, before, row);
    }
}

/// Every device has its row, and the current one is marked as such.
pub proof fn law_every_device_has_its_row(
    sessions: Seq<Session>,
    ctx: &ChromeContext,
    current: Uuid,
    now: &Timestamp,
    mode: page::SectionMode,
    i: int,
)
    requires
        0 <= i < sessions.len(),
    ensures
        markup::shows(
            page::session_rows_html(sessions, ctx, current, now, mode),
            page::session_row_html(ctx, &sessions[i], sessions[i].id == current, now, mode),
        ),
    decreases sessions.len(),
{
    let front = sessions.drop_last();
    let row = page::session_row_html(ctx, &sessions[i], sessions[i].id == current, now, mode);
    let last = page::session_row_html(ctx, &sessions.last(), sessions.last().id == current, now, mode);
    let before = page::session_rows_html(front, ctx, current, now, mode);
    let whole = page::session_rows_html(sessions, ctx, current, now, mode);
    if i == front.len() {
        assert(whole =~= before + row + Seq::empty());
    } else {
        law_every_device_has_its_row(front, ctx, current, now, mode, i);
        assert(front[i] == sessions[i]);
        assert(whole =~= Seq::empty() + before + last);
        markup::lemma_shows_inner(whole, before, row);
    }
}

/// A device is called by its nickname where it has one.
pub proof fn law_device_labels(s: &Session, label: String, agent: String)
    ensures
        s.user_agent == Some(agent) ==> page::agent_of(s) == agent@,
        s.user_agent is None ==> page::agent_of(s) == Seq::<char>::empty(),
        s.label is None ==> page::custom_label_of(s) is None,
        s.label == Some(label) && text::trimmed(label@).len() == 0 ==> page::custom_label_of(s)
            is None,
        s.label == Some(label) && text::trimmed(label@).len() > 0 ==> page::custom_label_of(s)
            == Some(text::trimmed(label@)),
{
}

/// A user has room for another factor as long as there are fewer than the limit.
pub proof fn law_room_for_factors(n: nat, max: i64)
    ensures
        page::is_full(n, max) <==> !(n < max),
{
}

/// There are other devices where some session is not the current one.
pub proof fn law_other_devices(sessions: Seq<Session>, current: Uuid, i: int)
    requires
        0 <= i < sessions.len(),
    ensures
        sessions[i].id != current ==> page::has_others(sessions, current),
        (forall|k: int| 0 <= k < sessions.len() ==> (#[trigger] sessions[k]).id == current)
            ==> !page::has_others(sessions, current),
{
}

} // verus!
