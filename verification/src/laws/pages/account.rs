//! What the settings of an account show.

use vstd::prelude::*;
use crate::html;
use crate::laws::markup;
use crate::laws::pages::shell as around;
use crate::model::{
    Session, Timestamp, TotpCredential, UserLifecycle, UserRecoveryCodeRow, Uuid,
    WebauthnCredentialRow,
};
use crate::model;
use crate::views::account as page;
use crate::views::icons::{
    ALERT_CIRCLE_ICON, CHECK_CIRCLE_ICON, CLOSE_ICON, DATABASE_ICON, FINGERPRINT_ICON,
    INCOGNITO_ICON, LAPTOP_ICON, SETTINGS_ICON, SHIELD_ICON, SIGNOUT_ICON, TRASH_ICON, USER_ICON,
};
use crate::views::security::{FactorLimits, SectionMode};
use crate::views::security;
use crate::views::shell::{ChromeContext, PageId};
use crate::views::shell;

verus! {

/// Where the holes of the template stand, and the texts around them.
proof fn lemma_reauth_modal() -> (at: (Seq<char>, Seq<int>))
    ensures
        at.0 == page::REAUTH_MODAL@,
        at.1 == seq![59int, 92],
        at.0.len() == 108,
        markup::holes_at(at.0, at.1),
        at.0.subrange(8, 59) == "id=\"dlg-reauth\" class=\"action-dialog reauth-dialog\""@,
        at.0.subrange(60, 61) == ">"@,
        at.0.subrange(61, 92) == "<div id=\"reauth-modal-content\">"@,
        at.0.subrange(93, 99) == "</div>"@,
        "id=\"dlg-reauth\" class=\"action-dialog reauth-dialog\""@.len() == 51,
        ">"@.len() == 1,
        "<div id=\"reauth-modal-content\">"@.len() == 31,
        "</div>"@.len() == 6,
{
    reveal_strlit("<dialog id=\"dlg-reauth\" class=\"action-dialog reauth-dialog\"¤><div id=\"reauth-modal-content\">¤</div></dialog>");
    reveal_strlit("id=\"dlg-reauth\" class=\"action-dialog reauth-dialog\"");
    reveal_strlit(">");
    reveal_strlit("<div id=\"reauth-modal-content\">");
    reveal_strlit("</div>");
    let tpl = page::REAUTH_MODAL@;
    let holes = seq![59int, 92];
    assert(markup::hole_at(tpl, holes, 0));
    assert(markup::hole_at(tpl, holes, 1));
    assert(tpl.subrange(8, 59) =~= "id=\"dlg-reauth\" class=\"action-dialog reauth-dialog\""@);
    assert(tpl.subrange(60, 61) =~= ">"@);
    assert(tpl.subrange(61, 92) =~= "<div id=\"reauth-modal-content\">"@);
    assert(tpl.subrange(93, 99) =~= "</div>"@);
    (tpl, holes)
}

/// The dialog in which users confirm who they are holds its content.
pub proof fn law_reauth_modal(
    ctx: &ChromeContext,
    has_totp: bool,
    has_passkey: bool,
    fresh: bool,
    critical: bool,
)
    ensures
        ({
            let out = page::reauth_modal_html(ctx, has_totp, has_passkey, fresh, critical);
            &&& markup::shows(
                out,
                "id=\"dlg-reauth\" class=\"action-dialog reauth-dialog\""@ + html::when(fresh && !critical, " data-sudo-fresh=\"1\""@) + ">"@,
            )
            &&& markup::shows(
                out,
                "<div id=\"reauth-modal-content\">"@ + page::reauth_modal_content_html(ctx, has_totp, has_passkey, None, critical) + "</div>"@,
            )
        }),
{
    let (tpl, holes) = lemma_reauth_modal();
    let parts = seq![
        html::when(fresh && !critical, " data-sudo-fresh=\"1\""@),
        page::reauth_modal_content_html(ctx, has_totp, has_passkey, None, critical),
    ];
    assert(page::reauth_modal_html(ctx, has_totp, has_passkey, fresh, critical) == markup::filled(tpl, parts, 2).done()) by {
        reveal_with_fuel(markup::filled, 3);
    }
    markup::lemma_hole(
        tpl,
        holes,
        parts,
        0,
        "id=\"dlg-reauth\" class=\"action-dialog reauth-dialog\""@,
        ">"@,
    );
    markup::lemma_hole(tpl, holes, parts, 1, "<div id=\"reauth-modal-content\">"@, "</div>"@);
}

/// Where the holes of the template stand, and the texts around them.
proof fn lemma_settings_name_form() -> (at: (Seq<char>, Seq<int>))
    ensures
        at.0 == page::SETTINGS_NAME_FORM@,
        at.1 == seq![0int, 166, 442],
        at.0.len() == 584,
        markup::holes_at(at.0, at.1),
        at.0.subrange(1, 166) == "<form id=\"form-settings-name\" class=\"settings-row\" method=\"post\" action=\"/me/profile\" hx-post=\"/me/profile\" hx-target=\"#form-settings-name-wrap\" hx-swap=\"innerHTML\">"@,
        at.0.subrange(146, 166) == "hx-swap=\"innerHTML\">"@,
        at.0.subrange(167, 199) == "<div class=\"settings-row-label\">"@,
        at.0.subrange(388, 442) == "id=\"settings-display-name\" name=\"display_name\" value=\""@,
        at.0.subrange(443, 444) == "\""@,
        "<form id=\"form-settings-name\" class=\"settings-row\" method=\"post\" action=\"/me/profile\" hx-post=\"/me/profile\" hx-target=\"#form-settings-name-wrap\" hx-swap=\"innerHTML\">"@.len() == 165,
        "hx-swap=\"innerHTML\">"@.len() == 20,
        "<div class=\"settings-row-label\">"@.len() == 32,
        "id=\"settings-display-name\" name=\"display_name\" value=\""@.len() == 54,
        "\""@.len() == 1,
{
    reveal_strlit("¤<form id=\"form-settings-name\" class=\"settings-row\" method=\"post\" action=\"/me/profile\" hx-post=\"/me/profile\" hx-target=\"#form-settings-name-wrap\" hx-swap=\"innerHTML\">¤<div class=\"settings-row-label\"><label for=\"settings-display-name\">Display name</label><p class=\"settings-row-hint\">How you appear to others on this instance.</p></div><div class=\"settings-row-control\"><input type=\"text\" id=\"settings-display-name\" name=\"display_name\" value=\"¤\" autocomplete=\"name\" required><div class=\"settings-row-actions\"><button type=\"submit\" class=\"btn-secondary\">Save</button></div></div></form>");
    reveal_strlit("<form id=\"form-settings-name\" class=\"settings-row\" method=\"post\" action=\"/me/profile\" hx-post=\"/me/profile\" hx-target=\"#form-settings-name-wrap\" hx-swap=\"innerHTML\">");
    reveal_strlit("hx-swap=\"innerHTML\">");
    reveal_strlit("<div class=\"settings-row-label\">");
    reveal_strlit("id=\"settings-display-name\" name=\"display_name\" value=\"");
    reveal_strlit("\"");
    let tpl = page::SETTINGS_NAME_FORM@;
    let holes = seq![0int, 166, 442];
    assert(markup::hole_at(tpl, holes, 0));
    assert(markup::hole_at(tpl, holes, 1));
    assert(markup::hole_at(tpl, holes, 2));
    assert(tpl.subrange(1, 166) =~= "<form id=\"form-settings-name\" class=\"settings-row\" method=\"post\" action=\"/me/profile\" hx-post=\"/me/profile\" hx-target=\"#form-settings-name-wrap\" hx-swap=\"innerHTML\">"@);
    assert(tpl.subrange(146, 166) =~= "hx-swap=\"innerHTML\">"@);
    assert(tpl.subrange(167, 199) =~= "<div class=\"settings-row-label\">"@);
    assert(tpl.subrange(388, 442) =~= "id=\"settings-display-name\" name=\"display_name\" value=\""@);
    assert(tpl.subrange(443, 444) =~= "\""@);
    (tpl, holes)
}

/// The form for the display name holds the name in use and the token of the session.
pub proof fn law_settings_name_form(ctx: &ChromeContext, feedback: Option<page::FeedbackText>)
    ensures
        ({
            let out = page::settings_name_form_html(ctx, feedback);
            let user = ctx.user;
            &&& markup::shows(
                out,
                (match feedback { Some(fb) => page::settings_feedback_tile_html(fb), None => Seq::empty(), }) + "<form id=\"form-settings-name\" class=\"settings-row\" method=\"post\" action=\"/me/profile\" hx-post=\"/me/profile\" hx-target=\"#form-settings-name-wrap\" hx-swap=\"innerHTML\">"@,
            )
            &&& markup::shows(
                out,
                "hx-swap=\"innerHTML\">"@ + shell::csrf_input_html(ctx.csrf_token@) + "<div class=\"settings-row-label\">"@,
            )
            &&& markup::shows(
                out,
                "id=\"settings-display-name\" name=\"display_name\" value=\""@ + html::escaped(user.display_name@) + "\""@,
            )
        }),
{
    let user = ctx.user;
    let (tpl, holes) = lemma_settings_name_form();
    let parts = seq![
        match feedback { Some(fb) => page::settings_feedback_tile_html(fb), None => Seq::empty(), },
        shell::csrf_input_html(ctx.csrf_token@),
        html::escaped(user.display_name@),
    ];
    assert(page::settings_name_form_html(ctx, feedback) == markup::filled(tpl, parts, 3).done()) by {
        reveal_with_fuel(markup::filled, 4);
    }
    assert(tpl.subrange(0, 0) =~= Seq::<char>::empty());
    markup::lemma_hole(
        tpl,
        holes,
        parts,
        0,
        Seq::<char>::empty(),
        "<form id=\"form-settings-name\" class=\"settings-row\" method=\"post\" action=\"/me/profile\" hx-post=\"/me/profile\" hx-target=\"#form-settings-name-wrap\" hx-swap=\"innerHTML\">"@,
    );
    assert(Seq::<char>::empty() + parts[0] + "<form id=\"form-settings-name\" class=\"settings-row\" method=\"post\" action=\"/me/profile\" hx-post=\"/me/profile\" hx-target=\"#form-settings-name-wrap\" hx-swap=\"innerHTML\">"@ =~= parts[0] + "<form id=\"form-settings-name\" class=\"settings-row\" method=\"post\" action=\"/me/profile\" hx-post=\"/me/profile\" hx-target=\"#form-settings-name-wrap\" hx-swap=\"innerHTML\">"@);
    markup::lemma_hole(
        tpl,
        holes,
        parts,
        1,
        "hx-swap=\"innerHTML\">"@,
        "<div class=\"settings-row-label\">"@,
    );
    markup::lemma_hole(
        tpl,
        holes,
        parts,
        2,
        "id=\"settings-display-name\" name=\"display_name\" value=\""@,
        "\""@,
    );
}

/// Where the holes of the template stand, and the texts around them.
proof fn lemma_settings_email_form() -> (at: (Seq<char>, Seq<int>))
    ensures
        at.0 == page::SETTINGS_EMAIL_FORM@,
        at.1 == seq![85int, 329],
        at.0.len() == 522,
        markup::holes_at(at.0, at.1),
        at.0.subrange(31, 85) == "class=\"settings-row\" method=\"post\" action=\"/me/email\">"@,
        at.0.subrange(86, 118) == "<div class=\"settings-row-label\">"@,
        at.0.subrange(276, 329) == "type=\"email\" id=\"settings-email\" name=\"email\" value=\""@,
        at.0.subrange(330, 331) == "\""@,
        "class=\"settings-row\" method=\"post\" action=\"/me/email\">"@.len() == 54,
        "<div class=\"settings-row-label\">"@.len() == 32,
        "type=\"email\" id=\"settings-email\" name=\"email\" value=\""@.len() == 53,
        "\""@.len() == 1,
{
    reveal_strlit("<form id=\"form-settings-email\" class=\"settings-row\" method=\"post\" action=\"/me/email\">¤<div class=\"settings-row-label\"><label for=\"settings-email\">Email address</label><p class=\"settings-row-hint\">The address you sign in with.</p></div><div class=\"settings-row-control\"><input type=\"email\" id=\"settings-email\" name=\"email\" value=\"¤\" autocomplete=\"email\" required><div class=\"settings-row-actions\"><button type=\"button\" class=\"btn-secondary\" data-reauth-confirm=\"form-settings-email\">Update email</button></div></div></form>");
    reveal_strlit("class=\"settings-row\" method=\"post\" action=\"/me/email\">");
    reveal_strlit("<div class=\"settings-row-label\">");
    reveal_strlit("type=\"email\" id=\"settings-email\" name=\"email\" value=\"");
    reveal_strlit("\"");
    let tpl = page::SETTINGS_EMAIL_FORM@;
    let holes = seq![85int, 329];
    assert(markup::hole_at(tpl, holes, 0));
    assert(markup::hole_at(tpl, holes, 1));
    assert(tpl.subrange(31, 85) =~= "class=\"settings-row\" method=\"post\" action=\"/me/email\">"@);
    assert(tpl.subrange(86, 118) =~= "<div class=\"settings-row-label\">"@);
    assert(tpl.subrange(276, 329) =~= "type=\"email\" id=\"settings-email\" name=\"email\" value=\""@);
    assert(tpl.subrange(330, 331) =~= "\""@);
    (tpl, holes)
}

/// The form for the email holds the email in use and the token of the session.
pub proof fn law_settings_email_form(ctx: &ChromeContext)
    ensures
        ({
            let out = page::settings_email_form_html(ctx);
            let user = ctx.user;
            &&& markup::shows(
                out,
                "class=\"settings-row\" method=\"post\" action=\"/me/email\">"@ + shell::csrf_input_html(ctx.csrf_token@) + "<div class=\"settings-row-label\">"@,
            )
            &&& markup::shows(
                out,
                "type=\"email\" id=\"settings-email\" name=\"email\" value=\""@ + html::escaped(user.email@) + "\""@,
            )
        }),
{
    let user = ctx.user;
    let (tpl, holes) = lemma_settings_email_form();
    let parts = seq![shell::csrf_input_html(ctx.csrf_token@), html::escaped(user.email@)];
    assert(page::settings_email_form_html(ctx) == markup::filled(tpl, parts, 2).done()) by {
        reveal_with_fuel(markup::filled, 3);
    }
    markup::lemma_hole(
        tpl,
        holes,
        parts,
        0,
        "class=\"settings-row\" method=\"post\" action=\"/me/email\">"@,
        "<div class=\"settings-row-label\">"@,
    );
    markup::lemma_hole(
        tpl,
        holes,
        parts,
        1,
        "type=\"email\" id=\"settings-email\" name=\"email\" value=\""@,
        "\""@,
    );
}

/// Where the holes of the template stand, and the texts around them.
proof fn lemma_settings_profile_panel() -> (at: (Seq<char>, Seq<int>))
    ensures
        at.0 == page::SETTINGS_PROFILE_PANEL@,
        at.1 == seq![126int, 333, 415],
        at.0.len() == 438,
        markup::holes_at(at.0, at.1),
        at.0.subrange(299, 333) == "<div id=\"form-settings-name-wrap\">"@,
        at.0.subrange(334, 340) == "</div>"@,
        at.0.subrange(380, 415) == "<div id=\"form-settings-email-wrap\">"@,
        at.0.subrange(416, 422) == "</div>"@,
        "<div id=\"form-settings-name-wrap\">"@.len() == 34,
        "</div>"@.len() == 6,
        "<div id=\"form-settings-email-wrap\">"@.len() == 35,
{
    reveal_strlit("<section class=\"settings-section\"><div class=\"settings-section-header\"><span class=\"settings-section-icon\" aria-hidden=\"true\">¤</span><div><h3>Account Information</h3><p class=\"settings-section-tagline\">Manage your identity and sign-in credentials.</p></div></div><div class=\"settings-section-body\"><div id=\"form-settings-name-wrap\">¤</div><div class=\"settings-row-divider\"></div><div id=\"form-settings-email-wrap\">¤</div></div></section>");
    reveal_strlit("<div id=\"form-settings-name-wrap\">");
    reveal_strlit("</div>");
    reveal_strlit("<div id=\"form-settings-email-wrap\">");
    let tpl = page::SETTINGS_PROFILE_PANEL@;
    let holes = seq![126int, 333, 415];
    assert(markup::hole_at(tpl, holes, 0));
    assert(markup::hole_at(tpl, holes, 1));
    assert(markup::hole_at(tpl, holes, 2));
    assert(tpl.subrange(299, 333) =~= "<div id=\"form-settings-name-wrap\">"@);
    assert(tpl.subrange(334, 340) =~= "</div>"@);
    assert(tpl.subrange(380, 415) =~= "<div id=\"form-settings-email-wrap\">"@);
    assert(tpl.subrange(416, 422) =~= "</div>"@);
    (tpl, holes)
}

/// The profile holds the forms for name and email of the user.
pub proof fn law_settings_profile_panel(ctx: &ChromeContext)
    ensures
        ({
            let out = page::settings_profile_panel_html(ctx);
            &&& markup::shows(
                out,
                "<div id=\"form-settings-name-wrap\">"@ + page::settings_name_form_html(ctx, None) + "</div>"@,
            )
            &&& markup::shows(
                out,
                "<div id=\"form-settings-email-wrap\">"@ + page::settings_email_form_html(ctx) + "</div>"@,
            )
        }),
{
    let (tpl, holes) = lemma_settings_profile_panel();
    let parts = seq![
        USER_ICON@,
        page::settings_name_form_html(ctx, None),
        page::settings_email_form_html(ctx),
    ];
    assert(page::settings_profile_panel_html(ctx) == markup::filled(tpl, parts, 3).done()) by {
        reveal_with_fuel(markup::filled, 4);
    }
    markup::lemma_hole(tpl, holes, parts, 1, "<div id=\"form-settings-name-wrap\">"@, "</div>"@);
    markup::lemma_hole(tpl, holes, parts, 2, "<div id=\"form-settings-email-wrap\">"@, "</div>"@);
}

/// Where the holes of the template stand, and the texts around them.
proof fn lemma_recovery_status() -> (at: (Seq<char>, Seq<int>))
    ensures
        at.0 == page::RECOVERY_STATUS@,
        at.1 == seq![25int, 27],
        at.0.len() == 34,
        markup::holes_at(at.0, at.1),
        at.0.subrange(0, 25) == "<div id=\"recovery-status\""@,
        at.0.subrange(26, 27) == ">"@,
        at.0.subrange(28, 34) == "</div>"@,
        "<div id=\"recovery-status\""@.len() == 25,
        ">"@.len() == 1,
        "</div>"@.len() == 6,
{
    reveal_strlit("<div id=\"recovery-status\"¤>¤</div>");
    reveal_strlit("<div id=\"recovery-status\"");
    reveal_strlit(">");
    reveal_strlit("</div>");
    let tpl = page::RECOVERY_STATUS@;
    let holes = seq![25int, 27];
    assert(markup::hole_at(tpl, holes, 0));
    assert(markup::hole_at(tpl, holes, 1));
    assert(tpl.subrange(0, 25) =~= "<div id=\"recovery-status\""@);
    assert(tpl.subrange(26, 27) =~= ">"@);
    assert(tpl.subrange(28, 34) =~= "</div>"@);
    (tpl, holes)
}

/// The state of the recovery code is told in words.
pub proof fn law_recovery_status(recovery_meta: Option<&UserRecoveryCodeRow>, oob: bool)
    ensures
        ({
            let out = page::recovery_status_html(recovery_meta, oob);
            &&& markup::shows(
                out,
                "<div id=\"recovery-status\""@ + html::when(oob, " hx-swap-oob=\"true\""@) + ">"@,
            )
            &&& markup::shows(
                out,
                ">"@ + (match recovery_meta { Some(meta) => html::template(page::RECOVERY_GENERATED@) .date(meta.generated_at@, model::SHORT_DATE@) .html(match meta.last_used_at { Some(used) => html::template(page::RECOVERY_LAST_USED@) .date(used@, model::SHORT_DATE@) .done(), None => page::RECOVERY_NEVER_USED@, }) .done(), None => page::RECOVERY_NONE@, }) + "</div>"@,
            )
        }),
{
    let (tpl, holes) = lemma_recovery_status();
    let parts = seq![
        html::when(oob, " hx-swap-oob=\"true\""@),
        match recovery_meta { Some(meta) => html::template(page::RECOVERY_GENERATED@) .date(meta.generated_at@, model::SHORT_DATE@) .html(match meta.last_used_at { Some(used) => html::template(page::RECOVERY_LAST_USED@) .date(used@, model::SHORT_DATE@) .done(), None => page::RECOVERY_NEVER_USED@, }) .done(), None => page::RECOVERY_NONE@, },
    ];
    assert(page::recovery_status_html(recovery_meta, oob) == markup::filled(tpl, parts, 2).done()) by {
        reveal_with_fuel(markup::filled, 3);
    }
    markup::lemma_hole(tpl, holes, parts, 0, "<div id=\"recovery-status\""@, ">"@);
    markup::lemma_hole(tpl, holes, parts, 1, ">"@, "</div>"@);
}

/// Where the holes of the template stand, and the texts around them.
proof fn lemma_account_close_section() -> (at: (Seq<char>, Seq<int>))
    ensures
        at.0 == page::ACCOUNT_CLOSE_SECTION@,
        at.1 == seq![150int, 167, 209, 323, 328],
        at.0.len() == 351,
        markup::holes_at(at.0, at.1),
        at.0.subrange(95, 150) == "<span class=\"settings-section-icon\" aria-hidden=\"true\">"@,
        at.0.subrange(151, 158) == "</span>"@,
        at.0.subrange(163, 167) == "<h3>"@,
        at.0.subrange(168, 173) == "</h3>"@,
        at.0.subrange(173, 209) == "<p class=\"settings-section-tagline\">"@,
        at.0.subrange(210, 214) == "</p>"@,
        at.0.subrange(294, 323) == "<p class=\"settings-row-hint\">"@,
        at.0.subrange(324, 328) == "</p>"@,
        at.0.subrange(329, 335) == "</div>"@,
        "<span class=\"settings-section-icon\" aria-hidden=\"true\">"@.len() == 55,
        "</span>"@.len() == 7,
        "<h3>"@.len() == 4,
        "</h3>"@.len() == 5,
        "<p class=\"settings-section-tagline\">"@.len() == 36,
        "</p>"@.len() == 4,
        "<p class=\"settings-row-hint\">"@.len() == 29,
        "</div>"@.len() == 6,
{
    reveal_strlit("<section class=\"settings-section settings-section-danger\"><div class=\"settings-section-header\"><span class=\"settings-section-icon\" aria-hidden=\"true\">¤</span><div><h3>¤</h3><p class=\"settings-section-tagline\">¤</p></div></div><div class=\"settings-section-body\"><div class=\"settings-danger-row\"><p class=\"settings-row-hint\">¤</p>¤</div></div></section>");
    reveal_strlit("<span class=\"settings-section-icon\" aria-hidden=\"true\">");
    reveal_strlit("</span>");
    reveal_strlit("<h3>");
    reveal_strlit("</h3>");
    reveal_strlit("<p class=\"settings-section-tagline\">");
    reveal_strlit("</p>");
    reveal_strlit("<p class=\"settings-row-hint\">");
    reveal_strlit("</div>");
    let tpl = page::ACCOUNT_CLOSE_SECTION@;
    let holes = seq![150int, 167, 209, 323, 328];
    assert(markup::hole_at(tpl, holes, 0));
    assert(markup::hole_at(tpl, holes, 1));
    assert(markup::hole_at(tpl, holes, 2));
    assert(markup::hole_at(tpl, holes, 3));
    assert(markup::hole_at(tpl, holes, 4));
    assert(tpl.subrange(95, 150) =~= "<span class=\"settings-section-icon\" aria-hidden=\"true\">"@);
    assert(tpl.subrange(151, 158) =~= "</span>"@);
    assert(tpl.subrange(163, 167) =~= "<h3>"@);
    assert(tpl.subrange(168, 173) =~= "</h3>"@);
    assert(tpl.subrange(173, 209) =~= "<p class=\"settings-section-tagline\">"@);
    assert(tpl.subrange(210, 214) =~= "</p>"@);
    assert(tpl.subrange(294, 323) =~= "<p class=\"settings-row-hint\">"@);
    assert(tpl.subrange(324, 328) =~= "</p>"@);
    assert(tpl.subrange(329, 335) =~= "</div>"@);
    (tpl, holes)
}

/// The section that closes an account says what it does in its own words.
pub proof fn law_account_close_section(delete_mode: bool, blocked: bool)
    ensures
        ({
            let out = page::account_close_section_html(delete_mode, blocked);
            let t = page::close_texts_of(delete_mode);
            &&& markup::shows(
                out,
                "<span class=\"settings-section-icon\" aria-hidden=\"true\">"@ + (if delete_mode { TRASH_ICON@ } else { INCOGNITO_ICON@ }) + "</span>"@,
            )
            &&& markup::shows(out, "<h3>"@ + html::escaped(t.section_title@) + "</h3>"@)
            &&& markup::shows(
                out,
                "<p class=\"settings-section-tagline\">"@ + html::escaped(t.tagline@) + "</p>"@,
            )
            &&& markup::shows(
                out,
                "<p class=\"settings-row-hint\">"@ + html::escaped(t.hint@) + "</p>"@,
            )
            &&& markup::shows(
                out,
                "</p>"@ + (if blocked { html::template(page::ACCOUNT_CLOSE_LOCKED@) .text(t.label@) .done() } else { html::template(page::ACCOUNT_CLOSE_OPEN@) .text(t.modal@) .text(t.label@) .done() }) + "</div>"@,
            )
        }),
{
    let t = page::close_texts_of(delete_mode);
    let (tpl, holes) = lemma_account_close_section();
    let parts = seq![
        if delete_mode { TRASH_ICON@ } else { INCOGNITO_ICON@ },
        html::escaped(t.section_title@),
        html::escaped(t.tagline@),
        html::escaped(t.hint@),
        if blocked { html::template(page::ACCOUNT_CLOSE_LOCKED@) .text(t.label@) .done() } else { html::template(page::ACCOUNT_CLOSE_OPEN@) .text(t.modal@) .text(t.label@) .done() },
    ];
    assert(page::account_close_section_html(delete_mode, blocked) == markup::filled(tpl, parts, 5).done()) by {
        reveal_with_fuel(markup::filled, 6);
    }
    markup::lemma_hole(
        tpl,
        holes,
        parts,
        0,
        "<span class=\"settings-section-icon\" aria-hidden=\"true\">"@,
        "</span>"@,
    );
    markup::lemma_hole(tpl, holes, parts, 1, "<h3>"@, "</h3>"@);
    markup::lemma_hole(tpl, holes, parts, 2, "<p class=\"settings-section-tagline\">"@, "</p>"@);
    markup::lemma_hole(tpl, holes, parts, 3, "<p class=\"settings-row-hint\">"@, "</p>"@);
    markup::lemma_hole(tpl, holes, parts, 4, "</p>"@, "</div>"@);
}

/// Where the holes of the template stand, and the texts around them.
proof fn lemma_settings_data_panel() -> (at: (Seq<char>, Seq<int>))
    ensures
        at.0 == page::SETTINGS_DATA_PANEL@,
        at.1 == seq![126int, 434, 488, 869, 870],
        at.0.len() == 871,
        markup::holes_at(at.0, at.1),
        at.0.subrange(382, 434) == "method=\"post\" action=\"/me/recovery-code/regenerate\">"@,
        at.0.subrange(435, 467) == "<div class=\"settings-row-label\">"@,
        at.0.subrange(480, 488) == "</label>"@,
        at.0.subrange(489, 495) == "</div>"@,
        at.0.subrange(859, 869) == "</section>"@,
        "method=\"post\" action=\"/me/recovery-code/regenerate\">"@.len() == 52,
        "<div class=\"settings-row-label\">"@.len() == 32,
        "</label>"@.len() == 8,
        "</div>"@.len() == 6,
        "</section>"@.len() == 10,
{
    reveal_strlit("<section class=\"settings-section\"><div class=\"settings-section-header\"><span class=\"settings-section-icon\" aria-hidden=\"true\">¤</span><div><h3>Recovery code</h3><p class=\"settings-section-tagline\">Your offline way back in if you forget your password or lose a second factor.</p></div></div><div class=\"settings-section-body\"><form id=\"form-regenerate-recovery\" class=\"settings-row\" method=\"post\" action=\"/me/recovery-code/regenerate\">¤<div class=\"settings-row-label\"><label>Status</label>¤</div><div class=\"settings-row-control\"><p class=\"settings-row-hint\">Regenerating shows a new code once and immediately invalidates the old one. You'll confirm it's you first.</p><div class=\"settings-row-actions\"><button type=\"button\" class=\"btn-secondary\" data-reauth-confirm=\"form-regenerate-recovery\" data-keep-source-open>Regenerate</button></div></div></form></div></section>¤¤");
    reveal_strlit("method=\"post\" action=\"/me/recovery-code/regenerate\">");
    reveal_strlit("<div class=\"settings-row-label\">");
    reveal_strlit("</label>");
    reveal_strlit("</div>");
    reveal_strlit("</section>");
    let tpl = page::SETTINGS_DATA_PANEL@;
    let holes = seq![126int, 434, 488, 869, 870];
    assert(markup::hole_at(tpl, holes, 0));
    assert(markup::hole_at(tpl, holes, 1));
    assert(markup::hole_at(tpl, holes, 2));
    assert(markup::hole_at(tpl, holes, 3));
    assert(markup::hole_at(tpl, holes, 4));
    assert(tpl.subrange(382, 434) =~= "method=\"post\" action=\"/me/recovery-code/regenerate\">"@);
    assert(tpl.subrange(435, 467) =~= "<div class=\"settings-row-label\">"@);
    assert(tpl.subrange(480, 488) =~= "</label>"@);
    assert(tpl.subrange(489, 495) =~= "</div>"@);
    assert(tpl.subrange(859, 869) =~= "</section>"@);
    (tpl, holes)
}

/// The panel of the data offers both ways to close the account.
pub proof fn law_settings_data_panel(
    ctx: &ChromeContext,
    recovery_meta: Option<&UserRecoveryCodeRow>,
    last_owner_blocked: bool,
)
    ensures
        ({
            let out = page::settings_data_panel_html(ctx, recovery_meta, last_owner_blocked);
            &&& markup::shows(
                out,
                "method=\"post\" action=\"/me/recovery-code/regenerate\">"@ + shell::csrf_input_html(ctx.csrf_token@) + "<div class=\"settings-row-label\">"@,
            )
            &&& markup::shows(
                out,
                "</label>"@ + page::recovery_status_html(recovery_meta, false) + "</div>"@,
            )
            &&& markup::shows(
                out,
                "</section>"@ + page::account_close_section_html(false, last_owner_blocked),
            )
            &&& markup::shows(out, page::account_close_section_html(true, last_owner_blocked))
        }),
{
    let (tpl, holes) = lemma_settings_data_panel();
    let parts = seq![
        DATABASE_ICON@,
        shell::csrf_input_html(ctx.csrf_token@),
        page::recovery_status_html(recovery_meta, false),
        page::account_close_section_html(false, last_owner_blocked),
        page::account_close_section_html(true, last_owner_blocked),
    ];
    assert(page::settings_data_panel_html(ctx, recovery_meta, last_owner_blocked) == markup::filled(tpl, parts, 5).done()) by {
        reveal_with_fuel(markup::filled, 6);
    }
    markup::lemma_hole(
        tpl,
        holes,
        parts,
        1,
        "method=\"post\" action=\"/me/recovery-code/regenerate\">"@,
        "<div class=\"settings-row-label\">"@,
    );
    markup::lemma_hole(tpl, holes, parts, 2, "</label>"@, "</div>"@);
    assert(tpl.subrange(870, 870) =~= Seq::<char>::empty());
    markup::lemma_hole(tpl, holes, parts, 3, "</section>"@, Seq::<char>::empty());
    assert("</section>"@ + parts[3] + Seq::<char>::empty() =~= "</section>"@ + parts[3]);
    assert(tpl.subrange(870, 870) =~= Seq::<char>::empty());
    assert(tpl.subrange(871, 871) =~= Seq::<char>::empty());
    markup::lemma_hole(tpl, holes, parts, 4, Seq::<char>::empty(), Seq::<char>::empty());
    assert(Seq::<char>::empty() + parts[4] + Seq::<char>::empty() =~= parts[4]);
}

/// Where the holes of the template stand, and the texts around them.
proof fn lemma_recovery_code_modal_content() -> (at: (Seq<char>, Seq<int>))
    ensures
        at.0 == page::RECOVERY_CODE_MODAL_CONTENT@,
        at.1 == seq![72int, 159, 489],
        at.0.len() == 731,
        markup::holes_at(at.0, at.1),
        at.0.subrange(442, 489) == "type=\"text\" class=\"recovery-code-input\" value=\""@,
        at.0.subrange(490, 491) == "\""@,
        "type=\"text\" class=\"recovery-code-input\" value=\""@.len() == 47,
        "\""@.len() == 1,
{
    reveal_strlit("<div class=\"dialog-header\"><div class=\"dialog-icon dialog-icon-success\">¤</div><button type=\"button\" class=\"dialog-close\" data-close-dialog aria-label=\"Close\">¤</button></div><h2 class=\"dialog-center-title\">Your new recovery code</h2><p class=\"dialog-description dialog-center-text\">Save this somewhere safe. The previous code no longer works, and we won't show this one again.</p><div class=\"recovery-code-display\"><input id=\"recovery-code\" type=\"text\" class=\"recovery-code-input\" value=\"¤\" readonly aria-label=\"Account recovery code\"><button type=\"button\" class=\"btn-secondary\" data-copy-target=\"recovery-code\">Copy</button></div><div class=\"dialog-actions\"><button type=\"button\" class=\"btn\" data-close-dialog>Done</button></div>");
    reveal_strlit("type=\"text\" class=\"recovery-code-input\" value=\"");
    reveal_strlit("\"");
    let tpl = page::RECOVERY_CODE_MODAL_CONTENT@;
    let holes = seq![72int, 159, 489];
    assert(markup::hole_at(tpl, holes, 0));
    assert(markup::hole_at(tpl, holes, 1));
    assert(markup::hole_at(tpl, holes, 2));
    assert(tpl.subrange(442, 489) =~= "type=\"text\" class=\"recovery-code-input\" value=\""@);
    assert(tpl.subrange(490, 491) =~= "\""@);
    (tpl, holes)
}

/// The new recovery code is shown.
pub proof fn law_recovery_code_modal_content(recovery_code: Seq<char>)
    ensures
        ({
            let out = page::recovery_code_modal_content_html(recovery_code);
            &&& markup::shows(
                out,
                "type=\"text\" class=\"recovery-code-input\" value=\""@ + html::escaped(recovery_code) + "\""@,
            )
        }),
{
    let (tpl, holes) = lemma_recovery_code_modal_content();
    let parts = seq![CHECK_CIRCLE_ICON@, CLOSE_ICON@, html::escaped(recovery_code)];
    assert(page::recovery_code_modal_content_html(recovery_code) == markup::filled(tpl, parts, 3).done()) by {
        reveal_with_fuel(markup::filled, 4);
    }
    markup::lemma_hole(
        tpl,
        holes,
        parts,
        2,
        "type=\"text\" class=\"recovery-code-input\" value=\""@,
        "\""@,
    );
}

/// Where the holes of the template stand, and the texts around them.
proof fn lemma_account_settings_modal() -> (at: (Seq<char>, Seq<int>))
    ensures
        at.0 == page::ACCOUNT_SETTINGS_MODAL@,
        at.1 == seq![210int, 463, 532, 650, 937, 1111, 1285, 1455, 1627, 1709, 1790, 1868],
        at.0.len() == 1896,
        markup::holes_at(at.0, at.1),
        at.0.subrange(409, 463) == "action=\"/logout\" class=\"settings-header-signout-form\">"@,
        at.0.subrange(464, 532) == "<button type=\"submit\" class=\"btn-secondary settings-header-signout\">"@,
        at.0.subrange(1581, 1627) == "role=\"tabpanel\" data-settings-panel=\"profile\">"@,
        at.0.subrange(1628, 1634) == "</div>"@,
        at.0.subrange(1662, 1709) == "role=\"tabpanel\" data-settings-panel=\"security\">"@,
        at.0.subrange(1710, 1716) == "</div>"@,
        at.0.subrange(1744, 1790) == "role=\"tabpanel\" data-settings-panel=\"devices\">"@,
        at.0.subrange(1791, 1797) == "</div>"@,
        at.0.subrange(1825, 1868) == "role=\"tabpanel\" data-settings-panel=\"data\">"@,
        at.0.subrange(1869, 1875) == "</div>"@,
        "action=\"/logout\" class=\"settings-header-signout-form\">"@.len() == 54,
        "<button type=\"submit\" class=\"btn-secondary settings-header-signout\">"@.len() == 68,
        "role=\"tabpanel\" data-settings-panel=\"profile\">"@.len() == 46,
        "</div>"@.len() == 6,
        "role=\"tabpanel\" data-settings-panel=\"security\">"@.len() == 47,
        "role=\"tabpanel\" data-settings-panel=\"devices\">"@.len() == 46,
        "role=\"tabpanel\" data-settings-panel=\"data\">"@.len() == 43,
{
    reveal_strlit("<dialog id=\"dlg-account-settings\" class=\"action-dialog action-dialog-large settings-dialog\"><div class=\"settings-header\"><div class=\"settings-header-title\"><span class=\"settings-header-icon\" aria-hidden=\"true\">¤</span><div class=\"settings-header-text\"><h2>Account settings</h2><p class=\"settings-header-tagline\">Manage your preferences.</p></div></div><div class=\"settings-header-actions\"><form method=\"post\" action=\"/logout\" class=\"settings-header-signout-form\">¤<button type=\"submit\" class=\"btn-secondary settings-header-signout\">¤<span>Sign out</span></button></form><button type=\"button\" class=\"dialog-close\" data-close-dialog aria-label=\"Close\">¤</button></div></div><div class=\"settings-layout\"><nav class=\"settings-tabs\" role=\"tablist\" aria-label=\"Account settings sections\"><button type=\"button\" class=\"settings-tab settings-tab-active\" role=\"tab\" aria-selected=\"true\" data-settings-tab=\"profile\"><span class=\"settings-tab-icon\">¤</span><span>Profile</span></button><button type=\"button\" class=\"settings-tab\" role=\"tab\" aria-selected=\"false\" data-settings-tab=\"security\"><span class=\"settings-tab-icon\">¤</span><span>Security</span></button><button type=\"button\" class=\"settings-tab\" role=\"tab\" aria-selected=\"false\" data-settings-tab=\"devices\"><span class=\"settings-tab-icon\">¤</span><span>Devices</span></button><button type=\"button\" class=\"settings-tab\" role=\"tab\" aria-selected=\"false\" data-settings-tab=\"data\"><span class=\"settings-tab-icon\">¤</span><span>Data Control</span></button></nav><div class=\"settings-panes\"><div class=\"settings-panel settings-panel-active\" role=\"tabpanel\" data-settings-panel=\"profile\">¤</div><div class=\"settings-panel\" role=\"tabpanel\" data-settings-panel=\"security\">¤</div><div class=\"settings-panel\" role=\"tabpanel\" data-settings-panel=\"devices\">¤</div><div class=\"settings-panel\" role=\"tabpanel\" data-settings-panel=\"data\">¤</div></div></div></dialog>");
    reveal_strlit("action=\"/logout\" class=\"settings-header-signout-form\">");
    reveal_strlit("<button type=\"submit\" class=\"btn-secondary settings-header-signout\">");
    reveal_strlit("role=\"tabpanel\" data-settings-panel=\"profile\">");
    reveal_strlit("</div>");
    reveal_strlit("role=\"tabpanel\" data-settings-panel=\"security\">");
    reveal_strlit("role=\"tabpanel\" data-settings-panel=\"devices\">");
    reveal_strlit("role=\"tabpanel\" data-settings-panel=\"data\">");
    let tpl = page::ACCOUNT_SETTINGS_MODAL@;
    let holes = seq![210int, 463, 532, 650, 937, 1111, 1285, 1455, 1627, 1709, 1790, 1868];
    assert(markup::hole_at(tpl, holes, 0));
    assert(markup::hole_at(tpl, holes, 1));
    assert(markup::hole_at(tpl, holes, 2));
    assert(markup::hole_at(tpl, holes, 3));
    assert(markup::hole_at(tpl, holes, 4));
    assert(markup::hole_at(tpl, holes, 5));
    assert(markup::hole_at(tpl, holes, 6));
    assert(markup::hole_at(tpl, holes, 7));
    assert(markup::hole_at(tpl, holes, 8));
    assert(markup::hole_at(tpl, holes, 9));
    assert(markup::hole_at(tpl, holes, 10));
    assert(markup::hole_at(tpl, holes, 11));
    assert(tpl.subrange(409, 463) =~= "action=\"/logout\" class=\"settings-header-signout-form\">"@);
    assert(tpl.subrange(464, 532) =~= "<button type=\"submit\" class=\"btn-secondary settings-header-signout\">"@);
    assert(tpl.subrange(1581, 1627) =~= "role=\"tabpanel\" data-settings-panel=\"profile\">"@);
    assert(tpl.subrange(1628, 1634) =~= "</div>"@);
    assert(tpl.subrange(1662, 1709) =~= "role=\"tabpanel\" data-settings-panel=\"security\">"@);
    assert(tpl.subrange(1710, 1716) =~= "</div>"@);
    assert(tpl.subrange(1744, 1790) =~= "role=\"tabpanel\" data-settings-panel=\"devices\">"@);
    assert(tpl.subrange(1791, 1797) =~= "</div>"@);
    assert(tpl.subrange(1825, 1868) =~= "role=\"tabpanel\" data-settings-panel=\"data\">"@);
    assert(tpl.subrange(1869, 1875) =~= "</div>"@);
    (tpl, holes)
}

/// The settings hold each panel under its tab.
pub proof fn law_account_settings_modal(
    ctx: &ChromeContext,
    recovery_meta: Option<&UserRecoveryCodeRow>,
    totp_creds: Seq<TotpCredential>,
    passkey_creds: Seq<WebauthnCredentialRow>,
    passkey_available: bool,
    limits: FactorLimits,
    sessions: Seq<Session>,
    current_session_id: Uuid,
    now: &Timestamp,
    last_owner_blocked: bool,
)
    ensures
        ({
            let out = page::account_settings_modal_html(ctx, recovery_meta, totp_creds, passkey_creds, passkey_available, limits, sessions, current_session_id, now, last_owner_blocked);
            &&& markup::shows(
                out,
                "action=\"/logout\" class=\"settings-header-signout-form\">"@ + shell::csrf_input_html(ctx.csrf_token@) + "<button type=\"submit\" class=\"btn-secondary settings-header-signout\">"@,
            )
            &&& markup::shows(
                out,
                "role=\"tabpanel\" data-settings-panel=\"profile\">"@ + page::settings_profile_panel_html(ctx) + "</div>"@,
            )
            &&& markup::shows(
                out,
                "role=\"tabpanel\" data-settings-panel=\"security\">"@ + security::settings_security_panel_html(ctx, totp_creds, passkey_creds, passkey_available, limits) + "</div>"@,
            )
            &&& markup::shows(
                out,
                "role=\"tabpanel\" data-settings-panel=\"devices\">"@ + security::sessions_section_html(ctx, sessions, current_session_id, now, SectionMode::Normal, false) + "</div>"@,
            )
            &&& markup::shows(
                out,
                "role=\"tabpanel\" data-settings-panel=\"data\">"@ + page::settings_data_panel_html(ctx, recovery_meta, last_owner_blocked) + "</div>"@,
            )
        }),
{
    let (tpl, holes) = lemma_account_settings_modal();
    let parts = seq![
        SETTINGS_ICON@,
        shell::csrf_input_html(ctx.csrf_token@),
        SIGNOUT_ICON@,
        CLOSE_ICON@,
        USER_ICON@,
        SHIELD_ICON@,
        LAPTOP_ICON@,
        DATABASE_ICON@,
        page::settings_profile_panel_html(ctx),
        security::settings_security_panel_html(ctx, totp_creds, passkey_creds, passkey_available, limits),
        security::sessions_section_html(ctx, sessions, current_session_id, now, SectionMode::Normal, false),
        page::settings_data_panel_html(ctx, recovery_meta, last_owner_blocked),
    ];
    assert(page::account_settings_modal_html(ctx, recovery_meta, totp_creds, passkey_creds, passkey_available, limits, sessions, current_session_id, now, last_owner_blocked) == markup::filled(tpl, parts, 12).done()) by {
        reveal_with_fuel(markup::filled, 13);
    }
    markup::lemma_hole(
        tpl,
        holes,
        parts,
        1,
        "action=\"/logout\" class=\"settings-header-signout-form\">"@,
        "<button type=\"submit\" class=\"btn-secondary settings-header-signout\">"@,
    );
    markup::lemma_hole(
        tpl,
        holes,
        parts,
        8,
        "role=\"tabpanel\" data-settings-panel=\"profile\">"@,
        "</div>"@,
    );
    markup::lemma_hole(
        tpl,
        holes,
        parts,
        9,
        "role=\"tabpanel\" data-settings-panel=\"security\">"@,
        "</div>"@,
    );
    markup::lemma_hole(
        tpl,
        holes,
        parts,
        10,
        "role=\"tabpanel\" data-settings-panel=\"devices\">"@,
        "</div>"@,
    );
    markup::lemma_hole(
        tpl,
        holes,
        parts,
        11,
        "role=\"tabpanel\" data-settings-panel=\"data\">"@,
        "</div>"@,
    );
}

/// Where the holes of the template stand, and the texts around them.
proof fn lemma_feedback_success() -> (at: (Seq<char>, Seq<int>))
    ensures
        at.0 == page::FEEDBACK_SUCCESS@,
        at.1 == seq![71int, 78],
        at.0.len() == 92,
        markup::holes_at(at.0, at.1),
        at.0.subrange(72, 78) == "<span>"@,
        at.0.subrange(79, 86) == "</span>"@,
        "<span>"@.len() == 6,
        "</span>"@.len() == 7,
{
    reveal_strlit("<div class=\"settings-feedback settings-feedback-success\" role=\"status\">¤<span>¤</span></div>");
    reveal_strlit("<span>");
    reveal_strlit("</span>");
    let tpl = page::FEEDBACK_SUCCESS@;
    let holes = seq![71int, 78];
    assert(markup::hole_at(tpl, holes, 0));
    assert(markup::hole_at(tpl, holes, 1));
    assert(tpl.subrange(72, 78) =~= "<span>"@);
    assert(tpl.subrange(79, 86) =~= "</span>"@);
    (tpl, holes)
}

/// What came of a form is told as a success.
pub proof fn law_feedback_success(msg: Seq<char>)
    ensures
        ({
            let out = page::settings_feedback_tile_html(page::FeedbackText::Success(msg));
            &&& markup::shows(out, "<span>"@ + html::escaped(msg) + "</span>"@)
        }),
{
    let (tpl, holes) = lemma_feedback_success();
    let parts = seq![CHECK_CIRCLE_ICON@, html::escaped(msg)];
    assert(page::settings_feedback_tile_html(page::FeedbackText::Success(msg)) == markup::filled(tpl, parts, 2).done()) by {
        reveal_with_fuel(markup::filled, 3);
    }
    markup::lemma_hole(tpl, holes, parts, 1, "<span>"@, "</span>"@);
}

/// Where the holes of the template stand, and the texts around them.
proof fn lemma_feedback_error() -> (at: (Seq<char>, Seq<int>))
    ensures
        at.0 == page::FEEDBACK_ERROR@,
        at.1 == seq![68int, 75],
        at.0.len() == 89,
        markup::holes_at(at.0, at.1),
        at.0.subrange(69, 75) == "<span>"@,
        at.0.subrange(76, 83) == "</span>"@,
        "<span>"@.len() == 6,
        "</span>"@.len() == 7,
{
    reveal_strlit("<div class=\"settings-feedback settings-feedback-error\" role=\"alert\">¤<span>¤</span></div>");
    reveal_strlit("<span>");
    reveal_strlit("</span>");
    let tpl = page::FEEDBACK_ERROR@;
    let holes = seq![68int, 75];
    assert(markup::hole_at(tpl, holes, 0));
    assert(markup::hole_at(tpl, holes, 1));
    assert(tpl.subrange(69, 75) =~= "<span>"@);
    assert(tpl.subrange(76, 83) =~= "</span>"@);
    (tpl, holes)
}

/// What came of a form is told as a failure.
pub proof fn law_feedback_error(msg: Seq<char>)
    ensures
        ({
            let out = page::settings_feedback_tile_html(page::FeedbackText::Error(msg));
            &&& markup::shows(out, "<span>"@ + html::escaped(msg) + "</span>"@)
        }),
{
    let (tpl, holes) = lemma_feedback_error();
    let parts = seq![ALERT_CIRCLE_ICON@, html::escaped(msg)];
    assert(page::settings_feedback_tile_html(page::FeedbackText::Error(msg)) == markup::filled(tpl, parts, 2).done()) by {
        reveal_with_fuel(markup::filled, 3);
    }
    markup::lemma_hole(tpl, holes, parts, 1, "<span>"@, "</span>"@);
}

/// Where the holes of the template stand, and the texts around them.
proof fn lemma_account_close_modal() -> (at: (Seq<char>, Seq<int>))
    ensures
        at.0 == page::ACCOUNT_CLOSE_DIALOG@,
        at.1 == seq![24int, 82, 107, 181, 268, 316, 371, 435, 442, 456, 701, 734, 792, 813, 1048, 1081],
        at.0.len() == 1113,
        markup::holes_at(at.0, at.1),
        at.0.subrange(0, 24) == "<dialog id=\"dlg-account-"@,
        at.0.subrange(25, 26) == "\""@,
        at.0.subrange(72, 82) == "<form id=\""@,
        at.0.subrange(83, 84) == "\""@,
        at.0.subrange(83, 107) == "\" method=\"post\" action=\""@,
        at.0.subrange(108, 109) == "\""@,
        at.0.subrange(137, 181) == "<div class=\"dialog-icon dialog-icon-danger\">"@,
        at.0.subrange(182, 188) == "</div>"@,
        at.0.subrange(284, 316) == "<h2 class=\"dialog-center-title\">"@,
        at.0.subrange(317, 322) == "</h2>"@,
        at.0.subrange(322, 371) == "<p class=\"dialog-description dialog-center-text\">"@,
        at.0.subrange(372, 376) == "</p>"@,
        at.0.subrange(436, 442) == "<span>"@,
        at.0.subrange(443, 450) == "</span>"@,
        at.0.subrange(450, 456) == "</div>"@,
        at.0.subrange(457, 495) == "<label class=\"confirm-checkbox-field\">"@,
        at.0.subrange(689, 701) == "<label for=\""@,
        at.0.subrange(702, 703) == "\""@,
        at.0.subrange(720, 734) == "<strong>&quot;"@,
        at.0.subrange(735, 741) == "&quot;"@,
        at.0.subrange(769, 792) == "<input type=\"text\" id=\""@,
        at.0.subrange(793, 794) == "\""@,
        at.0.subrange(793, 813) == "\" data-close-email=\""@,
        at.0.subrange(814, 815) == "\""@,
        at.0.subrange(994, 1048) == "type=\"button\" class=\"btn-danger\" data-reauth-confirm=\""@,
        at.0.subrange(1049, 1050) == "\""@,
        at.0.subrange(1049, 1081) == "\" data-reauth-critical disabled>"@,
        at.0.subrange(1082, 1091) == "</button>"@,
        "<dialog id=\"dlg-account-"@.len() == 24,
        "\""@.len() == 1,
        "<form id=\""@.len() == 10,
        "\" method=\"post\" action=\""@.len() == 24,
        "<div class=\"dialog-icon dialog-icon-danger\">"@.len() == 44,
        "</div>"@.len() == 6,
        "<h2 class=\"dialog-center-title\">"@.len() == 32,
        "</h2>"@.len() == 5,
        "<p class=\"dialog-description dialog-center-text\">"@.len() == 49,
        "</p>"@.len() == 4,
        "<span>"@.len() == 6,
        "</span>"@.len() == 7,
        "<label class=\"confirm-checkbox-field\">"@.len() == 38,
        "<label for=\""@.len() == 12,
        "<strong>&quot;"@.len() == 14,
        "&quot;"@.len() == 6,
        "<input type=\"text\" id=\""@.len() == 23,
        "\" data-close-email=\""@.len() == 20,
        "type=\"button\" class=\"btn-danger\" data-reauth-confirm=\""@.len() == 54,
        "\" data-reauth-critical disabled>"@.len() == 32,
        "</button>"@.len() == 9,
{
    reveal_strlit("<dialog id=\"dlg-account-¤\" class=\"action-dialog action-dialog-centered\"><form id=\"¤\" method=\"post\" action=\"¤\"><div class=\"dialog-header\"><div class=\"dialog-icon dialog-icon-danger\">¤</div><button type=\"button\" class=\"dialog-close\" data-close-dialog aria-label=\"Close\">¤</button></div><h2 class=\"dialog-center-title\">¤</h2><p class=\"dialog-description dialog-center-text\">¤</p><div class=\"dialog-alert dialog-alert-danger\" role=\"alert\">¤<span>¤</span></div>¤<label class=\"confirm-checkbox-field\"><input type=\"checkbox\" class=\"member-checkbox\" data-close-ack><span>I understand this is permanent and that I won't be able to sign in again.</span></label><div class=\"field confirm-name-field\"><label for=\"¤\">Type your email <strong>&quot;¤&quot;</strong> to confirm</label><input type=\"text\" id=\"¤\" data-close-email=\"¤\" autocomplete=\"off\" spellcheck=\"false\" autocapitalize=\"off\"></div><div class=\"dialog-actions\"><button type=\"button\" class=\"btn-secondary\" data-close-dialog>Cancel</button><button type=\"button\" class=\"btn-danger\" data-reauth-confirm=\"¤\" data-reauth-critical disabled>¤</button></div></form></dialog>");
    reveal_strlit("<dialog id=\"dlg-account-");
    reveal_strlit("\"");
    reveal_strlit("<form id=\"");
    reveal_strlit("\" method=\"post\" action=\"");
    reveal_strlit("<div class=\"dialog-icon dialog-icon-danger\">");
    reveal_strlit("</div>");
    reveal_strlit("<h2 class=\"dialog-center-title\">");
    reveal_strlit("</h2>");
    reveal_strlit("<p class=\"dialog-description dialog-center-text\">");
    reveal_strlit("</p>");
    reveal_strlit("<span>");
    reveal_strlit("</span>");
    reveal_strlit("<label class=\"confirm-checkbox-field\">");
    reveal_strlit("<label for=\"");
    reveal_strlit("<strong>&quot;");
    reveal_strlit("&quot;");
    reveal_strlit("<input type=\"text\" id=\"");
    reveal_strlit("\" data-close-email=\"");
    reveal_strlit("type=\"button\" class=\"btn-danger\" data-reauth-confirm=\"");
    reveal_strlit("\" data-reauth-critical disabled>");
    reveal_strlit("</button>");
    let tpl = page::ACCOUNT_CLOSE_DIALOG@;
    let holes = seq![24int, 82, 107, 181, 268, 316, 371, 435, 442, 456, 701, 734, 792, 813, 1048, 1081];
    assert(markup::hole_at(tpl, holes, 0));
    assert(markup::hole_at(tpl, holes, 1));
    assert(markup::hole_at(tpl, holes, 2));
    assert(markup::hole_at(tpl, holes, 3));
    assert(markup::hole_at(tpl, holes, 4));
    assert(markup::hole_at(tpl, holes, 5));
    assert(markup::hole_at(tpl, holes, 6));
    assert(markup::hole_at(tpl, holes, 7));
    assert(markup::hole_at(tpl, holes, 8));
    assert(markup::hole_at(tpl, holes, 9));
    assert(markup::hole_at(tpl, holes, 10));
    assert(markup::hole_at(tpl, holes, 11));
    assert(markup::hole_at(tpl, holes, 12));
    assert(markup::hole_at(tpl, holes, 13));
    assert(markup::hole_at(tpl, holes, 14));
    assert(markup::hole_at(tpl, holes, 15));
    assert(tpl.subrange(0, 24) =~= "<dialog id=\"dlg-account-"@);
    assert(tpl.subrange(25, 26) =~= "\""@);
    assert(tpl.subrange(72, 82) =~= "<form id=\""@);
    assert(tpl.subrange(83, 84) =~= "\""@);
    assert(tpl.subrange(83, 107) =~= "\" method=\"post\" action=\""@);
    assert(tpl.subrange(108, 109) =~= "\""@);
    assert(tpl.subrange(137, 181) =~= "<div class=\"dialog-icon dialog-icon-danger\">"@);
    assert(tpl.subrange(182, 188) =~= "</div>"@);
    assert(tpl.subrange(284, 316) =~= "<h2 class=\"dialog-center-title\">"@);
    assert(tpl.subrange(317, 322) =~= "</h2>"@);
    assert(tpl.subrange(322, 371) =~= "<p class=\"dialog-description dialog-center-text\">"@);
    assert(tpl.subrange(372, 376) =~= "</p>"@);
    assert(tpl.subrange(436, 442) =~= "<span>"@);
    assert(tpl.subrange(443, 450) =~= "</span>"@);
    assert(tpl.subrange(450, 456) =~= "</div>"@);
    assert(tpl.subrange(457, 495) =~= "<label class=\"confirm-checkbox-field\">"@);
    assert(tpl.subrange(689, 701) =~= "<label for=\""@);
    assert(tpl.subrange(702, 703) =~= "\""@);
    assert(tpl.subrange(720, 734) =~= "<strong>&quot;"@);
    assert(tpl.subrange(735, 741) =~= "&quot;"@);
    assert(tpl.subrange(769, 792) =~= "<input type=\"text\" id=\""@);
    assert(tpl.subrange(793, 794) =~= "\""@);
    assert(tpl.subrange(793, 813) =~= "\" data-close-email=\""@);
    assert(tpl.subrange(814, 815) =~= "\""@);
    assert(tpl.subrange(994, 1048) =~= "type=\"button\" class=\"btn-danger\" data-reauth-confirm=\""@);
    assert(tpl.subrange(1049, 1050) =~= "\""@);
    assert(tpl.subrange(1049, 1081) =~= "\" data-reauth-critical disabled>"@);
    assert(tpl.subrange(1082, 1091) =~= "</button>"@);
    (tpl, holes)
}

/// The dialog that closes an account asks for the email of the user, carries the token of the
/// session, and goes where its way of closing goes.
pub proof fn law_account_close_modal(ctx: &ChromeContext, delete_mode: bool, blocked: bool)
    requires
        !blocked,
    ensures
        ({
            let out = page::account_close_modal_html(ctx, delete_mode, blocked);
            let t = page::close_texts_of(delete_mode);
            &&& markup::shows(out, "<dialog id=\"dlg-account-"@ + html::escaped(t.slug@) + "\""@)
            &&& markup::shows(
                out,
                "<form id=\""@ + (html::escaped("form-account-"@ + t.slug@)) + "\""@,
            )
            &&& markup::shows(
                out,
                "\" method=\"post\" action=\""@ + html::escaped(t.action@) + "\""@,
            )
            &&& markup::shows(
                out,
                "<div class=\"dialog-icon dialog-icon-danger\">"@ + (if delete_mode { TRASH_ICON@ } else { INCOGNITO_ICON@ }) + "</div>"@,
            )
            &&& markup::shows(
                out,
                "<h2 class=\"dialog-center-title\">"@ + html::escaped(t.title@) + "</h2>"@,
            )
            &&& markup::shows(
                out,
                "<p class=\"dialog-description dialog-center-text\">"@ + html::escaped(t.lead@) + "</p>"@,
            )
            &&& markup::shows(out, "<span>"@ + html::escaped(t.alert@) + "</span>"@)
            &&& markup::shows(
                out,
                "</div>"@ + shell::csrf_input_html(ctx.csrf_token@) + "<label class=\"confirm-checkbox-field\">"@,
            )
            &&& markup::shows(
                out,
                "<label for=\""@ + (html::escaped("confirm-email-"@ + t.slug@)) + "\""@,
            )
            &&& markup::shows(out, "<strong>&quot;"@ + html::escaped(ctx.user.email@) + "&quot;"@)
            &&& markup::shows(
                out,
                "<input type=\"text\" id=\""@ + (html::escaped("confirm-email-"@ + t.slug@)) + "\""@,
            )
            &&& markup::shows(
                out,
                "\" data-close-email=\""@ + html::escaped(ctx.user.email@) + "\""@,
            )
            &&& markup::shows(
                out,
                "type=\"button\" class=\"btn-danger\" data-reauth-confirm=\""@ + (html::escaped("form-account-"@ + t.slug@)) + "\""@,
            )
            &&& markup::shows(
                out,
                "\" data-reauth-critical disabled>"@ + html::escaped(t.label@) + "</button>"@,
            )
        }),
{
    let t = page::close_texts_of(delete_mode);
    let (tpl, holes) = lemma_account_close_modal();
    let parts = seq![
        html::escaped(t.slug@),
        html::escaped("form-account-"@ + t.slug@),
        html::escaped(t.action@),
        if delete_mode { TRASH_ICON@ } else { INCOGNITO_ICON@ },
        CLOSE_ICON@,
        html::escaped(t.title@),
        html::escaped(t.lead@),
        ALERT_CIRCLE_ICON@,
        html::escaped(t.alert@),
        shell::csrf_input_html(ctx.csrf_token@),
        html::escaped("confirm-email-"@ + t.slug@),
        html::escaped(ctx.user.email@),
        html::escaped("confirm-email-"@ + t.slug@),
        html::escaped(ctx.user.email@),
        html::escaped("form-account-"@ + t.slug@),
        html::escaped(t.label@),
    ];
    assert(page::account_close_modal_html(ctx, delete_mode, blocked) == markup::filled(tpl, parts, 16).done()) by {
        reveal_with_fuel(markup::filled, 17);
    }
    markup::lemma_hole(tpl, holes, parts, 0, "<dialog id=\"dlg-account-"@, "\""@);
    markup::lemma_hole(tpl, holes, parts, 1, "<form id=\""@, "\""@);
    markup::lemma_hole(tpl, holes, parts, 2, "\" method=\"post\" action=\""@, "\""@);
    markup::lemma_hole(
        tpl,
        holes,
        parts,
        3,
        "<div class=\"dialog-icon dialog-icon-danger\">"@,
        "</div>"@,
    );
    markup::lemma_hole(tpl, holes, parts, 5, "<h2 class=\"dialog-center-title\">"@, "</h2>"@);
    markup::lemma_hole(
        tpl,
        holes,
        parts,
        6,
        "<p class=\"dialog-description dialog-center-text\">"@,
        "</p>"@,
    );
    markup::lemma_hole(tpl, holes, parts, 8, "<span>"@, "</span>"@);
    markup::lemma_hole(
        tpl,
        holes,
        parts,
        9,
        "</div>"@,
        "<label class=\"confirm-checkbox-field\">"@,
    );
    markup::lemma_hole(tpl, holes, parts, 10, "<label for=\""@, "\""@);
    markup::lemma_hole(tpl, holes, parts, 11, "<strong>&quot;"@, "&quot;"@);
    markup::lemma_hole(tpl, holes, parts, 12, "<input type=\"text\" id=\""@, "\""@);
    markup::lemma_hole(tpl, holes, parts, 13, "\" data-close-email=\""@, "\""@);
    markup::lemma_hole(
        tpl,
        holes,
        parts,
        14,
        "type=\"button\" class=\"btn-danger\" data-reauth-confirm=\""@,
        "\""@,
    );
    markup::lemma_hole(tpl, holes, parts, 15, "\" data-reauth-critical disabled>"@, "</button>"@);
}

/// Where the holes of the template stand, and the texts around them.
proof fn lemma_me_page() -> (at: (Seq<char>, Seq<int>))
    ensures
        at.0 == page::ME_PAGE@,
        at.1 == seq![61int, 84, 109],
        at.0.len() == 256,
        markup::holes_at(at.0, at.1),
        at.0.subrange(43, 61) == "<dt>Email</dt><dd>"@,
        at.0.subrange(62, 67) == "</dd>"@,
        at.0.subrange(67, 84) == "<dt>Role</dt><dd>"@,
        at.0.subrange(85, 90) == "</dd>"@,
        at.0.subrange(90, 109) == "<dt>Status</dt><dd>"@,
        at.0.subrange(110, 115) == "</dd>"@,
        "<dt>Email</dt><dd>"@.len() == 18,
        "</dd>"@.len() == 5,
        "<dt>Role</dt><dd>"@.len() == 17,
        "<dt>Status</dt><dd>"@.len() == 19,
{
    reveal_strlit("<div class=\"card me-card\"><dl class=\"meta\"><dt>Email</dt><dd>¤</dd><dt>Role</dt><dd>¤</dd><dt>Status</dt><dd>¤</dd></dl><div class=\"me-actions\"><button type=\"button\" class=\"btn\" data-open-modal=\"/modals/account-settings\">Manage account</button></div></div>");
    reveal_strlit("<dt>Email</dt><dd>");
    reveal_strlit("</dd>");
    reveal_strlit("<dt>Role</dt><dd>");
    reveal_strlit("<dt>Status</dt><dd>");
    let tpl = page::ME_PAGE@;
    let holes = seq![61int, 84, 109];
    assert(markup::hole_at(tpl, holes, 0));
    assert(markup::hole_at(tpl, holes, 1));
    assert(markup::hole_at(tpl, holes, 2));
    assert(tpl.subrange(43, 61) =~= "<dt>Email</dt><dd>"@);
    assert(tpl.subrange(62, 67) =~= "</dd>"@);
    assert(tpl.subrange(67, 84) =~= "<dt>Role</dt><dd>"@);
    assert(tpl.subrange(85, 90) =~= "</dd>"@);
    assert(tpl.subrange(90, 109) =~= "<dt>Status</dt><dd>"@);
    assert(tpl.subrange(110, 115) =~= "</dd>"@);
    (tpl, holes)
}

/// The page of an account shows the email, the role and the state of the user.
pub proof fn law_me_page(ctx: &ChromeContext)
    ensures
        ({
            let out = page::me_page_html(ctx);
            let user = ctx.user;
            let lifecycle_label = match user.lifecycle { UserLifecycle::Active => "Active", UserLifecycle::Deactivated => "Deactivated", UserLifecycle::PendingInvite => "Pending invitation", UserLifecycle::Anonymized => "Anonymized", };
            &&& markup::shows(out, "<title>"@ + html::escaped("Your account"@) + " · "@)
            &&& markup::shows(out, "<dt>Email</dt><dd>"@ + html::escaped(user.email@) + "</dd>"@)
            &&& markup::shows(
                out,
                "<dt>Role</dt><dd>"@ + html::escaped(shell::role_label_text(user.instance_role)) + "</dd>"@,
            )
            &&& markup::shows(
                out,
                "<dt>Status</dt><dd>"@ + html::escaped(lifecycle_label@) + "</dd>"@,
            )
        }),
{
    let user = ctx.user;
    let lifecycle_label = match user.lifecycle { UserLifecycle::Active => "Active", UserLifecycle::Deactivated => "Deactivated", UserLifecycle::PendingInvite => "Pending invitation", UserLifecycle::Anonymized => "Anonymized", };
    let (tpl, holes) = lemma_me_page();
    let parts = seq![
        html::escaped(user.email@),
        html::escaped(shell::role_label_text(user.instance_role)),
        html::escaped(lifecycle_label@),
    ];
    let content = markup::filled(tpl, parts, 3).done();
    let out = page::me_page_html(ctx);
    assert(out == shell::shell_app_html(ctx, "Your account"@, PageId::Profile, content)) by {
        reveal_with_fuel(markup::filled, 4);
    }
    around::lemma_app_content(ctx, "Your account"@, PageId::Profile, content, false);
    markup::lemma_hole(tpl, holes, parts, 0, "<dt>Email</dt><dd>"@, "</dd>"@);
    markup::lemma_shows_inner(
        out,
        content,
        "<dt>Email</dt><dd>"@ + html::escaped(user.email@) + "</dd>"@,
    );
    markup::lemma_hole(tpl, holes, parts, 1, "<dt>Role</dt><dd>"@, "</dd>"@);
    markup::lemma_shows_inner(
        out,
        content,
        "<dt>Role</dt><dd>"@ + html::escaped(shell::role_label_text(user.instance_role)) + "</dd>"@,
    );
    markup::lemma_hole(tpl, holes, parts, 2, "<dt>Status</dt><dd>"@, "</dd>"@);
    markup::lemma_shows_inner(
        out,
        content,
        "<dt>Status</dt><dd>"@ + html::escaped(lifecycle_label@) + "</dd>"@,
    );
}

/// An account is deleted or anonymized, each under its own words and at its own address.
pub proof fn law_ways_to_close()
    ensures
        ({
            let d = page::close_texts_of(true);
            let a = page::close_texts_of(false);
            &&& d.slug@ == "delete"@ && a.slug@ == "anonymize"@
            &&& d.modal@ == "/modals/account/delete"@ && a.modal@ == "/modals/account/anonymize"@
            &&& d.action@ == "/me/account/delete"@ && a.action@ == "/me/account/anonymize"@
            &&& d.title@ == "Delete your account"@ && a.title@ == "Anonymize your account"@
            &&& d.label@ == "Delete my account"@ && a.label@ == "Anonymize my account"@
            &&& d.lead == page::CLOSE_DELETE_LEAD && a.lead == page::CLOSE_ANONYMIZE_LEAD
            &&& d.alert == page::CLOSE_DELETE_ALERT && a.alert == page::CLOSE_ANONYMIZE_ALERT
            &&& d.hint == page::CLOSE_DELETE_HINT && a.hint == page::CLOSE_ANONYMIZE_HINT
            &&& d.tagline == page::CLOSE_DELETE_TAGLINE && a.tagline
                == page::CLOSE_ANONYMIZE_TAGLINE
        }),
{
}

/// Where the holes of the template stand, and the texts around them.
proof fn lemma_reauth_by_password() -> (at: (Seq<char>, Seq<int>))
    ensures
        at.0 == page::REAUTH_PASSWORD@,
        at.1 == seq![52int, 125, 212, 330, 335, 434, 435, 607, 775],
        at.0.len() == 782,
        markup::holes_at(at.0, at.1),
        at.0.subrange(0, 52) == "<div class=\"reauth-view\" data-reauth-view=\"password\""@,
        at.0.subrange(53, 54) == ">"@,
        at.0.subrange(281, 330) == "<p class=\"dialog-description dialog-center-text\">"@,
        at.0.subrange(331, 335) == "</p>"@,
        at.0.subrange(336, 434) == "<form id=\"form-reauth\" hx-post=\"/me/reauth\" hx-target=\"#reauth-modal-content\" hx-swap=\"innerHTML\">"@,
        at.0.subrange(380, 434) == "hx-target=\"#reauth-modal-content\" hx-swap=\"innerHTML\">"@,
        at.0.subrange(436, 455) == "<div class=\"field\">"@,
        at.0.subrange(601, 607) == "</div>"@,
        at.0.subrange(608, 636) == "<div class=\"dialog-actions\">"@,
        at.0.subrange(768, 775) == "</form>"@,
        at.0.subrange(776, 782) == "</div>"@,
        "<div class=\"reauth-view\" data-reauth-view=\"password\""@.len() == 52,
        ">"@.len() == 1,
        "<p class=\"dialog-description dialog-center-text\">"@.len() == 49,
        "</p>"@.len() == 4,
        "<form id=\"form-reauth\" hx-post=\"/me/reauth\" hx-target=\"#reauth-modal-content\" hx-swap=\"innerHTML\">"@.len() == 98,
        "hx-target=\"#reauth-modal-content\" hx-swap=\"innerHTML\">"@.len() == 54,
        "<div class=\"field\">"@.len() == 19,
        "</div>"@.len() == 6,
        "<div class=\"dialog-actions\">"@.len() == 28,
        "</form>"@.len() == 7,
{
    reveal_strlit("<div class=\"reauth-view\" data-reauth-view=\"password\"¤><div class=\"dialog-header\"><div class=\"dialog-icon dialog-icon-shield\">¤</div><button type=\"button\" class=\"dialog-close\" data-close-dialog aria-label=\"Close\">¤</button></div><h2 class=\"dialog-center-title\">Confirm it's you</h2><p class=\"dialog-description dialog-center-text\">¤</p>¤<form id=\"form-reauth\" hx-post=\"/me/reauth\" hx-target=\"#reauth-modal-content\" hx-swap=\"innerHTML\">¤¤<div class=\"field\"><label for=\"reauth-password\">Password</label><input type=\"password\" id=\"reauth-password\" name=\"password\" autocomplete=\"current-password\" required></div>¤<div class=\"dialog-actions\"><button type=\"button\" class=\"btn-secondary\" data-close-dialog>Cancel</button><button type=\"submit\" class=\"btn\">Verify</button></div></form>¤</div>");
    reveal_strlit("<div class=\"reauth-view\" data-reauth-view=\"password\"");
    reveal_strlit(">");
    reveal_strlit("<p class=\"dialog-description dialog-center-text\">");
    reveal_strlit("</p>");
    reveal_strlit("<form id=\"form-reauth\" hx-post=\"/me/reauth\" hx-target=\"#reauth-modal-content\" hx-swap=\"innerHTML\">");
    reveal_strlit("hx-target=\"#reauth-modal-content\" hx-swap=\"innerHTML\">");
    reveal_strlit("<div class=\"field\">");
    reveal_strlit("</div>");
    reveal_strlit("<div class=\"dialog-actions\">");
    reveal_strlit("</form>");
    let tpl = page::REAUTH_PASSWORD@;
    let holes = seq![52int, 125, 212, 330, 335, 434, 435, 607, 775];
    assert(markup::hole_at(tpl, holes, 0));
    assert(markup::hole_at(tpl, holes, 1));
    assert(markup::hole_at(tpl, holes, 2));
    assert(markup::hole_at(tpl, holes, 3));
    assert(markup::hole_at(tpl, holes, 4));
    assert(markup::hole_at(tpl, holes, 5));
    assert(markup::hole_at(tpl, holes, 6));
    assert(markup::hole_at(tpl, holes, 7));
    assert(markup::hole_at(tpl, holes, 8));
    assert(tpl.subrange(0, 52) =~= "<div class=\"reauth-view\" data-reauth-view=\"password\""@);
    assert(tpl.subrange(53, 54) =~= ">"@);
    assert(tpl.subrange(281, 330) =~= "<p class=\"dialog-description dialog-center-text\">"@);
    assert(tpl.subrange(331, 335) =~= "</p>"@);
    assert(tpl.subrange(336, 434) =~= "<form id=\"form-reauth\" hx-post=\"/me/reauth\" hx-target=\"#reauth-modal-content\" hx-swap=\"innerHTML\">"@);
    assert(tpl.subrange(380, 434) =~= "hx-target=\"#reauth-modal-content\" hx-swap=\"innerHTML\">"@);
    assert(tpl.subrange(436, 455) =~= "<div class=\"field\">"@);
    assert(tpl.subrange(601, 607) =~= "</div>"@);
    assert(tpl.subrange(608, 636) =~= "<div class=\"dialog-actions\">"@);
    assert(tpl.subrange(768, 775) =~= "</form>"@);
    assert(tpl.subrange(776, 782) =~= "</div>"@);
    (tpl, holes)
}

/// Without a passkey users confirm who they are by their password, and by the code of an
/// authenticator where they have one; the form carries the token of the session and what it is
/// for.
pub proof fn law_reauth_by_password(
    ctx: &ChromeContext,
    has_totp: bool,
    has_passkey: bool,
    error: Option<Seq<char>>,
    critical: bool,
)
    requires
        !has_passkey,
    ensures
        ({
            let out = page::reauth_modal_content_html(ctx, has_totp, has_passkey, error, critical);
            let show_password = !has_passkey || has_totp;
            let passkey_default = has_passkey && (error is None || !show_password);
            &&& markup::shows(
                out,
                "<div class=\"reauth-view\" data-reauth-view=\"password\""@ + html::when(passkey_default, " hidden"@) + ">"@,
            )
            &&& markup::shows(
                out,
                "<p class=\"dialog-description dialog-center-text\">"@ + (if has_totp { page::REAUTH_INTRO_CODE@ } else { page::REAUTH_INTRO@ }) + "</p>"@,
            )
            &&& markup::shows(
                out,
                "</p>"@ + (match error { Some(msg) => html::template(page::REAUTH_ERROR@) .text(msg) .done(), None => Seq::empty(), }) + "<form id=\"form-reauth\" hx-post=\"/me/reauth\" hx-target=\"#reauth-modal-content\" hx-swap=\"innerHTML\">"@,
            )
            &&& markup::shows(
                out,
                "hx-target=\"#reauth-modal-content\" hx-swap=\"innerHTML\">"@ + shell::csrf_input_html(ctx.csrf_token@),
            )
            &&& markup::shows(
                out,
                html::when(critical, page::REAUTH_CRITICAL@) + "<div class=\"field\">"@,
            )
            &&& markup::shows(
                out,
                "</div>"@ + html::when(has_totp, page::REAUTH_CODE@) + "<div class=\"dialog-actions\">"@,
            )
            &&& markup::shows(
                out,
                "</form>"@ + html::when(has_passkey, page::REAUTH_USE_PASSKEY@) + "</div>"@,
            )
        }),
{
    let show_password = !has_passkey || has_totp;
    let passkey_default = has_passkey && (error is None || !show_password);
    let (tpl, holes) = lemma_reauth_by_password();
    let parts = seq![
        html::when(passkey_default, " hidden"@),
        SHIELD_ICON@,
        CLOSE_ICON@,
        if has_totp { page::REAUTH_INTRO_CODE@ } else { page::REAUTH_INTRO@ },
        match error { Some(msg) => html::template(page::REAUTH_ERROR@) .text(msg) .done(), None => Seq::empty(), },
        shell::csrf_input_html(ctx.csrf_token@),
        html::when(critical, page::REAUTH_CRITICAL@),
        html::when(has_totp, page::REAUTH_CODE@),
        html::when(has_passkey, page::REAUTH_USE_PASSKEY@),
    ];
    assert(page::reauth_modal_content_html(ctx, has_totp, has_passkey, error, critical) =~= markup::filled(tpl, parts, 9).done()) by {
        reveal_with_fuel(markup::filled, 10);
    }
    markup::lemma_hole(
        tpl,
        holes,
        parts,
        0,
        "<div class=\"reauth-view\" data-reauth-view=\"password\""@,
        ">"@,
    );
    markup::lemma_hole(
        tpl,
        holes,
        parts,
        3,
        "<p class=\"dialog-description dialog-center-text\">"@,
        "</p>"@,
    );
    markup::lemma_hole(
        tpl,
        holes,
        parts,
        4,
        "</p>"@,
        "<form id=\"form-reauth\" hx-post=\"/me/reauth\" hx-target=\"#reauth-modal-content\" hx-swap=\"innerHTML\">"@,
    );
    assert(tpl.subrange(435, 435) =~= Seq::<char>::empty());
    markup::lemma_hole(
        tpl,
        holes,
        parts,
        5,
        "hx-target=\"#reauth-modal-content\" hx-swap=\"innerHTML\">"@,
        Seq::<char>::empty(),
    );
    assert("hx-target=\"#reauth-modal-content\" hx-swap=\"innerHTML\">"@ + parts[5] + Seq::<char>::empty() =~= "hx-target=\"#reauth-modal-content\" hx-swap=\"innerHTML\">"@ + parts[5]);
    assert(tpl.subrange(435, 435) =~= Seq::<char>::empty());
    markup::lemma_hole(tpl, holes, parts, 6, Seq::<char>::empty(), "<div class=\"field\">"@);
    assert(Seq::<char>::empty() + parts[6] + "<div class=\"field\">"@ =~= parts[6] + "<div class=\"field\">"@);
    markup::lemma_hole(tpl, holes, parts, 7, "</div>"@, "<div class=\"dialog-actions\">"@);
    markup::lemma_hole(tpl, holes, parts, 8, "</form>"@, "</div>"@);
}

/// Where the holes of the template stand, and the texts around them.
proof fn lemma_reauth_by_passkey() -> (at: (Seq<char>, Seq<int>))
    ensures
        at.0 == page::REAUTH_PASSKEY@,
        at.1 == seq![51int, 125, 212, 469, 470, 555, 740],
        at.0.len() == 747,
        markup::holes_at(at.0, at.1),
        at.0.subrange(0, 51) == "<div class=\"reauth-view\" data-reauth-view=\"passkey\""@,
        at.0.subrange(52, 53) == ">"@,
        at.0.subrange(415, 469) == "hx-target=\"#reauth-modal-content\" hx-swap=\"innerHTML\">"@,
        at.0.subrange(471, 512) == "<input type=\"hidden\" name=\"challenge_id\">"@,
        at.0.subrange(548, 555) == "</form>"@,
        at.0.subrange(556, 712) == "<button type=\"button\" class=\"btn login-passkey-btn reauth-passkey-btn\" data-passkey-auth=\"/me/reauth/passkey/start\" data-passkey-form=\"form-reauth-passkey\">"@,
        at.0.subrange(731, 740) == "</button>"@,
        at.0.subrange(741, 747) == "</div>"@,
        "<div class=\"reauth-view\" data-reauth-view=\"passkey\""@.len() == 51,
        ">"@.len() == 1,
        "hx-target=\"#reauth-modal-content\" hx-swap=\"innerHTML\">"@.len() == 54,
        "<input type=\"hidden\" name=\"challenge_id\">"@.len() == 41,
        "</form>"@.len() == 7,
        "<button type=\"button\" class=\"btn login-passkey-btn reauth-passkey-btn\" data-passkey-auth=\"/me/reauth/passkey/start\" data-passkey-form=\"form-reauth-passkey\">"@.len() == 156,
        "</button>"@.len() == 9,
        "</div>"@.len() == 6,
{
    reveal_strlit("<div class=\"reauth-view\" data-reauth-view=\"passkey\"¤><div class=\"dialog-header\"><div class=\"dialog-icon dialog-icon-passkey\">¤</div><button type=\"button\" class=\"dialog-close\" data-close-dialog aria-label=\"Close\">¤</button></div><h2 class=\"dialog-center-title\">Confirm it's you</h2><p class=\"dialog-description dialog-center-text\">Use your passkey to continue.</p><form id=\"form-reauth-passkey\" hx-post=\"/me/reauth\" hx-target=\"#reauth-modal-content\" hx-swap=\"innerHTML\">¤¤<input type=\"hidden\" name=\"challenge_id\"><input type=\"hidden\" name=\"passkey\"></form>¤<button type=\"button\" class=\"btn login-passkey-btn reauth-passkey-btn\" data-passkey-auth=\"/me/reauth/passkey/start\" data-passkey-form=\"form-reauth-passkey\">Verify with passkey</button>¤</div>");
    reveal_strlit("<div class=\"reauth-view\" data-reauth-view=\"passkey\"");
    reveal_strlit(">");
    reveal_strlit("hx-target=\"#reauth-modal-content\" hx-swap=\"innerHTML\">");
    reveal_strlit("<input type=\"hidden\" name=\"challenge_id\">");
    reveal_strlit("</form>");
    reveal_strlit("<button type=\"button\" class=\"btn login-passkey-btn reauth-passkey-btn\" data-passkey-auth=\"/me/reauth/passkey/start\" data-passkey-form=\"form-reauth-passkey\">");
    reveal_strlit("</button>");
    reveal_strlit("</div>");
    let tpl = page::REAUTH_PASSKEY@;
    let holes = seq![51int, 125, 212, 469, 470, 555, 740];
    assert(markup::hole_at(tpl, holes, 0));
    assert(markup::hole_at(tpl, holes, 1));
    assert(markup::hole_at(tpl, holes, 2));
    assert(markup::hole_at(tpl, holes, 3));
    assert(markup::hole_at(tpl, holes, 4));
    assert(markup::hole_at(tpl, holes, 5));
    assert(markup::hole_at(tpl, holes, 6));
    assert(tpl.subrange(0, 51) =~= "<div class=\"reauth-view\" data-reauth-view=\"passkey\""@);
    assert(tpl.subrange(52, 53) =~= ">"@);
    assert(tpl.subrange(415, 469) =~= "hx-target=\"#reauth-modal-content\" hx-swap=\"innerHTML\">"@);
    assert(tpl.subrange(471, 512) =~= "<input type=\"hidden\" name=\"challenge_id\">"@);
    assert(tpl.subrange(548, 555) =~= "</form>"@);
    assert(tpl.subrange(556, 712) =~= "<button type=\"button\" class=\"btn login-passkey-btn reauth-passkey-btn\" data-passkey-auth=\"/me/reauth/passkey/start\" data-passkey-form=\"form-reauth-passkey\">"@);
    assert(tpl.subrange(731, 740) =~= "</button>"@);
    assert(tpl.subrange(741, 747) =~= "</div>"@);
    (tpl, holes)
}

/// With a passkey and no authenticator users confirm who they are by the passkey; the form carries
/// the token of the session and what it is for.
pub proof fn law_reauth_by_passkey(
    ctx: &ChromeContext,
    has_totp: bool,
    has_passkey: bool,
    error: Option<Seq<char>>,
    critical: bool,
)
    requires
        has_passkey,
        !has_totp,
    ensures
        ({
            let out = page::reauth_modal_content_html(ctx, has_totp, has_passkey, error, critical);
            let show_password = !has_passkey || has_totp;
            let passkey_default = has_passkey && (error is None || !show_password);
            &&& markup::shows(
                out,
                "<div class=\"reauth-view\" data-reauth-view=\"passkey\""@ + html::when(!passkey_default, " hidden"@) + ">"@,
            )
            &&& markup::shows(
                out,
                "hx-target=\"#reauth-modal-content\" hx-swap=\"innerHTML\">"@ + shell::csrf_input_html(ctx.csrf_token@),
            )
            &&& markup::shows(
                out,
                html::when(critical, page::REAUTH_CRITICAL@) + "<input type=\"hidden\" name=\"challenge_id\">"@,
            )
            &&& markup::shows(
                out,
                "</form>"@ + (match error { Some(msg) => html::template(page::REAUTH_PASSKEY_ERROR@) .text(msg) .done(), None => page::REAUTH_PASSKEY_NO_ERROR@, }) + "<button type=\"button\" class=\"btn login-passkey-btn reauth-passkey-btn\" data-passkey-auth=\"/me/reauth/passkey/start\" data-passkey-form=\"form-reauth-passkey\">"@,
            )
            &&& markup::shows(
                out,
                "</button>"@ + (if show_password { page::REAUTH_USE_PASSWORD@ } else { page::REAUTH_PASSKEY_ONLY@ }) + "</div>"@,
            )
        }),
{
    let show_password = !has_passkey || has_totp;
    let passkey_default = has_passkey && (error is None || !show_password);
    let (tpl, holes) = lemma_reauth_by_passkey();
    let parts = seq![
        html::when(!passkey_default, " hidden"@),
        FINGERPRINT_ICON@,
        CLOSE_ICON@,
        shell::csrf_input_html(ctx.csrf_token@),
        html::when(critical, page::REAUTH_CRITICAL@),
        match error { Some(msg) => html::template(page::REAUTH_PASSKEY_ERROR@) .text(msg) .done(), None => page::REAUTH_PASSKEY_NO_ERROR@, },
        if show_password { page::REAUTH_USE_PASSWORD@ } else { page::REAUTH_PASSKEY_ONLY@ },
    ];
    assert(page::reauth_modal_content_html(ctx, has_totp, has_passkey, error, critical) =~= markup::filled(tpl, parts, 7).done()) by {
        reveal_with_fuel(markup::filled, 8);
    }
    markup::lemma_hole(
        tpl,
        holes,
        parts,
        0,
        "<div class=\"reauth-view\" data-reauth-view=\"passkey\""@,
        ">"@,
    );
    assert(tpl.subrange(470, 470) =~= Seq::<char>::empty());
    markup::lemma_hole(
        tpl,
        holes,
        parts,
        3,
        "hx-target=\"#reauth-modal-content\" hx-swap=\"innerHTML\">"@,
        Seq::<char>::empty(),
    );
    assert("hx-target=\"#reauth-modal-content\" hx-swap=\"innerHTML\">"@ + parts[3] + Seq::<char>::empty() =~= "hx-target=\"#reauth-modal-content\" hx-swap=\"innerHTML\">"@ + parts[3]);
    assert(tpl.subrange(470, 470) =~= Seq::<char>::empty());
    markup::lemma_hole(
        tpl,
        holes,
        parts,
        4,
        Seq::<char>::empty(),
        "<input type=\"hidden\" name=\"challenge_id\">"@,
    );
    assert(Seq::<char>::empty() + parts[4] + "<input type=\"hidden\" name=\"challenge_id\">"@ =~= parts[4] + "<input type=\"hidden\" name=\"challenge_id\">"@);
    markup::lemma_hole(
        tpl,
        holes,
        parts,
        5,
        "</form>"@,
        "<button type=\"button\" class=\"btn login-passkey-btn reauth-passkey-btn\" data-passkey-auth=\"/me/reauth/passkey/start\" data-passkey-form=\"form-reauth-passkey\">"@,
    );
    markup::lemma_hole(tpl, holes, parts, 6, "</button>"@, "</div>"@);
}

} // verus!
