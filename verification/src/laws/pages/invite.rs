//! What the pages about invitations show.

use vstd::prelude::*;
use crate::html;
use crate::laws::markup;
use crate::laws::pages::shell as around;
use crate::model::{InstanceRole, Timestamp, Uuid};
use crate::model;
use crate::toast;
use crate::views::icons::{CHECK_CIRCLE_ICON, CLOSE_ICON, SHIELD_ICON, USER_PLUS_ICON};
use crate::views::invite as page;
use crate::views::scripts::INVITE_COPY_JS;
use crate::views::shell::{ChromeContext, PageId};
use crate::views::shell;

verus! {

/// Where the holes of the template stand, and the texts around them.
proof fn lemma_error_banner() -> (at: (Seq<char>, Seq<int>))
    ensures
        at.0 == page::ERROR_BANNER@,
        at.1 == seq![46int],
        at.0.len() == 53,
        markup::holes_at(at.0, at.1),
        at.0.subrange(0, 46) == "<div class=\"banner banner-error\" role=\"alert\">"@,
        at.0.subrange(47, 53) == "</div>"@,
        "<div class=\"banner banner-error\" role=\"alert\">"@.len() == 46,
        "</div>"@.len() == 6,
{
    reveal_strlit("<div class=\"banner banner-error\" role=\"alert\">¤</div>");
    reveal_strlit("<div class=\"banner banner-error\" role=\"alert\">");
    reveal_strlit("</div>");
    let tpl = page::ERROR_BANNER@;
    let holes = seq![46int];
    assert(markup::hole_at(tpl, holes, 0));
    assert(tpl.subrange(0, 46) =~= "<div class=\"banner banner-error\" role=\"alert\">"@);
    assert(tpl.subrange(47, 53) =~= "</div>"@);
    (tpl, holes)
}

/// A refused invitation says why.
pub proof fn law_error_banner(error: Seq<char>)
    ensures
        ({
            let out = page::error_banner_html(error);
            let msg = toast::error_text(error);
            &&& markup::shows(
                out,
                "<div class=\"banner banner-error\" role=\"alert\">"@ + html::escaped(msg) + "</div>"@,
            )
        }),
{
    let msg = toast::error_text(error);
    let (tpl, holes) = lemma_error_banner();
    let parts = seq![html::escaped(msg)];
    assert(page::error_banner_html(error) == markup::filled(tpl, parts, 1).done()) by {
        reveal_with_fuel(markup::filled, 2);
    }
    markup::lemma_hole(
        tpl,
        holes,
        parts,
        0,
        "<div class=\"banner banner-error\" role=\"alert\">"@,
        "</div>"@,
    );
}

/// Where the holes of the template stand, and the texts around them.
proof fn lemma_invite_form_fields() -> (at: (Seq<char>, Seq<int>))
    ensures
        at.0 == page::INVITE_FORM_FIELDS@,
        at.1 == seq![31int, 92, 102, 134, 190],
        at.0.len() == 191,
        markup::holes_at(at.0, at.1),
        at.0.subrange(19, 31) == "<label for=\""@,
        at.0.subrange(32, 33) == "\""@,
        at.0.subrange(55, 92) == "<input type=\"email\" name=\"email\" id=\""@,
        at.0.subrange(93, 94) == "\""@,
        at.0.subrange(93, 102) == "\" value=\""@,
        at.0.subrange(103, 104) == "\""@,
        at.0.subrange(103, 134) == "\" autocomplete=\"email\" required"@,
        at.0.subrange(135, 136) == ">"@,
        at.0.subrange(142, 190) == "<input type=\"hidden\" name=\"role\" value=\"member\">"@,
        "<label for=\""@.len() == 12,
        "\""@.len() == 1,
        "<input type=\"email\" name=\"email\" id=\""@.len() == 37,
        "\" value=\""@.len() == 9,
        "\" autocomplete=\"email\" required"@.len() == 31,
        ">"@.len() == 1,
        "<input type=\"hidden\" name=\"role\" value=\"member\">"@.len() == 48,
{
    reveal_strlit("<div class=\"field\"><label for=\"¤\">Email address</label><input type=\"email\" name=\"email\" id=\"¤\" value=\"¤\" autocomplete=\"email\" required¤></div><input type=\"hidden\" name=\"role\" value=\"member\">¤");
    reveal_strlit("<label for=\"");
    reveal_strlit("\"");
    reveal_strlit("<input type=\"email\" name=\"email\" id=\"");
    reveal_strlit("\" value=\"");
    reveal_strlit("\" autocomplete=\"email\" required");
    reveal_strlit(">");
    reveal_strlit("<input type=\"hidden\" name=\"role\" value=\"member\">");
    let tpl = page::INVITE_FORM_FIELDS@;
    let holes = seq![31int, 92, 102, 134, 190];
    assert(markup::hole_at(tpl, holes, 0));
    assert(markup::hole_at(tpl, holes, 1));
    assert(markup::hole_at(tpl, holes, 2));
    assert(markup::hole_at(tpl, holes, 3));
    assert(markup::hole_at(tpl, holes, 4));
    assert(tpl.subrange(19, 31) =~= "<label for=\""@);
    assert(tpl.subrange(32, 33) =~= "\""@);
    assert(tpl.subrange(55, 92) =~= "<input type=\"email\" name=\"email\" id=\""@);
    assert(tpl.subrange(93, 94) =~= "\""@);
    assert(tpl.subrange(93, 102) =~= "\" value=\""@);
    assert(tpl.subrange(103, 104) =~= "\""@);
    assert(tpl.subrange(103, 134) =~= "\" autocomplete=\"email\" required"@);
    assert(tpl.subrange(135, 136) =~= ">"@);
    assert(tpl.subrange(142, 190) =~= "<input type=\"hidden\" name=\"role\" value=\"member\">"@);
    (tpl, holes)
}

/// The form of an invitation holds the email that was entered and the token of the session.
pub proof fn law_invite_form_fields(
    csrf_token: Seq<char>,
    prefill_email: Seq<char>,
    autofocus_email: bool,
    id_prefix: Seq<char>,
)
    ensures
        ({
            let out = page::invite_form_fields_html(csrf_token, prefill_email, autofocus_email, id_prefix);
            &&& markup::shows(
                out,
                "<label for=\""@ + (html::escaped("invite-email-"@ + id_prefix)) + "\""@,
            )
            &&& markup::shows(
                out,
                "<input type=\"email\" name=\"email\" id=\""@ + (html::escaped("invite-email-"@ + id_prefix)) + "\""@,
            )
            &&& markup::shows(out, "\" value=\""@ + html::escaped(prefill_email) + "\""@)
            &&& markup::shows(
                out,
                "\" autocomplete=\"email\" required"@ + html::when(autofocus_email, " autofocus"@) + ">"@,
            )
            &&& markup::shows(
                out,
                "<input type=\"hidden\" name=\"role\" value=\"member\">"@ + shell::csrf_input_html(csrf_token),
            )
        }),
{
    let (tpl, holes) = lemma_invite_form_fields();
    let parts = seq![
        html::escaped("invite-email-"@ + id_prefix),
        html::escaped("invite-email-"@ + id_prefix),
        html::escaped(prefill_email),
        html::when(autofocus_email, " autofocus"@),
        shell::csrf_input_html(csrf_token),
    ];
    assert(page::invite_form_fields_html(csrf_token, prefill_email, autofocus_email, id_prefix) == markup::filled(tpl, parts, 5).done()) by {
        reveal_with_fuel(markup::filled, 6);
    }
    markup::lemma_hole(tpl, holes, parts, 0, "<label for=\""@, "\""@);
    markup::lemma_hole(tpl, holes, parts, 1, "<input type=\"email\" name=\"email\" id=\""@, "\""@);
    markup::lemma_hole(tpl, holes, parts, 2, "\" value=\""@, "\""@);
    markup::lemma_hole(tpl, holes, parts, 3, "\" autocomplete=\"email\" required"@, ">"@);
    assert(tpl.subrange(191, 191) =~= Seq::<char>::empty());
    markup::lemma_hole(
        tpl,
        holes,
        parts,
        4,
        "<input type=\"hidden\" name=\"role\" value=\"member\">"@,
        Seq::<char>::empty(),
    );
    assert("<input type=\"hidden\" name=\"role\" value=\"member\">"@ + parts[4] + Seq::<char>::empty() =~= "<input type=\"hidden\" name=\"role\" value=\"member\">"@ + parts[4]);
}

/// Where the holes of the template stand, and the texts around them.
proof fn lemma_invite_modal_content_form() -> (at: (Seq<char>, Seq<int>))
    ensures
        at.0 == page::INVITE_MODAL_CONTENT_FORM@,
        at.1 == seq![70int, 157, 355, 424],
        at.0.len() == 658,
        markup::holes_at(at.0, at.1),
        at.0.subrange(351, 355) == "</p>"@,
        at.0.subrange(356, 424) == "<form id=\"form-invite-modal\" method=\"post\" action=\"/members/invite\">"@,
        at.0.subrange(385, 424) == "method=\"post\" action=\"/members/invite\">"@,
        at.0.subrange(425, 453) == "<div class=\"dialog-actions\">"@,
        "</p>"@.len() == 4,
        "<form id=\"form-invite-modal\" method=\"post\" action=\"/members/invite\">"@.len() == 68,
        "method=\"post\" action=\"/members/invite\">"@.len() == 39,
        "<div class=\"dialog-actions\">"@.len() == 28,
{
    reveal_strlit("<div class=\"dialog-header\"><div class=\"dialog-icon dialog-icon-brand\">¤</div><button type=\"button\" class=\"dialog-close\" data-close-dialog aria-label=\"Close\">¤</button></div><h2>Invite a member</h2><p class=\"dialog-description\">Add a member by email. They'll receive a one-time link to set up their account. You can change their role after they accept.</p>¤<form id=\"form-invite-modal\" method=\"post\" action=\"/members/invite\">¤<div class=\"dialog-actions\"><button type=\"button\" class=\"btn-secondary\" data-close-dialog>Cancel</button><button type=\"button\" class=\"btn\" data-reauth-confirm=\"form-invite-modal\" data-keep-source>Send invitation</button></div></form>");
    reveal_strlit("</p>");
    reveal_strlit("<form id=\"form-invite-modal\" method=\"post\" action=\"/members/invite\">");
    reveal_strlit("method=\"post\" action=\"/members/invite\">");
    reveal_strlit("<div class=\"dialog-actions\">");
    let tpl = page::INVITE_MODAL_CONTENT_FORM@;
    let holes = seq![70int, 157, 355, 424];
    assert(markup::hole_at(tpl, holes, 0));
    assert(markup::hole_at(tpl, holes, 1));
    assert(markup::hole_at(tpl, holes, 2));
    assert(markup::hole_at(tpl, holes, 3));
    assert(tpl.subrange(351, 355) =~= "</p>"@);
    assert(tpl.subrange(356, 424) =~= "<form id=\"form-invite-modal\" method=\"post\" action=\"/members/invite\">"@);
    assert(tpl.subrange(385, 424) =~= "method=\"post\" action=\"/members/invite\">"@);
    assert(tpl.subrange(425, 453) =~= "<div class=\"dialog-actions\">"@);
    (tpl, holes)
}

/// The dialog of an invitation shows its error and its fields.
pub proof fn law_invite_modal_content_form(
    ctx: &ChromeContext,
    prefill_email: Seq<char>,
    error: Option<Seq<char>>,
)
    ensures
        ({
            let out = page::invite_modal_content_form_html(ctx, prefill_email, error);
            &&& markup::shows(
                out,
                "</p>"@ + (match error { Some(code) => page::error_banner_html(code), None => Seq::empty(), }) + "<form id=\"form-invite-modal\" method=\"post\" action=\"/members/invite\">"@,
            )
            &&& markup::shows(
                out,
                "method=\"post\" action=\"/members/invite\">"@ + page::invite_form_fields_html(ctx.csrf_token@, prefill_email, false, "modal"@) + "<div class=\"dialog-actions\">"@,
            )
        }),
{
    let (tpl, holes) = lemma_invite_modal_content_form();
    let parts = seq![
        USER_PLUS_ICON@,
        CLOSE_ICON@,
        match error { Some(code) => page::error_banner_html(code), None => Seq::empty(), },
        page::invite_form_fields_html(ctx.csrf_token@, prefill_email, false, "modal"@),
    ];
    assert(page::invite_modal_content_form_html(ctx, prefill_email, error) == markup::filled(tpl, parts, 4).done()) by {
        reveal_with_fuel(markup::filled, 5);
    }
    markup::lemma_hole(
        tpl,
        holes,
        parts,
        2,
        "</p>"@,
        "<form id=\"form-invite-modal\" method=\"post\" action=\"/members/invite\">"@,
    );
    markup::lemma_hole(
        tpl,
        holes,
        parts,
        3,
        "method=\"post\" action=\"/members/invite\">"@,
        "<div class=\"dialog-actions\">"@,
    );
}

/// Where the holes of the template stand, and the texts around them.
proof fn lemma_invite_modal() -> (at: (Seq<char>, Seq<int>))
    ensures
        at.0 == page::INVITE_MODAL@,
        at.1 == seq![114int],
        at.0.len() == 130,
        markup::holes_at(at.0, at.1),
        at.0.subrange(83, 114) == "<div id=\"invite-modal-content\">"@,
        at.0.subrange(115, 121) == "</div>"@,
        "<div id=\"invite-modal-content\">"@.len() == 31,
        "</div>"@.len() == 6,
{
    reveal_strlit("<dialog id=\"dlg-invite\" class=\"action-dialog action-dialog-centered invite-dialog\"><div id=\"invite-modal-content\">¤</div></dialog>");
    reveal_strlit("<div id=\"invite-modal-content\">");
    reveal_strlit("</div>");
    let tpl = page::INVITE_MODAL@;
    let holes = seq![114int];
    assert(markup::hole_at(tpl, holes, 0));
    assert(tpl.subrange(83, 114) =~= "<div id=\"invite-modal-content\">"@);
    assert(tpl.subrange(115, 121) =~= "</div>"@);
    (tpl, holes)
}

/// The dialog of an invitation holds its form.
pub proof fn law_invite_modal(ctx: &ChromeContext)
    ensures
        ({
            let out = page::invite_modal_html(ctx);
            &&& markup::shows(
                out,
                "<div id=\"invite-modal-content\">"@ + page::invite_modal_content_form_html(ctx, ""@, None) + "</div>"@,
            )
        }),
{
    let (tpl, holes) = lemma_invite_modal();
    let parts = seq![page::invite_modal_content_form_html(ctx, ""@, None)];
    assert(page::invite_modal_html(ctx) == markup::filled(tpl, parts, 1).done()) by {
        reveal_with_fuel(markup::filled, 2);
    }
    markup::lemma_hole(tpl, holes, parts, 0, "<div id=\"invite-modal-content\">"@, "</div>"@);
}

/// Where the holes of the template stand, and the texts around them.
proof fn lemma_invite_modal_content_success() -> (at: (Seq<char>, Seq<int>))
    ensures
        at.0 == page::INVITE_MODAL_CONTENT_SUCCESS@,
        at.1 == seq![72int, 159, 245, 272, 275, 293, 616],
        at.0.len() == 833,
        markup::holes_at(at.0, at.1),
        at.0.subrange(237, 245) == "<strong>"@,
        at.0.subrange(246, 255) == "</strong>"@,
        at.0.subrange(259, 272) == "<span class=\""@,
        at.0.subrange(273, 274) == "\""@,
        at.0.subrange(273, 275) == "\">"@,
        at.0.subrange(276, 283) == "</span>"@,
        at.0.subrange(276, 293) == "</span>. Expires "@,
        at.0.subrange(294, 295) == "."@,
        at.0.subrange(562, 616) == "id=\"invite-url-modal\" class=\"invite-url-input\" value=\""@,
        at.0.subrange(617, 618) == "\""@,
        "<strong>"@.len() == 8,
        "</strong>"@.len() == 9,
        "<span class=\""@.len() == 13,
        "\""@.len() == 1,
        "\">"@.len() == 2,
        "</span>"@.len() == 7,
        "</span>. Expires "@.len() == 17,
        "."@.len() == 1,
        "id=\"invite-url-modal\" class=\"invite-url-input\" value=\""@.len() == 54,
{
    reveal_strlit("<div class=\"dialog-header\"><div class=\"dialog-icon dialog-icon-success\">¤</div><button type=\"button\" class=\"dialog-close\" data-close-dialog aria-label=\"Close\">¤</button></div><h2>Invitation sent</h2><p class=\"dialog-description\">Sent to <strong>¤</strong> as <span class=\"¤\">¤</span>. Expires ¤.</p><div class=\"invite-link-block\"><p class=\"invite-link-label\">Save or share this acceptance link. <strong>It is shown only once.</strong> A copy was also queued to the invitee's email if notifications are enabled.</p><div class=\"invite-link-row\"><input type=\"text\" id=\"invite-url-modal\" class=\"invite-url-input\" value=\"¤\" readonly><button type=\"button\" class=\"btn-secondary\" data-copy-target=\"invite-url-modal\">Copy</button></div></div><div class=\"dialog-actions\"><button type=\"button\" class=\"btn\" data-close-dialog>Close</button></div>");
    reveal_strlit("<strong>");
    reveal_strlit("</strong>");
    reveal_strlit("<span class=\"");
    reveal_strlit("\"");
    reveal_strlit("\">");
    reveal_strlit("</span>");
    reveal_strlit("</span>. Expires ");
    reveal_strlit(".");
    reveal_strlit("id=\"invite-url-modal\" class=\"invite-url-input\" value=\"");
    let tpl = page::INVITE_MODAL_CONTENT_SUCCESS@;
    let holes = seq![72int, 159, 245, 272, 275, 293, 616];
    assert(markup::hole_at(tpl, holes, 0));
    assert(markup::hole_at(tpl, holes, 1));
    assert(markup::hole_at(tpl, holes, 2));
    assert(markup::hole_at(tpl, holes, 3));
    assert(markup::hole_at(tpl, holes, 4));
    assert(markup::hole_at(tpl, holes, 5));
    assert(markup::hole_at(tpl, holes, 6));
    assert(tpl.subrange(237, 245) =~= "<strong>"@);
    assert(tpl.subrange(246, 255) =~= "</strong>"@);
    assert(tpl.subrange(259, 272) =~= "<span class=\""@);
    assert(tpl.subrange(273, 274) =~= "\""@);
    assert(tpl.subrange(273, 275) =~= "\">"@);
    assert(tpl.subrange(276, 283) =~= "</span>"@);
    assert(tpl.subrange(276, 293) =~= "</span>. Expires "@);
    assert(tpl.subrange(294, 295) =~= "."@);
    assert(tpl.subrange(562, 616) =~= "id=\"invite-url-modal\" class=\"invite-url-input\" value=\""@);
    assert(tpl.subrange(617, 618) =~= "\""@);
    (tpl, holes)
}

/// A sent invitation shows whom it is for, as what, its address and when it ends.
pub proof fn law_invite_modal_content_success(
    invitee_email: Seq<char>,
    invited_role: InstanceRole,
    accept_url: Seq<char>,
    expires_at: &Timestamp,
)
    ensures
        ({
            let out = page::invite_modal_content_success_html(invitee_email, invited_role, accept_url, expires_at);
            &&& markup::shows(out, "<strong>"@ + html::escaped(invitee_email) + "</strong>"@)
            &&& markup::shows(
                out,
                "<span class=\""@ + html::escaped(shell::role_class_text(invited_role)) + "\""@,
            )
            &&& markup::shows(
                out,
                "\">"@ + html::escaped(shell::role_label_text(invited_role)) + "</span>"@,
            )
            &&& markup::shows(
                out,
                "</span>. Expires "@ + html::escaped(model::date_text(expires_at@, model::SHORT_MINUTE@)) + "."@,
            )
            &&& markup::shows(
                out,
                "id=\"invite-url-modal\" class=\"invite-url-input\" value=\""@ + html::escaped(accept_url) + "\""@,
            )
        }),
{
    let (tpl, holes) = lemma_invite_modal_content_success();
    let parts = seq![
        CHECK_CIRCLE_ICON@,
        CLOSE_ICON@,
        html::escaped(invitee_email),
        html::escaped(shell::role_class_text(invited_role)),
        html::escaped(shell::role_label_text(invited_role)),
        html::escaped(model::date_text(expires_at@, model::SHORT_MINUTE@)),
        html::escaped(accept_url),
    ];
    assert(page::invite_modal_content_success_html(invitee_email, invited_role, accept_url, expires_at) == markup::filled(tpl, parts, 7).done()) by {
        reveal_with_fuel(markup::filled, 8);
    }
    markup::lemma_hole(tpl, holes, parts, 2, "<strong>"@, "</strong>"@);
    markup::lemma_hole(tpl, holes, parts, 3, "<span class=\""@, "\""@);
    markup::lemma_hole(tpl, holes, parts, 4, "\">"@, "</span>"@);
    markup::lemma_hole(tpl, holes, parts, 5, "</span>. Expires "@, "."@);
    markup::lemma_hole(
        tpl,
        holes,
        parts,
        6,
        "id=\"invite-url-modal\" class=\"invite-url-input\" value=\""@,
        "\""@,
    );
}

/// Where the holes of the template stand, and the texts around them.
proof fn lemma_reissue_invite_dialog() -> (at: (Seq<char>, Seq<int>))
    ensures
        at.0 == page::REISSUE_INVITE_DIALOG@,
        at.1 == seq![31int, 109, 155, 237, 324, 451, 602, 783],
        at.0.len() == 824,
        markup::holes_at(at.0, at.1),
        at.0.subrange(0, 31) == "<dialog id=\"dlg-reissue-invite-"@,
        at.0.subrange(32, 33) == "\""@,
        at.0.subrange(79, 109) == "<form id=\"form-reissue-invite-"@,
        at.0.subrange(110, 111) == "\""@,
        at.0.subrange(110, 155) == "\" method=\"post\" action=\"/members/invitations/"@,
        at.0.subrange(156, 165) == "/reissue\""@,
        at.0.subrange(443, 451) == "<strong>"@,
        at.0.subrange(452, 461) == "</strong>"@,
        at.0.subrange(598, 602) == "</p>"@,
        at.0.subrange(603, 631) == "<div class=\"dialog-actions\">"@,
        at.0.subrange(730, 783) == "class=\"btn\" data-reauth-confirm=\"form-reissue-invite-"@,
        at.0.subrange(784, 785) == "\""@,
        "<dialog id=\"dlg-reissue-invite-"@.len() == 31,
        "\""@.len() == 1,
        "<form id=\"form-reissue-invite-"@.len() == 30,
        "\" method=\"post\" action=\"/members/invitations/"@.len() == 45,
        "/reissue\""@.len() == 9,
        "<strong>"@.len() == 8,
        "</strong>"@.len() == 9,
        "</p>"@.len() == 4,
        "<div class=\"dialog-actions\">"@.len() == 28,
        "class=\"btn\" data-reauth-confirm=\"form-reissue-invite-"@.len() == 53,
{
    reveal_strlit("<dialog id=\"dlg-reissue-invite-¤\" class=\"action-dialog action-dialog-centered\"><form id=\"form-reissue-invite-¤\" method=\"post\" action=\"/members/invitations/¤/reissue\"><div class=\"dialog-header\"><div class=\"dialog-icon dialog-icon-shield\">¤</div><button type=\"button\" class=\"dialog-close\" data-close-dialog aria-label=\"Close\">¤</button></div><h2>Reissue invitation?</h2><p class=\"dialog-description\">A fresh acceptance URL will be generated for <strong>¤</strong>. The previous URL stops working immediately. The new URL is shown to you once (and emailed to the invitee if notifications are enabled).</p>¤<div class=\"dialog-actions\"><button type=\"button\" class=\"btn-secondary\" data-close-dialog>Cancel</button><button type=\"button\" class=\"btn\" data-reauth-confirm=\"form-reissue-invite-¤\">Reissue</button></div></form></dialog>");
    reveal_strlit("<dialog id=\"dlg-reissue-invite-");
    reveal_strlit("\"");
    reveal_strlit("<form id=\"form-reissue-invite-");
    reveal_strlit("\" method=\"post\" action=\"/members/invitations/");
    reveal_strlit("/reissue\"");
    reveal_strlit("<strong>");
    reveal_strlit("</strong>");
    reveal_strlit("</p>");
    reveal_strlit("<div class=\"dialog-actions\">");
    reveal_strlit("class=\"btn\" data-reauth-confirm=\"form-reissue-invite-");
    let tpl = page::REISSUE_INVITE_DIALOG@;
    let holes = seq![31int, 109, 155, 237, 324, 451, 602, 783];
    assert(markup::hole_at(tpl, holes, 0));
    assert(markup::hole_at(tpl, holes, 1));
    assert(markup::hole_at(tpl, holes, 2));
    assert(markup::hole_at(tpl, holes, 3));
    assert(markup::hole_at(tpl, holes, 4));
    assert(markup::hole_at(tpl, holes, 5));
    assert(markup::hole_at(tpl, holes, 6));
    assert(markup::hole_at(tpl, holes, 7));
    assert(tpl.subrange(0, 31) =~= "<dialog id=\"dlg-reissue-invite-"@);
    assert(tpl.subrange(32, 33) =~= "\""@);
    assert(tpl.subrange(79, 109) =~= "<form id=\"form-reissue-invite-"@);
    assert(tpl.subrange(110, 111) =~= "\""@);
    assert(tpl.subrange(110, 155) =~= "\" method=\"post\" action=\"/members/invitations/"@);
    assert(tpl.subrange(156, 165) =~= "/reissue\""@);
    assert(tpl.subrange(443, 451) =~= "<strong>"@);
    assert(tpl.subrange(452, 461) =~= "</strong>"@);
    assert(tpl.subrange(598, 602) =~= "</p>"@);
    assert(tpl.subrange(603, 631) =~= "<div class=\"dialog-actions\">"@);
    assert(tpl.subrange(730, 783) =~= "class=\"btn\" data-reauth-confirm=\"form-reissue-invite-"@);
    assert(tpl.subrange(784, 785) =~= "\""@);
    (tpl, holes)
}

/// The dialog that renews an invitation names whom it is for, and its form goes to that very
/// invitation.
pub proof fn law_reissue_invite_dialog(id: Uuid, email: Seq<char>, csrf_token: Seq<char>)
    ensures
        ({
            let out = page::reissue_invite_dialog_html(id, email, csrf_token);
            &&& markup::shows(
                out,
                "<dialog id=\"dlg-reissue-invite-"@ + html::escaped(model::uuid_text(id)) + "\""@,
            )
            &&& markup::shows(
                out,
                "<form id=\"form-reissue-invite-"@ + html::escaped(model::uuid_text(id)) + "\""@,
            )
            &&& markup::shows(
                out,
                "\" method=\"post\" action=\"/members/invitations/"@ + html::escaped(model::uuid_text(id)) + "/reissue\""@,
            )
            &&& markup::shows(out, "<strong>"@ + html::escaped(email) + "</strong>"@)
            &&& markup::shows(
                out,
                "</p>"@ + shell::csrf_input_html(csrf_token) + "<div class=\"dialog-actions\">"@,
            )
            &&& markup::shows(
                out,
                "class=\"btn\" data-reauth-confirm=\"form-reissue-invite-"@ + html::escaped(model::uuid_text(id)) + "\""@,
            )
        }),
{
    let (tpl, holes) = lemma_reissue_invite_dialog();
    let parts = seq![
        html::escaped(model::uuid_text(id)),
        html::escaped(model::uuid_text(id)),
        html::escaped(model::uuid_text(id)),
        SHIELD_ICON@,
        CLOSE_ICON@,
        html::escaped(email),
        shell::csrf_input_html(csrf_token),
        html::escaped(model::uuid_text(id)),
    ];
    assert(page::reissue_invite_dialog_html(id, email, csrf_token) == markup::filled(tpl, parts, 8).done()) by {
        reveal_with_fuel(markup::filled, 9);
    }
    markup::lemma_hole(tpl, holes, parts, 0, "<dialog id=\"dlg-reissue-invite-"@, "\""@);
    markup::lemma_hole(tpl, holes, parts, 1, "<form id=\"form-reissue-invite-"@, "\""@);
    markup::lemma_hole(
        tpl,
        holes,
        parts,
        2,
        "\" method=\"post\" action=\"/members/invitations/"@,
        "/reissue\""@,
    );
    markup::lemma_hole(tpl, holes, parts, 5, "<strong>"@, "</strong>"@);
    markup::lemma_hole(tpl, holes, parts, 6, "</p>"@, "<div class=\"dialog-actions\">"@);
    markup::lemma_hole(
        tpl,
        holes,
        parts,
        7,
        "class=\"btn\" data-reauth-confirm=\"form-reissue-invite-"@,
        "\""@,
    );
}

/// Where the holes of the template stand, and the texts around them.
proof fn lemma_reissue_modal_content_success() -> (at: (Seq<char>, Seq<int>))
    ensures
        at.0 == page::REISSUE_MODAL_CONTENT_SUCCESS@,
        at.1 == seq![72int, 159, 285, 312, 315, 375, 698],
        at.0.len() == 915,
        markup::holes_at(at.0, at.1),
        at.0.subrange(277, 285) == "<strong>"@,
        at.0.subrange(286, 295) == "</strong>"@,
        at.0.subrange(299, 312) == "<span class=\""@,
        at.0.subrange(313, 314) == "\""@,
        at.0.subrange(313, 315) == "\">"@,
        at.0.subrange(316, 323) == "</span>"@,
        at.0.subrange(325, 375) == "The previous URL no longer works. New URL expires "@,
        at.0.subrange(376, 377) == "."@,
        at.0.subrange(644, 698) == "id=\"invite-url-modal\" class=\"invite-url-input\" value=\""@,
        at.0.subrange(699, 700) == "\""@,
        "<strong>"@.len() == 8,
        "</strong>"@.len() == 9,
        "<span class=\""@.len() == 13,
        "\""@.len() == 1,
        "\">"@.len() == 2,
        "</span>"@.len() == 7,
        "The previous URL no longer works. New URL expires "@.len() == 50,
        "."@.len() == 1,
        "id=\"invite-url-modal\" class=\"invite-url-input\" value=\""@.len() == 54,
{
    reveal_strlit("<div class=\"dialog-header\"><div class=\"dialog-icon dialog-icon-success\">¤</div><button type=\"button\" class=\"dialog-close\" data-close-dialog aria-label=\"Close\">¤</button></div><h2>Invitation reissued</h2><p class=\"dialog-description\">A new acceptance URL has been generated for <strong>¤</strong> as <span class=\"¤\">¤</span>. The previous URL no longer works. New URL expires ¤.</p><div class=\"invite-link-block\"><p class=\"invite-link-label\">Save or share this acceptance link. <strong>It is shown only once.</strong> A copy was also queued to the invitee's email if notifications are enabled.</p><div class=\"invite-link-row\"><input type=\"text\" id=\"invite-url-modal\" class=\"invite-url-input\" value=\"¤\" readonly><button type=\"button\" class=\"btn-secondary\" data-copy-target=\"invite-url-modal\">Copy</button></div></div><div class=\"dialog-actions\"><button type=\"button\" class=\"btn\" data-close-dialog>Close</button></div>");
    reveal_strlit("<strong>");
    reveal_strlit("</strong>");
    reveal_strlit("<span class=\"");
    reveal_strlit("\"");
    reveal_strlit("\">");
    reveal_strlit("</span>");
    reveal_strlit("The previous URL no longer works. New URL expires ");
    reveal_strlit(".");
    reveal_strlit("id=\"invite-url-modal\" class=\"invite-url-input\" value=\"");
    let tpl = page::REISSUE_MODAL_CONTENT_SUCCESS@;
    let holes = seq![72int, 159, 285, 312, 315, 375, 698];
    assert(markup::hole_at(tpl, holes, 0));
    assert(markup::hole_at(tpl, holes, 1));
    assert(markup::hole_at(tpl, holes, 2));
    assert(markup::hole_at(tpl, holes, 3));
    assert(markup::hole_at(tpl, holes, 4));
    assert(markup::hole_at(tpl, holes, 5));
    assert(markup::hole_at(tpl, holes, 6));
    assert(tpl.subrange(277, 285) =~= "<strong>"@);
    assert(tpl.subrange(286, 295) =~= "</strong>"@);
    assert(tpl.subrange(299, 312) =~= "<span class=\""@);
    assert(tpl.subrange(313, 314) =~= "\""@);
    assert(tpl.subrange(313, 315) =~= "\">"@);
    assert(tpl.subrange(316, 323) =~= "</span>"@);
    assert(tpl.subrange(325, 375) =~= "The previous URL no longer works. New URL expires "@);
    assert(tpl.subrange(376, 377) =~= "."@);
    assert(tpl.subrange(644, 698) =~= "id=\"invite-url-modal\" class=\"invite-url-input\" value=\""@);
    assert(tpl.subrange(699, 700) =~= "\""@);
    (tpl, holes)
}

/// A renewed invitation shows whom it is for, as what, its address and when it ends.
pub proof fn law_reissue_modal_content_success(
    invitee_email: Seq<char>,
    invited_role: InstanceRole,
    accept_url: Seq<char>,
    expires_at: &Timestamp,
)
    ensures
        ({
            let out = page::reissue_modal_content_success_html(invitee_email, invited_role, accept_url, expires_at);
            &&& markup::shows(out, "<strong>"@ + html::escaped(invitee_email) + "</strong>"@)
            &&& markup::shows(
                out,
                "<span class=\""@ + html::escaped(shell::role_class_text(invited_role)) + "\""@,
            )
            &&& markup::shows(
                out,
                "\">"@ + html::escaped(shell::role_label_text(invited_role)) + "</span>"@,
            )
            &&& markup::shows(
                out,
                "The previous URL no longer works. New URL expires "@ + html::escaped(model::date_text(expires_at@, model::SHORT_MINUTE@)) + "."@,
            )
            &&& markup::shows(
                out,
                "id=\"invite-url-modal\" class=\"invite-url-input\" value=\""@ + html::escaped(accept_url) + "\""@,
            )
        }),
{
    let (tpl, holes) = lemma_reissue_modal_content_success();
    let parts = seq![
        CHECK_CIRCLE_ICON@,
        CLOSE_ICON@,
        html::escaped(invitee_email),
        html::escaped(shell::role_class_text(invited_role)),
        html::escaped(shell::role_label_text(invited_role)),
        html::escaped(model::date_text(expires_at@, model::SHORT_MINUTE@)),
        html::escaped(accept_url),
    ];
    assert(page::reissue_modal_content_success_html(invitee_email, invited_role, accept_url, expires_at) == markup::filled(tpl, parts, 7).done()) by {
        reveal_with_fuel(markup::filled, 8);
    }
    markup::lemma_hole(tpl, holes, parts, 2, "<strong>"@, "</strong>"@);
    markup::lemma_hole(tpl, holes, parts, 3, "<span class=\""@, "\""@);
    markup::lemma_hole(tpl, holes, parts, 4, "\">"@, "</span>"@);
    markup::lemma_hole(
        tpl,
        holes,
        parts,
        5,
        "The previous URL no longer works. New URL expires "@,
        "."@,
    );
    markup::lemma_hole(
        tpl,
        holes,
        parts,
        6,
        "id=\"invite-url-modal\" class=\"invite-url-input\" value=\""@,
        "\""@,
    );
}

/// Where the holes of the template stand, and the texts around them.
proof fn lemma_revoke_invite_dialog() -> (at: (Seq<char>, Seq<int>))
    ensures
        at.0 == page::REVOKE_INVITE_DIALOG@,
        at.1 == seq![30int, 107, 153, 235, 322, 430, 564, 751],
        at.0.len() == 798,
        markup::holes_at(at.0, at.1),
        at.0.subrange(0, 30) == "<dialog id=\"dlg-revoke-invite-"@,
        at.0.subrange(31, 32) == "\""@,
        at.0.subrange(78, 107) == "<form id=\"form-revoke-invite-"@,
        at.0.subrange(108, 109) == "\""@,
        at.0.subrange(108, 153) == "\" method=\"post\" action=\"/members/invitations/"@,
        at.0.subrange(154, 162) == "/revoke\""@,
        at.0.subrange(422, 430) == "<strong>"@,
        at.0.subrange(431, 440) == "</strong>"@,
        at.0.subrange(560, 564) == "</p>"@,
        at.0.subrange(565, 593) == "<div class=\"dialog-actions\">"@,
        at.0.subrange(711, 751) == "data-reauth-confirm=\"form-revoke-invite-"@,
        at.0.subrange(752, 753) == "\""@,
        "<dialog id=\"dlg-revoke-invite-"@.len() == 30,
        "\""@.len() == 1,
        "<form id=\"form-revoke-invite-"@.len() == 29,
        "\" method=\"post\" action=\"/members/invitations/"@.len() == 45,
        "/revoke\""@.len() == 8,
        "<strong>"@.len() == 8,
        "</strong>"@.len() == 9,
        "</p>"@.len() == 4,
        "<div class=\"dialog-actions\">"@.len() == 28,
        "data-reauth-confirm=\"form-revoke-invite-"@.len() == 40,
{
    reveal_strlit("<dialog id=\"dlg-revoke-invite-¤\" class=\"action-dialog action-dialog-centered\"><form id=\"form-revoke-invite-¤\" method=\"post\" action=\"/members/invitations/¤/revoke\"><div class=\"dialog-header\"><div class=\"dialog-icon dialog-icon-warning\">¤</div><button type=\"button\" class=\"dialog-close\" data-close-dialog aria-label=\"Close\">¤</button></div><h2>Revoke invitation?</h2><p class=\"dialog-description\">The pending invitation for <strong>¤</strong> will stop working. They won't be able to use the acceptance link they received. You can send a new invitation any time.</p>¤<div class=\"dialog-actions\"><button type=\"button\" class=\"btn-secondary\" data-close-dialog>Cancel</button><button type=\"button\" class=\"btn-danger\" data-reauth-confirm=\"form-revoke-invite-¤\">Revoke invite</button></div></form></dialog>");
    reveal_strlit("<dialog id=\"dlg-revoke-invite-");
    reveal_strlit("\"");
    reveal_strlit("<form id=\"form-revoke-invite-");
    reveal_strlit("\" method=\"post\" action=\"/members/invitations/");
    reveal_strlit("/revoke\"");
    reveal_strlit("<strong>");
    reveal_strlit("</strong>");
    reveal_strlit("</p>");
    reveal_strlit("<div class=\"dialog-actions\">");
    reveal_strlit("data-reauth-confirm=\"form-revoke-invite-");
    let tpl = page::REVOKE_INVITE_DIALOG@;
    let holes = seq![30int, 107, 153, 235, 322, 430, 564, 751];
    assert(markup::hole_at(tpl, holes, 0));
    assert(markup::hole_at(tpl, holes, 1));
    assert(markup::hole_at(tpl, holes, 2));
    assert(markup::hole_at(tpl, holes, 3));
    assert(markup::hole_at(tpl, holes, 4));
    assert(markup::hole_at(tpl, holes, 5));
    assert(markup::hole_at(tpl, holes, 6));
    assert(markup::hole_at(tpl, holes, 7));
    assert(tpl.subrange(0, 30) =~= "<dialog id=\"dlg-revoke-invite-"@);
    assert(tpl.subrange(31, 32) =~= "\""@);
    assert(tpl.subrange(78, 107) =~= "<form id=\"form-revoke-invite-"@);
    assert(tpl.subrange(108, 109) =~= "\""@);
    assert(tpl.subrange(108, 153) =~= "\" method=\"post\" action=\"/members/invitations/"@);
    assert(tpl.subrange(154, 162) =~= "/revoke\""@);
    assert(tpl.subrange(422, 430) =~= "<strong>"@);
    assert(tpl.subrange(431, 440) =~= "</strong>"@);
    assert(tpl.subrange(560, 564) =~= "</p>"@);
    assert(tpl.subrange(565, 593) =~= "<div class=\"dialog-actions\">"@);
    assert(tpl.subrange(711, 751) =~= "data-reauth-confirm=\"form-revoke-invite-"@);
    assert(tpl.subrange(752, 753) =~= "\""@);
    (tpl, holes)
}

/// The dialog that revokes an invitation names whom it is for, and its form goes to that very
/// invitation.
pub proof fn law_revoke_invite_dialog(id: Uuid, email: Seq<char>, csrf_token: Seq<char>)
    ensures
        ({
            let out = page::revoke_invite_dialog_html(id, email, csrf_token);
            &&& markup::shows(
                out,
                "<dialog id=\"dlg-revoke-invite-"@ + html::escaped(model::uuid_text(id)) + "\""@,
            )
            &&& markup::shows(
                out,
                "<form id=\"form-revoke-invite-"@ + html::escaped(model::uuid_text(id)) + "\""@,
            )
            &&& markup::shows(
                out,
                "\" method=\"post\" action=\"/members/invitations/"@ + html::escaped(model::uuid_text(id)) + "/revoke\""@,
            )
            &&& markup::shows(out, "<strong>"@ + html::escaped(email) + "</strong>"@)
            &&& markup::shows(
                out,
                "</p>"@ + shell::csrf_input_html(csrf_token) + "<div class=\"dialog-actions\">"@,
            )
            &&& markup::shows(
                out,
                "data-reauth-confirm=\"form-revoke-invite-"@ + html::escaped(model::uuid_text(id)) + "\""@,
            )
        }),
{
    let (tpl, holes) = lemma_revoke_invite_dialog();
    let parts = seq![
        html::escaped(model::uuid_text(id)),
        html::escaped(model::uuid_text(id)),
        html::escaped(model::uuid_text(id)),
        SHIELD_ICON@,
        CLOSE_ICON@,
        html::escaped(email),
        shell::csrf_input_html(csrf_token),
        html::escaped(model::uuid_text(id)),
    ];
    assert(page::revoke_invite_dialog_html(id, email, csrf_token) == markup::filled(tpl, parts, 8).done()) by {
        reveal_with_fuel(markup::filled, 9);
    }
    markup::lemma_hole(tpl, holes, parts, 0, "<dialog id=\"dlg-revoke-invite-"@, "\""@);
    markup::lemma_hole(tpl, holes, parts, 1, "<form id=\"form-revoke-invite-"@, "\""@);
    markup::lemma_hole(
        tpl,
        holes,
        parts,
        2,
        "\" method=\"post\" action=\"/members/invitations/"@,
        "/revoke\""@,
    );
    markup::lemma_hole(tpl, holes, parts, 5, "<strong>"@, "</strong>"@);
    markup::lemma_hole(tpl, holes, parts, 6, "</p>"@, "<div class=\"dialog-actions\">"@);
    markup::lemma_hole(tpl, holes, parts, 7, "data-reauth-confirm=\"form-revoke-invite-"@, "\""@);
}

/// Where the holes of the template stand, and the texts around them.
proof fn lemma_members_invite_form_page() -> (at: (Seq<char>, Seq<int>))
    ensures
        at.0 == page::MEMBERS_INVITE_FORM_PAGE@,
        at.1 == seq![0int, 270],
        at.0.len() == 432,
        markup::holes_at(at.0, at.1),
        at.0.subrange(1, 31) == "<div class=\"card invite-card\">"@,
        at.0.subrange(266, 270) == "</p>"@,
        at.0.subrange(271, 304) == "<div class=\"invite-form-actions\">"@,
        "<div class=\"card invite-card\">"@.len() == 30,
        "</p>"@.len() == 4,
        "<div class=\"invite-form-actions\">"@.len() == 33,
{
    reveal_strlit("¤<div class=\"card invite-card\"><form method=\"post\" action=\"/members/invite\" class=\"invite-form\"><p class=\"invite-intro\">Sends a one-time acceptance link to the email below. The link expires in 7 days. The invitee chooses a display name and password when they accept.</p>¤<div class=\"invite-form-actions\"><a class=\"btn-secondary\" href=\"/members\">Cancel</a><button type=\"submit\" class=\"btn\">Send invitation</button></div></form></div>");
    reveal_strlit("<div class=\"card invite-card\">");
    reveal_strlit("</p>");
    reveal_strlit("<div class=\"invite-form-actions\">");
    let tpl = page::MEMBERS_INVITE_FORM_PAGE@;
    let holes = seq![0int, 270];
    assert(markup::hole_at(tpl, holes, 0));
    assert(markup::hole_at(tpl, holes, 1));
    assert(tpl.subrange(1, 31) =~= "<div class=\"card invite-card\">"@);
    assert(tpl.subrange(266, 270) =~= "</p>"@);
    assert(tpl.subrange(271, 304) =~= "<div class=\"invite-form-actions\">"@);
    (tpl, holes)
}

/// The page of an invitation shows its error and its form.
pub proof fn law_members_invite_form_page(
    ctx: &ChromeContext,
    prefill_email: Seq<char>,
    error: Option<Seq<char>>,
)
    ensures
        ({
            let out = page::members_invite_form_page_html(ctx, prefill_email, error);
            &&& markup::shows(out, "<title>"@ + html::escaped("Invite member"@) + " · "@)
            &&& markup::shows(
                out,
                (match error { Some(code) => page::error_banner_html(code), None => Seq::empty(), }) + "<div class=\"card invite-card\">"@,
            )
            &&& markup::shows(
                out,
                "</p>"@ + page::invite_form_fields_html(ctx.csrf_token@, prefill_email, true, "page"@) + "<div class=\"invite-form-actions\">"@,
            )
        }),
{
    let (tpl, holes) = lemma_members_invite_form_page();
    let parts = seq![
        match error { Some(code) => page::error_banner_html(code), None => Seq::empty(), },
        page::invite_form_fields_html(ctx.csrf_token@, prefill_email, true, "page"@),
    ];
    let content = markup::filled(tpl, parts, 2).done();
    let out = page::members_invite_form_page_html(ctx, prefill_email, error);
    assert(out == shell::shell_app_html(ctx, "Invite member"@, PageId::Members, content)) by {
        reveal_with_fuel(markup::filled, 3);
    }
    around::lemma_app_content(ctx, "Invite member"@, PageId::Members, content, false);
    assert(tpl.subrange(0, 0) =~= Seq::<char>::empty());
    markup::lemma_hole(
        tpl,
        holes,
        parts,
        0,
        Seq::<char>::empty(),
        "<div class=\"card invite-card\">"@,
    );
    assert(Seq::<char>::empty() + parts[0] + "<div class=\"card invite-card\">"@ =~= parts[0] + "<div class=\"card invite-card\">"@);
    markup::lemma_shows_inner(
        out,
        content,
        (match error { Some(code) => page::error_banner_html(code), None => Seq::empty(), }) + "<div class=\"card invite-card\">"@,
    );
    markup::lemma_hole(tpl, holes, parts, 1, "</p>"@, "<div class=\"invite-form-actions\">"@);
    markup::lemma_shows_inner(
        out,
        content,
        "</p>"@ + page::invite_form_fields_html(ctx.csrf_token@, prefill_email, true, "page"@) + "<div class=\"invite-form-actions\">"@,
    );
}

/// Where the holes of the template stand, and the texts around them.
proof fn lemma_members_invite_result_page() -> (at: (Seq<char>, Seq<int>))
    ensures
        at.0 == page::MEMBERS_INVITE_RESULT_PAGE@,
        at.1 == seq![119int, 136, 139, 158, 479, 692],
        at.0.len() == 702,
        markup::holes_at(at.0, at.1),
        at.0.subrange(95, 119) == "<p class=\"invite-intro\">"@,
        at.0.subrange(120, 123) == " · "@,
        at.0.subrange(123, 136) == "<span class=\""@,
        at.0.subrange(137, 138) == "\""@,
        at.0.subrange(137, 139) == "\">"@,
        at.0.subrange(140, 147) == "</span>"@,
        at.0.subrange(140, 158) == "</span> · expires "@,
        at.0.subrange(159, 163) == "</p>"@,
        at.0.subrange(431, 479) == "id=\"invite-url\" class=\"invite-url-input\" value=\""@,
        at.0.subrange(480, 481) == "\""@,
        "<p class=\"invite-intro\">"@.len() == 24,
        " · "@.len() == 3,
        "<span class=\""@.len() == 13,
        "\""@.len() == 1,
        "\">"@.len() == 2,
        "</span>"@.len() == 7,
        "</span> · expires "@.len() == 18,
        "</p>"@.len() == 4,
        "id=\"invite-url\" class=\"invite-url-input\" value=\""@.len() == 48,
{
    reveal_strlit("<div class=\"card invite-result-card\"><div class=\"invite-result-header\"><h2>Invitation sent</h2><p class=\"invite-intro\">¤ · <span class=\"¤\">¤</span> · expires ¤</p></div><div class=\"invite-link-block\"><p class=\"invite-link-label\">Save or share this acceptance link. <strong>It is shown only once.</strong> A copy is also queued to the invitee's email if notifications are enabled.</p><div class=\"invite-link-row\"><input type=\"text\" id=\"invite-url\" class=\"invite-url-input\" value=\"¤\" readonly><button type=\"button\" class=\"btn-secondary\" data-copy-target=\"invite-url\">Copy</button></div></div><div class=\"invite-form-actions\"><a class=\"btn-secondary\" href=\"/members\">Done</a></div></div><script>¤</script>");
    reveal_strlit("<p class=\"invite-intro\">");
    reveal_strlit(" · ");
    reveal_strlit("<span class=\"");
    reveal_strlit("\"");
    reveal_strlit("\">");
    reveal_strlit("</span>");
    reveal_strlit("</span> · expires ");
    reveal_strlit("</p>");
    reveal_strlit("id=\"invite-url\" class=\"invite-url-input\" value=\"");
    let tpl = page::MEMBERS_INVITE_RESULT_PAGE@;
    let holes = seq![119int, 136, 139, 158, 479, 692];
    assert(markup::hole_at(tpl, holes, 0));
    assert(markup::hole_at(tpl, holes, 1));
    assert(markup::hole_at(tpl, holes, 2));
    assert(markup::hole_at(tpl, holes, 3));
    assert(markup::hole_at(tpl, holes, 4));
    assert(markup::hole_at(tpl, holes, 5));
    assert(tpl.subrange(95, 119) =~= "<p class=\"invite-intro\">"@);
    assert(tpl.subrange(120, 123) =~= " · "@);
    assert(tpl.subrange(123, 136) =~= "<span class=\""@);
    assert(tpl.subrange(137, 138) =~= "\""@);
    assert(tpl.subrange(137, 139) =~= "\">"@);
    assert(tpl.subrange(140, 147) =~= "</span>"@);
    assert(tpl.subrange(140, 158) =~= "</span> · expires "@);
    assert(tpl.subrange(159, 163) =~= "</p>"@);
    assert(tpl.subrange(431, 479) =~= "id=\"invite-url\" class=\"invite-url-input\" value=\""@);
    assert(tpl.subrange(480, 481) =~= "\""@);
    (tpl, holes)
}

/// The page of a sent invitation shows whom it is for, as what, its address and when it ends.
pub proof fn law_members_invite_result_page(
    ctx: &ChromeContext,
    invitee_email: Seq<char>,
    invited_role: InstanceRole,
    accept_url: Seq<char>,
    expires_at: &Timestamp,
)
    ensures
        ({
            let out = page::members_invite_result_page_html(ctx, invitee_email, invited_role, accept_url, expires_at);
            &&& markup::shows(out, "<title>"@ + html::escaped("Invitation sent"@) + " · "@)
            &&& markup::shows(
                out,
                "<p class=\"invite-intro\">"@ + html::escaped(invitee_email) + " · "@,
            )
            &&& markup::shows(
                out,
                "<span class=\""@ + html::escaped(shell::role_class_text(invited_role)) + "\""@,
            )
            &&& markup::shows(
                out,
                "\">"@ + html::escaped(shell::role_label_text(invited_role)) + "</span>"@,
            )
            &&& markup::shows(
                out,
                "</span> · expires "@ + html::escaped(model::date_text(expires_at@, model::MINUTE@)) + "</p>"@,
            )
            &&& markup::shows(
                out,
                "id=\"invite-url\" class=\"invite-url-input\" value=\""@ + html::escaped(accept_url) + "\""@,
            )
        }),
{
    let (tpl, holes) = lemma_members_invite_result_page();
    let parts = seq![
        html::escaped(invitee_email),
        html::escaped(shell::role_class_text(invited_role)),
        html::escaped(shell::role_label_text(invited_role)),
        html::escaped(model::date_text(expires_at@, model::MINUTE@)),
        html::escaped(accept_url),
        INVITE_COPY_JS@,
    ];
    let content = markup::filled(tpl, parts, 6).done();
    let out = page::members_invite_result_page_html(ctx, invitee_email, invited_role, accept_url, expires_at);
    assert(out == shell::shell_app_html(ctx, "Invitation sent"@, PageId::Members, content)) by {
        reveal_with_fuel(markup::filled, 7);
    }
    around::lemma_app_content(ctx, "Invitation sent"@, PageId::Members, content, false);
    markup::lemma_hole(tpl, holes, parts, 0, "<p class=\"invite-intro\">"@, " · "@);
    markup::lemma_shows_inner(
        out,
        content,
        "<p class=\"invite-intro\">"@ + html::escaped(invitee_email) + " · "@,
    );
    markup::lemma_hole(tpl, holes, parts, 1, "<span class=\""@, "\""@);
    markup::lemma_shows_inner(
        out,
        content,
        "<span class=\""@ + html::escaped(shell::role_class_text(invited_role)) + "\""@,
    );
    markup::lemma_hole(tpl, holes, parts, 2, "\">"@, "</span>"@);
    markup::lemma_shows_inner(
        out,
        content,
        "\">"@ + html::escaped(shell::role_label_text(invited_role)) + "</span>"@,
    );
    markup::lemma_hole(tpl, holes, parts, 3, "</span> · expires "@, "</p>"@);
    markup::lemma_shows_inner(
        out,
        content,
        "</span> · expires "@ + html::escaped(model::date_text(expires_at@, model::MINUTE@)) + "</p>"@,
    );
    markup::lemma_hole(
        tpl,
        holes,
        parts,
        4,
        "id=\"invite-url\" class=\"invite-url-input\" value=\""@,
        "\""@,
    );
    markup::lemma_shows_inner(
        out,
        content,
        "id=\"invite-url\" class=\"invite-url-input\" value=\""@ + html::escaped(accept_url) + "\""@,
    );
}

} // verus!
