//! What the member directory shows.

use vstd::prelude::*;
use crate::display;
use crate::html;
use crate::laws::markup;
use crate::laws::pages::shell as around;
use crate::listing::{MemberFilter, PageItem, PaginationState, SortColumn, SortDirection, SortState};
use crate::listing;
use crate::model::{InstanceRole, Invitation, Timestamp, TransitionRow, User, UserLifecycle, Uuid};
use crate::model;
use crate::text;
use crate::views::icons::{
    ALERT_CIRCLE_ICON, CHECK_SMALL_ICON, CHEVRON_DOUBLE_LEFT_ICON, CHEVRON_DOUBLE_RIGHT_ICON,
    CHEVRON_DOWN_ICON, CHEVRON_LEFT_ICON, CHEVRON_RIGHT_ICON, CLOSE_ICON, CROWN_ICON,
    INCOGNITO_ICON, INFO_CIRCLE_ICON, LOCK_ICON, PLUS_ICON, SHIELD_ICON, TRASH_ICON, USER_ICON,
    USER_SHIELD_ICON,
};
use crate::views::members as page;
use crate::views::pending::MUTED_DASH;
use crate::views::pending;
use crate::views::scripts::{
    CONFIRM_CHECKBOX_JS, CONFIRM_NAME_JS, DROPDOWN_FLIP_JS, INVITE_COPY_JS,
    INVITE_REFRESH_ON_CLOSE_JS, INVITE_SWAP_TO_INVITE_JS, MEMBERS_KEBAB_OUTSIDE_CLICK_JS,
    MEMBERS_SEARCH_JS, MEMBERS_SELECT_ALL_JS, REAUTH_CHAIN_JS, ROLE_PICKER_GATE_JS,
};
use crate::views::shell::{ChromeContext, PageId};
use crate::views::shell;

verus! {

/// Where the holes of the template stand, and the texts around them.
proof fn lemma_confirm_name_field() -> (at: (Seq<char>, Seq<int>))
    ensures
        at.0 == page::CONFIRM_NAME_FIELD@,
        at.1 == seq![50int, 72, 130, 152],
        at.0.len() == 199,
        markup::holes_at(at.0, at.1),
        at.0.subrange(38, 50) == "<label for=\""@,
        at.0.subrange(51, 52) == "\""@,
        at.0.subrange(58, 72) == "<strong>&quot;"@,
        at.0.subrange(73, 79) == "&quot;"@,
        at.0.subrange(107, 130) == "<input type=\"text\" id=\""@,
        at.0.subrange(131, 132) == "\""@,
        at.0.subrange(131, 152) == "\" data-confirm-name=\""@,
        at.0.subrange(153, 154) == "\""@,
        "<label for=\""@.len() == 12,
        "\""@.len() == 1,
        "<strong>&quot;"@.len() == 14,
        "&quot;"@.len() == 6,
        "<input type=\"text\" id=\""@.len() == 23,
        "\" data-confirm-name=\""@.len() == 21,
{
    reveal_strlit("<div class=\"field confirm-name-field\"><label for=\"¤\">Type <strong>&quot;¤&quot;</strong> to confirm</label><input type=\"text\" id=\"¤\" data-confirm-name=\"¤\" autocomplete=\"off\" spellcheck=\"false\"></div>");
    reveal_strlit("<label for=\"");
    reveal_strlit("\"");
    reveal_strlit("<strong>&quot;");
    reveal_strlit("&quot;");
    reveal_strlit("<input type=\"text\" id=\"");
    reveal_strlit("\" data-confirm-name=\"");
    let tpl = page::CONFIRM_NAME_FIELD@;
    let holes = seq![50int, 72, 130, 152];
    assert(markup::hole_at(tpl, holes, 0));
    assert(markup::hole_at(tpl, holes, 1));
    assert(markup::hole_at(tpl, holes, 2));
    assert(markup::hole_at(tpl, holes, 3));
    assert(tpl.subrange(38, 50) =~= "<label for=\""@);
    assert(tpl.subrange(51, 52) =~= "\""@);
    assert(tpl.subrange(58, 72) =~= "<strong>&quot;"@);
    assert(tpl.subrange(73, 79) =~= "&quot;"@);
    assert(tpl.subrange(107, 130) =~= "<input type=\"text\" id=\""@);
    assert(tpl.subrange(131, 132) =~= "\""@);
    assert(tpl.subrange(131, 152) =~= "\" data-confirm-name=\""@);
    assert(tpl.subrange(153, 154) =~= "\""@);
    (tpl, holes)
}

/// Where a name has to be typed, the field belongs to its dialog and asks for that very name.
pub proof fn law_confirm_name_field(id: Uuid, name: Seq<char>, verb: Seq<char>)
    ensures
        ({
            let out = page::confirm_name_field_html(id, name, verb);
            &&& markup::shows(
                out,
                "<label for=\""@ + (html::escaped("confirm-name-"@ + verb + "-"@ + model::uuid_text(id))) + "\""@,
            )
            &&& markup::shows(out, "<strong>&quot;"@ + html::escaped(name) + "&quot;"@)
            &&& markup::shows(
                out,
                "<input type=\"text\" id=\""@ + (html::escaped("confirm-name-"@ + verb + "-"@ + model::uuid_text(id))) + "\""@,
            )
            &&& markup::shows(out, "\" data-confirm-name=\""@ + html::escaped(name) + "\""@)
        }),
{
    let (tpl, holes) = lemma_confirm_name_field();
    let parts = seq![
        html::escaped("confirm-name-"@ + verb + "-"@ + model::uuid_text(id)),
        html::escaped(name),
        html::escaped("confirm-name-"@ + verb + "-"@ + model::uuid_text(id)),
        html::escaped(name),
    ];
    assert(page::confirm_name_field_html(id, name, verb) == markup::filled(tpl, parts, 4).done()) by {
        reveal_with_fuel(markup::filled, 5);
    }
    markup::lemma_hole(tpl, holes, parts, 0, "<label for=\""@, "\""@);
    markup::lemma_hole(tpl, holes, parts, 1, "<strong>&quot;"@, "&quot;"@);
    markup::lemma_hole(tpl, holes, parts, 2, "<input type=\"text\" id=\""@, "\""@);
    markup::lemma_hole(tpl, holes, parts, 3, "\" data-confirm-name=\""@, "\""@);
}

/// Where the holes of the template stand, and the texts around them.
proof fn lemma_role_option() -> (at: (Seq<char>, Seq<int>))
    ensures
        at.0 == page::ROLE_OPTION@,
        at.1 == seq![41int, 43, 77, 79, 124, 126, 128, 179, 217, 218],
        at.0.len() == 234,
        markup::holes_at(at.0, at.1),
        at.0.subrange(0, 41) == "<input type=\"radio\" name=\"role\" id=\"role-"@,
        at.0.subrange(42, 43) == "-"@,
        at.0.subrange(44, 45) == "\""@,
        at.0.subrange(44, 77) == "\" class=\"role-icon-input\" value=\""@,
        at.0.subrange(78, 79) == "\""@,
        at.0.subrange(80, 81) == ">"@,
        at.0.subrange(81, 124) == "<label class=\"role-icon-segment\" for=\"role-"@,
        at.0.subrange(125, 126) == "-"@,
        at.0.subrange(127, 128) == "\""@,
        at.0.subrange(129, 130) == ">"@,
        at.0.subrange(130, 179) == "<span class=\"role-icon-glyph\" aria-hidden=\"true\">"@,
        at.0.subrange(180, 187) == "</span>"@,
        at.0.subrange(187, 217) == "<span class=\"role-icon-label\">"@,
        at.0.subrange(219, 226) == "</span>"@,
        "<input type=\"radio\" name=\"role\" id=\"role-"@.len() == 41,
        "-"@.len() == 1,
        "\""@.len() == 1,
        "\" class=\"role-icon-input\" value=\""@.len() == 33,
        ">"@.len() == 1,
        "<label class=\"role-icon-segment\" for=\"role-"@.len() == 43,
        "<span class=\"role-icon-glyph\" aria-hidden=\"true\">"@.len() == 49,
        "</span>"@.len() == 7,
        "<span class=\"role-icon-label\">"@.len() == 30,
{
    reveal_strlit("<input type=\"radio\" name=\"role\" id=\"role-¤-¤\" class=\"role-icon-input\" value=\"¤\"¤><label class=\"role-icon-segment\" for=\"role-¤-¤\"¤><span class=\"role-icon-glyph\" aria-hidden=\"true\">¤</span><span class=\"role-icon-label\">¤¤</span></label>");
    reveal_strlit("<input type=\"radio\" name=\"role\" id=\"role-");
    reveal_strlit("-");
    reveal_strlit("\"");
    reveal_strlit("\" class=\"role-icon-input\" value=\"");
    reveal_strlit(">");
    reveal_strlit("<label class=\"role-icon-segment\" for=\"role-");
    reveal_strlit("<span class=\"role-icon-glyph\" aria-hidden=\"true\">");
    reveal_strlit("</span>");
    reveal_strlit("<span class=\"role-icon-label\">");
    let tpl = page::ROLE_OPTION@;
    let holes = seq![41int, 43, 77, 79, 124, 126, 128, 179, 217, 218];
    assert(markup::hole_at(tpl, holes, 0));
    assert(markup::hole_at(tpl, holes, 1));
    assert(markup::hole_at(tpl, holes, 2));
    assert(markup::hole_at(tpl, holes, 3));
    assert(markup::hole_at(tpl, holes, 4));
    assert(markup::hole_at(tpl, holes, 5));
    assert(markup::hole_at(tpl, holes, 6));
    assert(markup::hole_at(tpl, holes, 7));
    assert(markup::hole_at(tpl, holes, 8));
    assert(markup::hole_at(tpl, holes, 9));
    assert(tpl.subrange(0, 41) =~= "<input type=\"radio\" name=\"role\" id=\"role-"@);
    assert(tpl.subrange(42, 43) =~= "-"@);
    assert(tpl.subrange(44, 45) =~= "\""@);
    assert(tpl.subrange(44, 77) =~= "\" class=\"role-icon-input\" value=\""@);
    assert(tpl.subrange(78, 79) =~= "\""@);
    assert(tpl.subrange(80, 81) =~= ">"@);
    assert(tpl.subrange(81, 124) =~= "<label class=\"role-icon-segment\" for=\"role-"@);
    assert(tpl.subrange(125, 126) =~= "-"@);
    assert(tpl.subrange(127, 128) =~= "\""@);
    assert(tpl.subrange(129, 130) =~= ">"@);
    assert(tpl.subrange(130, 179) =~= "<span class=\"role-icon-glyph\" aria-hidden=\"true\">"@);
    assert(tpl.subrange(180, 187) =~= "</span>"@);
    assert(tpl.subrange(187, 217) =~= "<span class=\"role-icon-label\">"@);
    assert(tpl.subrange(219, 226) =~= "</span>"@);
    (tpl, holes)
}

/// An option of the role picker stands for its role and its member, and cannot be picked where the
/// member has it already.
pub proof fn law_role_option(id: Uuid, current: InstanceRole, role: InstanceRole)
    ensures
        ({
            let out = page::role_option_html(id, current, role);
            let (value, label, icon) = match role { InstanceRole::Member => ("member", "Member", USER_ICON), InstanceRole::Admin => ("admin", "Admin", USER_SHIELD_ICON), InstanceRole::Owner => ("owner", "Owner", CROWN_ICON), };
            let is_current = current == role;
            &&& markup::shows(
                out,
                "<input type=\"radio\" name=\"role\" id=\"role-"@ + html::escaped(model::uuid_text(id)) + "-"@,
            )
            &&& markup::shows(out, "-"@ + html::escaped(value@) + "\""@)
            &&& markup::shows(
                out,
                "\" class=\"role-icon-input\" value=\""@ + html::escaped(value@) + "\""@,
            )
            &&& markup::shows(out, "\""@ + html::when(is_current, " disabled"@) + ">"@)
            &&& markup::shows(
                out,
                "<label class=\"role-icon-segment\" for=\"role-"@ + html::escaped(model::uuid_text(id)) + "-"@,
            )
            &&& markup::shows(out, "-"@ + html::escaped(value@) + "\""@)
            &&& markup::shows(
                out,
                "\""@ + html::when(is_current, " title=\"This member is already in this role\""@) + ">"@,
            )
            &&& markup::shows(
                out,
                "<span class=\"role-icon-glyph\" aria-hidden=\"true\">"@ + icon@ + "</span>"@,
            )
            &&& markup::shows(out, "<span class=\"role-icon-label\">"@ + html::escaped(label@))
            &&& markup::shows(out, html::when(is_current, page::ROLE_CURRENT@) + "</span>"@)
            &&& markup::shows(
                out,
                "\" class=\"role-icon-input\" value=\""@ + (html::escaped(value@) + "\""@ + html::when(is_current, " disabled"@)) + ">"@,
            )
            &&& markup::shows(
                out,
                "-"@ + (html::escaped(value@) + "\""@ + html::when(is_current, " title=\"This member is already in this role\""@)) + ">"@,
            )
        }),
{
    let (value, label, icon) = match role { InstanceRole::Member => ("member", "Member", USER_ICON), InstanceRole::Admin => ("admin", "Admin", USER_SHIELD_ICON), InstanceRole::Owner => ("owner", "Owner", CROWN_ICON), };
    let is_current = current == role;
    let (tpl, holes) = lemma_role_option();
    let parts = seq![
        html::escaped(model::uuid_text(id)),
        html::escaped(value@),
        html::escaped(value@),
        html::when(is_current, " disabled"@),
        html::escaped(model::uuid_text(id)),
        html::escaped(value@),
        html::when(is_current, " title=\"This member is already in this role\""@),
        icon@,
        html::escaped(label@),
        html::when(is_current, page::ROLE_CURRENT@),
    ];
    assert(page::role_option_html(id, current, role) == markup::filled(tpl, parts, 10).done()) by {
        reveal_with_fuel(markup::filled, 11);
    }
    markup::lemma_hole(
        tpl,
        holes,
        parts,
        0,
        "<input type=\"radio\" name=\"role\" id=\"role-"@,
        "-"@,
    );
    markup::lemma_hole(tpl, holes, parts, 1, "-"@, "\""@);
    markup::lemma_hole(tpl, holes, parts, 2, "\" class=\"role-icon-input\" value=\""@, "\""@);
    markup::lemma_hole(tpl, holes, parts, 3, "\""@, ">"@);
    markup::lemma_hole(
        tpl,
        holes,
        parts,
        4,
        "<label class=\"role-icon-segment\" for=\"role-"@,
        "-"@,
    );
    markup::lemma_hole(tpl, holes, parts, 5, "-"@, "\""@);
    markup::lemma_hole(tpl, holes, parts, 6, "\""@, ">"@);
    markup::lemma_hole(
        tpl,
        holes,
        parts,
        7,
        "<span class=\"role-icon-glyph\" aria-hidden=\"true\">"@,
        "</span>"@,
    );
    assert(tpl.subrange(218, 218) =~= Seq::<char>::empty());
    markup::lemma_hole(
        tpl,
        holes,
        parts,
        8,
        "<span class=\"role-icon-label\">"@,
        Seq::<char>::empty(),
    );
    assert("<span class=\"role-icon-label\">"@ + parts[8] + Seq::<char>::empty() =~= "<span class=\"role-icon-label\">"@ + parts[8]);
    assert(tpl.subrange(218, 218) =~= Seq::<char>::empty());
    markup::lemma_hole(tpl, holes, parts, 9, Seq::<char>::empty(), "</span>"@);
    assert(Seq::<char>::empty() + parts[9] + "</span>"@ =~= parts[9] + "</span>"@);
    markup::lemma_two_holes(
        tpl,
        holes,
        parts,
        2,
        "\" class=\"role-icon-input\" value=\""@,
        "\""@,
        ">"@,
    );
    markup::lemma_two_holes(tpl, holes, parts, 5, "-"@, "\""@, ">"@);
}

/// Where the holes of the template stand, and the texts around them.
proof fn lemma_role_icon_picker() -> (at: (Seq<char>, Seq<int>))
    ensures
        at.0 == page::ROLE_ICON_PICKER@,
        at.1 == seq![70int],
        at.0.len() == 77,
        markup::holes_at(at.0, at.1),
        at.0.subrange(30, 70) == "role=\"radiogroup\" aria-label=\"New role\">"@,
        at.0.subrange(71, 77) == "</div>"@,
        "role=\"radiogroup\" aria-label=\"New role\">"@.len() == 40,
        "</div>"@.len() == 6,
{
    reveal_strlit("<div class=\"role-icon-picker\" role=\"radiogroup\" aria-label=\"New role\">¤</div>");
    reveal_strlit("role=\"radiogroup\" aria-label=\"New role\">");
    reveal_strlit("</div>");
    let tpl = page::ROLE_ICON_PICKER@;
    let holes = seq![70int];
    assert(markup::hole_at(tpl, holes, 0));
    assert(tpl.subrange(30, 70) =~= "role=\"radiogroup\" aria-label=\"New role\">"@);
    assert(tpl.subrange(71, 77) =~= "</div>"@);
    (tpl, holes)
}

/// The role picker is about its member and their role.
pub proof fn law_role_icon_picker(id: Uuid, current: InstanceRole)
    ensures
        ({
            let out = page::role_icon_picker_html(id, current);
            &&& markup::shows(
                out,
                "role=\"radiogroup\" aria-label=\"New role\">"@ + (page::role_option_html(id, current, InstanceRole::Member) + page::role_option_html(id, current, InstanceRole::Admin) + page::role_option_html(id, current, InstanceRole::Owner)) + "</div>"@,
            )
        }),
{
    let (tpl, holes) = lemma_role_icon_picker();
    let parts = seq![
        page::role_option_html(id, current, InstanceRole::Member) + page::role_option_html(id, current, InstanceRole::Admin) + page::role_option_html(id, current, InstanceRole::Owner),
    ];
    assert(page::role_icon_picker_html(id, current) == markup::filled(tpl, parts, 1).done()) by {
        reveal_with_fuel(markup::filled, 2);
    }
    markup::lemma_hole(
        tpl,
        holes,
        parts,
        0,
        "role=\"radiogroup\" aria-label=\"New role\">"@,
        "</div>"@,
    );
}

/// Where the holes of the template stand, and the texts around them.
proof fn lemma_role_owner_confirm_dialog() -> (at: (Seq<char>, Seq<int>))
    ensures
        at.0 == page::ROLE_OWNER_CONFIRM_DIALOG@,
        at.1 == seq![35int, 109, 143, 222, 309, 334, 820, 926, 1103],
        at.0.len() == 1156,
        markup::holes_at(at.0, at.1),
        at.0.subrange(0, 35) == "<dialog id=\"dlg-role-owner-confirm-"@,
        at.0.subrange(36, 37) == "\""@,
        at.0.subrange(83, 109) == "<form id=\"form-role-owner-"@,
        at.0.subrange(110, 111) == "\""@,
        at.0.subrange(110, 143) == "\" method=\"post\" action=\"/members/"@,
        at.0.subrange(144, 150) == "/role\""@,
        at.0.subrange(325, 334) == "<h2>Make "@,
        at.0.subrange(335, 345) == " an Owner?"@,
        at.0.subrange(812, 820) == "<strong>"@,
        at.0.subrange(821, 830) == "</strong>"@,
        at.0.subrange(879, 926) == "<input type=\"hidden\" name=\"role\" value=\"owner\">"@,
        at.0.subrange(927, 955) == "<div class=\"dialog-actions\">"@,
        at.0.subrange(1054, 1103) == "class=\"btn\" data-reauth-confirm=\"form-role-owner-"@,
        at.0.subrange(1104, 1105) == "\""@,
        "<dialog id=\"dlg-role-owner-confirm-"@.len() == 35,
        "\""@.len() == 1,
        "<form id=\"form-role-owner-"@.len() == 26,
        "\" method=\"post\" action=\"/members/"@.len() == 33,
        "/role\""@.len() == 6,
        "<h2>Make "@.len() == 9,
        " an Owner?"@.len() == 10,
        "<strong>"@.len() == 8,
        "</strong>"@.len() == 9,
        "<input type=\"hidden\" name=\"role\" value=\"owner\">"@.len() == 47,
        "<div class=\"dialog-actions\">"@.len() == 28,
        "class=\"btn\" data-reauth-confirm=\"form-role-owner-"@.len() == 49,
{
    reveal_strlit("<dialog id=\"dlg-role-owner-confirm-¤\" class=\"action-dialog action-dialog-centered\"><form id=\"form-role-owner-¤\" method=\"post\" action=\"/members/¤/role\"><div class=\"dialog-header\"><div class=\"dialog-icon dialog-icon-shield\">¤</div><button type=\"button\" class=\"dialog-close\" data-close-dialog aria-label=\"Close\">¤</button></div><h2>Make ¤ an Owner?</h2><p class=\"dialog-description\">Owners have full control of this Hearth: they can change any member's role, deactivate or delete accounts, read the audit log, and rotate the server-level recovery code. Promoting someone to Owner means sharing your authority with them. They'll be able to deactivate or remove you.</p><label class=\"confirm-checkbox-field\"><input type=\"checkbox\" class=\"member-checkbox\" data-confirm-checkbox><span>I understand the impact of making <strong>¤</strong> an Owner of this Hearth instance.</span></label><input type=\"hidden\" name=\"role\" value=\"owner\">¤<div class=\"dialog-actions\"><button type=\"button\" class=\"btn-secondary\" data-close-dialog>Cancel</button><button type=\"button\" class=\"btn\" data-reauth-confirm=\"form-role-owner-¤\" disabled>Make Owner</button></div></form></dialog>");
    reveal_strlit("<dialog id=\"dlg-role-owner-confirm-");
    reveal_strlit("\"");
    reveal_strlit("<form id=\"form-role-owner-");
    reveal_strlit("\" method=\"post\" action=\"/members/");
    reveal_strlit("/role\"");
    reveal_strlit("<h2>Make ");
    reveal_strlit(" an Owner?");
    reveal_strlit("<strong>");
    reveal_strlit("</strong>");
    reveal_strlit("<input type=\"hidden\" name=\"role\" value=\"owner\">");
    reveal_strlit("<div class=\"dialog-actions\">");
    reveal_strlit("class=\"btn\" data-reauth-confirm=\"form-role-owner-");
    let tpl = page::ROLE_OWNER_CONFIRM_DIALOG@;
    let holes = seq![35int, 109, 143, 222, 309, 334, 820, 926, 1103];
    assert(markup::hole_at(tpl, holes, 0));
    assert(markup::hole_at(tpl, holes, 1));
    assert(markup::hole_at(tpl, holes, 2));
    assert(markup::hole_at(tpl, holes, 3));
    assert(markup::hole_at(tpl, holes, 4));
    assert(markup::hole_at(tpl, holes, 5));
    assert(markup::hole_at(tpl, holes, 6));
    assert(markup::hole_at(tpl, holes, 7));
    assert(markup::hole_at(tpl, holes, 8));
    assert(tpl.subrange(0, 35) =~= "<dialog id=\"dlg-role-owner-confirm-"@);
    assert(tpl.subrange(36, 37) =~= "\""@);
    assert(tpl.subrange(83, 109) =~= "<form id=\"form-role-owner-"@);
    assert(tpl.subrange(110, 111) =~= "\""@);
    assert(tpl.subrange(110, 143) =~= "\" method=\"post\" action=\"/members/"@);
    assert(tpl.subrange(144, 150) =~= "/role\""@);
    assert(tpl.subrange(325, 334) =~= "<h2>Make "@);
    assert(tpl.subrange(335, 345) =~= " an Owner?"@);
    assert(tpl.subrange(812, 820) =~= "<strong>"@);
    assert(tpl.subrange(821, 830) =~= "</strong>"@);
    assert(tpl.subrange(879, 926) =~= "<input type=\"hidden\" name=\"role\" value=\"owner\">"@);
    assert(tpl.subrange(927, 955) =~= "<div class=\"dialog-actions\">"@);
    assert(tpl.subrange(1054, 1103) =~= "class=\"btn\" data-reauth-confirm=\"form-role-owner-"@);
    assert(tpl.subrange(1104, 1105) =~= "\""@);
    (tpl, holes)
}

/// The dialog that makes somebody an owner names them, and its form goes to the change of their
/// role.
pub proof fn law_role_owner_confirm_dialog(id: Uuid, name: Seq<char>, csrf_token: Seq<char>)
    ensures
        ({
            let out = page::role_owner_confirm_dialog_html(id, name, csrf_token);
            &&& markup::shows(
                out,
                "<dialog id=\"dlg-role-owner-confirm-"@ + html::escaped(model::uuid_text(id)) + "\""@,
            )
            &&& markup::shows(
                out,
                "<form id=\"form-role-owner-"@ + html::escaped(model::uuid_text(id)) + "\""@,
            )
            &&& markup::shows(
                out,
                "\" method=\"post\" action=\"/members/"@ + html::escaped(model::uuid_text(id)) + "/role\""@,
            )
            &&& markup::shows(out, "<h2>Make "@ + html::escaped(name) + " an Owner?"@)
            &&& markup::shows(out, "<strong>"@ + html::escaped(name) + "</strong>"@)
            &&& markup::shows(
                out,
                "<input type=\"hidden\" name=\"role\" value=\"owner\">"@ + shell::csrf_input_html(csrf_token) + "<div class=\"dialog-actions\">"@,
            )
            &&& markup::shows(
                out,
                "class=\"btn\" data-reauth-confirm=\"form-role-owner-"@ + html::escaped(model::uuid_text(id)) + "\""@,
            )
        }),
{
    let (tpl, holes) = lemma_role_owner_confirm_dialog();
    let parts = seq![
        html::escaped(model::uuid_text(id)),
        html::escaped(model::uuid_text(id)),
        html::escaped(model::uuid_text(id)),
        CROWN_ICON@,
        CLOSE_ICON@,
        html::escaped(name),
        html::escaped(name),
        shell::csrf_input_html(csrf_token),
        html::escaped(model::uuid_text(id)),
    ];
    assert(page::role_owner_confirm_dialog_html(id, name, csrf_token) == markup::filled(tpl, parts, 9).done()) by {
        reveal_with_fuel(markup::filled, 10);
    }
    markup::lemma_hole(tpl, holes, parts, 0, "<dialog id=\"dlg-role-owner-confirm-"@, "\""@);
    markup::lemma_hole(tpl, holes, parts, 1, "<form id=\"form-role-owner-"@, "\""@);
    markup::lemma_hole(tpl, holes, parts, 2, "\" method=\"post\" action=\"/members/"@, "/role\""@);
    markup::lemma_hole(tpl, holes, parts, 5, "<h2>Make "@, " an Owner?"@);
    markup::lemma_hole(tpl, holes, parts, 6, "<strong>"@, "</strong>"@);
    markup::lemma_hole(
        tpl,
        holes,
        parts,
        7,
        "<input type=\"hidden\" name=\"role\" value=\"owner\">"@,
        "<div class=\"dialog-actions\">"@,
    );
    markup::lemma_hole(
        tpl,
        holes,
        parts,
        8,
        "class=\"btn\" data-reauth-confirm=\"form-role-owner-"@,
        "\""@,
    );
}

/// Where the holes of the template stand, and the texts around them.
proof fn lemma_render_locked_item() -> (at: (Seq<char>, Seq<int>))
    ensures
        at.0 == page::RENDER_LOCKED_ITEM@,
        at.1 == seq![29int, 118, 175],
        at.0.len() == 192,
        markup::holes_at(at.0, at.1),
        at.0.subrange(0, 29) == "<button type=\"button\" class=\""@,
        at.0.subrange(30, 31) == "\""@,
        at.0.subrange(112, 118) == "<span>"@,
        at.0.subrange(119, 126) == "</span>"@,
        "<button type=\"button\" class=\""@.len() == 29,
        "\""@.len() == 1,
        "<span>"@.len() == 6,
        "</span>"@.len() == 7,
{
    reveal_strlit("<button type=\"button\" class=\"¤\" aria-disabled=\"true\" disabled title=\"You can't perform this action on yourself\"><span>¤</span><span class=\"row-action-icon\" aria-hidden=\"true\">¤</span></button>");
    reveal_strlit("<button type=\"button\" class=\"");
    reveal_strlit("\"");
    reveal_strlit("<span>");
    reveal_strlit("</span>");
    let tpl = page::RENDER_LOCKED_ITEM@;
    let holes = seq![29int, 118, 175];
    assert(markup::hole_at(tpl, holes, 0));
    assert(markup::hole_at(tpl, holes, 1));
    assert(markup::hole_at(tpl, holes, 2));
    assert(tpl.subrange(0, 29) =~= "<button type=\"button\" class=\""@);
    assert(tpl.subrange(30, 31) =~= "\""@);
    assert(tpl.subrange(112, 118) =~= "<span>"@);
    assert(tpl.subrange(119, 126) =~= "</span>"@);
    (tpl, holes)
}

/// An action that is out of reach is shown under its own name.
pub proof fn law_render_locked_item(action: page::RowAction)
    ensures
        ({
            let out = page::render_locked_item_html(action);
            let (label, danger) = match action { page::RowAction::Deactivate => ("Deactivate", false), page::RowAction::Reactivate => ("Reactivate", false), page::RowAction::ChangeRole => ("Change role…", false), page::RowAction::Anonymize => ("Anonymize…", true), page::RowAction::Delete => ("Delete…", true), };
            let class = if danger { "row-action-item row-action-locked row-action-danger" } else { "row-action-item row-action-locked" };
            &&& markup::shows(
                out,
                "<button type=\"button\" class=\""@ + html::escaped(class@) + "\""@,
            )
            &&& markup::shows(out, "<span>"@ + html::escaped(label@) + "</span>"@)
        }),
{
    let (label, danger) = match action { page::RowAction::Deactivate => ("Deactivate", false), page::RowAction::Reactivate => ("Reactivate", false), page::RowAction::ChangeRole => ("Change role…", false), page::RowAction::Anonymize => ("Anonymize…", true), page::RowAction::Delete => ("Delete…", true), };
    let class = if danger { "row-action-item row-action-locked row-action-danger" } else { "row-action-item row-action-locked" };
    let (tpl, holes) = lemma_render_locked_item();
    let parts = seq![html::escaped(class@), html::escaped(label@), LOCK_ICON@];
    assert(page::render_locked_item_html(action) == markup::filled(tpl, parts, 3).done()) by {
        reveal_with_fuel(markup::filled, 4);
    }
    markup::lemma_hole(tpl, holes, parts, 0, "<button type=\"button\" class=\""@, "\""@);
    markup::lemma_hole(tpl, holes, parts, 1, "<span>"@, "</span>"@);
}

/// Where the holes of the template stand, and the texts around them.
proof fn lemma_actions_menu() -> (at: (Seq<char>, Seq<int>))
    ensures
        at.0 == page::ROW_ACTIONS_KEBAB@,
        at.1 == seq![164int],
        at.0.len() == 181,
        markup::holes_at(at.0, at.1),
        at.0.subrange(134, 164) == "<div class=\"row-actions-menu\">"@,
        at.0.subrange(165, 171) == "</div>"@,
        "<div class=\"row-actions-menu\">"@.len() == 30,
        "</div>"@.len() == 6,
{
    reveal_strlit("<details class=\"row-actions\"><summary class=\"row-actions-trigger\" aria-label=\"Row actions\"><span aria-hidden=\"true\">⋮</span></summary><div class=\"row-actions-menu\">¤</div></details>");
    reveal_strlit("<div class=\"row-actions-menu\">");
    reveal_strlit("</div>");
    let tpl = page::ROW_ACTIONS_KEBAB@;
    let holes = seq![164int];
    assert(markup::hole_at(tpl, holes, 0));
    assert(tpl.subrange(134, 164) =~= "<div class=\"row-actions-menu\">"@);
    assert(tpl.subrange(165, 171) =~= "</div>"@);
    (tpl, holes)
}

/// The menu of a row holds the actions of that row.
pub proof fn law_actions_menu(target: &User, actions: Seq<page::RowAction>, locked: bool)
    ensures
        ({
            let out = page::actions_menu_html(target, actions, locked);
            &&& markup::shows(
                out,
                "<div class=\"row-actions-menu\">"@ + page::action_items_html(actions, target, locked) + "</div>"@,
            )
        }),
{
    let (tpl, holes) = lemma_actions_menu();
    let parts = seq![page::action_items_html(actions, target, locked)];
    assert(page::actions_menu_html(target, actions, locked) == markup::filled(tpl, parts, 1).done()) by {
        reveal_with_fuel(markup::filled, 2);
    }
    markup::lemma_hole(tpl, holes, parts, 0, "<div class=\"row-actions-menu\">"@, "</div>"@);
}

/// Where the holes of the template stand, and the texts around them.
proof fn lemma_member_row() -> (at: (Seq<char>, Seq<int>))
    ensures
        at.0 == page::MEMBER_ROW@,
        at.1 == seq![34int, 152, 167, 169, 238, 290, 291, 324, 332, 384, 387, 430, 460],
        at.0.len() == 471,
        markup::holes_at(at.0, at.1),
        at.0.subrange(0, 34) == "<tr class=\"user-row\" data-search=\""@,
        at.0.subrange(35, 36) == "\""@,
        at.0.subrange(106, 152) == "member-checkbox-row\" name=\"member_ids\" value=\""@,
        at.0.subrange(153, 154) == "\""@,
        at.0.subrange(153, 167) == "\" aria-label=\""@,
        at.0.subrange(168, 169) == "\""@,
        at.0.subrange(170, 171) == ">"@,
        at.0.subrange(213, 238) == "<div class=\"user-row-id\">"@,
        at.0.subrange(239, 266) == "<div class=\"user-row-text\">"@,
        at.0.subrange(266, 290) == "<span class=\"user-name\">"@,
        at.0.subrange(292, 299) == "</span>"@,
        at.0.subrange(299, 324) == "<span class=\"user-email\">"@,
        at.0.subrange(325, 332) == "</span>"@,
        at.0.subrange(333, 339) == "</div>"@,
        at.0.subrange(371, 384) == "<span class=\""@,
        at.0.subrange(385, 386) == "\""@,
        at.0.subrange(385, 387) == "\">"@,
        at.0.subrange(388, 395) == "</span>"@,
        at.0.subrange(400, 430) == "<td class=\"col-last-activity\">"@,
        at.0.subrange(431, 436) == "</td>"@,
        at.0.subrange(436, 460) == "<td class=\"col-actions\">"@,
        at.0.subrange(461, 466) == "</td>"@,
        "<tr class=\"user-row\" data-search=\""@.len() == 34,
        "\""@.len() == 1,
        "member-checkbox-row\" name=\"member_ids\" value=\""@.len() == 46,
        "\" aria-label=\""@.len() == 14,
        ">"@.len() == 1,
        "<div class=\"user-row-id\">"@.len() == 25,
        "<div class=\"user-row-text\">"@.len() == 27,
        "<span class=\"user-name\">"@.len() == 24,
        "</span>"@.len() == 7,
        "<span class=\"user-email\">"@.len() == 25,
        "</div>"@.len() == 6,
        "<span class=\""@.len() == 13,
        "\">"@.len() == 2,
        "<td class=\"col-last-activity\">"@.len() == 30,
        "</td>"@.len() == 5,
        "<td class=\"col-actions\">"@.len() == 24,
{
    reveal_strlit("<tr class=\"user-row\" data-search=\"¤\"><td class=\"col-select\"><input type=\"checkbox\" class=\"member-checkbox member-checkbox-row\" name=\"member_ids\" value=\"¤\" aria-label=\"¤\"¤></td><td class=\"col-member user-row-cell\"><div class=\"user-row-id\">¤<div class=\"user-row-text\"><span class=\"user-name\">¤¤</span><span class=\"user-email\">¤</span>¤</div></div></td><td class=\"col-role\"><span class=\"¤\">¤</span></td><td class=\"col-last-activity\">¤</td><td class=\"col-actions\">¤</td></tr>");
    reveal_strlit("<tr class=\"user-row\" data-search=\"");
    reveal_strlit("\"");
    reveal_strlit("member-checkbox-row\" name=\"member_ids\" value=\"");
    reveal_strlit("\" aria-label=\"");
    reveal_strlit(">");
    reveal_strlit("<div class=\"user-row-id\">");
    reveal_strlit("<div class=\"user-row-text\">");
    reveal_strlit("<span class=\"user-name\">");
    reveal_strlit("</span>");
    reveal_strlit("<span class=\"user-email\">");
    reveal_strlit("</div>");
    reveal_strlit("<span class=\"");
    reveal_strlit("\">");
    reveal_strlit("<td class=\"col-last-activity\">");
    reveal_strlit("</td>");
    reveal_strlit("<td class=\"col-actions\">");
    let tpl = page::MEMBER_ROW@;
    let holes = seq![34int, 152, 167, 169, 238, 290, 291, 324, 332, 384, 387, 430, 460];
    assert(markup::hole_at(tpl, holes, 0));
    assert(markup::hole_at(tpl, holes, 1));
    assert(markup::hole_at(tpl, holes, 2));
    assert(markup::hole_at(tpl, holes, 3));
    assert(markup::hole_at(tpl, holes, 4));
    assert(markup::hole_at(tpl, holes, 5));
    assert(markup::hole_at(tpl, holes, 6));
    assert(markup::hole_at(tpl, holes, 7));
    assert(markup::hole_at(tpl, holes, 8));
    assert(markup::hole_at(tpl, holes, 9));
    assert(markup::hole_at(tpl, holes, 10));
    assert(markup::hole_at(tpl, holes, 11));
    assert(markup::hole_at(tpl, holes, 12));
    assert(tpl.subrange(0, 34) =~= "<tr class=\"user-row\" data-search=\""@);
    assert(tpl.subrange(35, 36) =~= "\""@);
    assert(tpl.subrange(106, 152) =~= "member-checkbox-row\" name=\"member_ids\" value=\""@);
    assert(tpl.subrange(153, 154) =~= "\""@);
    assert(tpl.subrange(153, 167) =~= "\" aria-label=\""@);
    assert(tpl.subrange(168, 169) =~= "\""@);
    assert(tpl.subrange(170, 171) =~= ">"@);
    assert(tpl.subrange(213, 238) =~= "<div class=\"user-row-id\">"@);
    assert(tpl.subrange(239, 266) =~= "<div class=\"user-row-text\">"@);
    assert(tpl.subrange(266, 290) =~= "<span class=\"user-name\">"@);
    assert(tpl.subrange(292, 299) =~= "</span>"@);
    assert(tpl.subrange(299, 324) =~= "<span class=\"user-email\">"@);
    assert(tpl.subrange(325, 332) =~= "</span>"@);
    assert(tpl.subrange(333, 339) =~= "</div>"@);
    assert(tpl.subrange(371, 384) =~= "<span class=\""@);
    assert(tpl.subrange(385, 386) =~= "\""@);
    assert(tpl.subrange(385, 387) =~= "\">"@);
    assert(tpl.subrange(388, 395) =~= "</span>"@);
    assert(tpl.subrange(400, 430) =~= "<td class=\"col-last-activity\">"@);
    assert(tpl.subrange(431, 436) =~= "</td>"@);
    assert(tpl.subrange(436, 460) =~= "<td class=\"col-actions\">"@);
    assert(tpl.subrange(461, 466) =~= "</td>"@);
    (tpl, holes)
}

/// The row of a member shows their name, email and role, when they were last seen, what waits on
/// them, and what may be done to them.
pub proof fn law_member_row(
    viewer: &User,
    target: &User,
    last_activity: Option<Timestamp>,
    pending: Option<&TransitionRow>,
    now: &Timestamp,
)
    ensures
        ({
            let out = page::member_row_html(viewer, target, last_activity, pending, now);
            let is_self = viewer.id == target.id;
            let actions = page::offered_actions(viewer.instance_role, target.instance_role, target.lifecycle, is_self, );
            let search_hay = text::lowercase(target.display_name@) + " "@ + text::lowercase(target.email@);
            let checkbox_disabled = target.instance_role == InstanceRole::Owner;
            let aria_label = "Select "@ + target.display_name@;
            &&& markup::shows(
                out,
                "<tr class=\"user-row\" data-search=\""@ + html::escaped(search_hay) + "\""@,
            )
            &&& markup::shows(
                out,
                "member-checkbox-row\" name=\"member_ids\" value=\""@ + html::escaped(model::uuid_text(target.id)) + "\""@,
            )
            &&& markup::shows(out, "\" aria-label=\""@ + html::escaped(aria_label) + "\""@)
            &&& markup::shows(out, "\""@ + html::when(checkbox_disabled, " disabled"@) + ">"@)
            &&& markup::shows(
                out,
                "<div class=\"user-row-id\">"@ + shell::avatar_block_html(target.display_name@, target.id, target.lifecycle) + "<div class=\"user-row-text\">"@,
            )
            &&& markup::shows(
                out,
                "<span class=\"user-name\">"@ + html::escaped(target.display_name@),
            )
            &&& markup::shows(out, html::when(is_self, page::ROW_SELF_TAG@) + "</span>"@)
            &&& markup::shows(
                out,
                "<span class=\"user-email\">"@ + html::escaped(target.email@) + "</span>"@,
            )
            &&& markup::shows(
                out,
                "</span>"@ + (match pending { Some(p) => pending::member_pending_pill_html(p, now), None => Seq::empty(), }) + "</div>"@,
            )
            &&& markup::shows(
                out,
                "<span class=\""@ + html::escaped(shell::role_class_text(target.instance_role)) + "\""@,
            )
            &&& markup::shows(
                out,
                "\">"@ + html::escaped(shell::role_label_text(target.instance_role)) + "</span>"@,
            )
            &&& markup::shows(
                out,
                "<td class=\"col-last-activity\">"@ + (match last_activity { Some(ts) => html::escaped(model::date_text(ts@, model::SHORT_DATE@)), None => MUTED_DASH@, }) + "</td>"@,
            )
            &&& markup::shows(
                out,
                "<td class=\"col-actions\">"@ + (if actions.len() > 0 { page::actions_menu_html(target, actions, is_self) } else { Seq::empty() }) + "</td>"@,
            )
        }),
{
    let is_self = viewer.id == target.id;
    let actions = page::offered_actions(viewer.instance_role, target.instance_role, target.lifecycle, is_self, );
    let search_hay = text::lowercase(target.display_name@) + " "@ + text::lowercase(target.email@);
    let checkbox_disabled = target.instance_role == InstanceRole::Owner;
    let aria_label = "Select "@ + target.display_name@;
    let (tpl, holes) = lemma_member_row();
    let parts = seq![
        html::escaped(search_hay),
        html::escaped(model::uuid_text(target.id)),
        html::escaped(aria_label),
        html::when(checkbox_disabled, " disabled"@),
        shell::avatar_block_html(target.display_name@, target.id, target.lifecycle),
        html::escaped(target.display_name@),
        html::when(is_self, page::ROW_SELF_TAG@),
        html::escaped(target.email@),
        match pending { Some(p) => pending::member_pending_pill_html(p, now), None => Seq::empty(), },
        html::escaped(shell::role_class_text(target.instance_role)),
        html::escaped(shell::role_label_text(target.instance_role)),
        match last_activity { Some(ts) => html::escaped(model::date_text(ts@, model::SHORT_DATE@)), None => MUTED_DASH@, },
        if actions.len() > 0 { page::actions_menu_html(target, actions, is_self) } else { Seq::empty() },
    ];
    assert(page::member_row_html(viewer, target, last_activity, pending, now) == markup::filled(tpl, parts, 13).done()) by {
        reveal_with_fuel(markup::filled, 14);
    }
    markup::lemma_hole(tpl, holes, parts, 0, "<tr class=\"user-row\" data-search=\""@, "\""@);
    markup::lemma_hole(
        tpl,
        holes,
        parts,
        1,
        "member-checkbox-row\" name=\"member_ids\" value=\""@,
        "\""@,
    );
    markup::lemma_hole(tpl, holes, parts, 2, "\" aria-label=\""@, "\""@);
    markup::lemma_hole(tpl, holes, parts, 3, "\""@, ">"@);
    markup::lemma_hole(
        tpl,
        holes,
        parts,
        4,
        "<div class=\"user-row-id\">"@,
        "<div class=\"user-row-text\">"@,
    );
    assert(tpl.subrange(291, 291) =~= Seq::<char>::empty());
    markup::lemma_hole(tpl, holes, parts, 5, "<span class=\"user-name\">"@, Seq::<char>::empty());
    assert("<span class=\"user-name\">"@ + parts[5] + Seq::<char>::empty() =~= "<span class=\"user-name\">"@ + parts[5]);
    assert(tpl.subrange(291, 291) =~= Seq::<char>::empty());
    markup::lemma_hole(tpl, holes, parts, 6, Seq::<char>::empty(), "</span>"@);
    assert(Seq::<char>::empty() + parts[6] + "</span>"@ =~= parts[6] + "</span>"@);
    markup::lemma_hole(tpl, holes, parts, 7, "<span class=\"user-email\">"@, "</span>"@);
    markup::lemma_hole(tpl, holes, parts, 8, "</span>"@, "</div>"@);
    markup::lemma_hole(tpl, holes, parts, 9, "<span class=\""@, "\""@);
    markup::lemma_hole(tpl, holes, parts, 10, "\">"@, "</span>"@);
    markup::lemma_hole(tpl, holes, parts, 11, "<td class=\"col-last-activity\">"@, "</td>"@);
    markup::lemma_hole(tpl, holes, parts, 12, "<td class=\"col-actions\">"@, "</td>"@);
}

/// Where the holes of the template stand, and the texts around them.
proof fn lemma_pending_invite_row() -> (at: (Seq<char>, Seq<int>))
    ensures
        at.0 == page::PENDING_INVITE_ROW@,
        at.1 == seq![53int, 158, 315, 318, 384, 493, 496, 849, 996],
        at.0.len() == 1061,
        markup::holes_at(at.0, at.1),
        at.0.subrange(0, 53) == "<tr class=\"user-row pending-invite-row\" data-search=\""@,
        at.0.subrange(54, 55) == "\""@,
        at.0.subrange(102, 158) == "class=\"member-checkbox member-checkbox-row\" aria-label=\""@,
        at.0.subrange(159, 160) == "\""@,
        at.0.subrange(266, 315) == "<span class=\"avatar avatar-sm\" style=\"background:"@,
        at.0.subrange(316, 317) == "\""@,
        at.0.subrange(316, 318) == "\">"@,
        at.0.subrange(319, 326) == "</span>"@,
        at.0.subrange(360, 384) == "<span class=\"user-name\">"@,
        at.0.subrange(385, 392) == "</span>"@,
        at.0.subrange(480, 493) == "<span class=\""@,
        at.0.subrange(494, 495) == "\""@,
        at.0.subrange(494, 496) == "\">"@,
        at.0.subrange(497, 504) == "</span>"@,
        at.0.subrange(811, 849) == "data-open-modal=\"/members/invitations/"@,
        at.0.subrange(850, 865) == "/modal/reissue\""@,
        at.0.subrange(958, 996) == "data-open-modal=\"/members/invitations/"@,
        at.0.subrange(997, 1011) == "/modal/revoke\""@,
        "<tr class=\"user-row pending-invite-row\" data-search=\""@.len() == 53,
        "\""@.len() == 1,
        "class=\"member-checkbox member-checkbox-row\" aria-label=\""@.len() == 56,
        "<span class=\"avatar avatar-sm\" style=\"background:"@.len() == 49,
        "\">"@.len() == 2,
        "</span>"@.len() == 7,
        "<span class=\"user-name\">"@.len() == 24,
        "<span class=\""@.len() == 13,
        "data-open-modal=\"/members/invitations/"@.len() == 38,
        "/modal/reissue\""@.len() == 15,
        "/modal/revoke\""@.len() == 14,
{
    reveal_strlit("<tr class=\"user-row pending-invite-row\" data-search=\"¤\"><td class=\"col-select\"><input type=\"checkbox\" class=\"member-checkbox member-checkbox-row\" aria-label=\"¤\" disabled></td><td class=\"col-member user-row-cell\"><div class=\"user-row-id\"><span class=\"avatar-wrapper\"><span class=\"avatar avatar-sm\" style=\"background:¤\">¤</span></span><div class=\"user-row-text\"><span class=\"user-name\">¤</span><span class=\"user-email\">Pending invitation</span></div></div></td><td class=\"col-role\"><span class=\"¤\">¤</span></td><td class=\"col-last-activity\"><span class=\"muted-dash\">—</span></td><td class=\"col-actions\"><details class=\"row-actions\"><summary class=\"row-actions-trigger\" aria-label=\"Row actions\"><span aria-hidden=\"true\">⋮</span></summary><div class=\"row-actions-menu\"><button type=\"button\" class=\"row-action-item\" data-open-modal=\"/members/invitations/¤/modal/reissue\">Reissue invitation…</button><button type=\"button\" class=\"row-action-item row-action-danger\" data-open-modal=\"/members/invitations/¤/modal/revoke\">Revoke invite…</button></div></details></td></tr>");
    reveal_strlit("<tr class=\"user-row pending-invite-row\" data-search=\"");
    reveal_strlit("\"");
    reveal_strlit("class=\"member-checkbox member-checkbox-row\" aria-label=\"");
    reveal_strlit("<span class=\"avatar avatar-sm\" style=\"background:");
    reveal_strlit("\">");
    reveal_strlit("</span>");
    reveal_strlit("<span class=\"user-name\">");
    reveal_strlit("<span class=\"");
    reveal_strlit("data-open-modal=\"/members/invitations/");
    reveal_strlit("/modal/reissue\"");
    reveal_strlit("/modal/revoke\"");
    let tpl = page::PENDING_INVITE_ROW@;
    let holes = seq![53int, 158, 315, 318, 384, 493, 496, 849, 996];
    assert(markup::hole_at(tpl, holes, 0));
    assert(markup::hole_at(tpl, holes, 1));
    assert(markup::hole_at(tpl, holes, 2));
    assert(markup::hole_at(tpl, holes, 3));
    assert(markup::hole_at(tpl, holes, 4));
    assert(markup::hole_at(tpl, holes, 5));
    assert(markup::hole_at(tpl, holes, 6));
    assert(markup::hole_at(tpl, holes, 7));
    assert(markup::hole_at(tpl, holes, 8));
    assert(tpl.subrange(0, 53) =~= "<tr class=\"user-row pending-invite-row\" data-search=\""@);
    assert(tpl.subrange(54, 55) =~= "\""@);
    assert(tpl.subrange(102, 158) =~= "class=\"member-checkbox member-checkbox-row\" aria-label=\""@);
    assert(tpl.subrange(159, 160) =~= "\""@);
    assert(tpl.subrange(266, 315) =~= "<span class=\"avatar avatar-sm\" style=\"background:"@);
    assert(tpl.subrange(316, 317) =~= "\""@);
    assert(tpl.subrange(316, 318) =~= "\">"@);
    assert(tpl.subrange(319, 326) =~= "</span>"@);
    assert(tpl.subrange(360, 384) =~= "<span class=\"user-name\">"@);
    assert(tpl.subrange(385, 392) =~= "</span>"@);
    assert(tpl.subrange(480, 493) =~= "<span class=\""@);
    assert(tpl.subrange(494, 495) =~= "\""@);
    assert(tpl.subrange(494, 496) =~= "\">"@);
    assert(tpl.subrange(497, 504) =~= "</span>"@);
    assert(tpl.subrange(811, 849) =~= "data-open-modal=\"/members/invitations/"@);
    assert(tpl.subrange(850, 865) =~= "/modal/reissue\""@);
    assert(tpl.subrange(958, 996) =~= "data-open-modal=\"/members/invitations/"@);
    assert(tpl.subrange(997, 1011) =~= "/modal/revoke\""@);
    (tpl, holes)
}

/// The row of an open invitation shows whom it is for and as what; its buttons open the dialogs of
/// this very invitation.
pub proof fn law_pending_invite_row(invitation: &Invitation)
    ensures
        ({
            let out = page::pending_invite_row_html(invitation);
            let initial = display::initial_of(invitation.email@);
            let color = shell::avatar_color_of(invitation.id);
            let search_hay = text::lowercase(invitation.email@);
            let id = invitation.id;
            let aria_label = "Select pending invite "@ + invitation.email@;
            &&& markup::shows(
                out,
                "<tr class=\"user-row pending-invite-row\" data-search=\""@ + html::escaped(search_hay) + "\""@,
            )
            &&& markup::shows(
                out,
                "class=\"member-checkbox member-checkbox-row\" aria-label=\""@ + html::escaped(aria_label) + "\""@,
            )
            &&& markup::shows(
                out,
                "<span class=\"avatar avatar-sm\" style=\"background:"@ + html::escaped(color@) + "\""@,
            )
            &&& markup::shows(out, "\">"@ + html::escaped(seq![initial]) + "</span>"@)
            &&& markup::shows(
                out,
                "<span class=\"user-name\">"@ + html::escaped(invitation.email@) + "</span>"@,
            )
            &&& markup::shows(
                out,
                "<span class=\""@ + html::escaped(shell::role_class_text(invitation.instance_role)) + "\""@,
            )
            &&& markup::shows(
                out,
                "\">"@ + html::escaped(shell::role_label_text(invitation.instance_role)) + "</span>"@,
            )
            &&& markup::shows(
                out,
                "data-open-modal=\"/members/invitations/"@ + html::escaped(model::uuid_text(id)) + "/modal/reissue\""@,
            )
            &&& markup::shows(
                out,
                "data-open-modal=\"/members/invitations/"@ + html::escaped(model::uuid_text(id)) + "/modal/revoke\""@,
            )
            &&& markup::shows(
                out,
                "<span class=\"avatar avatar-sm\" style=\"background:"@ + (html::escaped(color@) + "\">"@ + html::escaped(seq![initial])) + "</span>"@,
            )
            &&& markup::shows(
                out,
                "<span class=\""@ + (html::escaped(shell::role_class_text(invitation.instance_role)) + "\">"@ + html::escaped(shell::role_label_text(invitation.instance_role))) + "</span>"@,
            )
        }),
{
    let initial = display::initial_of(invitation.email@);
    let color = shell::avatar_color_of(invitation.id);
    let search_hay = text::lowercase(invitation.email@);
    let id = invitation.id;
    let aria_label = "Select pending invite "@ + invitation.email@;
    let (tpl, holes) = lemma_pending_invite_row();
    let parts = seq![
        html::escaped(search_hay),
        html::escaped(aria_label),
        html::escaped(color@),
        html::escaped(seq![initial]),
        html::escaped(invitation.email@),
        html::escaped(shell::role_class_text(invitation.instance_role)),
        html::escaped(shell::role_label_text(invitation.instance_role)),
        html::escaped(model::uuid_text(id)),
        html::escaped(model::uuid_text(id)),
    ];
    assert(page::pending_invite_row_html(invitation) == markup::filled(tpl, parts, 9).done()) by {
        reveal_with_fuel(markup::filled, 10);
    }
    markup::lemma_hole(
        tpl,
        holes,
        parts,
        0,
        "<tr class=\"user-row pending-invite-row\" data-search=\""@,
        "\""@,
    );
    markup::lemma_hole(
        tpl,
        holes,
        parts,
        1,
        "class=\"member-checkbox member-checkbox-row\" aria-label=\""@,
        "\""@,
    );
    markup::lemma_hole(
        tpl,
        holes,
        parts,
        2,
        "<span class=\"avatar avatar-sm\" style=\"background:"@,
        "\""@,
    );
    markup::lemma_hole(tpl, holes, parts, 3, "\">"@, "</span>"@);
    markup::lemma_hole(tpl, holes, parts, 4, "<span class=\"user-name\">"@, "</span>"@);
    markup::lemma_hole(tpl, holes, parts, 5, "<span class=\""@, "\""@);
    markup::lemma_hole(tpl, holes, parts, 6, "\">"@, "</span>"@);
    markup::lemma_hole(
        tpl,
        holes,
        parts,
        7,
        "data-open-modal=\"/members/invitations/"@,
        "/modal/reissue\""@,
    );
    markup::lemma_hole(
        tpl,
        holes,
        parts,
        8,
        "data-open-modal=\"/members/invitations/"@,
        "/modal/revoke\""@,
    );
    markup::lemma_two_holes(
        tpl,
        holes,
        parts,
        2,
        "<span class=\"avatar avatar-sm\" style=\"background:"@,
        "\">"@,
        "</span>"@,
    );
    markup::lemma_two_holes(tpl, holes, parts, 5, "<span class=\""@, "\">"@, "</span>"@);
}

/// Where the holes of the template stand, and the texts around them.
proof fn lemma_filter_menu_item() -> (at: (Seq<char>, Seq<int>))
    ensures
        at.0 == page::FILTER_MENU_ITEM@,
        at.1 == seq![10int, 19, 28, 36],
        at.0.len() == 41,
        markup::holes_at(at.0, at.1),
        at.0.subrange(0, 10) == "<a class=\""@,
        at.0.subrange(11, 12) == "\""@,
        at.0.subrange(11, 19) == "\" href=\""@,
        at.0.subrange(20, 21) == "\""@,
        at.0.subrange(22, 28) == "<span>"@,
        at.0.subrange(29, 36) == "</span>"@,
        at.0.subrange(37, 41) == "</a>"@,
        "<a class=\""@.len() == 10,
        "\""@.len() == 1,
        "\" href=\""@.len() == 8,
        "<span>"@.len() == 6,
        "</span>"@.len() == 7,
        "</a>"@.len() == 4,
{
    reveal_strlit("<a class=\"¤\" href=\"¤\"><span>¤</span>¤</a>");
    reveal_strlit("<a class=\"");
    reveal_strlit("\"");
    reveal_strlit("\" href=\"");
    reveal_strlit("<span>");
    reveal_strlit("</span>");
    reveal_strlit("</a>");
    let tpl = page::FILTER_MENU_ITEM@;
    let holes = seq![10int, 19, 28, 36];
    assert(markup::hole_at(tpl, holes, 0));
    assert(markup::hole_at(tpl, holes, 1));
    assert(markup::hole_at(tpl, holes, 2));
    assert(markup::hole_at(tpl, holes, 3));
    assert(tpl.subrange(0, 10) =~= "<a class=\""@);
    assert(tpl.subrange(11, 12) =~= "\""@);
    assert(tpl.subrange(11, 19) =~= "\" href=\""@);
    assert(tpl.subrange(20, 21) =~= "\""@);
    assert(tpl.subrange(22, 28) =~= "<span>"@);
    assert(tpl.subrange(29, 36) =~= "</span>"@);
    assert(tpl.subrange(37, 41) =~= "</a>"@);
    (tpl, holes)
}

/// An item of the filter menu is called by its filter and leads to it.
pub proof fn law_filter_menu_item(current: MemberFilter, sort: SortState, option: MemberFilter)
    ensures
        ({
            let out = page::filter_menu_item_html(current, sort, option);
            let active = current == option;
            let class = if active { "filter-menu-item filter-menu-item-active" } else { "filter-menu-item" };
            let href = page::filtered_url_of(sort.column, sort.direction, option);
            &&& markup::shows(out, "<a class=\""@ + html::escaped(class@) + "\""@)
            &&& markup::shows(out, "\" href=\""@ + html::escaped(href) + "\""@)
            &&& markup::shows(
                out,
                "<span>"@ + html::escaped(listing::filter_label(option)) + "</span>"@,
            )
            &&& markup::shows(
                out,
                "</span>"@ + (if active { CHECK_SMALL_ICON@ } else { Seq::empty() }) + "</a>"@,
            )
        }),
{
    let active = current == option;
    let class = if active { "filter-menu-item filter-menu-item-active" } else { "filter-menu-item" };
    let href = page::filtered_url_of(sort.column, sort.direction, option);
    let (tpl, holes) = lemma_filter_menu_item();
    let parts = seq![
        html::escaped(class@),
        html::escaped(href),
        html::escaped(listing::filter_label(option)),
        if active { CHECK_SMALL_ICON@ } else { Seq::empty() },
    ];
    assert(page::filter_menu_item_html(current, sort, option) == markup::filled(tpl, parts, 4).done()) by {
        reveal_with_fuel(markup::filled, 5);
    }
    markup::lemma_hole(tpl, holes, parts, 0, "<a class=\""@, "\""@);
    markup::lemma_hole(tpl, holes, parts, 1, "\" href=\""@, "\""@);
    markup::lemma_hole(tpl, holes, parts, 2, "<span>"@, "</span>"@);
    markup::lemma_hole(tpl, holes, parts, 3, "</span>"@, "</a>"@);
}

/// Where the holes of the template stand, and the texts around them.
proof fn lemma_filter_menu() -> (at: (Seq<char>, Seq<int>))
    ensures
        at.0 == page::FILTER_MENU@,
        at.1 == seq![149int, 157, 198, 242, 243, 244, 290, 291, 292, 293],
        at.0.len() == 310,
        markup::holes_at(at.0, at.1),
        at.0.subrange(114, 149) == "<span class=\"filter-trigger-value\">"@,
        at.0.subrange(150, 157) == "</span>"@,
        at.0.subrange(168, 198) == "<div class=\"filter-menu-list\">"@,
        at.0.subrange(199, 232) == "<div class=\"filter-menu-section\">"@,
        at.0.subrange(199, 242) == "<div class=\"filter-menu-section\">Role</div>"@,
        at.0.subrange(245, 278) == "<div class=\"filter-menu-section\">"@,
        at.0.subrange(245, 290) == "<div class=\"filter-menu-section\">Status</div>"@,
        at.0.subrange(294, 300) == "</div>"@,
        at.0.subrange(236, 242) == "</div>"@,
        at.0.subrange(284, 290) == "</div>"@,
        "<span class=\"filter-trigger-value\">"@.len() == 35,
        "</span>"@.len() == 7,
        "<div class=\"filter-menu-list\">"@.len() == 30,
        "<div class=\"filter-menu-section\">"@.len() == 33,
        "<div class=\"filter-menu-section\">Role</div>"@.len() == 43,
        "<div class=\"filter-menu-section\">Status</div>"@.len() == 45,
        "</div>"@.len() == 6,
{
    reveal_strlit("<details class=\"filter-menu\"><summary class=\"filter-trigger\"><span class=\"filter-trigger-label\">Member type</span><span class=\"filter-trigger-value\">¤</span>¤</summary><div class=\"filter-menu-list\">¤<div class=\"filter-menu-section\">Role</div>¤¤¤<div class=\"filter-menu-section\">Status</div>¤¤¤¤</div></details>");
    reveal_strlit("<span class=\"filter-trigger-value\">");
    reveal_strlit("</span>");
    reveal_strlit("<div class=\"filter-menu-list\">");
    reveal_strlit("<div class=\"filter-menu-section\">");
    reveal_strlit("<div class=\"filter-menu-section\">Role</div>");
    reveal_strlit("<div class=\"filter-menu-section\">Status</div>");
    reveal_strlit("</div>");
    let tpl = page::FILTER_MENU@;
    let holes = seq![149int, 157, 198, 242, 243, 244, 290, 291, 292, 293];
    assert(markup::hole_at(tpl, holes, 0));
    assert(markup::hole_at(tpl, holes, 1));
    assert(markup::hole_at(tpl, holes, 2));
    assert(markup::hole_at(tpl, holes, 3));
    assert(markup::hole_at(tpl, holes, 4));
    assert(markup::hole_at(tpl, holes, 5));
    assert(markup::hole_at(tpl, holes, 6));
    assert(markup::hole_at(tpl, holes, 7));
    assert(markup::hole_at(tpl, holes, 8));
    assert(markup::hole_at(tpl, holes, 9));
    assert(tpl.subrange(114, 149) =~= "<span class=\"filter-trigger-value\">"@);
    assert(tpl.subrange(150, 157) =~= "</span>"@);
    assert(tpl.subrange(168, 198) =~= "<div class=\"filter-menu-list\">"@);
    assert(tpl.subrange(199, 232) =~= "<div class=\"filter-menu-section\">"@);
    assert(tpl.subrange(199, 242) =~= "<div class=\"filter-menu-section\">Role</div>"@);
    assert(tpl.subrange(245, 278) =~= "<div class=\"filter-menu-section\">"@);
    assert(tpl.subrange(245, 290) =~= "<div class=\"filter-menu-section\">Status</div>"@);
    assert(tpl.subrange(294, 300) =~= "</div>"@);
    assert(tpl.subrange(236, 242) =~= "</div>"@);
    assert(tpl.subrange(284, 290) =~= "</div>"@);
    (tpl, holes)
}

/// The filter menu names the filter in force and offers all of them, in their places.
pub proof fn law_filter_menu(current: MemberFilter, sort: SortState)
    ensures
        ({
            let out = page::filter_menu_html(current, sort);
            &&& markup::shows(
                out,
                "<span class=\"filter-trigger-value\">"@ + html::escaped(listing::filter_label(current)) + "</span>"@,
            )
            &&& markup::shows(
                out,
                "<div class=\"filter-menu-list\">"@ + page::filter_menu_item_html(current, sort, MemberFilter::All) + "<div class=\"filter-menu-section\">"@,
            )
            &&& markup::shows(
                out,
                "<div class=\"filter-menu-section\">Role</div>"@ + page::filter_menu_item_html(current, sort, MemberFilter::Role(InstanceRole::Owner)),
            )
            &&& markup::shows(
                out,
                page::filter_menu_item_html(current, sort, MemberFilter::Role(InstanceRole::Admin)),
            )
            &&& markup::shows(
                out,
                page::filter_menu_item_html(current, sort, MemberFilter::Role(InstanceRole::Member)) + "<div class=\"filter-menu-section\">"@,
            )
            &&& markup::shows(
                out,
                "<div class=\"filter-menu-section\">Status</div>"@ + page::filter_menu_item_html(current, sort, MemberFilter::Status(UserLifecycle::Active)),
            )
            &&& markup::shows(
                out,
                page::filter_menu_item_html(current, sort, MemberFilter::Status(UserLifecycle::PendingInvite)),
            )
            &&& markup::shows(
                out,
                page::filter_menu_item_html(current, sort, MemberFilter::Status(UserLifecycle::Deactivated)),
            )
            &&& markup::shows(
                out,
                page::filter_menu_item_html(current, sort, MemberFilter::Status(UserLifecycle::Anonymized)) + "</div>"@,
            )
            &&& markup::shows(
                out,
                "</div>"@ + (page::filter_menu_item_html(current, sort, MemberFilter::Role(InstanceRole::Owner)) + page::filter_menu_item_html(current, sort, MemberFilter::Role(InstanceRole::Admin))),
            )
            &&& markup::shows(
                out,
                "</div>"@ + (page::filter_menu_item_html(current, sort, MemberFilter::Status(UserLifecycle::Active)) + page::filter_menu_item_html(current, sort, MemberFilter::Status(UserLifecycle::PendingInvite))),
            )
            &&& markup::shows(
                out,
                (page::filter_menu_item_html(current, sort, MemberFilter::Status(UserLifecycle::PendingInvite)) + page::filter_menu_item_html(current, sort, MemberFilter::Status(UserLifecycle::Deactivated))),
            )
        }),
{
    let (tpl, holes) = lemma_filter_menu();
    let parts = seq![
        html::escaped(listing::filter_label(current)),
        CHEVRON_DOWN_ICON@,
        page::filter_menu_item_html(current, sort, MemberFilter::All),
        page::filter_menu_item_html(current, sort, MemberFilter::Role(InstanceRole::Owner)),
        page::filter_menu_item_html(current, sort, MemberFilter::Role(InstanceRole::Admin)),
        page::filter_menu_item_html(current, sort, MemberFilter::Role(InstanceRole::Member)),
        page::filter_menu_item_html(current, sort, MemberFilter::Status(UserLifecycle::Active)),
        page::filter_menu_item_html(current, sort, MemberFilter::Status(UserLifecycle::PendingInvite)),
        page::filter_menu_item_html(current, sort, MemberFilter::Status(UserLifecycle::Deactivated)),
        page::filter_menu_item_html(current, sort, MemberFilter::Status(UserLifecycle::Anonymized)),
    ];
    assert(page::filter_menu_html(current, sort) == markup::filled(tpl, parts, 10).done()) by {
        reveal_with_fuel(markup::filled, 11);
    }
    markup::lemma_hole(tpl, holes, parts, 0, "<span class=\"filter-trigger-value\">"@, "</span>"@);
    markup::lemma_hole(
        tpl,
        holes,
        parts,
        2,
        "<div class=\"filter-menu-list\">"@,
        "<div class=\"filter-menu-section\">"@,
    );
    assert(tpl.subrange(243, 243) =~= Seq::<char>::empty());
    markup::lemma_hole(
        tpl,
        holes,
        parts,
        3,
        "<div class=\"filter-menu-section\">Role</div>"@,
        Seq::<char>::empty(),
    );
    assert("<div class=\"filter-menu-section\">Role</div>"@ + parts[3] + Seq::<char>::empty() =~= "<div class=\"filter-menu-section\">Role</div>"@ + parts[3]);
    assert(tpl.subrange(243, 243) =~= Seq::<char>::empty());
    assert(tpl.subrange(244, 244) =~= Seq::<char>::empty());
    markup::lemma_hole(tpl, holes, parts, 4, Seq::<char>::empty(), Seq::<char>::empty());
    assert(Seq::<char>::empty() + parts[4] + Seq::<char>::empty() =~= parts[4]);
    assert(tpl.subrange(244, 244) =~= Seq::<char>::empty());
    markup::lemma_hole(
        tpl,
        holes,
        parts,
        5,
        Seq::<char>::empty(),
        "<div class=\"filter-menu-section\">"@,
    );
    assert(Seq::<char>::empty() + parts[5] + "<div class=\"filter-menu-section\">"@ =~= parts[5] + "<div class=\"filter-menu-section\">"@);
    assert(tpl.subrange(291, 291) =~= Seq::<char>::empty());
    markup::lemma_hole(
        tpl,
        holes,
        parts,
        6,
        "<div class=\"filter-menu-section\">Status</div>"@,
        Seq::<char>::empty(),
    );
    assert("<div class=\"filter-menu-section\">Status</div>"@ + parts[6] + Seq::<char>::empty() =~= "<div class=\"filter-menu-section\">Status</div>"@ + parts[6]);
    assert(tpl.subrange(291, 291) =~= Seq::<char>::empty());
    assert(tpl.subrange(292, 292) =~= Seq::<char>::empty());
    markup::lemma_hole(tpl, holes, parts, 7, Seq::<char>::empty(), Seq::<char>::empty());
    assert(Seq::<char>::empty() + parts[7] + Seq::<char>::empty() =~= parts[7]);
    assert(tpl.subrange(292, 292) =~= Seq::<char>::empty());
    assert(tpl.subrange(293, 293) =~= Seq::<char>::empty());
    markup::lemma_hole(tpl, holes, parts, 8, Seq::<char>::empty(), Seq::<char>::empty());
    assert(Seq::<char>::empty() + parts[8] + Seq::<char>::empty() =~= parts[8]);
    assert(tpl.subrange(293, 293) =~= Seq::<char>::empty());
    markup::lemma_hole(tpl, holes, parts, 9, Seq::<char>::empty(), "</div>"@);
    assert(Seq::<char>::empty() + parts[9] + "</div>"@ =~= parts[9] + "</div>"@);
    assert(tpl.subrange(243, 243) =~= Seq::<char>::empty());
    assert(tpl.subrange(244, 244) =~= Seq::<char>::empty());
    markup::lemma_two_holes(
        tpl,
        holes,
        parts,
        3,
        "</div>"@,
        Seq::<char>::empty(),
        Seq::<char>::empty(),
    );
    assert("</div>"@ + (parts[3] + Seq::<char>::empty() + parts[4]) + Seq::<char>::empty() =~= "</div>"@ + (parts[3] + parts[4]));
    assert(tpl.subrange(291, 291) =~= Seq::<char>::empty());
    assert(tpl.subrange(292, 292) =~= Seq::<char>::empty());
    markup::lemma_two_holes(
        tpl,
        holes,
        parts,
        6,
        "</div>"@,
        Seq::<char>::empty(),
        Seq::<char>::empty(),
    );
    assert("</div>"@ + (parts[6] + Seq::<char>::empty() + parts[7]) + Seq::<char>::empty() =~= "</div>"@ + (parts[6] + parts[7]));
    assert(tpl.subrange(291, 291) =~= Seq::<char>::empty());
    assert(tpl.subrange(292, 292) =~= Seq::<char>::empty());
    assert(tpl.subrange(293, 293) =~= Seq::<char>::empty());
    markup::lemma_two_holes(
        tpl,
        holes,
        parts,
        7,
        Seq::<char>::empty(),
        Seq::<char>::empty(),
        Seq::<char>::empty(),
    );
    assert(Seq::<char>::empty() + (parts[7] + Seq::<char>::empty() + parts[8]) + Seq::<char>::empty() =~= (parts[7] + parts[8]));
}

/// Where the holes of the template stand, and the texts around them.
proof fn lemma_sortable_th() -> (at: (Seq<char>, Seq<int>))
    ensures
        at.0 == page::SORTABLE_TH@,
        at.1 == seq![11int, 25, 37, 62],
        at.0.len() == 72,
        markup::holes_at(at.0, at.1),
        at.0.subrange(0, 11) == "<th class=\""@,
        at.0.subrange(12, 13) == "\""@,
        at.0.subrange(12, 25) == "\" aria-sort=\""@,
        at.0.subrange(26, 27) == "\""@,
        at.0.subrange(28, 37) == "<a href=\""@,
        at.0.subrange(38, 39) == "\""@,
        at.0.subrange(38, 62) == "\" class=\"col-sort-link\">"@,
        at.0.subrange(63, 67) == "</a>"@,
        "<th class=\""@.len() == 11,
        "\""@.len() == 1,
        "\" aria-sort=\""@.len() == 13,
        "<a href=\""@.len() == 9,
        "\" class=\"col-sort-link\">"@.len() == 24,
        "</a>"@.len() == 4,
{
    reveal_strlit("<th class=\"¤\" aria-sort=\"¤\"><a href=\"¤\" class=\"col-sort-link\">¤</a></th>");
    reveal_strlit("<th class=\"");
    reveal_strlit("\"");
    reveal_strlit("\" aria-sort=\"");
    reveal_strlit("<a href=\"");
    reveal_strlit("\" class=\"col-sort-link\">");
    reveal_strlit("</a>");
    let tpl = page::SORTABLE_TH@;
    let holes = seq![11int, 25, 37, 62];
    assert(markup::hole_at(tpl, holes, 0));
    assert(markup::hole_at(tpl, holes, 1));
    assert(markup::hole_at(tpl, holes, 2));
    assert(markup::hole_at(tpl, holes, 3));
    assert(tpl.subrange(0, 11) =~= "<th class=\""@);
    assert(tpl.subrange(12, 13) =~= "\""@);
    assert(tpl.subrange(12, 25) =~= "\" aria-sort=\""@);
    assert(tpl.subrange(26, 27) =~= "\""@);
    assert(tpl.subrange(28, 37) =~= "<a href=\""@);
    assert(tpl.subrange(38, 39) =~= "\""@);
    assert(tpl.subrange(38, 62) =~= "\" class=\"col-sort-link\">"@);
    assert(tpl.subrange(63, 67) =~= "</a>"@);
    (tpl, holes)
}

/// The head of a column is called by its label and leads to the table in another order.
pub proof fn law_sortable_th(
    label: Seq<char>,
    column: SortColumn,
    sort: SortState,
    filter: MemberFilter,
    extra_class: Seq<char>,
)
    ensures
        ({
            let out = page::sortable_th_html(label, column, sort, filter, extra_class);
            let is_active = column == sort.column;
            let next_dir = if is_active { listing::flipped(sort.direction) } else { SortDirection::Asc };
            let href = page::filtered_url_of(column, next_dir, filter);
            let marked = if is_active { "col-sortable"@ + " "@ + (match sort.direction { SortDirection::Asc => "col-sort-asc"@, SortDirection::Desc => "col-sort-desc"@, }) } else { "col-sortable"@ };
            let classes = if extra_class.len() > 0 { marked + " "@ + extra_class } else { marked };
            let aria_sort = if is_active { match sort.direction { SortDirection::Asc => "ascending", SortDirection::Desc => "descending", } } else { "none" };
            &&& markup::shows(out, "<th class=\""@ + html::escaped(classes) + "\""@)
            &&& markup::shows(out, "\" aria-sort=\""@ + html::escaped(aria_sort@) + "\""@)
            &&& markup::shows(out, "<a href=\""@ + html::escaped(href) + "\""@)
            &&& markup::shows(out, "\" class=\"col-sort-link\">"@ + html::escaped(label) + "</a>"@)
        }),
{
    let is_active = column == sort.column;
    let next_dir = if is_active { listing::flipped(sort.direction) } else { SortDirection::Asc };
    let href = page::filtered_url_of(column, next_dir, filter);
    let marked = if is_active { "col-sortable"@ + " "@ + (match sort.direction { SortDirection::Asc => "col-sort-asc"@, SortDirection::Desc => "col-sort-desc"@, }) } else { "col-sortable"@ };
    let classes = if extra_class.len() > 0 { marked + " "@ + extra_class } else { marked };
    let aria_sort = if is_active { match sort.direction { SortDirection::Asc => "ascending", SortDirection::Desc => "descending", } } else { "none" };
    let (tpl, holes) = lemma_sortable_th();
    let parts = seq![
        html::escaped(classes),
        html::escaped(aria_sort@),
        html::escaped(href),
        html::escaped(label),
    ];
    assert(page::sortable_th_html(label, column, sort, filter, extra_class) == markup::filled(tpl, parts, 4).done()) by {
        reveal_with_fuel(markup::filled, 5);
    }
    markup::lemma_hole(tpl, holes, parts, 0, "<th class=\""@, "\""@);
    markup::lemma_hole(tpl, holes, parts, 1, "\" aria-sort=\""@, "\""@);
    markup::lemma_hole(tpl, holes, parts, 2, "<a href=\""@, "\""@);
    markup::lemma_hole(tpl, holes, parts, 3, "\" class=\"col-sort-link\">"@, "</a>"@);
}

/// Where the holes of the template stand, and the texts around them.
proof fn lemma_rows_option() -> (at: (Seq<char>, Seq<int>))
    ensures
        at.0 == page::ROWS_OPTION@,
        at.1 == seq![10int, 19, 28, 36],
        at.0.len() == 41,
        markup::holes_at(at.0, at.1),
        at.0.subrange(0, 10) == "<a class=\""@,
        at.0.subrange(11, 12) == "\""@,
        at.0.subrange(11, 19) == "\" href=\""@,
        at.0.subrange(20, 21) == "\""@,
        at.0.subrange(22, 28) == "<span>"@,
        at.0.subrange(29, 36) == "</span>"@,
        at.0.subrange(37, 41) == "</a>"@,
        "<a class=\""@.len() == 10,
        "\""@.len() == 1,
        "\" href=\""@.len() == 8,
        "<span>"@.len() == 6,
        "</span>"@.len() == 7,
        "</a>"@.len() == 4,
{
    reveal_strlit("<a class=\"¤\" href=\"¤\"><span>¤</span>¤</a>");
    reveal_strlit("<a class=\"");
    reveal_strlit("\"");
    reveal_strlit("\" href=\"");
    reveal_strlit("<span>");
    reveal_strlit("</span>");
    reveal_strlit("</a>");
    let tpl = page::ROWS_OPTION@;
    let holes = seq![10int, 19, 28, 36];
    assert(markup::hole_at(tpl, holes, 0));
    assert(markup::hole_at(tpl, holes, 1));
    assert(markup::hole_at(tpl, holes, 2));
    assert(markup::hole_at(tpl, holes, 3));
    assert(tpl.subrange(0, 10) =~= "<a class=\""@);
    assert(tpl.subrange(11, 12) =~= "\""@);
    assert(tpl.subrange(11, 19) =~= "\" href=\""@);
    assert(tpl.subrange(20, 21) =~= "\""@);
    assert(tpl.subrange(22, 28) =~= "<span>"@);
    assert(tpl.subrange(29, 36) =~= "</span>"@);
    assert(tpl.subrange(37, 41) =~= "</a>"@);
    (tpl, holes)
}

/// An option for the number of rows says that number and leads to a table with so many.
pub proof fn law_rows_option(href: Seq<char>, option: u32, active: bool)
    ensures
        ({
            let out = page::rows_option_html(href, option, active);
            &&& markup::shows(
                out,
                "<a class=\""@ + html::escaped(if active { "filter-menu-item filter-menu-item-active"@ } else { "filter-menu-item"@ }) + "\""@,
            )
            &&& markup::shows(out, "\" href=\""@ + html::escaped(href) + "\""@)
            &&& markup::shows(out, "<span>"@ + text::decimal_int(option as int) + "</span>"@)
            &&& markup::shows(out, "</span>"@ + html::when(active, CHECK_SMALL_ICON@) + "</a>"@)
        }),
{
    let (tpl, holes) = lemma_rows_option();
    let parts = seq![
        html::escaped(if active { "filter-menu-item filter-menu-item-active"@ } else { "filter-menu-item"@ }),
        html::escaped(href),
        text::decimal_int(option as int),
        html::when(active, CHECK_SMALL_ICON@),
    ];
    assert(page::rows_option_html(href, option, active) == markup::filled(tpl, parts, 4).done()) by {
        reveal_with_fuel(markup::filled, 5);
    }
    markup::lemma_hole(tpl, holes, parts, 0, "<a class=\""@, "\""@);
    markup::lemma_hole(tpl, holes, parts, 1, "\" href=\""@, "\""@);
    markup::lemma_hole(tpl, holes, parts, 2, "<span>"@, "</span>"@);
    markup::lemma_hole(tpl, holes, parts, 3, "</span>"@, "</a>"@);
}

/// Where the holes of the template stand, and the texts around them.
proof fn lemma_pagination_bar() -> (at: (Seq<char>, Seq<int>))
    ensures
        at.0 == page::PAGINATION_BAR@,
        at.1 == seq![263int, 279, 318, 366, 408, 453, 496, 538, 539, 540, 541, 542, 775, 783, 824],
        at.0.len() == 853,
        markup::holes_at(at.0, at.1),
        at.0.subrange(214, 263) == "name=\"page\" class=\"pagination-jump-input\" value=\""@,
        at.0.subrange(264, 265) == "\""@,
        at.0.subrange(264, 279) == "\" min=\"1\" max=\""@,
        at.0.subrange(280, 281) == "\""@,
        at.0.subrange(282, 318) == "<span class=\"pagination-jump-of\">of "@,
        at.0.subrange(319, 326) == "</span>"@,
        at.0.subrange(326, 366) == "<input type=\"hidden\" name=\"sort\" value=\""@,
        at.0.subrange(367, 368) == "\""@,
        at.0.subrange(369, 408) == "<input type=\"hidden\" name=\"dir\" value=\""@,
        at.0.subrange(409, 410) == "\""@,
        at.0.subrange(411, 453) == "<input type=\"hidden\" name=\"filter\" value=\""@,
        at.0.subrange(454, 455) == "\""@,
        at.0.subrange(456, 496) == "<input type=\"hidden\" name=\"rows\" value=\""@,
        at.0.subrange(497, 498) == "\""@,
        at.0.subrange(506, 538) == "<div class=\"pagination-numbers\">"@,
        at.0.subrange(543, 549) == "</div>"@,
        at.0.subrange(740, 775) == "<span class=\"filter-trigger-value\">"@,
        at.0.subrange(776, 783) == "</span>"@,
        at.0.subrange(794, 824) == "<div class=\"filter-menu-list\">"@,
        at.0.subrange(825, 831) == "</div>"@,
        "name=\"page\" class=\"pagination-jump-input\" value=\""@.len() == 49,
        "\""@.len() == 1,
        "\" min=\"1\" max=\""@.len() == 15,
        "<span class=\"pagination-jump-of\">of "@.len() == 36,
        "</span>"@.len() == 7,
        "<input type=\"hidden\" name=\"sort\" value=\""@.len() == 40,
        "<input type=\"hidden\" name=\"dir\" value=\""@.len() == 39,
        "<input type=\"hidden\" name=\"filter\" value=\""@.len() == 42,
        "<input type=\"hidden\" name=\"rows\" value=\""@.len() == 40,
        "<div class=\"pagination-numbers\">"@.len() == 32,
        "</div>"@.len() == 6,
        "<span class=\"filter-trigger-value\">"@.len() == 35,
        "<div class=\"filter-menu-list\">"@.len() == 30,
{
    reveal_strlit("<nav class=\"pagination-bar\" aria-label=\"Pagination\"><form method=\"get\" action=\"/members\" class=\"pagination-jump\"><label class=\"pagination-jump-label\" for=\"page-jump\">Page</label><input type=\"number\" id=\"page-jump\" name=\"page\" class=\"pagination-jump-input\" value=\"¤\" min=\"1\" max=\"¤\"><span class=\"pagination-jump-of\">of ¤</span><input type=\"hidden\" name=\"sort\" value=\"¤\"><input type=\"hidden\" name=\"dir\" value=\"¤\"><input type=\"hidden\" name=\"filter\" value=\"¤\"><input type=\"hidden\" name=\"rows\" value=\"¤\"></form><div class=\"pagination-numbers\">¤¤¤¤¤</div><div class=\"pagination-rows\"><span class=\"pagination-rows-label\">Rows per page</span><details class=\"filter-menu pagination-rows-menu\"><summary class=\"filter-trigger pagination-rows-trigger\"><span class=\"filter-trigger-value\">¤</span>¤</summary><div class=\"filter-menu-list\">¤</div></details></div></nav>");
    reveal_strlit("name=\"page\" class=\"pagination-jump-input\" value=\"");
    reveal_strlit("\"");
    reveal_strlit("\" min=\"1\" max=\"");
    reveal_strlit("<span class=\"pagination-jump-of\">of ");
    reveal_strlit("</span>");
    reveal_strlit("<input type=\"hidden\" name=\"sort\" value=\"");
    reveal_strlit("<input type=\"hidden\" name=\"dir\" value=\"");
    reveal_strlit("<input type=\"hidden\" name=\"filter\" value=\"");
    reveal_strlit("<input type=\"hidden\" name=\"rows\" value=\"");
    reveal_strlit("<div class=\"pagination-numbers\">");
    reveal_strlit("</div>");
    reveal_strlit("<span class=\"filter-trigger-value\">");
    reveal_strlit("<div class=\"filter-menu-list\">");
    let tpl = page::PAGINATION_BAR@;
    let holes = seq![263int, 279, 318, 366, 408, 453, 496, 538, 539, 540, 541, 542, 775, 783, 824];
    assert(markup::hole_at(tpl, holes, 0));
    assert(markup::hole_at(tpl, holes, 1));
    assert(markup::hole_at(tpl, holes, 2));
    assert(markup::hole_at(tpl, holes, 3));
    assert(markup::hole_at(tpl, holes, 4));
    assert(markup::hole_at(tpl, holes, 5));
    assert(markup::hole_at(tpl, holes, 6));
    assert(markup::hole_at(tpl, holes, 7));
    assert(markup::hole_at(tpl, holes, 8));
    assert(markup::hole_at(tpl, holes, 9));
    assert(markup::hole_at(tpl, holes, 10));
    assert(markup::hole_at(tpl, holes, 11));
    assert(markup::hole_at(tpl, holes, 12));
    assert(markup::hole_at(tpl, holes, 13));
    assert(markup::hole_at(tpl, holes, 14));
    assert(tpl.subrange(214, 263) =~= "name=\"page\" class=\"pagination-jump-input\" value=\""@);
    assert(tpl.subrange(264, 265) =~= "\""@);
    assert(tpl.subrange(264, 279) =~= "\" min=\"1\" max=\""@);
    assert(tpl.subrange(280, 281) =~= "\""@);
    assert(tpl.subrange(282, 318) =~= "<span class=\"pagination-jump-of\">of "@);
    assert(tpl.subrange(319, 326) =~= "</span>"@);
    assert(tpl.subrange(326, 366) =~= "<input type=\"hidden\" name=\"sort\" value=\""@);
    assert(tpl.subrange(367, 368) =~= "\""@);
    assert(tpl.subrange(369, 408) =~= "<input type=\"hidden\" name=\"dir\" value=\""@);
    assert(tpl.subrange(409, 410) =~= "\""@);
    assert(tpl.subrange(411, 453) =~= "<input type=\"hidden\" name=\"filter\" value=\""@);
    assert(tpl.subrange(454, 455) =~= "\""@);
    assert(tpl.subrange(456, 496) =~= "<input type=\"hidden\" name=\"rows\" value=\""@);
    assert(tpl.subrange(497, 498) =~= "\""@);
    assert(tpl.subrange(506, 538) =~= "<div class=\"pagination-numbers\">"@);
    assert(tpl.subrange(543, 549) =~= "</div>"@);
    assert(tpl.subrange(740, 775) =~= "<span class=\"filter-trigger-value\">"@);
    assert(tpl.subrange(776, 783) =~= "</span>"@);
    assert(tpl.subrange(794, 824) =~= "<div class=\"filter-menu-list\">"@);
    assert(tpl.subrange(825, 831) =~= "</div>"@);
    (tpl, holes)
}

/// The paging of the table says which page is shown of how many, keeps order and filter, and leads
/// to the first, the previous, the next and the last page.
pub proof fn law_pagination_bar(state: PaginationState, sort: SortState, filter: MemberFilter)
    ensures
        ({
            let out = page::pagination_bar_html(state, sort, filter);
            let cur = state.current_page;
            let total = state.total_pages;
            let rows = state.rows_per_page;
            let at_first = cur <= 1;
            let at_last = cur >= total;
            let prev_page = page::previous_page(cur);
            let next_page = page::following_page(cur, total);
            &&& markup::shows(
                out,
                "name=\"page\" class=\"pagination-jump-input\" value=\""@ + text::decimal_int(cur as int) + "\""@,
            )
            &&& markup::shows(out, "\" min=\"1\" max=\""@ + text::decimal_int(total as int) + "\""@)
            &&& markup::shows(
                out,
                "<span class=\"pagination-jump-of\">of "@ + text::decimal_int(total as int) + "</span>"@,
            )
            &&& markup::shows(
                out,
                "<input type=\"hidden\" name=\"sort\" value=\""@ + html::escaped(listing::sort_column_token(sort.column)) + "\""@,
            )
            &&& markup::shows(
                out,
                "<input type=\"hidden\" name=\"dir\" value=\""@ + html::escaped(listing::sort_direction_token(sort.direction)) + "\""@,
            )
            &&& markup::shows(
                out,
                "<input type=\"hidden\" name=\"filter\" value=\""@ + html::escaped(listing::filter_token(filter)) + "\""@,
            )
            &&& markup::shows(
                out,
                "<input type=\"hidden\" name=\"rows\" value=\""@ + text::decimal_int(rows as int) + "\""@,
            )
            &&& markup::shows(
                out,
                "<div class=\"pagination-numbers\">"@ + page::pagination_step_html(page::members_url_of(sort, filter, 1, rows), at_first, "first"@, CHEVRON_DOUBLE_LEFT_ICON@),
            )
            &&& markup::shows(
                out,
                page::pagination_step_html(page::members_url_of(sort, filter, prev_page, rows), at_first, "previous"@, CHEVRON_LEFT_ICON@),
            )
            &&& markup::shows(
                out,
                page::page_slots_html(listing::page_slots(cur, total), sort, filter, rows, cur),
            )
            &&& markup::shows(
                out,
                page::pagination_step_html(page::members_url_of(sort, filter, next_page, rows), at_last, "next"@, CHEVRON_RIGHT_ICON@),
            )
            &&& markup::shows(
                out,
                page::pagination_step_html(page::members_url_of(sort, filter, total, rows), at_last, "last"@, CHEVRON_DOUBLE_RIGHT_ICON@) + "</div>"@,
            )
            &&& markup::shows(
                out,
                "<span class=\"filter-trigger-value\">"@ + text::decimal_int(rows as int) + "</span>"@,
            )
            &&& markup::shows(
                out,
                "<div class=\"filter-menu-list\">"@ + page::rows_options_html(listing::rows_per_page_options(), sort, filter, rows) + "</div>"@,
            )
            &&& markup::shows(
                out,
                "<div class=\"pagination-numbers\">"@ + (page::pagination_step_html(page::members_url_of(sort, filter, 1, rows), at_first, "first"@, CHEVRON_DOUBLE_LEFT_ICON@) + page::pagination_step_html(page::members_url_of(sort, filter, prev_page, rows), at_first, "previous"@, CHEVRON_LEFT_ICON@)),
            )
            &&& markup::shows(
                out,
                (page::pagination_step_html(page::members_url_of(sort, filter, prev_page, rows), at_first, "previous"@, CHEVRON_LEFT_ICON@) + page::page_slots_html(listing::page_slots(cur, total), sort, filter, rows, cur)),
            )
            &&& markup::shows(
                out,
                (page::page_slots_html(listing::page_slots(cur, total), sort, filter, rows, cur) + page::pagination_step_html(page::members_url_of(sort, filter, next_page, rows), at_last, "next"@, CHEVRON_RIGHT_ICON@)),
            )
        }),
{
    let cur = state.current_page;
    let total = state.total_pages;
    let rows = state.rows_per_page;
    let at_first = cur <= 1;
    let at_last = cur >= total;
    let prev_page = page::previous_page(cur);
    let next_page = page::following_page(cur, total);
    let (tpl, holes) = lemma_pagination_bar();
    let parts = seq![
        text::decimal_int(cur as int),
        text::decimal_int(total as int),
        text::decimal_int(total as int),
        html::escaped(listing::sort_column_token(sort.column)),
        html::escaped(listing::sort_direction_token(sort.direction)),
        html::escaped(listing::filter_token(filter)),
        text::decimal_int(rows as int),
        page::pagination_step_html(page::members_url_of(sort, filter, 1, rows), at_first, "first"@, CHEVRON_DOUBLE_LEFT_ICON@),
        page::pagination_step_html(page::members_url_of(sort, filter, prev_page, rows), at_first, "previous"@, CHEVRON_LEFT_ICON@),
        page::page_slots_html(listing::page_slots(cur, total), sort, filter, rows, cur),
        page::pagination_step_html(page::members_url_of(sort, filter, next_page, rows), at_last, "next"@, CHEVRON_RIGHT_ICON@),
        page::pagination_step_html(page::members_url_of(sort, filter, total, rows), at_last, "last"@, CHEVRON_DOUBLE_RIGHT_ICON@),
        text::decimal_int(rows as int),
        CHEVRON_DOWN_ICON@,
        page::rows_options_html(listing::rows_per_page_options(), sort, filter, rows),
    ];
    assert(page::pagination_bar_html(state, sort, filter) == markup::filled(tpl, parts, 15).done()) by {
        reveal_with_fuel(markup::filled, 16);
    }
    markup::lemma_hole(
        tpl,
        holes,
        parts,
        0,
        "name=\"page\" class=\"pagination-jump-input\" value=\""@,
        "\""@,
    );
    markup::lemma_hole(tpl, holes, parts, 1, "\" min=\"1\" max=\""@, "\""@);
    markup::lemma_hole(tpl, holes, parts, 2, "<span class=\"pagination-jump-of\">of "@, "</span>"@);
    markup::lemma_hole(
        tpl,
        holes,
        parts,
        3,
        "<input type=\"hidden\" name=\"sort\" value=\""@,
        "\""@,
    );
    markup::lemma_hole(
        tpl,
        holes,
        parts,
        4,
        "<input type=\"hidden\" name=\"dir\" value=\""@,
        "\""@,
    );
    markup::lemma_hole(
        tpl,
        holes,
        parts,
        5,
        "<input type=\"hidden\" name=\"filter\" value=\""@,
        "\""@,
    );
    markup::lemma_hole(
        tpl,
        holes,
        parts,
        6,
        "<input type=\"hidden\" name=\"rows\" value=\""@,
        "\""@,
    );
    assert(tpl.subrange(539, 539) =~= Seq::<char>::empty());
    markup::lemma_hole(
        tpl,
        holes,
        parts,
        7,
        "<div class=\"pagination-numbers\">"@,
        Seq::<char>::empty(),
    );
    assert("<div class=\"pagination-numbers\">"@ + parts[7] + Seq::<char>::empty() =~= "<div class=\"pagination-numbers\">"@ + parts[7]);
    assert(tpl.subrange(539, 539) =~= Seq::<char>::empty());
    assert(tpl.subrange(540, 540) =~= Seq::<char>::empty());
    markup::lemma_hole(tpl, holes, parts, 8, Seq::<char>::empty(), Seq::<char>::empty());
    assert(Seq::<char>::empty() + parts[8] + Seq::<char>::empty() =~= parts[8]);
    assert(tpl.subrange(540, 540) =~= Seq::<char>::empty());
    assert(tpl.subrange(541, 541) =~= Seq::<char>::empty());
    markup::lemma_hole(tpl, holes, parts, 9, Seq::<char>::empty(), Seq::<char>::empty());
    assert(Seq::<char>::empty() + parts[9] + Seq::<char>::empty() =~= parts[9]);
    assert(tpl.subrange(541, 541) =~= Seq::<char>::empty());
    assert(tpl.subrange(542, 542) =~= Seq::<char>::empty());
    markup::lemma_hole(tpl, holes, parts, 10, Seq::<char>::empty(), Seq::<char>::empty());
    assert(Seq::<char>::empty() + parts[10] + Seq::<char>::empty() =~= parts[10]);
    assert(tpl.subrange(542, 542) =~= Seq::<char>::empty());
    markup::lemma_hole(tpl, holes, parts, 11, Seq::<char>::empty(), "</div>"@);
    assert(Seq::<char>::empty() + parts[11] + "</div>"@ =~= parts[11] + "</div>"@);
    markup::lemma_hole(tpl, holes, parts, 12, "<span class=\"filter-trigger-value\">"@, "</span>"@);
    markup::lemma_hole(tpl, holes, parts, 14, "<div class=\"filter-menu-list\">"@, "</div>"@);
    assert(tpl.subrange(539, 539) =~= Seq::<char>::empty());
    assert(tpl.subrange(540, 540) =~= Seq::<char>::empty());
    markup::lemma_two_holes(
        tpl,
        holes,
        parts,
        7,
        "<div class=\"pagination-numbers\">"@,
        Seq::<char>::empty(),
        Seq::<char>::empty(),
    );
    assert("<div class=\"pagination-numbers\">"@ + (parts[7] + Seq::<char>::empty() + parts[8]) + Seq::<char>::empty() =~= "<div class=\"pagination-numbers\">"@ + (parts[7] + parts[8]));
    assert(tpl.subrange(539, 539) =~= Seq::<char>::empty());
    assert(tpl.subrange(540, 540) =~= Seq::<char>::empty());
    assert(tpl.subrange(541, 541) =~= Seq::<char>::empty());
    markup::lemma_two_holes(
        tpl,
        holes,
        parts,
        8,
        Seq::<char>::empty(),
        Seq::<char>::empty(),
        Seq::<char>::empty(),
    );
    assert(Seq::<char>::empty() + (parts[8] + Seq::<char>::empty() + parts[9]) + Seq::<char>::empty() =~= (parts[8] + parts[9]));
    assert(tpl.subrange(540, 540) =~= Seq::<char>::empty());
    assert(tpl.subrange(541, 541) =~= Seq::<char>::empty());
    assert(tpl.subrange(542, 542) =~= Seq::<char>::empty());
    markup::lemma_two_holes(
        tpl,
        holes,
        parts,
        9,
        Seq::<char>::empty(),
        Seq::<char>::empty(),
        Seq::<char>::empty(),
    );
    assert(Seq::<char>::empty() + (parts[9] + Seq::<char>::empty() + parts[10]) + Seq::<char>::empty() =~= (parts[9] + parts[10]));
}

/// Where the holes of the template stand, and the texts around them.
proof fn lemma_pending_alert_card() -> (at: (Seq<char>, Seq<int>))
    ensures
        at.0 == page::PENDING_ALERT_CARD@,
        at.1 == seq![90int, 156],
        at.0.len() == 419,
        markup::holes_at(at.0, at.1),
        at.0.subrange(126, 156) == "<div class=\"alert-card-title\">"@,
        at.0.subrange(157, 163) == "</div>"@,
        "<div class=\"alert-card-title\">"@.len() == 30,
        "</div>"@.len() == 6,
{
    reveal_strlit("<section class=\"alert-card alert-card-primary\" role=\"status\"><div class=\"alert-card-icon\">¤</div><div class=\"alert-card-body\"><div class=\"alert-card-title\">¤</div><div class=\"alert-card-message\">Owner-initiated changes wait 72 hours so any Owner can veto before they apply. Review now to act before the window expires.</div></div><div class=\"alert-card-actions\"><a class=\"btn\" href=\"/pending\">Review</a></div></section>");
    reveal_strlit("<div class=\"alert-card-title\">");
    reveal_strlit("</div>");
    let tpl = page::PENDING_ALERT_CARD@;
    let holes = seq![90int, 156];
    assert(markup::hole_at(tpl, holes, 0));
    assert(markup::hole_at(tpl, holes, 1));
    assert(tpl.subrange(126, 156) =~= "<div class=\"alert-card-title\">"@);
    assert(tpl.subrange(157, 163) =~= "</div>"@);
    (tpl, holes)
}

/// The card says what waits.
pub proof fn law_pending_alert_card(count: u32)
    ensures
        ({
            let out = page::pending_alert_card_html(count);
            let title = if count == 1 { "1 pending action awaiting review"@ } else { text::decimal(count as nat) + " pending actions awaiting review"@ };
            &&& markup::shows(
                out,
                "<div class=\"alert-card-title\">"@ + html::escaped(title) + "</div>"@,
            )
        }),
{
    let title = if count == 1 { "1 pending action awaiting review"@ } else { text::decimal(count as nat) + " pending actions awaiting review"@ };
    let (tpl, holes) = lemma_pending_alert_card();
    let parts = seq![INFO_CIRCLE_ICON@, html::escaped(title)];
    assert(page::pending_alert_card_html(count) == markup::filled(tpl, parts, 2).done()) by {
        reveal_with_fuel(markup::filled, 3);
    }
    markup::lemma_hole(tpl, holes, parts, 1, "<div class=\"alert-card-title\">"@, "</div>"@);
}

/// Where the holes of the template stand, and the texts around them.
proof fn lemma_deactivate_dialog() -> (at: (Seq<char>, Seq<int>))
    ensures
        at.0 == page::DEACTIVATE_DIALOG@,
        at.1 == seq![27int, 101, 135, 221, 308, 339, 391, 500, 677],
        at.0.len() == 721,
        markup::holes_at(at.0, at.1),
        at.0.subrange(0, 27) == "<dialog id=\"dlg-deactivate-"@,
        at.0.subrange(28, 29) == "\""@,
        at.0.subrange(75, 101) == "<form id=\"form-deactivate-"@,
        at.0.subrange(102, 103) == "\""@,
        at.0.subrange(102, 135) == "\" method=\"post\" action=\"/members/"@,
        at.0.subrange(136, 148) == "/deactivate\""@,
        at.0.subrange(324, 339) == "<h2>Deactivate "@,
        at.0.subrange(340, 341) == "?"@,
        at.0.subrange(346, 391) == "<p class=\"dialog-description\">Revokes all of "@,
        at.0.subrange(392, 496) == "'s active sessions. Their credentials stay in place so reactivation later doesn't need a password reset."@,
        at.0.subrange(496, 500) == "</p>"@,
        at.0.subrange(501, 529) == "<div class=\"dialog-actions\">"@,
        at.0.subrange(628, 677) == "class=\"btn\" data-reauth-confirm=\"form-deactivate-"@,
        at.0.subrange(678, 679) == "\""@,
        "<dialog id=\"dlg-deactivate-"@.len() == 27,
        "\""@.len() == 1,
        "<form id=\"form-deactivate-"@.len() == 26,
        "\" method=\"post\" action=\"/members/"@.len() == 33,
        "/deactivate\""@.len() == 12,
        "<h2>Deactivate "@.len() == 15,
        "?"@.len() == 1,
        "<p class=\"dialog-description\">Revokes all of "@.len() == 45,
        "'s active sessions. Their credentials stay in place so reactivation later doesn't need a password reset."@.len() == 104,
        "</p>"@.len() == 4,
        "<div class=\"dialog-actions\">"@.len() == 28,
        "class=\"btn\" data-reauth-confirm=\"form-deactivate-"@.len() == 49,
{
    reveal_strlit("<dialog id=\"dlg-deactivate-¤\" class=\"action-dialog action-dialog-centered\"><form id=\"form-deactivate-¤\" method=\"post\" action=\"/members/¤/deactivate\"><div class=\"dialog-header\"><div class=\"dialog-icon dialog-icon-warning\">¤</div><button type=\"button\" class=\"dialog-close\" data-close-dialog aria-label=\"Close\">¤</button></div><h2>Deactivate ¤?</h2><p class=\"dialog-description\">Revokes all of ¤'s active sessions. Their credentials stay in place so reactivation later doesn't need a password reset.</p>¤<div class=\"dialog-actions\"><button type=\"button\" class=\"btn-secondary\" data-close-dialog>Cancel</button><button type=\"button\" class=\"btn\" data-reauth-confirm=\"form-deactivate-¤\">Deactivate</button></div></form></dialog>");
    reveal_strlit("<dialog id=\"dlg-deactivate-");
    reveal_strlit("\"");
    reveal_strlit("<form id=\"form-deactivate-");
    reveal_strlit("\" method=\"post\" action=\"/members/");
    reveal_strlit("/deactivate\"");
    reveal_strlit("<h2>Deactivate ");
    reveal_strlit("?");
    reveal_strlit("<p class=\"dialog-description\">Revokes all of ");
    reveal_strlit("'s active sessions. Their credentials stay in place so reactivation later doesn't need a password reset.");
    reveal_strlit("</p>");
    reveal_strlit("<div class=\"dialog-actions\">");
    reveal_strlit("class=\"btn\" data-reauth-confirm=\"form-deactivate-");
    let tpl = page::DEACTIVATE_DIALOG@;
    let holes = seq![27int, 101, 135, 221, 308, 339, 391, 500, 677];
    assert(markup::hole_at(tpl, holes, 0));
    assert(markup::hole_at(tpl, holes, 1));
    assert(markup::hole_at(tpl, holes, 2));
    assert(markup::hole_at(tpl, holes, 3));
    assert(markup::hole_at(tpl, holes, 4));
    assert(markup::hole_at(tpl, holes, 5));
    assert(markup::hole_at(tpl, holes, 6));
    assert(markup::hole_at(tpl, holes, 7));
    assert(markup::hole_at(tpl, holes, 8));
    assert(tpl.subrange(0, 27) =~= "<dialog id=\"dlg-deactivate-"@);
    assert(tpl.subrange(28, 29) =~= "\""@);
    assert(tpl.subrange(75, 101) =~= "<form id=\"form-deactivate-"@);
    assert(tpl.subrange(102, 103) =~= "\""@);
    assert(tpl.subrange(102, 135) =~= "\" method=\"post\" action=\"/members/"@);
    assert(tpl.subrange(136, 148) =~= "/deactivate\""@);
    assert(tpl.subrange(324, 339) =~= "<h2>Deactivate "@);
    assert(tpl.subrange(340, 341) =~= "?"@);
    assert(tpl.subrange(346, 391) =~= "<p class=\"dialog-description\">Revokes all of "@);
    assert(tpl.subrange(392, 496) =~= "'s active sessions. Their credentials stay in place so reactivation later doesn't need a password reset."@);
    assert(tpl.subrange(496, 500) =~= "</p>"@);
    assert(tpl.subrange(501, 529) =~= "<div class=\"dialog-actions\">"@);
    assert(tpl.subrange(628, 677) =~= "class=\"btn\" data-reauth-confirm=\"form-deactivate-"@);
    assert(tpl.subrange(678, 679) =~= "\""@);
    (tpl, holes)
}

/// The dialog to deactivate a member names them, carries the token of the session and goes to that
/// very member.
pub proof fn law_deactivate_dialog(target: &User, csrf_token: Seq<char>, id: Uuid)
    ensures
        ({
            let out = page::render_action_dialog_html(page::RowAction::Deactivate, target, csrf_token, id);
            let name = target.display_name;
            &&& markup::shows(
                out,
                "<dialog id=\"dlg-deactivate-"@ + html::escaped(model::uuid_text(id)) + "\""@,
            )
            &&& markup::shows(
                out,
                "<form id=\"form-deactivate-"@ + html::escaped(model::uuid_text(id)) + "\""@,
            )
            &&& markup::shows(
                out,
                "\" method=\"post\" action=\"/members/"@ + html::escaped(model::uuid_text(id)) + "/deactivate\""@,
            )
            &&& markup::shows(out, "<h2>Deactivate "@ + html::escaped(name@) + "?"@)
            &&& markup::shows(
                out,
                "<p class=\"dialog-description\">Revokes all of "@ + html::escaped(name@) + "'s active sessions. Their credentials stay in place so reactivation later doesn't need a password reset."@,
            )
            &&& markup::shows(
                out,
                "</p>"@ + shell::csrf_input_html(csrf_token) + "<div class=\"dialog-actions\">"@,
            )
            &&& markup::shows(
                out,
                "class=\"btn\" data-reauth-confirm=\"form-deactivate-"@ + html::escaped(model::uuid_text(id)) + "\""@,
            )
        }),
{
    let name = target.display_name;
    let (tpl, holes) = lemma_deactivate_dialog();
    let parts = seq![
        html::escaped(model::uuid_text(id)),
        html::escaped(model::uuid_text(id)),
        html::escaped(model::uuid_text(id)),
        SHIELD_ICON@,
        CLOSE_ICON@,
        html::escaped(name@),
        html::escaped(name@),
        shell::csrf_input_html(csrf_token),
        html::escaped(model::uuid_text(id)),
    ];
    assert(page::render_action_dialog_html(page::RowAction::Deactivate, target, csrf_token, id) == markup::filled(tpl, parts, 9).done()) by {
        reveal_with_fuel(markup::filled, 10);
    }
    markup::lemma_hole(tpl, holes, parts, 0, "<dialog id=\"dlg-deactivate-"@, "\""@);
    markup::lemma_hole(tpl, holes, parts, 1, "<form id=\"form-deactivate-"@, "\""@);
    markup::lemma_hole(
        tpl,
        holes,
        parts,
        2,
        "\" method=\"post\" action=\"/members/"@,
        "/deactivate\""@,
    );
    markup::lemma_hole(tpl, holes, parts, 5, "<h2>Deactivate "@, "?"@);
    markup::lemma_hole(
        tpl,
        holes,
        parts,
        6,
        "<p class=\"dialog-description\">Revokes all of "@,
        "'s active sessions. Their credentials stay in place so reactivation later doesn't need a password reset."@,
    );
    markup::lemma_hole(tpl, holes, parts, 7, "</p>"@, "<div class=\"dialog-actions\">"@);
    markup::lemma_hole(
        tpl,
        holes,
        parts,
        8,
        "class=\"btn\" data-reauth-confirm=\"form-deactivate-"@,
        "\""@,
    );
}

/// Where the holes of the template stand, and the texts around them.
proof fn lemma_reactivate_dialog() -> (at: (Seq<char>, Seq<int>))
    ensures
        at.0 == page::REACTIVATE_DIALOG@,
        at.1 == seq![27int, 101, 135, 220, 307, 338, 398, 522, 699],
        at.0.len() == 743,
        markup::holes_at(at.0, at.1),
        at.0.subrange(0, 27) == "<dialog id=\"dlg-reactivate-"@,
        at.0.subrange(28, 29) == "\""@,
        at.0.subrange(75, 101) == "<form id=\"form-reactivate-"@,
        at.0.subrange(102, 103) == "\""@,
        at.0.subrange(102, 135) == "\" method=\"post\" action=\"/members/"@,
        at.0.subrange(136, 148) == "/reactivate\""@,
        at.0.subrange(323, 338) == "<h2>Reactivate "@,
        at.0.subrange(339, 340) == "?"@,
        at.0.subrange(345, 398) == "<p class=\"dialog-description\">Re-enables sign-in for "@,
        at.0.subrange(399, 518) == ". Their existing password still works. They'll need to sign in again (any prior sessions were revoked at deactivation)."@,
        at.0.subrange(518, 522) == "</p>"@,
        at.0.subrange(523, 551) == "<div class=\"dialog-actions\">"@,
        at.0.subrange(650, 699) == "class=\"btn\" data-reauth-confirm=\"form-reactivate-"@,
        at.0.subrange(700, 701) == "\""@,
        "<dialog id=\"dlg-reactivate-"@.len() == 27,
        "\""@.len() == 1,
        "<form id=\"form-reactivate-"@.len() == 26,
        "\" method=\"post\" action=\"/members/"@.len() == 33,
        "/reactivate\""@.len() == 12,
        "<h2>Reactivate "@.len() == 15,
        "?"@.len() == 1,
        "<p class=\"dialog-description\">Re-enables sign-in for "@.len() == 53,
        ". Their existing password still works. They'll need to sign in again (any prior sessions were revoked at deactivation)."@.len() == 119,
        "</p>"@.len() == 4,
        "<div class=\"dialog-actions\">"@.len() == 28,
        "class=\"btn\" data-reauth-confirm=\"form-reactivate-"@.len() == 49,
{
    reveal_strlit("<dialog id=\"dlg-reactivate-¤\" class=\"action-dialog action-dialog-centered\"><form id=\"form-reactivate-¤\" method=\"post\" action=\"/members/¤/reactivate\"><div class=\"dialog-header\"><div class=\"dialog-icon dialog-icon-shield\">¤</div><button type=\"button\" class=\"dialog-close\" data-close-dialog aria-label=\"Close\">¤</button></div><h2>Reactivate ¤?</h2><p class=\"dialog-description\">Re-enables sign-in for ¤. Their existing password still works. They'll need to sign in again (any prior sessions were revoked at deactivation).</p>¤<div class=\"dialog-actions\"><button type=\"button\" class=\"btn-secondary\" data-close-dialog>Cancel</button><button type=\"button\" class=\"btn\" data-reauth-confirm=\"form-reactivate-¤\">Reactivate</button></div></form></dialog>");
    reveal_strlit("<dialog id=\"dlg-reactivate-");
    reveal_strlit("\"");
    reveal_strlit("<form id=\"form-reactivate-");
    reveal_strlit("\" method=\"post\" action=\"/members/");
    reveal_strlit("/reactivate\"");
    reveal_strlit("<h2>Reactivate ");
    reveal_strlit("?");
    reveal_strlit("<p class=\"dialog-description\">Re-enables sign-in for ");
    reveal_strlit(". Their existing password still works. They'll need to sign in again (any prior sessions were revoked at deactivation).");
    reveal_strlit("</p>");
    reveal_strlit("<div class=\"dialog-actions\">");
    reveal_strlit("class=\"btn\" data-reauth-confirm=\"form-reactivate-");
    let tpl = page::REACTIVATE_DIALOG@;
    let holes = seq![27int, 101, 135, 220, 307, 338, 398, 522, 699];
    assert(markup::hole_at(tpl, holes, 0));
    assert(markup::hole_at(tpl, holes, 1));
    assert(markup::hole_at(tpl, holes, 2));
    assert(markup::hole_at(tpl, holes, 3));
    assert(markup::hole_at(tpl, holes, 4));
    assert(markup::hole_at(tpl, holes, 5));
    assert(markup::hole_at(tpl, holes, 6));
    assert(markup::hole_at(tpl, holes, 7));
    assert(markup::hole_at(tpl, holes, 8));
    assert(tpl.subrange(0, 27) =~= "<dialog id=\"dlg-reactivate-"@);
    assert(tpl.subrange(28, 29) =~= "\""@);
    assert(tpl.subrange(75, 101) =~= "<form id=\"form-reactivate-"@);
    assert(tpl.subrange(102, 103) =~= "\""@);
    assert(tpl.subrange(102, 135) =~= "\" method=\"post\" action=\"/members/"@);
    assert(tpl.subrange(136, 148) =~= "/reactivate\""@);
    assert(tpl.subrange(323, 338) =~= "<h2>Reactivate "@);
    assert(tpl.subrange(339, 340) =~= "?"@);
    assert(tpl.subrange(345, 398) =~= "<p class=\"dialog-description\">Re-enables sign-in for "@);
    assert(tpl.subrange(399, 518) =~= ". Their existing password still works. They'll need to sign in again (any prior sessions were revoked at deactivation)."@);
    assert(tpl.subrange(518, 522) =~= "</p>"@);
    assert(tpl.subrange(523, 551) =~= "<div class=\"dialog-actions\">"@);
    assert(tpl.subrange(650, 699) =~= "class=\"btn\" data-reauth-confirm=\"form-reactivate-"@);
    assert(tpl.subrange(700, 701) =~= "\""@);
    (tpl, holes)
}

/// The dialog to reactivate a member names them, carries the token of the session and goes to that
/// very member.
pub proof fn law_reactivate_dialog(target: &User, csrf_token: Seq<char>, id: Uuid)
    ensures
        ({
            let out = page::render_action_dialog_html(page::RowAction::Reactivate, target, csrf_token, id);
            let name = target.display_name;
            &&& markup::shows(
                out,
                "<dialog id=\"dlg-reactivate-"@ + html::escaped(model::uuid_text(id)) + "\""@,
            )
            &&& markup::shows(
                out,
                "<form id=\"form-reactivate-"@ + html::escaped(model::uuid_text(id)) + "\""@,
            )
            &&& markup::shows(
                out,
                "\" method=\"post\" action=\"/members/"@ + html::escaped(model::uuid_text(id)) + "/reactivate\""@,
            )
            &&& markup::shows(out, "<h2>Reactivate "@ + html::escaped(name@) + "?"@)
            &&& markup::shows(
                out,
                "<p class=\"dialog-description\">Re-enables sign-in for "@ + html::escaped(name@) + ". Their existing password still works. They'll need to sign in again (any prior sessions were revoked at deactivation)."@,
            )
            &&& markup::shows(
                out,
                "</p>"@ + shell::csrf_input_html(csrf_token) + "<div class=\"dialog-actions\">"@,
            )
            &&& markup::shows(
                out,
                "class=\"btn\" data-reauth-confirm=\"form-reactivate-"@ + html::escaped(model::uuid_text(id)) + "\""@,
            )
        }),
{
    let name = target.display_name;
    let (tpl, holes) = lemma_reactivate_dialog();
    let parts = seq![
        html::escaped(model::uuid_text(id)),
        html::escaped(model::uuid_text(id)),
        html::escaped(model::uuid_text(id)),
        SHIELD_ICON@,
        CLOSE_ICON@,
        html::escaped(name@),
        html::escaped(name@),
        shell::csrf_input_html(csrf_token),
        html::escaped(model::uuid_text(id)),
    ];
    assert(page::render_action_dialog_html(page::RowAction::Reactivate, target, csrf_token, id) == markup::filled(tpl, parts, 9).done()) by {
        reveal_with_fuel(markup::filled, 10);
    }
    markup::lemma_hole(tpl, holes, parts, 0, "<dialog id=\"dlg-reactivate-"@, "\""@);
    markup::lemma_hole(tpl, holes, parts, 1, "<form id=\"form-reactivate-"@, "\""@);
    markup::lemma_hole(
        tpl,
        holes,
        parts,
        2,
        "\" method=\"post\" action=\"/members/"@,
        "/reactivate\""@,
    );
    markup::lemma_hole(tpl, holes, parts, 5, "<h2>Reactivate "@, "?"@);
    markup::lemma_hole(
        tpl,
        holes,
        parts,
        6,
        "<p class=\"dialog-description\">Re-enables sign-in for "@,
        ". Their existing password still works. They'll need to sign in again (any prior sessions were revoked at deactivation)."@,
    );
    markup::lemma_hole(tpl, holes, parts, 7, "</p>"@, "<div class=\"dialog-actions\">"@);
    markup::lemma_hole(
        tpl,
        holes,
        parts,
        8,
        "class=\"btn\" data-reauth-confirm=\"form-reactivate-"@,
        "\""@,
    );
}

/// Where the holes of the template stand, and the texts around them.
proof fn lemma_role_dialog() -> (at: (Seq<char>, Seq<int>))
    ensures
        at.0 == page::ROLE_DIALOG@,
        at.1 == seq![21int, 89, 123, 202, 289, 325, 579, 580, 751, 793, 822],
        at.0.len() == 876,
        markup::holes_at(at.0, at.1),
        at.0.subrange(0, 21) == "<dialog id=\"dlg-role-"@,
        at.0.subrange(22, 23) == "\""@,
        at.0.subrange(69, 89) == "<form id=\"form-role-"@,
        at.0.subrange(90, 91) == "\""@,
        at.0.subrange(90, 123) == "\" method=\"post\" action=\"/members/"@,
        at.0.subrange(124, 130) == "/role\""@,
        at.0.subrange(305, 325) == "<h2>Change role for "@,
        at.0.subrange(326, 331) == "</h2>"@,
        at.0.subrange(575, 579) == "</p>"@,
        at.0.subrange(581, 609) == "<div class=\"dialog-actions\">"@,
        at.0.subrange(708, 751) == "class=\"btn\" data-reauth-confirm=\"form-role-"@,
        at.0.subrange(752, 753) == "\""@,
        at.0.subrange(752, 793) == "\" data-role-aware=\"true\" data-target-id=\""@,
        at.0.subrange(794, 795) == "\""@,
        at.0.subrange(794, 822) == "\" data-role-form=\"form-role-"@,
        at.0.subrange(823, 824) == "\""@,
        "<dialog id=\"dlg-role-"@.len() == 21,
        "\""@.len() == 1,
        "<form id=\"form-role-"@.len() == 20,
        "\" method=\"post\" action=\"/members/"@.len() == 33,
        "/role\""@.len() == 6,
        "<h2>Change role for "@.len() == 20,
        "</h2>"@.len() == 5,
        "</p>"@.len() == 4,
        "<div class=\"dialog-actions\">"@.len() == 28,
        "class=\"btn\" data-reauth-confirm=\"form-role-"@.len() == 43,
        "\" data-role-aware=\"true\" data-target-id=\""@.len() == 41,
        "\" data-role-form=\"form-role-"@.len() == 28,
{
    reveal_strlit("<dialog id=\"dlg-role-¤\" class=\"action-dialog action-dialog-centered\"><form id=\"form-role-¤\" method=\"post\" action=\"/members/¤/role\"><div class=\"dialog-header\"><div class=\"dialog-icon dialog-icon-shield\">¤</div><button type=\"button\" class=\"dialog-close\" data-close-dialog aria-label=\"Close\">¤</button></div><h2>Change role for ¤</h2><p class=\"dialog-description\">Roles control what someone can do across this Hearth instance, like inviting members, deactivating accounts, and configuring server settings. App-level permissions (Tasks lists, notes, etc.) are managed separately.</p>¤¤<div class=\"dialog-actions\"><button type=\"button\" class=\"btn-secondary\" data-close-dialog>Cancel</button><button type=\"button\" class=\"btn\" data-reauth-confirm=\"form-role-¤\" data-role-aware=\"true\" data-target-id=\"¤\" data-role-form=\"form-role-¤\" disabled>Modify Role</button></div></form></dialog>");
    reveal_strlit("<dialog id=\"dlg-role-");
    reveal_strlit("\"");
    reveal_strlit("<form id=\"form-role-");
    reveal_strlit("\" method=\"post\" action=\"/members/");
    reveal_strlit("/role\"");
    reveal_strlit("<h2>Change role for ");
    reveal_strlit("</h2>");
    reveal_strlit("</p>");
    reveal_strlit("<div class=\"dialog-actions\">");
    reveal_strlit("class=\"btn\" data-reauth-confirm=\"form-role-");
    reveal_strlit("\" data-role-aware=\"true\" data-target-id=\"");
    reveal_strlit("\" data-role-form=\"form-role-");
    let tpl = page::ROLE_DIALOG@;
    let holes = seq![21int, 89, 123, 202, 289, 325, 579, 580, 751, 793, 822];
    assert(markup::hole_at(tpl, holes, 0));
    assert(markup::hole_at(tpl, holes, 1));
    assert(markup::hole_at(tpl, holes, 2));
    assert(markup::hole_at(tpl, holes, 3));
    assert(markup::hole_at(tpl, holes, 4));
    assert(markup::hole_at(tpl, holes, 5));
    assert(markup::hole_at(tpl, holes, 6));
    assert(markup::hole_at(tpl, holes, 7));
    assert(markup::hole_at(tpl, holes, 8));
    assert(markup::hole_at(tpl, holes, 9));
    assert(markup::hole_at(tpl, holes, 10));
    assert(tpl.subrange(0, 21) =~= "<dialog id=\"dlg-role-"@);
    assert(tpl.subrange(22, 23) =~= "\""@);
    assert(tpl.subrange(69, 89) =~= "<form id=\"form-role-"@);
    assert(tpl.subrange(90, 91) =~= "\""@);
    assert(tpl.subrange(90, 123) =~= "\" method=\"post\" action=\"/members/"@);
    assert(tpl.subrange(124, 130) =~= "/role\""@);
    assert(tpl.subrange(305, 325) =~= "<h2>Change role for "@);
    assert(tpl.subrange(326, 331) =~= "</h2>"@);
    assert(tpl.subrange(575, 579) =~= "</p>"@);
    assert(tpl.subrange(581, 609) =~= "<div class=\"dialog-actions\">"@);
    assert(tpl.subrange(708, 751) =~= "class=\"btn\" data-reauth-confirm=\"form-role-"@);
    assert(tpl.subrange(752, 753) =~= "\""@);
    assert(tpl.subrange(752, 793) =~= "\" data-role-aware=\"true\" data-target-id=\""@);
    assert(tpl.subrange(794, 795) =~= "\""@);
    assert(tpl.subrange(794, 822) =~= "\" data-role-form=\"form-role-"@);
    assert(tpl.subrange(823, 824) =~= "\""@);
    (tpl, holes)
}

/// The dialog to change the role of a member names them, carries the token of the session and goes
/// to that very member.
pub proof fn law_role_dialog(target: &User, csrf_token: Seq<char>, id: Uuid)
    ensures
        ({
            let out = page::render_action_dialog_html(page::RowAction::ChangeRole, target, csrf_token, id);
            let name = target.display_name;
            &&& markup::shows(
                out,
                "<dialog id=\"dlg-role-"@ + html::escaped(model::uuid_text(id)) + "\""@,
            )
            &&& markup::shows(
                out,
                "<form id=\"form-role-"@ + html::escaped(model::uuid_text(id)) + "\""@,
            )
            &&& markup::shows(
                out,
                "\" method=\"post\" action=\"/members/"@ + html::escaped(model::uuid_text(id)) + "/role\""@,
            )
            &&& markup::shows(out, "<h2>Change role for "@ + html::escaped(name@) + "</h2>"@)
            &&& markup::shows(out, "</p>"@ + page::role_icon_picker_html(id, target.instance_role))
            &&& markup::shows(
                out,
                shell::csrf_input_html(csrf_token) + "<div class=\"dialog-actions\">"@,
            )
            &&& markup::shows(
                out,
                "class=\"btn\" data-reauth-confirm=\"form-role-"@ + html::escaped(model::uuid_text(id)) + "\""@,
            )
            &&& markup::shows(
                out,
                "\" data-role-aware=\"true\" data-target-id=\""@ + html::escaped(model::uuid_text(id)) + "\""@,
            )
            &&& markup::shows(
                out,
                "\" data-role-form=\"form-role-"@ + html::escaped(model::uuid_text(id)) + "\""@,
            )
        }),
{
    let name = target.display_name;
    let (tpl, holes) = lemma_role_dialog();
    let parts = seq![
        html::escaped(model::uuid_text(id)),
        html::escaped(model::uuid_text(id)),
        html::escaped(model::uuid_text(id)),
        USER_SHIELD_ICON@,
        CLOSE_ICON@,
        html::escaped(name@),
        page::role_icon_picker_html(id, target.instance_role),
        shell::csrf_input_html(csrf_token),
        html::escaped(model::uuid_text(id)),
        html::escaped(model::uuid_text(id)),
        html::escaped(model::uuid_text(id)),
    ];
    assert(page::render_action_dialog_html(page::RowAction::ChangeRole, target, csrf_token, id) == markup::filled(tpl, parts, 11).done()) by {
        reveal_with_fuel(markup::filled, 12);
    }
    markup::lemma_hole(tpl, holes, parts, 0, "<dialog id=\"dlg-role-"@, "\""@);
    markup::lemma_hole(tpl, holes, parts, 1, "<form id=\"form-role-"@, "\""@);
    markup::lemma_hole(tpl, holes, parts, 2, "\" method=\"post\" action=\"/members/"@, "/role\""@);
    markup::lemma_hole(tpl, holes, parts, 5, "<h2>Change role for "@, "</h2>"@);
    assert(tpl.subrange(580, 580) =~= Seq::<char>::empty());
    markup::lemma_hole(tpl, holes, parts, 6, "</p>"@, Seq::<char>::empty());
    assert("</p>"@ + parts[6] + Seq::<char>::empty() =~= "</p>"@ + parts[6]);
    assert(tpl.subrange(580, 580) =~= Seq::<char>::empty());
    markup::lemma_hole(
        tpl,
        holes,
        parts,
        7,
        Seq::<char>::empty(),
        "<div class=\"dialog-actions\">"@,
    );
    assert(Seq::<char>::empty() + parts[7] + "<div class=\"dialog-actions\">"@ =~= parts[7] + "<div class=\"dialog-actions\">"@);
    markup::lemma_hole(
        tpl,
        holes,
        parts,
        8,
        "class=\"btn\" data-reauth-confirm=\"form-role-"@,
        "\""@,
    );
    markup::lemma_hole(
        tpl,
        holes,
        parts,
        9,
        "\" data-role-aware=\"true\" data-target-id=\""@,
        "\""@,
    );
    markup::lemma_hole(tpl, holes, parts, 10, "\" data-role-form=\"form-role-"@, "\""@);
}

/// Where the holes of the template stand, and the texts around them.
proof fn lemma_anonymize_dialog() -> (at: (Seq<char>, Seq<int>))
    ensures
        at.0 == page::ANONYMIZE_DIALOG@,
        at.1 == seq![26int, 99, 133, 217, 304, 334, 455, 614, 680, 681, 864],
        at.0.len() == 916,
        markup::holes_at(at.0, at.1),
        at.0.subrange(0, 26) == "<dialog id=\"dlg-anonymize-"@,
        at.0.subrange(27, 28) == "\""@,
        at.0.subrange(74, 99) == "<form id=\"form-anonymize-"@,
        at.0.subrange(100, 101) == "\""@,
        at.0.subrange(100, 133) == "\" method=\"post\" action=\"/members/"@,
        at.0.subrange(134, 145) == "/anonymize\""@,
        at.0.subrange(320, 334) == "<h2>Anonymize "@,
        at.0.subrange(335, 336) == "?"@,
        at.0.subrange(403, 455) == "are removed, and the email is redacted. Any content "@,
        at.0.subrange(456, 551) == " created that other members still rely on stays in place, attributed to the anonymized account."@,
        at.0.subrange(674, 680) == "</div>"@,
        at.0.subrange(682, 710) == "<div class=\"dialog-actions\">"@,
        at.0.subrange(809, 864) == "class=\"btn-danger\" data-reauth-confirm=\"form-anonymize-"@,
        at.0.subrange(865, 866) == "\""@,
        "<dialog id=\"dlg-anonymize-"@.len() == 26,
        "\""@.len() == 1,
        "<form id=\"form-anonymize-"@.len() == 25,
        "\" method=\"post\" action=\"/members/"@.len() == 33,
        "/anonymize\""@.len() == 11,
        "<h2>Anonymize "@.len() == 14,
        "?"@.len() == 1,
        "are removed, and the email is redacted. Any content "@.len() == 52,
        " created that other members still rely on stays in place, attributed to the anonymized account."@.len() == 95,
        "</div>"@.len() == 6,
        "<div class=\"dialog-actions\">"@.len() == 28,
        "class=\"btn-danger\" data-reauth-confirm=\"form-anonymize-"@.len() == 55,
{
    reveal_strlit("<dialog id=\"dlg-anonymize-¤\" class=\"action-dialog action-dialog-centered\"><form id=\"form-anonymize-¤\" method=\"post\" action=\"/members/¤/anonymize\"><div class=\"dialog-header\"><div class=\"dialog-icon dialog-icon-danger\">¤</div><button type=\"button\" class=\"dialog-close\" data-close-dialog aria-label=\"Close\">¤</button></div><h2>Anonymize ¤?</h2><p class=\"dialog-description\">Sign-in is revoked, credentials are removed, and the email is redacted. Any content ¤ created that other members still rely on stays in place, attributed to the anonymized account.</p><div class=\"dialog-alert dialog-alert-danger\" role=\"alert\">¤<span>This action is permanent and cannot be undone.</span></div>¤¤<div class=\"dialog-actions\"><button type=\"button\" class=\"btn-secondary\" data-close-dialog>Cancel</button><button type=\"button\" class=\"btn-danger\" data-reauth-confirm=\"form-anonymize-¤\" disabled>Anonymize</button></div></form></dialog>");
    reveal_strlit("<dialog id=\"dlg-anonymize-");
    reveal_strlit("\"");
    reveal_strlit("<form id=\"form-anonymize-");
    reveal_strlit("\" method=\"post\" action=\"/members/");
    reveal_strlit("/anonymize\"");
    reveal_strlit("<h2>Anonymize ");
    reveal_strlit("?");
    reveal_strlit("are removed, and the email is redacted. Any content ");
    reveal_strlit(" created that other members still rely on stays in place, attributed to the anonymized account.");
    reveal_strlit("</div>");
    reveal_strlit("<div class=\"dialog-actions\">");
    reveal_strlit("class=\"btn-danger\" data-reauth-confirm=\"form-anonymize-");
    let tpl = page::ANONYMIZE_DIALOG@;
    let holes = seq![26int, 99, 133, 217, 304, 334, 455, 614, 680, 681, 864];
    assert(markup::hole_at(tpl, holes, 0));
    assert(markup::hole_at(tpl, holes, 1));
    assert(markup::hole_at(tpl, holes, 2));
    assert(markup::hole_at(tpl, holes, 3));
    assert(markup::hole_at(tpl, holes, 4));
    assert(markup::hole_at(tpl, holes, 5));
    assert(markup::hole_at(tpl, holes, 6));
    assert(markup::hole_at(tpl, holes, 7));
    assert(markup::hole_at(tpl, holes, 8));
    assert(markup::hole_at(tpl, holes, 9));
    assert(markup::hole_at(tpl, holes, 10));
    assert(tpl.subrange(0, 26) =~= "<dialog id=\"dlg-anonymize-"@);
    assert(tpl.subrange(27, 28) =~= "\""@);
    assert(tpl.subrange(74, 99) =~= "<form id=\"form-anonymize-"@);
    assert(tpl.subrange(100, 101) =~= "\""@);
    assert(tpl.subrange(100, 133) =~= "\" method=\"post\" action=\"/members/"@);
    assert(tpl.subrange(134, 145) =~= "/anonymize\""@);
    assert(tpl.subrange(320, 334) =~= "<h2>Anonymize "@);
    assert(tpl.subrange(335, 336) =~= "?"@);
    assert(tpl.subrange(403, 455) =~= "are removed, and the email is redacted. Any content "@);
    assert(tpl.subrange(456, 551) =~= " created that other members still rely on stays in place, attributed to the anonymized account."@);
    assert(tpl.subrange(674, 680) =~= "</div>"@);
    assert(tpl.subrange(682, 710) =~= "<div class=\"dialog-actions\">"@);
    assert(tpl.subrange(809, 864) =~= "class=\"btn-danger\" data-reauth-confirm=\"form-anonymize-"@);
    assert(tpl.subrange(865, 866) =~= "\""@);
    (tpl, holes)
}

/// The dialog to anonymize a member names them, carries the token of the session and goes to that
/// very member.
pub proof fn law_anonymize_dialog(target: &User, csrf_token: Seq<char>, id: Uuid)
    ensures
        ({
            let out = page::render_action_dialog_html(page::RowAction::Anonymize, target, csrf_token, id);
            let name = target.display_name;
            &&& markup::shows(
                out,
                "<dialog id=\"dlg-anonymize-"@ + html::escaped(model::uuid_text(id)) + "\""@,
            )
            &&& markup::shows(
                out,
                "<form id=\"form-anonymize-"@ + html::escaped(model::uuid_text(id)) + "\""@,
            )
            &&& markup::shows(
                out,
                "\" method=\"post\" action=\"/members/"@ + html::escaped(model::uuid_text(id)) + "/anonymize\""@,
            )
            &&& markup::shows(out, "<h2>Anonymize "@ + html::escaped(name@) + "?"@)
            &&& markup::shows(
                out,
                "are removed, and the email is redacted. Any content "@ + html::escaped(name@) + " created that other members still rely on stays in place, attributed to the anonymized account."@,
            )
            &&& markup::shows(
                out,
                "</div>"@ + page::confirm_name_field_html(id, name@, "anonymize"@),
            )
            &&& markup::shows(
                out,
                shell::csrf_input_html(csrf_token) + "<div class=\"dialog-actions\">"@,
            )
            &&& markup::shows(
                out,
                "class=\"btn-danger\" data-reauth-confirm=\"form-anonymize-"@ + html::escaped(model::uuid_text(id)) + "\""@,
            )
        }),
{
    let name = target.display_name;
    let (tpl, holes) = lemma_anonymize_dialog();
    let parts = seq![
        html::escaped(model::uuid_text(id)),
        html::escaped(model::uuid_text(id)),
        html::escaped(model::uuid_text(id)),
        INCOGNITO_ICON@,
        CLOSE_ICON@,
        html::escaped(name@),
        html::escaped(name@),
        ALERT_CIRCLE_ICON@,
        page::confirm_name_field_html(id, name@, "anonymize"@),
        shell::csrf_input_html(csrf_token),
        html::escaped(model::uuid_text(id)),
    ];
    assert(page::render_action_dialog_html(page::RowAction::Anonymize, target, csrf_token, id) == markup::filled(tpl, parts, 11).done()) by {
        reveal_with_fuel(markup::filled, 12);
    }
    markup::lemma_hole(tpl, holes, parts, 0, "<dialog id=\"dlg-anonymize-"@, "\""@);
    markup::lemma_hole(tpl, holes, parts, 1, "<form id=\"form-anonymize-"@, "\""@);
    markup::lemma_hole(
        tpl,
        holes,
        parts,
        2,
        "\" method=\"post\" action=\"/members/"@,
        "/anonymize\""@,
    );
    markup::lemma_hole(tpl, holes, parts, 5, "<h2>Anonymize "@, "?"@);
    markup::lemma_hole(
        tpl,
        holes,
        parts,
        6,
        "are removed, and the email is redacted. Any content "@,
        " created that other members still rely on stays in place, attributed to the anonymized account."@,
    );
    assert(tpl.subrange(681, 681) =~= Seq::<char>::empty());
    markup::lemma_hole(tpl, holes, parts, 8, "</div>"@, Seq::<char>::empty());
    assert("</div>"@ + parts[8] + Seq::<char>::empty() =~= "</div>"@ + parts[8]);
    assert(tpl.subrange(681, 681) =~= Seq::<char>::empty());
    markup::lemma_hole(
        tpl,
        holes,
        parts,
        9,
        Seq::<char>::empty(),
        "<div class=\"dialog-actions\">"@,
    );
    assert(Seq::<char>::empty() + parts[9] + "<div class=\"dialog-actions\">"@ =~= parts[9] + "<div class=\"dialog-actions\">"@);
    markup::lemma_hole(
        tpl,
        holes,
        parts,
        10,
        "class=\"btn-danger\" data-reauth-confirm=\"form-anonymize-"@,
        "\""@,
    );
}

/// Where the holes of the template stand, and the texts around them.
proof fn lemma_delete_dialog() -> (at: (Seq<char>, Seq<int>))
    ensures
        at.0 == page::DELETE_DIALOG@,
        at.1 == seq![23int, 93, 127, 208, 295, 322, 412, 637, 703, 704, 884],
        at.0.len() == 933,
        markup::holes_at(at.0, at.1),
        at.0.subrange(0, 23) == "<dialog id=\"dlg-delete-"@,
        at.0.subrange(24, 25) == "\""@,
        at.0.subrange(71, 93) == "<form id=\"form-delete-"@,
        at.0.subrange(94, 95) == "\""@,
        at.0.subrange(94, 127) == "\" method=\"post\" action=\"/members/"@,
        at.0.subrange(128, 136) == "/delete\""@,
        at.0.subrange(311, 322) == "<h2>Delete "@,
        at.0.subrange(323, 324) == "?"@,
        at.0.subrange(365, 412) == "removes the account and every piece of content "@,
        at.0.subrange(413, 574) == " created, regardless of whether other members were collaborating on it. Use Anonymize instead if you only want to scrub the identity but keep the shared content."@,
        at.0.subrange(697, 703) == "</div>"@,
        at.0.subrange(705, 733) == "<div class=\"dialog-actions\">"@,
        at.0.subrange(832, 884) == "class=\"btn-danger\" data-reauth-confirm=\"form-delete-"@,
        at.0.subrange(885, 886) == "\""@,
        "<dialog id=\"dlg-delete-"@.len() == 23,
        "\""@.len() == 1,
        "<form id=\"form-delete-"@.len() == 22,
        "\" method=\"post\" action=\"/members/"@.len() == 33,
        "/delete\""@.len() == 8,
        "<h2>Delete "@.len() == 11,
        "?"@.len() == 1,
        "removes the account and every piece of content "@.len() == 47,
        " created, regardless of whether other members were collaborating on it. Use Anonymize instead if you only want to scrub the identity but keep the shared content."@.len() == 161,
        "</div>"@.len() == 6,
        "<div class=\"dialog-actions\">"@.len() == 28,
        "class=\"btn-danger\" data-reauth-confirm=\"form-delete-"@.len() == 52,
{
    reveal_strlit("<dialog id=\"dlg-delete-¤\" class=\"action-dialog action-dialog-centered\"><form id=\"form-delete-¤\" method=\"post\" action=\"/members/¤/delete\"><div class=\"dialog-header\"><div class=\"dialog-icon dialog-icon-danger\">¤</div><button type=\"button\" class=\"dialog-close\" data-close-dialog aria-label=\"Close\">¤</button></div><h2>Delete ¤?</h2><p class=\"dialog-description\">Fully removes the account and every piece of content ¤ created, regardless of whether other members were collaborating on it. Use Anonymize instead if you only want to scrub the identity but keep the shared content.</p><div class=\"dialog-alert dialog-alert-danger\" role=\"alert\">¤<span>This action is permanent and cannot be undone.</span></div>¤¤<div class=\"dialog-actions\"><button type=\"button\" class=\"btn-secondary\" data-close-dialog>Cancel</button><button type=\"button\" class=\"btn-danger\" data-reauth-confirm=\"form-delete-¤\" disabled>Delete</button></div></form></dialog>");
    reveal_strlit("<dialog id=\"dlg-delete-");
    reveal_strlit("\"");
    reveal_strlit("<form id=\"form-delete-");
    reveal_strlit("\" method=\"post\" action=\"/members/");
    reveal_strlit("/delete\"");
    reveal_strlit("<h2>Delete ");
    reveal_strlit("?");
    reveal_strlit("removes the account and every piece of content ");
    reveal_strlit(" created, regardless of whether other members were collaborating on it. Use Anonymize instead if you only want to scrub the identity but keep the shared content.");
    reveal_strlit("</div>");
    reveal_strlit("<div class=\"dialog-actions\">");
    reveal_strlit("class=\"btn-danger\" data-reauth-confirm=\"form-delete-");
    let tpl = page::DELETE_DIALOG@;
    let holes = seq![23int, 93, 127, 208, 295, 322, 412, 637, 703, 704, 884];
    assert(markup::hole_at(tpl, holes, 0));
    assert(markup::hole_at(tpl, holes, 1));
    assert(markup::hole_at(tpl, holes, 2));
    assert(markup::hole_at(tpl, holes, 3));
    assert(markup::hole_at(tpl, holes, 4));
    assert(markup::hole_at(tpl, holes, 5));
    assert(markup::hole_at(tpl, holes, 6));
    assert(markup::hole_at(tpl, holes, 7));
    assert(markup::hole_at(tpl, holes, 8));
    assert(markup::hole_at(tpl, holes, 9));
    assert(markup::hole_at(tpl, holes, 10));
    assert(tpl.subrange(0, 23) =~= "<dialog id=\"dlg-delete-"@);
    assert(tpl.subrange(24, 25) =~= "\""@);
    assert(tpl.subrange(71, 93) =~= "<form id=\"form-delete-"@);
    assert(tpl.subrange(94, 95) =~= "\""@);
    assert(tpl.subrange(94, 127) =~= "\" method=\"post\" action=\"/members/"@);
    assert(tpl.subrange(128, 136) =~= "/delete\""@);
    assert(tpl.subrange(311, 322) =~= "<h2>Delete "@);
    assert(tpl.subrange(323, 324) =~= "?"@);
    assert(tpl.subrange(365, 412) =~= "removes the account and every piece of content "@);
    assert(tpl.subrange(413, 574) =~= " created, regardless of whether other members were collaborating on it. Use Anonymize instead if you only want to scrub the identity but keep the shared content."@);
    assert(tpl.subrange(697, 703) =~= "</div>"@);
    assert(tpl.subrange(705, 733) =~= "<div class=\"dialog-actions\">"@);
    assert(tpl.subrange(832, 884) =~= "class=\"btn-danger\" data-reauth-confirm=\"form-delete-"@);
    assert(tpl.subrange(885, 886) =~= "\""@);
    (tpl, holes)
}

/// The dialog to delete a member names them, carries the token of the session and goes to that
/// very member.
pub proof fn law_delete_dialog(target: &User, csrf_token: Seq<char>, id: Uuid)
    ensures
        ({
            let out = page::render_action_dialog_html(page::RowAction::Delete, target, csrf_token, id);
            let name = target.display_name;
            &&& markup::shows(
                out,
                "<dialog id=\"dlg-delete-"@ + html::escaped(model::uuid_text(id)) + "\""@,
            )
            &&& markup::shows(
                out,
                "<form id=\"form-delete-"@ + html::escaped(model::uuid_text(id)) + "\""@,
            )
            &&& markup::shows(
                out,
                "\" method=\"post\" action=\"/members/"@ + html::escaped(model::uuid_text(id)) + "/delete\""@,
            )
            &&& markup::shows(out, "<h2>Delete "@ + html::escaped(name@) + "?"@)
            &&& markup::shows(
                out,
                "removes the account and every piece of content "@ + html::escaped(name@) + " created, regardless of whether other members were collaborating on it. Use Anonymize instead if you only want to scrub the identity but keep the shared content."@,
            )
            &&& markup::shows(out, "</div>"@ + page::confirm_name_field_html(id, name@, "delete"@))
            &&& markup::shows(
                out,
                shell::csrf_input_html(csrf_token) + "<div class=\"dialog-actions\">"@,
            )
            &&& markup::shows(
                out,
                "class=\"btn-danger\" data-reauth-confirm=\"form-delete-"@ + html::escaped(model::uuid_text(id)) + "\""@,
            )
        }),
{
    let name = target.display_name;
    let (tpl, holes) = lemma_delete_dialog();
    let parts = seq![
        html::escaped(model::uuid_text(id)),
        html::escaped(model::uuid_text(id)),
        html::escaped(model::uuid_text(id)),
        TRASH_ICON@,
        CLOSE_ICON@,
        html::escaped(name@),
        html::escaped(name@),
        ALERT_CIRCLE_ICON@,
        page::confirm_name_field_html(id, name@, "delete"@),
        shell::csrf_input_html(csrf_token),
        html::escaped(model::uuid_text(id)),
    ];
    assert(page::render_action_dialog_html(page::RowAction::Delete, target, csrf_token, id) == markup::filled(tpl, parts, 11).done()) by {
        reveal_with_fuel(markup::filled, 12);
    }
    markup::lemma_hole(tpl, holes, parts, 0, "<dialog id=\"dlg-delete-"@, "\""@);
    markup::lemma_hole(tpl, holes, parts, 1, "<form id=\"form-delete-"@, "\""@);
    markup::lemma_hole(
        tpl,
        holes,
        parts,
        2,
        "\" method=\"post\" action=\"/members/"@,
        "/delete\""@,
    );
    markup::lemma_hole(tpl, holes, parts, 5, "<h2>Delete "@, "?"@);
    markup::lemma_hole(
        tpl,
        holes,
        parts,
        6,
        "removes the account and every piece of content "@,
        " created, regardless of whether other members were collaborating on it. Use Anonymize instead if you only want to scrub the identity but keep the shared content."@,
    );
    assert(tpl.subrange(704, 704) =~= Seq::<char>::empty());
    markup::lemma_hole(tpl, holes, parts, 8, "</div>"@, Seq::<char>::empty());
    assert("</div>"@ + parts[8] + Seq::<char>::empty() =~= "</div>"@ + parts[8]);
    assert(tpl.subrange(704, 704) =~= Seq::<char>::empty());
    markup::lemma_hole(
        tpl,
        holes,
        parts,
        9,
        Seq::<char>::empty(),
        "<div class=\"dialog-actions\">"@,
    );
    assert(Seq::<char>::empty() + parts[9] + "<div class=\"dialog-actions\">"@ =~= parts[9] + "<div class=\"dialog-actions\">"@);
    markup::lemma_hole(
        tpl,
        holes,
        parts,
        10,
        "class=\"btn-danger\" data-reauth-confirm=\"form-delete-"@,
        "\""@,
    );
}

/// Where the holes of the template stand, and the texts around them.
proof fn lemma_deactivate_item() -> (at: (Seq<char>, Seq<int>))
    ensures
        at.0 == page::DEACTIVATE_ITEM@,
        at.1 == seq![72int],
        at.0.len() == 112,
        markup::holes_at(at.0, at.1),
        at.0.subrange(22, 72) == "class=\"row-action-item\" data-open-modal=\"/members/"@,
        at.0.subrange(73, 91) == "/modal/deactivate\""@,
        "class=\"row-action-item\" data-open-modal=\"/members/"@.len() == 50,
        "/modal/deactivate\""@.len() == 18,
{
    reveal_strlit("<button type=\"button\" class=\"row-action-item\" data-open-modal=\"/members/¤/modal/deactivate\">Deactivate…</button>");
    reveal_strlit("class=\"row-action-item\" data-open-modal=\"/members/");
    reveal_strlit("/modal/deactivate\"");
    let tpl = page::DEACTIVATE_ITEM@;
    let holes = seq![72int];
    assert(markup::hole_at(tpl, holes, 0));
    assert(tpl.subrange(22, 72) =~= "class=\"row-action-item\" data-open-modal=\"/members/"@);
    assert(tpl.subrange(73, 91) =~= "/modal/deactivate\""@);
    (tpl, holes)
}

/// The entry to deactivate a member opens the dialog of that very member.
pub proof fn law_deactivate_item(target: &User)
    ensures
        ({
            let out = page::render_action_item_html(page::RowAction::Deactivate, target, false);
            let id = target.id;
            &&& markup::shows(
                out,
                "class=\"row-action-item\" data-open-modal=\"/members/"@ + html::escaped(model::uuid_text(id)) + "/modal/deactivate\""@,
            )
        }),
{
    let id = target.id;
    let (tpl, holes) = lemma_deactivate_item();
    let parts = seq![html::escaped(model::uuid_text(id))];
    assert(page::render_action_item_html(page::RowAction::Deactivate, target, false) == markup::filled(tpl, parts, 1).done()) by {
        reveal_with_fuel(markup::filled, 2);
    }
    markup::lemma_hole(
        tpl,
        holes,
        parts,
        0,
        "class=\"row-action-item\" data-open-modal=\"/members/"@,
        "/modal/deactivate\""@,
    );
}

/// Where the holes of the template stand, and the texts around them.
proof fn lemma_reactivate_item() -> (at: (Seq<char>, Seq<int>))
    ensures
        at.0 == page::REACTIVATE_ITEM@,
        at.1 == seq![72int],
        at.0.len() == 112,
        markup::holes_at(at.0, at.1),
        at.0.subrange(22, 72) == "class=\"row-action-item\" data-open-modal=\"/members/"@,
        at.0.subrange(73, 91) == "/modal/reactivate\""@,
        "class=\"row-action-item\" data-open-modal=\"/members/"@.len() == 50,
        "/modal/reactivate\""@.len() == 18,
{
    reveal_strlit("<button type=\"button\" class=\"row-action-item\" data-open-modal=\"/members/¤/modal/reactivate\">Reactivate…</button>");
    reveal_strlit("class=\"row-action-item\" data-open-modal=\"/members/");
    reveal_strlit("/modal/reactivate\"");
    let tpl = page::REACTIVATE_ITEM@;
    let holes = seq![72int];
    assert(markup::hole_at(tpl, holes, 0));
    assert(tpl.subrange(22, 72) =~= "class=\"row-action-item\" data-open-modal=\"/members/"@);
    assert(tpl.subrange(73, 91) =~= "/modal/reactivate\""@);
    (tpl, holes)
}

/// The entry to reactivate a member opens the dialog of that very member.
pub proof fn law_reactivate_item(target: &User)
    ensures
        ({
            let out = page::render_action_item_html(page::RowAction::Reactivate, target, false);
            let id = target.id;
            &&& markup::shows(
                out,
                "class=\"row-action-item\" data-open-modal=\"/members/"@ + html::escaped(model::uuid_text(id)) + "/modal/reactivate\""@,
            )
        }),
{
    let id = target.id;
    let (tpl, holes) = lemma_reactivate_item();
    let parts = seq![html::escaped(model::uuid_text(id))];
    assert(page::render_action_item_html(page::RowAction::Reactivate, target, false) == markup::filled(tpl, parts, 1).done()) by {
        reveal_with_fuel(markup::filled, 2);
    }
    markup::lemma_hole(
        tpl,
        holes,
        parts,
        0,
        "class=\"row-action-item\" data-open-modal=\"/members/"@,
        "/modal/reactivate\""@,
    );
}

/// Where the holes of the template stand, and the texts around them.
proof fn lemma_role_item() -> (at: (Seq<char>, Seq<int>))
    ensures
        at.0 == page::ROLE_ITEM@,
        at.1 == seq![72int],
        at.0.len() == 107,
        markup::holes_at(at.0, at.1),
        at.0.subrange(22, 72) == "class=\"row-action-item\" data-open-modal=\"/members/"@,
        at.0.subrange(73, 85) == "/modal/role\""@,
        "class=\"row-action-item\" data-open-modal=\"/members/"@.len() == 50,
        "/modal/role\""@.len() == 12,
{
    reveal_strlit("<button type=\"button\" class=\"row-action-item\" data-open-modal=\"/members/¤/modal/role\">Change role…</button>");
    reveal_strlit("class=\"row-action-item\" data-open-modal=\"/members/");
    reveal_strlit("/modal/role\"");
    let tpl = page::ROLE_ITEM@;
    let holes = seq![72int];
    assert(markup::hole_at(tpl, holes, 0));
    assert(tpl.subrange(22, 72) =~= "class=\"row-action-item\" data-open-modal=\"/members/"@);
    assert(tpl.subrange(73, 85) =~= "/modal/role\""@);
    (tpl, holes)
}

/// The entry to change the role of a member opens the dialog of that very member.
pub proof fn law_role_item(target: &User)
    ensures
        ({
            let out = page::render_action_item_html(page::RowAction::ChangeRole, target, false);
            let id = target.id;
            &&& markup::shows(
                out,
                "class=\"row-action-item\" data-open-modal=\"/members/"@ + html::escaped(model::uuid_text(id)) + "/modal/role\""@,
            )
        }),
{
    let id = target.id;
    let (tpl, holes) = lemma_role_item();
    let parts = seq![html::escaped(model::uuid_text(id))];
    assert(page::render_action_item_html(page::RowAction::ChangeRole, target, false) == markup::filled(tpl, parts, 1).done()) by {
        reveal_with_fuel(markup::filled, 2);
    }
    markup::lemma_hole(
        tpl,
        holes,
        parts,
        0,
        "class=\"row-action-item\" data-open-modal=\"/members/"@,
        "/modal/role\""@,
    );
}

/// Where the holes of the template stand, and the texts around them.
proof fn lemma_anonymize_item() -> (at: (Seq<char>, Seq<int>))
    ensures
        at.0 == page::ANONYMIZE_ITEM@,
        at.1 == seq![90int],
        at.0.len() == 128,
        markup::holes_at(at.0, at.1),
        at.0.subrange(45, 90) == "row-action-danger\" data-open-modal=\"/members/"@,
        at.0.subrange(91, 108) == "/modal/anonymize\""@,
        "row-action-danger\" data-open-modal=\"/members/"@.len() == 45,
        "/modal/anonymize\""@.len() == 17,
{
    reveal_strlit("<button type=\"button\" class=\"row-action-item row-action-danger\" data-open-modal=\"/members/¤/modal/anonymize\">Anonymize…</button>");
    reveal_strlit("row-action-danger\" data-open-modal=\"/members/");
    reveal_strlit("/modal/anonymize\"");
    let tpl = page::ANONYMIZE_ITEM@;
    let holes = seq![90int];
    assert(markup::hole_at(tpl, holes, 0));
    assert(tpl.subrange(45, 90) =~= "row-action-danger\" data-open-modal=\"/members/"@);
    assert(tpl.subrange(91, 108) =~= "/modal/anonymize\""@);
    (tpl, holes)
}

/// The entry to anonymize a member opens the dialog of that very member.
pub proof fn law_anonymize_item(target: &User)
    ensures
        ({
            let out = page::render_action_item_html(page::RowAction::Anonymize, target, false);
            let id = target.id;
            &&& markup::shows(
                out,
                "row-action-danger\" data-open-modal=\"/members/"@ + html::escaped(model::uuid_text(id)) + "/modal/anonymize\""@,
            )
        }),
{
    let id = target.id;
    let (tpl, holes) = lemma_anonymize_item();
    let parts = seq![html::escaped(model::uuid_text(id))];
    assert(page::render_action_item_html(page::RowAction::Anonymize, target, false) == markup::filled(tpl, parts, 1).done()) by {
        reveal_with_fuel(markup::filled, 2);
    }
    markup::lemma_hole(
        tpl,
        holes,
        parts,
        0,
        "row-action-danger\" data-open-modal=\"/members/"@,
        "/modal/anonymize\""@,
    );
}

/// Where the holes of the template stand, and the texts around them.
proof fn lemma_delete_item() -> (at: (Seq<char>, Seq<int>))
    ensures
        at.0 == page::DELETE_ITEM@,
        at.1 == seq![90int],
        at.0.len() == 122,
        markup::holes_at(at.0, at.1),
        at.0.subrange(45, 90) == "row-action-danger\" data-open-modal=\"/members/"@,
        at.0.subrange(91, 105) == "/modal/delete\""@,
        "row-action-danger\" data-open-modal=\"/members/"@.len() == 45,
        "/modal/delete\""@.len() == 14,
{
    reveal_strlit("<button type=\"button\" class=\"row-action-item row-action-danger\" data-open-modal=\"/members/¤/modal/delete\">Delete…</button>");
    reveal_strlit("row-action-danger\" data-open-modal=\"/members/");
    reveal_strlit("/modal/delete\"");
    let tpl = page::DELETE_ITEM@;
    let holes = seq![90int];
    assert(markup::hole_at(tpl, holes, 0));
    assert(tpl.subrange(45, 90) =~= "row-action-danger\" data-open-modal=\"/members/"@);
    assert(tpl.subrange(91, 105) =~= "/modal/delete\""@);
    (tpl, holes)
}

/// The entry to delete a member opens the dialog of that very member.
pub proof fn law_delete_item(target: &User)
    ensures
        ({
            let out = page::render_action_item_html(page::RowAction::Delete, target, false);
            let id = target.id;
            &&& markup::shows(
                out,
                "row-action-danger\" data-open-modal=\"/members/"@ + html::escaped(model::uuid_text(id)) + "/modal/delete\""@,
            )
        }),
{
    let id = target.id;
    let (tpl, holes) = lemma_delete_item();
    let parts = seq![html::escaped(model::uuid_text(id))];
    assert(page::render_action_item_html(page::RowAction::Delete, target, false) == markup::filled(tpl, parts, 1).done()) by {
        reveal_with_fuel(markup::filled, 2);
    }
    markup::lemma_hole(
        tpl,
        holes,
        parts,
        0,
        "row-action-danger\" data-open-modal=\"/members/"@,
        "/modal/delete\""@,
    );
}

/// Where the holes of the template stand, and the texts around them.
proof fn lemma_page_number() -> (at: (Seq<char>, Seq<int>))
    ensures
        at.0 == page::PAGE_LINK@,
        at.1 == seq![35int, 38],
        at.0.len() == 43,
        markup::holes_at(at.0, at.1),
        at.0.subrange(0, 35) == "<a class=\"pagination-number\" href=\""@,
        at.0.subrange(36, 37) == "\""@,
        at.0.subrange(36, 38) == "\">"@,
        at.0.subrange(39, 43) == "</a>"@,
        "<a class=\"pagination-number\" href=\""@.len() == 35,
        "\""@.len() == 1,
        "\">"@.len() == 2,
        "</a>"@.len() == 4,
{
    reveal_strlit("<a class=\"pagination-number\" href=\"¤\">¤</a>");
    reveal_strlit("<a class=\"pagination-number\" href=\"");
    reveal_strlit("\"");
    reveal_strlit("\">");
    reveal_strlit("</a>");
    let tpl = page::PAGE_LINK@;
    let holes = seq![35int, 38];
    assert(markup::hole_at(tpl, holes, 0));
    assert(markup::hole_at(tpl, holes, 1));
    assert(tpl.subrange(0, 35) =~= "<a class=\"pagination-number\" href=\""@);
    assert(tpl.subrange(36, 37) =~= "\""@);
    assert(tpl.subrange(36, 38) =~= "\">"@);
    assert(tpl.subrange(39, 43) =~= "</a>"@);
    (tpl, holes)
}

/// The number of a page leads to that page.
pub proof fn law_page_number(href: Seq<char>, number: u32, active: bool)
    requires
        !active,
    ensures
        ({
            let out = page::pagination_number_html(href, number, active);
            &&& markup::shows(
                out,
                "<a class=\"pagination-number\" href=\""@ + html::escaped(href) + "\""@,
            )
            &&& markup::shows(out, "\">"@ + text::decimal_int(number as int) + "</a>"@)
        }),
{
    let (tpl, holes) = lemma_page_number();
    let parts = seq![html::escaped(href), text::decimal_int(number as int)];
    assert(page::pagination_number_html(href, number, active) == markup::filled(tpl, parts, 2).done()) by {
        reveal_with_fuel(markup::filled, 3);
    }
    markup::lemma_hole(tpl, holes, parts, 0, "<a class=\"pagination-number\" href=\""@, "\""@);
    markup::lemma_hole(tpl, holes, parts, 1, "\">"@, "</a>"@);
}

/// Where the holes of the template stand, and the texts around them.
proof fn lemma_page_step() -> (at: (Seq<char>, Seq<int>))
    ensures
        at.0 == page::STEP_LINK@,
        at.1 == seq![33int, 48, 51],
        at.0.len() == 56,
        markup::holes_at(at.0, at.1),
        at.0.subrange(0, 33) == "<a class=\"pagination-step\" href=\""@,
        at.0.subrange(34, 35) == "\""@,
        at.0.subrange(34, 48) == "\" aria-label=\""@,
        at.0.subrange(49, 50) == "\""@,
        at.0.subrange(49, 51) == "\">"@,
        at.0.subrange(52, 56) == "</a>"@,
        "<a class=\"pagination-step\" href=\""@.len() == 33,
        "\""@.len() == 1,
        "\" aria-label=\""@.len() == 14,
        "\">"@.len() == 2,
        "</a>"@.len() == 4,
{
    reveal_strlit("<a class=\"pagination-step\" href=\"¤\" aria-label=\"¤\">¤</a>");
    reveal_strlit("<a class=\"pagination-step\" href=\"");
    reveal_strlit("\"");
    reveal_strlit("\" aria-label=\"");
    reveal_strlit("\">");
    reveal_strlit("</a>");
    let tpl = page::STEP_LINK@;
    let holes = seq![33int, 48, 51];
    assert(markup::hole_at(tpl, holes, 0));
    assert(markup::hole_at(tpl, holes, 1));
    assert(markup::hole_at(tpl, holes, 2));
    assert(tpl.subrange(0, 33) =~= "<a class=\"pagination-step\" href=\""@);
    assert(tpl.subrange(34, 35) =~= "\""@);
    assert(tpl.subrange(34, 48) =~= "\" aria-label=\""@);
    assert(tpl.subrange(49, 50) =~= "\""@);
    assert(tpl.subrange(49, 51) =~= "\">"@);
    assert(tpl.subrange(52, 56) =~= "</a>"@);
    (tpl, holes)
}

/// An arrow leads to its page.
pub proof fn law_page_step(href: Seq<char>, disabled: bool, label: Seq<char>, icon: Seq<char>)
    requires
        !disabled,
    ensures
        ({
            let out = page::pagination_step_html(href, disabled, label, icon);
            let aria = "Go to "@ + label + " page"@;
            &&& markup::shows(
                out,
                "<a class=\"pagination-step\" href=\""@ + html::escaped(href) + "\""@,
            )
            &&& markup::shows(out, "\" aria-label=\""@ + html::escaped(aria) + "\""@)
            &&& markup::shows(out, "\">"@ + icon + "</a>"@)
        }),
{
    let aria = "Go to "@ + label + " page"@;
    let (tpl, holes) = lemma_page_step();
    let parts = seq![html::escaped(href), html::escaped(aria), icon];
    assert(page::pagination_step_html(href, disabled, label, icon) == markup::filled(tpl, parts, 3).done()) by {
        reveal_with_fuel(markup::filled, 4);
    }
    markup::lemma_hole(tpl, holes, parts, 0, "<a class=\"pagination-step\" href=\""@, "\""@);
    markup::lemma_hole(tpl, holes, parts, 1, "\" aria-label=\""@, "\""@);
    markup::lemma_hole(tpl, holes, parts, 2, "\">"@, "</a>"@);
}

/// Where the holes of the template stand, and the texts around them.
proof fn lemma_members_page() -> (at: (Seq<char>, Seq<int>))
    ensures
        at.0 == page::MEMBERS_PAGE@,
        at.1 == seq![0int, 1, 175, 264, 307, 308, 317, 318, 319, 320, 321, 322, 323, 324, 325, 326, 327],
        at.0.len() == 337,
        markup::holes_at(at.0, at.1),
        at.0.subrange(2, 29) == "<div class=\"users-toolbar\">"@,
        at.0.subrange(120, 175) == "email…\" autocomplete=\"off\" aria-label=\"Search members\">"@,
        at.0.subrange(176, 264) == "<button type=\"button\" class=\"btn-secondary invite-cta\" data-open-modal=\"/modals/invite\">"@,
        at.0.subrange(301, 307) == "</div>"@,
        at.0.subrange(309, 317) == "<script>"@,
        "<div class=\"users-toolbar\">"@.len() == 27,
        "email…\" autocomplete=\"off\" aria-label=\"Search members\">"@.len() == 55,
        "<button type=\"button\" class=\"btn-secondary invite-cta\" data-open-modal=\"/modals/invite\">"@.len() == 88,
        "</div>"@.len() == 6,
        "<script>"@.len() == 8,
{
    reveal_strlit("¤¤<div class=\"users-toolbar\"><input type=\"search\" id=\"users-search\" class=\"users-search\" placeholder=\"Search by name or email…\" autocomplete=\"off\" aria-label=\"Search members\">¤<button type=\"button\" class=\"btn-secondary invite-cta\" data-open-modal=\"/modals/invite\">¤<span>Invite members</span></button></div>¤¤<script>¤¤¤¤¤¤¤¤¤¤¤</script>");
    reveal_strlit("<div class=\"users-toolbar\">");
    reveal_strlit("email…\" autocomplete=\"off\" aria-label=\"Search members\">");
    reveal_strlit("<button type=\"button\" class=\"btn-secondary invite-cta\" data-open-modal=\"/modals/invite\">");
    reveal_strlit("</div>");
    reveal_strlit("<script>");
    let tpl = page::MEMBERS_PAGE@;
    let holes = seq![0int, 1, 175, 264, 307, 308, 317, 318, 319, 320, 321, 322, 323, 324, 325, 326, 327];
    assert(markup::hole_at(tpl, holes, 0));
    assert(markup::hole_at(tpl, holes, 1));
    assert(markup::hole_at(tpl, holes, 2));
    assert(markup::hole_at(tpl, holes, 3));
    assert(markup::hole_at(tpl, holes, 4));
    assert(markup::hole_at(tpl, holes, 5));
    assert(markup::hole_at(tpl, holes, 6));
    assert(markup::hole_at(tpl, holes, 7));
    assert(markup::hole_at(tpl, holes, 8));
    assert(markup::hole_at(tpl, holes, 9));
    assert(markup::hole_at(tpl, holes, 10));
    assert(markup::hole_at(tpl, holes, 11));
    assert(markup::hole_at(tpl, holes, 12));
    assert(markup::hole_at(tpl, holes, 13));
    assert(markup::hole_at(tpl, holes, 14));
    assert(markup::hole_at(tpl, holes, 15));
    assert(markup::hole_at(tpl, holes, 16));
    assert(tpl.subrange(2, 29) =~= "<div class=\"users-toolbar\">"@);
    assert(tpl.subrange(120, 175) =~= "email…\" autocomplete=\"off\" aria-label=\"Search members\">"@);
    assert(tpl.subrange(176, 264) =~= "<button type=\"button\" class=\"btn-secondary invite-cta\" data-open-modal=\"/modals/invite\">"@);
    assert(tpl.subrange(301, 307) =~= "</div>"@);
    assert(tpl.subrange(309, 317) =~= "<script>"@);
    (tpl, holes)
}

/// The directory holds the filter in force, the table in its order and the paging.
pub proof fn law_members_page(
    ctx: &ChromeContext,
    rows: Seq<page::MemberRow>,
    sort: SortState,
    filter: MemberFilter,
    pagination: PaginationState,
    pending: Seq<TransitionRow>,
    now: &Timestamp,
)
    ensures
        ({
            let out = page::members_page_html(ctx, rows, sort, filter, pagination, pending, now);
            &&& markup::shows(out, "<title>"@ + html::escaped("Members"@) + " · "@)
            &&& markup::shows(out, page::render_banner_html())
            &&& markup::shows(out, page::pending_alert_html(ctx) + "<div class=\"users-toolbar\">"@)
            &&& markup::shows(
                out,
                "email…\" autocomplete=\"off\" aria-label=\"Search members\">"@ + page::filter_menu_html(filter, sort) + "<button type=\"button\" class=\"btn-secondary invite-cta\" data-open-modal=\"/modals/invite\">"@,
            )
            &&& markup::shows(
                out,
                "</div>"@ + (if rows.len() == 0 && pagination.total_rows == 0 { page::NO_MEMBERS@ } else { html::template(page::MEMBERS_TABLE@) .html(page::sortable_th_html("Member"@, SortColumn::Name, sort, filter, "col-member"@)) .html(page::sortable_th_html("Type"@, SortColumn::Role, sort, filter, "col-role"@)) .html(page::table_rows_html(rows, ctx.user, pending, now)) .done() }),
            )
            &&& markup::shows(
                out,
                page::pagination_bar_html(pagination, sort, filter) + "<script>"@,
            )
        }),
{
    let (tpl, holes) = lemma_members_page();
    let parts = seq![
        page::render_banner_html(),
        page::pending_alert_html(ctx),
        page::filter_menu_html(filter, sort),
        PLUS_ICON@,
        if rows.len() == 0 && pagination.total_rows == 0 { page::NO_MEMBERS@ } else { html::template(page::MEMBERS_TABLE@) .html(page::sortable_th_html("Member"@, SortColumn::Name, sort, filter, "col-member"@)) .html(page::sortable_th_html("Type"@, SortColumn::Role, sort, filter, "col-role"@)) .html(page::table_rows_html(rows, ctx.user, pending, now)) .done() },
        page::pagination_bar_html(pagination, sort, filter),
        MEMBERS_SEARCH_JS@,
        MEMBERS_SELECT_ALL_JS@,
        MEMBERS_KEBAB_OUTSIDE_CLICK_JS@,
        DROPDOWN_FLIP_JS@,
        REAUTH_CHAIN_JS@,
        CONFIRM_NAME_JS@,
        ROLE_PICKER_GATE_JS@,
        CONFIRM_CHECKBOX_JS@,
        INVITE_SWAP_TO_INVITE_JS@,
        INVITE_REFRESH_ON_CLOSE_JS@,
        INVITE_COPY_JS@,
    ];
    let content = markup::filled(tpl, parts, 17).done();
    let out = page::members_page_html(ctx, rows, sort, filter, pagination, pending, now);
    assert(out == shell::shell_app_wide_html(ctx, "Members"@, PageId::Members, content)) by {
        reveal_with_fuel(markup::filled, 18);
    }
    around::lemma_app_content(ctx, "Members"@, PageId::Members, content, true);
    assert(tpl.subrange(0, 0) =~= Seq::<char>::empty());
    assert(tpl.subrange(1, 1) =~= Seq::<char>::empty());
    markup::lemma_hole(tpl, holes, parts, 0, Seq::<char>::empty(), Seq::<char>::empty());
    assert(Seq::<char>::empty() + parts[0] + Seq::<char>::empty() =~= parts[0]);
    markup::lemma_shows_inner(out, content, page::render_banner_html());
    assert(tpl.subrange(1, 1) =~= Seq::<char>::empty());
    markup::lemma_hole(
        tpl,
        holes,
        parts,
        1,
        Seq::<char>::empty(),
        "<div class=\"users-toolbar\">"@,
    );
    assert(Seq::<char>::empty() + parts[1] + "<div class=\"users-toolbar\">"@ =~= parts[1] + "<div class=\"users-toolbar\">"@);
    markup::lemma_shows_inner(
        out,
        content,
        page::pending_alert_html(ctx) + "<div class=\"users-toolbar\">"@,
    );
    markup::lemma_hole(
        tpl,
        holes,
        parts,
        2,
        "email…\" autocomplete=\"off\" aria-label=\"Search members\">"@,
        "<button type=\"button\" class=\"btn-secondary invite-cta\" data-open-modal=\"/modals/invite\">"@,
    );
    markup::lemma_shows_inner(
        out,
        content,
        "email…\" autocomplete=\"off\" aria-label=\"Search members\">"@ + page::filter_menu_html(filter, sort) + "<button type=\"button\" class=\"btn-secondary invite-cta\" data-open-modal=\"/modals/invite\">"@,
    );
    assert(tpl.subrange(308, 308) =~= Seq::<char>::empty());
    markup::lemma_hole(tpl, holes, parts, 4, "</div>"@, Seq::<char>::empty());
    assert("</div>"@ + parts[4] + Seq::<char>::empty() =~= "</div>"@ + parts[4]);
    markup::lemma_shows_inner(
        out,
        content,
        "</div>"@ + (if rows.len() == 0 && pagination.total_rows == 0 { page::NO_MEMBERS@ } else { html::template(page::MEMBERS_TABLE@) .html(page::sortable_th_html("Member"@, SortColumn::Name, sort, filter, "col-member"@)) .html(page::sortable_th_html("Type"@, SortColumn::Role, sort, filter, "col-role"@)) .html(page::table_rows_html(rows, ctx.user, pending, now)) .done() }),
    );
    assert(tpl.subrange(308, 308) =~= Seq::<char>::empty());
    markup::lemma_hole(tpl, holes, parts, 5, Seq::<char>::empty(), "<script>"@);
    assert(Seq::<char>::empty() + parts[5] + "<script>"@ =~= parts[5] + "<script>"@);
    markup::lemma_shows_inner(
        out,
        content,
        page::pagination_bar_html(pagination, sort, filter) + "<script>"@,
    );
}

/// Every row of the directory is shown.
pub proof fn law_every_row_is_shown(
    rows: Seq<page::MemberRow>,
    viewer: &User,
    pending: Seq<TransitionRow>,
    now: &Timestamp,
    i: int,
)
    requires
        0 <= i < rows.len(),
    ensures
        markup::shows(
            page::table_rows_html(rows, viewer, pending, now),
            page::table_row_html(rows[i], viewer, pending, now),
        ),
    decreases rows.len(),
{
    let front = rows.drop_last();
    let row = page::table_row_html(rows[i], viewer, pending, now);
    let last = page::table_row_html(rows.last(), viewer, pending, now);
    let before = page::table_rows_html(front, viewer, pending, now);
    let whole = page::table_rows_html(rows, viewer, pending, now);
    if i == front.len() {
        assert(whole =~= before + row + Seq::empty());
    } else {
        law_every_row_is_shown(front, viewer, pending, now, i);
        assert(front[i] == rows[i]);
        assert(whole =~= Seq::empty() + before + last);
        markup::lemma_shows_inner(whole, before, row);
    }
}

/// Every action of a member has its entry.
pub proof fn law_every_action_has_its_entry(
    actions: Seq<page::RowAction>,
    target: &User,
    locked: bool,
    i: int,
)
    requires
        0 <= i < actions.len(),
    ensures
        markup::shows(
            page::action_items_html(actions, target, locked),
            page::render_action_item_html(actions[i], target, locked),
        ),
    decreases actions.len(),
{
    let front = actions.drop_last();
    let row = page::render_action_item_html(actions[i], target, locked);
    let last = page::render_action_item_html(actions.last(), target, locked);
    let before = page::action_items_html(front, target, locked);
    let whole = page::action_items_html(actions, target, locked);
    if i == front.len() {
        assert(whole =~= before + row + Seq::empty());
    } else {
        law_every_action_has_its_entry(front, target, locked, i);
        assert(front[i] == actions[i]);
        assert(whole =~= Seq::empty() + before + last);
        markup::lemma_shows_inner(whole, before, row);
    }
}

/// The dialog under an address is that of its action, on the member who was picked.
pub proof fn law_action_modal(target: &User, csrf_token: Seq<char>)
    ensures
        ({
            let dialog = |seg: Seq<char>| page::action_modal_html(seg, target, csrf_token);
            let of = |action: page::RowAction|
                Some(page::render_action_dialog_html(action, target, csrf_token, target.id));
            &&& dialog("deactivate"@) == of(page::RowAction::Deactivate)
            &&& dialog("reactivate"@) == of(page::RowAction::Reactivate)
            &&& dialog("role"@) == of(page::RowAction::ChangeRole)
            &&& dialog("anonymize"@) == of(page::RowAction::Anonymize)
            &&& dialog("delete"@) == of(page::RowAction::Delete)
            &&& dialog("role-owner-confirm"@) == Some(
                page::role_owner_confirm_dialog_html(target.id, target.display_name@, csrf_token),
            )
        }),
{
    reveal_strlit("deactivate");
    reveal_strlit("reactivate");
    reveal_strlit("role");
    reveal_strlit("role-owner-confirm");
    reveal_strlit("anonymize");
    reveal_strlit("delete");
    assert("deactivate"@[0] == 'd' && "deactivate"@.len() == 10);
    assert("reactivate"@[0] == 'r' && "reactivate"@.len() == 10);
    assert("role"@.len() == 4 && "role-owner-confirm"@.len() == 18);
    assert("anonymize"@.len() == 9 && "delete"@.len() == 6);
}

/// The row of a member shows the transition that waits on that very member.
pub proof fn law_table_row(
    user: &User,
    last_activity: Option<Timestamp>,
    invitation: &Invitation,
    viewer: &User,
    pending: Seq<TransitionRow>,
    now: &Timestamp,
)
    ensures
        ({
            let row = page::MemberRow::Member { user, last_activity };
            match page::transition_for(pending, user.id) {
                Some(p) => page::table_row_html(row, viewer, pending, now) == page::member_row_html(
                    viewer,
                    user,
                    last_activity,
                    Some(&p),
                    now,
                ) && p.target_user_id == Some(user.id) && pending.contains(p),
                None => page::table_row_html(row, viewer, pending, now) == page::member_row_html(
                    viewer,
                    user,
                    last_activity,
                    None,
                    now,
                ) && forall|i: int|
                    0 <= i < pending.len() ==> (#[trigger] pending[i]).target_user_id != Some(
                        user.id,
                    ),
            }
        }),
        page::table_row_html(page::MemberRow::PendingInvite(invitation), viewer, pending, now)
            == page::pending_invite_row_html(invitation),
{
    lemma_transition_for(pending, user.id);
}

proof fn lemma_transition_for(pending: Seq<TransitionRow>, id: Uuid)
    ensures
        match page::transition_for(pending, id) {
            Some(p) => p.target_user_id == Some(id) && pending.contains(p),
            None => forall|i: int|
                0 <= i < pending.len() ==> (#[trigger] pending[i]).target_user_id != Some(id),
        },
    decreases pending.len(),
{
    if pending.len() > 0 {
        let n = pending.len() - 1;
        assert(pending[n] == pending.last());
        if pending.last().target_user_id != Some(id) {
            let front = pending.drop_last();
            lemma_transition_for(front, id);
            match page::transition_for(front, id) {
                Some(p) => {
                    let i = choose|i: int| 0 <= i < front.len() && front[i] == p;
                    assert(pending[i] == p);
                },
                None => {
                    assert forall|i: int| 0 <= i < pending.len() implies (
                    #[trigger] pending[i]).target_user_id != Some(id) by {
                        if i < n {
                            assert(front[i] == pending[i]);
                        }
                    }
                },
            }
        }
    }
}

/// Every number of the paging leads to its own page, under the order and the filter in force.
pub proof fn law_every_page_has_its_number(
    items: Seq<PageItem>,
    sort: SortState,
    filter: MemberFilter,
    rows: u32,
    cur: u32,
    i: int,
)
    requires
        0 <= i < items.len(),
    ensures
        markup::shows(
            page::page_slots_html(items, sort, filter, rows, cur),
            (match items[i] { PageItem::Number(n) => page::pagination_number_html(page::members_url_of(sort, filter, n, rows), n, n == cur), PageItem::Ellipsis => page::ELLIPSIS@ }),
        ),
    decreases items.len(),
{
    let front = items.drop_last();
    let row = (match items[i] { PageItem::Number(n) => page::pagination_number_html(page::members_url_of(sort, filter, n, rows), n, n == cur), PageItem::Ellipsis => page::ELLIPSIS@ });
    let last = (match items.last() { PageItem::Number(n) => page::pagination_number_html(page::members_url_of(sort, filter, n, rows), n, n == cur), PageItem::Ellipsis => page::ELLIPSIS@ });
    let before = page::page_slots_html(front, sort, filter, rows, cur);
    let whole = page::page_slots_html(items, sort, filter, rows, cur);
    if i == front.len() {
        assert(whole =~= before + row + Seq::empty());
    } else {
        law_every_page_has_its_number(front, sort, filter, rows, cur, i);
        assert(front[i] == items[i]);
        assert(whole =~= Seq::empty() + before + last);
        markup::lemma_shows_inner(whole, before, row);
    }
}

/// Every choice of a number of rows leads to the first page of a table with so many.
pub proof fn law_every_choice_of_rows(
    options: Seq<u32>,
    sort: SortState,
    filter: MemberFilter,
    rows: u32,
    i: int,
)
    requires
        0 <= i < options.len(),
    ensures
        markup::shows(
            page::rows_options_html(options, sort, filter, rows),
            page::rows_option_html(page::members_url_of(sort, filter, 1, options[i]), options[i], options[i] == rows),
        ),
    decreases options.len(),
{
    let front = options.drop_last();
    let row = page::rows_option_html(page::members_url_of(sort, filter, 1, options[i]), options[i], options[i] == rows);
    let last = page::rows_option_html(page::members_url_of(sort, filter, 1, options.last()), options.last(), options.last() == rows);
    let before = page::rows_options_html(front, sort, filter, rows);
    let whole = page::rows_options_html(options, sort, filter, rows);
    if i == front.len() {
        assert(whole =~= before + row + Seq::empty());
    } else {
        law_every_choice_of_rows(front, sort, filter, rows, i);
        assert(front[i] == options[i]);
        assert(whole =~= Seq::empty() + before + last);
        markup::lemma_shows_inner(whole, before, row);
    }
}

/// The address of a page of the directory holds its order, its filter, the page and its rows.
pub proof fn law_members_url(sort: SortState, filter: MemberFilter, number: u32, rows: u32)
    ensures
        page::members_url_of(sort, filter, number, rows) == "/members?sort="@
            + listing::sort_column_token(sort.column) + "&dir="@ + listing::sort_direction_token(
            sort.direction,
        ) + "&filter="@ + listing::filter_token(filter) + "&page="@ + text::decimal(number as nat)
            + "&rows="@ + text::decimal(rows as nat),
{
}

/// The previous page is one before and the next one behind, as far as there are any.
pub proof fn law_pages_around(cur: u32, total: u32)
    requires
        1 <= cur <= total,
    ensures
        cur > 1 ==> page::previous_page(cur) == cur - 1,
        cur == 1 ==> page::previous_page(cur) == 1,
        cur < total ==> page::following_page(cur, total) == cur + 1,
        cur == total ==> page::following_page(cur, total) == total,
        cur > 1 ==> listing::page_slots(cur, total).contains(
            listing::PageItem::Number((cur - 1) as u32),
        ),
        cur < total ==> listing::page_slots(cur, total).contains(
            listing::PageItem::Number((cur + 1) as u32),
        ),
{
    let s = listing::page_slots(cur, total);
    if total <= 7 {
        assert(cur > 1 ==> s[cur - 2] == listing::PageItem::Number((cur - 1) as u32));
        assert(cur < total ==> s[cur as int] == listing::PageItem::Number((cur + 1) as u32));
    } else if cur <= 4 {
        assert(cur > 1 ==> s[cur - 2] == listing::PageItem::Number((cur - 1) as u32));
        assert(s[cur as int] == listing::PageItem::Number((cur + 1) as u32));
    } else if cur >= total - 3 {
        assert(s[5 - (total - cur)] == listing::PageItem::Number((cur - 1) as u32));
        assert(cur < total ==> s[7 - (total - cur)] == listing::PageItem::Number(
            (cur + 1) as u32,
        ));
    } else {
        assert(s[2] == listing::PageItem::Number((cur - 1) as u32));
        assert(s[4] == listing::PageItem::Number((cur + 1) as u32));
    }
}

/// Owners are shown how many transitions wait, if any do; nobody else is.
pub proof fn law_pending_alert(ctx: &shell::ChromeContext, n: u32)
    ensures
        ctx.user.instance_role == InstanceRole::Owner && ctx.pending_count == Some(n) && n > 0
            ==> page::pending_alert_html(ctx) == page::pending_alert_card_html(n),
        ctx.user.instance_role != InstanceRole::Owner || ctx.pending_count is None
            || ctx.pending_count == Some(0u32) ==> page::pending_alert_html(ctx) == Seq::<
            char,
        >::empty(),
{
}

proof fn lemma_row_actions_kebab() -> (at: (Seq<char>, Seq<int>))
    ensures
        at.0 == page::ROW_ACTIONS_KEBAB@,
        at.1 == seq![164int],
        at.0.len() == 181,
        markup::holes_at(at.0, at.1),
        at.0.subrange(134, 164) == "<div class=\"row-actions-menu\">"@,
        at.0.subrange(165, 171) == "</div>"@,
        "<div class=\"row-actions-menu\">"@.len() == 30,
        "</div>"@.len() == 6,
{
    reveal_strlit("<details class=\"row-actions\"><summary class=\"row-actions-trigger\" aria-label=\"Row actions\"><span aria-hidden=\"true\">⋮</span></summary><div class=\"row-actions-menu\">¤</div></details>");
    reveal_strlit("<div class=\"row-actions-menu\">");
    reveal_strlit("</div>");
    let tpl = page::ROW_ACTIONS_KEBAB@;
    let holes = seq![164int];
    assert(markup::hole_at(tpl, holes, 0));
    assert(tpl.subrange(134, 164) =~= "<div class=\"row-actions-menu\">"@);
    assert(tpl.subrange(165, 171) =~= "</div>"@);
    (tpl, holes)
}

/// The menu beside a member holds their actions.
pub proof fn law_row_actions_kebab(target: &User, actions: Seq<page::RowAction>, locked: bool)
    ensures
        ({
            let out = page::row_actions_kebab_html(target, actions, locked);
            &&& markup::shows(
                out,
                "<div class=\"row-actions-menu\">"@ + page::action_items_html(actions, target, locked) + "</div>"@,
            )
        }),
{
    let (tpl, holes) = lemma_row_actions_kebab();
    let parts = seq![page::action_items_html(actions, target, locked)];
    assert(page::row_actions_kebab_html(target, actions, locked) == markup::filled(tpl, parts, 1).done()) by {
        reveal_with_fuel(markup::filled, 2);
    }
    markup::lemma_hole(tpl, holes, parts, 0, "<div class=\"row-actions-menu\">"@, "</div>"@);
}

} // verus!
