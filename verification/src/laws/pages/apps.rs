//! What the pages about apps show.

use vstd::prelude::*;
use crate::display;
use crate::html;
use crate::laws::markup;
use crate::laws::pages::shell as around;
use crate::model::{
    AdminResourceRow, AppListItem, RegisteredAppRow, Timestamp, TrustedPublisherListItem, Uuid,
};
use crate::model;
use crate::text;
use crate::views::apps as page;
use crate::views::events;
use crate::views::icons::{APPS_ICON, CLOSE_ICON, SHIELD_ICON, TRASH_ICON};
use crate::views::pending::MUTED_DASH;
use crate::views::shell::{ChromeContext, PageId};
use crate::views::shell;

verus! {

/// Where the holes of the template stand, and the texts around them.
proof fn lemma_app_status_badge() -> (at: (Seq<char>, Seq<int>))
    ensures
        at.0 == page::APP_STATUS_BADGE@,
        at.1 == seq![13int, 16],
        at.0.len() == 24,
        markup::holes_at(at.0, at.1),
        at.0.subrange(0, 13) == "<span class=\""@,
        at.0.subrange(14, 15) == "\""@,
        at.0.subrange(14, 16) == "\">"@,
        at.0.subrange(17, 24) == "</span>"@,
        "<span class=\""@.len() == 13,
        "\""@.len() == 1,
        "\">"@.len() == 2,
        "</span>"@.len() == 7,
{
    reveal_strlit("<span class=\"¤\">¤</span>");
    reveal_strlit("<span class=\"");
    reveal_strlit("\"");
    reveal_strlit("\">");
    reveal_strlit("</span>");
    let tpl = page::APP_STATUS_BADGE@;
    let holes = seq![13int, 16];
    assert(markup::hole_at(tpl, holes, 0));
    assert(markup::hole_at(tpl, holes, 1));
    assert(tpl.subrange(0, 13) =~= "<span class=\""@);
    assert(tpl.subrange(14, 15) =~= "\""@);
    assert(tpl.subrange(14, 16) =~= "\">"@);
    assert(tpl.subrange(17, 24) =~= "</span>"@);
    (tpl, holes)
}

/// The badge of an app says its status.
pub proof fn law_app_status_badge(status: Seq<char>)
    ensures
        ({
            let out = page::app_status_badge_html(status);
            &&& markup::shows(
                out,
                "<span class=\""@ + html::escaped(if status == "enabled"@ { "status-badge status-active"@ } else { "status-badge status-deactivated"@ }) + "\""@,
            )
            &&& markup::shows(out, "\">"@ + html::escaped(text::capitalized(status)) + "</span>"@)
        }),
{
    let (tpl, holes) = lemma_app_status_badge();
    let parts = seq![
        html::escaped(if status == "enabled"@ { "status-badge status-active"@ } else { "status-badge status-deactivated"@ }),
        html::escaped(text::capitalized(status)),
    ];
    assert(page::app_status_badge_html(status) == markup::filled(tpl, parts, 2).done()) by {
        reveal_with_fuel(markup::filled, 3);
    }
    markup::lemma_hole(tpl, holes, parts, 0, "<span class=\""@, "\""@);
    markup::lemma_hole(tpl, holes, parts, 1, "\">"@, "</span>"@);
}

/// Where the holes of the template stand, and the texts around them.
proof fn lemma_app_actions_kebab() -> (at: (Seq<char>, Seq<int>))
    ensures
        at.0 == page::APP_ACTIONS_KEBAB@,
        at.1 == seq![164int, 252],
        at.0.len() == 310,
        markup::holes_at(at.0, at.1),
        at.0.subrange(134, 164) == "<div class=\"row-actions-menu\">"@,
        at.0.subrange(165, 252) == "<button type=\"button\" class=\"row-action-item row-action-danger\" data-open-modal=\"/apps/"@,
        at.0.subrange(210, 252) == "row-action-danger\" data-open-modal=\"/apps/"@,
        at.0.subrange(253, 270) == "/modal/uninstall\""@,
        "<div class=\"row-actions-menu\">"@.len() == 30,
        "<button type=\"button\" class=\"row-action-item row-action-danger\" data-open-modal=\"/apps/"@.len() == 87,
        "row-action-danger\" data-open-modal=\"/apps/"@.len() == 42,
        "/modal/uninstall\""@.len() == 17,
{
    reveal_strlit("<details class=\"row-actions\"><summary class=\"row-actions-trigger\" aria-label=\"Row actions\"><span aria-hidden=\"true\">⋮</span></summary><div class=\"row-actions-menu\">¤<button type=\"button\" class=\"row-action-item row-action-danger\" data-open-modal=\"/apps/¤/modal/uninstall\">Uninstall app…</button></div></details>");
    reveal_strlit("<div class=\"row-actions-menu\">");
    reveal_strlit("<button type=\"button\" class=\"row-action-item row-action-danger\" data-open-modal=\"/apps/");
    reveal_strlit("row-action-danger\" data-open-modal=\"/apps/");
    reveal_strlit("/modal/uninstall\"");
    let tpl = page::APP_ACTIONS_KEBAB@;
    let holes = seq![164int, 252];
    assert(markup::hole_at(tpl, holes, 0));
    assert(markup::hole_at(tpl, holes, 1));
    assert(tpl.subrange(134, 164) =~= "<div class=\"row-actions-menu\">"@);
    assert(tpl.subrange(165, 252) =~= "<button type=\"button\" class=\"row-action-item row-action-danger\" data-open-modal=\"/apps/"@);
    assert(tpl.subrange(210, 252) =~= "row-action-danger\" data-open-modal=\"/apps/"@);
    assert(tpl.subrange(253, 270) =~= "/modal/uninstall\""@);
    (tpl, holes)
}

/// The menu of an app opens the dialogs of that app.
pub proof fn law_app_actions_kebab(app: &AppListItem)
    ensures
        ({
            let out = page::app_actions_kebab_html(app);
            let id = app.id;
            &&& markup::shows(
                out,
                "<div class=\"row-actions-menu\">"@ + (if app.status@ == "enabled"@ { html::template(page::APP_DISABLE_ITEM@) .uuid(id) .done() } else { html::template(page::APP_ENABLE_ITEM@) .uuid(id) .done() }) + "<button type=\"button\" class=\"row-action-item row-action-danger\" data-open-modal=\"/apps/"@,
            )
            &&& markup::shows(
                out,
                "row-action-danger\" data-open-modal=\"/apps/"@ + html::escaped(model::uuid_text(id)) + "/modal/uninstall\""@,
            )
        }),
{
    let id = app.id;
    let (tpl, holes) = lemma_app_actions_kebab();
    let parts = seq![
        if app.status@ == "enabled"@ { html::template(page::APP_DISABLE_ITEM@) .uuid(id) .done() } else { html::template(page::APP_ENABLE_ITEM@) .uuid(id) .done() },
        html::escaped(model::uuid_text(id)),
    ];
    assert(page::app_actions_kebab_html(app) == markup::filled(tpl, parts, 2).done()) by {
        reveal_with_fuel(markup::filled, 3);
    }
    markup::lemma_hole(
        tpl,
        holes,
        parts,
        0,
        "<div class=\"row-actions-menu\">"@,
        "<button type=\"button\" class=\"row-action-item row-action-danger\" data-open-modal=\"/apps/"@,
    );
    markup::lemma_hole(
        tpl,
        holes,
        parts,
        1,
        "row-action-danger\" data-open-modal=\"/apps/"@,
        "/modal/uninstall\""@,
    );
}

/// Where the holes of the template stand, and the texts around them.
proof fn lemma_app_row() -> (at: (Seq<char>, Seq<int>))
    ensures
        at.0 == page::APP_ROW@,
        at.1 == seq![75int, 108, 153, 182, 210, 238, 278, 281, 311],
        at.0.len() == 322,
        markup::holes_at(at.0, at.1),
        at.0.subrange(51, 75) == "<span class=\"user-name\">"@,
        at.0.subrange(76, 83) == "</span>"@,
        at.0.subrange(83, 108) == "<span class=\"user-email\">"@,
        at.0.subrange(109, 116) == "</span>"@,
        at.0.subrange(127, 153) == "<td class=\"col-publisher\">"@,
        at.0.subrange(154, 159) == "</td>"@,
        at.0.subrange(159, 182) == "<td class=\"col-status\">"@,
        at.0.subrange(183, 188) == "</td>"@,
        at.0.subrange(188, 210) == "<td class=\"col-types\">"@,
        at.0.subrange(211, 216) == "</td>"@,
        at.0.subrange(216, 238) == "<td class=\"col-count\">"@,
        at.0.subrange(239, 244) == "</td>"@,
        at.0.subrange(244, 278) == "<td class=\"col-registered\" title=\""@,
        at.0.subrange(279, 280) == "\""@,
        at.0.subrange(279, 281) == "\">"@,
        at.0.subrange(282, 287) == "</td>"@,
        at.0.subrange(287, 311) == "<td class=\"col-actions\">"@,
        at.0.subrange(312, 317) == "</td>"@,
        "<span class=\"user-name\">"@.len() == 24,
        "</span>"@.len() == 7,
        "<span class=\"user-email\">"@.len() == 25,
        "<td class=\"col-publisher\">"@.len() == 26,
        "</td>"@.len() == 5,
        "<td class=\"col-status\">"@.len() == 23,
        "<td class=\"col-types\">"@.len() == 22,
        "<td class=\"col-count\">"@.len() == 22,
        "<td class=\"col-registered\" title=\""@.len() == 34,
        "\""@.len() == 1,
        "\">"@.len() == 2,
        "<td class=\"col-actions\">"@.len() == 24,
{
    reveal_strlit("<tr><td class=\"col-app\"><div class=\"user-row-text\"><span class=\"user-name\">¤</span><span class=\"user-email\">¤</span></div></td><td class=\"col-publisher\">¤</td><td class=\"col-status\">¤</td><td class=\"col-types\">¤</td><td class=\"col-count\">¤</td><td class=\"col-registered\" title=\"¤\">¤</td><td class=\"col-actions\">¤</td></tr>");
    reveal_strlit("<span class=\"user-name\">");
    reveal_strlit("</span>");
    reveal_strlit("<span class=\"user-email\">");
    reveal_strlit("<td class=\"col-publisher\">");
    reveal_strlit("</td>");
    reveal_strlit("<td class=\"col-status\">");
    reveal_strlit("<td class=\"col-types\">");
    reveal_strlit("<td class=\"col-count\">");
    reveal_strlit("<td class=\"col-registered\" title=\"");
    reveal_strlit("\"");
    reveal_strlit("\">");
    reveal_strlit("<td class=\"col-actions\">");
    let tpl = page::APP_ROW@;
    let holes = seq![75int, 108, 153, 182, 210, 238, 278, 281, 311];
    assert(markup::hole_at(tpl, holes, 0));
    assert(markup::hole_at(tpl, holes, 1));
    assert(markup::hole_at(tpl, holes, 2));
    assert(markup::hole_at(tpl, holes, 3));
    assert(markup::hole_at(tpl, holes, 4));
    assert(markup::hole_at(tpl, holes, 5));
    assert(markup::hole_at(tpl, holes, 6));
    assert(markup::hole_at(tpl, holes, 7));
    assert(markup::hole_at(tpl, holes, 8));
    assert(tpl.subrange(51, 75) =~= "<span class=\"user-name\">"@);
    assert(tpl.subrange(76, 83) =~= "</span>"@);
    assert(tpl.subrange(83, 108) =~= "<span class=\"user-email\">"@);
    assert(tpl.subrange(109, 116) =~= "</span>"@);
    assert(tpl.subrange(127, 153) =~= "<td class=\"col-publisher\">"@);
    assert(tpl.subrange(154, 159) =~= "</td>"@);
    assert(tpl.subrange(159, 182) =~= "<td class=\"col-status\">"@);
    assert(tpl.subrange(183, 188) =~= "</td>"@);
    assert(tpl.subrange(188, 210) =~= "<td class=\"col-types\">"@);
    assert(tpl.subrange(211, 216) =~= "</td>"@);
    assert(tpl.subrange(216, 238) =~= "<td class=\"col-count\">"@);
    assert(tpl.subrange(239, 244) =~= "</td>"@);
    assert(tpl.subrange(244, 278) =~= "<td class=\"col-registered\" title=\""@);
    assert(tpl.subrange(279, 280) =~= "\""@);
    assert(tpl.subrange(279, 281) =~= "\">"@);
    assert(tpl.subrange(282, 287) =~= "</td>"@);
    assert(tpl.subrange(287, 311) =~= "<td class=\"col-actions\">"@);
    assert(tpl.subrange(312, 317) =~= "</td>"@);
    (tpl, holes)
}

/// The row of an app shows its name, identifier, publisher and status, its resource types and
/// their count, when it was registered, and its menu.
pub proof fn law_app_row(app: &AppListItem, now: &Timestamp)
    ensures
        ({
            let out = page::app_row_html(app, now);
            &&& markup::shows(
                out,
                "<span class=\"user-name\">"@ + html::escaped(app.display_name@) + "</span>"@,
            )
            &&& markup::shows(
                out,
                "<span class=\"user-email\">"@ + html::escaped(app.app_identifier@) + "</span>"@,
            )
            &&& markup::shows(
                out,
                "<td class=\"col-publisher\">"@ + html::escaped(app.publisher@) + "</td>"@,
            )
            &&& markup::shows(
                out,
                "<td class=\"col-status\">"@ + page::app_status_badge_html(app.status@) + "</td>"@,
            )
            &&& markup::shows(
                out,
                "<td class=\"col-types\">"@ + (if app.resource_types@.len() == 0 { MUTED_DASH@ } else { html::template(page::APP_TYPES@).html(page::type_chips_html(app.resource_types@)).done() }) + "</td>"@,
            )
            &&& markup::shows(
                out,
                "<td class=\"col-count\">"@ + page::app_count_html(app) + "</td>"@,
            )
            &&& markup::shows(
                out,
                "<td class=\"col-registered\" title=\""@ + html::escaped(model::date_text(app.created_at@, model::SECOND@)) + "\""@,
            )
            &&& markup::shows(
                out,
                "\">"@ + html::escaped(display::relative(app.created_at@, now@)) + "</td>"@,
            )
            &&& markup::shows(
                out,
                "<td class=\"col-actions\">"@ + page::app_actions_kebab_html(app) + "</td>"@,
            )
        }),
{
    let (tpl, holes) = lemma_app_row();
    let parts = seq![
        html::escaped(app.display_name@),
        html::escaped(app.app_identifier@),
        html::escaped(app.publisher@),
        page::app_status_badge_html(app.status@),
        if app.resource_types@.len() == 0 { MUTED_DASH@ } else { html::template(page::APP_TYPES@).html(page::type_chips_html(app.resource_types@)).done() },
        page::app_count_html(app),
        html::escaped(model::date_text(app.created_at@, model::SECOND@)),
        html::escaped(display::relative(app.created_at@, now@)),
        page::app_actions_kebab_html(app),
    ];
    assert(page::app_row_html(app, now) == markup::filled(tpl, parts, 9).done()) by {
        reveal_with_fuel(markup::filled, 10);
    }
    markup::lemma_hole(tpl, holes, parts, 0, "<span class=\"user-name\">"@, "</span>"@);
    markup::lemma_hole(tpl, holes, parts, 1, "<span class=\"user-email\">"@, "</span>"@);
    markup::lemma_hole(tpl, holes, parts, 2, "<td class=\"col-publisher\">"@, "</td>"@);
    markup::lemma_hole(tpl, holes, parts, 3, "<td class=\"col-status\">"@, "</td>"@);
    markup::lemma_hole(tpl, holes, parts, 4, "<td class=\"col-types\">"@, "</td>"@);
    markup::lemma_hole(tpl, holes, parts, 5, "<td class=\"col-count\">"@, "</td>"@);
    markup::lemma_hole(tpl, holes, parts, 6, "<td class=\"col-registered\" title=\""@, "\""@);
    markup::lemma_hole(tpl, holes, parts, 7, "\">"@, "</td>"@);
    markup::lemma_hole(tpl, holes, parts, 8, "<td class=\"col-actions\">"@, "</td>"@);
}

/// Where the holes of the template stand, and the texts around them.
proof fn lemma_type_option() -> (at: (Seq<char>, Seq<int>))
    ensures
        at.0 == page::TYPE_OPTION@,
        at.1 == seq![15int, 17, 19],
        at.0.len() == 29,
        markup::holes_at(at.0, at.1),
        at.0.subrange(0, 15) == "<option value=\""@,
        at.0.subrange(16, 17) == "\""@,
        at.0.subrange(18, 19) == ">"@,
        at.0.subrange(20, 29) == "</option>"@,
        "<option value=\""@.len() == 15,
        "\""@.len() == 1,
        ">"@.len() == 1,
        "</option>"@.len() == 9,
{
    reveal_strlit("<option value=\"¤\"¤>¤</option>");
    reveal_strlit("<option value=\"");
    reveal_strlit("\"");
    reveal_strlit(">");
    reveal_strlit("</option>");
    let tpl = page::TYPE_OPTION@;
    let holes = seq![15int, 17, 19];
    assert(markup::hole_at(tpl, holes, 0));
    assert(markup::hole_at(tpl, holes, 1));
    assert(markup::hole_at(tpl, holes, 2));
    assert(tpl.subrange(0, 15) =~= "<option value=\""@);
    assert(tpl.subrange(16, 17) =~= "\""@);
    assert(tpl.subrange(18, 19) =~= ">"@);
    assert(tpl.subrange(20, 29) =~= "</option>"@);
    (tpl, holes)
}

/// An option of the type filter stands for its type, and is selected where it is in force.
pub proof fn law_type_option(t: Seq<char>, selected: Seq<char>)
    ensures
        ({
            let out = page::type_option_html(t, selected);
            &&& markup::shows(out, "<option value=\""@ + html::escaped(t) + "\""@)
            &&& markup::shows(out, "\""@ + html::when(t == selected, " selected"@) + ">"@)
            &&& markup::shows(out, ">"@ + html::escaped(t) + "</option>"@)
        }),
{
    let (tpl, holes) = lemma_type_option();
    let parts = seq![html::escaped(t), html::when(t == selected, " selected"@), html::escaped(t)];
    assert(page::type_option_html(t, selected) == markup::filled(tpl, parts, 3).done()) by {
        reveal_with_fuel(markup::filled, 4);
    }
    markup::lemma_hole(tpl, holes, parts, 0, "<option value=\""@, "\""@);
    markup::lemma_hole(tpl, holes, parts, 1, "\""@, ">"@);
    markup::lemma_hole(tpl, holes, parts, 2, ">"@, "</option>"@);
}

/// Where the holes of the template stand, and the texts around them.
proof fn lemma_app_resources_toolbar() -> (at: (Seq<char>, Seq<int>))
    ensures
        at.0 == page::APP_RESOURCES_TOOLBAR@,
        at.1 == seq![33int, 120, 348, 368, 466],
        at.0.len() == 557,
        markup::holes_at(at.0, at.1),
        at.0.subrange(0, 33) == "<form method=\"get\" action=\"/apps/"@,
        at.0.subrange(34, 45) == "/resources\""@,
        at.0.subrange(83, 120) == "<input type=\"search\" name=\"q\" value=\""@,
        at.0.subrange(121, 122) == "\""@,
        at.0.subrange(332, 348) == "<option value=\"\""@,
        at.0.subrange(349, 359) == ">All types"@,
        at.0.subrange(359, 368) == "</option>"@,
        at.0.subrange(369, 378) == "</select>"@,
        at.0.subrange(419, 466) == "<input type=\"checkbox\" name=\"deleted\" value=\"1\""@,
        at.0.subrange(467, 484) == "> Include deleted"@,
        "<form method=\"get\" action=\"/apps/"@.len() == 33,
        "/resources\""@.len() == 11,
        "<input type=\"search\" name=\"q\" value=\""@.len() == 37,
        "\""@.len() == 1,
        "<option value=\"\""@.len() == 16,
        ">All types"@.len() == 10,
        "</option>"@.len() == 9,
        "</select>"@.len() == 9,
        "<input type=\"checkbox\" name=\"deleted\" value=\"1\""@.len() == 47,
        "> Include deleted"@.len() == 17,
{
    reveal_strlit("<form method=\"get\" action=\"/apps/¤/resources\" class=\"users-toolbar events-toolbar\"><input type=\"search\" name=\"q\" value=\"¤\" class=\"users-search\" placeholder=\"Resource ID (UUID)…\" autocomplete=\"off\" aria-label=\"Search by resource ID\"><select name=\"type\" class=\"settings-select events-type-select\" aria-label=\"Filter by resource type\"><option value=\"\"¤>All types</option>¤</select><label class=\"resources-include-deleted\"><input type=\"checkbox\" name=\"deleted\" value=\"1\"¤> Include deleted</label><button type=\"submit\" class=\"btn-secondary\">Apply</button></form>");
    reveal_strlit("<form method=\"get\" action=\"/apps/");
    reveal_strlit("/resources\"");
    reveal_strlit("<input type=\"search\" name=\"q\" value=\"");
    reveal_strlit("\"");
    reveal_strlit("<option value=\"\"");
    reveal_strlit(">All types");
    reveal_strlit("</option>");
    reveal_strlit("</select>");
    reveal_strlit("<input type=\"checkbox\" name=\"deleted\" value=\"1\"");
    reveal_strlit("> Include deleted");
    let tpl = page::APP_RESOURCES_TOOLBAR@;
    let holes = seq![33int, 120, 348, 368, 466];
    assert(markup::hole_at(tpl, holes, 0));
    assert(markup::hole_at(tpl, holes, 1));
    assert(markup::hole_at(tpl, holes, 2));
    assert(markup::hole_at(tpl, holes, 3));
    assert(markup::hole_at(tpl, holes, 4));
    assert(tpl.subrange(0, 33) =~= "<form method=\"get\" action=\"/apps/"@);
    assert(tpl.subrange(34, 45) =~= "/resources\""@);
    assert(tpl.subrange(83, 120) =~= "<input type=\"search\" name=\"q\" value=\""@);
    assert(tpl.subrange(121, 122) =~= "\""@);
    assert(tpl.subrange(332, 348) =~= "<option value=\"\""@);
    assert(tpl.subrange(349, 359) =~= ">All types"@);
    assert(tpl.subrange(359, 368) =~= "</option>"@);
    assert(tpl.subrange(369, 378) =~= "</select>"@);
    assert(tpl.subrange(419, 466) =~= "<input type=\"checkbox\" name=\"deleted\" value=\"1\""@);
    assert(tpl.subrange(467, 484) =~= "> Include deleted"@);
    (tpl, holes)
}

/// The toolbar searches the resources of its app and holds what is searched for.
pub proof fn law_app_resources_toolbar(v: page::AppResourcesText)
    ensures
        ({
            let out = page::app_resources_toolbar_html(v);
            &&& markup::shows(
                out,
                "<form method=\"get\" action=\"/apps/"@ + html::escaped(model::uuid_text(v.app.id)) + "/resources\""@,
            )
            &&& markup::shows(
                out,
                "<input type=\"search\" name=\"q\" value=\""@ + html::escaped(v.search) + "\""@,
            )
            &&& markup::shows(
                out,
                "<option value=\"\""@ + html::when(v.type_filter.len() == 0, " selected"@) + ">All types"@,
            )
            &&& markup::shows(
                out,
                "</option>"@ + page::type_options_html(v.app.resource_types@, v.type_filter) + "</select>"@,
            )
            &&& markup::shows(
                out,
                "<input type=\"checkbox\" name=\"deleted\" value=\"1\""@ + html::when(v.include_deleted, " checked"@) + "> Include deleted"@,
            )
        }),
{
    let (tpl, holes) = lemma_app_resources_toolbar();
    let parts = seq![
        html::escaped(model::uuid_text(v.app.id)),
        html::escaped(v.search),
        html::when(v.type_filter.len() == 0, " selected"@),
        page::type_options_html(v.app.resource_types@, v.type_filter),
        html::when(v.include_deleted, " checked"@),
    ];
    assert(page::app_resources_toolbar_html(v) == markup::filled(tpl, parts, 5).done()) by {
        reveal_with_fuel(markup::filled, 6);
    }
    markup::lemma_hole(
        tpl,
        holes,
        parts,
        0,
        "<form method=\"get\" action=\"/apps/"@,
        "/resources\""@,
    );
    markup::lemma_hole(tpl, holes, parts, 1, "<input type=\"search\" name=\"q\" value=\""@, "\""@);
    markup::lemma_hole(tpl, holes, parts, 2, "<option value=\"\""@, ">All types"@);
    markup::lemma_hole(tpl, holes, parts, 3, "</option>"@, "</select>"@);
    markup::lemma_hole(
        tpl,
        holes,
        parts,
        4,
        "<input type=\"checkbox\" name=\"deleted\" value=\"1\""@,
        "> Include deleted"@,
    );
}

/// Where the holes of the template stand, and the texts around them.
proof fn lemma_app_resource_row() -> (at: (Seq<char>, Seq<int>))
    ensures
        at.0 == page::APP_RESOURCE_ROW@,
        at.1 == seq![46int, 58, 117, 176, 211, 238, 275, 278, 308],
        at.0.len() == 319,
        markup::holes_at(at.0, at.1),
        at.0.subrange(0, 46) == "<tr class=\"events-row\" data-open-modal=\"/apps/"@,
        at.0.subrange(47, 58) == "/resources/"@,
        at.0.subrange(59, 66) == "/modal\""@,
        at.0.subrange(89, 117) == "<span class=\"app-type-chip\">"@,
        at.0.subrange(118, 125) == "</span>"@,
        at.0.subrange(150, 176) == "<code class=\"resource-id\">"@,
        at.0.subrange(177, 184) == "</code>"@,
        at.0.subrange(189, 211) == "<td class=\"col-owner\">"@,
        at.0.subrange(212, 217) == "</td>"@,
        at.0.subrange(217, 238) == "<td class=\"col-size\">"@,
        at.0.subrange(239, 244) == "</td>"@,
        at.0.subrange(244, 275) == "<td class=\"col-updated\" title=\""@,
        at.0.subrange(276, 277) == "\""@,
        at.0.subrange(276, 278) == "\">"@,
        at.0.subrange(279, 284) == "</td>"@,
        at.0.subrange(284, 308) == "<td class=\"col-rstatus\">"@,
        at.0.subrange(309, 314) == "</td>"@,
        "<tr class=\"events-row\" data-open-modal=\"/apps/"@.len() == 46,
        "/resources/"@.len() == 11,
        "/modal\""@.len() == 7,
        "<span class=\"app-type-chip\">"@.len() == 28,
        "</span>"@.len() == 7,
        "<code class=\"resource-id\">"@.len() == 26,
        "</code>"@.len() == 7,
        "<td class=\"col-owner\">"@.len() == 22,
        "</td>"@.len() == 5,
        "<td class=\"col-size\">"@.len() == 21,
        "<td class=\"col-updated\" title=\""@.len() == 31,
        "\""@.len() == 1,
        "\">"@.len() == 2,
        "<td class=\"col-rstatus\">"@.len() == 24,
{
    reveal_strlit("<tr class=\"events-row\" data-open-modal=\"/apps/¤/resources/¤/modal\"><td class=\"col-rtype\"><span class=\"app-type-chip\">¤</span></td><td class=\"col-rid\"><code class=\"resource-id\">¤</code></td><td class=\"col-owner\">¤</td><td class=\"col-size\">¤</td><td class=\"col-updated\" title=\"¤\">¤</td><td class=\"col-rstatus\">¤</td></tr>");
    reveal_strlit("<tr class=\"events-row\" data-open-modal=\"/apps/");
    reveal_strlit("/resources/");
    reveal_strlit("/modal\"");
    reveal_strlit("<span class=\"app-type-chip\">");
    reveal_strlit("</span>");
    reveal_strlit("<code class=\"resource-id\">");
    reveal_strlit("</code>");
    reveal_strlit("<td class=\"col-owner\">");
    reveal_strlit("</td>");
    reveal_strlit("<td class=\"col-size\">");
    reveal_strlit("<td class=\"col-updated\" title=\"");
    reveal_strlit("\"");
    reveal_strlit("\">");
    reveal_strlit("<td class=\"col-rstatus\">");
    let tpl = page::APP_RESOURCE_ROW@;
    let holes = seq![46int, 58, 117, 176, 211, 238, 275, 278, 308];
    assert(markup::hole_at(tpl, holes, 0));
    assert(markup::hole_at(tpl, holes, 1));
    assert(markup::hole_at(tpl, holes, 2));
    assert(markup::hole_at(tpl, holes, 3));
    assert(markup::hole_at(tpl, holes, 4));
    assert(markup::hole_at(tpl, holes, 5));
    assert(markup::hole_at(tpl, holes, 6));
    assert(markup::hole_at(tpl, holes, 7));
    assert(markup::hole_at(tpl, holes, 8));
    assert(tpl.subrange(0, 46) =~= "<tr class=\"events-row\" data-open-modal=\"/apps/"@);
    assert(tpl.subrange(47, 58) =~= "/resources/"@);
    assert(tpl.subrange(59, 66) =~= "/modal\""@);
    assert(tpl.subrange(89, 117) =~= "<span class=\"app-type-chip\">"@);
    assert(tpl.subrange(118, 125) =~= "</span>"@);
    assert(tpl.subrange(150, 176) =~= "<code class=\"resource-id\">"@);
    assert(tpl.subrange(177, 184) =~= "</code>"@);
    assert(tpl.subrange(189, 211) =~= "<td class=\"col-owner\">"@);
    assert(tpl.subrange(212, 217) =~= "</td>"@);
    assert(tpl.subrange(217, 238) =~= "<td class=\"col-size\">"@);
    assert(tpl.subrange(239, 244) =~= "</td>"@);
    assert(tpl.subrange(244, 275) =~= "<td class=\"col-updated\" title=\""@);
    assert(tpl.subrange(276, 277) =~= "\""@);
    assert(tpl.subrange(276, 278) =~= "\">"@);
    assert(tpl.subrange(279, 284) =~= "</td>"@);
    assert(tpl.subrange(284, 308) =~= "<td class=\"col-rstatus\">"@);
    assert(tpl.subrange(309, 314) =~= "</td>"@);
    (tpl, holes)
}

/// The row of a resource shows its type, identifier, owner and size, when it was changed and
/// whether it is deleted, and opens the dialog of that very resource.
pub proof fn law_app_resource_row(app_id: Uuid, r: &AdminResourceRow, now: &Timestamp)
    ensures
        ({
            let out = page::app_resource_row_html(app_id, r, now);
            &&& markup::shows(
                out,
                "<tr class=\"events-row\" data-open-modal=\"/apps/"@ + html::escaped(model::uuid_text(app_id)) + "/resources/"@,
            )
            &&& markup::shows(
                out,
                "/resources/"@ + html::escaped(model::uuid_text(r.id)) + "/modal\""@,
            )
            &&& markup::shows(
                out,
                "<span class=\"app-type-chip\">"@ + html::escaped(r.resource_type@) + "</span>"@,
            )
            &&& markup::shows(
                out,
                "<code class=\"resource-id\">"@ + html::escaped(model::uuid_text(r.app_resource_id)) + "</code>"@,
            )
            &&& markup::shows(
                out,
                "<td class=\"col-owner\">"@ + (match r.owner_display_name { Some(n) => html::escaped(n@), None => MUTED_DASH@, }) + "</td>"@,
            )
            &&& markup::shows(
                out,
                "<td class=\"col-size\">"@ + html::escaped(display::bytes_text(r.content_len as int)) + "</td>"@,
            )
            &&& markup::shows(
                out,
                "<td class=\"col-updated\" title=\""@ + html::escaped(model::date_text(r.updated_at@, model::SECOND@)) + "\""@,
            )
            &&& markup::shows(
                out,
                "\">"@ + html::escaped(display::relative(r.updated_at@, now@)) + "</td>"@,
            )
            &&& markup::shows(
                out,
                "<td class=\"col-rstatus\">"@ + (if r.deleted_at is Some { page::RESOURCE_DELETED@ } else { page::RESOURCE_LIVE@ }) + "</td>"@,
            )
        }),
{
    let (tpl, holes) = lemma_app_resource_row();
    let parts = seq![
        html::escaped(model::uuid_text(app_id)),
        html::escaped(model::uuid_text(r.id)),
        html::escaped(r.resource_type@),
        html::escaped(model::uuid_text(r.app_resource_id)),
        match r.owner_display_name { Some(n) => html::escaped(n@), None => MUTED_DASH@, },
        html::escaped(display::bytes_text(r.content_len as int)),
        html::escaped(model::date_text(r.updated_at@, model::SECOND@)),
        html::escaped(display::relative(r.updated_at@, now@)),
        if r.deleted_at is Some { page::RESOURCE_DELETED@ } else { page::RESOURCE_LIVE@ },
    ];
    assert(page::app_resource_row_html(app_id, r, now) == markup::filled(tpl, parts, 9).done()) by {
        reveal_with_fuel(markup::filled, 10);
    }
    markup::lemma_hole(
        tpl,
        holes,
        parts,
        0,
        "<tr class=\"events-row\" data-open-modal=\"/apps/"@,
        "/resources/"@,
    );
    markup::lemma_hole(tpl, holes, parts, 1, "/resources/"@, "/modal\""@);
    markup::lemma_hole(tpl, holes, parts, 2, "<span class=\"app-type-chip\">"@, "</span>"@);
    markup::lemma_hole(tpl, holes, parts, 3, "<code class=\"resource-id\">"@, "</code>"@);
    markup::lemma_hole(tpl, holes, parts, 4, "<td class=\"col-owner\">"@, "</td>"@);
    markup::lemma_hole(tpl, holes, parts, 5, "<td class=\"col-size\">"@, "</td>"@);
    markup::lemma_hole(tpl, holes, parts, 6, "<td class=\"col-updated\" title=\""@, "\""@);
    markup::lemma_hole(tpl, holes, parts, 7, "\">"@, "</td>"@);
    markup::lemma_hole(tpl, holes, parts, 8, "<td class=\"col-rstatus\">"@, "</td>"@);
}

/// Where the holes of the template stand, and the texts around them.
proof fn lemma_app_resource_detail_modal() -> (at: (Seq<char>, Seq<int>))
    ensures
        at.0 == page::RESOURCE_DETAIL@,
        at.1 == seq![149int, 236, 295, 296, 297, 298, 299, 300, 301, 302, 303, 304, 305, 550, 562, 572],
        at.0.len() == 810,
        markup::holes_at(at.0, at.1),
        at.0.subrange(269, 295) == "<div class=\"event-detail\">"@,
        at.0.subrange(306, 312) == "</div>"@,
        at.0.subrange(496, 550) == "id=\"form-resource-delete\" method=\"post\" action=\"/apps/"@,
        at.0.subrange(551, 562) == "/resources/"@,
        at.0.subrange(563, 571) == "/delete\""@,
        at.0.subrange(563, 572) == "/delete\">"@,
        at.0.subrange(573, 580) == "</form>"@,
        "<div class=\"event-detail\">"@.len() == 26,
        "</div>"@.len() == 6,
        "id=\"form-resource-delete\" method=\"post\" action=\"/apps/"@.len() == 54,
        "/resources/"@.len() == 11,
        "/delete\""@.len() == 8,
        "/delete\">"@.len() == 9,
        "</form>"@.len() == 7,
{
    reveal_strlit("<dialog id=\"dlg-resource-detail\" class=\"action-dialog action-dialog-centered\"><div class=\"dialog-header\"><div class=\"dialog-icon dialog-icon-shield\">¤</div><button type=\"button\" class=\"dialog-close\" data-close-dialog aria-label=\"Close\">¤</button></div><h2>Resource</h2><div class=\"event-detail\">¤¤¤¤¤¤¤¤¤¤¤</div><p class=\"dialog-description resource-delete-note\">Deleting purges this resource entirely — its owner and their other devices won't receive a tombstone. This can't be undone.</p><form id=\"form-resource-delete\" method=\"post\" action=\"/apps/¤/resources/¤/delete\">¤</form><div class=\"dialog-actions\"><button type=\"button\" class=\"btn-secondary\" data-close-dialog>Close</button><button type=\"button\" class=\"btn-danger\" data-reauth-confirm=\"form-resource-delete\">Delete permanently</button></div></dialog>");
    reveal_strlit("<div class=\"event-detail\">");
    reveal_strlit("</div>");
    reveal_strlit("id=\"form-resource-delete\" method=\"post\" action=\"/apps/");
    reveal_strlit("/resources/");
    reveal_strlit("/delete\"");
    reveal_strlit("/delete\">");
    reveal_strlit("</form>");
    let tpl = page::RESOURCE_DETAIL@;
    let holes = seq![149int, 236, 295, 296, 297, 298, 299, 300, 301, 302, 303, 304, 305, 550, 562, 572];
    assert(markup::hole_at(tpl, holes, 0));
    assert(markup::hole_at(tpl, holes, 1));
    assert(markup::hole_at(tpl, holes, 2));
    assert(markup::hole_at(tpl, holes, 3));
    assert(markup::hole_at(tpl, holes, 4));
    assert(markup::hole_at(tpl, holes, 5));
    assert(markup::hole_at(tpl, holes, 6));
    assert(markup::hole_at(tpl, holes, 7));
    assert(markup::hole_at(tpl, holes, 8));
    assert(markup::hole_at(tpl, holes, 9));
    assert(markup::hole_at(tpl, holes, 10));
    assert(markup::hole_at(tpl, holes, 11));
    assert(markup::hole_at(tpl, holes, 12));
    assert(markup::hole_at(tpl, holes, 13));
    assert(markup::hole_at(tpl, holes, 14));
    assert(markup::hole_at(tpl, holes, 15));
    assert(tpl.subrange(269, 295) =~= "<div class=\"event-detail\">"@);
    assert(tpl.subrange(306, 312) =~= "</div>"@);
    assert(tpl.subrange(496, 550) =~= "id=\"form-resource-delete\" method=\"post\" action=\"/apps/"@);
    assert(tpl.subrange(551, 562) =~= "/resources/"@);
    assert(tpl.subrange(563, 571) =~= "/delete\""@);
    assert(tpl.subrange(563, 572) =~= "/delete\">"@);
    assert(tpl.subrange(573, 580) =~= "</form>"@);
    (tpl, holes)
}

/// The dialog of a resource shows every field in its place, and its form removes that very
/// resource.
pub proof fn law_app_resource_detail_modal(
    app_id: Uuid,
    r: &AdminResourceRow,
    csrf_token: Seq<char>,
)
    ensures
        ({
            let out = page::app_resource_detail_modal_html(app_id, r, csrf_token);
            &&& markup::shows(
                out,
                "<div class=\"event-detail\">"@ + events::detail_pair_html( "Type"@, html::template(page::APP_TYPE_CHIP@).text(r.resource_type@).done()),
            )
            &&& markup::shows(
                out,
                events::detail_pair_html( "Resource ID"@, html::template(page::CODE@).uuid(r.app_resource_id).done()),
            )
            &&& markup::shows(
                out,
                events::detail_pair_html("Server ID"@, html::template(page::CODE@).uuid(r.id).done()),
            )
            &&& markup::shows(out, events::detail_pair_html("Owner"@, page::owner_text_html(r)))
            &&& markup::shows(out, events::detail_pair_html("Parent"@, page::parent_text_html(r)))
            &&& markup::shows(
                out,
                events::detail_pair_html( "Schema version"@, html::template(page::APP_COUNT@).num(r.schema_version as int).done()),
            )
            &&& markup::shows(
                out,
                events::detail_pair_html( "Content"@, html::template(page::ENCRYPTED_SIZE@).text(display::bytes_text(r.content_len as int)).done()),
            )
            &&& markup::shows(
                out,
                events::detail_pair_html( "Signature"@, html::escaped(display::bytes_text(r.signature_len as int))),
            )
            &&& markup::shows(
                out,
                events::detail_pair_html( "Created"@, html::escaped(model::date_text(r.created_at@, model::SECOND@))),
            )
            &&& markup::shows(
                out,
                events::detail_pair_html( "Updated"@, html::escaped(model::date_text(r.updated_at@, model::SECOND@))),
            )
            &&& markup::shows(
                out,
                (match r.deleted_at { Some(d) => events::detail_pair_html( "Deleted"@, html::escaped(model::date_text(d@, model::SECOND@))), None => Seq::empty(), }) + "</div>"@,
            )
            &&& markup::shows(
                out,
                "id=\"form-resource-delete\" method=\"post\" action=\"/apps/"@ + html::escaped(model::uuid_text(app_id)) + "/resources/"@,
            )
            &&& markup::shows(
                out,
                "/resources/"@ + html::escaped(model::uuid_text(r.id)) + "/delete\""@,
            )
            &&& markup::shows(out, "/delete\">"@ + shell::csrf_input_html(csrf_token) + "</form>"@)
            &&& markup::shows(
                out,
                "<div class=\"event-detail\">"@ + (events::detail_pair_html( "Type"@, html::template(page::APP_TYPE_CHIP@).text(r.resource_type@).done()) + events::detail_pair_html( "Resource ID"@, html::template(page::CODE@).uuid(r.app_resource_id).done())),
            )
            &&& markup::shows(
                out,
                (events::detail_pair_html( "Resource ID"@, html::template(page::CODE@).uuid(r.app_resource_id).done()) + events::detail_pair_html("Server ID"@, html::template(page::CODE@).uuid(r.id).done())),
            )
            &&& markup::shows(
                out,
                (events::detail_pair_html("Server ID"@, html::template(page::CODE@).uuid(r.id).done()) + events::detail_pair_html("Owner"@, page::owner_text_html(r))),
            )
            &&& markup::shows(
                out,
                (events::detail_pair_html("Owner"@, page::owner_text_html(r)) + events::detail_pair_html("Parent"@, page::parent_text_html(r))),
            )
            &&& markup::shows(
                out,
                (events::detail_pair_html("Parent"@, page::parent_text_html(r)) + events::detail_pair_html( "Schema version"@, html::template(page::APP_COUNT@).num(r.schema_version as int).done())),
            )
            &&& markup::shows(
                out,
                (events::detail_pair_html( "Schema version"@, html::template(page::APP_COUNT@).num(r.schema_version as int).done()) + events::detail_pair_html( "Content"@, html::template(page::ENCRYPTED_SIZE@).text(display::bytes_text(r.content_len as int)).done())),
            )
            &&& markup::shows(
                out,
                (events::detail_pair_html( "Content"@, html::template(page::ENCRYPTED_SIZE@).text(display::bytes_text(r.content_len as int)).done()) + events::detail_pair_html( "Signature"@, html::escaped(display::bytes_text(r.signature_len as int)))),
            )
            &&& markup::shows(
                out,
                (events::detail_pair_html( "Signature"@, html::escaped(display::bytes_text(r.signature_len as int))) + events::detail_pair_html( "Created"@, html::escaped(model::date_text(r.created_at@, model::SECOND@)))),
            )
            &&& markup::shows(
                out,
                (events::detail_pair_html( "Created"@, html::escaped(model::date_text(r.created_at@, model::SECOND@))) + events::detail_pair_html( "Updated"@, html::escaped(model::date_text(r.updated_at@, model::SECOND@)))),
            )
        }),
{
    let (tpl, holes) = lemma_app_resource_detail_modal();
    let parts = seq![
        APPS_ICON@,
        CLOSE_ICON@,
        events::detail_pair_html( "Type"@, html::template(page::APP_TYPE_CHIP@).text(r.resource_type@).done()),
        events::detail_pair_html( "Resource ID"@, html::template(page::CODE@).uuid(r.app_resource_id).done()),
        events::detail_pair_html("Server ID"@, html::template(page::CODE@).uuid(r.id).done()),
        events::detail_pair_html("Owner"@, page::owner_text_html(r)),
        events::detail_pair_html("Parent"@, page::parent_text_html(r)),
        events::detail_pair_html( "Schema version"@, html::template(page::APP_COUNT@).num(r.schema_version as int).done()),
        events::detail_pair_html( "Content"@, html::template(page::ENCRYPTED_SIZE@).text(display::bytes_text(r.content_len as int)).done()),
        events::detail_pair_html( "Signature"@, html::escaped(display::bytes_text(r.signature_len as int))),
        events::detail_pair_html( "Created"@, html::escaped(model::date_text(r.created_at@, model::SECOND@))),
        events::detail_pair_html( "Updated"@, html::escaped(model::date_text(r.updated_at@, model::SECOND@))),
        match r.deleted_at { Some(d) => events::detail_pair_html( "Deleted"@, html::escaped(model::date_text(d@, model::SECOND@))), None => Seq::empty(), },
        html::escaped(model::uuid_text(app_id)),
        html::escaped(model::uuid_text(r.id)),
        shell::csrf_input_html(csrf_token),
    ];
    assert(page::app_resource_detail_modal_html(app_id, r, csrf_token) == markup::filled(tpl, parts, 16).done()) by {
        reveal_with_fuel(markup::filled, 17);
    }
    assert(tpl.subrange(296, 296) =~= Seq::<char>::empty());
    markup::lemma_hole(tpl, holes, parts, 2, "<div class=\"event-detail\">"@, Seq::<char>::empty());
    assert("<div class=\"event-detail\">"@ + parts[2] + Seq::<char>::empty() =~= "<div class=\"event-detail\">"@ + parts[2]);
    assert(tpl.subrange(296, 296) =~= Seq::<char>::empty());
    assert(tpl.subrange(297, 297) =~= Seq::<char>::empty());
    markup::lemma_hole(tpl, holes, parts, 3, Seq::<char>::empty(), Seq::<char>::empty());
    assert(Seq::<char>::empty() + parts[3] + Seq::<char>::empty() =~= parts[3]);
    assert(tpl.subrange(297, 297) =~= Seq::<char>::empty());
    assert(tpl.subrange(298, 298) =~= Seq::<char>::empty());
    markup::lemma_hole(tpl, holes, parts, 4, Seq::<char>::empty(), Seq::<char>::empty());
    assert(Seq::<char>::empty() + parts[4] + Seq::<char>::empty() =~= parts[4]);
    assert(tpl.subrange(298, 298) =~= Seq::<char>::empty());
    assert(tpl.subrange(299, 299) =~= Seq::<char>::empty());
    markup::lemma_hole(tpl, holes, parts, 5, Seq::<char>::empty(), Seq::<char>::empty());
    assert(Seq::<char>::empty() + parts[5] + Seq::<char>::empty() =~= parts[5]);
    assert(tpl.subrange(299, 299) =~= Seq::<char>::empty());
    assert(tpl.subrange(300, 300) =~= Seq::<char>::empty());
    markup::lemma_hole(tpl, holes, parts, 6, Seq::<char>::empty(), Seq::<char>::empty());
    assert(Seq::<char>::empty() + parts[6] + Seq::<char>::empty() =~= parts[6]);
    assert(tpl.subrange(300, 300) =~= Seq::<char>::empty());
    assert(tpl.subrange(301, 301) =~= Seq::<char>::empty());
    markup::lemma_hole(tpl, holes, parts, 7, Seq::<char>::empty(), Seq::<char>::empty());
    assert(Seq::<char>::empty() + parts[7] + Seq::<char>::empty() =~= parts[7]);
    assert(tpl.subrange(301, 301) =~= Seq::<char>::empty());
    assert(tpl.subrange(302, 302) =~= Seq::<char>::empty());
    markup::lemma_hole(tpl, holes, parts, 8, Seq::<char>::empty(), Seq::<char>::empty());
    assert(Seq::<char>::empty() + parts[8] + Seq::<char>::empty() =~= parts[8]);
    assert(tpl.subrange(302, 302) =~= Seq::<char>::empty());
    assert(tpl.subrange(303, 303) =~= Seq::<char>::empty());
    markup::lemma_hole(tpl, holes, parts, 9, Seq::<char>::empty(), Seq::<char>::empty());
    assert(Seq::<char>::empty() + parts[9] + Seq::<char>::empty() =~= parts[9]);
    assert(tpl.subrange(303, 303) =~= Seq::<char>::empty());
    assert(tpl.subrange(304, 304) =~= Seq::<char>::empty());
    markup::lemma_hole(tpl, holes, parts, 10, Seq::<char>::empty(), Seq::<char>::empty());
    assert(Seq::<char>::empty() + parts[10] + Seq::<char>::empty() =~= parts[10]);
    assert(tpl.subrange(304, 304) =~= Seq::<char>::empty());
    assert(tpl.subrange(305, 305) =~= Seq::<char>::empty());
    markup::lemma_hole(tpl, holes, parts, 11, Seq::<char>::empty(), Seq::<char>::empty());
    assert(Seq::<char>::empty() + parts[11] + Seq::<char>::empty() =~= parts[11]);
    assert(tpl.subrange(305, 305) =~= Seq::<char>::empty());
    markup::lemma_hole(tpl, holes, parts, 12, Seq::<char>::empty(), "</div>"@);
    assert(Seq::<char>::empty() + parts[12] + "</div>"@ =~= parts[12] + "</div>"@);
    markup::lemma_hole(
        tpl,
        holes,
        parts,
        13,
        "id=\"form-resource-delete\" method=\"post\" action=\"/apps/"@,
        "/resources/"@,
    );
    markup::lemma_hole(tpl, holes, parts, 14, "/resources/"@, "/delete\""@);
    markup::lemma_hole(tpl, holes, parts, 15, "/delete\">"@, "</form>"@);
    assert(tpl.subrange(296, 296) =~= Seq::<char>::empty());
    assert(tpl.subrange(297, 297) =~= Seq::<char>::empty());
    markup::lemma_two_holes(
        tpl,
        holes,
        parts,
        2,
        "<div class=\"event-detail\">"@,
        Seq::<char>::empty(),
        Seq::<char>::empty(),
    );
    assert("<div class=\"event-detail\">"@ + (parts[2] + Seq::<char>::empty() + parts[3]) + Seq::<char>::empty() =~= "<div class=\"event-detail\">"@ + (parts[2] + parts[3]));
    assert(tpl.subrange(296, 296) =~= Seq::<char>::empty());
    assert(tpl.subrange(297, 297) =~= Seq::<char>::empty());
    assert(tpl.subrange(298, 298) =~= Seq::<char>::empty());
    markup::lemma_two_holes(
        tpl,
        holes,
        parts,
        3,
        Seq::<char>::empty(),
        Seq::<char>::empty(),
        Seq::<char>::empty(),
    );
    assert(Seq::<char>::empty() + (parts[3] + Seq::<char>::empty() + parts[4]) + Seq::<char>::empty() =~= (parts[3] + parts[4]));
    assert(tpl.subrange(297, 297) =~= Seq::<char>::empty());
    assert(tpl.subrange(298, 298) =~= Seq::<char>::empty());
    assert(tpl.subrange(299, 299) =~= Seq::<char>::empty());
    markup::lemma_two_holes(
        tpl,
        holes,
        parts,
        4,
        Seq::<char>::empty(),
        Seq::<char>::empty(),
        Seq::<char>::empty(),
    );
    assert(Seq::<char>::empty() + (parts[4] + Seq::<char>::empty() + parts[5]) + Seq::<char>::empty() =~= (parts[4] + parts[5]));
    assert(tpl.subrange(298, 298) =~= Seq::<char>::empty());
    assert(tpl.subrange(299, 299) =~= Seq::<char>::empty());
    assert(tpl.subrange(300, 300) =~= Seq::<char>::empty());
    markup::lemma_two_holes(
        tpl,
        holes,
        parts,
        5,
        Seq::<char>::empty(),
        Seq::<char>::empty(),
        Seq::<char>::empty(),
    );
    assert(Seq::<char>::empty() + (parts[5] + Seq::<char>::empty() + parts[6]) + Seq::<char>::empty() =~= (parts[5] + parts[6]));
    assert(tpl.subrange(299, 299) =~= Seq::<char>::empty());
    assert(tpl.subrange(300, 300) =~= Seq::<char>::empty());
    assert(tpl.subrange(301, 301) =~= Seq::<char>::empty());
    markup::lemma_two_holes(
        tpl,
        holes,
        parts,
        6,
        Seq::<char>::empty(),
        Seq::<char>::empty(),
        Seq::<char>::empty(),
    );
    assert(Seq::<char>::empty() + (parts[6] + Seq::<char>::empty() + parts[7]) + Seq::<char>::empty() =~= (parts[6] + parts[7]));
    assert(tpl.subrange(300, 300) =~= Seq::<char>::empty());
    assert(tpl.subrange(301, 301) =~= Seq::<char>::empty());
    assert(tpl.subrange(302, 302) =~= Seq::<char>::empty());
    markup::lemma_two_holes(
        tpl,
        holes,
        parts,
        7,
        Seq::<char>::empty(),
        Seq::<char>::empty(),
        Seq::<char>::empty(),
    );
    assert(Seq::<char>::empty() + (parts[7] + Seq::<char>::empty() + parts[8]) + Seq::<char>::empty() =~= (parts[7] + parts[8]));
    assert(tpl.subrange(301, 301) =~= Seq::<char>::empty());
    assert(tpl.subrange(302, 302) =~= Seq::<char>::empty());
    assert(tpl.subrange(303, 303) =~= Seq::<char>::empty());
    markup::lemma_two_holes(
        tpl,
        holes,
        parts,
        8,
        Seq::<char>::empty(),
        Seq::<char>::empty(),
        Seq::<char>::empty(),
    );
    assert(Seq::<char>::empty() + (parts[8] + Seq::<char>::empty() + parts[9]) + Seq::<char>::empty() =~= (parts[8] + parts[9]));
    assert(tpl.subrange(302, 302) =~= Seq::<char>::empty());
    assert(tpl.subrange(303, 303) =~= Seq::<char>::empty());
    assert(tpl.subrange(304, 304) =~= Seq::<char>::empty());
    markup::lemma_two_holes(
        tpl,
        holes,
        parts,
        9,
        Seq::<char>::empty(),
        Seq::<char>::empty(),
        Seq::<char>::empty(),
    );
    assert(Seq::<char>::empty() + (parts[9] + Seq::<char>::empty() + parts[10]) + Seq::<char>::empty() =~= (parts[9] + parts[10]));
    assert(tpl.subrange(303, 303) =~= Seq::<char>::empty());
    assert(tpl.subrange(304, 304) =~= Seq::<char>::empty());
    assert(tpl.subrange(305, 305) =~= Seq::<char>::empty());
    markup::lemma_two_holes(
        tpl,
        holes,
        parts,
        10,
        Seq::<char>::empty(),
        Seq::<char>::empty(),
        Seq::<char>::empty(),
    );
    assert(Seq::<char>::empty() + (parts[10] + Seq::<char>::empty() + parts[11]) + Seq::<char>::empty() =~= (parts[10] + parts[11]));
}

/// Where the holes of the template stand, and the texts around them.
proof fn lemma_publisher_row() -> (at: (Seq<char>, Seq<int>))
    ensures
        at.0 == page::PUBLISHER_ROW@,
        at.1 == seq![24int, 83, 86, 123, 158, 161, 436],
        at.0.len() == 481,
        markup::holes_at(at.0, at.1),
        at.0.subrange(4, 24) == "<td class=\"col-pub\">"@,
        at.0.subrange(25, 30) == "</td>"@,
        at.0.subrange(50, 83) == "<code class=\"resource-id\" title=\""@,
        at.0.subrange(84, 85) == "\""@,
        at.0.subrange(84, 86) == "\">"@,
        at.0.subrange(87, 94) == "</code>"@,
        at.0.subrange(99, 123) == "<td class=\"col-addedby\">"@,
        at.0.subrange(124, 129) == "</td>"@,
        at.0.subrange(129, 158) == "<td class=\"col-added\" title=\""@,
        at.0.subrange(159, 160) == "\""@,
        at.0.subrange(159, 161) == "\">"@,
        at.0.subrange(162, 167) == "</td>"@,
        at.0.subrange(400, 436) == "row-action-danger\" data-open-modal=\""@,
        at.0.subrange(437, 438) == "\""@,
        "<td class=\"col-pub\">"@.len() == 20,
        "</td>"@.len() == 5,
        "<code class=\"resource-id\" title=\""@.len() == 33,
        "\""@.len() == 1,
        "\">"@.len() == 2,
        "</code>"@.len() == 7,
        "<td class=\"col-addedby\">"@.len() == 24,
        "<td class=\"col-added\" title=\""@.len() == 29,
        "row-action-danger\" data-open-modal=\""@.len() == 36,
{
    reveal_strlit("<tr><td class=\"col-pub\">¤</td><td class=\"col-key\"><code class=\"resource-id\" title=\"¤\">¤</code></td><td class=\"col-addedby\">¤</td><td class=\"col-added\" title=\"¤\">¤</td><td class=\"col-actions\"><details class=\"row-actions\"><summary class=\"row-actions-trigger\" aria-label=\"Row actions\"><span aria-hidden=\"true\">⋮</span></summary><div class=\"row-actions-menu\"><button type=\"button\" class=\"row-action-item row-action-danger\" data-open-modal=\"¤\">Remove…</button></div></details></td></tr>");
    reveal_strlit("<td class=\"col-pub\">");
    reveal_strlit("</td>");
    reveal_strlit("<code class=\"resource-id\" title=\"");
    reveal_strlit("\"");
    reveal_strlit("\">");
    reveal_strlit("</code>");
    reveal_strlit("<td class=\"col-addedby\">");
    reveal_strlit("<td class=\"col-added\" title=\"");
    reveal_strlit("row-action-danger\" data-open-modal=\"");
    let tpl = page::PUBLISHER_ROW@;
    let holes = seq![24int, 83, 86, 123, 158, 161, 436];
    assert(markup::hole_at(tpl, holes, 0));
    assert(markup::hole_at(tpl, holes, 1));
    assert(markup::hole_at(tpl, holes, 2));
    assert(markup::hole_at(tpl, holes, 3));
    assert(markup::hole_at(tpl, holes, 4));
    assert(markup::hole_at(tpl, holes, 5));
    assert(markup::hole_at(tpl, holes, 6));
    assert(tpl.subrange(4, 24) =~= "<td class=\"col-pub\">"@);
    assert(tpl.subrange(25, 30) =~= "</td>"@);
    assert(tpl.subrange(50, 83) =~= "<code class=\"resource-id\" title=\""@);
    assert(tpl.subrange(84, 85) =~= "\""@);
    assert(tpl.subrange(84, 86) =~= "\">"@);
    assert(tpl.subrange(87, 94) =~= "</code>"@);
    assert(tpl.subrange(99, 123) =~= "<td class=\"col-addedby\">"@);
    assert(tpl.subrange(124, 129) =~= "</td>"@);
    assert(tpl.subrange(129, 158) =~= "<td class=\"col-added\" title=\""@);
    assert(tpl.subrange(159, 160) =~= "\""@);
    assert(tpl.subrange(159, 161) =~= "\">"@);
    assert(tpl.subrange(162, 167) =~= "</td>"@);
    assert(tpl.subrange(400, 436) =~= "row-action-danger\" data-open-modal=\""@);
    assert(tpl.subrange(437, 438) =~= "\""@);
    (tpl, holes)
}

/// The row of a publisher shows its name, its key, who added it and when, and opens the dialog
/// that removes that very publisher.
pub proof fn law_publisher_row(p: &TrustedPublisherListItem, now: &Timestamp)
    ensures
        ({
            let out = page::publisher_row_html(p, now);
            let key_hex = display::hex_text(p.public_key@);
            let remove_url = "/apps/publishers/remove-modal?publisher="@ + display::query_text(p.publisher@);
            &&& markup::shows(
                out,
                "<td class=\"col-pub\">"@ + html::escaped(p.publisher@) + "</td>"@,
            )
            &&& markup::shows(
                out,
                "<code class=\"resource-id\" title=\""@ + html::escaped(key_hex) + "\""@,
            )
            &&& markup::shows(out, "\">"@ + html::escaped(display::shortened(key_hex)) + "</code>"@)
            &&& markup::shows(
                out,
                "<td class=\"col-addedby\">"@ + (match p.added_by_name { Some(n) => html::escaped(n@), None => MUTED_DASH@, }) + "</td>"@,
            )
            &&& markup::shows(
                out,
                "<td class=\"col-added\" title=\""@ + html::escaped(model::date_text(p.added_at@, model::SECOND@)) + "\""@,
            )
            &&& markup::shows(
                out,
                "\">"@ + html::escaped(display::relative(p.added_at@, now@)) + "</td>"@,
            )
            &&& markup::shows(
                out,
                "row-action-danger\" data-open-modal=\""@ + html::escaped(remove_url) + "\""@,
            )
        }),
{
    let key_hex = display::hex_text(p.public_key@);
    let remove_url = "/apps/publishers/remove-modal?publisher="@ + display::query_text(p.publisher@);
    let (tpl, holes) = lemma_publisher_row();
    let parts = seq![
        html::escaped(p.publisher@),
        html::escaped(key_hex),
        html::escaped(display::shortened(key_hex)),
        match p.added_by_name { Some(n) => html::escaped(n@), None => MUTED_DASH@, },
        html::escaped(model::date_text(p.added_at@, model::SECOND@)),
        html::escaped(display::relative(p.added_at@, now@)),
        html::escaped(remove_url),
    ];
    assert(page::publisher_row_html(p, now) == markup::filled(tpl, parts, 7).done()) by {
        reveal_with_fuel(markup::filled, 8);
    }
    markup::lemma_hole(tpl, holes, parts, 0, "<td class=\"col-pub\">"@, "</td>"@);
    markup::lemma_hole(tpl, holes, parts, 1, "<code class=\"resource-id\" title=\""@, "\""@);
    markup::lemma_hole(tpl, holes, parts, 2, "\">"@, "</code>"@);
    markup::lemma_hole(tpl, holes, parts, 3, "<td class=\"col-addedby\">"@, "</td>"@);
    markup::lemma_hole(tpl, holes, parts, 4, "<td class=\"col-added\" title=\""@, "\""@);
    markup::lemma_hole(tpl, holes, parts, 5, "\">"@, "</td>"@);
    markup::lemma_hole(tpl, holes, parts, 6, "row-action-danger\" data-open-modal=\""@, "\""@);
}

/// Where the holes of the template stand, and the texts around them.
proof fn lemma_remove_publisher_dialog() -> (at: (Seq<char>, Seq<int>))
    ensures
        at.0 == page::REMOVE_PUBLISHER_DIALOG@,
        at.1 == seq![231int, 318, 345, 405, 541, 587],
        at.0.len() == 827,
        markup::holes_at(at.0, at.1),
        at.0.subrange(334, 345) == "<h2>Remove "@,
        at.0.subrange(346, 347) == "?"@,
        at.0.subrange(397, 405) == "<strong>"@,
        at.0.subrange(406, 415) == "</strong>"@,
        at.0.subrange(537, 541) == "</p>"@,
        at.0.subrange(542, 587) == "<input type=\"hidden\" name=\"publisher\" value=\""@,
        at.0.subrange(588, 589) == "\""@,
        "<h2>Remove "@.len() == 11,
        "?"@.len() == 1,
        "<strong>"@.len() == 8,
        "</strong>"@.len() == 9,
        "</p>"@.len() == 4,
        "<input type=\"hidden\" name=\"publisher\" value=\""@.len() == 45,
        "\""@.len() == 1,
{
    reveal_strlit("<dialog id=\"dlg-remove-publisher\" class=\"action-dialog action-dialog-centered\"><form id=\"form-remove-publisher\" method=\"post\" action=\"/apps/publishers/remove\"><div class=\"dialog-header\"><div class=\"dialog-icon dialog-icon-warning\">¤</div><button type=\"button\" class=\"dialog-close\" data-close-dialog aria-label=\"Close\">¤</button></div><h2>Remove ¤?</h2><p class=\"dialog-description\">Apps signed by <strong>¤</strong> won't be able to register from now on. Already-registered apps keep working, and you can add the publisher back any time.</p>¤<input type=\"hidden\" name=\"publisher\" value=\"¤\"><div class=\"dialog-actions\"><button type=\"button\" class=\"btn-secondary\" data-close-dialog>Cancel</button><button type=\"button\" class=\"btn-danger\" data-reauth-confirm=\"form-remove-publisher\">Remove publisher</button></div></form></dialog>");
    reveal_strlit("<h2>Remove ");
    reveal_strlit("?");
    reveal_strlit("<strong>");
    reveal_strlit("</strong>");
    reveal_strlit("</p>");
    reveal_strlit("<input type=\"hidden\" name=\"publisher\" value=\"");
    reveal_strlit("\"");
    let tpl = page::REMOVE_PUBLISHER_DIALOG@;
    let holes = seq![231int, 318, 345, 405, 541, 587];
    assert(markup::hole_at(tpl, holes, 0));
    assert(markup::hole_at(tpl, holes, 1));
    assert(markup::hole_at(tpl, holes, 2));
    assert(markup::hole_at(tpl, holes, 3));
    assert(markup::hole_at(tpl, holes, 4));
    assert(markup::hole_at(tpl, holes, 5));
    assert(tpl.subrange(334, 345) =~= "<h2>Remove "@);
    assert(tpl.subrange(346, 347) =~= "?"@);
    assert(tpl.subrange(397, 405) =~= "<strong>"@);
    assert(tpl.subrange(406, 415) =~= "</strong>"@);
    assert(tpl.subrange(537, 541) =~= "</p>"@);
    assert(tpl.subrange(542, 587) =~= "<input type=\"hidden\" name=\"publisher\" value=\""@);
    assert(tpl.subrange(588, 589) =~= "\""@);
    (tpl, holes)
}

/// The dialog that removes a publisher names it, and its form carries that name and the token of
/// the session.
pub proof fn law_remove_publisher_dialog(publisher: Seq<char>, csrf_token: Seq<char>)
    ensures
        ({
            let out = page::remove_publisher_dialog_html(publisher, csrf_token);
            &&& markup::shows(out, "<h2>Remove "@ + html::escaped(publisher) + "?"@)
            &&& markup::shows(out, "<strong>"@ + html::escaped(publisher) + "</strong>"@)
            &&& markup::shows(
                out,
                "</p>"@ + shell::csrf_input_html(csrf_token) + "<input type=\"hidden\" name=\"publisher\" value=\""@,
            )
            &&& markup::shows(
                out,
                "<input type=\"hidden\" name=\"publisher\" value=\""@ + html::escaped(publisher) + "\""@,
            )
        }),
{
    let (tpl, holes) = lemma_remove_publisher_dialog();
    let parts = seq![
        SHIELD_ICON@,
        CLOSE_ICON@,
        html::escaped(publisher),
        html::escaped(publisher),
        shell::csrf_input_html(csrf_token),
        html::escaped(publisher),
    ];
    assert(page::remove_publisher_dialog_html(publisher, csrf_token) == markup::filled(tpl, parts, 6).done()) by {
        reveal_with_fuel(markup::filled, 7);
    }
    markup::lemma_hole(tpl, holes, parts, 2, "<h2>Remove "@, "?"@);
    markup::lemma_hole(tpl, holes, parts, 3, "<strong>"@, "</strong>"@);
    markup::lemma_hole(
        tpl,
        holes,
        parts,
        4,
        "</p>"@,
        "<input type=\"hidden\" name=\"publisher\" value=\""@,
    );
    markup::lemma_hole(
        tpl,
        holes,
        parts,
        5,
        "<input type=\"hidden\" name=\"publisher\" value=\""@,
        "\""@,
    );
}

/// Where the holes of the template stand, and the texts around them.
proof fn lemma_app_count() -> (at: (Seq<char>, Seq<int>))
    ensures
        at.0 == page::APP_COUNT_LINK@,
        at.1 == seq![15int, 28],
        at.0.len() == 33,
        markup::holes_at(at.0, at.1),
        at.0.subrange(0, 15) == "<a href=\"/apps/"@,
        at.0.subrange(16, 27) == "/resources\""@,
        at.0.subrange(16, 28) == "/resources\">"@,
        at.0.subrange(29, 33) == "</a>"@,
        "<a href=\"/apps/"@.len() == 15,
        "/resources\""@.len() == 11,
        "/resources\">"@.len() == 12,
        "</a>"@.len() == 4,
{
    reveal_strlit("<a href=\"/apps/¤/resources\">¤</a>");
    reveal_strlit("<a href=\"/apps/");
    reveal_strlit("/resources\"");
    reveal_strlit("/resources\">");
    reveal_strlit("</a>");
    let tpl = page::APP_COUNT_LINK@;
    let holes = seq![15int, 28];
    assert(markup::hole_at(tpl, holes, 0));
    assert(markup::hole_at(tpl, holes, 1));
    assert(tpl.subrange(0, 15) =~= "<a href=\"/apps/"@);
    assert(tpl.subrange(16, 27) =~= "/resources\""@);
    assert(tpl.subrange(16, 28) =~= "/resources\">"@);
    assert(tpl.subrange(29, 33) =~= "</a>"@);
    (tpl, holes)
}

/// The count of resources leads to the resources of that very app.
pub proof fn law_app_count(app: &AppListItem)
    requires
        app.resource_count > 0,
    ensures
        ({
            let out = page::app_count_html(app);
            &&& markup::shows(
                out,
                "<a href=\"/apps/"@ + html::escaped(model::uuid_text(app.id)) + "/resources\""@,
            )
            &&& markup::shows(
                out,
                "/resources\">"@ + text::decimal_int(app.resource_count as int) + "</a>"@,
            )
        }),
{
    let (tpl, holes) = lemma_app_count();
    let parts = seq![
        html::escaped(model::uuid_text(app.id)),
        text::decimal_int(app.resource_count as int),
    ];
    assert(page::app_count_html(app) == markup::filled(tpl, parts, 2).done()) by {
        reveal_with_fuel(markup::filled, 3);
    }
    markup::lemma_hole(tpl, holes, parts, 0, "<a href=\"/apps/"@, "/resources\""@);
    markup::lemma_hole(tpl, holes, parts, 1, "/resources\">"@, "</a>"@);
}

/// Where the holes of the template stand, and the texts around them.
proof fn lemma_app_disable_dialog() -> (at: (Seq<char>, Seq<int>))
    ensures
        at.0 == page::APP_DISABLE_DIALOG@,
        at.1 == seq![28int, 103, 134, 217, 304, 332, 377, 521, 699],
        at.0.len() == 744,
        markup::holes_at(at.0, at.1),
        at.0.subrange(0, 28) == "<dialog id=\"dlg-app-disable-"@,
        at.0.subrange(29, 30) == "\""@,
        at.0.subrange(76, 103) == "<form id=\"form-app-disable-"@,
        at.0.subrange(104, 105) == "\""@,
        at.0.subrange(104, 134) == "\" method=\"post\" action=\"/apps/"@,
        at.0.subrange(135, 144) == "/disable\""@,
        at.0.subrange(320, 332) == "<h2>Disable "@,
        at.0.subrange(333, 334) == "?"@,
        at.0.subrange(369, 377) == "<strong>"@,
        at.0.subrange(378, 387) == "</strong>"@,
        at.0.subrange(517, 521) == "</p>"@,
        at.0.subrange(522, 550) == "<div class=\"dialog-actions\">"@,
        at.0.subrange(649, 699) == "class=\"btn\" data-reauth-confirm=\"form-app-disable-"@,
        at.0.subrange(700, 701) == "\""@,
        "<dialog id=\"dlg-app-disable-"@.len() == 28,
        "\""@.len() == 1,
        "<form id=\"form-app-disable-"@.len() == 27,
        "\" method=\"post\" action=\"/apps/"@.len() == 30,
        "/disable\""@.len() == 9,
        "<h2>Disable "@.len() == 12,
        "?"@.len() == 1,
        "<strong>"@.len() == 8,
        "</strong>"@.len() == 9,
        "</p>"@.len() == 4,
        "<div class=\"dialog-actions\">"@.len() == 28,
        "class=\"btn\" data-reauth-confirm=\"form-app-disable-"@.len() == 50,
{
    reveal_strlit("<dialog id=\"dlg-app-disable-¤\" class=\"action-dialog action-dialog-centered\"><form id=\"form-app-disable-¤\" method=\"post\" action=\"/apps/¤/disable\"><div class=\"dialog-header\"><div class=\"dialog-icon dialog-icon-warning\">¤</div><button type=\"button\" class=\"dialog-close\" data-close-dialog aria-label=\"Close\">¤</button></div><h2>Disable ¤?</h2><p class=\"dialog-description\"><strong>¤</strong> will be blocked from creating or modifying resources until you re-enable it. Existing data is kept, and the app stays registered.</p>¤<div class=\"dialog-actions\"><button type=\"button\" class=\"btn-secondary\" data-close-dialog>Cancel</button><button type=\"button\" class=\"btn\" data-reauth-confirm=\"form-app-disable-¤\">Disable app</button></div></form></dialog>");
    reveal_strlit("<dialog id=\"dlg-app-disable-");
    reveal_strlit("\"");
    reveal_strlit("<form id=\"form-app-disable-");
    reveal_strlit("\" method=\"post\" action=\"/apps/");
    reveal_strlit("/disable\"");
    reveal_strlit("<h2>Disable ");
    reveal_strlit("?");
    reveal_strlit("<strong>");
    reveal_strlit("</strong>");
    reveal_strlit("</p>");
    reveal_strlit("<div class=\"dialog-actions\">");
    reveal_strlit("class=\"btn\" data-reauth-confirm=\"form-app-disable-");
    let tpl = page::APP_DISABLE_DIALOG@;
    let holes = seq![28int, 103, 134, 217, 304, 332, 377, 521, 699];
    assert(markup::hole_at(tpl, holes, 0));
    assert(markup::hole_at(tpl, holes, 1));
    assert(markup::hole_at(tpl, holes, 2));
    assert(markup::hole_at(tpl, holes, 3));
    assert(markup::hole_at(tpl, holes, 4));
    assert(markup::hole_at(tpl, holes, 5));
    assert(markup::hole_at(tpl, holes, 6));
    assert(markup::hole_at(tpl, holes, 7));
    assert(markup::hole_at(tpl, holes, 8));
    assert(tpl.subrange(0, 28) =~= "<dialog id=\"dlg-app-disable-"@);
    assert(tpl.subrange(29, 30) =~= "\""@);
    assert(tpl.subrange(76, 103) =~= "<form id=\"form-app-disable-"@);
    assert(tpl.subrange(104, 105) =~= "\""@);
    assert(tpl.subrange(104, 134) =~= "\" method=\"post\" action=\"/apps/"@);
    assert(tpl.subrange(135, 144) =~= "/disable\""@);
    assert(tpl.subrange(320, 332) =~= "<h2>Disable "@);
    assert(tpl.subrange(333, 334) =~= "?"@);
    assert(tpl.subrange(369, 377) =~= "<strong>"@);
    assert(tpl.subrange(378, 387) =~= "</strong>"@);
    assert(tpl.subrange(517, 521) =~= "</p>"@);
    assert(tpl.subrange(522, 550) =~= "<div class=\"dialog-actions\">"@);
    assert(tpl.subrange(649, 699) =~= "class=\"btn\" data-reauth-confirm=\"form-app-disable-"@);
    assert(tpl.subrange(700, 701) =~= "\""@);
    (tpl, holes)
}

/// The dialog to disable an app names the app, carries the token of the session and goes to that
/// very app.
pub proof fn law_app_disable_dialog(
    app: &RegisteredAppRow,
    resource_count: i64,
    csrf_token: Seq<char>,
)
    ensures
        ({
            let out = page::app_dialog_html("disable"@, app, resource_count, csrf_token)->0;
            let id = app.id;
            let name = app.display_name;
            &&& markup::shows(
                out,
                "<dialog id=\"dlg-app-disable-"@ + html::escaped(model::uuid_text(id)) + "\""@,
            )
            &&& markup::shows(
                out,
                "<form id=\"form-app-disable-"@ + html::escaped(model::uuid_text(id)) + "\""@,
            )
            &&& markup::shows(
                out,
                "\" method=\"post\" action=\"/apps/"@ + html::escaped(model::uuid_text(id)) + "/disable\""@,
            )
            &&& markup::shows(out, "<h2>Disable "@ + html::escaped(name@) + "?"@)
            &&& markup::shows(out, "<strong>"@ + html::escaped(name@) + "</strong>"@)
            &&& markup::shows(
                out,
                "</p>"@ + shell::csrf_input_html(csrf_token) + "<div class=\"dialog-actions\">"@,
            )
            &&& markup::shows(
                out,
                "class=\"btn\" data-reauth-confirm=\"form-app-disable-"@ + html::escaped(model::uuid_text(id)) + "\""@,
            )
            &&& page::app_dialog_html("disable"@, app, resource_count, csrf_token) is Some
        }),
{
    reveal_strlit("disable");
    reveal_strlit("enable");
    reveal_strlit("uninstall");
    assert("disable"@.len() == 7 && "enable"@.len() == 6 && "uninstall"@.len() == 9);
    let id = app.id;
    let name = app.display_name;
    let (tpl, holes) = lemma_app_disable_dialog();
    let parts = seq![
        html::escaped(model::uuid_text(id)),
        html::escaped(model::uuid_text(id)),
        html::escaped(model::uuid_text(id)),
        SHIELD_ICON@,
        CLOSE_ICON@,
        html::escaped(name@),
        html::escaped(name@),
        shell::csrf_input_html(csrf_token),
        html::escaped(model::uuid_text(id)),
    ];
    assert(page::app_dialog_html("disable"@, app, resource_count, csrf_token)->0 == markup::filled(tpl, parts, 9).done()) by {
        reveal_with_fuel(markup::filled, 10);
    }
    markup::lemma_hole(tpl, holes, parts, 0, "<dialog id=\"dlg-app-disable-"@, "\""@);
    markup::lemma_hole(tpl, holes, parts, 1, "<form id=\"form-app-disable-"@, "\""@);
    markup::lemma_hole(tpl, holes, parts, 2, "\" method=\"post\" action=\"/apps/"@, "/disable\""@);
    markup::lemma_hole(tpl, holes, parts, 5, "<h2>Disable "@, "?"@);
    markup::lemma_hole(tpl, holes, parts, 6, "<strong>"@, "</strong>"@);
    markup::lemma_hole(tpl, holes, parts, 7, "</p>"@, "<div class=\"dialog-actions\">"@);
    markup::lemma_hole(
        tpl,
        holes,
        parts,
        8,
        "class=\"btn\" data-reauth-confirm=\"form-app-disable-"@,
        "\""@,
    );
}

/// Where the holes of the template stand, and the texts around them.
proof fn lemma_app_enable_dialog() -> (at: (Seq<char>, Seq<int>))
    ensures
        at.0 == page::APP_ENABLE_DIALOG@,
        at.1 == seq![27int, 101, 132, 213, 300, 327, 383, 435, 612],
        at.0.len() == 656,
        markup::holes_at(at.0, at.1),
        at.0.subrange(0, 27) == "<dialog id=\"dlg-app-enable-"@,
        at.0.subrange(28, 29) == "\""@,
        at.0.subrange(75, 101) == "<form id=\"form-app-enable-"@,
        at.0.subrange(102, 103) == "\""@,
        at.0.subrange(102, 132) == "\" method=\"post\" action=\"/apps/"@,
        at.0.subrange(133, 141) == "/enable\""@,
        at.0.subrange(316, 327) == "<h2>Enable "@,
        at.0.subrange(328, 329) == "?"@,
        at.0.subrange(375, 383) == "<strong>"@,
        at.0.subrange(384, 393) == "</strong>"@,
        at.0.subrange(431, 435) == "</p>"@,
        at.0.subrange(436, 464) == "<div class=\"dialog-actions\">"@,
        at.0.subrange(563, 612) == "class=\"btn\" data-reauth-confirm=\"form-app-enable-"@,
        at.0.subrange(613, 614) == "\""@,
        "<dialog id=\"dlg-app-enable-"@.len() == 27,
        "\""@.len() == 1,
        "<form id=\"form-app-enable-"@.len() == 26,
        "\" method=\"post\" action=\"/apps/"@.len() == 30,
        "/enable\""@.len() == 8,
        "<h2>Enable "@.len() == 11,
        "?"@.len() == 1,
        "<strong>"@.len() == 8,
        "</strong>"@.len() == 9,
        "</p>"@.len() == 4,
        "<div class=\"dialog-actions\">"@.len() == 28,
        "class=\"btn\" data-reauth-confirm=\"form-app-enable-"@.len() == 49,
{
    reveal_strlit("<dialog id=\"dlg-app-enable-¤\" class=\"action-dialog action-dialog-centered\"><form id=\"form-app-enable-¤\" method=\"post\" action=\"/apps/¤/enable\"><div class=\"dialog-header\"><div class=\"dialog-icon dialog-icon-shield\">¤</div><button type=\"button\" class=\"dialog-close\" data-close-dialog aria-label=\"Close\">¤</button></div><h2>Enable ¤?</h2><p class=\"dialog-description\">Re-enables <strong>¤</strong> to create and modify resources again.</p>¤<div class=\"dialog-actions\"><button type=\"button\" class=\"btn-secondary\" data-close-dialog>Cancel</button><button type=\"button\" class=\"btn\" data-reauth-confirm=\"form-app-enable-¤\">Enable app</button></div></form></dialog>");
    reveal_strlit("<dialog id=\"dlg-app-enable-");
    reveal_strlit("\"");
    reveal_strlit("<form id=\"form-app-enable-");
    reveal_strlit("\" method=\"post\" action=\"/apps/");
    reveal_strlit("/enable\"");
    reveal_strlit("<h2>Enable ");
    reveal_strlit("?");
    reveal_strlit("<strong>");
    reveal_strlit("</strong>");
    reveal_strlit("</p>");
    reveal_strlit("<div class=\"dialog-actions\">");
    reveal_strlit("class=\"btn\" data-reauth-confirm=\"form-app-enable-");
    let tpl = page::APP_ENABLE_DIALOG@;
    let holes = seq![27int, 101, 132, 213, 300, 327, 383, 435, 612];
    assert(markup::hole_at(tpl, holes, 0));
    assert(markup::hole_at(tpl, holes, 1));
    assert(markup::hole_at(tpl, holes, 2));
    assert(markup::hole_at(tpl, holes, 3));
    assert(markup::hole_at(tpl, holes, 4));
    assert(markup::hole_at(tpl, holes, 5));
    assert(markup::hole_at(tpl, holes, 6));
    assert(markup::hole_at(tpl, holes, 7));
    assert(markup::hole_at(tpl, holes, 8));
    assert(tpl.subrange(0, 27) =~= "<dialog id=\"dlg-app-enable-"@);
    assert(tpl.subrange(28, 29) =~= "\""@);
    assert(tpl.subrange(75, 101) =~= "<form id=\"form-app-enable-"@);
    assert(tpl.subrange(102, 103) =~= "\""@);
    assert(tpl.subrange(102, 132) =~= "\" method=\"post\" action=\"/apps/"@);
    assert(tpl.subrange(133, 141) =~= "/enable\""@);
    assert(tpl.subrange(316, 327) =~= "<h2>Enable "@);
    assert(tpl.subrange(328, 329) =~= "?"@);
    assert(tpl.subrange(375, 383) =~= "<strong>"@);
    assert(tpl.subrange(384, 393) =~= "</strong>"@);
    assert(tpl.subrange(431, 435) =~= "</p>"@);
    assert(tpl.subrange(436, 464) =~= "<div class=\"dialog-actions\">"@);
    assert(tpl.subrange(563, 612) =~= "class=\"btn\" data-reauth-confirm=\"form-app-enable-"@);
    assert(tpl.subrange(613, 614) =~= "\""@);
    (tpl, holes)
}

/// The dialog to enable an app names the app, carries the token of the session and goes to that
/// very app.
pub proof fn law_app_enable_dialog(
    app: &RegisteredAppRow,
    resource_count: i64,
    csrf_token: Seq<char>,
)
    ensures
        ({
            let out = page::app_dialog_html("enable"@, app, resource_count, csrf_token)->0;
            let id = app.id;
            let name = app.display_name;
            &&& markup::shows(
                out,
                "<dialog id=\"dlg-app-enable-"@ + html::escaped(model::uuid_text(id)) + "\""@,
            )
            &&& markup::shows(
                out,
                "<form id=\"form-app-enable-"@ + html::escaped(model::uuid_text(id)) + "\""@,
            )
            &&& markup::shows(
                out,
                "\" method=\"post\" action=\"/apps/"@ + html::escaped(model::uuid_text(id)) + "/enable\""@,
            )
            &&& markup::shows(out, "<h2>Enable "@ + html::escaped(name@) + "?"@)
            &&& markup::shows(out, "<strong>"@ + html::escaped(name@) + "</strong>"@)
            &&& markup::shows(
                out,
                "</p>"@ + shell::csrf_input_html(csrf_token) + "<div class=\"dialog-actions\">"@,
            )
            &&& markup::shows(
                out,
                "class=\"btn\" data-reauth-confirm=\"form-app-enable-"@ + html::escaped(model::uuid_text(id)) + "\""@,
            )
            &&& page::app_dialog_html("enable"@, app, resource_count, csrf_token) is Some
        }),
{
    reveal_strlit("disable");
    reveal_strlit("enable");
    reveal_strlit("uninstall");
    assert("disable"@.len() == 7 && "enable"@.len() == 6 && "uninstall"@.len() == 9);
    let id = app.id;
    let name = app.display_name;
    let (tpl, holes) = lemma_app_enable_dialog();
    let parts = seq![
        html::escaped(model::uuid_text(id)),
        html::escaped(model::uuid_text(id)),
        html::escaped(model::uuid_text(id)),
        SHIELD_ICON@,
        CLOSE_ICON@,
        html::escaped(name@),
        html::escaped(name@),
        shell::csrf_input_html(csrf_token),
        html::escaped(model::uuid_text(id)),
    ];
    assert(page::app_dialog_html("enable"@, app, resource_count, csrf_token)->0 == markup::filled(tpl, parts, 9).done()) by {
        reveal_with_fuel(markup::filled, 10);
    }
    markup::lemma_hole(tpl, holes, parts, 0, "<dialog id=\"dlg-app-enable-"@, "\""@);
    markup::lemma_hole(tpl, holes, parts, 1, "<form id=\"form-app-enable-"@, "\""@);
    markup::lemma_hole(tpl, holes, parts, 2, "\" method=\"post\" action=\"/apps/"@, "/enable\""@);
    markup::lemma_hole(tpl, holes, parts, 5, "<h2>Enable "@, "?"@);
    markup::lemma_hole(tpl, holes, parts, 6, "<strong>"@, "</strong>"@);
    markup::lemma_hole(tpl, holes, parts, 7, "</p>"@, "<div class=\"dialog-actions\">"@);
    markup::lemma_hole(
        tpl,
        holes,
        parts,
        8,
        "class=\"btn\" data-reauth-confirm=\"form-app-enable-"@,
        "\""@,
    );
}

/// Where the holes of the template stand, and the texts around them.
proof fn lemma_app_uninstall_dialog() -> (at: (Seq<char>, Seq<int>))
    ensures
        at.0 == page::APP_UNINSTALL_DIALOG@,
        at.1 == seq![30int, 107, 138, 222, 309, 339, 404, 438, 466, 653],
        at.0.len() == 700,
        markup::holes_at(at.0, at.1),
        at.0.subrange(0, 30) == "<dialog id=\"dlg-app-uninstall-"@,
        at.0.subrange(31, 32) == "\""@,
        at.0.subrange(78, 107) == "<form id=\"form-app-uninstall-"@,
        at.0.subrange(108, 109) == "\""@,
        at.0.subrange(108, 138) == "\" method=\"post\" action=\"/apps/"@,
        at.0.subrange(139, 150) == "/uninstall\""@,
        at.0.subrange(325, 339) == "<h2>Uninstall "@,
        at.0.subrange(340, 341) == "?"@,
        at.0.subrange(396, 404) == "<strong>"@,
        at.0.subrange(405, 414) == "</strong>"@,
        at.0.subrange(405, 438) == "</strong>, its registration, and "@,
        at.0.subrange(439, 462) == ". This can't be undone."@,
        at.0.subrange(462, 466) == "</p>"@,
        at.0.subrange(467, 495) == "<div class=\"dialog-actions\">"@,
        at.0.subrange(613, 653) == "data-reauth-confirm=\"form-app-uninstall-"@,
        at.0.subrange(654, 655) == "\""@,
        "<dialog id=\"dlg-app-uninstall-"@.len() == 30,
        "\""@.len() == 1,
        "<form id=\"form-app-uninstall-"@.len() == 29,
        "\" method=\"post\" action=\"/apps/"@.len() == 30,
        "/uninstall\""@.len() == 11,
        "<h2>Uninstall "@.len() == 14,
        "?"@.len() == 1,
        "<strong>"@.len() == 8,
        "</strong>"@.len() == 9,
        "</strong>, its registration, and "@.len() == 33,
        ". This can't be undone."@.len() == 23,
        "</p>"@.len() == 4,
        "<div class=\"dialog-actions\">"@.len() == 28,
        "data-reauth-confirm=\"form-app-uninstall-"@.len() == 40,
{
    reveal_strlit("<dialog id=\"dlg-app-uninstall-¤\" class=\"action-dialog action-dialog-centered\"><form id=\"form-app-uninstall-¤\" method=\"post\" action=\"/apps/¤/uninstall\"><div class=\"dialog-header\"><div class=\"dialog-icon dialog-icon-danger\">¤</div><button type=\"button\" class=\"dialog-close\" data-close-dialog aria-label=\"Close\">¤</button></div><h2>Uninstall ¤?</h2><p class=\"dialog-description\">Permanently removes <strong>¤</strong>, its registration, and ¤. This can't be undone.</p>¤<div class=\"dialog-actions\"><button type=\"button\" class=\"btn-secondary\" data-close-dialog>Cancel</button><button type=\"button\" class=\"btn-danger\" data-reauth-confirm=\"form-app-uninstall-¤\">Uninstall app</button></div></form></dialog>");
    reveal_strlit("<dialog id=\"dlg-app-uninstall-");
    reveal_strlit("\"");
    reveal_strlit("<form id=\"form-app-uninstall-");
    reveal_strlit("\" method=\"post\" action=\"/apps/");
    reveal_strlit("/uninstall\"");
    reveal_strlit("<h2>Uninstall ");
    reveal_strlit("?");
    reveal_strlit("<strong>");
    reveal_strlit("</strong>");
    reveal_strlit("</strong>, its registration, and ");
    reveal_strlit(". This can't be undone.");
    reveal_strlit("</p>");
    reveal_strlit("<div class=\"dialog-actions\">");
    reveal_strlit("data-reauth-confirm=\"form-app-uninstall-");
    let tpl = page::APP_UNINSTALL_DIALOG@;
    let holes = seq![30int, 107, 138, 222, 309, 339, 404, 438, 466, 653];
    assert(markup::hole_at(tpl, holes, 0));
    assert(markup::hole_at(tpl, holes, 1));
    assert(markup::hole_at(tpl, holes, 2));
    assert(markup::hole_at(tpl, holes, 3));
    assert(markup::hole_at(tpl, holes, 4));
    assert(markup::hole_at(tpl, holes, 5));
    assert(markup::hole_at(tpl, holes, 6));
    assert(markup::hole_at(tpl, holes, 7));
    assert(markup::hole_at(tpl, holes, 8));
    assert(markup::hole_at(tpl, holes, 9));
    assert(tpl.subrange(0, 30) =~= "<dialog id=\"dlg-app-uninstall-"@);
    assert(tpl.subrange(31, 32) =~= "\""@);
    assert(tpl.subrange(78, 107) =~= "<form id=\"form-app-uninstall-"@);
    assert(tpl.subrange(108, 109) =~= "\""@);
    assert(tpl.subrange(108, 138) =~= "\" method=\"post\" action=\"/apps/"@);
    assert(tpl.subrange(139, 150) =~= "/uninstall\""@);
    assert(tpl.subrange(325, 339) =~= "<h2>Uninstall "@);
    assert(tpl.subrange(340, 341) =~= "?"@);
    assert(tpl.subrange(396, 404) =~= "<strong>"@);
    assert(tpl.subrange(405, 414) =~= "</strong>"@);
    assert(tpl.subrange(405, 438) =~= "</strong>, its registration, and "@);
    assert(tpl.subrange(439, 462) =~= ". This can't be undone."@);
    assert(tpl.subrange(462, 466) =~= "</p>"@);
    assert(tpl.subrange(467, 495) =~= "<div class=\"dialog-actions\">"@);
    assert(tpl.subrange(613, 653) =~= "data-reauth-confirm=\"form-app-uninstall-"@);
    assert(tpl.subrange(654, 655) =~= "\""@);
    (tpl, holes)
}

/// The dialog to uninstall an app names the app, carries the token of the session and goes to that
/// very app.
pub proof fn law_app_uninstall_dialog(
    app: &RegisteredAppRow,
    resource_count: i64,
    csrf_token: Seq<char>,
)
    ensures
        ({
            let out = page::app_dialog_html("uninstall"@, app, resource_count, csrf_token)->0;
            let id = app.id;
            let name = app.display_name;
            &&& markup::shows(
                out,
                "<dialog id=\"dlg-app-uninstall-"@ + html::escaped(model::uuid_text(id)) + "\""@,
            )
            &&& markup::shows(
                out,
                "<form id=\"form-app-uninstall-"@ + html::escaped(model::uuid_text(id)) + "\""@,
            )
            &&& markup::shows(
                out,
                "\" method=\"post\" action=\"/apps/"@ + html::escaped(model::uuid_text(id)) + "/uninstall\""@,
            )
            &&& markup::shows(out, "<h2>Uninstall "@ + html::escaped(name@) + "?"@)
            &&& markup::shows(out, "<strong>"@ + html::escaped(name@) + "</strong>"@)
            &&& markup::shows(
                out,
                "</strong>, its registration, and "@ + (if resource_count == 1 { page::UNINSTALL_ONE@ } else { html::template(page::UNINSTALL_MANY@) .num(resource_count as int) .done() }) + ". This can't be undone."@,
            )
            &&& markup::shows(
                out,
                "</p>"@ + shell::csrf_input_html(csrf_token) + "<div class=\"dialog-actions\">"@,
            )
            &&& markup::shows(
                out,
                "data-reauth-confirm=\"form-app-uninstall-"@ + html::escaped(model::uuid_text(id)) + "\""@,
            )
            &&& page::app_dialog_html("uninstall"@, app, resource_count, csrf_token) is Some
        }),
{
    reveal_strlit("disable");
    reveal_strlit("enable");
    reveal_strlit("uninstall");
    assert("disable"@.len() == 7 && "enable"@.len() == 6 && "uninstall"@.len() == 9);
    let id = app.id;
    let name = app.display_name;
    let (tpl, holes) = lemma_app_uninstall_dialog();
    let parts = seq![
        html::escaped(model::uuid_text(id)),
        html::escaped(model::uuid_text(id)),
        html::escaped(model::uuid_text(id)),
        TRASH_ICON@,
        CLOSE_ICON@,
        html::escaped(name@),
        html::escaped(name@),
        if resource_count == 1 { page::UNINSTALL_ONE@ } else { html::template(page::UNINSTALL_MANY@) .num(resource_count as int) .done() },
        shell::csrf_input_html(csrf_token),
        html::escaped(model::uuid_text(id)),
    ];
    assert(page::app_dialog_html("uninstall"@, app, resource_count, csrf_token)->0 == markup::filled(tpl, parts, 10).done()) by {
        reveal_with_fuel(markup::filled, 11);
    }
    markup::lemma_hole(tpl, holes, parts, 0, "<dialog id=\"dlg-app-uninstall-"@, "\""@);
    markup::lemma_hole(tpl, holes, parts, 1, "<form id=\"form-app-uninstall-"@, "\""@);
    markup::lemma_hole(
        tpl,
        holes,
        parts,
        2,
        "\" method=\"post\" action=\"/apps/"@,
        "/uninstall\""@,
    );
    markup::lemma_hole(tpl, holes, parts, 5, "<h2>Uninstall "@, "?"@);
    markup::lemma_hole(tpl, holes, parts, 6, "<strong>"@, "</strong>"@);
    markup::lemma_hole(
        tpl,
        holes,
        parts,
        7,
        "</strong>, its registration, and "@,
        ". This can't be undone."@,
    );
    markup::lemma_hole(tpl, holes, parts, 8, "</p>"@, "<div class=\"dialog-actions\">"@);
    markup::lemma_hole(tpl, holes, parts, 9, "data-reauth-confirm=\"form-app-uninstall-"@, "\""@);
}

/// Where the holes of the template stand, and the texts around them.
proof fn lemma_parent_text() -> (at: (Seq<char>, Seq<int>))
    ensures
        at.0 == page::CODE@,
        at.1 == seq![6int],
        at.0.len() == 14,
        markup::holes_at(at.0, at.1),
        at.0.subrange(0, 6) == "<code>"@,
        at.0.subrange(7, 14) == "</code>"@,
        "<code>"@.len() == 6,
        "</code>"@.len() == 7,
{
    reveal_strlit("<code>¤</code>");
    reveal_strlit("<code>");
    reveal_strlit("</code>");
    let tpl = page::CODE@;
    let holes = seq![6int];
    assert(markup::hole_at(tpl, holes, 0));
    assert(tpl.subrange(0, 6) =~= "<code>"@);
    assert(tpl.subrange(7, 14) =~= "</code>"@);
    (tpl, holes)
}

/// A parent is shown by its identifier.
pub proof fn law_parent_text(r: &AdminResourceRow, p: Uuid)
    requires
        r.parent_resource_id == Some(p),
    ensures
        ({
            let out = page::parent_text_html(r);
            &&& markup::shows(out, "<code>"@ + html::escaped(model::uuid_text(p)) + "</code>"@)
        }),
{
    let (tpl, holes) = lemma_parent_text();
    let parts = seq![html::escaped(model::uuid_text(p))];
    assert(page::parent_text_html(r) == markup::filled(tpl, parts, 1).done()) by {
        reveal_with_fuel(markup::filled, 2);
    }
    markup::lemma_hole(tpl, holes, parts, 0, "<code>"@, "</code>"@);
}

/// Where the holes of the template stand, and the texts around them.
proof fn lemma_apps_page() -> (at: (Seq<char>, Seq<int>))
    ensures
        at.0 == page::APPS_PAGE@,
        at.1 == seq![221int],
        at.0.len() == 222,
        markup::holes_at(at.0, at.1),
        at.0.subrange(217, 221) == "</p>"@,
        "</p>"@.len() == 4,
{
    reveal_strlit("<p class=\"muted apps-lead\">Apps that have registered on this instance and the encrypted resources they store. Registration happens over the platform gRPC API. <a href=\"/apps/publishers\">Manage trusted publishers →</a></p>¤");
    reveal_strlit("</p>");
    let tpl = page::APPS_PAGE@;
    let holes = seq![221int];
    assert(markup::hole_at(tpl, holes, 0));
    assert(tpl.subrange(217, 221) =~= "</p>"@);
    (tpl, holes)
}

/// The page of the apps lists all of them.
pub proof fn law_apps_page(ctx: &ChromeContext, apps: Seq<AppListItem>, now: &Timestamp)
    ensures
        ({
            let out = page::apps_page_html(ctx, apps, now);
            &&& markup::shows(out, "<title>"@ + html::escaped("Apps"@) + " · "@)
            &&& markup::shows(
                out,
                "</p>"@ + (if apps.len() == 0 { page::NO_APPS@ } else { html::template(page::APPS_TABLE@) .html(page::app_rows_html(apps, now)) .done() }),
            )
        }),
{
    let (tpl, holes) = lemma_apps_page();
    let parts = seq![
        if apps.len() == 0 { page::NO_APPS@ } else { html::template(page::APPS_TABLE@) .html(page::app_rows_html(apps, now)) .done() },
    ];
    let content = markup::filled(tpl, parts, 1).done();
    let out = page::apps_page_html(ctx, apps, now);
    assert(out == shell::shell_app_wide_html(ctx, "Apps"@, PageId::Apps, content)) by {
        reveal_with_fuel(markup::filled, 2);
    }
    around::lemma_app_content(ctx, "Apps"@, PageId::Apps, content, true);
    assert(tpl.subrange(222, 222) =~= Seq::<char>::empty());
    markup::lemma_hole(tpl, holes, parts, 0, "</p>"@, Seq::<char>::empty());
    assert("</p>"@ + parts[0] + Seq::<char>::empty() =~= "</p>"@ + parts[0]);
    markup::lemma_shows_inner(
        out,
        content,
        "</p>"@ + (if apps.len() == 0 { page::NO_APPS@ } else { html::template(page::APPS_TABLE@) .html(page::app_rows_html(apps, now)) .done() }),
    );
}

/// Where the holes of the template stand, and the texts around them.
proof fn lemma_app_resources_page() -> (at: (Seq<char>, Seq<int>))
    ensures
        at.0 == page::APP_RESOURCES_PAGE@,
        at.1 == seq![55int, 67, 163, 164],
        at.0.len() == 165,
        markup::holes_at(at.0, at.1),
        at.0.subrange(47, 55) == "<strong>"@,
        at.0.subrange(56, 65) == "</strong>"@,
        at.0.subrange(56, 67) == "</strong> ("@,
        at.0.subrange(68, 125) == "). Content is encrypted — the server only sees metadata. "@,
        at.0.subrange(159, 163) == "</p>"@,
        "<strong>"@.len() == 8,
        "</strong>"@.len() == 9,
        "</strong> ("@.len() == 11,
        "). Content is encrypted — the server only sees metadata. "@.len() == 57,
        "</p>"@.len() == 4,
{
    reveal_strlit("<p class=\"muted apps-lead\">Resources stored by <strong>¤</strong> (¤). Content is encrypted — the server only sees metadata. <a href=\"/apps\">← Back to Apps</a></p>¤¤");
    reveal_strlit("<strong>");
    reveal_strlit("</strong>");
    reveal_strlit("</strong> (");
    reveal_strlit("). Content is encrypted — the server only sees metadata. ");
    reveal_strlit("</p>");
    let tpl = page::APP_RESOURCES_PAGE@;
    let holes = seq![55int, 67, 163, 164];
    assert(markup::hole_at(tpl, holes, 0));
    assert(markup::hole_at(tpl, holes, 1));
    assert(markup::hole_at(tpl, holes, 2));
    assert(markup::hole_at(tpl, holes, 3));
    assert(tpl.subrange(47, 55) =~= "<strong>"@);
    assert(tpl.subrange(56, 65) =~= "</strong>"@);
    assert(tpl.subrange(56, 67) =~= "</strong> ("@);
    assert(tpl.subrange(68, 125) =~= "). Content is encrypted — the server only sees metadata. "@);
    assert(tpl.subrange(159, 163) =~= "</p>"@);
    (tpl, holes)
}

/// The page of the resources names the app, holds the toolbar and lists what was found.
pub proof fn law_app_resources_page(ctx: &ChromeContext, v: page::AppResourcesText)
    ensures
        ({
            let out = page::app_resources_page_html(ctx, v);
            let filtering = v.search.len() > 0 || v.type_filter.len() > 0 || v.include_deleted;
            let truncated = v.total > v.rows.len();
            &&& markup::shows(out, "<title>"@ + html::escaped("Resources"@) + " · "@)
            &&& markup::shows(out, "<strong>"@ + html::escaped(v.app.display_name@) + "</strong>"@)
            &&& markup::shows(
                out,
                "</strong> ("@ + html::escaped(v.app.app_identifier@) + "). Content is encrypted — the server only sees metadata. "@,
            )
            &&& markup::shows(out, "</p>"@ + page::app_resources_toolbar_html(v))
            &&& markup::shows(
                out,
                (if v.rows.len() == 0 { html::template(page::NO_RESOURCES@) .html(if filtering { page::NO_MATCHING_RESOURCES@ } else { page::NO_RESOURCES_YET@ }) .done() } else { html::template(page::RESOURCES_TABLE@) .html(page::resource_rows_html(v.rows, v.app.id, &v.now)) .text(text::decimal(v.rows.len())) .num(v.total as int) .html(if v.total == 1 { page::ONE_RESOURCE@ } else { page::MANY_RESOURCES@ }) .html(if truncated { html::template(page::RESOURCES_TRUNCATED@) .num(v.cap as int) .done() } else { Seq::empty() }) .done() }),
            )
        }),
{
    let filtering = v.search.len() > 0 || v.type_filter.len() > 0 || v.include_deleted;
    let truncated = v.total > v.rows.len();
    let (tpl, holes) = lemma_app_resources_page();
    let parts = seq![
        html::escaped(v.app.display_name@),
        html::escaped(v.app.app_identifier@),
        page::app_resources_toolbar_html(v),
        if v.rows.len() == 0 { html::template(page::NO_RESOURCES@) .html(if filtering { page::NO_MATCHING_RESOURCES@ } else { page::NO_RESOURCES_YET@ }) .done() } else { html::template(page::RESOURCES_TABLE@) .html(page::resource_rows_html(v.rows, v.app.id, &v.now)) .text(text::decimal(v.rows.len())) .num(v.total as int) .html(if v.total == 1 { page::ONE_RESOURCE@ } else { page::MANY_RESOURCES@ }) .html(if truncated { html::template(page::RESOURCES_TRUNCATED@) .num(v.cap as int) .done() } else { Seq::empty() }) .done() },
    ];
    let content = markup::filled(tpl, parts, 4).done();
    let out = page::app_resources_page_html(ctx, v);
    assert(out == shell::shell_app_wide_html(ctx, "Resources"@, PageId::Apps, content)) by {
        reveal_with_fuel(markup::filled, 5);
    }
    around::lemma_app_content(ctx, "Resources"@, PageId::Apps, content, true);
    markup::lemma_hole(tpl, holes, parts, 0, "<strong>"@, "</strong>"@);
    markup::lemma_shows_inner(
        out,
        content,
        "<strong>"@ + html::escaped(v.app.display_name@) + "</strong>"@,
    );
    markup::lemma_hole(
        tpl,
        holes,
        parts,
        1,
        "</strong> ("@,
        "). Content is encrypted — the server only sees metadata. "@,
    );
    markup::lemma_shows_inner(
        out,
        content,
        "</strong> ("@ + html::escaped(v.app.app_identifier@) + "). Content is encrypted — the server only sees metadata. "@,
    );
    assert(tpl.subrange(164, 164) =~= Seq::<char>::empty());
    markup::lemma_hole(tpl, holes, parts, 2, "</p>"@, Seq::<char>::empty());
    assert("</p>"@ + parts[2] + Seq::<char>::empty() =~= "</p>"@ + parts[2]);
    markup::lemma_shows_inner(out, content, "</p>"@ + page::app_resources_toolbar_html(v));
    assert(tpl.subrange(164, 164) =~= Seq::<char>::empty());
    assert(tpl.subrange(165, 165) =~= Seq::<char>::empty());
    markup::lemma_hole(tpl, holes, parts, 3, Seq::<char>::empty(), Seq::<char>::empty());
    assert(Seq::<char>::empty() + parts[3] + Seq::<char>::empty() =~= parts[3]);
    markup::lemma_shows_inner(
        out,
        content,
        (if v.rows.len() == 0 { html::template(page::NO_RESOURCES@) .html(if filtering { page::NO_MATCHING_RESOURCES@ } else { page::NO_RESOURCES_YET@ }) .done() } else { html::template(page::RESOURCES_TABLE@) .html(page::resource_rows_html(v.rows, v.app.id, &v.now)) .text(text::decimal(v.rows.len())) .num(v.total as int) .html(if v.total == 1 { page::ONE_RESOURCE@ } else { page::MANY_RESOURCES@ }) .html(if truncated { html::template(page::RESOURCES_TRUNCATED@) .num(v.cap as int) .done() } else { Seq::empty() }) .done() }),
    );
}

/// Where the holes of the template stand, and the texts around them.
proof fn lemma_trusted_publishers_page() -> (at: (Seq<char>, Seq<int>))
    ensures
        at.0 == page::TRUSTED_PUBLISHERS_PAGE@,
        at.1 == seq![331int, 917],
        at.0.len() == 918,
        markup::holes_at(at.0, at.1),
        at.0.subrange(291, 331) == "method=\"post\" action=\"/apps/publishers\">"@,
        at.0.subrange(332, 351) == "<div class=\"field\">"@,
        at.0.subrange(911, 917) == "</div>"@,
        "method=\"post\" action=\"/apps/publishers\">"@.len() == 40,
        "<div class=\"field\">"@.len() == 19,
        "</div>"@.len() == 6,
{
    reveal_strlit("<p class=\"muted apps-lead\">Publishers whose Ed25519 key may sign app registrations on this instance. Removing one doesn't affect already-registered apps. <a href=\"/apps\">← Back to Apps</a></p><div class=\"card publisher-add-card\"><h2>Add a trusted publisher</h2><form id=\"form-add-publisher\" method=\"post\" action=\"/apps/publishers\">¤<div class=\"field\"><label for=\"pub-name\">Publisher</label><input type=\"text\" name=\"publisher\" id=\"pub-name\" required autocomplete=\"off\" placeholder=\"e.g. Ubivera, LLC\"></div><div class=\"field\"><label for=\"pub-key\">Public key <span class=\"muted\">(64-character hex Ed25519)</span></label><input type=\"text\" name=\"public_key\" id=\"pub-key\" required autocomplete=\"off\" spellcheck=\"false\" class=\"publisher-key-input\" placeholder=\"0123abcd…\"></div><div class=\"dialog-actions\"><button type=\"button\" class=\"btn\" data-reauth-confirm=\"form-add-publisher\">Add publisher</button></div></form></div>¤");
    reveal_strlit("method=\"post\" action=\"/apps/publishers\">");
    reveal_strlit("<div class=\"field\">");
    reveal_strlit("</div>");
    let tpl = page::TRUSTED_PUBLISHERS_PAGE@;
    let holes = seq![331int, 917];
    assert(markup::hole_at(tpl, holes, 0));
    assert(markup::hole_at(tpl, holes, 1));
    assert(tpl.subrange(291, 331) =~= "method=\"post\" action=\"/apps/publishers\">"@);
    assert(tpl.subrange(332, 351) =~= "<div class=\"field\">"@);
    assert(tpl.subrange(911, 917) =~= "</div>"@);
    (tpl, holes)
}

/// The page of the publishers lists all of them, and its form carries the token of the session.
pub proof fn law_trusted_publishers_page(
    ctx: &ChromeContext,
    publishers: Seq<TrustedPublisherListItem>,
    now: &Timestamp,
)
    ensures
        ({
            let out = page::trusted_publishers_page_html(ctx, publishers, now);
            &&& markup::shows(out, "<title>"@ + html::escaped("Trusted publishers"@) + " · "@)
            &&& markup::shows(
                out,
                "method=\"post\" action=\"/apps/publishers\">"@ + shell::csrf_input_html(ctx.csrf_token@) + "<div class=\"field\">"@,
            )
            &&& markup::shows(
                out,
                "</div>"@ + (if publishers.len() == 0 { page::NO_PUBLISHERS@ } else { html::template(page::PUBLISHERS_TABLE@) .html(page::publisher_rows_html(publishers, now)) .done() }),
            )
        }),
{
    let (tpl, holes) = lemma_trusted_publishers_page();
    let parts = seq![
        shell::csrf_input_html(ctx.csrf_token@),
        if publishers.len() == 0 { page::NO_PUBLISHERS@ } else { html::template(page::PUBLISHERS_TABLE@) .html(page::publisher_rows_html(publishers, now)) .done() },
    ];
    let content = markup::filled(tpl, parts, 2).done();
    let out = page::trusted_publishers_page_html(ctx, publishers, now);
    assert(out == shell::shell_app_wide_html(ctx, "Trusted publishers"@, PageId::Apps, content)) by {
        reveal_with_fuel(markup::filled, 3);
    }
    around::lemma_app_content(ctx, "Trusted publishers"@, PageId::Apps, content, true);
    markup::lemma_hole(
        tpl,
        holes,
        parts,
        0,
        "method=\"post\" action=\"/apps/publishers\">"@,
        "<div class=\"field\">"@,
    );
    markup::lemma_shows_inner(
        out,
        content,
        "method=\"post\" action=\"/apps/publishers\">"@ + shell::csrf_input_html(ctx.csrf_token@) + "<div class=\"field\">"@,
    );
    assert(tpl.subrange(918, 918) =~= Seq::<char>::empty());
    markup::lemma_hole(tpl, holes, parts, 1, "</div>"@, Seq::<char>::empty());
    assert("</div>"@ + parts[1] + Seq::<char>::empty() =~= "</div>"@ + parts[1]);
    markup::lemma_shows_inner(
        out,
        content,
        "</div>"@ + (if publishers.len() == 0 { page::NO_PUBLISHERS@ } else { html::template(page::PUBLISHERS_TABLE@) .html(page::publisher_rows_html(publishers, now)) .done() }),
    );
}

/// Every app has its row.
pub proof fn law_every_app_has_its_row(apps: Seq<AppListItem>, now: &Timestamp, i: int)
    requires
        0 <= i < apps.len(),
    ensures
        markup::shows(page::app_rows_html(apps, now), page::app_row_html(&apps[i], now)),
    decreases apps.len(),
{
    let front = apps.drop_last();
    let row = page::app_row_html(&apps[i], now);
    let last = page::app_row_html(&apps.last(), now);
    let before = page::app_rows_html(front, now);
    let whole = page::app_rows_html(apps, now);
    if i == front.len() {
        assert(whole =~= before + row + Seq::empty());
    } else {
        law_every_app_has_its_row(front, now, i);
        assert(front[i] == apps[i]);
        assert(whole =~= Seq::empty() + before + last);
        markup::lemma_shows_inner(whole, before, row);
    }
}

/// Every resource has its row.
pub proof fn law_every_resource_has_its_row(
    rows: Seq<AdminResourceRow>,
    app_id: Uuid,
    now: &Timestamp,
    i: int,
)
    requires
        0 <= i < rows.len(),
    ensures
        markup::shows(
            page::resource_rows_html(rows, app_id, now),
            page::app_resource_row_html(app_id, &rows[i], now),
        ),
    decreases rows.len(),
{
    let front = rows.drop_last();
    let row = page::app_resource_row_html(app_id, &rows[i], now);
    let last = page::app_resource_row_html(app_id, &rows.last(), now);
    let before = page::resource_rows_html(front, app_id, now);
    let whole = page::resource_rows_html(rows, app_id, now);
    if i == front.len() {
        assert(whole =~= before + row + Seq::empty());
    } else {
        law_every_resource_has_its_row(front, app_id, now, i);
        assert(front[i] == rows[i]);
        assert(whole =~= Seq::empty() + before + last);
        markup::lemma_shows_inner(whole, before, row);
    }
}

/// Every publisher has its row.
pub proof fn law_every_publisher_has_its_row(
    publishers: Seq<TrustedPublisherListItem>,
    now: &Timestamp,
    i: int,
)
    requires
        0 <= i < publishers.len(),
    ensures
        markup::shows(
            page::publisher_rows_html(publishers, now),
            page::publisher_row_html(&publishers[i], now),
        ),
    decreases publishers.len(),
{
    let front = publishers.drop_last();
    let row = page::publisher_row_html(&publishers[i], now);
    let last = page::publisher_row_html(&publishers.last(), now);
    let before = page::publisher_rows_html(front, now);
    let whole = page::publisher_rows_html(publishers, now);
    if i == front.len() {
        assert(whole =~= before + row + Seq::empty());
    } else {
        law_every_publisher_has_its_row(front, now, i);
        assert(front[i] == publishers[i]);
        assert(whole =~= Seq::empty() + before + last);
        markup::lemma_shows_inner(whole, before, row);
    }
}

/// Every type of an app can be picked.
pub proof fn law_every_type_can_be_picked(types: Seq<String>, selected: Seq<char>, i: int)
    requires
        0 <= i < types.len(),
    ensures
        markup::shows(
            page::type_options_html(types, selected),
            page::type_option_html(types[i]@, selected),
        ),
    decreases types.len(),
{
    let front = types.drop_last();
    let row = page::type_option_html(types[i]@, selected);
    let last = page::type_option_html(types.last()@, selected);
    let before = page::type_options_html(front, selected);
    let whole = page::type_options_html(types, selected);
    if i == front.len() {
        assert(whole =~= before + row + Seq::empty());
    } else {
        law_every_type_can_be_picked(front, selected, i);
        assert(front[i] == types[i]);
        assert(whole =~= Seq::empty() + before + last);
        markup::lemma_shows_inner(whole, before, row);
    }
}

/// The owner of a resource is told by name, or by a dash where there is none.
pub proof fn law_owner_text(r: &AdminResourceRow, name: String)
    ensures
        r.owner_display_name == Some(name) ==> page::owner_text_html(r) == html::escaped(name@),
        r.owner_display_name is None ==> page::owner_text_html(r) == html::escaped("—"@),
{
}

/// Every type of an app has its chip.
pub proof fn law_every_type_has_its_chip(types: Seq<String>, i: int)
    requires
        0 <= i < types.len(),
    ensures
        markup::shows(
            page::type_chips_html(types),
            html::template(page::APP_TYPE_CHIP@).text(types[i]@).done(),
        ),
    decreases types.len(),
{
    let front = types.drop_last();
    let row = html::template(page::APP_TYPE_CHIP@).text(types[i]@).done();
    let last = html::template(page::APP_TYPE_CHIP@).text(types.last()@).done();
    let before = page::type_chips_html(front);
    let whole = page::type_chips_html(types);
    if i == front.len() {
        assert(whole =~= before + row + Seq::empty());
    } else {
        law_every_type_has_its_chip(front, i);
        assert(front[i] == types[i]);
        assert(whole =~= Seq::empty() + before + last);
        markup::lemma_shows_inner(whole, before, row);
    }
}

} // verus!
