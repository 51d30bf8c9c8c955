//! What the pages about events show.

use vstd::prelude::*;
use crate::model::Uuid;
use crate::display;
use crate::html;
use crate::json;
use crate::laws::markup;
use crate::laws::pages::shell as around;
use crate::listing::{PageItem, PaginationState};
use crate::listing;
use crate::model::{AuditEvent, EventData, EventField, EventValue, Timestamp};
use crate::model;
use crate::text;
use crate::views::events as page;
use crate::views::icons::{
    CHEVRON_DOUBLE_LEFT_ICON, CHEVRON_DOUBLE_RIGHT_ICON, CHEVRON_DOWN_ICON, CHEVRON_LEFT_ICON,
    CHEVRON_RIGHT_ICON, CLOSE_ICON,
};
use crate::views::members::ELLIPSIS;
use crate::views::members;
use crate::views::shell::{ChromeContext, PageId};

verus! {

/// Where the holes of the template stand, and the texts around them.
proof fn lemma_event_row() -> (at: (Seq<char>, Seq<int>))
    ensures
        at.0 == page::EVENT_ROW@,
        at.1 == seq![48int, 85, 88, 116, 151, 154, 184],
        at.0.len() == 195,
        markup::holes_at(at.0, at.1),
        at.0.subrange(0, 48) == "<tr class=\"events-row\" data-open-modal=\"/events/"@,
        at.0.subrange(49, 56) == "/modal\""@,
        at.0.subrange(57, 85) == "<td class=\"col-time\" title=\""@,
        at.0.subrange(86, 87) == "\""@,
        at.0.subrange(86, 88) == "\">"@,
        at.0.subrange(89, 94) == "</td>"@,
        at.0.subrange(94, 116) == "<td class=\"col-actor\">"@,
        at.0.subrange(117, 122) == "</td>"@,
        at.0.subrange(122, 151) == "<td class=\"col-event\" title=\""@,
        at.0.subrange(152, 153) == "\""@,
        at.0.subrange(152, 154) == "\">"@,
        at.0.subrange(155, 160) == "</td>"@,
        at.0.subrange(160, 184) == "<td class=\"col-details\">"@,
        at.0.subrange(185, 190) == "</td>"@,
        "<tr class=\"events-row\" data-open-modal=\"/events/"@.len() == 48,
        "/modal\""@.len() == 7,
        "<td class=\"col-time\" title=\""@.len() == 28,
        "\""@.len() == 1,
        "\">"@.len() == 2,
        "</td>"@.len() == 5,
        "<td class=\"col-actor\">"@.len() == 22,
        "<td class=\"col-event\" title=\""@.len() == 29,
        "<td class=\"col-details\">"@.len() == 24,
{
    reveal_strlit("<tr class=\"events-row\" data-open-modal=\"/events/¤/modal\"><td class=\"col-time\" title=\"¤\">¤</td><td class=\"col-actor\">¤</td><td class=\"col-event\" title=\"¤\">¤</td><td class=\"col-details\">¤</td></tr>");
    reveal_strlit("<tr class=\"events-row\" data-open-modal=\"/events/");
    reveal_strlit("/modal\"");
    reveal_strlit("<td class=\"col-time\" title=\"");
    reveal_strlit("\"");
    reveal_strlit("\">");
    reveal_strlit("</td>");
    reveal_strlit("<td class=\"col-actor\">");
    reveal_strlit("<td class=\"col-event\" title=\"");
    reveal_strlit("<td class=\"col-details\">");
    let tpl = page::EVENT_ROW@;
    let holes = seq![48int, 85, 88, 116, 151, 154, 184];
    assert(markup::hole_at(tpl, holes, 0));
    assert(markup::hole_at(tpl, holes, 1));
    assert(markup::hole_at(tpl, holes, 2));
    assert(markup::hole_at(tpl, holes, 3));
    assert(markup::hole_at(tpl, holes, 4));
    assert(markup::hole_at(tpl, holes, 5));
    assert(markup::hole_at(tpl, holes, 6));
    assert(tpl.subrange(0, 48) =~= "<tr class=\"events-row\" data-open-modal=\"/events/"@);
    assert(tpl.subrange(49, 56) =~= "/modal\""@);
    assert(tpl.subrange(57, 85) =~= "<td class=\"col-time\" title=\""@);
    assert(tpl.subrange(86, 87) =~= "\""@);
    assert(tpl.subrange(86, 88) =~= "\">"@);
    assert(tpl.subrange(89, 94) =~= "</td>"@);
    assert(tpl.subrange(94, 116) =~= "<td class=\"col-actor\">"@);
    assert(tpl.subrange(117, 122) =~= "</td>"@);
    assert(tpl.subrange(122, 151) =~= "<td class=\"col-event\" title=\""@);
    assert(tpl.subrange(152, 153) =~= "\""@);
    assert(tpl.subrange(152, 154) =~= "\">"@);
    assert(tpl.subrange(155, 160) =~= "</td>"@);
    assert(tpl.subrange(160, 184) =~= "<td class=\"col-details\">"@);
    assert(tpl.subrange(185, 190) =~= "</td>"@);
    (tpl, holes)
}

/// The row of an event shows when it was, who did it, what it was and its details, and opens the
/// dialog of that very event.
pub proof fn law_event_row(ev: &AuditEvent, now: &Timestamp)
    ensures
        ({
            let out = page::event_row_html(ev, now);
            &&& markup::shows(
                out,
                "<tr class=\"events-row\" data-open-modal=\"/events/"@ + text::decimal_int(ev.seqno as int) + "/modal\""@,
            )
            &&& markup::shows(
                out,
                "<td class=\"col-time\" title=\""@ + html::escaped(model::date_text(ev.occurred_at@, model::SECOND@)) + "\""@,
            )
            &&& markup::shows(
                out,
                "\">"@ + html::escaped(display::relative(ev.occurred_at@, now@)) + "</td>"@,
            )
            &&& markup::shows(
                out,
                "<td class=\"col-actor\">"@ + page::actor_html(ev.actor_display_name) + "</td>"@,
            )
            &&& markup::shows(
                out,
                "<td class=\"col-event\" title=\""@ + html::escaped(ev.event_type@) + "\""@,
            )
            &&& markup::shows(
                out,
                "\">"@ + html::escaped(display::humanized(ev.event_type@)) + "</td>"@,
            )
            &&& markup::shows(
                out,
                "<td class=\"col-details\">"@ + page::event_details_html(ev.event_data) + "</td>"@,
            )
            &&& markup::shows(
                out,
                "<td class=\"col-time\" title=\""@ + (html::escaped(model::date_text(ev.occurred_at@, model::SECOND@)) + "\">"@ + html::escaped(display::relative(ev.occurred_at@, now@))) + "</td>"@,
            )
            &&& markup::shows(
                out,
                "<td class=\"col-event\" title=\""@ + (html::escaped(ev.event_type@) + "\">"@ + html::escaped(display::humanized(ev.event_type@))) + "</td>"@,
            )
        }),
{
    let (tpl, holes) = lemma_event_row();
    let parts = seq![
        text::decimal_int(ev.seqno as int),
        html::escaped(model::date_text(ev.occurred_at@, model::SECOND@)),
        html::escaped(display::relative(ev.occurred_at@, now@)),
        page::actor_html(ev.actor_display_name),
        html::escaped(ev.event_type@),
        html::escaped(display::humanized(ev.event_type@)),
        page::event_details_html(ev.event_data),
    ];
    assert(page::event_row_html(ev, now) == markup::filled(tpl, parts, 7).done()) by {
        reveal_with_fuel(markup::filled, 8);
    }
    markup::lemma_hole(
        tpl,
        holes,
        parts,
        0,
        "<tr class=\"events-row\" data-open-modal=\"/events/"@,
        "/modal\""@,
    );
    markup::lemma_hole(tpl, holes, parts, 1, "<td class=\"col-time\" title=\""@, "\""@);
    markup::lemma_hole(tpl, holes, parts, 2, "\">"@, "</td>"@);
    markup::lemma_hole(tpl, holes, parts, 3, "<td class=\"col-actor\">"@, "</td>"@);
    markup::lemma_hole(tpl, holes, parts, 4, "<td class=\"col-event\" title=\""@, "\""@);
    markup::lemma_hole(tpl, holes, parts, 5, "\">"@, "</td>"@);
    markup::lemma_hole(tpl, holes, parts, 6, "<td class=\"col-details\">"@, "</td>"@);
    markup::lemma_two_holes(
        tpl,
        holes,
        parts,
        1,
        "<td class=\"col-time\" title=\""@,
        "\">"@,
        "</td>"@,
    );
    markup::lemma_two_holes(
        tpl,
        holes,
        parts,
        4,
        "<td class=\"col-event\" title=\""@,
        "\">"@,
        "</td>"@,
    );
}

/// Where the holes of the template stand, and the texts around them.
proof fn lemma_type_option() -> (at: (Seq<char>, Seq<int>))
    ensures
        at.0 == page::TYPE_OPTION@,
        at.1 == seq![15int, 17, 19],
        at.0.len() == 29,
        markup::holes_at(at.0, at.1),
        at.0.subrange(0, 15) == "<option value=\""@,
        at.0.subrange(16, 17) == "\""@,
        at.0.subrange(18, 19) == ">"@,
        at.0.subrange(20, 29) == "</option>"@,
        "<option value=\""@.len() == 15,
        "\""@.len() == 1,
        ">"@.len() == 1,
        "</option>"@.len() == 9,
{
    reveal_strlit("<option value=\"¤\"¤>¤</option>");
    reveal_strlit("<option value=\"");
    reveal_strlit("\"");
    reveal_strlit(">");
    reveal_strlit("</option>");
    let tpl = page::TYPE_OPTION@;
    let holes = seq![15int, 17, 19];
    assert(markup::hole_at(tpl, holes, 0));
    assert(markup::hole_at(tpl, holes, 1));
    assert(markup::hole_at(tpl, holes, 2));
    assert(tpl.subrange(0, 15) =~= "<option value=\""@);
    assert(tpl.subrange(16, 17) =~= "\""@);
    assert(tpl.subrange(18, 19) =~= ">"@);
    assert(tpl.subrange(20, 29) =~= "</option>"@);
    (tpl, holes)
}

/// An option of the type filter stands for its type, and is selected where it is in force.
pub proof fn law_type_option(t: Seq<char>, selected: Seq<char>)
    ensures
        ({
            let out = page::type_option_html(t, selected);
            &&& markup::shows(out, "<option value=\""@ + html::escaped(t) + "\""@)
            &&& markup::shows(out, "\""@ + html::when(t == selected, " selected"@) + ">"@)
            &&& markup::shows(out, ">"@ + html::escaped(display::humanized(t)) + "</option>"@)
        }),
{
    let (tpl, holes) = lemma_type_option();
    let parts = seq![
        html::escaped(t),
        html::when(t == selected, " selected"@),
        html::escaped(display::humanized(t)),
    ];
    assert(page::type_option_html(t, selected) == markup::filled(tpl, parts, 3).done()) by {
        reveal_with_fuel(markup::filled, 4);
    }
    markup::lemma_hole(tpl, holes, parts, 0, "<option value=\""@, "\""@);
    markup::lemma_hole(tpl, holes, parts, 1, "\""@, ">"@);
    markup::lemma_hole(tpl, holes, parts, 2, ">"@, "</option>"@);
}

/// Where the holes of the template stand, and the texts around them.
proof fn lemma_events_toolbar() -> (at: (Seq<char>, Seq<int>))
    ensures
        at.0 == page::EVENTS_TOOLBAR@,
        at.1 == seq![110int, 322, 348, 398],
        at.0.len() == 466,
        markup::holes_at(at.0, at.1),
        at.0.subrange(73, 110) == "<input type=\"search\" name=\"q\" value=\""@,
        at.0.subrange(111, 112) == "\""@,
        at.0.subrange(306, 322) == "<option value=\"\""@,
        at.0.subrange(323, 339) == ">All event types"@,
        at.0.subrange(339, 348) == "</option>"@,
        at.0.subrange(349, 358) == "</select>"@,
        at.0.subrange(358, 398) == "<input type=\"hidden\" name=\"rows\" value=\""@,
        at.0.subrange(399, 400) == "\""@,
        "<input type=\"search\" name=\"q\" value=\""@.len() == 37,
        "\""@.len() == 1,
        "<option value=\"\""@.len() == 16,
        ">All event types"@.len() == 16,
        "</option>"@.len() == 9,
        "</select>"@.len() == 9,
        "<input type=\"hidden\" name=\"rows\" value=\""@.len() == 40,
{
    reveal_strlit("<form method=\"get\" action=\"/events\" class=\"users-toolbar events-toolbar\"><input type=\"search\" name=\"q\" value=\"¤\" class=\"users-search\" placeholder=\"Search events…\" autocomplete=\"off\" aria-label=\"Search events\"><select name=\"type\" class=\"settings-select events-type-select\" aria-label=\"Filter by event type\"><option value=\"\"¤>All event types</option>¤</select><input type=\"hidden\" name=\"rows\" value=\"¤\"><button type=\"submit\" class=\"btn-secondary\">Apply</button></form>");
    reveal_strlit("<input type=\"search\" name=\"q\" value=\"");
    reveal_strlit("\"");
    reveal_strlit("<option value=\"\"");
    reveal_strlit(">All event types");
    reveal_strlit("</option>");
    reveal_strlit("</select>");
    reveal_strlit("<input type=\"hidden\" name=\"rows\" value=\"");
    let tpl = page::EVENTS_TOOLBAR@;
    let holes = seq![110int, 322, 348, 398];
    assert(markup::hole_at(tpl, holes, 0));
    assert(markup::hole_at(tpl, holes, 1));
    assert(markup::hole_at(tpl, holes, 2));
    assert(markup::hole_at(tpl, holes, 3));
    assert(tpl.subrange(73, 110) =~= "<input type=\"search\" name=\"q\" value=\""@);
    assert(tpl.subrange(111, 112) =~= "\""@);
    assert(tpl.subrange(306, 322) =~= "<option value=\"\""@);
    assert(tpl.subrange(323, 339) =~= ">All event types"@);
    assert(tpl.subrange(339, 348) =~= "</option>"@);
    assert(tpl.subrange(349, 358) =~= "</select>"@);
    assert(tpl.subrange(358, 398) =~= "<input type=\"hidden\" name=\"rows\" value=\""@);
    assert(tpl.subrange(399, 400) =~= "\""@);
    (tpl, holes)
}

/// The toolbar holds what is searched for and the type in force.
pub proof fn law_events_toolbar(view: page::EventsText)
    ensures
        ({
            let out = page::events_toolbar_html(view);
            &&& markup::shows(
                out,
                "<input type=\"search\" name=\"q\" value=\""@ + html::escaped(view.search) + "\""@,
            )
            &&& markup::shows(
                out,
                "<option value=\"\""@ + html::when(view.type_filter.len() == 0, " selected"@) + ">All event types"@,
            )
            &&& markup::shows(
                out,
                "</option>"@ + page::type_options_html(view.types, view.type_filter) + "</select>"@,
            )
            &&& markup::shows(
                out,
                "<input type=\"hidden\" name=\"rows\" value=\""@ + text::decimal_int(view.pagination.rows_per_page as int) + "\""@,
            )
        }),
{
    let (tpl, holes) = lemma_events_toolbar();
    let parts = seq![
        html::escaped(view.search),
        html::when(view.type_filter.len() == 0, " selected"@),
        page::type_options_html(view.types, view.type_filter),
        text::decimal_int(view.pagination.rows_per_page as int),
    ];
    assert(page::events_toolbar_html(view) == markup::filled(tpl, parts, 4).done()) by {
        reveal_with_fuel(markup::filled, 5);
    }
    markup::lemma_hole(tpl, holes, parts, 0, "<input type=\"search\" name=\"q\" value=\""@, "\""@);
    markup::lemma_hole(tpl, holes, parts, 1, "<option value=\"\""@, ">All event types"@);
    markup::lemma_hole(tpl, holes, parts, 2, "</option>"@, "</select>"@);
    markup::lemma_hole(
        tpl,
        holes,
        parts,
        3,
        "<input type=\"hidden\" name=\"rows\" value=\""@,
        "\""@,
    );
}

/// Where the holes of the template stand, and the texts around them.
proof fn lemma_events_pagination_bar() -> (at: (Seq<char>, Seq<int>))
    ensures
        at.0 == page::EVENTS_PAGINATION_BAR@,
        at.1 == seq![262int, 278, 317, 362, 405, 448, 490, 491, 492, 493, 494, 727, 735, 776],
        at.0.len() == 805,
        markup::holes_at(at.0, at.1),
        at.0.subrange(213, 262) == "name=\"page\" class=\"pagination-jump-input\" value=\""@,
        at.0.subrange(263, 264) == "\""@,
        at.0.subrange(263, 278) == "\" min=\"1\" max=\""@,
        at.0.subrange(279, 280) == "\""@,
        at.0.subrange(281, 317) == "<span class=\"pagination-jump-of\">of "@,
        at.0.subrange(318, 325) == "</span>"@,
        at.0.subrange(325, 362) == "<input type=\"hidden\" name=\"q\" value=\""@,
        at.0.subrange(363, 364) == "\""@,
        at.0.subrange(365, 405) == "<input type=\"hidden\" name=\"type\" value=\""@,
        at.0.subrange(406, 407) == "\""@,
        at.0.subrange(408, 448) == "<input type=\"hidden\" name=\"rows\" value=\""@,
        at.0.subrange(449, 450) == "\""@,
        at.0.subrange(458, 490) == "<div class=\"pagination-numbers\">"@,
        at.0.subrange(495, 501) == "</div>"@,
        at.0.subrange(692, 727) == "<span class=\"filter-trigger-value\">"@,
        at.0.subrange(728, 735) == "</span>"@,
        at.0.subrange(746, 776) == "<div class=\"filter-menu-list\">"@,
        at.0.subrange(777, 783) == "</div>"@,
        "name=\"page\" class=\"pagination-jump-input\" value=\""@.len() == 49,
        "\""@.len() == 1,
        "\" min=\"1\" max=\""@.len() == 15,
        "<span class=\"pagination-jump-of\">of "@.len() == 36,
        "</span>"@.len() == 7,
        "<input type=\"hidden\" name=\"q\" value=\""@.len() == 37,
        "<input type=\"hidden\" name=\"type\" value=\""@.len() == 40,
        "<input type=\"hidden\" name=\"rows\" value=\""@.len() == 40,
        "<div class=\"pagination-numbers\">"@.len() == 32,
        "</div>"@.len() == 6,
        "<span class=\"filter-trigger-value\">"@.len() == 35,
        "<div class=\"filter-menu-list\">"@.len() == 30,
{
    reveal_strlit("<nav class=\"pagination-bar\" aria-label=\"Pagination\"><form method=\"get\" action=\"/events\" class=\"pagination-jump\"><label class=\"pagination-jump-label\" for=\"page-jump\">Page</label><input type=\"number\" id=\"page-jump\" name=\"page\" class=\"pagination-jump-input\" value=\"¤\" min=\"1\" max=\"¤\"><span class=\"pagination-jump-of\">of ¤</span><input type=\"hidden\" name=\"q\" value=\"¤\"><input type=\"hidden\" name=\"type\" value=\"¤\"><input type=\"hidden\" name=\"rows\" value=\"¤\"></form><div class=\"pagination-numbers\">¤¤¤¤¤</div><div class=\"pagination-rows\"><span class=\"pagination-rows-label\">Rows per page</span><details class=\"filter-menu pagination-rows-menu\"><summary class=\"filter-trigger pagination-rows-trigger\"><span class=\"filter-trigger-value\">¤</span>¤</summary><div class=\"filter-menu-list\">¤</div></details></div></nav>");
    reveal_strlit("name=\"page\" class=\"pagination-jump-input\" value=\"");
    reveal_strlit("\"");
    reveal_strlit("\" min=\"1\" max=\"");
    reveal_strlit("<span class=\"pagination-jump-of\">of ");
    reveal_strlit("</span>");
    reveal_strlit("<input type=\"hidden\" name=\"q\" value=\"");
    reveal_strlit("<input type=\"hidden\" name=\"type\" value=\"");
    reveal_strlit("<input type=\"hidden\" name=\"rows\" value=\"");
    reveal_strlit("<div class=\"pagination-numbers\">");
    reveal_strlit("</div>");
    reveal_strlit("<span class=\"filter-trigger-value\">");
    reveal_strlit("<div class=\"filter-menu-list\">");
    let tpl = page::EVENTS_PAGINATION_BAR@;
    let holes = seq![262int, 278, 317, 362, 405, 448, 490, 491, 492, 493, 494, 727, 735, 776];
    assert(markup::hole_at(tpl, holes, 0));
    assert(markup::hole_at(tpl, holes, 1));
    assert(markup::hole_at(tpl, holes, 2));
    assert(markup::hole_at(tpl, holes, 3));
    assert(markup::hole_at(tpl, holes, 4));
    assert(markup::hole_at(tpl, holes, 5));
    assert(markup::hole_at(tpl, holes, 6));
    assert(markup::hole_at(tpl, holes, 7));
    assert(markup::hole_at(tpl, holes, 8));
    assert(markup::hole_at(tpl, holes, 9));
    assert(markup::hole_at(tpl, holes, 10));
    assert(markup::hole_at(tpl, holes, 11));
    assert(markup::hole_at(tpl, holes, 12));
    assert(markup::hole_at(tpl, holes, 13));
    assert(tpl.subrange(213, 262) =~= "name=\"page\" class=\"pagination-jump-input\" value=\""@);
    assert(tpl.subrange(263, 264) =~= "\""@);
    assert(tpl.subrange(263, 278) =~= "\" min=\"1\" max=\""@);
    assert(tpl.subrange(279, 280) =~= "\""@);
    assert(tpl.subrange(281, 317) =~= "<span class=\"pagination-jump-of\">of "@);
    assert(tpl.subrange(318, 325) =~= "</span>"@);
    assert(tpl.subrange(325, 362) =~= "<input type=\"hidden\" name=\"q\" value=\""@);
    assert(tpl.subrange(363, 364) =~= "\""@);
    assert(tpl.subrange(365, 405) =~= "<input type=\"hidden\" name=\"type\" value=\""@);
    assert(tpl.subrange(406, 407) =~= "\""@);
    assert(tpl.subrange(408, 448) =~= "<input type=\"hidden\" name=\"rows\" value=\""@);
    assert(tpl.subrange(449, 450) =~= "\""@);
    assert(tpl.subrange(458, 490) =~= "<div class=\"pagination-numbers\">"@);
    assert(tpl.subrange(495, 501) =~= "</div>"@);
    assert(tpl.subrange(692, 727) =~= "<span class=\"filter-trigger-value\">"@);
    assert(tpl.subrange(728, 735) =~= "</span>"@);
    assert(tpl.subrange(746, 776) =~= "<div class=\"filter-menu-list\">"@);
    assert(tpl.subrange(777, 783) =~= "</div>"@);
    (tpl, holes)
}

/// The paging says which page is shown of how many, keeps the filter, and leads to the first, the
/// previous, the next and the last page.
pub proof fn law_events_pagination_bar(
    state: PaginationState,
    search: Seq<char>,
    type_filter: Seq<char>,
)
    ensures
        ({
            let out = page::events_pagination_bar_html(state, search, type_filter);
            let cur = state.current_page;
            let total = state.total_pages;
            let rows = state.rows_per_page;
            let at_first = cur <= 1;
            let at_last = cur >= total;
            let prev_page = members::previous_page(cur);
            let next_page = members::following_page(cur, total);
            &&& markup::shows(
                out,
                "name=\"page\" class=\"pagination-jump-input\" value=\""@ + text::decimal_int(cur as int) + "\""@,
            )
            &&& markup::shows(out, "\" min=\"1\" max=\""@ + text::decimal_int(total as int) + "\""@)
            &&& markup::shows(
                out,
                "<span class=\"pagination-jump-of\">of "@ + text::decimal_int(total as int) + "</span>"@,
            )
            &&& markup::shows(
                out,
                "<input type=\"hidden\" name=\"q\" value=\""@ + html::escaped(search) + "\""@,
            )
            &&& markup::shows(
                out,
                "<input type=\"hidden\" name=\"type\" value=\""@ + html::escaped(type_filter) + "\""@,
            )
            &&& markup::shows(
                out,
                "<input type=\"hidden\" name=\"rows\" value=\""@ + text::decimal_int(rows as int) + "\""@,
            )
            &&& markup::shows(
                out,
                "<div class=\"pagination-numbers\">"@ + members::pagination_step_html(page::events_url_of(search, type_filter, 1, rows), at_first, "first"@, CHEVRON_DOUBLE_LEFT_ICON@),
            )
            &&& markup::shows(
                out,
                members::pagination_step_html(page::events_url_of(search, type_filter, prev_page, rows), at_first, "previous"@, CHEVRON_LEFT_ICON@),
            )
            &&& markup::shows(
                out,
                page::page_slots_html(listing::page_slots(cur, total), search, type_filter, rows, cur),
            )
            &&& markup::shows(
                out,
                members::pagination_step_html(page::events_url_of(search, type_filter, next_page, rows), at_last, "next"@, CHEVRON_RIGHT_ICON@),
            )
            &&& markup::shows(
                out,
                members::pagination_step_html(page::events_url_of(search, type_filter, total, rows), at_last, "last"@, CHEVRON_DOUBLE_RIGHT_ICON@) + "</div>"@,
            )
            &&& markup::shows(
                out,
                "<span class=\"filter-trigger-value\">"@ + text::decimal_int(rows as int) + "</span>"@,
            )
            &&& markup::shows(
                out,
                "<div class=\"filter-menu-list\">"@ + page::rows_options_html(listing::rows_per_page_options(), search, type_filter, rows) + "</div>"@,
            )
            &&& markup::shows(
                out,
                "<div class=\"pagination-numbers\">"@ + (members::pagination_step_html(page::events_url_of(search, type_filter, 1, rows), at_first, "first"@, CHEVRON_DOUBLE_LEFT_ICON@) + members::pagination_step_html(page::events_url_of(search, type_filter, prev_page, rows), at_first, "previous"@, CHEVRON_LEFT_ICON@)),
            )
            &&& markup::shows(
                out,
                (members::pagination_step_html(page::events_url_of(search, type_filter, prev_page, rows), at_first, "previous"@, CHEVRON_LEFT_ICON@) + page::page_slots_html(listing::page_slots(cur, total), search, type_filter, rows, cur)),
            )
            &&& markup::shows(
                out,
                (page::page_slots_html(listing::page_slots(cur, total), search, type_filter, rows, cur) + members::pagination_step_html(page::events_url_of(search, type_filter, next_page, rows), at_last, "next"@, CHEVRON_RIGHT_ICON@)),
            )
        }),
{
    let cur = state.current_page;
    let total = state.total_pages;
    let rows = state.rows_per_page;
    let at_first = cur <= 1;
    let at_last = cur >= total;
    let prev_page = members::previous_page(cur);
    let next_page = members::following_page(cur, total);
    let (tpl, holes) = lemma_events_pagination_bar();
    let parts = seq![
        text::decimal_int(cur as int),
        text::decimal_int(total as int),
        text::decimal_int(total as int),
        html::escaped(search),
        html::escaped(type_filter),
        text::decimal_int(rows as int),
        members::pagination_step_html(page::events_url_of(search, type_filter, 1, rows), at_first, "first"@, CHEVRON_DOUBLE_LEFT_ICON@),
        members::pagination_step_html(page::events_url_of(search, type_filter, prev_page, rows), at_first, "previous"@, CHEVRON_LEFT_ICON@),
        page::page_slots_html(listing::page_slots(cur, total), search, type_filter, rows, cur),
        members::pagination_step_html(page::events_url_of(search, type_filter, next_page, rows), at_last, "next"@, CHEVRON_RIGHT_ICON@),
        members::pagination_step_html(page::events_url_of(search, type_filter, total, rows), at_last, "last"@, CHEVRON_DOUBLE_RIGHT_ICON@),
        text::decimal_int(rows as int),
        CHEVRON_DOWN_ICON@,
        page::rows_options_html(listing::rows_per_page_options(), search, type_filter, rows),
    ];
    assert(page::events_pagination_bar_html(state, search, type_filter) == markup::filled(tpl, parts, 14).done()) by {
        reveal_with_fuel(markup::filled, 15);
    }
    markup::lemma_hole(
        tpl,
        holes,
        parts,
        0,
        "name=\"page\" class=\"pagination-jump-input\" value=\""@,
        "\""@,
    );
    markup::lemma_hole(tpl, holes, parts, 1, "\" min=\"1\" max=\""@, "\""@);
    markup::lemma_hole(tpl, holes, parts, 2, "<span class=\"pagination-jump-of\">of "@, "</span>"@);
    markup::lemma_hole(tpl, holes, parts, 3, "<input type=\"hidden\" name=\"q\" value=\""@, "\""@);
    markup::lemma_hole(
        tpl,
        holes,
        parts,
        4,
        "<input type=\"hidden\" name=\"type\" value=\""@,
        "\""@,
    );
    markup::lemma_hole(
        tpl,
        holes,
        parts,
        5,
        "<input type=\"hidden\" name=\"rows\" value=\""@,
        "\""@,
    );
    assert(tpl.subrange(491, 491) =~= Seq::<char>::empty());
    markup::lemma_hole(
        tpl,
        holes,
        parts,
        6,
        "<div class=\"pagination-numbers\">"@,
        Seq::<char>::empty(),
    );
    assert("<div class=\"pagination-numbers\">"@ + parts[6] + Seq::<char>::empty() =~= "<div class=\"pagination-numbers\">"@ + parts[6]);
    assert(tpl.subrange(491, 491) =~= Seq::<char>::empty());
    assert(tpl.subrange(492, 492) =~= Seq::<char>::empty());
    markup::lemma_hole(tpl, holes, parts, 7, Seq::<char>::empty(), Seq::<char>::empty());
    assert(Seq::<char>::empty() + parts[7] + Seq::<char>::empty() =~= parts[7]);
    assert(tpl.subrange(492, 492) =~= Seq::<char>::empty());
    assert(tpl.subrange(493, 493) =~= Seq::<char>::empty());
    markup::lemma_hole(tpl, holes, parts, 8, Seq::<char>::empty(), Seq::<char>::empty());
    assert(Seq::<char>::empty() + parts[8] + Seq::<char>::empty() =~= parts[8]);
    assert(tpl.subrange(493, 493) =~= Seq::<char>::empty());
    assert(tpl.subrange(494, 494) =~= Seq::<char>::empty());
    markup::lemma_hole(tpl, holes, parts, 9, Seq::<char>::empty(), Seq::<char>::empty());
    assert(Seq::<char>::empty() + parts[9] + Seq::<char>::empty() =~= parts[9]);
    assert(tpl.subrange(494, 494) =~= Seq::<char>::empty());
    markup::lemma_hole(tpl, holes, parts, 10, Seq::<char>::empty(), "</div>"@);
    assert(Seq::<char>::empty() + parts[10] + "</div>"@ =~= parts[10] + "</div>"@);
    markup::lemma_hole(tpl, holes, parts, 11, "<span class=\"filter-trigger-value\">"@, "</span>"@);
    markup::lemma_hole(tpl, holes, parts, 13, "<div class=\"filter-menu-list\">"@, "</div>"@);
    assert(tpl.subrange(491, 491) =~= Seq::<char>::empty());
    assert(tpl.subrange(492, 492) =~= Seq::<char>::empty());
    markup::lemma_two_holes(
        tpl,
        holes,
        parts,
        6,
        "<div class=\"pagination-numbers\">"@,
        Seq::<char>::empty(),
        Seq::<char>::empty(),
    );
    assert("<div class=\"pagination-numbers\">"@ + (parts[6] + Seq::<char>::empty() + parts[7]) + Seq::<char>::empty() =~= "<div class=\"pagination-numbers\">"@ + (parts[6] + parts[7]));
    assert(tpl.subrange(491, 491) =~= Seq::<char>::empty());
    assert(tpl.subrange(492, 492) =~= Seq::<char>::empty());
    assert(tpl.subrange(493, 493) =~= Seq::<char>::empty());
    markup::lemma_two_holes(
        tpl,
        holes,
        parts,
        7,
        Seq::<char>::empty(),
        Seq::<char>::empty(),
        Seq::<char>::empty(),
    );
    assert(Seq::<char>::empty() + (parts[7] + Seq::<char>::empty() + parts[8]) + Seq::<char>::empty() =~= (parts[7] + parts[8]));
    assert(tpl.subrange(492, 492) =~= Seq::<char>::empty());
    assert(tpl.subrange(493, 493) =~= Seq::<char>::empty());
    assert(tpl.subrange(494, 494) =~= Seq::<char>::empty());
    markup::lemma_two_holes(
        tpl,
        holes,
        parts,
        8,
        Seq::<char>::empty(),
        Seq::<char>::empty(),
        Seq::<char>::empty(),
    );
    assert(Seq::<char>::empty() + (parts[8] + Seq::<char>::empty() + parts[9]) + Seq::<char>::empty() =~= (parts[8] + parts[9]));
}

/// Where the holes of the template stand, and the texts around them.
proof fn lemma_detail_pair() -> (at: (Seq<char>, Seq<int>))
    ensures
        at.0 == page::DETAIL_PAIR@,
        at.1 == seq![64int, 105],
        at.0.len() == 119,
        markup::holes_at(at.0, at.1),
        at.0.subrange(31, 64) == "<span class=\"event-detail-label\">"@,
        at.0.subrange(65, 72) == "</span>"@,
        at.0.subrange(72, 105) == "<span class=\"event-detail-value\">"@,
        at.0.subrange(106, 113) == "</span>"@,
        "<span class=\"event-detail-label\">"@.len() == 33,
        "</span>"@.len() == 7,
        "<span class=\"event-detail-value\">"@.len() == 33,
{
    reveal_strlit("<div class=\"event-detail-pair\"><span class=\"event-detail-label\">¤</span><span class=\"event-detail-value\">¤</span></div>");
    reveal_strlit("<span class=\"event-detail-label\">");
    reveal_strlit("</span>");
    reveal_strlit("<span class=\"event-detail-value\">");
    let tpl = page::DETAIL_PAIR@;
    let holes = seq![64int, 105];
    assert(markup::hole_at(tpl, holes, 0));
    assert(markup::hole_at(tpl, holes, 1));
    assert(tpl.subrange(31, 64) =~= "<span class=\"event-detail-label\">"@);
    assert(tpl.subrange(65, 72) =~= "</span>"@);
    assert(tpl.subrange(72, 105) =~= "<span class=\"event-detail-value\">"@);
    assert(tpl.subrange(106, 113) =~= "</span>"@);
    (tpl, holes)
}

/// A detail stands under its label.
pub proof fn law_detail_pair(label: Seq<char>, value: Seq<char>)
    ensures
        ({
            let out = page::detail_pair_html(label, value);
            &&& markup::shows(
                out,
                "<span class=\"event-detail-label\">"@ + html::escaped(label) + "</span>"@,
            )
            &&& markup::shows(out, "<span class=\"event-detail-value\">"@ + value + "</span>"@)
        }),
{
    let (tpl, holes) = lemma_detail_pair();
    let parts = seq![html::escaped(label), value];
    assert(page::detail_pair_html(label, value) == markup::filled(tpl, parts, 2).done()) by {
        reveal_with_fuel(markup::filled, 3);
    }
    markup::lemma_hole(tpl, holes, parts, 0, "<span class=\"event-detail-label\">"@, "</span>"@);
    markup::lemma_hole(tpl, holes, parts, 1, "<span class=\"event-detail-value\">"@, "</span>"@);
}

/// Where the holes of the template stand, and the texts around them.
proof fn lemma_event_detail_modal() -> (at: (Seq<char>, Seq<int>))
    ensures
        at.0 == page::EVENT_DETAIL_MODAL@,
        at.1 == seq![90int, 176, 218, 219, 220, 221, 335, 523, 639, 750],
        at.0.len() == 879,
        markup::holes_at(at.0, at.1),
        at.0.subrange(79, 90) == "<h2>Event #"@,
        at.0.subrange(91, 96) == "</h2>"@,
        at.0.subrange(192, 218) == "<div class=\"event-detail\">"@,
        at.0.subrange(222, 228) == "</div>"@,
        at.0.subrange(304, 335) == "<pre class=\"event-detail-json\">"@,
        at.0.subrange(336, 342) == "</pre>"@,
        at.0.subrange(453, 523) == "<span class=\"event-hash-key\">seqno</span><span class=\"event-hash-val\">"@,
        at.0.subrange(524, 531) == "</span>"@,
        at.0.subrange(565, 639) == "<span class=\"event-hash-key\">prev_hash</span><span class=\"event-hash-val\">"@,
        at.0.subrange(640, 647) == "</span>"@,
        at.0.subrange(681, 750) == "<span class=\"event-hash-key\">hash</span><span class=\"event-hash-val\">"@,
        at.0.subrange(751, 758) == "</span>"@,
        "<h2>Event #"@.len() == 11,
        "</h2>"@.len() == 5,
        "<div class=\"event-detail\">"@.len() == 26,
        "</div>"@.len() == 6,
        "<pre class=\"event-detail-json\">"@.len() == 31,
        "</pre>"@.len() == 6,
        "<span class=\"event-hash-key\">seqno</span><span class=\"event-hash-val\">"@.len() == 70,
        "</span>"@.len() == 7,
        "<span class=\"event-hash-key\">prev_hash</span><span class=\"event-hash-val\">"@.len() == 74,
        "<span class=\"event-hash-key\">hash</span><span class=\"event-hash-val\">"@.len() == 69,
{
    reveal_strlit("<dialog id=\"dlg-event-detail\" class=\"action-dialog\"><div class=\"dialog-header\"><h2>Event #¤</h2><button type=\"button\" class=\"dialog-close\" data-close-dialog aria-label=\"Close\">¤</button></div><div class=\"event-detail\">¤¤¤¤</div><div class=\"event-detail-block\"><span class=\"event-detail-label\">Data</span><pre class=\"event-detail-json\">¤</pre></div><div class=\"event-detail-block\"><span class=\"event-detail-label\">Chain</span><div class=\"event-hash-row\"><span class=\"event-hash-key\">seqno</span><span class=\"event-hash-val\">¤</span></div><div class=\"event-hash-row\"><span class=\"event-hash-key\">prev_hash</span><span class=\"event-hash-val\">¤</span></div><div class=\"event-hash-row\"><span class=\"event-hash-key\">hash</span><span class=\"event-hash-val\">¤</span></div></div><div class=\"dialog-actions\"><button type=\"button\" class=\"btn\" data-close-dialog>Close</button></div></dialog>");
    reveal_strlit("<h2>Event #");
    reveal_strlit("</h2>");
    reveal_strlit("<div class=\"event-detail\">");
    reveal_strlit("</div>");
    reveal_strlit("<pre class=\"event-detail-json\">");
    reveal_strlit("</pre>");
    reveal_strlit("<span class=\"event-hash-key\">seqno</span><span class=\"event-hash-val\">");
    reveal_strlit("</span>");
    reveal_strlit("<span class=\"event-hash-key\">prev_hash</span><span class=\"event-hash-val\">");
    reveal_strlit("<span class=\"event-hash-key\">hash</span><span class=\"event-hash-val\">");
    let tpl = page::EVENT_DETAIL_MODAL@;
    let holes = seq![90int, 176, 218, 219, 220, 221, 335, 523, 639, 750];
    assert(markup::hole_at(tpl, holes, 0));
    assert(markup::hole_at(tpl, holes, 1));
    assert(markup::hole_at(tpl, holes, 2));
    assert(markup::hole_at(tpl, holes, 3));
    assert(markup::hole_at(tpl, holes, 4));
    assert(markup::hole_at(tpl, holes, 5));
    assert(markup::hole_at(tpl, holes, 6));
    assert(markup::hole_at(tpl, holes, 7));
    assert(markup::hole_at(tpl, holes, 8));
    assert(markup::hole_at(tpl, holes, 9));
    assert(tpl.subrange(79, 90) =~= "<h2>Event #"@);
    assert(tpl.subrange(91, 96) =~= "</h2>"@);
    assert(tpl.subrange(192, 218) =~= "<div class=\"event-detail\">"@);
    assert(tpl.subrange(222, 228) =~= "</div>"@);
    assert(tpl.subrange(304, 335) =~= "<pre class=\"event-detail-json\">"@);
    assert(tpl.subrange(336, 342) =~= "</pre>"@);
    assert(tpl.subrange(453, 523) =~= "<span class=\"event-hash-key\">seqno</span><span class=\"event-hash-val\">"@);
    assert(tpl.subrange(524, 531) =~= "</span>"@);
    assert(tpl.subrange(565, 639) =~= "<span class=\"event-hash-key\">prev_hash</span><span class=\"event-hash-val\">"@);
    assert(tpl.subrange(640, 647) =~= "</span>"@);
    assert(tpl.subrange(681, 750) =~= "<span class=\"event-hash-key\">hash</span><span class=\"event-hash-val\">"@);
    assert(tpl.subrange(751, 758) =~= "</span>"@);
    (tpl, holes)
}

/// The dialog of an event shows each of its fields under its label.
pub proof fn law_event_detail_modal(ev: &AuditEvent)
    ensures
        ({
            let out = page::event_detail_modal_html(ev);
            &&& markup::shows(out, "<h2>Event #"@ + text::decimal_int(ev.seqno as int) + "</h2>"@)
            &&& markup::shows(
                out,
                "<div class=\"event-detail\">"@ + page::detail_pair_html( "Time"@, html::escaped(model::date_text(ev.occurred_at@, model::MILLISECOND@))),
            )
            &&& markup::shows(out, page::detail_pair_html("Actor"@, page::actor_detail_html(ev)))
            &&& markup::shows(out, page::detail_pair_html("Event"@, page::type_detail_html(ev)))
            &&& markup::shows(out, page::app_detail_html(ev) + "</div>"@)
            &&& markup::shows(
                out,
                "<pre class=\"event-detail-json\">"@ + html::escaped(json::readable(json::indented(ev.event_json@), ev.event_json@)) + "</pre>"@,
            )
            &&& markup::shows(
                out,
                "<span class=\"event-hash-key\">seqno</span><span class=\"event-hash-val\">"@ + text::decimal_int(ev.seqno as int) + "</span>"@,
            )
            &&& markup::shows(
                out,
                "<span class=\"event-hash-key\">prev_hash</span><span class=\"event-hash-val\">"@ + html::escaped(display::hex_text(ev.prev_hash@)) + "</span>"@,
            )
            &&& markup::shows(
                out,
                "<span class=\"event-hash-key\">hash</span><span class=\"event-hash-val\">"@ + html::escaped(display::hex_text(ev.hash@)) + "</span>"@,
            )
            &&& markup::shows(
                out,
                "<div class=\"event-detail\">"@ + (page::detail_pair_html( "Time"@, html::escaped(model::date_text(ev.occurred_at@, model::MILLISECOND@))) + page::detail_pair_html("Actor"@, page::actor_detail_html(ev))),
            )
            &&& markup::shows(
                out,
                (page::detail_pair_html("Actor"@, page::actor_detail_html(ev)) + page::detail_pair_html("Event"@, page::type_detail_html(ev))),
            )
        }),
{
    let (tpl, holes) = lemma_event_detail_modal();
    let parts = seq![
        text::decimal_int(ev.seqno as int),
        CLOSE_ICON@,
        page::detail_pair_html( "Time"@, html::escaped(model::date_text(ev.occurred_at@, model::MILLISECOND@))),
        page::detail_pair_html("Actor"@, page::actor_detail_html(ev)),
        page::detail_pair_html("Event"@, page::type_detail_html(ev)),
        page::app_detail_html(ev),
        html::escaped(json::readable(json::indented(ev.event_json@), ev.event_json@)),
        text::decimal_int(ev.seqno as int),
        html::escaped(display::hex_text(ev.prev_hash@)),
        html::escaped(display::hex_text(ev.hash@)),
    ];
    assert(page::event_detail_modal_html(ev) == markup::filled(tpl, parts, 10).done()) by {
        reveal_with_fuel(markup::filled, 11);
    }
    markup::lemma_hole(tpl, holes, parts, 0, "<h2>Event #"@, "</h2>"@);
    assert(tpl.subrange(219, 219) =~= Seq::<char>::empty());
    markup::lemma_hole(tpl, holes, parts, 2, "<div class=\"event-detail\">"@, Seq::<char>::empty());
    assert("<div class=\"event-detail\">"@ + parts[2] + Seq::<char>::empty() =~= "<div class=\"event-detail\">"@ + parts[2]);
    assert(tpl.subrange(219, 219) =~= Seq::<char>::empty());
    assert(tpl.subrange(220, 220) =~= Seq::<char>::empty());
    markup::lemma_hole(tpl, holes, parts, 3, Seq::<char>::empty(), Seq::<char>::empty());
    assert(Seq::<char>::empty() + parts[3] + Seq::<char>::empty() =~= parts[3]);
    assert(tpl.subrange(220, 220) =~= Seq::<char>::empty());
    assert(tpl.subrange(221, 221) =~= Seq::<char>::empty());
    markup::lemma_hole(tpl, holes, parts, 4, Seq::<char>::empty(), Seq::<char>::empty());
    assert(Seq::<char>::empty() + parts[4] + Seq::<char>::empty() =~= parts[4]);
    assert(tpl.subrange(221, 221) =~= Seq::<char>::empty());
    markup::lemma_hole(tpl, holes, parts, 5, Seq::<char>::empty(), "</div>"@);
    assert(Seq::<char>::empty() + parts[5] + "</div>"@ =~= parts[5] + "</div>"@);
    markup::lemma_hole(tpl, holes, parts, 6, "<pre class=\"event-detail-json\">"@, "</pre>"@);
    markup::lemma_hole(
        tpl,
        holes,
        parts,
        7,
        "<span class=\"event-hash-key\">seqno</span><span class=\"event-hash-val\">"@,
        "</span>"@,
    );
    markup::lemma_hole(
        tpl,
        holes,
        parts,
        8,
        "<span class=\"event-hash-key\">prev_hash</span><span class=\"event-hash-val\">"@,
        "</span>"@,
    );
    markup::lemma_hole(
        tpl,
        holes,
        parts,
        9,
        "<span class=\"event-hash-key\">hash</span><span class=\"event-hash-val\">"@,
        "</span>"@,
    );
    assert(tpl.subrange(219, 219) =~= Seq::<char>::empty());
    assert(tpl.subrange(220, 220) =~= Seq::<char>::empty());
    markup::lemma_two_holes(
        tpl,
        holes,
        parts,
        2,
        "<div class=\"event-detail\">"@,
        Seq::<char>::empty(),
        Seq::<char>::empty(),
    );
    assert("<div class=\"event-detail\">"@ + (parts[2] + Seq::<char>::empty() + parts[3]) + Seq::<char>::empty() =~= "<div class=\"event-detail\">"@ + (parts[2] + parts[3]));
    assert(tpl.subrange(219, 219) =~= Seq::<char>::empty());
    assert(tpl.subrange(220, 220) =~= Seq::<char>::empty());
    assert(tpl.subrange(221, 221) =~= Seq::<char>::empty());
    markup::lemma_two_holes(
        tpl,
        holes,
        parts,
        3,
        Seq::<char>::empty(),
        Seq::<char>::empty(),
        Seq::<char>::empty(),
    );
    assert(Seq::<char>::empty() + (parts[3] + Seq::<char>::empty() + parts[4]) + Seq::<char>::empty() =~= (parts[3] + parts[4]));
}

/// Where the holes of the template stand, and the texts around them.
proof fn lemma_event_details() -> (at: (Seq<char>, Seq<int>))
    ensures
        at.0 == page::EVENT_META@,
        at.1 == seq![25int],
        at.0.len() == 33,
        markup::holes_at(at.0, at.1),
        at.0.subrange(0, 25) == "<span class=\"event-meta\">"@,
        at.0.subrange(26, 33) == "</span>"@,
        "<span class=\"event-meta\">"@.len() == 25,
        "</span>"@.len() == 7,
{
    reveal_strlit("<span class=\"event-meta\">¤</span>");
    reveal_strlit("<span class=\"event-meta\">");
    reveal_strlit("</span>");
    let tpl = page::EVENT_META@;
    let holes = seq![25int];
    assert(markup::hole_at(tpl, holes, 0));
    assert(tpl.subrange(0, 25) =~= "<span class=\"event-meta\">"@);
    assert(tpl.subrange(26, 33) =~= "</span>"@);
    (tpl, holes)
}

/// The details of an event are its fields.
pub proof fn law_event_details(data: EventData, fields: Vec<EventField>)
    requires
        data == EventData::Object(fields), fields@.len() > 0,
    ensures
        ({
            let out = page::event_details_html(data);
            &&& markup::shows(
                out,
                "<span class=\"event-meta\">"@ + page::event_fields_html(fields@) + "</span>"@,
            )
        }),
{
    let (tpl, holes) = lemma_event_details();
    let parts = seq![page::event_fields_html(fields@)];
    assert(page::event_details_html(data) == markup::filled(tpl, parts, 1).done()) by {
        reveal_with_fuel(markup::filled, 2);
    }
    markup::lemma_hole(tpl, holes, parts, 0, "<span class=\"event-meta\">"@, "</span>"@);
}

/// Every event has its row.
pub proof fn law_every_event_has_its_row(events: Seq<AuditEvent>, now: &Timestamp, i: int)
    requires
        0 <= i < events.len(),
    ensures
        markup::shows(page::event_rows_html(events, now), page::event_row_html(&events[i], now)),
    decreases events.len(),
{
    let front = events.drop_last();
    let row = page::event_row_html(&events[i], now);
    let last = page::event_row_html(&events.last(), now);
    let before = page::event_rows_html(front, now);
    let whole = page::event_rows_html(events, now);
    if i == front.len() {
        assert(whole =~= before + row + Seq::empty());
    } else {
        law_every_event_has_its_row(front, now, i);
        assert(front[i] == events[i]);
        assert(whole =~= Seq::empty() + before + last);
        markup::lemma_shows_inner(whole, before, row);
    }
}

/// Every type of event can be picked.
pub proof fn law_every_event_type_can_be_picked(types: Seq<String>, selected: Seq<char>, i: int)
    requires
        0 <= i < types.len(),
    ensures
        markup::shows(
            page::type_options_html(types, selected),
            page::type_option_html(types[i]@, selected),
        ),
    decreases types.len(),
{
    let front = types.drop_last();
    let row = page::type_option_html(types[i]@, selected);
    let last = page::type_option_html(types.last()@, selected);
    let before = page::type_options_html(front, selected);
    let whole = page::type_options_html(types, selected);
    if i == front.len() {
        assert(whole =~= before + row + Seq::empty());
    } else {
        law_every_event_type_can_be_picked(front, selected, i);
        assert(front[i] == types[i]);
        assert(whole =~= Seq::empty() + before + last);
        markup::lemma_shows_inner(whole, before, row);
    }
}

/// Every number of the paging leads to its own page, under the filter in force.
pub proof fn law_every_page_of_events_has_its_number(
    items: Seq<PageItem>,
    search: Seq<char>,
    type_filter: Seq<char>,
    rows: u32,
    cur: u32,
    i: int,
)
    requires
        0 <= i < items.len(),
    ensures
        markup::shows(
            page::page_slots_html(items, search, type_filter, rows, cur),
            (match items[i] { PageItem::Number(n) => members::pagination_number_html(page::events_url_of(search, type_filter, n, rows), n, n == cur), PageItem::Ellipsis => ELLIPSIS@ }),
        ),
    decreases items.len(),
{
    let front = items.drop_last();
    let row = (match items[i] { PageItem::Number(n) => members::pagination_number_html(page::events_url_of(search, type_filter, n, rows), n, n == cur), PageItem::Ellipsis => ELLIPSIS@ });
    let last = (match items.last() { PageItem::Number(n) => members::pagination_number_html(page::events_url_of(search, type_filter, n, rows), n, n == cur), PageItem::Ellipsis => ELLIPSIS@ });
    let before = page::page_slots_html(front, search, type_filter, rows, cur);
    let whole = page::page_slots_html(items, search, type_filter, rows, cur);
    if i == front.len() {
        assert(whole =~= before + row + Seq::empty());
    } else {
        law_every_page_of_events_has_its_number(front, search, type_filter, rows, cur, i);
        assert(front[i] == items[i]);
        assert(whole =~= Seq::empty() + before + last);
        markup::lemma_shows_inner(whole, before, row);
    }
}

/// Every choice of a number of rows leads to the first page of a table with so many.
pub proof fn law_every_choice_of_event_rows(
    options: Seq<u32>,
    search: Seq<char>,
    type_filter: Seq<char>,
    rows: u32,
    i: int,
)
    requires
        0 <= i < options.len(),
    ensures
        markup::shows(
            page::rows_options_html(options, search, type_filter, rows),
            members::rows_option_html(page::events_url_of(search, type_filter, 1, options[i]), options[i], options[i] == rows),
        ),
    decreases options.len(),
{
    let front = options.drop_last();
    let row = members::rows_option_html(page::events_url_of(search, type_filter, 1, options[i]), options[i], options[i] == rows);
    let last = members::rows_option_html(page::events_url_of(search, type_filter, 1, options.last()), options.last(), options.last() == rows);
    let before = page::rows_options_html(front, search, type_filter, rows);
    let whole = page::rows_options_html(options, search, type_filter, rows);
    if i == front.len() {
        assert(whole =~= before + row + Seq::empty());
    } else {
        law_every_choice_of_event_rows(front, search, type_filter, rows, i);
        assert(front[i] == options[i]);
        assert(whole =~= Seq::empty() + before + last);
        markup::lemma_shows_inner(whole, before, row);
    }
}

/// The address of a page of events holds the page, its rows and, where they are filled in, what is
/// searched for and the type.
pub proof fn law_events_url(search: Seq<char>, type_filter: Seq<char>, number: u32, rows: u32)
    ensures
        ({
            let url = page::events_url_of(search, type_filter, number, rows);
            let base = "/events?page="@ + text::decimal(number as nat) + "&rows="@ + text::decimal(
                rows as nat,
            );
            let q = "&q="@ + display::query_text(search);
            let t = "&type="@ + display::query_text(type_filter);
            &&& search.len() == 0 && type_filter.len() == 0 ==> url == base
            &&& search.len() > 0 && type_filter.len() == 0 ==> url == base + q
            &&& search.len() == 0 && type_filter.len() > 0 ==> url == base + t
            &&& search.len() > 0 && type_filter.len() > 0 ==> url == base + q + t
        }),
{
    let base = "/events?page="@ + text::decimal(number as nat) + "&rows="@ + text::decimal(
        rows as nat,
    );
    let q = display::query_text(search);
    let t = display::query_text(type_filter);
    assert(base + "&q="@ + q =~= base + ("&q="@ + q));
    assert(base + "&type="@ + t =~= base + ("&type="@ + t));
    assert(base + "&q="@ + q + "&type="@ + t =~= base + ("&q="@ + q) + ("&type="@ + t));
}

/// A value of an event is told as it is.
pub proof fn law_event_values(s: String, b: bool)
    ensures
        page::value_text(EventValue::Text(s)) == s@,
        page::value_text(EventValue::Number(s)) == s@,
        page::value_text(EventValue::Nested(s)) == s@,
        page::value_text(EventValue::Null) == "null"@,
        page::value_text(EventValue::Bool(true)) == "true"@,
        page::value_text(EventValue::Bool(false)) == "false"@,
{
}

/// Who did something is told by name, or is the system; the app is told where there is one.
pub proof fn law_event_actors(ev: &AuditEvent, name: String, app: String)
    ensures
        page::actor_html(Some(name)) == html::escaped(name@),
        page::actor_html(None) == page::SYSTEM_ACTOR@,
        ev.app_id == Some(app) ==> page::app_detail_html(ev) == page::detail_pair_html(
            "App"@,
            html::escaped(app@),
        ),
        ev.app_id is None ==> page::app_detail_html(ev) == Seq::<char>::empty(),
{
}

/// Where the holes of the template stand, and the texts around them.
proof fn lemma_events_page() -> (at: (Seq<char>, Seq<int>))
    ensures
        at.0 == page::EVENTS_TABLE@,
        at.1 == seq![201int],
        at.0.len() == 218,
        markup::holes_at(at.0, at.1),
        at.0.subrange(194, 201) == "<tbody>"@,
        at.0.subrange(202, 210) == "</tbody>"@,
        "<tbody>"@.len() == 7,
        "</tbody>"@.len() == 8,
{
    reveal_strlit("<table class=\"users-table events-table\"><thead><tr><th class=\"col-time\">Time</th><th class=\"col-actor\">Actor</th><th class=\"col-event\">Event</th><th class=\"col-details\">Details</th></tr></thead><tbody>¤</tbody></table>");
    reveal_strlit("<tbody>");
    reveal_strlit("</tbody>");
    let tpl = page::EVENTS_TABLE@;
    let holes = seq![201int];
    assert(markup::hole_at(tpl, holes, 0));
    assert(tpl.subrange(194, 201) =~= "<tbody>"@);
    assert(tpl.subrange(202, 210) =~= "</tbody>"@);
    (tpl, holes)
}

/// The page of the events holds the toolbar with what is searched for, the rows and the paging.
pub proof fn law_events_page(
    ctx: &ChromeContext,
    events: Seq<AuditEvent>,
    now: &Timestamp,
    view: page::EventsText,
)
    ensures
        ({
            let out = page::events_page_html(ctx, events, now, view);
            &&& markup::shows(out, "<title>"@ + html::escaped("Events"@) + " · "@)
            &&& markup::shows(out, page::events_toolbar_html(view))
            &&& events.len() > 0 ==> markup::shows(out, "<tbody>"@ + page::event_rows_html(events, now) + "</tbody>"@)
            &&& markup::shows(
                out,
                page::events_pagination_bar_html(view.pagination, view.search, view.type_filter),
            )
        }),
{
    let (tpl, holes) = lemma_events_page();
    let parts = seq![page::event_rows_html(events, now)];
    let filtering = view.search.len() > 0 || view.type_filter.len() > 0;
    let top = page::events_toolbar_html(view);
    let bar = page::events_pagination_bar_html(view.pagination, view.search, view.type_filter);
    let table = if events.len() == 0 {
        html::template(page::NO_EVENTS@).html(
            if filtering {
                page::NO_MATCHING_EVENTS@
            } else {
                page::NO_EVENTS_YET@
            },
        ).done()
    } else {
        html::template(page::EVENTS_TABLE@).html(page::event_rows_html(events, now)).done()
    };
    let content = top + table + bar;
    let out = page::events_page_html(ctx, events, now, view);
    around::lemma_app_content(ctx, "Events"@, PageId::Events, content, true);
    assert(content =~= Seq::empty() + top + (table + bar));
    assert(content =~= top + table + bar);
    assert(content =~= (top + table) + bar + Seq::empty());
    markup::lemma_shows(Seq::empty(), top, table + bar);
    markup::lemma_shows(top, table, bar);
    markup::lemma_shows(top + table, bar, Seq::empty());
    markup::lemma_shows_inner(out, content, top);
    markup::lemma_shows_inner(out, content, table);
    markup::lemma_shows_inner(out, content, bar);
    if events.len() > 0 {
        assert(table == markup::filled(tpl, parts, 1).done()) by {
            reveal_with_fuel(markup::filled, 2);
        }
        markup::lemma_hole(tpl, holes, parts, 0, "<tbody>"@, "</tbody>"@);
        markup::lemma_shows_inner(
            out,
            table,
            "<tbody>"@ + page::event_rows_html(events, now) + "</tbody>"@,
        );
    }
}

/// Where the holes of the template stand, and the texts around them.
proof fn lemma_event_field() -> (at: (Seq<char>, Seq<int>))
    ensures
        at.0 == page::EVENT_FIELD@,
        at.1 == seq![29int, 39],
        at.0.len() == 40,
        markup::holes_at(at.0, at.1),
        at.0.subrange(0, 29) == "<span class=\"event-meta-key\">"@,
        at.0.subrange(30, 39) == ": </span>"@,
        "<span class=\"event-meta-key\">"@.len() == 29,
        ": </span>"@.len() == 9,
{
    reveal_strlit("<span class=\"event-meta-key\">¤: </span>¤");
    reveal_strlit("<span class=\"event-meta-key\">");
    reveal_strlit(": </span>");
    let tpl = page::EVENT_FIELD@;
    let holes = seq![29int, 39];
    assert(markup::hole_at(tpl, holes, 0));
    assert(markup::hole_at(tpl, holes, 1));
    assert(tpl.subrange(0, 29) =~= "<span class=\"event-meta-key\">"@);
    assert(tpl.subrange(30, 39) =~= ": </span>"@);
    (tpl, holes)
}

/// Every field of an event stands in its details, its value behind its key.
pub proof fn law_event_fields(fields: Seq<EventField>, i: int)
    requires
        0 <= i < fields.len(),
    ensures
        ({
            let out = page::event_fields_html(fields);
            &&& markup::shows(
                out,
                "<span class=\"event-meta-key\">"@ + (html::escaped(fields[i].key@) + ": </span>"@ + html::escaped(page::value_text(fields[i].value))),
            )
        }),
    decreases fields.len(),
{
    let out = page::event_fields_html(fields);
    let front = page::event_fields_html(fields.drop_last());
    if i == fields.len() - 1 {
        let (tpl, holes) = lemma_event_field();
        let parts = seq![
            html::escaped(fields[i].key@),
            html::escaped(page::value_text(fields[i].value)),
        ];
        let field = html::template(page::EVENT_FIELD@).text(fields.last().key@).text(
            page::value_text(fields.last().value),
        ).done();
        assert(field == markup::filled(tpl, parts, 2).done()) by {
            reveal_with_fuel(markup::filled, 3);
        }
        let before = if fields.len() > 1 {
            front + " · "@
        } else {
            front
        };
        assert(out =~= before + field + Seq::empty());
        markup::lemma_shows(before, field, Seq::empty());
        assert(tpl.subrange(40, 40) =~= Seq::<char>::empty());
        markup::lemma_two_holes(
            tpl,
            holes,
            parts,
            0,
            "<span class=\"event-meta-key\">"@,
            ": </span>"@,
            Seq::<char>::empty(),
        );
        assert("<span class=\"event-meta-key\">"@ + (parts[0] + ": </span>"@ + parts[1]) + Seq::<char>::empty() =~= "<span class=\"event-meta-key\">"@ + (parts[0] + ": </span>"@ + parts[1]));
        markup::lemma_shows_inner(
            out,
            field,
            "<span class=\"event-meta-key\">"@ + (html::escaped(fields[i].key@) + ": </span>"@ + html::escaped(page::value_text(fields[i].value))),
        );
    } else {
        law_event_fields(fields.drop_last(), i);
        assert(fields.drop_last()[i] == fields[i]);
        let field = html::template(page::EVENT_FIELD@).text(fields.last().key@).text(
            page::value_text(fields.last().value),
        ).done();
        assert(out =~= Seq::empty() + front + (" · "@ + field));
        markup::lemma_shows(Seq::empty(), front, " · "@ + field);
        markup::lemma_shows_inner(
            out,
            front,
            "<span class=\"event-meta-key\">"@ + (html::escaped(fields[i].key@) + ": </span>"@ + html::escaped(page::value_text(fields[i].value))),
        );
    }
}

/// Where the holes of the template stand, and the texts around them.
proof fn lemma_actor_detail() -> (at: (Seq<char>, Seq<int>))
    ensures
        at.0 == page::DETAIL_SUB@,
        at.1 == seq![34int],
        at.0.len() == 42,
        markup::holes_at(at.0, at.1),
        at.0.subrange(0, 34) == "<span class=\"event-detail-sub\"> · "@,
        at.0.subrange(35, 42) == "</span>"@,
        "<span class=\"event-detail-sub\"> · "@.len() == 34,
        "</span>"@.len() == 7,
{
    reveal_strlit("<span class=\"event-detail-sub\"> · ¤</span>");
    reveal_strlit("<span class=\"event-detail-sub\"> · ");
    reveal_strlit("</span>");
    let tpl = page::DETAIL_SUB@;
    let holes = seq![34int];
    assert(markup::hole_at(tpl, holes, 0));
    assert(tpl.subrange(0, 34) =~= "<span class=\"event-detail-sub\"> · "@);
    assert(tpl.subrange(35, 42) =~= "</span>"@);
    (tpl, holes)
}

/// Who did something is told by name and by identifier.
pub proof fn law_actor_detail(ev: &AuditEvent, id: Uuid)
    requires
        ev.actor_user_id == Some(id),
    ensures
        markup::shows(page::actor_detail_html(ev), page::actor_html(ev.actor_display_name)),
        markup::shows(
            page::actor_detail_html(ev),
            "<span class=\"event-detail-sub\"> · "@ + html::escaped(model::uuid_text(id)) + "</span>"@,
        ),
{
    let (tpl, holes) = lemma_actor_detail();
    let parts = seq![html::escaped(model::uuid_text(id))];
    let first = page::actor_html(ev.actor_display_name);
    let sub = markup::filled(tpl, parts, 1).done();
    let out = page::actor_detail_html(ev);
    assert(out =~= first + sub + Seq::empty()) by {
        reveal_with_fuel(markup::filled, 2);
    }
    assert(out =~= Seq::empty() + first + sub);
    markup::lemma_hole(tpl, holes, parts, 0, "<span class=\"event-detail-sub\"> · "@, "</span>"@);
    markup::lemma_shows(first, sub, Seq::empty());
    markup::lemma_shows_inner(
        out,
        sub,
        "<span class=\"event-detail-sub\"> · "@ + html::escaped(model::uuid_text(id)) + "</span>"@,
    );
}

/// Where the holes of the template stand, and the texts around them.
proof fn lemma_type_detail() -> (at: (Seq<char>, Seq<int>))
    ensures
        at.0 == page::DETAIL_SUB@,
        at.1 == seq![34int],
        at.0.len() == 42,
        markup::holes_at(at.0, at.1),
        at.0.subrange(0, 34) == "<span class=\"event-detail-sub\"> · "@,
        at.0.subrange(35, 42) == "</span>"@,
        "<span class=\"event-detail-sub\"> · "@.len() == 34,
        "</span>"@.len() == 7,
{
    reveal_strlit("<span class=\"event-detail-sub\"> · ¤</span>");
    reveal_strlit("<span class=\"event-detail-sub\"> · ");
    reveal_strlit("</span>");
    let tpl = page::DETAIL_SUB@;
    let holes = seq![34int];
    assert(markup::hole_at(tpl, holes, 0));
    assert(tpl.subrange(0, 34) =~= "<span class=\"event-detail-sub\"> · "@);
    assert(tpl.subrange(35, 42) =~= "</span>"@);
    (tpl, holes)
}

/// What was done is told in words and by its type.
pub proof fn law_type_detail(ev: &AuditEvent)
    ensures
        markup::shows(
            page::type_detail_html(ev),
            html::escaped(display::humanized(ev.event_type@)),
        ),
        markup::shows(
            page::type_detail_html(ev),
            "<span class=\"event-detail-sub\"> · "@ + html::escaped(ev.event_type@) + "</span>"@,
        ),
{
    let (tpl, holes) = lemma_type_detail();
    let parts = seq![html::escaped(ev.event_type@)];
    let first = html::escaped(display::humanized(ev.event_type@));
    let sub = markup::filled(tpl, parts, 1).done();
    let out = page::type_detail_html(ev);
    assert(out =~= first + sub + Seq::empty()) by {
        reveal_with_fuel(markup::filled, 2);
    }
    assert(out =~= Seq::empty() + first + sub);
    markup::lemma_hole(tpl, holes, parts, 0, "<span class=\"event-detail-sub\"> · "@, "</span>"@);
    markup::lemma_shows(first, sub, Seq::empty());
    markup::lemma_shows_inner(
        out,
        sub,
        "<span class=\"event-detail-sub\"> · "@ + html::escaped(ev.event_type@) + "</span>"@,
    );
}

} // verus!
