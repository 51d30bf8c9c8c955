//! The audit log.

use vstd::prelude::*;
use crate::display;
use crate::html;
use crate::html::{Markup, Template};
use crate::json;
use crate::listing;
use crate::listing::{PageItem, PaginationState};
use crate::model;
use crate::model::{AuditEvent, EventData, EventField, EventValue, Timestamp};
use crate::text;
use crate::views::members;
use crate::views::shell;
use crate::views::shell::{ChromeContext, PageId};
use crate::views::icons::{
    CHEVRON_DOUBLE_LEFT_ICON, CHEVRON_DOUBLE_RIGHT_ICON, CHEVRON_DOWN_ICON, CHEVRON_LEFT_ICON,
    CHEVRON_RIGHT_ICON, CLOSE_ICON,
};
use crate::views::members::ELLIPSIS;
use crate::views::pending::MUTED_DASH;

verus! {

/// What the audit log shows: the search and filter in force and the paging.
pub struct EventsView<'a> {
    /// Free-text search; empty for none.
    pub search: &'a str,
    /// Event type; empty for all.
    pub type_filter: &'a str,
    /// The event types that occur.
    pub types: &'a [String],
    pub pagination: PaginationState,
}

/// The content of an [`EventsView`].
pub struct EventsText {
    pub search: Seq<char>,
    pub type_filter: Seq<char>,
    pub types: Seq<String>,
    pub pagination: PaginationState,
}

impl<'a> View for EventsView<'a> {
    type V = EventsText;

    open spec fn view(&self) -> EventsText {
        EventsText {
            search: self.search@,
            type_filter: self.type_filter@,
            types: self.types@,
            pagination: self.pagination,
        }
    }
}

/// The address of a page of the audit log that keeps the search and the filter.
pub open spec fn events_url_of(search: Seq<char>, type_filter: Seq<char>, page: u32, rows: u32) -> Seq<char> {
    let base = "/events?page="@ + text::decimal(page as nat) + "&rows="@ + text::decimal(rows as nat);
    let searched = if search.len() > 0 {
        base + "&q="@ + display::query_text(search)
    } else {
        base
    };
    if type_filter.len() > 0 {
        searched + "&type="@ + display::query_text(type_filter)
    } else {
        searched
    }
}

pub fn events_url(search: &str, type_filter: &str, page: u32, rows: u32) -> (r: String)
    ensures
        r@ == events_url_of(search@, type_filter@, page, rows),
{
    let p = text::decimal_string(page as u64);
    let n = text::decimal_string(rows as u64);
    let mut url = text::join("/events?page=", p.as_str()).concat("&rows=").concat(n.as_str());
    if !search.is_empty() {
        let q = display::query_encode(search);
        url = url.concat("&q=").concat(q.as_str());
    }
    if !type_filter.is_empty() {
        let t = display::query_encode(type_filter);
        url = url.concat("&type=").concat(t.as_str());
    }
    url
}

/// A value of the event data on one line: text as it is, everything else as JSON.
pub open spec fn value_text(value: EventValue) -> Seq<char> {
    match value {
        EventValue::Text(s) => s@,
        EventValue::Null => "null"@,
        EventValue::Bool(b) => if b {
            "true"@
        } else {
            "false"@
        },
        EventValue::Number(n) => n@,
        EventValue::Nested(json) => json@,
    }
}

pub fn value_compact(value: &EventValue) -> (r: &str)
    ensures
        r@ == value_text(*value),
{
    match value {
        EventValue::Text(s) => s.as_str(),
        EventValue::Null => "null",
        EventValue::Bool(b) => if *b {
            "true"
        } else {
            "false"
        },
        EventValue::Number(n) => n.as_str(),
        EventValue::Nested(json) => json.as_str(),
    }
}

pub const EVENT_FIELD: &'static str = "<span class=\"event-meta-key\">¤: </span>¤";

pub const EVENT_META: &'static str = "<span class=\"event-meta\">¤</span>";

/// The fields of the event data, separated by dots.
pub open spec fn event_fields_html(fields: Seq<EventField>) -> Seq<char>
    decreases fields.len(),
{
    if fields.len() == 0 {
        Seq::empty()
    } else {
        let front = event_fields_html(fields.drop_last());
        let field = html::template(EVENT_FIELD@)
            .text(fields.last().key@)
            .text(value_text(fields.last().value))
            .done();
        if fields.len() > 1 {
            front + " · "@ + field
        } else {
            front + field
        }
    }
}

fn event_fields(fields: &Vec<EventField>) -> (m: Markup)
    ensures
        m@ == event_fields_html(fields@),
{
    let mut out = Markup::empty();
    let mut i: usize = 0;
    while i < fields.len()
        invariant
            i <= fields@.len(),
            out@ == event_fields_html(fields@.take(i as int)),
        decreases fields@.len() - i,
    {
        let field = Template::new(EVENT_FIELD)
            .text(fields[i].key.as_str())
            .text(value_compact(&fields[i].value))
            .done();
        if i > 0 {
            out = out.then_html(&Markup::raw(" · "));
        }
        out = out.then_html(&field);
        i += 1;
        assert(fields@.take(i as int).drop_last() =~= fields@.take(i - 1));
    }
    assert(fields@.take(i as int) =~= fields@);
    out
}

/// The event data on one line; a dash where there is none to show.
pub open spec fn event_details_html(data: EventData) -> Seq<char> {
    match data {
        EventData::Object(fields) => if fields@.len() > 0 {
            html::template(EVENT_META@).html(event_fields_html(fields@)).done()
        } else {
            MUTED_DASH@
        },
        EventData::Other => MUTED_DASH@,
    }
}

fn event_details(data: &EventData) -> (m: Markup)
    ensures
        m@ == event_details_html(*data),
{
    match data {
        EventData::Object(fields) => if fields.len() > 0 {
            let inner = event_fields(fields);
            Template::new(EVENT_META).html(&inner).done()
        } else {
            Markup::raw(MUTED_DASH)
        },
        EventData::Other => Markup::raw(MUTED_DASH),
    }
}

pub const SYSTEM_ACTOR: &'static str = "<span class=\"event-actor-system\">System</span>";

/// Who caused an event; the system where nobody did.
pub open spec fn actor_html(name: Option<String>) -> Seq<char> {
    match name {
        Some(n) => html::escaped(n@),
        None => SYSTEM_ACTOR@,
    }
}

fn actor(name: &Option<String>) -> (m: Markup)
    ensures
        m@ == actor_html(*name),
{
    match name {
        Some(n) => Markup::text(n.as_str()),
        None => Markup::raw(SYSTEM_ACTOR),
    }
}

pub const EVENT_ROW: &'static str = "\
    <tr class=\"events-row\" data-open-modal=\"/events/¤/modal\">\
      <td class=\"col-time\" title=\"¤\">¤</td>\
      <td class=\"col-actor\">¤</td>\
      <td class=\"col-event\" title=\"¤\">¤</td>\
      <td class=\"col-details\">¤</td>\
    </tr>";

/// The HTML of [`event_row`].
pub open spec fn event_row_html(ev: &AuditEvent, now: &Timestamp) -> Seq<char> {
    html::template(EVENT_ROW@)
        .num(ev.seqno as int)
        .date(ev.occurred_at@, model::SECOND@)
        .text(display::relative(ev.occurred_at@, now@))
        .html(actor_html(ev.actor_display_name))
        .text(ev.event_type@)
        .text(display::humanized(ev.event_type@))
        .html(event_details_html(ev.event_data))
        .done()
}

/// One event: when it happened, who caused it, what it was and its data.
fn event_row(ev: &AuditEvent, now: &Timestamp) -> (m: Markup)
    ensures
        m@ == event_row_html(ev, now),
{
    Template::new(EVENT_ROW)
        .num(ev.seqno as i64)
        .date(&ev.occurred_at, model::SECOND)
        .text(display::relative_time(&ev.occurred_at, now).as_str())
        .html(&actor(&ev.actor_display_name))
        .text(ev.event_type.as_str())
        .text(display::humanize_event_type(ev.event_type.as_str()).as_str())
        .html(&event_details(&ev.event_data))
        .done()
}

pub open spec fn event_rows_html(events: Seq<AuditEvent>, now: &Timestamp) -> Seq<char>
    decreases events.len(),
{
    if events.len() == 0 {
        Seq::empty()
    } else {
        let ev = events.last();
        event_rows_html(events.drop_last(), now) + event_row_html(&ev, now)
    }
}

fn event_rows(events: &[AuditEvent], now: &Timestamp) -> (m: Markup)
    ensures
        m@ == event_rows_html(events@, now),
{
    let mut out = Markup::empty();
    let mut i: usize = 0;
    while i < events.len()
        invariant
            i <= events@.len(),
            out@ == event_rows_html(events@.take(i as int), now),
        decreases events@.len() - i,
    {
        let ev = &events[i];
        let row = event_row(ev, now);
        out = out.then_html(&row);
        i += 1;
        assert(events@.take(i as int).drop_last() =~= events@.take(i - 1));
    }
    assert(events@.take(i as int) =~= events@);
    out
}

pub const TYPE_OPTION: &'static str = "<option value=\"¤\"¤>¤</option>";

/// One event type to choose.
pub open spec fn type_option_html(t: Seq<char>, selected: Seq<char>) -> Seq<char> {
    html::template(TYPE_OPTION@)
        .text(t)
        .when(t == selected, " selected"@)
        .text(display::humanized(t))
        .done()
}

fn type_option(t: &str, selected: &str) -> (m: Markup)
    ensures
        m@ == type_option_html(t@, selected@),
{
    let label = display::humanize_event_type(t);
    Template::new(TYPE_OPTION)
        .text(t)
        .when(text::same(t, selected), " selected")
        .text(label.as_str())
        .done()
}

pub open spec fn type_options_html(types: Seq<String>, selected: Seq<char>) -> Seq<char>
    decreases types.len(),
{
    if types.len() == 0 {
        Seq::empty()
    } else {
        let t = types.last();
        type_options_html(types.drop_last(), selected) + type_option_html(t@, selected)
    }
}

fn type_options(types: &[String], selected: &str) -> (m: Markup)
    ensures
        m@ == type_options_html(types@, selected@),
{
    let mut out = Markup::empty();
    let mut i: usize = 0;
    while i < types.len()
        invariant
            i <= types@.len(),
            out@ == type_options_html(types@.take(i as int), selected@),
        decreases types@.len() - i,
    {
        let t = &types[i];
        let row = type_option(t.as_str(), selected);
        out = out.then_html(&row);
        i += 1;
        assert(types@.take(i as int).drop_last() =~= types@.take(i - 1));
    }
    assert(types@.take(i as int) =~= types@);
    out
}

pub const EVENTS_TOOLBAR: &'static str = "\
    <form method=\"get\" action=\"/events\" class=\"users-toolbar events-toolbar\">\
      <input type=\"search\" name=\"q\" value=\"¤\" class=\"users-search\" placeholder=\"Search \
        events…\" autocomplete=\"off\" aria-label=\"Search events\">\
      <select name=\"type\" class=\"settings-select events-type-select\" aria-label=\"Filter \
        by event type\">\
        <option value=\"\"¤>All event types</option>¤\
      </select>\
      <input type=\"hidden\" name=\"rows\" value=\"¤\">\
      <button type=\"submit\" class=\"btn-secondary\">Apply</button>\
    </form>";

/// The HTML of [`events_toolbar`].
pub open spec fn events_toolbar_html(view: EventsText) -> Seq<char> {
    html::template(EVENTS_TOOLBAR@)
        .text(view.search)
        .when(view.type_filter.len() == 0, " selected"@)
        .html(type_options_html(view.types, view.type_filter))
        .num(view.pagination.rows_per_page as int)
        .done()
}

/// The search and filter of the audit log.
fn events_toolbar(view: &EventsView) -> (m: Markup)
    ensures
        m@ == events_toolbar_html(view@),
{
    Template::new(EVENTS_TOOLBAR)
        .text(view.search)
        .when(view.type_filter.is_empty(), " selected")
        .html(&type_options(view.types, view.type_filter))
        .num(view.pagination.rows_per_page as i64)
        .done()
}

/// The page numbers of the audit log.
pub open spec fn page_slots_html(
    items: Seq<PageItem>,
    search: Seq<char>,
    type_filter: Seq<char>,
    rows: u32,
    cur: u32,
) -> Seq<char>
    decreases items.len(),
{
    if items.len() == 0 {
        Seq::empty()
    } else {
        page_slots_html(items.drop_last(), search, type_filter, rows, cur) + (match items.last() {
            PageItem::Number(n) => members::pagination_number_html(
                events_url_of(search, type_filter, n, rows),
                n,
                n == cur,
            ),
            PageItem::Ellipsis => ELLIPSIS@,
        })
    }
}

fn page_slots(items: &Vec<PageItem>, search: &str, type_filter: &str, rows: u32, cur: u32) -> (m: Markup)
    ensures
        m@ == page_slots_html(items@, search@, type_filter@, rows, cur),
{
    let mut out = Markup::empty();
    let mut i: usize = 0;
    while i < items.len()
        invariant
            i <= items@.len(),
            out@ == page_slots_html(items@.take(i as int), search@, type_filter@, rows, cur),
        decreases items@.len() - i,
    {
        let slot = match items[i] {
            PageItem::Number(n) => members::pagination_number(
                events_url(search, type_filter, n, rows).as_str(),
                n,
                n == cur,
            ),
            PageItem::Ellipsis => Markup::raw(ELLIPSIS),
        };
        out = out.then_html(&slot);
        i += 1;
        assert(items@.take(i as int).drop_last() =~= items@.take(i - 1));
    }
    assert(items@.take(i as int) =~= items@);
    out
}

/// The page sizes to choose.
pub open spec fn rows_options_html(options: Seq<u32>, search: Seq<char>, type_filter: Seq<char>, rows: u32) -> Seq<char>
    decreases options.len(),
{
    if options.len() == 0 {
        Seq::empty()
    } else {
        let option = options.last();
        rows_options_html(options.drop_last(), search, type_filter, rows) + members::rows_option_html(
            events_url_of(search, type_filter, 1, option),
            option,
            option == rows,
        )
    }
}

fn rows_options(options: &Vec<u32>, search: &str, type_filter: &str, rows: u32) -> (m: Markup)
    ensures
        m@ == rows_options_html(options@, search@, type_filter@, rows),
{
    let mut out = Markup::empty();
    let mut i: usize = 0;
    while i < options.len()
        invariant
            i <= options@.len(),
            out@ == rows_options_html(options@.take(i as int), search@, type_filter@, rows),
        decreases options@.len() - i,
    {
        let option: u32 = options[i];
        let href = events_url(search, type_filter, 1, option);
        out = out.then_html(&members::rows_option(href.as_str(), option, option == rows));
        i += 1;
        assert(options@.take(i as int).drop_last() =~= options@.take(i - 1));
    }
    assert(options@.take(i as int) =~= options@);
    out
}

pub const EVENTS_PAGINATION_BAR: &'static str = "\
    <nav class=\"pagination-bar\" aria-label=\"Pagination\">\
      <form method=\"get\" action=\"/events\" class=\"pagination-jump\">\
        <label class=\"pagination-jump-label\" for=\"page-jump\">Page</label>\
        <input type=\"number\" id=\"page-jump\" name=\"page\" class=\"pagination-jump-input\" \
          value=\"¤\" min=\"1\" max=\"¤\">\
        <span class=\"pagination-jump-of\">of ¤</span>\
        <input type=\"hidden\" name=\"q\" value=\"¤\">\
        <input type=\"hidden\" name=\"type\" value=\"¤\">\
        <input type=\"hidden\" name=\"rows\" value=\"¤\">\
      </form>\
      <div class=\"pagination-numbers\">¤¤¤¤¤</div>\
      <div class=\"pagination-rows\">\
        <span class=\"pagination-rows-label\">Rows per page</span>\
        <details class=\"filter-menu pagination-rows-menu\">\
          <summary class=\"filter-trigger pagination-rows-trigger\">\
            <span class=\"filter-trigger-value\">¤</span>¤\
          </summary>\
          <div class=\"filter-menu-list\">¤</div>\
        </details>\
      </div>\
    </nav>";

/// The HTML of [`events_pagination_bar`].
pub open spec fn events_pagination_bar_html(
    state: PaginationState,
    search: Seq<char>,
    type_filter: Seq<char>,
) -> Seq<char> {
    let cur = state.current_page;
    let total = state.total_pages;
    let rows = state.rows_per_page;
    let at_first = cur <= 1;
    let at_last = cur >= total;
    let prev_page = members::previous_page(cur);
    let next_page = members::following_page(cur, total);
    html::template(EVENTS_PAGINATION_BAR@)
        .num(cur as int)
        .num(total as int)
        .num(total as int)
        .text(search)
        .text(type_filter)
        .num(rows as int)
        .html(members::pagination_step_html(
            events_url_of(search, type_filter, 1, rows),
            at_first,
            "first"@,
            CHEVRON_DOUBLE_LEFT_ICON@,
        ))
        .html(members::pagination_step_html(
            events_url_of(search, type_filter, prev_page, rows),
            at_first,
            "previous"@,
            CHEVRON_LEFT_ICON@,
        ))
        .html(page_slots_html(listing::page_slots(cur, total), search, type_filter, rows, cur))
        .html(members::pagination_step_html(
            events_url_of(search, type_filter, next_page, rows),
            at_last,
            "next"@,
            CHEVRON_RIGHT_ICON@,
        ))
        .html(members::pagination_step_html(
            events_url_of(search, type_filter, total, rows),
            at_last,
            "last"@,
            CHEVRON_DOUBLE_RIGHT_ICON@,
        ))
        .num(rows as int)
        .html(CHEVRON_DOWN_ICON@)
        .html(rows_options_html(listing::rows_per_page_options(), search, type_filter, rows))
        .done()
}

/// The foot of the audit log: page jump, page numbers and page size.
fn events_pagination_bar(state: PaginationState, search: &str, type_filter: &str) -> (m: Markup)
    ensures
        m@ == events_pagination_bar_html(state, search@, type_filter@),
{
    let cur: u32 = state.current_page;
    let total: u32 = state.total_pages;
    let rows: u32 = state.rows_per_page;
    let at_first: bool = cur <= 1;
    let at_last: bool = cur >= total;
    let prev_page: u32 = if cur <= 2 { 1 } else { cur - 1 };
    let next_page: u32 = if total > 0 && cur < total - 1 { cur + 1 } else { total };
    let items = listing::page_items(cur, total);
    let options = listing::rows_options();
    Template::new(EVENTS_PAGINATION_BAR)
        .num(cur as i64)
        .num(total as i64)
        .num(total as i64)
        .text(search)
        .text(type_filter)
        .num(rows as i64)
        .html(&members::pagination_step(
            events_url(search, type_filter, 1, rows).as_str(),
            at_first,
            "first",
            &Markup::raw(CHEVRON_DOUBLE_LEFT_ICON),
        ))
        .html(&members::pagination_step(
            events_url(search, type_filter, prev_page, rows).as_str(),
            at_first,
            "previous",
            &Markup::raw(CHEVRON_LEFT_ICON),
        ))
        .html(&page_slots(&items, search, type_filter, rows, cur))
        .html(&members::pagination_step(
            events_url(search, type_filter, next_page, rows).as_str(),
            at_last,
            "next",
            &Markup::raw(CHEVRON_RIGHT_ICON),
        ))
        .html(&members::pagination_step(
            events_url(search, type_filter, total, rows).as_str(),
            at_last,
            "last",
            &Markup::raw(CHEVRON_DOUBLE_RIGHT_ICON),
        ))
        .num(rows as i64)
        .raw(CHEVRON_DOWN_ICON)
        .html(&rows_options(&options, search, type_filter, rows))
        .done()
}

pub const NO_EVENTS: &'static str = "\
    <div class=\"card\">\
      <p class=\"muted\">¤</p>\
    </div>";

pub const NO_MATCHING_EVENTS: &'static str = "No events match these filters.";

pub const NO_EVENTS_YET: &'static str = "No events recorded yet.";

pub const EVENTS_TABLE: &'static str = "\
    <table class=\"users-table events-table\">\
      <thead>\
        <tr>\
          <th class=\"col-time\">Time</th>\
          <th class=\"col-actor\">Actor</th>\
          <th class=\"col-event\">Event</th>\
          <th class=\"col-details\">Details</th>\
        </tr>\
      </thead>\
      <tbody>¤</tbody>\
    </table>";

/// The HTML of [`events_page`].
pub open spec fn events_page_html(
    ctx: &ChromeContext,
    events: Seq<AuditEvent>,
    now: &Timestamp,
    view: EventsText,
) -> Seq<char> {
    let filtering = view.search.len() > 0 || view.type_filter.len() > 0;
    let content = events_toolbar_html(view) + (if events.len() == 0 {
        html::template(NO_EVENTS@)
            .html(if filtering {
                NO_MATCHING_EVENTS@
            } else {
                NO_EVENTS_YET@
            })
            .done()
    } else {
        html::template(EVENTS_TABLE@)
            .html(event_rows_html(events, now))
            .done()
    }) + events_pagination_bar_html(view.pagination, view.search, view.type_filter);
    shell::shell_app_wide_html(ctx, "Events"@, PageId::Events, content)
}

/// `GET /events`: one page of the audit log, newest first.
pub fn events_page(
    ctx: &ChromeContext,
    events: &[AuditEvent],
    now: &Timestamp,
    view: &EventsView,
) -> (m: Markup)
    ensures
        m@ == events_page_html(ctx, events@, now, view@),
{
    let filtering: bool = !view.search.is_empty() || !view.type_filter.is_empty();
    let content = events_toolbar(view)
        .then_html(&(if events.len() == 0 {
            Template::new(NO_EVENTS)
                .html(&if filtering {
                    Markup::raw(NO_MATCHING_EVENTS)
                } else {
                    Markup::raw(NO_EVENTS_YET)
                })
                .done()
        } else {
            Template::new(EVENTS_TABLE)
                .html(&event_rows(events, now))
                .done()
        }))
        .then_html(&events_pagination_bar(view.pagination, view.search, view.type_filter));
    shell::shell_app_wide(ctx, "Events", PageId::Events, &content)
}

pub const DETAIL_PAIR: &'static str = "\
    <div class=\"event-detail-pair\">\
      <span class=\"event-detail-label\">¤</span>\
      <span class=\"event-detail-value\">¤</span>\
    </div>";

/// The HTML of [`detail_pair`].
pub open spec fn detail_pair_html(label: Seq<char>, value: Seq<char>) -> Seq<char> {
    html::template(DETAIL_PAIR@)
        .text(label)
        .html(value)
        .done()
}

/// A label and a value in a detail dialog.
pub fn detail_pair(label: &str, value: &Markup) -> (m: Markup)
    ensures
        m@ == detail_pair_html(label@, value@),
{
    Template::new(DETAIL_PAIR)
        .text(label)
        .html(value)
        .done()
}

pub const DETAIL_SUB: &'static str = "<span class=\"event-detail-sub\"> · ¤</span>";

/// Who caused an event, with their identifier.
pub open spec fn actor_detail_html(ev: &AuditEvent) -> Seq<char> {
    actor_html(ev.actor_display_name) + (match ev.actor_user_id {
        Some(id) => html::template(DETAIL_SUB@).uuid(id).done(),
        None => Seq::empty(),
    })
}

fn actor_detail(ev: &AuditEvent) -> (m: Markup)
    ensures
        m@ == actor_detail_html(ev),
{
    let id = match ev.actor_user_id {
        Some(id) => Template::new(DETAIL_SUB).uuid(id).done(),
        None => Markup::empty(),
    };
    actor(&ev.actor_display_name).then_html(&id)
}

/// What an event was, with its raw type.
pub open spec fn type_detail_html(ev: &AuditEvent) -> Seq<char> {
    html::escaped(display::humanized(ev.event_type@)) + html::template(DETAIL_SUB@).text(ev.event_type@).done()
}

fn type_detail(ev: &AuditEvent) -> (m: Markup)
    ensures
        m@ == type_detail_html(ev),
{
    let label = display::humanize_event_type(ev.event_type.as_str());
    let raw = Template::new(DETAIL_SUB).text(ev.event_type.as_str()).done();
    Markup::text(label.as_str()).then_html(&raw)
}

/// The app an event belongs to, where it belongs to one.
pub open spec fn app_detail_html(ev: &AuditEvent) -> Seq<char> {
    match ev.app_id {
        Some(app) => detail_pair_html("App"@, html::escaped(app@)),
        None => Seq::empty(),
    }
}

fn app_detail(ev: &AuditEvent) -> (m: Markup)
    ensures
        m@ == app_detail_html(ev),
{
    match &ev.app_id {
        Some(app) => detail_pair("App", &Markup::text(app.as_str())),
        None => Markup::empty(),
    }
}

pub const EVENT_DETAIL_MODAL: &'static str = "\
    <dialog id=\"dlg-event-detail\" class=\"action-dialog\">\
      <div class=\"dialog-header\">\
        <h2>Event #¤</h2>\
        <button type=\"button\" class=\"dialog-close\" data-close-dialog \
          aria-label=\"Close\">¤</button>\
      </div>\
      <div class=\"event-detail\">¤¤¤¤</div>\
      <div class=\"event-detail-block\">\
        <span class=\"event-detail-label\">Data</span>\
        <pre class=\"event-detail-json\">¤</pre>\
      </div>\
      <div class=\"event-detail-block\">\
        <span class=\"event-detail-label\">Chain</span>\
        <div class=\"event-hash-row\">\
          <span class=\"event-hash-key\">seqno</span>\
          <span class=\"event-hash-val\">¤</span>\
        </div>\
        <div class=\"event-hash-row\">\
          <span class=\"event-hash-key\">prev_hash</span>\
          <span class=\"event-hash-val\">¤</span>\
        </div>\
        <div class=\"event-hash-row\">\
          <span class=\"event-hash-key\">hash</span>\
          <span class=\"event-hash-val\">¤</span>\
        </div>\
      </div>\
      <div class=\"dialog-actions\">\
        <button type=\"button\" class=\"btn\" data-close-dialog>Close</button>\
      </div>\
    </dialog>";

/// The HTML of [`event_detail_modal`].
pub open spec fn event_detail_modal_html(ev: &AuditEvent) -> Seq<char> {
    html::template(EVENT_DETAIL_MODAL@)
        .num(ev.seqno as int)
        .html(CLOSE_ICON@)
        .html(detail_pair_html(
            "Time"@,
            html::escaped(model::date_text(ev.occurred_at@, model::MILLISECOND@)),
        ))
        .html(detail_pair_html("Actor"@, actor_detail_html(ev)))
        .html(detail_pair_html("Event"@, type_detail_html(ev)))
        .html(app_detail_html(ev))
        .text(json::readable(json::indented(ev.event_json@), ev.event_json@))
        .num(ev.seqno as int)
        .text(display::hex_text(ev.prev_hash@))
        .text(display::hex_text(ev.hash@))
        .done()
}

/// The detail dialog of an event: its data in full and its place in the hash chain.
pub fn event_detail_modal(ev: &AuditEvent) -> (m: Markup)
    ensures
        m@ == event_detail_modal_html(ev),
{
    Template::new(EVENT_DETAIL_MODAL)
        .num(ev.seqno as i64)
        .raw(CLOSE_ICON)
        .html(&detail_pair(
            "Time",
            &Markup::text(ev.occurred_at.format(model::MILLISECOND).as_str()),
        ))
        .html(&detail_pair("Actor", &actor_detail(ev)))
        .html(&detail_pair("Event", &type_detail(ev)))
        .html(&app_detail(ev))
        .text(json::pretty(ev.event_json.as_str()).as_str())
        .num(ev.seqno as i64)
        .text(display::hex_encode(&ev.prev_hash).as_str())
        .text(display::hex_encode(&ev.hash).as_str())
        .done()
}

} // verus!
