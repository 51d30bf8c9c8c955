//! The audit-log viewer.

use vstd::prelude::*;
use crate::flows::step;
use crate::flows::step::{Asked, Step};
use crate::forms;
use crate::forms::EventsPageQuery;
use crate::gate;
use crate::gate::Floor;
use crate::listing;
use crate::model::{AuditEvent, Timestamp};
use crate::reply;
use crate::reply::{error_response, Reply};
use crate::text;
use crate::views::events;
use crate::views::events::EventsView;
use crate::views::shell::ChromeContext;

verus! {

/// Which events are looked up.
pub struct EventFilter {
    pub event_type: Option<String>,
    pub search: Option<String>,
}

pub struct EventFilterView {
    pub event_type: Option<Seq<char>>,
    pub search: Option<Seq<char>>,
}

impl View for EventFilter {
    type V = EventFilterView;

    open spec fn view(&self) -> EventFilterView {
        EventFilterView {
            event_type: text::opt_string(self.event_type),
            search: text::opt_string(self.search),
        }
    }
}

pub open spec fn filter_of(q: &EventsPageQuery) -> EventFilterView {
    EventFilterView {
        event_type: forms::cleaned(q.event_type),
        search: forms::cleaned(q.q),
    }
}

fn read_filter(q: &EventsPageQuery) -> (r: EventFilter)
    ensures
        r@ == filter_of(q),
{
    EventFilter {
        event_type: forms::clean(text::copy(&q.event_type)),
        search: forms::clean(text::copy(&q.q)),
    }
}

/// What the viewer asks for.
pub enum EventsAsk {
    /// How many events pass the filter.
    Count(EventFilter),
    /// The events that pass the filter, newest first, `limit` of them from `offset` on.
    List { filter: EventFilter, limit: u32, offset: i64 },
    /// The event types that occur.
    Types,
}

pub enum EventsAskView {
    Count(EventFilterView),
    List { filter: EventFilterView, limit: u32, offset: i64 },
    Types,
}

impl View for EventsAsk {
    type V = EventsAskView;

    open spec fn view(&self) -> EventsAskView {
        match *self {
            EventsAsk::Count(filter) => EventsAskView::Count(filter@),
            EventsAsk::List { filter, limit, offset } => EventsAskView::List {
                filter: filter@,
                limit,
                offset,
            },
            EventsAsk::Types => EventsAskView::Types,
        }
    }
}

pub struct EventsAnswers {
    pub count: Asked<i64>,
    pub events: Asked<Vec<AuditEvent>>,
    /// The event types; empty where they could not be looked up.
    pub types: Option<Vec<String>>,
}

/// A counter of the store as a number of rows.
pub open spec fn rows_of(n: i64) -> u32 {
    if n < 0 {
        0
    } else {
        n as u32
    }
}

pub open spec fn events_step(
    ctx: &ChromeContext,
    q: &EventsPageQuery,
    a: &EventsAnswers,
    now: &Timestamp,
) -> step::StepView<EventsAskView> {
    let filter = filter_of(q);
    if !gate::reaches(ctx.user.instance_role, Floor::Admin) {
        step::replied(gate::too_low(ctx.site, Floor::Admin))
    } else {
        match a.count {
            Asked::NotYet => step::StepView::Ask(EventsAskView::Count(filter)),
            Asked::Failed => step::gave_up(ctx.site),
            Asked::Answer(n) => {
                let paging = listing::pagination_of(rows_of(n), q.page, q.rows);
                match a.events {
                    Asked::NotYet => step::StepView::Ask(
                        EventsAskView::List {
                            filter,
                            limit: paging.rows_per_page,
                            offset: listing::first_row(paging) as i64,
                        },
                    ),
                    Asked::Failed => step::gave_up(ctx.site),
                    Asked::Answer(rows) => match a.types {
                        None => step::StepView::Ask(EventsAskView::Types),
                        Some(types) => step::replied(
                            reply::ok_page(
                                events::events_page_html(
                                    ctx,
                                    rows@,
                                    now,
                                    events::EventsText {
                                        search: text::or_blank(filter.search),
                                        type_filter: text::or_blank(filter.event_type),
                                        types: types@,
                                        pagination: paging,
                                    },
                                ),
                            ),
                        ),
                    },
                }
            },
        }
    }
}

/// `GET /events`: a page of the audit log, filtered and searched, for admins and owners.
pub fn events_page(
    ctx: &ChromeContext,
    q: &EventsPageQuery,
    a: &EventsAnswers,
    now: &Timestamp,
) -> (r: Step<EventsAsk>)
    ensures
        r@ == events_step(ctx, q, a, now),
{
    match gate::require_admin(ctx.site, ctx.user.instance_role) {
        Ok(()) => {},
        Err(reply) => {
            return Step::replied(reply);
        },
    }
    let filter = read_filter(q);
    let n: i64 = match &a.count {
        Asked::NotYet => {
            return Step::Ask(EventsAsk::Count(filter));
        },
        Asked::Failed => {
            return Step::gave_up(ctx.site);
        },
        Asked::Answer(n) => *n,
    };
    let total: u32 = listing::row_count(n);
    let paging = listing::paginate(total, q.page, q.rows);
    let rows = match &a.events {
        Asked::NotYet => {
            proof {
                listing::law_page_in_table(total, q.page, q.rows);
            }
            let offset: i64 = (paging.current_page - 1) as i64 * paging.rows_per_page as i64;
            return Step::Ask(
                EventsAsk::List { filter, limit: paging.rows_per_page, offset },
            );
        },
        Asked::Failed => {
            return Step::gave_up(ctx.site);
        },
        Asked::Answer(rows) => rows,
    };
    match &a.types {
        None => Step::Ask(EventsAsk::Types),
        Some(types) => {
            let view = EventsView {
                search: text::blank_or(&filter.search),
                type_filter: text::blank_or(&filter.event_type),
                types: types.as_slice(),
                pagination: paging,
            };
            Step::replied(
                Reply::ok_page(events::events_page(ctx, rows.as_slice(), now, &view)),
            )
        },
    }
}

/// The events that are looked up are those of the shown page: as many as a page holds, from its
/// first row on, and none behind the last event.
pub proof fn law_events_offset(
    ctx: &ChromeContext,
    q: &EventsPageQuery,
    a: &EventsAnswers,
    now: &Timestamp,
    n: i64,
)
    requires
        a.count == Asked::Answer(n),
        0 <= n <= u32::MAX,
    ensures
        events_step(ctx, q, a, now) matches step::StepView::Ask(
            EventsAskView::List { limit, offset, .. },
        ) ==> limit == listing::rows_per_page_of(q.rows) && 0 <= offset <= n && (n > 0 ==> offset
            < n),
{
    assert(n as u32 == n);
    listing::law_page_in_table(n as u32, q.page, q.rows);
}

/// To look up the entry of a number.
#[derive(Clone, Copy, Debug, PartialEq, Eq, Structural)]
pub struct EventAt {
    pub seqno: i64,
}

impl View for EventAt {
    type V = EventAt;

    open spec fn view(&self) -> EventAt {
        *self
    }
}

pub open spec fn event_modal_step(
    ctx: &ChromeContext,
    seqno: i64,
    found: Asked<Option<AuditEvent>>,
) -> step::StepView<EventAt> {
    if !gate::reaches(ctx.user.instance_role, Floor::Admin) {
        step::replied(gate::too_low(ctx.site, Floor::Admin))
    } else {
        match found {
            Asked::NotYet => step::StepView::Ask(EventAt { seqno }),
            Asked::Failed => step::gave_up(ctx.site),
            Asked::Answer(None) => step::replied(
                reply::failure(ctx.site, 404, "Event not found."@),
            ),
            Asked::Answer(Some(event)) => step::replied(
                reply::ok_page(events::event_detail_modal_html(&event)),
            ),
        }
    }
}

/// `GET /events/{seqno}/modal`: one event with its data and its place in the hash chain.
pub fn event_detail_modal(
    ctx: &ChromeContext,
    seqno: i64,
    found: &Asked<Option<AuditEvent>>,
) -> (r: Step<EventAt>)
    ensures
        r@ == event_modal_step(ctx, seqno, *found),
{
    match gate::require_admin(ctx.site, ctx.user.instance_role) {
        Ok(()) => {},
        Err(reply) => {
            return Step::replied(reply);
        },
    }
    match found {
        Asked::NotYet => Step::Ask(EventAt { seqno }),
        Asked::Failed => Step::gave_up(ctx.site),
        Asked::Answer(None) => Step::replied(error_response(ctx.site, 404, "Event not found.")),
        Asked::Answer(Some(event)) => Step::replied(
            Reply::ok_page(events::event_detail_modal(event)),
        ),
    }
}

} // verus!
