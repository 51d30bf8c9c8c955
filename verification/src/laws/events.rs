//! The audit log.

use vstd::prelude::*;
use crate::flows::events;
use crate::flows::events::{EventAt, EventsAnswers, EventsAskView};
use crate::flows::step;
use crate::flows::step::Asked;
use crate::forms::EventsPageQuery;
use crate::laws::outcome;
use crate::listing;
use crate::model::{AuditEvent, Timestamp};
use crate::text;
use crate::views;
use crate::views::shell::ChromeContext;

verus! {

/// Whether a filter of the store stands for a field of a request: its text without the white space
/// around it, and none only where the field is missing or blank.
pub open spec fn stands_for(filter: Option<Seq<char>>, field: Option<String>) -> bool {
    match field {
        Some(t) => if text::trimmed(t@).len() > 0 {
            filter == Some(text::trimmed(t@))
        } else {
            filter is None
        },
        None => filter is None,
    }
}

/// Every question for a count or a list of events carries the type and the search of the request,
/// and the list that is asked for is the page of the request: its size, from its first row on.
pub proof fn law_events_are_filtered(
    ctx: &ChromeContext,
    q: &EventsPageQuery,
    a: &EventsAnswers,
    now: &Timestamp,
)
    ensures
        match events::events_step(ctx, q, a, now) {
            step::StepView::Ask(EventsAskView::Count(f)) => stands_for(f.event_type, q.event_type)
                && stands_for(f.search, q.q),
            step::StepView::Ask(EventsAskView::List { filter, limit, offset }) => {
                &&& stands_for(filter.event_type, q.event_type)
                &&& stands_for(filter.search, q.q)
                &&& limit == 10 || limit == 25 || limit == 50 || limit == 100
                &&& q.rows == Some(10u32) || q.rows == Some(25u32) || q.rows == Some(50u32)
                    || q.rows == Some(100u32) ==> q.rows == Some(limit)
                &&& q.page is None ==> offset == 0
            },
            _ => true,
        },
{
    let o = listing::rows_per_page_options();
    assert(o[0] == 10 && o[1] == 25 && o[2] == 50 && o[3] == 100);
    if let Asked::Answer(n) = a.count {
        listing::law_page_in_table(events::rows_of(n), q.page, q.rows);
    }
}

/// An admin gets the events: they are counted, then listed, then shown with the types there are;
/// nobody below an admin is told anything.
pub proof fn law_events_run(
    ctx: &ChromeContext,
    q: &EventsPageQuery,
    a: &EventsAnswers,
    now: &Timestamp,
    n: i64,
    rows: Vec<AuditEvent>,
)
    ensures
        ({
            let s = events::events_step(ctx, q, a, now);
            &&& !outcome::admin(ctx.user.instance_role) ==> s is Finish && outcome::has_status(
                s->Finish_0.reply,
                403,
            )
            &&& outcome::admin(ctx.user.instance_role) ==> {
                &&& a.count is NotYet ==> s is Ask && s->Ask_0 is Count
                &&& a.count == Asked::Answer(n) && a.events is NotYet ==> s is Ask && s->Ask_0 is List
                &&& a.count == Asked::Answer(n) && a.events == Asked::Answer(rows) && a.types
                    is None ==> s == step::StepView::<EventsAskView>::Ask(EventsAskView::Types)
                &&& a.count == Asked::Answer(n) && a.events == Asked::Answer(rows) && a.types
                    is Some ==> s is Finish && outcome::has_status(s->Finish_0.reply, 200)
                &&& a.count is Failed ==> s is Finish && outcome::has_status(
                    s->Finish_0.reply,
                    500,
                )
            }
        }),
{
}

/// The events that are listed are those of the page that is shown: so many as it has rows, behind
/// those of the pages before it.
pub proof fn law_events_of_the_page(
    ctx: &ChromeContext,
    q: &EventsPageQuery,
    a: &EventsAnswers,
    now: &Timestamp,
    n: u32,
)
    requires
        outcome::admin(ctx.user.instance_role),
        a.count == Asked::Answer(n as i64),
        a.events is NotYet,
    ensures
        ({
            let s = events::events_step(ctx, q, a, now);
            let p = listing::pagination_of(n, q.page, q.rows);
            &&& s is Ask && s->Ask_0 is List
            &&& s->Ask_0->limit == p.rows_per_page
            &&& s->Ask_0->offset == (p.current_page - 1) * p.rows_per_page
            &&& p.current_page == 1 ==> s->Ask_0->offset == 0
            &&& n > 0 ==> s->Ask_0->offset < n
        }),
{
    assert(n as i64 as u32 == n) by (bit_vector);
    let p = listing::pagination_of(n, q.page, q.rows);
    listing::law_page_in_table(n, q.page, q.rows);
    let at = listing::first_row(p);
    assert(0 <= at) by (nonlinear_arith)
        requires
            at == (p.current_page - 1) * p.rows_per_page,
            p.current_page >= 1,
    ;
    assert(p.current_page == 1 ==> at == 0) by (nonlinear_arith)
        requires
            at == (p.current_page - 1) * p.rows_per_page,
    ;
}

/// The page shows the events that were listed, under the filter that was asked for.
pub proof fn law_events_are_shown(
    ctx: &ChromeContext,
    q: &EventsPageQuery,
    a: &EventsAnswers,
    now: &Timestamp,
    n: u32,
    rows: Vec<AuditEvent>,
    types: Vec<String>,
    search: Seq<char>,
    event_type: Seq<char>,
)
    requires
        outcome::admin(ctx.user.instance_role),
        a.count == Asked::Answer(n as i64),
        a.events == Asked::Answer(rows),
        a.types == Some(types),
        stands_for(Some(search), q.q) || (search == Seq::<char>::empty() && stands_for(None, q.q)),
        stands_for(Some(event_type), q.event_type) || (event_type == Seq::<char>::empty()
            && stands_for(None, q.event_type)),
    ensures
        events::events_step(ctx, q, a, now) is Finish,
        outcome::is_page(
            events::events_step(ctx, q, a, now)->Finish_0.reply,
            200,
            views::events::events_page_html(
                ctx,
                rows@,
                now,
                views::events::EventsText {
                    search,
                    type_filter: event_type,
                    types: types@,
                    pagination: listing::pagination_of(n, q.page, q.rows),
                },
            ),
        ),
{
    assert(n as i64 as u32 == n) by (bit_vector);
}

/// The detail of an event is that of the entry with the number asked for, for admins only.
pub proof fn law_event_detail(
    ctx: &ChromeContext,
    seqno: i64,
    found: Asked<Option<AuditEvent>>,
    event: AuditEvent,
)
    ensures
        ({
            let s = events::event_modal_step(ctx, seqno, found);
            &&& !outcome::admin(ctx.user.instance_role) ==> s is Finish && outcome::has_status(
                s->Finish_0.reply,
                403,
            )
            &&& outcome::admin(ctx.user.instance_role) ==> {
                &&& found is NotYet ==> s == step::StepView::<EventAt>::Ask(EventAt { seqno })
                &&& found == Asked::Answer(None::<AuditEvent>) ==> s is Finish
                    && outcome::has_status(s->Finish_0.reply, 404)
                &&& found is Failed ==> s is Finish && outcome::has_status(s->Finish_0.reply, 500)
                &&& found == Asked::Answer(Some(event)) ==> s is Finish && outcome::is_page(
                    s->Finish_0.reply,
                    200,
                    views::events::event_detail_modal_html(&event),
                )
            }
        }),
{
}

} // verus!
