//! Replies and the checks in front of an action.

use vstd::prelude::*;
use crate::audit;
use crate::audit::{EntryView, FieldValueView};
use crate::flows::step;
use crate::gate;
use crate::gate::{Caller, Floor};
use crate::html;
use crate::laws::markup;
use crate::laws::outcome;
use crate::laws::pages::shell as around;
use crate::model;
use crate::model::{InstanceRole, Uuid};
use crate::reply;
use crate::toast;
use crate::toast::{ToastKind, ToastText};
use crate::views::shell;
use crate::views::shell::{ChromeContext, PageId, SiteInfo};

verus! {

// ---- Replies ---------------------------------------------------------------------------------

/// A reply that moves the browser leads to the address, sets no cookie and tells nothing by itself.
pub proof fn law_moving(url: Seq<char>, htmx: bool)
    ensures
        outcome::leads_to(reply::moved(url, htmx), url, htmx),
        reply::moved(url, htmx).hx_trigger is None,
        reply::moved(url, htmx).hx_retarget is None,
        reply::moved(url, htmx).cookies.len() == 0,
{
}

/// After an action the browser is moved and told of it by the name of its target, or of the member
/// at large; after a failure it is moved and told why. Both are told under HTMX alone.
pub proof fn law_moving_after(
    url: Seq<char>,
    htmx: bool,
    action: Seq<char>,
    name: Seq<char>,
    code: Seq<char>,
    t: ToastText,
)
    requires
        toast::action_toast(action, name) == Some(t),
    ensures
        outcome::leads_to(reply::moved_after(url, htmx, action, Some(name)), url, htmx),
        outcome::tells(
            reply::moved_after(url, htmx, action, Some(name)),
            htmx,
            t.kind,
            t.title,
            t.message,
        ),
        reply::moved_after(url, htmx, action, None) == reply::moved_after(
            url,
            htmx,
            action,
            Some("This member"@),
        ),
        outcome::leads_to(reply::moved_failing(url, htmx, code), url, htmx),
        outcome::tells(
            reply::moved_failing(url, htmx, code),
            htmx,
            ToastKind::Error,
            "Action failed"@,
            toast::error_text(code),
        ),
{
}

/// After a change to their own account users are moved to it and told of the change, whether or not
/// HTMX asked.
pub proof fn law_moving_to_oneself(htmx: bool, action: Seq<char>, code: Seq<char>, t: ToastText)
    requires
        toast::action_toast(action, "This member"@) == Some(t),
    ensures
        outcome::leads_to(reply::me_after(htmx, action), "/me"@, htmx),
        outcome::tells(reply::me_after(htmx, action), true, t.kind, t.title, t.message),
        outcome::leads_to(reply::me_failing(htmx, code), "/me"@, htmx),
        outcome::tells(
            reply::me_failing(htmx, code),
            true,
            ToastKind::Error,
            "Action failed"@,
            toast::error_text(code),
        ),
{
}

/// A failure is a page with its status that says the status and the message.
pub proof fn law_failures(site: &SiteInfo, status: u16, message: Seq<char>)
    ensures
        outcome::has_status(reply::failure(site, status, message), status),
        reply::failure(site, status, message).content->Page_html == shell::error_page_html(
            site,
            status,
            message,
        ),
        reply::failure(site, status, message).cookies.len() == 0,
        reply::internal_failure(site) == reply::failure(site, 500, "Internal error"@),
        outcome::is_page(reply::ok_page(message), 200, message),
        outcome::is_page(reply::page_with(status, message), status, message),
{
}

/// A cookie is set where a header can hold it, beside those that are set already or in their place.
pub proof fn law_setting_cookies(r: reply::ReplyView, cookie: Seq<char>)
    ensures
        reply::header_text(cookie) ==> r.with_cookie(cookie).cookies == r.cookies + seq![cookie],
        reply::header_text(cookie) ==> r.only_cookie(cookie).cookies == seq![cookie],
        !reply::header_text(cookie) ==> r.with_cookie(cookie) == r && r.only_cookie(cookie) == r,
        r.with_cookie(cookie).content == r.content,
        r.only_cookie(cookie).content == r.content,
        r.with_cookie(cookie).hx_redirect == r.hx_redirect,
        r.with_cookie(cookie).hx_trigger == r.hx_trigger,
{
    assert(r.cookies.push(cookie) =~= r.cookies + seq![cookie]);
}

/// A step that gives up shows an internal failure and logs nothing; a failed attempt counts under its
/// key and logs its entry.
pub proof fn law_giving_up(
    site: &SiteInfo,
    key: Seq<char>,
    entry: Option<EntryView>,
    r: reply::ReplyView,
)
    ensures
        outcome::ends_with(step::gave_up::<Uuid>(site), reply::internal_failure(site)),
        outcome::ends_with(step::replied::<Uuid>(r), r),
        step::attempt_failed::<Uuid>(key, entry, r) == step::StepView::<Uuid>::Finish(
            step::FinishView { record_failure: Some(key), audit: entry, reply: r },
        ),
{
}

/// Where the holes of the template stand, and the texts around them.
proof fn lemma_challenges() -> (at: (Seq<char>, Seq<int>))
    ensures
        at.0 == reply::CHALLENGE@,
        at.1 == seq![17int, 30],
        at.0.len() == 32,
        markup::holes_at(at.0, at.1),
        at.0.subrange(0, 17) == "{\"challenge_id\":\""@,
        at.0.subrange(18, 19) == "\""@,
        at.0.subrange(20, 30) == "\"options\":"@,
        at.0.subrange(31, 32) == "}"@,
        "{\"challenge_id\":\""@.len() == 17,
        "\""@.len() == 1,
        "\"options\":"@.len() == 10,
        "}"@.len() == 1,
{
    reveal_strlit("{\"challenge_id\":\"¤\",\"options\":¤}");
    reveal_strlit("{\"challenge_id\":\"");
    reveal_strlit("\"");
    reveal_strlit("\"options\":");
    reveal_strlit("}");
    let tpl = reply::CHALLENGE@;
    let holes = seq![17int, 30];
    assert(markup::hole_at(tpl, holes, 0));
    assert(markup::hole_at(tpl, holes, 1));
    assert(tpl.subrange(0, 17) =~= "{\"challenge_id\":\""@);
    assert(tpl.subrange(18, 19) =~= "\""@);
    assert(tpl.subrange(20, 30) =~= "\"options\":"@);
    assert(tpl.subrange(31, 32) =~= "}"@);
    (tpl, holes)
}

/// A ceremony begins with its challenge and its options, each under its name.
pub proof fn law_challenges(id: Uuid, options: Seq<char>)
    ensures
        ({
            let out = reply::challenge_json(id, options);
            &&& markup::shows(
                out,
                "{\"challenge_id\":\""@ + html::escaped(model::uuid_text(id)) + "\""@,
            )
            &&& markup::shows(out, "\"options\":"@ + options + "}"@)
        }),
{
    let (tpl, holes) = lemma_challenges();
    let parts = seq![html::escaped(model::uuid_text(id)), options];
    assert(reply::challenge_json(id, options) == markup::filled(tpl, parts, 2).done()) by {
        reveal_with_fuel(markup::filled, 3);
    }
    markup::lemma_hole(tpl, holes, parts, 0, "{\"challenge_id\":\""@, "\""@);
    markup::lemma_hole(tpl, holes, parts, 1, "\"options\":"@, "}"@);
}

// ---- Checks ----------------------------------------------------------------------------------

/// Owners reach everything, admins all but what is for owners, members what is for everybody.
pub proof fn law_ranks(role: InstanceRole)
    ensures
        gate::reaches(role, Floor::Member),
        gate::reaches(role, Floor::Admin) <==> role != InstanceRole::Member,
        gate::reaches(role, Floor::Owner) <==> role == InstanceRole::Owner,
{
}

/// An action runs where the form came with the token of the session, the role reaches it and, where
/// that is asked for, users have confirmed who they are; what nothing undoes asks for a confirmation
/// of its own.
pub proof fn law_admission(c: &Caller, floor: Floor, sudo: bool)
    ensures
        gate::admitted(c, floor, sudo) <==> c.csrf_ok && gate::reaches(c.role, floor) && (!sudo
            || c.sudo == Some(c.user_id)),
        gate::admitted_critical(c) <==> c.csrf_ok && c.role == InstanceRole::Owner && c.critical
            == Some(c.user_id),
{
}

/// Whoever is not let in is told the first thing that is missing, with the status for it.
pub proof fn law_refusals(c: &Caller, floor: Floor)
    ensures
        ({
            let r = gate::refusal(c, floor);
            let told = |message: Seq<char>| r == reply::failure(c.site, 403, message);
            &&& !c.csrf_ok ==> told("Invalid form token. Reload the page and try again."@)
            &&& c.csrf_ok && floor == Floor::Owner && c.role != InstanceRole::Owner ==> told(
                "Owners only."@,
            )
            &&& c.csrf_ok && floor == Floor::Admin && c.role == InstanceRole::Member ==> told(
                "Admins only."@,
            )
            &&& c.csrf_ok && gate::reaches(c.role, floor) ==> r.content == (
            reply::ContentView::Text {
                status: 403,
                text: "Please confirm it's you and try again."@,
            }) && r.cookies.len() == 0
        }),
{
}

/// The navigation of admins leads to the members and the events, that of owners to the apps and the
/// settings too; the entry of the shown page is marked.
pub proof fn law_navigation(ctx: &ChromeContext, current: PageId)
    ensures
        ({
            let admin = shell::admin_links(ctx, current);
            let owner = shell::owner_links(ctx.user.instance_role, current);
            &&& outcome::admin(ctx.user.instance_role) ==> markup::shows(
                admin,
                "\" href=\""@ + html::escaped("/members"@) + "\""@,
            ) && markup::shows(admin, "\" href=\""@ + html::escaped("/events"@) + "\""@)
                && markup::shows(admin, shell::nav_badge_html(ctx.pending_count))
            &&& outcome::owner(ctx.user.instance_role) ==> markup::shows(
                owner,
                "\" href=\""@ + html::escaped("/apps"@) + "\""@,
            ) && markup::shows(owner, "\" href=\""@ + html::escaped("/settings"@) + "\""@)
        }),
{
    let m = shell::nav_link_with_badge_html(
        "/members"@,
        "Members"@,
        current == PageId::Members,
        ctx.pending_count,
        crate::views::icons::USERS_ICON@,
    );
    let e = shell::nav_link_html(
        "/events"@,
        "Events"@,
        current == PageId::Events,
        crate::views::icons::EVENTS_ICON@,
    );
    let a = shell::nav_link_html(
        "/apps"@,
        "Apps"@,
        current == PageId::Apps,
        crate::views::icons::APPS_ICON@,
    );
    let s = shell::nav_link_html(
        "/settings"@,
        "Settings"@,
        current == PageId::Settings,
        crate::views::icons::SETTINGS_ICON@,
    );
    around::law_nav_link_with_badge(
        "/members"@,
        "Members"@,
        current == PageId::Members,
        ctx.pending_count,
        crate::views::icons::USERS_ICON@,
    );
    around::law_nav_link(
        "/events"@,
        "Events"@,
        current == PageId::Events,
        crate::views::icons::EVENTS_ICON@,
    );
    around::law_nav_link(
        "/apps"@,
        "Apps"@,
        current == PageId::Apps,
        crate::views::icons::APPS_ICON@,
    );
    around::law_nav_link(
        "/settings"@,
        "Settings"@,
        current == PageId::Settings,
        crate::views::icons::SETTINGS_ICON@,
    );
    let badge = shell::nav_badge_html(ctx.pending_count);
    assert(m + e =~= Seq::empty() + m + e);
    assert(m + e =~= m + e + Seq::empty());
    assert(a + s =~= Seq::empty() + a + s);
    assert(a + s =~= a + s + Seq::empty());
    markup::lemma_shows(Seq::empty(), m, e);
    markup::lemma_shows(m, e, Seq::empty());
    markup::lemma_shows(Seq::empty(), a, s);
    markup::lemma_shows(a, s, Seq::empty());
    markup::lemma_shows("</span>"@, badge, "</a>"@);
    markup::lemma_shows_inner(m, "</span>"@ + badge + "</a>"@, badge);
    markup::lemma_shows_inner(m + e, m, badge);
    markup::lemma_shows_inner(m + e, m, "\" href=\""@ + html::escaped("/members"@) + "\""@);
    markup::lemma_shows_inner(m + e, e, "\" href=\""@ + html::escaped("/events"@) + "\""@);
    markup::lemma_shows_inner(a + s, a, "\" href=\""@ + html::escaped("/apps"@) + "\""@);
    markup::lemma_shows_inner(a + s, s, "\" href=\""@ + html::escaped("/settings"@) + "\""@);
}

// ---- Log entries -----------------------------------------------------------------------------

/// A log entry holds its fields in the order in which they are put in, each under its key.
pub proof fn law_entries(
    e: EntryView,
    kind: Seq<char>,
    key: Seq<char>,
    value: Seq<char>,
    id: Uuid,
    n: u64,
    b: bool,
)
    ensures
        audit::entry(kind).event_type == kind,
        audit::entry(kind).data.len() == 0,
        e.text(key, value).event_type == e.event_type,
        e.text(key, value).data == e.data + seq![
            audit::FieldView { key, value: FieldValueView::Text(value) },
        ],
        e.id(key, id).event_type == e.event_type,
        e.id(key, id).data == e.data + seq![
            audit::FieldView { key, value: FieldValueView::Id(id) },
        ],
        e.count(key, n).event_type == e.event_type,
        e.count(key, n).data == e.data + seq![
            audit::FieldView { key, value: FieldValueView::Count(n) },
        ],
        e.flag(key, b).event_type == e.event_type,
        e.flag(key, b).data == e.data + seq![
            audit::FieldView { key, value: FieldValueView::Flag(b) },
        ],
{
    assert(e.text(key, value).data =~= e.data + seq![
        audit::FieldView { key, value: FieldValueView::Text(value) },
    ]);
    assert(e.id(key, id).data =~= e.data + seq![
        audit::FieldView { key, value: FieldValueView::Id(id) },
    ]);
    assert(e.count(key, n).data =~= e.data + seq![
        audit::FieldView { key, value: FieldValueView::Count(n) },
    ]);
    assert(e.flag(key, b).data =~= e.data + seq![
        audit::FieldView { key, value: FieldValueView::Flag(b) },
    ]);
}

} // verus!
