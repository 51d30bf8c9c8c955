//! Apps, what they store, and who may publish them.

use vstd::prelude::*;
use crate::audit;
use crate::audit::{DeletedResource, FieldValueView};
use crate::display;
use crate::flows::apps;
use crate::flows::apps::{
    AppAsk, AppChangeView, DeleteResource, FoundResources, RemovePublisherView, ResourceAt,
    ResourcesAskView,
};
use crate::flows::step;
use crate::flows::step::Asked;
use crate::forms::{PublishersAddForm, RemovePublisherForm, ResourcesQuery};
use crate::gate::Caller;
use crate::laws::outcome;
use crate::model;
use crate::model::{
    AdminResourceRow, AppListItem, RegisteredAppRow, Timestamp, TrustedPublisherListItem, Uuid,
};
use crate::reply;
use crate::text;
use crate::views::apps as rows;
use crate::views::shell::ChromeContext;

verus! {

// ---- Apps ------------------------------------------------------------------------------------

/// The lists of apps and of publishers are for owners, and show what the store holds.
pub proof fn law_lists_run(
    ctx: &ChromeContext,
    list: Asked<Vec<AppListItem>>,
    publishers: Asked<Vec<TrustedPublisherListItem>>,
    now: &Timestamp,
    all: Vec<AppListItem>,
    trusted: Vec<TrustedPublisherListItem>,
)
    ensures
        ({
            let s = apps::apps_step(ctx, list, now);
            let p = apps::publishers_step(ctx, publishers, now);
            let owner = outcome::owner(ctx.user.instance_role);
            &&& !owner ==> s is Finish && outcome::has_status(s->Finish_0.reply, 403) && p is Finish
                && outcome::has_status(p->Finish_0.reply, 403)
            &&& owner && list is NotYet ==> s is Ask
            &&& owner && publishers is NotYet ==> p is Ask
            &&& owner && list == Asked::Answer(all) ==> outcome::ends_with(
                s,
                reply::ok_page(rows::apps_page_html(ctx, all@, now)),
            )
            &&& owner && publishers == Asked::Answer(trusted) ==> outcome::ends_with(
                p,
                reply::ok_page(rows::trusted_publishers_page_html(ctx, trusted@, now)),
            )
        }),
{
}

/// A dialog about an app looks the app that was picked up, then counts what it stores, and is drawn
/// from both.
pub proof fn law_app_dialogs_run(
    ctx: &ChromeContext,
    id: Uuid,
    action: Seq<char>,
    found: Asked<Option<RegisteredAppRow>>,
    count: Asked<i64>,
    app: RegisteredAppRow,
    n: i64,
)
    requires
        outcome::owner(ctx.user.instance_role),
    ensures
        ({
            let s = apps::app_modal_step(ctx, id, action, found, count);
            &&& found is NotYet ==> s == step::StepView::<AppAsk>::Ask(AppAsk::App(id))
            &&& found == Asked::Answer(None::<RegisteredAppRow>) ==> s is Finish
                && outcome::has_status(s->Finish_0.reply, 404)
            &&& found == Asked::Answer(Some(app)) && count is NotYet ==> s == step::StepView::<
                AppAsk,
            >::Ask(AppAsk::ResourceCount(id))
            &&& found == Asked::Answer(Some(app)) && count == Asked::Answer(n) ==> {
                let dialog = rows::app_dialog_html(action, &app, n, ctx.csrf_token@);
                &&& dialog is Some ==> outcome::ends_with(s, reply::ok_page(dialog->0))
                &&& dialog is None ==> s is Finish && outcome::has_status(s->Finish_0.reply, 404)
                &&& dialog is Some <==> action == "enable"@ || action == "disable"@ || action
                    == "uninstall"@
            }
        }),
{
}

/// What is to be done to an app is asked of the store as it stands, for a confirmed owner; they are
/// sent back to the list of apps and told of the app by its name.
pub proof fn law_app_actions_run(
    c: &Caller,
    change: AppChangeView,
    done: Seq<char>,
    o: Asked<Option<String>>,
    name: String,
)
    requires
        outcome::confirmed(c),
        outcome::owner(c.role),
    ensures
        ({
            let s = apps::app_step(c, change, done, o);
            &&& o is NotYet ==> s == step::StepView::<AppChangeView>::Ask(change)
            &&& o is Failed ==> s is Finish && outcome::has_status(s->Finish_0.reply, 500)
            &&& o == Asked::Answer(Some(name)) ==> outcome::ends_with(
                s,
                reply::moved_after("/apps"@, c.htmx, done, Some(name@)),
            )
            &&& o == Asked::Answer(None::<String>) ==> outcome::ends_with(
                s,
                reply::moved_failing("/apps"@, c.htmx, "app_not_found"@),
            )
        }),
{
}

/// A field of a log entry.
pub open spec fn field(key: Seq<char>, value: FieldValueView) -> audit::FieldView {
    audit::FieldView { key, value }
}

/// What is logged of a change to an app, a resource or a publisher names what it was done to.
pub proof fn law_app_changes_are_logged(
    id: Uuid,
    app: &RegisteredAppRow,
    gone: &DeletedResource,
    publisher: Seq<char>,
)
    ensures
        ({
            let e = (AppChangeView::SetStatus {
                id,
                enabled: true,
                status: apps::status_of(true),
            }).entry(app);
            &&& e.event_type == "app_enabled"@
            &&& e.data == seq![
                field("app_id"@, FieldValueView::Id(app.id)),
                field("app_identifier"@, FieldValueView::Text(app.app_identifier@)),
                field("status"@, FieldValueView::Text("enabled"@)),
            ]
        }),
        ({
            let e = (AppChangeView::SetStatus {
                id,
                enabled: false,
                status: apps::status_of(false),
            }).entry(app);
            &&& e.event_type == "app_disabled"@
            &&& e.data == seq![
                field("app_id"@, FieldValueView::Id(app.id)),
                field("app_identifier"@, FieldValueView::Text(app.app_identifier@)),
                field("status"@, FieldValueView::Text("disabled"@)),
            ]
        }),
        ({
            let e = AppChangeView::Uninstall(id).entry(app);
            &&& e.event_type == "app_uninstalled"@
            &&& e.data == seq![
                field("app_id"@, FieldValueView::Id(app.id)),
                field("app_identifier"@, FieldValueView::Text(app.app_identifier@)),
            ]
        }),
        ({
            let e = audit::resource_deleted_entry(gone);
            &&& e.event_type == "resource_deleted"@
            &&& e.data == seq![
                field("resource_id"@, FieldValueView::Id(gone.id)),
                field("app_id"@, FieldValueView::Id(gone.app_id)),
                field("resource_type"@, FieldValueView::Text(gone.resource_type@)),
                field("app_resource_id"@, FieldValueView::Id(gone.app_resource_id)),
                field(
                    "owner_user_id"@,
                    match gone.owner_user_id {
                        Some(owner) => FieldValueView::Id(owner),
                        None => FieldValueView::Null,
                    },
                ),
            ]
        }),
        ({
            let e = audit::publisher_added_entry(publisher);
            &&& e.event_type == "trusted_publisher_added"@
            &&& e.data == seq![field("publisher"@, FieldValueView::Text(publisher))]
        }),
        ({
            let e = audit::publisher_removed_entry(true, publisher);
            &&& e is Some
            &&& e->0.event_type == "trusted_publisher_removed"@
            &&& e->0.data == seq![field("publisher"@, FieldValueView::Text(publisher))]
        }),
        audit::publisher_removed_entry(false, publisher) is None,
{
    let on = apps::status_of(true);
    let off = apps::status_of(false);
    assert((AppChangeView::SetStatus { id, enabled: true, status: on }).entry(app).data =~= seq![
        field("app_id"@, FieldValueView::Id(app.id)),
        field("app_identifier"@, FieldValueView::Text(app.app_identifier@)),
        field("status"@, FieldValueView::Text(on)),
    ]);
    assert((AppChangeView::SetStatus { id, enabled: false, status: off }).entry(app).data =~= seq![
        field("app_id"@, FieldValueView::Id(app.id)),
        field("app_identifier"@, FieldValueView::Text(app.app_identifier@)),
        field("status"@, FieldValueView::Text(off)),
    ]);
    assert(AppChangeView::Uninstall(id).entry(app).data =~= seq![
        field("app_id"@, FieldValueView::Id(app.id)),
        field("app_identifier"@, FieldValueView::Text(app.app_identifier@)),
    ]);
    assert(audit::resource_deleted_entry(gone).data =~= seq![
        field("resource_id"@, FieldValueView::Id(gone.id)),
        field("app_id"@, FieldValueView::Id(gone.app_id)),
        field("resource_type"@, FieldValueView::Text(gone.resource_type@)),
        field("app_resource_id"@, FieldValueView::Id(gone.app_resource_id)),
        field(
            "owner_user_id"@,
            match gone.owner_user_id {
                Some(owner) => FieldValueView::Id(owner),
                None => FieldValueView::Null,
            },
        ),
    ]);
    let named = seq![field("publisher"@, FieldValueView::Text(publisher))];
    assert(audit::publisher_added_entry(publisher).data =~= named);
    assert(audit::publisher_removed_entry(true, publisher)->0.data =~= named);
}

// ---- Resources -------------------------------------------------------------------------------

/// The browser looks the app up, then lists its resources: of the type that was entered, or of
/// every type where none was; the one with the identifier that was entered, or every one where
/// nothing was; the deleted ones too only where that was ticked; two hundred at most. What was
/// entered and is no identifier finds nothing, without asking.
pub proof fn law_resources_run(
    ctx: &ChromeContext,
    id: Uuid,
    q: &ResourcesQuery,
    app: Asked<Option<RegisteredAppRow>>,
    found: Asked<FoundResources>,
    now: Timestamp,
    row: RegisteredAppRow,
    f: FoundResources,
    typed: String,
    searched: String,
)
    requires
        outcome::owner(ctx.user.instance_role),
    ensures
        ({
            let s = apps::resources_step(ctx, id, q, app, found, now);
            let t = text::trimmed(typed@);
            let w = text::trimmed(searched@);
            let list = s->Ask_0;
            &&& app is NotYet ==> s == step::StepView::<ResourcesAskView>::Ask(
                ResourcesAskView::App(id),
            )
            &&& app == Asked::Answer(None::<RegisteredAppRow>) ==> s is Finish
                && outcome::has_status(s->Finish_0.reply, 404)
            &&& app == Asked::Answer(Some(row)) && found is NotYet ==> {
                let blank = q.q is None || (q.q == Some(searched) && w.len() == 0);
                let one = q.q == Some(searched) && w.len() > 0;
                &&& blank ==> s is Ask && list is List && list->id is None
                &&& one && model::uuid_of(w) is Some ==> s is Ask && list is List && list->id
                    == model::uuid_of(w)
                &&& one && model::uuid_of(w) is None ==> s is Finish
            }
            &&& s is Ask && list is List ==> {
                &&& list->app == id
                &&& list->limit == 200
                &&& list->include_deleted <==> (q.deleted is Some && q.deleted->0@ == "1"@)
                &&& q.resource_type is None ==> list->type_filter is None
                &&& q.resource_type == Some(typed) && t.len() == 0 ==> list->type_filter is None
                &&& q.resource_type == Some(typed) && t.len() > 0 ==> list->type_filter == Some(t)
            }
            &&& app == Asked::Answer(Some(row)) && found == Asked::Answer(f) && q.q is None
                && q.resource_type == Some(typed) ==> outcome::ends_with(
                s,
                reply::ok_page(
                    rows::app_resources_page_html(
                        ctx,
                        rows::AppResourcesText {
                            app: row,
                            rows: f.rows@,
                            total: f.total,
                            cap: 200,
                            type_filter: t,
                            search: Seq::empty(),
                            include_deleted: q.deleted is Some && q.deleted->0@ == "1"@,
                            now,
                        },
                    ),
                ),
            )
        }),
{
    assert(text::trimmed(typed@).len() == 0 ==> text::trimmed(typed@) =~= Seq::empty());
    assert(""@ =~= Seq::<char>::empty()) by {
        reveal_strlit("");
    }
}

/// A resource is looked up, and removed, under its app. After a removal the owner is sent back to
/// the resources of the same app.
pub proof fn law_resource_steps(
    ctx: &ChromeContext,
    c: &Caller,
    app: Uuid,
    id: Uuid,
    found: Asked<Option<AdminResourceRow>>,
    o: Asked<bool>,
    row: AdminResourceRow,
)
    requires
        outcome::owner(ctx.user.instance_role),
        outcome::owner(c.role),
        outcome::confirmed(c),
    ensures
        ({
            let s = apps::resource_modal_step(ctx, app, id, found);
            &&& found is NotYet ==> s == step::StepView::<ResourceAt>::Ask(ResourceAt { app, id })
            &&& found == Asked::Answer(None::<AdminResourceRow>) ==> s is Finish
                && outcome::has_status(s->Finish_0.reply, 404)
            &&& found == Asked::Answer(Some(row)) ==> outcome::ends_with(
                s,
                reply::ok_page(rows::app_resource_detail_modal_html(app, &row, ctx.csrf_token@)),
            )
        }),
        ({
            let s = apps::delete_resource_step(c, app, id, o);
            let back = "/apps/"@ + model::uuid_text(app) + "/resources"@;
            &&& o is NotYet ==> s == step::StepView::<DeleteResource>::Ask(
                DeleteResource { app, id },
            )
            &&& o is Failed ==> s is Finish && outcome::has_status(s->Finish_0.reply, 500)
            &&& o == Asked::Answer(true) ==> outcome::ends_with(
                s,
                reply::moved_after(back, c.htmx, "resource_deleted"@, None),
            )
            &&& o == Asked::Answer(false) ==> outcome::ends_with(
                s,
                reply::moved_failing(back, c.htmx, "resource_not_found"@),
            )
        }),
{
}

// ---- Publishers ------------------------------------------------------------------------------

/// A publisher is stored under the name that was entered, without the white space around it, with
/// the thirty-two bytes that the sixty-four hexadecimal digits of the key denote.
pub proof fn law_publishers_are_stored_as_entered(
    c: &Caller,
    form: &PublishersAddForm,
    stored: Asked<()>,
    i: int,
)
    requires
        outcome::confirmed(c),
        outcome::owner(c.role),
    ensures
        ({
            let s = apps::add_publisher_step(c, form, stored);
            let name = text::trimmed(form.publisher@);
            let digits = form.public_key@.filter(|x: char| !text::white_space(x));
            let is_key = digits.len() == 64 && forall|k: int|
                0 <= k < 64 ==> text::hex_value(#[trigger] digits[k]) is Some;
            let failing = |why: Seq<char>|
                outcome::ends_with(s, reply::moved_failing("/apps/publishers"@, c.htmx, why));
            &&& name.len() == 0 ==> failing("publisher_name_required"@)
            &&& name.len() > 0 && !is_key ==> failing("invalid_publisher_key"@)
            &&& name.len() > 0 && is_key && stored is NotYet ==> {
                &&& s is Ask
                &&& s->Ask_0.publisher == name
                &&& s->Ask_0.key.len() == 32
                &&& 0 <= i < 32 ==> s->Ask_0.key[i] == text::hex_value(digits[2 * i])->0 * 16
                    + text::hex_value(digits[2 * i + 1])->0
            }
            &&& name.len() > 0 && is_key && stored is Answer ==> outcome::ends_with(
                s,
                reply::moved_after(
                    "/apps/publishers"@,
                    c.htmx,
                    "publisher_added"@,
                    Some(name),
                ),
            )
        }),
{
    let digits = form.public_key@.filter(|x: char| !text::white_space(x));
    assert(digits == display::without_spaces(form.public_key@));
    if display::all_hex(digits) && digits.len() == 64 && 0 <= i < 32 {
        assert(text::hex_value(digits[2 * i]) is Some);
        assert(text::hex_value(digits[2 * i + 1]) is Some);
    }
}

/// The publisher that is taken off the list is the one that the form names.
pub proof fn law_removing_a_publisher_runs(
    c: &Caller,
    form: &RemovePublisherForm,
    removed: Asked<bool>,
)
    requires
        outcome::confirmed(c),
        outcome::owner(c.role),
    ensures
        ({
            let s = apps::remove_publisher_step(c, form, removed);
            &&& removed is NotYet ==> s == step::StepView::<RemovePublisherView>::Ask(
                RemovePublisherView { publisher: form.publisher@ },
            )
            &&& removed is Failed ==> s is Finish && outcome::has_status(s->Finish_0.reply, 500)
            &&& removed == Asked::Answer(true) ==> outcome::ends_with(
                s,
                reply::moved_after(
                    "/apps/publishers"@,
                    c.htmx,
                    "publisher_removed"@,
                    Some(form.publisher@),
                ),
            )
            &&& removed == Asked::Answer(false) ==> outcome::ends_with(
                s,
                reply::moved_failing("/apps/publishers"@, c.htmx, "publisher_not_found"@),
            )
        }),
{
}

} // verus!
