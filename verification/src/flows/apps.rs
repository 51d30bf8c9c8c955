//! Registered apps, what they store, and the publishers whose keys are trusted. All of it is for
//! owners.

use vstd::prelude::*;
use crate::audit;
use crate::audit::{AuditEntry, DeletedResource};
use crate::display;
use crate::flows::step;
use crate::flows::step::{Asked, Proceed, Step};
use crate::forms;
use crate::forms::{PublishersAddForm, RemoveModalQuery, RemovePublisherForm, ResourcesQuery};
use crate::gate;
use crate::gate::{Caller, Floor};
use crate::model;
use crate::model::{
    AdminResourceRow, AppListItem, RegisteredAppRow, Timestamp, TrustedPublisherListItem, Uuid,
};
use crate::reply;
use crate::reply::{error_response, redirect_with_action_toast, redirect_with_error_toast, Reply};
use crate::text;
use crate::views::apps;
use crate::views::apps::AppResourcesView;
use crate::views::shell::ChromeContext;

verus! {

// ---- Apps ------------------------------------------------------------------------------------

pub open spec fn apps_step(ctx: &ChromeContext, list: Asked<Vec<AppListItem>>, now: &Timestamp) -> step::StepView<Proceed> {
    if !gate::reaches(ctx.user.instance_role, Floor::Owner) {
        step::replied(gate::too_low(ctx.site, Floor::Owner))
    } else {
        match list {
            Asked::NotYet => step::StepView::Ask(Proceed),
            Asked::Failed => step::gave_up(ctx.site),
            Asked::Answer(list) => step::replied(
                reply::ok_page(apps::apps_page_html(ctx, list@, now)),
            ),
        }
    }
}

/// `GET /apps`.
pub fn apps_page(ctx: &ChromeContext, list: &Asked<Vec<AppListItem>>, now: &Timestamp) -> (r: Step<Proceed>)
    ensures
        r@ == apps_step(ctx, *list, now),
{
    match gate::require_role(ctx.site, ctx.user.instance_role, Floor::Owner) {
        Ok(()) => {},
        Err(reply) => {
            return Step::replied(reply);
        },
    }
    match list {
        Asked::NotYet => Step::Ask(Proceed),
        Asked::Failed => Step::gave_up(ctx.site),
        Asked::Answer(list) => Step::replied(
            Reply::ok_page(apps::apps_page(ctx, list.as_slice(), now)),
        ),
    }
}

/// What a dialog about an app asks for.
#[derive(Clone, Copy, Debug, PartialEq, Eq, Structural)]
pub enum AppAsk {
    /// The app.
    App(Uuid),
    /// How many resources it stores.
    ResourceCount(Uuid),
}

impl View for AppAsk {
    type V = AppAsk;

    open spec fn view(&self) -> AppAsk {
        *self
    }
}

pub open spec fn app_modal_step(
    ctx: &ChromeContext,
    id: Uuid,
    action: Seq<char>,
    found: Asked<Option<RegisteredAppRow>>,
    count: Asked<i64>,
) -> step::StepView<AppAsk> {
    if !gate::reaches(ctx.user.instance_role, Floor::Owner) {
        step::replied(gate::too_low(ctx.site, Floor::Owner))
    } else {
        match found {
            Asked::NotYet => step::StepView::Ask(AppAsk::App(id)),
            Asked::Failed => step::gave_up(ctx.site),
            Asked::Answer(None) => step::replied(reply::failure(ctx.site, 404, "App not found."@)),
            Asked::Answer(Some(app)) => match count {
                Asked::NotYet => step::StepView::Ask(AppAsk::ResourceCount(id)),
                Asked::Failed => step::gave_up(ctx.site),
                Asked::Answer(n) => match apps::app_dialog_html(action, &app, n, ctx.csrf_token@) {
                    Some(html) => step::replied(reply::ok_page(html)),
                    None => step::replied(reply::failure(ctx.site, 404, "Unknown action."@)),
                },
            },
        }
    }
}

/// `GET /apps/{id}/modal/{action}`: the dialog to enable, disable or uninstall an app.
pub fn app_action_modal(
    ctx: &ChromeContext,
    id: Uuid,
    action: &str,
    found: &Asked<Option<RegisteredAppRow>>,
    count: &Asked<i64>,
) -> (r: Step<AppAsk>)
    ensures
        r@ == app_modal_step(ctx, id, action@, *found, *count),
{
    match gate::require_role(ctx.site, ctx.user.instance_role, Floor::Owner) {
        Ok(()) => {},
        Err(reply) => {
            return Step::replied(reply);
        },
    }
    match found {
        Asked::NotYet => Step::Ask(AppAsk::App(id)),
        Asked::Failed => Step::gave_up(ctx.site),
        Asked::Answer(None) => Step::replied(error_response(ctx.site, 404, "App not found.")),
        Asked::Answer(Some(app)) => match count {
            Asked::NotYet => Step::Ask(AppAsk::ResourceCount(id)),
            Asked::Failed => Step::gave_up(ctx.site),
            Asked::Answer(n) => match apps::app_action_dialog(action, app, *n, ctx.csrf_token) {
                Some(html) => Step::replied(Reply::ok_page(html)),
                None => Step::replied(error_response(ctx.site, 404, "Unknown action.")),
            },
        },
    }
}

/// The status of an app that may store things, or may not.
pub open spec fn status_of(enabled: bool) -> Seq<char> {
    if enabled {
        "enabled"@
    } else {
        "disabled"@
    }
}

/// The status an app is given when it is enabled or disabled.
pub fn app_status(enabled: bool) -> (r: &'static str)
    ensures
        r@ == status_of(enabled),
{
    if enabled {
        "enabled"
    } else {
        "disabled"
    }
}

/// What is to be done to an app.
pub enum AppChange {
    SetStatus { id: Uuid, enabled: bool, status: &'static str },
    /// To remove it with everything it stored.
    Uninstall(Uuid),
}

pub enum AppChangeView {
    SetStatus { id: Uuid, enabled: bool, status: Seq<char> },
    Uninstall(Uuid),
}

impl View for AppChange {
    type V = AppChangeView;

    open spec fn view(&self) -> AppChangeView {
        match *self {
            AppChange::SetStatus { id, enabled, status } => AppChangeView::SetStatus {
                id,
                enabled,
                status: status@,
            },
            AppChange::Uninstall(id) => AppChangeView::Uninstall(id),
        }
    }
}

impl AppChangeView {
    /// What is logged with the action, both or neither, for the app as the store has it.
    pub open spec fn entry(self, app: &RegisteredAppRow) -> audit::EntryView {
        match self {
            AppChangeView::SetStatus { enabled, status, .. } => audit::app_status_entry(
                enabled,
                app.id,
                app.app_identifier@,
                status,
            ),
            AppChangeView::Uninstall(_) => audit::app_uninstalled_entry(
                app.id,
                app.app_identifier@,
            ),
        }
    }
}

impl AppChange {
    pub fn entry(&self, app: &RegisteredAppRow) -> (r: AuditEntry)
        ensures
            r@ == self@.entry(app),
    {
        match self {
            AppChange::SetStatus { enabled, status, .. } => audit::app_status_changed(
                *enabled,
                app.id,
                app.app_identifier.as_str(),
                status,
            ),
            AppChange::Uninstall(_) => audit::app_uninstalled(app.id, app.app_identifier.as_str()),
        }
    }
}

/// The steps of an action on an app; the answer is the display name of the app, if it was there.
pub open spec fn app_step(
    c: &Caller,
    change: AppChangeView,
    done: Seq<char>,
    outcome: Asked<Option<String>>,
) -> step::StepView<AppChangeView> {
    if !gate::admitted(c, Floor::Owner, true) {
        step::replied(gate::refusal(c, Floor::Owner))
    } else {
        match outcome {
            Asked::NotYet => step::StepView::Ask(change),
            Asked::Failed => step::gave_up(c.site),
            Asked::Answer(Some(name)) => step::replied(
                reply::moved_after("/apps"@, c.htmx, done, Some(name@)),
            ),
            Asked::Answer(None) => step::replied(
                reply::moved_failing("/apps"@, c.htmx, "app_not_found"@),
            ),
        }
    }
}

fn act_on_app(
    c: &Caller,
    change: AppChange,
    done: &str,
    outcome: &Asked<Option<String>>,
) -> (r: Step<AppChange>)
    ensures
        r@ == app_step(c, change@, done@, *outcome),
{
    match gate::check_all(c, Floor::Owner, true) {
        Ok(()) => {},
        Err(reply) => {
            return Step::replied(reply);
        },
    }
    match outcome {
        Asked::NotYet => Step::Ask(change),
        Asked::Failed => Step::gave_up(c.site),
        Asked::Answer(Some(name)) => Step::replied(
            redirect_with_action_toast("/apps", c.htmx, done, Some(name.as_str())),
        ),
        Asked::Answer(None) => Step::replied(
            redirect_with_error_toast("/apps", c.htmx, "app_not_found"),
        ),
    }
}

/// `POST /apps/{id}/enable`.
pub fn enable_app(c: &Caller, id: Uuid, outcome: &Asked<Option<String>>) -> (r: Step<AppChange>)
    ensures
        r@ == app_step(
            c,
            AppChangeView::SetStatus { id, enabled: true, status: status_of(true) },
            "app_enabled"@,
            *outcome,
        ),
{
    act_on_app(
        c,
        AppChange::SetStatus { id, enabled: true, status: app_status(true) },
        "app_enabled",
        outcome,
    )
}

/// `POST /apps/{id}/disable`: the app keeps its data but can store nothing more.
pub fn disable_app(c: &Caller, id: Uuid, outcome: &Asked<Option<String>>) -> (r: Step<AppChange>)
    ensures
        r@ == app_step(
            c,
            AppChangeView::SetStatus { id, enabled: false, status: status_of(false) },
            "app_disabled"@,
            *outcome,
        ),
{
    act_on_app(
        c,
        AppChange::SetStatus { id, enabled: false, status: app_status(false) },
        "app_disabled",
        outcome,
    )
}

/// `POST /apps/{id}/uninstall`: the app goes, and everything it stored with it.
pub fn uninstall_app(c: &Caller, id: Uuid, outcome: &Asked<Option<String>>) -> (r: Step<AppChange>)
    ensures
        r@ == app_step(c, AppChangeView::Uninstall(id), "app_uninstalled"@, *outcome),
{
    act_on_app(c, AppChange::Uninstall(id), "app_uninstalled", outcome)
}

// ---- Resources -------------------------------------------------------------------------------

/// How many resources are listed at most.
pub const RESOURCE_LIST_CAP: i64 = 200;

/// What is searched for: nothing in particular, the resource of an id, or something that is no id
/// and so matches nothing.
#[derive(Clone, Copy, Debug, PartialEq, Eq, Structural)]
pub enum IdSearch {
    All,
    One(Uuid),
    Invalid,
}

/// Reads a search by the id, if any, that its text was parsed to.
pub open spec fn search_for(search: Option<Seq<char>>, parsed: Option<Uuid>) -> IdSearch {
    match search {
        None => IdSearch::All,
        Some(_) => match parsed {
            Some(id) => IdSearch::One(id),
            None => IdSearch::Invalid,
        },
    }
}

/// A search text as an id.
pub open spec fn searched_id(search: Option<Seq<char>>) -> Option<Uuid> {
    match search {
        Some(s) => model::uuid_of(s),
        None => None,
    }
}

/// Reads a search from its text and what the text was parsed to.
pub fn id_search(search: &Option<String>, parsed: Option<Uuid>) -> (r: IdSearch)
    ensures
        r == search_for(text::opt_string(*search), parsed),
{
    match search {
        None => IdSearch::All,
        Some(_) => match parsed {
            Some(id) => IdSearch::One(id),
            None => IdSearch::Invalid,
        },
    }
}

/// What the resource browser asks for.
pub enum ResourcesAsk {
    /// The app.
    App(Uuid),
    /// The newest resources of the app that match, `limit` of them, and how many match in all.
    List {
        app: Uuid,
        type_filter: Option<String>,
        id: Option<Uuid>,
        include_deleted: bool,
        limit: i64,
    },
}

pub enum ResourcesAskView {
    App(Uuid),
    List {
        app: Uuid,
        type_filter: Option<Seq<char>>,
        id: Option<Uuid>,
        include_deleted: bool,
        limit: i64,
    },
}

impl View for ResourcesAsk {
    type V = ResourcesAskView;

    open spec fn view(&self) -> ResourcesAskView {
        match *self {
            ResourcesAsk::App(id) => ResourcesAskView::App(id),
            ResourcesAsk::List { app, type_filter, id, include_deleted, limit } =>
                ResourcesAskView::List {
                    app,
                    type_filter: text::opt_string(type_filter),
                    id,
                    include_deleted,
                    limit,
                },
        }
    }
}

/// The resources that were found, and how many match in all.
pub struct FoundResources {
    pub rows: Vec<AdminResourceRow>,
    pub total: i64,
}

/// Whether deleted resources are listed too.
pub open spec fn wants_deleted(q: &ResourcesQuery) -> bool {
    text::opt_string(q.deleted) == Some("1"@)
}

pub open spec fn resources_shown(
    ctx: &ChromeContext,
    q: &ResourcesQuery,
    app: RegisteredAppRow,
    rows: Seq<AdminResourceRow>,
    total: i64,
    now: Timestamp,
) -> reply::ReplyView {
    reply::ok_page(
        apps::app_resources_page_html(
            ctx,
            apps::AppResourcesText {
                app,
                rows,
                total,
                cap: RESOURCE_LIST_CAP,
                type_filter: text::or_blank(forms::cleaned(q.resource_type)),
                search: text::or_blank(forms::cleaned(q.q)),
                include_deleted: wants_deleted(q),
                now,
            },
        ),
    )
}

/// The steps behind the app `id` that was found, by what is searched for.
pub open spec fn browse_step(
    ctx: &ChromeContext,
    id: Uuid,
    q: &ResourcesQuery,
    app: RegisteredAppRow,
    search: IdSearch,
    found: Asked<FoundResources>,
    now: Timestamp,
) -> step::StepView<ResourcesAskView> {
    match search {
        IdSearch::Invalid => step::replied(
            resources_shown(ctx, q, app, Seq::empty(), 0, now),
        ),
        _ => match found {
            Asked::NotYet => step::StepView::Ask(
                ResourcesAskView::List {
                    app: id,
                    type_filter: forms::cleaned(q.resource_type),
                    id: match search {
                        IdSearch::One(one) => Some(one),
                        _ => None,
                    },
                    include_deleted: wants_deleted(q),
                    limit: RESOURCE_LIST_CAP,
                },
            ),
            Asked::Failed => step::gave_up(ctx.site),
            Asked::Answer(f) => step::replied(
                resources_shown(ctx, q, app, f.rows@, f.total, now),
            ),
        },
    }
}

/// The steps behind the app `id` that was found, by what is searched for.
pub fn browse_resources(
    ctx: &ChromeContext,
    id: Uuid,
    q: &ResourcesQuery,
    app: &RegisteredAppRow,
    search: IdSearch,
    found: &Asked<FoundResources>,
    now: Timestamp,
) -> (r: Step<ResourcesAsk>)
    ensures
        r@ == browse_step(ctx, id, q, *app, search, *found, now),
{
    let type_filter = forms::clean(text::copy(&q.resource_type));
    let text_search = forms::clean(text::copy(&q.q));
    let include_deleted: bool = match &q.deleted {
        Some(d) => text::same(d.as_str(), "1"),
        None => false,
    };
    let none: Vec<AdminResourceRow> = Vec::new();
    let (rows, total): (&Vec<AdminResourceRow>, i64) = match search {
        IdSearch::Invalid => (&none, 0),
        _ => match found {
            Asked::NotYet => {
                let one: Option<Uuid> = match search {
                    IdSearch::One(one) => Some(one),
                    _ => None,
                };
                return Step::Ask(
                    ResourcesAsk::List {
                        app: id,
                        type_filter,
                        id: one,
                        include_deleted,
                        limit: RESOURCE_LIST_CAP,
                    },
                );
            },
            Asked::Failed => {
                return Step::gave_up(ctx.site);
            },
            Asked::Answer(f) => (&f.rows, f.total),
        },
    };
    let view = AppResourcesView {
        app,
        rows: rows.as_slice(),
        total,
        cap: RESOURCE_LIST_CAP,
        type_filter: text::blank_or(&type_filter),
        search: text::blank_or(&text_search),
        include_deleted,
        now,
    };
    proof {
        assert(none@ =~= Seq::empty());
    }
    Step::replied(Reply::ok_page(apps::app_resources_page(ctx, &view)))
}

pub open spec fn resources_step(
    ctx: &ChromeContext,
    id: Uuid,
    q: &ResourcesQuery,
    app: Asked<Option<RegisteredAppRow>>,
    found: Asked<FoundResources>,
    now: Timestamp,
) -> step::StepView<ResourcesAskView> {
    if !gate::reaches(ctx.user.instance_role, Floor::Owner) {
        step::replied(gate::too_low(ctx.site, Floor::Owner))
    } else {
        match app {
            Asked::NotYet => step::StepView::Ask(ResourcesAskView::App(id)),
            Asked::Failed => step::gave_up(ctx.site),
            Asked::Answer(None) => step::replied(reply::failure(ctx.site, 404, "App not found."@)),
            Asked::Answer(Some(app)) => {
                let search = forms::cleaned(q.q);
                browse_step(ctx, id, q, app, search_for(search, searched_id(search)), found, now)
            },
        }
    }
}

/// `GET /apps/{id}/resources`: what an app stores. A search finds a resource by its id alone; any
/// other text finds nothing.
pub fn app_resources_page(
    ctx: &ChromeContext,
    id: Uuid,
    q: &ResourcesQuery,
    app: &Asked<Option<RegisteredAppRow>>,
    found: &Asked<FoundResources>,
    now: Timestamp,
) -> (r: Step<ResourcesAsk>)
    ensures
        r@ == resources_step(ctx, id, q, *app, *found, now),
{
    match gate::require_role(ctx.site, ctx.user.instance_role, Floor::Owner) {
        Ok(()) => {},
        Err(reply) => {
            return Step::replied(reply);
        },
    }
    match app {
        Asked::NotYet => Step::Ask(ResourcesAsk::App(id)),
        Asked::Failed => Step::gave_up(ctx.site),
        Asked::Answer(None) => Step::replied(error_response(ctx.site, 404, "App not found.")),
        Asked::Answer(Some(app)) => {
            let search = forms::clean(text::copy(&q.q));
            let parsed: Option<Uuid> = match &search {
                Some(s) => Uuid::parse(s.as_str()),
                None => None,
            };
            browse_resources(ctx, id, q, app, id_search(&search, parsed), found, now)
        },
    }
}

/// A search that is no id lists nothing, rather than everything: the store is not even asked.
pub proof fn law_invalid_search_lists_nothing(
    ctx: &ChromeContext,
    id: Uuid,
    q: &ResourcesQuery,
    app: RegisteredAppRow,
    found: Asked<FoundResources>,
    now: Timestamp,
)
    ensures
        browse_step(ctx, id, q, app, IdSearch::Invalid, found, now) == step::replied::<
            ResourcesAskView,
        >(resources_shown(ctx, q, app, Seq::empty(), 0, now)),
        search_for(forms::cleaned(q.q), None) == (if forms::cleaned(q.q) is Some {
            IdSearch::Invalid
        } else {
            IdSearch::All
        }),
{
}

/// A resource of an app, to be looked up.
#[derive(Clone, Copy, Debug, PartialEq, Eq, Structural)]
pub struct ResourceAt {
    pub app: Uuid,
    pub id: Uuid,
}

impl View for ResourceAt {
    type V = ResourceAt;

    open spec fn view(&self) -> ResourceAt {
        *self
    }
}

pub open spec fn resource_modal_step(
    ctx: &ChromeContext,
    app_id: Uuid,
    id: Uuid,
    found: Asked<Option<AdminResourceRow>>,
) -> step::StepView<ResourceAt> {
    if !gate::reaches(ctx.user.instance_role, Floor::Owner) {
        step::replied(gate::too_low(ctx.site, Floor::Owner))
    } else {
        match found {
            Asked::NotYet => step::StepView::Ask(ResourceAt { app: app_id, id }),
            Asked::Failed => step::gave_up(ctx.site),
            Asked::Answer(None) => step::replied(
                reply::failure(ctx.site, 404, "Resource not found."@),
            ),
            Asked::Answer(Some(row)) => step::replied(
                reply::ok_page(
                    apps::app_resource_detail_modal_html(app_id, &row, ctx.csrf_token@),
                ),
            ),
        }
    }
}

/// `GET /apps/{id}/resources/{rid}/modal`: what is known of a resource.
pub fn app_resource_modal(
    ctx: &ChromeContext,
    app_id: Uuid,
    id: Uuid,
    found: &Asked<Option<AdminResourceRow>>,
) -> (r: Step<ResourceAt>)
    ensures
        r@ == resource_modal_step(ctx, app_id, id, *found),
{
    match gate::require_role(ctx.site, ctx.user.instance_role, Floor::Owner) {
        Ok(()) => {},
        Err(reply) => {
            return Step::replied(reply);
        },
    }
    match found {
        Asked::NotYet => Step::Ask(ResourceAt { app: app_id, id }),
        Asked::Failed => Step::gave_up(ctx.site),
        Asked::Answer(None) => Step::replied(
            error_response(ctx.site, 404, "Resource not found."),
        ),
        Asked::Answer(Some(row)) => Step::replied(
            Reply::ok_page(apps::app_resource_detail_modal(app_id, row, ctx.csrf_token)),
        ),
    }
}

/// The address of the resource browser of an app.
pub open spec fn resources_url_of(app_id: Uuid) -> Seq<char> {
    "/apps/"@ + model::uuid_text(app_id) + "/resources"@
}

fn resources_url(app_id: Uuid) -> (r: String)
    ensures
        r@ == resources_url_of(app_id),
{
    let id = app_id.text();
    text::join("/apps/", id.as_str()).concat("/resources")
}

/// To remove a resource of an app for good. The answer is whether it was there.
#[derive(Clone, Copy, Debug, PartialEq, Eq, Structural)]
pub struct DeleteResource {
    pub app: Uuid,
    pub id: Uuid,
}

impl View for DeleteResource {
    type V = DeleteResource;

    open spec fn view(&self) -> DeleteResource {
        *self
    }
}

impl DeleteResource {
    /// What is logged with the removal, both or neither, of the resource as the store had it.
    pub fn entry(self, gone: &DeletedResource) -> (e: AuditEntry)
        ensures
            e@ == audit::resource_deleted_entry(gone),
    {
        audit::resource_deleted(gone)
    }
}

pub open spec fn delete_resource_step(
    c: &Caller,
    app_id: Uuid,
    id: Uuid,
    outcome: Asked<bool>,
) -> step::StepView<DeleteResource> {
    if !gate::admitted(c, Floor::Owner, true) {
        step::replied(gate::refusal(c, Floor::Owner))
    } else {
        match outcome {
            Asked::NotYet => step::StepView::Ask(DeleteResource { app: app_id, id }),
            Asked::Failed => step::gave_up(c.site),
            Asked::Answer(true) => step::replied(
                reply::moved_after(resources_url_of(app_id), c.htmx, "resource_deleted"@, None),
            ),
            Asked::Answer(false) => step::replied(
                reply::moved_failing(resources_url_of(app_id), c.htmx, "resource_not_found"@),
            ),
        }
    }
}

/// `POST /apps/{id}/resources/{rid}/delete`: removes a resource for good. The answer is whether
/// it was there.
pub fn delete_resource(
    c: &Caller,
    app_id: Uuid,
    id: Uuid,
    outcome: &Asked<bool>,
) -> (r: Step<DeleteResource>)
    ensures
        r@ == delete_resource_step(c, app_id, id, *outcome),
{
    match gate::check_all(c, Floor::Owner, true) {
        Ok(()) => {},
        Err(reply) => {
            return Step::replied(reply);
        },
    }
    let back = resources_url(app_id);
    match outcome {
        Asked::NotYet => Step::Ask(DeleteResource { app: app_id, id }),
        Asked::Failed => Step::gave_up(c.site),
        Asked::Answer(true) => Step::replied(
            redirect_with_action_toast(back.as_str(), c.htmx, "resource_deleted", None),
        ),
        Asked::Answer(false) => Step::replied(
            redirect_with_error_toast(back.as_str(), c.htmx, "resource_not_found"),
        ),
    }
}

// ---- Publishers ------------------------------------------------------------------------------

pub open spec fn publishers_step(
    ctx: &ChromeContext,
    list: Asked<Vec<TrustedPublisherListItem>>,
    now: &Timestamp,
) -> step::StepView<Proceed> {
    if !gate::reaches(ctx.user.instance_role, Floor::Owner) {
        step::replied(gate::too_low(ctx.site, Floor::Owner))
    } else {
        match list {
            Asked::NotYet => step::StepView::Ask(Proceed),
            Asked::Failed => step::gave_up(ctx.site),
            Asked::Answer(list) => step::replied(
                reply::ok_page(apps::trusted_publishers_page_html(ctx, list@, now)),
            ),
        }
    }
}

/// `GET /apps/publishers`.
pub fn publishers_page(
    ctx: &ChromeContext,
    list: &Asked<Vec<TrustedPublisherListItem>>,
    now: &Timestamp,
) -> (r: Step<Proceed>)
    ensures
        r@ == publishers_step(ctx, *list, now),
{
    match gate::require_role(ctx.site, ctx.user.instance_role, Floor::Owner) {
        Ok(()) => {},
        Err(reply) => {
            return Step::replied(reply);
        },
    }
    match list {
        Asked::NotYet => Step::Ask(Proceed),
        Asked::Failed => Step::gave_up(ctx.site),
        Asked::Answer(list) => Step::replied(
            Reply::ok_page(apps::trusted_publishers_page(ctx, list.as_slice(), now)),
        ),
    }
}

/// A publisher with its key, to be stored.
pub struct NewPublisher {
    pub publisher: String,
    pub key: Vec<u8>,
}

pub struct NewPublisherView {
    pub publisher: Seq<char>,
    pub key: Seq<u8>,
}

impl View for NewPublisher {
    type V = NewPublisherView;

    open spec fn view(&self) -> NewPublisherView {
        NewPublisherView { publisher: self.publisher@, key: self.key@ }
    }
}

impl NewPublisher {
    /// What is logged with it, both or neither.
    pub fn entry(&self) -> (e: AuditEntry)
        ensures
            e@ == audit::publisher_added_entry(self@.publisher),
    {
        audit::trusted_publisher_added(self.publisher.as_str())
    }
}

pub open spec fn add_publisher_step(
    c: &Caller,
    form: &PublishersAddForm,
    stored: Asked<()>,
) -> step::StepView<NewPublisherView> {
    let publisher = text::trimmed(form.publisher@);
    if !gate::admitted(c, Floor::Owner, true) {
        step::replied(gate::refusal(c, Floor::Owner))
    } else if publisher.len() == 0 {
        step::replied(
            reply::moved_failing("/apps/publishers"@, c.htmx, "publisher_name_required"@),
        )
    } else {
        match display::key_of(form.public_key@) {
            None => step::replied(
                reply::moved_failing("/apps/publishers"@, c.htmx, "invalid_publisher_key"@),
            ),
            Some(key) => match stored {
                Asked::NotYet => step::StepView::Ask(NewPublisherView { publisher, key }),
                Asked::Failed => step::gave_up(c.site),
                Asked::Answer(_) => step::replied(
                    reply::moved_after(
                        "/apps/publishers"@,
                        c.htmx,
                        "publisher_added"@,
                        Some(publisher),
                    ),
                ),
            },
        }
    }
}

/// `POST /apps/publishers`: trusts a publisher's key, or replaces the one it has.
pub fn add_publisher(c: &Caller, form: &PublishersAddForm, stored: &Asked<()>) -> (r: Step<NewPublisher>)
    ensures
        r@ == add_publisher_step(c, form, *stored),
{
    match gate::check_all(c, Floor::Owner, true) {
        Ok(()) => {},
        Err(reply) => {
            return Step::replied(reply);
        },
    }
    let publisher = text::trim(form.publisher.as_str());
    if publisher.as_str().is_empty() {
        return Step::replied(
            redirect_with_error_toast("/apps/publishers", c.htmx, "publisher_name_required"),
        );
    }
    let key = match display::parse_ed25519_hex(form.public_key.as_str()) {
        Some(key) => key,
        None => {
            return Step::replied(
                redirect_with_error_toast("/apps/publishers", c.htmx, "invalid_publisher_key"),
            );
        },
    };
    match stored {
        Asked::NotYet => Step::Ask(NewPublisher { publisher, key }),
        Asked::Failed => Step::gave_up(c.site),
        Asked::Answer(_) => Step::replied(
            redirect_with_action_toast(
                "/apps/publishers",
                c.htmx,
                "publisher_added",
                Some(publisher.as_str()),
            ),
        ),
    }
}

/// A publisher that is stored has a name and a key of 32 bytes.
pub proof fn law_stored_publishers_are_complete(
    c: &Caller,
    form: &PublishersAddForm,
    stored: Asked<()>,
)
    ensures
        add_publisher_step(c, form, stored) matches step::StepView::Ask(p) ==> p.publisher.len() > 0
            && p.key.len() == 32 && gate::admitted(c, Floor::Owner, true),
{
}

/// `GET /apps/publishers/remove-modal`.
pub fn remove_publisher_modal(ctx: &ChromeContext, q: &RemoveModalQuery) -> (r: Reply)
    ensures
        r@ == (if gate::reaches(ctx.user.instance_role, Floor::Owner) {
            reply::ok_page(apps::remove_publisher_dialog_html(q.publisher@, ctx.csrf_token@))
        } else {
            gate::too_low(ctx.site, Floor::Owner)
        }),
{
    match gate::require_role(ctx.site, ctx.user.instance_role, Floor::Owner) {
        Ok(()) => Reply::ok_page(
            apps::remove_publisher_dialog(q.publisher.as_str(), ctx.csrf_token),
        ),
        Err(reply) => reply,
    }
}

/// A publisher to be taken off the list.
pub struct RemovePublisher {
    pub publisher: String,
}

pub struct RemovePublisherView {
    pub publisher: Seq<char>,
}

impl View for RemovePublisher {
    type V = RemovePublisherView;

    open spec fn view(&self) -> RemovePublisherView {
        RemovePublisherView { publisher: self.publisher@ }
    }
}

impl RemovePublisher {
    /// What is logged with it, both or neither; `removed` is whether the publisher was listed.
    pub fn entry(&self, removed: bool) -> (r: Option<AuditEntry>)
        ensures
            audit::of(r) == audit::publisher_removed_entry(removed, self@.publisher),
    {
        audit::trusted_publisher_removed(removed, self.publisher.as_str())
    }
}

pub open spec fn remove_publisher_step(
    c: &Caller,
    form: &RemovePublisherForm,
    removed: Asked<bool>,
) -> step::StepView<RemovePublisherView> {
    if !gate::admitted(c, Floor::Owner, true) {
        step::replied(gate::refusal(c, Floor::Owner))
    } else {
        match removed {
            Asked::NotYet => step::StepView::Ask(
                RemovePublisherView { publisher: form.publisher@ },
            ),
            Asked::Failed => step::gave_up(c.site),
            Asked::Answer(true) => step::replied(
                reply::moved_after(
                    "/apps/publishers"@,
                    c.htmx,
                    "publisher_removed"@,
                    Some(form.publisher@),
                ),
            ),
            Asked::Answer(false) => step::replied(
                reply::moved_failing("/apps/publishers"@, c.htmx, "publisher_not_found"@),
            ),
        }
    }
}

/// `POST /apps/publishers/remove`. The answer is whether the publisher was listed.
pub fn remove_publisher(c: &Caller, form: &RemovePublisherForm, removed: &Asked<bool>) -> (r: Step<RemovePublisher>)
    ensures
        r@ == remove_publisher_step(c, form, *removed),
{
    match gate::check_all(c, Floor::Owner, true) {
        Ok(()) => {},
        Err(reply) => {
            return Step::replied(reply);
        },
    }
    match removed {
        Asked::NotYet => Step::Ask(
            RemovePublisher { publisher: form.publisher.as_str().to_owned() },
        ),
        Asked::Failed => Step::gave_up(c.site),
        Asked::Answer(true) => Step::replied(
            redirect_with_action_toast(
                "/apps/publishers",
                c.htmx,
                "publisher_removed",
                Some(form.publisher.as_str()),
            ),
        ),
        Asked::Answer(false) => Step::replied(
            redirect_with_error_toast("/apps/publishers", c.htmx, "publisher_not_found"),
        ),
    }
}

/// Nothing is done to apps, resources or publishers but by owners, freshly confirmed.
pub proof fn law_app_actions_are_gated(
    c: &Caller,
    change: AppChangeView,
    done: Seq<char>,
    app: Asked<Option<String>>,
    app_id: Uuid,
    id: Uuid,
    resource: Asked<bool>,
    add: &PublishersAddForm,
    stored: Asked<()>,
    remove: &RemovePublisherForm,
    removed: Asked<bool>,
)
    requires
        app_step(c, change, done, app) is Ask || delete_resource_step(c, app_id, id, resource) is Ask
            || add_publisher_step(c, add, stored) is Ask || remove_publisher_step(
            c,
            remove,
            removed,
        ) is Ask,
    ensures
        gate::admitted(c, Floor::Owner, true),
{
}

} // verus!
