//! Registered apps, their resources and the publishers that may sign them.

use vstd::prelude::*;
use crate::display;
use crate::html;
use crate::html::{Markup, Template};
use crate::model;
use crate::model::{
    AdminResourceRow, AppListItem, RegisteredAppRow, Timestamp, TrustedPublisherListItem, Uuid,
};
use crate::text;
use crate::views::events;
use crate::views::shell;
use crate::views::shell::{ChromeContext, PageId};
use crate::views::icons::{APPS_ICON, CLOSE_ICON, SHIELD_ICON, TRASH_ICON};
use crate::views::pending::MUTED_DASH;

verus! {

pub const APP_STATUS_BADGE: &'static str = "<span class=\"¤\">¤</span>";

/// The status of an app with a capital first letter; anything but `enabled` is muted.
pub open spec fn app_status_badge_html(status: Seq<char>) -> Seq<char> {
    html::template(APP_STATUS_BADGE@)
        .text(if status == "enabled"@ {
            "status-badge status-active"@
        } else {
            "status-badge status-deactivated"@
        })
        .text(text::capitalized(status))
        .done()
}

fn app_status_badge(status: &str) -> (m: Markup)
    ensures
        m@ == app_status_badge_html(status@),
{
    let class: &str = if text::same(status, "enabled") {
        "status-badge status-active"
    } else {
        "status-badge status-deactivated"
    };
    let label = text::capitalize(status);
    Template::new(APP_STATUS_BADGE).text(class).text(label.as_str()).done()
}

pub const APP_TYPES: &'static str = "<span class=\"app-types\">¤</span>";

pub const APP_TYPE_CHIP: &'static str = "<span class=\"app-type-chip\">¤</span>";

pub const CODE: &'static str = "<code>¤</code>";

pub open spec fn type_chips_html(types: Seq<String>) -> Seq<char>
    decreases types.len(),
{
    if types.len() == 0 {
        Seq::empty()
    } else {
        let t = types.last();
        type_chips_html(types.drop_last()) + html::template(APP_TYPE_CHIP@).text(t@).done()
    }
}

fn type_chips(types: &[String]) -> (m: Markup)
    ensures
        m@ == type_chips_html(types@),
{
    let mut out = Markup::empty();
    let mut i: usize = 0;
    while i < types.len()
        invariant
            i <= types@.len(),
            out@ == type_chips_html(types@.take(i as int)),
        decreases types@.len() - i,
    {
        let t = &types[i];
        let row = Template::new(APP_TYPE_CHIP).text(t.as_str()).done();
        out = out.then_html(&row);
        i += 1;
        assert(types@.take(i as int).drop_last() =~= types@.take(i - 1));
    }
    assert(types@.take(i as int) =~= types@);
    out
}

pub const APP_ACTIONS_KEBAB: &'static str = "\
    <details class=\"row-actions\">\
      <summary class=\"row-actions-trigger\" aria-label=\"Row actions\">\
        <span aria-hidden=\"true\">⋮</span>\
      </summary>\
      <div class=\"row-actions-menu\">¤\
        <button type=\"button\" class=\"row-action-item row-action-danger\" \
          data-open-modal=\"/apps/¤/modal/uninstall\">Uninstall app…</button>\
      </div>\
    </details>";

pub const APP_DISABLE_ITEM: &'static str = "\
    <button type=\"button\" class=\"row-action-item\" \
      data-open-modal=\"/apps/¤/modal/disable\">Disable app…</button>";

pub const APP_ENABLE_ITEM: &'static str = "\
    <button type=\"button\" class=\"row-action-item\" \
      data-open-modal=\"/apps/¤/modal/enable\">Enable app…</button>";

/// The HTML of [`app_actions_kebab`].
pub open spec fn app_actions_kebab_html(app: &AppListItem) -> Seq<char> {
    let id = app.id;
    html::template(APP_ACTIONS_KEBAB@)
        .html(if app.status@ == "enabled"@ {
            html::template(APP_DISABLE_ITEM@)
                .uuid(id)
                .done()
        } else {
            html::template(APP_ENABLE_ITEM@)
                .uuid(id)
                .done()
        })
        .uuid(id)
        .done()
}

/// The menu of an app: switch it off or on, and uninstall it.
fn app_actions_kebab(app: &AppListItem) -> (m: Markup)
    ensures
        m@ == app_actions_kebab_html(app),
{
    let id = app.id;
    Template::new(APP_ACTIONS_KEBAB)
        .html(&if text::same(app.status.as_str(), "enabled") {
            Template::new(APP_DISABLE_ITEM)
                .uuid(id)
                .done()
        } else {
            Template::new(APP_ENABLE_ITEM)
                .uuid(id)
                .done()
        })
        .uuid(id)
        .done()
}

/// How many resources an app stores; a link to them where there are any.
pub open spec fn app_count_html(app: &AppListItem) -> Seq<char> {
    if app.resource_count > 0 {
        html::template(APP_COUNT_LINK@).uuid(app.id).num(app.resource_count as int).done()
    } else {
        html::template(APP_COUNT@).num(app.resource_count as int).done()
    }
}

fn app_count(app: &AppListItem) -> (m: Markup)
    ensures
        m@ == app_count_html(app),
{
    if app.resource_count > 0 {
        Template::new(APP_COUNT_LINK).uuid(app.id).num(app.resource_count).done()
    } else {
        Template::new(APP_COUNT).num(app.resource_count).done()
    }
}

pub const APP_COUNT_LINK: &'static str = "<a href=\"/apps/¤/resources\">¤</a>";

pub const APP_COUNT: &'static str = "¤";

pub const APP_ROW: &'static str = "\
    <tr>\
      <td class=\"col-app\">\
        <div class=\"user-row-text\">\
          <span class=\"user-name\">¤</span>\
          <span class=\"user-email\">¤</span>\
        </div>\
      </td>\
      <td class=\"col-publisher\">¤</td>\
      <td class=\"col-status\">¤</td>\
      <td class=\"col-types\">¤</td>\
      <td class=\"col-count\">¤</td>\
      <td class=\"col-registered\" title=\"¤\">¤</td>\
      <td class=\"col-actions\">¤</td>\
    </tr>";

/// The HTML of [`app_row`].
pub open spec fn app_row_html(app: &AppListItem, now: &Timestamp) -> Seq<char> {
    html::template(APP_ROW@)
        .text(app.display_name@)
        .text(app.app_identifier@)
        .text(app.publisher@)
        .html(app_status_badge_html(app.status@))
        .html(if app.resource_types@.len() == 0 {
            MUTED_DASH@
        } else {
            html::template(APP_TYPES@).html(type_chips_html(app.resource_types@)).done()
        })
        .html(app_count_html(app))
        .date(app.created_at@, model::SECOND@)
        .text(display::relative(app.created_at@, now@))
        .html(app_actions_kebab_html(app))
        .done()
}

/// One registered app.
fn app_row(app: &AppListItem, now: &Timestamp) -> (m: Markup)
    ensures
        m@ == app_row_html(app, now),
{
    Template::new(APP_ROW)
        .text(app.display_name.as_str())
        .text(app.app_identifier.as_str())
        .text(app.publisher.as_str())
        .html(&app_status_badge(app.status.as_str()))
        .html(&if app.resource_types.len() == 0 {
            Markup::raw(MUTED_DASH)
        } else {
            Template::new(APP_TYPES).html(&type_chips(app.resource_types.as_slice())).done()
        })
        .html(&app_count(app))
        .date(&app.created_at, model::SECOND)
        .text(display::relative_time(&app.created_at, now).as_str())
        .html(&app_actions_kebab(app))
        .done()
}

pub open spec fn app_rows_html(apps: Seq<AppListItem>, now: &Timestamp) -> Seq<char>
    decreases apps.len(),
{
    if apps.len() == 0 {
        Seq::empty()
    } else {
        let app = apps.last();
        app_rows_html(apps.drop_last(), now) + app_row_html(&app, now)
    }
}

fn app_rows(apps: &[AppListItem], now: &Timestamp) -> (m: Markup)
    ensures
        m@ == app_rows_html(apps@, now),
{
    let mut out = Markup::empty();
    let mut i: usize = 0;
    while i < apps.len()
        invariant
            i <= apps@.len(),
            out@ == app_rows_html(apps@.take(i as int), now),
        decreases apps@.len() - i,
    {
        let app = &apps[i];
        let row = app_row(app, now);
        out = out.then_html(&row);
        i += 1;
        assert(apps@.take(i as int).drop_last() =~= apps@.take(i - 1));
    }
    assert(apps@.take(i as int) =~= apps@);
    out
}

pub const APPS_PAGE: &'static str = "\
    <p class=\"muted apps-lead\">Apps that have registered on this instance and the \
      encrypted resources they store. Registration happens over the platform gRPC API. \
      <a href=\"/apps/publishers\">Manage trusted publishers →</a>\
    </p>¤";

pub const NO_APPS: &'static str = "\
    <div class=\"card\">\
      <p class=\"muted\">No apps have registered yet.</p>\
    </div>";

pub const APPS_TABLE: &'static str = "\
    <table class=\"users-table apps-table\">\
      <thead>\
        <tr>\
          <th class=\"col-app\">App</th>\
          <th class=\"col-publisher\">Publisher</th>\
          <th class=\"col-status\">Status</th>\
          <th class=\"col-types\">Resource types</th>\
          <th class=\"col-count\">Resources</th>\
          <th class=\"col-registered\">Registered</th>\
          <th class=\"col-actions\" aria-label=\"Actions\"></th>\
        </tr>\
      </thead>\
      <tbody>¤</tbody>\
    </table>";

/// The HTML of [`apps_page`].
pub open spec fn apps_page_html(
    ctx: &ChromeContext,
    apps: Seq<AppListItem>,
    now: &Timestamp,
) -> Seq<char> {
    let content = html::template(APPS_PAGE@)
        .html(if apps.len() == 0 {
            NO_APPS@
        } else {
            html::template(APPS_TABLE@)
                .html(app_rows_html(apps, now))
                .done()
        })
        .done();
    shell::shell_app_wide_html(ctx, "Apps"@, PageId::Apps, content)
}

/// `GET /apps`: the registered apps.
pub fn apps_page(ctx: &ChromeContext, apps: &[AppListItem], now: &Timestamp) -> (m: Markup)
    ensures
        m@ == apps_page_html(ctx, apps@, now),
{
    let content = Template::new(APPS_PAGE)
        .html(&if apps.len() == 0 {
            Markup::raw(NO_APPS)
        } else {
            Template::new(APPS_TABLE)
                .html(&app_rows(apps, now))
                .done()
        })
        .done();
    shell::shell_app_wide(ctx, "Apps", PageId::Apps, &content)
}

pub const APP_DISABLE_DIALOG: &'static str = "\
    <dialog id=\"dlg-app-disable-¤\" class=\"action-dialog action-dialog-centered\">\
      <form id=\"form-app-disable-¤\" method=\"post\" action=\"/apps/¤/disable\">\
        <div class=\"dialog-header\">\
          <div class=\"dialog-icon dialog-icon-warning\">¤</div>\
          <button type=\"button\" class=\"dialog-close\" data-close-dialog \
            aria-label=\"Close\">¤</button>\
        </div>\
        <h2>Disable ¤?</h2>\
        <p class=\"dialog-description\">\
          <strong>¤</strong> will be blocked from creating or modifying resources until \
            you re-enable it. Existing data is kept, and the app stays registered.\
        </p>¤\
        <div class=\"dialog-actions\">\
          <button type=\"button\" class=\"btn-secondary\" data-close-dialog>Cancel</button>\
          <button type=\"button\" class=\"btn\" \
            data-reauth-confirm=\"form-app-disable-¤\">Disable app</button>\
        </div>\
      </form>\
    </dialog>";

pub const APP_ENABLE_DIALOG: &'static str = "\
    <dialog id=\"dlg-app-enable-¤\" class=\"action-dialog action-dialog-centered\">\
      <form id=\"form-app-enable-¤\" method=\"post\" action=\"/apps/¤/enable\">\
        <div class=\"dialog-header\">\
          <div class=\"dialog-icon dialog-icon-shield\">¤</div>\
          <button type=\"button\" class=\"dialog-close\" data-close-dialog \
            aria-label=\"Close\">¤</button>\
        </div>\
        <h2>Enable ¤?</h2>\
        <p class=\"dialog-description\">Re-enables \
          <strong>¤</strong> to create and modify resources again.\
        </p>¤\
        <div class=\"dialog-actions\">\
          <button type=\"button\" class=\"btn-secondary\" data-close-dialog>Cancel</button>\
          <button type=\"button\" class=\"btn\" \
            data-reauth-confirm=\"form-app-enable-¤\">Enable app</button>\
        </div>\
      </form>\
    </dialog>";

pub const APP_UNINSTALL_DIALOG: &'static str = "\
    <dialog id=\"dlg-app-uninstall-¤\" class=\"action-dialog action-dialog-centered\">\
      <form id=\"form-app-uninstall-¤\" method=\"post\" action=\"/apps/¤/uninstall\">\
        <div class=\"dialog-header\">\
          <div class=\"dialog-icon dialog-icon-danger\">¤</div>\
          <button type=\"button\" class=\"dialog-close\" data-close-dialog \
            aria-label=\"Close\">¤</button>\
        </div>\
        <h2>Uninstall ¤?</h2>\
        <p class=\"dialog-description\">Permanently removes \
          <strong>¤</strong>, its registration, and ¤. This can't be undone.\
        </p>¤\
        <div class=\"dialog-actions\">\
          <button type=\"button\" class=\"btn-secondary\" data-close-dialog>Cancel</button>\
          <button type=\"button\" class=\"btn-danger\" \
            data-reauth-confirm=\"form-app-uninstall-¤\">Uninstall app</button>\
        </div>\
      </form>\
    </dialog>";

pub const UNINSTALL_ONE: &'static str = "\
    the \
    <strong>1 resource</strong> it stores";

pub const UNINSTALL_MANY: &'static str = "\
    all \
    <strong>¤ resources</strong> it stores";

/// The dialog that confirms an app action, by its path segment; an unknown segment has none.
pub open spec fn app_dialog_html(
    seg: Seq<char>,
    app: &RegisteredAppRow,
    resource_count: i64,
    csrf_token: Seq<char>,
) -> Option<Seq<char>> {
    let id = app.id;
    let name = app.display_name;
    if seg == "disable"@ {
        Some(
            html::template(APP_DISABLE_DIALOG@)
                .uuid(id)
                .uuid(id)
                .uuid(id)
                .html(SHIELD_ICON@)
                .html(CLOSE_ICON@)
                .text(name@)
                .text(name@)
                .html(shell::csrf_input_html(csrf_token))
                .uuid(id)
                .done()
        )
    } else if seg == "enable"@ {
        Some(
            html::template(APP_ENABLE_DIALOG@)
                .uuid(id)
                .uuid(id)
                .uuid(id)
                .html(SHIELD_ICON@)
                .html(CLOSE_ICON@)
                .text(name@)
                .text(name@)
                .html(shell::csrf_input_html(csrf_token))
                .uuid(id)
                .done()
        )
    } else if seg == "uninstall"@ {
        Some(
            html::template(APP_UNINSTALL_DIALOG@)
                .uuid(id)
                .uuid(id)
                .uuid(id)
                .html(TRASH_ICON@)
                .html(CLOSE_ICON@)
                .text(name@)
                .text(name@)
                .html(if resource_count == 1 {
                    UNINSTALL_ONE@
                } else {
                    html::template(UNINSTALL_MANY@)
                        .num(resource_count as int)
                        .done()
                })
                .html(shell::csrf_input_html(csrf_token))
                .uuid(id)
                .done()
        )
    } else {
        None
    }
}

/// The dialog that confirms an app action, by its path segment; an unknown segment has none.
pub fn app_action_dialog(
    seg: &str,
    app: &RegisteredAppRow,
    resource_count: i64,
    csrf_token: &str,
) -> (r: Option<Markup>)
    ensures
        match r {
                    Some(m) => app_dialog_html(seg@, app, resource_count, csrf_token@) == Some(m@),
                    None => app_dialog_html(seg@, app, resource_count, csrf_token@) is None,
        },
{
    let id = app.id;
    let name = app.display_name.as_str();
    if text::same(seg, "disable") {
        Some(
            Template::new(APP_DISABLE_DIALOG)
                .uuid(id)
                .uuid(id)
                .uuid(id)
                .raw(SHIELD_ICON)
                .raw(CLOSE_ICON)
                .text(name)
                .text(name)
                .html(&shell::csrf_input(csrf_token))
                .uuid(id)
                .done()
        )
    } else if text::same(seg, "enable") {
        Some(
            Template::new(APP_ENABLE_DIALOG)
                .uuid(id)
                .uuid(id)
                .uuid(id)
                .raw(SHIELD_ICON)
                .raw(CLOSE_ICON)
                .text(name)
                .text(name)
                .html(&shell::csrf_input(csrf_token))
                .uuid(id)
                .done()
        )
    } else if text::same(seg, "uninstall") {
        Some(
            Template::new(APP_UNINSTALL_DIALOG)
                .uuid(id)
                .uuid(id)
                .uuid(id)
                .raw(TRASH_ICON)
                .raw(CLOSE_ICON)
                .text(name)
                .text(name)
                .html(&if resource_count == 1 {
                    Markup::raw(UNINSTALL_ONE)
                } else {
                    Template::new(UNINSTALL_MANY)
                        .num(resource_count as i64)
                        .done()
                })
                .html(&shell::csrf_input(csrf_token))
                .uuid(id)
                .done()
        )
    } else {
        None
    }
}

/// What the resource browser of an app shows.
pub struct AppResourcesView<'a> {
    pub app: &'a RegisteredAppRow,
    pub rows: &'a [AdminResourceRow],
    /// How many resources match, which may be more than are shown.
    pub total: i64,
    /// How many are shown at most, the newest first.
    pub cap: i64,
    pub type_filter: &'a str,
    pub search: &'a str,
    pub include_deleted: bool,
    pub now: Timestamp,
}

/// The content of an [`AppResourcesView`].
pub struct AppResourcesText {
    pub app: RegisteredAppRow,
    pub rows: Seq<AdminResourceRow>,
    pub total: i64,
    pub cap: i64,
    pub type_filter: Seq<char>,
    pub search: Seq<char>,
    pub include_deleted: bool,
    pub now: Timestamp,
}

impl<'a> View for AppResourcesView<'a> {
    type V = AppResourcesText;

    open spec fn view(&self) -> AppResourcesText {
        AppResourcesText {
            app: *self.app,
            rows: self.rows@,
            total: self.total,
            cap: self.cap,
            type_filter: self.type_filter@,
            search: self.search@,
            include_deleted: self.include_deleted,
            now: self.now,
        }
    }
}

pub const TYPE_OPTION: &'static str = "<option value=\"¤\"¤>¤</option>";

/// One resource type to choose.
pub open spec fn type_option_html(t: Seq<char>, selected: Seq<char>) -> Seq<char> {
    html::template(TYPE_OPTION@).text(t).when(t == selected, " selected"@).text(t).done()
}

fn type_option(t: &str, selected: &str) -> (m: Markup)
    ensures
        m@ == type_option_html(t@, selected@),
{
    Template::new(TYPE_OPTION).text(t).when(text::same(t, selected), " selected").text(t).done()
}

pub open spec fn type_options_html(types: Seq<String>, selected: Seq<char>) -> Seq<char>
    decreases types.len(),
{
    if types.len() == 0 {
        Seq::empty()
    } else {
        let t = types.last();
        type_options_html(types.drop_last(), selected) + type_option_html(t@, selected)
    }
}

fn type_options(types: &[String], selected: &str) -> (m: Markup)
    ensures
        m@ == type_options_html(types@, selected@),
{
    let mut out = Markup::empty();
    let mut i: usize = 0;
    while i < types.len()
        invariant
            i <= types@.len(),
            out@ == type_options_html(types@.take(i as int), selected@),
        decreases types@.len() - i,
    {
        let t = &types[i];
        let row = type_option(t.as_str(), selected);
        out = out.then_html(&row);
        i += 1;
        assert(types@.take(i as int).drop_last() =~= types@.take(i - 1));
    }
    assert(types@.take(i as int) =~= types@);
    out
}

pub const APP_RESOURCES_TOOLBAR: &'static str = "\
    <form method=\"get\" action=\"/apps/¤/resources\" class=\"users-toolbar events-toolbar\">\
      <input type=\"search\" name=\"q\" value=\"¤\" class=\"users-search\" \
        placeholder=\"Resource ID (UUID)…\" autocomplete=\"off\" aria-label=\"Search by \
        resource ID\">\
      <select name=\"type\" class=\"settings-select events-type-select\" aria-label=\"Filter \
        by resource type\">\
        <option value=\"\"¤>All types</option>¤\
      </select>\
      <label class=\"resources-include-deleted\">\
        <input type=\"checkbox\" name=\"deleted\" value=\"1\"¤> Include deleted\
      </label>\
      <button type=\"submit\" class=\"btn-secondary\">Apply</button>\
    </form>";

/// The HTML of [`app_resources_toolbar`].
pub open spec fn app_resources_toolbar_html(v: AppResourcesText) -> Seq<char> {
    html::template(APP_RESOURCES_TOOLBAR@)
        .uuid(v.app.id)
        .text(v.search)
        .when(v.type_filter.len() == 0, " selected"@)
        .html(type_options_html(v.app.resource_types@, v.type_filter))
        .when(v.include_deleted, " checked"@)
        .done()
}

/// The filters of the resource browser.
fn app_resources_toolbar(v: &AppResourcesView) -> (m: Markup)
    ensures
        m@ == app_resources_toolbar_html(v@),
{
    Template::new(APP_RESOURCES_TOOLBAR)
        .uuid(v.app.id)
        .text(v.search)
        .when(v.type_filter.is_empty(), " selected")
        .html(&type_options(v.app.resource_types.as_slice(), v.type_filter))
        .when(v.include_deleted, " checked")
        .done()
}

pub const APP_RESOURCE_ROW: &'static str = "\
    <tr class=\"events-row\" data-open-modal=\"/apps/¤/resources/¤/modal\">\
      <td class=\"col-rtype\">\
        <span class=\"app-type-chip\">¤</span>\
      </td>\
      <td class=\"col-rid\">\
        <code class=\"resource-id\">¤</code>\
      </td>\
      <td class=\"col-owner\">¤</td>\
      <td class=\"col-size\">¤</td>\
      <td class=\"col-updated\" title=\"¤\">¤</td>\
      <td class=\"col-rstatus\">¤</td>\
    </tr>";

pub const RESOURCE_DELETED: &'static str = "\
    <span class=\"status-badge status-deleted\">Deleted</span>";

pub const RESOURCE_LIVE: &'static str = "<span class=\"status-badge status-active\">Live</span>";

/// The HTML of [`app_resource_row`].
pub open spec fn app_resource_row_html(
    app_id: Uuid,
    r: &AdminResourceRow,
    now: &Timestamp,
) -> Seq<char> {
    html::template(APP_RESOURCE_ROW@)
        .uuid(app_id)
        .uuid(r.id)
        .text(r.resource_type@)
        .uuid(r.app_resource_id)
        .html(match r.owner_display_name {
            Some(n) => html::escaped(n@),
            None => MUTED_DASH@,
        })
        .text(display::bytes_text(r.content_len as int))
        .date(r.updated_at@, model::SECOND@)
        .text(display::relative(r.updated_at@, now@))
        .html(if r.deleted_at is Some {
            RESOURCE_DELETED@
        } else {
            RESOURCE_LIVE@
        })
        .done()
}

/// One stored resource.
fn app_resource_row(app_id: Uuid, r: &AdminResourceRow, now: &Timestamp) -> (m: Markup)
    ensures
        m@ == app_resource_row_html(app_id, r, now),
{
    Template::new(APP_RESOURCE_ROW)
        .uuid(app_id)
        .uuid(r.id)
        .text(r.resource_type.as_str())
        .uuid(r.app_resource_id)
        .html(&match &r.owner_display_name {
            Some(n) => Markup::text(n.as_str()),
            None => Markup::raw(MUTED_DASH),
        })
        .text(display::format_bytes(r.content_len).as_str())
        .date(&r.updated_at, model::SECOND)
        .text(display::relative_time(&r.updated_at, now).as_str())
        .html(&if r.deleted_at.is_some() {
            Markup::raw(RESOURCE_DELETED)
        } else {
            Markup::raw(RESOURCE_LIVE)
        })
        .done()
}

pub open spec fn resource_rows_html(rows: Seq<AdminResourceRow>, app_id: Uuid, now: &Timestamp) -> Seq<char>
    decreases rows.len(),
{
    if rows.len() == 0 {
        Seq::empty()
    } else {
        let r = rows.last();
        resource_rows_html(rows.drop_last(), app_id, now) + app_resource_row_html(app_id, &r, now)
    }
}

fn resource_rows(rows: &[AdminResourceRow], app_id: Uuid, now: &Timestamp) -> (m: Markup)
    ensures
        m@ == resource_rows_html(rows@, app_id, now),
{
    let mut out = Markup::empty();
    let mut i: usize = 0;
    while i < rows.len()
        invariant
            i <= rows@.len(),
            out@ == resource_rows_html(rows@.take(i as int), app_id, now),
        decreases rows@.len() - i,
    {
        let r = &rows[i];
        let row = app_resource_row(app_id, r, now);
        out = out.then_html(&row);
        i += 1;
        assert(rows@.take(i as int).drop_last() =~= rows@.take(i - 1));
    }
    assert(rows@.take(i as int) =~= rows@);
    out
}

pub const APP_RESOURCES_PAGE: &'static str = "\
    <p class=\"muted apps-lead\">Resources stored by \
      <strong>¤</strong> (¤). Content is encrypted — the server only sees metadata. \
      <a href=\"/apps\">← Back to Apps</a>\
    </p>¤¤";

pub const NO_RESOURCES: &'static str = "\
    <div class=\"card\">\
      <p class=\"muted\">¤</p>\
    </div>";

pub const NO_MATCHING_RESOURCES: &'static str = "No resources match these filters.";

pub const NO_RESOURCES_YET: &'static str = "This app hasn't stored any resources yet.";

pub const RESOURCES_TABLE: &'static str = "\
    <table class=\"users-table apps-table resources-table\">\
      <thead>\
        <tr>\
          <th class=\"col-rtype\">Type</th>\
          <th class=\"col-rid\">Resource ID</th>\
          <th class=\"col-owner\">Owner</th>\
          <th class=\"col-size\">Size</th>\
          <th class=\"col-updated\">Updated</th>\
          <th class=\"col-rstatus\">Status</th>\
        </tr>\
      </thead>\
      <tbody>¤</tbody>\
    </table>\
    <p class=\"muted resources-count\">Showing ¤ of ¤¤¤</p>";

pub const ONE_RESOURCE: &'static str = " resource.";

pub const MANY_RESOURCES: &'static str = " resources.";

pub const RESOURCES_TRUNCATED: &'static str = " Newest ¤ shown — narrow with the filters above to reach the rest.";

/// The HTML of [`app_resources_page`].
pub open spec fn app_resources_page_html(ctx: &ChromeContext, v: AppResourcesText) -> Seq<char> {
    let filtering = v.search.len() > 0 || v.type_filter.len() > 0 || v.include_deleted;
    let truncated = v.total > v.rows.len();
    let content = html::template(APP_RESOURCES_PAGE@)
        .text(v.app.display_name@)
        .text(v.app.app_identifier@)
        .html(app_resources_toolbar_html(v))
        .html(if v.rows.len() == 0 {
            html::template(NO_RESOURCES@)
                .html(if filtering {
                    NO_MATCHING_RESOURCES@
                } else {
                    NO_RESOURCES_YET@
                })
                .done()
        } else {
            html::template(RESOURCES_TABLE@)
                .html(resource_rows_html(v.rows, v.app.id, &v.now))
                .text(text::decimal(v.rows.len()))
                .num(v.total as int)
                .html(if v.total == 1 {
                    ONE_RESOURCE@
                } else {
                    MANY_RESOURCES@
                })
                .html(if truncated {
                    html::template(RESOURCES_TRUNCATED@)
                        .num(v.cap as int)
                        .done()
                } else {
                    Seq::empty()
                })
                .done()
        })
        .done();
    shell::shell_app_wide_html(ctx, "Resources"@, PageId::Apps, content)
}

/// `GET /apps/{id}/resources`: the resources an app stores.
pub fn app_resources_page(ctx: &ChromeContext, v: &AppResourcesView) -> (m: Markup)
    ensures
        m@ == app_resources_page_html(ctx, v@),
{
    let filtering: bool = !v.search.is_empty() || !v.type_filter.is_empty() || v.include_deleted;
    let shown: usize = v.rows.len();
    let truncated: bool = v.total > 0 && v.total as u64 > shown as u64;
    let content = Template::new(APP_RESOURCES_PAGE)
        .text(v.app.display_name.as_str())
        .text(v.app.app_identifier.as_str())
        .html(&app_resources_toolbar(v))
        .html(&if shown == 0 {
            Template::new(NO_RESOURCES)
                .html(&if filtering {
                    Markup::raw(NO_MATCHING_RESOURCES)
                } else {
                    Markup::raw(NO_RESOURCES_YET)
                })
                .done()
        } else {
            Template::new(RESOURCES_TABLE)
                .html(&resource_rows(v.rows, v.app.id, &v.now))
                .text(text::decimal_string(shown as u64).as_str())
                .num(v.total as i64)
                .html(&if v.total == 1 {
                    Markup::raw(ONE_RESOURCE)
                } else {
                    Markup::raw(MANY_RESOURCES)
                })
                .html(&if truncated {
                    Template::new(RESOURCES_TRUNCATED)
                        .num(v.cap as i64)
                        .done()
                } else {
                    Markup::empty()
                })
                .done()
        })
        .done();
    shell::shell_app_wide(ctx, "Resources", PageId::Apps, &content)
}

pub const ENCRYPTED_SIZE: &'static str = "¤ · encrypted (not shown)";

/// Who owns a resource; a dash where nobody is known to.
pub open spec fn owner_text_html(r: &AdminResourceRow) -> Seq<char> {
    match r.owner_display_name {
        Some(n) => html::escaped(n@),
        None => html::escaped("—"@),
    }
}

fn owner_text(r: &AdminResourceRow) -> (m: Markup)
    ensures
        m@ == owner_text_html(r),
{
    match &r.owner_display_name {
        Some(n) => Markup::text(n.as_str()),
        None => Markup::text("—"),
    }
}

/// The resource one belongs to, if any.
pub open spec fn parent_text_html(r: &AdminResourceRow) -> Seq<char> {
    match r.parent_resource_id {
        Some(p) => html::template(CODE@).uuid(p).done(),
        None => MUTED_DASH@,
    }
}

fn parent_text(r: &AdminResourceRow) -> (m: Markup)
    ensures
        m@ == parent_text_html(r),
{
    match r.parent_resource_id {
        Some(p) => Template::new(CODE).uuid(p).done(),
        None => Markup::raw(MUTED_DASH),
    }
}

pub const RESOURCE_DETAIL: &'static str = "\
    <dialog id=\"dlg-resource-detail\" class=\"action-dialog action-dialog-centered\">\
      <div class=\"dialog-header\">\
        <div class=\"dialog-icon dialog-icon-shield\">¤</div>\
        <button type=\"button\" class=\"dialog-close\" data-close-dialog \
          aria-label=\"Close\">¤</button>\
      </div>\
      <h2>Resource</h2>\
      <div class=\"event-detail\">¤¤¤¤¤¤¤¤¤¤¤</div>\
      <p class=\"dialog-description resource-delete-note\">Deleting purges this resource \
        entirely — its owner and their other devices won't receive a tombstone. This \
        can't be undone.</p>\
      <form id=\"form-resource-delete\" method=\"post\" \
        action=\"/apps/¤/resources/¤/delete\">¤</form>\
      <div class=\"dialog-actions\">\
        <button type=\"button\" class=\"btn-secondary\" data-close-dialog>Close</button>\
        <button type=\"button\" class=\"btn-danger\" \
          data-reauth-confirm=\"form-resource-delete\">Delete permanently</button>\
      </div>\
    </dialog>";

/// The HTML of [`app_resource_detail_modal`].
pub open spec fn app_resource_detail_modal_html(
    app_id: Uuid,
    r: &AdminResourceRow,
    csrf_token: Seq<char>,
) -> Seq<char> {
    html::template(RESOURCE_DETAIL@)
        .html(APPS_ICON@)
        .html(CLOSE_ICON@)
        .html(events::detail_pair_html(
            "Type"@,
            html::template(APP_TYPE_CHIP@).text(r.resource_type@).done(),
        ))
        .html(events::detail_pair_html(
            "Resource ID"@,
            html::template(CODE@).uuid(r.app_resource_id).done(),
        ))
        .html(events::detail_pair_html("Server ID"@, html::template(CODE@).uuid(r.id).done()))
        .html(events::detail_pair_html("Owner"@, owner_text_html(r)))
        .html(events::detail_pair_html("Parent"@, parent_text_html(r)))
        .html(events::detail_pair_html(
            "Schema version"@,
            html::template(APP_COUNT@).num(r.schema_version as int).done(),
        ))
        .html(events::detail_pair_html(
            "Content"@,
            html::template(ENCRYPTED_SIZE@).text(display::bytes_text(r.content_len as int)).done(),
        ))
        .html(events::detail_pair_html(
            "Signature"@,
            html::escaped(display::bytes_text(r.signature_len as int)),
        ))
        .html(events::detail_pair_html(
            "Created"@,
            html::escaped(model::date_text(r.created_at@, model::SECOND@)),
        ))
        .html(events::detail_pair_html(
            "Updated"@,
            html::escaped(model::date_text(r.updated_at@, model::SECOND@)),
        ))
        .html(match r.deleted_at {
            Some(d) => events::detail_pair_html(
                "Deleted"@,
                html::escaped(model::date_text(d@, model::SECOND@)),
            ),
            None => Seq::empty(),
        })
        .uuid(app_id)
        .uuid(r.id)
        .html(shell::csrf_input_html(csrf_token))
        .done()
}

/// The detail dialog of a resource, with the button that deletes it for good.
pub fn app_resource_detail_modal(
    app_id: Uuid,
    r: &AdminResourceRow,
    csrf_token: &str,
) -> (m: Markup)
    ensures
        m@ == app_resource_detail_modal_html(app_id, r, csrf_token@),
{
    Template::new(RESOURCE_DETAIL)
        .raw(APPS_ICON)
        .raw(CLOSE_ICON)
        .html(&events::detail_pair(
            "Type",
            &Template::new(APP_TYPE_CHIP).text(r.resource_type.as_str()).done(),
        ))
        .html(&events::detail_pair(
            "Resource ID",
            &Template::new(CODE).uuid(r.app_resource_id).done(),
        ))
        .html(&events::detail_pair("Server ID", &Template::new(CODE).uuid(r.id).done()))
        .html(&events::detail_pair("Owner", &owner_text(r)))
        .html(&events::detail_pair("Parent", &parent_text(r)))
        .html(&events::detail_pair(
            "Schema version",
            &Template::new(APP_COUNT).num(r.schema_version as i64).done(),
        ))
        .html(&events::detail_pair(
            "Content",
            &Template::new(ENCRYPTED_SIZE).text(display::format_bytes(r.content_len).as_str()).done(),
        ))
        .html(&events::detail_pair(
            "Signature",
            &Markup::text(display::format_bytes(r.signature_len).as_str()),
        ))
        .html(&events::detail_pair(
            "Created",
            &Markup::text(r.created_at.format(model::SECOND).as_str()),
        ))
        .html(&events::detail_pair(
            "Updated",
            &Markup::text(r.updated_at.format(model::SECOND).as_str()),
        ))
        .html(&match &r.deleted_at {
            Some(d) => events::detail_pair(
                "Deleted",
                &Markup::text(d.format(model::SECOND).as_str()),
            ),
            None => Markup::empty(),
        })
        .uuid(app_id)
        .uuid(r.id)
        .html(&shell::csrf_input(csrf_token))
        .done()
}

pub const PUBLISHER_ROW: &'static str = "\
    <tr>\
      <td class=\"col-pub\">¤</td>\
      <td class=\"col-key\">\
        <code class=\"resource-id\" title=\"¤\">¤</code>\
      </td>\
      <td class=\"col-addedby\">¤</td>\
      <td class=\"col-added\" title=\"¤\">¤</td>\
      <td class=\"col-actions\">\
        <details class=\"row-actions\">\
          <summary class=\"row-actions-trigger\" aria-label=\"Row actions\">\
            <span aria-hidden=\"true\">⋮</span>\
          </summary>\
          <div class=\"row-actions-menu\">\
            <button type=\"button\" class=\"row-action-item row-action-danger\" \
              data-open-modal=\"¤\">Remove…</button>\
          </div>\
        </details>\
      </td>\
    </tr>";

/// The HTML of [`publisher_row`].
pub open spec fn publisher_row_html(p: &TrustedPublisherListItem, now: &Timestamp) -> Seq<char> {
    let key_hex = display::hex_text(p.public_key@);
    let remove_url = "/apps/publishers/remove-modal?publisher="@
        + display::query_text(p.publisher@);
    html::template(PUBLISHER_ROW@)
        .text(p.publisher@)
        .text(key_hex)
        .text(display::shortened(key_hex))
        .html(match p.added_by_name {
            Some(n) => html::escaped(n@),
            None => MUTED_DASH@,
        })
        .date(p.added_at@, model::SECOND@)
        .text(display::relative(p.added_at@, now@))
        .text(remove_url)
        .done()
}

/// One trusted publisher.
fn publisher_row(p: &TrustedPublisherListItem, now: &Timestamp) -> (m: Markup)
    ensures
        m@ == publisher_row_html(p, now),
{
    let key_hex = display::hex_encode(&p.public_key);
    proof {
        display::lemma_hex_ascii(p.public_key@);
    }
    let key_text = display::key_short(key_hex.as_str());
    let encoded = display::query_encode(p.publisher.as_str());
    let remove_url = text::join("/apps/publishers/remove-modal?publisher=", encoded.as_str());
    Template::new(PUBLISHER_ROW)
        .text(p.publisher.as_str())
        .text(key_hex.as_str())
        .text(key_text.as_str())
        .html(&match &p.added_by_name {
            Some(n) => Markup::text(n.as_str()),
            None => Markup::raw(MUTED_DASH),
        })
        .date(&p.added_at, model::SECOND)
        .text(display::relative_time(&p.added_at, now).as_str())
        .text(remove_url.as_str())
        .done()
}

pub open spec fn publisher_rows_html(publishers: Seq<TrustedPublisherListItem>, now: &Timestamp) -> Seq<char>
    decreases publishers.len(),
{
    if publishers.len() == 0 {
        Seq::empty()
    } else {
        let p = publishers.last();
        publisher_rows_html(publishers.drop_last(), now) + publisher_row_html(&p, now)
    }
}

fn publisher_rows(publishers: &[TrustedPublisherListItem], now: &Timestamp) -> (m: Markup)
    ensures
        m@ == publisher_rows_html(publishers@, now),
{
    let mut out = Markup::empty();
    let mut i: usize = 0;
    while i < publishers.len()
        invariant
            i <= publishers@.len(),
            out@ == publisher_rows_html(publishers@.take(i as int), now),
        decreases publishers@.len() - i,
    {
        let p = &publishers[i];
        let row = publisher_row(p, now);
        out = out.then_html(&row);
        i += 1;
        assert(publishers@.take(i as int).drop_last() =~= publishers@.take(i - 1));
    }
    assert(publishers@.take(i as int) =~= publishers@);
    out
}

pub const TRUSTED_PUBLISHERS_PAGE: &'static str = "\
    <p class=\"muted apps-lead\">Publishers whose Ed25519 key may sign app registrations \
      on this instance. Removing one doesn't affect already-registered apps. \
      <a href=\"/apps\">← Back to Apps</a>\
    </p>\
    <div class=\"card publisher-add-card\">\
      <h2>Add a trusted publisher</h2>\
      <form id=\"form-add-publisher\" method=\"post\" action=\"/apps/publishers\">¤\
        <div class=\"field\">\
          <label for=\"pub-name\">Publisher</label>\
          <input type=\"text\" name=\"publisher\" id=\"pub-name\" required autocomplete=\"off\" \
            placeholder=\"e.g. Ubivera, LLC\">\
        </div>\
        <div class=\"field\">\
          <label for=\"pub-key\">Public key \
            <span class=\"muted\">(64-character hex Ed25519)</span>\
          </label>\
          <input type=\"text\" name=\"public_key\" id=\"pub-key\" required autocomplete=\"off\" \
            spellcheck=\"false\" class=\"publisher-key-input\" placeholder=\"0123abcd…\">\
        </div>\
        <div class=\"dialog-actions\">\
          <button type=\"button\" class=\"btn\" \
            data-reauth-confirm=\"form-add-publisher\">Add publisher</button>\
        </div>\
      </form>\
    </div>¤";

pub const NO_PUBLISHERS: &'static str = "\
    <div class=\"card\">\
      <p class=\"muted\">No trusted publishers yet. Add one above before any app can \
        register.</p>\
    </div>";

pub const PUBLISHERS_TABLE: &'static str = "\
    <table class=\"users-table apps-table publishers-table\">\
      <thead>\
        <tr>\
          <th class=\"col-pub\">Publisher</th>\
          <th class=\"col-key\">Public key</th>\
          <th class=\"col-addedby\">Added by</th>\
          <th class=\"col-added\">Added</th>\
          <th class=\"col-actions\" aria-label=\"Actions\"></th>\
        </tr>\
      </thead>\
      <tbody>¤</tbody>\
    </table>";

/// The HTML of [`trusted_publishers_page`].
pub open spec fn trusted_publishers_page_html(
    ctx: &ChromeContext,
    publishers: Seq<TrustedPublisherListItem>,
    now: &Timestamp,
) -> Seq<char> {
    let content = html::template(TRUSTED_PUBLISHERS_PAGE@)
        .html(shell::csrf_input_html(ctx.csrf_token@))
        .html(if publishers.len() == 0 {
            NO_PUBLISHERS@
        } else {
            html::template(PUBLISHERS_TABLE@)
                .html(publisher_rows_html(publishers, now))
                .done()
        })
        .done();
    shell::shell_app_wide_html(ctx, "Trusted publishers"@, PageId::Apps, content)
}

/// `GET /apps/publishers`: the trusted publishers and the form that adds one.
pub fn trusted_publishers_page(
    ctx: &ChromeContext,
    publishers: &[TrustedPublisherListItem],
    now: &Timestamp,
) -> (m: Markup)
    ensures
        m@ == trusted_publishers_page_html(ctx, publishers@, now),
{
    let content = Template::new(TRUSTED_PUBLISHERS_PAGE)
        .html(&shell::csrf_input(ctx.csrf_token))
        .html(&if publishers.len() == 0 {
            Markup::raw(NO_PUBLISHERS)
        } else {
            Template::new(PUBLISHERS_TABLE)
                .html(&publisher_rows(publishers, now))
                .done()
        })
        .done();
    shell::shell_app_wide(ctx, "Trusted publishers", PageId::Apps, &content)
}

pub const REMOVE_PUBLISHER_DIALOG: &'static str = "\
    <dialog id=\"dlg-remove-publisher\" class=\"action-dialog action-dialog-centered\">\
      <form id=\"form-remove-publisher\" method=\"post\" action=\"/apps/publishers/remove\">\
        <div class=\"dialog-header\">\
          <div class=\"dialog-icon dialog-icon-warning\">¤</div>\
          <button type=\"button\" class=\"dialog-close\" data-close-dialog \
            aria-label=\"Close\">¤</button>\
        </div>\
        <h2>Remove ¤?</h2>\
        <p class=\"dialog-description\">Apps signed by \
          <strong>¤</strong> won't be able to register from now on. Already-registered \
            apps keep working, and you can add the publisher back any time.\
        </p>¤\
        <input type=\"hidden\" name=\"publisher\" value=\"¤\">\
        <div class=\"dialog-actions\">\
          <button type=\"button\" class=\"btn-secondary\" data-close-dialog>Cancel</button>\
          <button type=\"button\" class=\"btn-danger\" \
            data-reauth-confirm=\"form-remove-publisher\">Remove publisher</button>\
        </div>\
      </form>\
    </dialog>";

/// The HTML of [`remove_publisher_dialog`].
pub open spec fn remove_publisher_dialog_html(
    publisher: Seq<char>,
    csrf_token: Seq<char>,
) -> Seq<char> {
    html::template(REMOVE_PUBLISHER_DIALOG@)
        .html(SHIELD_ICON@)
        .html(CLOSE_ICON@)
        .text(publisher)
        .text(publisher)
        .html(shell::csrf_input_html(csrf_token))
        .text(publisher)
        .done()
}

/// Asks whether to remove a trusted publisher.
pub fn remove_publisher_dialog(publisher: &str, csrf_token: &str) -> (m: Markup)
    ensures
        m@ == remove_publisher_dialog_html(publisher@, csrf_token@),
{
    Template::new(REMOVE_PUBLISHER_DIALOG)
        .raw(SHIELD_ICON)
        .raw(CLOSE_ICON)
        .text(publisher)
        .text(publisher)
        .html(&shell::csrf_input(csrf_token))
        .text(publisher)
        .done()
}

} // verus!
