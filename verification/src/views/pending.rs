//! Owner-on-owner actions that wait for a veto.

use vstd::prelude::*;
use crate::display;
use crate::display::Remaining;
use crate::html;
use crate::html::{Markup, Template};
use crate::model;
use crate::model::{
    InstanceRole, Timestamp, TransitionKind, TransitionRow, TransitionState, User, Uuid,
};
use crate::text;
use crate::views::shell;
use crate::views::shell::{ChromeContext, PageId};
use crate::views::icons::{ALERT_CIRCLE_ICON, CLOSE_ICON, SHIELD_ICON};
use crate::views::scripts::REAUTH_CHAIN_JS;

verus! {

/// What a transition will do, in words.
pub open spec fn action_label_of(kind: TransitionKind) -> Seq<char> {
    match kind {
        TransitionKind::Deactivate => "Deactivate"@,
        TransitionKind::Anonymize => "Anonymize"@,
        TransitionKind::Delete => "Delete"@,
        TransitionKind::RoleChange(Some(InstanceRole::Owner)) => "Promote to Owner"@,
        TransitionKind::RoleChange(Some(InstanceRole::Admin)) => "Change to Admin"@,
        TransitionKind::RoleChange(Some(InstanceRole::Member)) => "Demote to Member"@,
        TransitionKind::RoleChange(None) => "Change role"@,
    }
}

/// What a transition will do, in words.
pub fn pending_action_label(row: &TransitionRow) -> (r: &'static str)
    ensures
        r@ == action_label_of(row.kind),
{
    match row.kind {
        TransitionKind::Deactivate => "Deactivate",
        TransitionKind::Anonymize => "Anonymize",
        TransitionKind::Delete => "Delete",
        TransitionKind::RoleChange(Some(InstanceRole::Owner)) => "Promote to Owner",
        TransitionKind::RoleChange(Some(InstanceRole::Admin)) => "Change to Admin",
        TransitionKind::RoleChange(Some(InstanceRole::Member)) => "Demote to Member",
        TransitionKind::RoleChange(None) => "Change role",
    }
}

pub const MUTED_DASH: &'static str = "<span class=\"muted-dash\">—</span>";

/// What is left of a veto window, and how urgent it looks.
pub open spec fn remaining_pill_of(r: Remaining) -> (Seq<char>, Seq<char>) {
    match r {
        Remaining::Over => ("Imminent"@, "time-pill time-pill-urgent"@),
        Remaining::Hours(h) => (text::decimal(h as nat) + "h left"@, "time-pill"@),
        Remaining::Minutes(m) => (text::decimal(m as nat) + "m left"@, "time-pill time-pill-urgent"@),
    }
}

pub const TIME_REMAINING_PILL: &'static str = "<span class=\"¤\">¤</span>";

/// The HTML of [`time_remaining_pill`].
pub open spec fn time_remaining_pill_html(effective_at: &Timestamp, now: &Timestamp) -> Seq<char> {
    let pill = remaining_pill_of(display::remaining_of(effective_at@, now@));
    html::template(TIME_REMAINING_PILL@)
        .text(pill.1)
        .text(pill.0)
        .done()
}

/// How much of a veto window is left.
pub fn time_remaining_pill(effective_at: &Timestamp, now: &Timestamp) -> (m: Markup)
    ensures
        m@ == time_remaining_pill_html(effective_at, now),
{
    let (label, class): (String, &str) = match display::remaining(effective_at, now) {
        Remaining::Over => ("Imminent".to_owned(), "time-pill time-pill-urgent"),
        Remaining::Hours(h) => (text::decimal_string(h).concat("h left"), "time-pill"),
        Remaining::Minutes(m) => (
            text::decimal_string(m).concat("m left"),
            "time-pill time-pill-urgent",
        ),
    };
    Template::new(TIME_REMAINING_PILL)
        .text(class)
        .text(label.as_str())
        .done()
}

/// The account with an identifier: the last one listed with it.
pub open spec fn user_with(users: Seq<User>, id: Uuid) -> Option<User>
    decreases users.len(),
{
    if users.len() == 0 {
        None
    } else if users.last().id == id {
        Some(users.last())
    } else {
        user_with(users.drop_last(), id)
    }
}

pub open spec fn user_with_opt(users: Seq<User>, id: Option<Uuid>) -> Option<User> {
    match id {
        Some(i) => user_with(users, i),
        None => None,
    }
}

/// The account with an identifier: the last one listed with it.
pub fn find_user<'a>(users: &'a [User], id: Option<Uuid>) -> (r: Option<&'a User>)
    ensures
        match r {
            Some(u) => user_with_opt(users@, id) == Some(*u),
            None => user_with_opt(users@, id) is None,
        },
{
    match id {
        Some(wanted) => {
            let mut n: usize = users.len();
            assert(users@.take(n as int) =~= users@);
            while n > 0
                invariant
                    n <= users@.len(),
                    id == Some(wanted),
                    user_with(users@, wanted) == user_with(users@.take(n as int), wanted),
                decreases n,
            {
                assert(users@.take(n as int).drop_last() =~= users@.take(n - 1));
                if users[n - 1].id == wanted {
                    return Some(&users[n - 1]);
                }
                n -= 1;
            }
            None
        },
        None => None,
    }
}

pub const USER_CELL: &'static str = "\
    <div class=\"user-row-id\">¤\
      <div class=\"user-row-text\">\
        <span class=\"user-name\">¤</span>\
        <span class=\"user-email\">¤</span>\
      </div>\
    </div>";

/// The HTML of [`user_cell`].
pub open spec fn user_cell_html(u: &User) -> Seq<char> {
    html::template(USER_CELL@)
        .html(shell::avatar_block_html(u.display_name@, u.id, u.lifecycle))
        .text(u.display_name@)
        .text(u.email@)
        .done()
}

/// An account with its avatar, name and email.
pub fn user_cell(u: &User) -> (m: Markup)
    ensures
        m@ == user_cell_html(u),
{
    Template::new(USER_CELL)
        .html(&shell::avatar_block(u.display_name.as_str(), u.id, u.lifecycle))
        .text(u.display_name.as_str())
        .text(u.email.as_str())
        .done()
}

pub const UNKNOWN_MEMBER: &'static str = "<span class=\"muted-dash\">(unknown member)</span>";

pub const NAME_CELL: &'static str = "<span class=\"user-name\">¤</span>";

/// The target of a transition, or a placeholder for an account that is gone.
pub open spec fn target_cell_html(users: Seq<User>, id: Option<Uuid>) -> Seq<char> {
    match user_with_opt(users, id) {
        Some(u) => user_cell_html(&u),
        None => UNKNOWN_MEMBER@,
    }
}

fn target_cell(users: &[User], id: Option<Uuid>) -> (m: Markup)
    ensures
        m@ == target_cell_html(users@, id),
{
    match find_user(users, id) {
        Some(u) => user_cell(u),
        None => Markup::raw(UNKNOWN_MEMBER),
    }
}

/// The name of an account, or a dash for one that is gone.
pub open spec fn name_cell_html(users: Seq<User>, id: Option<Uuid>) -> Seq<char> {
    match user_with_opt(users, id) {
        Some(u) => html::template(NAME_CELL@).text(u.display_name@).done(),
        None => MUTED_DASH@,
    }
}

fn name_cell(users: &[User], id: Option<Uuid>) -> (m: Markup)
    ensures
        m@ == name_cell_html(users@, id),
{
    match find_user(users, id) {
        Some(u) => Template::new(NAME_CELL).text(u.display_name.as_str()).done(),
        None => Markup::raw(MUTED_DASH),
    }
}

pub const TIMER_RESOLVER: &'static str = "<span class=\"muted-dash\">Timer (72h)</span>";

/// Who resolved a transition: the account that did, the timer, or a dash.
pub open spec fn resolver_cell_html(users: Seq<User>, row: &TransitionRow) -> Seq<char> {
    if row.state == TransitionState::Applied && user_with_opt(users, row.resolved_by_user_id) is None {
        TIMER_RESOLVER@
    } else {
        name_cell_html(users, row.resolved_by_user_id)
    }
}

fn resolver_cell(users: &[User], row: &TransitionRow) -> (m: Markup)
    ensures
        m@ == resolver_cell_html(users@, row),
{
    match find_user(users, row.resolved_by_user_id) {
        Some(_) => name_cell(users, row.resolved_by_user_id),
        None => if row.state == TransitionState::Applied {
            Markup::raw(TIMER_RESOLVER)
        } else {
            Markup::raw(MUTED_DASH)
        },
    }
}

/// How a transition ended: the label and its class.
pub open spec fn resolution_of(state: TransitionState) -> (Seq<char>, Seq<char>) {
    match state {
        TransitionState::Vetoed => ("Vetoed"@, "resolution-badge resolution-vetoed"@),
        TransitionState::Cancelled => ("Cancelled"@, "resolution-badge resolution-cancelled"@),
        TransitionState::Applied => ("Applied"@, "resolution-badge resolution-applied"@),
        TransitionState::Pending => ("Pending"@, "resolution-badge"@),
    }
}

pub const PENDING_ACTIVE_ROW: &'static str = "\
    <tr class=\"pending-row\" id=\"row-¤\">\
      <td class=\"col-pending-target\">¤</td>\
      <td class=\"col-pending-action\">¤</td>\
      <td class=\"col-pending-initiator\">¤</td>\
      <td class=\"col-pending-remaining\">¤</td>\
      <td class=\"col-pending-actions\">\
        <button type=\"button\" class=\"btn-secondary\" \
          data-open-modal=\"/pending/¤/modal/veto\">Veto</button>\
        <button type=\"button\" class=\"btn-danger-ghost\" \
          data-open-modal=\"/pending/¤/modal/force-apply\">Force apply</button>\
      </td>\
    </tr>";

/// The HTML of [`pending_active_row`].
pub open spec fn pending_active_row_html(
    row: &TransitionRow,
    users: Seq<User>,
    now: &Timestamp,
) -> Seq<char> {
    html::template(PENDING_ACTIVE_ROW@)
        .uuid(row.id)
        .html(target_cell_html(users, row.target_user_id))
        .text(action_label_of(row.kind))
        .html(name_cell_html(users, row.initiator_user_id))
        .html(time_remaining_pill_html(&row.effective_at, now))
        .uuid(row.id)
        .uuid(row.id)
        .done()
}

/// One waiting action: its target, what it will do, who started it and how long it waits.
fn pending_active_row(row: &TransitionRow, users: &[User], now: &Timestamp) -> (m: Markup)
    ensures
        m@ == pending_active_row_html(row, users@, now),
{
    Template::new(PENDING_ACTIVE_ROW)
        .uuid(row.id)
        .html(&target_cell(users, row.target_user_id))
        .text(pending_action_label(row))
        .html(&name_cell(users, row.initiator_user_id))
        .html(&time_remaining_pill(&row.effective_at, now))
        .uuid(row.id)
        .uuid(row.id)
        .done()
}

pub open spec fn active_rows_html(rows: Seq<TransitionRow>, users: Seq<User>, now: &Timestamp) -> Seq<char>
    decreases rows.len(),
{
    if rows.len() == 0 {
        Seq::empty()
    } else {
        let row = rows.last();
        active_rows_html(rows.drop_last(), users, now) + pending_active_row_html(&row, users, now)
    }
}

fn active_rows(rows: &[TransitionRow], users: &[User], now: &Timestamp) -> (m: Markup)
    ensures
        m@ == active_rows_html(rows@, users@, now),
{
    let mut out = Markup::empty();
    let mut i: usize = 0;
    while i < rows.len()
        invariant
            i <= rows@.len(),
            out@ == active_rows_html(rows@.take(i as int), users@, now),
        decreases rows@.len() - i,
    {
        let row = &rows[i];
        let row = pending_active_row(row, users, now);
        out = out.then_html(&row);
        i += 1;
        assert(rows@.take(i as int).drop_last() =~= rows@.take(i - 1));
    }
    assert(rows@.take(i as int) =~= rows@);
    out
}

pub const RESOLVED_DATE: &'static str = "<span class=\"muted\">¤</span>";

pub const PENDING_HISTORY_ROW: &'static str = "\
    <tr class=\"pending-row pending-history-row\">\
      <td class=\"col-pending-target\">¤</td>\
      <td class=\"col-pending-action\">¤</td>\
      <td class=\"col-pending-resolution\">\
        <span class=\"¤\">¤</span>\
      </td>\
      <td class=\"col-pending-initiator\">¤</td>\
      <td class=\"col-pending-remaining\">¤</td>\
    </tr>";

/// The HTML of [`pending_history_row`].
pub open spec fn pending_history_row_html(row: &TransitionRow, users: Seq<User>) -> Seq<char> {
    let resolution = resolution_of(row.state);
    html::template(PENDING_HISTORY_ROW@)
        .html(target_cell_html(users, row.target_user_id))
        .text(action_label_of(row.kind))
        .text(resolution.1)
        .text(resolution.0)
        .html(resolver_cell_html(users, row))
        .html(match row.resolved_at {
            Some(ts) => html::template(RESOLVED_DATE@).date(ts@, model::SHORT_DATE@).done(),
            None => MUTED_DASH@,
        })
        .done()
}

/// One resolved action: its target, what it was, how it ended, who ended it and when.
fn pending_history_row(row: &TransitionRow, users: &[User]) -> (m: Markup)
    ensures
        m@ == pending_history_row_html(row, users@),
{
    let (label, class): (&str, &str) = match row.state {
        TransitionState::Vetoed => ("Vetoed", "resolution-badge resolution-vetoed"),
        TransitionState::Cancelled => ("Cancelled", "resolution-badge resolution-cancelled"),
        TransitionState::Applied => ("Applied", "resolution-badge resolution-applied"),
        TransitionState::Pending => ("Pending", "resolution-badge"),
    };
    Template::new(PENDING_HISTORY_ROW)
        .html(&target_cell(users, row.target_user_id))
        .text(pending_action_label(row))
        .text(class)
        .text(label)
        .html(&resolver_cell(users, row))
        .html(&match &row.resolved_at {
            Some(ts) => Template::new(RESOLVED_DATE).date(ts, model::SHORT_DATE).done(),
            None => Markup::raw(MUTED_DASH),
        })
        .done()
}

pub open spec fn history_rows_html(rows: Seq<TransitionRow>, users: Seq<User>) -> Seq<char>
    decreases rows.len(),
{
    if rows.len() == 0 {
        Seq::empty()
    } else {
        let row = rows.last();
        history_rows_html(rows.drop_last(), users) + pending_history_row_html(&row, users)
    }
}

fn history_rows(rows: &[TransitionRow], users: &[User]) -> (m: Markup)
    ensures
        m@ == history_rows_html(rows@, users@),
{
    let mut out = Markup::empty();
    let mut i: usize = 0;
    while i < rows.len()
        invariant
            i <= rows@.len(),
            out@ == history_rows_html(rows@.take(i as int), users@),
        decreases rows@.len() - i,
    {
        let row = &rows[i];
        let row = pending_history_row(row, users);
        out = out.then_html(&row);
        i += 1;
        assert(rows@.take(i as int).drop_last() =~= rows@.take(i - 1));
    }
    assert(rows@.take(i as int) =~= rows@);
    out
}

pub const PENDING_EMPTY_STATE: &'static str = "\
    <div class=\"card pending-empty\">\
      <div class=\"dialog-icon dialog-icon-shield pending-empty-icon\">¤</div>\
      <h2>Nothing pending</h2>\
      <p>Owner-on-Owner deactivations, anonymizations, deletes, and role changes wait \
        here for 72 hours so any Owner can veto. When something gets queued, it shows up \
        on this page.</p>\
    </div>";

/// The HTML of [`pending_empty_state`].
pub open spec fn pending_empty_state_html() -> Seq<char> {
    html::template(PENDING_EMPTY_STATE@)
        .html(SHIELD_ICON@)
        .done()
}

/// Shown where nothing waits.
fn pending_empty_state() -> (m: Markup)
    ensures
        m@ == pending_empty_state_html(),
{
    Template::new(PENDING_EMPTY_STATE)
        .raw(SHIELD_ICON)
        .done()
}

/// What the last action on the page came to, from the address.
pub struct PendingBanner<'a> {
    pub action: Option<&'a str>,
    pub error: Option<&'a str>,
}

/// Nothing: outcomes are shown as toasts by the browser.
pub open spec fn render_pending_banner_html() -> Seq<char> {
    Seq::empty()
}

fn render_pending_banner(_banner: &PendingBanner) -> (m: Markup)
    ensures
        m@ == render_pending_banner_html(),
{
    Markup::empty()
}

pub const PENDING_PAGE: &'static str = "\
    ¤¤¤\
    <script>¤</script>";

pub const ACTIVE_TABLE: &'static str = "\
    <div class=\"card pending-card\">\
      <table class=\"users-table pending-table\">\
        <thead>\
          <tr>\
            <th class=\"col-pending-target\">Target</th>\
            <th class=\"col-pending-action\">Action</th>\
            <th class=\"col-pending-initiator\">Initiated by</th>\
            <th class=\"col-pending-remaining\">Time remaining</th>\
            <th class=\"col-pending-actions\">\
              <span class=\"sr-only\">Actions</span>\
            </th>\
          </tr>\
        </thead>\
        <tbody>¤</tbody>\
      </table>\
    </div>";

pub const HISTORY_TABLE: &'static str = "\
    <h2 class=\"pending-history-header\">History</h2>\
    <div class=\"card pending-card\">\
      <table class=\"users-table pending-table pending-history-table\">\
        <thead>\
          <tr>\
            <th class=\"col-pending-target\">Target</th>\
            <th class=\"col-pending-action\">Action</th>\
            <th class=\"col-pending-resolution\">Resolution</th>\
            <th class=\"col-pending-initiator\">Resolved by</th>\
            <th class=\"col-pending-remaining\">Resolved</th>\
          </tr>\
        </thead>\
        <tbody>¤</tbody>\
      </table>\
    </div>";

/// The HTML of [`pending_page`].
pub open spec fn pending_page_html(
    ctx: &ChromeContext,
    active: Seq<TransitionRow>,
    history: Seq<TransitionRow>,
    users: Seq<User>,
    now: &Timestamp,
) -> Seq<char> {
    let content = html::template(PENDING_PAGE@)
        .html(render_pending_banner_html())
        .html(if active.len() == 0 {
            pending_empty_state_html()
        } else {
            html::template(ACTIVE_TABLE@)
                .html(active_rows_html(active, users, now))
                .done()
        })
        .html(if history.len() > 0 {
            html::template(HISTORY_TABLE@)
                .html(history_rows_html(history, users))
                .done()
        } else {
            Seq::empty()
        })
        .html(REAUTH_CHAIN_JS@)
        .done();
    shell::shell_app_wide_html(ctx, "Pending review"@, PageId::Pending, content)
}

/// `GET /pending`: the owner-on-owner actions that wait for a veto, and those already resolved.
pub fn pending_page(
    ctx: &ChromeContext,
    active: &[TransitionRow],
    history: &[TransitionRow],
    users: &[User],
    now: &Timestamp,
    banner: &PendingBanner,
) -> (m: Markup)
    ensures
        m@ == pending_page_html(ctx, active@, history@, users@, now),
{
    let content = Template::new(PENDING_PAGE)
        .html(&render_pending_banner(banner))
        .html(&if active.len() == 0 {
            pending_empty_state()
        } else {
            Template::new(ACTIVE_TABLE)
                .html(&active_rows(active, users, now))
                .done()
        })
        .html(&if history.len() > 0 {
            Template::new(HISTORY_TABLE)
                .html(&history_rows(history, users))
                .done()
        } else {
            Markup::empty()
        })
        .raw(REAUTH_CHAIN_JS)
        .done();
    shell::shell_app_wide(ctx, "Pending review", PageId::Pending, &content)
}

pub const MEMBER_PENDING_PILL: &'static str = "\
    <a class=\"member-pending-pill\" href=\"¤\" title=\"View on Pending review\">¤</a>";

/// The HTML of [`member_pending_pill`].
pub open spec fn member_pending_pill_html(p: &TransitionRow, now: &Timestamp) -> Seq<char> {
    html::template(MEMBER_PENDING_PILL@)
        .text("/pending#row-"@ + model::uuid_text(p.id))
        .text("Pending: "@ + action_label_of(p.kind) + " · "@ + display::remaining_short(display::remaining_of(
            p.effective_at@,
            now@,
        )))
        .done()
}

/// The chip on a member with a waiting action; it leads to the action.
pub fn member_pending_pill(p: &TransitionRow, now: &Timestamp) -> (m: Markup)
    ensures
        m@ == member_pending_pill_html(p, now),
{
    let id = p.id.text();
    let href = text::join("/pending#row-", id.as_str());
    let left = display::time_remaining_short(&p.effective_at, now);
    let label = text::join("Pending: ", pending_action_label(p)).concat(" · ").concat(left.as_str());
    Template::new(MEMBER_PENDING_PILL)
        .text(href.as_str())
        .text(label.as_str())
        .done()
}

pub const VETO_PENDING_DIALOG: &'static str = "\
    <dialog id=\"dlg-veto-¤\" class=\"action-dialog action-dialog-centered\">\
      <form id=\"form-veto-¤\" method=\"post\" action=\"/pending/¤/veto\">\
        <div class=\"dialog-header\">\
          <div class=\"dialog-icon dialog-icon-warning\">¤</div>\
          <button type=\"button\" class=\"dialog-close\" data-close-dialog \
            aria-label=\"Close\">¤</button>\
        </div>\
        <h2>Veto this pending action?</h2>\
        <p class=\"dialog-description\">Stops the pending \
          <strong>¤</strong> on \
          <strong>¤</strong>. The initiator will be notified that you cancelled it. The \
            action can be started again from the Members page.\
        </p>¤\
        <div class=\"dialog-actions\">\
          <button type=\"button\" class=\"btn-secondary\" data-close-dialog>Cancel</button>\
          <button type=\"button\" class=\"btn\" \
            data-reauth-confirm=\"form-veto-¤\">Veto</button>\
        </div>\
      </form>\
    </dialog>";

/// The HTML of [`veto_pending_dialog`].
pub open spec fn veto_pending_dialog_html(
    transition_id: Uuid,
    target_name: Seq<char>,
    action_label: Seq<char>,
    csrf_token: Seq<char>,
) -> Seq<char> {
    html::template(VETO_PENDING_DIALOG@)
        .uuid(transition_id)
        .uuid(transition_id)
        .uuid(transition_id)
        .html(SHIELD_ICON@)
        .html(CLOSE_ICON@)
        .text(action_label)
        .text(target_name)
        .html(shell::csrf_input_html(csrf_token))
        .uuid(transition_id)
        .done()
}

/// Asks whether to veto a waiting action.
pub fn veto_pending_dialog(
    transition_id: Uuid,
    target_name: &str,
    action_label: &str,
    csrf_token: &str,
) -> (m: Markup)
    ensures
        m@ == veto_pending_dialog_html(transition_id, target_name@, action_label@, csrf_token@),
{
    Template::new(VETO_PENDING_DIALOG)
        .uuid(transition_id)
        .uuid(transition_id)
        .uuid(transition_id)
        .raw(SHIELD_ICON)
        .raw(CLOSE_ICON)
        .text(action_label)
        .text(target_name)
        .html(&shell::csrf_input(csrf_token))
        .uuid(transition_id)
        .done()
}

pub const FORCE_APPLY_FORM: &'static str = "\
    <form id=\"form-force-apply-¤\" hx-post=\"/pending/¤/force-apply\" \
      hx-target=\"#force-apply-content-¤\" hx-swap=\"innerHTML\">\
      <div class=\"dialog-header\">\
        <div class=\"dialog-icon dialog-icon-danger\">¤</div>\
        <button type=\"button\" class=\"dialog-close\" data-close-dialog \
          aria-label=\"Close\">¤</button>\
      </div>\
      <h2 class=\"dialog-center-title\">Force this action through?</h2>\
      <p class=\"dialog-description dialog-center-text\">Applies the pending \
        <strong>¤</strong> on \
        <strong>¤</strong> immediately, bypassing the 72-hour veto window — the target \
          can no longer veto it. Use this only to remove an owner who's lost access or \
          gone rogue. It can't be undone.\
      </p>¤¤\
      <div class=\"field\">\
        <label for=\"force-code-¤\">Server recovery code</label>\
        <input type=\"text\" id=\"force-code-¤\" name=\"recovery_code\" autocomplete=\"off\" \
          spellcheck=\"false\" autocapitalize=\"off\" placeholder=\"XXXX-XXXX-XXXX-…\" required>\
      </div>\
      <div class=\"dialog-actions\">\
        <button type=\"button\" class=\"btn-secondary\" data-close-dialog>Cancel</button>\
        <button type=\"submit\" class=\"btn-danger\">Force apply</button>\
      </div>\
    </form>";

pub const FORCE_APPLY_ERROR: &'static str = "\
    <div class=\"dialog-alert dialog-alert-danger\" role=\"alert\">¤\
      <span>¤</span>\
    </div>";

/// The HTML of [`force_apply_form`].
pub open spec fn force_apply_form_html(
    transition_id: Uuid,
    target_name: Seq<char>,
    action_label: Seq<char>,
    csrf_token: Seq<char>,
    error: Option<Seq<char>>,
) -> Seq<char> {
    html::template(FORCE_APPLY_FORM@)
        .uuid(transition_id)
        .uuid(transition_id)
        .uuid(transition_id)
        .html(ALERT_CIRCLE_ICON@)
        .html(CLOSE_ICON@)
        .text(action_label)
        .text(target_name)
        .html(match error {
            Some(err) => html::template(FORCE_APPLY_ERROR@)
                .html(ALERT_CIRCLE_ICON@)
                .text(err)
                .done(),
            None => Seq::empty(),
        })
        .html(shell::csrf_input_html(csrf_token))
        .uuid(transition_id)
        .uuid(transition_id)
        .done()
}

/// Asks for the recovery code that forces a waiting action through.
pub fn force_apply_form(
    transition_id: Uuid,
    target_name: &str,
    action_label: &str,
    csrf_token: &str,
    error: Option<&str>,
) -> (m: Markup)
    ensures
        m@ == force_apply_form_html(transition_id, target_name@, action_label@, csrf_token@, text::opt(error)),
{
    Template::new(FORCE_APPLY_FORM)
        .uuid(transition_id)
        .uuid(transition_id)
        .uuid(transition_id)
        .raw(ALERT_CIRCLE_ICON)
        .raw(CLOSE_ICON)
        .text(action_label)
        .text(target_name)
        .html(&match error {
            Some(err) => Template::new(FORCE_APPLY_ERROR)
                .raw(ALERT_CIRCLE_ICON)
                .text(err)
                .done(),
            None => Markup::empty(),
        })
        .html(&shell::csrf_input(csrf_token))
        .uuid(transition_id)
        .uuid(transition_id)
        .done()
}

pub const FORCE_APPLY_DIALOG: &'static str = "\
    <dialog id=\"dlg-force-apply-¤\" class=\"action-dialog action-dialog-centered\">\
      <div id=\"force-apply-content-¤\">¤</div>\
    </dialog>";

/// The HTML of [`force_apply_dialog`].
pub open spec fn force_apply_dialog_html(
    transition_id: Uuid,
    target_name: Seq<char>,
    action_label: Seq<char>,
    csrf_token: Seq<char>,
) -> Seq<char> {
    html::template(FORCE_APPLY_DIALOG@)
        .uuid(transition_id)
        .uuid(transition_id)
        .html(force_apply_form_html(transition_id, target_name, action_label, csrf_token, None))
        .done()
}

/// The dialog around [`force_apply_form`].
pub fn force_apply_dialog(
    transition_id: Uuid,
    target_name: &str,
    action_label: &str,
    csrf_token: &str,
) -> (m: Markup)
    ensures
        m@ == force_apply_dialog_html(transition_id, target_name@, action_label@, csrf_token@),
{
    Template::new(FORCE_APPLY_DIALOG)
        .uuid(transition_id)
        .uuid(transition_id)
        .html(&force_apply_form(transition_id, target_name, action_label, csrf_token, None))
        .done()
}

} // verus!
