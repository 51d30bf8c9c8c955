//! The members table and the actions on its rows.

use vstd::prelude::*;
use crate::display;
use crate::html;
use crate::html::{Markup, Template};
use crate::listing;
use crate::listing::{
    MemberFilter, PageItem, PaginationState, SortColumn, SortDirection, SortState,
};
use crate::model;
use crate::model::{
    InstanceRole, Invitation, Timestamp, TransitionRow, User, UserLifecycle, Uuid,
};
use crate::text;
use crate::views::pending;
use crate::views::shell;
use crate::views::shell::{ChromeContext, PageId};
use crate::views::icons::{
    ALERT_CIRCLE_ICON, CHECK_SMALL_ICON, CHEVRON_DOUBLE_LEFT_ICON, CHEVRON_DOUBLE_RIGHT_ICON,
    CHEVRON_DOWN_ICON, CHEVRON_LEFT_ICON, CHEVRON_RIGHT_ICON, CLOSE_ICON, CROWN_ICON,
    INCOGNITO_ICON, INFO_CIRCLE_ICON, LOCK_ICON, PLUS_ICON, SHIELD_ICON, TRASH_ICON, USER_ICON,
    USER_SHIELD_ICON,
};
use crate::views::pending::MUTED_DASH;
use crate::views::scripts::{
    CONFIRM_CHECKBOX_JS, CONFIRM_NAME_JS, DROPDOWN_FLIP_JS, INVITE_COPY_JS,
    INVITE_REFRESH_ON_CLOSE_JS, INVITE_SWAP_TO_INVITE_JS, MEMBERS_KEBAB_OUTSIDE_CLICK_JS,
    MEMBERS_SEARCH_JS, MEMBERS_SELECT_ALL_JS, REAUTH_CHAIN_JS, ROLE_PICKER_GATE_JS,
};

verus! {

/// What can be done to a member from their row.
#[derive(Clone, Copy, Debug, PartialEq, Eq, Structural)]
pub enum RowAction {
    Deactivate,
    Reactivate,
    ChangeRole,
    Anonymize,
    Delete,
}

/// The action behind a path segment. The owner-promotion step belongs to the role change.
pub open spec fn segment_action(seg: Seq<char>) -> Option<RowAction> {
    if seg == "deactivate"@ {
        Some(RowAction::Deactivate)
    } else if seg == "reactivate"@ {
        Some(RowAction::Reactivate)
    } else if seg == "role"@ || seg == "role-owner-confirm"@ {
        Some(RowAction::ChangeRole)
    } else if seg == "anonymize"@ {
        Some(RowAction::Anonymize)
    } else if seg == "delete"@ {
        Some(RowAction::Delete)
    } else {
        None
    }
}

pub fn row_action_for_segment(seg: &str) -> (r: Option<RowAction>)
    ensures
        r == segment_action(seg@),
{
    if text::same(seg, "deactivate") {
        Some(RowAction::Deactivate)
    } else if text::same(seg, "reactivate") {
        Some(RowAction::Reactivate)
    } else if text::same(seg, "role") || text::same(seg, "role-owner-confirm") {
        Some(RowAction::ChangeRole)
    } else if text::same(seg, "anonymize") {
        Some(RowAction::Anonymize)
    } else if text::same(seg, "delete") {
        Some(RowAction::Delete)
    } else {
        None
    }
}

/// Whether a viewer may act on a member of another role: owners on everyone, admins on plain
/// members only.
pub open spec fn outranks(viewer: InstanceRole, target: InstanceRole) -> bool {
    match viewer {
        InstanceRole::Member => false,
        InstanceRole::Admin => target == InstanceRole::Member,
        InstanceRole::Owner => true,
    }
}

/// Whether an account can be acted on at all.
pub open spec fn actionable(lifecycle: UserLifecycle) -> bool {
    lifecycle == UserLifecycle::Active || lifecycle == UserLifecycle::Deactivated
}

/// What the rank of a viewer lets them do to an account in a state: switch it off or on, change
/// its role (owners only), anonymize it, delete it.
pub open spec fn actions_by_rank(viewer: InstanceRole, lifecycle: UserLifecycle) -> Seq<RowAction> {
    let toggle = match lifecycle {
        UserLifecycle::Active => seq![RowAction::Deactivate],
        UserLifecycle::Deactivated => seq![RowAction::Reactivate],
        _ => Seq::empty(),
    };
    let role = if viewer == InstanceRole::Owner {
        seq![RowAction::ChangeRole]
    } else {
        Seq::empty()
    };
    toggle + role + seq![RowAction::Anonymize, RowAction::Delete]
}

/// What a row offers. On the own row it shows, locked, what the viewer could do to others.
pub open spec fn offered_actions(
    viewer: InstanceRole,
    target_role: InstanceRole,
    target_lifecycle: UserLifecycle,
    is_self: bool,
) -> Seq<RowAction> {
    if is_self {
        if viewer == InstanceRole::Member {
            Seq::empty()
        } else {
            actions_by_rank(viewer, target_lifecycle)
        }
    } else if outranks(viewer, target_role) && actionable(target_lifecycle) {
        actions_by_rank(viewer, target_lifecycle)
    } else {
        Seq::empty()
    }
}

fn rank_actions(viewer: InstanceRole, lifecycle: UserLifecycle) -> (r: Vec<RowAction>)
    ensures
        r@ == actions_by_rank(viewer, lifecycle),
{
    let mut actions: Vec<RowAction> = Vec::with_capacity(4);
    match lifecycle {
        UserLifecycle::Active => actions.push(RowAction::Deactivate),
        UserLifecycle::Deactivated => actions.push(RowAction::Reactivate),
        _ => {},
    }
    if viewer == InstanceRole::Owner {
        actions.push(RowAction::ChangeRole);
    }
    actions.push(RowAction::Anonymize);
    actions.push(RowAction::Delete);
    assert(actions@ =~= actions_by_rank(viewer, lifecycle));
    actions
}

fn self_row_actions(viewer: InstanceRole, lifecycle: UserLifecycle) -> (r: Vec<RowAction>)
    ensures
        r@ == offered_actions(viewer, viewer, lifecycle, true),
{
    if viewer == InstanceRole::Member {
        Vec::new()
    } else {
        rank_actions(viewer, lifecycle)
    }
}

/// What a row offers its viewer.
pub fn available_actions(
    viewer: InstanceRole,
    target_role: InstanceRole,
    target_lifecycle: UserLifecycle,
    is_self: bool,
) -> (r: Vec<RowAction>)
    ensures
        r@ == offered_actions(viewer, target_role, target_lifecycle, is_self),
{
    if is_self {
        return self_row_actions(viewer, target_lifecycle);
    }
    let can_act: bool = match viewer {
        InstanceRole::Member => false,
        InstanceRole::Admin => target_role == InstanceRole::Member,
        InstanceRole::Owner => true,
    };
    if can_act && (target_lifecycle == UserLifecycle::Active || target_lifecycle
        == UserLifecycle::Deactivated) {
        rank_actions(viewer, target_lifecycle)
    } else {
        Vec::new()
    }
}

/// Nobody is offered an action on a member of their own or a higher rank, but owners on owners;
/// plain members are offered none; only owners change roles; and an account is switched off only
/// while it is on, and on only while it is off.
pub proof fn law_offered_actions_respect_rank(
    viewer: InstanceRole,
    target_role: InstanceRole,
    lifecycle: UserLifecycle,
    is_self: bool,
)
    ensures
        ({
            let offered = offered_actions(viewer, target_role, lifecycle, is_self);
            &&& viewer == InstanceRole::Member ==> offered.len() == 0
            &&& !is_self && viewer == InstanceRole::Admin && target_role != InstanceRole::Member
                ==> offered.len() == 0
            &&& offered.contains(RowAction::ChangeRole) ==> viewer == InstanceRole::Owner
            &&& offered.contains(RowAction::Deactivate) ==> lifecycle == UserLifecycle::Active
            &&& offered.contains(RowAction::Reactivate) ==> lifecycle == UserLifecycle::Deactivated
            &&& !is_self && !actionable(lifecycle) ==> offered.len() == 0
        }),
{
}

pub const CONFIRM_NAME_FIELD: &'static str = "\
    <div class=\"field confirm-name-field\">\
      <label for=\"¤\">Type \
        <strong>&quot;¤&quot;</strong> to confirm\
      </label>\
      <input type=\"text\" id=\"¤\" data-confirm-name=\"¤\" autocomplete=\"off\" \
        spellcheck=\"false\">\
    </div>";

/// The HTML of [`confirm_name_field`].
pub open spec fn confirm_name_field_html(id: Uuid, name: Seq<char>, verb: Seq<char>) -> Seq<char> {
    html::template(CONFIRM_NAME_FIELD@)
        .text("confirm-name-"@ + verb + "-"@ + model::uuid_text(id))
        .text(name)
        .text("confirm-name-"@ + verb + "-"@ + model::uuid_text(id))
        .text(name)
        .done()
}

/// A field that wants the name typed before a destructive action goes on.
fn confirm_name_field(id: Uuid, name: &str, verb: &str) -> (m: Markup)
    ensures
        m@ == confirm_name_field_html(id, name@, verb@),
{
    let id_text = id.text();
    let input_id = text::join("confirm-name-", verb).concat("-").concat(id_text.as_str());
    Template::new(CONFIRM_NAME_FIELD)
        .text(input_id.as_str())
        .text(name)
        .text(input_id.as_str())
        .text(name)
        .done()
}

pub const ROLE_OPTION: &'static str = "\
    <input type=\"radio\" name=\"role\" id=\"role-¤-¤\" class=\"role-icon-input\" value=\"¤\"¤>\
    <label class=\"role-icon-segment\" for=\"role-¤-¤\"¤>\
      <span class=\"role-icon-glyph\" aria-hidden=\"true\">¤</span>\
      <span class=\"role-icon-label\">¤¤</span>\
    </label>";

pub const ROLE_CURRENT: &'static str = "<span class=\"role-icon-current-tag\">current</span>";

/// The three roles, as the picker lists them: token, label and glyph.
pub open spec fn role_option_html(id: Uuid, current: InstanceRole, role: InstanceRole) -> Seq<char> {
    let (value, label, icon) = match role {
        InstanceRole::Member => ("member", "Member", USER_ICON),
        InstanceRole::Admin => ("admin", "Admin", USER_SHIELD_ICON),
        InstanceRole::Owner => ("owner", "Owner", CROWN_ICON),
    };
    let is_current = current == role;
    html::template(ROLE_OPTION@)
        .uuid(id)
        .text(value@)
        .text(value@)
        .when(is_current, " disabled"@)
        .uuid(id)
        .text(value@)
        .when(is_current, " title=\"This member is already in this role\""@)
        .html(icon@)
        .text(label@)
        .when(is_current, ROLE_CURRENT@)
        .done()
}

fn role_option(id: Uuid, current: InstanceRole, role: InstanceRole) -> (m: Markup)
    ensures
        m@ == role_option_html(id, current, role),
{
    let (value, label, icon): (&str, &str, &str) = match role {
        InstanceRole::Member => ("member", "Member", USER_ICON),
        InstanceRole::Admin => ("admin", "Admin", USER_SHIELD_ICON),
        InstanceRole::Owner => ("owner", "Owner", CROWN_ICON),
    };
    let is_current: bool = current == role;
    Template::new(ROLE_OPTION)
        .uuid(id)
        .text(value)
        .text(value)
        .when(is_current, " disabled")
        .uuid(id)
        .text(value)
        .when(is_current, " title=\"This member is already in this role\"")
        .raw(icon)
        .text(label)
        .when(is_current, ROLE_CURRENT)
        .done()
}

pub const ROLE_ICON_PICKER: &'static str = "\
    <div class=\"role-icon-picker\" role=\"radiogroup\" aria-label=\"New role\">¤</div>";

/// The HTML of [`role_icon_picker`].
pub open spec fn role_icon_picker_html(id: Uuid, current: InstanceRole) -> Seq<char> {
    html::template(ROLE_ICON_PICKER@)
        .html(role_option_html(id, current, InstanceRole::Member)
            + role_option_html(id, current, InstanceRole::Admin)
            + role_option_html(id, current, InstanceRole::Owner))
        .done()
}

/// Picks a new role; the role the member has already cannot be picked.
fn role_icon_picker(id: Uuid, current: InstanceRole) -> (m: Markup)
    ensures
        m@ == role_icon_picker_html(id, current),
{
    Template::new(ROLE_ICON_PICKER)
        .html(&role_option(id, current, InstanceRole::Member)
                .then_html(&role_option(id, current, InstanceRole::Admin))
                .then_html(&role_option(id, current, InstanceRole::Owner)))
        .done()
}

pub const ROLE_OWNER_CONFIRM_DIALOG: &'static str = "\
    <dialog id=\"dlg-role-owner-confirm-¤\" class=\"action-dialog action-dialog-centered\">\
      <form id=\"form-role-owner-¤\" method=\"post\" action=\"/members/¤/role\">\
        <div class=\"dialog-header\">\
          <div class=\"dialog-icon dialog-icon-shield\">¤</div>\
          <button type=\"button\" class=\"dialog-close\" data-close-dialog \
            aria-label=\"Close\">¤</button>\
        </div>\
        <h2>Make ¤ an Owner?</h2>\
        <p class=\"dialog-description\">Owners have full control of this Hearth: they can \
          change any member's role, deactivate or delete accounts, read the audit log, \
          and rotate the server-level recovery code. Promoting someone to Owner means \
          sharing your authority with them. They'll be able to deactivate or remove you.</p>\
        <label class=\"confirm-checkbox-field\">\
          <input type=\"checkbox\" class=\"member-checkbox\" data-confirm-checkbox>\
          <span>I understand the impact of making \
            <strong>¤</strong> an Owner of this Hearth instance.\
          </span>\
        </label>\
        <input type=\"hidden\" name=\"role\" value=\"owner\">¤\
        <div class=\"dialog-actions\">\
          <button type=\"button\" class=\"btn-secondary\" data-close-dialog>Cancel</button>\
          <button type=\"button\" class=\"btn\" data-reauth-confirm=\"form-role-owner-¤\" \
            disabled>Make Owner</button>\
        </div>\
      </form>\
    </dialog>";

/// The HTML of [`role_owner_confirm_dialog`].
pub open spec fn role_owner_confirm_dialog_html(
    id: Uuid,
    name: Seq<char>,
    csrf_token: Seq<char>,
) -> Seq<char> {
    html::template(ROLE_OWNER_CONFIRM_DIALOG@)
        .uuid(id)
        .uuid(id)
        .uuid(id)
        .html(CROWN_ICON@)
        .html(CLOSE_ICON@)
        .text(name)
        .text(name)
        .html(shell::csrf_input_html(csrf_token))
        .uuid(id)
        .done()
}

/// Asks once more before a member is made an owner.
pub fn role_owner_confirm_dialog(id: Uuid, name: &str, csrf_token: &str) -> (m: Markup)
    ensures
        m@ == role_owner_confirm_dialog_html(id, name@, csrf_token@),
{
    Template::new(ROLE_OWNER_CONFIRM_DIALOG)
        .uuid(id)
        .uuid(id)
        .uuid(id)
        .raw(CROWN_ICON)
        .raw(CLOSE_ICON)
        .text(name)
        .text(name)
        .html(&shell::csrf_input(csrf_token))
        .uuid(id)
        .done()
}

pub const DEACTIVATE_DIALOG: &'static str = "\
    <dialog id=\"dlg-deactivate-¤\" class=\"action-dialog action-dialog-centered\">\
      <form id=\"form-deactivate-¤\" method=\"post\" action=\"/members/¤/deactivate\">\
        <div class=\"dialog-header\">\
          <div class=\"dialog-icon dialog-icon-warning\">¤</div>\
          <button type=\"button\" class=\"dialog-close\" data-close-dialog \
            aria-label=\"Close\">¤</button>\
        </div>\
        <h2>Deactivate ¤?</h2>\
        <p class=\"dialog-description\">Revokes all of ¤'s active sessions. Their \
          credentials stay in place so reactivation later doesn't need a password reset.</p>¤\
        <div class=\"dialog-actions\">\
          <button type=\"button\" class=\"btn-secondary\" data-close-dialog>Cancel</button>\
          <button type=\"button\" class=\"btn\" \
            data-reauth-confirm=\"form-deactivate-¤\">Deactivate</button>\
        </div>\
      </form>\
    </dialog>";

pub const REACTIVATE_DIALOG: &'static str = "\
    <dialog id=\"dlg-reactivate-¤\" class=\"action-dialog action-dialog-centered\">\
      <form id=\"form-reactivate-¤\" method=\"post\" action=\"/members/¤/reactivate\">\
        <div class=\"dialog-header\">\
          <div class=\"dialog-icon dialog-icon-shield\">¤</div>\
          <button type=\"button\" class=\"dialog-close\" data-close-dialog \
            aria-label=\"Close\">¤</button>\
        </div>\
        <h2>Reactivate ¤?</h2>\
        <p class=\"dialog-description\">Re-enables sign-in for ¤. Their existing password \
          still works. They'll need to sign in again (any prior sessions were revoked at \
          deactivation).</p>¤\
        <div class=\"dialog-actions\">\
          <button type=\"button\" class=\"btn-secondary\" data-close-dialog>Cancel</button>\
          <button type=\"button\" class=\"btn\" \
            data-reauth-confirm=\"form-reactivate-¤\">Reactivate</button>\
        </div>\
      </form>\
    </dialog>";

pub const ROLE_DIALOG: &'static str = "\
    <dialog id=\"dlg-role-¤\" class=\"action-dialog action-dialog-centered\">\
      <form id=\"form-role-¤\" method=\"post\" action=\"/members/¤/role\">\
        <div class=\"dialog-header\">\
          <div class=\"dialog-icon dialog-icon-shield\">¤</div>\
          <button type=\"button\" class=\"dialog-close\" data-close-dialog \
            aria-label=\"Close\">¤</button>\
        </div>\
        <h2>Change role for ¤</h2>\
        <p class=\"dialog-description\">Roles control what someone can do across this \
          Hearth instance, like inviting members, deactivating accounts, and configuring \
          server settings. App-level permissions (Tasks lists, notes, etc.) are managed \
          separately.</p>¤¤\
        <div class=\"dialog-actions\">\
          <button type=\"button\" class=\"btn-secondary\" data-close-dialog>Cancel</button>\
          <button type=\"button\" class=\"btn\" data-reauth-confirm=\"form-role-¤\" \
            data-role-aware=\"true\" data-target-id=\"¤\" data-role-form=\"form-role-¤\" \
            disabled>Modify Role</button>\
        </div>\
      </form>\
    </dialog>";

pub const ANONYMIZE_DIALOG: &'static str = "\
    <dialog id=\"dlg-anonymize-¤\" class=\"action-dialog action-dialog-centered\">\
      <form id=\"form-anonymize-¤\" method=\"post\" action=\"/members/¤/anonymize\">\
        <div class=\"dialog-header\">\
          <div class=\"dialog-icon dialog-icon-danger\">¤</div>\
          <button type=\"button\" class=\"dialog-close\" data-close-dialog \
            aria-label=\"Close\">¤</button>\
        </div>\
        <h2>Anonymize ¤?</h2>\
        <p class=\"dialog-description\">Sign-in is revoked, credentials are removed, and \
          the email is redacted. Any content ¤ created that other members still rely on \
          stays in place, attributed to the anonymized account.</p>\
        <div class=\"dialog-alert dialog-alert-danger\" role=\"alert\">¤\
          <span>This action is permanent and cannot be undone.</span>\
        </div>¤¤\
        <div class=\"dialog-actions\">\
          <button type=\"button\" class=\"btn-secondary\" data-close-dialog>Cancel</button>\
          <button type=\"button\" class=\"btn-danger\" \
            data-reauth-confirm=\"form-anonymize-¤\" disabled>Anonymize</button>\
        </div>\
      </form>\
    </dialog>";

pub const DELETE_DIALOG: &'static str = "\
    <dialog id=\"dlg-delete-¤\" class=\"action-dialog action-dialog-centered\">\
      <form id=\"form-delete-¤\" method=\"post\" action=\"/members/¤/delete\">\
        <div class=\"dialog-header\">\
          <div class=\"dialog-icon dialog-icon-danger\">¤</div>\
          <button type=\"button\" class=\"dialog-close\" data-close-dialog \
            aria-label=\"Close\">¤</button>\
        </div>\
        <h2>Delete ¤?</h2>\
        <p class=\"dialog-description\">Fully removes the account and every piece of \
          content ¤ created, regardless of whether other members were collaborating on \
          it. Use Anonymize instead if you only want to scrub the identity but keep the \
          shared content.</p>\
        <div class=\"dialog-alert dialog-alert-danger\" role=\"alert\">¤\
          <span>This action is permanent and cannot be undone.</span>\
        </div>¤¤\
        <div class=\"dialog-actions\">\
          <button type=\"button\" class=\"btn-secondary\" data-close-dialog>Cancel</button>\
          <button type=\"button\" class=\"btn-danger\" data-reauth-confirm=\"form-delete-¤\" \
            disabled>Delete</button>\
        </div>\
      </form>\
    </dialog>";

/// The HTML of [`render_action_dialog`].
pub open spec fn render_action_dialog_html(
    action: RowAction,
    target: &User,
    csrf_token: Seq<char>,
    id: Uuid,
) -> Seq<char> {
    let name = target.display_name;
    match action {
        RowAction::Deactivate => html::template(DEACTIVATE_DIALOG@)
            .uuid(id)
            .uuid(id)
            .uuid(id)
            .html(SHIELD_ICON@)
            .html(CLOSE_ICON@)
            .text(name@)
            .text(name@)
            .html(shell::csrf_input_html(csrf_token))
            .uuid(id)
            .done(),
        RowAction::Reactivate => html::template(REACTIVATE_DIALOG@)
            .uuid(id)
            .uuid(id)
            .uuid(id)
            .html(SHIELD_ICON@)
            .html(CLOSE_ICON@)
            .text(name@)
            .text(name@)
            .html(shell::csrf_input_html(csrf_token))
            .uuid(id)
            .done(),
        RowAction::ChangeRole => html::template(ROLE_DIALOG@)
            .uuid(id)
            .uuid(id)
            .uuid(id)
            .html(USER_SHIELD_ICON@)
            .html(CLOSE_ICON@)
            .text(name@)
            .html(role_icon_picker_html(id, target.instance_role))
            .html(shell::csrf_input_html(csrf_token))
            .uuid(id)
            .uuid(id)
            .uuid(id)
            .done(),
        RowAction::Anonymize => html::template(ANONYMIZE_DIALOG@)
            .uuid(id)
            .uuid(id)
            .uuid(id)
            .html(INCOGNITO_ICON@)
            .html(CLOSE_ICON@)
            .text(name@)
            .text(name@)
            .html(ALERT_CIRCLE_ICON@)
            .html(confirm_name_field_html(id, name@, "anonymize"@))
            .html(shell::csrf_input_html(csrf_token))
            .uuid(id)
            .done(),
        RowAction::Delete => html::template(DELETE_DIALOG@)
            .uuid(id)
            .uuid(id)
            .uuid(id)
            .html(TRASH_ICON@)
            .html(CLOSE_ICON@)
            .text(name@)
            .text(name@)
            .html(ALERT_CIRCLE_ICON@)
            .html(confirm_name_field_html(id, name@, "delete"@))
            .html(shell::csrf_input_html(csrf_token))
            .uuid(id)
            .done(),
    }
}

/// The dialog that confirms a row action.
pub fn render_action_dialog(
    action: RowAction,
    target: &User,
    csrf_token: &str,
    id: Uuid,
) -> (m: Markup)
    ensures
        m@ == render_action_dialog_html(action, target, csrf_token@, id),
{
    let name = target.display_name.as_str();
    match action {
        RowAction::Deactivate => Template::new(DEACTIVATE_DIALOG)
            .uuid(id)
            .uuid(id)
            .uuid(id)
            .raw(SHIELD_ICON)
            .raw(CLOSE_ICON)
            .text(name)
            .text(name)
            .html(&shell::csrf_input(csrf_token))
            .uuid(id)
            .done(),
        RowAction::Reactivate => Template::new(REACTIVATE_DIALOG)
            .uuid(id)
            .uuid(id)
            .uuid(id)
            .raw(SHIELD_ICON)
            .raw(CLOSE_ICON)
            .text(name)
            .text(name)
            .html(&shell::csrf_input(csrf_token))
            .uuid(id)
            .done(),
        RowAction::ChangeRole => Template::new(ROLE_DIALOG)
            .uuid(id)
            .uuid(id)
            .uuid(id)
            .raw(USER_SHIELD_ICON)
            .raw(CLOSE_ICON)
            .text(name)
            .html(&role_icon_picker(id, target.instance_role))
            .html(&shell::csrf_input(csrf_token))
            .uuid(id)
            .uuid(id)
            .uuid(id)
            .done(),
        RowAction::Anonymize => Template::new(ANONYMIZE_DIALOG)
            .uuid(id)
            .uuid(id)
            .uuid(id)
            .raw(INCOGNITO_ICON)
            .raw(CLOSE_ICON)
            .text(name)
            .text(name)
            .raw(ALERT_CIRCLE_ICON)
            .html(&confirm_name_field(id, name, "anonymize"))
            .html(&shell::csrf_input(csrf_token))
            .uuid(id)
            .done(),
        RowAction::Delete => Template::new(DELETE_DIALOG)
            .uuid(id)
            .uuid(id)
            .uuid(id)
            .raw(TRASH_ICON)
            .raw(CLOSE_ICON)
            .text(name)
            .text(name)
            .raw(ALERT_CIRCLE_ICON)
            .html(&confirm_name_field(id, name, "delete"))
            .html(&shell::csrf_input(csrf_token))
            .uuid(id)
            .done(),
    }
}

/// The dialog behind a path segment, if it names one.
pub open spec fn action_modal_html(seg: Seq<char>, target: &User, csrf_token: Seq<char>) -> Option<Seq<char>> {
    if seg == "role-owner-confirm"@ {
        Some(role_owner_confirm_dialog_html(target.id, target.display_name@, csrf_token))
    } else {
        match segment_action(seg) {
            Some(action) => Some(render_action_dialog_html(action, target, csrf_token, target.id)),
            None => None,
        }
    }
}

/// The dialog behind a path segment, if it names one.
pub fn member_action_modal(seg: &str, target: &User, csrf_token: &str) -> (r: Option<Markup>)
    ensures
        match r {
            Some(m) => action_modal_html(seg@, target, csrf_token@) == Some(m@),
            None => action_modal_html(seg@, target, csrf_token@) is None,
        },
{
    if text::same(seg, "role-owner-confirm") {
        Some(role_owner_confirm_dialog(target.id, target.display_name.as_str(), csrf_token))
    } else {
        match row_action_for_segment(seg) {
            Some(action) => Some(render_action_dialog(action, target, csrf_token, target.id)),
            None => None,
        }
    }
}

pub const RENDER_LOCKED_ITEM: &'static str = "\
    <button type=\"button\" class=\"¤\" aria-disabled=\"true\" disabled title=\"You can't \
      perform this action on yourself\">\
      <span>¤</span>\
      <span class=\"row-action-icon\" aria-hidden=\"true\">¤</span>\
    </button>";

/// The HTML of [`render_locked_item`].
pub open spec fn render_locked_item_html(action: RowAction) -> Seq<char> {
    let (label, danger) = match action {
        RowAction::Deactivate => ("Deactivate", false),
        RowAction::Reactivate => ("Reactivate", false),
        RowAction::ChangeRole => ("Change role…", false),
        RowAction::Anonymize => ("Anonymize…", true),
        RowAction::Delete => ("Delete…", true),
    };
    let class = if danger {
        "row-action-item row-action-locked row-action-danger"
    } else {
        "row-action-item row-action-locked"
    };
    html::template(RENDER_LOCKED_ITEM@)
        .text(class@)
        .text(label@)
        .html(LOCK_ICON@)
        .done()
}

/// A menu entry that is there to be seen, not used.
fn render_locked_item(action: RowAction) -> (m: Markup)
    ensures
        m@ == render_locked_item_html(action),
{
    let (label, danger): (&str, bool) = match action {
        RowAction::Deactivate => ("Deactivate", false),
        RowAction::Reactivate => ("Reactivate", false),
        RowAction::ChangeRole => ("Change role…", false),
        RowAction::Anonymize => ("Anonymize…", true),
        RowAction::Delete => ("Delete…", true),
    };
    let class: &str = if danger {
        "row-action-item row-action-locked row-action-danger"
    } else {
        "row-action-item row-action-locked"
    };
    Template::new(RENDER_LOCKED_ITEM)
        .text(class)
        .text(label)
        .raw(LOCK_ICON)
        .done()
}

pub const DEACTIVATE_ITEM: &'static str = "\
    <button type=\"button\" class=\"row-action-item\" \
      data-open-modal=\"/members/¤/modal/deactivate\">Deactivate…</button>";

pub const REACTIVATE_ITEM: &'static str = "\
    <button type=\"button\" class=\"row-action-item\" \
      data-open-modal=\"/members/¤/modal/reactivate\">Reactivate…</button>";

pub const ROLE_ITEM: &'static str = "\
    <button type=\"button\" class=\"row-action-item\" \
      data-open-modal=\"/members/¤/modal/role\">Change role…</button>";

pub const ANONYMIZE_ITEM: &'static str = "\
    <button type=\"button\" class=\"row-action-item row-action-danger\" \
      data-open-modal=\"/members/¤/modal/anonymize\">Anonymize…</button>";

pub const DELETE_ITEM: &'static str = "\
    <button type=\"button\" class=\"row-action-item row-action-danger\" \
      data-open-modal=\"/members/¤/modal/delete\">Delete…</button>";

/// The HTML of [`render_action_item`].
pub open spec fn render_action_item_html(
    action: RowAction,
    target: &User,
    locked: bool,
) -> Seq<char> {
    let id = target.id;
    if locked {
        render_locked_item_html(action)
    } else {
        match action {
            RowAction::Deactivate => html::template(DEACTIVATE_ITEM@)
                .uuid(id)
                .done(),
            RowAction::Reactivate => html::template(REACTIVATE_ITEM@)
                .uuid(id)
                .done(),
            RowAction::ChangeRole => html::template(ROLE_ITEM@)
                .uuid(id)
                .done(),
            RowAction::Anonymize => html::template(ANONYMIZE_ITEM@)
                .uuid(id)
                .done(),
            RowAction::Delete => html::template(DELETE_ITEM@)
                .uuid(id)
                .done(),
        }
    }
}

/// A menu entry that opens the dialog of its action.
fn render_action_item(action: RowAction, target: &User, locked: bool) -> (m: Markup)
    ensures
        m@ == render_action_item_html(action, target, locked),
{
    let id = target.id;
    if locked {
        render_locked_item(action)
    } else {
        match action {
            RowAction::Deactivate => Template::new(DEACTIVATE_ITEM)
                .uuid(id)
                .done(),
            RowAction::Reactivate => Template::new(REACTIVATE_ITEM)
                .uuid(id)
                .done(),
            RowAction::ChangeRole => Template::new(ROLE_ITEM)
                .uuid(id)
                .done(),
            RowAction::Anonymize => Template::new(ANONYMIZE_ITEM)
                .uuid(id)
                .done(),
            RowAction::Delete => Template::new(DELETE_ITEM)
                .uuid(id)
                .done(),
        }
    }
}

pub open spec fn action_items_html(actions: Seq<RowAction>, target: &User, locked: bool) -> Seq<char>
    decreases actions.len(),
{
    if actions.len() == 0 {
        Seq::empty()
    } else {
        let action = actions.last();
        action_items_html(actions.drop_last(), target, locked) + render_action_item_html(action, target, locked)
    }
}

fn action_items(actions: &[RowAction], target: &User, locked: bool) -> (m: Markup)
    ensures
        m@ == action_items_html(actions@, target, locked),
{
    let mut out = Markup::empty();
    let mut i: usize = 0;
    while i < actions.len()
        invariant
            i <= actions@.len(),
            out@ == action_items_html(actions@.take(i as int), target, locked),
        decreases actions@.len() - i,
    {
        let action = &actions[i];
        let row = render_action_item(*action, target, locked);
        out = out.then_html(&row);
        i += 1;
        assert(actions@.take(i as int).drop_last() =~= actions@.take(i - 1));
    }
    assert(actions@.take(i as int) =~= actions@);
    out
}

pub const ROW_ACTIONS_KEBAB: &'static str = "\
    <details class=\"row-actions\">\
      <summary class=\"row-actions-trigger\" aria-label=\"Row actions\">\
        <span aria-hidden=\"true\">⋮</span>\
      </summary>\
      <div class=\"row-actions-menu\">¤</div>\
    </details>";

/// The HTML of [`row_actions_kebab`].
pub open spec fn row_actions_kebab_html(
    target: &User,
    actions: Seq<RowAction>,
    locked: bool,
) -> Seq<char> {
    html::template(ROW_ACTIONS_KEBAB@)
        .html(action_items_html(actions, target, locked))
        .done()
}

/// The menu of a row.
fn row_actions_kebab(target: &User, actions: &[RowAction], locked: bool) -> (m: Markup)
    ensures
        m@ == row_actions_kebab_html(target, actions@, locked),
{
    Template::new(ROW_ACTIONS_KEBAB)
        .html(&action_items(actions, target, locked))
        .done()
}

/// The menu of a row with these actions.
pub open spec fn actions_menu_html(target: &User, actions: Seq<RowAction>, locked: bool) -> Seq<char> {
    html::template(ROW_ACTIONS_KEBAB@).html(action_items_html(actions, target, locked)).done()
}

pub const MEMBER_ROW: &'static str = "\
    <tr class=\"user-row\" data-search=\"¤\">\
      <td class=\"col-select\">\
        <input type=\"checkbox\" class=\"member-checkbox member-checkbox-row\" \
          name=\"member_ids\" value=\"¤\" aria-label=\"¤\"¤>\
      </td>\
      <td class=\"col-member user-row-cell\">\
        <div class=\"user-row-id\">¤\
          <div class=\"user-row-text\">\
            <span class=\"user-name\">¤¤</span>\
            <span class=\"user-email\">¤</span>¤\
          </div>\
        </div>\
      </td>\
      <td class=\"col-role\">\
        <span class=\"¤\">¤</span>\
      </td>\
      <td class=\"col-last-activity\">¤</td>\
      <td class=\"col-actions\">¤</td>\
    </tr>";

pub const ROW_SELF_TAG: &'static str = "<span class=\"row-self-tag\">you</span>";

/// The HTML of [`member_row`].
pub open spec fn member_row_html(
    viewer: &User,
    target: &User,
    last_activity: Option<Timestamp>,
    pending: Option<&TransitionRow>,
    now: &Timestamp,
) -> Seq<char> {
    let is_self = viewer.id == target.id;
    let actions = offered_actions(
        viewer.instance_role,
        target.instance_role,
        target.lifecycle,
        is_self,
    );
    let search_hay = text::lowercase(target.display_name@) + " "@ + text::lowercase(target.email@);
    let checkbox_disabled = target.instance_role == InstanceRole::Owner;
    let aria_label = "Select "@ + target.display_name@;
    html::template(MEMBER_ROW@)
        .text(search_hay)
        .uuid(target.id)
        .text(aria_label)
        .when(checkbox_disabled, " disabled"@)
        .html(shell::avatar_block_html(target.display_name@, target.id, target.lifecycle))
        .text(target.display_name@)
        .when(is_self, ROW_SELF_TAG@)
        .text(target.email@)
        .html(match pending {
            Some(p) => pending::member_pending_pill_html(p, now),
            None => Seq::empty(),
        })
        .text(shell::role_class_text(target.instance_role))
        .text(shell::role_label_text(target.instance_role))
        .html(match last_activity {
            Some(ts) => html::escaped(model::date_text(ts@, model::SHORT_DATE@)),
            None => MUTED_DASH@,
        })
        .html(if actions.len() > 0 {
            actions_menu_html(target, actions, is_self)
        } else {
            Seq::empty()
        })
        .done()
}

/// One account: avatar, name, role, last activity and menu. The own row is marked and its menu locked.
fn member_row(
    viewer: &User,
    target: &User,
    last_activity: Option<Timestamp>,
    pending: Option<&TransitionRow>,
    now: &Timestamp,
) -> (m: Markup)
    ensures
        m@ == member_row_html(viewer, target, last_activity, pending, now),
{
    let is_self: bool = viewer.id == target.id;
    let actions = available_actions(
        viewer.instance_role,
        target.instance_role,
        target.lifecycle,
        is_self,
    );
    let name_hay = text::to_lowercase(target.display_name.as_str());
    let email_hay = text::to_lowercase(target.email.as_str());
    let search_hay = name_hay.concat(" ").concat(email_hay.as_str());
    let checkbox_disabled: bool = target.instance_role == InstanceRole::Owner;
    let aria_label = text::join("Select ", target.display_name.as_str());
    Template::new(MEMBER_ROW)
        .text(search_hay.as_str())
        .uuid(target.id)
        .text(aria_label.as_str())
        .when(checkbox_disabled, " disabled")
        .html(&shell::avatar_block(target.display_name.as_str(), target.id, target.lifecycle))
        .text(target.display_name.as_str())
        .when(is_self, ROW_SELF_TAG)
        .text(target.email.as_str())
        .html(&match pending {
            Some(p) => pending::member_pending_pill(p, now),
            None => Markup::empty(),
        })
        .text(shell::role_class(target.instance_role))
        .text(shell::role_label(target.instance_role))
        .html(&match &last_activity {
            Some(ts) => Markup::text(display::short_date(ts).as_str()),
            None => Markup::raw(MUTED_DASH),
        })
        .html(&if actions.len() > 0 {
            row_actions_kebab(target, actions.as_slice(), is_self)
        } else {
            Markup::empty()
        })
        .done()
}

pub const PENDING_INVITE_ROW: &'static str = "\
    <tr class=\"user-row pending-invite-row\" data-search=\"¤\">\
      <td class=\"col-select\">\
        <input type=\"checkbox\" class=\"member-checkbox member-checkbox-row\" \
          aria-label=\"¤\" disabled>\
      </td>\
      <td class=\"col-member user-row-cell\">\
        <div class=\"user-row-id\">\
          <span class=\"avatar-wrapper\">\
            <span class=\"avatar avatar-sm\" style=\"background:¤\">¤</span>\
          </span>\
          <div class=\"user-row-text\">\
            <span class=\"user-name\">¤</span>\
            <span class=\"user-email\">Pending invitation</span>\
          </div>\
        </div>\
      </td>\
      <td class=\"col-role\">\
        <span class=\"¤\">¤</span>\
      </td>\
      <td class=\"col-last-activity\">\
        <span class=\"muted-dash\">—</span>\
      </td>\
      <td class=\"col-actions\">\
        <details class=\"row-actions\">\
          <summary class=\"row-actions-trigger\" aria-label=\"Row actions\">\
            <span aria-hidden=\"true\">⋮</span>\
          </summary>\
          <div class=\"row-actions-menu\">\
            <button type=\"button\" class=\"row-action-item\" \
              data-open-modal=\"/members/invitations/¤/modal/reissue\">Reissue \
              invitation…</button>\
            <button type=\"button\" class=\"row-action-item row-action-danger\" \
              data-open-modal=\"/members/invitations/¤/modal/revoke\">Revoke invite…</button>\
          </div>\
        </details>\
      </td>\
    </tr>";

/// The HTML of [`pending_invite_row`].
pub open spec fn pending_invite_row_html(invitation: &Invitation) -> Seq<char> {
    let initial = display::initial_of(invitation.email@);
    let color = shell::avatar_color_of(invitation.id);
    let search_hay = text::lowercase(invitation.email@);
    let id = invitation.id;
    let aria_label = "Select pending invite "@ + invitation.email@;
    html::template(PENDING_INVITE_ROW@)
        .text(search_hay)
        .text(aria_label)
        .text(color@)
        .char(initial)
        .text(invitation.email@)
        .text(shell::role_class_text(invitation.instance_role))
        .text(shell::role_label_text(invitation.instance_role))
        .uuid(id)
        .uuid(id)
        .done()
}

/// An open invitation in the shape of a member row.
fn pending_invite_row(invitation: &Invitation) -> (m: Markup)
    ensures
        m@ == pending_invite_row_html(invitation),
{
    let initial: char = display::display_initial(invitation.email.as_str());
    let color = shell::avatar_color(invitation.id);
    let search_hay = text::to_lowercase(invitation.email.as_str());
    let id = invitation.id;
    let aria_label = text::join("Select pending invite ", invitation.email.as_str());
    Template::new(PENDING_INVITE_ROW)
        .text(search_hay.as_str())
        .text(aria_label.as_str())
        .text(color)
        .char(initial)
        .text(invitation.email.as_str())
        .text(shell::role_class(invitation.instance_role))
        .text(shell::role_label(invitation.instance_role))
        .uuid(id)
        .uuid(id)
        .done()
}

/// One row of the members table.
pub enum MemberRow<'a> {
    Member { user: &'a User, last_activity: Option<Timestamp> },
    PendingInvite(&'a Invitation),
}

/// The waiting transition that targets an account: the last one listed for it.
pub open spec fn transition_for(pending: Seq<TransitionRow>, id: Uuid) -> Option<TransitionRow>
    decreases pending.len(),
{
    if pending.len() == 0 {
        None
    } else if pending.last().target_user_id == Some(id) {
        Some(pending.last())
    } else {
        transition_for(pending.drop_last(), id)
    }
}

/// The waiting transition that targets an account: the last one listed for it.
pub fn find_transition<'a>(pending: &'a [TransitionRow], id: Uuid) -> (r: Option<&'a TransitionRow>)
    ensures
        match r {
            Some(p) => transition_for(pending@, id) == Some(*p),
            None => transition_for(pending@, id) is None,
        },
{
    let mut n: usize = pending.len();
    assert(pending@.take(n as int) =~= pending@);
    while n > 0
        invariant
            n <= pending@.len(),
            transition_for(pending@, id) == transition_for(pending@.take(n as int), id),
        decreases n,
    {
        assert(pending@.take(n as int).drop_last() =~= pending@.take(n - 1));
        match pending[n - 1].target_user_id {
            Some(target) => if target == id {
                return Some(&pending[n - 1]);
            },
            None => {},
        }
        n -= 1;
    }
    None
}

pub open spec fn table_row_html(
    row: MemberRow,
    viewer: &User,
    pending: Seq<TransitionRow>,
    now: &Timestamp,
) -> Seq<char> {
    match row {
        MemberRow::Member { user, last_activity } => match transition_for(pending, user.id) {
            Some(p) => member_row_html(viewer, user, last_activity, Some(&p), now),
            None => member_row_html(viewer, user, last_activity, None, now),
        },
        MemberRow::PendingInvite(inv) => pending_invite_row_html(inv),
    }
}

fn table_row(row: &MemberRow, viewer: &User, pending: &[TransitionRow], now: &Timestamp) -> (m: Markup)
    ensures
        m@ == table_row_html(*row, viewer, pending@, now),
{
    match row {
        MemberRow::Member { user, last_activity } => {
            let waiting = find_transition(pending, user.id);
            member_row(viewer, user, *last_activity, waiting, now)
        },
        MemberRow::PendingInvite(inv) => pending_invite_row(inv),
    }
}

pub open spec fn table_rows_html(rows: Seq<MemberRow>, viewer: &User, pending: Seq<TransitionRow>, now: &Timestamp) -> Seq<char>
    decreases rows.len(),
{
    if rows.len() == 0 {
        Seq::empty()
    } else {
        let row = rows.last();
        table_rows_html(rows.drop_last(), viewer, pending, now) + table_row_html(row, viewer, pending, now)
    }
}

fn table_rows(rows: &[MemberRow<'_>], viewer: &User, pending: &[TransitionRow], now: &Timestamp) -> (m: Markup)
    ensures
        m@ == table_rows_html(rows@, viewer, pending@, now),
{
    let mut out = Markup::empty();
    let mut i: usize = 0;
    while i < rows.len()
        invariant
            i <= rows@.len(),
            out@ == table_rows_html(rows@.take(i as int), viewer, pending@, now),
        decreases rows@.len() - i,
    {
        let row = &rows[i];
        let row = table_row(row, viewer, pending, now);
        out = out.then_html(&row);
        i += 1;
        assert(rows@.take(i as int).drop_last() =~= rows@.take(i - 1));
    }
    assert(rows@.take(i as int) =~= rows@);
    out
}

/// The address of a page of the members table.
pub open spec fn members_url_of(sort: SortState, filter: MemberFilter, page: u32, rows: u32) -> Seq<char> {
    filtered_url_of(sort.column, sort.direction, filter) + "&page="@ + text::decimal(page as nat)
        + "&rows="@ + text::decimal(rows as nat)
}

/// The address of the members table in an order and under a filter.
pub open spec fn filtered_url_of(
    column: SortColumn,
    direction: SortDirection,
    filter: MemberFilter,
) -> Seq<char> {
    "/members?sort="@ + listing::sort_column_token(column) + "&dir="@
        + listing::sort_direction_token(direction) + "&filter="@ + listing::filter_token(filter)
}

fn filtered_url(column: SortColumn, direction: SortDirection, filter: MemberFilter) -> (r: String)
    ensures
        r@ == filtered_url_of(column, direction, filter),
{
    text::join("/members?sort=", column.as_str()).concat("&dir=").concat(direction.as_str()).concat(
        "&filter=",
    ).concat(filter.as_str())
}

pub fn members_url(sort: SortState, filter: MemberFilter, page: u32, rows: u32) -> (r: String)
    ensures
        r@ == members_url_of(sort, filter, page, rows),
{
    let p = text::decimal_string(page as u64);
    let n = text::decimal_string(rows as u64);
    filtered_url(sort.column, sort.direction, filter).concat("&page=").concat(p.as_str()).concat(
        "&rows=",
    ).concat(n.as_str())
}

pub const FILTER_MENU_ITEM: &'static str = "\
    <a class=\"¤\" href=\"¤\">\
      <span>¤</span>¤\
    </a>";

/// The HTML of [`filter_menu_item`].
pub open spec fn filter_menu_item_html(
    current: MemberFilter,
    sort: SortState,
    option: MemberFilter,
) -> Seq<char> {
    let active = current == option;
    let class = if active {
        "filter-menu-item filter-menu-item-active"
    } else {
        "filter-menu-item"
    };
    let href = filtered_url_of(sort.column, sort.direction, option);
    html::template(FILTER_MENU_ITEM@)
        .text(class@)
        .text(href)
        .text(listing::filter_label(option))
        .html(if active {
            CHECK_SMALL_ICON@
        } else {
            Seq::empty()
        })
        .done()
}

/// One choice of the filter menu.
fn filter_menu_item(current: MemberFilter, sort: SortState, option: MemberFilter) -> (m: Markup)
    ensures
        m@ == filter_menu_item_html(current, sort, option),
{
    let active: bool = current == option;
    let class: &str = if active {
        "filter-menu-item filter-menu-item-active"
    } else {
        "filter-menu-item"
    };
    let href = filtered_url(sort.column, sort.direction, option);
    Template::new(FILTER_MENU_ITEM)
        .text(class)
        .text(href.as_str())
        .text(option.label())
        .html(&if active {
            Markup::raw(CHECK_SMALL_ICON)
        } else {
            Markup::empty()
        })
        .done()
}

pub const FILTER_MENU: &'static str = "\
    <details class=\"filter-menu\">\
      <summary class=\"filter-trigger\">\
        <span class=\"filter-trigger-label\">Member type</span>\
        <span class=\"filter-trigger-value\">¤</span>¤\
      </summary>\
      <div class=\"filter-menu-list\">¤\
        <div class=\"filter-menu-section\">Role</div>¤¤¤\
        <div class=\"filter-menu-section\">Status</div>¤¤¤¤\
      </div>\
    </details>";

/// The HTML of [`filter_menu`].
pub open spec fn filter_menu_html(current: MemberFilter, sort: SortState) -> Seq<char> {
    html::template(FILTER_MENU@)
        .text(listing::filter_label(current))
        .html(CHEVRON_DOWN_ICON@)
        .html(filter_menu_item_html(current, sort, MemberFilter::All))
        .html(filter_menu_item_html(current, sort, MemberFilter::Role(InstanceRole::Owner)))
        .html(filter_menu_item_html(current, sort, MemberFilter::Role(InstanceRole::Admin)))
        .html(filter_menu_item_html(current, sort, MemberFilter::Role(InstanceRole::Member)))
        .html(filter_menu_item_html(current, sort, MemberFilter::Status(UserLifecycle::Active)))
        .html(filter_menu_item_html(
            current,
            sort,
            MemberFilter::Status(UserLifecycle::PendingInvite),
        ))
        .html(filter_menu_item_html(
            current,
            sort,
            MemberFilter::Status(UserLifecycle::Deactivated),
        ))
        .html(filter_menu_item_html(current, sort, MemberFilter::Status(UserLifecycle::Anonymized)))
        .done()
}

/// The filter menu; its links keep the order.
fn filter_menu(current: MemberFilter, sort: SortState) -> (m: Markup)
    ensures
        m@ == filter_menu_html(current, sort),
{
    Template::new(FILTER_MENU)
        .text(current.label())
        .raw(CHEVRON_DOWN_ICON)
        .html(&filter_menu_item(current, sort, MemberFilter::All))
        .html(&filter_menu_item(current, sort, MemberFilter::Role(InstanceRole::Owner)))
        .html(&filter_menu_item(current, sort, MemberFilter::Role(InstanceRole::Admin)))
        .html(&filter_menu_item(current, sort, MemberFilter::Role(InstanceRole::Member)))
        .html(&filter_menu_item(current, sort, MemberFilter::Status(UserLifecycle::Active)))
        .html(&filter_menu_item(current, sort, MemberFilter::Status(UserLifecycle::PendingInvite)))
        .html(&filter_menu_item(current, sort, MemberFilter::Status(UserLifecycle::Deactivated)))
        .html(&filter_menu_item(current, sort, MemberFilter::Status(UserLifecycle::Anonymized)))
        .done()
}

pub const SORTABLE_TH: &'static str = "\
    <th class=\"¤\" aria-sort=\"¤\">\
      <a href=\"¤\" class=\"col-sort-link\">¤</a>\
    </th>";

/// The HTML of [`sortable_th`].
pub open spec fn sortable_th_html(
    label: Seq<char>,
    column: SortColumn,
    sort: SortState,
    filter: MemberFilter,
    extra_class: Seq<char>,
) -> Seq<char> {
    let is_active = column == sort.column;
    let next_dir = if is_active { listing::flipped(sort.direction) } else { SortDirection::Asc };
    let href = filtered_url_of(column, next_dir, filter);
    let marked = if is_active {
        "col-sortable"@ + " "@ + (match sort.direction {
            SortDirection::Asc => "col-sort-asc"@,
            SortDirection::Desc => "col-sort-desc"@,
        })
    } else {
        "col-sortable"@
    };
    let classes = if extra_class.len() > 0 { marked + " "@ + extra_class } else { marked };
    let aria_sort = if is_active {
        match sort.direction {
            SortDirection::Asc => "ascending",
            SortDirection::Desc => "descending",
        }
    } else {
        "none"
    };
    html::template(SORTABLE_TH@)
        .text(classes)
        .text(aria_sort@)
        .text(href)
        .text(label)
        .done()
}

/// A column header that sorts: the current column turns round, another one starts ascending.
fn sortable_th(
    label: &str,
    column: SortColumn,
    sort: SortState,
    filter: MemberFilter,
    extra_class: &str,
) -> (m: Markup)
    ensures
        m@ == sortable_th_html(label@, column, sort, filter, extra_class@),
{
    let is_active: bool = column == sort.column;
    let next_dir: SortDirection = if is_active {
        sort.direction.flip()
    } else {
        SortDirection::Asc
    };
    let href = filtered_url(column, next_dir, filter);
    let mut classes = "col-sortable".to_owned();
    if is_active {
        classes = classes.concat(" ").concat(match sort.direction {
            SortDirection::Asc => "col-sort-asc",
            SortDirection::Desc => "col-sort-desc",
        });
    }
    if !extra_class.is_empty() {
        classes = classes.concat(" ").concat(extra_class);
    }
    let aria_sort: &str = if is_active {
        match sort.direction {
            SortDirection::Asc => "ascending",
            SortDirection::Desc => "descending",
        }
    } else {
        "none"
    };
    Template::new(SORTABLE_TH)
        .text(classes.as_str())
        .text(aria_sort)
        .text(href.as_str())
        .text(label)
        .done()
}

pub const PAGE_CURRENT: &'static str = "\
    <span class=\"pagination-number pagination-number-active\" aria-current=\"page\">¤</span>";

pub const PAGE_LINK: &'static str = "<a class=\"pagination-number\" href=\"¤\">¤</a>";

/// The HTML of [`pagination_number`].
pub open spec fn pagination_number_html(href: Seq<char>, page: u32, active: bool) -> Seq<char> {
    if active {
        html::template(PAGE_CURRENT@)
            .num(page as int)
            .done()
    } else {
        html::template(PAGE_LINK@)
            .text(href)
            .num(page as int)
            .done()
    }
}

/// A page number; the current page is no link.
pub fn pagination_number(href: &str, page: u32, active: bool) -> (m: Markup)
    ensures
        m@ == pagination_number_html(href@, page, active),
{
    if active {
        Template::new(PAGE_CURRENT)
            .num(page as i64)
            .done()
    } else {
        Template::new(PAGE_LINK)
            .text(href)
            .num(page as i64)
            .done()
    }
}

pub const STEP_DISABLED: &'static str = "\
    <span class=\"pagination-step pagination-step-disabled\" aria-label=\"¤\" \
      aria-disabled=\"true\">¤</span>";

pub const STEP_LINK: &'static str = "\
    <a class=\"pagination-step\" href=\"¤\" aria-label=\"¤\">¤</a>";

/// The HTML of [`pagination_step`].
pub open spec fn pagination_step_html(
    href: Seq<char>,
    disabled: bool,
    label: Seq<char>,
    icon: Seq<char>,
) -> Seq<char> {
    let aria = "Go to "@ + label + " page"@;
    if disabled {
        html::template(STEP_DISABLED@)
            .text(aria)
            .html(icon)
            .done()
    } else {
        html::template(STEP_LINK@)
            .text(href)
            .text(aria)
            .html(icon)
            .done()
    }
}

/// A step to the first, previous, next or last page; no link where there is none to go to.
pub fn pagination_step(href: &str, disabled: bool, label: &str, icon: &Markup) -> (m: Markup)
    ensures
        m@ == pagination_step_html(href@, disabled, label@, icon@),
{
    let aria = text::join("Go to ", label).concat(" page");
    if disabled {
        Template::new(STEP_DISABLED)
            .text(aria.as_str())
            .html(icon)
            .done()
    } else {
        Template::new(STEP_LINK)
            .text(href)
            .text(aria.as_str())
            .html(icon)
            .done()
    }
}

pub const ROWS_OPTION: &'static str = "\
    <a class=\"¤\" href=\"¤\">\
      <span>¤</span>¤\
    </a>";

pub const ELLIPSIS: &'static str = "\
    <span class=\"pagination-ellipsis\" aria-hidden=\"true\">…</span>";

/// The page numbers of the members table.
pub open spec fn page_slots_html(
    items: Seq<PageItem>,
    sort: SortState,
    filter: MemberFilter,
    rows: u32,
    cur: u32,
) -> Seq<char>
    decreases items.len(),
{
    if items.len() == 0 {
        Seq::empty()
    } else {
        page_slots_html(items.drop_last(), sort, filter, rows, cur) + (match items.last() {
            PageItem::Number(n) => pagination_number_html(
                members_url_of(sort, filter, n, rows),
                n,
                n == cur,
            ),
            PageItem::Ellipsis => ELLIPSIS@,
        })
    }
}

fn page_slots(items: &Vec<PageItem>, sort: SortState, filter: MemberFilter, rows: u32, cur: u32) -> (m: Markup)
    ensures
        m@ == page_slots_html(items@, sort, filter, rows, cur),
{
    let mut out = Markup::empty();
    let mut i: usize = 0;
    while i < items.len()
        invariant
            i <= items@.len(),
            out@ == page_slots_html(items@.take(i as int), sort, filter, rows, cur),
        decreases items@.len() - i,
    {
        let slot = match items[i] {
            PageItem::Number(n) => pagination_number(
                members_url(sort, filter, n, rows).as_str(),
                n,
                n == cur,
            ),
            PageItem::Ellipsis => Markup::raw(ELLIPSIS),
        };
        out = out.then_html(&slot);
        i += 1;
        assert(items@.take(i as int).drop_last() =~= items@.take(i - 1));
    }
    assert(items@.take(i as int) =~= items@);
    out
}

/// One page size to choose.
pub open spec fn rows_option_html(href: Seq<char>, option: u32, active: bool) -> Seq<char> {
    html::template(ROWS_OPTION@)
        .text(if active {
            "filter-menu-item filter-menu-item-active"@
        } else {
            "filter-menu-item"@
        })
        .text(href)
        .num(option as int)
        .when(active, CHECK_SMALL_ICON@)
        .done()
}

pub fn rows_option(href: &str, option: u32, active: bool) -> (m: Markup)
    ensures
        m@ == rows_option_html(href@, option, active),
{
    Template::new(ROWS_OPTION)
        .text(if active {
            "filter-menu-item filter-menu-item-active"
        } else {
            "filter-menu-item"
        })
        .text(href)
        .num(option as i64)
        .when(active, CHECK_SMALL_ICON)
        .done()
}

/// The page sizes to choose.
pub open spec fn rows_options_html(options: Seq<u32>, sort: SortState, filter: MemberFilter, rows: u32) -> Seq<char>
    decreases options.len(),
{
    if options.len() == 0 {
        Seq::empty()
    } else {
        let option = options.last();
        rows_options_html(options.drop_last(), sort, filter, rows) + rows_option_html(
            members_url_of(sort, filter, 1, option),
            option,
            option == rows,
        )
    }
}

fn rows_options(options: &Vec<u32>, sort: SortState, filter: MemberFilter, rows: u32) -> (m: Markup)
    ensures
        m@ == rows_options_html(options@, sort, filter, rows),
{
    let mut out = Markup::empty();
    let mut i: usize = 0;
    while i < options.len()
        invariant
            i <= options@.len(),
            out@ == rows_options_html(options@.take(i as int), sort, filter, rows),
        decreases options@.len() - i,
    {
        let option: u32 = options[i];
        let href = members_url(sort, filter, 1, option);
        out = out.then_html(&rows_option(href.as_str(), option, option == rows));
        i += 1;
        assert(options@.take(i as int).drop_last() =~= options@.take(i - 1));
    }
    assert(options@.take(i as int) =~= options@);
    out
}

/// The page before one; the first page has none and stays.
pub open spec fn previous_page(cur: u32) -> u32 {
    if cur <= 2 {
        1
    } else {
        (cur - 1) as u32
    }
}

/// The page after one, up to the last.
pub open spec fn following_page(cur: u32, total: u32) -> u32 {
    if cur + 1 < total {
        (cur + 1) as u32
    } else {
        total
    }
}

pub const PAGINATION_BAR: &'static str = "\
    <nav class=\"pagination-bar\" aria-label=\"Pagination\">\
      <form method=\"get\" action=\"/members\" class=\"pagination-jump\">\
        <label class=\"pagination-jump-label\" for=\"page-jump\">Page</label>\
        <input type=\"number\" id=\"page-jump\" name=\"page\" class=\"pagination-jump-input\" \
          value=\"¤\" min=\"1\" max=\"¤\">\
        <span class=\"pagination-jump-of\">of ¤</span>\
        <input type=\"hidden\" name=\"sort\" value=\"¤\">\
        <input type=\"hidden\" name=\"dir\" value=\"¤\">\
        <input type=\"hidden\" name=\"filter\" value=\"¤\">\
        <input type=\"hidden\" name=\"rows\" value=\"¤\">\
      </form>\
      <div class=\"pagination-numbers\">¤¤¤¤¤</div>\
      <div class=\"pagination-rows\">\
        <span class=\"pagination-rows-label\">Rows per page</span>\
        <details class=\"filter-menu pagination-rows-menu\">\
          <summary class=\"filter-trigger pagination-rows-trigger\">\
            <span class=\"filter-trigger-value\">¤</span>¤\
          </summary>\
          <div class=\"filter-menu-list\">¤</div>\
        </details>\
      </div>\
    </nav>";

/// The HTML of [`pagination_bar`].
pub open spec fn pagination_bar_html(
    state: PaginationState,
    sort: SortState,
    filter: MemberFilter,
) -> Seq<char> {
    let cur = state.current_page;
    let total = state.total_pages;
    let rows = state.rows_per_page;
    let at_first = cur <= 1;
    let at_last = cur >= total;
    let prev_page = previous_page(cur);
    let next_page = following_page(cur, total);
    html::template(PAGINATION_BAR@)
        .num(cur as int)
        .num(total as int)
        .num(total as int)
        .text(listing::sort_column_token(sort.column))
        .text(listing::sort_direction_token(sort.direction))
        .text(listing::filter_token(filter))
        .num(rows as int)
        .html(pagination_step_html(
            members_url_of(sort, filter, 1, rows),
            at_first,
            "first"@,
            CHEVRON_DOUBLE_LEFT_ICON@,
        ))
        .html(pagination_step_html(
            members_url_of(sort, filter, prev_page, rows),
            at_first,
            "previous"@,
            CHEVRON_LEFT_ICON@,
        ))
        .html(page_slots_html(listing::page_slots(cur, total), sort, filter, rows, cur))
        .html(pagination_step_html(
            members_url_of(sort, filter, next_page, rows),
            at_last,
            "next"@,
            CHEVRON_RIGHT_ICON@,
        ))
        .html(pagination_step_html(
            members_url_of(sort, filter, total, rows),
            at_last,
            "last"@,
            CHEVRON_DOUBLE_RIGHT_ICON@,
        ))
        .num(rows as int)
        .html(CHEVRON_DOWN_ICON@)
        .html(rows_options_html(listing::rows_per_page_options(), sort, filter, rows))
        .done()
}

/// The foot of the members table: page jump, page numbers and page size.
fn pagination_bar(state: PaginationState, sort: SortState, filter: MemberFilter) -> (m: Markup)
    ensures
        m@ == pagination_bar_html(state, sort, filter),
{
    let cur: u32 = state.current_page;
    let total: u32 = state.total_pages;
    let rows: u32 = state.rows_per_page;
    let at_first: bool = cur <= 1;
    let at_last: bool = cur >= total;
    let prev_page: u32 = if cur <= 2 { 1 } else { cur - 1 };
    let next_page: u32 = if total > 0 && cur < total - 1 { cur + 1 } else { total };
    let items = listing::page_items(cur, total);
    let options = listing::rows_options();
    Template::new(PAGINATION_BAR)
        .num(cur as i64)
        .num(total as i64)
        .num(total as i64)
        .text(sort.column.as_str())
        .text(sort.direction.as_str())
        .text(filter.as_str())
        .num(rows as i64)
        .html(&pagination_step(
            members_url(sort, filter, 1, rows).as_str(),
            at_first,
            "first",
            &Markup::raw(CHEVRON_DOUBLE_LEFT_ICON),
        ))
        .html(&pagination_step(
            members_url(sort, filter, prev_page, rows).as_str(),
            at_first,
            "previous",
            &Markup::raw(CHEVRON_LEFT_ICON),
        ))
        .html(&page_slots(&items, sort, filter, rows, cur))
        .html(&pagination_step(
            members_url(sort, filter, next_page, rows).as_str(),
            at_last,
            "next",
            &Markup::raw(CHEVRON_RIGHT_ICON),
        ))
        .html(&pagination_step(
            members_url(sort, filter, total, rows).as_str(),
            at_last,
            "last",
            &Markup::raw(CHEVRON_DOUBLE_RIGHT_ICON),
        ))
        .num(rows as i64)
        .raw(CHEVRON_DOWN_ICON)
        .html(&rows_options(&options, sort, filter, rows))
        .done()
}

pub const PENDING_ALERT_CARD: &'static str = "\
    <section class=\"alert-card alert-card-primary\" role=\"status\">\
      <div class=\"alert-card-icon\">¤</div>\
      <div class=\"alert-card-body\">\
        <div class=\"alert-card-title\">¤</div>\
        <div class=\"alert-card-message\">Owner-initiated changes wait 72 hours so any \
          Owner can veto before they apply. Review now to act before the window expires.</div>\
      </div>\
      <div class=\"alert-card-actions\">\
        <a class=\"btn\" href=\"/pending\">Review</a>\
      </div>\
    </section>";

/// The HTML of [`pending_alert_card`].
pub open spec fn pending_alert_card_html(count: u32) -> Seq<char> {
    let title = if count == 1 {
        "1 pending action awaiting review"@
    } else {
        text::decimal(count as nat) + " pending actions awaiting review"@
    };
    html::template(PENDING_ALERT_CARD@)
        .html(INFO_CIRCLE_ICON@)
        .text(title)
        .done()
}

/// Tells owners how many actions wait for their veto.
fn pending_alert_card(count: u32) -> (m: Markup)
    ensures
        m@ == pending_alert_card_html(count),
{
    let title = if count == 1 {
        "1 pending action awaiting review".to_owned()
    } else {
        text::decimal_string(count as u64).concat(" pending actions awaiting review")
    };
    Template::new(PENDING_ALERT_CARD)
        .raw(INFO_CIRCLE_ICON)
        .text(title.as_str())
        .done()
}

/// What the last action on the page came to, from the address.
pub struct MembersBanner<'a> {
    pub action: Option<&'a str>,
    pub target: Option<&'a str>,
    pub error: Option<&'a str>,
}

/// Nothing: outcomes are shown as toasts by the browser.
pub open spec fn render_banner_html() -> Seq<char> {
    Seq::empty()
}

fn render_banner(_banner: &MembersBanner) -> (m: Markup)
    ensures
        m@ == render_banner_html(),
{
    Markup::empty()
}

/// The card about waiting actions: for owners, where there are any.
pub open spec fn pending_alert_html(ctx: &ChromeContext) -> Seq<char> {
    match ctx.pending_count {
        Some(n) => if shell::owner(ctx.user.instance_role) && n > 0 {
            pending_alert_card_html(n)
        } else {
            Seq::empty()
        },
        None => Seq::empty(),
    }
}

fn pending_alert(ctx: &ChromeContext) -> (m: Markup)
    ensures
        m@ == pending_alert_html(ctx),
{
    match ctx.pending_count {
        Some(n) => if shell::is_owner(ctx.user.instance_role) && n > 0 {
            pending_alert_card(n)
        } else {
            Markup::empty()
        },
        None => Markup::empty(),
    }
}

pub const MEMBERS_PAGE: &'static str = "\
    ¤¤\
    <div class=\"users-toolbar\">\
      <input type=\"search\" id=\"users-search\" class=\"users-search\" placeholder=\"Search \
        by name or email…\" autocomplete=\"off\" aria-label=\"Search members\">¤\
      <button type=\"button\" class=\"btn-secondary invite-cta\" \
        data-open-modal=\"/modals/invite\">¤\
        <span>Invite members</span>\
      </button>\
    </div>¤¤\
    <script>¤¤¤¤¤¤¤¤¤¤¤</script>";

pub const NO_MEMBERS: &'static str = "\
    <div class=\"card\">\
      <p class=\"muted\">No members match this filter.</p>\
    </div>";

pub const MEMBERS_TABLE: &'static str = "\
    <table class=\"users-table\">\
      <thead>\
        <tr>\
          <th class=\"col-select\">\
            <input type=\"checkbox\" id=\"select-all-members\" class=\"member-checkbox \
              member-checkbox-all\" aria-label=\"Select all members\">\
          </th>¤¤\
          <th class=\"col-last-activity\">Last activity</th>\
          <th class=\"col-actions\" aria-label=\"Actions\"></th>\
        </tr>\
      </thead>\
      <tbody>¤</tbody>\
    </table>";

/// The HTML of [`members_page`].
pub open spec fn members_page_html(
    ctx: &ChromeContext,
    rows: Seq<MemberRow>,
    sort: SortState,
    filter: MemberFilter,
    pagination: PaginationState,
    pending: Seq<TransitionRow>,
    now: &Timestamp,
) -> Seq<char> {
    let content = html::template(MEMBERS_PAGE@)
        .html(render_banner_html())
        .html(pending_alert_html(ctx))
        .html(filter_menu_html(filter, sort))
        .html(PLUS_ICON@)
        .html(if rows.len() == 0 && pagination.total_rows == 0 {
            NO_MEMBERS@
        } else {
            html::template(MEMBERS_TABLE@)
                .html(sortable_th_html("Member"@, SortColumn::Name, sort, filter, "col-member"@))
                .html(sortable_th_html("Type"@, SortColumn::Role, sort, filter, "col-role"@))
                .html(table_rows_html(rows, ctx.user, pending, now))
                .done()
        })
        .html(pagination_bar_html(pagination, sort, filter))
        .html(MEMBERS_SEARCH_JS@)
        .html(MEMBERS_SELECT_ALL_JS@)
        .html(MEMBERS_KEBAB_OUTSIDE_CLICK_JS@)
        .html(DROPDOWN_FLIP_JS@)
        .html(REAUTH_CHAIN_JS@)
        .html(CONFIRM_NAME_JS@)
        .html(ROLE_PICKER_GATE_JS@)
        .html(CONFIRM_CHECKBOX_JS@)
        .html(INVITE_SWAP_TO_INVITE_JS@)
        .html(INVITE_REFRESH_ON_CLOSE_JS@)
        .html(INVITE_COPY_JS@)
        .done();
    shell::shell_app_wide_html(ctx, "Members"@, PageId::Members, content)
}

/// `GET /members`: one page of the members table.
pub fn members_page(
    ctx: &ChromeContext,
    rows: &[MemberRow<'_>],
    banner: &MembersBanner,
    sort: SortState,
    filter: MemberFilter,
    pagination: PaginationState,
    pending: &[TransitionRow],
    now: &Timestamp,
) -> (m: Markup)
    ensures
        m@ == members_page_html(ctx, rows@, sort, filter, pagination, pending@, now),
{
    let content = Template::new(MEMBERS_PAGE)
        .html(&render_banner(banner))
        .html(&pending_alert(ctx))
        .html(&filter_menu(filter, sort))
        .raw(PLUS_ICON)
        .html(&if rows.len() == 0 && pagination.total_rows == 0 {
            Markup::raw(NO_MEMBERS)
        } else {
            Template::new(MEMBERS_TABLE)
                .html(&sortable_th("Member", SortColumn::Name, sort, filter, "col-member"))
                .html(&sortable_th("Type", SortColumn::Role, sort, filter, "col-role"))
                .html(&table_rows(rows, ctx.user, pending, now))
                .done()
        })
        .html(&pagination_bar(pagination, sort, filter))
        .raw(MEMBERS_SEARCH_JS)
        .raw(MEMBERS_SELECT_ALL_JS)
        .raw(MEMBERS_KEBAB_OUTSIDE_CLICK_JS)
        .raw(DROPDOWN_FLIP_JS)
        .raw(REAUTH_CHAIN_JS)
        .raw(CONFIRM_NAME_JS)
        .raw(ROLE_PICKER_GATE_JS)
        .raw(CONFIRM_CHECKBOX_JS)
        .raw(INVITE_SWAP_TO_INVITE_JS)
        .raw(INVITE_REFRESH_ON_CLOSE_JS)
        .raw(INVITE_COPY_JS)
        .done();
    shell::shell_app_wide(ctx, "Members", PageId::Members, &content)
}

} // verus!
