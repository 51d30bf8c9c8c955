//! The frames around the pages and the parts that most pages share.

use vstd::prelude::*;
use crate::display;
use crate::html;
use crate::html::{Markup, Template};
use crate::json;
use crate::model;
use crate::model::{InstanceRole, User, UserLifecycle, Uuid};
use crate::text;
use crate::views::icons::{
    APPS_ICON, CLOSE_ICON, DOTS_VERTICAL_ICON, EVENTS_ICON, LOCK_ICON, RADIO_OFF_ICON,
    RADIO_ON_ICON, SEARCH_GLYPH_ICON, SETTINGS_ICON, SIGNOUT_ICON, THEME_AUTO_ICON,
    THEME_DARK_ICON, THEME_LIGHT_ICON, USERS_ICON, USER_ICON,
};
use crate::views::scripts::{
    ACCOUNT_CLOSE_GATE_JS, CHANGE_PASSWORD_GATE_JS, DIALOG_JS, INVITE_COPY_JS, MULTI_ACCOUNT_JS,
    REAUTH_CHAIN_JS, SETTINGS_TABS_JS, THEME_BOOT_JS, THEME_SWITCH_JS, TOAST_JS,
    USER_CARD_OUTSIDE_CLICK_JS, WEBAUTHN_JS,
};

verus! {

/// What every page of a running server shares.
pub struct SiteInfo {
    /// Appended to the asset addresses so that browsers fetch them anew after a restart.
    pub asset_version: String,
    /// The version of the server.
    pub release: String,
}

/// The asset version of a server that started `secs` seconds after 1970: the number in
/// lower-case hexadecimal.
pub open spec fn asset_version_of(secs: nat) -> Seq<char>
    decreases secs,
{
    if secs < 16 {
        seq![text::hex_digit(secs as int)]
    } else {
        asset_version_of(secs / 16).push(text::hex_digit((secs % 16) as int))
    }
}

/// The asset version of a server that started `secs` seconds after 1970.
pub fn asset_version(secs: u64) -> (r: String)
    ensures
        r@ == asset_version_of(secs as nat),
    decreases secs,
{
    if secs < 16 {
        let mut s = String::new();
        s.push(text::hex_digit_char(secs as u8));
        assert(s@ =~= asset_version_of(secs as nat));
        s
    } else {
        let mut s = asset_version(secs / 16);
        s.push(text::hex_digit_char((secs % 16) as u8));
        s
    }
}

/// What the pages of a signed-in user need to know of the request.
pub struct ChromeContext<'a> {
    pub site: &'a SiteInfo,
    /// Display name of the instance.
    pub instance_name: &'a str,
    pub user: &'a User,
    /// CSRF token of the session.
    pub csrf_token: &'a str,
    /// Number of owner-on-owner actions that wait for a veto; only owners are told.
    pub pending_count: Option<u32>,
}

/// The navigation entry of a page.
#[derive(Clone, Copy, Debug, PartialEq, Eq, Structural)]
pub enum PageId {
    Profile,
    Members,
    Events,
    Pending,
    Apps,
    Settings,
}

pub const CSRF_INPUT: &'static str = "<input type=\"hidden\" name=\"csrf_token\" value=\"¤\">";

/// The HTML of [`csrf_input`].
pub open spec fn csrf_input_html(token: Seq<char>) -> Seq<char> {
    html::template(CSRF_INPUT@)
        .text(token)
        .done()
}

/// The hidden CSRF field of a state-changing form.
pub fn csrf_input(token: &str) -> (m: Markup)
    ensures
        m@ == csrf_input_html(token@),
{
    Template::new(CSRF_INPUT)
        .text(token)
        .done()
}

pub open spec fn at_least_admin(role: InstanceRole) -> bool {
    role == InstanceRole::Admin || role == InstanceRole::Owner
}

pub fn is_at_least_admin(role: InstanceRole) -> (r: bool)
    ensures
        r == at_least_admin(role),
{
    role == InstanceRole::Admin || role == InstanceRole::Owner
}

pub open spec fn owner(role: InstanceRole) -> bool {
    role == InstanceRole::Owner
}

pub fn is_owner(role: InstanceRole) -> (r: bool)
    ensures
        r == owner(role),
{
    role == InstanceRole::Owner
}

pub open spec fn role_class_text(role: InstanceRole) -> Seq<char> {
    match role {
        InstanceRole::Owner => "role-badge role-owner"@,
        InstanceRole::Admin => "role-badge role-admin"@,
        InstanceRole::Member => "role-badge role-member"@,
    }
}

pub fn role_class(role: InstanceRole) -> (r: &'static str)
    ensures
        r@ == role_class_text(role),
{
    match role {
        InstanceRole::Owner => "role-badge role-owner",
        InstanceRole::Admin => "role-badge role-admin",
        InstanceRole::Member => "role-badge role-member",
    }
}

pub open spec fn role_label_text(role: InstanceRole) -> Seq<char> {
    match role {
        InstanceRole::Owner => "Owner"@,
        InstanceRole::Admin => "Admin"@,
        InstanceRole::Member => "Member"@,
    }
}

pub fn role_label(role: InstanceRole) -> (r: &'static str)
    ensures
        r@ == role_label_text(role),
{
    match role {
        InstanceRole::Owner => "Owner",
        InstanceRole::Admin => "Admin",
        InstanceRole::Member => "Member",
    }
}

/// The colour of an account, from the first byte of its identifier.
pub open spec fn avatar_color_of(id: Uuid) -> &'static str {
    let k = id.value / 0x1_00_00_00_00_00_00_00_00_00_00_00_00_00_00_00 % 8;
    if k == 0 {
        "#1e6feb"
    } else if k == 1 {
        "#e67e22"
    } else if k == 2 {
        "#8e44ad"
    } else if k == 3 {
        "#27ae60"
    } else if k == 4 {
        "#c0392b"
    } else if k == 5 {
        "#16a085"
    } else if k == 6 {
        "#d35400"
    } else {
        "#2980b9"
    }
}

pub fn avatar_color(id: Uuid) -> (r: &'static str)
    ensures
        r@ == avatar_color_of(id)@,
{
    let k: u8 = id.first_byte() % 8;
    if k == 0 {
        "#1e6feb"
    } else if k == 1 {
        "#e67e22"
    } else if k == 2 {
        "#8e44ad"
    } else if k == 3 {
        "#27ae60"
    } else if k == 4 {
        "#c0392b"
    } else if k == 5 {
        "#16a085"
    } else if k == 6 {
        "#d35400"
    } else {
        "#2980b9"
    }
}

pub const ACCOUNT_JSON: &'static str = "{\"color\":¤,\"email\":¤,\"id\":¤,\"initial\":¤,\"name\":¤}";

/// The account as the account switcher in the browser reads it: a JSON object.
pub open spec fn account_json(user: User) -> Seq<char> {
    html::template(ACCOUNT_JSON@)
        .html(json::quoted(avatar_color_of(user.id)@))
        .html(json::quoted(user.email@))
        .html(json::quoted(model::uuid_text(user.id)))
        .html(json::quoted(seq![display::initial_of(user.display_name@)]))
        .html(json::quoted(user.display_name@))
        .done()
}

fn current_account_json(user: &User) -> (r: String)
    ensures
        r@ == account_json(*user),
{
    let color = json::quote(avatar_color(user.id));
    let email = json::quote(user.email.as_str());
    let id_text = user.id.text();
    let id = json::quote(id_text.as_str());
    let mut letter = String::new();
    letter.push(display::display_initial(user.display_name.as_str()));
    assert(letter@ =~= seq![display::initial_of(user.display_name@)]);
    let initial = json::quote(letter.as_str());
    let name = json::quote(user.display_name.as_str());
    Template::new(ACCOUNT_JSON)
        .raw(color.as_str())
        .raw(email.as_str())
        .raw(id.as_str())
        .raw(initial.as_str())
        .raw(name.as_str())
        .done()
        .into_string()
}

pub const AVATAR_BLOCK: &'static str = "\
    <span class=\"avatar-wrapper\">\
      <span class=\"¤\" style=\"background:¤\">¤</span>¤\
    </span>";

pub const AVATAR_LOCK: &'static str = "<span class=\"avatar-lock\" aria-hidden=\"true\">¤</span>";

/// The HTML of [`avatar_block`].
pub open spec fn avatar_block_html(
    display_name: Seq<char>,
    user_id: Uuid,
    lifecycle: UserLifecycle,
) -> Seq<char> {
    let initial = display::initial_of(display_name);
    let color = avatar_color_of(user_id);
    let deactivated = lifecycle == UserLifecycle::Deactivated;
    let avatar_class = if deactivated {
        "avatar avatar-sm avatar-deactivated"
    } else {
        "avatar avatar-sm"
    };
    html::template(AVATAR_BLOCK@)
        .text(avatar_class@)
        .text(color@)
        .char(initial)
        .html(if deactivated {
            html::template(AVATAR_LOCK@)
                .html(LOCK_ICON@)
                .done()
        } else {
            Seq::empty()
        })
        .done()
}

/// An account as a coloured letter; a deactivated one is dimmed and locked.
pub fn avatar_block(display_name: &str, user_id: Uuid, lifecycle: UserLifecycle) -> (m: Markup)
    ensures
        m@ == avatar_block_html(display_name@, user_id, lifecycle),
{
    let initial: char = display::display_initial(display_name);
    let color = avatar_color(user_id);
    let deactivated: bool = lifecycle == UserLifecycle::Deactivated;
    let avatar_class: &str = if deactivated {
        "avatar avatar-sm avatar-deactivated"
    } else {
        "avatar avatar-sm"
    };
    Template::new(AVATAR_BLOCK)
        .text(avatar_class)
        .text(color)
        .char(initial)
        .html(&if deactivated {
            Template::new(AVATAR_LOCK)
                .raw(LOCK_ICON)
                .done()
        } else {
            Markup::empty()
        })
        .done()
}

pub const NAV_BADGE: &'static str = "<span class=\"nav-link-badge\" aria-label=\"¤ pending\">¤</span>";

/// The count behind a navigation link; nothing where it is zero or unknown.
pub open spec fn nav_badge_html(count: Option<u32>) -> Seq<char> {
    match count {
        Some(n) => if n > 0 {
            html::template(NAV_BADGE@).num(n as int).num(n as int).done()
        } else {
            Seq::empty()
        },
        None => Seq::empty(),
    }
}

fn nav_badge(count: Option<u32>) -> (m: Markup)
    ensures
        m@ == nav_badge_html(count),
{
    match count {
        Some(n) => if n > 0 {
            Template::new(NAV_BADGE).num(n as i64).num(n as i64).done()
        } else {
            Markup::empty()
        },
        None => Markup::empty(),
    }
}

pub const NAV_LINK: &'static str = "\
    <a class=\"¤\" href=\"¤\">\
      <span class=\"nav-link-icon\" aria-hidden=\"true\">¤</span>\
      <span class=\"nav-link-label\">¤</span>\
    </a>";

/// The HTML of [`nav_link`].
pub open spec fn nav_link_html(
    href: Seq<char>,
    label: Seq<char>,
    active: bool,
    icon: Seq<char>,
) -> Seq<char> {
    let class = if active { "nav-link active" } else { "nav-link" };
    html::template(NAV_LINK@)
        .text(class@)
        .text(href)
        .html(icon)
        .text(label)
        .done()
}

fn nav_link(href: &str, label: &str, active: bool, icon: &Markup) -> (m: Markup)
    ensures
        m@ == nav_link_html(href@, label@, active, icon@),
{
    let class: &str = if active { "nav-link active" } else { "nav-link" };
    Template::new(NAV_LINK)
        .text(class)
        .text(href)
        .html(icon)
        .text(label)
        .done()
}

pub const NAV_LINK_WITH_BADGE: &'static str = "\
    <a class=\"¤\" href=\"¤\">\
      <span class=\"nav-link-icon\" aria-hidden=\"true\">¤</span>\
      <span class=\"nav-link-label\">¤</span>¤\
    </a>";

/// The HTML of [`nav_link_with_badge`].
pub open spec fn nav_link_with_badge_html(
    href: Seq<char>,
    label: Seq<char>,
    active: bool,
    count: Option<u32>,
    icon: Seq<char>,
) -> Seq<char> {
    let class = if active { "nav-link active" } else { "nav-link" };
    html::template(NAV_LINK_WITH_BADGE@)
        .text(class@)
        .text(href)
        .html(icon)
        .text(label)
        .html(nav_badge_html(count))
        .done()
}

/// A navigation link with a count behind it; none where there is nothing to count.
fn nav_link_with_badge(
    href: &str,
    label: &str,
    active: bool,
    count: Option<u32>,
    icon: &Markup,
) -> (m: Markup)
    ensures
        m@ == nav_link_with_badge_html(href@, label@, active, count, icon@),
{
    let class: &str = if active { "nav-link active" } else { "nav-link" };
    Template::new(NAV_LINK_WITH_BADGE)
        .text(class)
        .text(href)
        .html(icon)
        .text(label)
        .html(&nav_badge(count))
        .done()
}

pub const SIDEBAR: &'static str = "\
    <aside class=\"sidebar\">\
      <div class=\"brand\">\
        <a href=\"/\">\
          <span class=\"brand-logo\" aria-hidden=\"true\">\
            <img src=\"/assets/img/sylva-logo.svg\" alt=\"\">\
          </span>\
          <span class=\"brand-prefix\">Sylva</span>\
          <span class=\"brand-sep\"> · </span>\
          <span class=\"brand-instance\">¤</span>\
        </a>\
      </div>\
      <button class=\"search-trigger\" type=\"button\" aria-label=\"Search (coming soon)\" \
        disabled>\
        <span class=\"search-icon\">¤</span>\
        <span class=\"search-label\">Search…</span>\
        <span class=\"search-shortcut\">⌘K</span>\
      </button>\
      <nav class=\"nav-links\">¤¤¤</nav>\
      <div class=\"sidebar-mark\" aria-hidden=\"true\"></div>¤\
    </aside>";

/// The links for admins and owners.
pub open spec fn admin_links(ctx: &ChromeContext, current: PageId) -> Seq<char> {
    if at_least_admin(ctx.user.instance_role) {
        nav_link_with_badge_html(
            "/members"@,
            "Members"@,
            current == PageId::Members,
            ctx.pending_count,
            USERS_ICON@,
        ) + nav_link_html("/events"@, "Events"@, current == PageId::Events, EVENTS_ICON@)
    } else {
        Seq::empty()
    }
}

/// The links for owners.
pub open spec fn owner_links(role: InstanceRole, current: PageId) -> Seq<char> {
    if owner(role) {
        nav_link_html("/apps"@, "Apps"@, current == PageId::Apps, APPS_ICON@)
            + nav_link_html("/settings"@, "Settings"@, current == PageId::Settings, SETTINGS_ICON@)
    } else {
        Seq::empty()
    }
}

/// The navigation offers nobody a page above their rank: a member gets the profile alone, an
/// admin nothing that is for owners.
pub proof fn law_navigation_respects_rank(ctx: &ChromeContext, current: PageId)
    ensures
        ctx.user.instance_role == InstanceRole::Member ==> admin_links(ctx, current) == Seq::<
            char,
        >::empty(),
        ctx.user.instance_role != InstanceRole::Owner ==> owner_links(
            ctx.user.instance_role,
            current,
        ) == Seq::<char>::empty(),
{
}

/// The HTML of [`sidebar`].
pub open spec fn sidebar_html(ctx: &ChromeContext, current: PageId) -> Seq<char> {
    html::template(SIDEBAR@)
        .text(ctx.instance_name@)
        .html(SEARCH_GLYPH_ICON@)
        .html(nav_link_html("/me"@, "Profile"@, current == PageId::Profile, USER_ICON@))
        .html(admin_links(ctx, current))
        .html(owner_links(ctx.user.instance_role, current))
        .html(user_card_html(ctx))
        .done()
}

/// The navigation. Admins and owners see the members and the audit log, owners the apps and the settings too.
fn sidebar(ctx: &ChromeContext, current: PageId) -> (m: Markup)
    ensures
        m@ == sidebar_html(ctx, current),
{
    Template::new(SIDEBAR)
        .text(ctx.instance_name)
        .raw(SEARCH_GLYPH_ICON)
        .html(&nav_link("/me", "Profile", current == PageId::Profile, &Markup::raw(USER_ICON)))
        .html(&if is_at_least_admin(ctx.user.instance_role) {
            nav_link_with_badge(
                "/members",
                "Members",
                current == PageId::Members,
                ctx.pending_count,
                &Markup::raw(USERS_ICON),
            )
                .then_html(&nav_link(
                    "/events",
                    "Events",
                    current == PageId::Events,
                    &Markup::raw(EVENTS_ICON),
                ))
        } else {
            Markup::empty()
        })
        .html(&if is_owner(ctx.user.instance_role) {
            nav_link("/apps", "Apps", current == PageId::Apps, &Markup::raw(APPS_ICON))
                .then_html(&nav_link(
                    "/settings",
                    "Settings",
                    current == PageId::Settings,
                    &Markup::raw(SETTINGS_ICON),
                ))
        } else {
            Markup::empty()
        })
        .html(&user_card(ctx))
        .done()
}

pub const USER_CARD: &'static str = "\
    <details class=\"user-card\">\
      <summary class=\"user-card-summary\">\
        <span class=\"avatar\" style=\"background:¤\">¤</span>\
        <span class=\"user-card-text\">\
          <span class=\"user-name\">¤</span>\
          <span class=\"user-email\">¤</span>\
        </span>\
        <span class=\"user-card-summary-kebab\" aria-hidden=\"true\">¤</span>\
      </summary>\
      <div class=\"user-card-menu\">\
        <div class=\"user-card-accounts\" role=\"list\" data-current-account=\"¤\">\
          <div class=\"user-card-account user-card-account-current\" role=\"listitem\">\
            <span class=\"avatar\" style=\"background:¤\">¤</span>\
            <span class=\"user-card-text\">\
              <span class=\"user-name\">¤</span>\
              <span class=\"user-email\">¤</span>\
            </span>\
            <span class=\"user-card-account-radio\" aria-label=\"Current account\">¤</span>\
          </div>\
        </div>\
        <div class=\"user-card-divider\"></div>\
        <div class=\"user-card-theme\" role=\"radiogroup\" aria-label=\"Theme\">\
          <button type=\"button\" class=\"user-card-theme-btn\" data-theme-choice=\"auto\" \
            aria-label=\"Match system theme\">¤</button>\
          <button type=\"button\" class=\"user-card-theme-btn\" data-theme-choice=\"dark\" \
            aria-label=\"Dark theme\">¤</button>\
          <button type=\"button\" class=\"user-card-theme-btn\" data-theme-choice=\"light\" \
            aria-label=\"Light theme\">¤</button>\
        </div>\
        <button type=\"button\" class=\"user-card-action\" \
          data-open-modal=\"/modals/account-settings\">\
          <span class=\"user-card-action-icon\">¤</span>\
          <span>Account settings</span>\
        </button>\
        <form method=\"post\" action=\"/logout\" class=\"user-card-action-form\">¤\
          <button type=\"submit\" class=\"user-card-action user-card-signout\">\
            <span class=\"user-card-action-icon\">¤</span>\
            <span>Sign out</span>\
          </button>\
        </form>\
        <template id=\"tpl-user-card-other-account\">\
          <div class=\"user-card-account user-card-account-other\" data-other-account=\"\">\
            <form method=\"post\" action=\"/logout\" class=\"user-card-account-form\">¤\
              <input type=\"hidden\" name=\"next\" value=\"\" data-other-next>\
              <button type=\"submit\" class=\"user-card-account-body\">\
                <span class=\"avatar\" data-other-avatar></span>\
                <span class=\"user-card-text\">\
                  <span class=\"user-name\" data-other-name></span>\
                  <span class=\"user-email\" data-other-email></span>\
                </span>\
                <span class=\"user-card-account-radio\" aria-hidden=\"true\">¤</span>\
              </button>\
              <button type=\"button\" class=\"user-card-account-delete\" data-other-delete \
                aria-label=\"Remove from quick switch\">¤</button>\
            </form>\
          </div>\
        </template>\
      </div>\
    </details>";

/// The HTML of [`user_card`].
pub open spec fn user_card_html(ctx: &ChromeContext) -> Seq<char> {
    let user = ctx.user;
    let initial = display::initial_of(user.display_name@);
    let color = avatar_color_of(user.id);
    html::template(USER_CARD@)
        .text(color@)
        .char(initial)
        .text(user.display_name@)
        .text(user.email@)
        .html(DOTS_VERTICAL_ICON@)
        .text(account_json(*user))
        .text(color@)
        .char(initial)
        .text(user.display_name@)
        .text(user.email@)
        .html(RADIO_ON_ICON@)
        .html(THEME_AUTO_ICON@)
        .html(THEME_DARK_ICON@)
        .html(THEME_LIGHT_ICON@)
        .html(SETTINGS_ICON@)
        .html(csrf_input_html(ctx.csrf_token@))
        .html(SIGNOUT_ICON@)
        .html(csrf_input_html(ctx.csrf_token@))
        .html(RADIO_OFF_ICON@)
        .html(CLOSE_ICON@)
        .done()
}

/// The signed-in account at the foot of the navigation, with its menu.
fn user_card(ctx: &ChromeContext) -> (m: Markup)
    ensures
        m@ == user_card_html(ctx),
{
    let user = ctx.user;
    let initial: char = display::display_initial(user.display_name.as_str());
    let color = avatar_color(user.id);
    let account = current_account_json(user);
    Template::new(USER_CARD)
        .text(color)
        .char(initial)
        .text(user.display_name.as_str())
        .text(user.email.as_str())
        .raw(DOTS_VERTICAL_ICON)
        .text(account.as_str())
        .text(color)
        .char(initial)
        .text(user.display_name.as_str())
        .text(user.email.as_str())
        .raw(RADIO_ON_ICON)
        .raw(THEME_AUTO_ICON)
        .raw(THEME_DARK_ICON)
        .raw(THEME_LIGHT_ICON)
        .raw(SETTINGS_ICON)
        .html(&csrf_input(ctx.csrf_token))
        .raw(SIGNOUT_ICON)
        .html(&csrf_input(ctx.csrf_token))
        .raw(RADIO_OFF_ICON)
        .raw(CLOSE_ICON)
        .done()
}

pub const SHELL_PUBLIC: &'static str = "\
    <!DOCTYPE html>\
    <html lang=\"en\">\
      <head>\
        <meta charset=\"utf-8\">\
        <meta name=\"viewport\" content=\"width=device-width, initial-scale=1\">\
        <title>¤ · Hearth</title>\
        <script>¤</script>\
        <link rel=\"stylesheet\" href=\"/assets/css/app.css?v=¤\">\
        <script src=\"/assets/vendor/htmx.min.js?v=¤\" defer></script>\
      </head>\
      <body class=\"public\">\
        <main class=\"narrow\">\
          <p class=\"wordmark\">Sylva Hearth</p>¤\
        </main>\
        <footer class=\"site\">\
          <code>¤</code>\
        </footer>\
        <script>¤</script>\
      </body>\
    </html>";

/// The HTML of [`shell_public`].
pub open spec fn shell_public_html(
    site: &SiteInfo,
    title: Seq<char>,
    content: Seq<char>,
) -> Seq<char> {
    html::template(SHELL_PUBLIC@)
        .text(title)
        .html(THEME_BOOT_JS@)
        .text(site.asset_version@)
        .text(site.asset_version@)
        .html(content)
        .text(site.release@)
        .html(WEBAUTHN_JS@)
        .done()
}

/// The page shell without navigation: sign-in, recovery, invitation and error pages.
pub fn shell_public(site: &SiteInfo, title: &str, content: &Markup) -> (m: Markup)
    ensures
        m@ == shell_public_html(site, title@, content@),
{
    Template::new(SHELL_PUBLIC)
        .text(title)
        .raw(THEME_BOOT_JS)
        .text(site.asset_version.as_str())
        .text(site.asset_version.as_str())
        .html(content)
        .text(site.release.as_str())
        .raw(WEBAUTHN_JS)
        .done()
}

pub const SHELL_APP: &'static str = "\
    <!DOCTYPE html>\
    <html lang=\"en\">\
      <head>\
        <meta charset=\"utf-8\">\
        <meta name=\"viewport\" content=\"width=device-width, initial-scale=1\">\
        <title>¤ · ¤</title>\
        <script>¤</script>\
        <link rel=\"stylesheet\" href=\"/assets/css/app.css?v=¤\">\
        <script src=\"/assets/vendor/htmx.min.js?v=¤\" defer></script>\
      </head>\
      <body class=\"app\">¤\
        <main class=\"¤\">\
          <h1>¤</h1>¤¤\
        </main>\
        <div id=\"modal-host\"></div>\
        <script>¤</script>\
        <script>¤</script>\
        <script>¤</script>\
        <script>¤</script>\
        <script>¤</script>\
        <script>¤</script>\
        <script>¤</script>\
        <script>¤</script>\
        <script>¤</script>\
        <script>¤</script>\
        <script>¤</script>\
      </body>\
    </html>";

pub const MAIN_MARK: &'static str = "<div class=\"main-mark\" aria-hidden=\"true\"></div>";

/// The HTML of [`shell_app_inner`].
pub open spec fn shell_app_inner_html(
    ctx: &ChromeContext,
    title: Seq<char>,
    current: PageId,
    content: Seq<char>,
    wide: bool,
) -> Seq<char> {
    let main_class = if wide { "app-main app-main-wide" } else { "app-main" };
    html::template(SHELL_APP@)
        .text(title)
        .text(ctx.instance_name@)
        .html(THEME_BOOT_JS@)
        .text(ctx.site.asset_version@)
        .text(ctx.site.asset_version@)
        .html(sidebar_html(ctx, current))
        .text(main_class@)
        .text(title)
        .html(content)
        .when(wide, MAIN_MARK@)
        .html(DIALOG_JS@)
        .html(TOAST_JS@)
        .html(THEME_SWITCH_JS@)
        .html(MULTI_ACCOUNT_JS@)
        .html(USER_CARD_OUTSIDE_CLICK_JS@)
        .html(REAUTH_CHAIN_JS@)
        .html(SETTINGS_TABS_JS@)
        .html(CHANGE_PASSWORD_GATE_JS@)
        .html(ACCOUNT_CLOSE_GATE_JS@)
        .html(INVITE_COPY_JS@)
        .html(WEBAUTHN_JS@)
        .done()
}

/// The page shell of signed-in users: navigation on the left, the page beside it.
fn shell_app_inner(
    ctx: &ChromeContext,
    title: &str,
    current: PageId,
    content: &Markup,
    wide: bool,
) -> (m: Markup)
    ensures
        m@ == shell_app_inner_html(ctx, title@, current, content@, wide),
{
    let main_class: &str = if wide { "app-main app-main-wide" } else { "app-main" };
    Template::new(SHELL_APP)
        .text(title)
        .text(ctx.instance_name)
        .raw(THEME_BOOT_JS)
        .text(ctx.site.asset_version.as_str())
        .text(ctx.site.asset_version.as_str())
        .html(&sidebar(ctx, current))
        .text(main_class)
        .text(title)
        .html(content)
        .when(wide, MAIN_MARK)
        .raw(DIALOG_JS)
        .raw(TOAST_JS)
        .raw(THEME_SWITCH_JS)
        .raw(MULTI_ACCOUNT_JS)
        .raw(USER_CARD_OUTSIDE_CLICK_JS)
        .raw(REAUTH_CHAIN_JS)
        .raw(SETTINGS_TABS_JS)
        .raw(CHANGE_PASSWORD_GATE_JS)
        .raw(ACCOUNT_CLOSE_GATE_JS)
        .raw(INVITE_COPY_JS)
        .raw(WEBAUTHN_JS)
        .done()
}

/// The HTML of [`shell_app`].
pub open spec fn shell_app_html(
    ctx: &ChromeContext,
    title: Seq<char>,
    current: PageId,
    content: Seq<char>,
) -> Seq<char> {
    shell_app_inner_html(ctx, title, current, content, false)
}

/// The page shell of signed-in users with a narrow main column.
pub fn shell_app(ctx: &ChromeContext, title: &str, current: PageId, content: &Markup) -> (m: Markup)
    ensures
        m@ == shell_app_html(ctx, title@, current, content@),
{
    shell_app_inner(ctx, title, current, content, false)
}

/// The HTML of [`shell_app_wide`].
pub open spec fn shell_app_wide_html(
    ctx: &ChromeContext,
    title: Seq<char>,
    current: PageId,
    content: Seq<char>,
) -> Seq<char> {
    shell_app_inner_html(ctx, title, current, content, true)
}

/// The page shell of signed-in users with a main column as wide as the window.
pub fn shell_app_wide(
    ctx: &ChromeContext,
    title: &str,
    current: PageId,
    content: &Markup,
) -> (m: Markup)
    ensures
        m@ == shell_app_wide_html(ctx, title@, current, content@),
{
    shell_app_inner(ctx, title, current, content, true)
}

pub const ERROR_PAGE: &'static str = "\
    <h1>¤ · ¤</h1>\
    <p>\
      <a href=\"/\">Back to home</a>\
    </p>";

/// The HTML of [`error_page`].
pub open spec fn error_page_html(site: &SiteInfo, status: u16, message: Seq<char>) -> Seq<char> {
    let content = html::template(ERROR_PAGE@)
        .num(status as int)
        .text(message)
        .done();
    shell_public_html(site, "Error"@, content)
}

/// The page shown when something went wrong.
pub fn error_page(site: &SiteInfo, status: u16, message: &str) -> (m: Markup)
    ensures
        m@ == error_page_html(site, status, message@),
{
    let content = Template::new(ERROR_PAGE)
        .num(status as i64)
        .text(message)
        .done();
    shell_public(site, "Error", &content)
}

} // verus!
