//! What every page shows around its content.

use vstd::prelude::*;
use crate::display;
use crate::html;
use crate::json;
use crate::laws::markup;
use crate::model::{User, UserLifecycle, Uuid};
use crate::model;
use crate::text;
use crate::views::icons::{
    CLOSE_ICON, DOTS_VERTICAL_ICON, LOCK_ICON, RADIO_OFF_ICON, RADIO_ON_ICON, SEARCH_GLYPH_ICON,
    SETTINGS_ICON, SIGNOUT_ICON, THEME_AUTO_ICON, THEME_DARK_ICON, THEME_LIGHT_ICON, USER_ICON,
};
use crate::views::scripts::{
    ACCOUNT_CLOSE_GATE_JS, CHANGE_PASSWORD_GATE_JS, DIALOG_JS, INVITE_COPY_JS, MULTI_ACCOUNT_JS,
    REAUTH_CHAIN_JS, SETTINGS_TABS_JS, THEME_BOOT_JS, THEME_SWITCH_JS, TOAST_JS,
    USER_CARD_OUTSIDE_CLICK_JS, WEBAUTHN_JS,
};
use crate::views::shell as page;

verus! {

/// Where the holes of the template stand, and the texts around them.
proof fn lemma_csrf_input() -> (at: (Seq<char>, Seq<int>))
    ensures
        at.0 == page::CSRF_INPUT@,
        at.1 == seq![46int],
        at.0.len() == 49,
        markup::holes_at(at.0, at.1),
        at.0.subrange(0, 46) == "<input type=\"hidden\" name=\"csrf_token\" value=\""@,
        at.0.subrange(47, 48) == "\""@,
        "<input type=\"hidden\" name=\"csrf_token\" value=\""@.len() == 46,
        "\""@.len() == 1,
{
    reveal_strlit("<input type=\"hidden\" name=\"csrf_token\" value=\"¤\">");
    reveal_strlit("<input type=\"hidden\" name=\"csrf_token\" value=\"");
    reveal_strlit("\"");
    let tpl = page::CSRF_INPUT@;
    let holes = seq![46int];
    assert(markup::hole_at(tpl, holes, 0));
    assert(tpl.subrange(0, 46) =~= "<input type=\"hidden\" name=\"csrf_token\" value=\""@);
    assert(tpl.subrange(47, 48) =~= "\""@);
    (tpl, holes)
}

/// A form carries the token of the session.
pub proof fn law_csrf_input(token: Seq<char>)
    ensures
        ({
            let out = page::csrf_input_html(token);
            &&& markup::shows(
                out,
                "<input type=\"hidden\" name=\"csrf_token\" value=\""@ + html::escaped(token) + "\""@,
            )
        }),
{
    let (tpl, holes) = lemma_csrf_input();
    let parts = seq![html::escaped(token)];
    assert(page::csrf_input_html(token) == markup::filled(tpl, parts, 1).done()) by {
        reveal_with_fuel(markup::filled, 2);
    }
    markup::lemma_hole(
        tpl,
        holes,
        parts,
        0,
        "<input type=\"hidden\" name=\"csrf_token\" value=\""@,
        "\""@,
    );
}

/// Where the holes of the template stand, and the texts around them.
proof fn lemma_account_json() -> (at: (Seq<char>, Seq<int>))
    ensures
        at.0 == page::ACCOUNT_JSON@,
        at.1 == seq![9int, 19, 26, 38, 47],
        at.0.len() == 49,
        markup::holes_at(at.0, at.1),
        at.0.subrange(0, 9) == "{\"color\":"@,
        at.0.subrange(10, 12) == ",\""@,
        at.0.subrange(10, 19) == ",\"email\":"@,
        at.0.subrange(20, 22) == ",\""@,
        at.0.subrange(20, 26) == ",\"id\":"@,
        at.0.subrange(27, 29) == ",\""@,
        at.0.subrange(27, 38) == ",\"initial\":"@,
        at.0.subrange(39, 41) == ",\""@,
        at.0.subrange(39, 47) == ",\"name\":"@,
        at.0.subrange(48, 49) == "}"@,
        "{\"color\":"@.len() == 9,
        ",\""@.len() == 2,
        ",\"email\":"@.len() == 9,
        ",\"id\":"@.len() == 6,
        ",\"initial\":"@.len() == 11,
        ",\"name\":"@.len() == 8,
        "}"@.len() == 1,
{
    reveal_strlit("{\"color\":¤,\"email\":¤,\"id\":¤,\"initial\":¤,\"name\":¤}");
    reveal_strlit("{\"color\":");
    reveal_strlit(",\"");
    reveal_strlit(",\"email\":");
    reveal_strlit(",\"id\":");
    reveal_strlit(",\"initial\":");
    reveal_strlit(",\"name\":");
    reveal_strlit("}");
    let tpl = page::ACCOUNT_JSON@;
    let holes = seq![9int, 19, 26, 38, 47];
    assert(markup::hole_at(tpl, holes, 0));
    assert(markup::hole_at(tpl, holes, 1));
    assert(markup::hole_at(tpl, holes, 2));
    assert(markup::hole_at(tpl, holes, 3));
    assert(markup::hole_at(tpl, holes, 4));
    assert(tpl.subrange(0, 9) =~= "{\"color\":"@);
    assert(tpl.subrange(10, 12) =~= ",\""@);
    assert(tpl.subrange(10, 19) =~= ",\"email\":"@);
    assert(tpl.subrange(20, 22) =~= ",\""@);
    assert(tpl.subrange(20, 26) =~= ",\"id\":"@);
    assert(tpl.subrange(27, 29) =~= ",\""@);
    assert(tpl.subrange(27, 38) =~= ",\"initial\":"@);
    assert(tpl.subrange(39, 41) =~= ",\""@);
    assert(tpl.subrange(39, 47) =~= ",\"name\":"@);
    assert(tpl.subrange(48, 49) =~= "}"@);
    (tpl, holes)
}

/// The account that the browser remembers is the signed-in one, with its name, email, identifier,
/// initial and colour.
pub proof fn law_account_json(user: User)
    ensures
        ({
            let out = page::account_json(user);
            &&& markup::shows(
                out,
                "{\"color\":"@ + json::quoted(page::avatar_color_of(user.id)@) + ",\""@,
            )
            &&& markup::shows(out, ",\"email\":"@ + json::quoted(user.email@) + ",\""@)
            &&& markup::shows(out, ",\"id\":"@ + json::quoted(model::uuid_text(user.id)) + ",\""@)
            &&& markup::shows(
                out,
                ",\"initial\":"@ + json::quoted(seq![display::initial_of(user.display_name@)]) + ",\""@,
            )
            &&& markup::shows(out, ",\"name\":"@ + json::quoted(user.display_name@) + "}"@)
        }),
{
    let (tpl, holes) = lemma_account_json();
    let parts = seq![
        json::quoted(page::avatar_color_of(user.id)@),
        json::quoted(user.email@),
        json::quoted(model::uuid_text(user.id)),
        json::quoted(seq![display::initial_of(user.display_name@)]),
        json::quoted(user.display_name@),
    ];
    assert(page::account_json(user) == markup::filled(tpl, parts, 5).done()) by {
        reveal_with_fuel(markup::filled, 6);
    }
    markup::lemma_hole(tpl, holes, parts, 0, "{\"color\":"@, ",\""@);
    markup::lemma_hole(tpl, holes, parts, 1, ",\"email\":"@, ",\""@);
    markup::lemma_hole(tpl, holes, parts, 2, ",\"id\":"@, ",\""@);
    markup::lemma_hole(tpl, holes, parts, 3, ",\"initial\":"@, ",\""@);
    markup::lemma_hole(tpl, holes, parts, 4, ",\"name\":"@, "}"@);
}

/// Where the holes of the template stand, and the texts around them.
proof fn lemma_avatar_block() -> (at: (Seq<char>, Seq<int>))
    ensures
        at.0 == page::AVATAR_BLOCK@,
        at.1 == seq![42int, 63, 66, 74],
        at.0.len() == 82,
        markup::holes_at(at.0, at.1),
        at.0.subrange(29, 42) == "<span class=\""@,
        at.0.subrange(43, 44) == "\""@,
        at.0.subrange(43, 63) == "\" style=\"background:"@,
        at.0.subrange(64, 65) == "\""@,
        at.0.subrange(64, 66) == "\">"@,
        at.0.subrange(67, 74) == "</span>"@,
        at.0.subrange(75, 82) == "</span>"@,
        "<span class=\""@.len() == 13,
        "\""@.len() == 1,
        "\" style=\"background:"@.len() == 20,
        "\">"@.len() == 2,
        "</span>"@.len() == 7,
{
    reveal_strlit("<span class=\"avatar-wrapper\"><span class=\"¤\" style=\"background:¤\">¤</span>¤</span>");
    reveal_strlit("<span class=\"");
    reveal_strlit("\"");
    reveal_strlit("\" style=\"background:");
    reveal_strlit("\">");
    reveal_strlit("</span>");
    let tpl = page::AVATAR_BLOCK@;
    let holes = seq![42int, 63, 66, 74];
    assert(markup::hole_at(tpl, holes, 0));
    assert(markup::hole_at(tpl, holes, 1));
    assert(markup::hole_at(tpl, holes, 2));
    assert(markup::hole_at(tpl, holes, 3));
    assert(tpl.subrange(29, 42) =~= "<span class=\""@);
    assert(tpl.subrange(43, 44) =~= "\""@);
    assert(tpl.subrange(43, 63) =~= "\" style=\"background:"@);
    assert(tpl.subrange(64, 65) =~= "\""@);
    assert(tpl.subrange(64, 66) =~= "\">"@);
    assert(tpl.subrange(67, 74) =~= "</span>"@);
    assert(tpl.subrange(75, 82) =~= "</span>"@);
    (tpl, holes)
}

/// An avatar shows the initial of the name, in the colour of the account.
pub proof fn law_avatar_block(display_name: Seq<char>, user_id: Uuid, lifecycle: UserLifecycle)
    ensures
        ({
            let out = page::avatar_block_html(display_name, user_id, lifecycle);
            let initial = display::initial_of(display_name);
            let color = page::avatar_color_of(user_id);
            let deactivated = lifecycle == UserLifecycle::Deactivated;
            let avatar_class = if deactivated { "avatar avatar-sm avatar-deactivated" } else { "avatar avatar-sm" };
            &&& markup::shows(out, "<span class=\""@ + html::escaped(avatar_class@) + "\""@)
            &&& markup::shows(out, "\" style=\"background:"@ + html::escaped(color@) + "\""@)
            &&& markup::shows(out, "\">"@ + html::escaped(seq![initial]) + "</span>"@)
            &&& markup::shows(
                out,
                "</span>"@ + (if deactivated { html::template(page::AVATAR_LOCK@) .html(LOCK_ICON@) .done() } else { Seq::empty() }) + "</span>"@,
            )
        }),
{
    let initial = display::initial_of(display_name);
    let color = page::avatar_color_of(user_id);
    let deactivated = lifecycle == UserLifecycle::Deactivated;
    let avatar_class = if deactivated { "avatar avatar-sm avatar-deactivated" } else { "avatar avatar-sm" };
    let (tpl, holes) = lemma_avatar_block();
    let parts = seq![
        html::escaped(avatar_class@),
        html::escaped(color@),
        html::escaped(seq![initial]),
        if deactivated { html::template(page::AVATAR_LOCK@) .html(LOCK_ICON@) .done() } else { Seq::empty() },
    ];
    assert(page::avatar_block_html(display_name, user_id, lifecycle) == markup::filled(tpl, parts, 4).done()) by {
        reveal_with_fuel(markup::filled, 5);
    }
    markup::lemma_hole(tpl, holes, parts, 0, "<span class=\""@, "\""@);
    markup::lemma_hole(tpl, holes, parts, 1, "\" style=\"background:"@, "\""@);
    markup::lemma_hole(tpl, holes, parts, 2, "\">"@, "</span>"@);
    markup::lemma_hole(tpl, holes, parts, 3, "</span>"@, "</span>"@);
}

/// Where the holes of the template stand, and the texts around them.
proof fn lemma_nav_link() -> (at: (Seq<char>, Seq<int>))
    ensures
        at.0 == page::NAV_LINK@,
        at.1 == seq![10int, 19, 69, 106],
        at.0.len() == 118,
        markup::holes_at(at.0, at.1),
        at.0.subrange(0, 10) == "<a class=\""@,
        at.0.subrange(11, 12) == "\""@,
        at.0.subrange(11, 19) == "\" href=\""@,
        at.0.subrange(20, 21) == "\""@,
        at.0.subrange(22, 69) == "<span class=\"nav-link-icon\" aria-hidden=\"true\">"@,
        at.0.subrange(70, 77) == "</span>"@,
        at.0.subrange(77, 106) == "<span class=\"nav-link-label\">"@,
        at.0.subrange(107, 114) == "</span>"@,
        "<a class=\""@.len() == 10,
        "\""@.len() == 1,
        "\" href=\""@.len() == 8,
        "<span class=\"nav-link-icon\" aria-hidden=\"true\">"@.len() == 47,
        "</span>"@.len() == 7,
        "<span class=\"nav-link-label\">"@.len() == 29,
{
    reveal_strlit("<a class=\"¤\" href=\"¤\"><span class=\"nav-link-icon\" aria-hidden=\"true\">¤</span><span class=\"nav-link-label\">¤</span></a>");
    reveal_strlit("<a class=\"");
    reveal_strlit("\"");
    reveal_strlit("\" href=\"");
    reveal_strlit("<span class=\"nav-link-icon\" aria-hidden=\"true\">");
    reveal_strlit("</span>");
    reveal_strlit("<span class=\"nav-link-label\">");
    let tpl = page::NAV_LINK@;
    let holes = seq![10int, 19, 69, 106];
    assert(markup::hole_at(tpl, holes, 0));
    assert(markup::hole_at(tpl, holes, 1));
    assert(markup::hole_at(tpl, holes, 2));
    assert(markup::hole_at(tpl, holes, 3));
    assert(tpl.subrange(0, 10) =~= "<a class=\""@);
    assert(tpl.subrange(11, 12) =~= "\""@);
    assert(tpl.subrange(11, 19) =~= "\" href=\""@);
    assert(tpl.subrange(20, 21) =~= "\""@);
    assert(tpl.subrange(22, 69) =~= "<span class=\"nav-link-icon\" aria-hidden=\"true\">"@);
    assert(tpl.subrange(70, 77) =~= "</span>"@);
    assert(tpl.subrange(77, 106) =~= "<span class=\"nav-link-label\">"@);
    assert(tpl.subrange(107, 114) =~= "</span>"@);
    (tpl, holes)
}

/// An entry of the navigation leads to its page, and is marked where that page is shown.
pub proof fn law_nav_link(href: Seq<char>, label: Seq<char>, active: bool, icon: Seq<char>)
    ensures
        ({
            let out = page::nav_link_html(href, label, active, icon);
            let class = if active { "nav-link active" } else { "nav-link" };
            &&& markup::shows(out, "<a class=\""@ + html::escaped(class@) + "\""@)
            &&& markup::shows(out, "\" href=\""@ + html::escaped(href) + "\""@)
            &&& markup::shows(
                out,
                "<span class=\"nav-link-icon\" aria-hidden=\"true\">"@ + icon + "</span>"@,
            )
            &&& markup::shows(
                out,
                "<span class=\"nav-link-label\">"@ + html::escaped(label) + "</span>"@,
            )
        }),
{
    let class = if active { "nav-link active" } else { "nav-link" };
    let (tpl, holes) = lemma_nav_link();
    let parts = seq![html::escaped(class@), html::escaped(href), icon, html::escaped(label)];
    assert(page::nav_link_html(href, label, active, icon) == markup::filled(tpl, parts, 4).done()) by {
        reveal_with_fuel(markup::filled, 5);
    }
    markup::lemma_hole(tpl, holes, parts, 0, "<a class=\""@, "\""@);
    markup::lemma_hole(tpl, holes, parts, 1, "\" href=\""@, "\""@);
    markup::lemma_hole(
        tpl,
        holes,
        parts,
        2,
        "<span class=\"nav-link-icon\" aria-hidden=\"true\">"@,
        "</span>"@,
    );
    markup::lemma_hole(tpl, holes, parts, 3, "<span class=\"nav-link-label\">"@, "</span>"@);
}

/// Where the holes of the template stand, and the texts around them.
proof fn lemma_nav_link_with_badge() -> (at: (Seq<char>, Seq<int>))
    ensures
        at.0 == page::NAV_LINK_WITH_BADGE@,
        at.1 == seq![10int, 19, 69, 106, 114],
        at.0.len() == 119,
        markup::holes_at(at.0, at.1),
        at.0.subrange(0, 10) == "<a class=\""@,
        at.0.subrange(11, 12) == "\""@,
        at.0.subrange(11, 19) == "\" href=\""@,
        at.0.subrange(20, 21) == "\""@,
        at.0.subrange(22, 69) == "<span class=\"nav-link-icon\" aria-hidden=\"true\">"@,
        at.0.subrange(70, 77) == "</span>"@,
        at.0.subrange(77, 106) == "<span class=\"nav-link-label\">"@,
        at.0.subrange(107, 114) == "</span>"@,
        at.0.subrange(115, 119) == "</a>"@,
        "<a class=\""@.len() == 10,
        "\""@.len() == 1,
        "\" href=\""@.len() == 8,
        "<span class=\"nav-link-icon\" aria-hidden=\"true\">"@.len() == 47,
        "</span>"@.len() == 7,
        "<span class=\"nav-link-label\">"@.len() == 29,
        "</a>"@.len() == 4,
{
    reveal_strlit("<a class=\"¤\" href=\"¤\"><span class=\"nav-link-icon\" aria-hidden=\"true\">¤</span><span class=\"nav-link-label\">¤</span>¤</a>");
    reveal_strlit("<a class=\"");
    reveal_strlit("\"");
    reveal_strlit("\" href=\"");
    reveal_strlit("<span class=\"nav-link-icon\" aria-hidden=\"true\">");
    reveal_strlit("</span>");
    reveal_strlit("<span class=\"nav-link-label\">");
    reveal_strlit("</a>");
    let tpl = page::NAV_LINK_WITH_BADGE@;
    let holes = seq![10int, 19, 69, 106, 114];
    assert(markup::hole_at(tpl, holes, 0));
    assert(markup::hole_at(tpl, holes, 1));
    assert(markup::hole_at(tpl, holes, 2));
    assert(markup::hole_at(tpl, holes, 3));
    assert(markup::hole_at(tpl, holes, 4));
    assert(tpl.subrange(0, 10) =~= "<a class=\""@);
    assert(tpl.subrange(11, 12) =~= "\""@);
    assert(tpl.subrange(11, 19) =~= "\" href=\""@);
    assert(tpl.subrange(20, 21) =~= "\""@);
    assert(tpl.subrange(22, 69) =~= "<span class=\"nav-link-icon\" aria-hidden=\"true\">"@);
    assert(tpl.subrange(70, 77) =~= "</span>"@);
    assert(tpl.subrange(77, 106) =~= "<span class=\"nav-link-label\">"@);
    assert(tpl.subrange(107, 114) =~= "</span>"@);
    assert(tpl.subrange(115, 119) =~= "</a>"@);
    (tpl, holes)
}

/// An entry of the navigation with a count leads to its page, and is marked where that page is
/// shown.
pub proof fn law_nav_link_with_badge(
    href: Seq<char>,
    label: Seq<char>,
    active: bool,
    count: Option<u32>,
    icon: Seq<char>,
)
    ensures
        ({
            let out = page::nav_link_with_badge_html(href, label, active, count, icon);
            let class = if active { "nav-link active" } else { "nav-link" };
            &&& markup::shows(out, "<a class=\""@ + html::escaped(class@) + "\""@)
            &&& markup::shows(out, "\" href=\""@ + html::escaped(href) + "\""@)
            &&& markup::shows(
                out,
                "<span class=\"nav-link-icon\" aria-hidden=\"true\">"@ + icon + "</span>"@,
            )
            &&& markup::shows(
                out,
                "<span class=\"nav-link-label\">"@ + html::escaped(label) + "</span>"@,
            )
            &&& markup::shows(out, "</span>"@ + page::nav_badge_html(count) + "</a>"@)
        }),
{
    let class = if active { "nav-link active" } else { "nav-link" };
    let (tpl, holes) = lemma_nav_link_with_badge();
    let parts = seq![
        html::escaped(class@),
        html::escaped(href),
        icon,
        html::escaped(label),
        page::nav_badge_html(count),
    ];
    assert(page::nav_link_with_badge_html(href, label, active, count, icon) == markup::filled(tpl, parts, 5).done()) by {
        reveal_with_fuel(markup::filled, 6);
    }
    markup::lemma_hole(tpl, holes, parts, 0, "<a class=\""@, "\""@);
    markup::lemma_hole(tpl, holes, parts, 1, "\" href=\""@, "\""@);
    markup::lemma_hole(
        tpl,
        holes,
        parts,
        2,
        "<span class=\"nav-link-icon\" aria-hidden=\"true\">"@,
        "</span>"@,
    );
    markup::lemma_hole(tpl, holes, parts, 3, "<span class=\"nav-link-label\">"@, "</span>"@);
    markup::lemma_hole(tpl, holes, parts, 4, "</span>"@, "</a>"@);
}

/// Where the holes of the template stand, and the texts around them.
proof fn lemma_sidebar() -> (at: (Seq<char>, Seq<int>))
    ensures
        at.0 == page::SIDEBAR@,
        at.1 == seq![252int, 384, 504, 505, 506, 564],
        at.0.len() == 573,
        markup::holes_at(at.0, at.1),
        at.0.subrange(223, 252) == "<span class=\"brand-instance\">"@,
        at.0.subrange(253, 260) == "</span>"@,
        at.0.subrange(481, 504) == "<nav class=\"nav-links\">"@,
        at.0.subrange(507, 513) == "</nav>"@,
        at.0.subrange(558, 564) == "</div>"@,
        at.0.subrange(565, 573) == "</aside>"@,
        "<span class=\"brand-instance\">"@.len() == 29,
        "</span>"@.len() == 7,
        "<nav class=\"nav-links\">"@.len() == 23,
        "</nav>"@.len() == 6,
        "</div>"@.len() == 6,
        "</aside>"@.len() == 8,
{
    reveal_strlit("<aside class=\"sidebar\"><div class=\"brand\"><a href=\"/\"><span class=\"brand-logo\" aria-hidden=\"true\"><img src=\"/assets/img/sylva-logo.svg\" alt=\"\"></span><span class=\"brand-prefix\">Sylva</span><span class=\"brand-sep\"> · </span><span class=\"brand-instance\">¤</span></a></div><button class=\"search-trigger\" type=\"button\" aria-label=\"Search (coming soon)\" disabled><span class=\"search-icon\">¤</span><span class=\"search-label\">Search…</span><span class=\"search-shortcut\">⌘K</span></button><nav class=\"nav-links\">¤¤¤</nav><div class=\"sidebar-mark\" aria-hidden=\"true\"></div>¤</aside>");
    reveal_strlit("<span class=\"brand-instance\">");
    reveal_strlit("</span>");
    reveal_strlit("<nav class=\"nav-links\">");
    reveal_strlit("</nav>");
    reveal_strlit("</div>");
    reveal_strlit("</aside>");
    let tpl = page::SIDEBAR@;
    let holes = seq![252int, 384, 504, 505, 506, 564];
    assert(markup::hole_at(tpl, holes, 0));
    assert(markup::hole_at(tpl, holes, 1));
    assert(markup::hole_at(tpl, holes, 2));
    assert(markup::hole_at(tpl, holes, 3));
    assert(markup::hole_at(tpl, holes, 4));
    assert(markup::hole_at(tpl, holes, 5));
    assert(tpl.subrange(223, 252) =~= "<span class=\"brand-instance\">"@);
    assert(tpl.subrange(253, 260) =~= "</span>"@);
    assert(tpl.subrange(481, 504) =~= "<nav class=\"nav-links\">"@);
    assert(tpl.subrange(507, 513) =~= "</nav>"@);
    assert(tpl.subrange(558, 564) =~= "</div>"@);
    assert(tpl.subrange(565, 573) =~= "</aside>"@);
    (tpl, holes)
}

/// The navigation names the instance and offers what the role of the user reaches.
pub proof fn law_sidebar(ctx: &page::ChromeContext, current: page::PageId)
    ensures
        ({
            let out = page::sidebar_html(ctx, current);
            &&& markup::shows(
                out,
                "<span class=\"brand-instance\">"@ + html::escaped(ctx.instance_name@) + "</span>"@,
            )
            &&& markup::shows(
                out,
                "<nav class=\"nav-links\">"@ + page::nav_link_html("/me"@, "Profile"@, current == page::PageId::Profile, USER_ICON@),
            )
            &&& markup::shows(out, page::admin_links(ctx, current))
            &&& markup::shows(out, page::owner_links(ctx.user.instance_role, current) + "</nav>"@)
            &&& markup::shows(out, "</div>"@ + page::user_card_html(ctx) + "</aside>"@)
        }),
{
    let (tpl, holes) = lemma_sidebar();
    let parts = seq![
        html::escaped(ctx.instance_name@),
        SEARCH_GLYPH_ICON@,
        page::nav_link_html("/me"@, "Profile"@, current == page::PageId::Profile, USER_ICON@),
        page::admin_links(ctx, current),
        page::owner_links(ctx.user.instance_role, current),
        page::user_card_html(ctx),
    ];
    assert(page::sidebar_html(ctx, current) == markup::filled(tpl, parts, 6).done()) by {
        reveal_with_fuel(markup::filled, 7);
    }
    markup::lemma_hole(tpl, holes, parts, 0, "<span class=\"brand-instance\">"@, "</span>"@);
    assert(tpl.subrange(505, 505) =~= Seq::<char>::empty());
    markup::lemma_hole(tpl, holes, parts, 2, "<nav class=\"nav-links\">"@, Seq::<char>::empty());
    assert("<nav class=\"nav-links\">"@ + parts[2] + Seq::<char>::empty() =~= "<nav class=\"nav-links\">"@ + parts[2]);
    assert(tpl.subrange(505, 505) =~= Seq::<char>::empty());
    assert(tpl.subrange(506, 506) =~= Seq::<char>::empty());
    markup::lemma_hole(tpl, holes, parts, 3, Seq::<char>::empty(), Seq::<char>::empty());
    assert(Seq::<char>::empty() + parts[3] + Seq::<char>::empty() =~= parts[3]);
    assert(tpl.subrange(506, 506) =~= Seq::<char>::empty());
    markup::lemma_hole(tpl, holes, parts, 4, Seq::<char>::empty(), "</nav>"@);
    assert(Seq::<char>::empty() + parts[4] + "</nav>"@ =~= parts[4] + "</nav>"@);
    markup::lemma_hole(tpl, holes, parts, 5, "</div>"@, "</aside>"@);
}

/// Where the holes of the template stand, and the texts around them.
proof fn lemma_user_card() -> (at: (Seq<char>, Seq<int>))
    ensures
        at.0 == page::USER_CARD@,
        at.1 == seq![101int, 104, 165, 198, 270, 382, 497, 500, 561, 594, 676, 906, 1015, 1126, 1268, 1381, 1483, 1716, 2063, 2191],
        at.0.len() == 2241,
        markup::holes_at(at.0, at.1),
        at.0.subrange(62, 101) == "<span class=\"avatar\" style=\"background:"@,
        at.0.subrange(102, 103) == "\""@,
        at.0.subrange(102, 104) == "\">"@,
        at.0.subrange(105, 112) == "</span>"@,
        at.0.subrange(141, 165) == "<span class=\"user-name\">"@,
        at.0.subrange(166, 173) == "</span>"@,
        at.0.subrange(173, 198) == "<span class=\"user-email\">"@,
        at.0.subrange(199, 206) == "</span>"@,
        at.0.subrange(348, 382) == "role=\"list\" data-current-account=\""@,
        at.0.subrange(383, 384) == "\""@,
        at.0.subrange(458, 497) == "<span class=\"avatar\" style=\"background:"@,
        at.0.subrange(498, 499) == "\""@,
        at.0.subrange(498, 500) == "\">"@,
        at.0.subrange(501, 508) == "</span>"@,
        at.0.subrange(537, 561) == "<span class=\"user-name\">"@,
        at.0.subrange(562, 569) == "</span>"@,
        at.0.subrange(569, 594) == "<span class=\"user-email\">"@,
        at.0.subrange(595, 602) == "</span>"@,
        at.0.subrange(1334, 1381) == "action=\"/logout\" class=\"user-card-action-form\">"@,
        at.0.subrange(1382, 1447) == "<button type=\"submit\" class=\"user-card-action user-card-signout\">"@,
        at.0.subrange(1668, 1716) == "action=\"/logout\" class=\"user-card-account-form\">"@,
        at.0.subrange(1717, 1775) == "<input type=\"hidden\" name=\"next\" value=\"\" data-other-next>"@,
        "<span class=\"avatar\" style=\"background:"@.len() == 39,
        "\""@.len() == 1,
        "\">"@.len() == 2,
        "</span>"@.len() == 7,
        "<span class=\"user-name\">"@.len() == 24,
        "<span class=\"user-email\">"@.len() == 25,
        "role=\"list\" data-current-account=\""@.len() == 34,
        "action=\"/logout\" class=\"user-card-action-form\">"@.len() == 47,
        "<button type=\"submit\" class=\"user-card-action user-card-signout\">"@.len() == 65,
        "action=\"/logout\" class=\"user-card-account-form\">"@.len() == 48,
        "<input type=\"hidden\" name=\"next\" value=\"\" data-other-next>"@.len() == 58,
{
    reveal_strlit("<details class=\"user-card\"><summary class=\"user-card-summary\"><span class=\"avatar\" style=\"background:¤\">¤</span><span class=\"user-card-text\"><span class=\"user-name\">¤</span><span class=\"user-email\">¤</span></span><span class=\"user-card-summary-kebab\" aria-hidden=\"true\">¤</span></summary><div class=\"user-card-menu\"><div class=\"user-card-accounts\" role=\"list\" data-current-account=\"¤\"><div class=\"user-card-account user-card-account-current\" role=\"listitem\"><span class=\"avatar\" style=\"background:¤\">¤</span><span class=\"user-card-text\"><span class=\"user-name\">¤</span><span class=\"user-email\">¤</span></span><span class=\"user-card-account-radio\" aria-label=\"Current account\">¤</span></div></div><div class=\"user-card-divider\"></div><div class=\"user-card-theme\" role=\"radiogroup\" aria-label=\"Theme\"><button type=\"button\" class=\"user-card-theme-btn\" data-theme-choice=\"auto\" aria-label=\"Match system theme\">¤</button><button type=\"button\" class=\"user-card-theme-btn\" data-theme-choice=\"dark\" aria-label=\"Dark theme\">¤</button><button type=\"button\" class=\"user-card-theme-btn\" data-theme-choice=\"light\" aria-label=\"Light theme\">¤</button></div><button type=\"button\" class=\"user-card-action\" data-open-modal=\"/modals/account-settings\"><span class=\"user-card-action-icon\">¤</span><span>Account settings</span></button><form method=\"post\" action=\"/logout\" class=\"user-card-action-form\">¤<button type=\"submit\" class=\"user-card-action user-card-signout\"><span class=\"user-card-action-icon\">¤</span><span>Sign out</span></button></form><template id=\"tpl-user-card-other-account\"><div class=\"user-card-account user-card-account-other\" data-other-account=\"\"><form method=\"post\" action=\"/logout\" class=\"user-card-account-form\">¤<input type=\"hidden\" name=\"next\" value=\"\" data-other-next><button type=\"submit\" class=\"user-card-account-body\"><span class=\"avatar\" data-other-avatar></span><span class=\"user-card-text\"><span class=\"user-name\" data-other-name></span><span class=\"user-email\" data-other-email></span></span><span class=\"user-card-account-radio\" aria-hidden=\"true\">¤</span></button><button type=\"button\" class=\"user-card-account-delete\" data-other-delete aria-label=\"Remove from quick switch\">¤</button></form></div></template></div></details>");
    reveal_strlit("<span class=\"avatar\" style=\"background:");
    reveal_strlit("\"");
    reveal_strlit("\">");
    reveal_strlit("</span>");
    reveal_strlit("<span class=\"user-name\">");
    reveal_strlit("<span class=\"user-email\">");
    reveal_strlit("role=\"list\" data-current-account=\"");
    reveal_strlit("action=\"/logout\" class=\"user-card-action-form\">");
    reveal_strlit("<button type=\"submit\" class=\"user-card-action user-card-signout\">");
    reveal_strlit("action=\"/logout\" class=\"user-card-account-form\">");
    reveal_strlit("<input type=\"hidden\" name=\"next\" value=\"\" data-other-next>");
    let tpl = page::USER_CARD@;
    let holes = seq![101int, 104, 165, 198, 270, 382, 497, 500, 561, 594, 676, 906, 1015, 1126, 1268, 1381, 1483, 1716, 2063, 2191];
    assert(markup::hole_at(tpl, holes, 0));
    assert(markup::hole_at(tpl, holes, 1));
    assert(markup::hole_at(tpl, holes, 2));
    assert(markup::hole_at(tpl, holes, 3));
    assert(markup::hole_at(tpl, holes, 4));
    assert(markup::hole_at(tpl, holes, 5));
    assert(markup::hole_at(tpl, holes, 6));
    assert(markup::hole_at(tpl, holes, 7));
    assert(markup::hole_at(tpl, holes, 8));
    assert(markup::hole_at(tpl, holes, 9));
    assert(markup::hole_at(tpl, holes, 10));
    assert(markup::hole_at(tpl, holes, 11));
    assert(markup::hole_at(tpl, holes, 12));
    assert(markup::hole_at(tpl, holes, 13));
    assert(markup::hole_at(tpl, holes, 14));
    assert(markup::hole_at(tpl, holes, 15));
    assert(markup::hole_at(tpl, holes, 16));
    assert(markup::hole_at(tpl, holes, 17));
    assert(markup::hole_at(tpl, holes, 18));
    assert(markup::hole_at(tpl, holes, 19));
    assert(tpl.subrange(62, 101) =~= "<span class=\"avatar\" style=\"background:"@);
    assert(tpl.subrange(102, 103) =~= "\""@);
    assert(tpl.subrange(102, 104) =~= "\">"@);
    assert(tpl.subrange(105, 112) =~= "</span>"@);
    assert(tpl.subrange(141, 165) =~= "<span class=\"user-name\">"@);
    assert(tpl.subrange(166, 173) =~= "</span>"@);
    assert(tpl.subrange(173, 198) =~= "<span class=\"user-email\">"@);
    assert(tpl.subrange(199, 206) =~= "</span>"@);
    assert(tpl.subrange(348, 382) =~= "role=\"list\" data-current-account=\""@);
    assert(tpl.subrange(383, 384) =~= "\""@);
    assert(tpl.subrange(458, 497) =~= "<span class=\"avatar\" style=\"background:"@);
    assert(tpl.subrange(498, 499) =~= "\""@);
    assert(tpl.subrange(498, 500) =~= "\">"@);
    assert(tpl.subrange(501, 508) =~= "</span>"@);
    assert(tpl.subrange(537, 561) =~= "<span class=\"user-name\">"@);
    assert(tpl.subrange(562, 569) =~= "</span>"@);
    assert(tpl.subrange(569, 594) =~= "<span class=\"user-email\">"@);
    assert(tpl.subrange(595, 602) =~= "</span>"@);
    assert(tpl.subrange(1334, 1381) =~= "action=\"/logout\" class=\"user-card-action-form\">"@);
    assert(tpl.subrange(1382, 1447) =~= "<button type=\"submit\" class=\"user-card-action user-card-signout\">"@);
    assert(tpl.subrange(1668, 1716) =~= "action=\"/logout\" class=\"user-card-account-form\">"@);
    assert(tpl.subrange(1717, 1775) =~= "<input type=\"hidden\" name=\"next\" value=\"\" data-other-next>"@);
    (tpl, holes)
}

/// The card of the user shows their name, email, initial and colour, and its forms sign them out
/// with the token of their session.
pub proof fn law_user_card(ctx: &page::ChromeContext)
    ensures
        ({
            let out = page::user_card_html(ctx);
            let user = ctx.user;
            let initial = display::initial_of(user.display_name@);
            let color = page::avatar_color_of(user.id);
            &&& markup::shows(
                out,
                "<span class=\"avatar\" style=\"background:"@ + html::escaped(color@) + "\""@,
            )
            &&& markup::shows(out, "\">"@ + html::escaped(seq![initial]) + "</span>"@)
            &&& markup::shows(
                out,
                "<span class=\"user-name\">"@ + html::escaped(user.display_name@) + "</span>"@,
            )
            &&& markup::shows(
                out,
                "<span class=\"user-email\">"@ + html::escaped(user.email@) + "</span>"@,
            )
            &&& markup::shows(
                out,
                "role=\"list\" data-current-account=\""@ + html::escaped(page::account_json(*user)) + "\""@,
            )
            &&& markup::shows(
                out,
                "<span class=\"avatar\" style=\"background:"@ + html::escaped(color@) + "\""@,
            )
            &&& markup::shows(out, "\">"@ + html::escaped(seq![initial]) + "</span>"@)
            &&& markup::shows(
                out,
                "<span class=\"user-name\">"@ + html::escaped(user.display_name@) + "</span>"@,
            )
            &&& markup::shows(
                out,
                "<span class=\"user-email\">"@ + html::escaped(user.email@) + "</span>"@,
            )
            &&& markup::shows(
                out,
                "action=\"/logout\" class=\"user-card-action-form\">"@ + page::csrf_input_html(ctx.csrf_token@) + "<button type=\"submit\" class=\"user-card-action user-card-signout\">"@,
            )
            &&& markup::shows(
                out,
                "action=\"/logout\" class=\"user-card-account-form\">"@ + page::csrf_input_html(ctx.csrf_token@) + "<input type=\"hidden\" name=\"next\" value=\"\" data-other-next>"@,
            )
        }),
{
    let user = ctx.user;
    let initial = display::initial_of(user.display_name@);
    let color = page::avatar_color_of(user.id);
    let (tpl, holes) = lemma_user_card();
    let parts = seq![
        html::escaped(color@),
        html::escaped(seq![initial]),
        html::escaped(user.display_name@),
        html::escaped(user.email@),
        DOTS_VERTICAL_ICON@,
        html::escaped(page::account_json(*user)),
        html::escaped(color@),
        html::escaped(seq![initial]),
        html::escaped(user.display_name@),
        html::escaped(user.email@),
        RADIO_ON_ICON@,
        THEME_AUTO_ICON@,
        THEME_DARK_ICON@,
        THEME_LIGHT_ICON@,
        SETTINGS_ICON@,
        page::csrf_input_html(ctx.csrf_token@),
        SIGNOUT_ICON@,
        page::csrf_input_html(ctx.csrf_token@),
        RADIO_OFF_ICON@,
        CLOSE_ICON@,
    ];
    assert(page::user_card_html(ctx) == markup::filled(tpl, parts, 20).done()) by {
        reveal_with_fuel(markup::filled, 21);
    }
    markup::lemma_hole(tpl, holes, parts, 0, "<span class=\"avatar\" style=\"background:"@, "\""@);
    markup::lemma_hole(tpl, holes, parts, 1, "\">"@, "</span>"@);
    markup::lemma_hole(tpl, holes, parts, 2, "<span class=\"user-name\">"@, "</span>"@);
    markup::lemma_hole(tpl, holes, parts, 3, "<span class=\"user-email\">"@, "</span>"@);
    markup::lemma_hole(tpl, holes, parts, 5, "role=\"list\" data-current-account=\""@, "\""@);
    markup::lemma_hole(tpl, holes, parts, 6, "<span class=\"avatar\" style=\"background:"@, "\""@);
    markup::lemma_hole(tpl, holes, parts, 7, "\">"@, "</span>"@);
    markup::lemma_hole(tpl, holes, parts, 8, "<span class=\"user-name\">"@, "</span>"@);
    markup::lemma_hole(tpl, holes, parts, 9, "<span class=\"user-email\">"@, "</span>"@);
    markup::lemma_hole(
        tpl,
        holes,
        parts,
        15,
        "action=\"/logout\" class=\"user-card-action-form\">"@,
        "<button type=\"submit\" class=\"user-card-action user-card-signout\">"@,
    );
    markup::lemma_hole(
        tpl,
        holes,
        parts,
        17,
        "action=\"/logout\" class=\"user-card-account-form\">"@,
        "<input type=\"hidden\" name=\"next\" value=\"\" data-other-next>"@,
    );
}

/// Where the holes of the template stand, and the texts around them.
proof fn lemma_shell_public() -> (at: (Seq<char>, Seq<int>))
    ensures
        at.0 == page::SHELL_PUBLIC@,
        at.1 == seq![134int, 160, 221, 266, 369, 404, 429],
        at.0.len() == 453,
        markup::holes_at(at.0, at.1),
        at.0.subrange(127, 134) == "<title>"@,
        at.0.subrange(135, 144) == " · Hearth"@,
        at.0.subrange(170, 221) == "<link rel=\"stylesheet\" href=\"/assets/css/app.css?v="@,
        at.0.subrange(222, 223) == "\""@,
        at.0.subrange(224, 266) == "<script src=\"/assets/vendor/htmx.min.js?v="@,
        at.0.subrange(267, 268) == "\""@,
        at.0.subrange(365, 369) == "</p>"@,
        at.0.subrange(370, 377) == "</main>"@,
        at.0.subrange(398, 404) == "<code>"@,
        at.0.subrange(405, 412) == "</code>"@,
        "<title>"@.len() == 7,
        " · Hearth"@.len() == 9,
        "<link rel=\"stylesheet\" href=\"/assets/css/app.css?v="@.len() == 51,
        "\""@.len() == 1,
        "<script src=\"/assets/vendor/htmx.min.js?v="@.len() == 42,
        "</p>"@.len() == 4,
        "</main>"@.len() == 7,
        "<code>"@.len() == 6,
        "</code>"@.len() == 7,
{
    reveal_strlit("<!DOCTYPE html><html lang=\"en\"><head><meta charset=\"utf-8\"><meta name=\"viewport\" content=\"width=device-width, initial-scale=1\"><title>¤ · Hearth</title><script>¤</script><link rel=\"stylesheet\" href=\"/assets/css/app.css?v=¤\"><script src=\"/assets/vendor/htmx.min.js?v=¤\" defer></script></head><body class=\"public\"><main class=\"narrow\"><p class=\"wordmark\">Sylva Hearth</p>¤</main><footer class=\"site\"><code>¤</code></footer><script>¤</script></body></html>");
    reveal_strlit("<title>");
    reveal_strlit(" · Hearth");
    reveal_strlit("<link rel=\"stylesheet\" href=\"/assets/css/app.css?v=");
    reveal_strlit("\"");
    reveal_strlit("<script src=\"/assets/vendor/htmx.min.js?v=");
    reveal_strlit("</p>");
    reveal_strlit("</main>");
    reveal_strlit("<code>");
    reveal_strlit("</code>");
    let tpl = page::SHELL_PUBLIC@;
    let holes = seq![134int, 160, 221, 266, 369, 404, 429];
    assert(markup::hole_at(tpl, holes, 0));
    assert(markup::hole_at(tpl, holes, 1));
    assert(markup::hole_at(tpl, holes, 2));
    assert(markup::hole_at(tpl, holes, 3));
    assert(markup::hole_at(tpl, holes, 4));
    assert(markup::hole_at(tpl, holes, 5));
    assert(markup::hole_at(tpl, holes, 6));
    assert(tpl.subrange(127, 134) =~= "<title>"@);
    assert(tpl.subrange(135, 144) =~= " · Hearth"@);
    assert(tpl.subrange(170, 221) =~= "<link rel=\"stylesheet\" href=\"/assets/css/app.css?v="@);
    assert(tpl.subrange(222, 223) =~= "\""@);
    assert(tpl.subrange(224, 266) =~= "<script src=\"/assets/vendor/htmx.min.js?v="@);
    assert(tpl.subrange(267, 268) =~= "\""@);
    assert(tpl.subrange(365, 369) =~= "</p>"@);
    assert(tpl.subrange(370, 377) =~= "</main>"@);
    assert(tpl.subrange(398, 404) =~= "<code>"@);
    assert(tpl.subrange(405, 412) =~= "</code>"@);
    (tpl, holes)
}

/// A page for everybody has its title and its content.
pub proof fn law_shell_public(site: &page::SiteInfo, title: Seq<char>, content: Seq<char>)
    ensures
        ({
            let out = page::shell_public_html(site, title, content);
            &&& markup::shows(out, "<title>"@ + html::escaped(title) + " · Hearth"@)
            &&& markup::shows(
                out,
                "<link rel=\"stylesheet\" href=\"/assets/css/app.css?v="@ + html::escaped(site.asset_version@) + "\""@,
            )
            &&& markup::shows(
                out,
                "<script src=\"/assets/vendor/htmx.min.js?v="@ + html::escaped(site.asset_version@) + "\""@,
            )
            &&& markup::shows(out, "</p>"@ + content + "</main>"@)
            &&& markup::shows(out, "<code>"@ + html::escaped(site.release@) + "</code>"@)
        }),
{
    let (tpl, holes) = lemma_shell_public();
    let parts = seq![
        html::escaped(title),
        THEME_BOOT_JS@,
        html::escaped(site.asset_version@),
        html::escaped(site.asset_version@),
        content,
        html::escaped(site.release@),
        WEBAUTHN_JS@,
    ];
    assert(page::shell_public_html(site, title, content) == markup::filled(tpl, parts, 7).done()) by {
        reveal_with_fuel(markup::filled, 8);
    }
    markup::lemma_hole(tpl, holes, parts, 0, "<title>"@, " · Hearth"@);
    markup::lemma_hole(
        tpl,
        holes,
        parts,
        2,
        "<link rel=\"stylesheet\" href=\"/assets/css/app.css?v="@,
        "\""@,
    );
    markup::lemma_hole(tpl, holes, parts, 3, "<script src=\"/assets/vendor/htmx.min.js?v="@, "\""@);
    markup::lemma_hole(tpl, holes, parts, 4, "</p>"@, "</main>"@);
    markup::lemma_hole(tpl, holes, parts, 5, "<code>"@, "</code>"@);
}

/// Where the holes of the template stand, and the texts around them.
proof fn lemma_shell_app_inner() -> (at: (Seq<char>, Seq<int>))
    ensures
        at.0 == page::SHELL_APP@,
        at.1 == seq![134int, 138, 155, 216, 261, 304, 318, 325, 331, 332, 375, 393, 411, 429, 447, 465, 483, 501, 519, 537, 555],
        at.0.len() == 579,
        markup::holes_at(at.0, at.1),
        at.0.subrange(127, 134) == "<title>"@,
        at.0.subrange(135, 138) == " · "@,
        at.0.subrange(139, 147) == "</title>"@,
        at.0.subrange(165, 216) == "<link rel=\"stylesheet\" href=\"/assets/css/app.css?v="@,
        at.0.subrange(217, 218) == "\""@,
        at.0.subrange(219, 261) == "<script src=\"/assets/vendor/htmx.min.js?v="@,
        at.0.subrange(262, 263) == "\""@,
        at.0.subrange(286, 304) == "<body class=\"app\">"@,
        at.0.subrange(305, 318) == "<main class=\""@,
        at.0.subrange(319, 320) == "\""@,
        at.0.subrange(321, 325) == "<h1>"@,
        at.0.subrange(326, 331) == "</h1>"@,
        at.0.subrange(333, 340) == "</main>"@,
        "<title>"@.len() == 7,
        " · "@.len() == 3,
        "</title>"@.len() == 8,
        "<link rel=\"stylesheet\" href=\"/assets/css/app.css?v="@.len() == 51,
        "\""@.len() == 1,
        "<script src=\"/assets/vendor/htmx.min.js?v="@.len() == 42,
        "<body class=\"app\">"@.len() == 18,
        "<main class=\""@.len() == 13,
        "<h1>"@.len() == 4,
        "</h1>"@.len() == 5,
        "</main>"@.len() == 7,
{
    reveal_strlit("<!DOCTYPE html><html lang=\"en\"><head><meta charset=\"utf-8\"><meta name=\"viewport\" content=\"width=device-width, initial-scale=1\"><title>¤ · ¤</title><script>¤</script><link rel=\"stylesheet\" href=\"/assets/css/app.css?v=¤\"><script src=\"/assets/vendor/htmx.min.js?v=¤\" defer></script></head><body class=\"app\">¤<main class=\"¤\"><h1>¤</h1>¤¤</main><div id=\"modal-host\"></div><script>¤</script><script>¤</script><script>¤</script><script>¤</script><script>¤</script><script>¤</script><script>¤</script><script>¤</script><script>¤</script><script>¤</script><script>¤</script></body></html>");
    reveal_strlit("<title>");
    reveal_strlit(" · ");
    reveal_strlit("</title>");
    reveal_strlit("<link rel=\"stylesheet\" href=\"/assets/css/app.css?v=");
    reveal_strlit("\"");
    reveal_strlit("<script src=\"/assets/vendor/htmx.min.js?v=");
    reveal_strlit("<body class=\"app\">");
    reveal_strlit("<main class=\"");
    reveal_strlit("<h1>");
    reveal_strlit("</h1>");
    reveal_strlit("</main>");
    let tpl = page::SHELL_APP@;
    let holes = seq![134int, 138, 155, 216, 261, 304, 318, 325, 331, 332, 375, 393, 411, 429, 447, 465, 483, 501, 519, 537, 555];
    assert(markup::hole_at(tpl, holes, 0));
    assert(markup::hole_at(tpl, holes, 1));
    assert(markup::hole_at(tpl, holes, 2));
    assert(markup::hole_at(tpl, holes, 3));
    assert(markup::hole_at(tpl, holes, 4));
    assert(markup::hole_at(tpl, holes, 5));
    assert(markup::hole_at(tpl, holes, 6));
    assert(markup::hole_at(tpl, holes, 7));
    assert(markup::hole_at(tpl, holes, 8));
    assert(markup::hole_at(tpl, holes, 9));
    assert(markup::hole_at(tpl, holes, 10));
    assert(markup::hole_at(tpl, holes, 11));
    assert(markup::hole_at(tpl, holes, 12));
    assert(markup::hole_at(tpl, holes, 13));
    assert(markup::hole_at(tpl, holes, 14));
    assert(markup::hole_at(tpl, holes, 15));
    assert(markup::hole_at(tpl, holes, 16));
    assert(markup::hole_at(tpl, holes, 17));
    assert(markup::hole_at(tpl, holes, 18));
    assert(markup::hole_at(tpl, holes, 19));
    assert(markup::hole_at(tpl, holes, 20));
    assert(tpl.subrange(127, 134) =~= "<title>"@);
    assert(tpl.subrange(135, 138) =~= " · "@);
    assert(tpl.subrange(139, 147) =~= "</title>"@);
    assert(tpl.subrange(165, 216) =~= "<link rel=\"stylesheet\" href=\"/assets/css/app.css?v="@);
    assert(tpl.subrange(217, 218) =~= "\""@);
    assert(tpl.subrange(219, 261) =~= "<script src=\"/assets/vendor/htmx.min.js?v="@);
    assert(tpl.subrange(262, 263) =~= "\""@);
    assert(tpl.subrange(286, 304) =~= "<body class=\"app\">"@);
    assert(tpl.subrange(305, 318) =~= "<main class=\""@);
    assert(tpl.subrange(319, 320) =~= "\""@);
    assert(tpl.subrange(321, 325) =~= "<h1>"@);
    assert(tpl.subrange(326, 331) =~= "</h1>"@);
    assert(tpl.subrange(333, 340) =~= "</main>"@);
    (tpl, holes)
}

/// A page for the signed-in has its title and its content, and the navigation and the card of the
/// user around it.
pub proof fn law_shell_app_inner(
    ctx: &page::ChromeContext,
    title: Seq<char>,
    current: page::PageId,
    content: Seq<char>,
    wide: bool,
)
    ensures
        ({
            let out = page::shell_app_inner_html(ctx, title, current, content, wide);
            let main_class = if wide { "app-main app-main-wide" } else { "app-main" };
            &&& markup::shows(out, "<title>"@ + html::escaped(title) + " · "@)
            &&& markup::shows(out, " · "@ + html::escaped(ctx.instance_name@) + "</title>"@)
            &&& markup::shows(
                out,
                "<link rel=\"stylesheet\" href=\"/assets/css/app.css?v="@ + html::escaped(ctx.site.asset_version@) + "\""@,
            )
            &&& markup::shows(
                out,
                "<script src=\"/assets/vendor/htmx.min.js?v="@ + html::escaped(ctx.site.asset_version@) + "\""@,
            )
            &&& markup::shows(
                out,
                "<body class=\"app\">"@ + page::sidebar_html(ctx, current) + "<main class=\""@,
            )
            &&& markup::shows(out, "<main class=\""@ + html::escaped(main_class@) + "\""@)
            &&& markup::shows(out, "<h1>"@ + html::escaped(title) + "</h1>"@)
            &&& markup::shows(out, "</h1>"@ + content)
            &&& markup::shows(out, html::when(wide, page::MAIN_MARK@) + "</main>"@)
        }),
{
    let main_class = if wide { "app-main app-main-wide" } else { "app-main" };
    let (tpl, holes) = lemma_shell_app_inner();
    let parts = seq![
        html::escaped(title),
        html::escaped(ctx.instance_name@),
        THEME_BOOT_JS@,
        html::escaped(ctx.site.asset_version@),
        html::escaped(ctx.site.asset_version@),
        page::sidebar_html(ctx, current),
        html::escaped(main_class@),
        html::escaped(title),
        content,
        html::when(wide, page::MAIN_MARK@),
        DIALOG_JS@,
        TOAST_JS@,
        THEME_SWITCH_JS@,
        MULTI_ACCOUNT_JS@,
        USER_CARD_OUTSIDE_CLICK_JS@,
        REAUTH_CHAIN_JS@,
        SETTINGS_TABS_JS@,
        CHANGE_PASSWORD_GATE_JS@,
        ACCOUNT_CLOSE_GATE_JS@,
        INVITE_COPY_JS@,
        WEBAUTHN_JS@,
    ];
    assert(page::shell_app_inner_html(ctx, title, current, content, wide) == markup::filled(tpl, parts, 21).done()) by {
        reveal_with_fuel(markup::filled, 22);
    }
    markup::lemma_hole(tpl, holes, parts, 0, "<title>"@, " · "@);
    markup::lemma_hole(tpl, holes, parts, 1, " · "@, "</title>"@);
    markup::lemma_hole(
        tpl,
        holes,
        parts,
        3,
        "<link rel=\"stylesheet\" href=\"/assets/css/app.css?v="@,
        "\""@,
    );
    markup::lemma_hole(tpl, holes, parts, 4, "<script src=\"/assets/vendor/htmx.min.js?v="@, "\""@);
    markup::lemma_hole(tpl, holes, parts, 5, "<body class=\"app\">"@, "<main class=\""@);
    markup::lemma_hole(tpl, holes, parts, 6, "<main class=\""@, "\""@);
    markup::lemma_hole(tpl, holes, parts, 7, "<h1>"@, "</h1>"@);
    assert(tpl.subrange(332, 332) =~= Seq::<char>::empty());
    markup::lemma_hole(tpl, holes, parts, 8, "</h1>"@, Seq::<char>::empty());
    assert("</h1>"@ + parts[8] + Seq::<char>::empty() =~= "</h1>"@ + parts[8]);
    assert(tpl.subrange(332, 332) =~= Seq::<char>::empty());
    markup::lemma_hole(tpl, holes, parts, 9, Seq::<char>::empty(), "</main>"@);
    assert(Seq::<char>::empty() + parts[9] + "</main>"@ =~= parts[9] + "</main>"@);
}

/// Where the holes of the template stand, and the texts around them.
proof fn lemma_nav_badge() -> (at: (Seq<char>, Seq<int>))
    ensures
        at.0 == page::NAV_BADGE@,
        at.1 == seq![41int, 52],
        at.0.len() == 60,
        markup::holes_at(at.0, at.1),
        at.0.subrange(0, 41) == "<span class=\"nav-link-badge\" aria-label=\""@,
        at.0.subrange(42, 51) == " pending\""@,
        at.0.subrange(42, 52) == " pending\">"@,
        at.0.subrange(53, 60) == "</span>"@,
        "<span class=\"nav-link-badge\" aria-label=\""@.len() == 41,
        " pending\""@.len() == 9,
        " pending\">"@.len() == 10,
        "</span>"@.len() == 7,
{
    reveal_strlit("<span class=\"nav-link-badge\" aria-label=\"¤ pending\">¤</span>");
    reveal_strlit("<span class=\"nav-link-badge\" aria-label=\"");
    reveal_strlit(" pending\"");
    reveal_strlit(" pending\">");
    reveal_strlit("</span>");
    let tpl = page::NAV_BADGE@;
    let holes = seq![41int, 52];
    assert(markup::hole_at(tpl, holes, 0));
    assert(markup::hole_at(tpl, holes, 1));
    assert(tpl.subrange(0, 41) =~= "<span class=\"nav-link-badge\" aria-label=\""@);
    assert(tpl.subrange(42, 51) =~= " pending\""@);
    assert(tpl.subrange(42, 52) =~= " pending\">"@);
    assert(tpl.subrange(53, 60) =~= "</span>"@);
    (tpl, holes)
}

/// A count of things that wait is shown where there is one.
pub proof fn law_nav_badge(n: u32)
    requires
        n > 0,
    ensures
        ({
            let out = page::nav_badge_html(Some(n));
            &&& markup::shows(
                out,
                "<span class=\"nav-link-badge\" aria-label=\""@ + text::decimal_int(n as int) + " pending\""@,
            )
            &&& markup::shows(out, " pending\">"@ + text::decimal_int(n as int) + "</span>"@)
        }),
{
    let (tpl, holes) = lemma_nav_badge();
    let parts = seq![text::decimal_int(n as int), text::decimal_int(n as int)];
    assert(page::nav_badge_html(Some(n)) == markup::filled(tpl, parts, 2).done()) by {
        reveal_with_fuel(markup::filled, 3);
    }
    markup::lemma_hole(
        tpl,
        holes,
        parts,
        0,
        "<span class=\"nav-link-badge\" aria-label=\""@,
        " pending\""@,
    );
    markup::lemma_hole(tpl, holes, parts, 1, " pending\">"@, "</span>"@);
}

/// A page for everybody holds its content.
pub proof fn lemma_public_content(site: &page::SiteInfo, title: Seq<char>, content: Seq<char>)
    ensures
        markup::shows(page::shell_public_html(site, title, content), content),
        markup::shows(
            page::shell_public_html(site, title, content),
            "<title>"@ + html::escaped(title) + " · Hearth"@,
        ),
{
    law_shell_public(site, title, content);
    markup::lemma_shows("</p>"@, content, "</main>"@);
    markup::lemma_shows_inner(
        page::shell_public_html(site, title, content),
        "</p>"@ + content + "</main>"@,
        content,
    );
}

/// A page for the signed-in holds its content.
pub proof fn lemma_app_content(
    ctx: &page::ChromeContext,
    title: Seq<char>,
    current: page::PageId,
    content: Seq<char>,
    wide: bool,
)
    ensures
        markup::shows(page::shell_app_inner_html(ctx, title, current, content, wide), content),
        markup::shows(
            page::shell_app_inner_html(ctx, title, current, content, wide),
            "<title>"@ + html::escaped(title) + " · "@,
        ),
{
    law_shell_app_inner(ctx, title, current, content, wide);
    assert("</h1>"@ + content =~= "</h1>"@ + content + Seq::empty());
    markup::lemma_shows("</h1>"@, content, Seq::empty());
    markup::lemma_shows_inner(
        page::shell_app_inner_html(ctx, title, current, content, wide),
        "</h1>"@ + content,
        content,
    );
}

/// Where the holes of the template stand, and the texts around them.
proof fn lemma_error_page() -> (at: (Seq<char>, Seq<int>))
    ensures
        at.0 == page::ERROR_PAGE@,
        at.1 == seq![4int, 8],
        at.0.len() == 49,
        markup::holes_at(at.0, at.1),
        at.0.subrange(0, 4) == "<h1>"@,
        at.0.subrange(5, 8) == " · "@,
        at.0.subrange(9, 14) == "</h1>"@,
        "<h1>"@.len() == 4,
        " · "@.len() == 3,
        "</h1>"@.len() == 5,
{
    reveal_strlit("<h1>¤ · ¤</h1><p><a href=\"/\">Back to home</a></p>");
    reveal_strlit("<h1>");
    reveal_strlit(" · ");
    reveal_strlit("</h1>");
    let tpl = page::ERROR_PAGE@;
    let holes = seq![4int, 8];
    assert(markup::hole_at(tpl, holes, 0));
    assert(markup::hole_at(tpl, holes, 1));
    assert(tpl.subrange(0, 4) =~= "<h1>"@);
    assert(tpl.subrange(5, 8) =~= " · "@);
    assert(tpl.subrange(9, 14) =~= "</h1>"@);
    (tpl, holes)
}

/// An error page says the status and the message.
pub proof fn law_error_page(site: &page::SiteInfo, status: u16, message: Seq<char>)
    ensures
        ({
            let out = page::error_page_html(site, status, message);
            &&& markup::shows(out, "<title>"@ + html::escaped("Error"@) + " · Hearth"@)
            &&& markup::shows(out, "<h1>"@ + text::decimal_int(status as int) + " · "@)
            &&& markup::shows(out, " · "@ + html::escaped(message) + "</h1>"@)
        }),
{
    let (tpl, holes) = lemma_error_page();
    let parts = seq![text::decimal_int(status as int), html::escaped(message)];
    let content = markup::filled(tpl, parts, 2).done();
    let out = page::error_page_html(site, status, message);
    assert(out == page::shell_public_html(site, "Error"@, content)) by {
        reveal_with_fuel(markup::filled, 3);
    }
    lemma_public_content(site, "Error"@, content);
    markup::lemma_hole(tpl, holes, parts, 0, "<h1>"@, " · "@);
    markup::lemma_shows_inner(out, content, "<h1>"@ + text::decimal_int(status as int) + " · "@);
    markup::lemma_hole(tpl, holes, parts, 1, " · "@, "</h1>"@);
    markup::lemma_shows_inner(out, content, " · "@ + html::escaped(message) + "</h1>"@);
}

/// The asset version is the start of the server in hexadecimal digits.
pub proof fn law_asset_version(secs: nat)
    ensures
        secs < 16 ==> page::asset_version_of(secs) == seq!["0123456789abcdef"@[secs as int]],
        secs >= 16 ==> page::asset_version_of(secs) == page::asset_version_of(secs / 16) + seq![
            "0123456789abcdef"@[secs as int % 16],
        ],
{
    reveal_strlit("0123456789abcdef");
    assert(secs >= 16 ==> page::asset_version_of(secs) =~= page::asset_version_of(secs / 16)
        + seq!["0123456789abcdef"@[secs as int % 16]]);
}

} // verus!
