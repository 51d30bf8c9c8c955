//! What the page of waiting transitions shows.

use vstd::prelude::*;
use crate::display;
use crate::html;
use crate::laws::markup;
use crate::laws::pages::shell as around;
use crate::model::{Timestamp, TransitionRow, User};
use crate::views::pending as page;
use crate::views::scripts::REAUTH_CHAIN_JS;
use crate::views::shell::{ChromeContext, PageId};
use crate::views::shell;

verus! {

/// Where the holes of the template stand, and the texts around them.
proof fn lemma_time_remaining_pill() -> (at: (Seq<char>, Seq<int>))
    ensures
        at.0 == page::TIME_REMAINING_PILL@,
        at.1 == seq![13int, 16],
        at.0.len() == 24,
        markup::holes_at(at.0, at.1),
        at.0.subrange(0, 13) == "<span class=\""@,
        at.0.subrange(14, 15) == "\""@,
        at.0.subrange(14, 16) == "\">"@,
        at.0.subrange(17, 24) == "</span>"@,
        "<span class=\""@.len() == 13,
        "\""@.len() == 1,
        "\">"@.len() == 2,
        "</span>"@.len() == 7,
{
    reveal_strlit("<span class=\"¤\">¤</span>");
    reveal_strlit("<span class=\"");
    reveal_strlit("\"");
    reveal_strlit("\">");
    reveal_strlit("</span>");
    let tpl = page::TIME_REMAINING_PILL@;
    let holes = seq![13int, 16];
    assert(markup::hole_at(tpl, holes, 0));
    assert(markup::hole_at(tpl, holes, 1));
    assert(tpl.subrange(0, 13) =~= "<span class=\""@);
    assert(tpl.subrange(14, 15) =~= "\""@);
    assert(tpl.subrange(14, 16) =~= "\">"@);
    assert(tpl.subrange(17, 24) =~= "</span>"@);
    (tpl, holes)
}

/// What is left of a veto window is told in its words.
pub proof fn law_time_remaining_pill(effective_at: &Timestamp, now: &Timestamp)
    ensures
        ({
            let out = page::time_remaining_pill_html(effective_at, now);
            let pill = page::remaining_pill_of(display::remaining_of(effective_at@, now@));
            &&& markup::shows(out, "<span class=\""@ + html::escaped(pill.1) + "\""@)
            &&& markup::shows(out, "\">"@ + html::escaped(pill.0) + "</span>"@)
        }),
{
    let pill = page::remaining_pill_of(display::remaining_of(effective_at@, now@));
    let (tpl, holes) = lemma_time_remaining_pill();
    let parts = seq![html::escaped(pill.1), html::escaped(pill.0)];
    assert(page::time_remaining_pill_html(effective_at, now) == markup::filled(tpl, parts, 2).done()) by {
        reveal_with_fuel(markup::filled, 3);
    }
    markup::lemma_hole(tpl, holes, parts, 0, "<span class=\""@, "\""@);
    markup::lemma_hole(tpl, holes, parts, 1, "\">"@, "</span>"@);
}

/// Where the holes of the template stand, and the texts around them.
proof fn lemma_pending_page() -> (at: (Seq<char>, Seq<int>))
    ensures
        at.0 == page::PENDING_PAGE@,
        at.1 == seq![0int, 1, 2, 11],
        at.0.len() == 21,
        markup::holes_at(at.0, at.1),
        at.0.subrange(3, 11) == "<script>"@,
        "<script>"@.len() == 8,
{
    reveal_strlit("¤¤¤<script>¤</script>");
    reveal_strlit("<script>");
    let tpl = page::PENDING_PAGE@;
    let holes = seq![0int, 1, 2, 11];
    assert(markup::hole_at(tpl, holes, 0));
    assert(markup::hole_at(tpl, holes, 1));
    assert(markup::hole_at(tpl, holes, 2));
    assert(markup::hole_at(tpl, holes, 3));
    assert(tpl.subrange(3, 11) =~= "<script>"@);
    (tpl, holes)
}

/// The page of the waiting transitions lists those that wait, then those that were resolved.
pub proof fn law_pending_page(
    ctx: &ChromeContext,
    active: Seq<TransitionRow>,
    history: Seq<TransitionRow>,
    users: Seq<User>,
    now: &Timestamp,
)
    ensures
        ({
            let out = page::pending_page_html(ctx, active, history, users, now);
            &&& markup::shows(out, "<title>"@ + html::escaped("Pending review"@) + " · "@)
            &&& markup::shows(out, page::render_pending_banner_html())
            &&& markup::shows(
                out,
                (if active.len() == 0 { page::pending_empty_state_html() } else { html::template(page::ACTIVE_TABLE@) .html(page::active_rows_html(active, users, now)) .done() }),
            )
            &&& markup::shows(
                out,
                (if history.len() > 0 { html::template(page::HISTORY_TABLE@) .html(page::history_rows_html(history, users)) .done() } else { Seq::empty() }) + "<script>"@,
            )
            &&& markup::shows(
                out,
                (page::render_pending_banner_html() + (if active.len() == 0 { page::pending_empty_state_html() } else { html::template(page::ACTIVE_TABLE@) .html(page::active_rows_html(active, users, now)) .done() })),
            )
        }),
{
    let (tpl, holes) = lemma_pending_page();
    let parts = seq![
        page::render_pending_banner_html(),
        if active.len() == 0 { page::pending_empty_state_html() } else { html::template(page::ACTIVE_TABLE@) .html(page::active_rows_html(active, users, now)) .done() },
        if history.len() > 0 { html::template(page::HISTORY_TABLE@) .html(page::history_rows_html(history, users)) .done() } else { Seq::empty() },
        REAUTH_CHAIN_JS@,
    ];
    let content = markup::filled(tpl, parts, 4).done();
    let out = page::pending_page_html(ctx, active, history, users, now);
    assert(out == shell::shell_app_wide_html(ctx, "Pending review"@, PageId::Pending, content)) by {
        reveal_with_fuel(markup::filled, 5);
    }
    around::lemma_app_content(ctx, "Pending review"@, PageId::Pending, content, true);
    assert(tpl.subrange(0, 0) =~= Seq::<char>::empty());
    assert(tpl.subrange(1, 1) =~= Seq::<char>::empty());
    markup::lemma_hole(tpl, holes, parts, 0, Seq::<char>::empty(), Seq::<char>::empty());
    assert(Seq::<char>::empty() + parts[0] + Seq::<char>::empty() =~= parts[0]);
    markup::lemma_shows_inner(out, content, page::render_pending_banner_html());
    assert(tpl.subrange(1, 1) =~= Seq::<char>::empty());
    assert(tpl.subrange(2, 2) =~= Seq::<char>::empty());
    markup::lemma_hole(tpl, holes, parts, 1, Seq::<char>::empty(), Seq::<char>::empty());
    assert(Seq::<char>::empty() + parts[1] + Seq::<char>::empty() =~= parts[1]);
    markup::lemma_shows_inner(
        out,
        content,
        (if active.len() == 0 { page::pending_empty_state_html() } else { html::template(page::ACTIVE_TABLE@) .html(page::active_rows_html(active, users, now)) .done() }),
    );
    assert(tpl.subrange(2, 2) =~= Seq::<char>::empty());
    markup::lemma_hole(tpl, holes, parts, 2, Seq::<char>::empty(), "<script>"@);
    assert(Seq::<char>::empty() + parts[2] + "<script>"@ =~= parts[2] + "<script>"@);
    markup::lemma_shows_inner(
        out,
        content,
        (if history.len() > 0 { html::template(page::HISTORY_TABLE@) .html(page::history_rows_html(history, users)) .done() } else { Seq::empty() }) + "<script>"@,
    );
    assert(tpl.subrange(0, 0) =~= Seq::<char>::empty());
    assert(tpl.subrange(1, 1) =~= Seq::<char>::empty());
    assert(tpl.subrange(2, 2) =~= Seq::<char>::empty());
    markup::lemma_two_holes(
        tpl,
        holes,
        parts,
        0,
        Seq::<char>::empty(),
        Seq::<char>::empty(),
        Seq::<char>::empty(),
    );
    assert(Seq::<char>::empty() + (parts[0] + Seq::<char>::empty() + parts[1]) + Seq::<char>::empty() =~= (parts[0] + parts[1]));
    markup::lemma_shows_inner(
        out,
        content,
        (page::render_pending_banner_html() + (if active.len() == 0 { page::pending_empty_state_html() } else { html::template(page::ACTIVE_TABLE@) .html(page::active_rows_html(active, users, now)) .done() })),
    );
}

} // verus!
