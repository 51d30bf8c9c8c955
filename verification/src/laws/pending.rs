//! Transitions that wait for their veto window: what the page shows of them, and what owners do
//! about them.

use vstd::prelude::*;
use crate::display;
use crate::display::Remaining;
use crate::flows::pending;
use crate::flows::pending::{
    DialogAsk, ForceAnswers, ForceAskView, ForceOutcome, Labels, PendingAnswers, PendingAskView,
    Veto, VetoOutcome,
};
use crate::flows::step;
use crate::flows::step::Asked;
use crate::forms::ForceApplyForm;
use crate::gate::Caller;
use crate::html;
use crate::laws::markup;
use crate::laws::outcome;
use crate::model;
use crate::model::{
    InstanceRole, Timestamp, TransitionKind, TransitionRow, TransitionState, User, Uuid,
};
use crate::reply;
use crate::text;
use crate::toast::ToastKind;
use crate::views::icons;
use crate::views::pending as rows;
use crate::views::shell;
use crate::views::shell::ChromeContext;

verus! {

// ---- Whom a row shows ------------------------------------------------------------------------

/// Whether `u` is the account with this identifier: the last one listed with it.
pub open spec fn is_among(users: Seq<User>, id: Uuid, u: User) -> bool {
    u.id == id && exists|i: int|
        #![trigger users[i]]
        0 <= i < users.len() && users[i] == u && forall|j: int|
            i < j < users.len() ==> (#[trigger] users[j]).id != id
}

proof fn lemma_among(users: Seq<User>, id: Uuid, u: User)
    requires
        is_among(users, id, u),
    ensures
        rows::user_with(users, id) == Some(u),
    decreases users.len(),
{
    let i = choose|i: int|
        #![trigger users[i]]
        0 <= i < users.len() && users[i] == u && forall|j: int|
            i < j < users.len() ==> (#[trigger] users[j]).id != id;
    let n = users.len() - 1;
    if i < n {
        assert(users[n].id != id);
        let front = users.drop_last();
        assert(front[i] == u);
        assert forall|j: int| i < j < front.len() implies (#[trigger] front[j]).id != id by {
            assert(front[j] == users[j]);
        }
        lemma_among(front, id, u);
    }
}

/// What a form that was refused says.
pub open spec fn force_note(error: Option<Seq<char>>) -> Seq<char> {
    match error {
        Some(err) => html::template(rows::FORCE_APPLY_ERROR@).html(icons::ALERT_CIRCLE_ICON@).text(
            err,
        ).done(),
        None => Seq::empty(),
    }
}

/// The cell of an account shows its name and its email, each in its own place.
pub proof fn law_account_cell(u: &User)
    ensures
        ({
            let html = rows::user_cell_html(u);
            &&& markup::shows(
                html,
                "<div class=\"user-row-id\">"@ + shell::avatar_block_html(u.display_name@, u.id, u.lifecycle) + "<div class=\"user-row-text\">"@,
            )
            &&& markup::shows(
                html,
                "<span class=\"user-name\">"@ + html::escaped(u.display_name@) + "</span>"@,
            )
            &&& markup::shows(
                html,
                "<span class=\"user-email\">"@ + html::escaped(u.email@) + "</span>"@,
            )
        }),
{
    reveal_strlit("<div class=\"user-row-id\">¤<div class=\"user-row-text\"><span class=\"user-name\">¤</span><span class=\"user-email\">¤</span></div></div>");
    reveal_strlit("</span>");
    reveal_strlit("<div class=\"user-row-id\">");
    reveal_strlit("<div class=\"user-row-text\">");
    reveal_strlit("<span class=\"user-email\">");
    reveal_strlit("<span class=\"user-name\">");
    let t = rows::USER_CELL@;
    let ps = seq![25int, 77, 110];
    let xs = seq![shell::avatar_block_html(u.display_name@, u.id, u.lifecycle), html::escaped(u.display_name@), html::escaped(u.email@)];
    assert(rows::user_cell_html(u) == markup::filled(t, xs, 3).done()) by {
        reveal_with_fuel(markup::filled, 4);
    }
    assert(markup::holes_at(t, ps)) by {
        assert(markup::hole_at(t, ps, 0));
        assert(markup::hole_at(t, ps, 1));
        assert(markup::hole_at(t, ps, 2));
    }
    assert(t.subrange(0, 25) =~= "<div class=\"user-row-id\">"@);
    assert(t.subrange(26, 53) =~= "<div class=\"user-row-text\">"@);
    markup::lemma_hole(
        t,
        ps,
        xs,
        0,
        "<div class=\"user-row-id\">"@,
        "<div class=\"user-row-text\">"@,
    );
    assert(t.subrange(53, 77) =~= "<span class=\"user-name\">"@);
    assert(t.subrange(78, 85) =~= "</span>"@);
    markup::lemma_hole(t, ps, xs, 1, "<span class=\"user-name\">"@, "</span>"@);
    assert(t.subrange(85, 110) =~= "<span class=\"user-email\">"@);
    assert(t.subrange(111, 118) =~= "</span>"@);
    markup::lemma_hole(t, ps, xs, 2, "<span class=\"user-email\">"@, "</span>"@);
}

/// In the row of a waiting transition the target's cell shows the account that the transition is
/// about, the initiator's cell the one that began it, and the buttons open the dialogs of this very
/// transition. What it does and how long it waits stand between.
pub proof fn law_waiting_row(row: &TransitionRow, users: Seq<User>, now: &Timestamp)
    ensures
        ({
            let html = rows::pending_active_row_html(row, users, now);
            &&& markup::shows(
                html,
                "<tr class=\"pending-row\" id=\"row-"@ + html::escaped(model::uuid_text(row.id)) + "\""@,
            )
            &&& markup::shows(
                html,
                "<td class=\"col-pending-target\">"@ + rows::target_cell_html(users, row.target_user_id) + "</td>"@,
            )
            &&& markup::shows(
                html,
                "<td class=\"col-pending-action\">"@ + html::escaped(rows::action_label_of(row.kind)) + "</td>"@,
            )
            &&& markup::shows(
                html,
                "<td class=\"col-pending-initiator\">"@ + rows::name_cell_html(users, row.initiator_user_id) + "</td>"@,
            )
            &&& markup::shows(
                html,
                "<td class=\"col-pending-remaining\">"@ + rows::time_remaining_pill_html(&row.effective_at, now) + "</td>"@,
            )
            &&& markup::shows(
                html,
                "data-open-modal=\"/pending/"@ + html::escaped(model::uuid_text(row.id)) + "/modal/veto\">Veto</button>"@,
            )
            &&& markup::shows(
                html,
                "data-open-modal=\"/pending/"@ + html::escaped(model::uuid_text(row.id)) + "/modal/force-apply\">Force apply</button>"@,
            )
        }),
{
    reveal_strlit("<tr class=\"pending-row\" id=\"row-¤\"><td class=\"col-pending-target\">¤</td><td class=\"col-pending-action\">¤</td><td class=\"col-pending-initiator\">¤</td><td class=\"col-pending-remaining\">¤</td><td class=\"col-pending-actions\"><button type=\"button\" class=\"btn-secondary\" data-open-modal=\"/pending/¤/modal/veto\">Veto</button><button type=\"button\" class=\"btn-danger-ghost\" data-open-modal=\"/pending/¤/modal/force-apply\">Force apply</button></td></tr>");
    reveal_strlit("/modal/force-apply\">Force apply</button>");
    reveal_strlit("/modal/veto\">Veto</button>");
    reveal_strlit("</td>");
    reveal_strlit("<td class=\"col-pending-action\">");
    reveal_strlit("<td class=\"col-pending-initiator\">");
    reveal_strlit("<td class=\"col-pending-remaining\">");
    reveal_strlit("<td class=\"col-pending-target\">");
    reveal_strlit("<tr class=\"pending-row\" id=\"row-");
    reveal_strlit("\"");
    reveal_strlit("data-open-modal=\"/pending/");
    let t = rows::PENDING_ACTIVE_ROW@;
    let ps = seq![32int, 66, 103, 143, 183, 291, 391];
    let xs = seq![html::escaped(model::uuid_text(row.id)), rows::target_cell_html(users, row.target_user_id), html::escaped(rows::action_label_of(row.kind)), rows::name_cell_html(users, row.initiator_user_id), rows::time_remaining_pill_html(&row.effective_at, now), html::escaped(model::uuid_text(row.id)), html::escaped(model::uuid_text(row.id))];
    assert(rows::pending_active_row_html(row, users, now) == markup::filled(t, xs, 7).done()) by {
        reveal_with_fuel(markup::filled, 8);
    }
    assert(markup::holes_at(t, ps)) by {
        assert(markup::hole_at(t, ps, 0));
        assert(markup::hole_at(t, ps, 1));
        assert(markup::hole_at(t, ps, 2));
        assert(markup::hole_at(t, ps, 3));
        assert(markup::hole_at(t, ps, 4));
        assert(markup::hole_at(t, ps, 5));
        assert(markup::hole_at(t, ps, 6));
    }
    assert(t.subrange(0, 32) =~= "<tr class=\"pending-row\" id=\"row-"@);
    assert(t.subrange(33, 34) =~= "\""@);
    markup::lemma_hole(t, ps, xs, 0, "<tr class=\"pending-row\" id=\"row-"@, "\""@);
    assert(t.subrange(35, 66) =~= "<td class=\"col-pending-target\">"@);
    assert(t.subrange(67, 72) =~= "</td>"@);
    markup::lemma_hole(t, ps, xs, 1, "<td class=\"col-pending-target\">"@, "</td>"@);
    assert(t.subrange(72, 103) =~= "<td class=\"col-pending-action\">"@);
    assert(t.subrange(104, 109) =~= "</td>"@);
    markup::lemma_hole(t, ps, xs, 2, "<td class=\"col-pending-action\">"@, "</td>"@);
    assert(t.subrange(109, 143) =~= "<td class=\"col-pending-initiator\">"@);
    assert(t.subrange(144, 149) =~= "</td>"@);
    markup::lemma_hole(t, ps, xs, 3, "<td class=\"col-pending-initiator\">"@, "</td>"@);
    assert(t.subrange(149, 183) =~= "<td class=\"col-pending-remaining\">"@);
    assert(t.subrange(184, 189) =~= "</td>"@);
    markup::lemma_hole(t, ps, xs, 4, "<td class=\"col-pending-remaining\">"@, "</td>"@);
    assert(t.subrange(265, 291) =~= "data-open-modal=\"/pending/"@);
    assert(t.subrange(292, 318) =~= "/modal/veto\">Veto</button>"@);
    markup::lemma_hole(
        t,
        ps,
        xs,
        5,
        "data-open-modal=\"/pending/"@,
        "/modal/veto\">Veto</button>"@,
    );
    assert(t.subrange(365, 391) =~= "data-open-modal=\"/pending/"@);
    assert(t.subrange(392, 432) =~= "/modal/force-apply\">Force apply</button>"@);
    markup::lemma_hole(
        t,
        ps,
        xs,
        6,
        "data-open-modal=\"/pending/"@,
        "/modal/force-apply\">Force apply</button>"@,
    );
}

/// In the row of a resolved transition the target's cell shows the account that it was about; what it
/// was and how it ended follow, then who ended it and when.
pub proof fn law_history_row(row: &TransitionRow, users: Seq<User>)
    ensures
        ({
            let html = rows::pending_history_row_html(row, users);
            &&& markup::shows(
                html,
                "<td class=\"col-pending-target\">"@ + rows::target_cell_html(users, row.target_user_id) + "</td>"@,
            )
            &&& markup::shows(
                html,
                "<td class=\"col-pending-action\">"@ + html::escaped(rows::action_label_of(row.kind)) + "</td>"@,
            )
            &&& markup::shows(
                html,
                "\">"@ + html::escaped(rows::resolution_of(row.state).0) + "</span>"@,
            )
            &&& markup::shows(
                html,
                "<td class=\"col-pending-initiator\">"@ + rows::resolver_cell_html(users, row) + "</td>"@,
            )
        }),
{
    reveal_strlit("<tr class=\"pending-row pending-history-row\"><td class=\"col-pending-target\">¤</td><td class=\"col-pending-action\">¤</td><td class=\"col-pending-resolution\"><span class=\"¤\">¤</span></td><td class=\"col-pending-initiator\">¤</td><td class=\"col-pending-remaining\">¤</td></tr>");
    reveal_strlit("</span>");
    reveal_strlit("</td>");
    reveal_strlit("<td class=\"col-pending-action\">");
    reveal_strlit("<td class=\"col-pending-initiator\">");
    reveal_strlit("<td class=\"col-pending-target\">");
    reveal_strlit("\">");
    let t = rows::PENDING_HISTORY_ROW@;
    let ps = seq![75int, 112, 166, 169, 216, 256];
    let xs = seq![rows::target_cell_html(users, row.target_user_id), html::escaped(rows::action_label_of(row.kind)), html::escaped(rows::resolution_of(row.state).1), html::escaped(rows::resolution_of(row.state).0), rows::resolver_cell_html(users, row), match row.resolved_at { Some(ts) => html::template(rows::RESOLVED_DATE@).date(ts@, model::SHORT_DATE@).done(), None => rows::MUTED_DASH@ }];
    assert(rows::pending_history_row_html(row, users) == markup::filled(t, xs, 6).done()) by {
        reveal_with_fuel(markup::filled, 7);
    }
    assert(markup::holes_at(t, ps)) by {
        assert(markup::hole_at(t, ps, 0));
        assert(markup::hole_at(t, ps, 1));
        assert(markup::hole_at(t, ps, 2));
        assert(markup::hole_at(t, ps, 3));
        assert(markup::hole_at(t, ps, 4));
        assert(markup::hole_at(t, ps, 5));
    }
    assert(t.subrange(44, 75) =~= "<td class=\"col-pending-target\">"@);
    assert(t.subrange(76, 81) =~= "</td>"@);
    markup::lemma_hole(t, ps, xs, 0, "<td class=\"col-pending-target\">"@, "</td>"@);
    assert(t.subrange(81, 112) =~= "<td class=\"col-pending-action\">"@);
    assert(t.subrange(113, 118) =~= "</td>"@);
    markup::lemma_hole(t, ps, xs, 1, "<td class=\"col-pending-action\">"@, "</td>"@);
    assert(t.subrange(167, 169) =~= "\">"@);
    assert(t.subrange(170, 177) =~= "</span>"@);
    markup::lemma_hole(t, ps, xs, 3, "\">"@, "</span>"@);
    assert(t.subrange(182, 216) =~= "<td class=\"col-pending-initiator\">"@);
    assert(t.subrange(217, 222) =~= "</td>"@);
    markup::lemma_hole(t, ps, xs, 4, "<td class=\"col-pending-initiator\">"@, "</td>"@);
}

/// The dialog of a veto names what it stops and on whom, and its form goes to the veto of this very
/// transition, with the token of the session.
pub proof fn law_veto_dialog(id: Uuid, target: Seq<char>, action: Seq<char>, csrf: Seq<char>)
    ensures
        ({
            let html = rows::veto_pending_dialog_html(id, target, action, csrf);
            &&& markup::shows(
                html,
                "<form id=\"form-veto-"@ + html::escaped(model::uuid_text(id)) + "\" method=\"post\" action=\"/pending/"@,
            )
            &&& markup::shows(
                html,
                "\" method=\"post\" action=\"/pending/"@ + html::escaped(model::uuid_text(id)) + "/veto\">"@,
            )
            &&& markup::shows(
                html,
                "Stops the pending <strong>"@ + html::escaped(action) + "</strong> on <strong>"@,
            )
            &&& markup::shows(html, "</strong> on <strong>"@ + html::escaped(target) + "</strong>"@)
            &&& markup::shows(html, "</p>"@ + shell::csrf_input_html(csrf))
            &&& markup::shows(
                html,
                "data-reauth-confirm=\"form-veto-"@ + html::escaped(model::uuid_text(id)) + "\""@,
            )
        }),
{
    reveal_strlit("<dialog id=\"dlg-veto-¤\" class=\"action-dialog action-dialog-centered\"><form id=\"form-veto-¤\" method=\"post\" action=\"/pending/¤/veto\"><div class=\"dialog-header\"><div class=\"dialog-icon dialog-icon-warning\">¤</div><button type=\"button\" class=\"dialog-close\" data-close-dialog aria-label=\"Close\">¤</button></div><h2>Veto this pending action?</h2><p class=\"dialog-description\">Stops the pending <strong>¤</strong> on <strong>¤</strong>. The initiator will be notified that you cancelled it. The action can be started again from the Members page.</p>¤<div class=\"dialog-actions\"><button type=\"button\" class=\"btn-secondary\" data-close-dialog>Cancel</button><button type=\"button\" class=\"btn\" data-reauth-confirm=\"form-veto-¤\">Veto</button></div></form></dialog>");
    reveal_strlit("/veto\">");
    reveal_strlit("</p>");
    reveal_strlit("</strong>");
    reveal_strlit("</strong> on <strong>");
    reveal_strlit("<form id=\"form-veto-");
    reveal_strlit("Stops the pending <strong>");
    reveal_strlit("\"");
    reveal_strlit("\" method=\"post\" action=\"/pending/");
    reveal_strlit("data-reauth-confirm=\"form-veto-");
    let t = rows::VETO_PENDING_DIALOG@;
    let ps = seq![21int, 89, 123, 203, 290, 396, 418, 542, 713];
    let xs = seq![html::escaped(model::uuid_text(id)), html::escaped(model::uuid_text(id)), html::escaped(model::uuid_text(id)), icons::SHIELD_ICON@, icons::CLOSE_ICON@, html::escaped(action), html::escaped(target), shell::csrf_input_html(csrf), html::escaped(model::uuid_text(id))];
    assert(rows::veto_pending_dialog_html(id, target, action, csrf) == markup::filled(t, xs, 9).done()) by {
        reveal_with_fuel(markup::filled, 10);
    }
    assert(markup::holes_at(t, ps)) by {
        assert(markup::hole_at(t, ps, 0));
        assert(markup::hole_at(t, ps, 1));
        assert(markup::hole_at(t, ps, 2));
        assert(markup::hole_at(t, ps, 3));
        assert(markup::hole_at(t, ps, 4));
        assert(markup::hole_at(t, ps, 5));
        assert(markup::hole_at(t, ps, 6));
        assert(markup::hole_at(t, ps, 7));
        assert(markup::hole_at(t, ps, 8));
    }
    assert(t.subrange(69, 89) =~= "<form id=\"form-veto-"@);
    assert(t.subrange(90, 123) =~= "\" method=\"post\" action=\"/pending/"@);
    markup::lemma_hole(
        t,
        ps,
        xs,
        1,
        "<form id=\"form-veto-"@,
        "\" method=\"post\" action=\"/pending/"@,
    );
    assert(t.subrange(90, 123) =~= "\" method=\"post\" action=\"/pending/"@);
    assert(t.subrange(124, 131) =~= "/veto\">"@);
    markup::lemma_hole(t, ps, xs, 2, "\" method=\"post\" action=\"/pending/"@, "/veto\">"@);
    assert(t.subrange(370, 396) =~= "Stops the pending <strong>"@);
    assert(t.subrange(397, 418) =~= "</strong> on <strong>"@);
    markup::lemma_hole(t, ps, xs, 5, "Stops the pending <strong>"@, "</strong> on <strong>"@);
    assert(t.subrange(397, 418) =~= "</strong> on <strong>"@);
    assert(t.subrange(419, 428) =~= "</strong>"@);
    markup::lemma_hole(t, ps, xs, 6, "</strong> on <strong>"@, "</strong>"@);
    assert(t.subrange(538, 542) =~= "</p>"@);
    assert(t.subrange(543, 543) =~= Seq::<char>::empty());
    markup::lemma_hole(t, ps, xs, 7, "</p>"@, Seq::<char>::empty());
    assert("</p>"@ + xs[7] + Seq::<char>::empty() =~= "</p>"@ + xs[7]);
    assert(t.subrange(682, 713) =~= "data-reauth-confirm=\"form-veto-"@);
    assert(t.subrange(714, 715) =~= "\""@);
    markup::lemma_hole(t, ps, xs, 8, "data-reauth-confirm=\"form-veto-"@, "\""@);
}

/// The form that forces a transition through names what it applies and to whom, and goes to this very
/// transition, with the token of the session.
pub proof fn law_force_form(
    id: Uuid,
    target: Seq<char>,
    action: Seq<char>,
    csrf: Seq<char>,
    error: Option<Seq<char>>,
)
    ensures
        ({
            let html = rows::force_apply_form_html(id, target, action, csrf, error);
            &&& markup::shows(
                html,
                "hx-post=\"/pending/"@ + html::escaped(model::uuid_text(id)) + "/force-apply\" "@,
            )
            &&& markup::shows(
                html,
                "hx-target=\"#force-apply-content-"@ + html::escaped(model::uuid_text(id)) + "\""@,
            )
            &&& markup::shows(
                html,
                "Applies the pending <strong>"@ + html::escaped(action) + "</strong> on <strong>"@,
            )
            &&& markup::shows(
                html,
                "</strong> on <strong>"@ + html::escaped(target) + "</strong> immediately"@,
            )
            &&& markup::shows(html, "</p>"@ + force_note(error))
            &&& markup::shows(html, shell::csrf_input_html(csrf) + "<div class=\"field\">"@)
            &&& markup::shows(
                html,
                "<input type=\"text\" id=\"force-code-"@ + html::escaped(model::uuid_text(id)) + "\" name=\"recovery_code\""@,
            )
        }),
{
    reveal_strlit("<form id=\"form-force-apply-¤\" hx-post=\"/pending/¤/force-apply\" hx-target=\"#force-apply-content-¤\" hx-swap=\"innerHTML\"><div class=\"dialog-header\"><div class=\"dialog-icon dialog-icon-danger\">¤</div><button type=\"button\" class=\"dialog-close\" data-close-dialog aria-label=\"Close\">¤</button></div><h2 class=\"dialog-center-title\">Force this action through?</h2><p class=\"dialog-description dialog-center-text\">Applies the pending <strong>¤</strong> on <strong>¤</strong> immediately, bypassing the 72-hour veto window — the target can no longer veto it. Use this only to remove an owner who's lost access or gone rogue. It can't be undone.</p>¤¤<div class=\"field\"><label for=\"force-code-¤\">Server recovery code</label><input type=\"text\" id=\"force-code-¤\" name=\"recovery_code\" autocomplete=\"off\" spellcheck=\"false\" autocapitalize=\"off\" placeholder=\"XXXX-XXXX-XXXX-…\" required></div><div class=\"dialog-actions\"><button type=\"button\" class=\"btn-secondary\" data-close-dialog>Cancel</button><button type=\"submit\" class=\"btn-danger\">Force apply</button></div></form>");
    reveal_strlit("/force-apply\" ");
    reveal_strlit("</p>");
    reveal_strlit("</strong> immediately");
    reveal_strlit("</strong> on <strong>");
    reveal_strlit("<div class=\"field\">");
    reveal_strlit("<input type=\"text\" id=\"force-code-");
    reveal_strlit("Applies the pending <strong>");
    reveal_strlit("\"");
    reveal_strlit("\" name=\"recovery_code\"");
    reveal_strlit("hx-post=\"/pending/");
    reveal_strlit("hx-target=\"#force-apply-content-");
    let t = rows::FORCE_APPLY_FORM@;
    let ps = seq![27int, 48, 95, 189, 276, 432, 454, 637, 638, 681, 746];
    let xs = seq![html::escaped(model::uuid_text(id)), html::escaped(model::uuid_text(id)), html::escaped(model::uuid_text(id)), icons::ALERT_CIRCLE_ICON@, icons::CLOSE_ICON@, html::escaped(action), html::escaped(target), force_note(error), shell::csrf_input_html(csrf), html::escaped(model::uuid_text(id)), html::escaped(model::uuid_text(id))];
    assert(rows::force_apply_form_html(id, target, action, csrf, error) == markup::filled(t, xs, 11).done()) by {
        reveal_with_fuel(markup::filled, 12);
    }
    assert(markup::holes_at(t, ps)) by {
        assert(markup::hole_at(t, ps, 0));
        assert(markup::hole_at(t, ps, 1));
        assert(markup::hole_at(t, ps, 2));
        assert(markup::hole_at(t, ps, 3));
        assert(markup::hole_at(t, ps, 4));
        assert(markup::hole_at(t, ps, 5));
        assert(markup::hole_at(t, ps, 6));
        assert(markup::hole_at(t, ps, 7));
        assert(markup::hole_at(t, ps, 8));
        assert(markup::hole_at(t, ps, 9));
        assert(markup::hole_at(t, ps, 10));
    }
    assert(t.subrange(30, 48) =~= "hx-post=\"/pending/"@);
    assert(t.subrange(49, 63) =~= "/force-apply\" "@);
    markup::lemma_hole(t, ps, xs, 1, "hx-post=\"/pending/"@, "/force-apply\" "@);
    assert(t.subrange(63, 95) =~= "hx-target=\"#force-apply-content-"@);
    assert(t.subrange(96, 97) =~= "\""@);
    markup::lemma_hole(t, ps, xs, 2, "hx-target=\"#force-apply-content-"@, "\""@);
    assert(t.subrange(404, 432) =~= "Applies the pending <strong>"@);
    assert(t.subrange(433, 454) =~= "</strong> on <strong>"@);
    markup::lemma_hole(t, ps, xs, 5, "Applies the pending <strong>"@, "</strong> on <strong>"@);
    assert(t.subrange(433, 454) =~= "</strong> on <strong>"@);
    assert(t.subrange(455, 476) =~= "</strong> immediately"@);
    markup::lemma_hole(t, ps, xs, 6, "</strong> on <strong>"@, "</strong> immediately"@);
    assert(t.subrange(633, 637) =~= "</p>"@);
    assert(t.subrange(638, 638) =~= Seq::<char>::empty());
    markup::lemma_hole(t, ps, xs, 7, "</p>"@, Seq::<char>::empty());
    assert("</p>"@ + xs[7] + Seq::<char>::empty() =~= "</p>"@ + xs[7]);
    assert(t.subrange(638, 638) =~= Seq::<char>::empty());
    assert(t.subrange(639, 658) =~= "<div class=\"field\">"@);
    markup::lemma_hole(t, ps, xs, 8, Seq::<char>::empty(), "<div class=\"field\">"@);
    assert(Seq::<char>::empty() + xs[8] =~= xs[8]);
    assert(t.subrange(712, 746) =~= "<input type=\"text\" id=\"force-code-"@);
    assert(t.subrange(747, 769) =~= "\" name=\"recovery_code\""@);
    markup::lemma_hole(
        t,
        ps,
        xs,
        10,
        "<input type=\"text\" id=\"force-code-"@,
        "\" name=\"recovery_code\""@,
    );
}

/// The dialog around it is where the form's reply goes.
pub proof fn law_force_dialog(id: Uuid, target: Seq<char>, action: Seq<char>, csrf: Seq<char>)
    ensures
        ({
            let html = rows::force_apply_dialog_html(id, target, action, csrf);
            &&& markup::shows(
                html,
                "<div id=\"force-apply-content-"@ + html::escaped(model::uuid_text(id)) + "\""@,
            )
            &&& markup::shows(
                html,
                "\">"@ + rows::force_apply_form_html(id, target, action, csrf, None) + "</div>"@,
            )
        }),
{
    reveal_strlit("<dialog id=\"dlg-force-apply-¤\" class=\"action-dialog action-dialog-centered\"><div id=\"force-apply-content-¤\">¤</div></dialog>");
    reveal_strlit("</div>");
    reveal_strlit("<div id=\"force-apply-content-");
    reveal_strlit("\"");
    reveal_strlit("\">");
    let t = rows::FORCE_APPLY_DIALOG@;
    let ps = seq![28int, 105, 108];
    let xs = seq![html::escaped(model::uuid_text(id)), html::escaped(model::uuid_text(id)), rows::force_apply_form_html(id, target, action, csrf, None)];
    assert(rows::force_apply_dialog_html(id, target, action, csrf) == markup::filled(t, xs, 3).done()) by {
        reveal_with_fuel(markup::filled, 4);
    }
    assert(markup::holes_at(t, ps)) by {
        assert(markup::hole_at(t, ps, 0));
        assert(markup::hole_at(t, ps, 1));
        assert(markup::hole_at(t, ps, 2));
    }
    assert(t.subrange(76, 105) =~= "<div id=\"force-apply-content-"@);
    assert(t.subrange(106, 107) =~= "\""@);
    markup::lemma_hole(t, ps, xs, 1, "<div id=\"force-apply-content-"@, "\""@);
    assert(t.subrange(106, 108) =~= "\">"@);
    assert(t.subrange(109, 115) =~= "</div>"@);
    markup::lemma_hole(t, ps, xs, 2, "\">"@, "</div>"@);
}

/// A refused recovery code is told in the form.
pub proof fn law_force_note(why: Seq<char>)
    ensures
        ({
            let html = force_note(Some(why));
            &&& markup::shows(html, "<span>"@ + html::escaped(why) + "</span>"@)
        }),
{
    reveal_strlit("<div class=\"dialog-alert dialog-alert-danger\" role=\"alert\">¤<span>¤</span></div>");
    reveal_strlit("</span>");
    reveal_strlit("<span>");
    let t = rows::FORCE_APPLY_ERROR@;
    let ps = seq![59int, 66];
    let xs = seq![icons::ALERT_CIRCLE_ICON@, html::escaped(why)];
    assert(force_note(Some(why)) == markup::filled(t, xs, 2).done()) by {
        reveal_with_fuel(markup::filled, 3);
    }
    assert(markup::holes_at(t, ps)) by {
        assert(markup::hole_at(t, ps, 0));
        assert(markup::hole_at(t, ps, 1));
    }
    assert(t.subrange(60, 66) =~= "<span>"@);
    assert(t.subrange(67, 74) =~= "</span>"@);
    markup::lemma_hole(t, ps, xs, 1, "<span>"@, "</span>"@);
}

/// The chip on a member leads to the transition that waits on them.
pub proof fn law_waiting_chip(p: &TransitionRow, now: &Timestamp)
    ensures
        ({
            let html = rows::member_pending_pill_html(p, now);
            &&& markup::shows(
                html,
                "href=\""@ + html::escaped("/pending#row-"@ + model::uuid_text(p.id)) + "\""@,
            )
            &&& markup::shows(
                html,
                "\" title=\"View on Pending review\">"@ + html::escaped("Pending: "@ + rows::action_label_of(p.kind) + " · "@ + display::remaining_short(display::remaining_of(p.effective_at@, now@))) + "</a>"@,
            )
        }),
{
    reveal_strlit("<a class=\"member-pending-pill\" href=\"¤\" title=\"View on Pending review\">¤</a>");
    reveal_strlit("</a>");
    reveal_strlit("\"");
    reveal_strlit("\" title=\"View on Pending review\">");
    reveal_strlit("href=\"");
    let t = rows::MEMBER_PENDING_PILL@;
    let ps = seq![37int, 71];
    let xs = seq![html::escaped("/pending#row-"@ + model::uuid_text(p.id)), html::escaped("Pending: "@ + rows::action_label_of(p.kind) + " · "@ + display::remaining_short(display::remaining_of(p.effective_at@, now@)))];
    assert(rows::member_pending_pill_html(p, now) == markup::filled(t, xs, 2).done()) by {
        reveal_with_fuel(markup::filled, 3);
    }
    assert(markup::holes_at(t, ps)) by {
        assert(markup::hole_at(t, ps, 0));
        assert(markup::hole_at(t, ps, 1));
    }
    assert(t.subrange(31, 37) =~= "href=\""@);
    assert(t.subrange(38, 39) =~= "\""@);
    markup::lemma_hole(t, ps, xs, 0, "href=\""@, "\""@);
    assert(t.subrange(38, 71) =~= "\" title=\"View on Pending review\">"@);
    assert(t.subrange(72, 76) =~= "</a>"@);
    markup::lemma_hole(t, ps, xs, 1, "\" title=\"View on Pending review\">"@, "</a>"@);
}

/// In the row of a waiting transition the target's cell shows the name and the email of the account
/// that the transition is about, and the initiator's cell the name of the one that began it.
pub proof fn law_waiting_row_shows_whom(
    row: &TransitionRow,
    users: Seq<User>,
    now: &Timestamp,
    target: User,
    initiator: User,
)
    requires
        row.target_user_id == Some(target.id),
        is_among(users, target.id, target),
        row.initiator_user_id == Some(initiator.id),
        is_among(users, initiator.id, initiator),
    ensures
        ({
            let html = rows::pending_active_row_html(row, users, now);
            let about = rows::user_cell_html(&target);
            let by = rows::name_cell_html(users, Some(initiator.id));
            &&& markup::shows(html, "<td class=\"col-pending-target\">"@ + about + "</td>"@)
            &&& markup::shows(
                about,
                "<span class=\"user-name\">"@ + html::escaped(target.display_name@) + "</span>"@,
            )
            &&& markup::shows(
                about,
                "<span class=\"user-email\">"@ + html::escaped(target.email@) + "</span>"@,
            )
            &&& markup::shows(html, "<td class=\"col-pending-initiator\">"@ + by + "</td>"@)
            &&& by == "<span class=\"user-name\">"@ + html::escaped(initiator.display_name@)
                + "</span>"@
        }),
{
    law_waiting_row(row, users, now);
    law_account_cell(&target);
    lemma_among(users, target.id, target);
    lemma_name_cell(users, initiator.id, initiator);
}

/// In the row of a resolved transition the target's cell shows the name and the email of the
/// account that the transition was about, and the last but one cell the name of the one that
/// resolved it.
pub proof fn law_history_row_shows_whom(
    row: &TransitionRow,
    users: Seq<User>,
    target: User,
    resolver: User,
)
    requires
        row.target_user_id == Some(target.id),
        is_among(users, target.id, target),
        row.resolved_by_user_id == Some(resolver.id),
        is_among(users, resolver.id, resolver),
    ensures
        ({
            let html = rows::pending_history_row_html(row, users);
            let about = rows::user_cell_html(&target);
            let by = rows::resolver_cell_html(users, row);
            &&& markup::shows(html, "<td class=\"col-pending-target\">"@ + about + "</td>"@)
            &&& markup::shows(
                about,
                "<span class=\"user-name\">"@ + html::escaped(target.display_name@) + "</span>"@,
            )
            &&& markup::shows(
                about,
                "<span class=\"user-email\">"@ + html::escaped(target.email@) + "</span>"@,
            )
            &&& markup::shows(html, "<td class=\"col-pending-initiator\">"@ + by + "</td>"@)
            &&& by == "<span class=\"user-name\">"@ + html::escaped(resolver.display_name@)
                + "</span>"@
        }),
{
    law_history_row(row, users);
    law_account_cell(&target);
    lemma_among(users, target.id, target);
    lemma_among(users, resolver.id, resolver);
    lemma_name_cell(users, resolver.id, resolver);
}

proof fn lemma_name_cell(users: Seq<User>, id: Uuid, u: User)
    requires
        is_among(users, id, u),
    ensures
        rows::name_cell_html(users, Some(id)) == "<span class=\"user-name\">"@ + html::escaped(
            u.display_name@,
        ) + "</span>"@,
{
    lemma_among(users, id, u);
    reveal_strlit("<span class=\"user-name\">¤</span>");
    reveal_strlit("<span class=\"user-name\">");
    reveal_strlit("</span>");
    let t = rows::NAME_CELL@;
    let x = html::escaped(u.display_name@);
    let f = html::template(t);
    assert(t.skip(0) =~= t);
    markup::lemma_fill(f, t, 0, 24, x);
    assert(f.done + t.subrange(0, 24) + x =~= "<span class=\"user-name\">"@ + x);
    assert(t.skip(25) =~= "</span>"@);
}

/// Accounts that are gone leave a placeholder: the timer stands in for whoever applied a transition.
pub proof fn law_accounts_that_are_gone(users: Seq<User>, row: &TransitionRow, id: Uuid)
    requires
        forall|i: int| 0 <= i < users.len() ==> (#[trigger] users[i]).id != id,
    ensures
        rows::target_cell_html(users, Some(id))
            == "<span class=\"muted-dash\">(unknown member)</span>"@,
        rows::target_cell_html(users, None)
            == "<span class=\"muted-dash\">(unknown member)</span>"@,
        rows::name_cell_html(users, Some(id)) == "<span class=\"muted-dash\">—</span>"@,
        rows::name_cell_html(users, None) == "<span class=\"muted-dash\">—</span>"@,
        row.resolved_by_user_id is None || row.resolved_by_user_id == Some(id)
            ==> rows::resolver_cell_html(users, row) == (if row.state == TransitionState::Applied {
            "<span class=\"muted-dash\">Timer (72h)</span>"@
        } else {
            "<span class=\"muted-dash\">—</span>"@
        }),
{
    lemma_nobody(users, id);
}

proof fn lemma_nobody(users: Seq<User>, id: Uuid)
    requires
        forall|i: int| 0 <= i < users.len() ==> (#[trigger] users[i]).id != id,
    ensures
        rows::user_with(users, id) is None,
    decreases users.len(),
{
    if users.len() > 0 {
        assert(users[users.len() - 1].id != id);
        let front = users.drop_last();
        assert forall|i: int| 0 <= i < front.len() implies (#[trigger] front[i]).id != id by {
            assert(front[i] == users[i]);
        }
        lemma_nobody(front, id);
    }
}

/// Every transition has its row in the table, and the rows stand in the order of the list.
pub proof fn law_every_transition_has_its_row(
    list: Seq<TransitionRow>,
    users: Seq<User>,
    now: &Timestamp,
    i: int,
)
    requires
        0 <= i < list.len(),
    ensures
        exists|behind: Seq<char>|
            rows::active_rows_html(list, users, now) == rows::active_rows_html(
                list.take(i),
                users,
                now,
            ) + rows::pending_active_row_html(&list[i], users, now) + #[trigger] (behind
                + Seq::empty()),
        exists|behind: Seq<char>|
            rows::history_rows_html(list, users) == rows::history_rows_html(list.take(i), users)
                + rows::pending_history_row_html(&list[i], users) + #[trigger] (behind
                + Seq::empty()),
    decreases list.len(),
{
    let front = list.drop_last();
    let e = Seq::<char>::empty();
    let n = list.len() - 1;
    if i == n {
        assert(list.take(i) =~= front);
        assert(rows::active_rows_html(list, users, now) =~= rows::active_rows_html(front, users, now)
            + rows::pending_active_row_html(&list[i], users, now) + (e + Seq::empty()));
        assert(rows::history_rows_html(list, users) =~= rows::history_rows_html(front, users)
            + rows::pending_history_row_html(&list[i], users) + (e + Seq::empty()));
    } else {
        law_every_transition_has_its_row(front, users, now, i);
        assert(front.take(i) =~= list.take(i));
        let a = choose|behind: Seq<char>|
            rows::active_rows_html(front, users, now) == rows::active_rows_html(
                front.take(i),
                users,
                now,
            ) + rows::pending_active_row_html(&front[i], users, now) + #[trigger] (behind
                + Seq::empty());
        let h = choose|behind: Seq<char>|
            rows::history_rows_html(front, users) == rows::history_rows_html(front.take(i), users)
                + rows::pending_history_row_html(&front[i], users) + #[trigger] (behind
                + Seq::empty());
        let a2 = a + rows::pending_active_row_html(&list[n], users, now);
        let h2 = h + rows::pending_history_row_html(&list[n], users);
        assert(rows::active_rows_html(list, users, now) =~= rows::active_rows_html(
            list.take(i),
            users,
            now,
        ) + rows::pending_active_row_html(&list[i], users, now) + (a2 + Seq::empty()));
        assert(rows::history_rows_html(list, users) =~= rows::history_rows_html(list.take(i), users)
            + rows::pending_history_row_html(&list[i], users) + (h2 + Seq::empty()));
    }
}

/// What a transition will do is told in words of its own for each sort, how it ended for each end.
pub proof fn law_transition_words(kind: TransitionKind, state: TransitionState)
    ensures
        kind == TransitionKind::Deactivate ==> rows::action_label_of(kind) == "Deactivate"@,
        kind == TransitionKind::Anonymize ==> rows::action_label_of(kind) == "Anonymize"@,
        kind == TransitionKind::Delete ==> rows::action_label_of(kind) == "Delete"@,
        kind == TransitionKind::RoleChange(Some(InstanceRole::Owner)) ==> rows::action_label_of(
            kind,
        ) == "Promote to Owner"@,
        kind == TransitionKind::RoleChange(Some(InstanceRole::Admin)) ==> rows::action_label_of(
            kind,
        ) == "Change to Admin"@,
        kind == TransitionKind::RoleChange(Some(InstanceRole::Member)) ==> rows::action_label_of(
            kind,
        ) == "Demote to Member"@,
        kind == TransitionKind::RoleChange(None) ==> rows::action_label_of(kind) == "Change role"@,
        state == TransitionState::Vetoed ==> rows::resolution_of(state) == (
            "Vetoed"@,
            "resolution-badge resolution-vetoed"@,
        ),
        state == TransitionState::Cancelled ==> rows::resolution_of(state) == (
            "Cancelled"@,
            "resolution-badge resolution-cancelled"@,
        ),
        state == TransitionState::Applied ==> rows::resolution_of(state) == (
            "Applied"@,
            "resolution-badge resolution-applied"@,
        ),
        state == TransitionState::Pending ==> rows::resolution_of(state) == (
            "Pending"@,
            "resolution-badge"@,
        ),
{
}

/// What is left of a veto window is told in hours, or in minutes once it is urgent.
pub proof fn law_time_left_in_words(r: Remaining, n: u64)
    ensures
        r == Remaining::Over ==> rows::remaining_pill_of(r) == (
            "Imminent"@,
            "time-pill time-pill-urgent"@,
        ),
        r == Remaining::Hours(n) ==> rows::remaining_pill_of(r) == (
            text::decimal(n as nat) + "h left"@,
            "time-pill"@,
        ),
        r == Remaining::Minutes(n) ==> rows::remaining_pill_of(r) == (
            text::decimal(n as nat) + "m left"@,
            "time-pill time-pill-urgent"@,
        ),
{
}

// ---- What owners do about them ---------------------------------------------------------------

/// The page of an owner asks for what waits, then for the last fifty that were resolved, then for
/// every account that one of them mentions and no other, and is drawn from the answers; its badge
/// counts what waits.
pub proof fn law_pending_page_runs(
    ctx: &ChromeContext,
    a: &PendingAnswers,
    now: &Timestamp,
    next: step::StepView<PendingAskView>,
    active: Vec<TransitionRow>,
    history: Vec<TransitionRow>,
    users: Vec<User>,
    id: Uuid,
)
    requires
        outcome::owner(ctx.user.instance_role),
        pending::pending_next(ctx, a, now, next),
    ensures
        a.active is NotYet ==> next == step::StepView::<PendingAskView>::Ask(
            PendingAskView::Active,
        ),
        a.active is Answer && a.history is NotYet ==> next == step::StepView::<
            PendingAskView,
        >::Ask(PendingAskView::History { limit: 50 }),
        a.active == Asked::Answer(active) && a.history == Asked::Answer(history) && a.users
            is NotYet ==> {
            let names = |row: TransitionRow|
                row.target_user_id == Some(id) || row.initiator_user_id == Some(id)
                    || row.resolved_by_user_id == Some(id);
            &&& next is Ask && next->Ask_0 is Users
            &&& next->Ask_0->Users_0.contains(id) <==> (exists|k: int|
                0 <= k < active@.len() && names(#[trigger] active@[k])) || (exists|k: int|
                0 <= k < history@.len() && names(#[trigger] history@[k]))
        },
        a.active == Asked::Answer(active) && a.history == Asked::Answer(history) && a.users
            == Asked::Answer(users) && active@.len() <= u32::MAX ==> outcome::ends_with(
            next,
            reply::ok_page(
                rows::pending_page_html(
                    &ChromeContext { pending_count: Some(active@.len() as u32), ..*ctx },
                    active@,
                    history@,
                    users@,
                    now,
                ),
            ),
        ),
{
    if a.active == Asked::Answer(active) && a.history == Asked::Answer(history) && a.users
        is NotYet {
        let names = |row: TransitionRow|
            row.target_user_id == Some(id) || row.initiator_user_id == Some(id)
                || row.resolved_by_user_id == Some(id);
        assert(forall|row: TransitionRow| #[trigger] pending::mentions(row, id) <==> names(row));
        assert(next->Ask_0->Users_0.contains(id) <==> pending::mentioned_in(active@, id)
            || pending::mentioned_in(history@, id));
        if pending::mentioned_in(active@, id) {
            let k = choose|k: int|
                0 <= k < active@.len() && pending::mentions(#[trigger] active@[k], id);
            assert(names(active@[k]));
        }
        if pending::mentioned_in(history@, id) {
            let k = choose|k: int|
                0 <= k < history@.len() && pending::mentions(#[trigger] history@[k], id);
            assert(names(history@[k]));
        }
        if exists|k: int| 0 <= k < active@.len() && names(#[trigger] active@[k]) {
            let k = choose|k: int| 0 <= k < active@.len() && names(#[trigger] active@[k]);
            assert(pending::mentions(active@[k], id));
        }
        if exists|k: int| 0 <= k < history@.len() && names(#[trigger] history@[k]) {
            let k = choose|k: int| 0 <= k < history@.len() && names(#[trigger] history@[k]);
            assert(pending::mentions(history@[k], id));
        }
    }
    let n = active@.len() as int;
    assert(0 <= n <= u32::MAX ==> n % 0x1_0000_0000 == n) by (nonlinear_arith);
}

/// A veto is of the transition that was picked, in the name of the confirmed owner, who is sent back
/// to the page and told how it went.
pub proof fn law_veto_runs(c: &Caller, id: Uuid, o: Option<VetoOutcome>)
    requires
        outcome::confirmed(c),
        outcome::owner(c.role),
    ensures
        ({
            let s = pending::veto_step(c, id, o);
            &&& o is None ==> s == step::StepView::<Veto>::Ask(Veto { id, by: c.user_id })
            &&& o == Some(VetoOutcome::Vetoed) ==> s is Finish && outcome::leads_to(
                s->Finish_0.reply,
                "/pending"@,
                c.htmx,
            ) && outcome::ends_with(s, reply::moved_after("/pending"@, c.htmx, "vetoed"@, None))
            &&& o == Some(VetoOutcome::NotOwner) ==> s is Finish && outcome::has_status(
                s->Finish_0.reply,
                403,
            )
            &&& o == Some(VetoOutcome::NotFound) ==> outcome::ends_with(
                s,
                reply::moved_failing("/pending"@, c.htmx, "transition_not_found"@),
            )
            &&& o == Some(VetoOutcome::NotPending) ==> outcome::ends_with(
                s,
                reply::moved_failing("/pending"@, c.htmx, "not_pending"@),
            )
            &&& o == Some(VetoOutcome::Failed) ==> s is Finish && outcome::has_status(
                s->Finish_0.reply,
                500,
            )
        }),
{
}

/// The dialog of a veto looks the transition up, then the account that it targets, and calls both
/// by their names.
pub proof fn law_veto_dialog_runs(
    ctx: &ChromeContext,
    id: Uuid,
    found: Asked<Option<TransitionRow>>,
    name: Option<Option<String>>,
    row: TransitionRow,
    target: Uuid,
    called: String,
)
    requires
        outcome::owner(ctx.user.instance_role),
    ensures
        ({
            let s = pending::veto_modal_step(ctx, id, found, name);
            let dialog = |who: Seq<char>|
                outcome::ends_with(
                    s,
                    reply::ok_page(
                        rows::veto_pending_dialog_html(
                            id,
                            who,
                            rows::action_label_of(row.kind),
                            ctx.csrf_token@,
                        ),
                    ),
                );
            &&& found is NotYet ==> s == step::StepView::<DialogAsk>::Ask(
                DialogAsk::Transition(id),
            )
            &&& found == Asked::Answer(None::<TransitionRow>) ==> s is Finish
                && outcome::has_status(s->Finish_0.reply, 404)
            &&& found == Asked::Answer(Some(row)) ==> {
                &&& row.target_user_id == Some(target) && name is None ==> s == step::StepView::<
                    DialogAsk,
                >::Ask(DialogAsk::TargetName(target))
                &&& row.target_user_id == Some(target) && name == Some(Some(called)) ==> dialog(
                    called@,
                )
                &&& row.target_user_id == Some(target) && name == Some(None::<String>) ==> dialog(
                    "(unknown member)"@,
                )
                &&& row.target_user_id is None ==> dialog("(unknown member)"@)
            }
        }),
{
}

/// Forcing a transition through asks whether the recovery code is right, as it was entered, and only
/// then applies the transition that was picked, in the name of the owner. A wrong code brings the
/// form back with the names of the same transition.
pub proof fn law_force_runs(
    c: &Caller,
    ctx: &ChromeContext,
    id: Uuid,
    form: &ForceApplyForm,
    a: &ForceAnswers,
    l: Labels,
)
    requires
        c.csrf_ok,
        outcome::owner(c.role),
    ensures
        ({
            let s = pending::force_step(c, ctx, id, form, a);
            &&& a.code_ok is NotYet ==> s == step::StepView::<ForceAskView>::Ask(
                ForceAskView::RecoveryCode(form.recovery_code@),
            )
            &&& a.code_ok == Asked::Answer(false) && a.labels is None ==> s == step::StepView::<
                ForceAskView,
            >::Ask(ForceAskView::Labels(id))
            &&& a.code_ok == Asked::Answer(false) && a.labels == Some(l) ==> outcome::ends_with(
                s,
                reply::ok_page(
                    rows::force_apply_form_html(
                        id,
                        l.target_name@,
                        l.action@,
                        ctx.csrf_token@,
                        Some("That server recovery code is not valid."@),
                    ),
                ),
            )
            &&& a.code_ok == Asked::Answer(true) ==> {
                &&& a.outcome is None ==> s == step::StepView::<ForceAskView>::Ask(
                    ForceAskView::Apply { id, by: c.user_id },
                )
                &&& a.outcome == Some(ForceOutcome::Applied) ==> s is Finish && outcome::leads_to(
                    s->Finish_0.reply,
                    "/pending"@,
                    c.htmx,
                ) && outcome::tells(
                    s->Finish_0.reply,
                    c.htmx,
                    ToastKind::Info,
                    "Applied"@,
                    "The pending action was forced through with the recovery code."@,
                )
                &&& a.outcome == Some(ForceOutcome::NotFound) ==> outcome::ends_with(
                    s,
                    reply::moved_failing("/pending"@, c.htmx, "transition_not_found"@),
                )
                &&& a.outcome == Some(ForceOutcome::NotPending) ==> outcome::ends_with(
                    s,
                    reply::moved_failing("/pending"@, c.htmx, "not_pending"@),
                )
                &&& a.outcome == Some(ForceOutcome::Failed) ==> s is Finish && outcome::has_status(
                    s->Finish_0.reply,
                    500,
                )
            }
        }),
{
}

/// The dialog that forces a transition through is for one that still waits.
pub proof fn law_force_dialog_runs(
    ctx: &ChromeContext,
    id: Uuid,
    found: Asked<Option<TransitionRow>>,
    labels: Option<Labels>,
    row: TransitionRow,
    l: Labels,
)
    requires
        outcome::owner(ctx.user.instance_role),
    ensures
        ({
            let s = pending::force_modal_step(ctx, id, found, labels);
            &&& found is NotYet ==> s == step::StepView::<DialogAsk>::Ask(
                DialogAsk::Transition(id),
            )
            &&& found == Asked::Answer(None::<TransitionRow>) ==> s is Finish
                && outcome::has_status(s->Finish_0.reply, 404)
            &&& found == Asked::Answer(Some(row)) && row.state != TransitionState::Pending ==> s
                is Finish && outcome::has_status(s->Finish_0.reply, 404)
            &&& found == Asked::Answer(Some(row)) && row.state == TransitionState::Pending ==> {
                &&& labels is None ==> s == step::StepView::<DialogAsk>::Ask(
                    DialogAsk::Labels(id),
                )
                &&& labels == Some(l) ==> outcome::ends_with(
                    s,
                    reply::ok_page(
                        rows::force_apply_dialog_html(
                            id,
                            l.target_name@,
                            l.action@,
                            ctx.csrf_token@,
                        ),
                    ),
                )
            }
        }),
{
}

/// A transition is called by the name of its target and by what it does.
pub proof fn law_transition_is_called(row: TransitionRow, name: Seq<char>)
    ensures
        row.target_user_id is Some ==> pending::labels_of(Some(row), Some(name)).target_name
            == name,
        row.target_user_id is None ==> pending::labels_of(Some(row), Some(name)).target_name
            == "(unknown member)"@,
        pending::labels_of(Some(row), None).target_name == "(unknown member)"@,
        pending::labels_of(Some(row), Some(name)).action == rows::action_label_of(row.kind),
        pending::labels_of(None, Some(name)).target_name == "(unknown member)"@,
        pending::labels_of(None, Some(name)).action == "action"@,
{
}

} // verus!
