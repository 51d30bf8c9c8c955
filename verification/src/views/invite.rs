//! Inviting new members.

use vstd::prelude::*;
use crate::html;
use crate::html::{Markup, Template};
use crate::model;
use crate::model::{InstanceRole, Timestamp, Uuid};
use crate::text;
use crate::toast;
use crate::views::shell;
use crate::views::shell::{ChromeContext, PageId};
use crate::views::icons::{CHECK_CIRCLE_ICON, CLOSE_ICON, SHIELD_ICON, USER_PLUS_ICON};
use crate::views::scripts::INVITE_COPY_JS;

verus! {

pub const ERROR_BANNER: &'static str = "<div class=\"banner banner-error\" role=\"alert\">¤</div>";

/// The HTML of [`error_banner`].
pub open spec fn error_banner_html(error: Seq<char>) -> Seq<char> {
    let msg = toast::error_text(error);
    html::template(ERROR_BANNER@)
        .text(msg)
        .done()
}

/// A message inside a form, by its error code.
pub fn error_banner(error: &str) -> (m: Markup)
    ensures
        m@ == error_banner_html(error@),
{
    let msg = toast::error_banner_message(error);
    Template::new(ERROR_BANNER)
        .text(msg)
        .done()
}

/// A form and a toast say the same of an error.
pub proof fn law_one_wording_per_error(error: Seq<char>)
    ensures
        error_banner_html(error) == html::template(ERROR_BANNER@).text(
            toast::error_toast(error).message,
        ).done(),
{
}

pub const INVITE_FORM_FIELDS: &'static str = "\
    <div class=\"field\">\
      <label for=\"¤\">Email address</label>\
      <input type=\"email\" name=\"email\" id=\"¤\" value=\"¤\" autocomplete=\"email\" \
        required¤>\
    </div>\
    <input type=\"hidden\" name=\"role\" value=\"member\">¤";

/// The HTML of [`invite_form_fields`].
pub open spec fn invite_form_fields_html(
    csrf_token: Seq<char>,
    prefill_email: Seq<char>,
    autofocus_email: bool,
    id_prefix: Seq<char>,
) -> Seq<char> {
    html::template(INVITE_FORM_FIELDS@)
        .text("invite-email-"@ + id_prefix)
        .text("invite-email-"@ + id_prefix)
        .text(prefill_email)
        .when(autofocus_email, " autofocus"@)
        .html(shell::csrf_input_html(csrf_token))
        .done()
}

/// The fields of the invitation form.
fn invite_form_fields(
    csrf_token: &str,
    prefill_email: &str,
    autofocus_email: bool,
    id_prefix: &str,
) -> (m: Markup)
    ensures
        m@ == invite_form_fields_html(csrf_token@, prefill_email@, autofocus_email, id_prefix@),
{
    let email_id = text::join("invite-email-", id_prefix);
    Template::new(INVITE_FORM_FIELDS)
        .text(email_id.as_str())
        .text(email_id.as_str())
        .text(prefill_email)
        .when(autofocus_email, " autofocus")
        .html(&shell::csrf_input(csrf_token))
        .done()
}

pub const MEMBERS_INVITE_FORM_PAGE: &'static str = "\
    ¤\
    <div class=\"card invite-card\">\
      <form method=\"post\" action=\"/members/invite\" class=\"invite-form\">\
        <p class=\"invite-intro\">Sends a one-time acceptance link to the email below. \
          The link expires in 7 days. The invitee chooses a display name and password \
          when they accept.</p>¤\
        <div class=\"invite-form-actions\">\
          <a class=\"btn-secondary\" href=\"/members\">Cancel</a>\
          <button type=\"submit\" class=\"btn\">Send invitation</button>\
        </div>\
      </form>\
    </div>";

/// The HTML of [`members_invite_form_page`].
pub open spec fn members_invite_form_page_html(
    ctx: &ChromeContext,
    prefill_email: Seq<char>,
    error: Option<Seq<char>>,
) -> Seq<char> {
    let content = html::template(MEMBERS_INVITE_FORM_PAGE@)
        .html(match error {
            Some(code) => error_banner_html(code),
            None => Seq::empty(),
        })
        .html(invite_form_fields_html(ctx.csrf_token@, prefill_email, true, "page"@))
        .done();
    shell::shell_app_html(ctx, "Invite member"@, PageId::Members, content)
}

/// `GET /members/invite`: the invitation form, with what was typed before and what was wrong with it.
pub fn members_invite_form_page(
    ctx: &ChromeContext,
    prefill_email: &str,
    error: Option<&str>,
) -> (m: Markup)
    ensures
        m@ == members_invite_form_page_html(ctx, prefill_email@, text::opt(error)),
{
    let content = Template::new(MEMBERS_INVITE_FORM_PAGE)
        .html(&match error {
            Some(code) => error_banner(code),
            None => Markup::empty(),
        })
        .html(&invite_form_fields(ctx.csrf_token, prefill_email, true, "page"))
        .done();
    shell::shell_app(ctx, "Invite member", PageId::Members, &content)
}

pub const INVITE_MODAL_CONTENT_FORM: &'static str = "\
    <div class=\"dialog-header\">\
      <div class=\"dialog-icon dialog-icon-brand\">¤</div>\
      <button type=\"button\" class=\"dialog-close\" data-close-dialog \
        aria-label=\"Close\">¤</button>\
    </div>\
    <h2>Invite a member</h2>\
    <p class=\"dialog-description\">Add a member by email. They'll receive a one-time \
      link to set up their account. You can change their role after they accept.</p>¤\
    <form id=\"form-invite-modal\" method=\"post\" action=\"/members/invite\">¤\
      <div class=\"dialog-actions\">\
        <button type=\"button\" class=\"btn-secondary\" data-close-dialog>Cancel</button>\
        <button type=\"button\" class=\"btn\" data-reauth-confirm=\"form-invite-modal\" \
          data-keep-source>Send invitation</button>\
      </div>\
    </form>";

/// The HTML of [`invite_modal_content_form`].
pub open spec fn invite_modal_content_form_html(
    ctx: &ChromeContext,
    prefill_email: Seq<char>,
    error: Option<Seq<char>>,
) -> Seq<char> {
    html::template(INVITE_MODAL_CONTENT_FORM@)
        .html(USER_PLUS_ICON@)
        .html(CLOSE_ICON@)
        .html(match error {
            Some(code) => error_banner_html(code),
            None => Seq::empty(),
        })
        .html(invite_form_fields_html(ctx.csrf_token@, prefill_email, false, "modal"@))
        .done()
}

/// The invitation form inside its dialog.
pub fn invite_modal_content_form(
    ctx: &ChromeContext,
    prefill_email: &str,
    error: Option<&str>,
) -> (m: Markup)
    ensures
        m@ == invite_modal_content_form_html(ctx, prefill_email@, text::opt(error)),
{
    Template::new(INVITE_MODAL_CONTENT_FORM)
        .raw(USER_PLUS_ICON)
        .raw(CLOSE_ICON)
        .html(&match error {
            Some(code) => error_banner(code),
            None => Markup::empty(),
        })
        .html(&invite_form_fields(ctx.csrf_token, prefill_email, false, "modal"))
        .done()
}

pub const INVITE_MODAL: &'static str = "\
    <dialog id=\"dlg-invite\" class=\"action-dialog action-dialog-centered invite-dialog\">\
      <div id=\"invite-modal-content\">¤</div>\
    </dialog>";

/// The HTML of [`invite_modal`].
pub open spec fn invite_modal_html(ctx: &ChromeContext) -> Seq<char> {
    html::template(INVITE_MODAL@)
        .html(invite_modal_content_form_html(ctx, ""@, None))
        .done()
}

/// The invitation dialog.
pub fn invite_modal(ctx: &ChromeContext) -> (m: Markup)
    ensures
        m@ == invite_modal_html(ctx),
{
    Template::new(INVITE_MODAL)
        .html(&invite_modal_content_form(ctx, "", None))
        .done()
}

pub const INVITE_MODAL_CONTENT_SUCCESS: &'static str = "\
    <div class=\"dialog-header\">\
      <div class=\"dialog-icon dialog-icon-success\">¤</div>\
      <button type=\"button\" class=\"dialog-close\" data-close-dialog \
        aria-label=\"Close\">¤</button>\
    </div>\
    <h2>Invitation sent</h2>\
    <p class=\"dialog-description\">Sent to \
      <strong>¤</strong> as \
      <span class=\"¤\">¤</span>. Expires ¤.\
    </p>\
    <div class=\"invite-link-block\">\
      <p class=\"invite-link-label\">Save or share this acceptance link. \
        <strong>It is shown only once.</strong> A copy was also queued to the invitee's \
          email if notifications are enabled.\
      </p>\
      <div class=\"invite-link-row\">\
        <input type=\"text\" id=\"invite-url-modal\" class=\"invite-url-input\" value=\"¤\" \
          readonly>\
        <button type=\"button\" class=\"btn-secondary\" \
          data-copy-target=\"invite-url-modal\">Copy</button>\
      </div>\
    </div>\
    <div class=\"dialog-actions\">\
      <button type=\"button\" class=\"btn\" data-close-dialog>Close</button>\
    </div>";

/// The HTML of [`invite_modal_content_success`].
pub open spec fn invite_modal_content_success_html(
    invitee_email: Seq<char>,
    invited_role: InstanceRole,
    accept_url: Seq<char>,
    expires_at: &Timestamp,
) -> Seq<char> {
    html::template(INVITE_MODAL_CONTENT_SUCCESS@)
        .html(CHECK_CIRCLE_ICON@)
        .html(CLOSE_ICON@)
        .text(invitee_email)
        .text(shell::role_class_text(invited_role))
        .text(shell::role_label_text(invited_role))
        .date(expires_at@, model::SHORT_MINUTE@)
        .text(accept_url)
        .done()
}

/// Shows the acceptance link of a new invitation, once, inside the dialog.
pub fn invite_modal_content_success(
    invitee_email: &str,
    invited_role: InstanceRole,
    accept_url: &str,
    expires_at: &Timestamp,
) -> (m: Markup)
    ensures
        m@ == invite_modal_content_success_html(
            invitee_email@,
            invited_role,
            accept_url@,
            expires_at,
        ),
{
    Template::new(INVITE_MODAL_CONTENT_SUCCESS)
        .raw(CHECK_CIRCLE_ICON)
        .raw(CLOSE_ICON)
        .text(invitee_email)
        .text(shell::role_class(invited_role))
        .text(shell::role_label(invited_role))
        .date(expires_at, model::SHORT_MINUTE)
        .text(accept_url)
        .done()
}

pub const MEMBERS_INVITE_RESULT_PAGE: &'static str = "\
    <div class=\"card invite-result-card\">\
      <div class=\"invite-result-header\">\
        <h2>Invitation sent</h2>\
        <p class=\"invite-intro\">¤ · \
          <span class=\"¤\">¤</span> · expires ¤\
        </p>\
      </div>\
      <div class=\"invite-link-block\">\
        <p class=\"invite-link-label\">Save or share this acceptance link. \
          <strong>It is shown only once.</strong> A copy is also queued to the \
            invitee's email if notifications are enabled.\
        </p>\
        <div class=\"invite-link-row\">\
          <input type=\"text\" id=\"invite-url\" class=\"invite-url-input\" value=\"¤\" \
            readonly>\
          <button type=\"button\" class=\"btn-secondary\" \
            data-copy-target=\"invite-url\">Copy</button>\
        </div>\
      </div>\
      <div class=\"invite-form-actions\">\
        <a class=\"btn-secondary\" href=\"/members\">Done</a>\
      </div>\
    </div>\
    <script>¤</script>";

/// The HTML of [`members_invite_result_page`].
pub open spec fn members_invite_result_page_html(
    ctx: &ChromeContext,
    invitee_email: Seq<char>,
    invited_role: InstanceRole,
    accept_url: Seq<char>,
    expires_at: &Timestamp,
) -> Seq<char> {
    let content = html::template(MEMBERS_INVITE_RESULT_PAGE@)
        .text(invitee_email)
        .text(shell::role_class_text(invited_role))
        .text(shell::role_label_text(invited_role))
        .date(expires_at@, model::MINUTE@)
        .text(accept_url)
        .html(INVITE_COPY_JS@)
        .done();
    shell::shell_app_html(ctx, "Invitation sent"@, PageId::Members, content)
}

/// Shows the acceptance link of a new invitation, once, as a page.
pub fn members_invite_result_page(
    ctx: &ChromeContext,
    invitee_email: &str,
    invited_role: InstanceRole,
    accept_url: &str,
    expires_at: &Timestamp,
) -> (m: Markup)
    ensures
        m@ == members_invite_result_page_html(
            ctx,
            invitee_email@,
            invited_role,
            accept_url@,
            expires_at,
        ),
{
    let content = Template::new(MEMBERS_INVITE_RESULT_PAGE)
        .text(invitee_email)
        .text(shell::role_class(invited_role))
        .text(shell::role_label(invited_role))
        .date(expires_at, model::MINUTE)
        .text(accept_url)
        .raw(INVITE_COPY_JS)
        .done();
    shell::shell_app(ctx, "Invitation sent", PageId::Members, &content)
}

pub const REISSUE_INVITE_DIALOG: &'static str = "\
    <dialog id=\"dlg-reissue-invite-¤\" class=\"action-dialog action-dialog-centered\">\
      <form id=\"form-reissue-invite-¤\" method=\"post\" \
        action=\"/members/invitations/¤/reissue\">\
        <div class=\"dialog-header\">\
          <div class=\"dialog-icon dialog-icon-shield\">¤</div>\
          <button type=\"button\" class=\"dialog-close\" data-close-dialog \
            aria-label=\"Close\">¤</button>\
        </div>\
        <h2>Reissue invitation?</h2>\
        <p class=\"dialog-description\">A fresh acceptance URL will be generated for \
          <strong>¤</strong>. The previous URL stops working immediately. The new URL \
            is shown to you once (and emailed to the invitee if notifications are enabled).\
        </p>¤\
        <div class=\"dialog-actions\">\
          <button type=\"button\" class=\"btn-secondary\" data-close-dialog>Cancel</button>\
          <button type=\"button\" class=\"btn\" \
            data-reauth-confirm=\"form-reissue-invite-¤\">Reissue</button>\
        </div>\
      </form>\
    </dialog>";

/// The HTML of [`reissue_invite_dialog`].
pub open spec fn reissue_invite_dialog_html(
    id: Uuid,
    email: Seq<char>,
    csrf_token: Seq<char>,
) -> Seq<char> {
    html::template(REISSUE_INVITE_DIALOG@)
        .uuid(id)
        .uuid(id)
        .uuid(id)
        .html(SHIELD_ICON@)
        .html(CLOSE_ICON@)
        .text(email)
        .html(shell::csrf_input_html(csrf_token))
        .uuid(id)
        .done()
}

/// Asks whether to reissue an invitation.
pub fn reissue_invite_dialog(id: Uuid, email: &str, csrf_token: &str) -> (m: Markup)
    ensures
        m@ == reissue_invite_dialog_html(id, email@, csrf_token@),
{
    Template::new(REISSUE_INVITE_DIALOG)
        .uuid(id)
        .uuid(id)
        .uuid(id)
        .raw(SHIELD_ICON)
        .raw(CLOSE_ICON)
        .text(email)
        .html(&shell::csrf_input(csrf_token))
        .uuid(id)
        .done()
}

pub const REISSUE_MODAL_CONTENT_SUCCESS: &'static str = "\
    <div class=\"dialog-header\">\
      <div class=\"dialog-icon dialog-icon-success\">¤</div>\
      <button type=\"button\" class=\"dialog-close\" data-close-dialog \
        aria-label=\"Close\">¤</button>\
    </div>\
    <h2>Invitation reissued</h2>\
    <p class=\"dialog-description\">A new acceptance URL has been generated for \
      <strong>¤</strong> as \
      <span class=\"¤\">¤</span>. The previous URL no longer works. New URL expires ¤.\
    </p>\
    <div class=\"invite-link-block\">\
      <p class=\"invite-link-label\">Save or share this acceptance link. \
        <strong>It is shown only once.</strong> A copy was also queued to the invitee's \
          email if notifications are enabled.\
      </p>\
      <div class=\"invite-link-row\">\
        <input type=\"text\" id=\"invite-url-modal\" class=\"invite-url-input\" value=\"¤\" \
          readonly>\
        <button type=\"button\" class=\"btn-secondary\" \
          data-copy-target=\"invite-url-modal\">Copy</button>\
      </div>\
    </div>\
    <div class=\"dialog-actions\">\
      <button type=\"button\" class=\"btn\" data-close-dialog>Close</button>\
    </div>";

/// The HTML of [`reissue_modal_content_success`].
pub open spec fn reissue_modal_content_success_html(
    invitee_email: Seq<char>,
    invited_role: InstanceRole,
    accept_url: Seq<char>,
    expires_at: &Timestamp,
) -> Seq<char> {
    html::template(REISSUE_MODAL_CONTENT_SUCCESS@)
        .html(CHECK_CIRCLE_ICON@)
        .html(CLOSE_ICON@)
        .text(invitee_email)
        .text(shell::role_class_text(invited_role))
        .text(shell::role_label_text(invited_role))
        .date(expires_at@, model::SHORT_MINUTE@)
        .text(accept_url)
        .done()
}

/// Shows the acceptance link of a reissued invitation, once, inside the dialog.
pub fn reissue_modal_content_success(
    invitee_email: &str,
    invited_role: InstanceRole,
    accept_url: &str,
    expires_at: &Timestamp,
) -> (m: Markup)
    ensures
        m@ == reissue_modal_content_success_html(
            invitee_email@,
            invited_role,
            accept_url@,
            expires_at,
        ),
{
    Template::new(REISSUE_MODAL_CONTENT_SUCCESS)
        .raw(CHECK_CIRCLE_ICON)
        .raw(CLOSE_ICON)
        .text(invitee_email)
        .text(shell::role_class(invited_role))
        .text(shell::role_label(invited_role))
        .date(expires_at, model::SHORT_MINUTE)
        .text(accept_url)
        .done()
}

pub const REVOKE_INVITE_DIALOG: &'static str = "\
    <dialog id=\"dlg-revoke-invite-¤\" class=\"action-dialog action-dialog-centered\">\
      <form id=\"form-revoke-invite-¤\" method=\"post\" \
        action=\"/members/invitations/¤/revoke\">\
        <div class=\"dialog-header\">\
          <div class=\"dialog-icon dialog-icon-warning\">¤</div>\
          <button type=\"button\" class=\"dialog-close\" data-close-dialog \
            aria-label=\"Close\">¤</button>\
        </div>\
        <h2>Revoke invitation?</h2>\
        <p class=\"dialog-description\">The pending invitation for \
          <strong>¤</strong> will stop working. They won't be able to use the \
            acceptance link they received. You can send a new invitation any time.\
        </p>¤\
        <div class=\"dialog-actions\">\
          <button type=\"button\" class=\"btn-secondary\" data-close-dialog>Cancel</button>\
          <button type=\"button\" class=\"btn-danger\" \
            data-reauth-confirm=\"form-revoke-invite-¤\">Revoke invite</button>\
        </div>\
      </form>\
    </dialog>";

/// The HTML of [`revoke_invite_dialog`].
pub open spec fn revoke_invite_dialog_html(
    id: Uuid,
    email: Seq<char>,
    csrf_token: Seq<char>,
) -> Seq<char> {
    html::template(REVOKE_INVITE_DIALOG@)
        .uuid(id)
        .uuid(id)
        .uuid(id)
        .html(SHIELD_ICON@)
        .html(CLOSE_ICON@)
        .text(email)
        .html(shell::csrf_input_html(csrf_token))
        .uuid(id)
        .done()
}

/// Asks whether to revoke an invitation.
pub fn revoke_invite_dialog(id: Uuid, email: &str, csrf_token: &str) -> (m: Markup)
    ensures
        m@ == revoke_invite_dialog_html(id, email@, csrf_token@),
{
    Template::new(REVOKE_INVITE_DIALOG)
        .uuid(id)
        .uuid(id)
        .uuid(id)
        .raw(SHIELD_ICON)
        .raw(CLOSE_ICON)
        .text(email)
        .html(&shell::csrf_input(csrf_token))
        .uuid(id)
        .done()
}

} // verus!
