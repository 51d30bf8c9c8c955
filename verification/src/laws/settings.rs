//! The settings of an instance.

use vstd::prelude::*;
use crate::flows::settings;
use crate::flows::settings::{
    InstanceSettings, MailAnswers, MailAskView, RenameInstanceView, SendTestView, TestEmailOutcome,
};
use crate::flows::step;
use crate::flows::step::{Asked, Proceed};
use crate::forms::{SettingsIdentityForm, SettingsNotificationsForm};
use crate::gate::Caller;
use crate::laws::outcome;
use crate::text;
use crate::toast::ToastKind;
use crate::views;
use crate::views::shell::ChromeContext;

verus! {

/// A mail server is stored as it was entered, field by field: texts without the white space around
/// them, the port as a number, the password with every character it has.
pub proof fn law_mail_server_is_stored_as_entered(
    c: &Caller,
    form: &SettingsNotificationsForm,
    a: &MailAnswers,
)
    ensures
        settings::notifications_step(c, form, a) matches step::StepView::Ask(
            MailAskView::Store { mode, smtp },
        ) ==> {
            &&& mode == text::trimmed(form.mode@)
            &&& smtp matches Some(s) ==> {
                &&& s.host == text::trimmed(form.smtp_host@)
                &&& s.username == text::trimmed(form.smtp_username@)
                &&& s.from_email == text::trimmed(form.smtp_from_email@)
                &&& s.tls == text::trimmed(form.smtp_tls@)
                &&& text::u16_of(text::trimmed(form.smtp_port@)) is Some
                &&& s.port == text::u16_of(text::trimmed(form.smtp_port@))->0
                &&& s.from_name == (if text::trimmed(form.smtp_from_name@).len() > 0 {
                    Some(text::trimmed(form.smtp_from_name@))
                } else {
                    None
                })
                &&& s.password == (if form.smtp_password@.len() > 0 {
                    Some(form.smtp_password@)
                } else {
                    None
                })
            }
        },
{
}

/// Whether a form describes a mail server in full, its password aside.
pub open spec fn server_is_complete(form: &SettingsNotificationsForm) -> bool {
    let tls = text::trimmed(form.smtp_tls@);
    let port = text::u16_of(text::trimmed(form.smtp_port@));
    &&& text::trimmed(form.smtp_host@).len() > 0
    &&& text::trimmed(form.smtp_username@).len() > 0
    &&& text::trimmed(form.smtp_from_email@).len() > 0
    &&& tls == "starttls"@ || tls == "implicit"@ || tls == "none"@
    &&& port matches Some(p) && p > 0
}

/// How mail is delivered is stored for an owner who has just confirmed who they are: any of the
/// three modes; `smtp` only with a complete server and a password, new or stored.
pub proof fn law_delivery_is_stored(
    c: &Caller,
    form: &SettingsNotificationsForm,
    a: &MailAnswers,
)
    requires
        outcome::confirmed(c),
        outcome::owner(c.role),
    ensures
        ({
            let s = settings::notifications_step(c, form, a);
            let mode = text::trimmed(form.mode@);
            let entered = form.smtp_password@.len() > 0;
            &&& mode == "disabled"@ || mode == "log"@ ==> {
                &&& a.stored is NotYet ==> s == step::StepView::<MailAskView>::Ask(
                    MailAskView::Store { mode, smtp: None },
                )
                &&& a.stored is Answer ==> s is Finish && outcome::leads_to(
                    s->Finish_0.reply,
                    "/settings"@,
                    c.htmx,
                ) && outcome::tells(
                    s->Finish_0.reply,
                    c.htmx,
                    ToastKind::Success,
                    "Saved"@,
                    "Email settings updated."@,
                )
            }
            &&& mode == "smtp"@ && server_is_complete(form) ==> {
                &&& !entered && a.password_stored is None ==> s
                    == step::StepView::<MailAskView>::Ask(MailAskView::PasswordStored)
                &&& !entered && a.password_stored == Some(false) ==> is_refused(s, c)
                &&& (entered || a.password_stored == Some(true)) && a.stored is NotYet ==> s is Ask && s->Ask_0 is Store && s->Ask_0->smtp is Some
            }
            &&& mode == "smtp"@ && !server_is_complete(form) ==> is_refused(s, c)
            &&& mode != "smtp"@ && mode != "disabled"@ && mode != "log"@ ==> is_refused(s, c)
        }),
{
    reveal_strlit("smtp");
    reveal_strlit("disabled");
    reveal_strlit("log");
    assert("smtp"@.len() == 4 && "disabled"@.len() == 8 && "log"@.len() == 3);
}

/// Whether a form was not saved: back to the settings, with nothing stored.
pub open spec fn is_refused<Q>(s: step::StepView<Q>, c: &Caller) -> bool {
    s is Finish && outcome::leads_to(s->Finish_0.reply, "/settings"@, c.htmx)
        && s->Finish_0.audit is None
}

/// Nothing of the settings is changed or tried out but by an owner with the token of their
/// session; what others are told depends on nothing they entered.
pub proof fn law_settings_are_the_owners(
    c: &Caller,
    identity: &SettingsIdentityForm,
    stored: Asked<()>,
    mail: &SettingsNotificationsForm,
    a: &MailAnswers,
    to: Seq<char>,
    sent: Option<TestEmailOutcome>,
)
    requires
        !c.csrf_ok || !outcome::owner(c.role),
    ensures
        settings::identity_step(c, identity, stored) is Finish,
        outcome::has_status(settings::identity_step(c, identity, stored)->Finish_0.reply, 403),
        settings::notifications_step(c, mail, a) is Finish,
        outcome::has_status(settings::notifications_step(c, mail, a)->Finish_0.reply, 403),
        settings::test_email_step(c, to, sent) is Finish,
        outcome::has_status(settings::test_email_step(c, to, sent)->Finish_0.reply, 403),
{
}

/// The name of the instance is stored without the white space around it, or taken away where
/// nothing is left; one of more than 64 characters is refused.
pub proof fn law_instance_name(c: &Caller, form: &SettingsIdentityForm, stored: Asked<()>)
    requires
        c.csrf_ok,
        outcome::owner(c.role),
    ensures
        ({
            let s = settings::identity_step(c, form, stored);
            let name = text::trimmed(form.instance_name@);
            &&& name.len() > 64 ==> is_refused(s, c) && outcome::tells(
                s->Finish_0.reply,
                c.htmx,
                ToastKind::Error,
                "Couldn't save"@,
                "Instance name is too long (max 64 characters)."@,
            )
            &&& name.len() <= 64 ==> {
                &&& stored is NotYet ==> s == step::StepView::<RenameInstanceView>::Ask(
                    RenameInstanceView {
                        name: if name.len() == 0 {
                            None
                        } else {
                            Some(name)
                        },
                    },
                )
                &&& stored is Answer ==> s is Finish && outcome::leads_to(
                    s->Finish_0.reply,
                    "/settings"@,
                    c.htmx,
                ) && outcome::tells(
                    s->Finish_0.reply,
                    c.htmx,
                    ToastKind::Success,
                    "Saved"@,
                    "Instance name updated."@,
                )
                &&& stored is Failed ==> s is Finish && outcome::has_status(
                    s->Finish_0.reply,
                    500,
                )
            }
        }),
{
}

/// A test email goes to the owner's own address, and how it went is told with it: green where it
/// was sent, red with the reason where it was not.
pub proof fn law_test_email(c: &Caller, to: Seq<char>, why: String)
    requires
        c.csrf_ok,
        outcome::owner(c.role),
    ensures
        settings::test_email_step(c, to, None) == step::StepView::<SendTestView>::Ask(
            SendTestView { to },
        ),
        ({
            let sent = settings::test_email_step(c, to, Some(TestEmailOutcome::Sent));
            sent is Finish && outcome::tells(
                sent->Finish_0.reply,
                c.htmx,
                ToastKind::Success,
                "Test sent"@,
                "Sent a test email to "@ + to + "."@,
            )
        }),
        ({
            let off = settings::test_email_step(c, to, Some(TestEmailOutcome::Disabled));
            off is Finish && outcome::tells(
                off->Finish_0.reply,
                c.htmx,
                ToastKind::Info,
                "Notifications disabled"@,
                "Set the delivery mode to Log or SMTP, save, then try again."@,
            )
        }),
        ({
            let failed = settings::test_email_step(c, to, Some(TestEmailOutcome::Failed(why)));
            failed is Finish && outcome::tells(
                failed->Finish_0.reply,
                c.htmx,
                ToastKind::Error,
                "Couldn't save"@,
                "Test email failed: "@ + why@,
            )
        }),
{
}

/// The settings page is for owners, and shows the configuration as the store has it.
pub proof fn law_settings_are_shown(
    ctx: &ChromeContext,
    found: Asked<InstanceSettings>,
    s: InstanceSettings,
)
    ensures
        !outcome::owner(ctx.user.instance_role) ==> settings::settings_step(ctx, found) is Finish
            && outcome::has_status(settings::settings_step(ctx, found)->Finish_0.reply, 403),
        outcome::owner(ctx.user.instance_role) && found is NotYet ==> settings::settings_step(
            ctx,
            found,
        ) == step::StepView::<Proceed>::Ask(Proceed),
        outcome::owner(ctx.user.instance_role) && found == Asked::Answer(s)
            ==> settings::settings_step(ctx, found) is Finish && outcome::is_page(
            settings::settings_step(ctx, found)->Finish_0.reply,
            200,
            views::settings::settings_page_html(
                ctx,
                &s.notifications,
                s.smtp_password_set,
                match s.recovery_created_at {
                    Some(t) => Some(&t),
                    None => None,
                },
            ),
        ),
{
}

/// Closing the instance signs the owner out and leads away from it; only then.
pub proof fn law_closing_signs_out(c: &Caller, secure: bool, closed: Asked<()>)
    requires
        c.csrf_ok,
        outcome::owner(c.role),
        c.critical == Some(c.user_id),
    ensures
        ({
            let s = settings::shutdown_step(c, secure, closed);
            &&& closed is NotYet ==> s == step::StepView::<Proceed>::Ask(Proceed)
            &&& closed is Failed ==> s is Finish && outcome::has_status(s->Finish_0.reply, 500)
                && s->Finish_0.reply.cookies.len() == 0
            &&& closed is Answer ==> s is Finish && outcome::leads_to(
                s->Finish_0.reply,
                "/"@,
                c.htmx,
            ) && outcome::sets_only(s->Finish_0.reply, outcome::drops("hearth_session"@, secure))
        }),
{
}

} // verus!
