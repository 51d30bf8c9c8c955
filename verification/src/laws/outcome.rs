//! What a browser makes of a reply.

use vstd::prelude::*;
use crate::flows::step;
use crate::model::InstanceRole;
use crate::gate::Caller;
use crate::reply;
use crate::text;
use crate::toast;
use crate::toast::ToastKind;

verus! {

/// Whether a reply sends the browser to an address: by a header where HTMX asked, by a redirect
/// otherwise.
pub open spec fn leads_to(r: reply::ReplyView, url: Seq<char>, htmx: bool) -> bool {
    if htmx {
        &&& r.content == (reply::ContentView::Text { status: 200, text: ""@ })
        &&& r.hx_redirect == (if reply::header_text(url) {
            Some(url)
        } else {
            None
        })
    } else {
        &&& r.content == (reply::ContentView::Redirect { to: url })
        &&& r.hx_redirect is None
    }
}

/// Whether a reply makes the page show a toast, which only a browser under HTMX can.
pub open spec fn tells(
    r: reply::ReplyView,
    htmx: bool,
    kind: ToastKind,
    title: Seq<char>,
    message: Seq<char>,
) -> bool {
    let event = toast::toast_event(toast::ToastText { kind, title, message });
    r.hx_trigger == (if htmx && reply::header_text(event) {
        Some(event)
    } else {
        None
    })
}

/// Whether a reply is a whole page, or a fragment of one, with nothing else to it.
pub open spec fn is_page(r: reply::ReplyView, status: u16, html: Seq<char>) -> bool {
    &&& r.content == (reply::ContentView::Page { status, html })
    &&& r.hx_redirect is None
    &&& r.hx_trigger is None
    &&& r.hx_retarget is None
    &&& r.cookies.len() == 0
}

/// Whether a reply is a page with this status.
pub open spec fn has_status(r: reply::ReplyView, status: u16) -> bool {
    r.content is Page && r.content->Page_status == status
}

/// Whether a step ends a request with this reply and leaves no trace beside it.
pub open spec fn ends_with<Q>(s: step::StepView<Q>, r: reply::ReplyView) -> bool {
    s == step::StepView::<Q>::Finish(
        step::FinishView { record_failure: None, audit: None, reply: r },
    )
}

/// Whether the form of a caller may be acted on: it came with the token of their session, and
/// they have just confirmed who they are.
pub open spec fn confirmed(c: &Caller) -> bool {
    c.csrf_ok && c.sudo == Some(c.user_id)
}

pub open spec fn owner(role: InstanceRole) -> bool {
    role == InstanceRole::Owner
}

pub open spec fn admin(role: InstanceRole) -> bool {
    role == InstanceRole::Owner || role == InstanceRole::Admin
}

/// The end of a `Set-Cookie` value: only over HTTPS where the instance is served so.
pub open spec fn cookie_end(secure: bool) -> Seq<char> {
    if secure {
        "; Secure"@
    } else {
        Seq::empty()
    }
}

/// The `Set-Cookie` value that signs a browser in until it closes.
pub open spec fn signs_in(token: Seq<char>, secure: bool) -> Seq<char> {
    "hearth_session"@ + "="@ + token + "; Path=/; HttpOnly; SameSite=Lax"@ + cookie_end(secure)
}

/// The `Set-Cookie` value that drops a cookie.
pub open spec fn drops(name: Seq<char>, secure: bool) -> Seq<char> {
    name + "=; Path=/; Max-Age=0; HttpOnly; SameSite=Lax"@ + cookie_end(secure)
}

/// The `Set-Cookie` value of a cookie that lasts so many seconds.
pub open spec fn lasts(name: Seq<char>, token: Seq<char>, seconds: nat, secure: bool) -> Seq<char> {
    name + "="@ + token + "; Path=/; Max-Age="@ + text::decimal(seconds)
        + "; HttpOnly; SameSite=Lax"@ + cookie_end(secure)
}

/// Whether a reply sets this one cookie, if it can stand in a header, and no other.
pub open spec fn sets_only(r: reply::ReplyView, cookie: Seq<char>) -> bool {
    r.cookies == (if reply::header_text(cookie) {
        seq![cookie]
    } else {
        Seq::empty()
    })
}

} // verus!
