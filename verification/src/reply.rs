//! What a request is answered with.

use vstd::prelude::*;
use crate::cookies;
use crate::html;
use crate::html::{Markup, Template};
use crate::json;
use crate::model::Uuid;
use crate::text;
use crate::toast;
use crate::toast::Toast;
use crate::views::shell;
use crate::views::shell::SiteInfo;

verus! {

// ---- Header values ---------------------------------------------------------------------------

/// A character a header value may hold: the tab and everything from the space on but DEL.
pub open spec fn header_char(c: char) -> bool {
    c == '\t' || (c >= ' ' && c != '\u{7f}')
}

/// A text that can stand as a header value.
pub open spec fn header_text(s: Seq<char>) -> bool {
    forall|i: int| 0 <= i < s.len() ==> header_char(#[trigger] s[i])
}

/// Calls `axum::http::HeaderValue::from_str` and tells whether it accepted the text: it does
/// where every byte is the tab or at least 32 and not 127. The bytes of a character beyond ASCII
/// are all at least 128.
#[verifier::external_body]
fn is_header_value(value: &str) -> (r: bool)
    ensures
        r == header_text(value@),
{
    axum::http::HeaderValue::from_str(value).is_ok()
}

// ---- Replies ---------------------------------------------------------------------------------

/// The body of a reply with its status.
pub enum Content {
    /// A page, or a fragment of one.
    Page { status: u16, html: Markup },
    Text { status: u16, text: String },
    Json { json: String },
    Empty { status: u16 },
    /// See another address.
    Redirect { to: String },
}

/// The content of a reply, with its texts as sequences.
pub enum ContentView {
    Page { status: u16, html: Seq<char> },
    Text { status: u16, text: Seq<char> },
    Json { json: Seq<char> },
    Empty { status: u16 },
    Redirect { to: Seq<char> },
}

impl View for Content {
    type V = ContentView;

    open spec fn view(&self) -> ContentView {
        match *self {
            Content::Page { status, html } => ContentView::Page { status, html: html@ },
            Content::Text { status, text } => ContentView::Text { status, text: text@ },
            Content::Json { json } => ContentView::Json { json: json@ },
            Content::Empty { status } => ContentView::Empty { status },
            Content::Redirect { to } => ContentView::Redirect { to: to@ },
        }
    }
}

/// A reply: its content and the headers the UI sets.
pub struct Reply {
    pub content: Content,
    /// `HX-Redirect`: where the browser goes next.
    pub hx_redirect: Option<String>,
    /// `HX-Trigger`: the events the browser fires.
    pub hx_trigger: Option<String>,
    /// `HX-Retarget`: the element the body is swapped into.
    pub hx_retarget: Option<String>,
    /// The `Set-Cookie` headers.
    pub cookies: Vec<String>,
}

pub struct ReplyView {
    pub content: ContentView,
    pub hx_redirect: Option<Seq<char>>,
    pub hx_trigger: Option<Seq<char>>,
    pub hx_retarget: Option<Seq<char>>,
    pub cookies: Seq<Seq<char>>,
}

impl View for Reply {
    type V = ReplyView;

    open spec fn view(&self) -> ReplyView {
        ReplyView {
            content: self.content@,
            hx_redirect: text::opt_string(self.hx_redirect),
            hx_trigger: text::opt_string(self.hx_trigger),
            hx_retarget: text::opt_string(self.hx_retarget),
            cookies: self.cookies@.map_values(|c: String| c@),
        }
    }
}

/// A reply without headers.
pub open spec fn plain(content: ContentView) -> ReplyView {
    ReplyView {
        content,
        hx_redirect: None,
        hx_trigger: None,
        hx_retarget: None,
        cookies: Seq::empty(),
    }
}

/// A page, or a fragment, that is sent with status 200.
pub open spec fn ok_page(html: Seq<char>) -> ReplyView {
    plain(ContentView::Page { status: 200, html })
}

pub open spec fn page_with(status: u16, html: Seq<char>) -> ReplyView {
    plain(ContentView::Page { status, html })
}

pub open spec fn text_with(status: u16, text: Seq<char>) -> ReplyView {
    plain(ContentView::Text { status, text })
}

/// A redirect that makes the browser fetch another page.
pub open spec fn see_other(to: Seq<char>) -> ReplyView {
    plain(ContentView::Redirect { to })
}

/// The page that reports a failure.
pub open spec fn failure(site: &SiteInfo, status: u16, message: Seq<char>) -> ReplyView {
    page_with(status, shell::error_page_html(site, status, message))
}

/// The page that reports a failure nobody but the operator can do something about.
pub open spec fn internal_failure(site: &SiteInfo) -> ReplyView {
    failure(site, 500, "Internal error"@)
}

impl ReplyView {
    /// The reply with this cookie as its only one; a value that cannot stand in a header is
    /// dropped.
    pub open spec fn only_cookie(self, value: Seq<char>) -> ReplyView {
        if header_text(value) {
            ReplyView { cookies: seq![value], ..self }
        } else {
            self
        }
    }

    /// The reply with one more cookie; a value that cannot stand in a header is dropped.
    pub open spec fn with_cookie(self, value: Seq<char>) -> ReplyView {
        if header_text(value) {
            ReplyView { cookies: self.cookies.push(value), ..self }
        } else {
            self
        }
    }

    /// The reply that fires an event; a value that cannot stand in a header is dropped.
    pub open spec fn triggering(self, value: Seq<char>) -> ReplyView {
        if header_text(value) {
            ReplyView { hx_trigger: Some(value), ..self }
        } else {
            self
        }
    }

    /// The reply that shows a toast, if there is one to show. A plain redirect shows none: a
    /// browser that HTMX does not drive never sees the event.
    pub open spec fn toasting(self, t: Option<toast::ToastText>) -> ReplyView {
        match t {
            Some(t) => if self.content is Redirect {
                self
            } else {
                self.triggering(toast::toast_event(t))
            },
            None => self,
        }
    }
}

impl Reply {
    fn plain(content: Content) -> (r: Reply)
        ensures
            r@ == plain(content@),
    {
        let r = Reply {
            content,
            hx_redirect: None,
            hx_trigger: None,
            hx_retarget: None,
            cookies: Vec::new(),
        };
        assert(r@.cookies =~= Seq::empty());
        r
    }

    /// A page, or a fragment, that is sent with status 200.
    pub fn ok_page(html: Markup) -> (r: Reply)
        ensures
            r@ == ok_page(html@),
    {
        Reply::plain(Content::Page { status: 200, html })
    }

    pub fn page(status: u16, html: Markup) -> (r: Reply)
        ensures
            r@ == page_with(status, html@),
    {
        Reply::plain(Content::Page { status, html })
    }

    pub fn text(status: u16, text: &str) -> (r: Reply)
        ensures
            r@ == text_with(status, text@),
    {
        Reply::plain(Content::Text { status, text: text.to_owned() })
    }

    pub fn see_other(to: &str) -> (r: Reply)
        ensures
            r@ == see_other(to@),
    {
        Reply::plain(Content::Redirect { to: to.to_owned() })
    }

    /// An empty body.
    pub fn empty(status: u16) -> (r: Reply)
        ensures
            r@ == plain(ContentView::Empty { status }),
    {
        Reply::plain(Content::Empty { status })
    }

    pub fn internal_failure(site: &SiteInfo) -> (r: Reply)
        ensures
            r@ == internal_failure(site),
    {
        error_response(site, 500, "Internal error")
    }

    /// Fires an event in the browser.
    pub fn triggering(self, value: &str) -> (r: Reply)
        ensures
            r@ == self@.triggering(value@),
    {
        if is_header_value(value) {
            Reply { hx_trigger: Some(value.to_owned()), ..self }
        } else {
            self
        }
    }
}

/// Sends a page that reports a failure.
pub fn error_response(site: &SiteInfo, status: u16, message: &str) -> (r: Reply)
    ensures
        r@ == failure(site, status, message@),
{
    Reply::page(status, shell::error_page(site, status, message))
}

/// Sets a cookie in place of those set before.
pub fn set_cookie_header(reply: Reply, value: &str) -> (r: Reply)
    ensures
        r@ == reply@.only_cookie(value@),
{
    if is_header_value(value) {
        let mut cookies: Vec<String> = Vec::new();
        cookies.push(value.to_owned());
        let r = Reply { cookies, ..reply };
        assert(r@.cookies =~= seq![value@]);
        r
    } else {
        reply
    }
}

/// Sets one more cookie.
pub fn append_cookie_header(reply: Reply, value: &str) -> (r: Reply)
    ensures
        r@ == reply@.with_cookie(value@),
{
    if is_header_value(value) {
        let ghost before = reply@.cookies;
        let mut cookies = reply.cookies;
        cookies.push(value.to_owned());
        let r = Reply { cookies, ..reply };
        assert(r@.cookies =~= before.push(value@));
        r
    } else {
        reply
    }
}

/// Shows a toast once the page the browser goes to has loaded. A plain redirect, which answers a
/// request that HTMX did not send, is left as it is.
pub fn with_toast(reply: Reply, toast: Option<Toast>) -> (r: Reply)
    ensures
        r@ == reply@.toasting(
            match toast {
                Some(t) => Some(t@),
                None => None,
            },
        ),
{
    match (&reply.content, toast) {
        (Content::Redirect { .. }, _) => reply,
        (_, Some(t)) => {
            let event = toast::toast_trigger(&t);
            reply.triggering(event.as_str())
        },
        (_, None) => reply,
    }
}

/// Sends the browser to `url`: an empty reply that names the address where HTMX asked, a
/// redirect otherwise. An address that cannot stand in a header is left out of the former.
pub open spec fn moved(url: Seq<char>, htmx: bool) -> ReplyView {
    if htmx {
        if header_text(url) {
            ReplyView {
                hx_redirect: Some(url),
                ..plain(ContentView::Text { status: 200, text: ""@ })
            }
        } else {
            plain(ContentView::Text { status: 200, text: ""@ })
        }
    } else {
        see_other(url)
    }
}

pub fn redirect_or_hx_redirect(url: &str, htmx: bool) -> (r: Reply)
    ensures
        r@ == moved(url@, htmx),
{
    if htmx {
        let r = Reply::text(200, "");
        if is_header_value(url) {
            Reply { hx_redirect: Some(url.to_owned()), ..r }
        } else {
            r
        }
    } else {
        Reply::see_other(url)
    }
}

/// Sends the browser to `url`, where it reports a finished action if HTMX asked.
pub open spec fn moved_after(url: Seq<char>, htmx: bool, action: Seq<char>, target: Option<Seq<char>>) -> ReplyView {
    moved(url, htmx).toasting(toast::action_toast(action, toast::target_name(target)))
}

pub fn redirect_with_action_toast(url: &str, htmx: bool, action: &str, target: Option<&str>) -> (r: Reply)
    ensures
        r@ == moved_after(url@, htmx, action@, text::opt(target)),
{
    with_toast(redirect_or_hx_redirect(url, htmx), toast::toast_for_action(action, target))
}

/// Sends the browser to `url`, where it reports a failed action if HTMX asked.
pub open spec fn moved_failing(url: Seq<char>, htmx: bool, code: Seq<char>) -> ReplyView {
    moved(url, htmx).toasting(Some(toast::error_toast(code)))
}

pub fn redirect_with_error_toast(url: &str, htmx: bool, error_code: &str) -> (r: Reply)
    ensures
        r@ == moved_failing(url@, htmx, error_code@),
{
    with_toast(redirect_or_hx_redirect(url, htmx), Some(toast::toast_for_error(error_code)))
}

/// Sends the browser to its own account page with a toast, if there is one to show. Here the event
/// goes out on a plain redirect too.
pub open spec fn back_to_me(htmx: bool, t: Option<toast::ToastText>) -> ReplyView {
    match t {
        Some(t) => moved("/me"@, htmx).triggering(toast::toast_event(t)),
        None => moved("/me"@, htmx),
    }
}

fn redirect_to_me(htmx: bool, toast: Option<Toast>) -> (r: Reply)
    ensures
        r@ == back_to_me(
            htmx,
            match toast {
                Some(t) => Some(t@),
                None => None,
            },
        ),
{
    let reply = redirect_or_hx_redirect("/me", htmx);
    match toast {
        Some(t) => {
            let event = toast::toast_trigger(&t);
            reply.triggering(event.as_str())
        },
        None => reply,
    }
}

/// Sends the browser to its own account page, where it reports a finished action.
pub open spec fn me_after(htmx: bool, action: Seq<char>) -> ReplyView {
    back_to_me(htmx, toast::action_toast(action, toast::target_name(None)))
}

pub fn redirect_to_me_with_action(htmx: bool, action: &str) -> (r: Reply)
    ensures
        r@ == me_after(htmx, action@),
{
    redirect_to_me(htmx, toast::toast_for_action(action, None))
}

/// Sends the browser to its own account page, where it reports a failed action.
pub open spec fn me_failing(htmx: bool, code: Seq<char>) -> ReplyView {
    back_to_me(htmx, Some(toast::error_toast(code)))
}

pub fn redirect_to_me_with_error(htmx: bool, error_code: &str) -> (r: Reply)
    ensures
        r@ == me_failing(htmx, error_code@),
{
    redirect_to_me(htmx, Some(toast::toast_for_error(error_code)))
}

/// A change to one's own account is reported the same whether or not HTMX asked: a toast that fits
/// into a header is on the way to the account page in either case.
pub proof fn law_own_account_is_told_either_way(htmx: bool, t: toast::ToastText)
    ensures
        back_to_me(htmx, Some(t)).hx_trigger == (if header_text(toast::toast_event(t)) {
            Some(toast::toast_event(t))
        } else {
            None
        }),
        back_to_me(htmx, Some(t)).content == moved("/me"@, htmx).content,
        back_to_me(htmx, Some(t)).hx_redirect == moved("/me"@, htmx).hx_redirect,
{
}

/// Away from one's own account, a request that HTMX did not send is answered by a plain redirect
/// with no toast on it, however the action ended.
pub proof fn law_plain_redirects_carry_no_toast(
    url: Seq<char>,
    action: Seq<char>,
    target: Option<Seq<char>>,
    code: Seq<char>,
    t: Option<toast::ToastText>,
)
    ensures
        moved_after(url, false, action, target) == moved(url, false),
        moved_failing(url, false, code) == moved(url, false),
        moved(url, false).toasting(t) == moved(url, false),
        moved(url, false).hx_trigger is None,
{
}

// ---- What fits into a header -----------------------------------------------------------------

proof fn lemma_joined_fits(a: Seq<char>, b: Seq<char>)
    requires
        header_text(a),
        header_text(b),
    ensures
        header_text(a + b),
{
}

proof fn lemma_filled_fits(f: html::Filling, x: Seq<char>)
    requires
        header_text(f.done),
        header_text(f.rest),
        header_text(x),
    ensures
        header_text(f.html(x).done),
        header_text(f.html(x).rest),
{
    reveal(html::Filling::html);
    let i = text::find_char(f.rest, html::HOLE);
    text::lemma_find_char(f.rest, html::HOLE);
    lemma_joined_fits(f.done, f.rest.take(i));
    lemma_joined_fits(f.done + f.rest.take(i), x);
}

/// A toast always reaches the browser, unless DEL stands in it: whatever else a name or a message
/// holds, the event fits into a header.
pub proof fn law_toasts_fit_headers(t: toast::ToastText)
    requires
        !json::has_delete(t.title),
        !json::has_delete(t.message),
    ensures
        header_text(toast::toast_event(t)),
{
    json::law_quoted_has_no_controls(t.title);
    json::law_quoted_has_no_controls(t.message);
    lemma_quoted_fits(t.title);
    lemma_quoted_fits(t.message);
    reveal_strlit("success");
    reveal_strlit("info");
    reveal_strlit("error");
    reveal_strlit("{\"hearth-toast\":{\"kind\":\"¤\",\"message\":¤,\"title\":¤}}");
    assert(header_text(toast::kind_token(t.kind)));
    assert(header_text(toast::TOAST_EVENT@));
    let f0 = html::template(toast::TOAST_EVENT@);
    assert(header_text(f0.done));
    lemma_filled_fits(f0, toast::kind_token(t.kind));
    let f1 = f0.html(toast::kind_token(t.kind));
    lemma_filled_fits(f1, json::quoted(t.message));
    let f2 = f1.html(json::quoted(t.message));
    lemma_filled_fits(f2, json::quoted(t.title));
    let f3 = f2.html(json::quoted(t.title));
    lemma_joined_fits(f3.done, f3.rest);
}

proof fn lemma_quoted_fits(s: Seq<char>)
    requires
        !json::has_delete(s),
    ensures
        header_text(json::quoted(s)),
{
    json::law_quoted_has_no_controls(s);
    let q = json::quoted(s);
    assert forall|i: int| 0 <= i < q.len() implies header_char(#[trigger] q[i]) by {
        assert(q[i] >= ' ');
        if json::is_delete(q[i]) {
            assert(json::has_delete(q));
        }
    }
}

/// The cookies of the UI always fit into a header where their name and token do, so none is
/// dropped.
pub proof fn law_cookies_fit_headers(name: Seq<char>, token: Seq<char>, ttl: nat, secure: bool)
    requires
        header_text(name),
        header_text(token),
    ensures
        header_text(cookies::session_cookie(name, token, secure)),
        header_text(cookies::timed_cookie(name, token, ttl, secure)),
        header_text(cookies::cleared_cookie(name, secure)),
{
    reveal_strlit("=");
    reveal_strlit("; Secure");
    reveal_strlit("; Path=/; HttpOnly; SameSite=Lax");
    reveal_strlit("; Path=/; Max-Age=");
    reveal_strlit("; HttpOnly; SameSite=Lax");
    reveal_strlit("=; Path=/; Max-Age=0; HttpOnly; SameSite=Lax");
    text::law_decimal_round_trip(ttl);
    assert(header_text(text::decimal(ttl))) by {
        assert forall|i: int| 0 <= i < text::decimal(ttl).len() implies header_char(#[trigger] text::decimal(ttl)[i]) by {
            assert(text::is_digit(text::decimal(ttl)[i]));
        }
    }
    let suffix = cookies::secure_suffix(secure);
    assert(header_text(suffix));
    let named = name + "="@ + token;
    lemma_joined_fits(name, "="@);
    lemma_joined_fits(name + "="@, token);
    assert(header_text("; Path=/; HttpOnly; SameSite=Lax"@));
    lemma_joined_fits(named, "; Path=/; HttpOnly; SameSite=Lax"@);
    lemma_joined_fits(named + "; Path=/; HttpOnly; SameSite=Lax"@, suffix);
    assert(header_text("; Path=/; Max-Age="@));
    lemma_joined_fits(named, "; Path=/; Max-Age="@);
    lemma_joined_fits(named + "; Path=/; Max-Age="@, text::decimal(ttl));
    assert(header_text("; HttpOnly; SameSite=Lax"@));
    lemma_joined_fits(
        named + "; Path=/; Max-Age="@ + text::decimal(ttl),
        "; HttpOnly; SameSite=Lax"@,
    );
    lemma_joined_fits(
        named + "; Path=/; Max-Age="@ + text::decimal(ttl) + "; HttpOnly; SameSite=Lax"@,
        suffix,
    );
    assert(header_text("=; Path=/; Max-Age=0; HttpOnly; SameSite=Lax"@));
    lemma_joined_fits(name, "=; Path=/; Max-Age=0; HttpOnly; SameSite=Lax"@);
    lemma_joined_fits(name + "=; Path=/; Max-Age=0; HttpOnly; SameSite=Lax"@, suffix);
}

// ---- Passkey ceremonies ----------------------------------------------------------------------

pub const CHALLENGE: &'static str = "{\"challenge_id\":\"¤\",\"options\":¤}";

/// What a browser needs to begin a passkey ceremony: the challenge and the options, which are
/// JSON already.
pub open spec fn challenge_json(challenge_id: Uuid, options: Seq<char>) -> Seq<char> {
    html::template(CHALLENGE@).uuid(challenge_id).html(options).done()
}

pub fn passkey_challenge(challenge_id: Uuid, options: &str) -> (r: Reply)
    ensures
        r@ == plain(ContentView::Json { json: challenge_json(challenge_id, options@) }),
{
    let json = Template::new(CHALLENGE).uuid(challenge_id).raw(options).done().into_string();
    Reply::plain(Content::Json { json })
}

} // verus!
