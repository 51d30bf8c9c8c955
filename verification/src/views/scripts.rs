//! The scripts the pages carry.

use vstd::prelude::*;

verus! {

pub const THEME_BOOT_JS: &'static str = r#"
(function() {
    try {
        var t = localStorage.getItem('sylva-theme');
        if (t === 'dark' || t === 'light') {
            document.documentElement.dataset.theme = t;
        }
    } catch (e) {}
})();
"#;

pub const THEME_SWITCH_JS: &'static str = r#"
(function() {
    var KEY = 'sylva-theme';
    var html = document.documentElement;

    function current() {
        var t = html.dataset.theme;
        return (t === 'dark' || t === 'light') ? t : 'auto';
    }

    function refresh() {
        var c = current();
        document.querySelectorAll('.user-card-theme-btn').forEach(function(btn) {
            var choice = btn.dataset.themeChoice;
            var on = (choice === c);
            btn.classList.toggle('user-card-theme-btn-active', on);
            btn.setAttribute('aria-pressed', on ? 'true' : 'false');
        });
    }

    document.addEventListener('click', function(e) {
        var btn = e.target.closest('.user-card-theme-btn');
        if (!btn) return;
        e.preventDefault();
        var choice = btn.dataset.themeChoice;
        try {
            if (choice === 'dark' || choice === 'light') {
                html.dataset.theme = choice;
                localStorage.setItem(KEY, choice);
            } else {
                delete html.dataset.theme;
                localStorage.removeItem(KEY);
            }
        } catch (err) {}
        refresh();
    });

    refresh();
})();
"#;

pub const SETTINGS_TABS_JS: &'static str = r#"
(function() {
    document.addEventListener('click', function(e) {
        var tab = e.target.closest('[data-settings-tab]');
        if (!tab) return;
        var dialog = tab.closest('.settings-dialog');
        if (!dialog) return;
        var name = tab.getAttribute('data-settings-tab');
        dialog.querySelectorAll('[data-settings-tab]').forEach(function(t) {
            var on = t.getAttribute('data-settings-tab') === name;
            t.classList.toggle('settings-tab-active', on);
            t.setAttribute('aria-selected', on ? 'true' : 'false');
        });
        dialog.querySelectorAll('[data-settings-panel]').forEach(function(p) {
            var on = p.getAttribute('data-settings-panel') === name;
            p.classList.toggle('settings-panel-active', on);
        });
    });
})();
"#;

pub const CHANGE_PASSWORD_GATE_JS: &'static str = r#"
(function() {
    document.addEventListener('input', function(e) {
        var field = e.target.closest('[data-pw-gate]');
        if (!field) return;
        var btn = document.querySelector(
            '[data-reauth-confirm="' + field.getAttribute('data-pw-gate') + '"]'
        );
        if (btn) btn.disabled = field.value.length < 8;
    });

    document.addEventListener('click', function(e) {
        var btn = e.target.closest('[data-pw-toggle]');
        if (!btn) return;
        e.preventDefault();
        var input = document.getElementById(btn.getAttribute('data-pw-toggle'));
        if (!input) return;
        var reveal = input.type === 'password';
        input.type = reveal ? 'text' : 'password';
        btn.classList.toggle('is-showing', reveal);
        btn.setAttribute('aria-label', reveal ? 'Hide password' : 'Show password');
    });
})();
"#;

pub const WEBAUTHN_JS: &'static str = r#"
(function() {
    if (window.__sylvaWebauthnLoaded) return;
    window.__sylvaWebauthnLoaded = true;

    function b64urlToBuf(s) {
        s = s.replace(/-/g, '+').replace(/_/g, '/');
        var pad = s.length % 4; if (pad) s += '='.repeat(4 - pad);
        var bin = atob(s); var buf = new Uint8Array(bin.length);
        for (var i = 0; i < bin.length; i++) buf[i] = bin.charCodeAt(i);
        return buf.buffer;
    }
    function bufToB64url(buf) {
        var bytes = new Uint8Array(buf); var bin = '';
        for (var i = 0; i < bytes.length; i++) bin += String.fromCharCode(bytes[i]);
        return btoa(bin).replace(/\+/g, '-').replace(/\//g, '_').replace(/=+$/, '');
    }
    function showError(scope, msg) {
        var el = scope.querySelector('#passkey-error');
        if (el) { el.textContent = msg; el.hidden = false; }
    }
    function supported() {
        return !!(window.PublicKeyCredential && navigator.credentials);
    }

    // On a browser without WebAuthn, hide the sign-in passkey buttons so
    // we don't offer something that can't work (the handlers still guard).
    if (!supported()) {
        document.querySelectorAll('[data-passkey-auth]').forEach(function(b) {
            b.hidden = true;
        });
    }

    // Enrollment: navigator.credentials.create
    document.addEventListener('click', function(e) {
        var btn = e.target.closest('[data-passkey-create]');
        if (!btn) return;
        e.preventDefault();
        var form = btn.closest('form');
        var optsEl = document.getElementById('passkey-options');
        if (!form || !optsEl) return;
        if (!supported()) { showError(form, 'This browser does not support passkeys.'); return; }

        var opts;
        try { opts = JSON.parse(optsEl.textContent).publicKey; }
        catch (_) { showError(form, 'Could not start passkey setup.'); return; }
        opts.challenge = b64urlToBuf(opts.challenge);
        if (opts.user && opts.user.id) opts.user.id = b64urlToBuf(opts.user.id);
        if (Array.isArray(opts.excludeCredentials)) {
            opts.excludeCredentials.forEach(function(c) { c.id = b64urlToBuf(c.id); });
        }

        btn.disabled = true;
        navigator.credentials.create({ publicKey: opts }).then(function(cred) {
            var out = {
                id: cred.id,
                rawId: bufToB64url(cred.rawId),
                type: cred.type,
                response: {
                    clientDataJSON: bufToB64url(cred.response.clientDataJSON),
                    attestationObject: bufToB64url(cred.response.attestationObject),
                },
                extensions: cred.getClientExtensionResults ? cred.getClientExtensionResults() : {},
            };
            var hidden = form.querySelector('#passkey-credential');
            if (hidden) hidden.value = JSON.stringify(out);
            if (typeof form.requestSubmit === 'function') form.requestSubmit();
            else form.submit();
        }).catch(function() {
            btn.disabled = false;
            showError(form, 'Passkey setup was cancelled or did not complete.');
        });
    });

    // Sign-in 2nd factor: fetch the challenge, run
    // navigator.credentials.get, then native-submit the assertion to the
    // verify endpoint (full-page POST → session + redirect).
    document.addEventListener('click', function(e) {
        var btn = e.target.closest('[data-passkey-auth]');
        if (!btn) return;
        e.preventDefault();
        var startUrl = btn.getAttribute('data-passkey-auth');
        var form = document.getElementById(btn.getAttribute('data-passkey-form'));
        if (!form) return;
        if (!supported()) {
            showError(document, 'This browser does not support passkeys.');
            return;
        }
        btn.disabled = true;
        fetch(startUrl, { method: 'POST', headers: { 'Accept': 'application/json' } })
            .then(function(r) { if (!r.ok) throw new Error('start'); return r.json(); })
            .then(function(data) {
                var opts = data.options.publicKey;
                opts.challenge = b64urlToBuf(opts.challenge);
                if (Array.isArray(opts.allowCredentials)) {
                    opts.allowCredentials.forEach(function(c) { c.id = b64urlToBuf(c.id); });
                }
                return navigator.credentials.get({ publicKey: opts }).then(function(assertion) {
                    var out = {
                        id: assertion.id,
                        rawId: bufToB64url(assertion.rawId),
                        type: assertion.type,
                        response: {
                            authenticatorData: bufToB64url(assertion.response.authenticatorData),
                            clientDataJSON: bufToB64url(assertion.response.clientDataJSON),
                            signature: bufToB64url(assertion.response.signature),
                            userHandle: assertion.response.userHandle
                                ? bufToB64url(assertion.response.userHandle) : null,
                        },
                        extensions: assertion.getClientExtensionResults
                            ? assertion.getClientExtensionResults() : {},
                    };
                    form.querySelector('[name="challenge_id"]').value = data.challenge_id;
                    form.querySelector('[name="passkey"]').value = JSON.stringify(out);
                    // requestSubmit fires a submit event htmx can intercept
                    // (reauth posts via hx-post); a plain native login form
                    // just submits. Both work.
                    if (typeof form.requestSubmit === 'function') form.requestSubmit();
                    else form.submit();
                });
            })
            .catch(function() {
                btn.disabled = false;
                showError(document, 'Passkey sign-in was cancelled or did not complete.');
            });
    });
})();
"#;

pub const MULTI_ACCOUNT_JS: &'static str = r#"
(function() {
    var KEY = 'sylva-accounts';
    var MAX = 5;

    var container = document.querySelector('.user-card-accounts');
    var tpl = document.getElementById('tpl-user-card-other-account');
    if (!container || !tpl) return;
    var raw = container.dataset.currentAccount;
    if (!raw) return;
    var current;
    try { current = JSON.parse(raw); } catch (e) { return; }
    if (!current || !current.id) return;

    function loadRoster() {
        try {
            var stored = localStorage.getItem(KEY);
            if (!stored) return [];
            var parsed = JSON.parse(stored);
            return Array.isArray(parsed) ? parsed : [];
        } catch (e) { return []; }
    }
    function saveRoster(r) {
        try { localStorage.setItem(KEY, JSON.stringify(r)); } catch (e) {}
    }

    var roster = loadRoster()
        .filter(function(a) { return a && a.id && a.id !== current.id; });
    roster.unshift(current);
    if (roster.length > MAX) roster = roster.slice(0, MAX);
    saveRoster(roster);

    container.querySelectorAll('.user-card-account-other')
        .forEach(function(el) { el.remove(); });

    function renderOther(acct) {
        var frag = tpl.content.cloneNode(true);
        var root = frag.querySelector('.user-card-account-other');
        if (!root) return null;
        root.dataset.otherAccount = acct.id;

        var avatar = frag.querySelector('[data-other-avatar]');
        if (avatar) {
            avatar.style.background = acct.color || '#888';
            avatar.textContent = acct.initial || '?';
        }
        var name = frag.querySelector('[data-other-name]');
        if (name) name.textContent = acct.name || '';
        var email = frag.querySelector('[data-other-email]');
        if (email) email.textContent = acct.email || '';
        var next = frag.querySelector('[data-other-next]');
        if (next) {
            next.value = '/login?email=' + encodeURIComponent(acct.email || '');
        }
        return frag;
    }

    roster.forEach(function(acct) {
        if (!acct || acct.id === current.id) return;
        var node = renderOther(acct);
        if (node) container.appendChild(node);
    });

    // Stops propagation so the surrounding form's submit button
    // doesn't also fire on the same click.
    container.addEventListener('click', function(e) {
        var btn = e.target.closest('[data-other-delete]');
        if (!btn) return;
        e.preventDefault();
        e.stopPropagation();
        var row = btn.closest('.user-card-account-other');
        if (!row) return;
        var id = row.dataset.otherAccount;
        var next = loadRoster().filter(function(a) { return a && a.id !== id; });
        saveRoster(next);
        row.remove();
    });
})();
"#;

pub const USER_CARD_OUTSIDE_CLICK_JS: &'static str = r#"
(function() {
    document.addEventListener('click', function(e) {
        var card = document.querySelector('details.user-card[open]');
        if (!card) return;
        if (card.contains(e.target)) return;
        card.removeAttribute('open');
    });
})();
"#;

pub const TOAST_JS: &'static str = r#"
(function() {
    var STORAGE_KEY = 'sylva-toasts';
    var DURATION_MS = 15000;
    var MAX_AGE_MS = 30000;

    // Kept in sync with the Maud helpers (check_circle_icon /
    // info_circle_icon / alert_circle_icon / close_icon) — they're
    // small enough that a copy here beats fetching them dynamically.
    var ICONS = {
        success:
            '<svg xmlns="http://www.w3.org/2000/svg" width="22" height="22" ' +
            'viewBox="0 0 24 24" fill="none" stroke="currentColor" ' +
            'stroke-width="2" stroke-linecap="round" stroke-linejoin="round" ' +
            'aria-hidden="true"><circle cx="12" cy="12" r="10"></circle>' +
            '<polyline points="8 12 11 15 16 9"></polyline></svg>',
        info:
            '<svg xmlns="http://www.w3.org/2000/svg" width="18" height="18" ' +
            'viewBox="0 0 24 24" fill="none" stroke="currentColor" ' +
            'stroke-width="2" stroke-linecap="round" stroke-linejoin="round" ' +
            'aria-hidden="true"><circle cx="12" cy="12" r="10"></circle>' +
            '<line x1="12" y1="11" x2="12" y2="16"></line>' +
            '<line x1="12" y1="7.5" x2="12" y2="7.5"></line></svg>',
        error:
            '<svg xmlns="http://www.w3.org/2000/svg" width="16" height="16" ' +
            'viewBox="0 0 24 24" fill="none" stroke="currentColor" ' +
            'stroke-width="2" stroke-linecap="round" stroke-linejoin="round" ' +
            'aria-hidden="true"><circle cx="12" cy="12" r="10"></circle>' +
            '<line x1="12" y1="8" x2="12" y2="13"></line>' +
            '<line x1="12" y1="16.5" x2="12" y2="16.5"></line></svg>'
    };
    var CLOSE_ICON =
        '<svg xmlns="http://www.w3.org/2000/svg" width="18" height="18" ' +
        'viewBox="0 0 24 24" fill="none" stroke="currentColor" ' +
        'stroke-width="2" stroke-linecap="round" stroke-linejoin="round" ' +
        'aria-hidden="true"><line x1="18" y1="6" x2="6" y2="18"></line>' +
        '<line x1="6" y1="6" x2="18" y2="18"></line></svg>';

    function ensureContainer() {
        var c = document.querySelector('.toast-container');
        if (c) return c;
        c = document.createElement('div');
        c.className = 'toast-container';
        document.body.appendChild(c);
        return c;
    }

    function dismissToast(toast) {
        if (toast.dataset.leaving === '1') return;
        toast.dataset.leaving = '1';
        if (toast._dismissTimer) clearTimeout(toast._dismissTimer);
        toast.classList.add('toast-leaving');
        setTimeout(function() {
            var container = toast.closest('.toast-container');
            toast.remove();
            if (container && !container.querySelector('.toast')) {
                container.remove();
            }
        }, 220);
    }

    function renderToast(data) {
        if (!data || typeof data !== 'object') return;
        var kind = data.kind === 'success' || data.kind === 'info' ||
                   data.kind === 'error' ? data.kind : 'info';
        var container = ensureContainer();
        var toast = document.createElement('div');
        toast.className = 'toast toast-' + kind;
        toast.setAttribute('role', kind === 'error' ? 'alert' : 'status');
        toast.innerHTML =
            '<div class="toast-icon">' + ICONS[kind] + '</div>' +
            '<div class="toast-body">' +
                '<div class="toast-title"></div>' +
                '<div class="toast-message"></div>' +
            '</div>' +
            '<button type="button" class="toast-close" aria-label="Dismiss">' +
                CLOSE_ICON + '</button>';
        // textContent (not innerHTML) so any server-controlled title /
        // message string can't smuggle markup or scripts into the page.
        toast.querySelector('.toast-title').textContent = String(data.title || '');
        toast.querySelector('.toast-message').textContent = String(data.message || '');
        container.appendChild(toast);
        toast._dismissTimer = setTimeout(function() {
            dismissToast(toast);
        }, DURATION_MS);
    }

    // Close-X delegation. One listener on document covers every toast,
    // including ones added later by the HX-Trigger flow.
    document.addEventListener('click', function(e) {
        var close = e.target.closest('.toast-close');
        if (!close) return;
        var toast = close.closest('.toast');
        if (toast) dismissToast(toast);
    });

    // Buffer toast payloads that arrive via HX-Trigger so they survive
    // the HX-Redirect navigation HTMX usually performs alongside.
    // HTMX dispatches the event synchronously before triggering the
    // redirect, so the sessionStorage write completes in time.
    //
    // **Important**: HTMX's event dispatcher mutates `event.detail` to
    // add an `elt` field pointing at the source DOM element. Including
    // that reference in what we hand to `JSON.stringify` makes the
    // call throw a TypeError (DOM nodes aren't JSON-serializable), and
    // the silent catch below would leave the queue empty — which is
    // exactly the "toasts never show up post-navigation" symptom.
    // Extract only the three fields we care about so the payload is
    // pure data and round-trips through JSON cleanly.
    document.body.addEventListener('hearth-toast', function(e) {
        var src = (e && e.detail) || {};
        var clean = {
            kind: src.kind,
            title: src.title,
            message: src.message
        };
        try {
            var queue = JSON.parse(sessionStorage.getItem(STORAGE_KEY) || '[]');
            queue.push({ data: clean, ts: Date.now() });
            sessionStorage.setItem(STORAGE_KEY, JSON.stringify(queue));
        } catch (_) {
            // sessionStorage can throw in private mode or when quota is
            // exhausted. The toast is decorative; swallow the error.
        }
    });

    // Drain any queued toasts on every page load. Anything older than
    // 30 seconds is considered stale (the redirect-render flow is sub-
    // second; older entries are from a separate session and shouldn't
    // pop up unexpectedly).
    (function drain() {
        try {
            var raw = sessionStorage.getItem(STORAGE_KEY);
            if (!raw) return;
            sessionStorage.removeItem(STORAGE_KEY);
            var queue = JSON.parse(raw);
            if (!Array.isArray(queue)) return;
            var now = Date.now();
            queue.forEach(function(item) {
                if (item && (now - (item.ts || 0)) < MAX_AGE_MS) {
                    renderToast(item.data);
                }
            });
        } catch (_) {}
    })();
})();
"#;

pub const DIALOG_JS: &'static str = r#"
// ── On-demand modal host ───────────────────────────────────────────
// Shared modals (account-settings, reauth) ship no markup in the page.
// They're fetched from their `/modals/*` endpoint when opened, appended
// to `#modal-host`, HTMX-processed so their hx-* attributes fire, then
// removed from the DOM on close. `beforeend` append (not replace) lets
// modals stack — e.g. the reauth modal opening over the settings modal,
// both live in the dialog top layer, each removed on its own close.
window.sylvaOpenModal = function(url) {
    var host = document.getElementById('modal-host');
    if (!host) return Promise.resolve(null);
    return fetch(url, { credentials: 'same-origin' })
        .then(function(r) { return r.text(); })
        .then(function(html) {
            var tmp = document.createElement('div');
            tmp.innerHTML = html;
            var dlg = tmp.querySelector('dialog');
            if (!dlg) return null;
            host.appendChild(dlg);
            // htmx.min.js scans on DOMContentLoaded + its own swap
            // events, not raw DOM mutation. Process the injected
            // subtree so the modal's hx-post/hx-target start firing —
            // otherwise the form does a native POST and the server's
            // partial loads as a bare page.
            if (window.htmx && typeof window.htmx.process === 'function') {
                window.htmx.process(dlg);
            }
            return dlg;
        })
        .catch(function() { return null; });
};

// Fetch-if-missing variant. Used by the reauth chain, which may be
// re-entered while a previous reauth dialog is still mounted.
window.sylvaEnsureModal = function(id, url) {
    var live = document.getElementById(id);
    if (live) return Promise.resolve(live);
    return window.sylvaOpenModal(url);
};

document.addEventListener('click', function(e) {
    // Every modal opens on demand: fetch its fragment, inject it into
    // #modal-host, showModal(). `data-open-modal` is the only open path.
    var openModal = e.target.closest('[data-open-modal]');
    if (openModal) {
        e.preventDefault();
        window.sylvaOpenModal(openModal.getAttribute('data-open-modal'))
            .then(function(d) {
                if (d && typeof d.showModal === 'function') d.showModal();
            });
        return;
    }
    var closeBtn = e.target.closest('[data-close-dialog]');
    if (closeBtn) {
        e.preventDefault();
        var dlg = closeBtn.closest('dialog');
        if (dlg && typeof dlg.close === 'function') dlg.close();
    }
});

// Remove fetched modals from the DOM when they close, so nothing
// lingers between opens. Scoped to dialogs parented by `#modal-host`.
// Skips a close flagged `chainTransition` — that's a modal closing as
// part of a hand-off (the invite modal closing while reauth opens),
// which must survive to be reopened later. The flag is one-shot:
// cleared as it's honored, so the next *real* close removes the modal.
// Capture phase because `close` doesn't bubble.
document.addEventListener('close', function(e) {
    var dlg = e.target;
    if (!(dlg instanceof HTMLDialogElement)) return;
    if (dlg.parentElement && dlg.parentElement.id === 'modal-host') {
        if (dlg.dataset.chainTransition === '1') {
            dlg.dataset.chainTransition = '';
            return;
        }
        dlg.remove();
    }
}, true);
"#;

pub const INVITE_COPY_JS: &'static str = r#"
document.addEventListener('click', function(e) {
    var btn = e.target.closest('[data-copy-target]');
    if (!btn) return;
    e.preventDefault();
    var input = document.getElementById(btn.getAttribute('data-copy-target'));
    if (!input) return;
    var text = input.value;
    var done = function() {
        var orig = btn.textContent;
        btn.textContent = 'Copied';
        setTimeout(function() { btn.textContent = orig; }, 1500);
    };
    var fallback = function() {
        // Mount the temp textarea inside whatever dialog the button
        // lives in (or the body, if there is none) so the selection +
        // execCommand run inside the same top layer.
        var host = btn.closest('dialog') || document.body;
        var ta = document.createElement('textarea');
        ta.value = text;
        ta.setAttribute('readonly', '');
        ta.style.position = 'fixed';
        ta.style.top = '0';
        ta.style.left = '0';
        ta.style.width = '1px';
        ta.style.height = '1px';
        ta.style.opacity = '0';
        ta.style.pointerEvents = 'none';
        host.appendChild(ta);
        try {
            ta.focus();
            ta.select();
            // Some browsers ignore .select() for textareas without
            // an explicit setSelectionRange — set it defensively.
            ta.setSelectionRange(0, ta.value.length);
            var ok = document.execCommand('copy');
            if (ok) done();
        } catch (_) {
            // Last resort: leave the URL selected in the original
            // input so the operator can hit Ctrl/Cmd+C themselves.
            input.focus();
            input.select();
        } finally {
            host.removeChild(ta);
        }
    };
    if (navigator.clipboard && navigator.clipboard.writeText) {
        navigator.clipboard.writeText(text).then(done, fallback);
    } else {
        fallback();
    }
});
"#;

pub const MEMBERS_SEARCH_JS: &'static str = r#"
(function() {
    var input = document.getElementById('users-search');
    if (!input) return;
    var rows = document.querySelectorAll('.users-table tbody tr');
    input.addEventListener('input', function() {
        var q = input.value.toLowerCase().trim();
        rows.forEach(function(tr) {
            var hay = tr.getAttribute('data-search') || '';
            tr.style.display = (q === '' || hay.indexOf(q) !== -1) ? '' : 'none';
        });
    });
})();
"#;

pub const MEMBERS_SELECT_ALL_JS: &'static str = r#"
(function() {
    var head = document.getElementById('select-all-members');
    if (!head) return;
    var rows = document.querySelectorAll('.member-checkbox-row:not(:disabled)');
    head.addEventListener('change', function() {
        rows.forEach(function(cb) { cb.checked = head.checked; });
    });
    rows.forEach(function(cb) {
        cb.addEventListener('change', function() {
            var all = true, none = true;
            rows.forEach(function(c) {
                if (c.checked) none = false;
                else all = false;
            });
            head.checked = all;
            head.indeterminate = !all && !none;
        });
    });
})();
"#;

pub const MEMBERS_KEBAB_OUTSIDE_CLICK_JS: &'static str = r#"
(function() {
    var selector = 'details.row-actions[open], details.filter-menu[open]';
    document.addEventListener('click', function(e) {
        document.querySelectorAll(selector).forEach(function(d) {
            if (!d.contains(e.target)) {
                d.open = false;
            }
        });
    });
})();
"#;

pub const DROPDOWN_FLIP_JS: &'static str = r#"
(function() {
    var GUTTER = 8;  // viewport-edge margin we always keep clear

    function flipIfNeeded(details) {
        if (!details.open) {
            details.classList.remove('flip-up', 'flip-left');
            return;
        }
        var menu = details.querySelector(
            '.filter-menu-list, .row-actions-menu'
        );
        if (!menu) return;
        // Strip any prior flip so the measurement reflects the
        // default-anchored position.
        details.classList.remove('flip-up', 'flip-left');
        var rect = menu.getBoundingClientRect();
        if (rect.bottom + GUTTER > window.innerHeight) {
            details.classList.add('flip-up');
        }
        if (rect.left - GUTTER < 0) {
            details.classList.add('flip-left');
        }
    }

    document.addEventListener('toggle', function(e) {
        var d = e.target;
        if (!(d instanceof HTMLDetailsElement)) return;
        if (!(d.matches('details.filter-menu, details.row-actions'))) return;
        flipIfNeeded(d);
    }, true);
})();
"#;

pub const INVITE_SWAP_TO_INVITE_JS: &'static str = r#"
(function() {
    document.body.addEventListener('switch-to-invite-modal', function() {
        // The reauth modal just POSTed the invite successfully; the
        // server HX-Retargeted the success partial back into the kept
        // invite modal's #invite-modal-content. Close reauth (which
        // removes it) and reopen the invite modal — it survived in
        // #modal-host via `data-keep-source` while reauth was up.
        var reauth = document.getElementById('dlg-reauth');
        var invite = document.getElementById('dlg-invite');
        if (reauth && reauth.open) reauth.close();
        if (invite && !invite.open) invite.showModal();
    });
})();
"#;

pub const INVITE_REFRESH_ON_CLOSE_JS: &'static str = r#"
(function() {
    var needsRefresh = false;
    document.body.addEventListener('invite-success', function() {
        needsRefresh = true;
    });
    // dlg-invite is lazily materialized so we can't bind directly to
    // its `close` event at script-load time. Capture-phase document
    // listener catches the close from whichever live dialog matches
    // (close events don't bubble, hence `true` for capture).
    document.addEventListener('close', function(e) {
        if (e.target && e.target.id === 'dlg-invite' && needsRefresh) {
            window.location.reload();
        }
    }, true);
})();
"#;

pub const CONFIRM_NAME_JS: &'static str = r#"
(function() {
    document.addEventListener('input', function(e) {
        var input = e.target.closest('[data-confirm-name]');
        if (!input) return;
        var dialog = input.closest('dialog');
        if (!dialog) return;
        var btn = dialog.querySelector('[data-reauth-confirm]');
        if (!btn) return;
        btn.disabled = (input.value !== input.getAttribute('data-confirm-name'));
    });
    // Reset the input + re-disable the button whenever the dialog
    // closes, so reopening always starts from scratch.
    document.addEventListener('close', function(e) {
        var dialog = e.target;
        if (!(dialog instanceof HTMLDialogElement)) return;
        var input = dialog.querySelector('[data-confirm-name]');
        if (input) input.value = '';
        var btn = dialog.querySelector('[data-reauth-confirm]');
        if (btn && input) btn.disabled = true;
    }, true);
})();
"#;

pub const ROLE_PICKER_GATE_JS: &'static str = r#"
(function() {
    document.addEventListener('change', function(e) {
        var radio = e.target;
        if (!(radio instanceof HTMLInputElement)) return;
        if (radio.name !== 'role' || !radio.classList.contains('role-icon-input')) return;
        var dialog = radio.closest('dialog');
        if (!dialog) return;
        var btn = dialog.querySelector('[data-role-aware][data-reauth-confirm]');
        if (btn) btn.disabled = false;
    });
    document.addEventListener('close', function(e) {
        var dialog = e.target;
        if (!(dialog instanceof HTMLDialogElement)) return;
        // The owner-confirm intercept closes the role dialog before
        // opening the owner-confirm modal — but Make Owner then needs
        // to read the still-checked 'owner' radio back off form-role-id
        // when it fires the reauth chain. If we reset on every close
        // we wipe that selection mid-chain, the chain stages no role,
        // and the Verify POST is missing required form data (which
        // surfaces as "Verify did nothing"). REAUTH_CHAIN_JS sets a
        // `chainTransition` flag on the dialog before closing it as
        // part of the intercept; honour that flag here.
        if (dialog.dataset.chainTransition === '1') {
            dialog.dataset.chainTransition = '';
            return;
        }
        var radios = dialog.querySelectorAll('input.role-icon-input:not(:disabled)');
        radios.forEach(function(r) { r.checked = false; });
        var btn = dialog.querySelector('[data-role-aware][data-reauth-confirm]');
        if (btn) btn.disabled = true;
    }, true);
})();
"#;

pub const CONFIRM_CHECKBOX_JS: &'static str = r#"
(function() {
    document.addEventListener('change', function(e) {
        var cb = e.target.closest('[data-confirm-checkbox]');
        if (!cb) return;
        var dialog = cb.closest('dialog');
        if (!dialog) return;
        var btn = dialog.querySelector('[data-reauth-confirm]');
        if (btn) btn.disabled = !cb.checked;
    });
    document.addEventListener('close', function(e) {
        var dialog = e.target;
        if (!(dialog instanceof HTMLDialogElement)) return;
        var cb = dialog.querySelector('[data-confirm-checkbox]');
        if (cb) cb.checked = false;
        var btn = dialog.querySelector('[data-reauth-confirm]');
        if (cb && btn) btn.disabled = true;
    }, true);
})();
"#;

pub const ACCOUNT_CLOSE_GATE_JS: &'static str = r#"
(function() {
    function refresh(dialog) {
        if (!dialog) return;
        var email = dialog.querySelector('[data-close-email]');
        var ack = dialog.querySelector('[data-close-ack]');
        var btn = dialog.querySelector('[data-reauth-confirm]');
        if (!btn) return;
        var want = ((email && email.getAttribute('data-close-email')) || '').trim().toLowerCase();
        var got = ((email && email.value) || '').trim().toLowerCase();
        var emailOk = want.length > 0 && got === want;
        var ackOk = !!(ack && ack.checked);
        btn.disabled = !(emailOk && ackOk);
    }
    document.addEventListener('input', function(e) {
        var el = e.target.closest('[data-close-email]');
        if (el) refresh(el.closest('dialog'));
    });
    document.addEventListener('change', function(e) {
        var el = e.target.closest('[data-close-ack]');
        if (el) refresh(el.closest('dialog'));
    });
    document.addEventListener('close', function(e) {
        var dialog = e.target;
        if (!(dialog instanceof HTMLDialogElement)) return;
        var email = dialog.querySelector('[data-close-email]');
        if (email) email.value = '';
        var ack = dialog.querySelector('[data-close-ack]');
        if (ack) ack.checked = false;
        var btn = dialog.querySelector('[data-reauth-confirm]');
        if (btn && (email || ack)) btn.disabled = true;
    }, true);
})();
"#;

pub const REAUTH_CHAIN_JS: &'static str = r#"
(function() {
    // Idempotency guard — the shell wires this for every authed page and
    // /members loads it again; double-binding would run the chain twice.
    if (window.__sylvaReauthChainLoaded) return;
    window.__sylvaReauthChainLoaded = true;

    // The source form's payload minus the password — under the sudo-grant
    // model the action is authorized by the sylva_sudo cookie, not a
    // password field, so the action handlers no longer accept one.
    function payloadOf(sourceForm) {
        var values = {};
        new FormData(sourceForm).forEach(function(value, key) {
            if (key === 'password') return;
            values[key] = value;
        });
        return values;
    }

    // Run the original action via htmx (POST). A single #reauth-modal-content
    // target serves every action: admin actions drive their outcome with
    // HX-Redirect, invite with HX-Retarget, and TOTP/passkey enrollment
    // renders its QR straight into the (open) reauth modal.
    function runAction(actionUrl, values) {
        if (window.htmx && typeof window.htmx.ajax === 'function') {
            window.htmx.ajax('POST', actionUrl, {
                target: '#reauth-modal-content',
                swap: 'innerHTML',
                values: values
            });
        }
    }

    // Dispose the *source* dialog per its hand-off mode (unchanged intent):
    //   • keep-source-open (TOTP/passkey enrollment) → leave it open behind
    //     the reauth modal (the action's response refreshes it via OOB).
    //   • keep-source (invite) → close with the chainTransition flag so it
    //     survives in #modal-host to be reopened by switch-to-invite-modal.
    //   • default (per-row) → remove it; the action redirects away anyway.
    function disposeSource(sourceDialog, keepSource, keepSourceOpen) {
        if (!sourceDialog) return;
        if (keepSourceOpen) return;
        if (keepSource) {
            sourceDialog.dataset.chainTransition = '1';
            if (typeof sourceDialog.close === 'function') sourceDialog.close();
        } else {
            sourceDialog.remove();
        }
    }

    document.addEventListener('click', function(e) {
        var btn = e.target.closest('[data-reauth-confirm]');
        if (!btn) return;
        e.preventDefault();
        var sourceForm = document.getElementById(btn.getAttribute('data-reauth-confirm'));
        if (!sourceForm) return;
        // Surface form invalidity (e.g. malformed email) before prompting.
        if (typeof sourceForm.checkValidity === 'function' && !sourceForm.checkValidity()) {
            if (typeof sourceForm.reportValidity === 'function') sourceForm.reportValidity();
            return;
        }

        // Owner-promotion intercept — route owner role changes through the
        // dedicated confirm fragment instead of straight to reauth.
        if (btn.hasAttribute('data-role-aware')) {
            var roleInput = sourceForm.querySelector('input[name="role"]:checked');
            if (roleInput && roleInput.value === 'owner') {
                var targetId = btn.getAttribute('data-target-id');
                var roleDialog = btn.closest('dialog');
                window.sylvaOpenModal('/members/' + targetId + '/modal/role-owner-confirm')
                    .then(function(oc) {
                        if (oc && typeof oc.showModal === 'function') oc.showModal();
                        if (roleDialog) roleDialog.remove();
                    });
                return;
            }
        }

        var actionUrl = sourceForm.getAttribute('action') || '';
        var values = payloadOf(sourceForm);
        var sourceDialog = btn.closest('dialog');
        var keepSource = btn.hasAttribute('data-keep-source');
        var keepSourceOpen = btn.hasAttribute('data-keep-source-open');
        // Irreversible account actions (self anonymize / delete) demand a
        // *critical* re-auth: the modal then never reports a fresh grant, so
        // the factor prompt always shows, and the verify mints the separate
        // short-lived grant those handlers require.
        var critical = btn.hasAttribute('data-reauth-critical');
        var reauthUrl = critical ? '/modals/reauth?critical=1' : '/modals/reauth';

        // (Re)fetch the reauth modal — it carries data-sudo-fresh telling us
        // whether a recent step-up still covers this action. Drop a stale
        // one first so the flag is current.
        var stale = document.getElementById('dlg-reauth');
        if (stale) stale.remove();
        window.sylvaOpenModal(reauthUrl).then(function(dlg) {
            if (!dlg) return;
            var fresh = dlg.dataset.sudoFresh === '1';

            if (fresh) {
                // Within the sudo window — skip the factor step. For the
                // open-hosting actions (enrollment QR, recovery code,
                // password-changed), blank the modal first so it doesn't
                // flash the now-unnecessary factor prompt before the
                // action's result swaps in.
                if (keepSourceOpen && typeof dlg.showModal === 'function') {
                    var rc = dlg.querySelector('#reauth-modal-content');
                    if (rc) rc.innerHTML = '';
                    dlg.showModal();
                }
                disposeSource(sourceDialog, keepSource, keepSourceOpen);
                runAction(actionUrl, values);
                return;
            }

            // Step-up required. Run the action once POST /me/reauth mints
            // the grant (fires reauth-ok). Keep the listener across failed
            // attempts; drop it if the user cancels (modal close).
            function onOk() {
                document.removeEventListener('reauth-ok', onOk);
                // Enrollment keeps the reauth modal open to host its QR;
                // everything else redirects/retargets, so close it.
                if (!keepSourceOpen && typeof dlg.close === 'function') dlg.close();
                disposeSource(sourceDialog, keepSource, keepSourceOpen);
                runAction(actionUrl, values);
            }
            document.addEventListener('reauth-ok', onOk);
            dlg.addEventListener('close', function() {
                document.removeEventListener('reauth-ok', onOk);
            }, { once: true });
            if (typeof dlg.showModal === 'function') dlg.showModal();
            // Passkey-first: auto-trigger the get-ceremony when the modal
            // opens on the passkey view, so the OS prompt appears without an
            // extra tap. Runs inside the original click's activation window
            // (the preceding fetches are local + fast); if a browser blocks
            // it, the visible "Verify with passkey" button is the fallback.
            var autoPk = dlg.querySelector(
                '[data-reauth-view="passkey"]:not([hidden]) [data-passkey-auth]'
            );
            if (autoPk) { try { autoPk.click(); } catch (_) {} }
        });
    });

    // Passkey ↔ password view toggle inside the reauth modal. "Use password
    // instead" / "Use a passkey instead" just flip which view is visible —
    // no re-fetch, so the in-flight challenge + chain listener survive.
    document.addEventListener('click', function(e) {
        var toPw = e.target.closest('[data-reauth-show-password]');
        var toPk = e.target.closest('[data-reauth-show-passkey]');
        if (!toPw && !toPk) return;
        e.preventDefault();
        var root = (toPw || toPk).closest('#reauth-modal-content') || document;
        var pkView = root.querySelector('[data-reauth-view="passkey"]');
        var pwView = root.querySelector('[data-reauth-view="password"]');
        if (toPw) {
            if (pkView) pkView.hidden = true;
            if (pwView) {
                pwView.hidden = false;
                var inp = pwView.querySelector('input[name="password"]');
                if (inp) inp.focus();
            }
        } else {
            if (pwView) pwView.hidden = true;
            if (pkView) pkView.hidden = false;
        }
    });

    // Enter-in-a-textfield submits the source form natively; re-route it
    // through the chain by clicking the matching confirm button. (A click
    // on a disabled button is a no-op, so type-to-confirm/role gates hold.)
    // The reauth modal's own factor forms have no such button, so this
    // skips them and lets htmx post them to /me/reauth.
    document.addEventListener('submit', function(e) {
        var form = e.target;
        if (!(form instanceof HTMLFormElement) || !form.id) return;
        // The confirm button may live outside the form (the change-password
        // button sits in the section header), so search the whole document
        // for a button bound to this form id. Forms with no such button
        // (e.g. the reauth modal's own factor form) fall through to their
        // native/htmx submit.
        var btn = document.querySelector('[data-reauth-confirm="' + form.id + '"]');
        if (btn) {
            e.preventDefault();
            btn.click();
        }
    });
})();
"#;

pub const SETTINGS_SMTP_TOGGLE_JS: &'static str = r#"
(function() {
  var sel = document.querySelector('select[name="mode"]');
  var fields = document.querySelector('[data-smtp-fields]');
  if (!sel || !fields) return;
  function sync() { fields.hidden = (sel.value !== 'smtp'); }
  sel.addEventListener('change', sync);
  sync();
})();
"#;

} // verus!
