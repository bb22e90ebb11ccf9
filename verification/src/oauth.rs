//! The OAuth callback: reading the browser's redirect request, answering
//! it, and deciding whether to exchange the authorisation code.
//!
//! The callback's `state` parameter is `<nonce>.<percent-encoded context>`.
use vstd::prelude::*;
use vstd::utf8::encode_utf8;
use crate::events::opt_debug;
use crate::messages::{
    emit, emit_send, effects_view, log, log_view, plugin_action, plugin_action_str,
    AuthStatusKind, Effect, EffectView, Outgoing, OutgoingView, PiPayload, PiPayloadView,
};
use crate::settings::opt_str;
use crate::strs::{
    after_char, before_char, decimal, find_char, from_utf8_lossy, is_whitespace, is_ws,
    lemma_trim_start, owned, push_decimal, push_str, ranges_ok, ranges_view, split_ranges,
    split_spec, string_of, to_chars, trim_start_spec, utf8_lossy, debug_str, str_debug,
};
use crate::urlenc::{
    encode_spec, latin1, lemma_percent_decode_inverts_encode, percent_decode, percent_decode_spec,
};

verus! {

// ── Reading the request ────────────────────────────────────────────────────

/// The first line of a request, without its line ending (`\n` or `\r\n`).
pub open spec fn first_line(s: Seq<char>) -> Seq<char> {
    let l = before_char(s, '\n');
    if after_char(s, '\n') is Some && l.len() > 0 && l.last() == '\r' {
        l.drop_last()
    } else {
        l
    }
}

/// Whether `s` begins with `p`.
pub open spec fn starts_with(s: Seq<char>, p: Seq<char>) -> bool {
    p.len() <= s.len() && s.subrange(0, p.len() as int) == p
}

/// The characters of `s` up to the first whitespace.
pub open spec fn before_ws(s: Seq<char>) -> Seq<char>
    decreases s.len(),
{
    if s.len() == 0 || is_ws(s[0]) {
        Seq::empty()
    } else {
        seq![s[0]] + before_ws(s.drop_first())
    }
}

/// The first whitespace-separated word of `s`, if it has one.
pub open spec fn first_word(s: Seq<char>) -> Option<Seq<char>> {
    let t = trim_start_spec(s);
    if t.len() == 0 {
        None
    } else {
        Some(before_ws(t))
    }
}

/// The path and query that a `GET` request line asks for; `/` for any
/// other request.
pub open spec fn request_target(req: Seq<char>) -> Seq<char> {
    let line = first_line(req);
    if starts_with(line, "GET "@) {
        match first_word(line.subrange(4, line.len() as int)) {
            Some(t) => t,
            None => "/"@,
        }
    } else {
        "/"@
    }
}

/// The query of a target: what follows its first `?`, or nothing.
pub open spec fn query_of(target: Seq<char>) -> Seq<char> {
    match after_char(target, '?') {
        Some(q) => q,
        None => Seq::empty(),
    }
}

/// The value of parameter `key` among `name=value` pieces; the last piece
/// naming `key` wins, and pieces without `=` count for nothing.
pub open spec fn lookup_param(pieces: Seq<Seq<char>>, key: Seq<char>) -> Option<Seq<char>>
    decreases pieces.len(),
{
    if pieces.len() == 0 {
        None
    } else {
        let p = pieces.last();
        match after_char(p, '=') {
            Some(v) => if before_char(p, '=') == key {
                Some(v)
            } else {
                lookup_param(pieces.drop_last(), key)
            },
            None => lookup_param(pieces.drop_last(), key),
        }
    }
}

/// The value of query parameter `key`.
pub open spec fn query_param(query: Seq<char>, key: Seq<char>) -> Option<Seq<char>> {
    lookup_param(split_spec(query, '&'), key)
}

/// The key that the `state` parameter names: what follows its first `.`,
/// percent-decoded.
pub open spec fn state_context(state: Seq<char>) -> Option<Seq<char>> {
    match after_char(state, '.') {
        Some(rest) => Some(percent_decode_spec(encode_utf8(rest))),
        None => None,
    }
}

/// What a callback request carries.
pub struct Callback {
    /// Whether the request is for `/`.
    pub path_ok: bool,
    pub code: Option<String>,
    /// The key the authorisation was started from.
    pub context: Option<String>,
    pub error: Option<String>,
}

/// The view of `Callback`.
pub struct CallbackView {
    pub path_ok: bool,
    pub code: Option<Seq<char>>,
    pub context: Option<Seq<char>>,
    pub error: Option<Seq<char>>,
}

impl View for Callback {
    type V = CallbackView;

    open spec fn view(&self) -> CallbackView {
        CallbackView {
            path_ok: self.path_ok,
            code: opt_str(self.code),
            context: opt_str(self.context),
            error: opt_str(self.error),
        }
    }
}

/// What a request (as text) carries.
pub open spec fn callback_spec(req: Seq<char>) -> CallbackView {
    let target = request_target(req);
    let query = query_of(target);
    let state = match query_param(query, "state"@) {
        Some(s) => s,
        None => Seq::empty(),
    };
    CallbackView {
        path_ok: before_char(target, '?') == "/"@,
        code: query_param(query, "code"@),
        context: state_context(state),
        error: query_param(query, "error"@),
    }
}

proof fn lemma_before_ws(s: Seq<char>, j: int)
    requires
        0 <= j <= s.len(),
        forall|k: int| 0 <= k < j ==> !is_ws(#[trigger] s[k]),
        j == s.len() || is_ws(s[j]),
    ensures
        before_ws(s) == s.subrange(0, j),
    decreases j,
{
    if j == 0 {
        assert(s.subrange(0, 0) =~= Seq::<char>::empty());
    } else {
        let t = s.drop_first();
        assert forall|k: int| 0 <= k < j - 1 implies !is_ws(#[trigger] t[k]) by {
            assert(t[k] == s[k + 1]);
        }
        if j < s.len() {
            assert(t[j - 1] == s[j]);
        }
        lemma_before_ws(t, j - 1);
        assert(seq![s[0]] + t.subrange(0, j - 1) =~= s.subrange(0, j));
    }
}

/// The range of the first word of `v[from..to]`, if there is one.
#[verifier::loop_isolation(false)]
fn first_word_range(v: &[char], from: usize, to: usize) -> (r: Option<(usize, usize)>)
    requires
        from <= to <= v@.len(),
    ensures
        match r {
            Some((a, b)) => from <= a <= b <= to && first_word(v@.subrange(from as int, to as int))
                == Some(v@.subrange(a as int, b as int)),
            None => first_word(v@.subrange(from as int, to as int)) is None,
        },
{
    let ghost s = v@.subrange(from as int, to as int);
    let mut i = from;
    while i < to && is_whitespace(v[i])
        invariant
            from <= i <= to,
            forall|k: int| from <= k < i ==> is_ws(#[trigger] v@[k]),
        decreases to - i,
    {
        i = i + 1;
    }
    proof {
        assert forall|k: int| 0 <= k < i - from implies is_ws(#[trigger] s[k]) by {
            assert(s[k] == v@[k + from]);
        }
        if i < to {
            assert(s[i - from] == v@[i as int]);
        }
        lemma_trim_start(s, i - from);
        assert(s.subrange(i - from, s.len() as int) =~= v@.subrange(i as int, to as int));
    }
    if i == to {
        return None;
    }
    let mut j = i;
    while j < to && !is_whitespace(v[j])
        invariant
            i <= j <= to,
            forall|k: int| i <= k < j ==> !is_ws(#[trigger] v@[k]),
        decreases to - j,
    {
        j = j + 1;
    }
    proof {
        let t = v@.subrange(i as int, to as int);
        assert forall|k: int| 0 <= k < j - i implies !is_ws(#[trigger] t[k]) by {
            assert(t[k] == v@[k + i]);
        }
        if j < to {
            assert(t[j - i] == v@[j as int]);
        }
        lemma_before_ws(t, j - i);
        assert(t.subrange(0, j - i) =~= v@.subrange(i as int, j as int));
    }
    Some((i, j))
}

/// Whether `v[from..to]` holds exactly the characters `lit`.
fn range_is(v: &[char], from: usize, to: usize, lit: &str) -> (r: bool)
    requires
        from <= to <= v@.len(),
    ensures
        r == (v@.subrange(from as int, to as int) == lit@),
{
    let w = to_chars(lit);
    if to - from != w.len() {
        return false;
    }
    let mut k: usize = 0;
    while k < w.len()
        invariant
            from <= to <= v@.len(),
            to - from == w@.len(),
            w@ == lit@,
            k <= w@.len(),
            forall|m: int| 0 <= m < k ==> v@[from + m] == w@[m],
        decreases w@.len() - k,
    {
        if v[from + k] != w[k] {
            assert(v@.subrange(from as int, to as int)[k as int] != lit@[k as int]);
            return false;
        }
        k = k + 1;
    }
    assert(v@.subrange(from as int, to as int) =~= lit@);
    true
}

/// The value of parameter `key` among the `&`-pieces `ranges` of `q`.
#[verifier::loop_isolation(false)]
fn find_param(q: &[char], ranges: &Vec<(usize, usize)>, key: &str) -> (r: Option<String>)
    requires
        ranges_ok(q@, ranges@),
    ensures
        opt_str(r) == lookup_param(ranges_view(q@, ranges@), key@),
{
    let mut i = ranges.len();
    let ghost pieces = ranges_view(q@, ranges@);
    assert(pieces.take(i as int) =~= pieces);
    while i > 0
        invariant
            i <= ranges@.len(),
            pieces == ranges_view(q@, ranges@),
            lookup_param(pieces.take(i as int), key@) == lookup_param(pieces, key@),
        decreases i,
    {
        let (a, b) = ranges[i - 1];
        assert(a <= b <= q@.len());
        let e = find_char(q, a, b, '=');
        let ghost p = q@.subrange(a as int, b as int);
        assert(pieces.take(i as int).last() == p);
        assert(pieces.take(i as int).drop_last() =~= pieces.take(i - 1));
        if e < b {
            if range_is(q, a, e, key) {
                let v = string_of(q, e + 1, b);
                return Some(v);
            }
        }
        i = i - 1;
    }
    assert(pieces.take(0) =~= Seq::<Seq<char>>::empty());
    None
}

/// The characters `v[from..to]` as a vector of their own.
fn sub_vec(v: &[char], from: usize, to: usize) -> (r: Vec<char>)
    requires
        from <= to <= v@.len(),
    ensures
        r@ == v@.subrange(from as int, to as int),
{
    let mut r: Vec<char> = Vec::new();
    let mut i = from;
    while i < to
        invariant
            from <= i <= to <= v@.len(),
            r@ == v@.subrange(from as int, i as int),
        decreases to - i,
    {
        r.push(v[i]);
        i = i + 1;
        assert(r@ =~= v@.subrange(from as int, i as int));
    }
    r
}

/// Reads a callback request given as text.
#[verifier::loop_isolation(false)]
#[verifier::rlimit(40)]
pub fn parse_callback(req: &str) -> (r: Callback)
    ensures
        r@ == callback_spec(req@),
{
    let v = to_chars(req);
    let n = v.len();
    // The first line, without its ending.
    let nl = find_char(&v, 0, n, '\n');
    assert(v@.subrange(0, n as int) =~= v@);
    let line_end = if nl < n && nl > 0 && v[nl - 1] == '\r' {
        nl - 1
    } else {
        nl
    };
    proof {
        let l = before_char(v@, '\n');
        if nl < n && nl > 0 && v@[nl - 1] == '\r' {
            assert(l.drop_last() =~= v@.subrange(0, line_end as int));
        }
    }
    assert(first_line(req@) == v@.subrange(0, line_end as int));
    // The target of a GET request, else "/".
    let is_get = line_end >= 4 && range_is(&v, 0, 4, "GET ");
    let ghost line = v@.subrange(0, line_end as int);
    proof {
        if line_end >= 4 {
            assert(line.subrange(0, 4) =~= v@.subrange(0, 4));
        }
    }
    assert(is_get == starts_with(line, "GET "@)) by {
        reveal_strlit("GET ");
    }
    let target: Vec<char> = if is_get {
        assert(line.subrange(4, line.len() as int) =~= v@.subrange(4, line_end as int));
        match first_word_range(&v, 4, line_end) {
            Some((a, b)) => sub_vec(&v, a, b),
            None => to_chars("/"),
        }
    } else {
        to_chars("/")
    };
    assert(target@ == request_target(req@));
    let tn = target.len();
    let qpos = find_char(&target, 0, tn, '?');
    assert(target@.subrange(0, tn as int) =~= target@);
    let path_ok = range_is(&target, 0, qpos, "/");
    let query: Vec<char> = if qpos < tn {
        sub_vec(&target, qpos + 1, tn)
    } else {
        Vec::new()
    };
    assert(query@ =~= query_of(target@));
    let ranges = split_ranges(&query, '&');
    let code = find_param(&query, &ranges, "code");
    let error = find_param(&query, &ranges, "error");
    let state = match find_param(&query, &ranges, "state") {
        Some(s) => s,
        None => String::new(),
    };
    let sv = to_chars(state.as_str());
    let sn = sv.len();
    let dot = find_char(&sv, 0, sn, '.');
    assert(sv@.subrange(0, sn as int) =~= sv@);
    let context = if dot < sn {
        let rest = string_of(&sv, dot + 1, sn);
        Some(percent_decode(rest.as_str()))
    } else {
        None
    };
    Callback { path_ok, code, context, error }
}

// ── Answering it ───────────────────────────────────────────────────────────

/// The page shown after a successful authorisation.
pub open spec fn success_html() -> Seq<char> {
    "<html><head><meta charset=\"utf-8\"><title>Twitch Auth</title>\n<style>body{font-family:sans-serif;text-align:center;padding:60px;background:#1a1a2e;color:#e8e8f0}</style>\n</head><body>\n<h2 style=\"color:#00d4aa\">&#10003; Connected to Twitch!</h2>\n<p>You can close this tab and return to StreamDock.</p>\n</body></html>"@
}

/// The page shown after a failed authorisation.
pub open spec fn error_html() -> Seq<char> {
    "<html><head><meta charset=\"utf-8\"><title>Twitch Auth</title>\n<style>body{font-family:sans-serif;text-align:center;padding:60px;background:#1a1a2e;color:#e8e8f0}</style>\n</head><body>\n<h2 style=\"color:#ff4757\">&#10007; Authorization failed</h2>\n<p>You can close this tab.</p>\n</body></html>"@
}

/// The HTTP response carrying a page.
pub open spec fn page_response(html: Seq<char>) -> Seq<char> {
    "HTTP/1.1 200 OK\r\nContent-Type: text/html; charset=utf-8\r\nContent-Length: "@ + decimal(
        encode_utf8(html).len(),
    ) + "\r\nConnection: close\r\n\r\n"@ + html
}

/// The response to a request for any path but `/`.
pub open spec fn not_found_response() -> Seq<char> {
    "HTTP/1.1 404 Not Found\r\nContent-Length: 0\r\n\r\n"@
}

/// The redirect URI registered with Twitch: the callback server on port 7878.
pub fn redirect_uri() -> (r: String)
    ensures
        r@ == "http://localhost:7878"@,
{
    owned("http://localhost:7878")
}

/// What the callback server does with one request.
pub struct CallbackOutcome {
    /// The HTTP response to write back.
    pub response: String,
    /// Effects to carry out after answering.
    pub effects: Vec<Effect>,
    /// The authorisation code and key to exchange it for, on success.
    pub exchange: Option<(String, String)>,
}

/// Whether the callback carries what a code exchange needs.
pub open spec fn callback_ok(c: CallbackView) -> bool {
    c.code is Some && c.context is Some && c.error is None
}

/// The effects of a callback that lacks the code, the key, or reports an
/// error: a log line, and a report to the key's inspector where there is a
/// key.
pub open spec fn callback_failure_effects(c: CallbackView) -> Seq<EffectView> {
    seq![
        EffectView::Send(
            log_view(
                "OAuth callback missing data — code="@ + (if c.code is Some {
                    "true"@
                } else {
                    "false"@
                }) + " context="@ + (if c.context is Some {
                    "true"@
                } else {
                    "false"@
                }) + " error="@ + opt_debug(c.error),
            ),
        ),
    ] + match c.context {
        Some(ctx) => seq![
            EffectView::Send(
                OutgoingView::SendToPropertyInspector {
                    action: plugin_action(),
                    context: ctx,
                    payload: PiPayloadView::AuthStatus {
                        kind: AuthStatusKind::Error,
                        error: Some(
                            match c.error {
                                Some(e) => e,
                                None => "Authorization denied"@,
                            },
                        ),
                    },
                },
            ),
        ],
        None => Seq::empty(),
    }
}

fn bool_text_exec(b: bool) -> (r: String)
    ensures
        r@ == (if b {
            "true"@
        } else {
            "false"@
        }),
{
    if b {
        owned("true")
    } else {
        owned("false")
    }
}

fn opt_debug_exec(o: &Option<String>) -> (r: String)
    ensures
        r@ == opt_debug(opt_str(*o)),
{
    match o {
        Some(s) => {
            let mut r = owned("Some(");
            let d = debug_str(s.as_str());
            push_str(&mut r, d.as_str());
            push_str(&mut r, ")");
            r
        },
        None => owned("None"),
    }
}

fn page(html: &str) -> (r: String)
    ensures
        r@ == page_response(html@),
{
    let mut r = owned(
        "HTTP/1.1 200 OK\r\nContent-Type: text/html; charset=utf-8\r\nContent-Length: ",
    );
    let n = html.as_bytes().len();
    push_decimal(&mut r, n as u64);
    push_str(&mut r, "\r\nConnection: close\r\n\r\n");
    push_str(&mut r, html);
    r
}

/// What the callback server does with a request it read.
pub fn callback_outcome(req: &str) -> (r: CallbackOutcome)
    ensures
        ({
            let c = callback_spec(req@);
            if !c.path_ok {
                &&& r.response@ == not_found_response()
                &&& effects_view(r.effects@) == Seq::<EffectView>::empty()
                &&& r.exchange is None
            } else if callback_ok(c) {
                &&& r.response@ == page_response(success_html())
                &&& effects_view(r.effects@) == Seq::<EffectView>::empty()
                &&& r.exchange matches Some((code, ctx)) && Some(code@) == c.code && Some(ctx@)
                    == c.context
            } else {
                &&& r.response@ == page_response(error_html())
                &&& effects_view(r.effects@) == callback_failure_effects(c)
                &&& r.exchange is None
            }
        }),
{
    let c = parse_callback(req);
    let mut effects: Vec<Effect> = Vec::new();
    assert(effects_view(effects@) =~= Seq::<EffectView>::empty());
    if !c.path_ok {
        return CallbackOutcome {
            response: owned("HTTP/1.1 404 Not Found\r\nContent-Length: 0\r\n\r\n"),
            effects,
            exchange: None,
        };
    }
    if c.code.is_some() && c.context.is_some() && c.error.is_none() {
        let response = page(
            "<html><head><meta charset=\"utf-8\"><title>Twitch Auth</title>\n<style>body{font-family:sans-serif;text-align:center;padding:60px;background:#1a1a2e;color:#e8e8f0}</style>\n</head><body>\n<h2 style=\"color:#00d4aa\">&#10003; Connected to Twitch!</h2>\n<p>You can close this tab and return to StreamDock.</p>\n</body></html>",
        );
        let code = match &c.code {
            Some(x) => x.clone(),
            None => String::new(),
        };
        let ctx = match &c.context {
            Some(x) => x.clone(),
            None => String::new(),
        };
        return CallbackOutcome { response, effects, exchange: Some((code, ctx)) };
    }
    let response = page(
        "<html><head><meta charset=\"utf-8\"><title>Twitch Auth</title>\n<style>body{font-family:sans-serif;text-align:center;padding:60px;background:#1a1a2e;color:#e8e8f0}</style>\n</head><body>\n<h2 style=\"color:#ff4757\">&#10007; Authorization failed</h2>\n<p>You can close this tab.</p>\n</body></html>",
    );
    let mut text = owned("OAuth callback missing data — code=");
    let t1 = bool_text_exec(c.code.is_some());
    push_str(&mut text, t1.as_str());
    push_str(&mut text, " context=");
    let t2 = bool_text_exec(c.context.is_some());
    push_str(&mut text, t2.as_str());
    push_str(&mut text, " error=");
    let t3 = opt_debug_exec(&c.error);
    push_str(&mut text, t3.as_str());
    emit_send(&mut effects, log(text.as_str()));
    match &c.context {
        Some(ctx) => {
            let msg = match &c.error {
                Some(e) => e.clone(),
                None => owned("Authorization denied"),
            };
            emit_send(
                &mut effects,
                Outgoing::SendToPropertyInspector {
                    action: plugin_action_str(),
                    context: ctx.clone(),
                    payload: PiPayload::AuthStatus { kind: AuthStatusKind::Error, error: Some(msg) },
                },
            );
        },
        None => {},
    }
    assert(effects_view(effects@) =~= callback_failure_effects(c@));
    CallbackOutcome { response, effects, exchange: None }
}

/// Reads the bytes of a callback request (as lossy UTF-8) and decides.
pub fn callback_outcome_bytes(buf: &[u8]) -> (r: CallbackOutcome)
    ensures
        ({
            let c = callback_spec(utf8_lossy(buf@));
            if !c.path_ok {
                &&& r.response@ == not_found_response()
                &&& effects_view(r.effects@) == Seq::<EffectView>::empty()
                &&& r.exchange is None
            } else if callback_ok(c) {
                &&& r.response@ == page_response(success_html())
                &&& effects_view(r.effects@) == Seq::<EffectView>::empty()
                &&& r.exchange matches Some((code, ctx)) && Some(code@) == c.code && Some(ctx@)
                    == c.context
            } else {
                &&& r.response@ == page_response(error_html())
                &&& effects_view(r.effects@) == callback_failure_effects(c)
                &&& r.exchange is None
            }
        }),
{
    let text = from_utf8_lossy(buf);
    callback_outcome(text.as_str())
}

/// The effects of a failed code exchange: a log line and a report to the
/// key's inspector.
pub fn exchange_failed(context: &str, error: &str) -> (out: Vec<Effect>)
    ensures
        effects_view(out@) == seq![
            EffectView::Send(log_view("OAuth callback error: "@ + error@)),
            EffectView::Send(
                OutgoingView::SendToPropertyInspector {
                    action: plugin_action(),
                    context: context@,
                    payload: PiPayloadView::AuthStatus {
                        kind: AuthStatusKind::Error,
                        error: Some(error@),
                    },
                },
            ),
        ],
{
    let mut out: Vec<Effect> = Vec::new();
    let mut text = owned("OAuth callback error: ");
    push_str(&mut text, error);
    emit_send(&mut out, log(text.as_str()));
    emit_send(
        &mut out,
        Outgoing::SendToPropertyInspector {
            action: plugin_action_str(),
            context: owned(context),
            payload: PiPayload::AuthStatus { kind: AuthStatusKind::Error, error: Some(owned(error)) },
        },
    );
    assert(effects_view(out@) =~= seq![
        EffectView::Send(log_view("OAuth callback error: "@ + error@)),
        EffectView::Send(
            OutgoingView::SendToPropertyInspector {
                action: plugin_action(),
                context: context@,
                payload: PiPayloadView::AuthStatus { kind: AuthStatusKind::Error, error: Some(error@) },
            },
        ),
    ]);
    out
}


/// The text after the first `c` of `a + c + b`, where `a` holds no `c`, is
/// `b`.
proof fn lemma_after_first(a: Seq<char>, c: char, b: Seq<char>)
    requires
        !a.contains(c),
    ensures
        after_char(a + seq![c] + b, c) == Some(b),
    decreases a.len(),
{
    let s = a + seq![c] + b;
    if a.len() == 0 {
        assert(s[0] == c);
        assert(s.drop_first() =~= b);
    } else {
        assert(s[0] == a[0]);
        assert(a[0] != c);
        let a2 = a.drop_first();
        assert(!a2.contains(c)) by {
            if a2.contains(c) {
                let i = choose|i: int| 0 <= i < a2.len() && a2[i] == c;
                assert(a[i + 1] == c);
            }
        }
        assert(s.drop_first() =~= a2 + seq![c] + b);
        lemma_after_first(a2, c, b);
    }
}

/// The key named in an authorisation's `state` (a nonce without `.`, a
/// `.`, then the key percent-encoded) is read back exactly, for a key of
/// Latin-1 characters.
pub proof fn lemma_state_names_context(nonce: Seq<char>, context: Seq<char>)
    requires
        !nonce.contains('.'),
        latin1(context),
    ensures
        state_context(nonce + seq!['.'] + encode_spec(context)) == Some(context),
{
    lemma_after_first(nonce, '.', encode_spec(context));
    lemma_percent_decode_inverts_encode(context);
}

} // verus!
