//! The plugin's shared state and what it does with each StreamDock event.
//!
//! The surrounding program parses each WebSocket message into an
//! `Incoming` value; `handle_event` updates the state and lists the effects
//! (messages, polls, launches) for the program to carry out, in order.
use vstd::prelude::*;
use crate::messages::{
    emit, emit_send, effects_view, follows_action, log, log_view, plugin_action, AuthStatusKind,
    Effect, EffectView, Outgoing, OutgoingView, PiPayload, PiPayloadView,
};
use crate::settings::{
    copy_opt, default_button, empty_global, fresh_context, opt_str, ButtonSettings,
    ButtonSettingsView, ContextState, ContextStateView, ContextType, GlobalSettings,
    GlobalSettingsView,
};
use crate::strs::{concat2, debug_str, owned, push_str, str_debug, str_eq, trim, trim_spec};
use crate::urlenc::{encode, encode_spec};

verus! {

// ── The key table ──────────────────────────────────────────────────────────

/// The keys shown on the device, each with its state, in the order they
/// appeared.
pub type CtxTable = Seq<(Seq<char>, ContextStateView)>;

/// Whether no key occurs twice in the table.
pub open spec fn keys_unique(c: CtxTable) -> bool {
    forall|i: int, j: int| 0 <= i < j < c.len() ==> #[trigger] c[i].0 != #[trigger] c[j].0
}

/// Whether the table has an entry for `k`.
pub open spec fn has_ctx(c: CtxTable, k: Seq<char>) -> bool {
    exists|i: int| 0 <= i < c.len() && #[trigger] c[i].0 == k
}

/// The position of `k`'s entry.
pub open spec fn ctx_index(c: CtxTable, k: Seq<char>) -> int {
    choose|i: int| 0 <= i < c.len() && #[trigger] c[i].0 == k
}

/// The state of key `k`, if the table has it.
pub open spec fn lookup(c: CtxTable, k: Seq<char>) -> Option<ContextStateView> {
    if has_ctx(c, k) {
        Some(c[ctx_index(c, k)].1)
    } else {
        None
    }
}

/// The table with `k`'s state set to `v`, added at the end if `k` is new.
pub open spec fn insert_ctx(c: CtxTable, k: Seq<char>, v: ContextStateView) -> CtxTable {
    if has_ctx(c, k) {
        c.update(ctx_index(c, k), (k, v))
    } else {
        c.push((k, v))
    }
}

/// The table with `k`'s state set to `v` if `k` is there, unchanged otherwise.
pub open spec fn set_ctx(c: CtxTable, k: Seq<char>, v: ContextStateView) -> CtxTable {
    if has_ctx(c, k) {
        c.update(ctx_index(c, k), (k, v))
    } else {
        c
    }
}

/// The table without `k`.
pub open spec fn remove_ctx(c: CtxTable, k: Seq<char>) -> CtxTable {
    if has_ctx(c, k) {
        c.remove(ctx_index(c, k))
    } else {
        c
    }
}

/// The keys of the table, in order.
pub open spec fn ctx_keys(c: CtxTable) -> Seq<Seq<char>> {
    c.map_values(|p: (Seq<char>, ContextStateView)| p.0)
}

/// The view of a table of key states.
pub open spec fn table_view(v: Seq<(String, ContextState)>) -> CtxTable {
    v.map_values(|p: (String, ContextState)| (p.0@, p.1@))
}

/// The views of a list of strings.
pub open spec fn strings_view(v: Seq<String>) -> Seq<Seq<char>> {
    v.map_values(|s: String| s@)
}

// ── The plugin state ───────────────────────────────────────────────────────

/// Everything the plugin remembers between events.
pub struct PluginState {
    /// This plugin instance's UUID, given on the command line.
    pub plugin_uuid: String,
    pub global_settings: GlobalSettings,
    /// The keys currently shown, with their state.
    pub contexts: Vec<(String, ContextState)>,
    /// The devices that have connected, in order.
    pub known_devices: Vec<String>,
}

/// The view of `PluginState`.
pub struct PluginView {
    pub uuid: Seq<char>,
    pub global: GlobalSettingsView,
    pub contexts: CtxTable,
    pub devices: Seq<Seq<char>>,
}

impl View for PluginState {
    type V = PluginView;

    open spec fn view(&self) -> PluginView {
        PluginView {
            uuid: self.plugin_uuid@,
            global: self.global_settings@,
            contexts: table_view(self.contexts@),
            devices: strings_view(self.known_devices@),
        }
    }
}

impl PluginView {
    /// The state is well formed: no key has two entries.
    pub open spec fn wf(self) -> bool {
        keys_unique(self.contexts)
    }
}

/// Looking a key up after setting it gives the state that was set.
pub proof fn lemma_lookup_insert(c: CtxTable, k: Seq<char>, v: ContextStateView)
    requires
        keys_unique(c),
    ensures
        keys_unique(insert_ctx(c, k, v)),
        lookup(insert_ctx(c, k, v), k) == Some(v),
{
    let d = insert_ctx(c, k, v);
    if has_ctx(c, k) {
        let i = ctx_index(c, k);
        assert(d[i].0 == k);
        assert forall|a: int, b: int| 0 <= a < b < d.len() implies #[trigger] d[a].0
            != #[trigger] d[b].0 by {
            assert(c[a].0 != c[b].0);
        }
        assert(has_ctx(d, k));
        let j = ctx_index(d, k);
        assert(j == i);
    } else {
        assert forall|a: int, b: int| 0 <= a < b < d.len() implies #[trigger] d[a].0
            != #[trigger] d[b].0 by {
            if b == c.len() {
                assert(d[a].0 == c[a].0);
            } else {
                assert(c[a].0 != c[b].0);
            }
        }
        assert(d[c.len() as int].0 == k);
        assert(has_ctx(d, k));
        let j = ctx_index(d, k);
        assert(j == c.len());
    }
}

/// Setting one key leaves every other key's state as it was.
pub proof fn lemma_lookup_insert_other(
    c: CtxTable,
    k: Seq<char>,
    v: ContextStateView,
    other: Seq<char>,
)
    requires
        keys_unique(c),
        other != k,
    ensures
        lookup(insert_ctx(c, k, v), other) == lookup(c, other),
{
    lemma_lookup_insert(c, k, v);
    let d = insert_ctx(c, k, v);
    if has_ctx(c, other) {
        let i = ctx_index(c, other);
        assert(d[i].0 == other);
        assert(has_ctx(d, other));
        assert(ctx_index(d, other) == i);
    } else {
        if has_ctx(d, other) {
            let j = ctx_index(d, other);
            if j < c.len() {
                assert(c[j].0 == other);
            }
        }
    }
}

/// After a key is removed, looking it up finds nothing.
pub proof fn lemma_lookup_remove(c: CtxTable, k: Seq<char>)
    requires
        keys_unique(c),
    ensures
        keys_unique(remove_ctx(c, k)),
        lookup(remove_ctx(c, k), k) is None,
{
    let d = remove_ctx(c, k);
    if has_ctx(c, k) {
        let i = ctx_index(c, k);
        assert forall|a: int, b: int| 0 <= a < b < d.len() implies #[trigger] d[a].0
            != #[trigger] d[b].0 by {
            let a2 = if a < i {
                a
            } else {
                a + 1
            };
            let b2 = if b < i {
                b
            } else {
                b + 1
            };
            assert(d[a] == c[a2]);
            assert(d[b] == c[b2]);
        }
        if has_ctx(d, k) {
            let j = ctx_index(d, k);
            let j2 = if j < i {
                j
            } else {
                j + 1
            };
            assert(d[j] == c[j2]);
        }
    }
}

/// Setting an existing key keeps the keys unique and the key's place.
pub proof fn lemma_set_ctx(c: CtxTable, k: Seq<char>, v: ContextStateView)
    requires
        keys_unique(c),
    ensures
        keys_unique(set_ctx(c, k, v)),
        ctx_keys(set_ctx(c, k, v)) == ctx_keys(c),
{
    let d = set_ctx(c, k, v);
    if has_ctx(c, k) {
        let i = ctx_index(c, k);
        assert forall|a: int, b: int| 0 <= a < b < d.len() implies #[trigger] d[a].0
            != #[trigger] d[b].0 by {
            assert(c[a].0 != c[b].0);
        }
    }
    assert(ctx_keys(d) =~= ctx_keys(c));
}

/// Setting a shown key reads back the state that was set, and leaves every
/// other key's state, and which keys are shown, as they were.
pub proof fn lemma_lookup_set(c: CtxTable, k: Seq<char>, v: ContextStateView, other: Seq<char>)
    requires
        keys_unique(c),
    ensures
        has_ctx(c, k) ==> lookup(set_ctx(c, k, v), k) == Some(v),
        other != k ==> lookup(set_ctx(c, k, v), other) == lookup(c, other),
        keys_unique(set_ctx(c, k, v)),
        ctx_keys(set_ctx(c, k, v)) == ctx_keys(c),
{
    lemma_set_ctx(c, k, v);
    if has_ctx(c, k) {
        assert(set_ctx(c, k, v) == insert_ctx(c, k, v));
        lemma_lookup_insert(c, k, v);
        if other != k {
            lemma_lookup_insert_other(c, k, v, other);
        }
    }
}

impl PluginState {
    /// A new state for the plugin instance `uuid`, with the devices named at
    /// start-up.
    pub fn new(uuid: String, devices: Vec<String>) -> (r: PluginState)
        ensures
            r@ == (PluginView {
                uuid: uuid@,
                global: empty_global(),
                contexts: Seq::empty(),
                devices: strings_view(devices@),
            }),
            r@.wf(),
    {
        let r = PluginState {
            plugin_uuid: uuid,
            global_settings: GlobalSettings::empty(),
            contexts: Vec::new(),
            known_devices: devices,
        };
        assert(r@.contexts =~= Seq::<(Seq<char>, ContextStateView)>::empty());
        r
    }

    /// The position of key `key`, if it is shown.
    pub fn find(&self, key: &str) -> (r: Option<usize>)
        requires
            self@.wf(),
        ensures
            r is None ==> !has_ctx(self@.contexts, key@),
            r matches Some(i) ==> has_ctx(self@.contexts, key@) && i == ctx_index(
                self@.contexts,
                key@,
            ) && i < self.contexts@.len(),
    {
        let mut i: usize = 0;
        while i < self.contexts.len()
            invariant
                self@.wf(),
                i <= self.contexts@.len(),
                forall|j: int| 0 <= j < i ==> #[trigger] self@.contexts[j].0 != key@,
            decreases self.contexts@.len() - i,
        {
            if str_eq(self.contexts[i].0.as_str(), key) {
                proof {
                    let c = self@.contexts;
                    assert(c[i as int].0 == key@);
                    assert(has_ctx(c, key@));
                    let j = ctx_index(c, key@);
                    assert(c[j].0 == key@);
                    if j != i {
                        if j < i {
                            assert(c[j].0 != c[i as int].0);
                        } else {
                            assert(c[i as int].0 != c[j].0);
                        }
                    }
                }
                return Some(i);
            }
            proof {
                assert(self@.contexts[i as int].0 == self.contexts@[i as int].0@);
            }
            i = i + 1;
        }
        proof {
            let c = self@.contexts;
            if has_ctx(c, key@) {
                let j = ctx_index(c, key@);
                assert(c[j].0 == key@);
            }
        }
        None
    }

    /// The keys currently shown, in order.
    pub fn keys(&self) -> (r: Vec<String>)
        ensures
            strings_view(r@) == ctx_keys(self@.contexts),
    {
        let mut r: Vec<String> = Vec::new();
        let mut i: usize = 0;
        while i < self.contexts.len()
            invariant
                i <= self.contexts@.len(),
                strings_view(r@) == ctx_keys(self@.contexts).take(i as int),
            decreases self.contexts@.len() - i,
        {
            let ghost prev = r@;
            r.push(self.contexts[i].0.clone());
            proof {
                assert(ctx_keys(self@.contexts)[i as int] == self.contexts@[i as int].0@);
                assert(strings_view(r@) =~= strings_view(prev).push(r@[i as int]@));
                assert(ctx_keys(self@.contexts).take(i + 1) =~= ctx_keys(self@.contexts).take(
                    i as int,
                ).push(ctx_keys(self@.contexts)[i as int]));
                assert(strings_view(r@) =~= ctx_keys(self@.contexts).take(i + 1));
            }
            i = i + 1;
        }
        assert(ctx_keys(self@.contexts).take(self.contexts@.len() as int) =~= ctx_keys(
            self@.contexts,
        ));
        r
    }

    /// Shows key `key` with state `st`, replacing any state it had.
    pub fn insert(&mut self, key: String, st: ContextState)
        requires
            old(self)@.wf(),
        ensures
            final(self)@ == (PluginView {
                contexts: insert_ctx(old(self)@.contexts, key@, st@),
                ..old(self)@
            }),
            final(self)@.wf(),
    {
        proof {
            lemma_lookup_insert(self@.contexts, key@, st@);
        }
        match self.find(key.as_str()) {
            Some(i) => {
                let ghost kv = key@;
                let ghost sv = st@;
                self.contexts.set(i, (key, st));
                assert(self@.contexts =~= old(self)@.contexts.update(i as int, (kv, sv)));
            },
            None => {
                let ghost kv = key@;
                let ghost sv = st@;
                self.contexts.push((key, st));
                assert(self@.contexts =~= old(self)@.contexts.push((kv, sv)));
            },
        }
    }

    /// Stops showing key `key`.
    pub fn remove(&mut self, key: &str)
        requires
            old(self)@.wf(),
        ensures
            final(self)@ == (PluginView {
                contexts: remove_ctx(old(self)@.contexts, key@),
                ..old(self)@
            }),
            final(self)@.wf(),
    {
        proof {
            lemma_lookup_remove(self@.contexts, key@);
        }
        match self.find(key) {
            Some(i) => {
                self.contexts.remove(i);
                assert(self@.contexts =~= old(self)@.contexts.remove(i as int));
            },
            None => {},
        }
    }

    /// Replaces the state of the key at position `i`.
    pub fn replace_at(&mut self, i: usize, st: ContextState)
        requires
            old(self)@.wf(),
            i < old(self).contexts@.len(),
        ensures
            final(self)@ == (PluginView {
                contexts: set_ctx(
                    old(self)@.contexts,
                    old(self)@.contexts[i as int].0,
                    st@,
                ),
                ..old(self)@
            }),
            final(self)@.wf(),
    {
        let ghost c = self@.contexts;
        let ghost k = c[i as int].0;
        proof {
            assert(has_ctx(c, k));
            let j = ctx_index(c, k);
            if j != i {
                if j < i {
                    assert(c[j].0 != c[i as int].0);
                } else {
                    assert(c[i as int].0 != c[j].0);
                }
            }
            lemma_set_ctx(c, k, st@);
        }
        let key = self.contexts[i].0.clone();
        self.contexts.set(i, (key, st));
        assert(self@.contexts =~= c.update(i as int, (k, st@)));
    }

    /// Sets the global settings, announcing them as `setGlobalSettings`.
    pub fn save_global_auth(&mut self, fields: GlobalSettings) -> (o: Outgoing)
        ensures
            final(self)@ == (PluginView {
                global: crate::settings::merge_spec(old(self)@.global, fields@),
                ..old(self)@
            }),
            o@ == (OutgoingView::SetGlobalSettings {
                context: old(self)@.uuid,
                settings: final(self)@.global,
            }),
    {
        self.global_settings.merge(fields);
        Outgoing::SetGlobalSettings {
            context: self.plugin_uuid.clone(),
            settings: self.global_settings.duplicate(),
        }
    }

    /// Forgets the account, announcing the empty settings as
    /// `setGlobalSettings`.
    pub fn clear_global_auth(&mut self) -> (o: Outgoing)
        ensures
            final(self)@ == (PluginView { global: empty_global(), ..old(self)@ }),
            o@ == (OutgoingView::SetGlobalSettings {
                context: old(self)@.uuid,
                settings: empty_global(),
            }),
    {
        self.global_settings.clear();
        Outgoing::SetGlobalSettings {
            context: self.plugin_uuid.clone(),
            settings: self.global_settings.duplicate(),
        }
    }

    /// Sends `payload` to the property inspector of every shown key.
    pub fn broadcast_auth_status(&self, payload: &PiPayload, out: &mut Vec<Effect>)
        ensures
            effects_view(final(out)@) == effects_view(old(out)@) + broadcast_view(
                ctx_keys(self@.contexts),
                payload@,
            ),
    {
        let keys = self.keys();
        let mut i: usize = 0;
        while i < keys.len()
            invariant
                i <= keys@.len(),
                strings_view(keys@) == ctx_keys(self@.contexts),
                effects_view(out@) == effects_view(old(out)@) + broadcast_view(
                    strings_view(keys@),
                    payload@,
                ).take(i as int),
            decreases keys@.len() - i,
        {
            let o = Outgoing::SendToPropertyInspector {
                action: crate::messages::plugin_action_str(),
                context: keys[i].clone(),
                payload: copy_payload(payload),
            };
            emit_send(out, o);
            proof {
                assert(effects_view(out@) =~= effects_view(old(out)@) + broadcast_view(
                    strings_view(keys@),
                    payload@,
                ).take(i + 1));
            }
            i = i + 1;
        }
        assert(broadcast_view(strings_view(keys@), payload@).take(keys@.len() as int)
            =~= broadcast_view(strings_view(keys@), payload@));
    }

    /// Asks for one poll of every shown key.
    pub fn poll_all(&self, out: &mut Vec<Effect>)
        ensures
            effects_view(final(out)@) == effects_view(old(out)@) + poll_all_view(
                ctx_keys(self@.contexts),
            ),
    {
        let keys = self.keys();
        let mut i: usize = 0;
        while i < keys.len()
            invariant
                i <= keys@.len(),
                strings_view(keys@) == ctx_keys(self@.contexts),
                effects_view(out@) == effects_view(old(out)@) + poll_all_view(
                    strings_view(keys@),
                ).take(i as int),
            decreases keys@.len() - i,
        {
            emit(out, Effect::PollContext(keys[i].clone()));
            proof {
                assert(effects_view(out@) =~= effects_view(old(out)@) + poll_all_view(
                    strings_view(keys@),
                ).take(i + 1));
            }
            i = i + 1;
        }
        assert(poll_all_view(strings_view(keys@)).take(keys@.len() as int) =~= poll_all_view(
            strings_view(keys@),
        ));
    }
}

/// A copy of a property-inspector payload.
pub fn copy_payload(p: &PiPayload) -> (r: PiPayload)
    ensures
        r@ == p@,
{
    match p {
        PiPayload::MonitorStatus { display_name, avatar_url, is_live, viewer_count } =>
            PiPayload::MonitorStatus {
            display_name: display_name.clone(),
            avatar_url: copy_opt(avatar_url),
            is_live: *is_live,
            viewer_count: *viewer_count,
        },
        PiPayload::FollowsCount { count } => PiPayload::FollowsCount { count: *count },
        PiPayload::AuthStatus { kind, error } => PiPayload::AuthStatus {
            kind: *kind,
            error: copy_opt(error),
        },
        PiPayload::AuthSuccess { authed_display_name, authed_avatar_url } =>
            PiPayload::AuthSuccess {
            authed_display_name: authed_display_name.clone(),
            authed_avatar_url: authed_avatar_url.clone(),
        },
    }
}

/// One poll request for each key.
pub open spec fn poll_all_view(keys: Seq<Seq<char>>) -> Seq<EffectView> {
    Seq::new(keys.len(), |i: int| EffectView::PollContext(keys[i]))
}

/// A `sendToPropertyInspector` of `payload` (as the monitor action) for each key.
pub open spec fn broadcast_view(keys: Seq<Seq<char>>, payload: PiPayloadView) -> Seq<EffectView> {
    Seq::new(
        keys.len(),
        |i: int|
            EffectView::Send(
                OutgoingView::SendToPropertyInspector {
                    action: plugin_action(),
                    context: keys[i],
                    payload,
                },
            ),
    )
}

} // verus!
