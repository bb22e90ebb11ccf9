# Twitch Monitor StreamDock plugin — verified core

A StreamDock / OpenDeck / Stream Deck plugin that shows Twitch channels' live
status on keypad buttons, with its decision logic proved correct by Verus.

## Layout

- `src/` — the verified library (crate `twitchmonitor`):
  - `settings`, `plugin` — the global (account) settings, the per-key
    settings and state, and the plugin state with its key table;
  - `events` — what each host event does: the next state and the effects;
  - `poll` — the background polls of a key (channel monitor, follows
    counter, recovery after a refused token) as step machines that name the
    outside work they need;
  - `index` — the live-channel-by-index key: which followed live channel
    holds a slot in viewer order, and its poll;
  - `twitch`, `kick` — request URLs, forms, status checks and how answers
    are stored;
  - `oauth` — the OAuth callback request and its answer;
  - `raster`, `images`, `viewers` — key images: pixels of the placeholder,
    badge, banner and overlay, PNG data URIs, the viewer-count label;
  - `urlenc`, `creds`, `strs`, `clock`, `audio`, `startup`, `messages` —
    text helpers, credentials, the clock, the alert sound's bytes, start-up
    messages and the message types.
- `tests/` — tests of the library on concrete values.
- `app/` — the plugin process: the WebSocket connection (and the short
  second connection that switches profiles), HTTP calls, the
  OAuth callback server, text drawing with `ab_glyph`, sound playback with
  `rodio`, and the loops that carry out what the library decides.

Each module states its contracts over mathematical models (`Seq`, views of
the data types); the laws that span several functions (what an event keeps,
what a poll may change, that every poll finishes) are public proof
functions next to the code they speak of.
