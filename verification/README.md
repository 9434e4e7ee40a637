# clutch

The decision logic of a desktop client for a Transmission daemon, written
in Verus and verified: every screen is a state machine whose `update`
function states, for each message, the next state and the follow-up work
(RPC calls, file dialogs, focus changes) that the application performs.

Layout:

- `src/` — the verified library.
  - `torrent_list.rs`, `filters.rs`, `sort.rs`, `add_dialog.rs`: the torrent
    list, its selection, filter chips, column sort and the add dialog.
  - `inspector.rs`, `main_screen.rs`: the detail panel and the screen that
    routes messages between it and the list.
  - `settings.rs`, `profile.rs`, `connection.rs`: connection profiles, the
    settings screen with its unsaved-change guard, and the connection screen.
  - `torrent_file.rs`: `.torrent` files for the add dialog (base64 and
    metainfo parsing through the `base64` and `lava_torrent` crates);
    `nesting.rs`: the bound on how deeply bencode nests, checked before
    parsing.
  - `tray.rs`, `theme.rs`, `text.rs`, `torrent.rs`, `rpc.rs`: tray menu IDs,
    widget state, text parsing and rendering, and the shared data types.
  - `laws.rs`: properties across calls and invariants, proved over the same
    specifications as the contracts.
- `tests/` — tests of the library on concrete values.
- `app/` — what is left to the application: file reading, UUID conversion
  and floating-point formatting.
