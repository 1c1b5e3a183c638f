# serenity_guild

The guild model of a Discord client, verified with Verus: how a member's and a role's
permissions come out of roles and channel overwrites, which of two members ranks
higher, the checks made before guild actions (bans, deletion, edits), member search
by name, nickname and status, image URLs, and building a guild from the fields of its
gateway payload.

## Layout

- `src/` — the library, every function with a contract proved by Verus.
  - `permissions.rs` — the permission bit set.
  - `model.rs`, `id.rs`, `levels.rs`, `welcome.rs`, `records.rs`, `guild.rs` — the
    values a guild is made of.
  - `access.rs` — channel and guild permissions, default channels, pre-action checks.
  - `hierarchy.rs` — role hierarchy between members.
  - `search.rs`, `text.rs` — member search and the text operations it needs.
  - `keyed.rs`, `payload.rs` — one entry per id, and building a guild from its payload.
  - `urls.rs` — CDN URLs of icons, banners and splashes.
  - `seq_lib.rs` — facts about sequences used by the proofs.
- `tests/` — tests of the library on concrete values.
- `app/` — JSON reading and writing of the model with serde; not verified.

Laws that relate several operations are public proof functions named `lemma_*`.
