# tml

The verified core of a self-hosted music library service: users sign in,
scan storage locations for music files, search them, and keep ordered
music lists.

- `src/` is the library, verified with Verus. Every use case is a small
  state machine (`Handler::start`, `Handler::accepts`, `Handler::on_event`)
  that decides what to do next from what the last step returned; its
  contract states each transition exactly, and ghost state records the
  facts its authorization rules rest on (a list is only written by its
  owner, a token is only issued for an enabled account with a verified
  password, the first admin is only created when none exists).
  `ordering` places list entries with fractional indexes, `migration`
  describes the database schema as creation and removal plans,
  `infrastructure` holds the decisions of the service implementations
  (tag conversion, job planning, the incremental scan, error
  classification, search-result shaping, token expiry).
- `app/` runs those machines against the database (sea-orm), the search
  index (meilisearch), token signing (jsonwebtoken), and the file scanner
  (walkdir, lofty).
- `tests/` exercise the library on concrete values.
