# kick_channel_role

A service that grants Discord roles by a member's relation to a Kick channel: follower, subscriber,
VIP, moderator, OG, and how long or how much. A rule is an OR of AND-groups of conditions on a
member's facts. The facts come from Kick's events and from probes of a viewer's card.

The library under `src/` decides; it is written and proved in Verus. What it does:

- `models`, `services::condition_eval`, `services::rule_sql` — rules, whom they hold of, and the
  WHERE clause that finds the same people in the database. `services::rule_meaning` says what the
  clause means on a row and proves that the two agree on rules whose values fit their targets, and on
  rows whose instants lie in the past; `services::rule_params` proves how the clause's parameters are
  numbered.
- `services::kick_probe`, `services::follow_sync`, `services::relation`, `services::follow_queue`,
  `services::refresh_queue` — what a card says, what an answer may change, who is probed and which
  channels are looked at, and why no follow is lost to a bad answer.
- `services::kick`, `routes::delivery`, `routes::webhooks`, `routes::event_effects` — Kick's API, and
  its events: how a delivery is verified and taken in, and what it has written.
- `services::sync`, `services::player_sync`, `services::role_sync` — which roles are given and taken.
- `services::api_key`, `routes::api_v1`, `routes::api_keys`, `routes::api_docs` — keys for other
  services, and what they read.
- `routes::oauth`, `routes::sign_in`, `routes::verify`, `routes::users`, `services::broadcaster_token`,
  `tasks::reconcile`, `routes::health`, `config` — connecting, linking, listing, and the rest.
- `text`, `url`, `json`, `time`, `crypto` — what the others are made of.

Functions whose names begin with `law_` state what holds of the library as a whole.

`app/` is ordinary Rust around the library: HTTP, the database, and the workers. The services beside
this one stand behind a trait there. `tests/` runs the library.
