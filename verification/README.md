# pi_interactive

The verified core of the interactive front end of the Pi agent: what extensions may do to the
session, to the agent and to the user, decided on plain values and proved with Verus.

- `src/extension_ui.rs`: the prompts of extensions' dialogs, and what answers to them mean.
- `src/host_actions.rs`, `src/messages.rs`: where the messages of extensions are delivered.
- `src/ext_session.rs`, `src/session.rs`, `src/config.rs`, `src/thinking.rs`: what extensions read
  from the session and how they change it.
- `src/policy.rs`, `src/permissions.rs`, `src/host_calls.rs`: which calls of extensions into the
  host are made.
- `src/commands.rs`, `src/conversation.rs`, `src/credentials.rs`, `src/diff.rs`, `src/preview.rs`,
  `src/scoped_models.rs`, `src/share.rs`: what the user types and sees.
- `src/json.rs`, `src/members.rs`, `src/text.rs`: the data that these work on.

`app/` is the host around the core: locks, channels, the environment, and the JSON of `serde_json`.
The properties that span functions are the public proof functions whose names start with `law_`.
