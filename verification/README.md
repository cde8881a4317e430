# displex

displex links Discord accounts to Plex accounts, gives subscribers a Discord
linked role, keeps statistics channels on a Discord server up to date from
Tautulli, and sets Overseerr request quotas from each user's watch time.

## Layout

- `src/` is the verified library (Verus). It holds the decisions and the text
  the service produces: configuration defaults, request tiers, Tautulli and
  Discord request addresses, linked-role metadata, channel plans and names,
  bot replies, cookies and roles, token refresh rules, stored rows. Each public
  function states its result in its `ensures`; the properties that span
  functions are public proof functions.
- `app/` is the program around it: the command line, configuration loading,
  HTTP calls to Discord, Tautulli and Overseerr, and the serde models of their
  replies.
- `tests/` runs the library on concrete values.
