# hacksquad

A Discord bot for HackSquad: team leaderboards, team cards, Novu contributor
("hero") cards and team autocompletion.

- `src/` is the verified library (Verus): what every command shows (as plain
  embed models), the paginated leaderboard and its button state machine, the
  per-user session map, autocompletion suggestions, cache keys and request
  addresses, and the routing of interactions.
- `app/` is the bot itself: the Discord client, the Redis cache, HTTP
  requests, JSON decoding, reading the environment and the git repository.
  It hands plain values to the library and sends back what the library
  decides.
- `tests/` runs the library on concrete values.
