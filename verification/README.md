# antinuke

An anti-nuke moderation bot for Discord guilds. `src/` is its decision core: who is trusted, who did
what, when somebody is banned, what is put back, which messages are deleted, and what each command
does. Verus proves the contracts of its functions. It believes those of the wrappers and declarations
that stand for outside crates and the standard library; each of them says in its doc comment what is
taken for granted. `app/` is the bot around it: gateway, database, web calls and the clock.

## Layout

- `table`, `text`, `number`, `json`, `pattern`, `time`, `tally`: collections and plain values.
- `permission`, `config`, `snapshot`, `state`, `load`: what the bot knows of a guild.
- `actor`, `guard`, `watch_channel`, `watch_guild`, `watch_member`: who acted, and what follows.
- `receive`, `inspect`: messages.
- `command`, `command_owner`, `command_mod`, `command_link`, `command_info`, `dispatch`, `slash`,
  `embed`: commands and what is posted.

The core decides one event at a time. The bot keeps its memory behind a lock and gives it back before
it waits for anything.

Time is counted in whole milliseconds. A span that a guild has set keeps its seconds as they are
stored, beside the milliseconds that lie within it. What only floating point can hold, such as
coordinates and the seconds in the database, stays in `app/`.
