# chanvoy

A control-plane client for Mattermost: agents read, post, wait, search and keep track
of what they have seen, each under a profile of its own.

The library under `src/` decides; Verus proves what its functions promise. The
program under `app/` reads arguments, files and sockets, sends requests and prints.

## Layout

- `text`, `order`, `collections`, `json`, `base64url`, `clock`, `paths`: what the rest
  is written with.
- `types`, `error`: plain data and diagnostics.
- `profile`, `safe_read`, `bootstrap`: which profile a command works under, where its
  token comes from, which files may be read, and how a daemon takes over.
- `requests`, `posts`, `authors`, `channels`, `resolver`, `reads`, `writes`, `search`,
  `mentions`, `time_window`: what is asked of the provider, in which order, and what
  its answers mean.
- `attention`: cursors, how they are seeded, and how bare names get a team.
- `wait_channels`, `wait_dm`, `wait_follow`, `wait_inbox`, `inbox_wire`: waiting, the
  records that a follower gets, and the inbox cursor.
- `events`, `websocket`, `health`, `doctor`: the push connection, recovery, and checks.
- `host_build_info` and `cli`: what the program says of itself, what commands mean,
  and what they show.

## Trust

Calls into other crates stand behind small functions whose contracts are taken as
given; each says above it which function it calls and what is claimed of it.
