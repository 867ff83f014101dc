# quivive

Qui Vive is a Discord moderation bot. This crate holds what the bot decides
and what it writes, verified with Verus; `app/` runs it against Discord and
PostgreSQL.

- `src/text.rs`: decimal rendering and left-to-right placeholder substitution,
  with their specifications and laws.
- `src/model.rs`: users and mentions; a user's picture URL comes from serenity.
- `src/embed.rs`, `src/helpers/embed_store.rs`: the embeds posted for bans,
  kicks, warns, mutes and configuration.
- `src/handlers/`: the start-up gate, and the steps taken when a member joins
  (greeting, welcome roles) or leaves (farewell), as state machines whose whole
  runs are described by proved lemmas.
- `src/commands/owner.rs`: what `restart` and `stop` do, in order, and how a
  failed step ends the command before any later step.
- `src/helpers/botinfo.rs`, `src/helpers/credentials_helper.rs`: latency text,
  the memory probe command, executable names, and which credentials commands
  may read.
- `src/structures/`: error messages, shared-data keys and command groups.
- `app/`: the program: gateway client, database queries, event loop.
