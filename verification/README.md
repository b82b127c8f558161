# ss14_discord_bot

A Discord bot for a Space Station 14 community: it links Discord accounts to
game accounts, removes players' saved preferences, hands out sponsor roles
(for good or for a while) and takes them back when they run out.

- `src/` is the verified library: every decision of the bot, and the text of
  every reply, with its contract proved by Verus. Commands are read from the
  options Discord resolved; commands that need several lookups are state
  machines (`start`, then `step` with each lookup's result) that say which
  lookup comes next or how to answer.
- `app/` is the running bot around it: the Discord client (serenity), the
  databases (sqlx), the configuration and the authentication service. It
  converts between those libraries' values and the library's, performs the
  lookups the library asks for, and sends what it answers.
- `tests/` exercises the library on concrete values.

Not included: the ping, user-id and summon commands, and an implementation of
the authentication service client (`app/services.rs` declares it as a trait);
`command_definitions` lists only the commands implemented here.
