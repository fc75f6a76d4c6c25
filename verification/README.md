# forger

The decision logic of a chat bot that talks to NapCat (OneBot) over a websocket and to
the Discord gateway, written in Verus and verified.

- `src/pending.rs` — the requests waiting for their answers: Bevy's `HashMap` from echo
  to the sender of each answer channel, viewed as a map from echo to channel.
- `src/adapter.rs` — what the NapCat adapter does with each frame it reads and each
  action it is asked to send, how events are dispatched, and the reconnect decision;
  with the laws that tie submitted requests to their answers.
- `src/actions.rs`, `src/models.rs`, `src/events.rs` — the NapCat data, and the creation
  of a request with a fresh echo and the two ends of its answer channel.
- `src/bot.rs` — reading the data out of answers, and the echo bot's reply.
- `src/discord.rs` — Discord API address building and the gateway settings.
- `src/config.rs` — the NapCat connection address.
- `app/` — the Bevy/tokio program around the library: websocket and gateway I/O,
  configuration loading, JSON (de)serialisation and the Bevy plumbing.
