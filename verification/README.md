# fz_bot

A Telegram bot that starts and stops Factorio servers on factorio.zone, hands out their saves and
shows pictures of blueprint posts. Its decisions are verified with Verus.

- `src/` is the verified library. `api` is the client of the zone, `bot` and `flow` decide what
  the bot does about messages and pressed buttons, `vote` counts votes, `reconnect` spaces out
  attempts to connect. `client_laws` and `bot_laws` state what holds of these as a whole.
  `json` and `pattern` hold the calls into `serde_json` and `regex`.
- `app/` is the program: it talks to Telegram and to the zone, and performs what the library
  decides.
- `tests/` runs the library on concrete values.
