# music_bot

A Discord music bot whose decisions are verified with Verus.

- `src/` is the verified library:
  - `config_loader`: the bot's configuration, ban checks, the configuration
    file's template, and when a new file may be written.
  - `error`: the error types and their messages.
  - `thread_interfacer`, `threading`: the messages sent to a server's music thread.
  - `server_thread`: the music thread as a state machine (`MusicPlayer::step`),
    its queue, the voice-handler lookup and joining a voice channel.
  - `bot`: answers of the command hooks.
  - `text`: decimal notation of numbers.
- `app/` is the program around it: file I/O, TOML parsing, and the serenity
  client that runs the commands and the music thread's loop.
- `tests/` runs the library on concrete values.
