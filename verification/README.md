# com_terminal

Serial-port (COM) terminals with a GUI: a verified library of their logic, and
a thin program around it.

## Layout

- `src/` — the library, verified with Verus.
  - `hex`, `hex_utils`: hex dumps of byte payloads and decoding of typed hex
    text, with the round-trip law (a dump decodes back to its bytes).
  - `claude_com`, `claude_com2`, `com_term`, `com_gpt`, `com_gemini`, `app`:
    the state machines of the terminal front-ends. Each `update` takes the
    terminal's state and a message to the next state and the port work the
    program has to do; the outcome of that work comes back as messages or
    through `*_result` methods. Port readers and workers are described the
    same way, one read at a time.
  - `pages_ru`, `pages_uk`: the texts shown on the terminal pages.
  - `cli_com`: the command-line file sender's commands and arguments.
  - `text`, `port_io`: decimal rendering, log helpers, and received-byte
    decoding.
- `tests/` — tests of the library on concrete values.
- `app/` — the program: windows (iced), serial ports (serialport,
  tokio-serial), threads and channels. `app/main.rs` picks a front-end by its
  first argument.
