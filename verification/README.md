# sysenix

The verified core of Sysenix, a local assistant that looks at the screen,
asks a reasoning model what to do next, asks a grounding model where that is,
and clicks there.

- `src/` is the library, verified with Verus: base64 encoding of screenshots,
  prompt and request texts, the JSON protocol with the model worker, the PNG
  header check, the click bounds check, command-line reading, and the
  decisions of the request loop.
- `app/` is the program around it: processes, files, the macOS
  CoreGraphics calls, floating-point display geometry, and serde_json parsing.
- `tests/` runs the library on concrete inputs.

The program is run as `sysenix "<instruction>"` (or `sysenix reason <image>
"<instruction>"` for a single reasoning step). The Python sources of the
models and the worker are read from the project root's `macos/` directory when
the worker starts; the C entry points for a native front end are in
`app/bridge.rs`.

The program has no status-bar front end (that would be user-interface code
for the `cocoa` and `objc` crates, with no logic of its own) and no
interactive console loop that reads an action out of each model answer (the
parser of such answers is not part of the sources).
