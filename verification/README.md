# linkshot

A Lightshot-style screenshot tool for Linux and macOS: it grabs the whole
screen, lets you select a region and annotate it (pen, line, arrow,
rectangle), then uploads the result anonymously to Imgur or saves it as a PNG.

Layout:

- `src/` — the library, verified with Verus:
  - `capture.rs`: the table of native screenshot tools, `PATH` lookup, the
    command line of each tool, and the procedure that walks the table;
  - `config.rs`: which Imgur Client-ID is in effect;
  - `editor.rs`: the annotation model, the un-premultiplication of rendered
    pixels, cropping and PNG encoding (through the `image` crate);
  - `imgur.rs`: what goes into an upload request and what Imgur's reply means;
  - `session.rs`: the state of an editing session and how each user action
    changes it;
  - `text.rs`: the string helpers the others share.
- `app/` — the program around it: the egui overlay, pointer and keyboard
  input, drawing with tiny-skia, the HTTP upload, files and the clipboard.
- `tests/` — tests of the library.
