# clipflow

The core of ClipFlow, a clipboard history manager for the desktop, written
in Verus: the library's own functions in `src/` carry contracts that Verus
proves. Calls into outside code stand behind trusted items whose contracts
are believed, not proved.

- `src/` — the verified library: content categories and signatures, image
  `data:` URLs, the suppression flags that keep the monitor from recording
  the application's own writes, the capture session that decides what is
  new, the monitor's message loop and its supervisor, clipboard writes and
  retries, deleted-content tracking for forced syncs, the paste queue, phone
  uploads (images, file names that do not clash), translation helpers and
  window placement. The trusted items: `codec.rs` wraps the `base64` and
  `image` crates and std's hasher; `upload.rs` wraps std's `Path` methods
  (`join`, `file_stem`, `extension`, `file_name`, `exists`); `text.rs`
  gives a contract to `String::push`.
- `tests/` — tests of the library on concrete values.
- `app/` — the desktop application around the library: Tauri commands and
  window, the SQLite history, the Win32 clipboard listener, the HTTP server
  for the phone. It runs the loops and does the I/O; the library decides.
