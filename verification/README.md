# browser-core

The logic of a small desktop web browser, written in Verus and proved
against its contracts: URL cleaning and the command bar, host-based ad and
tracker blocking, per-site compatibility rules and the polyfill bundle, the
download queue, the tab list, tab ids, paint scheduling and the frame handed
from the rendering engine to the window, and pixel layout conversions.

Layout:

- `src/` — the verified library: each function with its contract, and
  proof functions for the laws that span several calls.
  - `text.rs`, `web_url.rs` — string helpers and the calls into the `url`
    crate.
  - `compat/` — user agent, environment switches, polyfills, site rules.
  - `shields.rs`, `downloader.rs`, `storage.rs`.
  - `ui/` — tabs, navigation, site type, engine decisions, rendering state,
    pixels.
- `tests/` — ordinary Rust tests run against the compiled library.
- `app/` — the program around the library: the window (Slint), the
  rendering engines, GL and the platform surfaces, SQLite storage and the
  network. It is not verified.
