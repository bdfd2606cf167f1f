# s21_hijack

The verified core of a show-control companion for a digital mixing console.

- `src/` — the library, written in Verus. Every public function carries a
  contract over mathematical models (`Seq`, `Map`, spec functions); the
  `law_*` proof functions state properties that span several calls (for
  example, that cleaning a show twice changes nothing, or that rotation never
  deletes a copy newer than one it keeps).
  The application's event loop is a verified step function
  (`ui_events::on_ui_event`): the app drains its queue, applies each event
  and performs the actions it returns.
- `tests/` — ordinary Rust tests that run the library.
- `app/` — the program around the library: file and directory I/O (show
  files, safety copies, preferences, translation files), JSON
  (de)serialization through serde mirror types (show sections the library
  does not model travel through it as raw JSON), display metrics, and the
  floating-point conversions.

Trusted calls into other crates (chrono, serde_json) and into `std` are wrapped in
small `#[verifier::external_body]` functions whose doc comments say exactly
what is assumed.
