# cervisia

A beer list for a shared fridge: users pick their name on a touch screen, buy a
drink from a quick menu, and can undo a purchase from the purchase log.

- `src/` is the library, verified with Verus.
  - `rustix.rs` holds the beer-list backend of the `rustix-bl` crate behind trusted
    wrappers whose contracts restate what that crate does.
  - `beerlist.rs` calls the backend only where it cannot panic, and keeps the
    purchase ids unique and increasing, the count tallies equal to the logged
    purchases, and the user search tied to the users' names.
  - `screen.rs` is the state of the windows (user page, quick menu, purchase log,
    selection) and the handlers that compute the next state from one input.
  - `text.rs`, `clock.rs`, `settings.rs`, `assistant.rs`, `mock.rs`: labels and
    numbers, the local time via `chrono`, the settings path, the data of the
    assistant dialogs, and demonstration data drawn with `rand`.
  - `laws.rs` states properties that relate several operations.
- `app/` is the GTK program around the library: it builds the windows from the
  glade files, reads the settings, sends notifications and redraws the widgets from
  the library's state after each handler.
- `tests/` runs the library on concrete values.
