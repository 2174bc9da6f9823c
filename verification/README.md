# Rufin

The controller of a music player: what is played and queued, what is kept of the libraries of
servers and local folders, which images and lyrics are shown, and what is told and asked for
meanwhile.

- `src/` is the library. `AppController` takes commands and answers, and holds what is to be
  told (`ControllerEvent`) and what is to be done outside (`Effect`). Every function states what
  it does over mathematical contents: a type `T` has a view `TView`, and a command of the
  controller is a function from one `ControllerView` to the next.
  - `model/` holds the plain types and their views.
  - `controller/` holds the commands; `controller/laws.rs` states what holds of several of them
    together.
  - `store.rs` holds what is kept between runs, in the tables of `table.rs`; `store_keys.rs`
    states that they are told apart by their keys.
  - `queue.rs`, `library_sync.rs`, `lyrics.rs`, `lyrics_search.rs`, `covers.rs` and
    the other modules hold what the commands are made of.
- `app/` surrounds the library: it does what is asked for with files, servers and the player, and
  hands back what came of it, an answer of the player among it.
- `tests/` runs the library.
