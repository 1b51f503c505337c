# conrod_thread

A chat client built on the conrod GUI library. The decisions of its loops and widgets are a
verified library under `src/`; the windows, threads, channels, rendering and the game
server's wire format are ordinary Rust under `app/`.

- `src/widget_id.rs`: conrod's widget ids, id lists and id generator, and what resizing a
  list does to it.
- `src/custom_widget/`: the chat views' cached ids, and what the text box and the "Enter"
  button do to the text being edited.
- `src/support/`: the window thread's event loop (frame pacing, blocking, event order) and
  the events it reads.
- `src/engine.rs`: when the window loop quits or redraws.
- `src/run_conrod_borrow.rs`, `src/run_conrod.rs`: the conrod thread's loop (the text it
  shows, when it blocks) and the reloading of the look's shared library.
- `src/gui.rs`: which server messages enter the chat history.
