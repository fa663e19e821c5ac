# parakeet_ptt

A push-to-talk client for the Parakeet speech daemon. Hold a key, speak, let go: the transcript
is pasted where the cursor is. With a modifier held first, the transcript becomes a question to
a language model, and its answer is pasted.

`src/` is the library: sessions, key handling, the routing of messages to the overlay, the
injection of texts, answers as they stream in, and the sheet that the overlay shows. Its
functions carry contracts that Verus proves. Outside crates are called through a few trusted
items, each with a comment that says what is claimed of the call.

`app/` is the program around it: sockets, keyboards, the clipboard, child processes, Wayland and
drawing.

`tests/` runs the library.

The client starts the overlay as `parakeet-overlay` beside it. That is the same program under
another name, such as a link: called by that name it is the overlay.

The overlay loads its three faces from a directory `fonts` beside the program:
`Newsreader-Regular.ttf`, `Newsreader-Italic.ttf` and `FiraCode-Regular.ttf`.
