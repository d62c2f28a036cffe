# hygg

A terminal document reader: the text is justified to a column, read with
vim-style keys, searched, selected and bookmarked, and shell commands can
be run with their output shown in a split. An online client fetches the
document from a reading server and reports the reading position.

- `src/` is the verified library. Its functions state what they do in
  `requires`/`ensures` over spec functions and views, and Verus proves
  them. The laws that span several functions (round trips of overlays and
  splits, saving and loading buffers, marks, settings, justification,
  demo playback, the command line) are public proof functions.
- `app/` is the program around it: argument parsing, the terminal, files,
  the shell and the HTTP client. It hands the library plain values. A
  shell command runs only when the library's check lets it (its first
  word must be one of the listed commands); it runs as a program with its
  arguments, without a shell, and is stopped after 30 seconds.
- `tests/` runs the library on concrete inputs.
