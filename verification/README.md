# decmp

A multi-format archive utility (zip, 7z, tar and its compressed variants,
gz, xz/lzma, zst, bz2) with a command line and a terminal archive browser.

- `src/` is the verified library, checked with Verus: format detection from
  file names, entry names and their encodings, size rendering, the directory
  tree of an archive's entries, and the browser's whole state machine (file
  list navigation, preview cache and syntax highlighting, properties, popups,
  layout, and how the browser answers input, actions and the archive's
  replies).
- `app/` is the program around it: command-line parsing, reading and writing
  archives with the compression crates, the terminal and drawing.
- `tests/` runs the library on concrete values.
