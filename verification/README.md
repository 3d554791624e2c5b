# exifrensc

Works out new names for image files from their EXIF data, and finds each
file's Nikon sidecar file (`NKSC_PARAM/*.nksc`) so that both can be renamed
together. It computes and lists the new names; it does not rename files on
disc. The user interface talks to an in-memory
SQLite database through a small text protocol over a channel; the database
service answers one command at a time (the loop in `app/service.rs`).

The library in `src/` is verified with Verus:

- `text`: a UTF-8 model of strings (byte offsets, `str::get`, `find`,
  `replace`, `trim`, decimal numbers) and the executable functions proved
  against it.
- `protocol`: what the service runs for each command (`plan_command`) and
  the replies it builds; `roundtrip` proves, for each kind of command the
  client sends, what SQL the service plans for it. Where an argument holds
  the protocol's own separators (an `=` in a `Count` table, an `&` in a
  pattern's specification, the markers of `AddFilePattern`), those laws
  say which arguments they cover.
- `sqlite`: the service's SQLite database, with a ghost log of the SQL run
  on it.
- `db`: the client side of the protocol (`GetIntSetting`, `AddFilePattern`,
  ...), each call recorded in a ghost log of exchanges.
- `service`: the service side, starting the database and running the
  planned SQL through `rusqlite`.
- `exiftool`, `reading`, `records`, `ingest`: EXIF tags from ExifTool's
  output or from the built-in reader (`kamadak-exif`), and the rows that
  record files, sidecar files and tags.
- `import`, `rename`, `patterns`, `settings`: the steps after a bulk import,
  renaming by pattern, the file patterns and the settings dialog's values.
- `dialogs`, `ui`: what the main window and the dialogs do for a command
  and send once the user has chosen, and their small computations.

`app/` holds the command-line program around the library: file-system
walking, the ExifTool process, the service thread and `main`.
