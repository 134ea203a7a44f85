# artie

Artie copies DVDs and Blu-rays with MakeMKV into an inbox folder, keeps track of the copies in a
SQLite database, and prepares HandBrake transcodes of the copied videos.

- `src/` is the library, verified with Verus: the data models and their database values, the
  parser of MakeMKV's robot output and the disc information it gathers, the HandBrake argument builder and output framing, the
  layout of the media folders, the drive actors and the copy operation as state machines, and
  the row decoding of stored videos. Calls into BLAKE3, flate2, chrono and the system clock stand behind small
  trusted wrappers whose contracts are stated in their doc comments.
- `tests/` runs the library on concrete values.
- `app/` is the service around it: the Tokio runtime, the MakeMKV and `lsblk` processes, the
  database, the files, and the JSON and TOML formats. `artie faux-makemkv info|mkv` plays back
  recorded MakeMKV output for development without a disc.
