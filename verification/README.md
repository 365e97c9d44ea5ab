# immich-fix

Lists the assets of an Immich album, and sets their timestamps to the moment
that the photos themselves name.

- `src/` is the verified library. `offset` and `datetime` read time zone offsets
  and write timestamps, `metadata` finds the moment in a photo, `asset` finds a
  photo's file and records assets, `album` finds the album and its assets,
  `client` makes the requests, `fix` decides what is done for each asset.
- `app/` is the command line tool around it: arguments, files, the network.
- `tests/` runs the library.

Without `--apply`, `fix` shows one request as an example and sends nothing.
