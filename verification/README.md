# qobuz-lib

A terminal client for the Qobuz music service, split in two:

- `src/` is the library, verified with Verus: the catalogue records, audio
  quality and the fallback chain, request signing, the recovery of the API
  credentials from the web player, the replies of the API, the progressive
  streaming buffer and its plans (quality fallback, retries, album
  downloads), the cache index, the playback clock, the play queue, the
  interactive application state machine and the presentation helpers.
- `app/` is the program around it: the terminal (crossterm, ratatui), the
  audio output (rodio), HTTP (reqwest, tokio), the files on disk and the
  Landlock sandbox.

`tests/` exercises the library.

Only the terminal front end lives in `app/`. A desktop front end built on a
web-view toolkit is not part of this crate; the decisions its commands take
(moving to the next or previous track of the queue, cycling the loop mode,
shuffling) are the library's `queue::next_index`, `queue::previous_index`,
`queue::next_loop_code` and `queue::shuffle`, verified here.
