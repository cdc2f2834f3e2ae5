# handy-meeting

Meeting capture, transcripts and notes requests, as a verified library.

`src/` holds what the feature decides. Its functions have contracts that Verus proves, except
the few marked `#[verifier::external_body]`, which call std or chrono and whose contracts are
trusted:

- `session` — whether a meeting runs, its id and start time; starting, stopping, the summary
  and the stored record a stop produces.
- `catalog` — stored sessions: reading a record back into a summary, listing newest first,
  collecting a transcript from its lines.
- `buffer` — the per-source sample buffers, when a buffer goes to transcription and what
  utterance a transcription yields.
- `capture` — choosing audio devices and stream configurations, the system audio capture's
  lifecycle and its worker's bookkeeping of samples.
- `notes` — the transcript as the notes prompt shows it, the provider lookup and the request.
- `settings` — the default notes settings.
- `model`, `text`, `clock` — the shared types, text helpers (decimal notation, line
  splitting) and the clock and calendar calls into chrono.

`app/` is the shell around it: cpal streams and the capture worker thread, files under the
application's data directory, serde shapes, and the commands the front end calls.
