# youtube_audio_pipeline

A service that turns a video URL or an uploaded MP3 file into a Kafka message. The
audio goes to a temporary file, its content to a topic under the name of the file, and
the temporary file is removed before the client gets its answer.

- `src/` is the library: every decision of the service, verified with Verus. A job is
  an enum of steps; each step that needs something from outside takes the answer and
  returns the next step. `download`, `send`, `process` and `upload` hold the four
  jobs, `yt_dlp` the commands, `response` and `error` what clients are told, `config`
  the settings, `text` the operations on text.
- `tests/` runs the library with the crates that it calls.
- `app/` is the program: the HTTP server, files, processes and Kafka.
