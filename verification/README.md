# handy-cli

A transcription service: an HTTP server that turns base64 PCM audio into text with one of
several speech engines, and a command line to list, download and delete models.

- `src/` is the verified library (Verus): the model catalogue and the text of a model listing
  (`models`), base64 and PCM decoding (`codec`, `pcm`), the streaming session that decodes
  audio as it arrives and asks for a partial transcription each second (`server::stream`,
  with what holds of whole sessions in `server::stream_laws`), the choice of engine, model and
  engine parameters (`server::handlers`, `transcriber`), and the decisions of the microphone
  capture loop (`audio`).
- `app/` is the program around it: command line, axum server, speech engines (transcribe-rs),
  microphone (cpal), voice activity detection (vad-rs), downloads and the file system.
- `tests/` exercises the library.
