# FFmpeg Cluster

A server cuts a video into ranges of frames, has its clients encode them, and
puts the encoded segments together again. This crate holds the logic of both
sides as a library whose contracts are proved with Verus, and the program around
it.

- `src/` is the library. It does no I/O: it says what is to be sent, written or
  run, and is told what came of it.
  - `text`, `path`, `table`, `sorted`: texts, paths, tables and sorted lists.
  - `outside`: what is believed of other crates and of the standard library.
  - `models`: settings, measured values and messages.
  - `probe`, `tools`: what `ffprobe` prints, and where the programs are found.
  - `file_transfer`, `transfer_handler`: receiving a file in chunks.
  - `client`: encoding, the client's state, uploads, the name a client keeps.
  - `server`: the queue of jobs, segments, cutting and combining, what clients
    and operators are answered.
  - `protocol`: what server and client do together.
- `tests/` runs the library on concrete values.
- `app/` is the program: `ffmpeg-cluster server` and `ffmpeg-cluster client`, or
  `ffmpeg-cluster-server` and `ffmpeg-cluster-client` where it goes by these
  names. It holds the sockets, the files, the databases, the calls of `ffmpeg`,
  and what is computed in floating point.

Functions named `law_...` state what holds of the library as a whole: that every
frame falls into exactly one range, that a faster client gets no fewer frames
than a slower one, that segments are put together in the order of their frames,
that a failed segment is tried again as often as the settings say, that a job that
waits is taken up when its clients are there, that a file that is uploaded arrives, that jobs are served in the order in which they came,
that no client encodes before it was measured.
