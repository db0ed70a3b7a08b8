# biliget

A command-line downloader for Bilibili videos, whose decisions are proved
with Verus.

- `src/` is the verified library: the video id in an address, the fields
  picked out of the site's JSON answers, the request headers, the player
  block of a video's page and the text in it, where the output and temporary files go,
  the `ffmpeg` command lines and outcomes, `ffmpeg`'s progress reports, and
  the throttling of download progress. Calls into `regex`, `memchr`,
  `sanitize-filename`, `url`, `http` and `std::path` stand behind small trusted
  wrappers whose contracts are stated in their doc comments.
- `app/` is the program around it: argument parsing, HTTP requests,
  downloads, running `ffmpeg`, progress bars and the terminal.
- `tests/` runs the library on concrete values.
