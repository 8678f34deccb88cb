# ket

`ket` is a small command-line downloader in the spirit of `wget`: it fetches a
URL to disk, hands media sites (YouTube, Vimeo, TikTok, ...) to a self-managed
`yt-dlp`, installs a few well-known programs from a built-in registry, and
offers an interactive mode when started without arguments.

The decisions the tool makes are a library verified with Verus (`src/`):

- `text`, `number`: char-level string operations (`trim`, `contains`,
  `replace`-style removal, case-insensitive comparison) and `u64` parsing,
  each against a specification.
- `paths`: the name a download is saved under.
- `http`: reading response headers, the read size, gathering a body.
- `media`: which URLs are media, the yt-dlp command line, reading its
  progress output.
- `setup`: the step-by-step decisions that keep a working yt-dlp binary.
- `install`: the package registry, case-insensitive lookup, the listing shown
  to users, and the installer download's byte count.
- `cli`: routing a command-line target and the interactive session.

`app/` is the program around it: argument parsing, terminal output, progress
bars, prompts, HTTP requests, files and child processes.
