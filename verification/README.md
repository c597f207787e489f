# shard

A terminal front end for yt-dlp: paste a URL, inspect its metadata and artwork, pick a
download mode, resolution, audio format, streams and destination folder, and download.

- `src/` is the verified library. Every state change of the interface (`app`), the folder
  browser (`browser`), the settings and bookmarks (`config`), the metadata model and its
  reading from yt-dlp's JSON (`ytdlp::models`, `ytdlp::fetch`, `json`), the yt-dlp
  argument list and progress parsing (`ytdlp::download`, `ytdlp::parser`), and the texts
  and layout of the screens (`ui`) are written with contracts that Verus proves. Laws that
  hold across operations are stated as `law_*` proof functions.
- `app/` runs the terminal, the event loop and the outside work that the library asks for
  through `app::Effect`: yt-dlp processes, HTTP, files, the clipboard, notifications and
  drawing with ratatui.
- `tests/` runs the library on concrete inputs.

The clipboard is read with `wl-paste` and then `xclip`, and notifications are sent with
`notify-send`. The `arboard` and `notify-rust` crates are not dependencies: with them the
dependency set went over the size this project builds with, and both programs were
already the fallbacks for those crates.
