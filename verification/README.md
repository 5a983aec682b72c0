# yt_downloader

A desktop batch downloader for YouTube videos built on yt-dlp, with its
decisions verified by Verus.

- `src/` is the verified library:
  - `engine.rs`: the batch settings (`DownloadConfig`, `MediaFormat`,
    `VideoResolution`), `~` expansion, the yt-dlp output template and format
    rule, the yt-dlp command built for each URL, the URLs a batch downloads,
    and the quoting of paths for PowerShell (with the proof that a quoted path
    without typographic single quotes reads back unchanged);
  - `run.rs`: one batch of downloads as a state machine;
  - `ffmpeg.rs`: the installation of ffmpeg on Windows as a state machine;
  - `search.rs`: the depth-first search for `ffmpeg.exe` in the unpacked
    archive, as a state machine;
  - `ui.rs`, `config.rs`: the window's state and what it shows;
  - `text.rs`: trimming, line splitting and other character-level work;
  - `ytdl.rs`: the `youtube_dl` builder calls the library relies on.
- `app/` is the program: the eframe window, the tokio task, and the disk,
  network and process work that the state machines ask for.
- `tests/` runs the library on concrete values.
