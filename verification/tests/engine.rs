use yt_downloader::engine::{
    describe_failure, download_failure_message, download_targets, expand_home, format_rule,
    height_cap, home_directory, output_template, powershell_single_quoted_path,
    prepare_downloader, DownloadConfig, MediaFormat, VideoResolution, MISSING_FFMPEG_MESSAGE,
};

fn strings(items: &[&str]) -> Vec<String> {
    items.iter().map(|s| s.to_string()).collect()
}

fn config(format: MediaFormat, ffmpeg: Option<&str>) -> DownloadConfig {
    DownloadConfig {
        urls: strings(&["https://youtu.be/a"]),
        destination_path: "~/Videos".to_string(),
        target_format: format,
        target_resolution: VideoResolution::Res720,
        engine_path: "/opt/yt-dlp".to_string(),
        ffmpeg_path: ffmpeg.map(|s| s.to_string()),
    }
}

#[test]
fn quotes_plain_path() {
    assert_eq!(powershell_single_quoted_path("C:\\tools\\ffmpeg.zip"), "'C:\\tools\\ffmpeg.zip'");
}

#[test]
fn quotes_path_with_single_quotes() {
    assert_eq!(powershell_single_quoted_path("C:\\Bob's 'files'"), "'C:\\Bob''s ''files'''");
    assert_eq!(powershell_single_quoted_path(""), "''");
    assert_eq!(powershell_single_quoted_path("'"), "''''");
}

#[test]
fn expands_leading_tilde_only() {
    assert_eq!(expand_home("~/Videos", "/home/ann"), "/home/ann/Videos");
    assert_eq!(expand_home("~", "/home/ann"), "/home/ann");
    assert_eq!(expand_home("Downloads", "/home/ann"), "Downloads");
    assert_eq!(expand_home("a/~/b", "/home/ann"), "a/~/b");
    assert_eq!(expand_home("~~", "H"), "H~");
    assert_eq!(expand_home("", "H"), "");
}

#[test]
fn picks_home_directory() {
    let some = |s: &str| Some(s.to_string());
    assert_eq!(home_directory(true, some("C:\\Users\\ann"), some("\\Users\\x"), some("/h")), "C:\\Users\\ann");
    assert_eq!(home_directory(true, None, some("\\Users\\x"), some("/h")), "\\Users\\x");
    assert_eq!(home_directory(true, None, None, some("/h")), "");
    assert_eq!(home_directory(false, some("C:\\Users\\ann"), None, some("/home/ann")), "/home/ann");
    assert_eq!(home_directory(false, some("C:\\Users\\ann"), None, None), "");
}

#[test]
fn builds_output_template() {
    assert_eq!(output_template("C:\\Users\\ann\\Videos"), "C:/Users/ann/Videos/%(title)s.%(ext)s");
    assert_eq!(output_template("/home/ann/Videos"), "/home/ann/Videos/%(title)s.%(ext)s");
}

#[test]
fn height_caps() {
    assert_eq!(height_cap(VideoResolution::Res1080), "1080");
    assert_eq!(height_cap(VideoResolution::Res720), "720");
    assert_eq!(height_cap(VideoResolution::Res480), "480");
    assert_eq!(height_cap(VideoResolution::Res360), "360");
}

#[test]
fn format_rule_caps_every_alternative() {
    assert_eq!(
        format_rule(VideoResolution::Res480),
        "bestvideo[ext=mp4][height<=?480]+bestaudio[ext=m4a]/mp4[height<=?480]/best[height<=?480]"
    );
    assert_eq!(
        format_rule(VideoResolution::Res1080),
        "bestvideo[ext=mp4][height<=?1080]+bestaudio[ext=m4a]/mp4[height<=?1080]/best[height<=?1080]"
    );
}

#[test]
fn targets_skip_blank_lines_and_trim() {
    let urls = strings(&["  https://a ", "", "\t \r", "https://b\r", "\u{3000}https://c\u{a0}"]);
    assert_eq!(download_targets(&urls), strings(&["https://a", "https://b", "https://c"]));
    assert_eq!(download_targets(&Vec::new()), Vec::<String>::new());
}

#[test]
fn targets_are_trimmed_law_on_values() {
    for t in download_targets(&strings(&[" x ", "y", "  ", " z"])) {
        assert!(!t.is_empty());
        assert_eq!(t.trim(), t);
    }
}

#[test]
fn failure_messages() {
    assert_eq!(describe_failure("Cannot resolve destination path", "not found"), "Cannot resolve destination path: not found");
    assert_eq!(download_failure_message("https://a", "exit 1"), "Download failed for https://a: exit 1");
}

#[test]
fn mp4_downloader_settings_on_linux() {
    let dl = prepare_downloader(&config(MediaFormat::Mp4, None), "https://youtu.be/a", "/home/ann/Videos", false)
        .expect("no ffmpeg is needed away from Windows");
    let shown = format!("{:?}", dl);
    assert!(shown.contains("url: \"https://youtu.be/a\""));
    assert!(shown.contains("youtube_dl_path: Some(\"/opt/yt-dlp\")"));
    assert!(shown.contains(
        "format: Some(\"bestvideo[ext=mp4][height<=?720]+bestaudio[ext=m4a]/mp4[height<=?720]/best[height<=?720]\")"
    ));
    assert!(shown.contains("extract_audio: false"));
    assert!(shown.contains(
        "extra_args: [\"--output\", \"/home/ann/Videos/%(title)s.%(ext)s\", \"--trim-filenames\", \"200\", \"--merge-output-format\", \"mp4\", \"--force-overwrites\"]"
    ));
}

#[test]
fn mp3_downloader_settings_on_windows() {
    let dl = prepare_downloader(
        &config(MediaFormat::Mp3, Some("C:\\ff\\ffmpeg.exe")),
        "https://youtu.be/b",
        "C:\\Users\\ann\\Music",
        true,
    )
    .expect("ffmpeg is known");
    let shown = format!("{:?}", dl);
    assert!(shown.contains("url: \"https://youtu.be/b\""));
    assert!(shown.contains("format: None"));
    assert!(shown.contains("extract_audio: true"));
    assert!(shown.contains(
        "extra_args: [\"--output\", \"C:/Users/ann/Music/%(title)s.%(ext)s\", \"--ffmpeg-location\", \"C:\\\\ff\\\\ffmpeg.exe\", \"--restrict-filenames\", \"--audio-format\", \"mp3\", \"--audio-quality\", \"0\"]"
    ));
}

#[test]
fn windows_download_needs_ffmpeg() {
    let r = prepare_downloader(&config(MediaFormat::Mp4, None), "https://youtu.be/a", "C:\\v", true);
    assert_eq!(r.err(), Some(MISSING_FFMPEG_MESSAGE.to_string()));
    assert_eq!(
        MISSING_FFMPEG_MESSAGE,
        "ffmpeg engine not found. Restart the app while connected to the internet."
    );
}
