use yt_downloader::config::AppState;
use yt_downloader::engine::{MediaFormat, VideoResolution};
use yt_downloader::ui::{
    finished_state, resolution_caption, resolution_choice_label, resolution_choices, ChannelMessage,
    YtDownloaderApp,
};

fn app() -> YtDownloaderApp {
    YtDownloaderApp::new(Some("/opt/yt-dlp".to_string()), None)
}

#[test]
fn window_opens_ready() {
    let a = app();
    assert_eq!(a.url_input, "");
    assert_eq!(a.destination_path, "Downloads");
    assert!(!a.is_audio_only);
    assert_eq!(a.state, AppState::Idle("Ready".to_string()));
    assert_eq!(a.selected_resolution, VideoResolution::Res1080);
    assert!(a.is_idle());
    assert_eq!(a.button_text(), "🚀 START DOWNLOAD");
    assert_eq!(a.status_text(), "🟢 Status: Ready");
    assert_eq!(a.status_color(), (100, 200, 100));
    assert!(!a.shows_spinner());
}

#[test]
fn start_hands_out_the_batch() {
    let mut a = app();
    a.url_input = "https://a\r\n\nhttps://b\n".to_string();
    a.destination_path = "~/Music".to_string();
    a.is_audio_only = true;
    a.selected_resolution = VideoResolution::Res480;
    let c = a.start_download(false).expect("yt-dlp is known");
    assert_eq!(c.urls, vec!["https://a".to_string(), String::new(), "https://b".to_string()]);
    assert_eq!(c.destination_path, "~/Music");
    assert_eq!(c.target_format, MediaFormat::Mp3);
    assert_eq!(c.target_resolution, VideoResolution::Res480);
    assert_eq!(c.engine_path, "/opt/yt-dlp");
    assert_eq!(c.ffmpeg_path, None);
    assert_eq!(a.state, AppState::Downloading("Initializing engine...".to_string()));
    assert!(!a.is_idle());
    assert_eq!(a.button_text(), "⏳ DOWNLOADING...");
    assert_eq!(a.status_text(), " Initializing engine...");
    assert_eq!(a.status_color(), (200, 200, 100));
    assert!(a.shows_spinner());
}

#[test]
fn start_without_engine_is_an_error() {
    let mut a = YtDownloaderApp::new(None, None);
    assert!(a.start_download(false).is_none());
    assert_eq!(a.state, AppState::Error("yt-dlp engine not found. Restart the app.".to_string()));
    assert_eq!(a.status_text(), "❌ Error: yt-dlp engine not found. Restart the app.");
    assert_eq!(a.status_color(), (230, 90, 90));
}

#[test]
fn start_on_windows_needs_ffmpeg() {
    let mut a = app();
    assert!(a.start_download(true).is_none());
    assert_eq!(
        a.state,
        AppState::Error("ffmpeg engine not found. Restart the app while connected to the internet.".to_string())
    );
    let mut b = YtDownloaderApp::new(Some("y".to_string()), Some("C:\\ff.exe".to_string()));
    let c = b.start_download(true).expect("both tools are known");
    assert_eq!(c.ffmpeg_path, Some("C:\\ff.exe".to_string()));
    assert_eq!(c.target_format, MediaFormat::Mp4);
}

#[test]
fn messages_from_the_job() {
    let mut a = app();
    a.start_download(false);
    assert!(!a.receive(ChannelMessage::Empty));
    assert_eq!(a.state, AppState::Downloading("Initializing engine...".to_string()));
    assert!(a.receive(ChannelMessage::State(finished_state(Ok(())))));
    assert_eq!(a.state, AppState::Idle("Success! All files saved.".to_string()));
    assert!(a.receive(ChannelMessage::State(finished_state(Err("boom".to_string())))));
    assert_eq!(a.state, AppState::Error("boom".to_string()));
}

#[test]
fn lost_job_unlocks_the_window() {
    let mut a = app();
    a.start_download(false);
    assert!(a.receive(ChannelMessage::Disconnected));
    assert_eq!(a.state, AppState::Error("Background thread disconnected unexpectedly.".to_string()));
    assert!(!a.receive(ChannelMessage::Disconnected));
    let mut b = app();
    assert!(!b.receive(ChannelMessage::Disconnected));
    assert_eq!(b.state, AppState::Idle("Ready".to_string()));
}

#[test]
fn force_reset() {
    let mut a = app();
    a.start_download(false);
    a.force_reset();
    assert_eq!(a.state, AppState::Idle("Engine reset manually.".to_string()));
    assert!(a.is_idle());
}

#[test]
fn picker_follows_audio_only() {
    let mut a = app();
    assert!(a.resolution_picker_enabled());
    assert_eq!(a.target_format(), MediaFormat::Mp4);
    a.is_audio_only = true;
    assert!(!a.resolution_picker_enabled());
    assert_eq!(a.target_format(), MediaFormat::Mp3);
}

#[test]
fn resolution_texts() {
    assert_eq!(resolution_caption(VideoResolution::Res1080), "1080p (Full HD)");
    assert_eq!(resolution_caption(VideoResolution::Res720), "720 (HD)");
    assert_eq!(resolution_caption(VideoResolution::Res480), "480p");
    assert_eq!(resolution_caption(VideoResolution::Res360), "360p");
    assert_eq!(resolution_choice_label(VideoResolution::Res720), "720p (HD)");
    let labels: Vec<&str> = resolution_choices().iter().map(|r| resolution_choice_label(*r)).collect();
    assert_eq!(labels, vec!["1080p (Full HD)", "720p (HD)", "480p", "360p"]);
}
