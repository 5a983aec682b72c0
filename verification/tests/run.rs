use yt_downloader::engine::{DownloadConfig, MediaFormat, VideoResolution};
use yt_downloader::run::{DownloadRun, RunAction, RunEvent};

fn batch(urls: &[&str], ffmpeg: Option<&str>) -> DownloadConfig {
    DownloadConfig {
        urls: urls.iter().map(|s| s.to_string()).collect(),
        destination_path: "~/Videos".to_string(),
        target_format: MediaFormat::Mp4,
        target_resolution: VideoResolution::Res1080,
        engine_path: "yt-dlp".to_string(),
        ffmpeg_path: ffmpeg.map(|s| s.to_string()),
    }
}

fn expect_download(action: RunAction) -> (String, String) {
    match action {
        RunAction::Download { url, destination, .. } => (url, destination),
        _ => panic!("a download was expected"),
    }
}

#[test]
fn run_downloads_every_target_in_order() {
    let mut run = DownloadRun::new(batch(&[" https://a ", "", "https://b"], None), false, "/home/ann");
    match run.step(RunEvent::Start) {
        RunAction::PrepareDestination(p) => assert_eq!(p, "/home/ann/Videos"),
        _ => panic!("the folder comes first"),
    }
    match run.step(RunEvent::DestinationPrepared(Ok(()))) {
        RunAction::ResolveDestination { path, absolute_only } => {
            assert_eq!(path, "/home/ann/Videos");
            assert!(!absolute_only);
        }
        _ => panic!("the folder is resolved next"),
    }
    let first = run.step(RunEvent::DestinationResolved(Ok("/data/ann/Videos".to_string())));
    assert_eq!(expect_download(first), ("https://a".to_string(), "/data/ann/Videos".to_string()));
    let second = run.step(RunEvent::DownloadFinished(Ok(())));
    assert_eq!(expect_download(second), ("https://b".to_string(), "/data/ann/Videos".to_string()));
    assert!(!run.is_done());
    match run.step(RunEvent::DownloadFinished(Ok(()))) {
        RunAction::Finish(r) => assert_eq!(r, Ok(())),
        _ => panic!("the batch is over"),
    }
    assert!(run.is_done());
}

#[test]
fn run_without_targets_finishes_after_resolving() {
    let mut run = DownloadRun::new(batch(&["", "  "], None), true, "C:\\Users\\ann");
    run.step(RunEvent::Start);
    match run.step(RunEvent::DestinationPrepared(Ok(()))) {
        RunAction::ResolveDestination { absolute_only, .. } => assert!(absolute_only),
        _ => panic!(),
    }
    match run.step(RunEvent::DestinationResolved(Ok("C:\\v".to_string()))) {
        RunAction::Finish(r) => assert_eq!(r, Ok(())),
        _ => panic!("nothing to download"),
    }
}

#[test]
fn run_reports_folder_creation_failure() {
    let mut run = DownloadRun::new(batch(&["https://a"], None), false, "/h");
    run.step(RunEvent::Start);
    match run.step(RunEvent::DestinationPrepared(Err("permission denied".to_string()))) {
        RunAction::Finish(r) => {
            assert_eq!(r, Err("Failed to create destination directory: permission denied".to_string()))
        }
        _ => panic!(),
    }
    assert!(run.is_done());
}

#[test]
fn run_reports_resolution_failure() {
    let mut run = DownloadRun::new(batch(&["https://a"], None), false, "/h");
    run.step(RunEvent::Start);
    run.step(RunEvent::DestinationPrepared(Ok(())));
    match run.step(RunEvent::DestinationResolved(Err("no such file".to_string()))) {
        RunAction::Finish(r) => assert_eq!(r, Err("Cannot resolve destination path: no such file".to_string())),
        _ => panic!(),
    }
}

#[test]
fn run_stops_at_first_failed_download() {
    let mut run = DownloadRun::new(batch(&["https://a", "https://b"], None), false, "/h");
    run.step(RunEvent::Start);
    run.step(RunEvent::DestinationPrepared(Ok(())));
    run.step(RunEvent::DestinationResolved(Ok("/d".to_string())));
    match run.step(RunEvent::DownloadFinished(Err("exit code 1".to_string()))) {
        RunAction::Finish(r) => assert_eq!(r, Err("Download failed for https://a: exit code 1".to_string())),
        _ => panic!("a failure ends the batch"),
    }
    assert!(run.is_done());
}

#[test]
fn run_on_windows_without_ffmpeg_fails_at_first_url() {
    let mut run = DownloadRun::new(batch(&["https://a"], None), true, "C:\\h");
    run.step(RunEvent::Start);
    run.step(RunEvent::DestinationPrepared(Ok(())));
    match run.step(RunEvent::DestinationResolved(Ok("C:\\d".to_string()))) {
        RunAction::Finish(r) => assert_eq!(
            r,
            Err("ffmpeg engine not found. Restart the app while connected to the internet.".to_string())
        ),
        _ => panic!(),
    }
}

#[test]
fn run_on_windows_with_ffmpeg_downloads() {
    let mut run = DownloadRun::new(batch(&["https://a"], Some("C:\\ff.exe")), true, "C:\\h");
    run.step(RunEvent::Start);
    run.step(RunEvent::DestinationPrepared(Ok(())));
    match run.step(RunEvent::DestinationResolved(Ok("C:\\d".to_string()))) {
        RunAction::Download { url, downloader, destination } => {
            assert_eq!(url, "https://a");
            assert_eq!(destination, "C:\\d");
            assert!(format!("{:?}", downloader).contains("\"--ffmpeg-location\", \"C:\\\\ff.exe\""));
        }
        _ => panic!(),
    }
}
