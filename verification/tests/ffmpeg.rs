use yt_downloader::ffmpeg::{
    expand_archive_command, FfmpegInstall, InstallAction, InstallEvent, InstallPlace,
    FFMPEG_ARCHIVE_URL,
};
use yt_downloader::search::{entry_verdict, EntryVerdict};

fn install() -> FfmpegInstall {
    FfmpegInstall::new(true, "/opt/ff".to_string())
}

fn finish(action: InstallAction) -> Result<Option<String>, String> {
    match action {
        InstallAction::Finish(r) => r,
        _ => panic!("the installation should be over"),
    }
}

#[test]
fn nothing_to_install_away_from_windows() {
    let mut i = FfmpegInstall::new(false, "/opt/ff".to_string());
    assert_eq!(finish(i.step(InstallEvent::Start)), Ok(None));
    assert!(i.is_done());
}

#[test]
fn existing_binary_is_reused() {
    let mut i = install();
    assert!(matches!(i.step(InstallEvent::Start), InstallAction::CreateDir(InstallPlace::InstallDir)));
    assert!(matches!(i.step(InstallEvent::Completed(Ok(()))), InstallAction::CheckExists(InstallPlace::Binary)));
    assert!(matches!(i.step(InstallEvent::Checked(true)), InstallAction::ResolveAbsolute(InstallPlace::Binary)));
    assert_eq!(
        finish(i.step(InstallEvent::Resolved(Ok("C:\\ff\\ffmpeg.exe".to_string())))),
        Ok(Some("C:\\ff\\ffmpeg.exe".to_string()))
    );
}

#[test]
fn full_installation() {
    let mut i = install();
    i.step(InstallEvent::Start);
    i.step(InstallEvent::Completed(Ok(())));
    assert!(matches!(i.step(InstallEvent::Checked(false)), InstallAction::CheckExists(InstallPlace::ExtractDir)));
    assert!(matches!(i.step(InstallEvent::Checked(true)), InstallAction::RemoveDir(InstallPlace::ExtractDir)));
    match i.step(InstallEvent::Completed(Ok(()))) {
        InstallAction::Fetch(url) => assert_eq!(url, FFMPEG_ARCHIVE_URL),
        _ => panic!("the archive is fetched next"),
    }
    assert!(matches!(i.step(InstallEvent::Fetched(Ok((true, "200 OK".to_string())))), InstallAction::ReadBody));
    assert!(matches!(i.step(InstallEvent::Completed(Ok(()))), InstallAction::SaveArchive(InstallPlace::Archive)));
    assert!(matches!(i.step(InstallEvent::Completed(Ok(()))), InstallAction::CreateDir(InstallPlace::ExtractDir)));
    match i.step(InstallEvent::Completed(Ok(()))) {
        InstallAction::RunCommand { program, args } => {
            assert_eq!(program, "powershell.exe");
            assert_eq!(
                args,
                vec![
                    "-NoProfile".to_string(),
                    "-ExecutionPolicy".to_string(),
                    "Bypass".to_string(),
                    "-Command".to_string(),
                    "Expand-Archive -LiteralPath '/opt/ff/ffmpeg-windows.zip' -DestinationPath '/opt/ff/ffmpeg-windows' -Force"
                        .to_string(),
                ]
            );
        }
        _ => panic!("the archive is unpacked next"),
    }
    match i.step(InstallEvent::CommandFinished(Ok(true))) {
        InstallAction::FindFile { dir, name } => {
            assert_eq!(dir, InstallPlace::ExtractDir);
            assert_eq!(name, "ffmpeg.exe");
        }
        _ => panic!(),
    }
    assert!(matches!(i.step(InstallEvent::Searched(true)), InstallAction::CopyFoundTo(InstallPlace::Binary)));
    assert!(matches!(i.step(InstallEvent::Completed(Ok(()))), InstallAction::CleanUp));
    assert!(matches!(
        i.step(InstallEvent::Completed(Err("in use".to_string()))),
        InstallAction::ResolveAbsolute(InstallPlace::Binary)
    ));
    assert_eq!(
        finish(i.step(InstallEvent::Resolved(Ok("C:\\ff\\ffmpeg.exe".to_string())))),
        Ok(Some("C:\\ff\\ffmpeg.exe".to_string()))
    );
}

fn at_fetch() -> FfmpegInstall {
    let mut i = install();
    i.step(InstallEvent::Start);
    i.step(InstallEvent::Completed(Ok(())));
    i.step(InstallEvent::Checked(false));
    i.step(InstallEvent::Checked(false));
    i
}

#[test]
fn reports_http_status() {
    let mut i = at_fetch();
    assert_eq!(
        finish(i.step(InstallEvent::Fetched(Ok((false, "404 Not Found".to_string()))))),
        Err("Failed to download ffmpeg: HTTP 404 Not Found".to_string())
    );
}

#[test]
fn reports_request_failure() {
    let mut i = at_fetch();
    assert_eq!(
        finish(i.step(InstallEvent::Fetched(Err("dns error".to_string())))),
        Err("Failed to download ffmpeg: dns error".to_string())
    );
}

#[test]
fn reports_each_failed_step() {
    let mut i = install();
    i.step(InstallEvent::Start);
    assert_eq!(
        finish(i.step(InstallEvent::Completed(Err("denied".to_string())))),
        Err("Failed to create ffmpeg install directory: denied".to_string())
    );

    let mut i = at_fetch();
    i.step(InstallEvent::Fetched(Ok((true, "200 OK".to_string()))));
    assert_eq!(
        finish(i.step(InstallEvent::Completed(Err("reset".to_string())))),
        Err("Failed to read ffmpeg download: reset".to_string())
    );

    let mut i = at_fetch();
    i.step(InstallEvent::Fetched(Ok((true, "200 OK".to_string()))));
    i.step(InstallEvent::Completed(Ok(())));
    assert_eq!(
        finish(i.step(InstallEvent::Completed(Err("disk full".to_string())))),
        Err("Failed to save ffmpeg download: disk full".to_string())
    );

    let mut i = at_fetch();
    i.step(InstallEvent::Fetched(Ok((true, "200 OK".to_string()))));
    i.step(InstallEvent::Completed(Ok(())));
    i.step(InstallEvent::Completed(Ok(())));
    assert_eq!(
        finish(i.step(InstallEvent::Completed(Err("denied".to_string())))),
        Err("Failed to create ffmpeg extract directory: denied".to_string())
    );

    let mut i = at_fetch();
    i.step(InstallEvent::Fetched(Ok((true, "200 OK".to_string()))));
    i.step(InstallEvent::Completed(Ok(())));
    i.step(InstallEvent::Completed(Ok(())));
    i.step(InstallEvent::Completed(Ok(())));
    assert_eq!(
        finish(i.step(InstallEvent::CommandFinished(Err("not found".to_string())))),
        Err("Failed to run PowerShell unzip for ffmpeg: not found".to_string())
    );
}

#[test]
fn reports_failed_unpacking_and_missing_binary() {
    let mut i = at_fetch();
    i.step(InstallEvent::Fetched(Ok((true, "200 OK".to_string()))));
    i.step(InstallEvent::Completed(Ok(())));
    i.step(InstallEvent::Completed(Ok(())));
    i.step(InstallEvent::Completed(Ok(())));
    assert_eq!(
        finish(i.step(InstallEvent::CommandFinished(Ok(false)))),
        Err("Failed to extract ffmpeg archive.".to_string())
    );

    let mut i = at_fetch();
    i.step(InstallEvent::Fetched(Ok((true, "200 OK".to_string()))));
    i.step(InstallEvent::Completed(Ok(())));
    i.step(InstallEvent::Completed(Ok(())));
    i.step(InstallEvent::Completed(Ok(())));
    i.step(InstallEvent::CommandFinished(Ok(true)));
    assert_eq!(
        finish(i.step(InstallEvent::Searched(false))),
        Err("ffmpeg.exe was not found in the downloaded archive.".to_string())
    );
}

#[test]
fn reports_clearing_copy_and_resolve_failures() {
    let mut i = install();
    i.step(InstallEvent::Start);
    i.step(InstallEvent::Completed(Ok(())));
    i.step(InstallEvent::Checked(false));
    i.step(InstallEvent::Checked(true));
    assert_eq!(
        finish(i.step(InstallEvent::Completed(Err("busy".to_string())))),
        Err("Failed to clear old ffmpeg directory: busy".to_string())
    );

    let mut i = at_fetch();
    i.step(InstallEvent::Fetched(Ok((true, "200 OK".to_string()))));
    for _ in 0..3 {
        i.step(InstallEvent::Completed(Ok(())));
    }
    i.step(InstallEvent::CommandFinished(Ok(true)));
    i.step(InstallEvent::Searched(true));
    assert_eq!(
        finish(i.step(InstallEvent::Completed(Err("denied".to_string())))),
        Err("Failed to install ffmpeg.exe: denied".to_string())
    );

    let mut i = install();
    i.step(InstallEvent::Start);
    i.step(InstallEvent::Completed(Ok(())));
    i.step(InstallEvent::Checked(true));
    assert_eq!(
        finish(i.step(InstallEvent::Resolved(Err("bad path".to_string())))),
        Err("Cannot resolve ffmpeg path: bad path".to_string())
    );
}

#[test]
fn expand_command_quotes_paths() {
    assert_eq!(
        expand_archive_command("C:\\it's\\a.zip", "C:\\out"),
        "Expand-Archive -LiteralPath 'C:\\it''s\\a.zip' -DestinationPath 'C:\\out' -Force"
    );
}

#[test]
fn entry_verdicts() {
    assert_eq!(entry_verdict(true, false, Some("FFMPEG.EXE"), "ffmpeg.exe"), EntryVerdict::Found);
    assert_eq!(entry_verdict(true, false, Some("ffprobe.exe"), "ffmpeg.exe"), EntryVerdict::Skip);
    assert_eq!(entry_verdict(true, false, None, "ffmpeg.exe"), EntryVerdict::Skip);
    assert_eq!(entry_verdict(false, true, Some("ffmpeg.exe"), "ffmpeg.exe"), EntryVerdict::Descend);
    assert_eq!(entry_verdict(false, true, Some("bin"), "ffmpeg.exe"), EntryVerdict::Descend);
    assert_eq!(entry_verdict(false, false, Some("ffmpeg.exe"), "ffmpeg.exe"), EntryVerdict::Skip);
}

#[test]
fn places_sit_in_the_install_folder() {
    let i = install();
    assert_eq!(i.path_of(InstallPlace::InstallDir), "/opt/ff");
    assert_eq!(i.path_of(InstallPlace::Binary), "/opt/ff/ffmpeg.exe");
    assert_eq!(i.path_of(InstallPlace::Archive), "/opt/ff/ffmpeg-windows.zip");
    assert_eq!(i.path_of(InstallPlace::ExtractDir), "/opt/ff/ffmpeg-windows");
}

#[test]
fn reinstall_with_binary_present_downloads_nothing() {
    let mut i = install();
    let mut actions = vec![i.step(InstallEvent::Start)];
    actions.push(i.step(InstallEvent::Completed(Ok(()))));
    actions.push(i.step(InstallEvent::Checked(true)));
    actions.push(i.step(InstallEvent::Resolved(Ok("/opt/ff/ffmpeg.exe".to_string()))));
    assert!(actions.iter().all(|a| !matches!(a, InstallAction::Fetch(_))));
    assert!(matches!(&actions[3], InstallAction::Finish(Ok(Some(p))) if p == "/opt/ff/ffmpeg.exe"));
    assert!(i.is_done());
}
