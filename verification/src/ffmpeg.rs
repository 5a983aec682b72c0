//! The decisions of installing ffmpeg on Windows, as a state machine: the
//! caller performs each action on the disk or the network and reports its
//! outcome as the next event. Also the test that picks `ffmpeg.exe` out of
//! the unpacked archive.
use vstd::prelude::*;
use crate::engine::{concat, describe_failure, failure_text, powershell_single_quoted_path, single_quoted};
use crate::text::string_views;

verus! {

/// Where the Windows ffmpeg build is downloaded from.
pub const FFMPEG_ARCHIVE_URL: &'static str =
    "https://github.com/yt-dlp/FFmpeg-Builds/releases/latest/download/ffmpeg-master-latest-win64-gpl.zip";

/// The name of the ffmpeg executable, in the install folder and in the archive.
pub const FFMPEG_BINARY_NAME: &'static str = "ffmpeg.exe";

/// The name of the downloaded archive, in the install folder.
pub const FFMPEG_ARCHIVE_NAME: &'static str = "ffmpeg-windows.zip";

/// The name of the folder the archive is unpacked into, in the install folder.
pub const FFMPEG_EXTRACT_DIR_NAME: &'static str = "ffmpeg-windows";

/// A place in the install folder.
#[derive(Clone, Copy, Debug, PartialEq, Eq, Structural)]
pub enum InstallPlace {
    /// The install folder itself.
    InstallDir,
    /// The installed `ffmpeg.exe`.
    Binary,
    /// The downloaded archive.
    Archive,
    /// The folder the archive is unpacked into.
    ExtractDir,
}

/// Where an installation stands; each phase waits for the outcome of one action.
#[derive(Clone, Copy, Debug, PartialEq, Eq, Structural)]
pub enum InstallPhase {
    NotStarted,
    CreatingInstallDir,
    CheckingBinary,
    CheckingOldExtract,
    ClearingOldExtract,
    Fetching,
    Reading,
    Saving,
    CreatingExtractDir,
    Extracting,
    Searching,
    Installing,
    CleaningUp,
    Resolving,
    Done,
}

/// The outcome of the last action.
pub enum InstallEvent {
    Start,
    /// A disk or network step went through, or failed (the cause).
    Completed(Result<(), String>),
    /// Whether the place checked exists.
    Checked(bool),
    /// The server answered (whether with success, and its status line), or
    /// the request failed (the cause).
    Fetched(Result<(bool, String), String>),
    /// The unpacking command ran (whether it succeeded), or could not run.
    CommandFinished(Result<bool, String>),
    /// Whether `ffmpeg.exe` was found in the unpacked archive.
    Searched(bool),
    /// The absolute path of the installed executable, or why it has none.
    Resolved(Result<String, String>),
}

/// What the caller does next.
pub enum InstallAction {
    /// Create this folder, with its parents.
    CreateDir(InstallPlace),
    /// Tell whether this place exists.
    CheckExists(InstallPlace),
    /// Remove this folder with all it holds.
    RemoveDir(InstallPlace),
    /// Request this URL.
    Fetch(String),
    /// Read the body of the answer.
    ReadBody,
    /// Write the body read into this file.
    SaveArchive(InstallPlace),
    /// Run this program with these arguments.
    RunCommand { program: String, args: Vec<String> },
    /// Search this folder, and the folders in it, for a file of this name.
    FindFile { dir: InstallPlace, name: String },
    /// Copy the file found to this place.
    CopyFoundTo(InstallPlace),
    /// Remove the archive and the unpacked folder; failures do not matter.
    CleanUp,
    /// Turn the path of this place into an absolute path.
    ResolveAbsolute(InstallPlace),
    /// The installation is over: the absolute path of ffmpeg (none where
    /// ffmpeg is not needed), or an error.
    Finish(Result<Option<String>, String>),
}

/// The view of an [`InstallEvent`].
pub enum InstallEventView {
    Start,
    Completed(Result<(), Seq<char>>),
    Checked(bool),
    Fetched(Result<(bool, Seq<char>), Seq<char>>),
    CommandFinished(Result<bool, Seq<char>>),
    Searched(bool),
    Resolved(Result<Seq<char>, Seq<char>>),
}

impl View for InstallEvent {
    type V = InstallEventView;

    open spec fn view(&self) -> InstallEventView {
        match self {
            InstallEvent::Start => InstallEventView::Start,
            InstallEvent::Completed(Ok(())) => InstallEventView::Completed(Ok(())),
            InstallEvent::Completed(Err(c)) => InstallEventView::Completed(Err(c@)),
            InstallEvent::Checked(b) => InstallEventView::Checked(*b),
            InstallEvent::Fetched(Ok((ok, status))) => InstallEventView::Fetched(
                Ok((*ok, status@)),
            ),
            InstallEvent::Fetched(Err(c)) => InstallEventView::Fetched(Err(c@)),
            InstallEvent::CommandFinished(Ok(b)) => InstallEventView::CommandFinished(Ok(*b)),
            InstallEvent::CommandFinished(Err(c)) => InstallEventView::CommandFinished(Err(c@)),
            InstallEvent::Searched(b) => InstallEventView::Searched(*b),
            InstallEvent::Resolved(Ok(p)) => InstallEventView::Resolved(Ok(p@)),
            InstallEvent::Resolved(Err(c)) => InstallEventView::Resolved(Err(c@)),
        }
    }
}

/// The view of an [`InstallAction`].
pub enum InstallActionView {
    CreateDir(InstallPlace),
    CheckExists(InstallPlace),
    RemoveDir(InstallPlace),
    Fetch(Seq<char>),
    ReadBody,
    SaveArchive(InstallPlace),
    RunCommand { program: Seq<char>, args: Seq<Seq<char>> },
    FindFile { dir: InstallPlace, name: Seq<char> },
    CopyFoundTo(InstallPlace),
    CleanUp,
    ResolveAbsolute(InstallPlace),
    Finish(Result<Option<Seq<char>>, Seq<char>>),
}

impl View for InstallAction {
    type V = InstallActionView;

    open spec fn view(&self) -> InstallActionView {
        match self {
            InstallAction::CreateDir(p) => InstallActionView::CreateDir(*p),
            InstallAction::CheckExists(p) => InstallActionView::CheckExists(*p),
            InstallAction::RemoveDir(p) => InstallActionView::RemoveDir(*p),
            InstallAction::Fetch(u) => InstallActionView::Fetch(u@),
            InstallAction::ReadBody => InstallActionView::ReadBody,
            InstallAction::SaveArchive(p) => InstallActionView::SaveArchive(*p),
            InstallAction::RunCommand { program, args } => InstallActionView::RunCommand {
                program: program@,
                args: string_views(args@),
            },
            InstallAction::FindFile { dir, name } => InstallActionView::FindFile {
                dir: *dir,
                name: name@,
            },
            InstallAction::CopyFoundTo(p) => InstallActionView::CopyFoundTo(*p),
            InstallAction::CleanUp => InstallActionView::CleanUp,
            InstallAction::ResolveAbsolute(p) => InstallActionView::ResolveAbsolute(*p),
            InstallAction::Finish(Ok(Some(p))) => InstallActionView::Finish(Ok(Some(p@))),
            InstallAction::Finish(Ok(None)) => InstallActionView::Finish(Ok(None)),
            InstallAction::Finish(Err(e)) => InstallActionView::Finish(Err(e@)),
        }
    }
}

/// The PowerShell command that unpacks the archive into the folder, both
/// paths quoted.
pub open spec fn expand_archive_command_of(archive: Seq<char>, extract_dir: Seq<char>) -> Seq<char> {
    "Expand-Archive -LiteralPath "@ + single_quoted(archive) + " -DestinationPath "@
        + single_quoted(extract_dir) + " -Force"@
}

/// The PowerShell command that unpacks `archive` into `extract_dir`.
pub fn expand_archive_command(archive: &str, extract_dir: &str) -> (command: String)
    ensures
        command@ == expand_archive_command_of(archive@, extract_dir@),
{
    let archive_arg = powershell_single_quoted_path(archive);
    let extract_arg = powershell_single_quoted_path(extract_dir);
    let mut command = concat("Expand-Archive -LiteralPath ", archive_arg.as_str());
    command.append(" -DestinationPath ");
    command.append(extract_arg.as_str());
    command.append(" -Force");
    command
}

/// The arguments of `powershell.exe` that run `command` without a profile or
/// an execution policy in the way.
pub open spec fn powershell_args_of(command: Seq<char>) -> Seq<Seq<char>> {
    seq!["-NoProfile"@, "-ExecutionPolicy"@, "Bypass"@, "-Command"@, command]
}

/// The context of the error message when the action of `phase` fails.
pub open spec fn failure_context(phase: InstallPhase) -> Seq<char> {
    match phase {
        InstallPhase::CreatingInstallDir => "Failed to create ffmpeg install directory"@,
        InstallPhase::ClearingOldExtract => "Failed to clear old ffmpeg directory"@,
        InstallPhase::Fetching => "Failed to download ffmpeg"@,
        InstallPhase::Reading => "Failed to read ffmpeg download"@,
        InstallPhase::Saving => "Failed to save ffmpeg download"@,
        InstallPhase::CreatingExtractDir => "Failed to create ffmpeg extract directory"@,
        InstallPhase::Extracting => "Failed to run PowerShell unzip for ffmpeg"@,
        InstallPhase::Installing => "Failed to install ffmpeg.exe"@,
        _ => "Cannot resolve ffmpeg path"@,
    }
}

/// Which events each phase accepts.
pub open spec fn install_accepts(phase: InstallPhase, event: InstallEventView) -> bool {
    match event {
        InstallEventView::Start => phase == InstallPhase::NotStarted,
        InstallEventView::Completed(_) => {
            ||| phase == InstallPhase::CreatingInstallDir
            ||| phase == InstallPhase::ClearingOldExtract
            ||| phase == InstallPhase::Reading
            ||| phase == InstallPhase::Saving
            ||| phase == InstallPhase::CreatingExtractDir
            ||| phase == InstallPhase::Installing
            ||| phase == InstallPhase::CleaningUp
        },
        InstallEventView::Checked(_) => phase == InstallPhase::CheckingBinary || phase
            == InstallPhase::CheckingOldExtract,
        InstallEventView::Fetched(_) => phase == InstallPhase::Fetching,
        InstallEventView::CommandFinished(_) => phase == InstallPhase::Extracting,
        InstallEventView::Searched(_) => phase == InstallPhase::Searching,
        InstallEventView::Resolved(_) => phase == InstallPhase::Resolving,
    }
}

/// The phase after a step that went through (cleaning up counts as going
/// through, whatever its outcome).
pub open spec fn phase_after_success(phase: InstallPhase) -> InstallPhase {
    match phase {
        InstallPhase::CreatingInstallDir => InstallPhase::CheckingBinary,
        InstallPhase::ClearingOldExtract => InstallPhase::Fetching,
        InstallPhase::Reading => InstallPhase::Saving,
        InstallPhase::Saving => InstallPhase::CreatingExtractDir,
        InstallPhase::CreatingExtractDir => InstallPhase::Extracting,
        InstallPhase::Installing => InstallPhase::CleaningUp,
        _ => InstallPhase::Resolving,
    }
}

/// The next phase.
pub open spec fn next_phase(is_windows: bool, phase: InstallPhase, event: InstallEventView) -> InstallPhase {
    match event {
        InstallEventView::Start => if is_windows {
            InstallPhase::CreatingInstallDir
        } else {
            InstallPhase::Done
        },
        InstallEventView::Completed(Ok(())) => phase_after_success(phase),
        InstallEventView::Completed(Err(_)) => if phase == InstallPhase::CleaningUp {
            InstallPhase::Resolving
        } else {
            InstallPhase::Done
        },
        InstallEventView::Checked(exists) => if phase == InstallPhase::CheckingBinary {
            if exists {
                InstallPhase::Resolving
            } else {
                InstallPhase::CheckingOldExtract
            }
        } else if exists {
            InstallPhase::ClearingOldExtract
        } else {
            InstallPhase::Fetching
        },
        InstallEventView::Fetched(Ok((true, _))) => InstallPhase::Reading,
        InstallEventView::CommandFinished(Ok(true)) => InstallPhase::Searching,
        InstallEventView::Searched(true) => InstallPhase::Installing,
        _ => InstallPhase::Done,
    }
}

/// How the installation ends when `event` ends it.
pub open spec fn finish_result(phase: InstallPhase, event: InstallEventView) -> Result<
    Option<Seq<char>>,
    Seq<char>,
> {
    match event {
        InstallEventView::Start => Ok(None),
        InstallEventView::Completed(Err(cause)) => Err(failure_text(failure_context(phase), cause)),
        InstallEventView::Fetched(Ok((_, status))) => Err(
            failure_text(failure_context(phase), "HTTP "@ + status),
        ),
        InstallEventView::Fetched(Err(cause)) => Err(failure_text(failure_context(phase), cause)),
        InstallEventView::CommandFinished(Ok(_)) => Err("Failed to extract ffmpeg archive."@),
        InstallEventView::CommandFinished(Err(cause)) => Err(
            failure_text(failure_context(phase), cause),
        ),
        InstallEventView::Resolved(Ok(path)) => Ok(Some(path)),
        InstallEventView::Resolved(Err(cause)) => Err(failure_text(failure_context(phase), cause)),
        _ => Err("ffmpeg.exe was not found in the downloaded archive."@),
    }
}

/// The path of `name` inside the folder `dir`, as `Path::join` builds it
/// with this platform's separator.
pub uninterp spec fn joined_path(dir: Seq<char>, name: Seq<char>) -> Seq<char>;

/// `Path::join`, on paths given as text: the standard library adjoins `name`
/// to `dir` with the platform's separator (or replaces `dir` where `name` is
/// absolute). Only its dependence on the two texts is claimed here.
#[verifier::external_body]
fn join_path(dir: &str, name: &str) -> (path: String)
    ensures
        path@ == joined_path(dir@, name@),
{
    std::path::Path::new(dir).join(name).to_string_lossy().into_owned()
}

/// One installation of ffmpeg into an install folder.
pub struct FfmpegInstall {
    is_windows: bool,
    install_dir: String,
    binary_path: String,
    archive_path: String,
    extract_path: String,
    phase: InstallPhase,
}

impl FfmpegInstall {
    /// Whether the installation is needed at all: only on Windows.
    pub closed spec fn on_windows(&self) -> bool {
        self.is_windows
    }

    /// The paths of the install folder, the executable, the archive and the
    /// unpacking folder.
    pub closed spec fn places(&self) -> (Seq<char>, Seq<char>, Seq<char>, Seq<char>) {
        (self.install_dir@, self.binary_path@, self.archive_path@, self.extract_path@)
    }

    /// The path of a place.
    pub open spec fn place_path(&self, place: InstallPlace) -> Seq<char> {
        match place {
            InstallPlace::InstallDir => self.places().0,
            InstallPlace::Binary => self.places().1,
            InstallPlace::Archive => self.places().2,
            InstallPlace::ExtractDir => self.places().3,
        }
    }

    /// Where the installation stands.
    pub closed spec fn phase(&self) -> InstallPhase {
        self.phase
    }

    /// The action that a phase waits on.
    pub open spec fn action_of(&self, phase: InstallPhase) -> InstallActionView {
        match phase {
            InstallPhase::CreatingInstallDir => InstallActionView::CreateDir(InstallPlace::InstallDir),
            InstallPhase::CheckingBinary => InstallActionView::CheckExists(InstallPlace::Binary),
            InstallPhase::CheckingOldExtract => InstallActionView::CheckExists(InstallPlace::ExtractDir),
            InstallPhase::ClearingOldExtract => InstallActionView::RemoveDir(InstallPlace::ExtractDir),
            InstallPhase::Fetching => InstallActionView::Fetch(FFMPEG_ARCHIVE_URL@),
            InstallPhase::Reading => InstallActionView::ReadBody,
            InstallPhase::Saving => InstallActionView::SaveArchive(InstallPlace::Archive),
            InstallPhase::CreatingExtractDir => InstallActionView::CreateDir(InstallPlace::ExtractDir),
            InstallPhase::Extracting => InstallActionView::RunCommand {
                program: "powershell.exe"@,
                args: powershell_args_of(
                    expand_archive_command_of(
                        self.place_path(InstallPlace::Archive),
                        self.place_path(InstallPlace::ExtractDir),
                    ),
                ),
            },
            InstallPhase::Searching => InstallActionView::FindFile {
                dir: InstallPlace::ExtractDir,
                name: FFMPEG_BINARY_NAME@,
            },
            InstallPhase::Installing => InstallActionView::CopyFoundTo(InstallPlace::Binary),
            InstallPhase::CleaningUp => InstallActionView::CleanUp,
            _ => InstallActionView::ResolveAbsolute(InstallPlace::Binary),
        }
    }

    /// What one step does: the next state `after` and the action for the
    /// caller, given the outcome `event` of the last action.
    pub open spec fn install_steps_to(
        &self,
        event: InstallEventView,
        after: FfmpegInstall,
        action: InstallActionView,
    ) -> bool {
        &&& after.on_windows() == self.on_windows()
        &&& after.places() == self.places()
        &&& after.phase() == next_phase(self.on_windows(), self.phase(), event)
        &&& action == if after.phase() == InstallPhase::Done {
            InstallActionView::Finish(finish_result(self.phase(), event))
        } else {
            self.action_of(after.phase())
        }
    }

    /// An installation into `install_dir`: the executable, the archive and the
    /// unpacking folder are named in it.
    pub fn new(is_windows: bool, install_dir: String) -> (install: Self)
        ensures
            install.on_windows() == is_windows,
            install.place_path(InstallPlace::InstallDir) == install_dir@,
            install.place_path(InstallPlace::Binary) == joined_path(install_dir@, FFMPEG_BINARY_NAME@),
            install.place_path(InstallPlace::Archive) == joined_path(install_dir@, FFMPEG_ARCHIVE_NAME@),
            install.place_path(InstallPlace::ExtractDir) == joined_path(
                install_dir@,
                FFMPEG_EXTRACT_DIR_NAME@,
            ),
            install.phase() == InstallPhase::NotStarted,
    {
        let binary_path = join_path(install_dir.as_str(), FFMPEG_BINARY_NAME);
        let archive_path = join_path(install_dir.as_str(), FFMPEG_ARCHIVE_NAME);
        let extract_path = join_path(install_dir.as_str(), FFMPEG_EXTRACT_DIR_NAME);
        FfmpegInstall {
            is_windows,
            install_dir,
            binary_path,
            archive_path,
            extract_path,
            phase: InstallPhase::NotStarted,
        }
    }

    /// The path of a place.
    pub fn path_of(&self, place: InstallPlace) -> (path: &str)
        ensures
            path@ == self.place_path(place),
    {
        match place {
            InstallPlace::InstallDir => self.install_dir.as_str(),
            InstallPlace::Binary => self.binary_path.as_str(),
            InstallPlace::Archive => self.archive_path.as_str(),
            InstallPlace::ExtractDir => self.extract_path.as_str(),
        }
    }

    /// Whether the installation is over.
    pub fn is_done(&self) -> (b: bool)
        ensures
            b == (self.phase() == InstallPhase::Done),
    {
        self.phase == InstallPhase::Done
    }

    /// The action for entering `phase`, which is not the end.
    fn enter(&mut self, phase: InstallPhase) -> (action: InstallAction)
        requires
            phase != InstallPhase::Done,
            phase != InstallPhase::NotStarted,
        ensures
            final(self).phase() == phase,
            final(self).on_windows() == old(self).on_windows(),
            final(self).places() == old(self).places(),
            action@ == old(self).action_of(phase),
    {
        self.phase = phase;
        match phase {
            InstallPhase::CreatingInstallDir => InstallAction::CreateDir(InstallPlace::InstallDir),
            InstallPhase::CheckingBinary => InstallAction::CheckExists(InstallPlace::Binary),
            InstallPhase::CheckingOldExtract => InstallAction::CheckExists(InstallPlace::ExtractDir),
            InstallPhase::ClearingOldExtract => InstallAction::RemoveDir(InstallPlace::ExtractDir),
            InstallPhase::Fetching => InstallAction::Fetch(String::from_str(FFMPEG_ARCHIVE_URL)),
            InstallPhase::Reading => InstallAction::ReadBody,
            InstallPhase::Saving => InstallAction::SaveArchive(InstallPlace::Archive),
            InstallPhase::CreatingExtractDir => InstallAction::CreateDir(InstallPlace::ExtractDir),
            InstallPhase::Extracting => {
                let command = expand_archive_command(
                    self.archive_path.as_str(),
                    self.extract_path.as_str(),
                );
                let mut args: Vec<String> = Vec::new();
                args.push(String::from_str("-NoProfile"));
                args.push(String::from_str("-ExecutionPolicy"));
                args.push(String::from_str("Bypass"));
                args.push(String::from_str("-Command"));
                args.push(command);
                assert(string_views(args@) =~= powershell_args_of(
                    expand_archive_command_of(self.archive_path@, self.extract_path@),
                ));
                InstallAction::RunCommand { program: String::from_str("powershell.exe"), args }
            },
            InstallPhase::Searching => InstallAction::FindFile {
                dir: InstallPlace::ExtractDir,
                name: String::from_str(FFMPEG_BINARY_NAME),
            },
            InstallPhase::Installing => InstallAction::CopyFoundTo(InstallPlace::Binary),
            InstallPhase::CleaningUp => InstallAction::CleanUp,
            _ => InstallAction::ResolveAbsolute(InstallPlace::Binary),
        }
    }

    /// Ends the installation with `result`.
    fn finish(&mut self, result: Result<Option<String>, String>) -> (action: InstallAction)
        ensures
            final(self).phase() == InstallPhase::Done,
            final(self).on_windows() == old(self).on_windows(),
            final(self).places() == old(self).places(),
            action == InstallAction::Finish(result),
    {
        self.phase = InstallPhase::Done;
        InstallAction::Finish(result)
    }

    /// Takes the outcome of the last action and says what to do next.
    pub fn step(&mut self, event: InstallEvent) -> (action: InstallAction)
        requires
            install_accepts(old(self).phase(), event@),
        ensures
            old(self).install_steps_to(event@, *final(self), action@),
    {
        let phase = self.phase;
        match event {
            InstallEvent::Start => {
                if self.is_windows {
                    self.enter(InstallPhase::CreatingInstallDir)
                } else {
                    self.finish(Ok(None))
                }
            },
            InstallEvent::Completed(Ok(())) => {
                let next = match phase {
                    InstallPhase::CreatingInstallDir => InstallPhase::CheckingBinary,
                    InstallPhase::ClearingOldExtract => InstallPhase::Fetching,
                    InstallPhase::Reading => InstallPhase::Saving,
                    InstallPhase::Saving => InstallPhase::CreatingExtractDir,
                    InstallPhase::CreatingExtractDir => InstallPhase::Extracting,
                    InstallPhase::Installing => InstallPhase::CleaningUp,
                    _ => InstallPhase::Resolving,
                };
                self.enter(next)
            },
            InstallEvent::Completed(Err(cause)) => {
                if phase == InstallPhase::CleaningUp {
                    self.enter(InstallPhase::Resolving)
                } else {
                    let message = describe_failure(context_message(phase), cause.as_str());
                    self.finish(Err(message))
                }
            },
            InstallEvent::Checked(exists) => {
                if phase == InstallPhase::CheckingBinary {
                    if exists {
                        self.enter(InstallPhase::Resolving)
                    } else {
                        self.enter(InstallPhase::CheckingOldExtract)
                    }
                } else if exists {
                    self.enter(InstallPhase::ClearingOldExtract)
                } else {
                    self.enter(InstallPhase::Fetching)
                }
            },
            InstallEvent::Fetched(Ok((success, status))) => {
                if success {
                    self.enter(InstallPhase::Reading)
                } else {
                    let cause = concat("HTTP ", status.as_str());
                    let message = describe_failure(context_message(phase), cause.as_str());
                    self.finish(Err(message))
                }
            },
            InstallEvent::Fetched(Err(cause)) => {
                let message = describe_failure(context_message(phase), cause.as_str());
                self.finish(Err(message))
            },
            InstallEvent::CommandFinished(Ok(success)) => {
                if success {
                    self.enter(InstallPhase::Searching)
                } else {
                    self.finish(Err(String::from_str("Failed to extract ffmpeg archive.")))
                }
            },
            InstallEvent::CommandFinished(Err(cause)) => {
                let message = describe_failure(context_message(phase), cause.as_str());
                self.finish(Err(message))
            },
            InstallEvent::Searched(found) => {
                if found {
                    self.enter(InstallPhase::Installing)
                } else {
                    self.finish(
                        Err(String::from_str("ffmpeg.exe was not found in the downloaded archive.")),
                    )
                }
            },
            InstallEvent::Resolved(Ok(path)) => self.finish(Ok(Some(path))),
            InstallEvent::Resolved(Err(cause)) => {
                let message = describe_failure(context_message(phase), cause.as_str());
                self.finish(Err(message))
            },
        }
    }
}

/// The context of the error message when the action of `phase` fails.
fn context_message(phase: InstallPhase) -> (context: &'static str)
    ensures
        context@ == failure_context(phase),
{
    match phase {
        InstallPhase::CreatingInstallDir => "Failed to create ffmpeg install directory",
        InstallPhase::ClearingOldExtract => "Failed to clear old ffmpeg directory",
        InstallPhase::Fetching => "Failed to download ffmpeg",
        InstallPhase::Reading => "Failed to read ffmpeg download",
        InstallPhase::Saving => "Failed to save ffmpeg download",
        InstallPhase::CreatingExtractDir => "Failed to create ffmpeg extract directory",
        InstallPhase::Extracting => "Failed to run PowerShell unzip for ffmpeg",
        InstallPhase::Installing => "Failed to install ffmpeg.exe",
        _ => "Cannot resolve ffmpeg path",
    }
}


/// Away from Windows nothing is installed: the first step ends the
/// installation with no path and no error.
pub proof fn law_nothing_to_install_elsewhere()
    ensures
        next_phase(false, InstallPhase::NotStarted, InstallEventView::Start) == InstallPhase::Done,
        finish_result(InstallPhase::NotStarted, InstallEventView::Start) == Ok::<
            Option<Seq<char>>,
            Seq<char>,
        >(None),
{
}

/// An installation that ends well on Windows names the absolute path it
/// resolved last; an installation ends with no path only when it was not
/// needed.
pub proof fn law_success_names_resolved_path(
    is_windows: bool,
    phase: InstallPhase,
    event: InstallEventView,
)
    requires
        install_accepts(phase, event),
        next_phase(is_windows, phase, event) == InstallPhase::Done,
        finish_result(phase, event) is Ok,
    ensures
        finish_result(phase, event) matches Ok(Some(path)) ==> phase == InstallPhase::Resolving
            && event == InstallEventView::Resolved(Ok::<Seq<char>, Seq<char>>(path)),
        finish_result(phase, event) matches Ok(None) ==> !is_windows && event
            == InstallEventView::Start,
{
}

/// An ffmpeg already in the install folder is used as it is: nothing is
/// downloaded, its path is resolved next.
pub proof fn law_existing_binary_is_reused(is_windows: bool)
    ensures
        next_phase(is_windows, InstallPhase::CheckingBinary, InstallEventView::Checked(true))
            == InstallPhase::Resolving,
{
}

/// Cleaning up never fails an installation.
pub proof fn law_cleanup_never_fails(is_windows: bool, outcome: Result<(), Seq<char>>)
    ensures
        next_phase(is_windows, InstallPhase::CleaningUp, InstallEventView::Completed(outcome))
            == InstallPhase::Resolving,
{
}

/// A finished installation takes no further events.
pub proof fn law_install_done_is_final(event: InstallEventView)
    ensures
        !install_accepts(InstallPhase::Done, event),
{
}

/// A run of steps of one installation: each state takes the next event, which
/// it accepts, and steps to the next state with the action listed.
pub open spec fn install_chain(
    installs: Seq<FfmpegInstall>,
    events: Seq<InstallEventView>,
    actions: Seq<InstallActionView>,
) -> bool {
    &&& installs.len() == events.len() + 1
    &&& actions.len() == events.len()
    &&& forall|i: int|
        0 <= i < events.len() ==> install_accepts((#[trigger] installs[i]).phase(), events[i])
            && installs[i].install_steps_to(events[i], installs[i + 1], actions[i])
}

/// Installing again where ffmpeg is already in place: once the check for the
/// executable finds it, the installation requests nothing from the network,
/// does nothing else to the disk, and ends with the absolute path resolved
/// for the executable.
pub proof fn law_reinstall_reuses_binary(
    installs: Seq<FfmpegInstall>,
    events: Seq<InstallEventView>,
    actions: Seq<InstallActionView>,
)
    requires
        install_chain(installs, events, actions),
        installs[0].phase() == InstallPhase::NotStarted,
        installs[0].on_windows(),
        events.len() >= 3,
        events[2] == InstallEventView::Checked(true),
    ensures
        events.len() <= 4,
        forall|i: int| 0 <= i < actions.len() ==> !(#[trigger] actions[i] is Fetch),
        actions[0] == InstallActionView::CreateDir(InstallPlace::InstallDir),
        actions[1] == InstallActionView::CheckExists(InstallPlace::Binary),
        actions[2] == InstallActionView::ResolveAbsolute(InstallPlace::Binary),
        events.len() == 4 ==> (events[3] matches InstallEventView::Resolved(Ok(path)) ==> actions[3]
            == InstallActionView::Finish(Ok(Some(path)))),
{
    assert(install_accepts(installs[0].phase(), events[0]));
    assert(installs[0].install_steps_to(events[0], installs[1], actions[0]));
    assert(install_accepts(installs[1].phase(), events[1]));
    assert(installs[1].install_steps_to(events[1], installs[2], actions[1]));
    assert(install_accepts(installs[2].phase(), events[2]));
    assert(installs[2].install_steps_to(events[2], installs[3], actions[2]));
    if events.len() > 3 {
        assert(install_accepts(installs[3].phase(), events[3]));
        assert(installs[3].install_steps_to(events[3], installs[4], actions[3]));
        if events.len() > 4 {
            assert(install_accepts(installs[4].phase(), events[4]));
        }
    }
}

} // verus!
