//! The decisions of the downloader window: what it holds, how it reacts to
//! the background job's messages and to its buttons, and what it shows.
use vstd::prelude::*;
use crate::config::{AppState, AppStateView};
use crate::engine::{concat, option_view, DownloadConfig, MediaFormat, VideoResolution, MISSING_FFMPEG_MESSAGE};
use crate::text::{lines_of, split_lines, string_views};

verus! {

/// What the window found on the background job's channel.
pub enum ChannelMessage {
    /// The job sent a new state.
    State(AppState),
    /// Nothing has arrived.
    Empty,
    /// The job is gone and no message is left.
    Disconnected,
}

/// The view of a [`ChannelMessage`].
pub enum ChannelMessageView {
    State(AppStateView),
    Empty,
    Disconnected,
}

impl View for ChannelMessage {
    type V = ChannelMessageView;

    open spec fn view(&self) -> ChannelMessageView {
        match self {
            ChannelMessage::State(s) => ChannelMessageView::State(s@),
            ChannelMessage::Empty => ChannelMessageView::Empty,
            ChannelMessage::Disconnected => ChannelMessageView::Disconnected,
        }
    }
}

/// The state that tells that the background job vanished.
pub open spec fn lost_job_state() -> AppStateView {
    AppStateView::Error("Background thread disconnected unexpectedly."@)
}

/// The state after a message from the job: a sent state replaces the current
/// one; when the job is gone while a download was shown, that is an error;
/// otherwise nothing changes.
pub open spec fn state_after_message(state: AppStateView, message: ChannelMessageView) -> AppStateView {
    match message {
        ChannelMessageView::State(s) => s,
        ChannelMessageView::Empty => state,
        ChannelMessageView::Disconnected => match state {
            AppStateView::Downloading(_) => lost_job_state(),
            _ => state,
        },
    }
}

/// Whether the window redraws after a message: when the shown state changed.
pub open spec fn repaints_after(state: AppStateView, message: ChannelMessageView) -> bool {
    match message {
        ChannelMessageView::State(_) => true,
        ChannelMessageView::Empty => false,
        ChannelMessageView::Disconnected => state is Downloading,
    }
}

/// The state a finished background job reports.
pub open spec fn finished_state_of(result: Result<(), Seq<char>>) -> AppStateView {
    match result {
        Ok(()) => AppStateView::Idle("Success! All files saved."@),
        Err(e) => AppStateView::Error(e),
    }
}

/// The state a finished background job reports: success, or its error.
pub fn finished_state(result: Result<(), String>) -> (state: AppState)
    ensures
        state@ == finished_state_of(
            match result {
                Ok(()) => Ok(()),
                Err(e) => Err(e@),
            },
        ),
{
    match result {
        Ok(()) => AppState::Idle(String::from_str("Success! All files saved.")),
        Err(e) => AppState::Error(e),
    }
}

/// The caption of a resolution in the closed picker.
pub open spec fn resolution_caption_of(res: VideoResolution) -> Seq<char> {
    match res {
        VideoResolution::Res1080 => "1080p (Full HD)"@,
        VideoResolution::Res720 => "720 (HD)"@,
        VideoResolution::Res480 => "480p"@,
        VideoResolution::Res360 => "360p"@,
    }
}

/// The caption of a resolution in the closed picker.
pub fn resolution_caption(res: VideoResolution) -> (caption: &'static str)
    ensures
        caption@ == resolution_caption_of(res),
{
    match res {
        VideoResolution::Res1080 => "1080p (Full HD)",
        VideoResolution::Res720 => "720 (HD)",
        VideoResolution::Res480 => "480p",
        VideoResolution::Res360 => "360p",
    }
}

/// The label of a resolution in the picker's list.
pub open spec fn resolution_choice_label_of(res: VideoResolution) -> Seq<char> {
    match res {
        VideoResolution::Res1080 => "1080p (Full HD)"@,
        VideoResolution::Res720 => "720p (HD)"@,
        VideoResolution::Res480 => "480p"@,
        VideoResolution::Res360 => "360p"@,
    }
}

/// The label of a resolution in the picker's list.
pub fn resolution_choice_label(res: VideoResolution) -> (label: &'static str)
    ensures
        label@ == resolution_choice_label_of(res),
{
    match res {
        VideoResolution::Res1080 => "1080p (Full HD)",
        VideoResolution::Res720 => "720p (HD)",
        VideoResolution::Res480 => "480p",
        VideoResolution::Res360 => "360p",
    }
}

/// The resolutions the picker offers, from the highest.
pub fn resolution_choices() -> (choices: [VideoResolution; 4])
    ensures
        choices@ == seq![
            VideoResolution::Res1080,
            VideoResolution::Res720,
            VideoResolution::Res480,
            VideoResolution::Res360,
        ],
{
    [VideoResolution::Res1080, VideoResolution::Res720, VideoResolution::Res480, VideoResolution::Res360]
}

/// The downloader window's state.
pub struct YtDownloaderApp {
    pub url_input: String,
    pub destination_path: String,
    pub is_audio_only: bool,
    pub state: AppState,
    pub engine_path: Option<String>,
    pub ffmpeg_path: Option<String>,
    pub selected_resolution: VideoResolution,
}

impl YtDownloaderApp {
    /// The window as it opens, knowing where yt-dlp and ffmpeg were installed.
    pub fn new(engine_path: Option<String>, ffmpeg_path: Option<String>) -> (app: Self)
        ensures
            app.url_input@ == Seq::<char>::empty(),
            app.destination_path@ == "Downloads"@,
            !app.is_audio_only,
            app.state@ == AppStateView::Idle("Ready"@),
            app.engine_path == engine_path,
            app.ffmpeg_path == ffmpeg_path,
            app.selected_resolution == VideoResolution::Res1080,
    {
        YtDownloaderApp {
            url_input: String::new(),
            destination_path: String::from_str("Downloads"),
            is_audio_only: false,
            state: AppState::Idle(String::from_str("Ready")),
            engine_path,
            ffmpeg_path,
            selected_resolution: VideoResolution::Res1080,
        }
    }

    /// Whether the window waits for a new batch; only then can its inputs change.
    pub fn is_idle(&self) -> (idle: bool)
        ensures
            idle == (self.state@ is Idle),
    {
        match &self.state {
            AppState::Idle(_) => true,
            _ => false,
        }
    }

    /// Whether the resolution picker can be used: not for audio downloads.
    pub fn resolution_picker_enabled(&self) -> (enabled: bool)
        ensures
            enabled == !self.is_audio_only,
    {
        !self.is_audio_only
    }

    /// The kind of file the next batch produces.
    pub fn target_format(&self) -> (format: MediaFormat)
        ensures
            format == (if self.is_audio_only {
                MediaFormat::Mp3
            } else {
                MediaFormat::Mp4
            }),
    {
        if self.is_audio_only {
            MediaFormat::Mp3
        } else {
            MediaFormat::Mp4
        }
    }

    /// Takes what arrived from the background job; says whether to redraw.
    pub fn receive(&mut self, message: ChannelMessage) -> (repaint: bool)
        ensures
            final(self).state@ == state_after_message(old(self).state@, message@),
            repaint == repaints_after(old(self).state@, message@),
            final(self).url_input == old(self).url_input,
            final(self).destination_path == old(self).destination_path,
            final(self).is_audio_only == old(self).is_audio_only,
            final(self).engine_path == old(self).engine_path,
            final(self).ffmpeg_path == old(self).ffmpeg_path,
            final(self).selected_resolution == old(self).selected_resolution,
    {
        match message {
            ChannelMessage::State(s) => {
                self.state = s;
                true
            },
            ChannelMessage::Empty => false,
            ChannelMessage::Disconnected => {
                if let AppState::Downloading(_) = &self.state {
                    self.state = AppState::Error(
                        String::from_str("Background thread disconnected unexpectedly."),
                    );
                    true
                } else {
                    false
                }
            },
        }
    }

    /// The start button was pressed: the batch to run, or the reason it
    /// cannot start. Without yt-dlp, or on Windows without ffmpeg, the window
    /// shows an error and nothing starts; otherwise it shows that the engine
    /// starts and hands out the batch: the lines of the URL box, the folder,
    /// the format, the resolution and both tools.
    pub fn start_download(&mut self, is_windows: bool) -> (batch: Option<DownloadConfig>)
        ensures
            final(self).url_input == old(self).url_input,
            final(self).destination_path == old(self).destination_path,
            final(self).is_audio_only == old(self).is_audio_only,
            final(self).engine_path == old(self).engine_path,
            final(self).ffmpeg_path == old(self).ffmpeg_path,
            final(self).selected_resolution == old(self).selected_resolution,
            old(self).engine_path is None ==> batch is None && final(self).state@ == AppStateView::Error(
                "yt-dlp engine not found. Restart the app."@,
            ),
            old(self).engine_path is Some && is_windows && old(self).ffmpeg_path is None ==> batch is None
                && final(self).state@ == AppStateView::Error(MISSING_FFMPEG_MESSAGE@),
            old(self).engine_path is Some && !(is_windows && old(self).ffmpeg_path is None) ==> {
                &&& final(self).state@ == AppStateView::Downloading("Initializing engine..."@)
                &&& batch matches Some(config) && {
                    &&& string_views(config.urls@) == lines_of(old(self).url_input@)
                    &&& config.destination_path@ == old(self).destination_path@
                    &&& config.target_format == (if old(self).is_audio_only {
                        MediaFormat::Mp3
                    } else {
                        MediaFormat::Mp4
                    })
                    &&& config.target_resolution == old(self).selected_resolution
                    &&& config.engine_path@ == old(self).engine_path.unwrap()@
                    &&& option_view(config.ffmpeg_path) == option_view(old(self).ffmpeg_path)
                }
            },
    {
        let engine_path = match &self.engine_path {
            Some(p) => p.clone(),
            None => {
                self.state = AppState::Error(
                    String::from_str("yt-dlp engine not found. Restart the app."),
                );
                return None;
            },
        };
        let ffmpeg_path = match &self.ffmpeg_path {
            Some(p) => Some(p.clone()),
            None => {
                if is_windows {
                    self.state = AppState::Error(String::from_str(MISSING_FFMPEG_MESSAGE));
                    return None;
                }
                None
            },
        };
        self.state = AppState::Downloading(String::from_str("Initializing engine..."));
        let urls = split_lines(self.url_input.as_str());
        Some(
            DownloadConfig {
                urls,
                destination_path: self.destination_path.clone(),
                target_format: self.target_format(),
                target_resolution: self.selected_resolution,
                engine_path,
                ffmpeg_path,
            },
        )
    }

    /// The "force stop" button: the window waits for a new batch again.
    pub fn force_reset(&mut self)
        ensures
            final(self).state@ == AppStateView::Idle("Engine reset manually."@),
            final(self).url_input == old(self).url_input,
            final(self).destination_path == old(self).destination_path,
            final(self).is_audio_only == old(self).is_audio_only,
            final(self).engine_path == old(self).engine_path,
            final(self).ffmpeg_path == old(self).ffmpeg_path,
            final(self).selected_resolution == old(self).selected_resolution,
    {
        self.state = AppState::Idle(String::from_str("Engine reset manually."));
    }

    /// The text of the start button.
    pub fn button_text(&self) -> (text: &'static str)
        ensures
            text@ == (if self.state@ is Idle {
                "🚀 START DOWNLOAD"@
            } else {
                "⏳ DOWNLOADING..."@
            }),
    {
        if self.is_idle() {
            "🚀 START DOWNLOAD"
        } else {
            "⏳ DOWNLOADING..."
        }
    }

    /// The status line under the button.
    pub fn status_text(&self) -> (text: String)
        ensures
            text@ == match self.state@ {
                AppStateView::Idle(m) => "🟢 Status: "@ + m,
                AppStateView::Downloading(m) => " "@ + m,
                AppStateView::Error(m) => "❌ Error: "@ + m,
            },
    {
        match &self.state {
            AppState::Idle(m) => concat("🟢 Status: ", m.as_str()),
            AppState::Downloading(m) => concat(" ", m.as_str()),
            AppState::Error(m) => concat("❌ Error: ", m.as_str()),
        }
    }

    /// The colour of the status line: green, yellow or red.
    pub fn status_color(&self) -> (rgb: (u8, u8, u8))
        ensures
            rgb == match self.state@ {
                AppStateView::Idle(_) => (100u8, 200u8, 100u8),
                AppStateView::Downloading(_) => (200u8, 200u8, 100u8),
                AppStateView::Error(_) => (230u8, 90u8, 90u8),
            },
    {
        match &self.state {
            AppState::Idle(_) => (100, 200, 100),
            AppState::Downloading(_) => (200, 200, 100),
            AppState::Error(_) => (230, 90, 90),
        }
    }

    /// Whether a spinner runs beside the status line: while downloading.
    pub fn shows_spinner(&self) -> (spinning: bool)
        ensures
            spinning == (self.state@ is Downloading),
    {
        match &self.state {
            AppState::Downloading(_) => true,
            _ => false,
        }
    }
}

/// A vanished job never leaves the window showing a download: the inputs
/// come back, as an error. A window that was idle or showed an error stays
/// as it was.
pub proof fn law_lost_job_unlocks(state: AppStateView)
    ensures
        !(state_after_message(state, ChannelMessageView::Disconnected) is Downloading),
        !(state is Downloading) ==> state_after_message(state, ChannelMessageView::Disconnected)
            == state,
{
}

/// Once a finished job's report arrives, the window no longer shows a
/// download: it waits for a new batch after a success and shows the error
/// after a failure.
pub proof fn law_finished_job_unlocks(state: AppStateView, result: Result<(), Seq<char>>)
    ensures
        ({
            let after = state_after_message(
                state,
                ChannelMessageView::State(finished_state_of(result)),
            );
            &&& !(after is Downloading)
            &&& (after is Idle <==> result is Ok)
        }),
{
}

} // verus!
