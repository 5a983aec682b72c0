//! The decisions of one batch of downloads, as a state machine: the caller
//! performs each action (creating and resolving the destination folder,
//! running yt-dlp) and reports its outcome as the next event.
use vstd::prelude::*;
use youtube_dl::YoutubeDl;
use crate::engine::{
    describe_failure, download_failure_message, download_failure_text, download_targets,
    expand_home, expanded_home, failure_text, lacks_ffmpeg, planned_settings, prepare_downloader,
    targets_of, DownloadConfig, MISSING_FFMPEG_MESSAGE,
};
use crate::text::string_views;
use crate::ytdl::youtube_dl_settings;

verus! {

/// Where a batch of downloads stands.
#[derive(Clone, Copy, Debug, PartialEq, Eq, Structural)]
pub enum RunPhase {
    NotStarted,
    PreparingDestination,
    ResolvingDestination,
    Downloading,
    Done,
}

/// The outcome of the last action, reported back to the run.
pub enum RunEvent {
    Start,
    /// The destination folder exists now, or could not be created (the cause).
    DestinationPrepared(Result<(), String>),
    /// The absolute destination folder, or why it could not be found.
    DestinationResolved(Result<String, String>),
    /// A download went through, or failed (the cause).
    DownloadFinished(Result<(), String>),
}

/// What the caller does next.
pub enum RunAction {
    /// Create this folder, with its parents, unless it exists.
    PrepareDestination(String),
    /// Turn this folder into an absolute path; on Windows without resolving
    /// links (`absolute_only`), elsewhere canonically.
    ResolveDestination { path: String, absolute_only: bool },
    /// Run this yt-dlp command for `url`, saving into `destination`.
    Download { url: String, downloader: YoutubeDl, destination: String },
    /// The batch is over, with this result.
    Finish(Result<(), String>),
}

/// One batch of downloads.
pub struct DownloadRun {
    config: DownloadConfig,
    is_windows: bool,
    raw_path: String,
    destination: String,
    targets: Vec<String>,
    next: usize,
    phase: RunPhase,
}

/// Which events a run accepts in each phase.
pub open spec fn accepts(phase: RunPhase, event: RunEvent) -> bool {
    match event {
        RunEvent::Start => phase == RunPhase::NotStarted,
        RunEvent::DestinationPrepared(_) => phase == RunPhase::PreparingDestination,
        RunEvent::DestinationResolved(_) => phase == RunPhase::ResolvingDestination,
        RunEvent::DownloadFinished(_) => phase == RunPhase::Downloading,
    }
}

/// Whether `action` ends the run with the error message `message`.
pub open spec fn fails_with(action: RunAction, message: Seq<char>) -> bool {
    action matches RunAction::Finish(Err(m)) && m@ == message
}

impl DownloadRun {
    /// The settings of the batch.
    pub closed spec fn config(&self) -> DownloadConfig {
        self.config
    }

    /// Whether the run takes the Windows path.
    pub closed spec fn on_windows(&self) -> bool {
        self.is_windows
    }

    /// The destination folder as typed, with `~` expanded.
    pub closed spec fn raw_path(&self) -> Seq<char> {
        self.raw_path@
    }

    /// The absolute destination folder, once resolved.
    pub closed spec fn destination(&self) -> Seq<char> {
        self.destination@
    }

    /// The URLs to download, in order.
    pub closed spec fn targets(&self) -> Seq<Seq<char>> {
        string_views(self.targets@)
    }

    /// How many downloads have gone through.
    pub closed spec fn completed(&self) -> nat {
        self.next as nat
    }

    /// Where the run stands.
    pub closed spec fn phase(&self) -> RunPhase {
        self.phase
    }

    /// The run's invariant: it never counts more downloads than it has
    /// targets, and while downloading, one target is in flight.
    pub closed spec fn wf(&self) -> bool {
        &&& self.next <= self.targets.len()
        &&& self.phase == RunPhase::Downloading ==> self.next < self.targets.len()
    }

    /// Whether `after` and `action` are where the run goes once `k` downloads
    /// have gone through: the next target's download, or the end of the batch.
    pub open spec fn advanced(&self, after: DownloadRun, action: RunAction, k: int) -> bool {
        let targets = self.targets();
        if k < targets.len() {
            if lacks_ffmpeg(self.config(), self.on_windows()) {
                &&& after.phase() == RunPhase::Done
                &&& fails_with(action, MISSING_FFMPEG_MESSAGE@)
            } else {
                &&& after.phase() == RunPhase::Downloading
                &&& after.completed() == k
                &&& action matches RunAction::Download { url, downloader, destination } && {
                    &&& url@ == targets[k]
                    &&& destination@ == after.destination()
                    &&& youtube_dl_settings(downloader) == planned_settings(
                        self.config(),
                        targets[k],
                        after.destination(),
                        self.on_windows(),
                    )
                }
            }
        } else {
            &&& after.phase() == RunPhase::Done
            &&& after.completed() == targets.len()
            &&& action matches RunAction::Finish(Ok(()))
        }
    }

    /// What one step does: the next state `after` and the action for the caller,
    /// given the outcome `event` of the last action.
    #[verifier::opaque]
    pub open spec fn steps_to(&self, event: RunEvent, after: DownloadRun, action: RunAction) -> bool {
        &&& after.config() == self.config()
        &&& after.on_windows() == self.on_windows()
        &&& after.raw_path() == self.raw_path()
        &&& after.targets() == self.targets()
        &&& match event {
            RunEvent::Start => {
                &&& after.phase() == RunPhase::PreparingDestination
                &&& action matches RunAction::PrepareDestination(p) && p@ == self.raw_path()
            },
            RunEvent::DestinationPrepared(Ok(())) => {
                &&& after.phase() == RunPhase::ResolvingDestination
                &&& action matches RunAction::ResolveDestination { path, absolute_only } && path@
                    == self.raw_path() && absolute_only == self.on_windows()
            },
            RunEvent::DestinationPrepared(Err(cause)) => {
                &&& after.phase() == RunPhase::Done
                &&& fails_with(
                    action,
                    failure_text("Failed to create destination directory"@, cause@),
                )
            },
            RunEvent::DestinationResolved(Ok(dest)) => {
                &&& after.destination() == dest@
                &&& self.advanced(after, action, 0)
            },
            RunEvent::DestinationResolved(Err(cause)) => {
                &&& after.phase() == RunPhase::Done
                &&& fails_with(action, failure_text("Cannot resolve destination path"@, cause@))
            },
            RunEvent::DownloadFinished(Ok(())) => {
                &&& after.destination() == self.destination()
                &&& self.advanced(after, action, self.completed() + 1int)
            },
            RunEvent::DownloadFinished(Err(cause)) => {
                &&& after.phase() == RunPhase::Done
                &&& fails_with(
                    action,
                    download_failure_text(self.targets()[self.completed() as int], cause@),
                )
            },
        }
    }

    /// A run of `config`; `home` stands for a leading `~` of the destination.
    pub fn new(config: DownloadConfig, is_windows: bool, home: &str) -> (run: Self)
        ensures
            run.wf(),
            run.phase() == RunPhase::NotStarted,
            run.config() == config,
            run.on_windows() == is_windows,
            run.raw_path() == expanded_home(config.destination_path@, home@),
            run.targets() == targets_of(string_views(config.urls@)),
            run.completed() == 0,
    {
        let raw_path = expand_home(config.destination_path.as_str(), home);
        let targets = download_targets(&config.urls);
        DownloadRun {
            config,
            is_windows,
            raw_path,
            destination: String::new(),
            targets,
            next: 0,
            phase: RunPhase::NotStarted,
        }
    }

    /// Whether the run is over.
    pub fn is_done(&self) -> (b: bool)
        ensures
            b == (self.phase() == RunPhase::Done),
    {
        self.phase == RunPhase::Done
    }

    /// Starts the download of target `self.next`, or ends the batch.
    fn advance(&mut self) -> (action: RunAction)
        requires
            old(self).next <= old(self).targets.len(),
        ensures
            final(self).wf(),
            final(self).config() == old(self).config(),
            final(self).on_windows() == old(self).on_windows(),
            final(self).raw_path() == old(self).raw_path(),
            final(self).destination() == old(self).destination(),
            final(self).targets() == old(self).targets(),
            old(self).advanced(*final(self), action, old(self).next as int),
    {
        if self.next < self.targets.len() {
            let url = self.targets[self.next].clone();
            match prepare_downloader(&self.config, url.as_str(), self.destination.as_str(), self.is_windows) {
                Ok(downloader) => {
                    self.phase = RunPhase::Downloading;
                    RunAction::Download { url, downloader, destination: self.destination.clone() }
                },
                Err(message) => {
                    self.phase = RunPhase::Done;
                    RunAction::Finish(Err(message))
                },
            }
        } else {
            self.phase = RunPhase::Done;
            RunAction::Finish(Ok(()))
        }
    }

    /// Takes the outcome of the last action and says what to do next.
    pub fn step(&mut self, event: RunEvent) -> (action: RunAction)
        requires
            old(self).wf(),
            accepts(old(self).phase(), event),
        ensures
            final(self).wf(),
            old(self).steps_to(event, *final(self), action),
    {
        proof {
            reveal(DownloadRun::steps_to);
        }
        match event {
            RunEvent::Start => {
                self.phase = RunPhase::PreparingDestination;
                RunAction::PrepareDestination(self.raw_path.clone())
            },
            RunEvent::DestinationPrepared(Ok(())) => {
                self.phase = RunPhase::ResolvingDestination;
                RunAction::ResolveDestination {
                    path: self.raw_path.clone(),
                    absolute_only: self.is_windows,
                }
            },
            RunEvent::DestinationPrepared(Err(cause)) => {
                self.phase = RunPhase::Done;
                RunAction::Finish(
                    Err(describe_failure("Failed to create destination directory", cause.as_str())),
                )
            },
            RunEvent::DestinationResolved(Ok(dest)) => {
                self.destination = dest;
                self.next = 0;
                self.advance()
            },
            RunEvent::DestinationResolved(Err(cause)) => {
                self.phase = RunPhase::Done;
                RunAction::Finish(
                    Err(describe_failure("Cannot resolve destination path", cause.as_str())),
                )
            },
            RunEvent::DownloadFinished(Ok(())) => {
                self.next = self.next + 1;
                self.advance()
            },
            RunEvent::DownloadFinished(Err(cause)) => {
                self.phase = RunPhase::Done;
                let message = download_failure_message(
                    self.targets[self.next].as_str(),
                    cause.as_str(),
                );
                RunAction::Finish(Err(message))
            },
        }
    }
}

/// A finished run takes no further events.
pub proof fn law_done_is_final(event: RunEvent)
    ensures
        !accepts(RunPhase::Done, event),
{
}

/// A run ends well only once every target has been downloaded: the last
/// event was the success of the last download, or the destination was
/// resolved and there was nothing to download.
pub proof fn law_success_needs_every_download(
    before: DownloadRun,
    event: RunEvent,
    after: DownloadRun,
    action: RunAction,
)
    requires
        before.wf(),
        accepts(before.phase(), event),
        before.steps_to(event, after, action),
        action matches RunAction::Finish(Ok(())),
    ensures
        after.phase() == RunPhase::Done,
        after.completed() == after.targets().len(),
        event matches RunEvent::DownloadFinished(Ok(())) || (event matches RunEvent::DestinationResolved(
            Ok(_),
        ) && after.targets().len() == 0),
{
    reveal(DownloadRun::steps_to);
}

/// Every failure ends the run, with a message naming what failed.
pub proof fn law_failure_ends_run(
    before: DownloadRun,
    event: RunEvent,
    after: DownloadRun,
    action: RunAction,
)
    requires
        before.wf(),
        accepts(before.phase(), event),
        before.steps_to(event, after, action),
        event matches RunEvent::DestinationPrepared(Err(_)) || event matches RunEvent::DestinationResolved(
            Err(_),
        ) || event matches RunEvent::DownloadFinished(Err(_)),
    ensures
        after.phase() == RunPhase::Done,
        action matches RunAction::Finish(Err(_)),
{
    reveal(DownloadRun::steps_to);
}

/// Downloads go in order: after a download succeeds, the next one asked for
/// is of the following target, into the same folder.
pub proof fn law_downloads_follow_targets(
    before: DownloadRun,
    after: DownloadRun,
    action: RunAction,
)
    requires
        before.wf(),
        before.phase() == RunPhase::Downloading,
        before.steps_to(RunEvent::DownloadFinished(Ok(())), after, action),
        action matches RunAction::Download { .. },
    ensures
        after.completed() == before.completed() + 1,
        action matches RunAction::Download { url, destination, .. } && url@ == before.targets()[before.completed()
            + 1int] && destination@ == before.destination(),
{
    reveal(DownloadRun::steps_to);
}


/// Every download the run asks for fetches exactly the URL it names: the
/// yt-dlp command is made for that URL, which is the target after the ones
/// already downloaded, and it saves into the resolved folder.
pub proof fn law_download_fetches_its_url(
    before: DownloadRun,
    event: RunEvent,
    after: DownloadRun,
    action: RunAction,
)
    requires
        before.wf(),
        accepts(before.phase(), event),
        before.steps_to(event, after, action),
        action is Download,
    ensures
        after.completed() < after.targets().len(),
        action matches RunAction::Download { url, downloader, destination } && {
            &&& youtube_dl_settings(downloader).0 == url@
            &&& url@ == after.targets()[after.completed() as int]
            &&& destination@ == after.destination()
            &&& youtube_dl_settings(downloader).1 == Some(after.config().engine_path@)
        },
{
    reveal(DownloadRun::steps_to);
}

/// The batch as a chain of steps: each run state steps to the next on the
/// outcome reported, the first outcome being the resolved destination and
/// every later one a download that went through.
pub open spec fn successful_chain(runs: Seq<DownloadRun>, actions: Seq<RunAction>, dest: Seq<char>) -> bool {
    &&& actions.len() >= 1
    &&& runs.len() == actions.len() + 1
    &&& forall|i: int| 0 <= i < runs.len() ==> (#[trigger] runs[i]).wf()
    &&& runs[0].phase() == RunPhase::ResolvingDestination
    &&& exists|d: String| d@ == dest && runs[0].steps_to(RunEvent::DestinationResolved(Ok(d)), runs[1], actions[0])
    &&& forall|i: int|
        1 <= i < actions.len() ==> accepts((#[trigger] runs[i]).phase(), RunEvent::DownloadFinished(Ok(())))
            && runs[i].steps_to(RunEvent::DownloadFinished(Ok(())), runs[i + 1], actions[i])
}


proof fn lemma_success_step(before: DownloadRun, after: DownloadRun, action: RunAction)
    requires
        before.wf(),
        before.phase() == RunPhase::Downloading,
        before.steps_to(RunEvent::DownloadFinished(Ok(())), after, action),
        !lacks_ffmpeg(before.config(), before.on_windows()),
    ensures
        after.targets() == before.targets(),
        after.config() == before.config(),
        after.on_windows() == before.on_windows(),
        after.destination() == before.destination(),
        before.completed() + 1 < before.targets().len() ==> (after.completed() == before.completed()
            + 1 && (action matches RunAction::Download { url, destination, .. } && url@
            == before.targets()[before.completed() + 1int] && destination@ == before.destination())),
        before.completed() + 1 == before.targets().len() ==> (action matches RunAction::Finish(Ok(())))
            && after.phase() == RunPhase::Done,
{
    reveal(DownloadRun::steps_to);
}

proof fn lemma_resolved_step(before: DownloadRun, d: String, after: DownloadRun, action: RunAction)
    requires
        before.wf(),
        before.steps_to(RunEvent::DestinationResolved(Ok(d)), after, action),
        !lacks_ffmpeg(before.config(), before.on_windows()),
    ensures
        after.targets() == before.targets(),
        after.config() == before.config(),
        after.on_windows() == before.on_windows(),
        after.destination() == d@,
        0 < before.targets().len() ==> (after.completed() == 0 && (action matches RunAction::Download {
            url,
            destination,
            ..
        } && url@ == before.targets()[0] && destination@ == d@)),
        0 == before.targets().len() ==> (action matches RunAction::Finish(Ok(()))) && after.phase()
            == RunPhase::Done,
{
    reveal(DownloadRun::steps_to);
}

proof fn lemma_chain_prefix(runs: Seq<DownloadRun>, actions: Seq<RunAction>, dest: Seq<char>, n: int)
    requires
        successful_chain(runs, actions, dest),
        !lacks_ffmpeg(runs[0].config(), runs[0].on_windows()),
        1 <= n <= actions.len(),
    ensures
        runs[n].targets() == runs[0].targets(),
        runs[n].config() == runs[0].config(),
        runs[n].on_windows() == runs[0].on_windows(),
        runs[n].destination() == dest,
        n - 1 < runs[0].targets().len() ==> (runs[n].completed() == n - 1 && (actions[n
            - 1] matches RunAction::Download { url, destination, .. } && url@ == runs[0].targets()[n
            - 1] && destination@ == dest)),
        n - 1 == runs[0].targets().len() ==> (actions[n - 1] matches RunAction::Finish(Ok(())))
            && runs[n].phase() == RunPhase::Done,
        n - 1 <= runs[0].targets().len(),
    decreases n,
{
    if n > 1 {
        lemma_chain_prefix(runs, actions, dest, n - 1);
        assert(accepts(runs[n - 1].phase(), RunEvent::DownloadFinished(Ok(()))));
        lemma_success_step(runs[n - 1], runs[n], actions[n - 1]);
    } else {
        let d = choose|d: String| d@ == dest && runs[0].steps_to(RunEvent::DestinationResolved(Ok(d)), runs[1], actions[0]);
        lemma_resolved_step(runs[0], d, runs[1], actions[0]);
    }
}

/// Reporting success after each action, a batch downloads its targets one
/// after another, in order, into the resolved folder, and then ends well.
pub proof fn law_successful_batch(runs: Seq<DownloadRun>, actions: Seq<RunAction>, dest: Seq<char>)
    requires
        successful_chain(runs, actions, dest),
        !lacks_ffmpeg(runs[0].config(), runs[0].on_windows()),
    ensures
        actions.len() <= runs[0].targets().len() + 1,
        forall|i: int|
            0 <= i < actions.len() && i < runs[0].targets().len() ==> (#[trigger] actions[i] matches RunAction::Download {
                url,
                destination,
                ..
            } && url@ == runs[0].targets()[i] && destination@ == dest),
        actions.len() == runs[0].targets().len() + 1 ==> actions[actions.len() - 1] matches RunAction::Finish(
            Ok(()),
        ),
{
    lemma_chain_prefix(runs, actions, dest, actions.len() as int);
    assert forall|i: int|
        0 <= i < actions.len() && i < runs[0].targets().len() implies (#[trigger] actions[i] matches RunAction::Download {
        url,
        destination,
        ..
    } && url@ == runs[0].targets()[i] && destination@ == dest) by {
        lemma_chain_prefix(runs, actions, dest, i + 1);
    }
}

} // verus!
