//! The installation as a state machine.
//!
//! The library decides; the host acts. Each state waits for the outcome of
//! one action, which the host performs and hands back as an event. A step
//! takes the state and the event to the next state, and names the stages to
//! report before the next action begins.

use vstd::prelude::*;
use crate::error::{ErrorKind, ErrorKindView, InstallError, InstallErrorView, failure};
use crate::platform::{PlatformTarget, get_codex_platform, platform_for, unsupported_platform};
use crate::release::{
    GitHubRelease, HttpReply, fetch_latest_codex_version, is_success, latest_version, no_answer,
    refusal, refused, status_is_success,
};
use crate::status::{RunOutcome, text_of};
use crate::text::{join, decimal, decimal_text};
use vstd::string::{StrSliceExecFns, StringExecFns};

verus! {

/// The stages of an installation, in the order in which they are reported.
#[derive(Clone, Copy, Debug, PartialEq, Eq, Structural)]
pub enum InstallStage {
    Starting,
    Downloading,
    Extracting,
    Installing,
    Verifying,
    Complete,
}

impl InstallStage {
    /// How far the installation is when this stage begins, in percent.
    pub open spec fn percent_of(self) -> u8 {
        match self {
            InstallStage::Starting => 0,
            InstallStage::Downloading => 20,
            InstallStage::Extracting => 40,
            InstallStage::Installing => 60,
            InstallStage::Verifying => 80,
            InstallStage::Complete => 100,
        }
    }

    /// The name under which this stage is reported.
    pub open spec fn name_of(self) -> Seq<char> {
        match self {
            InstallStage::Starting => "starting"@,
            InstallStage::Downloading => "downloading"@,
            InstallStage::Extracting => "extracting"@,
            InstallStage::Installing => "installing"@,
            InstallStage::Verifying => "verifying"@,
            InstallStage::Complete => "complete"@,
        }
    }

    /// The sentence shown while this stage runs.
    pub open spec fn message_of(self) -> Seq<char> {
        match self {
            InstallStage::Starting => "Preparing installation..."@,
            InstallStage::Downloading => "Downloading Codex CLI..."@,
            InstallStage::Extracting => "Extracting archive..."@,
            InstallStage::Installing => "Installing Codex CLI..."@,
            InstallStage::Verifying => "Verifying installation..."@,
            InstallStage::Complete => "Installation complete!"@,
        }
    }

    /// How far the installation is when this stage begins, in percent.
    pub fn percent(&self) -> (p: u8)
        ensures
            p == self.percent_of(),
    {
        match self {
            InstallStage::Starting => 0,
            InstallStage::Downloading => 20,
            InstallStage::Extracting => 40,
            InstallStage::Installing => 60,
            InstallStage::Verifying => 80,
            InstallStage::Complete => 100,
        }
    }

    /// The name under which this stage is reported.
    pub fn name(&self) -> (s: &'static str)
        ensures
            s@ == self.name_of(),
    {
        match self {
            InstallStage::Starting => "starting",
            InstallStage::Downloading => "downloading",
            InstallStage::Extracting => "extracting",
            InstallStage::Installing => "installing",
            InstallStage::Verifying => "verifying",
            InstallStage::Complete => "complete",
        }
    }

    /// The sentence shown while this stage runs.
    pub fn message(&self) -> (s: &'static str)
        ensures
            s@ == self.message_of(),
    {
        match self {
            InstallStage::Starting => "Preparing installation...",
            InstallStage::Downloading => "Downloading Codex CLI...",
            InstallStage::Extracting => "Extracting archive...",
            InstallStage::Installing => "Installing Codex CLI...",
            InstallStage::Verifying => "Verifying installation...",
            InstallStage::Complete => "Installation complete!",
        }
    }
}

/// What the progress sink receives when a stage begins.
#[derive(Clone, Debug, PartialEq, Eq)]
pub struct CodexInstallProgress {
    /// The stage's name.
    pub stage: String,
    /// A sentence for the user.
    pub message: String,
    /// Between 0 and 100.
    pub percent: u8,
}

/// A [`CodexInstallProgress`] as contracts see it.
pub struct ProgressView {
    pub stage: Seq<char>,
    pub message: Seq<char>,
    pub percent: u8,
}

impl View for CodexInstallProgress {
    type V = ProgressView;

    open spec fn view(&self) -> ProgressView {
        ProgressView { stage: self.stage@, message: self.message@, percent: self.percent }
    }
}

/// The report of a stage.
pub open spec fn progress_of(stage: InstallStage) -> ProgressView {
    ProgressView {
        stage: stage.name_of(),
        message: stage.message_of(),
        percent: stage.percent_of(),
    }
}

/// The report to hand to the progress sink when `stage` begins.
pub fn progress_for(stage: InstallStage) -> (progress: CodexInstallProgress)
    ensures
        progress@ == progress_of(stage),
{
    CodexInstallProgress {
        stage: stage.name().to_owned(),
        message: stage.message().to_owned(),
        percent: stage.percent(),
    }
}

/// How an action on the file system ended.
#[derive(Clone, Debug, PartialEq, Eq)]
pub enum IoOutcome {
    Done,
    Failed { reason: String },
}

/// What the host hands back after an action.
#[derive(Debug, PartialEq, Eq)]
pub enum InstallEvent {
    /// How many sessions are running the installed binary, and what the
    /// host calls the product whose sessions they are.
    Sessions { count: usize, product: String },
    /// How an action on the file system ended.
    Io(IoOutcome),
    /// The catalog's answer to the request for the latest release.
    Latest(HttpReply<GitHubRelease>),
    /// The answer to the download; its body is the number of bytes received.
    Downloaded(HttpReply<usize>),
    /// Where the extracted binary lies within the scratch directory, or why
    /// there is none.
    Extracted(Result<String, InstallError>),
    /// How the version query to the installed binary ended.
    Ran(RunOutcome),
}

/// What the host is to do next.
#[derive(Clone, Copy, Debug, PartialEq, Eq, Structural)]
pub enum InstallAction {
    /// Ask the session registry how many sessions are running.
    CountSessions,
    /// Create the install directory unless it exists.
    EnsureInstallDir,
    /// Ask the catalog for the latest release.
    FetchLatest,
    /// Fetch the archive from the address the state holds.
    Download,
    /// Create the scratch directory inside the install directory.
    CreateScratch,
    /// Unpack the archive into the scratch directory and locate the binary.
    Extract,
    /// Copy the binary the state names over the installed one.
    CopyBinary,
    /// Remove the scratch directory; failure is of no consequence.
    RemoveScratch,
    /// Make the installed binary executable for everyone.
    MakeExecutable,
    /// Run the installed binary with the version query.
    RunVersionQuery,
    /// Remove the quarantine mark; failure is of no consequence.
    ClearQuarantine,
    /// Nothing: the installation has ended.
    Stop,
}

/// Where an installation stands. Each state but the last two waits for the
/// outcome of one action.
#[derive(Debug, PartialEq, Eq)]
pub enum InstallState {
    CheckingSessions { requested: Option<String>, host: Option<PlatformTarget> },
    PreparingDirectory { requested: Option<String>, host: Option<PlatformTarget> },
    ResolvingVersion { host: Option<PlatformTarget> },
    Downloading { url: String, target: PlatformTarget },
    PreparingScratch { target: PlatformTarget },
    Extracting { target: PlatformTarget },
    Placing { binary: String, target: PlatformTarget },
    Cleaning { target: PlatformTarget },
    FixingPermissions { target: PlatformTarget },
    Verifying { target: PlatformTarget },
    Unblocking,
    Done,
    Failed { error: InstallError },
}

/// An [`InstallState`] as contracts see it.
pub enum InstallStateView {
    CheckingSessions { requested: Option<Seq<char>>, host: Option<PlatformTarget> },
    PreparingDirectory { requested: Option<Seq<char>>, host: Option<PlatformTarget> },
    ResolvingVersion { host: Option<PlatformTarget> },
    Downloading { url: Seq<char>, target: PlatformTarget },
    PreparingScratch { target: PlatformTarget },
    Extracting { target: PlatformTarget },
    Placing { binary: Seq<char>, target: PlatformTarget },
    Cleaning { target: PlatformTarget },
    FixingPermissions { target: PlatformTarget },
    Verifying { target: PlatformTarget },
    Unblocking,
    Done,
    Failed { error: InstallErrorView },
}

impl View for InstallState {
    type V = InstallStateView;

    open spec fn view(&self) -> InstallStateView {
        match *self {
            InstallState::CheckingSessions { requested, host } => InstallStateView::CheckingSessions {
                requested: text_of(requested),
                host,
            },
            InstallState::PreparingDirectory {
                requested,
                host,
            } => InstallStateView::PreparingDirectory { requested: text_of(requested), host },
            InstallState::ResolvingVersion { host } => InstallStateView::ResolvingVersion { host },
            InstallState::Downloading { url, target } => InstallStateView::Downloading {
                url: url@,
                target,
            },
            InstallState::PreparingScratch { target } => InstallStateView::PreparingScratch {
                target,
            },
            InstallState::Extracting { target } => InstallStateView::Extracting { target },
            InstallState::Placing { binary, target } => InstallStateView::Placing {
                binary: binary@,
                target,
            },
            InstallState::Cleaning { target } => InstallStateView::Cleaning { target },
            InstallState::FixingPermissions { target } => InstallStateView::FixingPermissions {
                target,
            },
            InstallState::Verifying { target } => InstallStateView::Verifying { target },
            InstallState::Unblocking => InstallStateView::Unblocking,
            InstallState::Done => InstallStateView::Done,
            InstallState::Failed { error } => InstallStateView::Failed { error: error@ },
        }
    }
}

/// The name of the archive that holds the binary for `target`.
pub open spec fn archive_name(target: PlatformTarget) -> Seq<char> {
    "codex-"@ + target.triple() + "."@ + target.format().extension_text()
}

/// The address of the archive for `target` in the release of `version`.
pub open spec fn download_address(version: Seq<char>, target: PlatformTarget) -> Seq<char> {
    "https://github.com/openai/codex/releases/download/v"@ + version + "/"@ + archive_name(target)
}

/// The sentence that refuses an installation while sessions are running;
/// `product` is what the host calls the product whose sessions they are.
pub open spec fn busy_message(count: nat, product: Seq<char>) -> Seq<char> {
    "Cannot install Codex CLI while "@ + decimal_text(count) + " "@ + product + (if count == 1 {
        " session is"@
    } else {
        " sessions are"@
    }) + " running. Please stop all active sessions first."@
}

/// The failure that refuses an installation while `count` sessions run.
pub open spec fn busy(count: usize, product: Seq<char>) -> InstallErrorView {
    InstallErrorView {
        kind: ErrorKindView::Busy { count },
        message: busy_message(count as nat, product),
    }
}

/// What the binary's error output says, or that it said nothing.
pub open spec fn verification_detail(stderr: Seq<char>) -> Seq<char> {
    if stderr.len() > 0 {
        stderr
    } else {
        "Unknown error"@
    }
}

/// The state a step leads to, and the stages to report on the way.
pub struct StepView {
    pub state: InstallStateView,
    pub reports: Seq<InstallStage>,
}

/// The state in which an installation begins: nothing has been done, and
/// the session registry is to be asked first.
pub open spec fn start(requested: Option<Seq<char>>, host: Option<PlatformTarget>) -> InstallStateView {
    InstallStateView::CheckingSessions { requested, host }
}

/// The action whose outcome a state waits for.
pub open spec fn pending(state: InstallStateView) -> InstallAction {
    match state {
        InstallStateView::CheckingSessions { .. } => InstallAction::CountSessions,
        InstallStateView::PreparingDirectory { .. } => InstallAction::EnsureInstallDir,
        InstallStateView::ResolvingVersion { .. } => InstallAction::FetchLatest,
        InstallStateView::Downloading { .. } => InstallAction::Download,
        InstallStateView::PreparingScratch { .. } => InstallAction::CreateScratch,
        InstallStateView::Extracting { .. } => InstallAction::Extract,
        InstallStateView::Placing { .. } => InstallAction::CopyBinary,
        InstallStateView::Cleaning { .. } => InstallAction::RemoveScratch,
        InstallStateView::FixingPermissions { .. } => InstallAction::MakeExecutable,
        InstallStateView::Verifying { .. } => InstallAction::RunVersionQuery,
        InstallStateView::Unblocking => InstallAction::ClearQuarantine,
        InstallStateView::Done => InstallAction::Stop,
        InstallStateView::Failed { .. } => InstallAction::Stop,
    }
}

/// An installation that ends here with `error`, nothing more reported.
pub open spec fn fails(error: InstallErrorView) -> StepView {
    StepView { state: InstallStateView::Failed { error }, reports: Seq::empty() }
}

/// An installation that goes on to `state` without a report.
pub open spec fn proceeds(state: InstallStateView) -> StepView {
    StepView { state, reports: Seq::empty() }
}

/// What follows once the version is known: the host's platform decides the
/// archive, and the download is announced.
pub open spec fn with_version(
    version: Seq<char>,
    host: Option<PlatformTarget>,
    reports: Seq<InstallStage>,
) -> StepView {
    match host {
        None => StepView {
            state: InstallStateView::Failed { error: unsupported_platform() },
            reports,
        },
        Some(target) => StepView {
            state: InstallStateView::Downloading { url: download_address(version, target), target },
            reports: reports.push(InstallStage::Downloading),
        },
    }
}

/// What follows once the scratch directory is gone: verification is
/// announced, and begins with the file mode where there is one.
pub open spec fn after_cleaning(target: PlatformTarget) -> StepView {
    StepView {
        state: if target.windows() {
            InstallStateView::Verifying { target }
        } else {
            InstallStateView::FixingPermissions { target }
        },
        reports: seq![InstallStage::Verifying],
    }
}

/// The end of a successful installation.
pub open spec fn completes() -> StepView {
    StepView { state: InstallStateView::Done, reports: seq![InstallStage::Complete] }
}

/// One step of the installation. An event that does not answer the pending
/// action changes nothing.
pub open spec fn step(state: InstallStateView, event: InstallEvent) -> StepView {
    match (state, event) {
        (
            InstallStateView::CheckingSessions { requested, host },
            InstallEvent::Sessions { count, product },
        ) => if count > 0 {
            fails(busy(count, product@))
        } else {
            proceeds(InstallStateView::PreparingDirectory { requested, host })
        },
        (
            InstallStateView::PreparingDirectory { requested, host },
            InstallEvent::Io(outcome),
        ) => match outcome {
            IoOutcome::Failed { reason } => fails(
                failure(ErrorKindView::Io, "Failed to create Codex CLI directory: "@, reason@),
            ),
            IoOutcome::Done => match requested {
                Some(version) => with_version(version, host, seq![InstallStage::Starting]),
                None => StepView {
                    state: InstallStateView::ResolvingVersion { host },
                    reports: seq![InstallStage::Starting],
                },
            },
        },
        (InstallStateView::ResolvingVersion { host }, InstallEvent::Latest(reply)) => match latest_version(
            reply,
        ) {
            Err(error) => fails(error),
            Ok(version) => with_version(version, host, Seq::empty()),
        },
        (InstallStateView::Downloading { url, target }, InstallEvent::Downloaded(reply)) => match reply {
            HttpReply::Unreachable { reason } => fails(
                no_answer("Failed to download Codex CLI: "@, reason@),
            ),
            HttpReply::Answered { status, phrase, body } => if !is_success(status) {
                fails(refused("Failed to download Codex CLI: HTTP "@, status, phrase@))
            } else {
                match body {
                    Err(reason) => fails(
                        failure(ErrorKindView::Network, "Failed to read archive content: "@, reason@),
                    ),
                    Ok(_) => StepView {
                        state: InstallStateView::PreparingScratch { target },
                        reports: seq![InstallStage::Extracting],
                    },
                }
            },
        },
        (InstallStateView::PreparingScratch { target }, InstallEvent::Io(outcome)) => match outcome {
            IoOutcome::Failed { reason } => fails(
                failure(ErrorKindView::Io, "Failed to create temp directory: "@, reason@),
            ),
            IoOutcome::Done => proceeds(InstallStateView::Extracting { target }),
        },
        (InstallStateView::Extracting { target }, InstallEvent::Extracted(found)) => match found {
            Err(error) => fails(error@),
            Ok(binary) => StepView {
                state: InstallStateView::Placing { binary: binary@, target },
                reports: seq![InstallStage::Installing],
            },
        },
        (InstallStateView::Placing { binary, target }, InstallEvent::Io(outcome)) => match outcome {
            IoOutcome::Failed { reason } => fails(
                failure(ErrorKindView::Io, "Failed to copy binary: "@, reason@),
            ),
            IoOutcome::Done => proceeds(InstallStateView::Cleaning { target }),
        },
        (InstallStateView::Cleaning { target }, InstallEvent::Io(_)) => after_cleaning(target),
        (InstallStateView::FixingPermissions { target }, InstallEvent::Io(outcome)) => match outcome {
            IoOutcome::Failed { reason } => fails(
                failure(ErrorKindView::Permission, "Failed to set binary permissions: "@, reason@),
            ),
            IoOutcome::Done => proceeds(InstallStateView::Verifying { target }),
        },
        (InstallStateView::Verifying { target }, InstallEvent::Ran(run)) => match run {
            RunOutcome::NotStarted { reason } => fails(
                failure(
                    ErrorKindView::VerificationFailed { stderr: Seq::empty() },
                    "Failed to verify Codex CLI: "@,
                    reason@,
                ),
            ),
            RunOutcome::Exited { success, stdout, stderr } => if !success {
                fails(
                    failure(
                        ErrorKindView::VerificationFailed { stderr: stderr@ },
                        "Codex CLI binary verification failed: "@,
                        verification_detail(stderr@),
                    ),
                )
            } else if target.macos() {
                proceeds(InstallStateView::Unblocking)
            } else {
                completes()
            },
        },
        (InstallStateView::Unblocking, InstallEvent::Io(_)) => completes(),
        (unchanged, _) => proceeds(unchanged),
    }
}

/// All stages, in order.
pub open spec fn every_stage() -> Seq<InstallStage> {
    seq![
        InstallStage::Starting,
        InstallStage::Downloading,
        InstallStage::Extracting,
        InstallStage::Installing,
        InstallStage::Verifying,
        InstallStage::Complete,
    ]
}

/// How many stages have been reported by the time a state is reached.
/// (A failed state does not tell; for it this is zero.)
pub open spec fn stages_reported(state: InstallStateView) -> int {
    match state {
        InstallStateView::CheckingSessions { .. } => 0,
        InstallStateView::PreparingDirectory { .. } => 0,
        InstallStateView::ResolvingVersion { .. } => 1,
        InstallStateView::Downloading { .. } => 2,
        InstallStateView::PreparingScratch { .. } => 3,
        InstallStateView::Extracting { .. } => 3,
        InstallStateView::Placing { .. } => 4,
        InstallStateView::Cleaning { .. } => 4,
        InstallStateView::FixingPermissions { .. } => 5,
        InstallStateView::Verifying { .. } => 5,
        InstallStateView::Unblocking => 5,
        InstallStateView::Done => 6,
        InstallStateView::Failed { .. } => 0,
    }
}

/// Where a sequence of events leads from a state, and everything reported
/// on the way.
pub open spec fn run(state: InstallStateView, events: Seq<InstallEvent>) -> StepView
    decreases events.len(),
{
    if events.len() == 0 {
        proceeds(state)
    } else {
        let first = step(state, events[0]);
        let rest = run(first.state, events.skip(1));
        StepView { state: rest.state, reports: first.reports + rest.reports }
    }
}

/// The percentages of a sequence of stages.
pub open spec fn percents(stages: Seq<InstallStage>) -> Seq<u8> {
    stages.map_values(|stage: InstallStage| stage.percent_of())
}

proof fn lemma_step_reports(state: InstallStateView, event: InstallEvent)
    requires
        !(state is Failed),
    ensures
        ({
            let next = step(state, event);
            let before = every_stage().take(stages_reported(state));
            &&& !(next.state is Failed) ==> before + next.reports == every_stage().take(
                stages_reported(next.state),
            )
            &&& next.state is Failed ==> exists|n: int|
                stages_reported(state) <= n < 6 && before + next.reports
                    == #[trigger] every_stage().take(n)
        }),
{
    let next = step(state, event);
    let k = stages_reported(state);
    let before = every_stage().take(k);
    if next.state is Failed {
        if next.reports.len() == 0 {
            assert(before + next.reports =~= every_stage().take(k));
        } else {
            assert(next.reports =~= seq![InstallStage::Starting]);
            assert(before + next.reports =~= every_stage().take(1));
        }
    } else {
        assert(before + next.reports =~= every_stage().take(stages_reported(next.state)));
    }
}

proof fn lemma_ended_stays(state: InstallStateView, events: Seq<InstallEvent>)
    requires
        state is Failed || state is Done,
    ensures
        run(state, events) == proceeds(state),
    decreases events.len(),
{
    if events.len() > 0 {
        lemma_ended_stays(state, events.skip(1));
        assert(Seq::<InstallStage>::empty() + Seq::<InstallStage>::empty() =~= Seq::<
            InstallStage,
        >::empty());
    }
}

proof fn lemma_run_reports(state: InstallStateView, events: Seq<InstallEvent>)
    requires
        !(state is Failed),
    ensures
        ({
            let end = run(state, events);
            let before = every_stage().take(stages_reported(state));
            &&& !(end.state is Failed) ==> before + end.reports == every_stage().take(
                stages_reported(end.state),
            )
            &&& end.state is Failed ==> exists|n: int|
                stages_reported(state) <= n < 6 && before + end.reports
                    == #[trigger] every_stage().take(n)
        }),
    decreases events.len(),
{
    let before = every_stage().take(stages_reported(state));
    if events.len() == 0 {
        assert(before + Seq::<InstallStage>::empty() =~= before);
    } else {
        let first = step(state, events[0]);
        let rest = run(first.state, events.skip(1));
        let end = run(state, events);
        lemma_step_reports(state, events[0]);
        assert(before + end.reports =~= (before + first.reports) + rest.reports);
        if first.state is Failed {
            lemma_ended_stays(first.state, events.skip(1));
            assert((before + first.reports) + rest.reports =~= before + first.reports);
        } else {
            lemma_run_reports(first.state, events.skip(1));
            if end.state is Failed {
                let n = choose|n: int|
                    stages_reported(first.state) <= n < 6 && every_stage().take(
                        stages_reported(first.state),
                    ) + rest.reports == #[trigger] every_stage().take(n);
                assert(before + end.reports == every_stage().take(n));
            }
        }
    }
}

/// Whatever the host hands back, the stages reported since the beginning
/// are the first few of the six, each once and in order. All six have been
/// reported exactly when the installation has succeeded.
pub proof fn lemma_reports_follow_the_stages(
    requested: Option<Seq<char>>,
    host: Option<PlatformTarget>,
    events: Seq<InstallEvent>,
)
    ensures
        ({
            let end = run(start(requested, host), events);
            exists|n: int|
                0 <= n <= 6 && end.reports == #[trigger] every_stage().take(n) && (n == 6
                    <==> end.state is Done)
        }),
{
    let begin = start(requested, host);
    let end = run(begin, events);
    lemma_run_reports(begin, events);
    assert(every_stage().take(0) + end.reports =~= end.reports);
    if !(end.state is Failed) {
        assert(end.reports == every_stage().take(stages_reported(end.state)));
    }
}

/// However an installation goes, each report stands at a higher percentage
/// than the one before it, and 100 percent is reported exactly when the
/// installation has succeeded.
pub proof fn lemma_progress_only_rises(
    requested: Option<Seq<char>>,
    host: Option<PlatformTarget>,
    events: Seq<InstallEvent>,
)
    ensures
        ({
            let end = run(start(requested, host), events);
            &&& forall|i: int, j: int|
                0 <= i < j < end.reports.len() ==> (#[trigger] end.reports[i]).percent_of() < (
                #[trigger] end.reports[j]).percent_of()
            &&& (exists|i: int|
                0 <= i < end.reports.len() && (#[trigger] end.reports[i]).percent_of() == 100)
                <==> end.state is Done
        }),
{
    let end = run(start(requested, host), events);
    lemma_reports_follow_the_stages(requested, host, events);
    let n = choose|n: int|
        0 <= n <= 6 && end.reports == #[trigger] every_stage().take(n) && (n == 6
            <==> end.state is Done);
    if n == 6 {
        assert(end.reports[5].percent_of() == 100);
    }
}

/// An installation that succeeds has reported the six stages in order, at
/// 0, 20, 40, 60, 80 and 100 percent, and nothing else.
pub proof fn lemma_complete_install_reports_six_stages(
    requested: Option<Seq<char>>,
    host: Option<PlatformTarget>,
    events: Seq<InstallEvent>,
)
    requires
        run(start(requested, host), events).state is Done,
    ensures
        run(start(requested, host), events).reports == every_stage(),
        percents(run(start(requested, host), events).reports) == seq![0u8, 20, 40, 60, 80, 100],
{
    let begin = start(requested, host);
    let end = run(begin, events);
    lemma_run_reports(begin, events);
    assert(every_stage().take(0) + end.reports =~= end.reports);
    assert(every_stage().take(6) =~= every_stage());
    assert(percents(every_stage()) =~= seq![0u8, 20, 40, 60, 80, 100]);
}

/// While sessions run, the first step ends the installation with the busy
/// failure. No stage is reported, and from then on the only action ever
/// asked of the host is to stop: nothing is fetched and no file is touched.
pub proof fn lemma_busy_install_stops_at_once(
    requested: Option<Seq<char>>,
    host: Option<PlatformTarget>,
    count: usize,
    product: String,
    later: Seq<InstallEvent>,
)
    requires
        count > 0,
    ensures
        ({
            let first = step(start(requested, host), InstallEvent::Sessions { count, product });
            let end = run(first.state, later);
            &&& first.state == InstallStateView::Failed { error: busy(count, product@) }
            &&& first.reports.len() == 0
            &&& pending(first.state) == InstallAction::Stop
            &&& end.state == first.state
            &&& end.reports.len() == 0
        }),
{
    let first = step(start(requested, host), InstallEvent::Sessions { count, product });
    lemma_ended_stays(first.state, later);
}

/// A step: the state it leads to, the stages to report, in order, before
/// anything else is done, and then the action to perform.
#[derive(Debug, PartialEq, Eq)]
pub struct InstallStep {
    pub state: InstallState,
    pub reports: Vec<InstallStage>,
    pub action: InstallAction,
}

impl InstallStep {
    /// Whether this is the step that `expected` describes.
    pub open spec fn is_step(self, expected: StepView) -> bool {
        &&& self.state@ == expected.state
        &&& self.reports@ == expected.reports
        &&& self.action == pending(expected.state)
    }
}

impl InstallState {
    /// The state in which an installation begins. `requested` is the version
    /// to install, if the caller chose one; `os` and `arch` name the host as
    /// the Rust toolchain does.
    pub fn begin(requested: Option<String>, os: &str, arch: &str) -> (state: InstallState)
        ensures
            state@ == start(text_of(requested), platform_for(os@, arch@)),
    {
        let host = match get_codex_platform(os, arch) {
            Ok(target) => Some(target),
            Err(_) => None,
        };
        InstallState::CheckingSessions { requested, host }
    }

    /// The action whose outcome this state waits for.
    pub fn pending_action(&self) -> (action: InstallAction)
        ensures
            action == pending(self@),
    {
        match self {
            InstallState::CheckingSessions { .. } => InstallAction::CountSessions,
            InstallState::PreparingDirectory { .. } => InstallAction::EnsureInstallDir,
            InstallState::ResolvingVersion { .. } => InstallAction::FetchLatest,
            InstallState::Downloading { .. } => InstallAction::Download,
            InstallState::PreparingScratch { .. } => InstallAction::CreateScratch,
            InstallState::Extracting { .. } => InstallAction::Extract,
            InstallState::Placing { .. } => InstallAction::CopyBinary,
            InstallState::Cleaning { .. } => InstallAction::RemoveScratch,
            InstallState::FixingPermissions { .. } => InstallAction::MakeExecutable,
            InstallState::Verifying { .. } => InstallAction::RunVersionQuery,
            InstallState::Unblocking => InstallAction::ClearQuarantine,
            InstallState::Done => InstallAction::Stop,
            InstallState::Failed { .. } => InstallAction::Stop,
        }
    }

    /// How the installation ended, once it has.
    pub fn outcome(&self) -> (result: Option<Result<(), InstallError>>)
        ensures
            match self@ {
                InstallStateView::Done => result == Some(Ok::<(), InstallError>(())),
                InstallStateView::Failed { error } => result matches Some(Err(e)) && e@ == error,
                _ => result is None,
            },
    {
        match self {
            InstallState::Done => Some(Ok(())),
            InstallState::Failed { error } => Some(Err(error.copy())),
            _ => None,
        }
    }
}

/// The address of the archive for `target` in the release of `version`.
pub fn download_url(version: &str, target: PlatformTarget) -> (url: String)
    ensures
        url@ == download_address(version@, target),
{
    let mut name = join("codex-", target.asset_triple());
    name.append(".");
    name.append(target.container_format().extension());
    assert(name@ =~= archive_name(target));
    let mut url = join("https://github.com/openai/codex/releases/download/v", version);
    url.append("/");
    url.append(name.as_str());
    assert(url@ =~= download_address(version@, target));
    url
}

fn busy_error(count: usize, product: &str) -> (error: InstallError)
    ensures
        error@ == busy(count, product@),
{
    let number = decimal(count as u64);
    let mut message = join("Cannot install Codex CLI while ", number.as_str());
    message.append(" ");
    message.append(product);
    if count == 1 {
        message.append(" session is");
    } else {
        message.append(" sessions are");
    }
    message.append(" running. Please stop all active sessions first.");
    assert(message@ =~= busy_message(count as nat, product@));
    InstallError { kind: ErrorKind::Busy { count }, message }
}

fn stop_with(error: InstallError) -> (out: InstallStep)
    ensures
        out.is_step(fails(error@)),
{
    InstallStep {
        state: InstallState::Failed { error },
        reports: Vec::new(),
        action: InstallAction::Stop,
    }
}

fn go_on(state: InstallState) -> (out: InstallStep)
    ensures
        out.is_step(proceeds(state@)),
{
    let action = state.pending_action();
    InstallStep { state, reports: Vec::new(), action }
}

fn announce(state: InstallState, stage: InstallStage) -> (out: InstallStep)
    ensures
        out.is_step(StepView { state: state@, reports: seq![stage] }),
{
    let action = state.pending_action();
    let mut reports: Vec<InstallStage> = Vec::new();
    reports.push(stage);
    assert(reports@ =~= seq![stage]);
    InstallStep { state, reports, action }
}

fn go_on_with_version(
    version: &str,
    host: Option<PlatformTarget>,
    reports: Vec<InstallStage>,
) -> (out: InstallStep)
    ensures
        out.is_step(with_version(version@, host, reports@)),
{
    let mut reports = reports;
    match host {
        None => InstallStep {
            state: InstallState::Failed {
                error: InstallError::fixed(ErrorKind::UnsupportedPlatform, "Unsupported platform"),
            },
            reports,
            action: InstallAction::Stop,
        },
        Some(target) => {
            reports.push(InstallStage::Downloading);
            InstallStep {
                state: InstallState::Downloading { url: download_url(version, target), target },
                reports,
                action: InstallAction::Download,
            }
        },
    }
}

/// Takes the installation one step further: from the state it is in and
/// the outcome of the action that state was waiting for, to the next state,
/// the stages to report, and the next action.
///
/// The order is fixed: the session registry, the install directory, the
/// version, the platform, the download, the scratch directory, the
/// extraction, the copy, the removal of the scratch directory, the file
/// mode where there is one, the version query, the quarantine mark on
/// macOS. Any failure but that of the two removals ends the installation.
/// An event that does not answer the pending action changes nothing.
pub fn install_codex_cli(state: InstallState, event: InstallEvent) -> (out: InstallStep)
    ensures
        out.is_step(step(state@, event)),
{
    match (state, event) {
        (
            InstallState::CheckingSessions { requested, host },
            InstallEvent::Sessions { count, product },
        ) => {
            if count > 0 {
                stop_with(busy_error(count, product.as_str()))
            } else {
                go_on(InstallState::PreparingDirectory { requested, host })
            }
        },
        (InstallState::PreparingDirectory { requested, host }, InstallEvent::Io(outcome)) => {
            match outcome {
                IoOutcome::Failed { reason } => stop_with(
                    InstallError::new(
                        ErrorKind::Io,
                        "Failed to create Codex CLI directory: ",
                        reason.as_str(),
                    ),
                ),
                IoOutcome::Done => match requested {
                    Some(version) => {
                        let mut reports: Vec<InstallStage> = Vec::new();
                        reports.push(InstallStage::Starting);
                        assert(reports@ =~= seq![InstallStage::Starting]);
                        go_on_with_version(version.as_str(), host, reports)
                    },
                    None => announce(
                        InstallState::ResolvingVersion { host },
                        InstallStage::Starting,
                    ),
                },
            }
        },
        (InstallState::ResolvingVersion { host }, InstallEvent::Latest(reply)) => {
            match fetch_latest_codex_version(&reply) {
                Err(error) => stop_with(error),
                Ok(version) => go_on_with_version(version.as_str(), host, Vec::new()),
            }
        },
        (InstallState::Downloading { url, target }, InstallEvent::Downloaded(reply)) => {
            match reply {
                HttpReply::Unreachable { reason } => stop_with(
                    InstallError::new(
                        ErrorKind::Network,
                        "Failed to download Codex CLI: ",
                        reason.as_str(),
                    ),
                ),
                HttpReply::Answered { status, phrase, body } => {
                    if !status_is_success(status) {
                        stop_with(
                            refusal("Failed to download Codex CLI: HTTP ", status, phrase.as_str()),
                        )
                    } else {
                        match body {
                            Err(reason) => stop_with(
                                InstallError::new(
                                    ErrorKind::Network,
                                    "Failed to read archive content: ",
                                    reason.as_str(),
                                ),
                            ),
                            Ok(_) => announce(
                                InstallState::PreparingScratch { target },
                                InstallStage::Extracting,
                            ),
                        }
                    }
                },
            }
        },
        (InstallState::PreparingScratch { target }, InstallEvent::Io(outcome)) => {
            match outcome {
                IoOutcome::Failed { reason } => stop_with(
                    InstallError::new(
                        ErrorKind::Io,
                        "Failed to create temp directory: ",
                        reason.as_str(),
                    ),
                ),
                IoOutcome::Done => go_on(InstallState::Extracting { target }),
            }
        },
        (InstallState::Extracting { target }, InstallEvent::Extracted(found)) => {
            match found {
                Err(error) => stop_with(error),
                Ok(binary) => announce(
                    InstallState::Placing { binary, target },
                    InstallStage::Installing,
                ),
            }
        },
        (InstallState::Placing { binary, target }, InstallEvent::Io(outcome)) => {
            match outcome {
                IoOutcome::Failed { reason } => stop_with(
                    InstallError::new(ErrorKind::Io, "Failed to copy binary: ", reason.as_str()),
                ),
                IoOutcome::Done => go_on(InstallState::Cleaning { target }),
            }
        },
        (InstallState::Cleaning { target }, InstallEvent::Io(_)) => {
            if target.is_posix() {
                announce(InstallState::FixingPermissions { target }, InstallStage::Verifying)
            } else {
                announce(InstallState::Verifying { target }, InstallStage::Verifying)
            }
        },
        (InstallState::FixingPermissions { target }, InstallEvent::Io(outcome)) => {
            match outcome {
                IoOutcome::Failed { reason } => stop_with(
                    InstallError::new(
                        ErrorKind::Permission,
                        "Failed to set binary permissions: ",
                        reason.as_str(),
                    ),
                ),
                IoOutcome::Done => go_on(InstallState::Verifying { target }),
            }
        },
        (InstallState::Verifying { target }, InstallEvent::Ran(run)) => {
            match run {
                RunOutcome::NotStarted { reason } => stop_with(
                    InstallError::new(
                        ErrorKind::VerificationFailed { stderr: String::new() },
                        "Failed to verify Codex CLI: ",
                        reason.as_str(),
                    ),
                ),
                RunOutcome::Exited { success, stdout, stderr } => {
                    if !success {
                        let detail = if stderr.as_str().unicode_len() > 0 {
                            stderr.clone()
                        } else {
                            "Unknown error".to_owned()
                        };
                        stop_with(
                            InstallError::new(
                                ErrorKind::VerificationFailed { stderr },
                                "Codex CLI binary verification failed: ",
                                detail.as_str(),
                            ),
                        )
                    } else if target.is_macos() {
                        go_on(InstallState::Unblocking)
                    } else {
                        announce(InstallState::Done, InstallStage::Complete)
                    }
                },
            }
        },
        (InstallState::Unblocking, InstallEvent::Io(_)) => announce(
            InstallState::Done,
            InstallStage::Complete,
        ),
        (unchanged, _) => go_on(unchanged),
    }
}

} // verus!
