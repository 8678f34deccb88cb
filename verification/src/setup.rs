//! Keeping a working yt-dlp binary in the application's data folder.
//!
//! The steps that touch the disk, the network or other processes are done by
//! the caller; this module decides, from each step's outcome, which step comes
//! next.
use vstd::prelude::*;

use crate::http::is_success_status;
use crate::paths::{joined_path, path_join};

verus! {

/// The yt-dlp binary's file name on the platform.
pub open spec fn binary_name_spec(for_windows: bool) -> Seq<char> {
    if for_windows {
        "yt-dlp.exe"@
    } else {
        "yt-dlp"@
    }
}

/// Where the platform's yt-dlp binary is published.
pub open spec fn download_url_spec(for_windows: bool) -> Seq<char> {
    if for_windows {
        "https://github.com/yt-dlp/yt-dlp/releases/latest/download/yt-dlp.exe"@
    } else {
        "https://github.com/yt-dlp/yt-dlp/releases/latest/download/yt-dlp"@
    }
}

/// The binary's file name and download URL for the platform.
pub fn ytdlp_asset(for_windows: bool) -> (r: (&'static str, &'static str))
    ensures
        r.0@ == binary_name_spec(for_windows),
        r.1@ == download_url_spec(for_windows),
{
    if for_windows {
        ("yt-dlp.exe", "https://github.com/yt-dlp/yt-dlp/releases/latest/download/yt-dlp.exe")
    } else {
        ("yt-dlp", "https://github.com/yt-dlp/yt-dlp/releases/latest/download/yt-dlp")
    }
}

/// Where the setup stands: each phase waits for the outcome of one step.
#[derive(Clone, Copy, Debug, PartialEq, Eq)]
pub enum SetupPhase {
    FindingDataDir,
    CreatingDir,
    CheckingExisting,
    TestingExisting,
    RemovingBroken,
    Requesting,
    CreatingFile,
    Writing,
    SettingPermissions,
    /// Running the fresh binary to check it; the number counts the tries.
    Verifying(u8),
    Finished,
}

/// Why the setup failed.
#[derive(Clone, Copy, Debug, PartialEq, Eq)]
pub enum SetupError {
    NoDataDir,
    CreateDir,
    ClientBuild,
    Connect,
    HttpStatus(u16),
    CreateFile,
    Write,
    Permissions,
    /// An outcome arrived that the current step does not produce.
    UnexpectedEvent,
}

/// The next step for the caller to take.
#[derive(Clone, Copy, Debug, PartialEq, Eq)]
pub enum SetupAction {
    /// Look up the application's data folder.
    FindDataDir,
    /// Create the data folder (with its parents).
    CreateDir,
    /// Does the binary's file exist?
    CheckExists,
    /// Run the binary with `--version`; did it succeed?
    RunVersion,
    /// Remove the broken binary (its outcome does not matter).
    RemoveBinary,
    /// Request the download URL.
    Fetch,
    /// Create the binary's file.
    CreateFile,
    /// Copy the response body into the file.
    CopyBody,
    /// Make the file executable (nothing to do off Unix: report success).
    MakeExecutable,
    /// Wait a second, then run the binary with `--version`.
    WaitThenRunVersion,
    /// Done: the binary is in place.
    Ready,
    /// Done: the setup failed.
    Fail(SetupError),
}

/// How a request for the binary went.
#[derive(Debug, PartialEq, Eq)]
pub enum FetchOutcome {
    ClientFailed,
    SendFailed,
    Status(u16),
}

/// The outcome of the step last asked for.
#[derive(Debug, PartialEq, Eq)]
pub enum SetupEvent {
    /// The data folder, if the platform has one.
    DataDir(Option<String>),
    /// Whether the step succeeded (or, for `CheckExists`, found the file).
    Outcome(bool),
    /// How the request went.
    Fetched(FetchOutcome),
}

/// How many times a fresh binary is run to check it.
pub open spec fn verify_tries() -> u8 {
    3
}

/// The outcome that locates the data folder.
pub open spec fn finds_data_dir(phase: SetupPhase, event: SetupEvent) -> bool {
    phase is FindingDataDir && (event matches SetupEvent::DataDir(Some(_)))
}

/// The next phase and step for an outcome.
pub open spec fn setup_next(phase: SetupPhase, event: SetupEvent) -> (SetupPhase, SetupAction) {
    match (phase, event) {
        (SetupPhase::FindingDataDir, SetupEvent::DataDir(None)) => (
            SetupPhase::Finished,
            SetupAction::Fail(SetupError::NoDataDir),
        ),
        (SetupPhase::FindingDataDir, SetupEvent::DataDir(Some(_))) => (
            SetupPhase::CreatingDir,
            SetupAction::CreateDir,
        ),
        (SetupPhase::CreatingDir, SetupEvent::Outcome(ok)) => if ok {
            (SetupPhase::CheckingExisting, SetupAction::CheckExists)
        } else {
            (SetupPhase::Finished, SetupAction::Fail(SetupError::CreateDir))
        },
        (SetupPhase::CheckingExisting, SetupEvent::Outcome(exists)) => if exists {
            (SetupPhase::TestingExisting, SetupAction::RunVersion)
        } else {
            (SetupPhase::Requesting, SetupAction::Fetch)
        },
        (SetupPhase::TestingExisting, SetupEvent::Outcome(ok)) => if ok {
            (SetupPhase::Finished, SetupAction::Ready)
        } else {
            (SetupPhase::RemovingBroken, SetupAction::RemoveBinary)
        },
        (SetupPhase::RemovingBroken, SetupEvent::Outcome(_)) => (
            SetupPhase::Requesting,
            SetupAction::Fetch,
        ),
        (SetupPhase::Requesting, SetupEvent::Fetched(outcome)) => match outcome {
            FetchOutcome::ClientFailed => (
                SetupPhase::Finished,
                SetupAction::Fail(SetupError::ClientBuild),
            ),
            FetchOutcome::SendFailed => (SetupPhase::Finished, SetupAction::Fail(SetupError::Connect)),
            FetchOutcome::Status(code) => if is_success_status(code) {
                (SetupPhase::CreatingFile, SetupAction::CreateFile)
            } else {
                (SetupPhase::Finished, SetupAction::Fail(SetupError::HttpStatus(code)))
            },
        },
        (SetupPhase::CreatingFile, SetupEvent::Outcome(ok)) => if ok {
            (SetupPhase::Writing, SetupAction::CopyBody)
        } else {
            (SetupPhase::Finished, SetupAction::Fail(SetupError::CreateFile))
        },
        (SetupPhase::Writing, SetupEvent::Outcome(ok)) => if ok {
            (SetupPhase::SettingPermissions, SetupAction::MakeExecutable)
        } else {
            (SetupPhase::Finished, SetupAction::Fail(SetupError::Write))
        },
        (SetupPhase::SettingPermissions, SetupEvent::Outcome(ok)) => if ok {
            (SetupPhase::Verifying(1), SetupAction::WaitThenRunVersion)
        } else {
            (SetupPhase::Finished, SetupAction::Fail(SetupError::Permissions))
        },
        (SetupPhase::Verifying(tries), SetupEvent::Outcome(ok)) => if ok || tries >= verify_tries() {
            (SetupPhase::Finished, SetupAction::Ready)
        } else {
            (SetupPhase::Verifying((tries + 1) as u8), SetupAction::WaitThenRunVersion)
        },
        _ => (SetupPhase::Finished, SetupAction::Fail(SetupError::UnexpectedEvent)),
    }
}

/// Decides, step by step, how ket obtains a working yt-dlp binary: reuse the
/// one in the data folder if it runs, otherwise download it, make it
/// executable and check it (up to three tries, a second apart).
pub struct YtdlpSetup {
    phase: SetupPhase,
    located: bool,
    binary_name: &'static str,
    download_url: &'static str,
    data_dir: String,
    binary_path: String,
}

impl YtdlpSetup {
    #[verifier::type_invariant]
    spec fn inv(self) -> bool {
        &&& (self.phase matches SetupPhase::Verifying(t) ==> 1 <= t <= verify_tries())
        &&& (self.phase is FindingDataDir ==> !self.located)
        &&& (!(self.phase is FindingDataDir) && !(self.phase is Finished) ==> self.located)
        &&& (self.located ==> self.binary_path@ == joined_path(self.data_dir@, self.binary_name@))
    }

    /// The phase the setup is in.
    pub closed spec fn phase(self) -> SetupPhase {
        self.phase
    }

    /// Whether the data folder is known.
    pub closed spec fn located(self) -> bool {
        self.located
    }

    /// The data folder (meaningful once located).
    pub closed spec fn data_dir_view(self) -> Seq<char> {
        self.data_dir@
    }

    /// The binary's file name.
    pub closed spec fn binary_name_view(self) -> Seq<char> {
        self.binary_name@
    }

    /// The download URL.
    pub closed spec fn download_url_view(self) -> Seq<char> {
        self.download_url@
    }

    /// A setup for the platform, with its first step.
    pub fn new(for_windows: bool) -> (r: (YtdlpSetup, SetupAction))
        ensures
            r.0.phase() is FindingDataDir,
            !r.0.located(),
            r.0.binary_name_view() == binary_name_spec(for_windows),
            r.0.download_url_view() == download_url_spec(for_windows),
            r.1 is FindDataDir,
    {
        let (name, url) = ytdlp_asset(for_windows);
        let setup = YtdlpSetup {
            phase: SetupPhase::FindingDataDir,
            located: false,
            binary_name: name,
            download_url: url,
            data_dir: String::new(),
            binary_path: String::new(),
        };
        (setup, SetupAction::FindDataDir)
    }

    /// The phase the setup is in.
    pub fn current_phase(&self) -> (p: SetupPhase)
        ensures
            p == self.phase(),
    {
        self.phase
    }

    /// The data folder, once known.
    pub fn data_dir(&self) -> (r: Option<&str>)
        ensures
            r is Some == self.located(),
            r matches Some(d) ==> d@ == self.data_dir_view(),
    {
        if self.located {
            Some(self.data_dir.as_str())
        } else {
            None
        }
    }

    /// Where the binary lives: the binary's name inside the data folder, once
    /// that folder is known.
    pub fn binary_path(&self) -> (r: Option<&str>)
        ensures
            r is Some == self.located(),
            r matches Some(p) ==> p@ == joined_path(self.data_dir_view(), self.binary_name_view()),
    {
        proof {
            use_type_invariant(self);
        }
        if self.located {
            Some(self.binary_path.as_str())
        } else {
            None
        }
    }

    /// The URL the binary is downloaded from.
    pub fn download_url(&self) -> (r: &str)
        ensures
            r@ == self.download_url_view(),
    {
        self.download_url
    }

    /// Takes the outcome of the step last asked for and gives the next step.
    pub fn step(&mut self, event: SetupEvent) -> (action: SetupAction)
        ensures
            (final(self).phase(), action) == setup_next(old(self).phase(), event),
            final(self).binary_name_view() == old(self).binary_name_view(),
            final(self).download_url_view() == old(self).download_url_view(),
            event matches SetupEvent::DataDir(Some(d)) ==> (old(self).phase() is FindingDataDir
                ==> final(self).located() && final(self).data_dir_view() == d@),
            !finds_data_dir(old(self).phase(), event) ==> final(self).data_dir_view() == old(
                self,
            ).data_dir_view() && final(self).located() == old(self).located(),
    {
        proof {
            use_type_invariant(&*self);
        }
        let name = self.binary_name;
        let url = self.download_url;
        let phase = self.phase;
        match (phase, event) {
            (SetupPhase::FindingDataDir, SetupEvent::DataDir(Some(dir))) => {
                let path = path_join(dir.as_str(), name);
                *self = YtdlpSetup {
                    phase: SetupPhase::CreatingDir,
                    located: true,
                    binary_name: name,
                    download_url: url,
                    data_dir: dir,
                    binary_path: path,
                };
                SetupAction::CreateDir
            },
            (phase, event) => {
                let (next, action) = Self::decide(phase, event);
                self.phase = next;
                action
            },
        }
    }

    /// `setup_next` for every case but a data folder being found.
    fn decide(phase: SetupPhase, event: SetupEvent) -> (r: (SetupPhase, SetupAction))
        requires
            !finds_data_dir(phase, event),
            phase matches SetupPhase::Verifying(t) ==> 1 <= t <= verify_tries(),
        ensures
            r == setup_next(phase, event),
            !(r.0 is FindingDataDir),
            phase is FindingDataDir ==> r.0 is Finished,
            r.0 matches SetupPhase::Verifying(t) ==> 1 <= t <= verify_tries(),
    {
        match (phase, event) {
            (SetupPhase::FindingDataDir, SetupEvent::DataDir(None)) => (
                SetupPhase::Finished,
                SetupAction::Fail(SetupError::NoDataDir),
            ),
            (SetupPhase::CreatingDir, SetupEvent::Outcome(ok)) => if ok {
                (SetupPhase::CheckingExisting, SetupAction::CheckExists)
            } else {
                (SetupPhase::Finished, SetupAction::Fail(SetupError::CreateDir))
            },
            (SetupPhase::CheckingExisting, SetupEvent::Outcome(exists)) => if exists {
                (SetupPhase::TestingExisting, SetupAction::RunVersion)
            } else {
                (SetupPhase::Requesting, SetupAction::Fetch)
            },
            (SetupPhase::TestingExisting, SetupEvent::Outcome(ok)) => if ok {
                (SetupPhase::Finished, SetupAction::Ready)
            } else {
                (SetupPhase::RemovingBroken, SetupAction::RemoveBinary)
            },
            (SetupPhase::RemovingBroken, SetupEvent::Outcome(_)) => (
                SetupPhase::Requesting,
                SetupAction::Fetch,
            ),
            (SetupPhase::Requesting, SetupEvent::Fetched(outcome)) => match outcome {
                FetchOutcome::ClientFailed => (
                    SetupPhase::Finished,
                    SetupAction::Fail(SetupError::ClientBuild),
                ),
                FetchOutcome::SendFailed => (
                    SetupPhase::Finished,
                    SetupAction::Fail(SetupError::Connect),
                ),
                FetchOutcome::Status(code) => if crate::http::status_is_success(code) {
                    (SetupPhase::CreatingFile, SetupAction::CreateFile)
                } else {
                    (SetupPhase::Finished, SetupAction::Fail(SetupError::HttpStatus(code)))
                },
            },
            (SetupPhase::CreatingFile, SetupEvent::Outcome(ok)) => if ok {
                (SetupPhase::Writing, SetupAction::CopyBody)
            } else {
                (SetupPhase::Finished, SetupAction::Fail(SetupError::CreateFile))
            },
            (SetupPhase::Writing, SetupEvent::Outcome(ok)) => if ok {
                (SetupPhase::SettingPermissions, SetupAction::MakeExecutable)
            } else {
                (SetupPhase::Finished, SetupAction::Fail(SetupError::Write))
            },
            (SetupPhase::SettingPermissions, SetupEvent::Outcome(ok)) => if ok {
                (SetupPhase::Verifying(1), SetupAction::WaitThenRunVersion)
            } else {
                (SetupPhase::Finished, SetupAction::Fail(SetupError::Permissions))
            },
            (SetupPhase::Verifying(tries), SetupEvent::Outcome(ok)) => if ok || tries >= 3 {
                (SetupPhase::Finished, SetupAction::Ready)
            } else {
                (SetupPhase::Verifying(tries + 1), SetupAction::WaitThenRunVersion)
            },
            _ => (SetupPhase::Finished, SetupAction::Fail(SetupError::UnexpectedEvent)),
        }
    }
}

/// A fresh binary is run at most three times to check it: from any try, the
/// next phase is either the following try (never past the third) or the end.
pub proof fn law_verification_tries_bounded(tries: u8, event: SetupEvent)
    requires
        1 <= tries <= verify_tries(),
    ensures
        setup_next(SetupPhase::Verifying(tries), event).0 matches SetupPhase::Verifying(next) ==> next
            == tries + 1 && next <= verify_tries(),
        tries == verify_tries() ==> !(setup_next(SetupPhase::Verifying(tries), event).0 is Verifying),
{
}

/// The binary is only downloaded when none is there or the one there does not
/// run (and has been removed).
pub proof fn law_download_only_when_needed(phase: SetupPhase, event: SetupEvent)
    ensures
        setup_next(phase, event).1 is Fetch ==> (phase is CheckingExisting && event
            == SetupEvent::Outcome(false)) || phase is RemovingBroken,
{
}

/// The setup reports the binary ready only after it ran successfully, or
/// after the checks of a freshly downloaded one.
pub proof fn law_ready_only_after_a_run(phase: SetupPhase, event: SetupEvent)
    ensures
        setup_next(phase, event).1 is Ready ==> (phase is TestingExisting && event
            == SetupEvent::Outcome(true)) || phase is Verifying,
{
}

/// A broken binary is replaced whatever removing it gave: from the removal
/// step, a success and a failure alike lead to requesting the download.
pub proof fn law_removal_outcome_is_ignored(removed: bool)
    ensures
        setup_next(SetupPhase::RemovingBroken, SetupEvent::Outcome(removed)).0 is Requesting,
        setup_next(SetupPhase::RemovingBroken, SetupEvent::Outcome(removed)).1 is Fetch,
        setup_next(SetupPhase::RemovingBroken, SetupEvent::Outcome(true)) == setup_next(
            SetupPhase::RemovingBroken,
            SetupEvent::Outcome(false),
        ),
{
}

/// An existing binary that fails its run is removed and then downloaded
/// again, never given up on: the run's failure asks for removal, and the
/// removal's outcome, whichever it is, asks for the download.
pub proof fn law_broken_binary_is_downloaded_again(removed: bool)
    ensures
        setup_next(SetupPhase::TestingExisting, SetupEvent::Outcome(false)).1 is RemoveBinary,
        setup_next(
            setup_next(SetupPhase::TestingExisting, SetupEvent::Outcome(false)).0,
            SetupEvent::Outcome(removed),
        ).1 is Fetch,
{
}

/// How each step's outcome is answered: a missing folder or any failed step
/// ends the setup with the error of that step; a missing binary is fetched,
/// an existing one is run first and kept when it runs; a 2xx response is
/// saved, any other status fails with that very status; the fresh binary is
/// made executable and then checked, and a successful check, or the third
/// failed one, ends the setup as ready.
pub proof fn law_setup_answers(code: u16, tries: u8)
    requires
        1 <= tries <= 3,
    ensures
        setup_next(SetupPhase::FindingDataDir, SetupEvent::DataDir(None)) == (
        SetupPhase::Finished, SetupAction::Fail(SetupError::NoDataDir)),
        setup_next(SetupPhase::CreatingDir, SetupEvent::Outcome(true)).1 is CheckExists,
        setup_next(SetupPhase::CreatingDir, SetupEvent::Outcome(false)).1 == SetupAction::Fail(
            SetupError::CreateDir,
        ),
        setup_next(SetupPhase::CheckingExisting, SetupEvent::Outcome(false)).1 is Fetch,
        setup_next(SetupPhase::CheckingExisting, SetupEvent::Outcome(true)).1 is RunVersion,
        setup_next(SetupPhase::TestingExisting, SetupEvent::Outcome(true)) == (
        SetupPhase::Finished, SetupAction::Ready),
        200 <= code < 300 ==> setup_next(
            SetupPhase::Requesting,
            SetupEvent::Fetched(FetchOutcome::Status(code)),
        ).1 is CreateFile,
        !(200 <= code < 300) ==> setup_next(
            SetupPhase::Requesting,
            SetupEvent::Fetched(FetchOutcome::Status(code)),
        ).1 == SetupAction::Fail(SetupError::HttpStatus(code)),
        setup_next(SetupPhase::Requesting, SetupEvent::Fetched(FetchOutcome::ClientFailed)).1
            == SetupAction::Fail(SetupError::ClientBuild),
        setup_next(SetupPhase::Requesting, SetupEvent::Fetched(FetchOutcome::SendFailed)).1
            == SetupAction::Fail(SetupError::Connect),
        setup_next(SetupPhase::CreatingFile, SetupEvent::Outcome(true)).1 is CopyBody,
        setup_next(SetupPhase::CreatingFile, SetupEvent::Outcome(false)).1 == SetupAction::Fail(
            SetupError::CreateFile,
        ),
        setup_next(SetupPhase::Writing, SetupEvent::Outcome(true)).1 is MakeExecutable,
        setup_next(SetupPhase::Writing, SetupEvent::Outcome(false)).1 == SetupAction::Fail(
            SetupError::Write,
        ),
        setup_next(SetupPhase::SettingPermissions, SetupEvent::Outcome(true)) == (
        SetupPhase::Verifying(1), SetupAction::WaitThenRunVersion),
        setup_next(SetupPhase::SettingPermissions, SetupEvent::Outcome(false)).1
            == SetupAction::Fail(SetupError::Permissions),
        setup_next(SetupPhase::Verifying(tries), SetupEvent::Outcome(true)) == (
        SetupPhase::Finished, SetupAction::Ready),
        tries < 3 ==> setup_next(SetupPhase::Verifying(tries), SetupEvent::Outcome(false)) == (
        SetupPhase::Verifying((tries + 1) as u8), SetupAction::WaitThenRunVersion),
        setup_next(SetupPhase::Verifying(3), SetupEvent::Outcome(false)) == (
        SetupPhase::Finished, SetupAction::Ready),
{
}

/// Once finished, the setup answers every outcome with a failure and stays
/// finished; no step after the end starts any work.
pub proof fn law_finished_stays_finished(event: SetupEvent)
    ensures
        setup_next(SetupPhase::Finished, event) == (
        SetupPhase::Finished, SetupAction::Fail(SetupError::UnexpectedEvent)),
{
}

} // verus!
