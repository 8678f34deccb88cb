use ket::setup::{ytdlp_asset, FetchOutcome, SetupAction, SetupError, SetupEvent, SetupPhase, YtdlpSetup};

fn located(windows: bool) -> YtdlpSetup {
    let (mut s, first) = YtdlpSetup::new(windows);
    assert_eq!(first, SetupAction::FindDataDir);
    assert_eq!(s.binary_path(), None);
    assert_eq!(s.step(SetupEvent::DataDir(Some("/data/ket".to_string()))), SetupAction::CreateDir);
    s
}

#[test]
fn assets_per_platform() {
    assert_eq!(ytdlp_asset(true).0, "yt-dlp.exe");
    assert!(ytdlp_asset(true).1.ends_with("/yt-dlp.exe"));
    assert_eq!(ytdlp_asset(false).0, "yt-dlp");
    assert!(ytdlp_asset(false).1.ends_with("/download/yt-dlp"));
}

#[test]
fn working_binary_is_reused() {
    let mut s = located(false);
    let expect = std::path::Path::new("/data/ket").join("yt-dlp").to_string_lossy().into_owned();
    assert_eq!(s.binary_path(), Some(expect.as_str()));
    assert_eq!(s.data_dir(), Some("/data/ket"));
    assert_eq!(s.step(SetupEvent::Outcome(true)), SetupAction::CheckExists);
    assert_eq!(s.step(SetupEvent::Outcome(true)), SetupAction::RunVersion);
    assert_eq!(s.step(SetupEvent::Outcome(true)), SetupAction::Ready);
    assert_eq!(s.current_phase(), SetupPhase::Finished);
}

#[test]
fn broken_binary_is_replaced() {
    let mut s = located(true);
    s.step(SetupEvent::Outcome(true));
    assert_eq!(s.step(SetupEvent::Outcome(true)), SetupAction::RunVersion);
    assert_eq!(s.step(SetupEvent::Outcome(false)), SetupAction::RemoveBinary);
    assert_eq!(s.step(SetupEvent::Outcome(false)), SetupAction::Fetch);
    assert!(s.download_url().ends_with("yt-dlp.exe"));
    assert_eq!(s.step(SetupEvent::Fetched(FetchOutcome::Status(200))), SetupAction::CreateFile);
    assert_eq!(s.step(SetupEvent::Outcome(true)), SetupAction::CopyBody);
    assert_eq!(s.step(SetupEvent::Outcome(true)), SetupAction::MakeExecutable);
    assert_eq!(s.step(SetupEvent::Outcome(true)), SetupAction::WaitThenRunVersion);
    assert_eq!(s.step(SetupEvent::Outcome(true)), SetupAction::Ready);
}

#[test]
fn verification_tries_three_times_at_most() {
    let mut s = located(false);
    s.step(SetupEvent::Outcome(true));
    assert_eq!(s.step(SetupEvent::Outcome(false)), SetupAction::Fetch);
    s.step(SetupEvent::Fetched(FetchOutcome::Status(204)));
    s.step(SetupEvent::Outcome(true));
    s.step(SetupEvent::Outcome(true));
    assert_eq!(s.step(SetupEvent::Outcome(true)), SetupAction::WaitThenRunVersion);
    assert_eq!(s.current_phase(), SetupPhase::Verifying(1));
    assert_eq!(s.step(SetupEvent::Outcome(false)), SetupAction::WaitThenRunVersion);
    assert_eq!(s.step(SetupEvent::Outcome(false)), SetupAction::WaitThenRunVersion);
    assert_eq!(s.current_phase(), SetupPhase::Verifying(3));
    assert_eq!(s.step(SetupEvent::Outcome(false)), SetupAction::Ready);
}

#[test]
fn failures_are_reported() {
    let (mut s, _) = YtdlpSetup::new(false);
    assert_eq!(s.step(SetupEvent::DataDir(None)), SetupAction::Fail(SetupError::NoDataDir));

    let mut s = located(false);
    assert_eq!(s.step(SetupEvent::Outcome(false)), SetupAction::Fail(SetupError::CreateDir));

    let mut s = located(false);
    s.step(SetupEvent::Outcome(true));
    s.step(SetupEvent::Outcome(false));
    assert_eq!(
        s.step(SetupEvent::Fetched(FetchOutcome::Status(404))),
        SetupAction::Fail(SetupError::HttpStatus(404))
    );

    let mut s = located(false);
    s.step(SetupEvent::Outcome(true));
    s.step(SetupEvent::Outcome(false));
    assert_eq!(
        s.step(SetupEvent::Fetched(FetchOutcome::ClientFailed)),
        SetupAction::Fail(SetupError::ClientBuild)
    );

    let mut s = located(false);
    s.step(SetupEvent::Outcome(true));
    s.step(SetupEvent::Outcome(false));
    assert_eq!(
        s.step(SetupEvent::Fetched(FetchOutcome::SendFailed)),
        SetupAction::Fail(SetupError::Connect)
    );
    assert_eq!(s.step(SetupEvent::Outcome(true)), SetupAction::Fail(SetupError::UnexpectedEvent));

    let mut s = located(false);
    s.step(SetupEvent::Outcome(true));
    s.step(SetupEvent::Outcome(false));
    s.step(SetupEvent::Fetched(FetchOutcome::Status(200)));
    assert_eq!(s.step(SetupEvent::Outcome(false)), SetupAction::Fail(SetupError::CreateFile));

    let mut s = located(false);
    s.step(SetupEvent::Outcome(true));
    s.step(SetupEvent::Outcome(false));
    s.step(SetupEvent::Fetched(FetchOutcome::Status(200)));
    s.step(SetupEvent::Outcome(true));
    assert_eq!(s.step(SetupEvent::Outcome(false)), SetupAction::Fail(SetupError::Write));
    let mut s = located(false);
    s.step(SetupEvent::Outcome(true));
    s.step(SetupEvent::Outcome(false));
    s.step(SetupEvent::Fetched(FetchOutcome::Status(200)));
    s.step(SetupEvent::Outcome(true));
    s.step(SetupEvent::Outcome(true));
    assert_eq!(s.step(SetupEvent::Outcome(false)), SetupAction::Fail(SetupError::Permissions));
}
