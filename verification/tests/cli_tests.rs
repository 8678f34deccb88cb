use ket::cli::{
    custom_output, is_web_url_str, route, session_step, Report, Route, SessionAction, SessionEvent,
    SessionState,
};

#[test]
fn routes_follow_the_target() {
    assert_eq!(route("https://example.com/file.zip", false, false), Route::File);
    assert_eq!(route("https://example.com/video.mp4", true, false), Route::Media);
    assert_eq!(route("https://example.com/video.mp4", false, true), Route::Media);
    assert_eq!(route("https://www.youtube.com/watch?v=1", false, false), Route::Media);
    assert_eq!(route("http://youtu.be/1", false, false), Route::Media);
    assert_eq!(route("python", false, false), Route::Install);
    assert_eq!(route("ftp://example.com/x", false, true), Route::Install);
    assert!(is_web_url_str("http://a"));
    assert!(!is_web_url_str("HTTP://a"));
}

#[test]
fn custom_output_is_trimmed() {
    assert_eq!(custom_output("  my.mp4 "), Some("my.mp4".to_string()));
    assert_eq!(custom_output("   "), None);
    assert_eq!(custom_output(""), None);
}

fn line(s: &str) -> SessionEvent {
    SessionEvent::Line(s.to_string())
}

#[test]
fn quit_words_end_the_session() {
    for w in ["q", "Q", " quit ", "EXIT", "Quit"] {
        let (next, action) = session_step(SessionState::AwaitingInput, line(w));
        assert_eq!(next, SessionState::Closed);
        assert_eq!(action, SessionAction::Goodbye);
    }
}

#[test]
fn empty_input_is_rejected() {
    let (next, action) = session_step(SessionState::AwaitingInput, line("   "));
    assert_eq!(next, SessionState::AwaitingInput);
    assert_eq!(action, SessionAction::WarnEmpty);
}

#[test]
fn media_url_asks_for_kind_then_name() {
    let (s, a) = session_step(SessionState::AwaitingInput, line(" https://youtu.be/x "));
    assert_eq!(a, SessionAction::PromptKind);
    assert_eq!(s, SessionState::AwaitingKind { url: "https://youtu.be/x".to_string() });
    let (s, a) = session_step(s, SessionEvent::Selected(1));
    assert_eq!(a, SessionAction::PromptName);
    let (s, a) = session_step(s, line(""));
    assert_eq!(s, SessionState::Running { is_url: true });
    assert_eq!(
        a,
        SessionAction::DownloadMedia { url: "https://youtu.be/x".to_string(), output: None, audio_only: true }
    );
    let (s, a) = session_step(s, SessionEvent::Finished(true));
    assert_eq!(s, SessionState::AwaitingAgain);
    assert_eq!(a, SessionAction::AskAgain { report: Report::Success });
    let (s, a) = session_step(s, SessionEvent::Again(true));
    assert_eq!(s, SessionState::AwaitingInput);
    assert_eq!(a, SessionAction::PromptInput);
}

#[test]
fn video_choice_keeps_video() {
    let s = SessionState::AwaitingKind { url: "https://vimeo.com/1".to_string() };
    let (s, _) = session_step(s, SessionEvent::Selected(0));
    let (_, a) = session_step(s, line(" clip.mp4"));
    assert_eq!(
        a,
        SessionAction::DownloadMedia {
            url: "https://vimeo.com/1".to_string(),
            output: Some("clip.mp4".to_string()),
            audio_only: false
        }
    );
}

#[test]
fn plain_url_downloads_a_file() {
    let (s, a) = session_step(SessionState::AwaitingInput, line("https://e.com/a.zip"));
    assert_eq!(a, SessionAction::PromptName);
    let (s, a) = session_step(s, line("b.zip"));
    assert_eq!(
        a,
        SessionAction::DownloadFile { url: "https://e.com/a.zip".to_string(), output: Some("b.zip".to_string()) }
    );
    let (_, a) = session_step(s, SessionEvent::Finished(false));
    assert_eq!(a, SessionAction::AskAgain { report: Report::Failure });
}

#[test]
fn other_input_installs() {
    let (s, a) = session_step(SessionState::AwaitingInput, line(" python "));
    assert_eq!(a, SessionAction::Install { name: "python".to_string() });
    let (s, a) = session_step(s, SessionEvent::Finished(true));
    assert_eq!(a, SessionAction::AskAgain { report: Report::Nothing });
    let (s, a) = session_step(s, SessionEvent::Again(false));
    assert_eq!(s, SessionState::Closed);
    assert_eq!(a, SessionAction::Goodbye);
}

#[test]
fn unexpected_events_change_nothing() {
    let (s, a) = session_step(SessionState::AwaitingInput, SessionEvent::Again(true));
    assert_eq!(s, SessionState::AwaitingInput);
    assert_eq!(a, SessionAction::Unexpected);
}
