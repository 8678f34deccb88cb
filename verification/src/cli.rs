//! What ket does with its command line and, in interactive mode, with each
//! answer the user types.
use vstd::prelude::*;

use crate::media::{is_media_url, is_media_url_spec};
use crate::text::{
    eq_ignore_ascii_case, eq_ignore_ascii_case_seq, has_prefix, starts_with, trim, trim_str,
};

verus! {

/// The text names a web resource (`http://` or `https://`).
pub open spec fn is_web_url(s: Seq<char>) -> bool {
    has_prefix(s, "http://"@) || has_prefix(s, "https://"@)
}

/// Does the text name a web resource?
pub fn is_web_url_str(s: &str) -> (b: bool)
    ensures
        b == is_web_url(s@),
{
    starts_with(s, "http://") || starts_with(s, "https://")
}

/// What the command line asks for.
#[derive(Debug, PartialEq, Eq)]
pub enum Route {
    /// Download through yt-dlp.
    Media,
    /// Download the URL's body as a file.
    File,
    /// Install a package from the registry.
    Install,
}

/// The route for a (trimmed) target: a URL goes to yt-dlp when audio is
/// wanted, yt-dlp is forced or the site is a media site, and is fetched as a
/// file otherwise; anything else is a package name.
pub open spec fn route_spec(target: Seq<char>, force_media: bool, audio_only: bool) -> Route {
    if is_web_url(target) {
        if audio_only || force_media || is_media_url_spec(target) {
            Route::Media
        } else {
            Route::File
        }
    } else {
        Route::Install
    }
}

/// Decides what to do with a command-line target.
pub fn route(target: &str, force_media: bool, audio_only: bool) -> (r: Route)
    ensures
        r == route_spec(target@, force_media, audio_only),
{
    if is_web_url_str(target) {
        if audio_only || force_media || is_media_url(target) {
            Route::Media
        } else {
            Route::File
        }
    } else {
        Route::Install
    }
}

/// The words that end an interactive session, in any letter case.
pub open spec fn is_quit_word(s: Seq<char>) -> bool {
    eq_ignore_ascii_case_seq(s, "q"@) || eq_ignore_ascii_case_seq(s, "quit"@)
        || eq_ignore_ascii_case_seq(s, "exit"@)
}

/// Where an interactive session stands.
#[derive(Debug, PartialEq, Eq)]
pub enum SessionState {
    /// Waiting for a URL or package name.
    AwaitingInput,
    /// Waiting for the choice between video and audio for a media URL.
    AwaitingKind { url: String },
    /// Waiting for an output name.
    AwaitingName { url: String, is_media: bool, audio_only: bool },
    /// Waiting for a download (`is_url`) or an install to end.
    Running { is_url: bool },
    /// Waiting for whether to go on.
    AwaitingAgain,
    /// The session has ended.
    Closed,
}

/// What the user (or a finished job) answered.
#[derive(Debug, PartialEq, Eq)]
pub enum SessionEvent {
    /// A typed line: a URL or package name, or an output name.
    Line(String),
    /// The index chosen in the video/audio menu.
    Selected(usize),
    /// Whether the job succeeded.
    Finished(bool),
    /// Whether to go on.
    Again(bool),
}

/// What to tell the user once a job has ended.
#[derive(Debug, PartialEq, Eq)]
pub enum Report {
    Success,
    Failure,
    Nothing,
}

/// The next thing for the caller to do.
#[derive(Debug, PartialEq, Eq)]
pub enum SessionAction {
    /// Ask for a URL or package name.
    PromptInput,
    /// Warn that the input was empty, then ask again.
    WarnEmpty,
    /// Say goodbye; the session is over.
    Goodbye,
    /// Ask: video or audio only (index 1 is audio).
    PromptKind,
    /// Ask for an output name (empty for automatic).
    PromptName,
    /// Download through yt-dlp.
    DownloadMedia { url: String, output: Option<String>, audio_only: bool },
    /// Download the URL's body as a file.
    DownloadFile { url: String, output: Option<String> },
    /// Install a package.
    Install { name: String },
    /// Report how the job went, then ask whether to go on.
    AskAgain { report: Report },
    /// The event does not answer what the session waits for.
    Unexpected,
}

/// The view of an optional string.
pub open spec fn opt_string_view(s: Option<String>) -> Option<Seq<char>> {
    match s {
        Some(x) => Some(x@),
        None => None,
    }
}

/// The output name an answer gives: none when it is blank.
pub open spec fn custom_output_spec(raw: Seq<char>) -> Option<Seq<char>> {
    if trim(raw).len() == 0 {
        None
    } else {
        Some(trim(raw))
    }
}

/// The output name an answer gives, trimmed; `None` when it is blank.
pub fn custom_output(raw: &str) -> (r: Option<String>)
    ensures
        opt_string_view(r) == custom_output_spec(raw@),
{
    let name = trim_str(raw);
    if name.as_str().is_empty() {
        None
    } else {
        Some(name)
    }
}

/// How the session goes on from `state` after `event`, as the caller sees it.
pub open spec fn session_step_spec(
    state: SessionState,
    event: SessionEvent,
    next: SessionState,
    action: SessionAction,
) -> bool {
    match (state, event) {
        (SessionState::AwaitingInput, SessionEvent::Line(raw)) => {
            let t = trim(raw@);
            if is_quit_word(t) {
                next is Closed && action is Goodbye
            } else if t.len() == 0 {
                next is AwaitingInput && action is WarnEmpty
            } else if is_web_url(t) {
                if is_media_url_spec(t) {
                    (next matches SessionState::AwaitingKind { url } && url@ == t) && action is PromptKind
                } else {
                    (next matches SessionState::AwaitingName { url, is_media, audio_only } && url@ == t
                        && !is_media && !audio_only) && action is PromptName
                }
            } else {
                (next matches SessionState::Running { is_url } && !is_url) && (action matches SessionAction::Install { name } && name@ == t)
            }
        },
        (SessionState::AwaitingKind { url }, SessionEvent::Selected(choice)) => (next matches SessionState::AwaitingName { url: u, is_media, audio_only }
            && u@ == url@ && is_media && audio_only == (choice == 1)) && action is PromptName,
        (SessionState::AwaitingName { url, is_media, audio_only }, SessionEvent::Line(raw)) => (next matches SessionState::Running { is_url } && is_url) && if audio_only || is_media {
            action matches SessionAction::DownloadMedia { url: u, output, audio_only: a } && u@ == url@
                && opt_string_view(output) == custom_output_spec(raw@) && a == audio_only
        } else {
            action matches SessionAction::DownloadFile { url: u, output } && u@ == url@
                && opt_string_view(output) == custom_output_spec(raw@)
        },
        (SessionState::Running { is_url }, SessionEvent::Finished(ok)) => next is AwaitingAgain && (
        action matches SessionAction::AskAgain { report } && if !ok {
            report is Failure
        } else if is_url {
            report is Success
        } else {
            report is Nothing
        }),
        (SessionState::AwaitingAgain, SessionEvent::Again(go_on)) => if go_on {
            next is AwaitingInput && action is PromptInput
        } else {
            next is Closed && action is Goodbye
        },
        (s, _) => next == s && action is Unexpected,
    }
}

/// Takes the user's (or a job's) answer and gives the session's next state and
/// the next thing to do.
pub fn session_step(state: SessionState, event: SessionEvent) -> (r: (SessionState, SessionAction))
    ensures
        session_step_spec(state, event, r.0, r.1),
{
    match (state, event) {
        (SessionState::AwaitingInput, SessionEvent::Line(raw)) => {
            let t = trim_str(raw.as_str());
            let text = t.as_str();
            if eq_ignore_ascii_case(text, "q") || eq_ignore_ascii_case(text, "quit")
                || eq_ignore_ascii_case(text, "exit") {
                (SessionState::Closed, SessionAction::Goodbye)
            } else if text.is_empty() {
                (SessionState::AwaitingInput, SessionAction::WarnEmpty)
            } else if is_web_url_str(text) {
                if is_media_url(text) {
                    (SessionState::AwaitingKind { url: t }, SessionAction::PromptKind)
                } else {
                    (
                        SessionState::AwaitingName { url: t, is_media: false, audio_only: false },
                        SessionAction::PromptName,
                    )
                }
            } else {
                (SessionState::Running { is_url: false }, SessionAction::Install { name: t })
            }
        },
        (SessionState::AwaitingKind { url }, SessionEvent::Selected(choice)) => (
            SessionState::AwaitingName { url, is_media: true, audio_only: choice == 1 },
            SessionAction::PromptName,
        ),
        (SessionState::AwaitingName { url, is_media, audio_only }, SessionEvent::Line(raw)) => {
            let output = custom_output(raw.as_str());
            if audio_only || is_media {
                (
                    SessionState::Running { is_url: true },
                    SessionAction::DownloadMedia { url, output, audio_only },
                )
            } else {
                (SessionState::Running { is_url: true }, SessionAction::DownloadFile { url, output })
            }
        },
        (SessionState::Running { is_url }, SessionEvent::Finished(ok)) => {
            let report = if !ok {
                Report::Failure
            } else if is_url {
                Report::Success
            } else {
                Report::Nothing
            };
            (SessionState::AwaitingAgain, SessionAction::AskAgain { report })
        },
        (SessionState::AwaitingAgain, SessionEvent::Again(go_on)) => if go_on {
            (SessionState::AwaitingInput, SessionAction::PromptInput)
        } else {
            (SessionState::Closed, SessionAction::Goodbye)
        },
        (s, _) => (s, SessionAction::Unexpected),
    }
}

/// Interactive mode sends a typed URL towards yt-dlp exactly when the command
/// line, given the same URL and no flags, would: both ask whether the site is
/// a media site.
pub proof fn law_interactive_routes_like_command_line(
    raw: String,
    next: SessionState,
    action: SessionAction,
)
    requires
        session_step_spec(SessionState::AwaitingInput, SessionEvent::Line(raw), next, action),
        is_web_url(trim(raw@)),
        !is_quit_word(trim(raw@)),
    ensures
        (next is AwaitingKind) <==> route_spec(trim(raw@), false, false) == Route::Media,
        !(next is AwaitingKind) ==> route_spec(trim(raw@), false, false) == Route::File,
{
    reveal_strlit("http://");
    reveal_strlit("https://");
    let t = trim(raw@);
    if t.len() == 0 {
        assert(!crate::text::occurs_at(t, "http://"@, 0));
        assert(!crate::text::occurs_at(t, "https://"@, 0));
    }
}

/// `eq_ignore_ascii_case_seq` relates texts with the same ASCII lower-casing,
/// so it chains.
proof fn lemma_ignore_case_chain(a: Seq<char>, b: Seq<char>, c: Seq<char>)
    requires
        eq_ignore_ascii_case_seq(a, b),
    ensures
        eq_ignore_ascii_case_seq(a, c) == eq_ignore_ascii_case_seq(b, c),
{
    if eq_ignore_ascii_case_seq(a, c) {
        assert forall|i: int| 0 <= i < b.len() implies crate::text::ascii_lower(b[i])
            == crate::text::ascii_lower(c[i]) by {
            assert(crate::text::ascii_lower(a[i]) == crate::text::ascii_lower(b[i]));
        }
    }
    if eq_ignore_ascii_case_seq(b, c) {
        assert forall|i: int| 0 <= i < a.len() implies crate::text::ascii_lower(a[i])
            == crate::text::ascii_lower(c[i]) by {
            assert(crate::text::ascii_lower(a[i]) == crate::text::ascii_lower(b[i]));
        }
    }
}

/// Quitting ignores ASCII letter case: texts equal up to ASCII case are both
/// quit words or neither, and `q`, `quit` and `exit` themselves are quit
/// words.
pub proof fn law_quit_words_ignore_case(a: Seq<char>, b: Seq<char>)
    requires
        eq_ignore_ascii_case_seq(a, b),
    ensures
        is_quit_word(a) == is_quit_word(b),
        is_quit_word("q"@),
        is_quit_word("quit"@),
        is_quit_word("exit"@),
{
    lemma_ignore_case_chain(a, b, "q"@);
    lemma_ignore_case_chain(a, b, "quit"@);
    lemma_ignore_case_chain(a, b, "exit"@);
}

/// A line whose trimmed text is `q`, `quit` or `exit` in any ASCII letter case
/// ends the session with a goodbye, and starts no job.
pub proof fn law_quit_line_closes_session(
    raw: String,
    word: Seq<char>,
    next: SessionState,
    action: SessionAction,
)
    requires
        word == "q"@ || word == "quit"@ || word == "exit"@,
        eq_ignore_ascii_case_seq(trim(raw@), word),
        session_step_spec(SessionState::AwaitingInput, SessionEvent::Line(raw), next, action),
    ensures
        next is Closed,
        action is Goodbye,
{
    law_quit_words_ignore_case(trim(raw@), word);
}

/// Routing a command-line target: anything not starting with `http://` or
/// `https://` is a package to install; a web URL goes to yt-dlp when audio is
/// asked for, yt-dlp is forced, or the site is a media site, and is fetched
/// as a file otherwise.
pub proof fn law_route(target: Seq<char>, force_media: bool, audio_only: bool)
    ensures
        !has_prefix(target, "http://"@) && !has_prefix(target, "https://"@) ==> route_spec(
            target,
            force_media,
            audio_only,
        ) == Route::Install,
        (has_prefix(target, "http://"@) || has_prefix(target, "https://"@)) ==> (route_spec(
            target,
            force_media,
            audio_only,
        ) == Route::Media <==> (audio_only || force_media || is_media_url_spec(target))),
        (has_prefix(target, "http://"@) || has_prefix(target, "https://"@)) ==> route_spec(
            target,
            force_media,
            audio_only,
        ) != Route::Install,
{
}

/// An output name typed by the user is used trimmed, and a blank one means
/// "choose automatically".
pub proof fn law_custom_output(raw: Seq<char>)
    ensures
        trim(raw).len() == 0 <==> custom_output_spec(raw) is None,
        custom_output_spec(raw) matches Some(name) ==> name == trim(raw) && name.len() > 0,
{
}

/// A blank line is refused and asked for again.
pub proof fn law_blank_line_is_refused(raw: String, next: SessionState, action: SessionAction)
    requires
        trim(raw@).len() == 0,
        session_step_spec(SessionState::AwaitingInput, SessionEvent::Line(raw), next, action),
    ensures
        next is AwaitingInput,
        action is WarnEmpty,
{
    reveal_strlit("q");
    reveal_strlit("quit");
    reveal_strlit("exit");
    assert(!eq_ignore_ascii_case_seq(trim(raw@), "q"@));
    assert(!eq_ignore_ascii_case_seq(trim(raw@), "quit"@));
    assert(!eq_ignore_ascii_case_seq(trim(raw@), "exit"@));
}

/// A line that is not blank, not a quit word and not a web URL installs the
/// package of that trimmed name.
pub proof fn law_other_text_installs(raw: String, next: SessionState, action: SessionAction)
    requires
        trim(raw@).len() > 0,
        !is_quit_word(trim(raw@)),
        !is_web_url(trim(raw@)),
        session_step_spec(SessionState::AwaitingInput, SessionEvent::Line(raw), next, action),
    ensures
        action matches SessionAction::Install { name } && name@ == trim(raw@),
        next matches SessionState::Running { is_url } && !is_url,
{
}

/// For a media URL, choice 1 of the menu means audio only and any other
/// choice means video; the URL is kept.
pub proof fn law_kind_choice(url: String, choice: usize, next: SessionState, action: SessionAction)
    requires
        session_step_spec(SessionState::AwaitingKind { url }, SessionEvent::Selected(choice), next, action),
    ensures
        next matches SessionState::AwaitingName { url: u, is_media, audio_only } && u@ == url@
            && is_media && audio_only == (choice == 1),
        action is PromptName,
{
}

/// A failed job is reported as a failure, a successful download as a
/// success, a successful install with nothing more; then the user decides:
/// going on asks for new input, declining ends the session.
pub proof fn law_job_end_and_again(
    is_url: bool,
    ok: bool,
    go_on: bool,
    next1: SessionState,
    action1: SessionAction,
    next2: SessionState,
    action2: SessionAction,
)
    requires
        session_step_spec(SessionState::Running { is_url }, SessionEvent::Finished(ok), next1, action1),
        session_step_spec(SessionState::AwaitingAgain, SessionEvent::Again(go_on), next2, action2),
    ensures
        next1 is AwaitingAgain,
        !ok ==> (action1 matches SessionAction::AskAgain { report } && report is Failure),
        ok && is_url ==> (action1 matches SessionAction::AskAgain { report } && report is Success),
        ok && !is_url ==> (action1 matches SessionAction::AskAgain { report } && report is Nothing),
        go_on ==> next2 is AwaitingInput && action2 is PromptInput,
        !go_on ==> next2 is Closed && action2 is Goodbye,
{
}

} // verus!
