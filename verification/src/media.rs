//! Media downloads through yt-dlp: which URLs go there, the command line it is
//! run with, and how its progress lines are read.
use vstd::prelude::*;

use crate::paths::{joined_path, opt_view, path_join};
use crate::text::{
    chars_of, contains, contains_seq, first_index_of, has_prefix, lemma_first_index_of,
    remove_all, remove_all_str, starts_with, substring, trim, trim_str,
};

verus! {

/// `url` names one of the media sites that yt-dlp handles.
pub open spec fn is_media_url_spec(url: Seq<char>) -> bool {
    ||| contains_seq(url, "youtube.com"@)
    ||| contains_seq(url, "youtu.be"@)
    ||| contains_seq(url, "vimeo.com"@)
    ||| contains_seq(url, "soundcloud.com"@)
    ||| contains_seq(url, "bilibili.com"@)
    ||| contains_seq(url, "tiktok.com"@)
    ||| contains_seq(url, "twitter.com"@)
    ||| contains_seq(url, "x.com"@)
    ||| contains_seq(url, "twitch.tv"@)
}

/// Does `url` belong to a media site (YouTube, Vimeo, SoundCloud, Bilibili,
/// TikTok, Twitter/X, Twitch)?
pub fn is_media_url(url: &str) -> (b: bool)
    ensures
        b == is_media_url_spec(url@),
{
    contains(url, "youtube.com") || contains(url, "youtu.be") || contains(url, "vimeo.com")
        || contains(url, "soundcloud.com") || contains(url, "bilibili.com") || contains(
        url,
        "tiktok.com",
    ) || contains(url, "twitter.com") || contains(url, "x.com") || contains(url, "twitch.tv")
}

/// The format that yt-dlp is asked for when ffmpeg can merge streams.
pub open spec fn merged_format() -> Seq<char> {
    "bestvideo[height<=1080][ext=mp4]+bestaudio[ext=m4a]/bestvideo[height<=1080]+bestaudio/best[height<=1080]/best"@
}

/// The format that yt-dlp is asked for without ffmpeg (one stream only).
pub open spec fn single_format() -> Seq<char> {
    "best[height<=1080][ext=mp4]/best[height<=1080]/best"@
}

/// The output template used inside the download folder.
pub open spec fn output_template() -> Seq<char> {
    "%(title)s [%(id)s].%(ext)s"@
}

/// The arguments yt-dlp is run with, in order.
pub open spec fn ytdlp_args_spec(
    target: Seq<char>,
    output_file: Option<Seq<char>>,
    audio_only: bool,
    has_ffmpeg: bool,
    quiet: bool,
    download_dir: Option<Seq<char>>,
) -> Seq<Seq<char>> {
    let format = if audio_only {
        seq!["-x"@, "--audio-format"@, "mp3"@]
    } else if has_ffmpeg {
        seq!["-f"@, merged_format(), "--merge-output-format"@, "mp4"@]
    } else {
        seq!["-f"@, single_format()]
    };
    let remux = if !audio_only {
        seq!["--remux-video"@, "mp4"@]
    } else {
        Seq::empty()
    };
    let output = match output_file {
        Some(file) => seq!["-o"@, file],
        None => match download_dir {
            Some(dir) => seq!["-o"@, joined_path(dir, output_template())],
            None => Seq::empty(),
        },
    };
    let quiet_flag = if quiet {
        seq!["--quiet"@]
    } else {
        Seq::empty()
    };
    format + remux + output + seq!["--newline"@, "--no-warnings"@] + quiet_flag + seq![target]
}

/// The views of a list of strings.
pub open spec fn strings_view(v: Seq<String>) -> Seq<Seq<char>> {
    v.map_values(|s: String| s@)
}

/// Appends a copy of `s` to `args`.
fn push_arg(args: &mut Vec<String>, s: &str)
    ensures
        strings_view(final(args)@) == strings_view(old(args)@).push(s@),
{
    args.push(String::from_str(s));
    assert(strings_view(args@) =~= strings_view(old(args)@).push(s@));
}

/// The arguments for yt-dlp, with the download folder handed in: audio
/// extraction to mp3, or an mp4 format (merged streams when ffmpeg is there),
/// the output name or a template in the download folder, line-by-line
/// progress, and the target last.
pub fn ytdlp_arguments_with(
    target: &str,
    output_file: Option<&str>,
    audio_only: bool,
    has_ffmpeg: bool,
    quiet: bool,
    download_dir: Option<&str>,
) -> (args: Vec<String>)
    ensures
        strings_view(args@) == ytdlp_args_spec(
            target@,
            opt_view(output_file),
            audio_only,
            has_ffmpeg,
            quiet,
            opt_view(download_dir),
        ),
{
    let mut args: Vec<String> = Vec::new();
    assert(strings_view(args@) =~= Seq::<Seq<char>>::empty());
    if audio_only {
        push_arg(&mut args, "-x");
        push_arg(&mut args, "--audio-format");
        push_arg(&mut args, "mp3");
    } else if has_ffmpeg {
        push_arg(&mut args, "-f");
        push_arg(
            &mut args,
            "bestvideo[height<=1080][ext=mp4]+bestaudio[ext=m4a]/bestvideo[height<=1080]+bestaudio/best[height<=1080]/best",
        );
        push_arg(&mut args, "--merge-output-format");
        push_arg(&mut args, "mp4");
    } else {
        push_arg(&mut args, "-f");
        push_arg(&mut args, "best[height<=1080][ext=mp4]/best[height<=1080]/best");
    }
    if !audio_only {
        push_arg(&mut args, "--remux-video");
        push_arg(&mut args, "mp4");
    }
    match output_file {
        Some(file) => {
            push_arg(&mut args, "-o");
            push_arg(&mut args, file);
        },
        None => match download_dir {
            Some(dir) => {
                let template = path_join(dir, "%(title)s [%(id)s].%(ext)s");
                push_arg(&mut args, "-o");
                push_arg(&mut args, template.as_str());
            },
            None => {},
        },
    }
    push_arg(&mut args, "--newline");
    push_arg(&mut args, "--no-warnings");
    if quiet {
        push_arg(&mut args, "--quiet");
    }
    push_arg(&mut args, target);
    proof {
        let spec_args = ytdlp_args_spec(
            target@,
            opt_view(output_file),
            audio_only,
            has_ffmpeg,
            quiet,
            opt_view(download_dir),
        );
        assert(strings_view(args@) =~= spec_args);
    }
    args
}

/// A line of yt-dlp output that reports download progress.
pub open spec fn is_progress_line(line: Seq<char>) -> bool {
    has_prefix(line, "[download]"@) && contains_seq(line, "%"@)
}

/// A line of yt-dlp output that only shows it is busy.
pub open spec fn is_busy_line(line: Seq<char>) -> bool {
    has_prefix(line, "[youtube]"@) || has_prefix(line, "[info]"@)
}

/// A progress line without its `[download]` markers and outer white space.
pub open spec fn cleaned_line(line: Seq<char>) -> Seq<char> {
    trim(remove_all(line, "[download]"@))
}

/// The text before the first `%` (the percentage).
pub open spec fn percent_field(clean: Seq<char>) -> Seq<char> {
    clean.subrange(0, first_index_of(clean, '%'))
}

/// The text between the first `%` and the next one (or the end).
pub open spec fn message_field(clean: Seq<char>) -> Seq<char> {
    let rest = clean.subrange(first_index_of(clean, '%') + 1, clean.len() as int);
    let j = first_index_of(rest, '%');
    if j == -1 {
        rest
    } else {
        rest.subrange(0, j)
    }
}

/// What to do with one line of yt-dlp output.
#[derive(Debug, PartialEq, Eq)]
pub enum LineAction {
    /// Progress: the percentage text (to be read as a number) and the rest of
    /// the line; `start_bar` when this is the first progress line.
    Progress { start_bar: bool, percent: String, message: String },
    /// A progress line without a `%` field: show it whole.
    Message { start_bar: bool, message: String },
    /// A busy line: advance the spinner.
    Tick,
    /// Any other line: nothing to show.
    Ignore,
}

/// Reads yt-dlp's output line by line; remembers whether the progress bar has
/// been switched from spinner to bar.
pub struct MediaProgress {
    downloading: bool,
}

/// The action that `on_line` owes for `line`, given whether progress was seen
/// before.
pub open spec fn line_action_spec(downloading: bool, line: Seq<char>, action: LineAction) -> bool {
    if is_progress_line(line) {
        let clean = cleaned_line(line);
        if first_index_of(clean, '%') >= 0 {
            action matches LineAction::Progress { start_bar, percent, message } && start_bar
                == !downloading && percent@ == trim(percent_field(clean)) && message@ == trim(
                message_field(clean),
            )
        } else {
            action matches LineAction::Message { start_bar, message } && start_bar == !downloading
                && message@ == clean
        }
    } else if is_busy_line(line) {
        action is Tick
    } else {
        action is Ignore
    }
}

impl MediaProgress {
    /// No progress line seen yet.
    pub fn new() -> (r: Self)
        ensures
            !r.downloading(),
    {
        MediaProgress { downloading: false }
    }

    /// Has a progress line been seen?
    pub closed spec fn downloading(&self) -> bool {
        self.downloading
    }

    /// Has a progress line been seen?
    pub fn is_downloading(&self) -> (b: bool)
        ensures
            b == self.downloading(),
    {
        self.downloading
    }

    /// Decides what one line of yt-dlp output shows.
    pub fn on_line(&mut self, line: &str) -> (action: LineAction)
        ensures
            line_action_spec(old(self).downloading(), line@, action),
            final(self).downloading() == (old(self).downloading() || is_progress_line(line@)),
    {
        if starts_with(line, "[download]") && contains(line, "%") {
            let start_bar = !self.downloading;
            self.downloading = true;
            proof {
                reveal_strlit("[download]");
            }
            let removed = remove_all_str(line, "[download]");
            let clean = trim_str(removed.as_str());
            let cv = chars_of(clean.as_str());
            match crate::text::find_char(&cv, '%') {
                Some(i) => {
                    proof {
                        lemma_first_index_of(clean@, '%');
                        assert(cv@ == clean@);
                    }
                    assert(i < cv.len());
                    let percent_text = substring(clean.as_str(), 0, i);
                    let rest = substring(clean.as_str(), i + 1, cv.len());
                    let rv = chars_of(rest.as_str());
                    let message_text = match crate::text::find_char(&rv, '%') {
                        Some(j) => {
                            proof {
                                lemma_first_index_of(rest@, '%');
                            }
                            substring(rest.as_str(), 0, j)
                        },
                        None => rest,
                    };
                    let percent = trim_str(percent_text.as_str());
                    let message = trim_str(message_text.as_str());
                    LineAction::Progress { start_bar, percent, message }
                },
                None => LineAction::Message { start_bar, message: clean },
            }
        } else if starts_with(line, "[youtube]") || starts_with(line, "[info]") {
            LineAction::Tick
        } else {
            LineAction::Ignore
        }
    }
}

/// Removing a pattern that holds no `c` keeps every `c`.
proof fn lemma_remove_all_keeps(s: Seq<char>, pat: Seq<char>, c: char)
    requires
        s.contains(c),
        !pat.contains(c),
    ensures
        remove_all(s, pat).contains(c),
    decreases s.len(),
{
    if pat.len() > 0 && s.len() > 0 {
        let k = choose|k: int| 0 <= k < s.len() && s[k] == c;
        if has_prefix(s, pat) {
            if k < pat.len() {
                assert(s.subrange(0, pat.len() as int)[k] == pat[k]);
                assert(false);
            }
            let rest = s.subrange(pat.len() as int, s.len() as int);
            assert(rest[k - pat.len()] == c);
            lemma_remove_all_keeps(rest, pat, c);
        } else {
            let r = remove_all(s.drop_first(), pat);
            if k == 0 {
                assert((seq![s[0]] + r)[0] == c);
            } else {
                assert(s.drop_first()[k - 1] == c);
                lemma_remove_all_keeps(s.drop_first(), pat, c);
                let j = choose|j: int| 0 <= j < r.len() && r[j] == c;
                assert((seq![s[0]] + r)[j + 1] == c);
            }
        }
    }
}

/// Trimming keeps every char that is not white space.
proof fn lemma_trim_keeps(s: Seq<char>, c: char)
    requires
        s.contains(c),
        !crate::text::is_white_space(c),
    ensures
        trim(s).contains(c),
{
    lemma_trim_start_keeps(s, c);
    lemma_trim_end_keeps(crate::text::trim_start(s), c);
}

proof fn lemma_trim_start_keeps(s: Seq<char>, c: char)
    requires
        s.contains(c),
        !crate::text::is_white_space(c),
    ensures
        crate::text::trim_start(s).contains(c),
    decreases s.len(),
{
    if s.len() > 0 && crate::text::is_white_space(s[0]) {
        let k = choose|k: int| 0 <= k < s.len() && s[k] == c;
        assert(k != 0);
        assert(s.drop_first()[k - 1] == c);
        lemma_trim_start_keeps(s.drop_first(), c);
    }
}

proof fn lemma_trim_end_keeps(s: Seq<char>, c: char)
    requires
        s.contains(c),
        !crate::text::is_white_space(c),
    ensures
        crate::text::trim_end(s).contains(c),
    decreases s.len(),
{
    if s.len() > 0 && crate::text::is_white_space(s.last()) {
        let k = choose|k: int| 0 <= k < s.len() && s[k] == c;
        assert(k != s.len() - 1);
        assert(s.drop_last()[k] == c);
        lemma_trim_end_keeps(s.drop_last(), c);
    }
}

/// Every progress line (one that starts with `[download]` and holds a `%`)
/// still holds a `%` once cleaned, so it always yields a percentage field:
/// `on_line` never falls back to showing such a line whole.
pub proof fn law_progress_lines_carry_a_percentage(line: Seq<char>)
    requires
        is_progress_line(line),
    ensures
        first_index_of(cleaned_line(line), '%') >= 0,
{
    reveal_strlit("%");
    reveal_strlit("[download]");
    let i = choose|i: int| crate::text::occurs_at(line, "%"@, i);
    assert(line.subrange(i, i + 1)[0] == line[i]);
    assert(line[i] == '%');
    assert(line.contains('%'));
    assert(!"[download]"@.contains('%')) by {
        assert forall|k: int| 0 <= k < "[download]"@.len() implies "[download]"@[k] != '%' by {}
    }
    lemma_remove_all_keeps(line, "[download]"@, '%');
    lemma_trim_keeps(remove_all(line, "[download]"@), '%');
    let clean = cleaned_line(line);
    lemma_first_index_of(clean, '%');
    if first_index_of(clean, '%') == -1 {
        let k = choose|k: int| 0 <= k < clean.len() && clean[k] == '%';
        assert(clean[k] != '%');
    }
}

/// Without an output name, a known download folder always puts the output in
/// it: the arguments hold `-o` followed by the folder joined with the
/// `%(title)s [%(id)s].%(ext)s` template, for audio and video alike and with
/// or without ffmpeg.
pub proof fn law_download_folder_used_for_every_kind(
    target: Seq<char>,
    audio_only: bool,
    has_ffmpeg: bool,
    quiet: bool,
    dir: Seq<char>,
)
    ensures
        exists|i: int|
            0 <= i && i + 1 < ytdlp_args_spec(target, None, audio_only, has_ffmpeg, quiet, Some(dir)).len()
                && #[trigger] ytdlp_args_spec(target, None, audio_only, has_ffmpeg, quiet, Some(dir))[i]
                == "-o"@ && ytdlp_args_spec(target, None, audio_only, has_ffmpeg, quiet, Some(dir))[i
                + 1] == joined_path(dir, "%(title)s [%(id)s].%(ext)s"@),
{
    let a = ytdlp_args_spec(target, None, audio_only, has_ffmpeg, quiet, Some(dir));
    let i: int = if audio_only {
        3
    } else if has_ffmpeg {
        6
    } else {
        4
    };
    assert(a[i] == "-o"@);
    assert(a[i + 1] == joined_path(dir, "%(title)s [%(id)s].%(ext)s"@));
}

/// An output name given by the user always follows `-o`, whatever else is
/// asked for.
pub proof fn law_output_name_is_passed(
    target: Seq<char>,
    file: Seq<char>,
    audio_only: bool,
    has_ffmpeg: bool,
    quiet: bool,
    dir: Option<Seq<char>>,
)
    ensures
        exists|i: int|
            0 <= i && i + 1 < ytdlp_args_spec(target, Some(file), audio_only, has_ffmpeg, quiet, dir).len()
                && #[trigger] ytdlp_args_spec(target, Some(file), audio_only, has_ffmpeg, quiet, dir)[i]
                == "-o"@ && ytdlp_args_spec(target, Some(file), audio_only, has_ffmpeg, quiet, dir)[i + 1]
                == file,
        ytdlp_args_spec(target, Some(file), audio_only, has_ffmpeg, quiet, dir).last() == target,
{
    let a = ytdlp_args_spec(target, Some(file), audio_only, has_ffmpeg, quiet, dir);
    let i: int = if audio_only {
        3
    } else if has_ffmpeg {
        6
    } else {
        4
    };
    assert(a[i] == "-o"@);
    assert(a[i + 1] == file);
}

/// A URL is a media URL exactly when it names one of the nine media sites:
/// youtube.com, youtu.be, vimeo.com, soundcloud.com, bilibili.com,
/// tiktok.com, twitter.com, x.com or twitch.tv.  A web URL naming none of
/// them is fetched as a plain file.
pub proof fn law_media_sites_are_exactly_the_nine(url: Seq<char>)
    ensures
        is_media_url_spec(url) <==> (contains_seq(url, "youtube.com"@) || contains_seq(url, "youtu.be"@)
            || contains_seq(url, "vimeo.com"@) || contains_seq(url, "soundcloud.com"@) || contains_seq(
            url,
            "bilibili.com"@,
        ) || contains_seq(url, "tiktok.com"@) || contains_seq(url, "twitter.com"@) || contains_seq(
            url,
            "x.com"@,
        ) || contains_seq(url, "twitch.tv"@)),
        !contains_seq(url, "youtube.com"@) && !contains_seq(url, "youtu.be"@) && !contains_seq(
            url,
            "vimeo.com"@,
        ) && !contains_seq(url, "soundcloud.com"@) && !contains_seq(url, "bilibili.com"@)
            && !contains_seq(url, "tiktok.com"@) && !contains_seq(url, "twitter.com"@)
            && !contains_seq(url, "x.com"@) && !contains_seq(url, "twitch.tv"@)
            && crate::cli::is_web_url(url) ==> crate::cli::route_spec(url, false, false)
            == crate::cli::Route::File,
{
}

/// The shape of the yt-dlp command line: audio starts with `-x --audio-format
/// mp3`; video starts with `-f` and the merged format when ffmpeg is there
/// (then `--merge-output-format mp4`), the single-stream format otherwise,
/// and video is always remuxed to mp4; line-by-line progress and no warnings
/// are always asked for, `--quiet` exactly when quiet (the length counts it),
/// and the target comes last; `-o` and its value take two places exactly when
/// an output name or a download folder is known.
pub proof fn law_argument_shape(
    target: Seq<char>,
    audio_only: bool,
    has_ffmpeg: bool,
    quiet: bool,
    out: Option<Seq<char>>,
    dir: Option<Seq<char>>,
)
    ensures
        ({
            let a = ytdlp_args_spec(target, out, audio_only, has_ffmpeg, quiet, dir);
            let fmt: int = if audio_only {
                3
            } else if has_ffmpeg {
                6
            } else {
                4
            };
            let o: int = if out is Some || dir is Some {
                2
            } else {
                0
            };
            &&& a.len() == fmt + o + 3 + (if quiet {
                1int
            } else {
                0int
            })
            &&& audio_only ==> a[0] == "-x"@ && a[1] == "--audio-format"@ && a[2] == "mp3"@
            &&& !audio_only ==> a[0] == "-f"@ && a[fmt - 2] == "--remux-video"@ && a[fmt - 1] == "mp4"@
            &&& !audio_only && has_ffmpeg ==> a[1]
                == "bestvideo[height<=1080][ext=mp4]+bestaudio[ext=m4a]/bestvideo[height<=1080]+bestaudio/best[height<=1080]/best"@
                && a[2] == "--merge-output-format"@ && a[3] == "mp4"@
            &&& !audio_only && !has_ffmpeg ==> a[1]
                == "best[height<=1080][ext=mp4]/best[height<=1080]/best"@
            &&& a[fmt + o] == "--newline"@ && a[fmt + o + 1] == "--no-warnings"@
            &&& quiet ==> a[fmt + o + 2] == "--quiet"@
            &&& a.last() == target
        }),
{
}

/// Progress lines are split at their first `%`: the percentage text holds no
/// `%`, the message holds no `%`, and the cleaned line is the percentage,
/// the `%`, then text that starts with the message.
pub proof fn law_progress_fields(clean: Seq<char>)
    requires
        first_index_of(clean, '%') >= 0,
    ensures
        !percent_field(clean).contains('%'),
        !message_field(clean).contains('%'),
        clean.subrange(0, percent_field(clean).len() as int) == percent_field(clean),
        clean[percent_field(clean).len() as int] == '%',
        clean.subrange(
            percent_field(clean).len() + 1int,
            percent_field(clean).len() + 1int + message_field(clean).len(),
        ) == message_field(clean),
{
    lemma_first_index_of(clean, '%');
    let i = first_index_of(clean, '%');
    let rest = clean.subrange(i + 1, clean.len() as int);
    lemma_first_index_of(rest, '%');
    assert forall|k: int| 0 <= k < percent_field(clean).len() implies percent_field(clean)[k] != '%' by {
        assert(percent_field(clean)[k] == clean[k]);
    }
    let m = message_field(clean);
    assert forall|k: int| 0 <= k < m.len() implies m[k] != '%' by {
        assert(m[k] == rest[k]);
    }
    assert(clean.subrange(i + 1, i + 1 + m.len()) =~= m);
}

/// What each line of yt-dlp output does: a progress line always updates the
/// percentage and message (switching to a bar only on the first one), a
/// `[youtube]` or `[info]` line that is not progress advances the spinner,
/// and any other line, a `[download]` line without `%` included, shows
/// nothing.
pub proof fn law_line_actions(downloading: bool, line: Seq<char>, action: LineAction)
    requires
        line_action_spec(downloading, line, action),
    ensures
        is_progress_line(line) ==> (action matches LineAction::Progress { start_bar, percent, message }
            && start_bar == !downloading && percent@ == trim(percent_field(cleaned_line(line)))
            && message@ == trim(message_field(cleaned_line(line)))),
        !is_progress_line(line) && (has_prefix(line, "[youtube]"@) || has_prefix(line, "[info]"@))
            ==> action is Tick,
        !is_progress_line(line) && !has_prefix(line, "[youtube]"@) && !has_prefix(line, "[info]"@)
            ==> action is Ignore,
        has_prefix(line, "[download]"@) && !contains_seq(line, "%"@) ==> !(action is Progress) && !(
        action is Message),
{
    if is_progress_line(line) {
        law_progress_lines_carry_a_percentage(line);
    }
}

} // verus!
