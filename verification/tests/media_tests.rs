use ket::media::{is_media_url, ytdlp_arguments_with, LineAction, MediaProgress};

#[test]
fn media_sites_are_recognised() {
    assert!(is_media_url("https://www.youtube.com/watch?v=abc"));
    assert!(is_media_url("https://youtu.be/abc"));
    assert!(is_media_url("https://vimeo.com/1"));
    assert!(is_media_url("https://soundcloud.com/a"));
    assert!(is_media_url("https://www.bilibili.com/video/1"));
    assert!(is_media_url("https://www.tiktok.com/@a"));
    assert!(is_media_url("https://twitter.com/a/status/1"));
    assert!(is_media_url("https://x.com/a/status/1"));
    assert!(is_media_url("https://www.twitch.tv/a"));
    assert!(!is_media_url("https://example.com/file.zip"));
    assert!(!is_media_url(""));
}

fn strs(v: &[String]) -> Vec<&str> {
    v.iter().map(|s| s.as_str()).collect()
}

#[test]
fn audio_arguments() {
    let args = ytdlp_arguments_with("URL", Some("song.mp3"), true, true, false, None);
    assert_eq!(
        strs(&args),
        vec!["-x", "--audio-format", "mp3", "-o", "song.mp3", "--newline", "--no-warnings", "URL"]
    );
}

#[test]
fn video_arguments_with_ffmpeg() {
    let args = ytdlp_arguments_with("URL", None, false, true, true, None);
    assert_eq!(
        strs(&args),
        vec![
            "-f",
            "bestvideo[height<=1080][ext=mp4]+bestaudio[ext=m4a]/bestvideo[height<=1080]+bestaudio/best[height<=1080]/best",
            "--merge-output-format",
            "mp4",
            "--remux-video",
            "mp4",
            "--newline",
            "--no-warnings",
            "--quiet",
            "URL"
        ]
    );
}

#[test]
fn video_arguments_without_ffmpeg_use_the_download_folder() {
    let args = ytdlp_arguments_with("URL", None, false, false, false, Some("/dl"));
    let template = std::path::Path::new("/dl")
        .join("%(title)s [%(id)s].%(ext)s")
        .to_string_lossy()
        .into_owned();
    assert_eq!(
        strs(&args),
        vec![
            "-f",
            "best[height<=1080][ext=mp4]/best[height<=1080]/best",
            "--remux-video",
            "mp4",
            "-o",
            template.as_str(),
            "--newline",
            "--no-warnings",
            "URL"
        ]
    );
    assert_ne!(template, "/dl");
}

#[test]
fn arguments_end_with_the_target() {
    let args = ytdlp_arguments_with("https://youtu.be/x", Some("o.mp4"), false, true, false, Some("/dl"));
    assert_eq!(args.last().map(|s| s.as_str()), Some("https://youtu.be/x"));
    assert!(args.iter().any(|a| a == "o.mp4"));
}

#[test]
fn progress_lines_are_split() {
    let mut p = MediaProgress::new();
    assert!(!p.is_downloading());
    assert_eq!(p.on_line("[youtube] abc: Downloading webpage"), LineAction::Tick);
    assert_eq!(p.on_line("[info] abc: Downloading 1 format(s)"), LineAction::Tick);
    assert_eq!(p.on_line("Deleting intermediate file"), LineAction::Ignore);
    assert_eq!(p.on_line("[download] Destination: a.mp4"), LineAction::Ignore);
    assert!(!p.is_downloading());
    assert_eq!(
        p.on_line("[download]  45.3% of   10.00MiB at  2.00MiB/s ETA 00:03"),
        LineAction::Progress {
            start_bar: true,
            percent: "45.3".to_string(),
            message: "of   10.00MiB at  2.00MiB/s ETA 00:03".to_string(),
        }
    );
    assert!(p.is_downloading());
    assert_eq!(
        p.on_line("[download] 100% of 10.00MiB in 00:05"),
        LineAction::Progress {
            start_bar: false,
            percent: "100".to_string(),
            message: "of 10.00MiB in 00:05".to_string(),
        }
    );
    assert_eq!(
        p.on_line("[download] 50%% two %"),
        LineAction::Progress { start_bar: false, percent: "50".to_string(), message: "".to_string() }
    );
}
