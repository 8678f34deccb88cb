use ket::http::{
    chunk_size, content_length, content_type_label, plan_download, progress_bar_plan,
    status_is_success, BarKind, ChunkBuffer, ChunkStep,
};
use ket::paths::{choose_name, resolve_output_path_with, url_file_name_of};

#[test]
fn success_statuses_are_2xx() {
    assert!(status_is_success(200));
    assert!(status_is_success(299));
    assert!(!status_is_success(199));
    assert!(!status_is_success(300));
    assert!(!status_is_success(404));
}

#[test]
fn content_length_reads_numbers_only() {
    assert_eq!(content_length(Some("1024")), Some(1024));
    assert_eq!(content_length(Some("abc")), None);
    assert_eq!(content_length(None), None);
}

#[test]
fn content_type_defaults_to_unknown() {
    assert_eq!(content_type_label(Some("application/zip")), "application/zip");
    assert_eq!(content_type_label(None), "unknown");
}

#[test]
fn chunk_size_is_a_99th_but_at_least_1024() {
    assert_eq!(chunk_size(None), 1024);
    assert_eq!(chunk_size(Some(0)), 1024);
    assert_eq!(chunk_size(Some(99 * 1024)), 1024);
    assert_eq!(chunk_size(Some(99 * 1025)), 1025);
    assert_eq!(chunk_size(Some(990_000)), 10_000);
    assert_eq!(chunk_size(Some(u64::MAX)), u64::MAX / 99);
}

#[test]
fn url_file_name_is_the_last_segment() {
    assert_eq!(url_file_name_of("https://example.com/file.zip"), "file.zip");
    assert_eq!(url_file_name_of("https://example.com/dir/"), "");
    assert_eq!(url_file_name_of("file"), "file");
}

#[test]
fn explicit_output_name_wins() {
    assert_eq!(choose_name("https://e.com/a.zip", Some("mine.zip")), "mine.zip");
    assert_eq!(choose_name("https://e.com/a.zip", None), "a.zip");
    assert_eq!(resolve_output_path_with("https://e.com/a.zip", Some("my_file.zip"), None), "my_file.zip");
    assert_eq!(
        resolve_output_path_with("https://e.com/a.zip", Some("x"), Some("/downloads")),
        "x"
    );
}

#[test]
fn default_output_goes_into_the_download_folder() {
    let joined = std::path::Path::new("/home/u/Downloads")
        .join("a.zip")
        .to_string_lossy()
        .into_owned();
    assert_eq!(
        resolve_output_path_with("https://e.com/a.zip", None, Some("/home/u/Downloads")),
        joined
    );
    assert_ne!(joined, "/home/u/Downloads");
    assert_eq!(resolve_output_path_with("https://e.com/a.zip", None, None), "a.zip");
}

#[test]
fn plan_download_reads_the_headers() {
    let plan = plan_download("https://e.com/f/big.iso", None, Some("9900000"), None);
    assert_eq!(plan.length, Some(9_900_000));
    assert_eq!(plan.content_type, "unknown");
    assert_eq!(plan.file_name, "big.iso");
    assert_eq!(plan.chunk_size, 100_000);
    let plan = plan_download("https://e.com/f/", Some("out.bin"), Some("x"), Some("text/plain"));
    assert_eq!(plan.length, None);
    assert_eq!(plan.content_type, "text/plain");
    assert_eq!(plan.file_name, "out.bin");
    assert_eq!(plan.chunk_size, 1024);
}

#[test]
fn chunk_buffer_keeps_reads_in_order() {
    let mut buf = ChunkBuffer::new();
    assert_eq!(buf.on_read(&[1, 2, 3, 9, 9], 3), ChunkStep::Received(3));
    assert_eq!(buf.on_read(&[4, 5], 2), ChunkStep::Received(2));
    assert_eq!(buf.len(), 5);
    assert_eq!(buf.on_read(&[7, 7], 0), ChunkStep::Finished);
    assert_eq!(buf.into_bytes(), vec![1, 2, 3, 4, 5]);
}

#[test]
fn progress_bar_plan_follows_quiet_and_length() {
    let p = progress_bar_plan(true, Some(10));
    assert_eq!(p.kind, BarKind::Hidden);
    assert!(p.byte_style);
    let p = progress_bar_plan(false, Some(10));
    assert_eq!(p.kind, BarKind::Sized(10));
    assert!(p.byte_style);
    let p = progress_bar_plan(false, None);
    assert_eq!(p.kind, BarKind::Spinner);
    assert!(!p.byte_style);
}
