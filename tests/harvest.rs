use img_harvest::batch::{check_config, prepare_batch, summarize, BatchConfig, ConfigError, Scheduler};
use img_harvest::naming::{digit_width, file_name, file_path, pad_number};
use img_harvest::page::{collect_image_urls, extract_h1_title, folder_path};
use img_harvest::resolve::{page_url, resolve_sources, resolve_url};
use img_harvest::sniff::{get_extension, sniff_format, ImageFormat};
use img_harvest::worker::{
    DedupSet, DownloadOutcome, FetchError, ResolvedImageRef, SkipReason, Worker, WorkerAction,
    WorkerConfig, WorkerState,
};

fn payload(prefix: &[u8], len: usize) -> Vec<u8> {
    let mut v = prefix.to_vec();
    v.resize(len, 7);
    v
}

fn md5_hex(b: &[u8]) -> String {
    format!("{:x}", <md5::Md5 as md5::Digest>::digest(b))
}

fn cfg(dir: &str) -> WorkerConfig {
    WorkerConfig { retries: 3, min_size: 1024, width: 2, dir: dir.to_string() }
}

fn worker(index: usize, url: &str) -> Worker {
    Worker::new(ResolvedImageRef { index, url: url.to_string() }, 3)
}

#[test]
fn sniff_signatures() {
    assert_eq!(sniff_format(&[0xFF, 0xD8, 0xFF, 0xE0]), ImageFormat::Jpeg);
    assert_eq!(sniff_format(&[0x89, 0x50, 0x4E, 0x47, 0x0D]), ImageFormat::Png);
    assert_eq!(sniff_format(b"GIF89a"), ImageFormat::Gif);
    assert_eq!(sniff_format(b"RIFF\x00\x00\x00\x00WEBP"), ImageFormat::Webp);
    assert_eq!(sniff_format(b"BM.."), ImageFormat::Bmp);
    assert_eq!(sniff_format(&[0x49, 0x49, 0x2A, 0x00]), ImageFormat::Tiff);
    assert_eq!(sniff_format(&[0x4D, 0x4D, 0x00, 0x2A]), ImageFormat::Tiff);
    assert_eq!(sniff_format(&[0x00, 0x00, 0x01, 0x00]), ImageFormat::Ico);
    assert_eq!(sniff_format(b"<?xml version"), ImageFormat::Svg);
    assert_eq!(sniff_format(b"<svg "), ImageFormat::Svg);
    assert_eq!(sniff_format(&[0, 0, 0]), ImageFormat::Unknown);
}

#[test]
fn sniff_short_buffers_never_match() {
    assert_eq!(sniff_format(&[]), ImageFormat::Unknown);
    assert_eq!(sniff_format(&[0xFF, 0xD8]), ImageFormat::Unknown);
    assert_eq!(sniff_format(b"RIFF\x00\x00\x00\x00WEB"), ImageFormat::Unknown);
}

#[test]
fn extension_of_bytes() {
    assert_eq!(get_extension(&[0xFF, 0xD8, 0xFF]), Some("jpg"));
    assert_eq!(get_extension(&[0x89, 0x50, 0x4E, 0x47]), Some("png"));
    assert_eq!(get_extension(b"RIFF1234WEBP"), Some("webp"));
    assert_eq!(get_extension(&[0, 0, 0]), None);
    assert_eq!(ImageFormat::Unknown.file_extension(), "jpg");
    assert_eq!(ImageFormat::Gif.file_extension(), "gif");
}

#[test]
fn resolve_with_and_without_marker() {
    assert_eq!(resolve_url("/proxy/foo.jpg", "https://p/x/"), "https://p/x/foo.jpg");
    assert_eq!(resolve_url("bar.png", "https://p/x/"), "https://p/x/bar.png");
    assert_eq!(resolve_url("/proxy//proxy/a.gif", "P/"), "P//proxy/a.gif");
    assert_eq!(resolve_url("", "P/"), "P/");
    assert_eq!(resolve_url("/proxy", "P/"), "P//proxy");
}

#[test]
fn resolve_sources_skips_missing() {
    let srcs = vec![Some("/proxy/a.jpg".to_string()), None, Some("b.png".to_string())];
    assert_eq!(resolve_sources(&srcs, "https://p/x/"), vec!["https://p/x/a.jpg", "https://p/x/b.png"]);
}

#[test]
fn digit_widths() {
    assert_eq!(digit_width(0), 1);
    assert_eq!(digit_width(1), 1);
    assert_eq!(digit_width(9), 1);
    assert_eq!(digit_width(10), 1);
    assert_eq!(digit_width(11), 2);
    assert_eq!(digit_width(32), 2);
    assert_eq!(digit_width(100), 2);
    assert_eq!(digit_width(101), 3);
    assert_eq!(digit_width(usize::MAX), 20);
}

#[test]
fn padded_file_names() {
    assert_eq!(pad_number(1, 2), "01");
    assert_eq!(pad_number(123, 2), "123");
    assert_eq!(pad_number(0, 0), "0");
    assert_eq!(pad_number(7, 4), "0007");
    assert_eq!(file_name(0, digit_width(32), ImageFormat::Png), "01.png");
    assert_eq!(file_name(0, digit_width(1), ImageFormat::Jpeg), "1.jpg");
    assert_eq!(file_name(9, 1, ImageFormat::Unknown), "10.jpg");
    assert_eq!(file_path("./img/t", 4, 3, ImageFormat::Webp), "./img/t/005.webp");
}

#[test]
fn page_urls_and_title() {
    let html = "<html><body><h1>  My Album \n</h1><img src=\"/proxy/a.jpg\"><img alt=\"x\"><img src=\"b.png\"></body></html>";
    assert_eq!(collect_image_urls(html, "https://p/x/"), vec!["https://p/x/a.jpg", "https://p/x/b.png"]);
    assert_eq!(extract_h1_title(html), "My Album");
    assert_eq!(extract_h1_title("<p>no heading</p>"), "Untitled");
    assert!(collect_image_urls("<p>none</p>", "P").is_empty());
}

#[test]
fn folder_is_sanitized() {
    assert_eq!(folder_path("a/b:c"), "./img/abc");
    assert_eq!(folder_path("Album"), "./img/Album");
}

#[test]
fn dedup_set_membership() {
    let d = DedupSet::new(vec!["aa".to_string(), "bb".to_string()]);
    assert!(d.contains(&"bb".to_string()));
    assert!(!d.contains(&"cc".to_string()));
}

#[test]
fn known_hash_is_skipped_without_write() {
    let data = payload(&[0xFF, 0xD8, 0xFF], 2048);
    let known = DedupSet::new(vec![md5_hex(&data)]);
    let mut w = worker(0, "u");
    let a = w.on_payload(&data, &cfg("d"), &known);
    assert!(matches!(a, WorkerAction::Finish));
    assert!(matches!(w.state, WorkerState::Done { outcome: DownloadOutcome::Skipped { reason: SkipReason::AlreadyKnown } }));
}

#[test]
fn unknown_hash_is_written_under_its_name() {
    let data = payload(&[0x89, 0x50, 0x4E, 0x47], 2048);
    let known = DedupSet::new(vec!["0123".to_string()]);
    let mut w = worker(4, "u");
    match w.on_payload(&data, &cfg("dir"), &known) {
        WorkerAction::Write { path } => assert_eq!(path, "dir/05.png"),
        other => panic!("unexpected action {:?}", other),
    }
    let a = w.on_write_result(None);
    assert!(matches!(a, WorkerAction::Finish));
    match &w.state {
        WorkerState::Done { outcome: DownloadOutcome::Saved { path, format, size, hash } } => {
            assert_eq!(hash, &md5_hex(&data));
            assert_eq!(path, "dir/05.png");
            assert_eq!(*format, ImageFormat::Png);
            assert_eq!(*size, 2048);
        }
        other => panic!("unexpected state {:?}", other),
    }
}

#[test]
fn hashed_payload_decisions() {
    let data = payload(&[0x47, 0x49, 0x46, 0x38], 1024);
    let known = DedupSet::new(vec!["h".to_string()]);
    let mut w = worker(0, "u");
    assert!(matches!(w.on_payload_hashed(&data, &"h".to_string(), &cfg("d"), &known), WorkerAction::Finish));
    let mut w = worker(0, "u");
    assert!(matches!(w.on_payload_hashed(&data, &"g".to_string(), &cfg("d"), &known), WorkerAction::Write { .. }));
}

#[test]
fn undersized_payload_exhausts_retries() {
    let data = payload(&[0xFF, 0xD8, 0xFF], 500);
    let known = DedupSet::new(vec![]);
    let mut w = worker(0, "http://u");
    assert!(matches!(w.on_payload(&data, &cfg("d"), &known), WorkerAction::Fetch));
    assert_eq!(w.attempts_left, 2);
    assert!(matches!(w.on_payload(&data, &cfg("d"), &known), WorkerAction::Fetch));
    assert!(matches!(w.on_payload(&data, &cfg("d"), &known), WorkerAction::Finish));
    match &w.state {
        WorkerState::Done { outcome: DownloadOutcome::Failed { url, last_error: FetchError::Undersized { size } } } => {
            assert_eq!(url, "http://u");
            assert_eq!(*size, 500);
        }
        other => panic!("unexpected state {:?}", other),
    }
}

#[test]
fn transport_errors_then_write_failure() {
    let data = payload(&[0x42, 0x4D], 4096);
    let mut w = worker(1, "u");
    assert!(matches!(w.on_transport_error("refused".to_string()), WorkerAction::Fetch));
    assert!(matches!(w.on_transport_error("refused".to_string()), WorkerAction::Fetch));
    assert!(matches!(w.on_payload(&data, &cfg("d"), &DedupSet::new(vec![])), WorkerAction::Write { .. }));
    w.on_write_result(Some("disk full".to_string()));
    assert!(matches!(
        &w.state,
        WorkerState::Done { outcome: DownloadOutcome::Failed { last_error: FetchError::Persistence { .. }, .. } }
    ));
}

#[test]
fn unreachable_host_fails_after_retries() {
    let mut w = worker(0, "http://nowhere");
    w.on_transport_error("e1".to_string());
    w.on_transport_error("e2".to_string());
    assert!(matches!(w.on_transport_error("e3".to_string()), WorkerAction::Finish));
    assert!(w.is_done());
    match &w.state {
        WorkerState::Done { outcome: DownloadOutcome::Failed { last_error: FetchError::Transport { message }, .. } } => {
            assert_eq!(message, "e3")
        }
        other => panic!("unexpected state {:?}", other),
    }
}

#[test]
fn config_errors() {
    let ok = BatchConfig::standard();
    assert_eq!(check_config(0, &ok), Err(ConfigError::EmptyBatch));
    assert_eq!(check_config(2, &BatchConfig { capacity: 0, ..ok }), Err(ConfigError::ZeroCapacity));
    assert_eq!(check_config(2, &BatchConfig { retries: 0, ..ok }), Err(ConfigError::ZeroRetries));
    assert_eq!(check_config(2, &ok), Ok(()));
    assert_eq!(prepare_batch(&vec![], &ok, "d".to_string()).unwrap_err(), ConfigError::EmptyBatch);
}

#[test]
fn scheduler_bounds_running_workers() {
    let mut s = Scheduler::new(10, 3);
    let mut running = Vec::new();
    let mut finished = 0;
    loop {
        while let Some(i) = s.start_next() {
            assert!(s.is_running(i));
            running.push(i);
            assert!(running.len() <= 3);
        }
        match running.pop() {
            Some(i) => {
                s.complete(i, DownloadOutcome::Skipped { reason: SkipReason::AlreadyKnown });
                finished += 1;
            }
            None => break,
        }
    }
    assert_eq!(finished, 10);
    assert!(s.is_finished());
    assert_eq!(s.into_outcomes().len(), 10);
}

#[test]
fn batch_with_one_failure_keeps_the_others() {
    let urls: Vec<String> = vec!["http://a/1".into(), "http://unreachable/2".into(), "http://a/3".into()];
    let plan = prepare_batch(&urls, &BatchConfig::standard(), "out".to_string()).unwrap();
    assert_eq!(plan.worker.width, 1);
    let mut s = plan.scheduler;
    let known = DedupSet::new(vec![]);
    let mut workers: Vec<Worker> = plan.refs.into_iter().map(|r| Worker::new(r, 3)).collect();
    while let Some(i) = s.start_next() {
        let w = &mut workers[i];
        if w.url.contains("unreachable") {
            for _ in 0..3 {
                w.on_transport_error("no route".to_string());
            }
        } else {
            w.on_payload(&payload(&[0xFF, 0xD8, 0xFF], 2000), &plan.worker, &known);
            w.on_write_result(None);
        }
        match std::mem::replace(&mut w.state, WorkerState::Fetching) {
            WorkerState::Done { outcome } => s.complete(i, outcome),
            other => panic!("unexpected state {:?}", other),
        }
    }
    assert!(s.is_finished());
    let outcomes = s.into_outcomes();
    assert_eq!(outcomes.len(), 3);
    assert!(matches!(&outcomes[0], DownloadOutcome::Saved { path, .. } if path == "out/1.jpg"));
    assert!(matches!(&outcomes[1], DownloadOutcome::Failed { url, .. } if url == "http://unreachable/2"));
    assert!(matches!(&outcomes[2], DownloadOutcome::Saved { path, .. } if path == "out/3.jpg"));
    let sum = summarize(&outcomes);
    assert_eq!((sum.total, sum.saved, sum.skipped, sum.failed), (3, 2, 0, 1));
}

#[test]
fn summary_of_empty_batch() {
    let sum = summarize(&vec![]);
    assert_eq!((sum.total, sum.saved, sum.skipped, sum.failed), (0, 0, 0, 0));
}

#[test]
fn page_url_through_proxy() {
    assert_eq!(page_url("https://telegra.ph/abc", "https://p/"), "https://p/https://telegra.ph/abc");
    assert_eq!(page_url("https://example.com/x", "https://p/"), "https://example.com/x");
    assert_eq!(page_url("https://telegra", "https://p/"), "https://telegra");
}

#[test]
fn title_trims_unicode_white_space() {
    assert_eq!(extract_h1_title("<h1>\u{3000}Album\u{a0}</h1><h1>Second</h1>"), "Album");
    assert_eq!(extract_h1_title("<h1>  </h1>"), "");
}

#[test]
fn summary_counts_each_kind() {
    let outcomes = vec![
        DownloadOutcome::Saved { path: "p".to_string(), format: ImageFormat::Png, size: 2000, hash: "h1".to_string() },
        DownloadOutcome::Skipped { reason: SkipReason::AlreadyKnown },
        DownloadOutcome::Failed { url: "u".to_string(), last_error: FetchError::Undersized { size: 10 } },
        DownloadOutcome::Saved { path: "q".to_string(), format: ImageFormat::Gif, size: 3000, hash: "h2".to_string() },
    ];
    let sum = summarize(&outcomes);
    assert_eq!((sum.total, sum.saved, sum.skipped, sum.failed), (4, 2, 1, 1));
}

#[test]
fn folder_keeps_plain_titles_and_drops_illegal_characters() {
    assert_eq!(folder_path("Photos2024"), "./img/Photos2024");
    assert_eq!(folder_path("a?b<c>d\\e:f*g|h\"i"), "./img/abcdefghi");
    assert_eq!(folder_path("x\u{1}y\u{85}z"), "./img/xyz");
    assert_eq!(folder_path("..."), "./img/");
    let long = "a".repeat(300);
    assert_eq!(folder_path(&long).len(), 6 + 255);
}

#[test]
fn repeated_marker_is_stripped_once() {
    let html = "<img src='/proxy//proxy/a.jpg'>";
    assert_eq!(collect_image_urls(html, "https://p/x/"), vec!["https://p/x//proxy/a.jpg"]);
}
