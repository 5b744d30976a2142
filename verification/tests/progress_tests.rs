use cookbook_fetch::progress::PlainPtyCallback;

#[test]
fn new_callback_starts_empty() {
    let c = PlainPtyCallback::new();
    assert_eq!(c.size, 0);
    assert_eq!(c.pos, 0);
    assert!(!c.unknown_size);
    assert_eq!(c.fetch_processed, 0);
    assert_eq!(c.fetch_total, 0);
    assert!(!c.interactive);
    assert!(c.download_file.is_none());
}

#[test]
fn interactive_flag_is_set() {
    let mut c = PlainPtyCallback::new();
    c.set_interactive(true);
    assert!(c.interactive);
    c.set_interactive(false);
    assert!(!c.interactive);
}

#[test]
fn fetch_counts_and_lines() {
    let mut c = PlainPtyCallback::new();
    assert_eq!(c.fetch_start(12), "\r\x1b[2KFetching: [0/12]");
    assert_eq!(c.fetch_package_name("acid"), " acid");
    assert_eq!(c.fetch_package_increment(1, 0), "\r\x1b[2KFetching: [1/12]");
    assert_eq!(c.fetch_package_increment(10, 95), "\r\x1b[2KFetching: [11/107]");
    assert_eq!(c.fetch_end(), "\r\x1b[2KFetch incomplete.\n");
    assert_eq!(c.fetch_package_increment(96, 0), "\r\x1b[2KFetching: [107/107]");
    assert_eq!(c.fetch_end(), "\r\x1b[2KFetch complete.\n");
    assert_eq!(c.fetch_start(0), "\r\x1b[2KFetching: [0/0]");
    assert_eq!(c.fetch_end(), "\r\x1b[2KFetch complete.\n");
}

#[test]
fn known_size_download_reports_progress() {
    let mut c = PlainPtyCallback::new();
    assert_eq!(c.download_start(2048, "base.pkgar"), Some("\r\x1b[2KDownloading base.pkgar".to_string()));
    assert_eq!(c.download_file.as_deref(), Some("base.pkgar"));
    let p = c.download_increment(1000).unwrap();
    assert_eq!((p.pos, p.size, p.file_name.as_str()), (1000, 2048, "base.pkgar"));
    let p = c.download_increment(1048).unwrap();
    assert_eq!((p.pos, p.size), (2048, 2048));
    assert_eq!(c.download_end(), Some("\n".to_string()));
    assert!(c.download_file.is_none());
}

#[test]
fn unknown_size_download_counts_silently() {
    let mut c = PlainPtyCallback::new();
    assert_eq!(c.download_start(0, "repo.toml"), None);
    assert!(c.unknown_size);
    assert!(c.download_increment(300).is_none());
    assert!(c.download_increment(200).is_none());
    assert_eq!((c.pos, c.size), (500, 500));
    assert_eq!(c.download_end(), None);
}

#[test]
fn extract_line_names_the_package() {
    let c = PlainPtyCallback::new();
    assert_eq!(c.install_extract("orbital"), "Extracting orbital...\n");
}

#[test]
fn known_size_download_sequence() {
    let mut c = PlainPtyCallback::new();
    let _ = c.download_start(5_000_000, "big.pkgar");
    let mut sum = 0;
    for d in [1u64, 1_000_000, 0, 2_999_999] {
        sum += d;
        let p = c.download_increment(d).unwrap();
        assert_eq!((p.pos, p.size, p.file_name.as_str()), (sum, 5_000_000, "big.pkgar"));
        assert_eq!((c.pos, c.size), (sum, 5_000_000));
    }
}

#[test]
fn unknown_size_download_keeps_the_named_file() {
    let mut c = PlainPtyCallback::new();
    let _ = c.download_start(10, "first.toml");
    let _ = c.download_start(0, "second.toml");
    assert_eq!(c.download_file.as_deref(), Some("first.toml"));
    assert!(c.download_increment(7).is_none());
    assert_eq!((c.pos, c.size), (7, 7));
    assert_eq!(c.download_end(), None);
    assert_eq!(c.download_file.as_deref(), Some("first.toml"));
}
