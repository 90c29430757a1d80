use ptd_launcher::config::AppConfig;
use ptd_launcher::flash::{after_primary_attempt, plan_flash_download, DownloadProgress, NextAttempt};
use ptd_launcher::platform::Platform;
use ptd_launcher::ruffle::{
    archive_name, archive_unpack, choose_ruffle_source, select_nightly, RuffleAsset, RuffleRelease,
    RuffleSource,
};
use ptd_launcher::transfer::{Transfer, Unpack, MAX_DOWNLOAD_SIZE};

#[test]
fn size_limit_is_500_mib() {
    assert_eq!(MAX_DOWNLOAD_SIZE, 500 * 1024 * 1024);
}

#[test]
fn transfer_refuses_announced_oversize() {
    assert_eq!(
        Transfer::start(MAX_DOWNLOAD_SIZE + 1, Some(MAX_DOWNLOAD_SIZE)).err(),
        Some("Remote file too large: 524288001 bytes".to_string())
    );
    assert!(Transfer::start(MAX_DOWNLOAD_SIZE, Some(MAX_DOWNLOAD_SIZE)).is_ok());
    assert!(Transfer::start(u64::MAX, None).is_ok());
}

#[test]
fn transfer_counts_chunks_and_stops_past_limit() {
    let mut t = Transfer::start(0, Some(10)).unwrap();
    assert_eq!(t.record_chunk(6), Ok(()));
    assert_eq!(t.record_chunk(4), Ok(()));
    assert_eq!(t.downloaded, 10);
    assert_eq!(t.record_chunk(1), Err("Download exceeded maximum allowed size".to_string()));
    let mut u = Transfer::start(100, None).unwrap();
    assert_eq!(u.record_chunk(1 << 40), Ok(()));
    assert_eq!(u.downloaded, 1 << 40);
    assert_eq!(u.total, 100);
}

#[test]
fn progress_events() {
    let p = DownloadProgress::starting("flash_player");
    assert_eq!((p.item.as_str(), p.progress, p.status.as_str()), ("flash_player", 0, "Starting download..."));
    let p = DownloadProgress::complete("PTD1");
    assert_eq!((p.progress, p.status.as_str()), (100, "Download complete"));
    let mut t = Transfer::start(50, None).unwrap();
    t.record_chunk(25).unwrap();
    let p = DownloadProgress::downloading("ruffle", 50, &t);
    assert_eq!((p.downloaded, p.total, p.status.as_str()), (25, 50, "Downloading..."));
    let p = DownloadProgress::status("flash_player", 0, "Primary failed, trying fallback...");
    assert_eq!(p.status, "Primary failed, trying fallback...");
    let r = ptd_launcher::ruffle::DownloadProgress::status(0, "Fetching latest nightly...".to_string());
    assert_eq!((r.item.as_str(), r.status.as_str()), ("ruffle", "Fetching latest nightly..."));
}

#[test]
fn flash_plan_per_platform() {
    let c = AppConfig::default();
    let l = plan_flash_download(&c, Platform::Linux);
    assert_eq!(l.download_name, "flash_player.tar.gz");
    assert_eq!(l.unpack, Unpack::TarGz);
    assert_eq!(l.program_name, "flashplayer");
    assert!(l.make_executable);
    assert!(l.fallback_url.is_some());
    let m = plan_flash_download(&c, Platform::MacOs);
    assert_eq!(m.download_name, "flash_player.dmg");
    assert_eq!(m.unpack, Unpack::Dmg);
    assert_eq!(m.fallback_url, None);
    assert!(!m.make_executable);
    let w = plan_flash_download(&c, Platform::Windows);
    assert_eq!(w.download_name, "flashplayer_sa.exe");
    assert_eq!(w.unpack, Unpack::Keep);
    assert_eq!(w.primary_url, "https://www.flash.cn/cdm/latest/flashplayer_sa.exe");
}

#[test]
fn fallback_after_failed_primary() {
    assert!(matches!(after_primary_attempt(Ok(()), &Some("f".to_string())), NextAttempt::Done));
    match after_primary_attempt(Err("HTTP error: 404".to_string()), &Some("f".to_string())) {
        NextAttempt::TryFallback(u) => assert_eq!(u, "f"),
        _ => panic!("expected the fallback"),
    }
    match after_primary_attempt(Err("HTTP error: 404".to_string()), &None) {
        NextAttempt::Fail(e) => assert_eq!(e, "HTTP error: 404"),
        _ => panic!("expected failure"),
    }
}

fn asset(name: &str, url: &str) -> RuffleAsset {
    RuffleAsset { name: name.to_string(), browser_download_url: url.to_string() }
}

fn releases() -> Vec<RuffleRelease> {
    vec![
        RuffleRelease {
            tag_name: "nightly-2025-03-12".to_string(),
            assets: vec![
                asset("ruffle-nightly-2025_03_12-web-extension-linux-x86_64.tar.gz", "ext"),
                asset("ruffle-nightly-2025_03_12-linux-x86_64.tar.gz", "linux"),
                asset("ruffle-nightly-2025_03_12-windows-x86_64.zip", "windows"),
            ],
        },
        RuffleRelease {
            tag_name: "nightly-2025-03-11".to_string(),
            assets: vec![asset("ruffle-nightly-2025_03_11-macos-universal.tar.gz", "old-mac")],
        },
    ]
}

#[test]
fn nightly_selection() {
    let l = select_nightly(&releases(), Platform::Linux).unwrap();
    assert_eq!((l.url.as_str(), l.filename.as_str(), l.version_tag.as_str()), ("linux", "ruffle", "nightly-2025-03-12"));
    let w = select_nightly(&releases(), Platform::Windows).unwrap();
    assert_eq!((w.url.as_str(), w.filename.as_str()), ("windows", "ruffle.exe"));
}

#[test]
fn nightly_selection_errors() {
    assert_eq!(
        select_nightly(&releases(), Platform::MacOs).err(),
        Some("No asset found for target: macos-universal.tar.gz".to_string())
    );
    assert_eq!(select_nightly(&vec![], Platform::Linux).err(), Some("No releases found".to_string()));
}

#[test]
fn ruffle_source_falls_back_to_config() {
    let c = AppConfig::default();
    let (src, msg) = choose_ruffle_source(Err("GitHub API error: 403".to_string()), &c, Platform::Linux);
    assert_eq!(src.url, "https://github.com/ruffle-rs/ruffle/releases/download/v0.3.0/ruffle-0.3.0-linux-x86_64.tar.gz");
    assert_eq!(src.filename, "ruffle");
    assert_eq!(src.version_tag, "fallback");
    assert_eq!(msg, Some("Failed to fetch latest: GitHub API error: 403. Using fallback...".to_string()));
    let n = RuffleSource { url: "u".to_string(), filename: "f".to_string(), version_tag: "t".to_string() };
    let (src, msg) = choose_ruffle_source(Ok(n), &c, Platform::Linux);
    assert_eq!((src.url.as_str(), src.version_tag.as_str(), msg), ("u", "t", None));
}

#[test]
fn archive_names_and_formats() {
    assert_eq!(
        archive_name("https://github.com/ruffle-rs/ruffle/releases/download/v0.3.0/ruffle-0.3.0-windows-x86_64.zip"),
        "ruffle-0.3.0-windows-x86_64.zip"
    );
    assert_eq!(archive_name("plain"), "plain");
    assert_eq!(archive_name("https://x/"), "");
    assert_eq!(archive_unpack("a.zip"), Ok(Unpack::Zip));
    assert_eq!(archive_unpack("a.tar.gz"), Ok(Unpack::TarGz));
    assert_eq!(archive_unpack("a.dmg"), Err("Unsupported archive format: a.dmg".to_string()));
}

#[test]
fn fallback_and_nightly_status_events() {
    let p = DownloadProgress::trying_fallback("flash_player");
    assert_eq!(
        (p.item.as_str(), p.progress, p.downloaded, p.total, p.status.as_str()),
        ("flash_player", 0, 0, 0, "Primary failed, trying fallback...")
    );
    let r = ptd_launcher::ruffle::DownloadProgress::fetching_nightly();
    assert_eq!(
        (r.item.as_str(), r.progress, r.downloaded, r.total, r.status.as_str()),
        ("ruffle", 0, 0, 0, "Fetching latest nightly...")
    );
}

#[test]
fn flash_download_and_program_paths() {
    let c = AppConfig::default();
    let l = plan_flash_download(&c, Platform::Linux);
    assert_eq!(l.download_path("/data/Flash"), "/data/Flash/flash_player.tar.gz");
    assert_eq!(l.program_path("/data/Flash"), "/data/Flash/flashplayer");
    assert_eq!(l.program_path("/data/Flash/"), "/data/Flash/flashplayer");
}

#[test]
fn ruffle_archive_and_program_paths() {
    let c = AppConfig::default();
    let (src, _) = choose_ruffle_source(Err("offline".to_string()), &c, Platform::Linux);
    assert_eq!(src.archive_path("/data/Ruffle"), "/data/Ruffle/ruffle-0.3.0-linux-x86_64.tar.gz");
    assert_eq!(src.program_path("/data/Ruffle"), "/data/Ruffle/ruffle");
}
