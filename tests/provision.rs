use java_updater::archive::{entry_action, EntryAction};
use java_updater::checksum::checksum;
use java_updater::package::{keeps_entry, Action, Event, Package, ProvisionError, Stage};

const ABC_SHA256: &str = "ba7816bf8f01cfea414140de5dae2223b00361a396177a9cb410ff61f20015ad";

fn package(expected: &str) -> Package {
    Package::new("/opt/jdk", "tar.gz", "https://example.org/jdk.tar.gz", expected, "bin/java")
}

#[test]
fn checksum_is_lowercase_sha256_hex() {
    assert_eq!(checksum(b"abc"), ABC_SHA256);
    assert_eq!(checksum(b""), "e3b0c44298fc1c149afbf4c8996fb92427ae41e4649b934ca495991b7852b855");
}

#[test]
fn first_action_checks_the_cache() {
    let (stage, action) = package(ABC_SHA256).provide();
    assert!(matches!(stage, Stage::CheckCache));
    match action {
        Action::HashCached { archive } => assert_eq!(archive, format!("/opt/jdk/.java-updater/{ABC_SHA256}.tar.gz")),
        other => panic!("unexpected {other:?}"),
    }
}

#[test]
fn matching_cache_skips_download() {
    let p = package(ABC_SHA256);
    let (stage, action) = p.step(Stage::CheckCache, Event::Cached(Some(b"abc".to_vec())));
    assert!(matches!(stage, Stage::Probe));
    match action {
        Action::ProbeBusy { lib, renamed } => {
            assert_eq!(lib, "/opt/jdk/lib");
            assert_eq!(renamed, format!("/opt/jdk/lib.{ABC_SHA256}"));
        },
        other => panic!("unexpected {other:?}"),
    }
}

#[test]
fn stale_cache_downloads() {
    let p = package(ABC_SHA256);
    let (stage, action) = p.step(Stage::CheckCache, Event::Cached(Some(b"abd".to_vec())));
    assert!(matches!(stage, Stage::Download));
    match action {
        Action::Download { url, archive } => {
            assert_eq!(url, "https://example.org/jdk.tar.gz");
            assert_eq!(archive, format!("/opt/jdk/.java-updater/{ABC_SHA256}.tar.gz"));
        },
        other => panic!("unexpected {other:?}"),
    }
    let (stage, _) = p.step(Stage::CheckCache, Event::Cached(None));
    assert!(matches!(stage, Stage::Download));
}

#[test]
fn mismatching_download_fails() {
    let p = package(ABC_SHA256);
    let (stage, action) = p.step(Stage::Download, Event::Fetched(b"not abc".to_vec()));
    assert!(matches!(stage, Stage::Finished));
    assert!(matches!(action, Action::Finish(Err(ProvisionError::ChecksumMismatch))));
}

#[test]
fn expected_checksum_compares_without_case() {
    let p = package(&ABC_SHA256.to_uppercase());
    let (stage, action) = p.step(Stage::Download, Event::Fetched(b"abc".to_vec()));
    assert!(matches!(stage, Stage::StoreArchive));
    match action {
        Action::StoreArchive { bytes, .. } => assert_eq!(bytes, b"abc".to_vec()),
        other => panic!("unexpected {other:?}"),
    }
}

#[test]
fn busy_probe_fails_the_run() {
    let p = package(ABC_SHA256);
    let (stage, action) = p.step(Stage::Probe, Event::Probed(false));
    assert!(matches!(stage, Stage::Finished));
    assert!(matches!(action, Action::Finish(Err(ProvisionError::InstallationBusy))));
    let (stage, action) = p.step(stage, Event::Done);
    assert!(matches!(stage, Stage::Finished));
    assert!(matches!(action, Action::Idle));
}

#[test]
fn missing_marker_fails_before_swap() {
    let p = package(ABC_SHA256);
    let (stage, action) = p.step(Stage::CheckMarker, Event::Marker(false));
    assert!(matches!(stage, Stage::Finished));
    assert!(matches!(action, Action::Finish(Err(ProvisionError::IntegrityError))));
}

#[test]
fn network_failure_is_reported() {
    let p = package(ABC_SHA256);
    let (_, action) = p.step(Stage::Download, Event::Failed("timeout".to_string()));
    assert!(matches!(action, Action::Finish(Err(ProvisionError::Network(m))) if m == "timeout"));
    let (_, action) = p.step(Stage::Probe, Event::Done);
    assert!(matches!(action, Action::Finish(Err(ProvisionError::UnexpectedEvent))));
}

#[test]
fn full_provisioning_run() {
    let p = package(ABC_SHA256);
    let staging = format!("/opt/jdk/.java-updater/{ABC_SHA256}");
    let (stage, _) = p.provide();
    let (stage, _) = p.step(stage, Event::Cached(None));
    let (stage, action) = p.step(stage, Event::Fetched(b"abc".to_vec()));
    assert!(matches!(action, Action::StoreArchive { .. }));
    let (stage, action) = p.step(stage, Event::Done);
    assert!(matches!(action, Action::ProbeBusy { .. }));
    let (stage, action) = p.step(stage, Event::Probed(true));
    assert!(matches!(&action, Action::ClearStaging { staging: s } if *s == staging));
    let (stage, action) = p.step(stage, Event::Done);
    assert!(matches!(action, Action::Extract { .. }));
    let (stage, action) = p.step(stage, Event::Done);
    assert!(matches!(&action, Action::CheckMarker { marker } if *marker == format!("{staging}/bin/java")));
    let (stage, action) = p.step(stage, Event::Marker(true));
    assert!(matches!(&action, Action::ClearTarget { target } if target == "/opt/jdk"));
    let (stage, action) = p.step(stage, Event::Done);
    assert!(matches!(action, Action::MoveIn { .. }));
    let (stage, action) = p.step(stage, Event::Done);
    assert!(matches!(action, Action::RemoveStaging { .. }));
    let (stage, action) = p.step(stage, Event::Failed("cannot remove".to_string()));
    assert!(matches!(stage, Stage::Finished));
    assert!(matches!(action, Action::Finish(Ok(()))));
}

#[test]
fn clearing_keeps_only_the_metadata_directory() {
    assert!(keeps_entry(".java-updater"));
    assert!(!keeps_entry("lib"));
    assert!(!keeps_entry(".java-updater2"));
}

#[test]
fn wrapper_directory_is_stripped() {
    match entry_action("/s", "X/bin/tool", false) {
        EntryAction::File(f) => assert_eq!(f, "/s/bin/tool"),
        other => panic!("unexpected {other:?}"),
    }
    match entry_action("/s", "./jdk-17//lib/./modules", false) {
        EntryAction::File(f) => assert_eq!(f, "/s/lib/modules"),
        other => panic!("unexpected {other:?}"),
    }
    match entry_action("/s", "X/bin/", true) {
        EntryAction::Dir(d) => assert_eq!(d, "/s/bin"),
        other => panic!("unexpected {other:?}"),
    }
}

#[test]
fn unsafe_names_are_skipped() {
    assert!(matches!(entry_action("/s", "../evil", false), EntryAction::Unsafe));
    assert!(matches!(entry_action("/s", "X/../../etc/passwd", false), EntryAction::Unsafe));
    assert!(matches!(entry_action("/s", "/etc/passwd", false), EntryAction::Unsafe));
    assert!(matches!(entry_action("/s", "C:\\Windows\\x", false), EntryAction::Unsafe));
    assert!(matches!(entry_action("/s", "X\\..\\y", false), EntryAction::Unsafe));
    assert!(matches!(entry_action("/s", "d:/bin/tool", false), EntryAction::Unsafe));
}

#[test]
fn shallow_entries_are_skipped() {
    assert!(matches!(entry_action("/s", "X/", true), EntryAction::Shallow { anomalous: false }));
    assert!(matches!(entry_action("/s", "README", false), EntryAction::Shallow { anomalous: true }));
    assert!(matches!(entry_action("/s", "", false), EntryAction::Shallow { anomalous: true }));
}

#[test]
fn colon_after_a_non_letter_is_no_drive() {
    match entry_action("/s", "1:x/bin/tool", false) {
        EntryAction::File(f) => assert_eq!(f, "/s/bin/tool"),
        other => panic!("unexpected {other:?}"),
    }
}
