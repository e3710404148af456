use java_updater::checksum::checksum;
use java_updater::config::{InstallationConfig, NotifyCommandConfig};
use java_updater::installation::{
    admission, decide, notify_commands, notify_expander, ControlAction, ControlEvent, Installation, LocalState, Outcome, Phase, Skip,
    UpdateError,
};
use java_updater::metadata::Metadata;
use java_updater::notify::NotifyKind;
use java_updater::package::{Action, Event, ProvisionError};
use java_updater::request::{candidate_index, choose_package_type, MetadataRequest, QueryError, RemotePackage};
use java_updater::scheduler::num_threads;
use java_updater::vars::{OsEnvVarResolver, VarError};
use java_updater::vendor::Vendor;
use java_updater::version::{decimal_text, SemVer};

fn semver(major: u64, minor: u64, patch: u64) -> SemVer {
    SemVer::new(major, minor, patch)
}

fn local(version: SemVer, checksum: &str) -> Option<Metadata> {
    Some(Metadata::new("eclipse", version, checksum))
}

fn remote(version: SemVer, checksum: &str) -> RemotePackage {
    RemotePackage { checksum: checksum.to_string(), url: "https://example.org/p.tar.gz".to_string(), version }
}

fn config() -> InstallationConfig {
    InstallationConfig {
        architecture: "x64".to_string(),
        directory: "/opt/jdk".to_string(),
        enabled: true,
        package_type: "jdk".to_string(),
        vendor: "eclipse".to_string(),
        version: "17".to_string(),
        on_failure: Vec::new(),
        on_success: Vec::new(),
        on_update: Vec::new(),
    }
}

fn installation(dry_run: bool) -> Installation {
    let mut i = Installation::from_config(&config(), Vendor::Eclipse, "/opt/jdk", "linux", "tar.gz", "bin/java");
    i.dry_run(dry_run);
    i
}

#[test]
fn same_version_other_checksum_updates() {
    assert!(decide(&local(semver(1, 0, 0), "X"), &remote(semver(1, 0, 0), "Y")));
}

#[test]
fn older_remote_same_checksum_does_not_update() {
    assert!(!decide(&local(semver(1, 0, 0), "X"), &remote(semver(0, 9, 0), "X")));
}

#[test]
fn newer_remote_updates() {
    assert!(decide(&local(semver(1, 0, 0), "X"), &remote(semver(1, 1, 0), "X")));
}

#[test]
fn missing_local_record_updates() {
    assert!(decide(&None, &remote(semver(1, 0, 0), "X")));
}

#[test]
fn up_to_date_record_is_left_alone() {
    let inst = installation(false);
    let (phase, action) = inst.step(
        Phase::Query { local: local(semver(1, 2, 3), "X") },
        ControlEvent::Queried(Ok(remote(semver(1, 2, 3), "X"))),
    );
    assert!(matches!(phase, Phase::Done));
    match action {
        ControlAction::Report(o) => {
            assert!(matches!(o, Outcome::Unchanged { .. }));
            assert_eq!(inst.report_line(&o), "Processed installation at /opt/jdk [1.2.3]");
            let plan = inst.notify_plan(&o);
            assert!(plan.on_success && !plan.on_update && !plan.on_failure);
        },
        other => panic!("unexpected {other:?}"),
    }
}

#[test]
fn first_run_downloads_extracts_and_records() {
    let payload = b"package bytes".to_vec();
    let sum = checksum(&payload);
    let inst = installation(false);
    let (phase, action) = inst.start();
    assert!(matches!(&action, ControlAction::LoadMetadata { file } if file == "/opt/jdk/.java-updater/meta"));
    let (phase, action) = inst.step(phase, ControlEvent::Loaded(LocalState::Missing));
    assert!(matches!(&action, ControlAction::Query(q) if q.version == "17" && q.arch == "x64"));
    let (phase, action) = inst.step(phase, ControlEvent::Queried(Ok(remote(semver(1, 2, 3), &sum))));
    let package = match action {
        ControlAction::Provide(p) => p,
        other => panic!("unexpected {other:?}"),
    };
    // the provisioning run
    let (stage, _) = package.provide();
    let mut step = package.step(stage, Event::Cached(None));
    let events = vec![
        Event::Fetched(payload.clone()),
        Event::Done,
        Event::Probed(true),
        Event::Done,
        Event::Done,
        Event::Marker(true),
        Event::Done,
        Event::Done,
        Event::Done,
    ];
    for e in events {
        step = package.step(step.0, e);
    }
    assert!(matches!(step.1, Action::Finish(Ok(()))));
    let (phase, action) = inst.step(phase, ControlEvent::Provided(Ok(())));
    match &action {
        ControlAction::SaveMetadata { dir, file, metadata } => {
            assert_eq!(dir, "/opt/jdk/.java-updater");
            assert_eq!(file, "/opt/jdk/.java-updater/meta");
            assert_eq!(metadata.vendor, "eclipse");
            assert_eq!(metadata.checksum, sum);
            assert_eq!(metadata.version.text(), "1.2.3");
            assert!(java_updater::metadata::default(&metadata.props));
        },
        other => panic!("unexpected {other:?}"),
    }
    let (phase, action) = inst.step(phase, ControlEvent::Saved(Ok(())));
    assert!(matches!(phase, Phase::Done));
    match action {
        ControlAction::Report(o) => {
            assert_eq!(inst.report_line(&o), "Processed installation at /opt/jdk [n/a -> 1.2.3]");
            let plan = inst.notify_plan(&o);
            assert!(plan.on_update && plan.on_success && !plan.on_failure);
        },
        other => panic!("unexpected {other:?}"),
    }
}

#[test]
fn dry_run_reports_without_providing() {
    let inst = installation(true);
    let (_, action) = inst.step(
        Phase::Query { local: local(semver(1, 0, 0), "X") },
        ControlEvent::Queried(Ok(remote(semver(1, 1, 0), "Y"))),
    );
    match action {
        ControlAction::Report(o) => {
            assert_eq!(inst.report_line(&o), "dry-run: NOT processing installation at /opt/jdk [1.0.0 -> 1.1.0]");
            let plan = inst.notify_plan(&o);
            assert!(!plan.on_update && !plan.on_success && !plan.on_failure);
        },
        other => panic!("unexpected {other:?}"),
    }
}

#[test]
fn foreign_record_fails_the_target() {
    let inst = installation(false);
    let md = Metadata::new("azul", semver(1, 0, 0), "X");
    let (phase, action) = inst.step(Phase::Load, ControlEvent::Loaded(LocalState::Found(md)));
    assert!(matches!(phase, Phase::Done));
    match action {
        ControlAction::Report(o) => {
            assert!(matches!(&o, Outcome::Failed { old: None, error: UpdateError::VendorMismatch { expected: Vendor::Eclipse, found } } if found == "azul"));
            assert_eq!(inst.report_line(&o), "Failed to process installation at /opt/jdk!");
            assert!(inst.notify_plan(&o).on_failure);
        },
        other => panic!("unexpected {other:?}"),
    }
    let (_, action) = inst.step(Phase::Load, ControlEvent::Loaded(LocalState::Malformed("bad yaml".to_string())));
    assert!(matches!(action, ControlAction::Report(Outcome::Failed { error: UpdateError::Parse(_), .. })));
}

#[test]
fn busy_installation_fails_with_old_version() {
    let inst = installation(false);
    let (_, action) = inst.step(
        Phase::Provide { local: local(semver(1, 0, 0), "X"), remote: remote(semver(1, 1, 0), "Y") },
        ControlEvent::Provided(Err(ProvisionError::InstallationBusy)),
    );
    match action {
        ControlAction::Report(Outcome::Failed { old: Some(v), error }) => {
            assert_eq!(v.text(), "1.0.0");
            assert_eq!(error.text(), "installation is still in use");
        },
        other => panic!("unexpected {other:?}"),
    }
}

#[test]
fn notify_commands_get_run_variables() {
    let inst = installation(false);
    let vars = inst.notification_vars(&Some(semver(1, 0, 0)), &Some(semver(1, 1, 0)), &None);
    let names: Vec<&str> = vars.iter().map(|(k, _)| k.as_str()).collect();
    assert_eq!(
        names,
        vec!["JU_ARCH", "JU_DIRECTORY", "JU_NEW_VERSION", "JU_OLD_VERSION", "JU_TYPE", "JU_VENDOR_ID", "JU_VENDOR_NAME"]
    );
    assert_eq!(vars[2].1, "1.1.0");
    let configs = vec![NotifyCommandConfig {
        path: "/usr/bin/notify".to_string(),
        args: vec!["${env.JU_VENDOR_NAME} ${env.JU_NEW_VERSION}".to_string(), "${env.HOME}".to_string()],
        directory: Some("${env.JU_DIRECTORY}".to_string()),
    }];
    let commands = notify_commands(&configs, NotifyKind::Success, &vars);
    let env = OsEnvVarResolver::from_vars(vec![("HOME".to_string(), "/home/me".to_string())]);
    let expander = notify_expander(&vars, env);
    let line = commands[0].prepare(&expander).unwrap();
    assert_eq!(line.path, "/usr/bin/notify");
    assert_eq!(line.args, vec!["Eclipse 1.1.0".to_string(), "/home/me".to_string()]);
    assert_eq!(line.directory, Some("/opt/jdk".to_string()));
    assert_eq!(line.env.len(), 7);
}

#[test]
fn notify_command_with_unknown_variable_fails() {
    let inst = installation(false);
    let vars = inst.notification_vars(&None, &None, &Some("boom".to_string()));
    assert_eq!(vars[1], ("JU_ERROR".to_string(), "boom".to_string()));
    let configs = vec![NotifyCommandConfig { path: "${env.NOPE}".to_string(), args: Vec::new(), directory: None }];
    let commands = notify_commands(&configs, NotifyKind::Failure, &vars);
    let expander = notify_expander(&vars, OsEnvVarResolver::from_vars(Vec::new()));
    assert!(matches!(commands[0].prepare(&expander), Err(VarError::NotPresent(n)) if n == "env.NOPE"));
}

#[test]
fn vendor_ids_and_names() {
    assert_eq!(Vendor::Azul.id(), "azul");
    assert_eq!(Vendor::Eclipse.name(), "Eclipse");
    assert!(matches!(Vendor::try_from("  AZUL "), Ok(Vendor::Azul)));
    assert!(matches!(Vendor::try_from("Eclipse"), Ok(Vendor::Eclipse)));
    assert!(Vendor::try_from("oracle").is_err());
}

#[test]
fn request_defaults() {
    let blank = MetadataRequest { arch: " ".to_string(), os: String::new(), package_type: String::new(), version: "".to_string() };
    assert_eq!(blank.arch("x86_64"), "x86_64");
    assert_eq!(blank.os("linux"), "linux");
    assert_eq!(blank.package_type(), "jdk");
    assert_eq!(blank.version(), "17");
    let set = MetadataRequest { arch: " AARCH64 ".to_string(), os: "Windows".to_string(), package_type: " JRE".to_string(), version: "21 ".to_string() };
    assert_eq!(set.arch("x86_64"), "aarch64");
    assert_eq!(set.os("linux"), "windows");
    assert_eq!(set.package_type(), "jre");
    assert_eq!(set.version(), "21");
    let odd = MetadataRequest { arch: String::new(), os: String::new(), package_type: "server".to_string(), version: String::new() };
    assert_eq!(odd.package_type(), "jdk");
}

#[test]
fn candidates_must_be_unambiguous() {
    assert_eq!(candidate_index(1).unwrap(), 0);
    assert!(matches!(candidate_index(2), Err(QueryError::Ambiguous(2))));
    assert!(matches!(candidate_index(0), Err(QueryError::Ambiguous(0))));
    assert!(matches!(candidate_index(3), Err(QueryError::Ambiguous(3))));
}

#[test]
fn version_text_and_order() {
    let v = SemVer { major: 17, minor: 0, patch: 12, pre: "rc.1".to_string(), build: "b7".to_string() };
    assert_eq!(v.text(), "17.0.12-rc.1+b7");
    assert_eq!(decimal_text(0), "0");
    assert_eq!(decimal_text(18446744073709551615), "18446744073709551615");
    let release = semver(17, 0, 12);
    assert!(release.greater_than(&v));
    assert!(!v.greater_than(&release));
    assert!(semver(2, 0, 0).greater_than(&semver(1, 9, 9)));
    assert!(!semver(1, 0, 0).greater_than(&semver(1, 0, 0)));
}

#[test]
fn worker_count() {
    assert_eq!(num_threads(None, 4), 8);
    assert_eq!(num_threads(None, 0), 2);
    assert_eq!(num_threads(Some(0), 4), 1);
    assert_eq!(num_threads(Some(3), 4), 3);
    assert_eq!(num_threads(Some(100), 4), 8);
}

#[test]
fn installations_are_enabled_by_default() {
    assert!(java_updater::config::installation_enabled_default());
}

#[test]
fn empty_properties_are_the_default() {
    let mut md = Metadata::new("whatever", semver(1, 2, 3), "abcd");
    assert!(java_updater::metadata::default(&md.props));
    md.props.push(("k".to_string(), "v".to_string()));
    assert!(!java_updater::metadata::default(&md.props));
}

#[test]
fn error_messages() {
    assert_eq!(UpdateError::Query("offline".to_string()).text(), "query failed: offline");
    assert_eq!(UpdateError::Provision(ProvisionError::ChecksumMismatch).text(), "checksums differ");
    assert_eq!(
        UpdateError::VendorMismatch { expected: Vendor::Eclipse, found: "azul".to_string() }.text(),
        "vendors differ (expected: eclipse, got: azul)"
    );
}

#[test]
fn program_version_line() {
    let v = java_updater::version::Version {
        pkg_name: "java-updater".to_string(),
        pkg_version: "1.0.0".to_string(),
        git_describe: "v1.0.0-3-gabc".to_string(),
        rustc_semver: "1.80.0".to_string(),
    };
    assert_eq!(v.text(), "java-updater 1.0.0 (git/v1.0.0-3-gabc) (rustc/1.80.0)");
}

#[test]
fn disabled_and_unknown_targets_are_skipped() {
    let mut c = config();
    assert!(matches!(admission(&c), Ok(Vendor::Eclipse)));
    c.vendor = "Oracle".to_string();
    assert!(matches!(admission(&c), Err(Skip::UnsupportedVendor)));
    c.enabled = false;
    assert!(matches!(admission(&c), Err(Skip::Disabled)));
}

#[test]
fn failure_notifications_carry_old_version_and_error() {
    let inst = installation(false);
    let outcome = Outcome::Failed { old: Some(semver(1, 0, 0)), error: UpdateError::Query("offline".to_string()) };
    let vars = inst.outcome_vars(&outcome);
    assert_eq!(vars[1], ("JU_ERROR".to_string(), "query failed: offline".to_string()));
    assert!(vars.contains(&("JU_OLD_VERSION".to_string(), "1.0.0".to_string())));
    assert!(!vars.iter().any(|(k, _)| k == "JU_NEW_VERSION"));
}

#[test]
fn vendor_from_exact_id() {
    assert!(matches!(Vendor::from_id("azul"), Some(Vendor::Azul)));
    assert!(matches!(Vendor::from_id("eclipse"), Some(Vendor::Eclipse)));
    assert!(Vendor::from_id("Azul").is_none());
    assert!(Vendor::from_id(" azul").is_none());
}

#[test]
fn package_type_choice() {
    assert_eq!(choose_package_type("jre"), "jre");
    assert_eq!(choose_package_type("jdk"), "jdk");
    assert_eq!(choose_package_type("JRE"), "jdk");
    assert_eq!(choose_package_type("server"), "jdk");
}

#[test]
fn processing_line_names_starting_version() {
    let inst = installation(false);
    assert_eq!(inst.processing_line(&LocalState::Missing), "Processing installation at /opt/jdk [n/a]");
    let found = LocalState::Found(Metadata::new("eclipse", semver(17, 0, 2), "X"));
    assert_eq!(inst.processing_line(&found), "Processing installation at /opt/jdk [17.0.2]");
    let foreign = LocalState::Found(Metadata::new("azul", semver(17, 0, 2), "X"));
    assert_eq!(inst.processing_line(&foreign), "Processing installation at /opt/jdk [n/a]");
    assert_eq!(inst.processing_line(&LocalState::Malformed("bad".to_string())), "Processing installation at /opt/jdk [n/a]");
}

#[test]
fn unicode_white_space_is_trimmed() {
    assert!(matches!(Vendor::try_from("\u{3000}\tEclipse\u{a0}\n"), Ok(Vendor::Eclipse)));
    let r = MetadataRequest { arch: "\u{2003}".to_string(), os: String::new(), package_type: String::new(), version: " 21\u{85}".to_string() };
    assert_eq!(r.arch("x86_64"), "x86_64");
    assert_eq!(r.version(), "21");
}
