//! The per-target controller: load the local record, query the vendor, decide, provide
//! the package and persist the new record.
//!
//! As with provisioning, the controller is a state machine: `Installation::start` gives
//! the first action, and `Installation::step` takes the outcome of each action as an
//! event and gives the next phase and action, until `ControlAction::Report`.

use crate::config::{InstallationConfig, NotifyCommandConfig};
use crate::notify::{opt_view, strings_view, NotifyCommand, NotifyKind};
use crate::vars::{pairs_view, OsEnvVarResolver, PrefixedVarResolver, ResolverModel, SimpleVarResolver, VarExpander, VarResolver};
use crate::metadata::{Metadata, MetadataModel};
use crate::package::{child, Package, ProvisionError, METADATA_DIR, METADATA_FILE};
use crate::request::{MetadataRequest, RemotePackage};
use crate::vendor::Vendor;
use crate::text::{lower_of, trimmed};
use crate::version::{precedes, version_text, SemVer, SemVerModel};
use vstd::prelude::*;
use vstd::string::*;

verus! {

/// What loading the local record gave.
#[derive(Debug)]
pub enum LocalState {
    /// There is no record: nothing is installed yet.
    Missing,
    /// The record cannot be read or parsed, with the message.
    Malformed(String),
    /// The record.
    Found(Metadata),
}

/// Why a target's run failed.
#[derive(Debug)]
pub enum UpdateError {
    /// The local record is malformed.
    Parse(String),
    /// The local record belongs to another vendor than the installation's.
    VendorMismatch { expected: Vendor, found: String },
    /// The query for the latest release failed.
    Query(String),
    /// Providing the package failed.
    Provision(ProvisionError),
    /// Saving the new record failed.
    Save(String),
    /// An event came that the phase does not expect.
    UnexpectedEvent,
}

/// How a target's run ended.
#[derive(Debug)]
pub enum Outcome {
    /// A new package was needed: installed, or in a dry run only found.
    Changed { old: Option<SemVer>, new: SemVer, applied: bool },
    /// The installation is up to date.
    Unchanged { version: SemVer },
    /// The run failed.
    Failed { old: Option<SemVer>, error: UpdateError },
}

/// The model of an outcome.
pub enum OutcomeModel {
    Changed(Option<SemVerModel>, SemVerModel, bool),
    Unchanged(SemVerModel),
    Failed(Option<SemVerModel>, UpdateError),
}

/// The outcome of an action, handed back by the caller.
#[derive(Debug)]
pub enum ControlEvent {
    Loaded(LocalState),
    Queried(Result<RemotePackage, String>),
    Provided(Result<(), ProvisionError>),
    Saved(Result<(), String>),
}

/// Where a target's run stands.
#[derive(Debug)]
pub enum Phase {
    Load,
    Query { local: Option<Metadata> },
    Provide { local: Option<Metadata>, remote: RemotePackage },
    Persist { local: Option<Metadata>, remote: RemotePackage },
    Done,
}

/// The model of a release: checksum, download location, version.
pub type RemoteModel = (Seq<char>, Seq<char>, SemVerModel);

/// The model of a phase.
pub enum PhaseModel {
    Load,
    Query(Option<MetadataModel>),
    Provide(Option<MetadataModel>, RemoteModel),
    Persist(Option<MetadataModel>, RemoteModel),
    Done,
}

/// What the caller is to do next.
#[derive(Debug)]
pub enum ControlAction {
    /// Load the record from this file: `Loaded`.
    LoadMetadata { file: String },
    /// Ask the vendor for its latest release: `Queried`.
    Query(MetadataRequest),
    /// Run the provisioning of this package to its end: `Provided`.
    Provide(Package),
    /// Create `dir` if needed and write the record to `file`: `Saved`.
    SaveMetadata { dir: String, file: String, metadata: Metadata },
    /// The run is over; report the outcome.
    Report(Outcome),
    /// Nothing more to do.
    Idle,
}

/// The model of an action; a package by target, extension, url, checksum and executable.
pub enum ControlActionModel {
    LoadMetadata(Seq<char>),
    Query(Seq<char>, Seq<char>, Seq<char>, Seq<char>),
    Provide(Seq<char>, Seq<char>, Seq<char>, Seq<char>, Seq<char>),
    SaveMetadata(Seq<char>, Seq<char>, MetadataModel),
    Report(OutcomeModel),
    Idle,
}

pub open spec fn opt_version(m: Option<MetadataModel>) -> Option<SemVerModel> {
    match m {
        Some(m) => Some(m.1),
        None => None,
    }
}

pub open spec fn opt_model(m: Option<Metadata>) -> Option<MetadataModel> {
    match m {
        Some(m) => Some(m.view()),
        None => None,
    }
}

impl RemotePackage {
    pub open spec fn view(&self) -> RemoteModel {
        (self.checksum@, self.url@, self.version.view())
    }
}

impl Outcome {
    pub open spec fn view(&self) -> OutcomeModel {
        match self {
            Outcome::Changed { old, new, applied } => OutcomeModel::Changed(
                match old { Some(v) => Some(v.view()), None => None },
                new.view(),
                *applied,
            ),
            Outcome::Unchanged { version } => OutcomeModel::Unchanged(version.view()),
            Outcome::Failed { old, error } => OutcomeModel::Failed(
                match old { Some(v) => Some(v.view()), None => None },
                *error,
            ),
        }
    }
}

impl Phase {
    pub open spec fn view(&self) -> PhaseModel {
        match self {
            Phase::Load => PhaseModel::Load,
            Phase::Query { local } => PhaseModel::Query(opt_model(*local)),
            Phase::Provide { local, remote } => PhaseModel::Provide(opt_model(*local), remote.view()),
            Phase::Persist { local, remote } => PhaseModel::Persist(opt_model(*local), remote.view()),
            Phase::Done => PhaseModel::Done,
        }
    }
}

impl ControlAction {
    pub open spec fn view(&self) -> ControlActionModel {
        match self {
            ControlAction::LoadMetadata { file } => ControlActionModel::LoadMetadata(file@),
            ControlAction::Query(q) => ControlActionModel::Query(q.arch@, q.os@, q.package_type@, q.version@),
            ControlAction::Provide(p) => ControlActionModel::Provide(p.target(), p.ext(), p.url(), p.checksum(), p.executable()),
            ControlAction::SaveMetadata { dir, file, metadata } => ControlActionModel::SaveMetadata(dir@, file@, metadata.view()),
            ControlAction::Report(o) => ControlActionModel::Report(o.view()),
            ControlAction::Idle => ControlActionModel::Idle,
        }
    }
}

/// The decision rule: an update is needed where nothing is installed, where the remote
/// version has precedence over the local one, or else where the checksums differ (a
/// package published again under the same version).
pub open spec fn needs_update(local: Option<MetadataModel>, remote: RemoteModel) -> bool {
    match local {
        None => true,
        Some(m) => precedes(remote.2, m.1) || remote.0 != m.2,
    }
}

/// Whether `remote` is to be installed over `local`.
pub fn decide(local: &Option<Metadata>, remote: &RemotePackage) -> (r: bool)
    ensures
        r == needs_update(opt_model(*local), remote.view()),
{
    match local {
        None => true,
        Some(m) => if remote.version.greater_than(&m.version) {
            true
        } else {
            !(remote.checksum == m.checksum)
        },
    }
}

/// Everything needed to keep one target up to date.
#[derive(Debug)]
pub struct Installation {
    arch: String,
    os: String,
    package_type: String,
    path: String,
    vendor: Vendor,
    version: String,
    ext: String,
    executable: String,
    dry_run: bool,
}

impl Installation {
    pub closed spec fn arch(&self) -> Seq<char> { self.arch@ }
    pub closed spec fn os(&self) -> Seq<char> { self.os@ }
    pub closed spec fn package_type(&self) -> Seq<char> { self.package_type@ }
    pub closed spec fn path(&self) -> Seq<char> { self.path@ }
    pub closed spec fn vendor(&self) -> Vendor { self.vendor }
    pub closed spec fn version(&self) -> Seq<char> { self.version@ }
    pub closed spec fn ext(&self) -> Seq<char> { self.ext@ }
    pub closed spec fn executable(&self) -> Seq<char> { self.executable@ }
    pub closed spec fn is_dry_run(&self) -> bool { self.dry_run }

    /// The installation that `config` describes for `vendor`, at the resolved directory
    /// `path`, on the operating system `os`, with packages of extension `ext` whose
    /// runtime executable stands at `executable`. It is not a dry run.
    pub fn from_config(config: &InstallationConfig, vendor: Vendor, path: &str, os: &str, ext: &str, executable: &str) -> (r: Self)
        ensures
            r.arch() == config.architecture@,
            r.os() == os@,
            r.package_type() == config.package_type@,
            r.path() == path@,
            r.vendor() == vendor,
            r.version() == config.version@,
            r.ext() == ext@,
            r.executable() == executable@,
            !r.is_dry_run(),
    {
        Installation {
            arch: config.architecture.clone(),
            os: String::from_str(os),
            package_type: config.package_type.clone(),
            path: String::from_str(path),
            vendor,
            version: config.version.clone(),
            ext: String::from_str(ext),
            executable: String::from_str(executable),
            dry_run: false,
        }
    }

    /// Whether to only report what would be done.
    pub fn dry_run(&mut self, dry_run: bool)
        ensures
            final(self).is_dry_run() == dry_run,
            final(self).arch() == old(self).arch(),
            final(self).os() == old(self).os(),
            final(self).package_type() == old(self).package_type(),
            final(self).path() == old(self).path(),
            final(self).vendor() == old(self).vendor(),
            final(self).version() == old(self).version(),
            final(self).ext() == old(self).ext(),
            final(self).executable() == old(self).executable(),
    {
        self.dry_run = dry_run;
    }

    /// The vendor of the installation.
    pub fn vendor_of(&self) -> (r: &Vendor)
        ensures
            *r == self.vendor(),
    {
        &self.vendor
    }

    /// The reserved metadata directory.
    pub open spec fn metadata_dir(&self) -> Seq<char> {
        child(self.path(), METADATA_DIR@)
    }

    /// The record's file.
    pub open spec fn metadata_file(&self) -> Seq<char> {
        child(self.metadata_dir(), METADATA_FILE@)
    }

    /// The first phase and action of a run.
    pub open spec fn start_spec(&self) -> (PhaseModel, ControlActionModel) {
        (PhaseModel::Load, ControlActionModel::LoadMetadata(self.metadata_file()))
    }

    /// The phase and action that follow `event` in `phase`.
    pub open spec fn next(&self, phase: PhaseModel, event: ControlEvent) -> (PhaseModel, ControlActionModel) {
        let unexpected = |old: Option<SemVerModel>|
            (PhaseModel::Done, ControlActionModel::Report(OutcomeModel::Failed(old, UpdateError::UnexpectedEvent)));
        let query = ControlActionModel::Query(self.arch(), self.os(), self.package_type(), self.version());
        match phase {
            PhaseModel::Load => match event {
                ControlEvent::Loaded(LocalState::Missing) => (PhaseModel::Query(None), query),
                ControlEvent::Loaded(LocalState::Malformed(m)) =>
                    (PhaseModel::Done, ControlActionModel::Report(OutcomeModel::Failed(None, UpdateError::Parse(m)))),
                ControlEvent::Loaded(LocalState::Found(md)) => if md.vendor@ == self.vendor().id_spec() {
                    (PhaseModel::Query(Some(md.view())), query)
                } else {
                    (PhaseModel::Done, ControlActionModel::Report(OutcomeModel::Failed(None, UpdateError::VendorMismatch { expected: self.vendor(), found: md.vendor })))
                },
                _ => unexpected(None),
            },
            PhaseModel::Query(local) => match event {
                ControlEvent::Queried(Ok(remote)) => if !needs_update(local, remote.view()) {
                    (PhaseModel::Done, ControlActionModel::Report(OutcomeModel::Unchanged(local->Some_0.1)))
                } else if self.is_dry_run() {
                    (PhaseModel::Done, ControlActionModel::Report(OutcomeModel::Changed(opt_version(local), remote.version.view(), false)))
                } else {
                    (PhaseModel::Provide(local, remote.view()), ControlActionModel::Provide(
                        self.path(), self.ext(), remote.url@, remote.checksum@, self.executable()))
                },
                ControlEvent::Queried(Err(m)) =>
                    (PhaseModel::Done, ControlActionModel::Report(OutcomeModel::Failed(opt_version(local), UpdateError::Query(m)))),
                _ => unexpected(opt_version(local)),
            },
            PhaseModel::Provide(local, remote) => match event {
                ControlEvent::Provided(Ok(())) => (PhaseModel::Persist(local, remote), ControlActionModel::SaveMetadata(
                    self.metadata_dir(), self.metadata_file(),
                    (self.vendor().id_spec(), remote.2, remote.0, Seq::empty()))),
                ControlEvent::Provided(Err(e)) =>
                    (PhaseModel::Done, ControlActionModel::Report(OutcomeModel::Failed(opt_version(local), UpdateError::Provision(e)))),
                _ => unexpected(opt_version(local)),
            },
            PhaseModel::Persist(local, remote) => match event {
                ControlEvent::Saved(Ok(())) =>
                    (PhaseModel::Done, ControlActionModel::Report(OutcomeModel::Changed(opt_version(local), remote.2, true))),
                ControlEvent::Saved(Err(m)) =>
                    (PhaseModel::Done, ControlActionModel::Report(OutcomeModel::Failed(opt_version(local), UpdateError::Save(m)))),
                _ => unexpected(opt_version(local)),
            },
            PhaseModel::Done => (PhaseModel::Done, ControlActionModel::Idle),
        }
    }

    fn metadata_dir_path(&self) -> (r: String)
        ensures
            r@ == self.metadata_dir(),
    {
        let mut s = self.path.clone();
        s.append("/");
        s.append(METADATA_DIR);
        s
    }

    fn metadata_file_path(&self) -> (r: String)
        ensures
            r@ == self.metadata_file(),
    {
        let mut s = self.metadata_dir_path();
        s.append("/");
        s.append(METADATA_FILE);
        s
    }

    fn query_action(&self) -> (r: ControlAction)
        ensures
            r.view() == ControlActionModel::Query(self.arch(), self.os(), self.package_type(), self.version()),
    {
        ControlAction::Query(MetadataRequest {
            arch: self.arch.clone(),
            os: self.os.clone(),
            package_type: self.package_type.clone(),
            version: self.version.clone(),
        })
    }

    /// Starts a run: the first phase and action.
    pub fn start(&self) -> (r: (Phase, ControlAction))
        ensures
            (r.0.view(), r.1.view()) == self.start_spec(),
    {
        (Phase::Load, ControlAction::LoadMetadata { file: self.metadata_file_path() })
    }

    /// Takes the outcome of the last action and gives the next phase and action.
    pub fn step(&self, phase: Phase, event: ControlEvent) -> (r: (Phase, ControlAction))
        ensures
            (r.0.view(), r.1.view()) == self.next(phase.view(), event),
    {
        match phase {
            Phase::Load => match event {
                ControlEvent::Loaded(LocalState::Missing) => (Phase::Query { local: None }, self.query_action()),
                ControlEvent::Loaded(LocalState::Malformed(m)) =>
                    (Phase::Done, ControlAction::Report(Outcome::Failed { old: None, error: UpdateError::Parse(m) })),
                ControlEvent::Loaded(LocalState::Found(md)) => if crate::text::same_text(md.vendor.as_str(), self.vendor.id()) {
                    (Phase::Query { local: Some(md) }, self.query_action())
                } else {
                    (Phase::Done, ControlAction::Report(Outcome::Failed { old: None, error: UpdateError::VendorMismatch { expected: self.vendor, found: md.vendor } }))
                },
                _ => (Phase::Done, ControlAction::Report(Outcome::Failed { old: None, error: UpdateError::UnexpectedEvent })),
            },
            Phase::Query { local } => {
                let old = versions(&local);
                match event {
                    ControlEvent::Queried(Ok(remote)) => if !decide(&local, &remote) {
                        match local {
                            Some(m) => (Phase::Done, ControlAction::Report(Outcome::Unchanged { version: m.version })),
                            None => (Phase::Done, ControlAction::Idle),
                        }
                    } else if self.dry_run {
                        (Phase::Done, ControlAction::Report(Outcome::Changed { old, new: remote.version, applied: false }))
                    } else {
                        let package = Package::new(
                            self.path.as_str(),
                            self.ext.as_str(),
                            remote.url.as_str(),
                            remote.checksum.as_str(),
                            self.executable.as_str(),
                        );
                        (Phase::Provide { local, remote }, ControlAction::Provide(package))
                    },
                    ControlEvent::Queried(Err(m)) =>
                        (Phase::Done, ControlAction::Report(Outcome::Failed { old, error: UpdateError::Query(m) })),
                    _ => (Phase::Done, ControlAction::Report(Outcome::Failed { old, error: UpdateError::UnexpectedEvent })),
                }
            },
            Phase::Provide { local, remote } => {
                let old = versions(&local);
                match event {
                    ControlEvent::Provided(Ok(())) => {
                        let metadata = Metadata::new(self.vendor.id(), remote.version.copy(), remote.checksum.as_str());
                        (
                            Phase::Persist { local, remote },
                            ControlAction::SaveMetadata {
                                dir: self.metadata_dir_path(),
                                file: self.metadata_file_path(),
                                metadata,
                            },
                        )
                    },
                    ControlEvent::Provided(Err(e)) =>
                        (Phase::Done, ControlAction::Report(Outcome::Failed { old, error: UpdateError::Provision(e) })),
                    _ => (Phase::Done, ControlAction::Report(Outcome::Failed { old, error: UpdateError::UnexpectedEvent })),
                }
            },
            Phase::Persist { local, remote } => {
                let old = versions(&local);
                match event {
                    ControlEvent::Saved(Ok(())) =>
                        (Phase::Done, ControlAction::Report(Outcome::Changed { old, new: remote.version, applied: true })),
                    ControlEvent::Saved(Err(m)) =>
                        (Phase::Done, ControlAction::Report(Outcome::Failed { old, error: UpdateError::Save(m) })),
                    _ => (Phase::Done, ControlAction::Report(Outcome::Failed { old, error: UpdateError::UnexpectedEvent })),
                }
            },
            Phase::Done => (Phase::Done, ControlAction::Idle),
        }
    }
}

/// `old -> new`, or the one version where both are the same; `n/a` for no version.
pub open spec fn versions_text(old: Option<SemVerModel>, new: SemVerModel) -> Seq<char> {
    match old {
        Some(o) => if o == new { version_text(o) } else { version_text(o) + " -> "@ + version_text(new) },
        None => "n/a -> "@ + version_text(new),
    }
}

/// Why a target is skipped before its run starts; a skipped target is no failure.
#[derive(Debug)]
pub enum Skip {
    /// The configuration disables it.
    Disabled,
    /// It names no supported vendor.
    UnsupportedVendor,
}

/// The vendor of an enabled target that names a supported one, or why it is skipped.
pub fn admission(config: &InstallationConfig) -> (r: Result<Vendor, Skip>)
    ensures
        match r {
            Ok(v) => config.enabled && v.id_spec() == lower_of(trimmed(config.vendor@)),
            Err(Skip::Disabled) => !config.enabled,
            Err(Skip::UnsupportedVendor) => config.enabled && lower_of(trimmed(config.vendor@)) != "azul"@
                && lower_of(trimmed(config.vendor@)) != "eclipse"@,
        },
{
    if !config.enabled {
        return Err(Skip::Disabled);
    }
    match Vendor::try_from(config.vendor.as_str()) {
        Ok(v) => Ok(v),
        Err(_) => Err(Skip::UnsupportedVendor),
    }
}

/// The version that a run starts from: the record's, where loading found one of this
/// installation's vendor.
pub open spec fn starting_version(vendor: Vendor, state: LocalState) -> Option<SemVerModel> {
    match state {
        LocalState::Found(md) => if md.vendor@ == vendor.id_spec() { Some(md.version.view()) } else { None },
        _ => None,
    }
}

/// The line that opens a run at `path`: the version it starts from, or `n/a`.
pub open spec fn processing_text(path: Seq<char>, version: Option<SemVerModel>) -> Seq<char> {
    "Processing installation at "@ + path + " ["@ + match version {
        Some(v) => version_text(v),
        None => "n/a"@,
    } + "]"@
}

/// The line that reports how a run at `path` ended.
pub open spec fn report_text(path: Seq<char>, outcome: OutcomeModel, dry_run: bool) -> Seq<char> {
    match outcome {
        OutcomeModel::Changed(old, new, applied) => if applied {
            "Processed installation at "@ + path + " ["@ + versions_text(old, new) + "]"@
        } else {
            "dry-run: NOT processing installation at "@ + path + " ["@ + versions_text(old, new) + "]"@
        },
        OutcomeModel::Unchanged(v) => if dry_run {
            "dry-run: NOT processing installation at "@ + path + " ["@ + version_text(v) + "]"@
        } else {
            "Processed installation at "@ + path + " ["@ + version_text(v) + "]"@
        },
        OutcomeModel::Failed(_, _) => "Failed to process installation at "@ + path + "!"@,
    }
}

fn versions_line(old: &Option<SemVer>, new: &SemVer) -> (r: String)
    ensures
        r@ == versions_text(match old { Some(v) => Some(v.view()), None => None }, new.view()),
{
    match old {
        Some(o) => if o.same(new) {
            o.text()
        } else {
            let mut s = o.text();
            s.append(" -> ");
            s.append(new.text().as_str());
            s
        },
        None => {
            let mut s = String::from_str("n/a -> ");
            s.append(new.text().as_str());
            s
        },
    }
}

/// Which notify command lists a run's outcome fires.
#[derive(Debug)]
pub struct NotifyPlan {
    pub on_update: bool,
    pub on_success: bool,
    pub on_failure: bool,
}

/// A finished run fires `on-update` where it installed a new version, `on-success` where
/// it installed or found the installation up to date, `on-failure` where it failed; a dry
/// run fires nothing but `on-failure`.
pub open spec fn plan_of(outcome: OutcomeModel, dry_run: bool) -> (bool, bool, bool) {
    match outcome {
        OutcomeModel::Changed(old, new, applied) => (applied && old != Some(new), applied, false),
        OutcomeModel::Unchanged(_) => (false, !dry_run, false),
        OutcomeModel::Failed(_, _) => (false, false, true),
    }
}

/// The variables that the notify commands of a run get, in this order: `JU_ARCH`,
/// `JU_ERROR` (on failure), `JU_DIRECTORY`, `JU_NEW_VERSION` and `JU_OLD_VERSION` (where
/// known), `JU_TYPE`, `JU_VENDOR_ID`, `JU_VENDOR_NAME`.
pub open spec fn notification_table(
    inst: Installation,
    old: Option<SemVerModel>,
    new: Option<SemVerModel>,
    error: Option<Seq<char>>,
) -> Seq<(Seq<char>, Seq<char>)> {
    seq![("JU_ARCH"@, inst.arch())]
        + (match error { Some(e) => seq![("JU_ERROR"@, e)], None => Seq::empty() })
        + seq![("JU_DIRECTORY"@, inst.path())]
        + (match new { Some(v) => seq![("JU_NEW_VERSION"@, version_text(v))], None => Seq::empty() })
        + (match old { Some(v) => seq![("JU_OLD_VERSION"@, version_text(v))], None => Seq::empty() })
        + seq![
            ("JU_TYPE"@, inst.package_type()),
            ("JU_VENDOR_ID"@, inst.vendor().id_spec()),
            ("JU_VENDOR_NAME"@, inst.vendor().name_spec()),
        ]
}

/// Each pair with `env.` before its name.
pub open spec fn env_prefixed(t: Seq<(Seq<char>, Seq<char>)>) -> Seq<(Seq<char>, Seq<char>)> {
    t.map_values(|p: (Seq<char>, Seq<char>)| ("env."@ + p.0, p.1))
}

pub open spec fn sem_opt(v: Option<SemVer>) -> Option<SemVerModel> {
    match v {
        Some(v) => Some(v.view()),
        None => None,
    }
}

impl Installation {
    /// The line that reports how a run ended.
    pub fn report_line(&self, outcome: &Outcome) -> (r: String)
        ensures
            r@ == report_text(self.path(), outcome.view(), self.is_dry_run()),
    {
        match outcome {
            Outcome::Changed { old, new, applied } => {
                let mut s = if *applied {
                    String::from_str("Processed installation at ")
                } else {
                    String::from_str("dry-run: NOT processing installation at ")
                };
                s.append(self.path.as_str());
                s.append(" [");
                s.append(versions_line(old, new).as_str());
                s.append("]");
                s
            },
            Outcome::Unchanged { version } => {
                let mut s = if self.dry_run {
                    String::from_str("dry-run: NOT processing installation at ")
                } else {
                    String::from_str("Processed installation at ")
                };
                s.append(self.path.as_str());
                s.append(" [");
                s.append(version.text().as_str());
                s.append("]");
                s
            },
            Outcome::Failed { .. } => {
                let mut s = String::from_str("Failed to process installation at ");
                s.append(self.path.as_str());
                s.append("!");
                s
            },
        }
    }

    /// The line that opens a run, once loading the record gave `state`.
    pub fn processing_line(&self, state: &LocalState) -> (r: String)
        ensures
            r@ == processing_text(self.path(), starting_version(self.vendor(), *state)),
    {
        let mut s = String::from_str("Processing installation at ");
        s.append(self.path.as_str());
        s.append(" [");
        match state {
            LocalState::Found(md) => if crate::text::same_text(md.vendor.as_str(), self.vendor.id()) {
                s.append(md.version.text().as_str());
            } else {
                s.append("n/a");
            },
            _ => s.append("n/a"),
        }
        s.append("]");
        s
    }

    /// Which notify command lists the outcome fires.
    pub fn notify_plan(&self, outcome: &Outcome) -> (r: NotifyPlan)
        ensures
            (r.on_update, r.on_success, r.on_failure) == plan_of(outcome.view(), self.is_dry_run()),
    {
        match outcome {
            Outcome::Changed { old, new, applied } => {
                let changed = match old {
                    Some(o) => !o.same(new),
                    None => true,
                };
                NotifyPlan { on_update: *applied && changed, on_success: *applied, on_failure: false }
            },
            Outcome::Unchanged { .. } => NotifyPlan { on_update: false, on_success: !self.dry_run, on_failure: false },
            Outcome::Failed { .. } => NotifyPlan { on_update: false, on_success: false, on_failure: true },
        }
    }

    /// The variables for the notify commands of a run.
    pub fn notification_vars(&self, old: &Option<SemVer>, new: &Option<SemVer>, error: &Option<String>) -> (r: Vec<(String, String)>)
        ensures
            pairs_view(r@) == notification_table(*self, sem_opt(*old), sem_opt(*new), opt_view(*error)),
    {
        let mut r: Vec<(String, String)> = Vec::new();
        r.push((String::from_str("JU_ARCH"), self.arch.clone()));
        match error {
            Some(e) => r.push((String::from_str("JU_ERROR"), e.clone())),
            None => {},
        }
        r.push((String::from_str("JU_DIRECTORY"), self.path.clone()));
        match new {
            Some(v) => r.push((String::from_str("JU_NEW_VERSION"), v.text())),
            None => {},
        }
        match old {
            Some(v) => r.push((String::from_str("JU_OLD_VERSION"), v.text())),
            None => {},
        }
        r.push((String::from_str("JU_TYPE"), self.package_type.clone()));
        r.push((String::from_str("JU_VENDOR_ID"), String::from_str(self.vendor.id())));
        r.push((String::from_str("JU_VENDOR_NAME"), String::from_str(self.vendor.name())));
        assert(pairs_view(r@) =~= notification_table(*self, sem_opt(*old), sem_opt(*new), opt_view(*error)));
        r
    }
}

/// The versions and the error that the notifications of an outcome carry: the old and
/// new version of a change, the version of an unchanged installation as both, the old
/// version and the message of a failure.
pub open spec fn notified(o: OutcomeModel) -> (Option<SemVerModel>, Option<SemVerModel>, Option<Seq<char>>) {
    match o {
        OutcomeModel::Changed(old, new, _) => (old, Some(new), None),
        OutcomeModel::Unchanged(v) => (Some(v), Some(v), None),
        OutcomeModel::Failed(old, e) => (old, None, Some(error_text(e))),
    }
}

impl Installation {
    /// The variables for the notify commands of a run that ended with `outcome`.
    pub fn outcome_vars(&self, outcome: &Outcome) -> (r: Vec<(String, String)>)
        ensures
            pairs_view(r@) == notification_table(*self, notified(outcome.view()).0, notified(outcome.view()).1,
                notified(outcome.view()).2),
    {
        match outcome {
            Outcome::Changed { old, new, .. } => {
                let o = match old {
                    Some(v) => Some(v.copy()),
                    None => None,
                };
                self.notification_vars(&o, &Some(new.copy()), &None)
            },
            Outcome::Unchanged { version } => self.notification_vars(&Some(version.copy()), &Some(version.copy()), &None),
            Outcome::Failed { old, error } => {
                let o = match old {
                    Some(v) => Some(v.copy()),
                    None => None,
                };
                self.notification_vars(&o, &None, &Some(error.text()))
            },
        }
    }
}

/// The notify commands of `configs`, of the given kind, each with the variables `vars`
/// in its environment.
pub fn notify_commands(configs: &Vec<NotifyCommandConfig>, kind: NotifyKind, vars: &Vec<(String, String)>) -> (r: Vec<NotifyCommand>)
    ensures
        r@.len() == configs@.len(),
        forall|i: int| 0 <= i < r@.len() ==> (#[trigger] r@[i]).view()
            == (configs@[i].path@, strings_view(configs@[i].args@), opt_view(configs@[i].directory), pairs_view(vars@)),
        forall|i: int| 0 <= i < r@.len() ==> (#[trigger] r@[i]).kind_of()
            == Some(kind),
{
    let mut r: Vec<NotifyCommand> = Vec::new();
    let mut i: usize = 0;
    while i < configs.len()
        invariant
            i <= configs.len(),
            r@.len() == i,
            forall|k: int| 0 <= k < i ==> (#[trigger] r@[k]).view()
                == (configs@[k].path@, strings_view(configs@[k].args@), opt_view(configs@[k].directory), pairs_view(vars@)),
            forall|k: int| 0 <= k < i ==> (#[trigger] r@[k]).kind_of()
                == Some(kind),
        decreases configs.len() - i,
    {
        let mut c = NotifyCommand::from_config(&configs[i]);
        c.kind(kind);
        let mut k: usize = 0;
        while k < vars.len()
            invariant
                k <= vars.len(),
                c.view() == (configs@[i as int].path@, strings_view(configs@[i as int].args@),
                    opt_view(configs@[i as int].directory), pairs_view(vars@.take(k as int))),
                c.kind_of() == Some(kind),
            decreases vars.len() - k,
        {
            c.env(vars[k].0.as_str(), vars[k].1.as_str());
            assert(pairs_view(vars@.take(k + 1)) =~= pairs_view(vars@.take(k as int)).push((vars@[k as int].0@, vars@[k as int].1@)));
            k = k + 1;
        }
        assert(vars@.take(vars.len() as int) =~= vars@);
        r.push(c);
        i = i + 1;
    }
    r
}

/// The expander for notify commands: the run's variables under `env.`, then the process
/// environment under `env.`. It has no resolver that leaves names as they are, so an
/// unknown variable fails the command.
pub fn notify_expander(vars: &Vec<(String, String)>, environment: OsEnvVarResolver) -> (r: VarExpander)
    ensures
        r.view() == seq![
            ResolverModel::Table(env_prefixed(pairs_view(vars@))),
            ResolverModel::Prefixed("env."@, Box::new(ResolverModel::Table(environment.view()))),
        ],
{
    let mut simple = SimpleVarResolver::new();
    let mut k: usize = 0;
    while k < vars.len()
        invariant
            k <= vars.len(),
            simple.view() == env_prefixed(pairs_view(vars@.take(k as int))),
        decreases vars.len() - k,
    {
        let mut name = String::from_str("env.");
        name.append(vars[k].0.as_str());
        simple.insert(name.as_str(), vars[k].1.as_str());
        assert(env_prefixed(pairs_view(vars@.take(k + 1))) =~= env_prefixed(pairs_view(vars@.take(k as int))).push(("env."@ + vars@[k as int].0@, vars@[k as int].1@)));
        k = k + 1;
    }
    assert(vars@.take(vars.len() as int) =~= vars@);
    let ghost env_model = environment.view();
    let inner = VarResolver::OsEnv(environment);
    assert(inner.model() == ResolverModel::Table(env_model));
    let prefixed = VarResolver::Prefixed(PrefixedVarResolver::new("env.", inner));
    let ghost chain = seq![
        ResolverModel::Table(env_prefixed(pairs_view(vars@))),
        ResolverModel::Prefixed("env."@, Box::new(ResolverModel::Table(env_model))),
    ];
    assert(prefixed.model() == chain[1]);
    let mut resolvers: Vec<VarResolver> = Vec::new();
    resolvers.push(VarResolver::Simple(simple));
    resolvers.push(prefixed);
    let r = VarExpander::new(resolvers);
    assert(r.view() =~= chain);
    r
}

/// The message of an error: a head that names the kind, then the message it carries.
pub open spec fn error_text(e: UpdateError) -> Seq<char> {
    match e {
        UpdateError::Parse(m) => "malformed metadata: "@ + m@,
        UpdateError::VendorMismatch { expected, found } =>
            "vendors differ (expected: "@ + expected.id_spec() + ", got: "@ + found@ + ")"@,
        UpdateError::Query(m) => "query failed: "@ + m@,
        UpdateError::Save(m) => "saving metadata failed: "@ + m@,
        UpdateError::Provision(ProvisionError::Io(m)) => "provisioning failed: "@ + m@,
        UpdateError::Provision(ProvisionError::Network(m)) => "download failed: "@ + m@,
        UpdateError::Provision(ProvisionError::ChecksumMismatch) => "checksums differ"@,
        UpdateError::Provision(ProvisionError::InstallationBusy) => "installation is still in use"@,
        UpdateError::Provision(ProvisionError::IntegrityError) => "failed to verify installation"@,
        UpdateError::Provision(ProvisionError::UnexpectedEvent) => "provisioning out of order"@,
        UpdateError::UnexpectedEvent => "update out of order"@,
    }
}

impl UpdateError {
    /// The message of the error.
    pub fn text(&self) -> (r: String)
        ensures
            r@ == error_text(*self),
    {
        let (head, tail): (&str, &str) = match self {
            UpdateError::Parse(m) => ("malformed metadata: ", m.as_str()),
            UpdateError::VendorMismatch { expected, found } => {
                let mut s = String::from_str("vendors differ (expected: ");
                s.append(expected.id());
                s.append(", got: ");
                s.append(found.as_str());
                s.append(")");
                return s;
            },
            UpdateError::Query(m) => ("query failed: ", m.as_str()),
            UpdateError::Save(m) => ("saving metadata failed: ", m.as_str()),
            UpdateError::Provision(ProvisionError::Io(m)) => ("provisioning failed: ", m.as_str()),
            UpdateError::Provision(ProvisionError::Network(m)) => ("download failed: ", m.as_str()),
            UpdateError::Provision(ProvisionError::ChecksumMismatch) => ("checksums differ", ""),
            UpdateError::Provision(ProvisionError::InstallationBusy) => ("installation is still in use", ""),
            UpdateError::Provision(ProvisionError::IntegrityError) => ("failed to verify installation", ""),
            UpdateError::Provision(ProvisionError::UnexpectedEvent) => ("provisioning out of order", ""),
            UpdateError::UnexpectedEvent => ("update out of order", ""),
        };
        proof {
            reveal_strlit("");
        }
        let mut s = String::from_str(head);
        s.append(tail);
        s
    }
}

/// The version of the record, if there is one.
fn versions(local: &Option<Metadata>) -> (r: Option<SemVer>)
    ensures
        match r {
            Some(v) => opt_version(opt_model(*local)) == Some(v.view()),
            None => local.is_none(),
        },
{
    match local {
        Some(m) => Some(m.version.copy()),
        None => None,
    }
}

/// Idempotence: where the local record already names the remote release (same version,
/// same checksum), the run reports the installation up to date and provides nothing, so
/// no download happens.
pub proof fn lemma_up_to_date_provides_nothing(inst: Installation, md: Metadata, remote: RemotePackage)
    requires
        md.version.view() == remote.version.view(),
        md.checksum@ == remote.checksum@,
    ensures
        inst.next(PhaseModel::Query(Some(md.view())), ControlEvent::Queried(Ok(remote)))
            == (PhaseModel::Done, ControlActionModel::Report(OutcomeModel::Unchanged(md.version.view()))),
{
}

/// A dry run reports what it would do but neither provides a package nor saves a record.
pub proof fn lemma_dry_run_changes_nothing(inst: Installation, phase: PhaseModel, event: ControlEvent)
    requires
        inst.is_dry_run(),
        phase is Load || phase is Query,
    ensures
        !(inst.next(phase, event).1 is Provide),
        !(inst.next(phase, event).1 is SaveMetadata),
        !(inst.next(phase, event).0 is Provide),
        !(inst.next(phase, event).0 is Persist),
{
}

/// A new record is saved only after the package was provided, and it names the remote
/// release: the vendor of the installation, the remote version and checksum.
pub proof fn lemma_record_follows_provision(inst: Installation, phase: PhaseModel, event: ControlEvent)
    requires
        inst.next(phase, event).1 is SaveMetadata,
    ensures
        phase is Provide,
        event is Provided && event->Provided_0 is Ok,
        inst.next(phase, event).1->SaveMetadata_2
            == (inst.vendor().id_spec(), phase->Provide_1.2, phase->Provide_1.0, Seq::<(Seq<char>, Seq<char>)>::empty()),
{
}

/// A first install of `remote` into an empty target: the run queries, provides the
/// package of the remote location and checksum, saves a record of this vendor with the
/// remote version and checksum, and reports `[n/a -> version]`, having opened with `[n/a]`.
pub proof fn lemma_first_install(inst: Installation, remote: RemotePackage)
    requires
        !inst.is_dry_run(),
    ensures
        ({
            let (p1, a1) = inst.next(PhaseModel::Load, ControlEvent::Loaded(LocalState::Missing));
            let (p2, a2) = inst.next(p1, ControlEvent::Queried(Ok(remote)));
            let (p3, a3) = inst.next(p2, ControlEvent::Provided(Ok(())));
            let (p4, a4) = inst.next(p3, ControlEvent::Saved(Ok(())));
            &&& a1 == ControlActionModel::Query(inst.arch(), inst.os(), inst.package_type(), inst.version())
            &&& a2 == ControlActionModel::Provide(inst.path(), inst.ext(), remote.url@, remote.checksum@, inst.executable())
            &&& a3 == ControlActionModel::SaveMetadata(inst.metadata_dir(), inst.metadata_file(),
                (inst.vendor().id_spec(), remote.version.view(), remote.checksum@, Seq::<(Seq<char>, Seq<char>)>::empty()))
            &&& a4 == ControlActionModel::Report(OutcomeModel::Changed(None, remote.version.view(), true))
            &&& p4 == PhaseModel::Done
            &&& processing_text(inst.path(), starting_version(inst.vendor(), LocalState::Missing))
                == "Processing installation at "@ + inst.path() + " ["@ + "n/a"@ + "]"@
            &&& report_text(inst.path(), OutcomeModel::Changed(None, remote.version.view(), true), false)
                == "Processed installation at "@ + inst.path() + " ["@ + "n/a -> "@ + version_text(remote.version.view()) + "]"@
        }),
{
}

} // verus!
