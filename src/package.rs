//! Provisioning of a package: download check, busy probe, extraction to staging,
//! integrity check and swap into the target directory.
//!
//! The work is a state machine. `Package::provide` gives the first action; the caller
//! performs each action and hands the outcome back to `Package::step` as an event,
//! which gives the next stage and action, until an `Action::Finish`.

use crate::checksum::{checksum, checksum_of};
use crate::text::{eq_ignoring_ascii_case, same_ignoring_ascii_case};
use vstd::prelude::*;
use vstd::string::*;

verus! {

/// Name of the metadata directory within the installation directory.
pub const METADATA_DIR: &'static str = ".java-updater";

/// Name of the metadata file within the metadata directory.
pub const METADATA_FILE: &'static str = "meta";

/// Why provisioning failed.
#[derive(Debug)]
pub enum ProvisionError {
    /// A file operation failed, with its message.
    Io(String),
    /// The download failed, with its message.
    Network(String),
    /// The downloaded bytes do not have the expected checksum.
    ChecksumMismatch,
    /// The installation is in use: its `lib` directory cannot be renamed.
    InstallationBusy,
    /// The extracted tree lacks the runtime's executable.
    IntegrityError,
    /// An event came that the stage does not expect.
    UnexpectedEvent,
}

/// Where a provisioning run stands.
#[derive(Debug)]
pub enum Stage {
    CheckCache,
    Download,
    StoreArchive,
    Probe,
    ClearStaging,
    Extract,
    CheckMarker,
    ClearTarget,
    MoveIn,
    Cleanup,
    Finished,
}

/// The outcome of an action, handed back by the caller.
#[derive(Debug)]
pub enum Event {
    /// The action completed.
    Done,
    /// The action failed, with a message.
    Failed(String),
    /// The bytes of the cached archive, if there is one.
    Cached(Option<Vec<u8>>),
    /// The bytes that the download gave.
    Fetched(Vec<u8>),
    /// Whether the busy probe could rename `lib` (true: not in use).
    Probed(bool),
    /// Whether the runtime's executable exists in the staging tree.
    Marker(bool),
}

/// What the caller is to do next.
#[derive(Debug)]
pub enum Action {
    /// Read the cached archive at this path, if it exists: `Cached`.
    HashCached { archive: String },
    /// GET `url` with `Accept: application/octet-stream`: `Fetched` or `Failed`.
    Download { url: String, archive: String },
    /// Write these verified bytes to the archive path: `Done` or `Failed`.
    StoreArchive { archive: String, bytes: Vec<u8> },
    /// If `lib` exists, rename it to `renamed` and back: `Probed`.
    ProbeBusy { lib: String, renamed: String },
    /// Remove the staging directory if it exists: `Done` or `Failed`.
    ClearStaging { staging: String },
    /// Extract the archive into staging, entry by entry through
    /// `archive::entry_action`: `Done` or `Failed`.
    Extract { archive: String, staging: String },
    /// Tell whether this file exists: `Marker`.
    CheckMarker { marker: String },
    /// Delete every entry of the target for which `keeps_entry` is false: `Done` or `Failed`.
    ClearTarget { target: String },
    /// Move every entry of staging into the target: `Done` or `Failed`.
    MoveIn { staging: String, target: String },
    /// Remove the staging directory; a failure is only logged. Any event.
    RemoveStaging { staging: String },
    /// The run is over, with this result.
    Finish(Result<(), ProvisionError>),
    /// Nothing more to do.
    Idle,
}

/// The model of an action.
pub enum ActionModel {
    HashCached(Seq<char>),
    Download(Seq<char>, Seq<char>),
    StoreArchive(Seq<char>, Seq<u8>),
    ProbeBusy(Seq<char>, Seq<char>),
    ClearStaging(Seq<char>),
    Extract(Seq<char>, Seq<char>),
    CheckMarker(Seq<char>),
    ClearTarget(Seq<char>),
    MoveIn(Seq<char>, Seq<char>),
    RemoveStaging(Seq<char>),
    Finish(Result<(), ProvisionError>),
    Idle,
}

impl ActionModel {
    /// Whether the action changes the live installation.
    pub open spec fn touches_live(self) -> bool {
        self is ClearTarget || self is MoveIn
    }
}

impl Action {
    pub open spec fn model(&self) -> ActionModel {
        match self {
            Action::HashCached { archive } => ActionModel::HashCached(archive@),
            Action::Download { url, archive } => ActionModel::Download(url@, archive@),
            Action::StoreArchive { archive, bytes } => ActionModel::StoreArchive(archive@, bytes@),
            Action::ProbeBusy { lib, renamed } => ActionModel::ProbeBusy(lib@, renamed@),
            Action::ClearStaging { staging } => ActionModel::ClearStaging(staging@),
            Action::Extract { archive, staging } => ActionModel::Extract(archive@, staging@),
            Action::CheckMarker { marker } => ActionModel::CheckMarker(marker@),
            Action::ClearTarget { target } => ActionModel::ClearTarget(target@),
            Action::MoveIn { staging, target } => ActionModel::MoveIn(staging@, target@),
            Action::RemoveStaging { staging } => ActionModel::RemoveStaging(staging@),
            Action::Finish(r) => ActionModel::Finish(*r),
            Action::Idle => ActionModel::Idle,
        }
    }
}

/// Everything needed to download and unpack a package into a directory.
#[derive(Debug)]
pub struct Package {
    checksum: String,
    ext: String,
    path: String,
    url: String,
    executable: String,
}

/// `a/b`.
pub open spec fn child(a: Seq<char>, b: Seq<char>) -> Seq<char> {
    a + "/"@ + b
}

fn child_of(a: &str, b: &str) -> (r: String)
    ensures
        r@ == child(a@, b@),
{
    let mut s = String::from_str(a);
    s.append("/");
    s.append(b);
    s
}

impl Package {
    pub closed spec fn checksum(&self) -> Seq<char> {
        self.checksum@
    }

    pub closed spec fn ext(&self) -> Seq<char> {
        self.ext@
    }

    pub closed spec fn target(&self) -> Seq<char> {
        self.path@
    }

    pub closed spec fn url(&self) -> Seq<char> {
        self.url@
    }

    pub closed spec fn executable(&self) -> Seq<char> {
        self.executable@
    }

    /// A package to be placed in the directory `path`, fetched from `url`, with the
    /// expected `checksum`, an archive of extension `ext`, whose runtime executable
    /// stands at `executable` relative to its root.
    pub fn new(path: &str, ext: &str, url: &str, checksum: &str, executable: &str) -> (r: Self)
        ensures
            r.target() == path@,
            r.ext() == ext@,
            r.url() == url@,
            r.checksum() == checksum@,
            r.executable() == executable@,
    {
        Package {
            checksum: String::from_str(checksum),
            ext: String::from_str(ext),
            path: String::from_str(path),
            url: String::from_str(url),
            executable: String::from_str(executable),
        }
    }

    /// The reserved metadata directory of the target.
    pub open spec fn metadata_dir(&self) -> Seq<char> {
        child(self.target(), METADATA_DIR@)
    }

    /// The archive's place: named by the expected checksum, so the cache is
    /// content-addressed.
    pub open spec fn archive(&self) -> Seq<char> {
        child(self.metadata_dir(), self.checksum() + "."@ + self.ext())
    }

    /// The staging directory, named by the expected checksum.
    pub open spec fn staging(&self) -> Seq<char> {
        child(self.metadata_dir(), self.checksum())
    }

    pub open spec fn lib(&self) -> Seq<char> {
        child(self.target(), "lib"@)
    }

    /// The name that the busy probe renames `lib` to.
    pub open spec fn lib_renamed(&self) -> Seq<char> {
        child(self.target(), "lib."@ + self.checksum())
    }

    /// The runtime's executable in the staging tree.
    pub open spec fn marker(&self) -> Seq<char> {
        child(self.staging(), self.executable())
    }

    /// Whether `bytes` have the expected checksum, compared without regard to case.
    pub open spec fn accepts(&self, bytes: Seq<u8>) -> bool {
        same_ignoring_ascii_case(self.checksum(), checksum_of(bytes))
    }

    fn metadata_dir_path(&self) -> (r: String)
        ensures
            r@ == self.metadata_dir(),
    {
        child_of(self.path.as_str(), METADATA_DIR)
    }

    fn archive_path(&self) -> (r: String)
        ensures
            r@ == self.archive(),
    {
        let mut name = self.checksum.clone();
        name.append(".");
        name.append(self.ext.as_str());
        child_of(self.metadata_dir_path().as_str(), name.as_str())
    }

    fn staging_path(&self) -> (r: String)
        ensures
            r@ == self.staging(),
    {
        child_of(self.metadata_dir_path().as_str(), self.checksum.as_str())
    }

    fn accepts_bytes(&self, bytes: &Vec<u8>) -> (r: bool)
        ensures
            r == self.accepts(bytes@),
    {
        let sum = checksum(bytes.as_slice());
        eq_ignoring_ascii_case(self.checksum.as_str(), sum.as_str())
    }

    fn probe_action(&self) -> (r: Action)
        ensures
            r.model() == ActionModel::ProbeBusy(self.lib(), self.lib_renamed()),
    {
        let mut renamed = String::from_str("lib.");
        renamed.append(self.checksum.as_str());
        Action::ProbeBusy {
            lib: child_of(self.path.as_str(), "lib"),
            renamed: child_of(self.path.as_str(), renamed.as_str()),
        }
    }

    /// The first stage and action of a run.
    pub open spec fn start(&self) -> (Stage, ActionModel) {
        (Stage::CheckCache, ActionModel::HashCached(self.archive()))
    }

    /// The stage and action that follow `event` in `stage`.
    pub open spec fn next(&self, stage: Stage, event: Event) -> (Stage, ActionModel) {
        let unexpected = (Stage::Finished, ActionModel::Finish(Err(ProvisionError::UnexpectedEvent)));
        let probe = (Stage::Probe, ActionModel::ProbeBusy(self.lib(), self.lib_renamed()));
        match stage {
            Stage::CheckCache => match event {
                Event::Cached(Some(b)) => if self.accepts(b@) {
                    probe
                } else {
                    (Stage::Download, ActionModel::Download(self.url(), self.archive()))
                },
                Event::Cached(None) => (Stage::Download, ActionModel::Download(self.url(), self.archive())),
                Event::Failed(m) => (Stage::Finished, ActionModel::Finish(Err(ProvisionError::Io(m)))),
                _ => unexpected,
            },
            Stage::Download => match event {
                Event::Fetched(b) => if self.accepts(b@) {
                    (Stage::StoreArchive, ActionModel::StoreArchive(self.archive(), b@))
                } else {
                    (Stage::Finished, ActionModel::Finish(Err(ProvisionError::ChecksumMismatch)))
                },
                Event::Failed(m) => (Stage::Finished, ActionModel::Finish(Err(ProvisionError::Network(m)))),
                _ => unexpected,
            },
            Stage::StoreArchive => match event {
                Event::Done => probe,
                Event::Failed(m) => (Stage::Finished, ActionModel::Finish(Err(ProvisionError::Io(m)))),
                _ => unexpected,
            },
            Stage::Probe => match event {
                Event::Probed(true) => (Stage::ClearStaging, ActionModel::ClearStaging(self.staging())),
                Event::Probed(false) => (Stage::Finished, ActionModel::Finish(Err(ProvisionError::InstallationBusy))),
                _ => unexpected,
            },
            Stage::ClearStaging => match event {
                Event::Done => (Stage::Extract, ActionModel::Extract(self.archive(), self.staging())),
                Event::Failed(m) => (Stage::Finished, ActionModel::Finish(Err(ProvisionError::Io(m)))),
                _ => unexpected,
            },
            Stage::Extract => match event {
                Event::Done => (Stage::CheckMarker, ActionModel::CheckMarker(self.marker())),
                Event::Failed(m) => (Stage::Finished, ActionModel::Finish(Err(ProvisionError::Io(m)))),
                _ => unexpected,
            },
            Stage::CheckMarker => match event {
                Event::Marker(true) => (Stage::ClearTarget, ActionModel::ClearTarget(self.target())),
                Event::Marker(false) => (Stage::Finished, ActionModel::Finish(Err(ProvisionError::IntegrityError))),
                _ => unexpected,
            },
            Stage::ClearTarget => match event {
                Event::Done => (Stage::MoveIn, ActionModel::MoveIn(self.staging(), self.target())),
                Event::Failed(m) => (Stage::Finished, ActionModel::Finish(Err(ProvisionError::Io(m)))),
                _ => unexpected,
            },
            Stage::MoveIn => match event {
                Event::Done => (Stage::Cleanup, ActionModel::RemoveStaging(self.staging())),
                Event::Failed(m) => (Stage::Finished, ActionModel::Finish(Err(ProvisionError::Io(m)))),
                _ => unexpected,
            },
            Stage::Cleanup => (Stage::Finished, ActionModel::Finish(Ok(()))),
            Stage::Finished => (Stage::Finished, ActionModel::Idle),
        }
    }

    /// Starts provisioning: the first stage and the first action.
    pub fn provide(&self) -> (r: (Stage, Action))
        ensures
            (r.0, r.1.model()) == self.start(),
    {
        (Stage::CheckCache, Action::HashCached { archive: self.archive_path() })
    }

    /// Takes the outcome of the last action and gives the next stage and action.
    pub fn step(&self, stage: Stage, event: Event) -> (r: (Stage, Action))
        ensures
            (r.0, r.1.model()) == self.next(stage, event),
    {
        let unexpected = (Stage::Finished, Action::Finish(Err(ProvisionError::UnexpectedEvent)));
        match stage {
            Stage::CheckCache => match event {
                Event::Cached(Some(b)) => if self.accepts_bytes(&b) {
                    (Stage::Probe, self.probe_action())
                } else {
                    (Stage::Download, Action::Download { url: self.url.clone(), archive: self.archive_path() })
                },
                Event::Cached(None) => (Stage::Download, Action::Download { url: self.url.clone(), archive: self.archive_path() }),
                Event::Failed(m) => (Stage::Finished, Action::Finish(Err(ProvisionError::Io(m)))),
                _ => unexpected,
            },
            Stage::Download => match event {
                Event::Fetched(b) => if self.accepts_bytes(&b) {
                    (Stage::StoreArchive, Action::StoreArchive { archive: self.archive_path(), bytes: b })
                } else {
                    (Stage::Finished, Action::Finish(Err(ProvisionError::ChecksumMismatch)))
                },
                Event::Failed(m) => (Stage::Finished, Action::Finish(Err(ProvisionError::Network(m)))),
                _ => unexpected,
            },
            Stage::StoreArchive => match event {
                Event::Done => (Stage::Probe, self.probe_action()),
                Event::Failed(m) => (Stage::Finished, Action::Finish(Err(ProvisionError::Io(m)))),
                _ => unexpected,
            },
            Stage::Probe => match event {
                Event::Probed(free) => if free {
                    (Stage::ClearStaging, Action::ClearStaging { staging: self.staging_path() })
                } else {
                    (Stage::Finished, Action::Finish(Err(ProvisionError::InstallationBusy)))
                },
                _ => unexpected,
            },
            Stage::ClearStaging => match event {
                Event::Done => (Stage::Extract, Action::Extract { archive: self.archive_path(), staging: self.staging_path() }),
                Event::Failed(m) => (Stage::Finished, Action::Finish(Err(ProvisionError::Io(m)))),
                _ => unexpected,
            },
            Stage::Extract => match event {
                Event::Done => (Stage::CheckMarker, Action::CheckMarker { marker: child_of(self.staging_path().as_str(), self.executable.as_str()) }),
                Event::Failed(m) => (Stage::Finished, Action::Finish(Err(ProvisionError::Io(m)))),
                _ => unexpected,
            },
            Stage::CheckMarker => match event {
                Event::Marker(present) => if present {
                    (Stage::ClearTarget, Action::ClearTarget { target: self.path.clone() })
                } else {
                    (Stage::Finished, Action::Finish(Err(ProvisionError::IntegrityError)))
                },
                _ => unexpected,
            },
            Stage::ClearTarget => match event {
                Event::Done => (Stage::MoveIn, Action::MoveIn { staging: self.staging_path(), target: self.path.clone() }),
                Event::Failed(m) => (Stage::Finished, Action::Finish(Err(ProvisionError::Io(m)))),
                _ => unexpected,
            },
            Stage::MoveIn => match event {
                Event::Done => (Stage::Cleanup, Action::RemoveStaging { staging: self.staging_path() }),
                Event::Failed(m) => (Stage::Finished, Action::Finish(Err(ProvisionError::Io(m)))),
                _ => unexpected,
            },
            Stage::Cleanup => (Stage::Finished, Action::Finish(Ok(()))),
            Stage::Finished => (Stage::Finished, Action::Idle),
        }
    }
}

impl Stage {
    /// The stages before the live installation is touched.
    pub open spec fn before_swap(self) -> bool {
        self is CheckCache || self is Download || self is StoreArchive || self is Probe
            || self is ClearStaging || self is Extract || self is CheckMarker
    }
}

impl Package {
    /// The stage and the actions of a run that got `events`, in order.
    pub open spec fn run(&self, events: Seq<Event>) -> (Stage, Seq<ActionModel>)
        decreases events.len(),
    {
        if events.len() == 0 {
            (self.start().0, seq![self.start().1])
        } else {
            let (stage, actions) = self.run(events.drop_last());
            let (next_stage, action) = self.next(stage, events.last());
            (next_stage, actions.push(action))
        }
    }
}

/// An action that changes the live installation leaves the run past the stages before
/// the swap, for good.
proof fn lemma_live_action_stage(p: Package, events: Seq<Event>)
    ensures
        (exists|i: int| 0 <= i < p.run(events).1.len() && (#[trigger] p.run(events).1[i]).touches_live())
            ==> !p.run(events).0.before_swap(),
    decreases events.len(),
{
    if events.len() > 0 {
        let prev = events.drop_last();
        lemma_live_action_stage(p, prev);
        let (stage, actions) = p.run(prev);
        let all = p.run(events).1;
        assert(all == actions.push(p.next(stage, events.last()).1));
        if exists|i: int| 0 <= i < all.len() && (#[trigger] all[i]).touches_live() {
            let i = choose|i: int| 0 <= i < all.len() && (#[trigger] all[i]).touches_live();
            if i < actions.len() {
                assert(actions[i] == all[i]);
            }
        }
    }
}

/// From the finished stage a run does nothing more.
proof fn lemma_finished_stays(p: Package, events: Seq<Event>, k: int)
    requires
        0 <= k <= events.len(),
        p.run(events.take(k)).0 is Finished,
    ensures
        p.run(events).0 is Finished,
        p.run(events).1.take(k + 1) == p.run(events.take(k)).1,
        forall|i: int| k + 1 <= i < p.run(events).1.len() ==> #[trigger] p.run(events).1[i] is Idle,
        p.run(events).1.len() == events.len() + 1,
    decreases events.len() - k,
{
    if k == events.len() {
        assert(events.take(k) =~= events);
        lemma_run_len(p, events);
    } else {
        let next = events.take(k + 1);
        assert(next.drop_last() =~= events.take(k));
        lemma_run_len(p, events.take(k));
        lemma_finished_stays(p, events, k + 1);
        let all = p.run(events).1;
        assert(p.run(next).1 == p.run(events.take(k)).1.push(ActionModel::Idle));
        assert forall|i: int| k + 1 <= i < all.len() implies #[trigger] all[i] is Idle by {
            if i == k + 1 {
                assert(all.take(k + 2)[i] == all[i]);
            }
        }
        assert(all.take(k + 1) =~= all.take(k + 2).take(k + 1));
    }
}

proof fn lemma_run_len(p: Package, events: Seq<Event>)
    ensures
        p.run(events).1.len() == events.len() + 1,
    decreases events.len(),
{
    if events.len() > 0 {
        lemma_run_len(p, events.drop_last());
    }
}

/// A run that fails before the swap never touches the live installation: where the
/// event at `k` finishes the run from a stage before the swap, no action of the whole
/// run, before or after, changes the target directory.
pub proof fn lemma_failure_before_swap_keeps_target(p: Package, events: Seq<Event>, k: int)
    requires
        0 <= k < events.len(),
        p.run(events.take(k)).0.before_swap(),
        p.next(p.run(events.take(k)).0, events[k]).0 is Finished,
    ensures
        forall|i: int| 0 <= i < p.run(events).1.len() ==> !(#[trigger] p.run(events).1[i]).touches_live(),
{
    let before = events.take(k);
    let upto = events.take(k + 1);
    assert(upto.drop_last() =~= before);
    lemma_live_action_stage(p, before);
    lemma_run_len(p, before);
    lemma_finished_stays(p, events, k + 1);
    let all = p.run(events).1;
    let first = p.run(upto).1;
    assert(first == p.run(before).1.push(p.next(p.run(before).0, events[k]).1));
    assert forall|i: int| 0 <= i < all.len() implies !(#[trigger] all[i]).touches_live() by {
        if i < k + 2 {
            assert(all.take(k + 2)[i] == all[i]);
            if i < k + 1 {
                assert(first[i] == p.run(before).1[i]);
            }
        }
    }
}

/// Checksum enforcement: downloaded bytes without the expected checksum finish the run
/// with `ChecksumMismatch`, and no action of the run changes the target directory.
pub proof fn lemma_checksum_enforced(p: Package, events: Seq<Event>, k: int)
    requires
        0 <= k < events.len(),
        p.run(events.take(k)).0 is Download,
        events[k] is Fetched,
        !p.accepts(events[k]->Fetched_0@),
    ensures
        p.run(events.take(k + 1)).1.last() == ActionModel::Finish(Err(ProvisionError::ChecksumMismatch)),
        forall|i: int| 0 <= i < p.run(events).1.len() ==> !(#[trigger] p.run(events).1[i]).touches_live(),
{
    assert(events.take(k + 1).drop_last() =~= events.take(k));
    lemma_failure_before_swap_keeps_target(p, events, k);
}

/// Busy preservation: when the busy probe fails, the run finishes with
/// `InstallationBusy` and no action of the run changes the target directory.
pub proof fn lemma_busy_probe_keeps_target(p: Package, events: Seq<Event>, k: int)
    requires
        0 <= k < events.len(),
        p.run(events.take(k)).0 is Probe,
        events[k] == Event::Probed(false),
    ensures
        p.run(events.take(k + 1)).1.last() == ActionModel::Finish(Err(ProvisionError::InstallationBusy)),
        forall|i: int| 0 <= i < p.run(events).1.len() ==> !(#[trigger] p.run(events).1[i]).touches_live(),
{
    assert(events.take(k + 1).drop_last() =~= events.take(k));
    lemma_failure_before_swap_keeps_target(p, events, k);
}

proof fn lemma_stored_bytes_accepted(p: Package, events: Seq<Event>)
    ensures
        forall|i: int| 0 <= i < p.run(events).1.len() && (#[trigger] p.run(events).1[i]) is StoreArchive
            ==> p.accepts(p.run(events).1[i]->StoreArchive_1),
    decreases events.len(),
{
    if events.len() > 0 {
        lemma_stored_bytes_accepted(p, events.drop_last());
        let actions = p.run(events.drop_last()).1;
        let all = p.run(events).1;
        assert forall|i: int| 0 <= i < all.len() && (#[trigger] all[i]) is StoreArchive
            implies p.accepts(all[i]->StoreArchive_1) by {
            if i < actions.len() {
                assert(all[i] == actions[i]);
            }
        }
    }
}

/// Idempotence: the archive that a run stores has the expected checksum, so a later run
/// that finds those bytes in the cache goes straight to the busy probe, with no download.
pub proof fn lemma_stored_archive_is_reused(p: Package, events: Seq<Event>, i: int, bytes: Vec<u8>)
    requires
        0 <= i < p.run(events).1.len(),
        p.run(events).1[i] == ActionModel::StoreArchive(p.archive(), bytes@),
    ensures
        p.next(Stage::CheckCache, Event::Cached(Some(bytes))).0 is Probe,
        !(p.next(Stage::CheckCache, Event::Cached(Some(bytes))).1 is Download),
{
    lemma_stored_bytes_accepted(p, events);
}

impl Stage {
    /// The stages after the archive's checksum was accepted.
    pub open spec fn after_accept(self) -> bool {
        self is StoreArchive || self is Probe || self.after_probe()
    }

    /// The stages after the busy probe found the installation free.
    pub open spec fn after_probe(self) -> bool {
        self is ClearStaging || self is Extract || self is CheckMarker || self.after_marker()
    }

    /// The stages after the executable was found in staging.
    pub open spec fn after_marker(self) -> bool {
        self is ClearTarget || self is MoveIn || self is Cleanup
    }
}

/// At event `j` the run accepted the archive's bytes, cached or downloaded.
pub open spec fn accepted_at(p: Package, events: Seq<Event>, j: int) -> bool {
    0 <= j < events.len() && match (p.run(events.take(j)).0, events[j]) {
        (Stage::CheckCache, Event::Cached(Some(b))) => p.accepts(b@),
        (Stage::Download, Event::Fetched(b)) => p.accepts(b@),
        _ => false,
    }
}

/// At event `j` the busy probe found the installation free.
pub open spec fn probed_at(p: Package, events: Seq<Event>, j: int) -> bool {
    0 <= j < events.len() && p.run(events.take(j)).0 is Probe && events[j] == Event::Probed(true)
}

/// At event `j` the executable was found in staging.
pub open spec fn marked_at(p: Package, events: Seq<Event>, j: int) -> bool {
    0 <= j < events.len() && p.run(events.take(j)).0 is CheckMarker && events[j] == Event::Marker(true)
}

/// All three checks passed in the run that got `events`.
pub open spec fn checks_passed(p: Package, events: Seq<Event>) -> bool {
    (exists|j: int| accepted_at(p, events, j)) && (exists|j: int| probed_at(p, events, j))
        && (exists|j: int| marked_at(p, events, j))
}

proof fn lemma_checks_carry(p: Package, events: Seq<Event>, e: Event)
    ensures
        (exists|j: int| accepted_at(p, events, j)) ==> (exists|j: int| accepted_at(p, events.push(e), j)),
        (exists|j: int| probed_at(p, events, j)) ==> (exists|j: int| probed_at(p, events.push(e), j)),
        (exists|j: int| marked_at(p, events, j)) ==> (exists|j: int| marked_at(p, events.push(e), j)),
{
    let longer = events.push(e);
    if exists|j: int| accepted_at(p, events, j) {
        let j = choose|j: int| accepted_at(p, events, j);
        assert(longer.take(j) =~= events.take(j));
        assert(accepted_at(p, longer, j));
    }
    if exists|j: int| probed_at(p, events, j) {
        let j = choose|j: int| probed_at(p, events, j);
        assert(longer.take(j) =~= events.take(j));
        assert(probed_at(p, longer, j));
    }
    if exists|j: int| marked_at(p, events, j) {
        let j = choose|j: int| marked_at(p, events, j);
        assert(longer.take(j) =~= events.take(j));
        assert(marked_at(p, longer, j));
    }
}

/// The live installation is changed only in a run where the archive's checksum was
/// accepted, the busy probe found the installation free, and the runtime's executable
/// was found in the staging tree.
pub proof fn lemma_swap_after_checks(p: Package, events: Seq<Event>)
    ensures
        (exists|i: int| 0 <= i < p.run(events).1.len() && (#[trigger] p.run(events).1[i]).touches_live())
            ==> checks_passed(p, events),
        p.run(events).0.after_accept() ==> (exists|j: int| accepted_at(p, events, j)),
        p.run(events).0.after_probe() ==> (exists|j: int| probed_at(p, events, j)),
        p.run(events).0.after_marker() ==> (exists|j: int| marked_at(p, events, j)),
    decreases events.len(),
{
    if events.len() > 0 {
        let prev = events.drop_last();
        let e = events.last();
        let n = prev.len() as int;
        lemma_swap_after_checks(p, prev);
        assert(prev.push(e) =~= events);
        lemma_checks_carry(p, prev, e);
        assert(events.take(n) =~= prev);
        let (stage, actions) = p.run(prev);
        let (next_stage, action) = p.next(stage, e);
        assert(events[n] == e);
        if next_stage.after_accept() && !stage.after_accept() {
            assert(accepted_at(p, events, n));
        }
        if next_stage.after_probe() && !stage.after_probe() {
            assert(probed_at(p, events, n));
        }
        if next_stage.after_marker() && !stage.after_marker() {
            assert(marked_at(p, events, n));
        }
        let all = p.run(events).1;
        assert(all == actions.push(action));
        if exists|i: int| 0 <= i < all.len() && (#[trigger] all[i]).touches_live() {
            let i = choose|i: int| 0 <= i < all.len() && (#[trigger] all[i]).touches_live();
            if i < actions.len() {
                assert(actions[i] == all[i]);
            } else {
                assert(action.touches_live());
            }
        }
    }
}

/// The events of a first provisioning: nothing cached, the download has `payload`, and
/// every later step succeeds.
pub open spec fn fresh_events(payload: Vec<u8>) -> Seq<Event> {
    seq![
        Event::Cached(None),
        Event::Fetched(payload),
        Event::Done,
        Event::Probed(true),
        Event::Done,
        Event::Done,
        Event::Marker(true),
        Event::Done,
        Event::Done,
        Event::Done,
    ]
}

/// A first provisioning whose download has the expected checksum: one download, the
/// archive stored, the busy probe, extraction to staging, the executable check, the
/// swap into the target, and success.
pub proof fn lemma_fresh_provisioning(p: Package, payload: Vec<u8>)
    requires
        p.accepts(payload@),
    ensures
        p.run(fresh_events(payload)) == (Stage::Finished, seq![
            ActionModel::HashCached(p.archive()),
            ActionModel::Download(p.url(), p.archive()),
            ActionModel::StoreArchive(p.archive(), payload@),
            ActionModel::ProbeBusy(p.lib(), p.lib_renamed()),
            ActionModel::ClearStaging(p.staging()),
            ActionModel::Extract(p.archive(), p.staging()),
            ActionModel::CheckMarker(p.marker()),
            ActionModel::ClearTarget(p.target()),
            ActionModel::MoveIn(p.staging(), p.target()),
            ActionModel::RemoveStaging(p.staging()),
            ActionModel::Finish(Ok(())),
        ]),
{
    let events = fresh_events(payload);
    let expected = seq![
        ActionModel::HashCached(p.archive()),
        ActionModel::Download(p.url(), p.archive()),
        ActionModel::StoreArchive(p.archive(), payload@),
        ActionModel::ProbeBusy(p.lib(), p.lib_renamed()),
        ActionModel::ClearStaging(p.staging()),
        ActionModel::Extract(p.archive(), p.staging()),
        ActionModel::CheckMarker(p.marker()),
        ActionModel::ClearTarget(p.target()),
        ActionModel::MoveIn(p.staging(), p.target()),
        ActionModel::RemoveStaging(p.staging()),
        ActionModel::Finish(Ok(())),
    ];
    assert(events.take(0) =~= Seq::<Event>::empty());
    assert(p.run(events.take(0)).1 =~= expected.take(1));
    assert(events.take(1).drop_last() =~= events.take(0));
    assert(events.take(1).last() == events[0]);
    assert(p.run(events.take(1)).0 == Stage::Download);
    assert(p.run(events.take(1)).1 =~= expected.take(2));
    assert(events.take(2).drop_last() =~= events.take(1));
    assert(events.take(2).last() == events[1]);
    assert(p.run(events.take(2)).0 == Stage::StoreArchive);
    assert(p.run(events.take(2)).1 =~= expected.take(3));
    assert(events.take(3).drop_last() =~= events.take(2));
    assert(events.take(3).last() == events[2]);
    assert(p.run(events.take(3)).0 == Stage::Probe);
    assert(p.run(events.take(3)).1 =~= expected.take(4));
    assert(events.take(4).drop_last() =~= events.take(3));
    assert(events.take(4).last() == events[3]);
    assert(p.run(events.take(4)).0 == Stage::ClearStaging);
    assert(p.run(events.take(4)).1 =~= expected.take(5));
    assert(events.take(5).drop_last() =~= events.take(4));
    assert(events.take(5).last() == events[4]);
    assert(p.run(events.take(5)).0 == Stage::Extract);
    assert(p.run(events.take(5)).1 =~= expected.take(6));
    assert(events.take(6).drop_last() =~= events.take(5));
    assert(events.take(6).last() == events[5]);
    assert(p.run(events.take(6)).0 == Stage::CheckMarker);
    assert(p.run(events.take(6)).1 =~= expected.take(7));
    assert(events.take(7).drop_last() =~= events.take(6));
    assert(events.take(7).last() == events[6]);
    assert(p.run(events.take(7)).0 == Stage::ClearTarget);
    assert(p.run(events.take(7)).1 =~= expected.take(8));
    assert(events.take(8).drop_last() =~= events.take(7));
    assert(events.take(8).last() == events[7]);
    assert(p.run(events.take(8)).0 == Stage::MoveIn);
    assert(p.run(events.take(8)).1 =~= expected.take(9));
    assert(events.take(9).drop_last() =~= events.take(8));
    assert(events.take(9).last() == events[8]);
    assert(p.run(events.take(9)).0 == Stage::Cleanup);
    assert(p.run(events.take(9)).1 =~= expected.take(10));
    assert(events.take(10).drop_last() =~= events.take(9));
    assert(events.take(10).last() == events[9]);
    assert(p.run(events.take(10)).0 == Stage::Finished);
    assert(p.run(events.take(10)).1 =~= expected.take(11));
    assert(events.take(10) =~= events);
    assert(expected.take(11) =~= expected);
}

/// Idempotence, whichever way a run got its archive: bytes that a run accepted, from the
/// cache or from the download, are the content-addressed archive; a later run that finds
/// them cached goes straight to the busy probe, with no download. (A run that changed
/// the target accepted such bytes, by `lemma_swap_after_checks`.)
pub proof fn lemma_accepted_archive_is_reused(p: Package, events: Seq<Event>, j: int)
    requires
        accepted_at(p, events, j),
    ensures
        match events[j] {
            Event::Cached(Some(b)) => p.next(Stage::CheckCache, Event::Cached(Some(b))).0 is Probe,
            Event::Fetched(b) => p.next(Stage::CheckCache, Event::Cached(Some(b))).0 is Probe,
            _ => false,
        },
{
}

/// Whether clearing the target keeps the entry of this name: only the metadata directory.
pub fn keeps_entry(name: &str) -> (r: bool)
    ensures
        r == (name@ == METADATA_DIR@),
{
    crate::text::same_text(name, METADATA_DIR)
}

} // verus!
