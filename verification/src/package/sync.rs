//! `sync`: fetch the latest release of a declared package, unpack it into
//! the package's cache directory, run the package's build script on it, and
//! record the release as installed.
use crate::data::PackageData;
use crate::error::{GrmError, GrmErrorModel};
use crate::text::{fill_source_dir, spec_replace_all, SOURCE_PLACEHOLDER};
use vstd::prelude::*;

verus! {

/// Where a sync stands.
#[derive(Debug, Clone, Copy, PartialEq, Eq, Structural)]
pub enum SyncPhase {
    CheckDeclared,
    FetchRelease,
    CheckCache,
    RemoveCache,
    CreateCache,
    Extract,
    ReadScript,
    ListCache,
    ReadSourceDir,
    WriteScript,
    RunScript,
    SaveData,
    ReportDone,
    Finished,
    Failed,
}

/// A sync of the package `owner/repo` in progress.
#[derive(Debug)]
pub struct Synchronization {
    owner: String,
    repo: String,
    tag: String,
    script: String,
    source_index: usize,
    failure: String,
    phase: SyncPhase,
}

/// The abstract state of a sync.
pub struct SyncModel {
    pub owner: Seq<char>,
    pub repo: Seq<char>,
    /// The tag of the fetched release.
    pub tag: Seq<char>,
    /// The build script, as read and later with the source directory filled in.
    pub script: Seq<char>,
    /// The position, in the listing of the cache directory, of the unpacked
    /// source directory.
    pub source_index: int,
    /// Why the sync failed, once it has.
    pub failure: Seq<char>,
    pub phase: SyncPhase,
}

impl View for Synchronization {
    type V = SyncModel;

    closed spec fn view(&self) -> SyncModel {
        SyncModel {
            owner: self.owner@,
            repo: self.repo@,
            tag: self.tag@,
            script: self.script@,
            source_index: self.source_index as int,
            failure: self.failure@,
            phase: self.phase,
        }
    }
}

/// What came of the last action of a sync.
#[derive(Debug)]
pub enum SyncEvent {
    /// The action was carried out.
    Done,
    /// The answer to a yes/no question.
    Answer(bool),
    /// A text: the tag of the fetched release, the build script, or the path
    /// of the source directory.
    Text(String),
    /// For each entry of the cache directory, in the order listed, whether it
    /// is a directory.
    Entries(Vec<bool>),
    /// How the build script exited: whether it succeeded, and its status as shown.
    Exit { success: bool, status: String },
}

/// The abstract form of a `SyncEvent`.
pub enum SyncEventModel {
    Done,
    Answer(bool),
    Text(Seq<char>),
    Entries(Seq<bool>),
    Exit { success: bool, status: Seq<char> },
}

impl View for SyncEvent {
    type V = SyncEventModel;

    open spec fn view(&self) -> SyncEventModel {
        match self {
            SyncEvent::Done => SyncEventModel::Done,
            SyncEvent::Answer(answer) => SyncEventModel::Answer(*answer),
            SyncEvent::Text(text) => SyncEventModel::Text(text@),
            SyncEvent::Entries(dirs) => SyncEventModel::Entries(dirs@),
            SyncEvent::Exit { success, status } => SyncEventModel::Exit {
                success: *success,
                status: status@,
            },
        }
    }
}

/// What the driver of a sync must do next, and the event that reports on it.
#[derive(Debug)]
pub enum SyncAction {
    /// Can the package's data record be loaded? (`Answer`)
    LoadData,
    /// Fetch the latest release and keep its tarball. (`Text` with its tag)
    FetchRelease,
    /// Does the package's cache directory exist? (`Answer`)
    CacheExists,
    /// Remove the cache directory and everything in it.
    RemoveCacheDir,
    /// Create the cache directory, with its parents.
    CreateCacheDir,
    /// Unpack the release's gzipped tarball into the cache directory,
    /// overwriting what is there.
    ExtractArchive,
    /// Read the build script. (`Text`)
    ReadScript,
    /// List the cache directory. (`Entries`)
    ListCacheDir,
    /// The path of this entry of the listing. (`Text`)
    SourceDirPath(usize),
    /// Write this text as the build script.
    WriteScript(String),
    /// Run the build script with `bash`. (`Exit`)
    RunScript,
    /// Save this data record.
    SaveData(PackageData),
    /// Print this line.
    Print(String),
    /// The sync succeeded.
    Finish,
    /// The sync failed with this error.
    Fail(GrmError),
}

/// The abstract form of a `SyncAction`.
pub enum SyncActionModel {
    LoadData,
    FetchRelease,
    CacheExists,
    RemoveCacheDir,
    CreateCacheDir,
    ExtractArchive,
    ReadScript,
    ListCacheDir,
    SourceDirPath(int),
    WriteScript(Seq<char>),
    RunScript,
    SaveData { owner: Seq<char>, repo: Seq<char>, installed_version: Seq<char> },
    Print(Seq<char>),
    Finish,
    Fail(GrmErrorModel),
}

impl View for SyncAction {
    type V = SyncActionModel;

    open spec fn view(&self) -> SyncActionModel {
        match self {
            SyncAction::LoadData => SyncActionModel::LoadData,
            SyncAction::FetchRelease => SyncActionModel::FetchRelease,
            SyncAction::CacheExists => SyncActionModel::CacheExists,
            SyncAction::RemoveCacheDir => SyncActionModel::RemoveCacheDir,
            SyncAction::CreateCacheDir => SyncActionModel::CreateCacheDir,
            SyncAction::ExtractArchive => SyncActionModel::ExtractArchive,
            SyncAction::ReadScript => SyncActionModel::ReadScript,
            SyncAction::ListCacheDir => SyncActionModel::ListCacheDir,
            SyncAction::SourceDirPath(index) => SyncActionModel::SourceDirPath(*index as int),
            SyncAction::WriteScript(script) => SyncActionModel::WriteScript(script@),
            SyncAction::RunScript => SyncActionModel::RunScript,
            SyncAction::SaveData(data) => SyncActionModel::SaveData {
                owner: data.owner@,
                repo: data.repo@,
                installed_version: data.installed_version@,
            },
            SyncAction::Print(line) => SyncActionModel::Print(line@),
            SyncAction::Finish => SyncActionModel::Finish,
            SyncAction::Fail(error) => SyncActionModel::Fail(error@),
        }
    }
}

/// The message for a package that was never declared.
pub open spec fn spec_undeclared_message(owner: Seq<char>, repo: Seq<char>) -> Seq<char> {
    "Package '"@ + owner + "/"@ + repo + "' needs to be declared before sync, run 'grm declare "@
        + owner + " "@ + repo + "'"@
}

/// The message for a release whose tarball holds no directory.
pub open spec fn spec_no_root_message() -> Seq<char> {
    "Tarball did not contain a root directory"@
}

/// The message for a build script that failed.
pub open spec fn spec_build_failed_message(status: Seq<char>) -> Seq<char> {
    "Build script failed with status: "@ + status
}

/// Whether `i` is the position of the first directory in a listing.
pub open spec fn is_first_dir(dirs: Seq<bool>, i: int) -> bool {
    &&& 0 <= i < dirs.len()
    &&& dirs[i]
    &&& forall|k: int| 0 <= k < i ==> !dirs[k]
}

/// The position of the first directory in a listing, if there is one.
pub open spec fn spec_first_dir(dirs: Seq<bool>) -> Option<int> {
    if exists|i: int| is_first_dir(dirs, i) {
        Some(choose|i: int| is_first_dir(dirs, i))
    } else {
        None
    }
}

/// `m` moved to `phase`.
pub open spec fn sync_at(m: SyncModel, phase: SyncPhase) -> SyncModel {
    SyncModel { phase, ..m }
}

/// `m` failed with the message `failure`.
pub open spec fn sync_fail(m: SyncModel, failure: Seq<char>) -> SyncModel {
    SyncModel { failure, phase: SyncPhase::Failed, ..m }
}

/// The sync after the driver reports `event` on its current action. An
/// event that does not report on a question asked leaves the sync as it is.
pub open spec fn sync_next(m: SyncModel, event: SyncEventModel) -> SyncModel {
    match m.phase {
        SyncPhase::CheckDeclared => match event {
            SyncEventModel::Answer(true) => sync_at(m, SyncPhase::FetchRelease),
            SyncEventModel::Answer(false) => sync_fail(m, spec_undeclared_message(m.owner, m.repo)),
            _ => m,
        },
        SyncPhase::FetchRelease => match event {
            SyncEventModel::Text(tag) => SyncModel { tag, phase: SyncPhase::CheckCache, ..m },
            _ => m,
        },
        SyncPhase::CheckCache => match event {
            SyncEventModel::Answer(true) => sync_at(m, SyncPhase::RemoveCache),
            SyncEventModel::Answer(false) => sync_at(m, SyncPhase::CreateCache),
            _ => m,
        },
        SyncPhase::RemoveCache => sync_at(m, SyncPhase::CreateCache),
        SyncPhase::CreateCache => sync_at(m, SyncPhase::Extract),
        SyncPhase::Extract => sync_at(m, SyncPhase::ReadScript),
        SyncPhase::ReadScript => match event {
            SyncEventModel::Text(script) => SyncModel { script, phase: SyncPhase::ListCache, ..m },
            _ => m,
        },
        SyncPhase::ListCache => match event {
            SyncEventModel::Entries(dirs) => match spec_first_dir(dirs) {
                Some(i) => SyncModel { source_index: i, phase: SyncPhase::ReadSourceDir, ..m },
                None => sync_fail(m, spec_no_root_message()),
            },
            _ => m,
        },
        SyncPhase::ReadSourceDir => match event {
            SyncEventModel::Text(dir) => SyncModel {
                script: spec_replace_all(m.script, SOURCE_PLACEHOLDER@, dir),
                phase: SyncPhase::WriteScript,
                ..m
            },
            _ => m,
        },
        SyncPhase::WriteScript => sync_at(m, SyncPhase::RunScript),
        SyncPhase::RunScript => match event {
            SyncEventModel::Exit { success, status } => if success {
                sync_at(m, SyncPhase::SaveData)
            } else {
                sync_fail(m, spec_build_failed_message(status))
            },
            _ => m,
        },
        SyncPhase::SaveData => sync_at(m, SyncPhase::ReportDone),
        SyncPhase::ReportDone => sync_at(m, SyncPhase::Finished),
        SyncPhase::Finished => m,
        SyncPhase::Failed => m,
    }
}

/// The action that a sync asks for in its current phase.
pub open spec fn sync_action(m: SyncModel) -> SyncActionModel {
    match m.phase {
        SyncPhase::CheckDeclared => SyncActionModel::LoadData,
        SyncPhase::FetchRelease => SyncActionModel::FetchRelease,
        SyncPhase::CheckCache => SyncActionModel::CacheExists,
        SyncPhase::RemoveCache => SyncActionModel::RemoveCacheDir,
        SyncPhase::CreateCache => SyncActionModel::CreateCacheDir,
        SyncPhase::Extract => SyncActionModel::ExtractArchive,
        SyncPhase::ReadScript => SyncActionModel::ReadScript,
        SyncPhase::ListCache => SyncActionModel::ListCacheDir,
        SyncPhase::ReadSourceDir => SyncActionModel::SourceDirPath(m.source_index),
        SyncPhase::WriteScript => SyncActionModel::WriteScript(m.script),
        SyncPhase::RunScript => SyncActionModel::RunScript,
        SyncPhase::SaveData => SyncActionModel::SaveData {
            owner: m.owner,
            repo: m.repo,
            installed_version: m.tag,
        },
        SyncPhase::ReportDone => SyncActionModel::Print("Done!"@),
        SyncPhase::Finished => SyncActionModel::Finish,
        SyncPhase::Failed => SyncActionModel::Fail(GrmErrorModel::Custom(m.failure)),
    }
}

/// The position of the first directory in a listing, if there is one.
pub fn first_directory(dirs: &Vec<bool>) -> (res: Option<usize>)
    ensures
        match res {
            Some(i) => spec_first_dir(dirs@) == Some(i as int),
            None => spec_first_dir(dirs@) is None,
        },
        match res {
            Some(i) => i < dirs.len() && dirs@[i as int] && forall|k: int|
                0 <= k < i ==> !dirs@[k],
            None => forall|k: int| 0 <= k < dirs.len() ==> !dirs@[k],
        },
{
    let mut i: usize = 0;
    while i < dirs.len()
        invariant
            i <= dirs.len(),
            forall|k: int| 0 <= k < i ==> !dirs@[k],
        decreases dirs.len() - i,
    {
        if dirs[i] {
            proof {
                assert(is_first_dir(dirs@, i as int));
                let j = choose|j: int| is_first_dir(dirs@, j);
                assert(j == i as int) by {
                    if j < i {
                        assert(!dirs@[j]);
                    } else if j > i {
                        assert(!dirs@[i as int]);
                    }
                }
            }
            return Some(i);
        }
        i = i + 1;
    }
    assert(!exists|j: int| is_first_dir(dirs@, j));
    None
}

impl Synchronization {
    /// Starts syncing `owner/repo`.
    pub fn new(owner: String, repo: String) -> (res: Synchronization)
        ensures
            res@ == (SyncModel {
                owner: owner@,
                repo: repo@,
                tag: Seq::empty(),
                script: Seq::empty(),
                source_index: 0,
                failure: Seq::empty(),
                phase: SyncPhase::CheckDeclared,
            }),
    {
        Synchronization {
            owner,
            repo,
            tag: String::new(),
            script: String::new(),
            source_index: 0,
            failure: String::new(),
            phase: SyncPhase::CheckDeclared,
        }
    }

    /// The action the driver must perform next.
    pub fn action(&self) -> (res: SyncAction)
        ensures
            res@ == sync_action(self@),
    {
        match self.phase {
            SyncPhase::CheckDeclared => SyncAction::LoadData,
            SyncPhase::FetchRelease => SyncAction::FetchRelease,
            SyncPhase::CheckCache => SyncAction::CacheExists,
            SyncPhase::RemoveCache => SyncAction::RemoveCacheDir,
            SyncPhase::CreateCache => SyncAction::CreateCacheDir,
            SyncPhase::Extract => SyncAction::ExtractArchive,
            SyncPhase::ReadScript => SyncAction::ReadScript,
            SyncPhase::ListCache => SyncAction::ListCacheDir,
            SyncPhase::ReadSourceDir => SyncAction::SourceDirPath(self.source_index),
            SyncPhase::WriteScript => SyncAction::WriteScript(self.script.clone()),
            SyncPhase::RunScript => SyncAction::RunScript,
            SyncPhase::SaveData => SyncAction::SaveData(
                PackageData {
                    owner: self.owner.clone(),
                    repo: self.repo.clone(),
                    installed_version: self.tag.clone(),
                },
            ),
            SyncPhase::ReportDone => SyncAction::Print(String::from_str("Done!")),
            SyncPhase::Finished => SyncAction::Finish,
            SyncPhase::Failed => SyncAction::Fail(GrmError::Custom(self.failure.clone())),
        }
    }

    fn fail(&mut self, failure: String)
        ensures
            final(self)@ == sync_fail(old(self)@, failure@),
    {
        self.failure = failure;
        self.phase = SyncPhase::Failed;
    }

    /// Moves on, given what came of the current action.
    pub fn advance(&mut self, event: SyncEvent)
        ensures
            final(self)@ == sync_next(old(self)@, event@),
    {
        match self.phase {
            SyncPhase::CheckDeclared => match event {
                SyncEvent::Answer(true) => {
                    self.phase = SyncPhase::FetchRelease;
                },
                SyncEvent::Answer(false) => {
                    let mut m = String::from_str("Package '");
                    m.append(self.owner.as_str());
                    m.append("/");
                    m.append(self.repo.as_str());
                    m.append("' needs to be declared before sync, run 'grm declare ");
                    m.append(self.owner.as_str());
                    m.append(" ");
                    m.append(self.repo.as_str());
                    m.append("'");
                    self.fail(m);
                },
                _ => {},
            },
            SyncPhase::FetchRelease => match event {
                SyncEvent::Text(tag) => {
                    self.tag = tag;
                    self.phase = SyncPhase::CheckCache;
                },
                _ => {},
            },
            SyncPhase::CheckCache => match event {
                SyncEvent::Answer(true) => {
                    self.phase = SyncPhase::RemoveCache;
                },
                SyncEvent::Answer(false) => {
                    self.phase = SyncPhase::CreateCache;
                },
                _ => {},
            },
            SyncPhase::RemoveCache => {
                self.phase = SyncPhase::CreateCache;
            },
            SyncPhase::CreateCache => {
                self.phase = SyncPhase::Extract;
            },
            SyncPhase::Extract => {
                self.phase = SyncPhase::ReadScript;
            },
            SyncPhase::ReadScript => match event {
                SyncEvent::Text(script) => {
                    self.script = script;
                    self.phase = SyncPhase::ListCache;
                },
                _ => {},
            },
            SyncPhase::ListCache => match event {
                SyncEvent::Entries(dirs) => match first_directory(&dirs) {
                    Some(i) => {
                        self.source_index = i;
                        self.phase = SyncPhase::ReadSourceDir;
                    },
                    None => {
                        self.fail(String::from_str("Tarball did not contain a root directory"));
                    },
                },
                _ => {},
            },
            SyncPhase::ReadSourceDir => match event {
                SyncEvent::Text(dir) => {
                    self.script = fill_source_dir(self.script.as_str(), dir.as_str());
                    self.phase = SyncPhase::WriteScript;
                },
                _ => {},
            },
            SyncPhase::WriteScript => {
                self.phase = SyncPhase::RunScript;
            },
            SyncPhase::RunScript => match event {
                SyncEvent::Exit { success, status } => {
                    if success {
                        self.phase = SyncPhase::SaveData;
                    } else {
                        let mut m = String::from_str("Build script failed with status: ");
                        m.append(status.as_str());
                        self.fail(m);
                    }
                },
                _ => {},
            },
            SyncPhase::SaveData => {
                self.phase = SyncPhase::ReportDone;
            },
            SyncPhase::ReportDone => {
                self.phase = SyncPhase::Finished;
            },
            SyncPhase::Finished => {},
            SyncPhase::Failed => {},
        }
    }
}


/// A sync never changes which package it is about: whatever is reported to
/// it, its owner and repository stay as they were.
pub proof fn lemma_sync_keeps_package(m: SyncModel, event: SyncEventModel)
    ensures
        sync_next(m, event).owner == m.owner,
        sync_next(m, event).repo == m.repo,
{
}

/// What a sync finds: whether the package was declared, the tag of the
/// latest release, whether the cache directory exists, the build script,
/// which entries of the unpacked release are directories, the path of the
/// source directory, and how the build script exits.
pub struct SyncWorld {
    pub declared: bool,
    pub tag: Seq<char>,
    pub cache_exists: bool,
    pub script: Seq<char>,
    pub dirs: Seq<bool>,
    pub source_dir: Seq<char>,
    pub build_succeeds: bool,
    pub status: Seq<char>,
}

/// What `world` reports on the action of `m`.
pub open spec fn sync_event(m: SyncModel, world: SyncWorld) -> SyncEventModel {
    match m.phase {
        SyncPhase::CheckDeclared => SyncEventModel::Answer(world.declared),
        SyncPhase::FetchRelease => SyncEventModel::Text(world.tag),
        SyncPhase::CheckCache => SyncEventModel::Answer(world.cache_exists),
        SyncPhase::ReadScript => SyncEventModel::Text(world.script),
        SyncPhase::ListCache => SyncEventModel::Entries(world.dirs),
        SyncPhase::ReadSourceDir => SyncEventModel::Text(world.source_dir),
        SyncPhase::RunScript => SyncEventModel::Exit {
            success: world.build_succeeds,
            status: world.status,
        },
        _ => SyncEventModel::Done,
    }
}

/// The first `n` actions of a sync that runs against `world`.
pub open spec fn sync_run(m: SyncModel, world: SyncWorld, n: nat) -> Seq<SyncActionModel>
    decreases n,
{
    if n == 0 {
        Seq::empty()
    } else {
        seq![sync_action(m)] + sync_run(sync_next(m, sync_event(m, world)), world, (n - 1) as nat)
    }
}

/// The last actions of a sync: write the filled-in build script, run it,
/// and, when it succeeds, record `tag` as installed.
pub open spec fn sync_build_actions(
    owner: Seq<char>,
    repo: Seq<char>,
    tag: Seq<char>,
    script: Seq<char>,
    world: SyncWorld,
) -> Seq<SyncActionModel> {
    seq![SyncActionModel::WriteScript(script), SyncActionModel::RunScript] + if world.build_succeeds {
        seq![
            SyncActionModel::SaveData { owner, repo, installed_version: tag },
            SyncActionModel::Print("Done!"@),
            SyncActionModel::Finish,
        ]
    } else {
        seq![SyncActionModel::Fail(GrmErrorModel::Custom(spec_build_failed_message(world.status)))]
    }
}

/// Everything a sync of `owner/repo` does against `world`, in order.
pub open spec fn sync_plan(owner: Seq<char>, repo: Seq<char>, world: SyncWorld) -> Seq<
    SyncActionModel,
> {
    if !world.declared {
        seq![
            SyncActionModel::LoadData,
            SyncActionModel::Fail(GrmErrorModel::Custom(spec_undeclared_message(owner, repo))),
        ]
    } else {
        seq![
            SyncActionModel::LoadData,
            SyncActionModel::FetchRelease,
            SyncActionModel::CacheExists,
        ] + (if world.cache_exists {
            seq![SyncActionModel::RemoveCacheDir]
        } else {
            Seq::empty()
        }) + seq![
            SyncActionModel::CreateCacheDir,
            SyncActionModel::ExtractArchive,
            SyncActionModel::ReadScript,
            SyncActionModel::ListCacheDir,
        ] + match spec_first_dir(world.dirs) {
            None => seq![SyncActionModel::Fail(GrmErrorModel::Custom(spec_no_root_message()))],
            Some(i) => seq![SyncActionModel::SourceDirPath(i)] + sync_build_actions(
                owner,
                repo,
                world.tag,
                spec_replace_all(world.script, SOURCE_PLACEHOLDER@, world.source_dir),
                world,
            ),
        }
    }
}

/// How many steps a sync in `phase` has left at most.
pub open spec fn sync_rank(phase: SyncPhase) -> nat {
    match phase {
        SyncPhase::CheckDeclared => 13,
        SyncPhase::FetchRelease => 12,
        SyncPhase::CheckCache => 11,
        SyncPhase::RemoveCache => 10,
        SyncPhase::CreateCache => 9,
        SyncPhase::Extract => 8,
        SyncPhase::ReadScript => 7,
        SyncPhase::ListCache => 6,
        SyncPhase::ReadSourceDir => 5,
        SyncPhase::WriteScript => 4,
        SyncPhase::RunScript => 3,
        SyncPhase::SaveData => 2,
        SyncPhase::ReportDone => 1,
        SyncPhase::Finished => 0,
        SyncPhase::Failed => 0,
    }
}

/// Whether a sync in `phase` is over.
pub open spec fn sync_is_over(phase: SyncPhase) -> bool {
    phase == SyncPhase::Finished || phase == SyncPhase::Failed
}

/// The actions a sync performs against `world` from `m` until it is over,
/// ending with `Finish` or `Fail`.
pub open spec fn sync_remaining(m: SyncModel, world: SyncWorld) -> Seq<SyncActionModel>
    decreases sync_rank(m.phase),
{
    if sync_is_over(m.phase) {
        seq![sync_action(m)]
    } else {
        let next = sync_next(m, sync_event(m, world));
        if sync_rank(next.phase) < sync_rank(m.phase) {
            seq![sync_action(m)] + sync_remaining(next, world)
        } else {
            seq![sync_action(m)]
        }
    }
}

proof fn lemma_sync_rank_decreases(m: SyncModel, world: SyncWorld)
    requires
        !sync_is_over(m.phase),
    ensures
        sync_rank(sync_next(m, sync_event(m, world)).phase) < sync_rank(m.phase),
{
}

proof fn lemma_sync_run_remaining(m: SyncModel, world: SyncWorld)
    ensures
        sync_run(m, world, sync_remaining(m, world).len()) == sync_remaining(m, world),
    decreases sync_rank(m.phase),
{
    if !sync_is_over(m.phase) {
        let next = sync_next(m, sync_event(m, world));
        lemma_sync_rank_decreases(m, world);
        lemma_sync_run_remaining(next, world);
        let rest = sync_remaining(next, world);
        assert(sync_run(m, world, rest.len() + 1) =~= seq![sync_action(m)] + sync_run(
            next,
            world,
            rest.len(),
        ));
    } else {
        reveal_with_fuel(sync_run, 2);
    }
}

proof fn lemma_sync_build_part(m: SyncModel, world: SyncWorld)
    requires
        m.phase == SyncPhase::WriteScript,
    ensures
        sync_remaining(m, world) == sync_build_actions(m.owner, m.repo, m.tag, m.script, world),
{
    reveal_with_fuel(sync_remaining, 5);
    if world.build_succeeds {
        assert(sync_remaining(m, world) =~= sync_build_actions(
            m.owner,
            m.repo,
            m.tag,
            m.script,
            world,
        ));
    } else {
        assert(sync_remaining(m, world) =~= sync_build_actions(
            m.owner,
            m.repo,
            m.tag,
            m.script,
            world,
        ));
    }
}

proof fn lemma_sync_list_part(m: SyncModel, world: SyncWorld)
    requires
        m.phase == SyncPhase::ListCache,
    ensures
        sync_remaining(m, world) == seq![SyncActionModel::ListCacheDir] + match spec_first_dir(
            world.dirs,
        ) {
            None => seq![SyncActionModel::Fail(GrmErrorModel::Custom(spec_no_root_message()))],
            Some(i) => seq![SyncActionModel::SourceDirPath(i)] + sync_build_actions(
                m.owner,
                m.repo,
                m.tag,
                spec_replace_all(m.script, SOURCE_PLACEHOLDER@, world.source_dir),
                world,
            ),
        },
{
    reveal_with_fuel(sync_remaining, 3);
    match spec_first_dir(world.dirs) {
        None => {
            assert(sync_remaining(m, world) =~= seq![SyncActionModel::ListCacheDir] + seq![
                SyncActionModel::Fail(GrmErrorModel::Custom(spec_no_root_message())),
            ]);
        },
        Some(i) => {
            let at_source = SyncModel { source_index: i, phase: SyncPhase::ReadSourceDir, ..m };
            let at_write = SyncModel {
                script: spec_replace_all(m.script, SOURCE_PLACEHOLDER@, world.source_dir),
                phase: SyncPhase::WriteScript,
                ..at_source
            };
            lemma_sync_build_part(at_write, world);
            assert(sync_remaining(m, world) =~= seq![SyncActionModel::ListCacheDir] + seq![
                SyncActionModel::SourceDirPath(i),
            ] + sync_remaining(at_write, world));
        },
    }
}

/// A sync first checks that the package was declared, and fails at once
/// with the message that asks to declare it when it was not. Otherwise it
/// fetches the latest release, replaces the cache directory (removing it
/// first when it exists), unpacks the release there, reads the build script
/// and lists the cache directory; it fails when the listing holds no
/// directory, and otherwise writes the build script with every
/// `{{SOURCE_CODE}}` replaced by the path of the first directory, runs it,
/// fails with its status when it fails, and else records the release's tag
/// as the package's installed version, prints `Done!` and finishes.
pub proof fn lemma_sync_plan(m: SyncModel, world: SyncWorld)
    requires
        m.phase == SyncPhase::CheckDeclared,
    ensures
        sync_run(m, world, sync_plan(m.owner, m.repo, world).len()) == sync_plan(
            m.owner,
            m.repo,
            world,
        ),
{
    let plan = sync_plan(m.owner, m.repo, world);
    if !world.declared {
        reveal_with_fuel(sync_remaining, 3);
        assert(sync_remaining(m, world) =~= plan);
    } else {
        let at_list = SyncModel {
            tag: world.tag,
            script: world.script,
            phase: SyncPhase::ListCache,
            ..m
        };
        lemma_sync_list_part(at_list, world);
        reveal_with_fuel(sync_remaining, 9);
        let rest = sync_remaining(at_list, world);
        if world.cache_exists {
            assert(sync_remaining(m, world) =~= seq![
                SyncActionModel::LoadData,
                SyncActionModel::FetchRelease,
                SyncActionModel::CacheExists,
            ] + seq![SyncActionModel::RemoveCacheDir] + seq![
                SyncActionModel::CreateCacheDir,
                SyncActionModel::ExtractArchive,
                SyncActionModel::ReadScript,
            ] + rest);
        } else {
            assert(sync_remaining(m, world) =~= seq![
                SyncActionModel::LoadData,
                SyncActionModel::FetchRelease,
                SyncActionModel::CacheExists,
            ] + seq![
                SyncActionModel::CreateCacheDir,
                SyncActionModel::ExtractArchive,
                SyncActionModel::ReadScript,
            ] + rest);
        }
        assert(sync_remaining(m, world) =~= plan);
    }
    lemma_sync_run_remaining(m, world);
}


/// A sync runs the build script only for a declared package, after
/// unpacking the release and writing the script with the source directory
/// filled in; it records the package only after the script succeeded.
pub proof fn lemma_sync_order(owner: Seq<char>, repo: Seq<char>, world: SyncWorld)
    ensures
        forall|i: int|
            0 < i < sync_plan(owner, repo, world).len() && #[trigger] sync_plan(
                owner,
                repo,
                world,
            )[i] is RunScript ==> {
                &&& world.declared
                &&& spec_first_dir(world.dirs) is Some
                &&& sync_plan(owner, repo, world)[i - 1] == SyncActionModel::WriteScript(
                    spec_replace_all(world.script, SOURCE_PLACEHOLDER@, world.source_dir),
                )
                &&& exists|j: int|
                    0 <= j < i && #[trigger] sync_plan(owner, repo, world)[j]
                        is ExtractArchive
            },
        forall|i: int|
            0 <= i < sync_plan(owner, repo, world).len() && #[trigger] sync_plan(
                owner,
                repo,
                world,
            )[i] is SaveData ==> {
                &&& world.build_succeeds
                &&& exists|j: int|
                    0 <= j < i && #[trigger] sync_plan(owner, repo, world)[j] is RunScript
            },
{
    let plan = sync_plan(owner, repo, world);
    if world.declared {
        let c: int = if world.cache_exists {
            1
        } else {
            0
        };
        assert(plan[4 + c] is ExtractArchive);
        match spec_first_dir(world.dirs) {
            None => {},
            Some(k) => {
                let script = spec_replace_all(world.script, SOURCE_PLACEHOLDER@, world.source_dir);
                let build = sync_build_actions(owner, repo, world.tag, script, world);
                assert(plan[8 + c] == SyncActionModel::WriteScript(script));
                assert(plan[9 + c] is RunScript);
                assert forall|i: int|
                    0 < i < plan.len() && #[trigger] plan[i] is RunScript implies i == 9 + c by {
                    if i != 9 + c {
                        assert(!(plan[i] is RunScript));
                    }
                }
                assert forall|i: int|
                    0 <= i < plan.len() && #[trigger] plan[i] is SaveData implies world.build_succeeds
                    && i == 10 + c by {
                    if !world.build_succeeds || i != 10 + c {
                        assert(!(plan[i] is SaveData));
                    }
                }
            },
        }
    }
}


proof fn lemma_first_dir_found(dirs: Seq<bool>, k: int)
    requires
        0 <= k < dirs.len(),
        dirs[k],
    ensures
        spec_first_dir(dirs) matches Some(i) && is_first_dir(dirs, i),
    decreases k,
{
    if forall|j: int| 0 <= j < k ==> !dirs[j] {
        assert(is_first_dir(dirs, k));
    } else {
        let j = choose|j: int| 0 <= j < k && dirs[j];
        lemma_first_dir_found(dirs, j);
    }
}

/// What a sync does, in terms of what it finds. A package that was never
/// declared fails at once, asking to be declared. Otherwise: the cache
/// directory is removed exactly when it exists; the build script written is
/// the one read with every `{{SOURCE_CODE}}` replaced by the path of the
/// first directory of the unpacked release; a record is saved only after the
/// script succeeded, and it is `(owner, repo, fetched tag)`; without a
/// directory the sync fails saying so, and a failing script fails with its
/// status; a successful sync ends by finishing.
pub proof fn lemma_sync_outcome(m: SyncModel, world: SyncWorld)
    requires
        m.phase == SyncPhase::CheckDeclared,
    ensures
        ({
            let run = sync_run(m, world, sync_plan(m.owner, m.repo, world).len());
            &&& !world.declared ==> run == seq![
                SyncActionModel::LoadData,
                SyncActionModel::Fail(
                    GrmErrorModel::Custom(
                        "Package '"@ + m.owner + "/"@ + m.repo
                            + "' needs to be declared before sync, run 'grm declare "@ + m.owner
                            + " "@ + m.repo + "'"@,
                    ),
                ),
            ]
            &&& forall|i: int|
                0 <= i < run.len() ==> {
                    &&& (#[trigger] run[i] matches SyncActionModel::SaveData {
                        owner,
                        repo,
                        installed_version,
                    } ==> owner == m.owner && repo == m.repo && installed_version == world.tag
                        && world.declared && world.build_succeeds)
                    &&& (run[i] matches SyncActionModel::WriteScript(text) ==> text
                        == spec_replace_all(world.script, "{{SOURCE_CODE}}"@, world.source_dir))
                    &&& (run[i] matches SyncActionModel::SourceDirPath(k) ==> 0 <= k
                        < world.dirs.len() && world.dirs[k] && forall|j: int|
                        0 <= j < k ==> !world.dirs[j])
                    &&& (run[i] is RemoveCacheDir ==> world.cache_exists)
                }
            &&& world.declared && world.cache_exists ==> exists|i: int|
                0 <= i < run.len() && #[trigger] run[i] is RemoveCacheDir
            &&& world.declared && (forall|k: int| 0 <= k < world.dirs.len() ==> !world.dirs[k])
                ==> run[run.len() - 1] == SyncActionModel::Fail(
                GrmErrorModel::Custom("Tarball did not contain a root directory"@),
            )
            &&& world.declared && (exists|k: int| 0 <= k < world.dirs.len() && world.dirs[k])
                && world.build_succeeds ==> run[run.len() - 1] == SyncActionModel::Finish
                && run[run.len() - 3] == (SyncActionModel::SaveData {
                owner: m.owner,
                repo: m.repo,
                installed_version: world.tag,
            })
            &&& world.declared && (exists|k: int| 0 <= k < world.dirs.len() && world.dirs[k])
                && !world.build_succeeds ==> run[run.len() - 1] == SyncActionModel::Fail(
                GrmErrorModel::Custom("Build script failed with status: "@ + world.status),
            )
            &&& forall|i: int|
                0 < i < run.len() && #[trigger] run[i] is RunScript ==> run[i - 1] is WriteScript
                    && exists|j: int| 0 <= j < i && #[trigger] run[j] is ExtractArchive
            &&& forall|i: int|
                0 <= i < run.len() && #[trigger] run[i] is SaveData ==> exists|j: int|
                    0 <= j < i && #[trigger] run[j] is RunScript
            &&& run.len() > 0 && !(run[0] is RunScript)
        }),
{
    lemma_sync_plan(m, world);
    lemma_sync_order(m.owner, m.repo, world);
    reveal_strlit("{{SOURCE_CODE}}");
    let run = sync_run(m, world, sync_plan(m.owner, m.repo, world).len());
    let head = seq![
        SyncActionModel::LoadData,
        SyncActionModel::FetchRelease,
        SyncActionModel::CacheExists,
    ];
    let cache: Seq<SyncActionModel> = if world.cache_exists {
        seq![SyncActionModel::RemoveCacheDir]
    } else {
        Seq::empty()
    };
    let mid = seq![
        SyncActionModel::CreateCacheDir,
        SyncActionModel::ExtractArchive,
        SyncActionModel::ReadScript,
        SyncActionModel::ListCacheDir,
    ];
    if world.declared {
        if exists|k: int| 0 <= k < world.dirs.len() && world.dirs[k] {
            let k = choose|k: int| 0 <= k < world.dirs.len() && world.dirs[k];
            lemma_first_dir_found(world.dirs, k);
        }
        let tail = sync_plan(m.owner, m.repo, world).subrange(
            (head + cache + mid).len() as int,
            run.len() as int,
        );
        assert(run =~= head + cache + mid + tail);
        let c = cache.len() as int;
        assert forall|i: int| 0 <= i < run.len() implies {
            &&& (#[trigger] run[i] matches SyncActionModel::SaveData {
                owner,
                repo,
                installed_version,
            } ==> owner == m.owner && repo == m.repo && installed_version == world.tag
                && world.declared && world.build_succeeds)
            &&& (run[i] matches SyncActionModel::WriteScript(text) ==> text == spec_replace_all(
                world.script,
                "{{SOURCE_CODE}}"@,
                world.source_dir,
            ))
            &&& (run[i] matches SyncActionModel::SourceDirPath(k) ==> 0 <= k < world.dirs.len()
                && world.dirs[k] && forall|j: int| 0 <= j < k ==> !world.dirs[j])
            &&& (run[i] is RemoveCacheDir ==> world.cache_exists)
        } by {
            if i >= 7 + c {
                assert(run[i] == tail[i - 7 - c]);
            } else if i >= 3 + c {
                assert(run[i] == mid[i - 3 - c]);
            } else if i >= 3 {
                assert(run[i] == cache[i - 3]);
            } else {
                assert(run[i] == head[i]);
            }
        }
        if world.cache_exists {
            assert(run[3] is RemoveCacheDir);
        }
    }
}

} // verus!
