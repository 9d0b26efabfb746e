//! `remove`: delete the files a package installed, its data record and its
//! cache directory, and, when asked, its config directory.
use crate::config::PackageConfig;
use crate::error::{GrmError, GrmErrorModel};
use vstd::prelude::*;

verus! {

/// The message for a package without a configuration.
pub open spec fn spec_no_config_message() -> Seq<char> {
    "No package configuration file exists, unable to remove package. Remove manually if desired."@
}

/// The message for a file that could not be deleted.
pub open spec fn spec_delete_failed_message() -> Seq<char> {
    "Failed to remove file with sudo."@
}

/// The configuration that `remove` works from, given the outcome of loading
/// it: a configuration that does not exist is reported as such, any other
/// failure is passed on unchanged.
pub fn config_for_removal(loaded: Result<PackageConfig, GrmError>) -> (res: Result<
    PackageConfig,
    GrmError,
>)
    ensures
        match loaded {
            Err(GrmError::Io(failure)) => if failure.not_found {
                res matches Err(e) && e@ == GrmErrorModel::Custom(spec_no_config_message())
                    && e@ == GrmErrorModel::Custom(
                    "No package configuration file exists, unable to remove package. Remove manually if desired."@,
                )
            } else {
                res == loaded
            },
            _ => res == loaded,
        },
{
    match loaded {
        Err(GrmError::Io(failure)) => {
            if failure.not_found {
                Err(
                    GrmError::Custom(
                        String::from_str(
                            "No package configuration file exists, unable to remove package. Remove manually if desired.",
                        ),
                    ),
                )
            } else {
                Err(GrmError::Io(failure))
            }
        },
        other => other,
    }
}

/// Where a removal stands.
#[derive(Debug, Clone, Copy, PartialEq, Eq, Structural)]
pub enum RemovePhase {
    CheckBinary,
    DeleteBinary,
    ReportBinary,
    CheckData,
    RemoveData,
    ReportData,
    CheckCache,
    RemoveCache,
    ReportCache,
    RemoveConfig,
    ReportConfig,
    ReportDone,
    Finished,
    Failed,
}

/// A removal of a package in progress.
#[derive(Debug)]
pub struct Removal {
    binaries: Vec<String>,
    next: usize,
    remove_config: bool,
    data_file_shown: String,
    cache_dir_shown: String,
    config_dir_shown: String,
    phase: RemovePhase,
}

/// Whether `phase` is about the binary at `next`.
pub open spec fn remove_at_binary(phase: RemovePhase) -> bool {
    phase == RemovePhase::CheckBinary || phase == RemovePhase::DeleteBinary || phase
        == RemovePhase::ReportBinary
}

/// The abstract state of a removal.
pub struct RemovalModel {
    /// The files the package installed, as listed in its configuration.
    pub binaries: Seq<Seq<char>>,
    /// The position of the binary being handled.
    pub next: int,
    /// Whether the config directory goes too.
    pub remove_config: bool,
    /// How the data file, the cache directory and the config directory are shown.
    pub data_file_shown: Seq<char>,
    pub cache_dir_shown: Seq<char>,
    pub config_dir_shown: Seq<char>,
    pub phase: RemovePhase,
}

impl View for Removal {
    type V = RemovalModel;

    closed spec fn view(&self) -> RemovalModel {
        RemovalModel {
            binaries: self.binaries@.map_values(|b: String| b@),
            next: self.next as int,
            remove_config: self.remove_config,
            data_file_shown: self.data_file_shown@,
            cache_dir_shown: self.cache_dir_shown@,
            config_dir_shown: self.config_dir_shown@,
            phase: self.phase,
        }
    }
}

/// What the driver of a removal must do next. The actions `BinaryExists`,
/// `DeleteBinary`, `DataFileExists` and `CacheDirExists` ask a question:
/// whether the file or directory exists, or whether the deletion succeeded.
/// The answer to every other action is ignored.
#[derive(Debug)]
pub enum RemoveAction {
    /// Does this installed file exist?
    BinaryExists(String),
    /// Delete this installed file with `sudo rm -r`; did it succeed?
    DeleteBinary(String),
    /// Does the data file exist?
    DataFileExists,
    /// Delete the data file.
    RemoveDataFile,
    /// Does the cache directory exist?
    CacheDirExists,
    /// Delete the cache directory and everything in it.
    RemoveCacheDir,
    /// Delete the config directory and everything in it.
    RemoveConfigDir,
    /// Print this line.
    Print(String),
    /// The removal succeeded.
    Finish,
    /// The removal failed with this error.
    Fail(GrmError),
}

/// The abstract form of a `RemoveAction`.
pub enum RemoveActionModel {
    BinaryExists(Seq<char>),
    DeleteBinary(Seq<char>),
    DataFileExists,
    RemoveDataFile,
    CacheDirExists,
    RemoveCacheDir,
    RemoveConfigDir,
    Print(Seq<char>),
    Finish,
    Fail(GrmErrorModel),
}

impl View for RemoveAction {
    type V = RemoveActionModel;

    open spec fn view(&self) -> RemoveActionModel {
        match self {
            RemoveAction::BinaryExists(path) => RemoveActionModel::BinaryExists(path@),
            RemoveAction::DeleteBinary(path) => RemoveActionModel::DeleteBinary(path@),
            RemoveAction::DataFileExists => RemoveActionModel::DataFileExists,
            RemoveAction::RemoveDataFile => RemoveActionModel::RemoveDataFile,
            RemoveAction::CacheDirExists => RemoveActionModel::CacheDirExists,
            RemoveAction::RemoveCacheDir => RemoveActionModel::RemoveCacheDir,
            RemoveAction::RemoveConfigDir => RemoveActionModel::RemoveConfigDir,
            RemoveAction::Print(line) => RemoveActionModel::Print(line@),
            RemoveAction::Finish => RemoveActionModel::Finish,
            RemoveAction::Fail(error) => RemoveActionModel::Fail(error@),
        }
    }
}

/// The removal moved on to the binary at `k`, or past the binaries when there
/// is none.
pub open spec fn remove_from_binary(m: RemovalModel, k: int) -> RemovalModel {
    RemovalModel {
        next: k,
        phase: if k < m.binaries.len() {
            RemovePhase::CheckBinary
        } else {
            RemovePhase::CheckData
        },
        ..m
    }
}

/// `m` moved to `phase`.
pub open spec fn remove_at(m: RemovalModel, phase: RemovePhase) -> RemovalModel {
    RemovalModel { phase, ..m }
}

/// What follows the cache directory: the config directory when it goes too.
pub open spec fn remove_after_cache(m: RemovalModel) -> RemovalModel {
    remove_at(
        m,
        if m.remove_config {
            RemovePhase::RemoveConfig
        } else {
            RemovePhase::ReportDone
        },
    )
}

/// The removal after the driver answers `answer` to its current action.
pub open spec fn remove_next(m: RemovalModel, answer: bool) -> RemovalModel {
    match m.phase {
        RemovePhase::CheckBinary => if answer {
            remove_at(m, RemovePhase::DeleteBinary)
        } else {
            remove_from_binary(m, m.next + 1)
        },
        RemovePhase::DeleteBinary => if answer {
            remove_at(m, RemovePhase::ReportBinary)
        } else {
            remove_at(m, RemovePhase::Failed)
        },
        RemovePhase::ReportBinary => remove_from_binary(m, m.next + 1),
        RemovePhase::CheckData => if answer {
            remove_at(m, RemovePhase::RemoveData)
        } else {
            remove_at(m, RemovePhase::CheckCache)
        },
        RemovePhase::RemoveData => remove_at(m, RemovePhase::ReportData),
        RemovePhase::ReportData => remove_at(m, RemovePhase::CheckCache),
        RemovePhase::CheckCache => if answer {
            remove_at(m, RemovePhase::RemoveCache)
        } else {
            remove_after_cache(m)
        },
        RemovePhase::RemoveCache => remove_at(m, RemovePhase::ReportCache),
        RemovePhase::ReportCache => remove_after_cache(m),
        RemovePhase::RemoveConfig => remove_at(m, RemovePhase::ReportConfig),
        RemovePhase::ReportConfig => remove_at(m, RemovePhase::ReportDone),
        RemovePhase::ReportDone => remove_at(m, RemovePhase::Finished),
        RemovePhase::Finished => m,
        RemovePhase::Failed => m,
    }
}

/// The action that a removal asks for in its current phase.
pub open spec fn remove_action(m: RemovalModel) -> RemoveActionModel {
    match m.phase {
        RemovePhase::CheckBinary => RemoveActionModel::BinaryExists(m.binaries[m.next]),
        RemovePhase::DeleteBinary => RemoveActionModel::DeleteBinary(m.binaries[m.next]),
        RemovePhase::ReportBinary => RemoveActionModel::Print(
            "File removed: "@ + m.binaries[m.next],
        ),
        RemovePhase::CheckData => RemoveActionModel::DataFileExists,
        RemovePhase::RemoveData => RemoveActionModel::RemoveDataFile,
        RemovePhase::ReportData => RemoveActionModel::Print("File removed: "@ + m.data_file_shown),
        RemovePhase::CheckCache => RemoveActionModel::CacheDirExists,
        RemovePhase::RemoveCache => RemoveActionModel::RemoveCacheDir,
        RemovePhase::ReportCache => RemoveActionModel::Print(
            "Directory removed: "@ + m.cache_dir_shown,
        ),
        RemovePhase::RemoveConfig => RemoveActionModel::RemoveConfigDir,
        RemovePhase::ReportConfig => RemoveActionModel::Print(
            "Directory removed: "@ + m.config_dir_shown,
        ),
        RemovePhase::ReportDone => RemoveActionModel::Print("Done!"@),
        RemovePhase::Finished => RemoveActionModel::Finish,
        RemovePhase::Failed => RemoveActionModel::Fail(
            GrmErrorModel::Custom(spec_delete_failed_message()),
        ),
    }
}

impl Removal {
    #[verifier::type_invariant]
    spec fn well_formed(self) -> bool {
        &&& self.next <= self.binaries.len()
        &&& remove_at_binary(self.phase) ==> self.next < self.binaries.len()
    }

    /// Starts removing a package whose configuration lists `binaries`. With
    /// `remove_config`, its config directory goes too. The other arguments
    /// are how the data file, the cache directory and the config directory
    /// are shown in messages.
    pub fn new(
        binaries: Vec<String>,
        remove_config: bool,
        data_file_shown: String,
        cache_dir_shown: String,
        config_dir_shown: String,
    ) -> (res: Removal)
        ensures
            res@ == remove_from_binary(
                RemovalModel {
                    binaries: binaries@.map_values(|b: String| b@),
                    next: 0,
                    remove_config,
                    data_file_shown: data_file_shown@,
                    cache_dir_shown: cache_dir_shown@,
                    config_dir_shown: config_dir_shown@,
                    phase: RemovePhase::CheckBinary,
                },
                0,
            ),
            res@.binaries == binaries@.map_values(|b: String| b@),
            res@.next == 0,
            res@.remove_config == remove_config,
            res@.data_file_shown == data_file_shown@,
            res@.cache_dir_shown == cache_dir_shown@,
            res@.config_dir_shown == config_dir_shown@,
            binaries.len() > 0 ==> res@.phase == RemovePhase::CheckBinary,
            binaries.len() == 0 ==> res@.phase == RemovePhase::CheckData,
    {
        let phase = if 0 < binaries.len() {
            RemovePhase::CheckBinary
        } else {
            RemovePhase::CheckData
        };
        Removal {
            binaries,
            next: 0,
            remove_config,
            data_file_shown,
            cache_dir_shown,
            config_dir_shown,
            phase,
        }
    }

    fn shown_line(prefix: &str, shown: &str) -> (res: String)
        ensures
            res@ == prefix@ + shown@,
    {
        let mut res = String::from_str(prefix);
        res.append(shown);
        res
    }

    /// The action the driver must perform next.
    pub fn action(&self) -> (res: RemoveAction)
        ensures
            res@ == remove_action(self@),
    {
        proof {
            use_type_invariant(self);
        }
        match self.phase {
            RemovePhase::CheckBinary => RemoveAction::BinaryExists(
                self.binaries[self.next].clone(),
            ),
            RemovePhase::DeleteBinary => RemoveAction::DeleteBinary(
                self.binaries[self.next].clone(),
            ),
            RemovePhase::ReportBinary => RemoveAction::Print(
                Self::shown_line("File removed: ", self.binaries[self.next].as_str()),
            ),
            RemovePhase::CheckData => RemoveAction::DataFileExists,
            RemovePhase::RemoveData => RemoveAction::RemoveDataFile,
            RemovePhase::ReportData => RemoveAction::Print(
                Self::shown_line("File removed: ", self.data_file_shown.as_str()),
            ),
            RemovePhase::CheckCache => RemoveAction::CacheDirExists,
            RemovePhase::RemoveCache => RemoveAction::RemoveCacheDir,
            RemovePhase::ReportCache => RemoveAction::Print(
                Self::shown_line("Directory removed: ", self.cache_dir_shown.as_str()),
            ),
            RemovePhase::RemoveConfig => RemoveAction::RemoveConfigDir,
            RemovePhase::ReportConfig => RemoveAction::Print(
                Self::shown_line("Directory removed: ", self.config_dir_shown.as_str()),
            ),
            RemovePhase::ReportDone => RemoveAction::Print(String::from_str("Done!")),
            RemovePhase::Finished => RemoveAction::Finish,
            RemovePhase::Failed => RemoveAction::Fail(
                GrmError::Custom(String::from_str("Failed to remove file with sudo.")),
            ),
        }
    }

    /// Moves past the binary being handled.
    fn next_binary(&mut self)
        requires
            remove_at_binary(old(self).phase),
        ensures
            final(self)@ == remove_from_binary(old(self)@, old(self)@.next + 1),
    {
        proof {
            use_type_invariant(&*self);
        }
        let k = self.next + 1;
        if k < self.binaries.len() {
            self.next = k;
            self.phase = RemovePhase::CheckBinary;
        } else {
            self.phase = RemovePhase::CheckData;
            self.next = k;
        }
    }

    /// Moves past the cache directory.
    fn after_cache(&mut self)
        ensures
            final(self)@ == remove_after_cache(old(self)@),
    {
        proof {
            use_type_invariant(&*self);
        }
        if self.remove_config {
            self.phase = RemovePhase::RemoveConfig;
        } else {
            self.phase = RemovePhase::ReportDone;
        }
    }

    /// Moves on, given what came of the current action.
    pub fn advance(&mut self, answer: bool)
        ensures
            final(self)@ == remove_next(old(self)@, answer),
    {
        proof {
            use_type_invariant(&*self);
        }
        match self.phase {
            RemovePhase::CheckBinary => if answer {
                self.phase = RemovePhase::DeleteBinary;
            } else {
                self.next_binary();
            },
            RemovePhase::DeleteBinary => if answer {
                self.phase = RemovePhase::ReportBinary;
            } else {
                self.phase = RemovePhase::Failed;
            },
            RemovePhase::ReportBinary => self.next_binary(),
            RemovePhase::CheckData => if answer {
                self.phase = RemovePhase::RemoveData;
            } else {
                self.phase = RemovePhase::CheckCache;
            },
            RemovePhase::RemoveData => {
                self.phase = RemovePhase::ReportData;
            },
            RemovePhase::ReportData => {
                self.phase = RemovePhase::CheckCache;
            },
            RemovePhase::CheckCache => if answer {
                self.phase = RemovePhase::RemoveCache;
            } else {
                self.after_cache();
            },
            RemovePhase::RemoveCache => {
                self.phase = RemovePhase::ReportCache;
            },
            RemovePhase::ReportCache => self.after_cache(),
            RemovePhase::RemoveConfig => {
                self.phase = RemovePhase::ReportConfig;
            },
            RemovePhase::ReportConfig => {
                self.phase = RemovePhase::ReportDone;
            },
            RemovePhase::ReportDone => {
                self.phase = RemovePhase::Finished;
            },
            RemovePhase::Finished => {},
            RemovePhase::Failed => {},
        }
    }
}


/// What a removal finds: for each listed binary whether it exists and
/// whether deleting it succeeds, and whether the data file and the cache
/// directory exist.
pub struct RemoveWorld {
    pub present: Seq<bool>,
    pub deletable: Seq<bool>,
    pub data_exists: bool,
    pub cache_exists: bool,
}

/// The answer that `world` gives to the action of `m`.
pub open spec fn remove_answer(m: RemovalModel, world: RemoveWorld) -> bool {
    match m.phase {
        RemovePhase::CheckBinary => world.present[m.next],
        RemovePhase::DeleteBinary => world.deletable[m.next],
        RemovePhase::CheckData => world.data_exists,
        RemovePhase::CheckCache => world.cache_exists,
        _ => false,
    }
}

/// The first `n` actions of a removal that runs against `world`.
pub open spec fn remove_run(m: RemovalModel, world: RemoveWorld, n: nat) -> Seq<RemoveActionModel>
    decreases n,
{
    if n == 0 {
        Seq::empty()
    } else {
        seq![remove_action(m)] + remove_run(
            remove_next(m, remove_answer(m, world)),
            world,
            (n - 1) as nat,
        )
    }
}

/// Whether `action` deletes only what `world` says exists, and the config
/// directory only when `m` was asked to.
pub open spec fn remove_action_allowed(
    m: RemovalModel,
    world: RemoveWorld,
    action: RemoveActionModel,
) -> bool {
    match action {
        RemoveActionModel::DeleteBinary(path) => exists|k: int|
            0 <= k < m.binaries.len() && m.binaries[k] == path && #[trigger] world.present[k],
        RemoveActionModel::RemoveDataFile => world.data_exists,
        RemoveActionModel::RemoveCacheDir => world.cache_exists,
        RemoveActionModel::RemoveConfigDir => m.remove_config,
        _ => true,
    }
}

/// Whether the phase of a removal agrees with what `world` answered.
spec fn remove_consistent(m: RemovalModel, world: RemoveWorld) -> bool {
    &&& 0 <= m.next
    &&& remove_at_binary(m.phase) ==> m.next < m.binaries.len()
    &&& (m.phase == RemovePhase::DeleteBinary || m.phase == RemovePhase::ReportBinary)
        ==> world.present[m.next]
    &&& (m.phase == RemovePhase::RemoveData || m.phase == RemovePhase::ReportData)
        ==> world.data_exists
    &&& (m.phase == RemovePhase::RemoveCache || m.phase == RemovePhase::ReportCache)
        ==> world.cache_exists
    &&& (m.phase == RemovePhase::RemoveConfig || m.phase == RemovePhase::ReportConfig)
        ==> m.remove_config
}

proof fn lemma_remove_consistent_run(m: RemovalModel, world: RemoveWorld, n: nat)
    requires
        remove_consistent(m, world),
    ensures
        forall|i: int|
            0 <= i < remove_run(m, world, n).len() ==> remove_action_allowed(
                m,
                world,
                #[trigger] remove_run(m, world, n)[i],
            ),
    decreases n,
{
    if n > 0 {
        let next = remove_next(m, remove_answer(m, world));
        assert(remove_consistent(next, world));
        assert(next.binaries == m.binaries && next.remove_config == m.remove_config);
        lemma_remove_consistent_run(next, world, (n - 1) as nat);
        let rest = remove_run(next, world, (n - 1) as nat);
        assert(remove_action_allowed(m, world, remove_action(m)));
        assert forall|i: int|
            0 <= i < remove_run(m, world, n).len() implies remove_action_allowed(
            m,
            world,
            #[trigger] remove_run(m, world, n)[i],
        ) by {
            if i > 0 {
                assert(remove_run(m, world, n)[i] == rest[i - 1]);
                assert(remove_action_allowed(next, world, rest[i - 1]));
            }
        }
    }
}

/// Removing deletes only what is there, and the config directory only on
/// request: however long a removal that starts from a package's listed
/// binaries runs, it deletes a binary only after finding that it exists,
/// deletes the data file and the cache directory only after finding them,
/// and deletes the config directory only when asked to.
pub proof fn lemma_remove_only_what_exists(m: RemovalModel, world: RemoveWorld, n: nat)
    requires
        m.next == 0,
        m.binaries.len() > 0 ==> m.phase == RemovePhase::CheckBinary,
        m.binaries.len() == 0 ==> m.phase == RemovePhase::CheckData,
    ensures
        forall|i: int|
            0 <= i < remove_run(m, world, n).len() ==> remove_action_allowed(
                m,
                world,
                #[trigger] remove_run(m, world, n)[i],
            ),
        forall|i: int|
            0 <= i < remove_run(m, world, n).len() ==> {
                &&& (#[trigger] remove_run(m, world, n)[i] matches RemoveActionModel::DeleteBinary(
                    path,
                ) ==> exists|k: int|
                    0 <= k < m.binaries.len() && m.binaries[k] == path && #[trigger] world.present[k])
                &&& remove_run(m, world, n)[i] is RemoveDataFile ==> world.data_exists
                &&& remove_run(m, world, n)[i] is RemoveCacheDir ==> world.cache_exists
                &&& remove_run(m, world, n)[i] is RemoveConfigDir ==> m.remove_config
            },
{
    lemma_remove_consistent_run(m, world, n);
    assert forall|i: int| 0 <= i < remove_run(m, world, n).len() implies remove_action_allowed(
        m,
        world,
        #[trigger] remove_run(m, world, n)[i],
    ) by {}
}

/// A failed deletion ends the removal: once a removal has failed, every
/// action it asks for is the failure, so nothing else is deleted.
pub proof fn lemma_remove_failure_is_final(m: RemovalModel, world: RemoveWorld, n: nat)
    requires
        m.phase == RemovePhase::Failed,
    ensures
        forall|i: int|
            0 <= i < remove_run(m, world, n).len() ==> #[trigger] remove_run(m, world, n)[i]
                == RemoveActionModel::Fail(GrmErrorModel::Custom(spec_delete_failed_message())),
        forall|i: int|
            0 <= i < remove_run(m, world, n).len() ==> #[trigger] remove_run(m, world, n)[i]
                == RemoveActionModel::Fail(
                GrmErrorModel::Custom("Failed to remove file with sudo."@),
            ),
    decreases n,
{
    if n > 0 {
        lemma_remove_failure_is_final(m, world, (n - 1) as nat);
        let rest = remove_run(m, world, (n - 1) as nat);
        assert forall|i: int| 0 <= i < remove_run(m, world, n).len() implies #[trigger] remove_run(
            m,
            world,
            n,
        )[i] == RemoveActionModel::Fail(GrmErrorModel::Custom(spec_delete_failed_message())) by {
            if i > 0 {
                assert(remove_run(m, world, n)[i] == rest[i - 1]);
            }
        }
    }
}


/// The last actions of a removal, from the data file on.
pub open spec fn remove_tail_plan(m: RemovalModel, world: RemoveWorld) -> Seq<RemoveActionModel> {
    seq![RemoveActionModel::DataFileExists] + (if world.data_exists {
        seq![
            RemoveActionModel::RemoveDataFile,
            RemoveActionModel::Print("File removed: "@ + m.data_file_shown),
        ]
    } else {
        Seq::empty()
    }) + seq![RemoveActionModel::CacheDirExists] + (if world.cache_exists {
        seq![
            RemoveActionModel::RemoveCacheDir,
            RemoveActionModel::Print("Directory removed: "@ + m.cache_dir_shown),
        ]
    } else {
        Seq::empty()
    }) + (if m.remove_config {
        seq![
            RemoveActionModel::RemoveConfigDir,
            RemoveActionModel::Print("Directory removed: "@ + m.config_dir_shown),
        ]
    } else {
        Seq::empty()
    }) + seq![RemoveActionModel::Print("Done!"@), RemoveActionModel::Finish]
}

/// Everything a removal does against `world` from the binary at `k` on.
pub open spec fn remove_plan_from(m: RemovalModel, world: RemoveWorld, k: int) -> Seq<
    RemoveActionModel,
>
    decreases m.binaries.len() - k,
{
    if k < 0 || k >= m.binaries.len() {
        remove_tail_plan(m, world)
    } else if world.present[k] {
        seq![
            RemoveActionModel::BinaryExists(m.binaries[k]),
            RemoveActionModel::DeleteBinary(m.binaries[k]),
        ] + if world.deletable[k] {
            seq![RemoveActionModel::Print("File removed: "@ + m.binaries[k])] + remove_plan_from(
                m,
                world,
                k + 1,
            )
        } else {
            seq![RemoveActionModel::Fail(GrmErrorModel::Custom(spec_delete_failed_message()))]
        }
    } else {
        seq![RemoveActionModel::BinaryExists(m.binaries[k])] + remove_plan_from(m, world, k + 1)
    }
}

/// How many steps a removal has left at most.
pub open spec fn remove_rank(m: RemovalModel) -> int {
    match m.phase {
        RemovePhase::CheckBinary => (m.binaries.len() - m.next) * 3 + 12,
        RemovePhase::DeleteBinary => (m.binaries.len() - m.next) * 3 + 11,
        RemovePhase::ReportBinary => (m.binaries.len() - m.next) * 3 + 10,
        RemovePhase::CheckData => 9,
        RemovePhase::RemoveData => 8,
        RemovePhase::ReportData => 7,
        RemovePhase::CheckCache => 6,
        RemovePhase::RemoveCache => 5,
        RemovePhase::ReportCache => 4,
        RemovePhase::RemoveConfig => 3,
        RemovePhase::ReportConfig => 2,
        RemovePhase::ReportDone => 1,
        RemovePhase::Finished => 0,
        RemovePhase::Failed => 0,
    }
}

/// Whether a removal in `phase` is over.
pub open spec fn remove_is_over(phase: RemovePhase) -> bool {
    phase == RemovePhase::Finished || phase == RemovePhase::Failed
}

/// The actions a removal performs against `world` from `m` until it is over.
pub open spec fn remove_remaining(m: RemovalModel, world: RemoveWorld) -> Seq<RemoveActionModel>
    decreases remove_rank(m),
{
    if remove_is_over(m.phase) {
        seq![remove_action(m)]
    } else {
        let next = remove_next(m, remove_answer(m, world));
        if 0 <= remove_rank(next) < remove_rank(m) {
            seq![remove_action(m)] + remove_remaining(next, world)
        } else {
            seq![remove_action(m)]
        }
    }
}

proof fn lemma_remove_run_remaining(m: RemovalModel, world: RemoveWorld)
    ensures
        remove_run(m, world, remove_remaining(m, world).len()) == remove_remaining(m, world),
    decreases remove_rank(m),
{
    let next = remove_next(m, remove_answer(m, world));
    if !remove_is_over(m.phase) && 0 <= remove_rank(next) < remove_rank(m) {
        lemma_remove_run_remaining(next, world);
        let rest = remove_remaining(next, world);
        assert(remove_run(m, world, rest.len() + 1) =~= seq![remove_action(m)] + remove_run(
            next,
            world,
            rest.len(),
        ));
    } else {
        reveal_with_fuel(remove_run, 2);
    }
}

proof fn lemma_remove_cache_part(m: RemovalModel, world: RemoveWorld)
    requires
        m.phase == RemovePhase::CheckCache,
    ensures
        remove_remaining(m, world) == seq![RemoveActionModel::CacheDirExists] + (
        if world.cache_exists {
            seq![
                RemoveActionModel::RemoveCacheDir,
                RemoveActionModel::Print("Directory removed: "@ + m.cache_dir_shown),
            ]
        } else {
            Seq::empty()
        }) + (if m.remove_config {
            seq![
                RemoveActionModel::RemoveConfigDir,
                RemoveActionModel::Print("Directory removed: "@ + m.config_dir_shown),
            ]
        } else {
            Seq::empty()
        }) + seq![RemoveActionModel::Print("Done!"@), RemoveActionModel::Finish],
{
    reveal_with_fuel(remove_remaining, 7);
    let done = seq![RemoveActionModel::Print("Done!"@), RemoveActionModel::Finish];
    let cache = seq![
        RemoveActionModel::RemoveCacheDir,
        RemoveActionModel::Print("Directory removed: "@ + m.cache_dir_shown),
    ];
    let config = seq![
        RemoveActionModel::RemoveConfigDir,
        RemoveActionModel::Print("Directory removed: "@ + m.config_dir_shown),
    ];
    let head = seq![RemoveActionModel::CacheDirExists];
    if world.cache_exists {
        if m.remove_config {
            assert(remove_remaining(m, world) =~= head + cache + config + done);
        } else {
            assert(remove_remaining(m, world) =~= head + cache + Seq::empty() + done);
        }
    } else {
        if m.remove_config {
            assert(remove_remaining(m, world) =~= head + Seq::empty() + config + done);
        } else {
            assert(remove_remaining(m, world) =~= head + Seq::empty() + Seq::empty() + done);
        }
    }
}

proof fn lemma_remove_tail(m: RemovalModel, world: RemoveWorld)
    requires
        m.phase == RemovePhase::CheckData,
    ensures
        remove_remaining(m, world) == remove_tail_plan(m, world),
{
    let at_cache = remove_at(m, RemovePhase::CheckCache);
    lemma_remove_cache_part(at_cache, world);
    reveal_with_fuel(remove_remaining, 4);
    let rest = remove_remaining(at_cache, world);
    if world.data_exists {
        assert(remove_remaining(m, world) =~= seq![RemoveActionModel::DataFileExists] + seq![
            RemoveActionModel::RemoveDataFile,
            RemoveActionModel::Print("File removed: "@ + m.data_file_shown),
        ] + rest);
    } else {
        assert(remove_remaining(m, world) =~= seq![RemoveActionModel::DataFileExists] + rest);
    }
    assert(remove_remaining(m, world) =~= remove_tail_plan(m, world));
}

proof fn lemma_remove_binaries(m: RemovalModel, world: RemoveWorld)
    requires
        m == remove_from_binary(m, m.next),
        0 <= m.next,
    ensures
        remove_remaining(m, world) == remove_plan_from(m, world, m.next),
    decreases m.binaries.len() - m.next,
{
    if m.next >= m.binaries.len() {
        lemma_remove_tail(m, world);
    } else {
        let k = m.next;
        let after = remove_from_binary(m, k + 1);
        lemma_remove_binaries(after, world);
        assert(remove_plan_from(after, world, k + 1) == remove_plan_from(m, world, k + 1)) by {
            lemma_remove_plan_same_package(after, m, world, k + 1);
        }
        assert(remove_tail_plan(after, world) == remove_tail_plan(m, world));
        reveal_with_fuel(remove_remaining, 4);
        if world.present[k] {
            if world.deletable[k] {
                assert(remove_remaining(m, world) =~= seq![
                    RemoveActionModel::BinaryExists(m.binaries[k]),
                    RemoveActionModel::DeleteBinary(m.binaries[k]),
                ] + (seq![RemoveActionModel::Print("File removed: "@ + m.binaries[k])]
                    + remove_remaining(after, world)));
            } else {
                assert(remove_remaining(m, world) =~= seq![
                    RemoveActionModel::BinaryExists(m.binaries[k]),
                    RemoveActionModel::DeleteBinary(m.binaries[k]),
                ] + seq![
                    RemoveActionModel::Fail(GrmErrorModel::Custom(spec_delete_failed_message())),
                ]);
            }
        } else {
            assert(remove_remaining(m, world) =~= seq![
                RemoveActionModel::BinaryExists(m.binaries[k]),
            ] + remove_remaining(after, world));
        }
    }
}

/// Removals of the same package, with the same request and shown paths,
/// have the same plan.
proof fn lemma_remove_plan_same_package(a: RemovalModel, b: RemovalModel, world: RemoveWorld, k: int)
    requires
        a.binaries == b.binaries,
        a.remove_config == b.remove_config,
        a.data_file_shown == b.data_file_shown,
        a.cache_dir_shown == b.cache_dir_shown,
        a.config_dir_shown == b.config_dir_shown,
    ensures
        remove_plan_from(a, world, k) == remove_plan_from(b, world, k),
    decreases a.binaries.len() - k,
{
    if 0 <= k < a.binaries.len() {
        lemma_remove_plan_same_package(a, b, world, k + 1);
    }
}

/// A removal handles the listed binaries in order: it checks whether each
/// exists, skips it when it does not, and otherwise deletes it and reports
/// it, failing at once (and deleting nothing more) when a deletion fails.
/// It then deletes and reports the data file and the cache directory when
/// they exist, the config directory when asked to, prints `Done!` and
/// finishes.
pub proof fn lemma_remove_plan(m: RemovalModel, world: RemoveWorld)
    requires
        m.next == 0,
        m.binaries.len() > 0 ==> m.phase == RemovePhase::CheckBinary,
        m.binaries.len() == 0 ==> m.phase == RemovePhase::CheckData,
    ensures
        remove_run(m, world, remove_plan_from(m, world, 0).len()) == remove_plan_from(m, world, 0),
{
    assert(m == remove_from_binary(m, 0));
    lemma_remove_binaries(m, world);
    lemma_remove_run_remaining(m, world);
}


proof fn lemma_remove_plan_all_deletable(m: RemovalModel, world: RemoveWorld, k: int)
    requires
        0 <= k,
        forall|j: int| 0 <= j < m.binaries.len() ==> world.present[j] && world.deletable[j],
    ensures
        ({
            let plan = remove_plan_from(m, world, k);
            let tail = remove_tail_plan(m, world);
            &&& plan.len() >= tail.len()
            &&& plan.subrange(plan.len() - tail.len(), plan.len() as int) == tail
            &&& forall|j: int|
                #![trigger m.binaries[j]]
                k <= j < m.binaries.len() ==> exists|i: int|
                    #![trigger plan[i]]
                    0 <= i < plan.len() - tail.len() && plan[i] == RemoveActionModel::DeleteBinary(
                        m.binaries[j],
                    )
            &&& forall|j: int|
                #![trigger m.binaries[j]]
                k <= j < m.binaries.len() ==> exists|i: int|
                    #![trigger plan[i]]
                    0 <= i < plan.len() - tail.len() && plan[i] == RemoveActionModel::Print(
                        "File removed: "@ + m.binaries[j],
                    )
            &&& forall|i: int|
                0 <= i < plan.len() - tail.len() ==> (plan[i] is BinaryExists
                    || plan[i] is DeleteBinary || plan[i] is Print)
        }),
    decreases m.binaries.len() - k,
{
    let plan = remove_plan_from(m, world, k);
    let tail = remove_tail_plan(m, world);
    if k < m.binaries.len() {
        lemma_remove_plan_all_deletable(m, world, k + 1);
        let rest = remove_plan_from(m, world, k + 1);
        let head = seq![
            RemoveActionModel::BinaryExists(m.binaries[k]),
            RemoveActionModel::DeleteBinary(m.binaries[k]),
            RemoveActionModel::Print("File removed: "@ + m.binaries[k]),
        ];
        assert(plan =~= head + rest);
        assert(plan.subrange(plan.len() - tail.len(), plan.len() as int) =~= rest.subrange(
            rest.len() - tail.len(),
            rest.len() as int,
        ));
        assert forall|j: int| #![trigger m.binaries[j]] k <= j < m.binaries.len() implies exists|i: int|
            #![trigger plan[i]]
            0 <= i < plan.len() - tail.len() && plan[i] == RemoveActionModel::DeleteBinary(
                m.binaries[j],
            ) by {
            if j == k {
                assert(plan[1] == RemoveActionModel::DeleteBinary(m.binaries[j]));
            } else {
                let i = choose|i: int|
                    #![trigger rest[i]]
                    0 <= i < rest.len() - tail.len() && rest[i] == RemoveActionModel::DeleteBinary(
                        m.binaries[j],
                    );
                assert(plan[i + 3] == rest[i]);
            }
        }
        assert forall|j: int| #![trigger m.binaries[j]] k <= j < m.binaries.len() implies exists|i: int|
            #![trigger plan[i]]
            0 <= i < plan.len() - tail.len() && plan[i] == RemoveActionModel::Print(
                "File removed: "@ + m.binaries[j],
            ) by {
            if j == k {
                assert(plan[2] == RemoveActionModel::Print("File removed: "@ + m.binaries[j]));
            } else {
                let i = choose|i: int|
                    #![trigger rest[i]]
                    0 <= i < rest.len() - tail.len() && rest[i] == RemoveActionModel::Print(
                        "File removed: "@ + m.binaries[j],
                    );
                assert(plan[i + 3] == rest[i]);
            }
        }
        assert forall|i: int| 0 <= i < plan.len() - tail.len() implies (plan[i] is BinaryExists
            || plan[i] is DeleteBinary || plan[i] is Print) by {
            if i >= 3 {
                assert(plan[i] == rest[i - 3]);
            }
        }
    } else {
        assert(plan.subrange(plan.len() - tail.len(), plan.len() as int) =~= tail);
    }
}

/// What a removal deletes when nothing goes wrong: a removal started from a
/// configuration, when every listed file exists and can be deleted, deletes
/// and reports every listed file; it deletes the data file exactly when it
/// exists, the cache directory exactly when it exists, and the config
/// directory exactly when asked to; and it ends by finishing.
pub proof fn lemma_remove_deletes_all_listed(m: RemovalModel, world: RemoveWorld)
    requires
        m.next == 0,
        m.binaries.len() > 0 ==> m.phase == RemovePhase::CheckBinary,
        m.binaries.len() == 0 ==> m.phase == RemovePhase::CheckData,
        forall|j: int| 0 <= j < m.binaries.len() ==> world.present[j] && world.deletable[j],
    ensures
        ({
            let run = remove_run(m, world, remove_plan_from(m, world, 0).len());
            &&& forall|j: int|
                #![trigger m.binaries[j]]
                0 <= j < m.binaries.len() ==> exists|i: int|
                    #![trigger run[i]]
                    0 <= i < run.len() && run[i] == RemoveActionModel::DeleteBinary(m.binaries[j])
            &&& forall|j: int|
                #![trigger m.binaries[j]]
                0 <= j < m.binaries.len() ==> exists|i: int|
                    #![trigger run[i]]
                    0 <= i < run.len() && run[i] == RemoveActionModel::Print(
                        "File removed: "@ + m.binaries[j],
                    )
            &&& (exists|i: int| 0 <= i < run.len() && run[i] is RemoveConfigDir) == m.remove_config
            &&& (exists|i: int| 0 <= i < run.len() && run[i] is RemoveDataFile) == world.data_exists
            &&& (exists|i: int| 0 <= i < run.len() && run[i] is RemoveCacheDir)
                == world.cache_exists
            &&& run.len() > 0
            &&& run[run.len() - 1] == RemoveActionModel::Finish
            &&& run[run.len() - 2] == RemoveActionModel::Print("Done!"@)
            &&& world.data_exists ==> exists|i: int|
                0 <= i < run.len() && #[trigger] run[i] == RemoveActionModel::Print(
                    "File removed: "@ + m.data_file_shown,
                )
            &&& world.cache_exists ==> exists|i: int|
                0 <= i < run.len() && #[trigger] run[i] == RemoveActionModel::Print(
                    "Directory removed: "@ + m.cache_dir_shown,
                )
            &&& m.remove_config ==> exists|i: int|
                0 <= i < run.len() && #[trigger] run[i] == RemoveActionModel::Print(
                    "Directory removed: "@ + m.config_dir_shown,
                )
        }),
{
    lemma_remove_plan(m, world);
    lemma_remove_plan_all_deletable(m, world, 0);
    let run = remove_run(m, world, remove_plan_from(m, world, 0).len());
    let tail = remove_tail_plan(m, world);
    let off = run.len() - tail.len();
    assert forall|i: int| 0 <= i < tail.len() implies run[off + i] == tail[i] by {
        assert(run.subrange(off, run.len() as int)[i] == run[off + i]);
    }
    let data = if world.data_exists {
        seq![
            RemoveActionModel::RemoveDataFile,
            RemoveActionModel::Print("File removed: "@ + m.data_file_shown),
        ]
    } else {
        Seq::empty()
    };
    let cache = if world.cache_exists {
        seq![
            RemoveActionModel::RemoveCacheDir,
            RemoveActionModel::Print("Directory removed: "@ + m.cache_dir_shown),
        ]
    } else {
        Seq::empty()
    };
    let config = if m.remove_config {
        seq![
            RemoveActionModel::RemoveConfigDir,
            RemoveActionModel::Print("Directory removed: "@ + m.config_dir_shown),
        ]
    } else {
        Seq::empty()
    };
    let done = seq![RemoveActionModel::Print("Done!"@), RemoveActionModel::Finish];
    assert(tail =~= seq![RemoveActionModel::DataFileExists] + data + seq![
        RemoveActionModel::CacheDirExists,
    ] + cache + config + done);
    let dl = data.len() as int;
    let cl = cache.len() as int;
    let fl = config.len() as int;
    // Where each part of the tail stands in the run.
    assert forall|i: int| 0 <= i < tail.len() implies (tail[i] is RemoveConfigDir <==> (
    m.remove_config && i == 2 + dl + cl)) && (tail[i] is RemoveDataFile <==> (world.data_exists
        && i == 1)) && (tail[i] is RemoveCacheDir <==> (world.cache_exists && i == 2 + dl)) by {
    }
    assert((exists|i: int| 0 <= i < run.len() && run[i] is RemoveConfigDir) == m.remove_config)
        by {
        if m.remove_config {
            assert(tail[2 + dl + cl] is RemoveConfigDir);
            assert(run[off + 2 + dl + cl] == tail[2 + dl + cl]);
            assert(run[off + 2 + dl + cl] is RemoveConfigDir);
        } else {
            assert forall|i: int| 0 <= i < run.len() implies !(run[i] is RemoveConfigDir) by {
                if i >= off {
                    assert(run[i] == tail[i - off]);
                }
            }
        }
    }
    assert((exists|i: int| 0 <= i < run.len() && run[i] is RemoveDataFile) == world.data_exists)
        by {
        if world.data_exists {
            assert(tail[1] is RemoveDataFile);
            assert(run[off + 1] == tail[1]);
            assert(run[off + 1] is RemoveDataFile);
        } else {
            assert forall|i: int| 0 <= i < run.len() implies !(run[i] is RemoveDataFile) by {
                if i >= off {
                    assert(run[i] == tail[i - off]);
                }
            }
        }
    }
    assert((exists|i: int| 0 <= i < run.len() && run[i] is RemoveCacheDir) == world.cache_exists)
        by {
        if world.cache_exists {
            assert(tail[2 + dl] is RemoveCacheDir);
            assert(run[off + 2 + dl] == tail[2 + dl]);
            assert(run[off + 2 + dl] is RemoveCacheDir);
        } else {
            assert forall|i: int| 0 <= i < run.len() implies !(run[i] is RemoveCacheDir) by {
                if i >= off {
                    assert(run[i] == tail[i - off]);
                }
            }
        }
    }
    assert(run[run.len() - 1] == tail[tail.len() - 1]);
    assert(run[run.len() - 2] == tail[tail.len() - 2]);
    if world.data_exists {
        assert(run[off + 2] == tail[2]);
    }
    if world.cache_exists {
        assert(run[off + 3 + dl] == tail[3 + dl]);
    }
    if m.remove_config {
        assert(run[off + 3 + dl + cl] == tail[3 + dl + cl]);
    }
}

proof fn lemma_remove_run_len(m: RemovalModel, world: RemoveWorld, n: nat)
    ensures
        remove_run(m, world, n).len() == n,
    decreases n,
{
    if n > 0 {
        lemma_remove_run_len(remove_next(m, remove_answer(m, world)), world, (n - 1) as nat);
    }
}

/// A failed deletion stops the removal on the spot: after a deletion that
/// fails, the removal asks for nothing but the failure.
pub proof fn lemma_remove_stops_at_failed_delete(m: RemovalModel, world: RemoveWorld, n: nat)
    requires
        m.phase == RemovePhase::DeleteBinary,
        0 <= m.next < m.binaries.len(),
        !world.deletable[m.next],
        n >= 1,
    ensures
        remove_run(m, world, n)[0] == RemoveActionModel::DeleteBinary(m.binaries[m.next]),
        forall|i: int|
            1 <= i < n ==> #[trigger] remove_run(m, world, n)[i] == RemoveActionModel::Fail(
                GrmErrorModel::Custom("Failed to remove file with sudo."@),
            ),
{
    let failed = remove_next(m, remove_answer(m, world));
    assert(failed.phase == RemovePhase::Failed);
    lemma_remove_failure_is_final(failed, world, (n - 1) as nat);
    let rest = remove_run(failed, world, (n - 1) as nat);
    lemma_remove_run_len(failed, world, (n - 1) as nat);
    assert(remove_run(m, world, n) == seq![remove_action(m)] + rest);
    assert forall|i: int| 1 <= i < n implies #[trigger] remove_run(m, world, n)[i]
        == RemoveActionModel::Fail(GrmErrorModel::Custom("Failed to remove file with sudo."@)) by {
        assert(remove_run(m, world, n)[i] == rest[i - 1]);
    }
}

} // verus!
