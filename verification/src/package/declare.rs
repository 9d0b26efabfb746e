//! `declare`: create whatever is missing of a package's build script, data
//! record and configuration, and leave what exists untouched.
use crate::config::PackageConfig;
use crate::data::PackageData;
use crate::layout::{json_file_name, shown_in, spec_json_file_name, spec_shown_in};
use vstd::prelude::*;

verus! {

/// Where a declaration stands.
#[derive(Debug, Clone, Copy, PartialEq, Eq, Structural)]
pub enum DeclarePhase {
    CreateConfigDir,
    CheckScript,
    WriteScript,
    ReportScript { existed: bool },
    CheckData,
    SaveData,
    ReportData { existed: bool },
    CheckConfig,
    SaveConfig,
    ReportConfig { existed: bool },
    ReportDone,
    Finished,
}

/// A declaration of the package `owner/repo` in progress.
#[derive(Debug)]
pub struct Declaration {
    owner: String,
    repo: String,
    script_shown: String,
    data_root_shown: String,
    config_dir_shown: String,
    phase: DeclarePhase,
}

/// The abstract state of a declaration.
pub struct DeclarationModel {
    pub owner: Seq<char>,
    pub repo: Seq<char>,
    /// How the path of the build script is shown.
    pub script_shown: Seq<char>,
    /// How the data directory is shown.
    pub data_root_shown: Seq<char>,
    /// How the package's config directory is shown.
    pub config_dir_shown: Seq<char>,
    pub phase: DeclarePhase,
}

impl View for Declaration {
    type V = DeclarationModel;

    closed spec fn view(&self) -> DeclarationModel {
        DeclarationModel {
            owner: self.owner@,
            repo: self.repo@,
            script_shown: self.script_shown@,
            data_root_shown: self.data_root_shown@,
            config_dir_shown: self.config_dir_shown@,
            phase: self.phase,
        }
    }
}

/// What the driver of a declaration must do next. The actions `CheckScriptExists`,
/// `LoadData` and `LoadConfig` ask a question, answered with `true` when the
/// file exists or could be loaded; the answer to every other action is ignored.
#[derive(Debug)]
pub enum DeclareAction {
    /// Create the package's config directory, with its parents.
    CreateConfigDir,
    /// Does the build script exist?
    CheckScriptExists,
    /// Write the build script template.
    WriteScriptTemplate,
    /// Can the package's data record be loaded?
    LoadData,
    /// Save this data record.
    SaveData(PackageData),
    /// Can the package's configuration be loaded?
    LoadConfig,
    /// Save this configuration.
    SaveConfig(PackageConfig),
    /// Print this line.
    Print(String),
    /// The declaration is complete.
    Finish,
}

/// The abstract form of a `DeclareAction`.
pub enum DeclareActionModel {
    CreateConfigDir,
    CheckScriptExists,
    WriteScriptTemplate,
    LoadData,
    SaveData { owner: Seq<char>, repo: Seq<char>, installed_version: Seq<char> },
    LoadConfig,
    SaveConfig { binaries: Seq<Seq<char>> },
    Print(Seq<char>),
    Finish,
}

impl View for DeclareAction {
    type V = DeclareActionModel;

    open spec fn view(&self) -> DeclareActionModel {
        match self {
            DeclareAction::CreateConfigDir => DeclareActionModel::CreateConfigDir,
            DeclareAction::CheckScriptExists => DeclareActionModel::CheckScriptExists,
            DeclareAction::WriteScriptTemplate => DeclareActionModel::WriteScriptTemplate,
            DeclareAction::LoadData => DeclareActionModel::LoadData,
            DeclareAction::SaveData(data) => DeclareActionModel::SaveData {
                owner: data.owner@,
                repo: data.repo@,
                installed_version: data.installed_version@,
            },
            DeclareAction::LoadConfig => DeclareActionModel::LoadConfig,
            DeclareAction::SaveConfig(config) => DeclareActionModel::SaveConfig {
                binaries: config.binaries_path@.map_values(|b: String| b@),
            },
            DeclareAction::Print(line) => DeclareActionModel::Print(line@),
            DeclareAction::Finish => DeclareActionModel::Finish,
        }
    }
}

/// The phase that follows `phase` when the driver answers `answer`.
pub open spec fn declare_next_phase(phase: DeclarePhase, answer: bool) -> DeclarePhase {
    match phase {
        DeclarePhase::CreateConfigDir => DeclarePhase::CheckScript,
        DeclarePhase::CheckScript => if answer {
            DeclarePhase::ReportScript { existed: true }
        } else {
            DeclarePhase::WriteScript
        },
        DeclarePhase::WriteScript => DeclarePhase::ReportScript { existed: false },
        DeclarePhase::ReportScript { .. } => DeclarePhase::CheckData,
        DeclarePhase::CheckData => if answer {
            DeclarePhase::ReportData { existed: true }
        } else {
            DeclarePhase::SaveData
        },
        DeclarePhase::SaveData => DeclarePhase::ReportData { existed: false },
        DeclarePhase::ReportData { .. } => DeclarePhase::CheckConfig,
        DeclarePhase::CheckConfig => if answer {
            DeclarePhase::ReportConfig { existed: true }
        } else {
            DeclarePhase::SaveConfig
        },
        DeclarePhase::SaveConfig => DeclarePhase::ReportConfig { existed: false },
        DeclarePhase::ReportConfig { .. } => DeclarePhase::ReportDone,
        DeclarePhase::ReportDone => DeclarePhase::Finished,
        DeclarePhase::Finished => DeclarePhase::Finished,
    }
}

/// The declaration after the driver answers `answer` to its current action.
pub open spec fn declare_next(m: DeclarationModel, answer: bool) -> DeclarationModel {
    DeclarationModel {
        owner: m.owner,
        repo: m.repo,
        script_shown: m.script_shown,
        data_root_shown: m.data_root_shown,
        config_dir_shown: m.config_dir_shown,
        phase: declare_next_phase(m.phase, answer),
    }
}

/// The line reporting on the build script.
pub open spec fn spec_script_report(m: DeclarationModel, existed: bool) -> Seq<char> {
    (if existed {
        "Already existing build script: "@
    } else {
        "Created missing build script: "@
    }) + m.script_shown
}

/// The line reporting on the data record.
pub open spec fn spec_data_report(m: DeclarationModel, existed: bool) -> Seq<char> {
    (if existed {
        "Already existing data file: "@
    } else {
        "Created missing state file: "@
    }) + spec_shown_in(m.data_root_shown, spec_json_file_name(m.owner, m.repo))
}

/// The line reporting on the configuration.
pub open spec fn spec_config_report(m: DeclarationModel, existed: bool) -> Seq<char> {
    (if existed {
        "Already existing config file: "@
    } else {
        "Created missing config file: "@
    }) + spec_shown_in(m.config_dir_shown, spec_json_file_name(m.owner, m.repo))
}

/// The action that a declaration asks for in its current phase.
pub open spec fn declare_action(m: DeclarationModel) -> DeclareActionModel {
    match m.phase {
        DeclarePhase::CreateConfigDir => DeclareActionModel::CreateConfigDir,
        DeclarePhase::CheckScript => DeclareActionModel::CheckScriptExists,
        DeclarePhase::WriteScript => DeclareActionModel::WriteScriptTemplate,
        DeclarePhase::ReportScript { existed } => DeclareActionModel::Print(
            spec_script_report(m, existed),
        ),
        DeclarePhase::CheckData => DeclareActionModel::LoadData,
        DeclarePhase::SaveData => DeclareActionModel::SaveData {
            owner: m.owner,
            repo: m.repo,
            installed_version: "none"@,
        },
        DeclarePhase::ReportData { existed } => DeclareActionModel::Print(
            spec_data_report(m, existed),
        ),
        DeclarePhase::CheckConfig => DeclareActionModel::LoadConfig,
        DeclarePhase::SaveConfig => DeclareActionModel::SaveConfig { binaries: Seq::empty() },
        DeclarePhase::ReportConfig { existed } => DeclareActionModel::Print(
            spec_config_report(m, existed),
        ),
        DeclarePhase::ReportDone => DeclareActionModel::Print("Done!"@),
        DeclarePhase::Finished => DeclareActionModel::Finish,
    }
}

impl Declaration {
    /// Starts declaring `owner/repo`. The other arguments are how the build
    /// script's path, the data directory and the package's config directory
    /// are shown in messages.
    pub fn new(
        owner: String,
        repo: String,
        script_shown: String,
        data_root_shown: String,
        config_dir_shown: String,
    ) -> (res: Declaration)
        ensures
            res@ == (DeclarationModel {
                owner: owner@,
                repo: repo@,
                script_shown: script_shown@,
                data_root_shown: data_root_shown@,
                config_dir_shown: config_dir_shown@,
                phase: DeclarePhase::CreateConfigDir,
            }),
    {
        Declaration {
            owner,
            repo,
            script_shown,
            data_root_shown,
            config_dir_shown,
            phase: DeclarePhase::CreateConfigDir,
        }
    }

    /// The line reporting on the data record or the configuration.
    fn report_line(&self, prefix: &str) -> (res: String)
        ensures
            res@ == prefix@ + spec_shown_in(
                if self.phase is ReportData {
                    self.data_root_shown@
                } else {
                    self.config_dir_shown@
                },
                spec_json_file_name(self.owner@, self.repo@),
            ),
    {
        let name = json_file_name(self.owner.as_str(), self.repo.as_str());
        let shown = if let DeclarePhase::ReportData { .. } = self.phase {
            shown_in(self.data_root_shown.as_str(), name.as_str())
        } else {
            shown_in(self.config_dir_shown.as_str(), name.as_str())
        };
        let mut res = String::from_str(prefix);
        res.append(shown.as_str());
        res
    }

    /// The action the driver must perform next.
    pub fn action(&self) -> (res: DeclareAction)
        ensures
            res@ == declare_action(self@),
    {
        match self.phase {
            DeclarePhase::CreateConfigDir => DeclareAction::CreateConfigDir,
            DeclarePhase::CheckScript => DeclareAction::CheckScriptExists,
            DeclarePhase::WriteScript => DeclareAction::WriteScriptTemplate,
            DeclarePhase::ReportScript { existed } => {
                let mut line = if existed {
                    String::from_str("Already existing build script: ")
                } else {
                    String::from_str("Created missing build script: ")
                };
                line.append(self.script_shown.as_str());
                DeclareAction::Print(line)
            },
            DeclarePhase::CheckData => DeclareAction::LoadData,
            DeclarePhase::SaveData => DeclareAction::SaveData(
                PackageData {
                    owner: self.owner.clone(),
                    repo: self.repo.clone(),
                    installed_version: String::from_str("none"),
                },
            ),
            DeclarePhase::ReportData { existed } => {
                let line = if existed {
                    self.report_line("Already existing data file: ")
                } else {
                    self.report_line("Created missing state file: ")
                };
                DeclareAction::Print(line)
            },
            DeclarePhase::CheckConfig => DeclareAction::LoadConfig,
            DeclarePhase::SaveConfig => {
                let binaries: Vec<String> = Vec::new();
                proof {
                    assert(binaries@.map_values(|b: String| b@) =~= Seq::<Seq<char>>::empty());
                }
                DeclareAction::SaveConfig(PackageConfig { binaries_path: binaries })
            },
            DeclarePhase::ReportConfig { existed } => {
                let line = if existed {
                    self.report_line("Already existing config file: ")
                } else {
                    self.report_line("Created missing config file: ")
                };
                DeclareAction::Print(line)
            },
            DeclarePhase::ReportDone => DeclareAction::Print(String::from_str("Done!")),
            DeclarePhase::Finished => DeclareAction::Finish,
        }
    }

    /// Moves on, given what came of the current action.
    pub fn advance(&mut self, answer: bool)
        ensures
            final(self)@ == declare_next(old(self)@, answer),
    {
        self.phase = match self.phase {
            DeclarePhase::CreateConfigDir => DeclarePhase::CheckScript,
            DeclarePhase::CheckScript => if answer {
                DeclarePhase::ReportScript { existed: true }
            } else {
                DeclarePhase::WriteScript
            },
            DeclarePhase::WriteScript => DeclarePhase::ReportScript { existed: false },
            DeclarePhase::ReportScript { .. } => DeclarePhase::CheckData,
            DeclarePhase::CheckData => if answer {
                DeclarePhase::ReportData { existed: true }
            } else {
                DeclarePhase::SaveData
            },
            DeclarePhase::SaveData => DeclarePhase::ReportData { existed: false },
            DeclarePhase::ReportData { .. } => DeclarePhase::CheckConfig,
            DeclarePhase::CheckConfig => if answer {
                DeclarePhase::ReportConfig { existed: true }
            } else {
                DeclarePhase::SaveConfig
            },
            DeclarePhase::SaveConfig => DeclarePhase::ReportConfig { existed: false },
            DeclarePhase::ReportConfig { .. } => DeclarePhase::ReportDone,
            DeclarePhase::ReportDone => DeclarePhase::Finished,
            DeclarePhase::Finished => DeclarePhase::Finished,
        };
    }
}


/// What a declaration finds: whether the build script exists, and whether
/// the data record and the configuration can be loaded.
pub struct DeclareWorld {
    pub script_exists: bool,
    pub data_loads: bool,
    pub config_loads: bool,
}

/// The answer that `world` gives to the action of `m`.
pub open spec fn declare_answer(m: DeclarationModel, world: DeclareWorld) -> bool {
    match m.phase {
        DeclarePhase::CheckScript => world.script_exists,
        DeclarePhase::CheckData => world.data_loads,
        DeclarePhase::CheckConfig => world.config_loads,
        _ => false,
    }
}

/// The first `n` actions of a declaration that runs against `world`.
pub open spec fn declare_run(m: DeclarationModel, world: DeclareWorld, n: nat) -> Seq<
    DeclareActionModel,
>
    decreases n,
{
    if n == 0 {
        Seq::empty()
    } else {
        seq![declare_action(m)] + declare_run(
            declare_next(m, declare_answer(m, world)),
            world,
            (n - 1) as nat,
        )
    }
}

/// Everything a declaration of `m` does against `world`, in order.
pub open spec fn declare_plan(m: DeclarationModel, world: DeclareWorld) -> Seq<DeclareActionModel> {
    seq![DeclareActionModel::CreateConfigDir, DeclareActionModel::CheckScriptExists] + (
    if world.script_exists {
        Seq::empty()
    } else {
        seq![DeclareActionModel::WriteScriptTemplate]
    }) + seq![
        DeclareActionModel::Print(spec_script_report(m, world.script_exists)),
        DeclareActionModel::LoadData,
    ] + (if world.data_loads {
        Seq::empty()
    } else {
        seq![
            DeclareActionModel::SaveData {
                owner: m.owner,
                repo: m.repo,
                installed_version: "none"@,
            },
        ]
    }) + seq![
        DeclareActionModel::Print(spec_data_report(m, world.data_loads)),
        DeclareActionModel::LoadConfig,
    ] + (if world.config_loads {
        Seq::empty()
    } else {
        seq![DeclareActionModel::SaveConfig { binaries: Seq::empty() }]
    }) + seq![
        DeclareActionModel::Print(spec_config_report(m, world.config_loads)),
        DeclareActionModel::Print("Done!"@),
        DeclareActionModel::Finish,
    ]
}

/// How many steps a declaration in `phase` has left before it finishes.
pub open spec fn declare_rank(phase: DeclarePhase) -> nat {
    match phase {
        DeclarePhase::CreateConfigDir => 11,
        DeclarePhase::CheckScript => 10,
        DeclarePhase::WriteScript => 9,
        DeclarePhase::ReportScript { .. } => 8,
        DeclarePhase::CheckData => 7,
        DeclarePhase::SaveData => 6,
        DeclarePhase::ReportData { .. } => 5,
        DeclarePhase::CheckConfig => 4,
        DeclarePhase::SaveConfig => 3,
        DeclarePhase::ReportConfig { .. } => 2,
        DeclarePhase::ReportDone => 1,
        DeclarePhase::Finished => 0,
    }
}

/// The actions a declaration performs against `world` from `m` until it
/// finishes, ending with `Finish`.
pub open spec fn declare_remaining(m: DeclarationModel, world: DeclareWorld) -> Seq<
    DeclareActionModel,
>
    decreases declare_rank(m.phase),
{
    if m.phase == DeclarePhase::Finished {
        seq![DeclareActionModel::Finish]
    } else {
        seq![declare_action(m)] + declare_remaining(
            declare_next(m, declare_answer(m, world)),
            world,
        )
    }
}

/// `m` moved to `phase`.
pub open spec fn declare_at(m: DeclarationModel, phase: DeclarePhase) -> DeclarationModel {
    DeclarationModel {
        owner: m.owner,
        repo: m.repo,
        script_shown: m.script_shown,
        data_root_shown: m.data_root_shown,
        config_dir_shown: m.config_dir_shown,
        phase,
    }
}

proof fn lemma_declare_run_remaining(m: DeclarationModel, world: DeclareWorld)
    ensures
        declare_run(m, world, declare_remaining(m, world).len()) == declare_remaining(m, world),
    decreases declare_rank(m.phase),
{
    if m.phase != DeclarePhase::Finished {
        let next = declare_next(m, declare_answer(m, world));
        lemma_declare_run_remaining(next, world);
        let rest = declare_remaining(next, world);
        assert(declare_run(m, world, rest.len() + 1) =~= seq![declare_action(m)] + declare_run(
            next,
            world,
            rest.len(),
        ));
    } else {
        reveal_with_fuel(declare_run, 2);
    }
}

proof fn lemma_declare_config_part(m: DeclarationModel, world: DeclareWorld)
    requires
        m.phase == DeclarePhase::CheckConfig,
    ensures
        declare_remaining(m, world) == seq![DeclareActionModel::LoadConfig] + (
        if world.config_loads {
            Seq::empty()
        } else {
            seq![DeclareActionModel::SaveConfig { binaries: Seq::empty() }]
        }) + seq![
            DeclareActionModel::Print(spec_config_report(m, world.config_loads)),
            DeclareActionModel::Print("Done!"@),
            DeclareActionModel::Finish,
        ],
{
    reveal_with_fuel(declare_remaining, 6);
    if world.config_loads {
        assert(declare_remaining(m, world) =~= seq![DeclareActionModel::LoadConfig] + seq![
            DeclareActionModel::Print(spec_config_report(m, world.config_loads)),
            DeclareActionModel::Print("Done!"@),
            DeclareActionModel::Finish,
        ]);
    } else {
        assert(declare_remaining(m, world) =~= seq![DeclareActionModel::LoadConfig] + seq![
            DeclareActionModel::SaveConfig { binaries: Seq::empty() },
        ] + seq![
            DeclareActionModel::Print(spec_config_report(m, world.config_loads)),
            DeclareActionModel::Print("Done!"@),
            DeclareActionModel::Finish,
        ]);
    }
}

proof fn lemma_declare_data_part(m: DeclarationModel, world: DeclareWorld)
    requires
        m.phase == DeclarePhase::CheckData,
    ensures
        declare_remaining(m, world) == seq![DeclareActionModel::LoadData] + (if world.data_loads {
            Seq::empty()
        } else {
            seq![
                DeclareActionModel::SaveData {
                    owner: m.owner,
                    repo: m.repo,
                    installed_version: "none"@,
                },
            ]
        }) + seq![DeclareActionModel::Print(spec_data_report(m, world.data_loads))]
            + declare_remaining(declare_at(m, DeclarePhase::CheckConfig), world),
{
    reveal_with_fuel(declare_remaining, 4);
    let rest = declare_remaining(declare_at(m, DeclarePhase::CheckConfig), world);
    if world.data_loads {
        assert(declare_remaining(m, world) =~= seq![DeclareActionModel::LoadData] + seq![
            DeclareActionModel::Print(spec_data_report(m, world.data_loads)),
        ] + rest);
    } else {
        assert(declare_remaining(m, world) =~= seq![DeclareActionModel::LoadData] + seq![
            DeclareActionModel::SaveData {
                owner: m.owner,
                repo: m.repo,
                installed_version: "none"@,
            },
        ] + seq![DeclareActionModel::Print(spec_data_report(m, world.data_loads))] + rest);
    }
}

proof fn lemma_declare_script_part(m: DeclarationModel, world: DeclareWorld)
    requires
        m.phase == DeclarePhase::CreateConfigDir,
    ensures
        declare_remaining(m, world) == seq![
            DeclareActionModel::CreateConfigDir,
            DeclareActionModel::CheckScriptExists,
        ] + (if world.script_exists {
            Seq::empty()
        } else {
            seq![DeclareActionModel::WriteScriptTemplate]
        }) + seq![DeclareActionModel::Print(spec_script_report(m, world.script_exists))]
            + declare_remaining(declare_at(m, DeclarePhase::CheckData), world),
{
    reveal_with_fuel(declare_remaining, 5);
    let rest = declare_remaining(declare_at(m, DeclarePhase::CheckData), world);
    if world.script_exists {
        assert(declare_remaining(m, world) =~= seq![
            DeclareActionModel::CreateConfigDir,
            DeclareActionModel::CheckScriptExists,
        ] + seq![DeclareActionModel::Print(spec_script_report(m, world.script_exists))] + rest);
    } else {
        assert(declare_remaining(m, world) =~= seq![
            DeclareActionModel::CreateConfigDir,
            DeclareActionModel::CheckScriptExists,
        ] + seq![DeclareActionModel::WriteScriptTemplate] + seq![
            DeclareActionModel::Print(spec_script_report(m, world.script_exists)),
        ] + rest);
    }
}

/// A declaration creates the config directory, then for the build script,
/// the data record and the configuration in turn checks whether it is
/// there, writes it only when it is missing (the record with version
/// `none`, the configuration with no binaries), and reports which of the two
/// happened; it then prints `Done!` and finishes.
pub proof fn lemma_declare_plan(m: DeclarationModel, world: DeclareWorld)
    requires
        m.phase == DeclarePhase::CreateConfigDir,
    ensures
        declare_run(m, world, declare_plan(m, world).len()) == declare_plan(m, world),
{
    let at_data = declare_at(m, DeclarePhase::CheckData);
    let at_config = declare_at(m, DeclarePhase::CheckConfig);
    lemma_declare_script_part(m, world);
    lemma_declare_data_part(at_data, world);
    lemma_declare_config_part(at_config, world);
    assert(declare_at(at_data, DeclarePhase::CheckConfig) == at_config);
    assert(spec_data_report(at_data, world.data_loads) == spec_data_report(m, world.data_loads));
    assert(spec_config_report(at_config, world.config_loads) == spec_config_report(
        m,
        world.config_loads,
    ));
    assert(declare_remaining(m, world) =~= declare_plan(m, world));
    lemma_declare_run_remaining(m, world);
}

/// Whether the phase of a declaration agrees with what `world` answered.
spec fn declare_consistent(phase: DeclarePhase, world: DeclareWorld) -> bool {
    match phase {
        DeclarePhase::WriteScript => !world.script_exists,
        DeclarePhase::ReportScript { existed } => existed == world.script_exists,
        DeclarePhase::SaveData => !world.data_loads,
        DeclarePhase::ReportData { existed } => existed == world.data_loads,
        DeclarePhase::SaveConfig => !world.config_loads,
        DeclarePhase::ReportConfig { existed } => existed == world.config_loads,
        _ => true,
    }
}

/// Whether an action writes the build script, the record or the configuration
/// while `world` says that it is already there.
pub open spec fn declare_overwrites(action: DeclareActionModel, world: DeclareWorld) -> bool {
    ||| (action is WriteScriptTemplate && world.script_exists)
    ||| (action is SaveData && world.data_loads)
    ||| (action is SaveConfig && world.config_loads)
}

proof fn lemma_declare_consistent_run(m: DeclarationModel, world: DeclareWorld, n: nat)
    requires
        declare_consistent(m.phase, world),
    ensures
        forall|i: int|
            0 <= i < declare_run(m, world, n).len() ==> !declare_overwrites(
                #[trigger] declare_run(m, world, n)[i],
                world,
            ),
    decreases n,
{
    if n > 0 {
        let next = declare_next(m, declare_answer(m, world));
        lemma_declare_consistent_run(next, world, (n - 1) as nat);
        let rest = declare_run(next, world, (n - 1) as nat);
        assert forall|i: int|
            0 <= i < declare_run(m, world, n).len() implies !declare_overwrites(
            #[trigger] declare_run(m, world, n)[i],
            world,
        ) by {
            if i > 0 {
                assert(declare_run(m, world, n)[i] == rest[i - 1]);
            }
        }
    }
}

/// Declaring never overwrites: however long a declaration runs, it writes
/// the build script, saves the record or saves the configuration only when
/// that file was found missing. In particular, declaring a package whose
/// files all exist writes nothing.
pub proof fn lemma_declare_never_overwrites(m: DeclarationModel, world: DeclareWorld, n: nat)
    requires
        m.phase == DeclarePhase::CreateConfigDir,
    ensures
        forall|i: int|
            0 <= i < declare_run(m, world, n).len() ==> !declare_overwrites(
                #[trigger] declare_run(m, world, n)[i],
                world,
            ),
        forall|i: int|
            0 <= i < declare_run(m, world, n).len() ==> {
                &&& #[trigger] declare_run(m, world, n)[i] is WriteScriptTemplate
                    ==> !world.script_exists
                &&& declare_run(m, world, n)[i] is SaveData ==> !world.data_loads
                &&& declare_run(m, world, n)[i] is SaveConfig ==> !world.config_loads
            },
{
    lemma_declare_consistent_run(m, world, n);
}


/// What a declaration reports and records, in terms of the package: the
/// report on the data record names `<data dir>/<owner>-<repo>.json`, the file
/// the record `(owner, repo, "none")` is saved to; the report on the
/// configuration names `<config dir>/<owner>-<repo>.json`, where the empty
/// configuration is saved; the report on the build script names its path.
pub proof fn lemma_declare_reports(m: DeclarationModel)
    ensures
        declare_action(declare_at(m, DeclarePhase::ReportData { existed: true }))
            == DeclareActionModel::Print(
            "Already existing data file: "@ + m.data_root_shown + "/"@ + m.owner + "-"@ + m.repo
                + ".json"@,
        ),
        declare_action(declare_at(m, DeclarePhase::ReportData { existed: false }))
            == DeclareActionModel::Print(
            "Created missing state file: "@ + m.data_root_shown + "/"@ + m.owner + "-"@ + m.repo
                + ".json"@,
        ),
        declare_action(declare_at(m, DeclarePhase::SaveData)) == (DeclareActionModel::SaveData {
            owner: m.owner,
            repo: m.repo,
            installed_version: "none"@,
        }),
        declare_action(declare_at(m, DeclarePhase::ReportConfig { existed: true }))
            == DeclareActionModel::Print(
            "Already existing config file: "@ + m.config_dir_shown + "/"@ + m.owner + "-"@ + m.repo
                + ".json"@,
        ),
        declare_action(declare_at(m, DeclarePhase::ReportConfig { existed: false }))
            == DeclareActionModel::Print(
            "Created missing config file: "@ + m.config_dir_shown + "/"@ + m.owner + "-"@ + m.repo
                + ".json"@,
        ),
        declare_action(declare_at(m, DeclarePhase::SaveConfig)) == (DeclareActionModel::SaveConfig {
            binaries: Seq::empty(),
        }),
        declare_action(declare_at(m, DeclarePhase::ReportScript { existed: true }))
            == DeclareActionModel::Print("Already existing build script: "@ + m.script_shown),
        declare_action(declare_at(m, DeclarePhase::ReportScript { existed: false }))
            == DeclareActionModel::Print("Created missing build script: "@ + m.script_shown),
        declare_action(declare_at(m, DeclarePhase::ReportDone)) == DeclareActionModel::Print(
            "Done!"@,
        ),
{
    assert("Already existing data file: "@ + m.data_root_shown + "/"@ + m.owner + "-"@ + m.repo
        + ".json"@ =~= "Already existing data file: "@ + (m.data_root_shown + "/"@ + (m.owner
        + "-"@ + m.repo + ".json"@)));
    assert("Created missing state file: "@ + m.data_root_shown + "/"@ + m.owner + "-"@ + m.repo
        + ".json"@ =~= "Created missing state file: "@ + (m.data_root_shown + "/"@ + (m.owner
        + "-"@ + m.repo + ".json"@)));
    assert("Already existing config file: "@ + m.config_dir_shown + "/"@ + m.owner + "-"@ + m.repo
        + ".json"@ =~= "Already existing config file: "@ + (m.config_dir_shown + "/"@ + (m.owner
        + "-"@ + m.repo + ".json"@)));
    assert("Created missing config file: "@ + m.config_dir_shown + "/"@ + m.owner + "-"@ + m.repo
        + ".json"@ =~= "Created missing config file: "@ + (m.config_dir_shown + "/"@ + (m.owner
        + "-"@ + m.repo + ".json"@)));
}


/// A declaration creates what is missing: run against what it finds, it
/// writes the build script exactly when the script is missing, saves the
/// record `(owner, repo, "none")` exactly when none loads, saves the empty
/// configuration exactly when none loads, and ends by finishing.
pub proof fn lemma_declare_creates_missing(m: DeclarationModel, world: DeclareWorld)
    requires
        m.phase == DeclarePhase::CreateConfigDir,
    ensures
        ({
            let run = declare_run(m, world, declare_plan(m, world).len());
            &&& (exists|i: int| 0 <= i < run.len() && #[trigger] run[i] is WriteScriptTemplate)
                == !world.script_exists
            &&& (exists|i: int|
                0 <= i < run.len() && #[trigger] run[i] == DeclareActionModel::SaveData {
                    owner: m.owner,
                    repo: m.repo,
                    installed_version: "none"@,
                }) == !world.data_loads
            &&& (exists|i: int|
                0 <= i < run.len() && #[trigger] run[i] == DeclareActionModel::SaveConfig {
                    binaries: Seq::empty(),
                }) == !world.config_loads
            &&& run.len() > 0
            &&& run[0] == DeclareActionModel::CreateConfigDir
            &&& run[run.len() - 1] == DeclareActionModel::Finish
        }),
{
    lemma_declare_plan(m, world);
    lemma_declare_never_overwrites(m, world, declare_plan(m, world).len());
    let run = declare_run(m, world, declare_plan(m, world).len());
    let s: int = if world.script_exists {
        0
    } else {
        1
    };
    let d: int = if world.data_loads {
        0
    } else {
        1
    };
    if !world.script_exists {
        assert(run[2] is WriteScriptTemplate);
    }
    if !world.data_loads {
        assert(run[4 + s] == DeclareActionModel::SaveData {
            owner: m.owner,
            repo: m.repo,
            installed_version: "none"@,
        });
    }
    if !world.config_loads {
        assert(run[6 + s + d] == DeclareActionModel::SaveConfig { binaries: Seq::empty() });
    }
}

} // verus!
