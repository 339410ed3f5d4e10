//! The decisions of creating a server: which step comes next after each
//! step's outcome, when the half-made server folder is removed again, and
//! whether the EULA was accepted.

use vstd::prelude::*;
use crate::servers::Loader;
use crate::text::{trim, trimmed};

verus! {

/// Whether an answer to the EULA question accepts it: the answer, without
/// surrounding white space and lower-cased, is `y` (so `y` or `Y`).
pub open spec fn accepts_eula(answer: Seq<char>) -> bool {
    trim(answer) == seq!['y'] || trim(answer) == seq!['Y']
}

/// Whether an answer to the EULA question accepts it.
pub fn eula_accepted(answer: &str) -> (ok: bool)
    ensures
        ok == accepts_eula(answer@),
{
    let t = trimmed(answer);
    let cs = crate::text::chars_of(t.as_str());
    if cs.len() == 1 && (cs[0] == 'y' || cs[0] == 'Y') {
        assert(cs@ =~= seq![cs@[0]]);
        true
    } else {
        assert(cs@.len() == 1 ==> cs@ =~= seq![cs@[0]]);
        false
    }
}

/// A step of creating a server, which the surroundings carry out and report
/// on.
pub enum CreateAction {
    /// Find the folder in which servers are kept (fails when none is set).
    LocateServersDir,
    /// Check that the server's folder does not exist yet (fails when it does).
    CheckFolderFree,
    /// Create the server's folder.
    MakeFolder,
    /// Look the version up in Mojang's manifest; report its URL.
    FindVersion,
    /// Download the server jar described at this URL into the folder.
    DownloadJar(String),
    /// Ask the user for the path of the Forge installer; report the answer.
    AskInstallerPath,
    /// Check that the installer at this path exists (fails when it does not).
    CheckInstaller(String),
    /// Run the installer in the server's folder and wait for it.
    RunInstaller(String),
    /// Check that the installer created `run.sh`.
    CheckRunScript,
    /// Run `run.sh` once and wait for it, so that it writes `eula.txt`.
    RunFirstBoot,
    /// Check that `eula.txt` exists.
    CheckEulaFile,
    /// Ask the user whether they accept the EULA; report the answer.
    AskEula,
    /// Write `eula=true` into `eula.txt`.
    WriteEula,
    /// Describe the new server and add it to the server list.
    Register,
    /// Remove the server's folder, after a failure.
    RemoveFolder,
    /// Rebuild the server list from the servers folder.
    Sync,
    /// Nothing is left to do.
    Done,
}

/// How a step went.
pub enum CreateOutcome {
    Succeeded,
    Failed,
    /// The step succeeded and produced this text (a URL, a path, an answer).
    Text(String),
}

/// Where the creation stands: the step that was last asked for.
#[derive(Clone, Copy, Debug, PartialEq, Eq, Structural)]
pub enum Stage {
    LocatingDir,
    CheckingFolder,
    MakingFolder,
    FindingVersion,
    Downloading,
    AskingInstaller,
    CheckingInstaller,
    RunningInstaller,
    CheckingRunScript,
    RunningFirstBoot,
    CheckingEulaFile,
    AskingEula,
    WritingEula,
    Registering,
    RemovingFolder,
    Syncing,
    Finished,
}

/// The state of a creation: the loader, the stage, whether this creation
/// made the server's folder, whether the EULA was accepted, and the path of
/// the Forge installer the user named (empty until then).
pub struct CreationFlow {
    pub loader: Loader,
    pub stage: Stage,
    pub made_folder: bool,
    pub eula_accepted: bool,
    pub installer: String,
}

/// A creation's state as plain values.
#[verifier::ext_equal]
pub struct FlowView {
    pub loader: Loader,
    pub stage: Stage,
    pub made_folder: bool,
    pub eula_accepted: bool,
    pub installer: Seq<char>,
}

impl View for CreationFlow {
    type V = FlowView;

    open spec fn view(&self) -> FlowView {
        FlowView {
            loader: self.loader,
            stage: self.stage,
            made_folder: self.made_folder,
            eula_accepted: self.eula_accepted,
            installer: self.installer@,
        }
    }
}

/// A step as plain values.
pub enum ActionView {
    LocateServersDir,
    CheckFolderFree,
    MakeFolder,
    FindVersion,
    DownloadJar(Seq<char>),
    AskInstallerPath,
    CheckInstaller(Seq<char>),
    RunInstaller(Seq<char>),
    CheckRunScript,
    RunFirstBoot,
    CheckEulaFile,
    AskEula,
    WriteEula,
    Register,
    RemoveFolder,
    Sync,
    Done,
}

/// An outcome as plain values.
pub enum OutcomeView {
    Succeeded,
    Failed,
    Text(Seq<char>),
}

impl View for CreateAction {
    type V = ActionView;

    open spec fn view(&self) -> ActionView {
        match self {
            CreateAction::LocateServersDir => ActionView::LocateServersDir,
            CreateAction::CheckFolderFree => ActionView::CheckFolderFree,
            CreateAction::MakeFolder => ActionView::MakeFolder,
            CreateAction::FindVersion => ActionView::FindVersion,
            CreateAction::DownloadJar(u) => ActionView::DownloadJar(u@),
            CreateAction::AskInstallerPath => ActionView::AskInstallerPath,
            CreateAction::CheckInstaller(p) => ActionView::CheckInstaller(p@),
            CreateAction::RunInstaller(p) => ActionView::RunInstaller(p@),
            CreateAction::CheckRunScript => ActionView::CheckRunScript,
            CreateAction::RunFirstBoot => ActionView::RunFirstBoot,
            CreateAction::CheckEulaFile => ActionView::CheckEulaFile,
            CreateAction::AskEula => ActionView::AskEula,
            CreateAction::WriteEula => ActionView::WriteEula,
            CreateAction::Register => ActionView::Register,
            CreateAction::RemoveFolder => ActionView::RemoveFolder,
            CreateAction::Sync => ActionView::Sync,
            CreateAction::Done => ActionView::Done,
        }
    }
}

impl View for CreateOutcome {
    type V = OutcomeView;

    open spec fn view(&self) -> OutcomeView {
        match self {
            CreateOutcome::Succeeded => OutcomeView::Succeeded,
            CreateOutcome::Failed => OutcomeView::Failed,
            CreateOutcome::Text(t) => OutcomeView::Text(t@),
        }
    }
}

/// The flow with another stage and step.
pub open spec fn go(f: FlowView, stage: Stage, a: ActionView) -> (FlowView, ActionView) {
    (FlowView { stage, ..f }, a)
}

/// After a failure: the folder this creation made is removed; otherwise the
/// server list is rebuilt right away.
pub open spec fn after_failure(f: FlowView) -> (FlowView, ActionView) {
    if f.made_folder {
        go(f, Stage::RemovingFolder, ActionView::RemoveFolder)
    } else {
        go(f, Stage::Syncing, ActionView::Sync)
    }
}

/// Whether an outcome reports success.
pub open spec fn ok(o: OutcomeView) -> bool {
    o !is Failed
}

/// The next state and step of a creation, after the outcome of the step last
/// asked for.
pub open spec fn creation_next(f: FlowView, o: OutcomeView) -> (FlowView, ActionView) {
    match f.stage {
        Stage::LocatingDir => if ok(o) {
            go(f, Stage::CheckingFolder, ActionView::CheckFolderFree)
        } else {
            after_failure(f)
        },
        Stage::CheckingFolder => if ok(o) {
            go(f, Stage::MakingFolder, ActionView::MakeFolder)
        } else {
            after_failure(f)
        },
        Stage::MakingFolder => if ok(o) {
            let g = FlowView { made_folder: true, ..f };
            if f.loader == Loader::Forge {
                go(g, Stage::AskingInstaller, ActionView::AskInstallerPath)
            } else {
                go(g, Stage::FindingVersion, ActionView::FindVersion)
            }
        } else {
            after_failure(f)
        },
        Stage::FindingVersion => match o {
            OutcomeView::Text(url) => go(f, Stage::Downloading, ActionView::DownloadJar(url)),
            _ => after_failure(f),
        },
        Stage::Downloading => if ok(o) {
            go(f, Stage::AskingEula, ActionView::AskEula)
        } else {
            after_failure(f)
        },
        Stage::AskingInstaller => match o {
            OutcomeView::Text(answer) => go(
                FlowView { installer: trim(answer), ..f },
                Stage::CheckingInstaller,
                ActionView::CheckInstaller(trim(answer)),
            ),
            _ => after_failure(f),
        },
        Stage::CheckingInstaller => if ok(o) {
            go(f, Stage::RunningInstaller, ActionView::RunInstaller(f.installer))
        } else {
            after_failure(f)
        },
        Stage::RunningInstaller => go(f, Stage::CheckingRunScript, ActionView::CheckRunScript),
        Stage::CheckingRunScript => if ok(o) {
            go(f, Stage::RunningFirstBoot, ActionView::RunFirstBoot)
        } else {
            after_failure(f)
        },
        Stage::RunningFirstBoot => go(f, Stage::CheckingEulaFile, ActionView::CheckEulaFile),
        Stage::CheckingEulaFile => if ok(o) {
            go(f, Stage::AskingEula, ActionView::AskEula)
        } else {
            after_failure(f)
        },
        Stage::AskingEula => match o {
            OutcomeView::Text(answer) => if accepts_eula(answer) {
                go(FlowView { eula_accepted: true, ..f }, Stage::WritingEula, ActionView::WriteEula)
            } else {
                after_failure(f)
            },
            _ => after_failure(f),
        },
        Stage::WritingEula => if ok(o) {
            go(f, Stage::Registering, ActionView::Register)
        } else {
            after_failure(f)
        },
        Stage::Registering => go(f, Stage::Syncing, ActionView::Sync),
        Stage::RemovingFolder => go(f, Stage::Syncing, ActionView::Sync),
        Stage::Syncing => go(f, Stage::Finished, ActionView::Done),
        Stage::Finished => go(f, Stage::Finished, ActionView::Done),
    }
}

/// How a creation starts: vanilla and Forge servers start by locating the
/// servers folder; Fabric and NeoForge servers are not set up yet, so only
/// the server list is rebuilt.
pub open spec fn creation_start(loader: Loader) -> (FlowView, ActionView) {
    let f = FlowView {
        loader,
        stage: Stage::LocatingDir,
        made_folder: false,
        eula_accepted: false,
        installer: Seq::empty(),
    };
    match loader {
        Loader::Vanilla | Loader::Forge => (f, ActionView::LocateServersDir),
        _ => go(f, Stage::Syncing, ActionView::Sync),
    }
}

/// Starts creating a server with the given loader: the first state and step.
pub fn create(loader: Loader) -> (r: (CreationFlow, CreateAction))
    ensures
        (r.0@, r.1@) == creation_start(loader),
{
    let f = CreationFlow {
        loader,
        stage: Stage::LocatingDir,
        made_folder: false,
        eula_accepted: false,
        installer: String::new(),
    };
    match loader {
        Loader::Vanilla | Loader::Forge => (f, CreateAction::LocateServersDir),
        _ => (CreationFlow { stage: Stage::Syncing, ..f }, CreateAction::Sync),
    }
}

impl CreationFlow {
    fn after_failure(&mut self) -> (a: CreateAction)
        ensures
            (final(self)@, a@) == after_failure(old(self)@),
    {
        if self.made_folder {
            self.stage = Stage::RemovingFolder;
            CreateAction::RemoveFolder
        } else {
            self.stage = Stage::Syncing;
            CreateAction::Sync
        }
    }

    fn to(&mut self, stage: Stage, a: CreateAction) -> (r: CreateAction)
        ensures
            (final(self)@, r@) == go(old(self)@, stage, a@),
    {
        self.stage = stage;
        a
    }

    /// Decides the next step from the outcome of the last one.
    pub fn step(&mut self, outcome: CreateOutcome) -> (a: CreateAction)
        ensures
            (final(self)@, a@) == creation_next(old(self)@, outcome@),
    {
        let succeeded = match outcome {
            CreateOutcome::Failed => false,
            _ => true,
        };
        match self.stage {
            Stage::LocatingDir => if succeeded {
                self.to(Stage::CheckingFolder, CreateAction::CheckFolderFree)
            } else {
                self.after_failure()
            },
            Stage::CheckingFolder => if succeeded {
                self.to(Stage::MakingFolder, CreateAction::MakeFolder)
            } else {
                self.after_failure()
            },
            Stage::MakingFolder => if succeeded {
                self.made_folder = true;
                if self.loader == Loader::Forge {
                    self.to(Stage::AskingInstaller, CreateAction::AskInstallerPath)
                } else {
                    self.to(Stage::FindingVersion, CreateAction::FindVersion)
                }
            } else {
                self.after_failure()
            },
            Stage::FindingVersion => match outcome {
                CreateOutcome::Text(url) => self.to(Stage::Downloading, CreateAction::DownloadJar(url)),
                _ => self.after_failure(),
            },
            Stage::Downloading => if succeeded {
                self.to(Stage::AskingEula, CreateAction::AskEula)
            } else {
                self.after_failure()
            },
            Stage::AskingInstaller => match outcome {
                CreateOutcome::Text(answer) => {
                    let path = trimmed(answer.as_str());
                    self.installer = path.clone();
                    self.to(Stage::CheckingInstaller, CreateAction::CheckInstaller(path))
                },
                _ => self.after_failure(),
            },
            Stage::CheckingInstaller => if succeeded {
                let path = self.installer.clone();
                self.to(Stage::RunningInstaller, CreateAction::RunInstaller(path))
            } else {
                self.after_failure()
            },
            Stage::RunningInstaller => self.to(Stage::CheckingRunScript, CreateAction::CheckRunScript),
            Stage::CheckingRunScript => if succeeded {
                self.to(Stage::RunningFirstBoot, CreateAction::RunFirstBoot)
            } else {
                self.after_failure()
            },
            Stage::RunningFirstBoot => self.to(Stage::CheckingEulaFile, CreateAction::CheckEulaFile),
            Stage::CheckingEulaFile => if succeeded {
                self.to(Stage::AskingEula, CreateAction::AskEula)
            } else {
                self.after_failure()
            },
            Stage::AskingEula => match outcome {
                CreateOutcome::Text(answer) => if eula_accepted(answer.as_str()) {
                    self.eula_accepted = true;
                    self.to(Stage::WritingEula, CreateAction::WriteEula)
                } else {
                    self.after_failure()
                },
                _ => self.after_failure(),
            },
            Stage::WritingEula => if succeeded {
                self.to(Stage::Registering, CreateAction::Register)
            } else {
                self.after_failure()
            },
            Stage::Registering => self.to(Stage::Syncing, CreateAction::Sync),
            Stage::RemovingFolder => self.to(Stage::Syncing, CreateAction::Sync),
            Stage::Syncing => self.to(Stage::Finished, CreateAction::Done),
            Stage::Finished => self.to(Stage::Finished, CreateAction::Done),
        }
    }
}

/// The stages at which a step can fail.
pub open spec fn can_fail(stage: Stage) -> bool {
    match stage {
        Stage::RunningInstaller | Stage::RunningFirstBoot | Stage::Registering
        | Stage::RemovingFolder | Stage::Syncing | Stage::Finished => false,
        _ => true,
    }
}

/// How far a stage is from the end; every step moves closer.
pub open spec fn distance_to_end(stage: Stage) -> nat {
    match stage {
        Stage::LocatingDir => 16,
        Stage::CheckingFolder => 15,
        Stage::MakingFolder => 14,
        Stage::FindingVersion => 13,
        Stage::Downloading => 12,
        Stage::AskingInstaller => 11,
        Stage::CheckingInstaller => 10,
        Stage::RunningInstaller => 9,
        Stage::CheckingRunScript => 8,
        Stage::RunningFirstBoot => 7,
        Stage::CheckingEulaFile => 6,
        Stage::AskingEula => 5,
        Stage::WritingEula => 4,
        Stage::Registering => 3,
        Stage::RemovingFolder => 2,
        Stage::Syncing => 1,
        Stage::Finished => 0,
    }
}

/// A server's folder is removed only by the creation that made it, and
/// whenever a step fails after the folder was made, the next step removes
/// it; when a step fails before, nothing is removed and the list is rebuilt.
pub proof fn law_failed_creation_removes_only_its_folder(f: FlowView, o: OutcomeView)
    ensures
        ({
            let (n, a) = creation_next(f, o);
            &&& a == ActionView::RemoveFolder ==> n.made_folder
            &&& n.made_folder ==> f.made_folder || (f.stage == Stage::MakingFolder && o !is Failed)
            &&& can_fail(f.stage) && o is Failed ==> if f.made_folder {
                a == ActionView::RemoveFolder
            } else {
                a == ActionView::Sync
            }
        }),
{
}

/// What holds of every state a creation passes through: the folder counts
/// as made exactly from the step after making it until the list is rebuilt
/// (not counting a failure before), and the EULA counts as accepted from the
/// step that writes it on.
pub open spec fn flow_consistent(f: FlowView) -> bool {
    &&& match f.stage {
        Stage::LocatingDir | Stage::CheckingFolder | Stage::MakingFolder => !f.made_folder,
        Stage::Syncing | Stage::Finished => true,
        _ => f.made_folder,
    }
    &&& (f.stage == Stage::WritingEula || f.stage == Stage::Registering) ==> f.eula_accepted
}

/// Every creation starts consistent, and every step keeps it so.
pub proof fn law_creation_stays_consistent(loader: Loader, f: FlowView, o: OutcomeView)
    ensures
        flow_consistent(creation_start(loader).0),
        flow_consistent(f) ==> flow_consistent(creation_next(f, o).0),
{
}

/// A server is registered only after its folder was made and its EULA
/// accepted; an answer that does not accept the EULA ends the creation
/// without registering, removing the folder.
pub proof fn law_registration_needs_accepted_eula(f: FlowView, o: OutcomeView)
    requires
        flow_consistent(f),
    ensures
        ({
            let (n, a) = creation_next(f, o);
            &&& a == ActionView::Register ==> n.eula_accepted && n.made_folder
            &&& f.stage == Stage::AskingEula ==> (o matches OutcomeView::Text(answer) ==> (!accepts_eula(
                answer,
            ) ==> a == ActionView::RemoveFolder))
        }),
{
}

/// Every step moves the creation closer to its end, and it always ends by
/// rebuilding the server list.
pub proof fn law_creation_ends_with_sync(f: FlowView, o: OutcomeView)
    requires
        flow_consistent(f),
    ensures
        ({
            let (n, a) = creation_next(f, o);
            &&& f.stage != Stage::Finished ==> distance_to_end(n.stage) < distance_to_end(f.stage)
            &&& n.stage == Stage::Finished && f.stage != Stage::Finished ==> f.stage == Stage::Syncing
            &&& n.stage == Stage::Syncing ==> a == ActionView::Sync
        }),
{
}

/// The EULA is accepted only by the user: the EULA is written, and counts as
/// accepted, only right after the user was asked and answered `y` or `Y`
/// (around white space).
pub proof fn law_eula_only_by_answer(f: FlowView, o: OutcomeView)
    ensures
        ({
            let (n, a) = creation_next(f, o);
            (a == ActionView::WriteEula || (n.eula_accepted && !f.eula_accepted)) ==> {
                &&& f.stage == Stage::AskingEula
                &&& o matches OutcomeView::Text(answer) && (trim(answer) == seq!['y'] || trim(answer)
                    == seq!['Y'])
            }
        }),
        f.stage == Stage::CheckingEulaFile && o !is Failed ==> creation_next(f, o).1
            == ActionView::AskEula && !creation_next(f, o).0.eula_accepted == !f.eula_accepted,
        f.stage == Stage::Downloading && o !is Failed ==> creation_next(f, o).1 == ActionView::AskEula,
{
}

/// The steps of a creation that goes well, in order: locate the servers
/// folder, check the server's folder is free, make it; for vanilla, look the
/// version up and download its jar (from the URL found); for Forge, ask for
/// the installer (its path trimmed), check it, run it, check `run.sh`, boot
/// once, check `eula.txt`; then ask about the EULA, write it when accepted,
/// register the server, rebuild the list, and finish.
pub proof fn law_creation_steps(f: FlowView, text: Seq<char>)
    ensures
        f.stage == Stage::LocatingDir ==> creation_next(f, OutcomeView::Succeeded).1
            == ActionView::CheckFolderFree,
        f.stage == Stage::CheckingFolder ==> creation_next(f, OutcomeView::Succeeded).1
            == ActionView::MakeFolder,
        f.stage == Stage::MakingFolder ==> creation_next(f, OutcomeView::Succeeded).0.made_folder
            && creation_next(f, OutcomeView::Succeeded).1 == if f.loader == Loader::Forge {
            ActionView::AskInstallerPath
        } else {
            ActionView::FindVersion
        },
        f.stage == Stage::FindingVersion ==> creation_next(f, OutcomeView::Text(text)).1
            == ActionView::DownloadJar(text),
        f.stage == Stage::FindingVersion ==> creation_next(f, OutcomeView::Succeeded).1 != ActionView::AskEula,
        f.stage == Stage::AskingInstaller ==> creation_next(f, OutcomeView::Text(text)).1
            == ActionView::CheckInstaller(trim(text)) && creation_next(f, OutcomeView::Text(text)).0.installer
            == trim(text),
        f.stage == Stage::CheckingInstaller ==> creation_next(f, OutcomeView::Succeeded).1
            == ActionView::RunInstaller(f.installer),
        f.stage == Stage::RunningInstaller ==> creation_next(f, OutcomeView::Succeeded).1
            == ActionView::CheckRunScript,
        f.stage == Stage::CheckingRunScript ==> creation_next(f, OutcomeView::Succeeded).1
            == ActionView::RunFirstBoot,
        f.stage == Stage::RunningFirstBoot ==> creation_next(f, OutcomeView::Succeeded).1
            == ActionView::CheckEulaFile,
        f.stage == Stage::AskingEula && (trim(text) == seq!['y'] || trim(text) == seq!['Y'])
            ==> creation_next(f, OutcomeView::Text(text)).1 == ActionView::WriteEula
            && creation_next(f, OutcomeView::Text(text)).0.eula_accepted,
        f.stage == Stage::WritingEula ==> creation_next(f, OutcomeView::Succeeded).1 == ActionView::Register,
        f.stage == Stage::Registering ==> creation_next(f, OutcomeView::Succeeded).1 == ActionView::Sync,
        f.stage == Stage::RemovingFolder ==> creation_next(f, OutcomeView::Succeeded).1 == ActionView::Sync,
        f.stage == Stage::Syncing ==> creation_next(f, OutcomeView::Succeeded).1 == ActionView::Done,
        f.stage == Stage::Finished ==> creation_next(f, OutcomeView::Succeeded).1 == ActionView::Done,
        creation_start(Loader::Vanilla).1 == ActionView::LocateServersDir,
        creation_start(Loader::Forge).1 == ActionView::LocateServersDir,
        creation_start(Loader::Fabric).1 == ActionView::Sync,
        creation_start(Loader::NeoForge).1 == ActionView::Sync,
        !creation_start(Loader::Vanilla).0.made_folder && !creation_start(Loader::Vanilla).0.eula_accepted,
        !creation_start(Loader::Forge).0.made_folder && !creation_start(Loader::Forge).0.eula_accepted,
{
}

} // verus!
