//! The scaffold of a project on disk: a manifest, and a runbook that deploys its programs.
//!
//! The scaffold is a machine. It says what to do next, an `Action`, and is told with an `Event`
//! what came of it. Whoever runs it reads and writes files, asks the user and renders templates;
//! what is written where, in which order, and what ends the scaffold, is decided here.

use crate::framework::{Framework, ProgramMetadata, ProgramView};
use crate::location::LocationView;
use crate::manifest::{Manifest, ManifestView};
use crate::templates::{RequestView, TemplateRequest};
use txtx_core::kit::helpers::fs::FileLocation;
use vstd::prelude::*;

verus! {

/// The name of the file that a new manifest is written to.
pub const MANIFEST_FILE: &'static str = "txtx.yml";

/// The question that goes with `Action::SelectPrograms`.
pub const SELECT_PROMPT: &'static str = "Select the programs to deploy (all by default):";

/// The question that goes with `Action::AskName`.
pub const NAME_PROMPT: &'static str = "Enter the name of this workspace";

/// The question that goes with `Action::Confirm`.
pub const CONFIRM_PROMPT: &'static str =
    "Review your deployment in 'runbooks/deployment/main.tx' and confirm to continue";

/// What a mere return answers to the question that goes with `Action::Confirm`: yes.
pub const CONFIRM_DEFAULT: bool = true;

/// A network that the scaffold writes signers for.
#[derive(Clone, Copy, PartialEq, Eq, Structural, Debug)]
pub enum Network {
    Localnet,
    Devnet,
    Mainnet,
}

/// What the scaffold waits for.
#[derive(Clone, Copy, PartialEq, Eq, Structural, Debug)]
pub enum Stage {
    LoadingManifest,
    SelectingPrograms,
    ReadingDirectoryName,
    AskingName,
    RenderingTemplates,
    CreatingManifest,
    OpeningManifest,
    WritingManifest,
    CheckingRunbooks,
    CreatingRunbooks,
    CheckingReadme,
    CreatingReadme,
    RenderingReadme,
    WritingReadme,
    CheckingDeployment,
    CreatingDeployment,
    CheckingMain,
    CreatingMain,
    WritingMain,
    CreatingSigner(Network),
    WritingSigner(Network),
    Confirming,
    OfferingSkill,
    Finished,
}

/// The files and directories of a scaffold.
pub struct Locations {
    /// The manifest, where the project has none yet.
    pub manifest: FileLocation,
    pub runbooks: FileLocation,
    pub readme: FileLocation,
    pub deployment: FileLocation,
    pub main: FileLocation,
    pub localnet: FileLocation,
    pub devnet: FileLocation,
    pub mainnet: FileLocation,
}

/// The views of the locations of a scaffold.
pub struct LocationsView {
    pub manifest: LocationView,
    pub runbooks: LocationView,
    pub readme: LocationView,
    pub deployment: LocationView,
    pub main: LocationView,
    pub localnet: LocationView,
    pub devnet: LocationView,
    pub mainnet: LocationView,
}

impl View for Locations {
    type V = LocationsView;

    open spec fn view(&self) -> LocationsView {
        LocationsView {
            manifest: crate::location::location_view(self.manifest),
            runbooks: crate::location::location_view(self.runbooks),
            readme: crate::location::location_view(self.readme),
            deployment: crate::location::location_view(self.deployment),
            main: crate::location::location_view(self.main),
            localnet: crate::location::location_view(self.localnet),
            devnet: crate::location::location_view(self.devnet),
            mainnet: crate::location::location_view(self.mainnet),
        }
    }
}

impl LocationsView {
    /// The file with the signers of a network.
    pub open spec fn signer(self, network: Network) -> LocationView {
        match network {
            Network::Localnet => self.localnet,
            Network::Devnet => self.devnet,
            Network::Mainnet => self.mainnet,
        }
    }

    /// Whether all locations are paths on this machine that stand where they belong in the project
    /// whose directory has the path `base`.
    pub open spec fn stand_in(self, base: Seq<Seq<char>>) -> bool {
        let runbooks = base.push("runbooks"@);
        let deployment = runbooks.push("deployment"@);
        &&& self.manifest.on_disk && self.manifest.components == base.push(MANIFEST_FILE@)
        &&& self.runbooks.on_disk && self.runbooks.components == runbooks
        &&& self.readme.on_disk && self.readme.components == runbooks.push("README.md"@)
        &&& self.deployment.on_disk && self.deployment.components == deployment
        &&& self.main.on_disk && self.main.components == deployment.push("main.tx"@)
        &&& self.localnet.on_disk && self.localnet.components == deployment.push(
            "signers.localnet.tx"@,
        )
        &&& self.devnet.on_disk && self.devnet.components == deployment.push("signers.devnet.tx"@)
        &&& self.mainnet.on_disk && self.mainnet.components == deployment.push(
            "signers.mainnet.tx"@,
        )
    }

    /// Whether what all locations display as ends with their names.
    pub open spec fn are_named(self) -> bool {
        &&& MANIFEST_FILE@.is_suffix_of(self.manifest.text)
        &&& "runbooks"@.is_suffix_of(self.runbooks.text)
        &&& "README.md"@.is_suffix_of(self.readme.text)
        &&& "deployment"@.is_suffix_of(self.deployment.text)
        &&& "main.tx"@.is_suffix_of(self.main.text)
        &&& "signers.localnet.tx"@.is_suffix_of(self.localnet.text)
        &&& "signers.devnet.tx"@.is_suffix_of(self.devnet.text)
        &&& "signers.mainnet.tx"@.is_suffix_of(self.mainnet.text)
    }

    /// Whether all locations display as entries of the project whose directory displays as `base`.
    pub open spec fn display_in(self, base: Seq<char>) -> bool {
        &&& crate::location::entry_text(self.manifest.text, base, MANIFEST_FILE@)
        &&& crate::location::entry_text(self.runbooks.text, base, "runbooks"@)
        &&& crate::location::entry_text(self.readme.text, self.runbooks.text, "README.md"@)
        &&& crate::location::entry_text(self.deployment.text, self.runbooks.text, "deployment"@)
        &&& crate::location::entry_text(self.main.text, self.deployment.text, "main.tx"@)
        &&& crate::location::entry_text(
            self.localnet.text,
            self.deployment.text,
            "signers.localnet.tx"@,
        )
        &&& crate::location::entry_text(
            self.devnet.text,
            self.deployment.text,
            "signers.devnet.tx"@,
        )
        &&& crate::location::entry_text(
            self.mainnet.text,
            self.deployment.text,
            "signers.mainnet.tx"@,
        )
    }
}

/// The sources that a scaffold writes: the deployment, and the signers of each network.
pub struct Sources {
    pub deployment: String,
    pub localnet: String,
    pub devnet: String,
    pub mainnet: String,
}

/// The texts of the sources of a scaffold.
pub struct SourcesView {
    pub deployment: Seq<char>,
    pub localnet: Seq<char>,
    pub devnet: Seq<char>,
    pub mainnet: Seq<char>,
}

impl View for Sources {
    type V = SourcesView;

    open spec fn view(&self) -> SourcesView {
        SourcesView {
            deployment: self.deployment@,
            localnet: self.localnet@,
            devnet: self.devnet@,
            mainnet: self.mainnet@,
        }
    }
}

impl SourcesView {
    /// The signers of a network.
    pub open spec fn signer(self, network: Network) -> Seq<char> {
        match network {
            Network::Localnet => self.localnet,
            Network::Devnet => self.devnet,
            Network::Mainnet => self.mainnet,
        }
    }
}

/// What came of an action.
pub enum Event {
    /// The manifest was read, or could not be.
    ManifestLoaded(Option<Manifest>),
    /// The user picked the programs with these indices.
    ProgramsSelected(Vec<usize>),
    /// The name of the working directory, if it has one.
    DirectoryName(Option<String>),
    /// The user gave the workspace this name.
    NameEntered(String),
    /// The templates were rendered, in the order of the requests.
    TemplatesRendered(Vec<String>),
    /// Whether something is there.
    Exists(bool),
    /// The action was done.
    Done,
    /// The README was rendered, or what is wrong with the rendering, or with the template.
    ReadmeRendered(Result<Result<String, String>, String>),
    /// Whether the user confirmed.
    Confirmed(bool),
    /// Whether the installation of the skill was started.
    SkillOffered(bool),
    /// The action failed.
    Failed(String),
}

/// What the contracts read of an event.
pub enum EventView {
    ManifestLoaded(Option<ManifestView>),
    ProgramsSelected(Seq<usize>),
    DirectoryName(Option<Seq<char>>),
    NameEntered(Seq<char>),
    TemplatesRendered(Seq<Seq<char>>),
    Exists(bool),
    Done,
    ReadmeRendered(Result<Result<Seq<char>, Seq<char>>, Seq<char>>),
    Confirmed(bool),
    SkillOffered(bool),
    Failed(Seq<char>),
}

/// The view of an optional manifest.
pub open spec fn optional_manifest(manifest: Option<Manifest>) -> Option<ManifestView> {
    match manifest {
        Some(manifest) => Some(manifest@),
        None => None,
    }
}

impl View for Event {
    type V = EventView;

    open spec fn view(&self) -> EventView {
        match *self {
            Event::ManifestLoaded(manifest) => EventView::ManifestLoaded(
                optional_manifest(manifest),
            ),
            Event::ProgramsSelected(indices) => EventView::ProgramsSelected(indices@),
            Event::DirectoryName(name) => EventView::DirectoryName(
                crate::manifest::optional_text(name),
            ),
            Event::NameEntered(name) => EventView::NameEntered(name@),
            Event::TemplatesRendered(rendered) => EventView::TemplatesRendered(
                crate::text::texts(rendered@),
            ),
            Event::Exists(exists_there) => EventView::Exists(exists_there),
            Event::Done => EventView::Done,
            Event::ReadmeRendered(rendering) => EventView::ReadmeRendered(
                crate::manifest::rendering_view(rendering),
            ),
            Event::Confirmed(confirmed) => EventView::Confirmed(confirmed),
            Event::SkillOffered(started) => EventView::SkillOffered(started),
            Event::Failed(e) => EventView::Failed(e@),
        }
    }
}

/// What to do next.
pub enum Action {
    /// Read the manifest at a location.
    LoadManifest(FileLocation),
    /// Let the user pick among the programs with these names, all of them picked at first.
    SelectPrograms(Vec<String>),
    /// Find out the name of the working directory.
    ReadDirectoryName,
    /// Ask for the name of the workspace, with a default.
    AskName(String),
    /// Render templates.
    Render(Vec<TemplateRequest>),
    /// Create a file, or empty it.
    CreateFile(FileLocation),
    /// Write a text to a file.
    WriteFile(FileLocation, String),
    /// Render the README, with the data of a manifest.
    RenderReadme(Manifest),
    /// Find out whether something is there.
    CheckExists(FileLocation),
    /// Create a directory and those above it.
    CreateDirectory(FileLocation),
    /// Let the user confirm the deployment.
    Confirm,
    /// Offer the installation of the skill in the project at a location, which was accepted in
    /// advance or was not.
    OfferSkill(FileLocation, bool),
    /// Nothing: the scaffold ended this way.
    Finish(Result<(), String>),
}

/// What the contracts read of an action.
pub enum ActionView {
    LoadManifest(LocationView),
    SelectPrograms(Seq<Seq<char>>),
    ReadDirectoryName,
    AskName(Seq<char>),
    Render(Seq<RequestView>),
    CreateFile(LocationView),
    WriteFile(LocationView, Seq<char>),
    RenderReadme(ManifestView),
    CheckExists(LocationView),
    CreateDirectory(LocationView),
    Confirm,
    OfferSkill(LocationView, bool),
    Finish(Result<(), Seq<char>>),
}

impl View for Action {
    type V = ActionView;

    open spec fn view(&self) -> ActionView {
        match *self {
            Action::LoadManifest(location) => ActionView::LoadManifest(
                crate::location::location_view(location),
            ),
            Action::SelectPrograms(names) => ActionView::SelectPrograms(
                crate::text::texts(names@),
            ),
            Action::ReadDirectoryName => ActionView::ReadDirectoryName,
            Action::AskName(name) => ActionView::AskName(name@),
            Action::Render(requests) => ActionView::Render(
                crate::templates::request_views(requests@),
            ),
            Action::CreateFile(location) => ActionView::CreateFile(
                crate::location::location_view(location),
            ),
            Action::WriteFile(location, text) => ActionView::WriteFile(
                crate::location::location_view(location),
                text@,
            ),
            Action::RenderReadme(manifest) => ActionView::RenderReadme(manifest@),
            Action::CheckExists(location) => ActionView::CheckExists(
                crate::location::location_view(location),
            ),
            Action::CreateDirectory(location) => ActionView::CreateDirectory(
                crate::location::location_view(location),
            ),
            Action::Confirm => ActionView::Confirm,
            Action::OfferSkill(location, auto_accept) => ActionView::OfferSkill(
                crate::location::location_view(location),
                auto_accept,
            ),
            Action::Finish(Ok(_)) => ActionView::Finish(Ok(())),
            Action::Finish(Err(e)) => ActionView::Finish(Err(e@)),
        }
    }
}

/// Something to tell the user.
pub enum Notice {
    /// A new manifest was created.
    CreatedManifest,
    /// The README was written.
    CreatedReadme,
    /// A file was written.
    CreatedFile(FileLocation),
    /// This is the source of the deployment.
    DeploymentSource(String),
    /// The user did not confirm.
    DeploymentCanceled,
    /// The installation of the skill was started.
    InstallerStarted,
}

/// What the contracts read of a notice.
pub enum NoticeView {
    CreatedManifest,
    CreatedReadme,
    CreatedFile(LocationView),
    DeploymentSource(Seq<char>),
    DeploymentCanceled,
    InstallerStarted,
}

impl View for Notice {
    type V = NoticeView;

    open spec fn view(&self) -> NoticeView {
        match *self {
            Notice::CreatedManifest => NoticeView::CreatedManifest,
            Notice::CreatedReadme => NoticeView::CreatedReadme,
            Notice::CreatedFile(location) => NoticeView::CreatedFile(
                crate::location::location_view(location),
            ),
            Notice::DeploymentSource(text) => NoticeView::DeploymentSource(text@),
            Notice::DeploymentCanceled => NoticeView::DeploymentCanceled,
            Notice::InstallerStarted => NoticeView::InstallerStarted,
        }
    }
}

/// What to do in one turn: tell the user something, then act.
pub struct Turn {
    pub notices: Vec<Notice>,
    pub action: Action,
}

/// What the contracts read of a turn.
pub struct TurnView {
    pub notices: Seq<NoticeView>,
    pub action: ActionView,
}

impl View for Turn {
    type V = TurnView;

    open spec fn view(&self) -> TurnView {
        TurnView {
            notices: self.notices@.map_values(|notice: Notice| notice@),
            action: self.action@,
        }
    }
}

/// A scaffold on its way.
pub struct Scaffold {
    /// The directory of the project.
    pub base: FileLocation,
    pub framework: Framework,
    /// The programs to deploy.
    pub programs: Vec<ProgramMetadata>,
    /// Whether nothing is to be asked.
    pub auto_generate_runbooks: bool,
    /// The file with the keypair that pays and signs.
    pub keypair_path: String,
    /// The endpoint of the local network.
    pub rpc_api_url: String,
    pub locations: Locations,
    /// The manifest, once it was read or made.
    pub manifest: Option<Manifest>,
    /// What gets written, once it was rendered.
    pub sources: Option<Sources>,
    pub stage: Stage,
}

/// What the contracts read of a scaffold.
pub struct ScaffoldView {
    pub base: LocationView,
    pub framework: Framework,
    pub programs: Seq<ProgramView>,
    pub auto_generate_runbooks: bool,
    pub keypair_path: Seq<char>,
    pub rpc_api_url: Seq<char>,
    pub locations: LocationsView,
    pub manifest: Option<ManifestView>,
    pub sources: Option<SourcesView>,
    pub stage: Stage,
}

impl View for Scaffold {
    type V = ScaffoldView;

    open spec fn view(&self) -> ScaffoldView {
        ScaffoldView {
            base: crate::location::location_view(self.base),
            framework: self.framework,
            programs: crate::framework::program_views(self.programs@),
            auto_generate_runbooks: self.auto_generate_runbooks,
            keypair_path: self.keypair_path@,
            rpc_api_url: self.rpc_api_url@,
            locations: self.locations@,
            manifest: optional_manifest(self.manifest),
            sources: match self.sources {
                Some(sources) => Some(sources@),
                None => None,
            },
            stage: self.stage,
        }
    }
}

/// How far a stage is.
pub open spec fn rank(stage: Stage) -> nat {
    match stage {
        Stage::LoadingManifest => 0,
        Stage::SelectingPrograms => 1,
        Stage::ReadingDirectoryName => 2,
        Stage::AskingName => 3,
        Stage::RenderingTemplates => 4,
        Stage::CreatingManifest => 5,
        Stage::OpeningManifest => 6,
        Stage::WritingManifest => 7,
        Stage::CheckingRunbooks => 8,
        Stage::CreatingRunbooks => 9,
        Stage::CheckingReadme => 10,
        Stage::CreatingReadme => 11,
        Stage::RenderingReadme => 12,
        Stage::WritingReadme => 13,
        Stage::CheckingDeployment => 14,
        Stage::CreatingDeployment => 15,
        Stage::CheckingMain => 16,
        Stage::CreatingMain => 17,
        Stage::WritingMain => 18,
        Stage::CreatingSigner(Network::Localnet) => 19,
        Stage::WritingSigner(Network::Localnet) => 20,
        Stage::CreatingSigner(Network::Devnet) => 21,
        Stage::WritingSigner(Network::Devnet) => 22,
        Stage::CreatingSigner(Network::Mainnet) => 23,
        Stage::WritingSigner(Network::Mainnet) => 24,
        Stage::Confirming => 25,
        Stage::OfferingSkill => 26,
        Stage::Finished => 27,
    }
}

/// The programs with the given indices, in the order of the indices.
pub open spec fn selected(programs: Seq<ProgramView>, indices: Seq<usize>) -> Seq<ProgramView> {
    indices.map_values(|index: usize| programs[index as int])
}

/// The comment at the top of the deployment of a workspace.
pub open spec fn header(workspace: Seq<char>) -> Seq<char> {
    "Manage "@ + workspace + " deployment through Crypto Infrastructure as Code"@
}

/// The deployments of programs by a runbook on disk, in order.
pub open spec fn deployments(framework: Framework, programs: Seq<ProgramView>) -> Seq<
    RequestView,
> {
    programs.map_values(
        |program: ProgramView| RequestView::Program { framework, name: program.name },
    )
}

/// The sources that come of the rendered templates.
pub open spec fn sources_from(rendered: Seq<Seq<char>>) -> SourcesView {
    SourcesView {
        deployment: rendered[0] + rendered[1] + crate::text::concatenation(rendered.skip(5)),
        mainnet: rendered[2],
        devnet: rendered[3],
        localnet: rendered[4],
    }
}

impl ScaffoldView {
    /// Whether a scaffold has what its stage needs: from the rendering of the templates on a
    /// manifest, and from then on what was rendered.
    pub open spec fn ready(self) -> bool {
        &&& rank(Stage::RenderingTemplates) <= rank(self.stage) < rank(Stage::Finished)
            ==> self.manifest is Some
        &&& rank(Stage::RenderingTemplates) < rank(self.stage) < rank(Stage::Finished)
            ==> self.sources is Some
    }

    /// The templates of a scaffold: the header, the addon, the signers of the three networks, and
    /// the deployment of each program.
    pub open spec fn requests(self) -> Seq<RequestView> {
        seq![
            RequestView::Header { description: header(self.manifest->Some_0.name) },
            crate::templates::addon(),
            RequestView::MainnetSigner { keypair: "input.authority_keypair_json"@ },
            RequestView::DevnetSigner,
            crate::templates::localnet_signer(self.keypair_path),
        ] + deployments(self.framework, self.programs)
    }

    /// Where the manifest is written: where it was read, or in its place in a new project.
    pub open spec fn manifest_location(self) -> LocationView {
        match self.manifest->Some_0.location {
            Some(location) => location,
            None => self.locations.manifest,
        }
    }

    /// Whether an event can be what came of the action that a scaffold waits for.
    pub open spec fn accepts(self, event: EventView) -> bool {
        match self.stage {
            Stage::LoadingManifest => event is ManifestLoaded,
            Stage::SelectingPrograms => match event {
                EventView::ProgramsSelected(indices) => forall|i: int|
                    0 <= i < indices.len() ==> (#[trigger] indices[i]) < self.programs.len(),
                _ => event is Failed,
            },
            Stage::ReadingDirectoryName => event is DirectoryName,
            Stage::AskingName => event is NameEntered || event is Failed,
            Stage::RenderingTemplates => match event {
                EventView::TemplatesRendered(rendered) => rendered.len() == self.requests().len(),
                _ => false,
            },
            Stage::CheckingRunbooks
            | Stage::CheckingReadme
            | Stage::CheckingDeployment
            | Stage::CheckingMain => event is Exists,
            Stage::RenderingReadme => event is ReadmeRendered,
            Stage::Confirming => event is Confirmed || event is Failed,
            Stage::OfferingSkill => event is SkillOffered,
            Stage::Finished => false,
            _ => event is Done || event is Failed,
        }
    }

    /// What the scaffold ends with where the action that it waits for fails with `e`.
    pub open spec fn failure(self, e: Seq<char>) -> Seq<char> {
        match self.stage {
            Stage::SelectingPrograms => "unable to select programs to deploy: "@ + e,
            Stage::AskingName => "unable to get workspace name: "@ + e,
            Stage::CreatingManifest => "Failed to create Runbook manifest "@
                + self.locations.manifest.text + ": "@ + e,
            Stage::OpeningManifest => "Failed to create Runbook manifest file "@
                + self.manifest_location().text + ": "@ + e,
            Stage::WritingManifest => "Failed to render Runbook manifest: "@ + e,
            Stage::CreatingRunbooks => "unable to create parent directory "@
                + self.locations.runbooks.text + "\n"@ + e,
            Stage::CreatingReadme => "Failed to create Runbook README "@
                + self.locations.readme.text + ": "@ + e,
            Stage::WritingReadme => "Failed to render Runbook README: "@ + e,
            Stage::CreatingDeployment => "unable to create parent directory "@
                + self.locations.deployment.text + "\n"@ + e,
            Stage::CreatingMain => "Runbook file creation failed: "@ + e,
            Stage::WritingMain => "Failed to write data to Runbook: "@ + e,
            Stage::CreatingSigner(_) => "Failed to create Runbook signer file: "@ + e,
            Stage::WritingSigner(_) => "Failed to write data to Runbook signer file: "@ + e,
            _ => "Failed to confirm write to runbook: "@ + e,
        }
    }

    /// The scaffold at another stage, with what it tells the user and does there.
    pub open spec fn turn(self, stage: Stage, notices: Seq<NoticeView>, action: ActionView) -> (
        ScaffoldView,
        TurnView,
    ) {
        (ScaffoldView { stage, ..self }, TurnView { notices, action })
    }

    /// The scaffold at another stage, with what it does there.
    pub open spec fn doing(self, stage: Stage, action: ActionView) -> (ScaffoldView, TurnView) {
        self.turn(stage, Seq::empty(), action)
    }

    /// The scaffold at its end.
    pub open spec fn ending(self, notices: Seq<NoticeView>, r: Result<(), Seq<char>>) -> (
        ScaffoldView,
        TurnView,
    ) {
        self.turn(Stage::Finished, notices, ActionView::Finish(r))
    }

    /// With the programs settled: a project without a manifest gets a name, and one with a
    /// manifest is rendered.
    pub open spec fn naming(self) -> (ScaffoldView, TurnView) {
        match self.manifest {
            Some(_) => self.rendering(),
            None => self.doing(Stage::ReadingDirectoryName, ActionView::ReadDirectoryName),
        }
    }

    /// With the manifest settled: the templates are rendered.
    pub open spec fn rendering(self) -> (ScaffoldView, TurnView) {
        self.doing(Stage::RenderingTemplates, ActionView::Render(self.requests()))
    }

    /// With the templates rendered: the manifest takes up the deployment and the networks, and its
    /// file is opened, after it was created where the project had none.
    pub open spec fn filing(self, rendered: Seq<Seq<char>>) -> (ScaffoldView, TurnView) {
        let manifest = self.manifest->Some_0.deploying().networked(
            self.rpc_api_url,
            self.keypair_path,
        );
        let filed = ScaffoldView {
            manifest: Some(manifest),
            sources: Some(sources_from(rendered)),
            ..self
        };
        match manifest.location {
            Some(location) => filed.doing(Stage::OpeningManifest, ActionView::CreateFile(location)),
            None => filed.doing(
                Stage::CreatingManifest,
                ActionView::CreateFile(self.locations.manifest),
            ),
        }
    }

    /// With the file of the manifest opened: the manifest is written as it was rendered.
    pub open spec fn recording(
        self,
        rendering: Result<Result<Seq<char>, Seq<char>>, Seq<char>>,
    ) -> (ScaffoldView, TurnView) {
        match rendering {
            Ok(Ok(text)) => self.doing(
                Stage::WritingManifest,
                ActionView::WriteFile(self.manifest_location(), text),
            ),
            Ok(Err(e)) => self.ending(
                Seq::empty(),
                Err("Failed to render Runbook manifest: "@ + e),
            ),
            Err(e) => self.ending(
                Seq::empty(),
                Err("Failed to generate Runbook manifest: "@ + e),
            ),
        }
    }

    /// How the manifest renders.
    pub open spec fn manifest_rendering(self) -> Result<Result<Seq<char>, Seq<char>>, Seq<char>> {
        let manifest = self.manifest->Some_0;
        crate::manifest::manifest_rendering(
            manifest.name,
            manifest.id,
            crate::manifest::runbook_lines(manifest.runbooks),
            manifest.environments,
        )
    }

    /// With the README rendered: it is written as it was rendered.
    pub open spec fn explaining(
        self,
        rendering: Result<Result<Seq<char>, Seq<char>>, Seq<char>>,
    ) -> (ScaffoldView, TurnView) {
        match rendering {
            Ok(Ok(text)) => self.doing(
                Stage::WritingReadme,
                ActionView::WriteFile(self.locations.readme, text),
            ),
            Ok(Err(e)) => self.ending(Seq::empty(), Err("Failed to render Runbook README: "@ + e)),
            Err(e) => self.ending(Seq::empty(), Err("Failed to generate Runbook README: "@ + e)),
        }
    }

    /// The offer of the skill: for the project of the scaffold, and accepted in advance if nothing
    /// is to be asked.
    pub open spec fn offer(self) -> ActionView {
        ActionView::OfferSkill(self.base, self.auto_generate_runbooks)
    }

    /// With a file written: the signers of the next network are written, and after the last ones
    /// the source of the deployment is shown for the user to confirm.
    pub open spec fn written(self, location: LocationView, next: Option<Network>) -> (
        ScaffoldView,
        TurnView,
    ) {
        let created = NoticeView::CreatedFile(location);
        let source = NoticeView::DeploymentSource(self.sources->Some_0.deployment);
        match next {
            Some(network) => self.turn(
                Stage::CreatingSigner(network),
                seq![created],
                ActionView::CreateFile(self.locations.signer(network)),
            ),
            None => if self.auto_generate_runbooks {
                self.turn(Stage::OfferingSkill, seq![created, source], self.offer())
            } else {
                self.turn(Stage::Confirming, seq![created, source], ActionView::Confirm)
            },
        }
    }

    /// What becomes of a scaffold, and what it does, once it was told an event.
    pub open spec fn next(self, event: EventView) -> (ScaffoldView, TurnView) {
        match (self.stage, event) {
            (_, EventView::Failed(e)) => self.ending(Seq::empty(), Err(self.failure(e))),
            (_, EventView::ManifestLoaded(manifest)) => {
                let loaded = ScaffoldView { manifest, ..self };
                if self.auto_generate_runbooks {
                    loaded.naming()
                } else {
                    loaded.doing(
                        Stage::SelectingPrograms,
                        ActionView::SelectPrograms(
                            self.programs.map_values(|program: ProgramView| program.name),
                        ),
                    )
                }
            },
            (_, EventView::ProgramsSelected(indices)) => {
                (ScaffoldView { programs: selected(self.programs, indices), ..self }).naming()
            },
            (_, EventView::DirectoryName(name)) => {
                let default = match name {
                    Some(name) => name,
                    None => ""@,
                };
                if self.auto_generate_runbooks {
                    (ScaffoldView {
                        manifest: Some(ManifestView::fresh(default)),
                        ..self
                    }).rendering()
                } else {
                    self.doing(Stage::AskingName, ActionView::AskName(default))
                }
            },
            (_, EventView::NameEntered(name)) => {
                (ScaffoldView { manifest: Some(ManifestView::fresh(name)), ..self }).rendering()
            },
            (_, EventView::TemplatesRendered(rendered)) => self.filing(rendered),
            (Stage::CreatingManifest, _) => self.turn(
                Stage::OpeningManifest,
                seq![NoticeView::CreatedManifest],
                ActionView::CreateFile(self.manifest_location()),
            ),
            (Stage::OpeningManifest, _) => self.recording(self.manifest_rendering()),
            (Stage::WritingManifest, _) => self.doing(
                Stage::CheckingRunbooks,
                ActionView::CheckExists(self.locations.runbooks),
            ),
            (Stage::CheckingRunbooks, EventView::Exists(false)) => self.doing(
                Stage::CreatingRunbooks,
                ActionView::CreateDirectory(self.locations.runbooks),
            ),
            (Stage::CheckingRunbooks | Stage::CreatingRunbooks, _) => self.doing(
                Stage::CheckingReadme,
                ActionView::CheckExists(self.locations.readme),
            ),
            (Stage::CheckingReadme, EventView::Exists(false)) => self.doing(
                Stage::CreatingReadme,
                ActionView::CreateFile(self.locations.readme),
            ),
            (Stage::CreatingReadme, _) => self.doing(
                Stage::RenderingReadme,
                ActionView::RenderReadme(self.manifest->Some_0),
            ),
            (_, EventView::ReadmeRendered(rendering)) => self.explaining(rendering),
            (Stage::WritingReadme, _) => self.turn(
                Stage::CheckingDeployment,
                seq![NoticeView::CreatedReadme],
                ActionView::CheckExists(self.locations.deployment),
            ),
            (Stage::CheckingReadme, _) => self.doing(
                Stage::CheckingDeployment,
                ActionView::CheckExists(self.locations.deployment),
            ),
            (Stage::CheckingDeployment, EventView::Exists(false)) => self.doing(
                Stage::CreatingDeployment,
                ActionView::CreateDirectory(self.locations.deployment),
            ),
            (Stage::CheckingDeployment | Stage::CreatingDeployment, _) => self.doing(
                Stage::CheckingMain,
                ActionView::CheckExists(self.locations.main),
            ),
            (Stage::CheckingMain, EventView::Exists(false)) => self.doing(
                Stage::CreatingMain,
                ActionView::CreateFile(self.locations.main),
            ),
            (Stage::CheckingMain, _) => self.ending(Seq::empty(), Ok(())),
            (Stage::CreatingMain, _) => self.doing(
                Stage::WritingMain,
                ActionView::WriteFile(self.locations.main, self.sources->Some_0.deployment),
            ),
            (Stage::CreatingSigner(network), _) => self.doing(
                Stage::WritingSigner(network),
                ActionView::WriteFile(
                    self.locations.signer(network),
                    self.sources->Some_0.signer(network),
                ),
            ),
            (Stage::WritingMain, _) => self.written(
                self.locations.main,
                Some(Network::Localnet),
            ),
            (Stage::WritingSigner(Network::Localnet), _) => self.written(
                self.locations.localnet,
                Some(Network::Devnet),
            ),
            (Stage::WritingSigner(Network::Devnet), _) => self.written(
                self.locations.devnet,
                Some(Network::Mainnet),
            ),
            (Stage::WritingSigner(Network::Mainnet), _) => self.written(
                self.locations.mainnet,
                None,
            ),
            (Stage::Confirming, EventView::Confirmed(false)) => self.turn(
                Stage::OfferingSkill,
                seq![NoticeView::DeploymentCanceled],
                self.offer(),
            ),
            (Stage::Confirming, _) => self.doing(Stage::OfferingSkill, self.offer()),
            (_, EventView::SkillOffered(true)) => self.ending(
                seq![NoticeView::InstallerStarted],
                Ok(()),
            ),
            _ => self.ending(Seq::empty(), Ok(())),
        }
    }
}

} // verus!
