//! The scaffold of a project on disk, as it is run.

use crate::dev_skill::{SkillDecision, SkillFacts};
use crate::framework::{Framework, ProgramMetadata};
use crate::layout::{
    Action, Event, Locations, Network, Notice, Scaffold, Sources, Stage, Turn, TurnView,
    MANIFEST_FILE,
};
use crate::manifest::Manifest;
use crate::templates::TemplateRequest;
use txtx_core::kit::helpers::fs::FileLocation;
use vstd::prelude::*;

verus! {

/// Every file and directory of a scaffold has a name that can be part of a path.
proof fn lemma_names_are_plain()
    ensures
        crate::location::plain_name(MANIFEST_FILE@),
        crate::location::plain_name("runbooks"@),
        crate::location::plain_name("README.md"@),
        crate::location::plain_name("deployment"@),
        crate::location::plain_name("main.tx"@),
        crate::location::plain_name("signers.localnet.tx"@),
        crate::location::plain_name("signers.devnet.tx"@),
        crate::location::plain_name("signers.mainnet.tx"@),
        "runbooks"@[0] != '?',
        "deployment"@[0] != '?',
{
    reveal_strlit("txtx.yml");
    reveal_strlit("runbooks");
    reveal_strlit("README.md");
    reveal_strlit("deployment");
    reveal_strlit("main.tx");
    reveal_strlit("signers.localnet.tx");
    reveal_strlit("signers.devnet.tx");
    reveal_strlit("signers.mainnet.tx");
}

/// Places the files and directories of a scaffold in the project at `base`.
fn place(base: &FileLocation) -> (r: Result<Locations, String>)
    ensures
        r is Ok <==> crate::location::location_on_disk(*base)
            || crate::location::url_takes_entries(*base),
        r is Err ==> r->Err_0@ == "unable to mutate url"@,
        crate::location::location_on_disk(*base) ==> r->Ok_0@.are_named(),
        crate::location::location_on_disk(*base) && !crate::location::rewritten(
            crate::location::location_text(*base),
        ) ==> r->Ok_0@.display_in(crate::location::location_text(*base)),
        crate::location::location_on_disk(*base) && crate::location::extends_plainly(
            crate::location::location_text(*base),
        ) ==> r->Ok_0@.stand_in(crate::location::location_components(*base)),
{
    proof {
        lemma_names_are_plain();
    }
    let manifest = crate::location::child(base, MANIFEST_FILE)?;
    let runbooks = crate::location::child(base, "runbooks")?;
    let readme = crate::location::child(&runbooks, "README.md")?;
    let deployment = crate::location::child(&runbooks, "deployment")?;
    let main = crate::location::child(&deployment, "main.tx")?;
    let localnet = crate::location::child(&deployment, "signers.localnet.tx")?;
    let devnet = crate::location::child(&deployment, "signers.devnet.tx")?;
    let mainnet = crate::location::child(&deployment, "signers.mainnet.tx")?;
    Ok(Locations { manifest, runbooks, readme, deployment, main, localnet, devnet, mainnet })
}

/// Starts the scaffold of the project at `base_location`: its manifest is read first. Every path
/// on this machine will do, and every URL but one that cannot have entries below it.
pub fn scaffold_iac_layout(
    framework: Framework,
    programs: &[ProgramMetadata],
    base_location: &FileLocation,
    auto_generate_runbooks: bool,
    keypair_path: &str,
    network_host: &str,
    rpc_port: u16,
) -> (r: Result<(Scaffold, Turn), String>)
    ensures
        match r {
            Ok((scaffold, turn)) => {
                &&& scaffold@.base == crate::location::location_view(*base_location)
                &&& scaffold@.framework == framework
                &&& scaffold@.programs == crate::framework::program_views(programs@)
                &&& scaffold@.auto_generate_runbooks == auto_generate_runbooks
                &&& scaffold@.keypair_path == keypair_path@
                &&& scaffold@.rpc_api_url == crate::text::endpoint(network_host@, rpc_port)
                &&& scaffold@.manifest is None
                &&& scaffold@.sources is None
                &&& scaffold@.stage == Stage::LoadingManifest
                &&& scaffold@.ready()
                &&& crate::location::location_on_disk(*base_location)
                    || crate::location::url_takes_entries(*base_location)
                &&& crate::location::location_on_disk(*base_location)
                    ==> scaffold@.locations.are_named()
                &&& crate::location::location_on_disk(*base_location)
                    && !crate::location::rewritten(
                    crate::location::location_text(*base_location),
                ) ==> scaffold@.locations.display_in(
                    crate::location::location_text(*base_location),
                )
                &&& crate::location::location_on_disk(*base_location)
                    && crate::location::extends_plainly(
                    crate::location::location_text(*base_location),
                ) ==> scaffold@.locations.stand_in(
                    crate::location::location_components(*base_location),
                )
                &&& turn@ == (TurnView {
                    notices: Seq::empty(),
                    action: crate::layout::ActionView::LoadManifest(scaffold@.locations.manifest),
                })
            },
            Err(e) => {
                &&& !crate::location::location_on_disk(*base_location)
                &&& !crate::location::url_takes_entries(*base_location)
                &&& e@ == "unable to mutate url"@
            },
        },
{
    let locations = match place(base_location) {
        Ok(locations) => locations,
        Err(e) => {
            return Err(e);
        },
    };
    let turn = Turn {
        notices: Vec::new(),
        action: Action::LoadManifest(locations.manifest.clone()),
    };
    let scaffold = Scaffold {
        base: base_location.clone(),
        framework,
        programs: crate::framework::copy_programs(programs),
        auto_generate_runbooks,
        keypair_path: keypair_path.to_string(),
        rpc_api_url: crate::text::endpoint_text(network_host, rpc_port),
        locations,
        manifest: None,
        sources: None,
        stage: Stage::LoadingManifest,
    };
    proof {
        assert(turn@.notices =~= Seq::empty());
    }
    Ok((scaffold, turn))
}

/// Copies the programs with the given indices.
fn pick(programs: &Vec<ProgramMetadata>, indices: &Vec<usize>) -> (picked: Vec<ProgramMetadata>)
    requires
        forall|i: int| 0 <= i < indices.len() ==> (#[trigger] indices@[i]) < programs.len(),
    ensures
        crate::framework::program_views(picked@) == crate::layout::selected(
            crate::framework::program_views(programs@),
            indices@,
        ),
{
    let ghost all = crate::framework::program_views(programs@);
    let mut picked: Vec<ProgramMetadata> = Vec::new();
    let mut i: usize = 0;
    while i < indices.len()
        invariant
            i <= indices.len(),
            all == crate::framework::program_views(programs@),
            forall|j: int| 0 <= j < indices.len() ==> (#[trigger] indices@[j]) < programs.len(),
            picked.len() == i,
            forall|j: int|
                0 <= j < i ==> (#[trigger] crate::framework::program_views(picked@)[j])
                    == all[indices@[j] as int],
        decreases indices.len() - i,
    {
        let ghost before = crate::framework::program_views(picked@);
        let program = programs[indices[i]].clone();
        picked.push(program);
        proof {
            assert(crate::framework::program_views(picked@) =~= before.push(
                all[indices@[i as int] as int],
            ));
        }
        i = i + 1;
    }
    proof {
        assert(crate::framework::program_views(picked@) =~= crate::layout::selected(all, indices@));
    }
    picked
}

/// Copies the names of programs.
fn names(programs: &Vec<ProgramMetadata>) -> (names: Vec<String>)
    ensures
        crate::text::texts(names@) == crate::framework::program_views(programs@).map_values(
            |program: crate::framework::ProgramView| program.name,
        ),
{
    let mut names: Vec<String> = Vec::new();
    let mut i: usize = 0;
    while i < programs.len()
        invariant
            i <= programs.len(),
            names.len() == i,
            forall|j: int| 0 <= j < i ==> (#[trigger] names@[j])@ == programs@[j].name@,
        decreases programs.len() - i,
    {
        names.push(programs[i].name.clone());
        i = i + 1;
    }
    proof {
        assert(crate::text::texts(names@) =~= crate::framework::program_views(
            programs@,
        ).map_values(|program: crate::framework::ProgramView| program.name));
    }
    names
}

impl Locations {
    /// Copies the location of the signers of a network.
    fn signer(&self, network: Network) -> (location: FileLocation)
        ensures
            crate::location::location_view(location) == self@.signer(network),
    {
        match network {
            Network::Localnet => self.localnet.clone(),
            Network::Devnet => self.devnet.clone(),
            Network::Mainnet => self.mainnet.clone(),
        }
    }
}

impl Sources {
    /// Copies the signers of a network.
    fn signer(&self, network: Network) -> (text: String)
        ensures
            text@ == self@.signer(network),
    {
        match network {
            Network::Localnet => self.localnet.clone(),
            Network::Devnet => self.devnet.clone(),
            Network::Mainnet => self.mainnet.clone(),
        }
    }
}

/// Writes a message about a location: what failed, where, and how.
fn message_at(what: &str, location: &FileLocation, separator: &str, e: &str) -> (message: String)
    ensures
        message@ == what@ + crate::location::location_text(*location) + separator@ + e@,
{
    let mut message = what.to_string();
    message.append(crate::location::displayed(location).as_str());
    message.append(separator);
    message.append(e);
    message
}

impl Scaffold {
    /// Goes to another stage.
    fn turn(self, stage: Stage, notices: Vec<Notice>, action: Action) -> (r: (Scaffold, Turn))
        ensures
            (r.0@, r.1@) == self@.turn(
                stage,
                notices@.map_values(|notice: Notice| notice@),
                action@,
            ),
    {
        (Scaffold { stage, ..self }, Turn { notices, action })
    }

    /// Goes to another stage with nothing to tell.
    fn doing(self, stage: Stage, action: Action) -> (r: (Scaffold, Turn))
        ensures
            (r.0@, r.1@) == self@.doing(stage, action@),
    {
        let notices: Vec<Notice> = Vec::new();
        proof {
            assert(notices@.map_values(|notice: Notice| notice@) =~= Seq::empty());
        }
        self.turn(stage, notices, action)
    }

    /// Goes to another stage with one thing to tell.
    fn telling(self, stage: Stage, notice: Notice, action: Action) -> (r: (Scaffold, Turn))
        ensures
            (r.0@, r.1@) == self@.turn(stage, seq![notice@], action@),
    {
        let mut notices: Vec<Notice> = Vec::new();
        notices.push(notice);
        proof {
            assert(notices@.map_values(|notice: Notice| notice@) =~= seq![notice@]);
        }
        self.turn(stage, notices, action)
    }

    /// Ends the scaffold with nothing to tell.
    fn ending(self, r: Result<(), String>) -> (ended: (Scaffold, Turn))
        ensures
            (ended.0@, ended.1@) == self@.ending(
                Seq::empty(),
                match r {
                    Ok(_) => Ok(()),
                    Err(e) => Err(e@),
                },
            ),
    {
        self.doing(Stage::Finished, Action::Finish(r))
    }

    /// Lists the templates of the scaffold.
    fn requests(&self) -> (requests: Vec<TemplateRequest>)
        requires
            self.manifest is Some,
        ensures
            crate::templates::request_views(requests@) == self@.requests(),
    {
        let mut description = "Manage ".to_string();
        match &self.manifest {
            Some(manifest) => {
                description.append(manifest.name.as_str());
            },
            None => {},
        }
        description.append(" deployment through Crypto Infrastructure as Code");
        let mut requests: Vec<TemplateRequest> = Vec::new();
        requests.push(TemplateRequest::Header { description });
        requests.push(crate::templates::addon_request());
        requests.push(
            TemplateRequest::MainnetSigner { keypair: "input.authority_keypair_json".to_string() },
        );
        requests.push(TemplateRequest::DevnetSigner);
        requests.push(crate::templates::localnet_signer_request(self.keypair_path.as_str()));
        let mut i: usize = 0;
        while i < self.programs.len()
            invariant
                i <= self.programs.len(),
                requests.len() == 5 + i,
                forall|j: int|
                    0 <= j < 5 ==> (#[trigger] requests@[j])@ == self@.requests()[j],
                forall|j: int|
                    0 <= j < i ==> (#[trigger] requests@[5 + j])@
                        == (crate::templates::RequestView::Program {
                        framework: self.framework,
                        name: self.programs@[j].name@,
                    }),
            decreases self.programs.len() - i,
        {
            requests.push(
                TemplateRequest::Program {
                    framework: self.framework,
                    name: self.programs[i].name.clone(),
                },
            );
            i = i + 1;
        }
        proof {
            let views = crate::templates::request_views(requests@);
            assert forall|k: int| 0 <= k < views.len() implies views[k] == self@.requests()[k] by {
                if k >= 5 {
                    assert(requests@[5 + (k - 5)]@ == views[k]);
                } else {
                    assert(requests@[k]@ == views[k]);
                }
            }
            assert(views =~= self@.requests());
        }
        requests
    }

    /// Goes on once the programs are settled.
    fn naming(self) -> (r: (Scaffold, Turn))
        ensures
            (r.0@, r.1@) == self@.naming(),
    {
        if self.manifest.is_some() {
            self.rendering()
        } else {
            self.doing(Stage::ReadingDirectoryName, Action::ReadDirectoryName)
        }
    }

    /// Goes on once the manifest is settled.
    fn rendering(self) -> (r: (Scaffold, Turn))
        requires
            self.manifest is Some,
        ensures
            (r.0@, r.1@) == self@.rendering(),
    {
        let requests = self.requests();
        self.doing(Stage::RenderingTemplates, Action::Render(requests))
    }

    /// Makes a manifest of the given name.
    fn named(self, name: String) -> (r: (Scaffold, Turn))
        ensures
            (r.0@, r.1@) == (crate::layout::ScaffoldView {
                manifest: Some(crate::manifest::ManifestView::fresh(name@)),
                ..self@
            }).rendering(),
    {
        (Scaffold { manifest: Some(Manifest::new(name)), ..self }).rendering()
    }

    /// Goes on once the templates are rendered.
    fn filing(self, rendered: Vec<String>) -> (r: (Scaffold, Turn))
        requires
            self.manifest is Some,
            rendered.len() >= 5,
        ensures
            (r.0@, r.1@) == self@.filing(crate::text::texts(rendered@)),
    {
        let mut deployment = rendered[0].clone();
        deployment.append(rendered[1].as_str());
        let deployment = crate::text::append_all(deployment, &rendered, 5);
        let sources = Sources {
            deployment,
            mainnet: rendered[2].clone(),
            devnet: rendered[3].clone(),
            localnet: rendered[4].clone(),
        };
        let Scaffold {
            base,
            framework,
            programs,
            auto_generate_runbooks,
            keypair_path,
            rpc_api_url,
            locations,
            manifest,
            sources: _,
            stage,
        } = self;
        let manifest = manifest.unwrap().add_deployment().set_networks(
            rpc_api_url.as_str(),
            keypair_path.as_str(),
        );
        let (stage_after, location) = match &manifest.location {
            Some(location) => (Stage::OpeningManifest, location.clone()),
            None => (Stage::CreatingManifest, locations.manifest.clone()),
        };
        let filed = Scaffold {
            base,
            framework,
            programs,
            auto_generate_runbooks,
            keypair_path,
            rpc_api_url,
            locations,
            manifest: Some(manifest),
            sources: Some(sources),
            stage,
        };
        proof {
            assert(filed@.sources->Some_0 == crate::layout::sources_from(
                crate::text::texts(rendered@),
            ));
        }
        filed.doing(stage_after, Action::CreateFile(location))
    }

    /// Copies the location that the manifest is written to.
    fn manifest_location(&self) -> (location: FileLocation)
        requires
            self.manifest is Some,
        ensures
            crate::location::location_view(location) == self@.manifest_location(),
    {
        match &self.manifest {
            Some(manifest) => match &manifest.location {
                Some(location) => location.clone(),
                None => self.locations.manifest.clone(),
            },
            None => self.locations.manifest.clone(),
        }
    }

    /// Goes on once the manifest is rendered, or could not be.
    pub fn recording(self, rendering: Result<Result<String, String>, String>) -> (r: (
        Scaffold,
        Turn,
    ))
        requires
            self@.manifest is Some,
        ensures
            (r.0@, r.1@) == self@.recording(crate::manifest::rendering_view(rendering)),
    {
        match rendering {
            Ok(Ok(text)) => {
                let location = self.manifest_location();
                self.doing(Stage::WritingManifest, Action::WriteFile(location, text))
            },
            Ok(Err(e)) => self.ending(
                Err(crate::text::joined("Failed to render Runbook manifest: ", e.as_str())),
            ),
            Err(e) => self.ending(
                Err(crate::text::joined("Failed to generate Runbook manifest: ", e.as_str())),
            ),
        }
    }

    /// Renders the manifest, and goes on with it.
    fn record(self) -> (r: (Scaffold, Turn))
        requires
            self@.manifest is Some,
        ensures
            (r.0@, r.1@) == self@.recording(self@.manifest_rendering()),
    {
        let rendering = match &self.manifest {
            Some(manifest) => crate::manifest::render_manifest(manifest),
            None => Err(String::new()),
        };
        self.recording(rendering)
    }

    /// Goes on once the README is rendered, or could not be.
    fn explaining(self, rendering: Result<Result<String, String>, String>) -> (r: (Scaffold, Turn))
        ensures
            (r.0@, r.1@) == self@.explaining(crate::manifest::rendering_view(rendering)),
    {
        match rendering {
            Ok(Ok(text)) => {
                let location = self.locations.readme.clone();
                self.doing(Stage::WritingReadme, Action::WriteFile(location, text))
            },
            Ok(Err(e)) => self.ending(
                Err(crate::text::joined("Failed to render Runbook README: ", e.as_str())),
            ),
            Err(e) => self.ending(
                Err(crate::text::joined("Failed to generate Runbook README: ", e.as_str())),
            ),
        }
    }

    /// Makes the offer of the skill.
    fn offering(&self) -> (action: Action)
        ensures
            action@ == self@.offer(),
    {
        Action::OfferSkill(self.base.clone(), self.auto_generate_runbooks)
    }

    /// Goes on once a file is written.
    fn written(self, location: FileLocation, next: Option<Network>) -> (r: (Scaffold, Turn))
        requires
            self@.sources is Some,
        ensures
            (r.0@, r.1@) == self@.written(crate::location::location_view(location), next),
    {
        let ghost place = crate::location::location_view(location);
        let created = Notice::CreatedFile(location);
        match next {
            Some(network) => {
                let signer = self.locations.signer(network);
                self.telling(Stage::CreatingSigner(network), created, Action::CreateFile(signer))
            },
            None => {
                let source = match &self.sources {
                    Some(sources) => sources.deployment.clone(),
                    None => String::new(),
                };
                let mut notices: Vec<Notice> = Vec::new();
                notices.push(created);
                notices.push(Notice::DeploymentSource(source));
                proof {
                    assert(notices@.map_values(|notice: Notice| notice@) =~= seq![
                        crate::layout::NoticeView::CreatedFile(place),
                        crate::layout::NoticeView::DeploymentSource(
                            self@.sources->Some_0.deployment,
                        ),
                    ]);
                }
                if self.auto_generate_runbooks {
                    let offer = self.offering();
                    self.turn(Stage::OfferingSkill, notices, offer)
                } else {
                    self.turn(Stage::Confirming, notices, Action::Confirm)
                }
            },
        }
    }

    /// Writes what the scaffold ends with where the action that it waits for fails.
    fn failure(&self, e: &str) -> (message: String)
        requires
            self@.ready(),
        ensures
            message@ == self@.failure(e@),
    {
        match self.stage {
            Stage::SelectingPrograms => crate::text::joined(
                "unable to select programs to deploy: ",
                e,
            ),
            Stage::AskingName => crate::text::joined("unable to get workspace name: ", e),
            Stage::CreatingManifest => message_at(
                "Failed to create Runbook manifest ",
                &self.locations.manifest,
                ": ",
                e,
            ),
            Stage::OpeningManifest => message_at(
                "Failed to create Runbook manifest file ",
                &self.manifest_location(),
                ": ",
                e,
            ),
            Stage::WritingManifest => crate::text::joined("Failed to render Runbook manifest: ", e),
            Stage::CreatingRunbooks => message_at(
                "unable to create parent directory ",
                &self.locations.runbooks,
                "\n",
                e,
            ),
            Stage::CreatingReadme => message_at(
                "Failed to create Runbook README ",
                &self.locations.readme,
                ": ",
                e,
            ),
            Stage::WritingReadme => crate::text::joined("Failed to render Runbook README: ", e),
            Stage::CreatingDeployment => message_at(
                "unable to create parent directory ",
                &self.locations.deployment,
                "\n",
                e,
            ),
            Stage::CreatingMain => crate::text::joined("Runbook file creation failed: ", e),
            Stage::WritingMain => crate::text::joined("Failed to write data to Runbook: ", e),
            Stage::CreatingSigner(_) => crate::text::joined(
                "Failed to create Runbook signer file: ",
                e,
            ),
            Stage::WritingSigner(_) => crate::text::joined(
                "Failed to write data to Runbook signer file: ",
                e,
            ),
            _ => crate::text::joined("Failed to confirm write to runbook: ", e),
        }
    }

    /// Goes on once an action that only succeeds or fails has succeeded.
    fn done(self) -> (r: (Scaffold, Turn))
        requires
            self@.ready(),
            self@.accepts(crate::layout::EventView::Done),
        ensures
            (r.0@, r.1@) == self@.next(crate::layout::EventView::Done),
    {
        match self.stage {
            Stage::CreatingManifest => {
                let location = self.manifest_location();
                self.telling(
                    Stage::OpeningManifest,
                    Notice::CreatedManifest,
                    Action::CreateFile(location),
                )
            },
            Stage::OpeningManifest => self.record(),
            Stage::WritingManifest => {
                let location = self.locations.runbooks.clone();
                self.doing(Stage::CheckingRunbooks, Action::CheckExists(location))
            },
            Stage::CreatingRunbooks => {
                let location = self.locations.readme.clone();
                self.doing(Stage::CheckingReadme, Action::CheckExists(location))
            },
            Stage::CreatingReadme => {
                let manifest = match &self.manifest {
                    Some(manifest) => manifest.clone(),
                    None => Manifest::new(String::new()),
                };
                self.doing(Stage::RenderingReadme, Action::RenderReadme(manifest))
            },
            Stage::WritingReadme => {
                let location = self.locations.deployment.clone();
                self.telling(
                    Stage::CheckingDeployment,
                    Notice::CreatedReadme,
                    Action::CheckExists(location),
                )
            },
            Stage::CreatingDeployment => {
                let location = self.locations.main.clone();
                self.doing(Stage::CheckingMain, Action::CheckExists(location))
            },
            Stage::CreatingMain => {
                let location = self.locations.main.clone();
                let text = match &self.sources {
                    Some(sources) => sources.deployment.clone(),
                    None => String::new(),
                };
                self.doing(Stage::WritingMain, Action::WriteFile(location, text))
            },
            Stage::CreatingSigner(network) => {
                let location = self.locations.signer(network);
                let text = match &self.sources {
                    Some(sources) => sources.signer(network),
                    None => String::new(),
                };
                self.doing(Stage::WritingSigner(network), Action::WriteFile(location, text))
            },
            Stage::WritingMain => {
                let location = self.locations.main.clone();
                self.written(location, Some(Network::Localnet))
            },
            Stage::WritingSigner(network) => {
                let location = self.locations.signer(network);
                let next = match network {
                    Network::Localnet => Some(Network::Devnet),
                    Network::Devnet => Some(Network::Mainnet),
                    Network::Mainnet => None,
                };
                self.written(location, next)
            },
            _ => self.ending(Ok(())),
        }
    }

    /// Goes on once it is known whether something is there.
    fn checked(self, there: bool) -> (r: (Scaffold, Turn))
        requires
            self@.accepts(crate::layout::EventView::Exists(there)),
        ensures
            (r.0@, r.1@) == self@.next(crate::layout::EventView::Exists(there)),
    {
        match self.stage {
            Stage::CheckingRunbooks => if there {
                let location = self.locations.readme.clone();
                self.doing(Stage::CheckingReadme, Action::CheckExists(location))
            } else {
                let location = self.locations.runbooks.clone();
                self.doing(Stage::CreatingRunbooks, Action::CreateDirectory(location))
            },
            Stage::CheckingReadme => if there {
                let location = self.locations.deployment.clone();
                self.doing(Stage::CheckingDeployment, Action::CheckExists(location))
            } else {
                let location = self.locations.readme.clone();
                self.doing(Stage::CreatingReadme, Action::CreateFile(location))
            },
            Stage::CheckingDeployment => if there {
                let location = self.locations.main.clone();
                self.doing(Stage::CheckingMain, Action::CheckExists(location))
            } else {
                let location = self.locations.deployment.clone();
                self.doing(Stage::CreatingDeployment, Action::CreateDirectory(location))
            },
            _ => if there {
                self.ending(Ok(()))
            } else {
                let location = self.locations.main.clone();
                self.doing(Stage::CreatingMain, Action::CreateFile(location))
            },
        }
    }

    /// Carries out the offer of the skill: decides what comes of it for the project of the scaffold,
    /// where the installation was accepted in advance if nothing is to be asked, and says what to
    /// tell the scaffold then. A command is to be run exactly where the scaffold is told that the
    /// installation was started. Nothing is decided for a project that is not on this machine,
    /// unless everything is left as it is.
    pub fn offer_skill(&self, facts: SkillFacts, ask: impl FnOnce() -> Option<bool>) -> (r: Option<
        (SkillDecision, Event),
    >)
        requires
            self@.stage == Stage::OfferingSkill,
            crate::dev_skill::choice(facts, self@.auto_generate_runbooks) is Ask ==> call_requires(
                ask,
                (),
            ),
        ensures
            r is Some <==> self@.base.on_disk || crate::dev_skill::choice(
                facts,
                self@.auto_generate_runbooks,
            ) is Leave,
            r is Some ==> {
                let chosen = crate::dev_skill::choice(facts, self@.auto_generate_runbooks);
                let (decided, event) = r->Some_0;
                &&& event@ == crate::layout::EventView::SkillOffered(decided@.command is Some)
                &&& self@.accepts(event@)
                &&& chosen !is Ask ==> decided@ == crate::dev_skill::decision(
                    self@.base,
                    chosen,
                    None,
                )
                &&& chosen is Ask ==> exists|answer: Option<bool>|
                    #[trigger] call_ensures(ask, (), answer) && decided@
                        == crate::dev_skill::decision(self@.base, chosen, answer)
            },
    {
        let offered = crate::dev_skill::dev_skill_offer(
            &self.base,
            facts,
            self.auto_generate_runbooks,
            ask,
        );
        match offered {
            Some(decided) => {
                let started = decided.command.is_some();
                Some((decided, Event::SkillOffered(started)))
            },
            None => None,
        }
    }

    /// Takes what came of the last action, and says what to do next.
    pub fn step(self, event: Event) -> (r: (Scaffold, Turn))
        requires
            self@.ready(),
            self@.accepts(event@),
        ensures
            (r.0@, r.1@) == self@.next(event@),
            r.0@.ready(),
    {
        match event {
            Event::Failed(e) => {
                let message = self.failure(e.as_str());
                self.ending(Err(message))
            },
            Event::ManifestLoaded(manifest) => {
                let loaded = Scaffold { manifest, ..self };
                if loaded.auto_generate_runbooks {
                    loaded.naming()
                } else {
                    let programs = names(&loaded.programs);
                    loaded.doing(Stage::SelectingPrograms, Action::SelectPrograms(programs))
                }
            },
            Event::ProgramsSelected(indices) => {
                let programs = pick(&self.programs, &indices);
                (Scaffold { programs, ..self }).naming()
            },
            Event::DirectoryName(name) => {
                let default = match name {
                    Some(name) => name,
                    None => "".to_string(),
                };
                if self.auto_generate_runbooks {
                    self.named(default)
                } else {
                    self.doing(Stage::AskingName, Action::AskName(default))
                }
            },
            Event::NameEntered(name) => self.named(name),
            Event::TemplatesRendered(rendered) => self.filing(rendered),
            Event::Exists(there) => self.checked(there),
            Event::Done => self.done(),
            Event::ReadmeRendered(rendering) => self.explaining(rendering),
            Event::Confirmed(confirmed) => {
                let offer = self.offering();
                if confirmed {
                    self.doing(Stage::OfferingSkill, offer)
                } else {
                    self.telling(Stage::OfferingSkill, Notice::DeploymentCanceled, offer)
                }
            },
            Event::SkillOffered(started) => if started {
                self.telling(Stage::Finished, Notice::InstallerStarted, Action::Finish(Ok(())))
            } else {
                self.ending(Ok(()))
            },
        }
    }
}

} // verus!
