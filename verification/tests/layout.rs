use std::path::Path;

use scaffold::dev_skill::SkillFacts;
use scaffold::framework::{Framework, ProgramMetadata};
use scaffold::layout::{Action, Event, Notice, Scaffold, Stage, Turn, CONFIRM_DEFAULT};
use scaffold::location::{child, relative_path};
use scaffold::machine::scaffold_iac_layout;
use scaffold::manifest::Manifest;
use scaffold::templates::TemplateRequest;
use txtx_core::kit::helpers::fs::FileLocation;

/// A project to scaffold, and what came of it.
struct Project {
    /// The paths that are there.
    there: Vec<String>,
    manifest: Option<Manifest>,
    directory: Option<String>,
    /// What the user answers.
    picked: Result<Vec<usize>, String>,
    name: Result<String, String>,
    confirmed: Result<bool, String>,
    skill: Option<bool>,
    /// The action, by its place in `log`, that fails.
    failing: Option<&'static str>,
    log: Vec<String>,
    written: Vec<(String, String)>,
    skill_offered: bool,
}

impl Project {
    fn new() -> Self {
        Project {
            there: vec![],
            manifest: None,
            directory: Some("My Project".to_string()),
            picked: Ok(vec![0, 1]),
            name: Ok("Named".to_string()),
            confirmed: Ok(true),
            skill: Some(true),
            failing: None,
            log: vec![],
            written: vec![],
            skill_offered: false,
        }
    }

    fn done(&mut self, entry: String) -> Event {
        let fails = self.failing == Some(entry.as_str());
        self.log.push(entry);
        if fails {
            Event::Failed("broken".to_string())
        } else {
            Event::Done
        }
    }

    fn act(&mut self, scaffold: &Scaffold, action: Action) -> Event {
        match action {
            Action::LoadManifest(location) => {
                self.log.push(format!("load {location}"));
                Event::ManifestLoaded(self.manifest.take())
            }
            Action::SelectPrograms(names) => {
                self.log.push(format!("select {names:?}"));
                match self.picked.clone() {
                    Ok(picked) => Event::ProgramsSelected(picked),
                    Err(e) => Event::Failed(e),
                }
            }
            Action::ReadDirectoryName => {
                self.log.push("directory".to_string());
                Event::DirectoryName(self.directory.clone())
            }
            Action::AskName(default) => {
                self.log.push(format!("name {default}"));
                match self.name.clone() {
                    Ok(name) => Event::NameEntered(name),
                    Err(e) => Event::Failed(e),
                }
            }
            Action::Render(requests) => {
                Event::TemplatesRendered(requests.iter().map(render).collect())
            }
            Action::CreateFile(location) => self.done(format!("create {location}")),
            Action::WriteFile(location, text) => {
                self.written.push((location.to_string(), text));
                self.done(format!("write {location}"))
            }
            Action::RenderReadme(manifest) => {
                self.log.push(format!("render readme of {}", manifest.name));
                assert!(manifest.has_runbook("deployment"));
                assert_eq!(manifest.environments.len(), 2);
                Event::ReadmeRendered(match self.failing {
                    Some("template") => Err("unclosed tag".to_string()),
                    Some("render") => Ok(Err("broken".to_string())),
                    _ => Ok(Ok("# Runbooks".to_string())),
                })
            }
            Action::CheckExists(location) => Event::Exists(self.there.contains(&location.to_string())),
            Action::CreateDirectory(location) => self.done(format!("mkdir {location}")),
            Action::Confirm => {
                self.log.push("confirm".to_string());
                match self.confirmed.clone() {
                    Ok(confirmed) => Event::Confirmed(confirmed),
                    Err(e) => Event::Failed(e),
                }
            }
            Action::OfferSkill(location, auto_accept) => {
                assert_eq!(location.to_string(), "p");
                assert_eq!(auto_accept, scaffold.auto_generate_runbooks);
                self.skill_offered = true;
                let facts = SkillFacts {
                    in_base: false,
                    in_home: false,
                    declined: false,
                    accepted: false,
                };
                let answer = self.skill;
                let (decided, event) = scaffold.offer_skill(facts, || answer).unwrap();
                if let Some(command) = decided.command {
                    self.log.push(format!("run {} in {}", command.program, command.current_dir));
                }
                if let Some(marker) = decided.marker {
                    self.log.push(format!("keep {marker}"));
                }
                event
            }
            Action::Finish(_) => panic!("the scaffold has ended"),
        }
    }

    fn run(&mut self, auto: bool) -> (Scaffold, Result<(), String>) {
        let base = FileLocation::from_path_string("p").unwrap();
        let programs = [ProgramMetadata::new("vault", true), ProgramMetadata::new("bank", false)];
        let (mut scaffold, mut turn) = scaffold_iac_layout(
            Framework::Anchor,
            &programs,
            &base,
            auto,
            "id.json",
            "127.0.0.1",
            8899,
        )
        .unwrap();
        loop {
            let Turn { notices, action } = turn;
            for notice in notices {
                self.log.push(match notice {
                    Notice::CreatedManifest => "created manifest".to_string(),
                    Notice::CreatedReadme => "created readme".to_string(),
                    Notice::CreatedFile(location) => {
                        format!("created {}", relative_path(&location, &base).unwrap())
                    }
                    Notice::DeploymentSource(_) => "source".to_string(),
                    Notice::DeploymentCanceled => "canceled".to_string(),
                    Notice::InstallerStarted => "started".to_string(),
                });
            }
            if let Action::Finish(r) = action {
                return (scaffold, r);
            }
            let event = self.act(&scaffold, action);
            let (next, next_turn) = scaffold.step(event);
            scaffold = next;
            turn = next_turn;
        }
    }
}

fn render(request: &TemplateRequest) -> String {
    match request {
        TemplateRequest::Header { description } => format!("// {description}\n"),
        TemplateRequest::Addon { rpc_api_url, network_id } => {
            format!("addon {rpc_api_url} {network_id}\n")
        }
        TemplateRequest::LocalnetSigner { keypair } => format!("localnet {keypair}"),
        TemplateRequest::DevnetSigner => "devnet".to_string(),
        TemplateRequest::MainnetSigner { keypair } => format!("mainnet {keypair}"),
        TemplateRequest::Program { framework, name } => format!("deploy {framework:?} {name}\n"),
        TemplateRequest::InMemoryProgram { .. } => panic!("nothing is in memory here"),
    }
}

const MANIFEST: &str = "---
name: My Project
id: my-project
runbooks:
  - name: deployment
    description: Deploy programs
    location: runbooks/deployment
environments:
  localnet:
      network_id: localnet
      rpc_api_url: http://127.0.0.1:8899
  devnet:
      network_id: devnet
      rpc_api_url: https://api.devnet.solana.com
      payer_keypair_json: id.json
      authority_keypair_json: id.json

";

#[test]
fn a_new_project_is_scaffolded_without_questions() {
    let mut project = Project::new();
    let (scaffold, r) = project.run(true);
    assert_eq!(r, Ok(()));
    assert_eq!(scaffold.stage, Stage::Finished);
    assert_eq!(
        project.log,
        [
            "load p/txtx.yml",
            "directory",
            "create p/txtx.yml",
            "created manifest",
            "create p/txtx.yml",
            "write p/txtx.yml",
            "mkdir p/runbooks",
            "create p/runbooks/README.md",
            "render readme of My Project",
            "write p/runbooks/README.md",
            "created readme",
            "mkdir p/runbooks/deployment",
            "create p/runbooks/deployment/main.tx",
            "write p/runbooks/deployment/main.tx",
            "created runbooks/deployment/main.tx",
            "create p/runbooks/deployment/signers.localnet.tx",
            "write p/runbooks/deployment/signers.localnet.tx",
            "created runbooks/deployment/signers.localnet.tx",
            "create p/runbooks/deployment/signers.devnet.tx",
            "write p/runbooks/deployment/signers.devnet.tx",
            "created runbooks/deployment/signers.devnet.tx",
            "create p/runbooks/deployment/signers.mainnet.tx",
            "write p/runbooks/deployment/signers.mainnet.tx",
            "created runbooks/deployment/signers.mainnet.tx",
            "source",
            "run npx in p",
            "started",
        ]
    );
    let texts: Vec<&str> = project.written.iter().map(|(_, text)| text.as_str()).collect();
    assert_eq!(
        texts,
        [
            MANIFEST,
            "# Runbooks",
            "// Manage My Project deployment through Crypto Infrastructure as Code\n\
             addon input.rpc_api_url input.network_id\n\
             deploy Anchor vault\n\
             deploy Anchor bank\n",
            "localnet \"id.json\"",
            "devnet",
            "mainnet input.authority_keypair_json",
        ]
    );
    assert!(project.skill_offered);
}

#[test]
fn a_user_picks_programs_and_a_name_and_confirms() {
    let mut project = Project::new();
    project.picked = Ok(vec![1]);
    let (scaffold, r) = project.run(false);
    assert_eq!(r, Ok(()));
    assert!(project.log.contains(&"select [\"vault\", \"bank\"]".to_string()));
    assert!(project.log.contains(&"name My Project".to_string()));
    assert!(project.log.contains(&"confirm".to_string()));
    assert_eq!(scaffold.programs.len(), 1);
    assert_eq!(scaffold.manifest.unwrap().id, "named");
    assert_eq!(
        project.written[2].1,
        "// Manage Named deployment through Crypto Infrastructure as Code\n\
         addon input.rpc_api_url input.network_id\n\
         deploy Anchor bank\n"
    );
}

#[test]
fn a_directory_without_a_name_gives_none() {
    let mut project = Project::new();
    project.directory = None;
    let (scaffold, r) = project.run(true);
    assert_eq!(r, Ok(()));
    assert_eq!(scaffold.manifest.unwrap().name, "");
}

#[test]
fn an_existing_manifest_is_extended_where_it_is() {
    let mut project = Project::new();
    let mut manifest = Manifest::new("Old & new".to_string()).add_deployment();
    manifest.runbooks[0].location = "elsewhere".to_string();
    manifest.location = Some(FileLocation::from_path_string("q/other.yml").unwrap());
    project.manifest = Some(manifest);
    let (scaffold, r) = project.run(true);
    assert_eq!(r, Ok(()));
    assert_eq!(project.log[0], "load p/txtx.yml");
    assert_eq!(project.log[1], "create q/other.yml");
    assert_eq!(project.log[2], "write q/other.yml");
    assert!(!project.log.contains(&"created manifest".to_string()));
    assert!(project.written[0].1.contains("name: Old &amp; new\n"));
    let manifest = scaffold.manifest.unwrap();
    assert_eq!(manifest.runbooks.len(), 1);
    assert_eq!(manifest.runbooks[0].location, "elsewhere");
    assert_eq!(manifest.environments.len(), 2);
}

#[test]
fn an_existing_deployment_ends_the_scaffold() {
    let mut project = Project::new();
    project.there = vec!["p/runbooks/deployment/main.tx".to_string()];
    let (_, r) = project.run(true);
    assert_eq!(r, Ok(()));
    assert_eq!(project.log.last().unwrap(), "mkdir p/runbooks/deployment");
    let paths: Vec<&str> = project.written.iter().map(|(path, _)| path.as_str()).collect();
    assert_eq!(paths, ["p/txtx.yml", "p/runbooks/README.md"]);
    assert!(!project.skill_offered);
}

#[test]
fn an_existing_readme_and_its_directories_are_kept() {
    let mut project = Project::new();
    project.there = vec![
        "p/runbooks".to_string(),
        "p/runbooks/README.md".to_string(),
        "p/runbooks/deployment".to_string(),
    ];
    let (_, r) = project.run(true);
    assert_eq!(r, Ok(()));
    assert!(!project.log.iter().any(|entry| entry.starts_with("mkdir")));
    assert!(!project.log.iter().any(|entry| entry.contains("README")));
    assert_eq!(project.written.len(), 5);
}

#[test]
fn a_refused_deployment_is_told_and_the_skill_offered_still() {
    let mut project = Project::new();
    project.confirmed = Ok(false);
    let (_, r) = project.run(false);
    assert_eq!(r, Ok(()));
    assert!(project.log.contains(&"canceled".to_string()));
    assert!(project.skill_offered);
}

#[test]
fn each_failure_has_its_message() {
    for (failing, message) in [
        ("create p/txtx.yml", "Failed to create Runbook manifest p/txtx.yml: broken"),
        ("write p/txtx.yml", "Failed to render Runbook manifest: broken"),
        ("mkdir p/runbooks", "unable to create parent directory p/runbooks\nbroken"),
        (
            "create p/runbooks/README.md",
            "Failed to create Runbook README p/runbooks/README.md: broken",
        ),
        ("render", "Failed to render Runbook README: broken"),
        ("write p/runbooks/README.md", "Failed to render Runbook README: broken"),
        ("template", "Failed to generate Runbook README: unclosed tag"),
        (
            "mkdir p/runbooks/deployment",
            "unable to create parent directory p/runbooks/deployment\nbroken",
        ),
        ("create p/runbooks/deployment/main.tx", "Runbook file creation failed: broken"),
        ("write p/runbooks/deployment/main.tx", "Failed to write data to Runbook: broken"),
        (
            "create p/runbooks/deployment/signers.localnet.tx",
            "Failed to create Runbook signer file: broken",
        ),
        (
            "write p/runbooks/deployment/signers.mainnet.tx",
            "Failed to write data to Runbook signer file: broken",
        ),
    ] {
        let mut project = Project::new();
        project.failing = Some(failing);
        let (scaffold, r) = project.run(true);
        assert_eq!(r, Err(message.to_string()));
        assert_eq!(scaffold.stage, Stage::Finished);
        assert!(!project.skill_offered);
    }
}

#[test]
fn a_manifest_that_cannot_be_opened_again_is_told_apart() {
    let mut project = Project::new();
    let mut manifest = Manifest::new("m".to_string());
    manifest.location = Some(FileLocation::from_path_string("q.yml").unwrap());
    project.manifest = Some(manifest);
    project.failing = Some("create q.yml");
    let (_, r) = project.run(true);
    assert_eq!(r, Err("Failed to create Runbook manifest file q.yml: broken".to_string()));
}

#[test]
fn each_question_that_fails_has_its_message() {
    let mut project = Project::new();
    project.picked = Err("no terminal".to_string());
    let (_, r) = project.run(false);
    assert_eq!(r, Err("unable to select programs to deploy: no terminal".to_string()));

    let mut project = Project::new();
    project.name = Err("no terminal".to_string());
    let (_, r) = project.run(false);
    assert_eq!(r, Err("unable to get workspace name: no terminal".to_string()));

    let mut project = Project::new();
    project.confirmed = Err("no terminal".to_string());
    let (_, r) = project.run(false);
    assert_eq!(r, Err("Failed to confirm write to runbook: no terminal".to_string()));
}

#[test]
fn a_manifest_that_cannot_be_rendered_ends_the_scaffold() {
    for (rendering, message) in [
        (Ok(Err("e".to_string())), "Failed to render Runbook manifest: e"),
        (Err("e".to_string()), "Failed to generate Runbook manifest: e"),
    ] {
        let (scaffold, _) = Project::new().run(true);
        let (_, turn) = scaffold.recording(rendering);
        match turn.action {
            Action::Finish(r) => assert_eq!(r, Err(message.to_string())),
            _ => panic!("the scaffold goes on"),
        }
    }
}

#[test]
fn a_url_without_a_hierarchy_is_refused() {
    let base = FileLocation::from_url_string("mailto:someone").unwrap();
    let r = scaffold_iac_layout(Framework::Native, &[], &base, true, "k", "h", 1);
    assert_eq!(r.err(), Some("unable to mutate url".to_string()));
}

#[test]
fn locations_have_children_and_relative_paths() {
    let base = FileLocation::from_path_string("a/b").unwrap();
    let below = child(&base, "main.tx").unwrap();
    assert_eq!(below.expect_path_buf(), Path::new("a/b/main.tx"));
    assert_eq!(relative_path(&below, &base), Some("main.tx".to_string()));
    assert_eq!(relative_path(&base, &below), None);
    let other = FileLocation::from_path_string("a/c/main.tx").unwrap();
    assert_eq!(relative_path(&other, &base), None);
}

#[test]
fn a_url_with_a_hierarchy_is_taken() {
    let base = FileLocation::from_url_string("https://example.com/p").unwrap();
    let (scaffold, _) =
        scaffold_iac_layout(Framework::Native, &[], &base, true, "k", "h", 1).unwrap();
    assert_eq!(
        scaffold.locations.main.to_string(),
        "https://example.com/p/runbooks/deployment/main.tx"
    );
}

#[test]
fn an_entry_displays_behind_its_directory() {
    for (parent, text) in
        [("", "runbooks"), ("/", "/runbooks"), ("a/", "a/runbooks"), (".", "./runbooks")]
    {
        let parent = FileLocation::from_path_string(parent).unwrap();
        assert_eq!(child(&parent, "runbooks").unwrap().to_string(), text);
    }
    let url = FileLocation::from_url_string("data:text").unwrap();
    assert_eq!(child(&url, "runbooks").err(), Some("unable to mutate url".to_string()));
}

#[test]
fn a_relative_path_leaves_one_character_out_behind_the_base() {
    let base = FileLocation::from_path_string("/").unwrap();
    let below = FileLocation::from_path_string("/a/b").unwrap();
    assert_eq!(relative_path(&below, &base), Some("/b".to_string()));
    let accented = FileLocation::from_path_string("a\u{e9}").unwrap();
    let base = FileLocation::from_path_string("a").unwrap();
    assert_eq!(relative_path(&accented, &base), None);
}

#[test]
fn a_scaffolded_project_is_left_alone() {
    let mut project = Project::new();
    let (scaffold, r) = project.run(true);
    assert_eq!(r, Ok(()));
    let mut again = Project::new();
    again.there = project
        .log
        .iter()
        .filter_map(|entry| entry.strip_prefix("create ").or(entry.strip_prefix("mkdir ")))
        .map(|path| path.to_string())
        .collect();
    let mut manifest = scaffold.manifest.unwrap();
    manifest.location = Some(FileLocation::from_path_string("p/txtx.yml").unwrap());
    again.manifest = Some(manifest);
    let (_, r) = again.run(true);
    assert_eq!(r, Ok(()));
    assert_eq!(again.log, ["load p/txtx.yml", "create p/txtx.yml", "write p/txtx.yml"]);
    assert_eq!(again.written, [("p/txtx.yml".to_string(), MANIFEST.to_string())]);
    assert!(!again.skill_offered);
}

#[test]
fn a_mere_return_confirms() {
    assert!(CONFIRM_DEFAULT);
}

#[test]
fn a_project_scaffolded_again_keeps_its_manifest() {
    let (scaffold, _) = Project::new().run(true);
    let once = scaffold.manifest.unwrap();
    let (runbooks, environments) = (once.runbooks.len(), once.environments.clone());
    let mut project = Project::new();
    project.manifest = Some(once);
    let (scaffold, r) = project.run(true);
    assert_eq!(r, Ok(()));
    let again = scaffold.manifest.unwrap();
    assert_eq!(again.runbooks.len(), runbooks);
    assert_eq!(again.environments, environments);
    assert_eq!(project.written[0].1, MANIFEST);
}

#[test]
fn a_deployment_of_no_programs_is_a_deployment_still() {
    let mut project = Project::new();
    project.picked = Ok(vec![]);
    let (scaffold, r) = project.run(false);
    assert_eq!(r, Ok(()));
    assert!(scaffold.programs.is_empty());
    assert_eq!(
        project.written[2].1,
        "// Manage Named deployment through Crypto Infrastructure as Code\n\
         addon input.rpc_api_url input.network_id\n"
    );
}

#[test]
fn the_installer_is_told_of_where_it_is_started() {
    for (auto, answer, last) in [
        (true, None, ["run npx in p", "started"]),
        (false, Some(true), ["keep .config/surfpool/dev-skill-accepted", "started"]),
        (false, Some(false), ["confirm", "keep .config/surfpool/dev-skill-declined"]),
        (false, None, ["source", "confirm"]),
    ] {
        let mut project = Project::new();
        project.skill = answer;
        let (_, r) = project.run(auto);
        assert_eq!(r, Ok(()));
        assert_eq!(project.log[project.log.len() - 2..], last);
    }
}

#[test]
fn a_copy_of_a_manifest_is_the_same() {
    let mut manifest =
        Manifest::new("w".to_string()).add_deployment().set_networks("http://h:1", "id.json");
    manifest.runbooks[0].state = Some(FileLocation::from_path_string("states").unwrap());
    manifest.location = Some(FileLocation::from_path_string("w/txtx.yml").unwrap());
    let copy = manifest.clone();
    assert_eq!((copy.name, copy.id), (manifest.name, manifest.id));
    assert_eq!(copy.environments, manifest.environments);
    assert_eq!(copy.location, manifest.location);
    assert_eq!(copy.runbooks.len(), 1);
    assert_eq!(copy.runbooks[0].location, "runbooks/deployment");
    assert_eq!(copy.runbooks[0].description, Some("Deploy programs".to_string()));
    assert_eq!(copy.runbooks[0].name, "deployment");
    assert_eq!(copy.runbooks[0].state, manifest.runbooks[0].state);
}
