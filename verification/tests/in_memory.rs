use std::path::Path;

use scaffold::environments::make_devnet_inputs;
use scaffold::framework::{Framework, ProgramMetadata};
use scaffold::in_memory::{assemble_in_memory_iac, scaffold_in_memory_iac};
use scaffold::manifest::Manifest;
use scaffold::templates::{in_memory_requests, TemplateRequest};
use scaffold::text::{decimal_text, endpoint_text, quoted_text};

fn render(request: &TemplateRequest) -> String {
    match request {
        TemplateRequest::Addon { rpc_api_url, network_id } => {
            format!("addon {rpc_api_url} {network_id}\n")
        }
        TemplateRequest::LocalnetSigner { keypair } => format!("signer {keypair}\n"),
        TemplateRequest::InMemoryProgram { framework, name, artifacts_path } => {
            format!("deploy {framework:?} {name} {artifacts_path:?}\n")
        }
        _ => panic!("not a piece of a runbook in memory"),
    }
}

fn programs() -> Vec<ProgramMetadata> {
    vec![
        ProgramMetadata::new("vault", true),
        ProgramMetadata::new("unbuilt", false),
        ProgramMetadata::new("bank", true),
    ]
}

#[test]
fn a_project_is_scaffolded_in_memory() {
    let (runbook_id, sources, manifest) = scaffold_in_memory_iac(
        Framework::Anchor,
        &programs(),
        &Some(vec![1u8]),
        &None::<Vec<u8>>,
        &Some(vec!["dir"]),
        Some("target/deploy"),
        "/home/me/id.json",
        "127.0.0.1",
        8899,
        render,
        |framework, genesis, accounts, dirs| {
            Some(format!("setup {framework:?} {genesis:?} {accounts:?} {dirs:?}\n"))
        },
    )
    .unwrap();
    assert_eq!(runbook_id, "deployment");

    assert_eq!(sources.tree.len(), 1);
    let (location, (name, content)) = sources.tree.iter().next().unwrap();
    assert_eq!(location.expect_path_buf(), Path::new("."));
    assert_eq!(name, "deployment");
    assert_eq!(
        content.to_string(),
        "addon input.rpc_api_url input.network_id\n\
         signer \"/home/me/id.json\"\n\
         deploy Anchor vault Some(\"target/deploy\")\n\
         deploy Anchor bank Some(\"target/deploy\")\n\
         setup Anchor [1] [] [\"dir\"]\n"
    );

    assert_eq!(manifest.name, "memory");
    assert_eq!(manifest.id, "memory");
    assert!(manifest.location.is_none());
    assert_eq!(manifest.runbooks.len(), 1);
    let runbook = &manifest.runbooks[0];
    assert_eq!(runbook.name, "deployment");
    assert_eq!(runbook.description, Some("Deploy programs".to_string()));
    assert!(runbook.state.is_none());
    assert_eq!(
        Path::new(&runbook.location),
        Path::new("runbooks").join("deployment").join("deployment.tx")
    );
    assert_eq!(manifest.environments.len(), 1);
    let localnet: Vec<(&String, &String)> = manifest.environments["localnet"].iter().collect();
    assert_eq!(
        localnet,
        [
            (&"network_id".to_string(), &"localnet".to_string()),
            (&"rpc_api_url".to_string(), &"http://127.0.0.1:8899".to_string())
        ]
    );
}

#[test]
fn a_network_without_a_setup_gets_none() {
    let (_, sources, _) = scaffold_in_memory_iac(
        Framework::Native,
        &[],
        &None::<Vec<u8>>,
        &None::<Vec<u8>>,
        &None::<Vec<u8>>,
        None,
        "id.json",
        "localhost",
        1,
        render,
        |_, genesis, accounts, dirs| {
            assert!(genesis.is_empty() && accounts.is_empty() && dirs.is_empty());
            None
        },
    )
    .unwrap();
    let (_, content) = sources.tree.values().next().unwrap();
    assert_eq!(
        content.to_string(),
        "addon input.rpc_api_url input.network_id\nsigner \"id.json\"\n"
    );
}

#[test]
fn programs_without_an_artifact_are_skipped() {
    let requests = in_memory_requests(Framework::Steel, &programs(), None, "id.json");
    let names: Vec<&str> = requests
        .iter()
        .filter_map(|request| match request {
            TemplateRequest::InMemoryProgram { framework, name, artifacts_path } => {
                assert_eq!(*framework, Framework::Steel);
                assert!(artifacts_path.is_none());
                Some(name.as_str())
            }
            _ => None,
        })
        .collect();
    assert_eq!(names, ["vault", "bank"]);
    assert_eq!(requests.len(), 4);
}

#[test]
fn rendered_pieces_are_put_together_in_order() {
    let pieces = vec!["one ".to_string(), "two ".to_string()];
    let (_, sources, _) =
        assemble_in_memory_iac(&pieces, Some("three".to_string()), "localhost", 80);
    assert_eq!(sources.tree.values().next().unwrap().1.to_string(), "one two three");
    let (_, sources, _) = assemble_in_memory_iac(&pieces, None, "localhost", 80);
    assert_eq!(sources.tree.values().next().unwrap().1.to_string(), "one two ");
}

#[test]
fn a_workspace_has_an_identifier() {
    assert_eq!(Manifest::new("My Space_2!".to_string()).id, "my-space2");
    assert_eq!(Manifest::new("A-z 09".to_string()).id, "a-z-09");
    assert_eq!(Manifest::new("".to_string()).id, "");
    assert_eq!(Manifest::new("\u{c9}t\u{e9}".to_string()).id, "\u{e9}t\u{e9}");
}

#[test]
fn an_environment_is_replaced_in_its_place() {
    let mut manifest = Manifest::new("w".to_string());
    for name in ["first", "devnet", "localnet", "last"] {
        manifest.environments.insert(name.to_string(), make_devnet_inputs("old.json"));
    }
    let manifest = manifest.set_networks("http://localhost:1", "new.json");
    let names: Vec<&String> = manifest.environments.keys().collect();
    assert_eq!(names, ["first", "devnet", "localnet", "last"]);
    assert_eq!(manifest.environments["devnet"]["payer_keypair_json"], "new.json");
    assert_eq!(manifest.environments["devnet"]["authority_keypair_json"], "new.json");
    assert_eq!(manifest.environments["devnet"]["rpc_api_url"], "https://api.devnet.solana.com");
    assert_eq!(manifest.environments["localnet"]["rpc_api_url"], "http://localhost:1");
    assert_eq!(manifest.environments["localnet"].len(), 2);
    assert_eq!(manifest.environments["first"]["payer_keypair_json"], "old.json");
    assert_eq!(manifest.environments["last"]["payer_keypair_json"], "old.json");
}

#[test]
fn the_deployment_is_listed_once() {
    let manifest = Manifest::new("w".to_string()).add_deployment().add_deployment();
    assert_eq!(manifest.runbooks.len(), 1);
    assert!(manifest.has_runbook("deployment"));
    assert!(!manifest.has_runbook("other"));
    assert_eq!(manifest.runbooks[0].location, "runbooks/deployment");
}

#[test]
fn numbers_are_written_in_decimal() {
    assert_eq!(decimal_text(0), "0");
    assert_eq!(decimal_text(9), "9");
    assert_eq!(decimal_text(10), "10");
    assert_eq!(decimal_text(12345), "12345");
    assert_eq!(decimal_text(60708), "60708");
    assert_eq!(decimal_text(65535), "65535");
    assert_eq!(endpoint_text("localhost", 8899), "http://localhost:8899");
    assert_eq!(quoted_text("~/id.json"), "\"~/id.json\"");
}

/// Scaffolds in memory with plain templates, and gives the source and the names in the manifest.
fn source_of(
    programs: &[ProgramMetadata],
    accounts: &Option<Vec<u8>>,
    keypair_path: &str,
) -> (String, String, Manifest) {
    let (runbook_id, sources, manifest) = scaffold_in_memory_iac(
        Framework::Anchor,
        programs,
        &None::<Vec<u8>>,
        accounts,
        &None::<Vec<u8>>,
        None,
        keypair_path,
        "localhost",
        8899,
        render,
        |_, genesis, accounts, dirs| Some(format!("{genesis:?} {accounts:?} {dirs:?}")),
    )
    .unwrap();
    let source = sources.tree.values().next().unwrap().1.to_string();
    (runbook_id, source, manifest)
}

#[test]
fn unbuilt_programs_play_no_part() {
    let built: Vec<ProgramMetadata> =
        programs().into_iter().filter(|program| program.so_exists).collect();
    let (_, all, _) = source_of(&programs(), &None, "id.json");
    let (_, without, _) = source_of(&built, &None, "id.json");
    assert_eq!(all, without);
}

#[test]
fn a_missing_list_is_an_empty_one() {
    let (_, missing, _) = source_of(&programs(), &None, "id.json");
    let (_, empty, _) = source_of(&programs(), &Some(vec![]), "id.json");
    let (_, other, _) = source_of(&programs(), &Some(vec![1]), "id.json");
    assert_eq!(missing, empty);
    assert_ne!(missing, other);
}

#[test]
fn the_manifest_in_memory_is_always_the_same() {
    let (first_id, first_source, first) = source_of(&programs(), &None, "id.json");
    let (second_id, second_source, second) = source_of(&[], &Some(vec![1]), "other.json");
    assert_ne!(first_source, second_source);
    assert_eq!(first_id, second_id);
    assert_eq!((first.name, first.id), (second.name, second.id));
    assert_eq!(first.environments, second.environments);
    assert_eq!(first.runbooks.len(), second.runbooks.len());
    assert_eq!(first.runbooks[0].location, second.runbooks[0].location);
    assert_eq!(first.runbooks[0].name, second.runbooks[0].name);
    assert_eq!(first.runbooks[0].description, second.runbooks[0].description);
}
