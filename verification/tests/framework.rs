use std::path::Path;

use scaffold::framework::{
    copy_programs, detect_program_frameworks, Detection, DetectionStep, Framework, ProbeOutcome,
    ProgramFrameworkData, ProgramMetadata,
};

type Data = ProgramFrameworkData<u8, u8, u8>;

/// Runs a search in which the probe for each framework finds what `probe` says.
fn search(probe: impl Fn(Framework) -> ProbeOutcome<u8, u8, u8>) -> (Vec<Framework>, Result<Option<Data>, String>) {
    let mut probed = vec![];
    let mut detection: Detection = detect_program_frameworks("/work/project/txtx.yml").unwrap();
    loop {
        probed.push(detection.framework);
        let outcome = probe(detection.framework);
        match detection.step(outcome) {
            DetectionStep::Probe(next) => detection = next,
            DetectionStep::Done(r) => return (probed, r),
        }
    }
}

#[test]
fn a_program_has_its_name() {
    let program = ProgramMetadata::new("vault", true);
    assert_eq!(program.name, "vault");
    assert!(program.so_exists);
    let copy = copy_programs(&[program, ProgramMetadata::new("bank", false)]);
    assert_eq!(copy.len(), 2);
    assert_eq!(copy[1].name, "bank");
    assert!(!copy[1].so_exists);
}

#[test]
fn a_partial_project_has_no_accounts() {
    let data = Data::partial(Framework::Steel, vec![ProgramMetadata::new("vault", true)]);
    assert_eq!(data.framework, Framework::Steel);
    assert_eq!(data.programs[0].name, "vault");
    assert!(data.genesis_accounts.is_none() && data.accounts.is_none());
    assert!(data.accounts_dir.is_none() && data.clones.is_none());
}

#[test]
fn a_project_keeps_all_of_its_accounts() {
    let data = Data::new(
        Framework::Anchor,
        vec![],
        Some(vec![1]),
        Some(vec![2, 3]),
        None,
        Some(vec!["clone".to_string()]),
    );
    assert_eq!(data.genesis_accounts, Some(vec![1]));
    assert_eq!(data.accounts, Some(vec![2, 3]));
    assert_eq!(data.accounts_dir, None);
    assert_eq!(data.clones, Some(vec!["clone".to_string()]));
}

#[test]
fn the_search_runs_in_the_directory_of_the_manifest() {
    let detection = detect_program_frameworks("/work/project/txtx.yml").unwrap();
    assert_eq!(detection.base_dir.expect_path_buf(), Path::new("/work/project"));
    assert_eq!(detection.framework, Framework::Anchor);
    let detection = detect_program_frameworks("txtx.yml").unwrap();
    assert_eq!(detection.base_dir.expect_path_buf(), Path::new(""));
    assert_eq!(detection.base_dir.to_string(), "");
    let detection = detect_program_frameworks("project/txtx.yml").unwrap();
    assert_eq!(detection.base_dir.to_string(), "project");
    let detection = detect_program_frameworks("../elsewhere/txtx.yml").unwrap();
    assert_eq!(detection.base_dir.to_string(), "../elsewhere");
    let detection = detect_program_frameworks("./txtx.yml").unwrap();
    assert_eq!(detection.base_dir.to_string(), ".");
    let detection = detect_program_frameworks("..").unwrap();
    assert_eq!(detection.base_dir.to_string(), "");
    let detection = detect_program_frameworks("/txtx.yml").unwrap();
    assert_eq!(detection.base_dir.to_string(), "/");
}

#[test]
fn a_manifest_without_a_directory_is_refused() {
    assert_eq!(detect_program_frameworks("/").err(), Some("reached root".to_string()));
    assert_eq!(detect_program_frameworks("").err(), Some("reached root".to_string()));
}

#[test]
fn frameworks_are_looked_for_in_order() {
    let (probed, r) = search(|_| ProbeOutcome::Nothing);
    assert_eq!(
        probed,
        [
            Framework::Anchor,
            Framework::Steel,
            Framework::Typhoon,
            Framework::Pinocchio,
            Framework::Native
        ]
    );
    assert!(matches!(r, Ok(None)));
}

#[test]
fn the_first_project_found_is_taken() {
    let (probed, r) = search(|framework| match framework {
        Framework::Typhoon => {
            ProbeOutcome::Programs(Framework::Typhoon, vec![ProgramMetadata::new("vault", false)])
        }
        Framework::Native => ProbeOutcome::Invalid("not reached".to_string()),
        _ => ProbeOutcome::Nothing,
    });
    assert_eq!(probed.len(), 3);
    let data = r.unwrap().unwrap();
    assert_eq!(data.framework, Framework::Typhoon);
    assert_eq!(data.programs[0].name, "vault");
    assert!(data.clones.is_none());
}

#[test]
fn an_anchor_project_keeps_its_accounts() {
    let (probed, r) = search(|_| {
        ProbeOutcome::Project(Data::new(Framework::Anchor, vec![], None, Some(vec![7]), None, None))
    });
    assert_eq!(probed, [Framework::Anchor]);
    assert_eq!(r.unwrap().unwrap().accounts, Some(vec![7]));
}

#[test]
fn an_invalid_project_is_an_error_that_names_its_framework() {
    for (invalid, message) in [
        (Framework::Anchor, "Invalid Anchor project: no programs"),
        (Framework::Steel, "Invalid Steel project: no programs"),
        (Framework::Typhoon, "Invalid Typhoon project: no programs"),
        (Framework::Pinocchio, "Invalid Pinocchio project: no programs"),
        (Framework::Native, "Invalid Native project: no programs"),
    ] {
        let (_, r) = search(|framework| {
            if framework == invalid {
                ProbeOutcome::Invalid("no programs".to_string())
            } else {
                ProbeOutcome::Nothing
            }
        });
        assert_eq!(r.err(), Some(message.to_string()));
    }
}
