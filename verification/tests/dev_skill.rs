use std::path::Path;

use scaffold::dev_skill::{
    dev_skill_answer, dev_skill_choice, dev_skill_decision, dev_skill_install_command,
    dev_skill_install_if_wanted, dev_skill_installed, dev_skill_offer, prompt_for_dev_skill,
    record_dev_skill_answer, SkillChoice, SkillDecision, SkillFacts, DEV_SKILL_ACCEPTED_MARKER,
    DEV_SKILL_AGENT, DEV_SKILL_DECLINED_MARKER, DEV_SKILL_DEFAULT, DEV_SKILL_DIR, DEV_SKILL_INSTALLER,
    DEV_SKILL_REPO,
};
use txtx_core::kit::helpers::fs::FileLocation;

/// What a project and a home directory hold. Every gate test runs against these.
struct Disk {
    base: Vec<String>,
    home: Vec<String>,
}

impl Disk {
    fn facts(&self) -> SkillFacts {
        let has = |files: &Vec<String>, path: &str| files.iter().any(|file| file == path);
        SkillFacts {
            in_base: has(&self.base, DEV_SKILL_DIR),
            in_home: has(&self.home, DEV_SKILL_DIR),
            declined: has(&self.home, DEV_SKILL_DECLINED_MARKER),
            accepted: has(&self.home, DEV_SKILL_ACCEPTED_MARKER),
        }
    }

    fn keep(&mut self, decided: &SkillDecision) {
        if let Some(marker) = decided.marker {
            self.home.push(marker.to_string());
        }
    }
}

fn scratch() -> (Disk, FileLocation) {
    let disk = Disk { base: vec![], home: vec![] };
    let location = FileLocation::from_path_string("/tmp/scratch").unwrap();
    (disk, location)
}

#[test]
fn the_install_is_the_command_issue_567_asked_for() {
    let base = FileLocation::from_path_string("/tmp/surfpool-567-scaffold").unwrap();
    let command = dev_skill_install_command(&base);
    assert_eq!(command.program, "npx");
    assert_eq!(
        command.args,
        [
            "-y",
            DEV_SKILL_INSTALLER,
            "add",
            DEV_SKILL_REPO,
            "--skill",
            "*",
            "--agent",
            DEV_SKILL_AGENT,
            "-y"
        ]
    );
    // "*" is the installer's own alias for every agent it knows, so naming one
    // agent and naming all of them are one typo apart.
    assert_ne!(DEV_SKILL_AGENT, "*");
}

#[test]
fn the_install_is_pinned() {
    assert_eq!(DEV_SKILL_INSTALLER, "skills@1.5.23");
    assert_eq!(DEV_SKILL_AGENT, "universal");
    assert_eq!(DEV_SKILL_REPO, "https://github.com/solana-foundation/solana-dev-skill");
}

#[test]
fn the_install_runs_in_the_scaffolded_project_not_the_process_cwd() {
    let base = FileLocation::from_path_string("/tmp/surfpool-567-scaffold").unwrap();
    assert_eq!(
        dev_skill_install_command(&base).current_dir.expect_path_buf(),
        Path::new("/tmp/surfpool-567-scaffold")
    );
}

#[test]
fn an_installed_skill_is_left_alone() {
    for (in_base, in_home) in [(true, false), (false, true)] {
        let (mut disk, location) = scratch();
        let root = if in_base { &mut disk.base } else { &mut disk.home };
        root.push(DEV_SKILL_DIR.to_string());
        let decided = dev_skill_install_if_wanted(&location, disk.facts(), true, || {
            panic!("an installed skill must not prompt")
        });
        assert!(
            decided.command.is_none(),
            "installed in base={in_base} home={in_home} still produced an install"
        );
        assert!(decided.marker.is_none());
    }
}

#[test]
fn under_the_yes_flag_the_marker_decides() {
    for declined in [true, false] {
        let (mut disk, location) = scratch();
        if declined {
            disk.home.push(DEV_SKILL_DECLINED_MARKER.to_string());
        }
        let install = dev_skill_install_if_wanted(&location, disk.facts(), true, || {
            panic!("--yes must not prompt")
        });
        assert_eq!(
            install.command.is_none(),
            declined,
            "--yes with a recorded decline={declined} decided the wrong way"
        );
    }
}

#[test]
fn a_declined_prompt_starts_no_install_and_is_remembered() {
    let (mut disk, location) = scratch();
    let decided = dev_skill_install_if_wanted(&location, disk.facts(), false, || Some(false));
    assert!(decided.command.is_none());
    disk.keep(&decided);
    assert!(
        disk.home.contains(&DEV_SKILL_DECLINED_MARKER.to_string()),
        "a decline that is not written down is a decline that gets asked again"
    );
    assert!(dev_skill_install_if_wanted(&location, disk.facts(), false, || {
        panic!("the recorded decline must not prompt again")
    })
    .command
    .is_none());
}

#[test]
fn an_accepted_prompt_installs_and_is_remembered() {
    let (mut disk, location) = scratch();
    let decided = dev_skill_install_if_wanted(&location, disk.facts(), false, || Some(true));
    assert!(decided.command.is_some());
    disk.keep(&decided);
    assert!(dev_skill_install_if_wanted(&location, disk.facts(), false, || {
        panic!("the recorded accept must not prompt again")
    })
    .command
    .is_some());
}

#[test]
fn an_undisplayable_prompt_installs_nothing_and_records_nothing() {
    let (mut disk, location) = scratch();
    let decided = dev_skill_install_if_wanted(&location, disk.facts(), false, || None);
    assert!(decided.command.is_none());
    disk.keep(&decided);
    assert!(dev_skill_answer(disk.facts()).is_none());
    assert_eq!(dev_skill_choice(disk.facts(), false), SkillChoice::Ask);
}

#[test]
fn a_kept_no_wins_over_a_kept_yes() {
    let mut facts = SkillFacts { in_base: false, in_home: false, declined: true, accepted: true };
    assert_eq!(dev_skill_answer(facts), Some(false));
    assert_eq!(dev_skill_choice(facts, true), SkillChoice::Leave);
    facts.declined = false;
    assert_eq!(dev_skill_answer(facts), Some(true));
    assert_eq!(dev_skill_choice(facts, false), SkillChoice::Install);
}

#[test]
fn an_installed_skill_is_found_in_either_place() {
    let mut facts = SkillFacts { in_base: false, in_home: false, declined: false, accepted: true };
    assert!(!dev_skill_installed(facts));
    facts.in_home = true;
    assert!(dev_skill_installed(facts));
    assert_eq!(dev_skill_choice(facts, true), SkillChoice::Leave);
    facts = SkillFacts { in_base: true, in_home: false, declined: false, accepted: false };
    assert!(dev_skill_installed(facts));
}

#[test]
fn each_answer_has_its_marker() {
    assert_eq!(record_dev_skill_answer(true), ".config/surfpool/dev-skill-accepted");
    assert_eq!(record_dev_skill_answer(false), ".config/surfpool/dev-skill-declined");
}

#[test]
fn the_question_names_what_is_written() {
    let answer = prompt_for_dev_skill(|question, default| {
        assert_eq!(
            question,
            "Install the solana-dev skill? It writes .agents/skills/solana-dev and skills-lock.json here"
        );
        Ok::<bool, String>(default)
    });
    assert_eq!(answer, Some(false));
    assert!(!DEV_SKILL_DEFAULT);
}

#[test]
fn a_question_that_cannot_be_shown_has_no_answer() {
    assert_eq!(prompt_for_dev_skill(|_, _| Err("no terminal")), None);
    assert_eq!(prompt_for_dev_skill(|_, _| Ok::<bool, String>(true)), Some(true));
}

#[test]
fn an_answer_counts_only_where_it_was_asked_for() {
    let location = FileLocation::from_path_string("project").unwrap();
    let left = dev_skill_decision(&location, SkillChoice::Leave, Some(true));
    assert!(left.command.is_none() && left.marker.is_none());
    let installed = dev_skill_decision(&location, SkillChoice::Install, Some(false));
    assert!(installed.command.is_some() && installed.marker.is_none());
}

#[test]
fn a_project_that_is_not_on_this_machine_is_offered_nothing() {
    let facts = SkillFacts { in_base: false, in_home: false, declined: false, accepted: false };
    let url = FileLocation::from_url_string("https://example.com/p").unwrap();
    assert!(dev_skill_offer(&url, facts, false, || panic!("nothing to ask")).is_none());
    assert!(dev_skill_offer(&url, facts, true, || panic!("nothing to ask")).is_none());
    let declined = SkillFacts { declined: true, ..facts };
    let left = dev_skill_offer(&url, declined, false, || panic!("nothing to ask")).unwrap();
    assert!(left.command.is_none() && left.marker.is_none());
    let refused = dev_skill_install_if_wanted(&url, facts, false, || Some(false));
    assert!(refused.command.is_none());
    assert_eq!(refused.marker, Some(DEV_SKILL_DECLINED_MARKER));
    let unanswered = dev_skill_decision(&url, SkillChoice::Ask, Some(false));
    assert!(unanswered.command.is_none());
    assert_eq!(unanswered.marker, Some(DEV_SKILL_DECLINED_MARKER));
    let (_, location) = scratch();
    let decided = dev_skill_offer(&location, facts, false, || Some(true)).unwrap();
    assert!(decided.command.is_some());
    assert_eq!(decided.marker, Some(DEV_SKILL_ACCEPTED_MARKER));
    let decided = dev_skill_offer(&location, facts, true, || panic!("nothing to ask")).unwrap();
    assert!(decided.command.is_some() && decided.marker.is_none());
}
