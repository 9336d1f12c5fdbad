//! Whether the `solana-dev` skill gets installed beside a scaffold.
//!
//! Two markers in the home directory keep the answer that was given once. They are kept apart from
//! the directory of the skill, which an installer writes that nobody waits for: a yes read off
//! that directory would be asked again forever.

use crate::location::LocationView;
use txtx_core::kit::helpers::fs::FileLocation;
use vstd::prelude::*;

verus! {

pub const DEV_SKILL_REPO: &'static str = "https://github.com/solana-foundation/solana-dev-skill";

/// An exact version: anything looser installs whatever the registry calls latest that day.
pub const DEV_SKILL_INSTALLER: &'static str = "skills@1.5.23";

/// The agent to install for, by the key under which the installer keeps the canonical copy in
/// `.agents/skills`. Where none is named, the installer writes for every agent that it knows.
pub const DEV_SKILL_AGENT: &'static str = "universal";

/// Where the skill is installed, below a project or below the home directory.
pub const DEV_SKILL_DIR: &'static str = ".agents/skills/solana-dev";

/// The file, below the home directory, that keeps a no.
pub const DEV_SKILL_DECLINED_MARKER: &'static str = ".config/surfpool/dev-skill-declined";

/// The file, below the home directory, that keeps a yes.
pub const DEV_SKILL_ACCEPTED_MARKER: &'static str = ".config/surfpool/dev-skill-accepted";

/// What a mere return answers to the question: no.
pub const DEV_SKILL_DEFAULT: bool = false;

/// A program to run, with its arguments and the directory to run it in.
pub struct InstallCommand {
    pub program: String,
    pub args: Vec<String>,
    pub current_dir: FileLocation,
}

/// What the contracts read of a command.
pub struct CommandView {
    pub program: Seq<char>,
    pub args: Seq<Seq<char>>,
    pub current_dir: LocationView,
}

impl View for InstallCommand {
    type V = CommandView;

    open spec fn view(&self) -> CommandView {
        CommandView {
            program: self.program@,
            args: crate::text::texts(self.args@),
            current_dir: crate::location::location_view(self.current_dir),
        }
    }
}

/// The arguments of the installation. The first `-y` is for `npx`, which then fetches the
/// installer without asking; the last one is for the installer, which then asks nothing itself.
pub open spec fn install_args() -> Seq<Seq<char>> {
    seq![
        "-y"@,
        DEV_SKILL_INSTALLER@,
        "add"@,
        DEV_SKILL_REPO@,
        "--skill"@,
        "*"@,
        "--agent"@,
        DEV_SKILL_AGENT@,
        "-y"@,
    ]
}

/// The command that installs the skill in the project at a location.
pub open spec fn install_command(base: LocationView) -> CommandView {
    CommandView { program: "npx"@, args: install_args(), current_dir: base }
}

/// Makes the command that installs the skill. It runs in the directory of the project, whatever
/// the directory of this process is.
pub fn dev_skill_install_command(base_location: &FileLocation) -> (command: InstallCommand)
    requires
        crate::location::location_on_disk(*base_location),
    ensures
        command@ == install_command(crate::location::location_view(*base_location)),
        command.program@ == "npx"@,
        command.args.len() == 9,
        crate::location::location_text(command.current_dir) == crate::location::location_text(
            *base_location,
        ),
        crate::location::location_components(command.current_dir)
            == crate::location::location_components(*base_location),
        crate::location::location_on_disk(command.current_dir),
{
    let mut args: Vec<String> = Vec::new();
    args.push("-y".to_string());
    args.push(DEV_SKILL_INSTALLER.to_string());
    args.push("add".to_string());
    args.push(DEV_SKILL_REPO.to_string());
    args.push("--skill".to_string());
    args.push("*".to_string());
    args.push("--agent".to_string());
    args.push(DEV_SKILL_AGENT.to_string());
    args.push("-y".to_string());
    proof {
        assert(crate::text::texts(args@) =~= install_args());
    }
    InstallCommand { program: "npx".to_string(), args, current_dir: base_location.clone() }
}

/// What is on disk: whether `DEV_SKILL_DIR` exists below the project and below the home
/// directory, and whether each of the two markers exists below the home directory.
#[derive(Clone, Copy)]
pub struct SkillFacts {
    pub in_base: bool,
    pub in_home: bool,
    pub declined: bool,
    pub accepted: bool,
}

/// The facts about a project and a home directory that hold the given paths.
pub open spec fn facts_of(base: Set<Seq<char>>, home: Set<Seq<char>>) -> SkillFacts {
    SkillFacts {
        in_base: base.contains(DEV_SKILL_DIR@),
        in_home: home.contains(DEV_SKILL_DIR@),
        declined: home.contains(DEV_SKILL_DECLINED_MARKER@),
        accepted: home.contains(DEV_SKILL_ACCEPTED_MARKER@),
    }
}

/// Whether the skill is there already. One in the home directory is as good as one in the project.
pub fn dev_skill_installed(facts: SkillFacts) -> (installed: bool)
    ensures
        installed == (facts.in_base || facts.in_home),
{
    facts.in_base || facts.in_home
}

/// The answer that the markers keep. A no wins where both are there.
pub open spec fn kept_answer(facts: SkillFacts) -> Option<bool> {
    if facts.declined {
        Some(false)
    } else if facts.accepted {
        Some(true)
    } else {
        None
    }
}

/// Returns the answer that the markers keep.
pub fn dev_skill_answer(facts: SkillFacts) -> (answer: Option<bool>)
    ensures
        answer == kept_answer(facts),
        answer == Some(false) <==> facts.declined,
        answer == Some(true) <==> facts.accepted && !facts.declined,
{
    if facts.declined {
        Some(false)
    } else if facts.accepted {
        Some(true)
    } else {
        None
    }
}

/// The marker that keeps an answer.
pub open spec fn marker_of(consented: bool) -> Seq<char> {
    if consented {
        DEV_SKILL_ACCEPTED_MARKER@
    } else {
        DEV_SKILL_DECLINED_MARKER@
    }
}

/// Returns the marker to create, below the home directory, so that an answer is kept.
pub fn record_dev_skill_answer(consented: bool) -> (marker: &'static str)
    ensures
        marker@ == marker_of(consented),
{
    match consented {
        true => DEV_SKILL_ACCEPTED_MARKER,
        false => DEV_SKILL_DECLINED_MARKER,
    }
}

/// The question that is asked.
pub open spec fn prompt() -> Seq<char> {
    "Install the solana-dev skill? It writes "@ + DEV_SKILL_DIR@ + " and skills-lock.json here"@
}

/// Asks the question. `show` shows one yes-or-no question, with the answer that a mere return
/// gives, and says what was answered. A question that could not be shown has no answer.
pub fn prompt_for_dev_skill<E>(show: impl FnOnce(String, bool) -> Result<bool, E>) -> (answer:
    Option<bool>)
    requires
        forall|question: String|
            question@ == prompt() ==> #[trigger] call_requires(
                show,
                (question, DEV_SKILL_DEFAULT),
            ),
    ensures
        exists|question: String, outcome: Result<bool, E>|
            {
                &&& question@ == prompt()
                &&& #[trigger] call_ensures(show, (question, DEV_SKILL_DEFAULT), outcome)
                &&& answer == match outcome {
                    Ok(answered) => Some(answered),
                    Err(_) => None,
                }
            },
{
    let mut question = "Install the solana-dev skill? It writes ".to_string();
    question.append(DEV_SKILL_DIR);
    question.append(" and skills-lock.json here");
    let outcome = show(question, DEV_SKILL_DEFAULT);
    match outcome {
        Ok(answered) => Some(answered),
        Err(_) => None,
    }
}

/// What to do about the skill.
#[derive(Clone, Copy, PartialEq, Eq, Structural, Debug)]
pub enum SkillChoice {
    /// Leave everything as it is.
    Leave,
    /// Install it.
    Install,
    /// Ask.
    Ask,
}

/// What to do, given what is on disk and whether everything was accepted in advance. An installed
/// skill comes before a kept answer, and that before the acceptance in advance.
pub open spec fn choice(facts: SkillFacts, auto_accept: bool) -> SkillChoice {
    if facts.in_base || facts.in_home {
        SkillChoice::Leave
    } else {
        match kept_answer(facts) {
            Some(true) => SkillChoice::Install,
            Some(false) => SkillChoice::Leave,
            None => if auto_accept {
                SkillChoice::Install
            } else {
                SkillChoice::Ask
            },
        }
    }
}

/// Decides what to do about the skill.
pub fn dev_skill_choice(facts: SkillFacts, auto_accept: bool) -> (chosen: SkillChoice)
    ensures
        chosen == choice(facts, auto_accept),
        chosen is Leave <==> facts.in_base || facts.in_home || facts.declined,
        chosen is Ask <==> !facts.in_base && !facts.in_home && !facts.declined && !facts.accepted
            && !auto_accept,
{
    if dev_skill_installed(facts) {
        return SkillChoice::Leave;
    }
    match dev_skill_answer(facts) {
        Some(true) => SkillChoice::Install,
        Some(false) => SkillChoice::Leave,
        None => if auto_accept {
            SkillChoice::Install
        } else {
            SkillChoice::Ask
        },
    }
}

/// What comes of a choice: a command to run, and a marker to create first.
pub struct SkillDecision {
    pub command: Option<InstallCommand>,
    pub marker: Option<&'static str>,
}

/// What the contracts read of a decision.
pub struct DecisionView {
    pub command: Option<CommandView>,
    pub marker: Option<Seq<char>>,
}

impl View for SkillDecision {
    type V = DecisionView;

    open spec fn view(&self) -> DecisionView {
        DecisionView {
            command: match self.command {
                Some(command) => Some(command@),
                None => None,
            },
            marker: match self.marker {
                Some(marker) => Some(marker@),
                None => None,
            },
        }
    }
}

/// Whether a choice, with what was answered if the choice was to ask, is to install.
pub open spec fn consents(chosen: SkillChoice, answer: Option<bool>) -> bool {
    match chosen {
        SkillChoice::Leave => false,
        SkillChoice::Install => true,
        SkillChoice::Ask => answer == Some(true),
    }
}

/// What comes of a choice, where `answer` is what was answered if the choice was to ask. A
/// question that could not be shown has no answer; nothing is installed then, and nothing kept.
pub open spec fn decision(base: LocationView, chosen: SkillChoice, answer: Option<bool>)
    -> DecisionView {
    DecisionView {
        command: if consents(chosen, answer) {
            Some(install_command(base))
        } else {
            None
        },
        marker: match (chosen, answer) {
            (SkillChoice::Ask, Some(answered)) => Some(marker_of(answered)),
            _ => None,
        },
    }
}

/// Carries a choice out, with the answer that was given if the choice was to ask.
pub fn dev_skill_decision(base_location: &FileLocation, chosen: SkillChoice, answer: Option<bool>)
    -> (decided: SkillDecision)
    requires
        consents(chosen, answer) ==> crate::location::location_on_disk(*base_location),
    ensures
        decided@ == decision(crate::location::location_view(*base_location), chosen, answer),
{
    let (consented, marker) = match chosen {
        SkillChoice::Leave => (false, None),
        SkillChoice::Install => (true, None),
        SkillChoice::Ask => match answer {
            Some(answered) => (answered, Some(record_dev_skill_answer(answered))),
            None => (false, None),
        },
    };
    if consented {
        SkillDecision { command: Some(dev_skill_install_command(base_location)), marker }
    } else {
        SkillDecision { command: None, marker }
    }
}

/// Decides whether the skill gets installed in the project at `base_location`, and asks where
/// neither the disk nor the acceptance in advance settles it. `ask` is called at most once, and
/// only there.
pub fn dev_skill_install_if_wanted(
    base_location: &FileLocation,
    facts: SkillFacts,
    auto_accept: bool,
    ask: impl FnOnce() -> Option<bool>,
) -> (decided: SkillDecision)
    requires
        choice(facts, auto_accept) is Install ==> crate::location::location_on_disk(*base_location),
        choice(facts, auto_accept) is Ask ==> call_requires(ask, ()),
        choice(facts, auto_accept) is Ask && call_ensures(ask, (), Some(true))
            ==> crate::location::location_on_disk(*base_location),
    ensures
        choice(facts, auto_accept) !is Ask ==> decided@ == decision(
            crate::location::location_view(*base_location),
            choice(facts, auto_accept),
            None,
        ),
        choice(facts, auto_accept) is Ask ==> exists|answer: Option<bool>|
            #[trigger] call_ensures(ask, (), answer) && decided@ == decision(
                crate::location::location_view(*base_location),
                SkillChoice::Ask,
                answer,
            ),
{
    let chosen = dev_skill_choice(facts, auto_accept);
    let answer = match chosen {
        SkillChoice::Ask => ask(),
        _ => None,
    };
    dev_skill_decision(base_location, chosen, answer)
}

/// Decides whether the skill gets installed in the project at `base_location`, wherever that is.
/// For a project that is not on this machine nothing is asked, and nothing decided but to leave
/// everything as it is.
pub fn dev_skill_offer(
    base_location: &FileLocation,
    facts: SkillFacts,
    auto_accept: bool,
    ask: impl FnOnce() -> Option<bool>,
) -> (decided: Option<SkillDecision>)
    requires
        choice(facts, auto_accept) is Ask ==> call_requires(ask, ()),
    ensures
        decided is Some <==> choice(facts, auto_accept) is Leave
            || crate::location::location_on_disk(*base_location),
        decided is Some && choice(facts, auto_accept) !is Ask ==> decided->Some_0@ == decision(
            crate::location::location_view(*base_location),
            choice(facts, auto_accept),
            None,
        ),
        decided is Some && choice(facts, auto_accept) is Ask ==> exists|answer: Option<bool>|
            #[trigger] call_ensures(ask, (), answer) && decided->Some_0@ == decision(
                crate::location::location_view(*base_location),
                SkillChoice::Ask,
                answer,
            ),
{
    let chosen = dev_skill_choice(facts, auto_accept);
    if chosen == SkillChoice::Leave || crate::location::is_on_disk(base_location) {
        Some(dev_skill_install_if_wanted(base_location, facts, auto_accept, ask))
    } else {
        None
    }
}

/// A skill that is there, in the project or in the home directory, is left alone: nothing is
/// asked, nothing installed and nothing kept, whatever else holds.
pub proof fn law_installed_skill_is_left_alone(
    base: LocationView,
    facts: SkillFacts,
    auto_accept: bool,
    answer: Option<bool>,
)
    requires
        facts.in_base || facts.in_home,
    ensures
        choice(facts, auto_accept) is Leave,
        decision(base, choice(facts, auto_accept), answer) == (DecisionView {
            command: None,
            marker: None,
        }),
{
}

/// Where everything was accepted in advance nothing is asked. Unless the skill is there, it is
/// then installed if and only if no no was kept.
pub proof fn law_acceptance_in_advance_never_asks(facts: SkillFacts)
    ensures
        choice(facts, true) !is Ask,
        !facts.in_base && !facts.in_home ==> (choice(facts, true) is Install <==> !facts.declined),
{
}

/// A no that was kept is final: it comes before a yes that was kept, and before the acceptance in
/// advance.
pub proof fn law_kept_no_is_final(facts: SkillFacts, auto_accept: bool)
    requires
        facts.declined,
    ensures
        kept_answer(facts) == Some(false),
        choice(facts, auto_accept) is Leave,
{
}

/// An answer is remembered: once the marker that a decision asks for exists, the same project and
/// any other one without the skill get the same answer without being asked again.
pub proof fn law_answer_is_remembered(
    place: LocationView,
    base: Set<Seq<char>>,
    home: Set<Seq<char>>,
    answer: bool,
    later_base: Set<Seq<char>>,
    later_auto_accept: bool,
)
    requires
        choice(facts_of(base, home), false) is Ask,
        !later_base.contains(DEV_SKILL_DIR@),
    ensures
        ({
            let decided = decision(place, SkillChoice::Ask, Some(answer));
            let later_home = home.insert(decided.marker->Some_0);
            let later = choice(facts_of(later_base, later_home), later_auto_accept);
            &&& decided.marker is Some
            &&& decided.command is Some <==> answer
            &&& kept_answer(facts_of(later_base, later_home)) == Some(answer)
            &&& later is Install <==> answer
            &&& later !is Ask
        }),
{
    lemma_paths_differ();
}

/// A question that could not be shown is no answer: nothing is installed, nothing is kept, and the
/// next time it is asked again.
pub proof fn law_unshown_question_is_no_answer(
    place: LocationView,
    base: Set<Seq<char>>,
    home: Set<Seq<char>>,
)
    requires
        choice(facts_of(base, home), false) is Ask,
    ensures
        decision(place, SkillChoice::Ask, None) == (DecisionView { command: None, marker: None }),
        kept_answer(facts_of(base, home)) is None,
{
}

/// The directory of the skill and the two markers are three different paths.
proof fn lemma_paths_differ()
    ensures
        DEV_SKILL_DIR@ != DEV_SKILL_DECLINED_MARKER@,
        DEV_SKILL_DIR@ != DEV_SKILL_ACCEPTED_MARKER@,
        DEV_SKILL_DECLINED_MARKER@ != DEV_SKILL_ACCEPTED_MARKER@,
{
    reveal_strlit(".agents/skills/solana-dev");
    reveal_strlit(".config/surfpool/dev-skill-declined");
    reveal_strlit(".config/surfpool/dev-skill-accepted");
    assert(DEV_SKILL_DIR@[1] == 'a');
    assert(DEV_SKILL_DECLINED_MARKER@[1] == 'c');
    assert(DEV_SKILL_ACCEPTED_MARKER@[1] == 'c');
    assert(DEV_SKILL_DECLINED_MARKER@[27] == 'd');
    assert(DEV_SKILL_ACCEPTED_MARKER@[27] == 'a');
}

/// The installation runs in the very directory of the project: the directory of the command has the
/// text and the components of that location, wherever it is and wherever this process runs.
pub proof fn law_installation_runs_in_the_project(base: LocationView)
    ensures
        install_command(base).current_dir == base,
        install_command(base).current_dir.text == base.text,
        install_command(base).current_dir.components == base.components,
        install_command(base).current_dir.on_disk == base.on_disk,
{
}

/// Two projects have the same command only if they are at the same location.
pub proof fn law_each_project_has_its_own_command(base: LocationView, other: LocationView)
    requires
        install_command(base) == install_command(other),
    ensures
        base == other,
{
    law_installation_runs_in_the_project(base);
    law_installation_runs_in_the_project(other);
}

/// The same command is run in every project: `npx` with a fixed installer, the repository of the
/// skill, all that it holds, and one named agent, asking nothing.
pub proof fn law_installation_is_one_fixed_command(base: LocationView)
    ensures
        ({
            let command = install_command(base);
            &&& command.program == "npx"@
            &&& command.args.len() == 9
            &&& command.args[0] == "-y"@
            &&& command.args[1] == "skills@1.5.23"@
            &&& command.args[2] == "add"@
            &&& command.args[3] == "https://github.com/solana-foundation/solana-dev-skill"@
            &&& command.args[4] == "--skill"@
            &&& command.args[5] == "*"@
            &&& command.args[6] == "--agent"@
            &&& command.args[7] == "universal"@
            &&& command.args[8] == "-y"@
        }),
{
}

/// What is chosen follows from what is on disk and the acceptance in advance. All is left as it is
/// where the skill is there or a no was kept. Otherwise it is installed after a yes, kept or given
/// in advance, and asked for only without one.
pub proof fn law_choice_follows_from_the_facts(facts: SkillFacts, auto_accept: bool)
    ensures
        choice(facts, auto_accept) is Leave <==> facts.in_base || facts.in_home || facts.declined,
        choice(facts, auto_accept) is Install <==> {
            &&& !facts.in_base && !facts.in_home && !facts.declined
            &&& facts.accepted || auto_accept
        },
        choice(facts, auto_accept) is Ask <==> {
            &&& !facts.in_base && !facts.in_home && !facts.declined
            &&& !facts.accepted && !auto_accept
        },
        kept_answer(facts) == Some(false) <==> facts.declined,
        kept_answer(facts) == Some(true) <==> facts.accepted && !facts.declined,
        kept_answer(facts) is None <==> !facts.accepted && !facts.declined,
{
}

/// A command is to be run exactly after the choice to install or a yes, and then it is the
/// installation in that project. An answer is kept exactly if one was asked for and given: a yes in
/// one file, a no in the other.
pub proof fn law_decision_follows_from_the_answer(
    base: LocationView,
    chosen: SkillChoice,
    answer: Option<bool>,
)
    ensures
        ({
            let decided = decision(base, chosen, answer);
            let asked = chosen == SkillChoice::Ask;
            &&& decided.command is Some <==> chosen == SkillChoice::Install || asked && answer
                == Some(true)
            &&& decided.command is Some ==> {
                &&& decided.command->Some_0.program == "npx"@
                &&& decided.command->Some_0.current_dir == base
                &&& decided.command->Some_0.args == install_command(base).args
            }
            &&& decided.marker is Some <==> asked && answer is Some
            &&& asked && answer == Some(true) ==> decided.marker == Some(
                ".config/surfpool/dev-skill-accepted"@,
            )
            &&& asked && answer == Some(false) ==> decided.marker == Some(
                ".config/surfpool/dev-skill-declined"@,
            )
        }),
{
}

/// The question says where the skill would be written.
pub proof fn law_question_says_what_is_written()
    ensures
        prompt() == "Install the solana-dev skill? It writes "@ + ".agents/skills/solana-dev"@
            + " and skills-lock.json here"@,
        !DEV_SKILL_DEFAULT,
{
}

} // verus!
