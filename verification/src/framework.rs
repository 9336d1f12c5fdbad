//! The program frameworks that a project can use, and the order in which they are looked for.

use txtx_core::kit::helpers::fs::FileLocation;
use vstd::prelude::*;

verus! {

/// A framework that Solana programs are written with.
#[derive(Debug, Clone, Copy, PartialEq, Eq, Structural)]
pub enum Framework {
    Anchor,
    Native,
    Steel,
    Typhoon,
    Pinocchio,
}

impl Framework {
    /// The name of the framework.
    pub open spec fn spec_name(self) -> Seq<char> {
        match self {
            Framework::Anchor => "Anchor"@,
            Framework::Native => "Native"@,
            Framework::Steel => "Steel"@,
            Framework::Typhoon => "Typhoon"@,
            Framework::Pinocchio => "Pinocchio"@,
        }
    }

    /// Returns the name of the framework.
    pub fn name(self) -> (name: &'static str)
        ensures
            name@ == self.spec_name(),
    {
        match self {
            Framework::Anchor => "Anchor",
            Framework::Native => "Native",
            Framework::Steel => "Steel",
            Framework::Typhoon => "Typhoon",
            Framework::Pinocchio => "Pinocchio",
        }
    }
}

/// A program of a project.
#[derive(Debug)]
pub struct ProgramMetadata {
    pub name: String,
    pub so_exists: bool,
}

/// What the contracts read of a program: its name, and whether its `.so` file was found.
pub struct ProgramView {
    pub name: Seq<char>,
    pub so_exists: bool,
}

impl View for ProgramMetadata {
    type V = ProgramView;

    open spec fn view(&self) -> ProgramView {
        ProgramView { name: self.name@, so_exists: self.so_exists }
    }
}

impl Clone for ProgramMetadata {
    fn clone(&self) -> (copy: Self)
        ensures
            copy@ == self@,
            copy.name@ == self.name@,
            copy.so_exists == self.so_exists,
    {
        ProgramMetadata { name: self.name.clone(), so_exists: self.so_exists }
    }
}

impl ProgramMetadata {
    /// A program of the given name.
    pub fn new(name: &str, so_exists: bool) -> (program: Self)
        ensures
            program@ == (ProgramView { name: name@, so_exists }),
            program.name@ == name@,
            program.so_exists == so_exists,
    {
        ProgramMetadata { name: name.to_string(), so_exists }
    }
}

/// The views of a sequence of programs.
pub open spec fn program_views(programs: Seq<ProgramMetadata>) -> Seq<ProgramView> {
    programs.map_values(|program: ProgramMetadata| program@)
}

/// Copies a list of programs.
pub fn copy_programs(programs: &[ProgramMetadata]) -> (copy: Vec<ProgramMetadata>)
    ensures
        program_views(copy@) == program_views(programs@),
        copy.len() == programs.len(),
        forall|i: int|
            0 <= i < copy.len() ==> (#[trigger] copy@[i]).name@ == programs@[i].name@ && copy@[i].so_exists
                == programs@[i].so_exists,
{
    let mut copy: Vec<ProgramMetadata> = Vec::new();
    let mut i: usize = 0;
    while i < programs.len()
        invariant
            i <= programs.len(),
            program_views(copy@) == program_views(programs@).take(i as int),
            copy.len() == i,
            forall|j: int|
                0 <= j < i ==> (#[trigger] copy@[j]).name@ == programs@[j].name@ && copy@[j].so_exists
                    == programs@[j].so_exists,
        decreases programs.len() - i,
    {
        let ghost before = program_views(copy@);
        copy.push(programs[i].clone());
        i = i + 1;
        proof {
            assert(program_views(copy@) == before.push(programs@[i - 1]@));
            assert(program_views(programs@).take(i as int) == program_views(programs@).take(
                i - 1,
            ).push(programs@[i - 1]@));
        }
    }
    proof {
        assert(program_views(programs@).take(i as int) == program_views(programs@));
    }
    copy
}

/// What was found of a project: its framework and programs, and the accounts that its
/// configuration wants in a test network. The types of the three kinds of accounts (those of
/// the genesis block, single ones, and directories of them) are left to the caller.
pub struct ProgramFrameworkData<G, A, D> {
    pub framework: Framework,
    pub programs: Vec<ProgramMetadata>,
    pub genesis_accounts: Option<Vec<G>>,
    pub accounts: Option<Vec<A>>,
    pub accounts_dir: Option<Vec<D>>,
    pub clones: Option<Vec<String>>,
}

impl<G, A, D> ProgramFrameworkData<G, A, D> {
    /// A project with everything that its configuration says.
    pub fn new(
        framework: Framework,
        programs: Vec<ProgramMetadata>,
        genesis_accounts: Option<Vec<G>>,
        accounts: Option<Vec<A>>,
        accounts_dir: Option<Vec<D>>,
        clones: Option<Vec<String>>,
    ) -> (data: Self)
        ensures
            data.framework == framework,
            data.programs == programs,
            data.genesis_accounts == genesis_accounts,
            data.accounts == accounts,
            data.accounts_dir == accounts_dir,
            data.clones == clones,
    {
        ProgramFrameworkData {
            framework,
            programs,
            genesis_accounts,
            accounts,
            accounts_dir,
            clones,
        }
    }

    /// The project with the given framework and programs, and nothing else known of it.
    pub open spec fn spec_partial(framework: Framework, programs: Vec<ProgramMetadata>) -> Self {
        ProgramFrameworkData {
            framework,
            programs,
            genesis_accounts: None,
            accounts: None,
            accounts_dir: None,
            clones: None,
        }
    }

    /// A project of which only the framework and the programs are known.
    pub fn partial(framework: Framework, programs: Vec<ProgramMetadata>) -> (data: Self)
        ensures
            data == Self::spec_partial(framework, programs),
            data.framework == framework,
            data.programs == programs,
            data.genesis_accounts is None,
            data.accounts is None,
            data.accounts_dir is None,
            data.clones is None,
    {
        ProgramFrameworkData {
            framework,
            programs,
            genesis_accounts: None,
            accounts: None,
            accounts_dir: None,
            clones: None,
        }
    }
}

/// What the search for the layout of one framework came to.
pub enum ProbeOutcome<G, A, D> {
    /// The project is not laid out that way.
    Nothing,
    /// The project is, and its configuration was read.
    Project(ProgramFrameworkData<G, A, D>),
    /// The project is, and its programs are known.
    Programs(Framework, Vec<ProgramMetadata>),
    /// The project is, and something in it is wrong.
    Invalid(String),
}

/// The search for the framework of the project in a directory.
pub struct Detection {
    /// The directory of the project.
    pub base_dir: FileLocation,
    /// The framework to look for next.
    pub framework: Framework,
}

/// What a search does next.
pub enum DetectionStep<G, A, D> {
    /// Look for one more framework.
    Probe(Detection),
    /// Nothing: this is the result.
    Done(Result<Option<ProgramFrameworkData<G, A, D>>, String>),
}

/// What one probe means for the search.
pub enum Verdict<G, A, D> {
    Next(Framework),
    Exhausted,
    Found(ProgramFrameworkData<G, A, D>),
    Rejected(Seq<char>),
}

/// The order in which frameworks are looked for. Poseidon projects generate the files of an
/// Anchor project, and are found as such.
pub open spec fn probe_order() -> Seq<Framework> {
    seq![
        Framework::Anchor,
        Framework::Steel,
        Framework::Typhoon,
        Framework::Pinocchio,
        Framework::Native,
    ]
}

/// The framework that is looked for after `framework`.
pub open spec fn following(framework: Framework) -> Option<Framework> {
    match framework {
        Framework::Anchor => Some(Framework::Steel),
        Framework::Steel => Some(Framework::Typhoon),
        Framework::Typhoon => Some(Framework::Pinocchio),
        Framework::Pinocchio => Some(Framework::Native),
        Framework::Native => None,
    }
}

/// What the outcome of the probe for `framework` means for the search.
pub open spec fn conclusion<G, A, D>(
    framework: Framework,
    outcome: ProbeOutcome<G, A, D>,
) -> Verdict<G, A, D> {
    match outcome {
        ProbeOutcome::Nothing => match following(framework) {
            Some(next) => Verdict::Next(next),
            None => Verdict::Exhausted,
        },
        ProbeOutcome::Project(data) => Verdict::Found(data),
        ProbeOutcome::Programs(found, programs) => Verdict::Found(
            ProgramFrameworkData::spec_partial(found, programs),
        ),
        ProbeOutcome::Invalid(e) => Verdict::Rejected(
            "Invalid "@ + framework.spec_name() + " project: "@ + e@,
        ),
    }
}

impl<G, A, D> DetectionStep<G, A, D> {
    /// Whether this step carries a verdict out, in the directory at `base_dir`.
    pub open spec fn follows(self, base_dir: FileLocation, verdict: Verdict<G, A, D>) -> bool {
        match verdict {
            Verdict::Next(framework) => self == DetectionStep::<G, A, D>::Probe(
                Detection { base_dir, framework },
            ),
            Verdict::Exhausted => self == DetectionStep::<G, A, D>::Done(Ok(None)),
            Verdict::Found(data) => self == DetectionStep::<G, A, D>::Done(Ok(Some(data))),
            Verdict::Rejected(message) => {
                &&& self matches DetectionStep::Done(Err(e))
                &&& e@ == message
            },
        }
    }
}

/// Starts the search for the framework of the project whose manifest is at `manifest_path`: in
/// the directory of the manifest, with the first framework of the order. A manifest is refused
/// exactly where nothing is above it.
pub fn detect_program_frameworks(manifest_path: &str) -> (r: Result<Detection, String>)
    ensures
        exists|manifest: FileLocation|
            {
                &&& #[trigger] crate::location::location_text(manifest) == manifest_path@
                &&& crate::location::location_on_disk(manifest)
                &&& crate::location::path_components(
                    manifest_path@,
                    crate::location::location_components(manifest),
                )
                &&& r is Ok <==> crate::location::location_has_parent(manifest)
                &&& match r {
                    Ok(detection) => {
                        &&& detection.framework == probe_order()[0]
                        &&& detection.framework == Framework::Anchor
                        &&& crate::location::parent_of(detection.base_dir, manifest)
                    },
                    Err(e) => {
                        &&& e@ == "reached root"@
                        &&& crate::location::no_parent_of(manifest)
                    },
                }
            },
{
    let manifest = match FileLocation::from_path_string(manifest_path) {
        Ok(manifest) => manifest,
        Err(e) => {
            return Err(e);
        },
    };
    let r = match manifest.get_parent_location() {
        Ok(base_dir) => Ok(Detection { base_dir, framework: Framework::Anchor }),
        Err(e) => Err(e),
    };
    proof {
        assert(crate::location::location_text(manifest) == manifest_path@);
    }
    r
}

impl Detection {
    /// Takes the outcome of the probe for `self.framework`, and says how the search goes on.
    pub fn step<G, A, D>(self, outcome: ProbeOutcome<G, A, D>) -> (step: DetectionStep<G, A, D>)
        ensures
            step.follows(self.base_dir, conclusion(self.framework, outcome)),
            outcome matches ProbeOutcome::Programs(framework, programs) ==> {
                &&& step matches DetectionStep::Done(Ok(Some(data)))
                &&& data.framework == framework
                &&& data.programs == programs
                &&& data.genesis_accounts is None
                &&& data.accounts is None
                &&& data.accounts_dir is None
                &&& data.clones is None
            },
            outcome matches ProbeOutcome::Project(found) ==> {
                &&& step matches DetectionStep::Done(Ok(Some(data)))
                &&& data == found
            },
            outcome is Invalid ==> step matches DetectionStep::Done(Err(_)),
            outcome is Nothing && self.framework == Framework::Native ==> step matches
                DetectionStep::Done(Ok(None)),
            outcome is Nothing && self.framework != Framework::Native ==> {
                &&& step matches DetectionStep::Probe(next)
                &&& next.base_dir == self.base_dir
            },
    {
        match outcome {
            ProbeOutcome::Nothing => {
                let framework = match self.framework {
                    Framework::Anchor => Framework::Steel,
                    Framework::Steel => Framework::Typhoon,
                    Framework::Typhoon => Framework::Pinocchio,
                    Framework::Pinocchio => Framework::Native,
                    Framework::Native => {
                        return DetectionStep::Done(Ok(None));
                    },
                };
                DetectionStep::Probe(Detection { base_dir: self.base_dir, framework })
            },
            ProbeOutcome::Project(data) => DetectionStep::Done(Ok(Some(data))),
            ProbeOutcome::Programs(framework, programs) => DetectionStep::Done(
                Ok(Some(ProgramFrameworkData::partial(framework, programs))),
            ),
            ProbeOutcome::Invalid(e) => {
                let mut message = "Invalid ".to_string();
                message.append(self.framework.name());
                message.append(" project: ");
                message.append(e.as_str());
                DetectionStep::Done(Err(message))
            },
        }
    }
}

/// How the search ends from `framework` on, where `outcomes` gives what each probe would find.
pub open spec fn search<G, A, D>(
    framework: Framework,
    outcomes: spec_fn(Framework) -> ProbeOutcome<G, A, D>,
) -> Verdict<G, A, D>
    decreases probes_left(framework),
{
    match conclusion(framework, outcomes(framework)) {
        Verdict::Next(next) => search(next, outcomes),
        verdict => verdict,
    }
}

/// How many frameworks come after `framework` in the order.
pub open spec fn probes_left(framework: Framework) -> nat {
    match framework {
        Framework::Anchor => 4,
        Framework::Steel => 3,
        Framework::Typhoon => 2,
        Framework::Pinocchio => 1,
        Framework::Native => 0,
    }
}

/// Every framework is looked for exactly once, in the order of `probe_order`.
pub proof fn law_every_framework_is_probed_in_order()
    ensures
        probe_order().no_duplicates(),
        forall|framework: Framework| #[trigger] probe_order().contains(framework),
        forall|i: int|
            0 <= i < probe_order().len() - 1 ==> following(#[trigger] probe_order()[i]) == Some(
                probe_order()[i + 1],
            ),
        following(probe_order().last()) is None,
{
    let order = probe_order();
    assert forall|framework: Framework| #[trigger] order.contains(framework) by {
        match framework {
            Framework::Anchor => assert(order[0] == framework),
            Framework::Steel => assert(order[1] == framework),
            Framework::Typhoon => assert(order[2] == framework),
            Framework::Pinocchio => assert(order[3] == framework),
            Framework::Native => assert(order[4] == framework),
        }
    }
}

/// The first framework of the order whose probe finds anything decides the search, be it a
/// project or an error; what later probes would find plays no part.
pub proof fn law_first_answer_decides<G, A, D>(
    outcomes: spec_fn(Framework) -> ProbeOutcome<G, A, D>,
    k: int,
)
    requires
        0 <= k < probe_order().len(),
        forall|i: int| 0 <= i < k ==> outcomes(#[trigger] probe_order()[i]) is Nothing,
        outcomes(probe_order()[k]) !is Nothing,
    ensures
        search(probe_order()[0], outcomes) == conclusion(
            probe_order()[k],
            outcomes(probe_order()[k]),
        ),
{
    reveal_with_fuel(search, 6);
    let order = probe_order();
    assert(forall|i: int| 0 <= i < k ==> outcomes(#[trigger] order[i]) is Nothing);
    assert(k > 0 ==> outcomes(order[0]) is Nothing);
    assert(k > 1 ==> outcomes(order[1]) is Nothing);
    assert(k > 2 ==> outcomes(order[2]) is Nothing);
    assert(k > 3 ==> outcomes(order[3]) is Nothing);
}

/// Where no probe finds anything, the search ends without a project and without an error.
pub proof fn law_no_answer_finds_nothing<G, A, D>(
    outcomes: spec_fn(Framework) -> ProbeOutcome<G, A, D>,
)
    requires
        forall|framework: Framework| #[trigger] outcomes(framework) is Nothing,
    ensures
        search(probe_order()[0], outcomes) is Exhausted,
{
    reveal_with_fuel(search, 6);
}

/// A probe that finds programs ends the search with a project of exactly the framework and the
/// programs that were found, whatever these are and whichever probe it was. Nothing else is known
/// of the project.
pub proof fn law_found_programs_are_the_result<G, A, D>(
    detection: Detection,
    framework: Framework,
    programs: Vec<ProgramMetadata>,
    step: DetectionStep<G, A, D>,
)
    requires
        step.follows(
            detection.base_dir,
            conclusion(
                detection.framework,
                ProbeOutcome::<G, A, D>::Programs(framework, programs),
            ),
        ),
    ensures
        step is Done,
        step->Done_0 is Ok,
        step->Done_0->Ok_0 is Some,
        step->Done_0->Ok_0->Some_0.framework == framework,
        step->Done_0->Ok_0->Some_0.programs == programs,
        step->Done_0->Ok_0->Some_0.genesis_accounts is None,
        step->Done_0->Ok_0->Some_0.accounts is None,
        step->Done_0->Ok_0->Some_0.accounts_dir is None,
        step->Done_0->Ok_0->Some_0.clones is None,
{
}

/// A probe that reads a project ends the search with that project, field by field as it was read.
pub proof fn law_found_project_is_the_result<G, A, D>(
    detection: Detection,
    found: ProgramFrameworkData<G, A, D>,
    step: DetectionStep<G, A, D>,
)
    requires
        step.follows(
            detection.base_dir,
            conclusion(detection.framework, ProbeOutcome::Project(found)),
        ),
    ensures
        step is Done,
        step->Done_0 is Ok,
        step->Done_0->Ok_0 is Some,
        step->Done_0->Ok_0->Some_0.framework == found.framework,
        step->Done_0->Ok_0->Some_0.programs == found.programs,
        step->Done_0->Ok_0->Some_0.genesis_accounts == found.genesis_accounts,
        step->Done_0->Ok_0->Some_0.accounts == found.accounts,
        step->Done_0->Ok_0->Some_0.accounts_dir == found.accounts_dir,
        step->Done_0->Ok_0->Some_0.clones == found.clones,
{
}

/// A probe that finds something wrong ends the search with an error, which names the framework that
/// was looked for and ends with what is wrong.
pub proof fn law_invalid_project_is_an_error<G, A, D>(
    detection: Detection,
    e: String,
    step: DetectionStep<G, A, D>,
)
    requires
        step.follows(
            detection.base_dir,
            conclusion(detection.framework, ProbeOutcome::<G, A, D>::Invalid(e)),
        ),
    ensures
        step is Done,
        step->Done_0 is Err,
        detection.framework == Framework::Anchor ==> step->Done_0->Err_0@
            == "Invalid Anchor project: "@ + e@,
        detection.framework == Framework::Steel ==> step->Done_0->Err_0@
            == "Invalid Steel project: "@ + e@,
        detection.framework == Framework::Typhoon ==> step->Done_0->Err_0@
            == "Invalid Typhoon project: "@ + e@,
        detection.framework == Framework::Pinocchio ==> step->Done_0->Err_0@
            == "Invalid Pinocchio project: "@ + e@,
        detection.framework == Framework::Native ==> step->Done_0->Err_0@
            == "Invalid Native project: "@ + e@,
{
    reveal_strlit("Invalid ");
    reveal_strlit(" project: ");
    reveal_strlit("Anchor");
    reveal_strlit("Steel");
    reveal_strlit("Typhoon");
    reveal_strlit("Pinocchio");
    reveal_strlit("Native");
    reveal_strlit("Invalid Anchor project: ");
    reveal_strlit("Invalid Steel project: ");
    reveal_strlit("Invalid Typhoon project: ");
    reveal_strlit("Invalid Pinocchio project: ");
    reveal_strlit("Invalid Native project: ");
    let message = "Invalid "@ + detection.framework.spec_name() + " project: "@ + e@;
    match detection.framework {
        Framework::Anchor => assert(message =~= "Invalid Anchor project: "@ + e@),
        Framework::Steel => assert(message =~= "Invalid Steel project: "@ + e@),
        Framework::Typhoon => assert(message =~= "Invalid Typhoon project: "@ + e@),
        Framework::Pinocchio => assert(message =~= "Invalid Pinocchio project: "@ + e@),
        Framework::Native => assert(message =~= "Invalid Native project: "@ + e@),
    }
}

/// A probe that finds nothing leads to the next framework, in the same directory: after Anchor
/// Steel, then Typhoon, Pinocchio and Native, and after that nothing is left to be found.
pub proof fn law_next_framework_is_looked_for_in_the_same_place<G, A, D>(
    detection: Detection,
    step: DetectionStep<G, A, D>,
)
    requires
        step.follows(
            detection.base_dir,
            conclusion(detection.framework, ProbeOutcome::<G, A, D>::Nothing),
        ),
    ensures
        step is Probe <==> detection.framework != Framework::Native,
        step is Probe ==> step->Probe_0.base_dir == detection.base_dir,
        detection.framework == Framework::Anchor ==> step->Probe_0.framework == Framework::Steel,
        detection.framework == Framework::Steel ==> step->Probe_0.framework == Framework::Typhoon,
        detection.framework == Framework::Typhoon ==> step->Probe_0.framework
            == Framework::Pinocchio,
        detection.framework == Framework::Pinocchio ==> step->Probe_0.framework
            == Framework::Native,
        step is Done ==> step->Done_0 is Ok && step->Done_0->Ok_0 is None,
{
}

/// A search is decided by what the probes find. If that is programs, the result holds the framework
/// and the programs of the first probe that found anything; if it is nothing at all, there is no
/// result.
pub proof fn law_search_ends_with_what_was_found<G, A, D>(
    outcomes: spec_fn(Framework) -> ProbeOutcome<G, A, D>,
)
    ensures
        ({
            let found = search(Framework::Anchor, outcomes);
            let first = if outcomes(Framework::Anchor) !is Nothing {
                Framework::Anchor
            } else if outcomes(Framework::Steel) !is Nothing {
                Framework::Steel
            } else if outcomes(Framework::Typhoon) !is Nothing {
                Framework::Typhoon
            } else if outcomes(Framework::Pinocchio) !is Nothing {
                Framework::Pinocchio
            } else {
                Framework::Native
            };
            match outcomes(first) {
                ProbeOutcome::Nothing => found is Exhausted,
                ProbeOutcome::Programs(framework, programs) => {
                    &&& found is Found
                    &&& found->Found_0.framework == framework
                    &&& found->Found_0.programs == programs
                    &&& found->Found_0.genesis_accounts is None
                    &&& found->Found_0.accounts is None
                    &&& found->Found_0.accounts_dir is None
                    &&& found->Found_0.clones is None
                },
                ProbeOutcome::Project(data) => found is Found && found->Found_0 == data,
                ProbeOutcome::Invalid(e) => {
                    &&& found is Rejected
                    &&& e@.is_suffix_of(found->Rejected_0)
                },
            }
        }),
{
    reveal_with_fuel(search, 6);
    let found = search(Framework::Anchor, outcomes);
    if found is Rejected {
        lemma_error_ends_with_its_cause(outcomes, Framework::Anchor);
        lemma_error_ends_with_its_cause(outcomes, Framework::Steel);
        lemma_error_ends_with_its_cause(outcomes, Framework::Typhoon);
        lemma_error_ends_with_its_cause(outcomes, Framework::Pinocchio);
        lemma_error_ends_with_its_cause(outcomes, Framework::Native);
    }
}

/// The error about an invalid project ends with what is wrong with it.
proof fn lemma_error_ends_with_its_cause<G, A, D>(
    outcomes: spec_fn(Framework) -> ProbeOutcome<G, A, D>,
    framework: Framework,
)
    ensures
        outcomes(framework) matches ProbeOutcome::Invalid(e) ==> e@.is_suffix_of(
            conclusion(framework, outcomes(framework))->Rejected_0,
        ),
{
    if let ProbeOutcome::Invalid(e) = outcomes(framework) {
        let before = "Invalid "@ + framework.spec_name() + " project: "@;
        let message = before + e@;
        assert(message.subrange(before.len() as int, message.len() as int) =~= e@);
    }
}

/// The name of each framework is its own.
pub proof fn law_frameworks_have_their_names(framework: Framework, other: Framework)
    ensures
        framework.spec_name() == other.spec_name() ==> framework == other,
        Framework::Anchor.spec_name() == "Anchor"@,
        Framework::Native.spec_name() == "Native"@,
        Framework::Steel.spec_name() == "Steel"@,
        Framework::Typhoon.spec_name() == "Typhoon"@,
        Framework::Pinocchio.spec_name() == "Pinocchio"@,
{
    reveal_strlit("Anchor");
    reveal_strlit("Steel");
    reveal_strlit("Typhoon");
    reveal_strlit("Pinocchio");
    reveal_strlit("Native");
    assert("Anchor"@[0] == 'A');
    assert("Steel"@[0] == 'S');
    assert("Typhoon"@[0] == 'T');
    assert("Pinocchio"@[0] == 'P');
    assert("Native"@[0] == 'N');
}

} // verus!
