//! What holds of a project that is scaffolded again.

use crate::layout::{ActionView, EventView, LocationsView, Network, NoticeView};
use crate::layout::{ScaffoldView, Stage, TurnView};
use crate::location::LocationView;
use vstd::prelude::*;

verus! {

/// The action that a scaffold waits for after it was told events.
pub open spec fn pending(scaffold: ScaffoldView, events: Seq<EventView>) -> ActionView {
    if events.len() == 0 {
        ActionView::LoadManifest(scaffold.locations.manifest)
    } else {
        crate::laws::turns(scaffold, events).last().action
    }
}

/// The paths of the files and directories that a scaffold has found or created.
pub open spec fn left_there(scaffold: ScaffoldView, events: Seq<EventView>) -> Set<Seq<Seq<char>>>
    decreases events.len(),
{
    if events.len() == 0 {
        Set::empty()
    } else {
        let before = left_there(scaffold, events.drop_last());
        match (pending(scaffold, events.drop_last()), events.last()) {
            (ActionView::CheckExists(location), EventView::Exists(true)) => before.insert(
                location.components,
            ),
            (ActionView::CreateFile(location), EventView::Done) => before.insert(
                location.components,
            ),
            (ActionView::CreateDirectory(location), EventView::Done) => before.insert(
                location.components,
            ),
            _ => before,
        }
    }
}

/// Whether a scaffold finds everything whose path is `there` wherever it looks for it.
pub open spec fn finds(
    scaffold: ScaffoldView,
    events: Seq<EventView>,
    there: Set<Seq<Seq<char>>>,
) -> bool {
    forall|i: int|
        0 <= i < events.len() ==> match pending(scaffold, #[trigger] events.take(i)) {
            ActionView::CheckExists(location) => there.contains(location.components) ==> events[i]
                == EventView::Exists(true),
            _ => true,
        }
}

/// Whether nothing goes wrong in a step of a scaffold: the action did not fail, the manifest
/// renders where it is to be written, and one that was read is known to be from where it was read.
pub open spec fn goes_well(scaffold: ScaffoldView, event: EventView) -> bool {
    &&& event !is Failed
    &&& scaffold.stage == Stage::OpeningManifest ==> {
        &&& scaffold.manifest_rendering() is Ok
        &&& scaffold.manifest_rendering()->Ok_0 is Ok
    }
    &&& match event {
        EventView::ManifestLoaded(Some(manifest)) => manifest.location == Some(
            scaffold.locations.manifest,
        ),
        _ => true,
    }
}

/// Whether nothing goes wrong in a scaffold.
pub open spec fn succeeds(scaffold: ScaffoldView, events: Seq<EventView>) -> bool {
    forall|i: int|
        0 <= i < events.len() ==> goes_well(
            crate::laws::after(scaffold, #[trigger] events.take(i)),
            events[i],
        )
}

/// Whether a turn creates and writes no file but the one at the path `manifest`, creates no directory, and neither
/// offers nor starts the installation of the skill.
pub open spec fn leaves_files_alone(turn: TurnView, manifest: Seq<Seq<char>>) -> bool {
    &&& match turn.action {
        ActionView::CreateFile(location) => location.components == manifest,
        ActionView::WriteFile(location, _) => location.components == manifest,
        ActionView::CreateDirectory(_) => false,
        ActionView::OfferSkill(_, _) => false,
        _ => true,
    }
    &&& !turn.notices.contains(NoticeView::InstallerStarted)
}

/// The action of a scaffold that looks for, or creates, a file or directory below the manifest.
spec fn awaited(scaffold: ScaffoldView) -> Option<ActionView> {
    let locations = scaffold.locations;
    match scaffold.stage {
        Stage::CheckingRunbooks => Some(ActionView::CheckExists(locations.runbooks)),
        Stage::CreatingRunbooks => Some(ActionView::CreateDirectory(locations.runbooks)),
        Stage::CheckingReadme => Some(ActionView::CheckExists(locations.readme)),
        Stage::CreatingReadme => Some(ActionView::CreateFile(locations.readme)),
        Stage::CheckingDeployment => Some(ActionView::CheckExists(locations.deployment)),
        Stage::CreatingDeployment => Some(ActionView::CreateDirectory(locations.deployment)),
        Stage::CheckingMain => Some(ActionView::CheckExists(locations.main)),
        Stage::CreatingMain => Some(ActionView::CreateFile(locations.main)),
        _ => None,
    }
}

/// A scaffold that waits for such an action asked for it in its last turn. It has its locations
/// from its start.
proof fn lemma_pending_is_awaited(scaffold: ScaffoldView, events: Seq<EventView>)
    requires
        crate::laws::starting(scaffold),
        crate::laws::accepted(scaffold, events),
    ensures
        ({
            let now = crate::laws::after(scaffold, events);
            &&& now.ready()
            &&& now.locations == scaffold.locations
            &&& awaited(now) is Some ==> pending(scaffold, events) == awaited(now)->Some_0
        }),
    decreases events.len(),
{
    if events.len() > 0 {
        let before = crate::laws::after(scaffold, events.drop_last());
        lemma_pending_is_awaited(scaffold, events.drop_last());
        crate::laws::law_step_goes_further(before, events.last());
        crate::laws::law_settings_stay(before, events.last());
    }
}

/// What a scaffold at a stage has found or created by then.
spec fn reached(stage: Stage, locations: LocationsView, there: Set<Seq<Seq<char>>>) -> bool {
    let rank = crate::layout::rank(stage);
    stage != Stage::Finished ==> {
        &&& rank > crate::layout::rank(Stage::CreatingRunbooks) ==> there.contains(
            locations.runbooks.components,
        )
        &&& rank > crate::layout::rank(Stage::CreatingReadme) ==> there.contains(
            locations.readme.components,
        )
        &&& rank > crate::layout::rank(Stage::CreatingDeployment) ==> there.contains(
            locations.deployment.components,
        )
        &&& rank > crate::layout::rank(Stage::CreatingMain) ==> there.contains(
            locations.main.components,
        )
    }
}

/// A scaffold has found or created what it comes by. One that ends well has found or created both
/// directories, the README and the deployment.
proof fn lemma_scaffold_leaves_its_files(scaffold: ScaffoldView, events: Seq<EventView>)
    requires
        crate::laws::starting(scaffold),
        crate::laws::accepted(scaffold, events),
    ensures
        reached(
            crate::laws::after(scaffold, events).stage,
            scaffold.locations,
            left_there(scaffold, events),
        ),
        pending(scaffold, events) == ActionView::Finish(Ok(())) ==> {
            let there = left_there(scaffold, events);
            &&& there.contains(scaffold.locations.runbooks.components)
            &&& there.contains(scaffold.locations.readme.components)
            &&& there.contains(scaffold.locations.deployment.components)
            &&& there.contains(scaffold.locations.main.components)
        },
    decreases events.len(),
{
    if events.len() > 0 {
        let before = crate::laws::after(scaffold, events.drop_last());
        lemma_scaffold_leaves_its_files(scaffold, events.drop_last());
        lemma_pending_is_awaited(scaffold, events.drop_last());
        crate::laws::law_step_goes_further(before, events.last());
        crate::laws::law_successes_have_causes(before, events.last());
        crate::laws::law_what_is_there_is_kept(before, events.last());
    }
}

/// Whether a scaffold is on the way of one that finds everything there.
spec fn undisturbing(scaffold: ScaffoldView) -> bool {
    &&& scaffold.manifest is Some ==> scaffold.manifest->Some_0.location is None
        || scaffold.manifest->Some_0.location == Some(scaffold.locations.manifest)
    &&& awaited(scaffold) is Some ==> awaited(scaffold)->Some_0 is CheckExists
    &&& crate::layout::rank(scaffold.stage) <= crate::layout::rank(Stage::CheckingMain)
        || scaffold.stage == Stage::Finished
    &&& scaffold.stage != Stage::RenderingReadme
    &&& scaffold.stage != Stage::WritingReadme
}

/// One step of a scaffold that finds everything there.
proof fn lemma_undisturbing_step(scaffold: ScaffoldView, event: EventView)
    requires
        scaffold.ready(),
        scaffold.accepts(event),
        undisturbing(scaffold),
        goes_well(scaffold, event),
        awaited(scaffold) is Some ==> event == EventView::Exists(true),
    ensures
        undisturbing(scaffold.next(event).0),
        leaves_files_alone(scaffold.next(event).1, scaffold.locations.manifest.components),
        scaffold.next(event).0.stage == Stage::Finished ==> scaffold.next(event).1.action
            == ActionView::Finish(Ok(())),
{
}

/// A project that was scaffolded well is left alone when it is scaffolded again, whatever the
/// framework and the programs are by then: of its files only the manifest is created and written,
/// so that the README, the deployment and the signers stay as they are. No directory is created,
/// the skill is not offered, and if nothing goes wrong the scaffold ends well.
pub proof fn law_scaffolded_project_is_left_alone(
    base: Seq<Seq<char>>,
    first: ScaffoldView,
    events: Seq<EventView>,
    second: ScaffoldView,
    later: Seq<EventView>,
    i: int,
)
    requires
        crate::laws::starting(first),
        crate::laws::accepted(first, events),
        pending(first, events) == ActionView::Finish(Ok(())),
        crate::laws::starting(second),
        crate::laws::accepted(second, later),
        first.locations.stand_in(base),
        second.locations.stand_in(base),
        finds(second, later, left_there(first, events)),
        succeeds(second, later),
        0 <= i < later.len(),
    ensures
        leaves_files_alone(
            crate::laws::turns(second, later)[i],
            base.push(crate::layout::MANIFEST_FILE@),
        ),
        crate::laws::after(second, later).stage == Stage::Finished ==> pending(second, later)
            == ActionView::Finish(Ok(())),
{
    lemma_scaffold_leaves_its_files(first, events);
    lemma_second_run(second, later, left_there(first, events), i);
}

/// The second run, told apart from the first one: it finds both directories, the README and the
/// deployment there.
proof fn lemma_second_run(
    second: ScaffoldView,
    later: Seq<EventView>,
    there: Set<Seq<Seq<char>>>,
    i: int,
)
    requires
        crate::laws::starting(second),
        crate::laws::accepted(second, later),
        there.contains(second.locations.runbooks.components),
        there.contains(second.locations.readme.components),
        there.contains(second.locations.deployment.components),
        there.contains(second.locations.main.components),
        finds(second, later, there),
        succeeds(second, later),
    ensures
        undisturbing(crate::laws::after(second, later)),
        0 <= i < later.len() ==> leaves_files_alone(
            crate::laws::turns(second, later)[i],
            second.locations.manifest.components,
        ),
        later.len() > 0 && crate::laws::after(second, later).stage == Stage::Finished ==> pending(
            second,
            later,
        ) == ActionView::Finish(Ok(())),
    decreases later.len(),
{
    if later.len() > 0 {
        let before = later.drop_last();
        let last = later.len() - 1;
        assert forall|j: int| 0 <= j < before.len() implies match pending(
            second,
            #[trigger] before.take(j),
        ) {
            ActionView::CheckExists(location) => there.contains(location.components) ==> before[j]
                == EventView::Exists(true),
            _ => true,
        } by {
            assert(before.take(j) =~= later.take(j));
        }
        assert forall|j: int| 0 <= j < before.len() implies goes_well(
            crate::laws::after(second, #[trigger] before.take(j)),
            before[j],
        ) by {
            assert(before.take(j) =~= later.take(j));
        }
        lemma_second_run(second, before, there, i);
        lemma_pending_is_awaited(second, before);
        assert(later.take(last) =~= before);
        lemma_undisturbing_step(crate::laws::after(second, before), later.last());
        crate::laws::lemma_one_turn_per_event(second, before);
    }
}

/// The manifest stands apart from all that a scaffold writes below it, in any two scaffolds of one
/// project.
pub proof fn law_manifest_stands_apart(
    base: Seq<Seq<char>>,
    first: LocationsView,
    second: LocationsView,
    network: Network,
)
    requires
        first.stand_in(base),
        second.stand_in(base),
    ensures
        second.manifest.components == first.manifest.components,
        second.manifest.components != first.runbooks.components,
        second.manifest.components != first.readme.components,
        second.manifest.components != first.deployment.components,
        second.manifest.components != first.main.components,
        second.manifest.components != first.signer(network).components,
{
    reveal_strlit("txtx.yml");
    reveal_strlit("runbooks");
    assert("txtx.yml"@[0] != "runbooks"@[0]);
    assert(second.manifest.components.last() != first.runbooks.components.last());
    assert(second.manifest.components.len() != first.readme.components.len());
    assert(second.manifest.components.len() != first.main.components.len());
    assert(second.manifest.components.len() != first.signer(network).components.len());
}

} // verus!
