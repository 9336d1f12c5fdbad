//! What holds of every scaffold on disk, from its start to its end.

use crate::framework::ProgramView;
use crate::layout::{ActionView, EventView, Network, ScaffoldView, Stage, TurnView};
use crate::location::LocationView;
use crate::manifest::ManifestView;
use vstd::prelude::*;

verus! {

/// Whether a scaffold is where every scaffold starts.
pub open spec fn starting(scaffold: ScaffoldView) -> bool {
    &&& scaffold.stage == Stage::LoadingManifest
    &&& scaffold.manifest is None
    &&& scaffold.sources is None
}

/// What becomes of a scaffold that is told events one after the other.
pub open spec fn after(scaffold: ScaffoldView, events: Seq<EventView>) -> ScaffoldView
    decreases events.len(),
{
    if events.len() == 0 {
        scaffold
    } else {
        after(scaffold, events.drop_last()).next(events.last()).0
    }
}

/// The turns that a scaffold takes on these events.
pub open spec fn turns(scaffold: ScaffoldView, events: Seq<EventView>) -> Seq<TurnView>
    decreases events.len(),
{
    if events.len() == 0 {
        Seq::empty()
    } else {
        turns(scaffold, events.drop_last()).push(
            after(scaffold, events.drop_last()).next(events.last()).1,
        )
    }
}

/// Whether each of these events can be what came of the action before it.
pub open spec fn accepted(scaffold: ScaffoldView, events: Seq<EventView>) -> bool
    decreases events.len(),
{
    events.len() == 0 || {
        &&& accepted(scaffold, events.drop_last())
        &&& after(scaffold, events.drop_last()).accepts(events.last())
    }
}

/// The files that a sequence of turns writes, with what is written to each.
pub open spec fn writes(taken: Seq<TurnView>) -> Seq<(LocationView, Seq<char>)>
    decreases taken.len(),
{
    if taken.len() == 0 {
        Seq::empty()
    } else {
        match taken.last().action {
            ActionView::WriteFile(location, text) => writes(taken.drop_last()).push(
                (location, text),
            ),
            _ => writes(taken.drop_last()),
        }
    }
}

/// Whether an action asks the user something.
pub open spec fn asks(action: ActionView) -> bool {
    action is SelectPrograms || action is AskName || action is Confirm
}

/// Each step takes a scaffold further, and leaves it with what it needs there.
pub proof fn law_step_goes_further(scaffold: ScaffoldView, event: EventView)
    requires
        scaffold.ready(),
        scaffold.accepts(event),
    ensures
        crate::layout::rank(scaffold.next(event).0.stage) > crate::layout::rank(scaffold.stage),
        scaffold.next(event).0.ready(),
{
}

/// A scaffold ends: no run takes more steps than there are stages ahead of it.
pub proof fn law_scaffold_ends(scaffold: ScaffoldView, events: Seq<EventView>)
    requires
        scaffold.ready(),
        accepted(scaffold, events),
    ensures
        crate::layout::rank(scaffold.stage) + events.len() <= crate::layout::rank(
            after(scaffold, events).stage,
        ) <= crate::layout::rank(Stage::Finished),
        after(scaffold, events).ready(),
    decreases events.len(),
{
    if events.len() > 0 {
        law_scaffold_ends(scaffold, events.drop_last());
        law_step_goes_further(after(scaffold, events.drop_last()), events.last());
    }
}

/// What a scaffold was started with stays: the project, the framework, whether to ask, the keypair, the
/// endpoint and all locations. What was rendered stays too, and so does the manifest from then on.
pub proof fn law_settings_stay(scaffold: ScaffoldView, event: EventView)
    requires
        scaffold.ready(),
        scaffold.accepts(event),
    ensures
        ({
            let next = scaffold.next(event).0;
            &&& next.base == scaffold.base
            &&& next.framework == scaffold.framework
            &&& next.auto_generate_runbooks == scaffold.auto_generate_runbooks
            &&& next.keypair_path == scaffold.keypair_path
            &&& next.rpc_api_url == scaffold.rpc_api_url
            &&& next.locations == scaffold.locations
            &&& event !is ProgramsSelected ==> next.programs == scaffold.programs
            &&& crate::layout::rank(scaffold.stage) > crate::layout::rank(
                Stage::RenderingTemplates,
            ) ==> {
                &&& next.sources == scaffold.sources
                &&& next.manifest == scaffold.manifest
            }
        }),
{
}

/// A scaffold that is not to ask anything never does, whatever it finds on its way.
pub proof fn law_automatic_scaffold_never_asks(
    scaffold: ScaffoldView,
    events: Seq<EventView>,
    i: int,
)
    requires
        starting(scaffold),
        scaffold.auto_generate_runbooks,
        accepted(scaffold, events),
        0 <= i < events.len(),
    ensures
        !asks(turns(scaffold, events)[i].action),
    decreases events.len(),
{
    lemma_automatic_scaffold_stays_so(scaffold, events.drop_last());
    lemma_one_turn_per_event(scaffold, events.drop_last());
    if i < events.len() - 1 {
        law_automatic_scaffold_never_asks(scaffold, events.drop_last(), i);
    }
}

/// There are as many turns as events.
pub proof fn lemma_one_turn_per_event(scaffold: ScaffoldView, events: Seq<EventView>)
    ensures
        turns(scaffold, events).len() == events.len(),
    decreases events.len(),
{
    if events.len() > 0 {
        lemma_one_turn_per_event(scaffold, events.drop_last());
    }
}

/// A scaffold that is not to ask anything stays so, and never waits for an answer.
proof fn lemma_automatic_scaffold_stays_so(scaffold: ScaffoldView, events: Seq<EventView>)
    requires
        starting(scaffold),
        scaffold.auto_generate_runbooks,
        accepted(scaffold, events),
    ensures
        ({
            let now = after(scaffold, events);
            &&& now.ready()
            &&& now.auto_generate_runbooks
            &&& now.stage != Stage::SelectingPrograms
            &&& now.stage != Stage::AskingName
            &&& now.stage != Stage::Confirming
        }),
    decreases events.len(),
{
    if events.len() > 0 {
        lemma_automatic_scaffold_stays_so(scaffold, events.drop_last());
        law_step_goes_further(after(scaffold, events.drop_last()), events.last());
    }
}

/// A scaffold ends with an error if and only if an action failed, or the template of the README or
/// that of the manifest was no good.
pub proof fn law_errors_have_causes(scaffold: ScaffoldView, event: EventView)
    requires
        scaffold.ready(),
        scaffold.accepts(event),
    ensures
        scaffold.next(event).1.action matches ActionView::Finish(Err(_)) <==> {
            ||| event is Failed
            ||| event is ReadmeRendered && !(event->ReadmeRendered_0 matches Ok(Ok(_)))
            ||| scaffold.stage == Stage::OpeningManifest && !(scaffold.manifest_rendering()
                matches Ok(Ok(_)))
        },
        scaffold.next(event).1.action is Finish <==> scaffold.next(event).0.stage
            == Stage::Finished,
{
}

/// A scaffold ends well if and only if the deployment is there already, or the skill was offered.
pub proof fn law_successes_have_causes(scaffold: ScaffoldView, event: EventView)
    requires
        scaffold.ready(),
        scaffold.accepts(event),
    ensures
        scaffold.next(event).1.action == ActionView::Finish(Ok(())) <==> {
            ||| scaffold.stage == Stage::CheckingMain && event == EventView::Exists(true)
            ||| event is SkillOffered
        },
{
}

/// The README and the directories are created only where they were found missing, and the source
/// of the deployment likewise. The signers come after it, so that none is written where it is
/// there.
pub proof fn law_what_is_there_is_kept(scaffold: ScaffoldView, event: EventView)
    requires
        scaffold.ready(),
        scaffold.accepts(event),
    ensures
        ({
            let stage = scaffold.next(event).0.stage;
            let missing = event == EventView::Exists(false);
            &&& stage == Stage::CreatingRunbooks ==> scaffold.stage == Stage::CheckingRunbooks
                && missing
            &&& stage == Stage::CreatingReadme ==> scaffold.stage == Stage::CheckingReadme
                && missing
            &&& stage == Stage::RenderingReadme ==> scaffold.stage == Stage::CreatingReadme
            &&& stage == Stage::WritingReadme ==> scaffold.stage == Stage::RenderingReadme
            &&& stage == Stage::CreatingDeployment ==> scaffold.stage == Stage::CheckingDeployment
                && missing
            &&& stage == Stage::CreatingMain ==> scaffold.stage == Stage::CheckingMain && missing
            &&& crate::layout::rank(Stage::CreatingMain) < crate::layout::rank(stage)
                < crate::layout::rank(Stage::Finished) ==> crate::layout::rank(Stage::CreatingMain)
                <= crate::layout::rank(scaffold.stage)
        }),
{
}

/// Where the source of the deployment is there already, the scaffold ends at that, and well. It
/// then shows nothing, asks for no confirmation and offers no skill, and of the files that hold
/// sources it writes none.
pub proof fn law_existing_deployment_ends_the_scaffold(
    scaffold: ScaffoldView,
    events: Seq<EventView>,
)
    requires
        starting(scaffold),
        accepted(scaffold, events),
        forall|i: int|
            0 <= i < events.len() && after(scaffold, #[trigger] events.take(i)).stage
                == Stage::CheckingMain ==> events[i] == EventView::Exists(true),
    ensures
        ({
            let stage = after(scaffold, events).stage;
            crate::layout::rank(stage) <= crate::layout::rank(Stage::CheckingMain) || stage
                == Stage::Finished
        }),
        events.len() > 0 && after(scaffold, events.drop_last()).stage == Stage::CheckingMain
            ==> turns(scaffold, events).last() == (TurnView {
            notices: Seq::empty(),
            action: ActionView::Finish(Ok(())),
        }),
    decreases events.len(),
{
    if events.len() > 0 {
        let before = events.drop_last();
        assert forall|i: int|
            0 <= i < before.len() && after(scaffold, #[trigger] before.take(i)).stage
                == Stage::CheckingMain implies before[i] == EventView::Exists(true) by {
            assert(before.take(i) =~= events.take(i));
        }
        law_existing_deployment_ends_the_scaffold(scaffold, before);
        law_scaffold_ends(scaffold, before);
        assert(events.take(events.len() - 1) =~= before);
    }
}

/// A location displays below the directory that it is an entry of, and below every directory that
/// this one displays below.
proof fn lemma_entry_displays_below(
    text: Seq<char>,
    parent: Seq<char>,
    name: Seq<char>,
    base: Seq<char>,
)
    requires
        crate::location::entry_text(text, parent, name),
        name.len() > 0,
        name[0] as u32 <= 127,
        base == parent || crate::location::below(base, parent),
    ensures
        crate::location::below(base, text),
{
    assert(text.take(parent.len() as int) =~= parent);
    assert(text.take(base.len() as int) =~= parent.take(base.len() as int));
    assert(parent.take(parent.len() as int) =~= parent);
}

/// The files that a scaffold writes display below its project, so that each of them has a path
/// relative to it.
pub proof fn law_written_files_display_below_the_project(
    locations: crate::layout::LocationsView,
    base: Seq<char>,
    network: Network,
)
    requires
        locations.display_in(base),
    ensures
        crate::location::below(base, locations.main.text),
        crate::location::below(base, locations.signer(network).text),
{
    reveal_strlit("runbooks");
    reveal_strlit("deployment");
    reveal_strlit("main.tx");
    reveal_strlit("signers.localnet.tx");
    reveal_strlit("signers.devnet.tx");
    reveal_strlit("signers.mainnet.tx");
    let deployment = locations.deployment.text;
    lemma_entry_displays_below(locations.runbooks.text, base, "runbooks"@, base);
    lemma_entry_displays_below(deployment, locations.runbooks.text, "deployment"@, base);
    lemma_entry_displays_below(locations.main.text, deployment, "main.tx"@, base);
    lemma_entry_displays_below(locations.localnet.text, deployment, "signers.localnet.tx"@, base);
    lemma_entry_displays_below(locations.devnet.text, deployment, "signers.devnet.tx"@, base);
    lemma_entry_displays_below(locations.mainnet.text, deployment, "signers.mainnet.tx"@, base);
}

/// The text of the README, if it was rendered.
pub open spec fn readme_text(events: Seq<EventView>) -> Option<Seq<char>>
    decreases events.len(),
{
    if events.len() == 0 {
        None
    } else {
        match events.last() {
            EventView::ReadmeRendered(Ok(Ok(text))) => Some(text),
            _ => readme_text(events.drop_last()),
        }
    }
}

/// The texts that a scaffold writes, from the manifest to the signers of the main network. The
/// README is among them if it was rendered.
pub open spec fn texts_to_write(scaffold: ScaffoldView, readme: Option<Seq<char>>) -> Seq<
    (LocationView, Seq<char>),
> {
    let sources = scaffold.sources->Some_0;
    let manifest = (scaffold.manifest_location(), scaffold.manifest_rendering()->Ok_0->Ok_0);
    let explained = match readme {
        Some(text) => seq![manifest, (scaffold.locations.readme, text)],
        None => seq![manifest],
    };
    explained + seq![
        (scaffold.locations.main, sources.deployment),
        (scaffold.locations.localnet, sources.localnet),
        (scaffold.locations.devnet, sources.devnet),
        (scaffold.locations.mainnet, sources.mainnet),
    ]
}

/// How many of its texts a scaffold has gone to write.
pub open spec fn texts_written(stage: Stage, readme: Option<Seq<char>>) -> nat {
    let r = crate::layout::rank(stage);
    let explained: nat = if readme is Some {
        2
    } else {
        1
    };
    if r < crate::layout::rank(Stage::WritingManifest) {
        0
    } else if r < crate::layout::rank(Stage::WritingMain) {
        explained
    } else if r < crate::layout::rank(Stage::WritingSigner(Network::Localnet)) {
        explained + 1
    } else if r < crate::layout::rank(Stage::WritingSigner(Network::Devnet)) {
        explained + 2
    } else if r < crate::layout::rank(Stage::WritingSigner(Network::Mainnet)) {
        explained + 3
    } else {
        explained + 4
    }
}

/// The README was rendered only in scaffolds that have gone to write it.
proof fn lemma_readme_comes_after_the_manifest(scaffold: ScaffoldView, events: Seq<EventView>)
    requires
        starting(scaffold),
        accepted(scaffold, events),
    ensures
        readme_text(events) is Some ==> crate::layout::rank(after(scaffold, events).stage)
            >= crate::layout::rank(Stage::WritingReadme),
    decreases events.len(),
{
    if events.len() > 0 {
        lemma_readme_comes_after_the_manifest(scaffold, events.drop_last());
        law_scaffold_ends(scaffold, events.drop_last());
        law_step_goes_further(after(scaffold, events.drop_last()), events.last());
    }
}

/// A step goes to write the next text, or none. The texts that were written before stay.
proof fn lemma_step_writes_the_next_text(
    scaffold: ScaffoldView,
    event: EventView,
    readme: Option<Seq<char>>,
    explained: Option<Seq<char>>,
)
    requires
        scaffold.ready(),
        scaffold.accepts(event),
        scaffold.next(event).0.stage != Stage::Finished,
        readme is Some ==> crate::layout::rank(scaffold.stage) >= crate::layout::rank(
            Stage::WritingReadme,
        ),
        explained == match event {
            EventView::ReadmeRendered(Ok(Ok(text))) => Some(text),
            _ => readme,
        },
    ensures
        ({
            let (next, turn) = scaffold.next(event);
            let n = texts_written(scaffold.stage, readme);
            let texts = texts_to_write(next, explained);
            &&& n <= texts_written(next.stage, explained) <= texts.len()
            &&& texts.take(n as int) == texts_to_write(scaffold, readme).take(n as int)
            &&& match turn.action {
                ActionView::WriteFile(location, text) => {
                    &&& texts_written(next.stage, explained) == n + 1
                    &&& texts[n as int] == (location, text)
                },
                _ => texts_written(next.stage, explained) == n,
            }
        }),
{
    let (next, turn) = scaffold.next(event);
    let n = texts_written(scaffold.stage, readme) as int;
    law_step_goes_further(scaffold, event);
    law_settings_stay(scaffold, event);
    if crate::layout::rank(scaffold.stage) >= crate::layout::rank(Stage::OpeningManifest) {
        assert(next.manifest == scaffold.manifest);
        assert(next.sources == scaffold.sources);
        assert(texts_to_write(next, readme) == texts_to_write(scaffold, readme));
    } else {
        assert(n == 0);
    }
    assert(texts_to_write(next, explained).take(n) =~= texts_to_write(scaffold, readme).take(n));
}

/// A scaffold writes the manifest, the README if it is missing, the deployment and the signers of
/// the three networks, each text once, each to its own file, and in this order.
pub proof fn law_texts_are_written_in_order(scaffold: ScaffoldView, events: Seq<EventView>)
    requires
        starting(scaffold),
        accepted(scaffold, events),
        after(scaffold, events).stage != Stage::Finished,
    ensures
        writes(turns(scaffold, events)) == texts_to_write(
            after(scaffold, events),
            readme_text(events),
        ).take(texts_written(after(scaffold, events).stage, readme_text(events)) as int),
    decreases events.len(),
{
    let readme = readme_text(events);
    if events.len() > 0 {
        let before = after(scaffold, events.drop_last());
        let now = after(scaffold, events);
        law_scaffold_ends(scaffold, events.drop_last());
        law_step_goes_further(before, events.last());
        law_texts_are_written_in_order(scaffold, events.drop_last());
        lemma_readme_comes_after_the_manifest(scaffold, events.drop_last());
        let earlier = readme_text(events.drop_last());
        lemma_step_writes_the_next_text(before, events.last(), earlier, readme);
        let taken = turns(scaffold, events);
        assert(taken.drop_last() =~= turns(scaffold, events.drop_last()));
        let texts = texts_to_write(now, readme);
        let n = texts_written(before.stage, earlier) as int;
        assert(n < texts.len() ==> texts.take(n + 1) =~= texts.take(n).push(texts[n]));
    } else {
        assert(writes(turns(scaffold, events)) =~= Seq::empty());
        assert(texts_to_write(after(scaffold, events), readme).take(0) =~= Seq::empty());
    }
}

/// The skill is offered last: by then all texts were written.
pub proof fn law_skill_is_offered_last(scaffold: ScaffoldView, events: Seq<EventView>)
    requires
        starting(scaffold),
        accepted(scaffold, events),
        events.len() > 0,
        turns(scaffold, events).last().action is OfferSkill,
    ensures
        writes(turns(scaffold, events)) == texts_to_write(
            after(scaffold, events),
            readme_text(events),
        ),
{
    law_scaffold_ends(scaffold, events.drop_last());
    law_texts_are_written_in_order(scaffold, events);
    let all = texts_to_write(after(scaffold, events), readme_text(events));
    assert(all.take(all.len() as int) =~= all);
}

/// The skill is offered at most once, for the project that the scaffold was started for, and
/// accepted in advance exactly if nothing was to be asked. After the offer the scaffold only ends,
/// and well, whatever comes of it. So one that ends with an error offers nothing.
pub proof fn law_offer_ends_the_scaffold_well(
    scaffold: ScaffoldView,
    events: Seq<EventView>,
    i: int,
)
    requires
        starting(scaffold),
        accepted(scaffold, events),
        0 <= i < events.len(),
        turns(scaffold, events)[i].action is OfferSkill,
    ensures
        turns(scaffold, events)[i].action == ActionView::OfferSkill(
            scaffold.base,
            scaffold.auto_generate_runbooks,
        ),
        events.len() <= i + 2,
        events.len() == i + 1 ==> after(scaffold, events).stage == Stage::OfferingSkill,
        events.len() == i + 2 ==> {
            &&& after(scaffold, events).stage == Stage::Finished
            &&& turns(scaffold, events).last().action == ActionView::Finish(Ok(()))
        },
    decreases events.len(),
{
    let before = events.drop_last();
    lemma_one_turn_per_event(scaffold, before);
    law_scaffold_ends(scaffold, before);
    lemma_project_stays(scaffold, before);
    law_step_goes_further(after(scaffold, before), events.last());
    if i < events.len() - 1 {
        law_offer_ends_the_scaffold_well(scaffold, before, i);
    }
}

/// The project, and whether to ask, stay through a whole run.
proof fn lemma_project_stays(scaffold: ScaffoldView, events: Seq<EventView>)
    requires
        scaffold.ready(),
        accepted(scaffold, events),
    ensures
        after(scaffold, events).base == scaffold.base,
        after(scaffold, events).auto_generate_runbooks == scaffold.auto_generate_runbooks,
    decreases events.len(),
{
    if events.len() > 0 {
        lemma_project_stays(scaffold, events.drop_last());
        law_scaffold_ends(scaffold, events.drop_last());
        law_settings_stay(after(scaffold, events.drop_last()), events.last());
    }
}

/// The user is told that the installer was started exactly where the decision on the skill gives a
/// command to run, and the scaffold ends well either way.
pub proof fn law_installer_is_told_of_where_it_is_started(
    scaffold: ScaffoldView,
    decided: crate::dev_skill::DecisionView,
)
    requires
        scaffold.stage == Stage::OfferingSkill,
    ensures
        ({
            let turn = scaffold.next(EventView::SkillOffered(decided.command is Some)).1;
            &&& turn.action == ActionView::Finish(Ok(()))
            &&& turn.notices == if decided.command is Some {
                seq![crate::layout::NoticeView::InstallerStarted]
            } else {
                Seq::empty()
            }
        }),
{
}

/// Whether the user confirms the deployment plays no part in the offer of the skill: the scaffold
/// goes on the same way, and only tells the user about it.
pub proof fn law_offer_does_not_depend_on_the_confirmation(scaffold: ScaffoldView)
    requires
        scaffold.stage == Stage::Confirming,
    ensures
        scaffold.next(EventView::Confirmed(true)).0 == scaffold.next(EventView::Confirmed(false)).0,
        scaffold.next(EventView::Confirmed(true)).1.action is OfferSkill,
        scaffold.next(EventView::Confirmed(false)).1.action is OfferSkill,
{
}

/// Picking every program, in order, is the same as not being asked.
pub proof fn law_all_programs_by_default(programs: Seq<ProgramView>, indices: Seq<usize>)
    requires
        indices.len() == programs.len(),
        forall|i: int| 0 <= i < indices.len() ==> (#[trigger] indices[i]) == i,
    ensures
        crate::layout::selected(programs, indices) == programs,
{
    assert(crate::layout::selected(programs, indices) =~= programs);
}

/// The value of the first entry with the given key.
pub open spec fn value_at<V>(entries: Seq<(Seq<char>, V)>, key: Seq<char>) -> Option<V>
    decreases entries.len(),
{
    if entries.len() == 0 {
        None
    } else if entries[0].0 == key {
        Some(entries[0].1)
    } else {
        value_at(entries.drop_first(), key)
    }
}

/// Setting an entry gives its key the value, and leaves the values of all other keys.
pub proof fn law_entry_is_set_alone<V>(
    entries: Seq<(Seq<char>, V)>,
    key: Seq<char>,
    value: V,
    other: Seq<char>,
)
    ensures
        value_at(crate::environments::with_entry(entries, key, value), key) == Some(value),
        other != key ==> value_at(crate::environments::with_entry(entries, key, value), other)
            == value_at(entries, other),
    decreases entries.len(),
{
    let set = crate::environments::with_entry(entries, key, value);
    if entries.len() == 0 {
        assert(set.drop_first() =~= entries);
    } else if entries[0].0 == key {
        assert(set.drop_first() =~= entries.drop_first());
    } else {
        law_entry_is_set_alone(entries.drop_first(), key, value, other);
        assert(set.drop_first() =~= crate::environments::with_entry(
            entries.drop_first(),
            key,
            value,
        ));
    }
}

/// Setting an entry to the value that it has changes nothing.
pub proof fn law_entry_set_again_is_kept<V>(
    entries: Seq<(Seq<char>, V)>,
    key: Seq<char>,
    value: V,
)
    requires
        value_at(entries, key) == Some(value),
    ensures
        crate::environments::with_entry(entries, key, value) == entries,
    decreases entries.len(),
{
    if entries[0].0 == key {
        assert(seq![(key, value)] + entries.drop_first() =~= entries);
    } else {
        law_entry_set_again_is_kept(entries.drop_first(), key, value);
        assert(seq![entries[0]] + entries.drop_first() =~= entries);
    }
}

/// A scaffolded manifest has the inputs of both networks, whatever it had before, and the inputs of
/// all other environments stay.
pub proof fn law_networks_are_set(
    manifest: ManifestView,
    rpc_api_url: Seq<char>,
    keypair_path: Seq<char>,
    other: Seq<char>,
)
    ensures
        ({
            let environments = manifest.networked(rpc_api_url, keypair_path).environments;
            &&& value_at(environments, "localnet"@) == Some(
                crate::environments::localnet_inputs(rpc_api_url),
            )
            &&& value_at(environments, "devnet"@) == Some(
                crate::environments::devnet_inputs(keypair_path),
            )
            &&& other != "localnet"@ && other != "devnet"@ ==> value_at(environments, other)
                == value_at(manifest.environments, other)
        }),
{
    reveal_strlit("localnet");
    reveal_strlit("devnet");
    assert("localnet"@.len() != "devnet"@.len());
    let localnet = crate::environments::with_entry(
        manifest.environments,
        "localnet"@,
        crate::environments::localnet_inputs(rpc_api_url),
    );
    let inputs = crate::environments::devnet_inputs(keypair_path);
    law_entry_is_set_alone(
        manifest.environments,
        "localnet"@,
        crate::environments::localnet_inputs(rpc_api_url),
        other,
    );
    law_entry_is_set_alone(localnet, "devnet"@, inputs, "localnet"@);
    law_entry_is_set_alone(localnet, "devnet"@, inputs, other);
}

/// A scaffolded manifest lists a deployment. The runbooks that it listed before are still there, in
/// their places, and it lists at most one more.
pub proof fn law_deployment_is_listed_once(manifest: ManifestView)
    ensures
        crate::manifest::names_runbook(manifest.deploying().runbooks, "deployment"@),
        manifest.runbooks.is_prefix_of(manifest.deploying().runbooks),
        manifest.deploying().runbooks.len() <= manifest.runbooks.len() + 1,
        crate::manifest::names_runbook(manifest.runbooks, "deployment"@)
            ==> manifest.deploying() == manifest,
{
    let runbooks = manifest.deploying().runbooks;
    if !crate::manifest::names_runbook(manifest.runbooks, "deployment"@) {
        assert(runbooks[runbooks.len() - 1].name == "deployment"@);
    }
}

/// Scaffolding a project again leaves its manifest as it was: it takes up the deployment and the
/// networks once.
pub proof fn law_manifest_is_scaffolded_once(
    manifest: ManifestView,
    rpc_api_url: Seq<char>,
    keypair_path: Seq<char>,
)
    ensures
        ({
            let once = manifest.deploying().networked(rpc_api_url, keypair_path);
            once.deploying().networked(rpc_api_url, keypair_path) == once
        }),
{
    let once = manifest.deploying().networked(rpc_api_url, keypair_path);
    law_deployment_is_listed_once(manifest);
    law_deployment_is_listed_once(once);
    law_networks_are_set(manifest.deploying(), rpc_api_url, keypair_path, "localnet"@);
    law_entry_set_again_is_kept(
        once.environments,
        "localnet"@,
        crate::environments::localnet_inputs(rpc_api_url),
    );
    law_entry_set_again_is_kept(
        once.environments,
        "devnet"@,
        crate::environments::devnet_inputs(keypair_path),
    );
}

/// A program without a `.so` file plays no part in a deployment in memory.
pub proof fn law_program_without_artifact_is_skipped(
    framework: crate::framework::Framework,
    before: Seq<ProgramView>,
    program: ProgramView,
    behind: Seq<ProgramView>,
    artifacts_path: Option<Seq<char>>,
)
    requires
        !program.so_exists,
    ensures
        crate::templates::in_memory_deployments(
            framework,
            before.push(program) + behind,
            artifacts_path,
        ) == crate::templates::in_memory_deployments(framework, before + behind, artifacts_path),
{
    let found = |program: ProgramView| program.so_exists;
    Seq::filter_distributes_over_add(before.push(program), behind, found);
    Seq::filter_distributes_over_add(before, behind, found);
    assert(before.push(program).filter(found) =~= before.filter(found)) by {
        reveal(Seq::filter);
        assert(before.push(program).drop_last() =~= before);
    }
}

} // verus!
