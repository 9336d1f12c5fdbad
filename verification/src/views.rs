//! What the contracts read of each value is what stands in its fields.

use crate::dev_skill::{InstallCommand, SkillDecision};
use crate::framework::ProgramMetadata;
use crate::layout::{Action, Event, Locations, Notice, Scaffold, Sources, Turn};
use crate::manifest::{Manifest, Runbook};
use crate::templates::TemplateRequest;
use txtx_core::kit::helpers::fs::FileLocation;
use vstd::prelude::*;

verus! {

/// The view of a location holds its text, its components, and whether it is on this machine.
pub proof fn law_location_is_seen_as_it_is(location: FileLocation)
    ensures
        crate::location::location_view(location).text == crate::location::location_text(location),
        crate::location::location_view(location).components
            == crate::location::location_components(location),
        crate::location::location_view(location).on_disk == crate::location::location_on_disk(
            location,
        ),
{
}

/// The views of a program and of a list of programs.
pub proof fn law_programs_are_seen_as_they_are(programs: Seq<ProgramMetadata>, i: int)
    requires
        0 <= i < programs.len(),
    ensures
        crate::framework::program_views(programs).len() == programs.len(),
        crate::framework::program_views(programs)[i].name == programs[i].name@,
        crate::framework::program_views(programs)[i].so_exists == programs[i].so_exists,
        programs[i]@.name == programs[i].name@,
        programs[i]@.so_exists == programs[i].so_exists,
{
}

/// The views of optional values.
pub proof fn law_optional_values_are_seen_as_they_are(
    text: Option<String>,
    slice: Option<&str>,
    location: Option<FileLocation>,
    manifest: Option<Manifest>,
)
    ensures
        text is Some <==> crate::manifest::optional_text(text) is Some,
        text is Some ==> crate::manifest::optional_text(text)->Some_0 == text->Some_0@,
        slice is Some <==> crate::templates::optional_slice(slice) is Some,
        slice is Some ==> crate::templates::optional_slice(slice)->Some_0 == slice->Some_0@,
        location is Some <==> crate::manifest::optional_location(location) is Some,
        location is Some ==> crate::manifest::optional_location(location)->Some_0
            == crate::location::location_view(location->Some_0),
        manifest is Some <==> crate::layout::optional_manifest(manifest) is Some,
        manifest is Some ==> crate::layout::optional_manifest(manifest)->Some_0
            == manifest->Some_0@,
{
}

/// The view of a runbook.
pub proof fn law_runbook_is_seen_as_it_is(runbook: Runbook)
    ensures
        runbook@.location == runbook.location@,
        runbook@.name == runbook.name@,
        runbook.description is Some <==> runbook@.description is Some,
        runbook.description is Some ==> runbook@.description->Some_0
            == runbook.description->Some_0@,
        runbook.state is Some <==> runbook@.state is Some,
        runbook.state is Some ==> runbook@.state->Some_0 == crate::location::location_view(
            runbook.state->Some_0,
        ),
{
}

/// The view of a manifest.
pub proof fn law_manifest_is_seen_as_it_is(manifest: Manifest)
    ensures
        manifest@.name == manifest.name@,
        manifest@.id == manifest.id@,
        manifest@.runbooks.len() == manifest.runbooks.len(),
        forall|i: int|
            0 <= i < manifest.runbooks.len() ==> #[trigger] manifest@.runbooks[i]
                == manifest.runbooks@[i]@,
        manifest@.environments == crate::environments::environments_of(manifest.environments),
        manifest.location is Some <==> manifest@.location is Some,
        manifest.location is Some ==> manifest@.location->Some_0
            == crate::location::location_view(manifest.location->Some_0),
{
}

/// The view of a command, and of a decision on the skill.
pub proof fn law_decision_is_seen_as_it_is(command: InstallCommand, decided: SkillDecision)
    ensures
        command@.program == command.program@,
        command@.args.len() == command.args.len(),
        forall|i: int|
            0 <= i < command.args.len() ==> #[trigger] command@.args[i] == command.args@[i]@,
        command@.current_dir == crate::location::location_view(command.current_dir),
        decided.command is Some <==> decided@.command is Some,
        decided.command is Some ==> decided@.command->Some_0 == decided.command->Some_0@,
        decided.marker is Some <==> decided@.marker is Some,
        decided.marker is Some ==> decided@.marker->Some_0 == decided.marker->Some_0@,
{
}

/// The view of a request for a piece of a runbook.
pub proof fn law_request_is_seen_as_it_is(request: TemplateRequest)
    ensures
        match request {
            TemplateRequest::Header { description } => {
                &&& request@ is Header
                &&& request@->description == description@
            },
            TemplateRequest::Addon { rpc_api_url, network_id } => {
                &&& request@ is Addon
                &&& request@->rpc_api_url == rpc_api_url@
                &&& request@->network_id == network_id@
            },
            TemplateRequest::LocalnetSigner { keypair } => {
                &&& request@ is LocalnetSigner
                &&& request@->LocalnetSigner_keypair == keypair@
            },
            TemplateRequest::DevnetSigner => request@ is DevnetSigner,
            TemplateRequest::MainnetSigner { keypair } => {
                &&& request@ is MainnetSigner
                &&& request@->MainnetSigner_keypair == keypair@
            },
            TemplateRequest::Program { framework, name } => {
                &&& request@ is Program
                &&& request@->Program_framework == framework
                &&& request@->Program_name == name@
            },
            TemplateRequest::InMemoryProgram { framework, name, artifacts_path } => {
                &&& request@ is InMemoryProgram
                &&& request@->InMemoryProgram_framework == framework
                &&& request@->InMemoryProgram_name == name@
                &&& request@->artifacts_path is Some <==> artifacts_path is Some
                &&& artifacts_path is Some ==> request@->artifacts_path->Some_0
                    == artifacts_path->Some_0@
            },
        },
{
}

/// The views of a list of requests.
pub proof fn law_requests_are_seen_in_order(requests: Seq<TemplateRequest>, i: int)
    requires
        0 <= i < requests.len(),
    ensures
        crate::templates::request_views(requests).len() == requests.len(),
        crate::templates::request_views(requests)[i] == requests[i]@,
{
}

/// The view of the locations of a scaffold.
pub proof fn law_locations_are_seen_as_they_are(locations: Locations)
    ensures
        locations@.manifest == crate::location::location_view(locations.manifest),
        locations@.runbooks == crate::location::location_view(locations.runbooks),
        locations@.readme == crate::location::location_view(locations.readme),
        locations@.deployment == crate::location::location_view(locations.deployment),
        locations@.main == crate::location::location_view(locations.main),
        locations@.localnet == crate::location::location_view(locations.localnet),
        locations@.devnet == crate::location::location_view(locations.devnet),
        locations@.mainnet == crate::location::location_view(locations.mainnet),
{
}

/// The view of the sources of a scaffold.
pub proof fn law_sources_are_seen_as_they_are(sources: Sources)
    ensures
        sources@.deployment == sources.deployment@,
        sources@.localnet == sources.localnet@,
        sources@.devnet == sources.devnet@,
        sources@.mainnet == sources.mainnet@,
{
}

/// The view of a rendering.
pub proof fn law_rendering_is_seen_as_it_is(rendering: Result<Result<String, String>, String>)
    ensures
        match rendering {
            Ok(Ok(text)) => {
                &&& crate::manifest::rendering_view(rendering) is Ok
                &&& crate::manifest::rendering_view(rendering)->Ok_0 is Ok
                &&& crate::manifest::rendering_view(rendering)->Ok_0->Ok_0 == text@
            },
            Ok(Err(e)) => {
                &&& crate::manifest::rendering_view(rendering) is Ok
                &&& crate::manifest::rendering_view(rendering)->Ok_0 is Err
                &&& crate::manifest::rendering_view(rendering)->Ok_0->Err_0 == e@
            },
            Err(e) => {
                &&& crate::manifest::rendering_view(rendering) is Err
                &&& crate::manifest::rendering_view(rendering)->Err_0 == e@
            },
        },
{
}

/// The view of an event.
pub proof fn law_event_is_seen_as_it_is(event: Event)
    ensures
        match event {
            Event::ManifestLoaded(manifest) => {
                &&& event@ is ManifestLoaded
                &&& event@->ManifestLoaded_0 is Some <==> manifest is Some
                &&& manifest is Some ==> event@->ManifestLoaded_0->Some_0 == manifest->Some_0@
            },
            Event::ProgramsSelected(indices) => {
                &&& event@ is ProgramsSelected
                &&& event@->ProgramsSelected_0 == indices@
            },
            Event::DirectoryName(name) => {
                &&& event@ is DirectoryName
                &&& event@->DirectoryName_0 is Some <==> name is Some
                &&& name is Some ==> event@->DirectoryName_0->Some_0 == name->Some_0@
            },
            Event::NameEntered(name) => event@ is NameEntered && event@->NameEntered_0 == name@,
            Event::TemplatesRendered(rendered) => {
                &&& event@ is TemplatesRendered
                &&& event@->TemplatesRendered_0.len() == rendered.len()
                &&& forall|i: int|
                    0 <= i < rendered.len() ==> #[trigger] event@->TemplatesRendered_0[i]
                        == rendered@[i]@
            },
            Event::Exists(there) => event@ is Exists && event@->Exists_0 == there,
            Event::Done => event@ is Done,
            Event::ReadmeRendered(rendering) => {
                &&& event@ is ReadmeRendered
                &&& event@->ReadmeRendered_0 == crate::manifest::rendering_view(rendering)
            },
            Event::Confirmed(confirmed) => event@ is Confirmed && event@->Confirmed_0 == confirmed,
            Event::SkillOffered(started) => {
                &&& event@ is SkillOffered
                &&& event@->SkillOffered_0 == started
            },
            Event::Failed(e) => event@ is Failed && event@->Failed_0 == e@,
        },
{
}

/// The view of an action.
pub proof fn law_action_is_seen_as_it_is(action: Action)
    ensures
        match action {
            Action::LoadManifest(location) => {
                &&& action@ is LoadManifest
                &&& action@->LoadManifest_0 == crate::location::location_view(location)
            },
            Action::SelectPrograms(names) => {
                &&& action@ is SelectPrograms
                &&& action@->SelectPrograms_0.len() == names.len()
                &&& forall|i: int|
                    0 <= i < names.len() ==> #[trigger] action@->SelectPrograms_0[i] == names@[i]@
            },
            Action::ReadDirectoryName => action@ is ReadDirectoryName,
            Action::AskName(name) => action@ is AskName && action@->AskName_0 == name@,
            Action::Render(requests) => {
                &&& action@ is Render
                &&& action@->Render_0.len() == requests.len()
                &&& forall|i: int|
                    0 <= i < requests.len() ==> #[trigger] action@->Render_0[i] == requests@[i]@
            },
            Action::CreateFile(location) => {
                &&& action@ is CreateFile
                &&& action@->CreateFile_0 == crate::location::location_view(location)
            },
            Action::WriteFile(location, text) => {
                &&& action@ is WriteFile
                &&& action@->WriteFile_0 == crate::location::location_view(location)
                &&& action@->WriteFile_1 == text@
            },
            Action::RenderReadme(manifest) => {
                &&& action@ is RenderReadme
                &&& action@->RenderReadme_0 == manifest@
            },
            Action::CheckExists(location) => {
                &&& action@ is CheckExists
                &&& action@->CheckExists_0 == crate::location::location_view(location)
            },
            Action::CreateDirectory(location) => {
                &&& action@ is CreateDirectory
                &&& action@->CreateDirectory_0 == crate::location::location_view(location)
            },
            Action::Confirm => action@ is Confirm,
            Action::OfferSkill(location, auto_accept) => {
                &&& action@ is OfferSkill
                &&& action@->OfferSkill_0 == crate::location::location_view(location)
                &&& action@->OfferSkill_1 == auto_accept
            },
            Action::Finish(Ok(_)) => action@ is Finish && action@->Finish_0 is Ok,
            Action::Finish(Err(e)) => {
                &&& action@ is Finish
                &&& action@->Finish_0 is Err
                &&& action@->Finish_0->Err_0 == e@
            },
        },
{
}

/// The view of a notice.
pub proof fn law_notice_is_seen_as_it_is(notice: Notice)
    ensures
        match notice {
            Notice::CreatedManifest => notice@ is CreatedManifest,
            Notice::CreatedReadme => notice@ is CreatedReadme,
            Notice::CreatedFile(location) => {
                &&& notice@ is CreatedFile
                &&& notice@->CreatedFile_0 == crate::location::location_view(location)
            },
            Notice::DeploymentSource(text) => {
                &&& notice@ is DeploymentSource
                &&& notice@->DeploymentSource_0 == text@
            },
            Notice::DeploymentCanceled => notice@ is DeploymentCanceled,
            Notice::InstallerStarted => notice@ is InstallerStarted,
        },
{
}

/// The view of a turn.
pub proof fn law_turn_is_seen_as_it_is(turn: Turn)
    ensures
        turn@.action == turn.action@,
        turn@.notices.len() == turn.notices.len(),
        forall|i: int|
            0 <= i < turn.notices.len() ==> #[trigger] turn@.notices[i] == turn.notices@[i]@,
{
}

/// The view of a scaffold.
pub proof fn law_scaffold_is_seen_as_it_is(scaffold: Scaffold)
    ensures
        scaffold@.base == crate::location::location_view(scaffold.base),
        scaffold@.framework == scaffold.framework,
        scaffold@.programs.len() == scaffold.programs.len(),
        forall|i: int|
            0 <= i < scaffold.programs.len() ==> #[trigger] scaffold@.programs[i]
                == scaffold.programs@[i]@,
        scaffold@.auto_generate_runbooks == scaffold.auto_generate_runbooks,
        scaffold@.keypair_path == scaffold.keypair_path@,
        scaffold@.rpc_api_url == scaffold.rpc_api_url@,
        scaffold@.locations == scaffold.locations@,
        scaffold.manifest is Some <==> scaffold@.manifest is Some,
        scaffold.manifest is Some ==> scaffold@.manifest->Some_0 == scaffold.manifest->Some_0@,
        scaffold.sources is Some <==> scaffold@.sources is Some,
        scaffold.sources is Some ==> scaffold@.sources->Some_0 == scaffold.sources->Some_0@,
        scaffold@.stage == scaffold.stage,
{
}

} // verus!
