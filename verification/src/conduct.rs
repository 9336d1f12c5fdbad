//! What a scaffold on disk does, step by step and over a whole run.

use crate::framework::ProgramView;
use crate::layout::{ActionView, EventView, LocationsView, Network, NoticeView};
use crate::layout::{ScaffoldView, Stage, TurnView};
use crate::manifest::ManifestView;
use crate::templates::RequestView;
use vstd::prelude::*;

verus! {

/// Whether two scaffolds are the same but for their stage.
pub open spec fn same_but_for_stage(scaffold: ScaffoldView, other: ScaffoldView) -> bool {
    &&& scaffold.base == other.base
    &&& scaffold.framework == other.framework
    &&& scaffold.programs == other.programs
    &&& scaffold.auto_generate_runbooks == other.auto_generate_runbooks
    &&& scaffold.keypair_path == other.keypair_path
    &&& scaffold.rpc_api_url == other.rpc_api_url
    &&& scaffold.locations == other.locations
    &&& scaffold.manifest == other.manifest
    &&& scaffold.sources == other.sources
}

/// Whether a turn tells nothing and does one thing.
pub open spec fn only_does(turn: TurnView, action: ActionView) -> bool {
    turn.notices.len() == 0 && turn.action == action
}

/// Whether a turn tells one thing and does another.
pub open spec fn tells_and_does(turn: TurnView, notice: NoticeView, action: ActionView) -> bool {
    turn.notices.len() == 1 && turn.notices[0] == notice && turn.action == action
}

/// Every outcome that an action can have is accepted: whatever was read, picked, entered or
/// answered, and success and failure of all that can fail.
pub proof fn law_every_outcome_is_accepted(
    scaffold: ScaffoldView,
    manifest: Option<ManifestView>,
    indices: Seq<usize>,
    directory: Option<Seq<char>>,
    text: Seq<char>,
    rendered: Seq<Seq<char>>,
    rendering: Result<Result<Seq<char>, Seq<char>>, Seq<char>>,
    answer: bool,
)
    ensures
        ({
            let done = scaffold.accepts(EventView::Done) && scaffold.accepts(
                EventView::Failed(text),
            );
            match scaffold.stage {
                Stage::LoadingManifest => scaffold.accepts(EventView::ManifestLoaded(manifest)),
                Stage::SelectingPrograms => {
                    &&& scaffold.accepts(EventView::Failed(text))
                    &&& (forall|i: int|
                        0 <= i < indices.len() ==> (#[trigger] indices[i])
                            < scaffold.programs.len()) ==> scaffold.accepts(
                        EventView::ProgramsSelected(indices),
                    )
                },
                Stage::ReadingDirectoryName => scaffold.accepts(
                    EventView::DirectoryName(directory),
                ),
                Stage::AskingName => {
                    &&& scaffold.accepts(EventView::NameEntered(text))
                    &&& scaffold.accepts(EventView::Failed(text))
                },
                Stage::RenderingTemplates => rendered.len() == scaffold.programs.len() + 5
                    ==> scaffold.accepts(EventView::TemplatesRendered(rendered)),
                Stage::RenderingReadme => scaffold.accepts(EventView::ReadmeRendered(rendering)),
                Stage::CheckingRunbooks
                | Stage::CheckingReadme
                | Stage::CheckingDeployment
                | Stage::CheckingMain => scaffold.accepts(EventView::Exists(answer)),
                Stage::Confirming => {
                    &&& scaffold.accepts(EventView::Confirmed(answer))
                    &&& scaffold.accepts(EventView::Failed(text))
                },
                Stage::OfferingSkill => scaffold.accepts(EventView::SkillOffered(answer)),
                Stage::Finished => true,
                _ => done,
            }
        }),
{
}

/// With the manifest read, or missing, a scaffold that is to ask lets the user pick among all of its
/// programs, by name. One that is not to ask goes on with all of them: with the manifest that was
/// read, or to find out the name of the working directory.
pub proof fn law_after_the_manifest_was_looked_for(
    scaffold: ScaffoldView,
    manifest: Option<ManifestView>,
    i: int,
)
    requires
        scaffold.ready(),
        scaffold.stage == Stage::LoadingManifest,
    ensures
        ({
            let (next, turn) = scaffold.next(EventView::ManifestLoaded(manifest));
            &&& next.manifest == manifest
            &&& same_but_for_stage(next, ScaffoldView { manifest, ..scaffold })
            &&& turn.notices.len() == 0
            &&& !scaffold.auto_generate_runbooks ==> {
                &&& next.stage == Stage::SelectingPrograms
                &&& turn.action is SelectPrograms
                &&& turn.action->SelectPrograms_0.len() == scaffold.programs.len()
                &&& 0 <= i < scaffold.programs.len() ==> turn.action->SelectPrograms_0[i]
                    == scaffold.programs[i].name
            }
            &&& scaffold.auto_generate_runbooks && manifest is Some ==> {
                &&& next.stage == Stage::RenderingTemplates
                &&& turn.action is Render
            }
            &&& scaffold.auto_generate_runbooks && manifest is None ==> {
                &&& next.stage == Stage::ReadingDirectoryName
                &&& turn.action is ReadDirectoryName
            }
        }),
{
}

/// With programs picked, exactly these are deployed, in the order in which they were picked. The
/// manifest that was read is kept, and only without one the name of the working directory is wanted.
pub proof fn law_after_programs_were_picked(
    scaffold: ScaffoldView,
    indices: Seq<usize>,
    i: int,
)
    requires
        scaffold.ready(),
        scaffold.stage == Stage::SelectingPrograms,
        scaffold.accepts(EventView::ProgramsSelected(indices)),
    ensures
        ({
            let (next, turn) = scaffold.next(EventView::ProgramsSelected(indices));
            &&& next.programs.len() == indices.len()
            &&& 0 <= i < indices.len() ==> next.programs[i] == scaffold.programs[indices[i] as int]
            &&& same_but_for_stage(next, ScaffoldView { programs: next.programs, ..scaffold })
            &&& turn.notices.len() == 0
            &&& scaffold.manifest is Some ==> {
                &&& next.stage == Stage::RenderingTemplates
                &&& turn.action is Render
            }
            &&& scaffold.manifest is None ==> {
                &&& next.stage == Stage::ReadingDirectoryName
                &&& turn.action is ReadDirectoryName
            }
        }),
{
}

/// A new workspace is called what the user enters, for which the name of the working directory is
/// suggested. Where nothing is to be asked it is called that, or nothing if there is none.
pub proof fn law_new_workspace_gets_its_name(
    scaffold: ScaffoldView,
    directory: Option<Seq<char>>,
    entered: Seq<char>,
)
    requires
        scaffold.ready(),
    ensures
        scaffold.stage == Stage::ReadingDirectoryName ==> {
            let (next, turn) = scaffold.next(EventView::DirectoryName(directory));
            let name = if directory is Some {
                directory->Some_0
            } else {
                Seq::empty()
            };
            &&& turn.notices.len() == 0
            &&& same_but_for_stage(next, ScaffoldView { manifest: next.manifest, ..scaffold })
            &&& scaffold.auto_generate_runbooks ==> {
                &&& next.stage == Stage::RenderingTemplates
                &&& turn.action is Render
                &&& newly_named(next.manifest, name)
            }
            &&& !scaffold.auto_generate_runbooks ==> {
                &&& next.stage == Stage::AskingName
                &&& turn.action is AskName
                &&& turn.action->AskName_0 == name
                &&& next.manifest == scaffold.manifest
            }
        },
        scaffold.stage == Stage::AskingName ==> {
            let (next, turn) = scaffold.next(EventView::NameEntered(entered));
            &&& turn.notices.len() == 0
            &&& same_but_for_stage(next, ScaffoldView { manifest: next.manifest, ..scaffold })
            &&& next.stage == Stage::RenderingTemplates
            &&& turn.action is Render
            &&& newly_named(next.manifest, entered)
        },
{
    reveal_strlit("");
    assert(""@ =~= Seq::<char>::empty());
}

/// Whether a manifest is a new one of the given name.
pub open spec fn newly_named(manifest: Option<ManifestView>, name: Seq<char>) -> bool {
    &&& manifest is Some
    &&& manifest->Some_0.name == name
    &&& manifest->Some_0.id == crate::manifest::workspace_id_of(name)
    &&& manifest->Some_0.runbooks.len() == 0
    &&& manifest->Some_0.environments.len() == 0
    &&& manifest->Some_0.location is None
}

/// With the templates rendered, each text goes where it belongs: the header, the addon and the
/// deployments of the programs make the deployment, in this order, and the signers of each network
/// are kept apart. The manifest takes up the deployment and the networks. Its file is created where
/// the project has none, and opened where it was read.
pub proof fn law_after_the_templates_were_rendered(
    scaffold: ScaffoldView,
    rendered: Seq<Seq<char>>,
    k: int,
)
    requires
        scaffold.ready(),
        scaffold.stage == Stage::RenderingTemplates,
        scaffold.accepts(EventView::TemplatesRendered(rendered)),
    ensures
        ({
            let (next, turn) = scaffold.next(EventView::TemplatesRendered(rendered));
            let requests = scaffold.requests();
            let sources = next.sources->Some_0;
            let manifest = scaffold.manifest->Some_0;
            &&& rendered.len() == requests.len()
            &&& next.sources is Some
            &&& sources.deployment == rendered[0] + rendered[1] + crate::text::concatenation(
                rendered.skip(5),
            )
            &&& 0 <= k < requests.len() && requests[k] is LocalnetSigner ==> sources.localnet
                == rendered[k]
            &&& 0 <= k < requests.len() && requests[k] is DevnetSigner ==> sources.devnet
                == rendered[k]
            &&& 0 <= k < requests.len() && requests[k] is MainnetSigner ==> sources.mainnet
                == rendered[k]
            &&& next.manifest is Some
            &&& next.manifest->Some_0 == manifest.deploying().networked(
                scaffold.rpc_api_url,
                scaffold.keypair_path,
            )
            &&& same_but_for_stage(
                next,
                ScaffoldView { manifest: next.manifest, sources: next.sources, ..scaffold },
            )
            &&& manifest.location is Some ==> {
                &&& next.stage == Stage::OpeningManifest
                &&& only_does(turn, ActionView::CreateFile(manifest.location->Some_0))
            }
            &&& manifest.location is None ==> {
                &&& next.stage == Stage::CreatingManifest
                &&& only_does(turn, ActionView::CreateFile(scaffold.locations.manifest))
            }
        }),
{
    let requests = scaffold.requests();
    assert(0 <= k < 5 ==> requests[k] == seq![
        RequestView::Header {
            description: crate::layout::header(scaffold.manifest->Some_0.name),
        },
        crate::templates::addon(),
        RequestView::MainnetSigner { keypair: "input.authority_keypair_json"@ },
        RequestView::DevnetSigner,
        crate::templates::localnet_signer(scaffold.keypair_path),
    ][k]);
    assert(5 <= k < requests.len() ==> requests[k] == crate::layout::deployments(
        scaffold.framework,
        scaffold.programs,
    )[k - 5]);
    assert(5 <= k < requests.len() ==> requests[k] is Program);
}

/// What the templates of a scaffold are. The header names the workspace, the addon is on the inputs
/// of the runbook, the main network signs with an input, the local network with the keypair in
/// quotes. Behind these five there is one for each program to deploy, in order: its deployment, by
/// its name and with the framework of the scaffold, whichever that is.
pub proof fn law_templates_of_a_scaffold(scaffold: ScaffoldView, i: int)
    requires
        scaffold.manifest is Some,
    ensures
        are_its_templates(scaffold.requests(), scaffold, scaffold.framework, i),
{
    reveal_strlit("\"");
    assert(crate::text::quoted(scaffold.keypair_path) =~= seq!['"'] + scaffold.keypair_path
        + seq!['"']);
    let requests = scaffold.requests();
    assert(0 <= i < scaffold.programs.len() ==> requests[i + 5] == crate::layout::deployments(
        scaffold.framework,
        scaffold.programs,
    )[i]);
}

/// Whether requests are the templates of a scaffold, where programs are deployed with the given
/// framework; of the deployments the one with the index `i`.
pub open spec fn are_its_templates(
    requests: Seq<RequestView>,
    scaffold: ScaffoldView,
    framework: crate::framework::Framework,
    i: int,
) -> bool {
    &&& scaffold.manifest is Some
    &&& requests.len() == scaffold.programs.len() + 5
    &&& requests[0] is Header
    &&& requests[0]->description == "Manage "@ + scaffold.manifest->Some_0.name
        + " deployment through Crypto Infrastructure as Code"@
    &&& requests[1] is Addon
    &&& requests[1]->rpc_api_url == "input.rpc_api_url"@
    &&& requests[1]->network_id == "input.network_id"@
    &&& requests[2] is MainnetSigner
    &&& requests[2]->MainnetSigner_keypair == "input.authority_keypair_json"@
    &&& requests[3] is DevnetSigner
    &&& requests[4] is LocalnetSigner
    &&& requests[4]->LocalnetSigner_keypair == seq!['"'] + scaffold.keypair_path + seq!['"']
    &&& 0 <= i < scaffold.programs.len() ==> {
        &&& requests[i + 5] is Program
        &&& requests[i + 5]->Program_framework == framework
        &&& requests[i + 5]->Program_name == scaffold.programs[i].name
    }
}

/// The file of a new manifest is created, told of, and opened; one that was read is opened where it
/// was read. Then the manifest is written there as it renders, by its name, its identifier, its
/// runbooks and its environments.
pub proof fn law_manifest_is_written_as_it_renders(scaffold: ScaffoldView)
    requires
        scaffold.ready(),
    ensures
        ({
            let (next, turn) = scaffold.next(EventView::Done);
            let manifest = scaffold.manifest->Some_0;
            let place = if manifest.location is Some {
                manifest.location->Some_0
            } else {
                scaffold.locations.manifest
            };
            let rendering = crate::manifest::manifest_rendering(
                manifest.name,
                manifest.id,
                crate::manifest::runbook_lines(manifest.runbooks),
                manifest.environments,
            );
            &&& scaffold.stage == Stage::CreatingManifest ==> {
                &&& same_but_for_stage(next, scaffold)
                &&& next.stage == Stage::OpeningManifest
                &&& tells_and_does(
                    turn,
                    NoticeView::CreatedManifest,
                    ActionView::CreateFile(place),
                )
            }
            &&& scaffold.stage == Stage::OpeningManifest ==> {
                &&& same_but_for_stage(next, scaffold)
                &&& rendering is Ok && rendering->Ok_0 is Ok ==> {
                    &&& next.stage == Stage::WritingManifest
                    &&& only_does(turn, ActionView::WriteFile(place, rendering->Ok_0->Ok_0))
                }
                &&& rendering is Ok && rendering->Ok_0 is Err ==> {
                    &&& next.stage == Stage::Finished
                    &&& only_does(
                        turn,
                        ActionView::Finish(
                            Err("Failed to render Runbook manifest: "@ + rendering->Ok_0->Err_0),
                        ),
                    )
                }
                &&& rendering is Err ==> {
                    &&& next.stage == Stage::Finished
                    &&& only_does(
                        turn,
                        ActionView::Finish(
                            Err("Failed to generate Runbook manifest: "@ + rendering->Err_0),
                        ),
                    )
                }
            }
            &&& scaffold.stage == Stage::WritingManifest ==> {
                &&& same_but_for_stage(next, scaffold)
                &&& next.stage == Stage::CheckingRunbooks
                &&& only_does(turn, ActionView::CheckExists(scaffold.locations.runbooks))
            }
        }),
{
}

/// The directory of the runbooks and the README are looked for, and made only where they are
/// missing: the directory is created, the README is created, rendered from the manifest of the
/// scaffold, written as it renders, and told of.
pub proof fn law_readme_is_written_where_it_is_missing(
    scaffold: ScaffoldView,
    rendering: Result<Result<Seq<char>, Seq<char>>, Seq<char>>,
)
    requires
        scaffold.ready(),
    ensures
        ({
            let locations = scaffold.locations;
            let (found, on_found) = scaffold.next(EventView::Exists(true));
            let (missing, on_missing) = scaffold.next(EventView::Exists(false));
            let (done, on_done) = scaffold.next(EventView::Done);
            let (rendered, on_rendered) = scaffold.next(EventView::ReadmeRendered(rendering));
            &&& scaffold.stage == Stage::CheckingRunbooks ==> {
                &&& same_but_for_stage(found, scaffold) && same_but_for_stage(missing, scaffold)
                &&& found.stage == Stage::CheckingReadme
                &&& only_does(on_found, ActionView::CheckExists(locations.readme))
                &&& missing.stage == Stage::CreatingRunbooks
                &&& only_does(on_missing, ActionView::CreateDirectory(locations.runbooks))
            }
            &&& scaffold.stage == Stage::CreatingRunbooks ==> {
                &&& same_but_for_stage(done, scaffold)
                &&& done.stage == Stage::CheckingReadme
                &&& only_does(on_done, ActionView::CheckExists(locations.readme))
            }
            &&& scaffold.stage == Stage::CheckingReadme ==> {
                &&& same_but_for_stage(found, scaffold) && same_but_for_stage(missing, scaffold)
                &&& found.stage == Stage::CheckingDeployment
                &&& only_does(on_found, ActionView::CheckExists(locations.deployment))
                &&& missing.stage == Stage::CreatingReadme
                &&& only_does(on_missing, ActionView::CreateFile(locations.readme))
            }
            &&& scaffold.stage == Stage::CreatingReadme ==> {
                &&& same_but_for_stage(done, scaffold)
                &&& done.stage == Stage::RenderingReadme
                &&& only_does(on_done, ActionView::RenderReadme(scaffold.manifest->Some_0))
            }
            &&& scaffold.stage == Stage::RenderingReadme ==> {
                &&& same_but_for_stage(rendered, scaffold)
                &&& rendering is Ok && rendering->Ok_0 is Ok ==> {
                    &&& rendered.stage == Stage::WritingReadme
                    &&& only_does(
                        on_rendered,
                        ActionView::WriteFile(locations.readme, rendering->Ok_0->Ok_0),
                    )
                }
                &&& rendering is Ok && rendering->Ok_0 is Err ==> {
                    &&& rendered.stage == Stage::Finished
                    &&& only_does(
                        on_rendered,
                        ActionView::Finish(
                            Err("Failed to render Runbook README: "@ + rendering->Ok_0->Err_0),
                        ),
                    )
                }
                &&& rendering is Err ==> {
                    &&& rendered.stage == Stage::Finished
                    &&& only_does(
                        on_rendered,
                        ActionView::Finish(
                            Err("Failed to generate Runbook README: "@ + rendering->Err_0),
                        ),
                    )
                }
            }
            &&& scaffold.stage == Stage::WritingReadme ==> {
                &&& same_but_for_stage(done, scaffold)
                &&& done.stage == Stage::CheckingDeployment
                &&& tells_and_does(
                    on_done,
                    NoticeView::CreatedReadme,
                    ActionView::CheckExists(locations.deployment),
                )
            }
        }),
{
}

/// The directory of the deployment is looked for, and created where it is missing. The deployment
/// itself is created and written where it is missing, with its own text in its own file; where it is
/// there, the scaffold ends well.
pub proof fn law_deployment_is_written_where_it_is_missing(scaffold: ScaffoldView)
    requires
        scaffold.ready(),
    ensures
        ({
            let locations = scaffold.locations;
            let (found, on_found) = scaffold.next(EventView::Exists(true));
            let (missing, on_missing) = scaffold.next(EventView::Exists(false));
            let (done, on_done) = scaffold.next(EventView::Done);
            &&& scaffold.stage == Stage::CheckingDeployment ==> {
                &&& same_but_for_stage(found, scaffold) && same_but_for_stage(missing, scaffold)
                &&& found.stage == Stage::CheckingMain
                &&& only_does(on_found, ActionView::CheckExists(locations.main))
                &&& missing.stage == Stage::CreatingDeployment
                &&& only_does(on_missing, ActionView::CreateDirectory(locations.deployment))
            }
            &&& scaffold.stage == Stage::CreatingDeployment ==> {
                &&& same_but_for_stage(done, scaffold)
                &&& done.stage == Stage::CheckingMain
                &&& only_does(on_done, ActionView::CheckExists(locations.main))
            }
            &&& scaffold.stage == Stage::CheckingMain ==> {
                &&& same_but_for_stage(found, scaffold) && same_but_for_stage(missing, scaffold)
                &&& found.stage == Stage::Finished
                &&& only_does(on_found, ActionView::Finish(Ok(())))
                &&& missing.stage == Stage::CreatingMain
                &&& only_does(on_missing, ActionView::CreateFile(locations.main))
            }
            &&& scaffold.stage == Stage::CreatingMain ==> {
                &&& same_but_for_stage(done, scaffold)
                &&& done.stage == Stage::WritingMain
                &&& only_does(
                    on_done,
                    ActionView::WriteFile(locations.main, scaffold.sources->Some_0.deployment),
                )
            }
            &&& scaffold.stage == Stage::WritingMain ==> {
                &&& same_but_for_stage(done, scaffold)
                &&& done.stage == Stage::CreatingSigner(Network::Localnet)
                &&& tells_and_does(
                    on_done,
                    NoticeView::CreatedFile(locations.main),
                    ActionView::CreateFile(locations.localnet),
                )
            }
        }),
{
}

/// The signers of the local, the development and the main network are created and written in this
/// order, each network's text in its own file, and each file is told of. Behind the last one the
/// source of the deployment is shown, and the user is asked to confirm it unless nothing is to be
/// asked.
pub proof fn law_signers_are_written_network_by_network(scaffold: ScaffoldView)
    requires
        scaffold.ready(),
    ensures
        ({
            let locations = scaffold.locations;
            let sources = scaffold.sources->Some_0;
            let (next, turn) = scaffold.next(EventView::Done);
            let signing = scaffold.stage is CreatingSigner || scaffold.stage is WritingSigner;
            &&& signing ==> same_but_for_stage(next, scaffold)
            &&& scaffold.stage == Stage::CreatingSigner(Network::Localnet) ==> {
                &&& next.stage == Stage::WritingSigner(Network::Localnet)
                &&& only_does(turn, ActionView::WriteFile(locations.localnet, sources.localnet))
            }
            &&& scaffold.stage == Stage::CreatingSigner(Network::Devnet) ==> {
                &&& next.stage == Stage::WritingSigner(Network::Devnet)
                &&& only_does(turn, ActionView::WriteFile(locations.devnet, sources.devnet))
            }
            &&& scaffold.stage == Stage::CreatingSigner(Network::Mainnet) ==> {
                &&& next.stage == Stage::WritingSigner(Network::Mainnet)
                &&& only_does(turn, ActionView::WriteFile(locations.mainnet, sources.mainnet))
            }
            &&& scaffold.stage == Stage::WritingSigner(Network::Localnet) ==> {
                &&& next.stage == Stage::CreatingSigner(Network::Devnet)
                &&& tells_and_does(
                    turn,
                    NoticeView::CreatedFile(locations.localnet),
                    ActionView::CreateFile(locations.devnet),
                )
            }
            &&& scaffold.stage == Stage::WritingSigner(Network::Devnet) ==> {
                &&& next.stage == Stage::CreatingSigner(Network::Mainnet)
                &&& tells_and_does(
                    turn,
                    NoticeView::CreatedFile(locations.devnet),
                    ActionView::CreateFile(locations.mainnet),
                )
            }
            &&& scaffold.stage == Stage::WritingSigner(Network::Mainnet) ==> {
                &&& turn.notices.len() == 2
                &&& turn.notices[0] == NoticeView::CreatedFile(locations.mainnet)
                &&& turn.notices[1] == NoticeView::DeploymentSource(sources.deployment)
                &&& scaffold.auto_generate_runbooks ==> {
                    &&& next.stage == Stage::OfferingSkill
                    &&& turn.action == ActionView::OfferSkill(scaffold.base, true)
                }
                &&& !scaffold.auto_generate_runbooks ==> {
                    &&& next.stage == Stage::Confirming
                    &&& turn.action is Confirm
                }
            }
        }),
{
}

/// Whether the user confirms or not, the skill is offered next, for the project of the scaffold; a
/// refusal is told. Whatever comes of the offer, the scaffold ends well, and tells of the installer
/// exactly if it was started.
pub proof fn law_skill_is_offered_after_the_confirmation(scaffold: ScaffoldView, answer: bool)
    requires
        scaffold.ready(),
    ensures
        scaffold.stage == Stage::Confirming ==> {
            let (next, turn) = scaffold.next(EventView::Confirmed(answer));
            &&& same_but_for_stage(next, scaffold)
            &&& next.stage == Stage::OfferingSkill
            &&& turn.action == ActionView::OfferSkill(
                scaffold.base,
                scaffold.auto_generate_runbooks,
            )
            &&& answer ==> turn.notices.len() == 0
            &&& !answer ==> turn.notices.len() == 1 && turn.notices[0]
                == NoticeView::DeploymentCanceled
        },
        scaffold.stage == Stage::OfferingSkill ==> {
            let (next, turn) = scaffold.next(EventView::SkillOffered(answer));
            &&& same_but_for_stage(next, scaffold)
            &&& next.stage == Stage::Finished
            &&& turn.action == ActionView::Finish(Ok(()))
            &&& answer ==> turn.notices.len() == 1 && turn.notices[0]
                == NoticeView::InstallerStarted
            &&& !answer ==> turn.notices.len() == 0
        },
{
}

/// Whether a turn ends the scaffold with an error, and tells nothing.
pub open spec fn fails_with(turn: TurnView, message: Seq<char>) -> bool {
    only_does(turn, ActionView::Finish(Err(message)))
}

/// A failure ends the scaffold with a message that says what failed, where, and how. Nothing else
/// of the scaffold changes.
pub proof fn law_failures_say_what_failed(scaffold: ScaffoldView, e: Seq<char>)
    requires
        scaffold.ready(),
        scaffold.accepts(EventView::Failed(e)),
    ensures
        ({
            let (next, turn) = scaffold.next(EventView::Failed(e));
            let locations = scaffold.locations;
            let manifest = scaffold.manifest->Some_0;
            let place = if manifest.location is Some {
                manifest.location->Some_0
            } else {
                locations.manifest
            };
            &&& same_but_for_stage(next, scaffold)
            &&& next.stage == Stage::Finished
            &&& match scaffold.stage {
                Stage::SelectingPrograms => fails_with(
                    turn,
                    "unable to select programs to deploy: "@ + e,
                ),
                Stage::AskingName => fails_with(turn, "unable to get workspace name: "@ + e),
                Stage::CreatingManifest => fails_with(
                    turn,
                    "Failed to create Runbook manifest "@ + locations.manifest.text + ": "@ + e,
                ),
                Stage::OpeningManifest => fails_with(
                    turn,
                    "Failed to create Runbook manifest file "@ + place.text + ": "@ + e,
                ),
                Stage::WritingManifest => fails_with(
                    turn,
                    "Failed to render Runbook manifest: "@ + e,
                ),
                Stage::CreatingRunbooks => fails_with(
                    turn,
                    "unable to create parent directory "@ + locations.runbooks.text + "\n"@ + e,
                ),
                Stage::CreatingReadme => fails_with(
                    turn,
                    "Failed to create Runbook README "@ + locations.readme.text + ": "@ + e,
                ),
                Stage::WritingReadme => fails_with(turn, "Failed to render Runbook README: "@ + e),
                Stage::CreatingDeployment => fails_with(
                    turn,
                    "unable to create parent directory "@ + locations.deployment.text + "\n"@ + e,
                ),
                Stage::CreatingMain => fails_with(turn, "Runbook file creation failed: "@ + e),
                Stage::WritingMain => fails_with(turn, "Failed to write data to Runbook: "@ + e),
                Stage::CreatingSigner(_) => fails_with(
                    turn,
                    "Failed to create Runbook signer file: "@ + e,
                ),
                Stage::WritingSigner(_) => fails_with(
                    turn,
                    "Failed to write data to Runbook signer file: "@ + e,
                ),
                Stage::Confirming => fails_with(
                    turn,
                    "Failed to confirm write to runbook: "@ + e,
                ),
                _ => false,
            }
        }),
{
}

/// The manifest stands in the project, and all else in its directory of runbooks: the README, and
/// in a directory of its own the deployment with the signers of each network.
pub proof fn law_files_stand_in_their_places(locations: LocationsView, base: Seq<Seq<char>>)
    requires
        locations.stand_in(base),
    ensures
        locations.manifest.components == base + seq!["txtx.yml"@],
        locations.runbooks.components == base + seq!["runbooks"@],
        locations.readme.components == base + seq!["runbooks"@, "README.md"@],
        locations.deployment.components == base + seq!["runbooks"@, "deployment"@],
        locations.main.components == base + seq!["runbooks"@, "deployment"@, "main.tx"@],
        locations.localnet.components == base + seq![
            "runbooks"@,
            "deployment"@,
            "signers.localnet.tx"@,
        ],
        locations.devnet.components == base + seq![
            "runbooks"@,
            "deployment"@,
            "signers.devnet.tx"@,
        ],
        locations.mainnet.components == base + seq![
            "runbooks"@,
            "deployment"@,
            "signers.mainnet.tx"@,
        ],
        locations.manifest.on_disk && locations.runbooks.on_disk && locations.readme.on_disk,
        locations.deployment.on_disk && locations.main.on_disk && locations.localnet.on_disk,
        locations.devnet.on_disk && locations.mainnet.on_disk,
{
    assert(locations.manifest.components =~= base + seq!["txtx.yml"@]);
    assert(locations.runbooks.components =~= base + seq!["runbooks"@]);
    assert(locations.readme.components =~= base + seq!["runbooks"@, "README.md"@]);
    assert(locations.deployment.components =~= base + seq!["runbooks"@, "deployment"@]);
    assert(locations.main.components =~= base + seq!["runbooks"@, "deployment"@, "main.tx"@]);
    assert(locations.localnet.components =~= base + seq![
        "runbooks"@,
        "deployment"@,
        "signers.localnet.tx"@,
    ]);
    assert(locations.devnet.components =~= base + seq![
        "runbooks"@,
        "deployment"@,
        "signers.devnet.tx"@,
    ]);
    assert(locations.mainnet.components =~= base + seq![
        "runbooks"@,
        "deployment"@,
        "signers.mainnet.tx"@,
    ]);
}

/// Whether a text starts with one text and ends with another.
pub open spec fn starts_and_ends(text: Seq<char>, start: Seq<char>, end: Seq<char>) -> bool {
    start.is_prefix_of(text) && end.is_suffix_of(text)
}

/// A location displays as its directory, and then its own name at the end.
pub proof fn law_files_display_in_their_places(locations: LocationsView, base: Seq<char>)
    requires
        locations.display_in(base),
    ensures
        starts_and_ends(locations.manifest.text, base, "txtx.yml"@),
        starts_and_ends(locations.runbooks.text, base, "runbooks"@),
        starts_and_ends(locations.readme.text, locations.runbooks.text, "README.md"@),
        starts_and_ends(locations.deployment.text, locations.runbooks.text, "deployment"@),
        starts_and_ends(locations.main.text, locations.deployment.text, "main.tx"@),
        starts_and_ends(
            locations.localnet.text,
            locations.deployment.text,
            "signers.localnet.tx"@,
        ),
        starts_and_ends(locations.devnet.text, locations.deployment.text, "signers.devnet.tx"@),
        starts_and_ends(locations.mainnet.text, locations.deployment.text, "signers.mainnet.tx"@),
{
    let (runbooks, deployment) = (locations.runbooks.text, locations.deployment.text);
    lemma_entry_starts_and_ends(locations.manifest.text, base, "txtx.yml"@);
    lemma_entry_starts_and_ends(runbooks, base, "runbooks"@);
    lemma_entry_starts_and_ends(locations.readme.text, runbooks, "README.md"@);
    lemma_entry_starts_and_ends(deployment, runbooks, "deployment"@);
    lemma_entry_starts_and_ends(locations.main.text, deployment, "main.tx"@);
    lemma_entry_starts_and_ends(locations.localnet.text, deployment, "signers.localnet.tx"@);
    lemma_entry_starts_and_ends(locations.devnet.text, deployment, "signers.devnet.tx"@);
    lemma_entry_starts_and_ends(locations.mainnet.text, deployment, "signers.mainnet.tx"@);
}

/// An entry displays as its directory at the start and its name at the end.
proof fn lemma_entry_starts_and_ends(text: Seq<char>, parent: Seq<char>, name: Seq<char>)
    requires
        crate::location::entry_text(text, parent, name),
    ensures
        starts_and_ends(text, parent, name),
{
    assert(text.take(parent.len() as int) =~= parent);
    assert(text.skip(text.len() - name.len()) =~= name);
}

/// One turn of a run comes of one step: that from the scaffold before it.
proof fn lemma_turn_comes_of_its_step(scaffold: ScaffoldView, events: Seq<EventView>, k: int)
    requires
        crate::laws::accepted(scaffold, events),
        0 <= k < events.len(),
    ensures
        ({
            let before = crate::laws::after(scaffold, events.take(k));
            &&& crate::laws::accepted(scaffold, events.take(k))
            &&& before.accepts(events[k])
            &&& crate::laws::turns(scaffold, events).len() == events.len()
            &&& crate::laws::turns(scaffold, events)[k] == before.next(events[k]).1
            &&& crate::laws::after(scaffold, events.take(k + 1)) == before.next(events[k]).0
        }),
    decreases events.len(),
{
    crate::laws::lemma_one_turn_per_event(scaffold, events);
    crate::laws::lemma_one_turn_per_event(scaffold, events.drop_last());
    assert(events.take(k + 1).drop_last() =~= events.take(k));
    assert(events.take(k + 1).last() == events[k]);
    if k == events.len() - 1 {
        assert(events.take(k) =~= events.drop_last());
    } else {
        lemma_turn_comes_of_its_step(scaffold, events.drop_last(), k);
        assert(events.drop_last().take(k) =~= events.take(k));
    }
}

/// What a scaffold was started with stays through a whole run, but for the programs, the manifest
/// and the sources.
pub proof fn law_settings_stay_through_a_run(scaffold: ScaffoldView, events: Seq<EventView>)
    requires
        scaffold.ready(),
        crate::laws::accepted(scaffold, events),
    ensures
        ({
            let now = crate::laws::after(scaffold, events);
            &&& now.ready()
            &&& now.base == scaffold.base
            &&& now.framework == scaffold.framework
            &&& now.auto_generate_runbooks == scaffold.auto_generate_runbooks
            &&& now.keypair_path == scaffold.keypair_path
            &&& now.rpc_api_url == scaffold.rpc_api_url
            &&& now.locations == scaffold.locations
        }),
    decreases events.len(),
{
    if events.len() > 0 {
        law_settings_stay_through_a_run(scaffold, events.drop_last());
        let before = crate::laws::after(scaffold, events.drop_last());
        crate::laws::law_step_goes_further(before, events.last());
        crate::laws::law_settings_stay(before, events.last());
    }
}

/// In every turn of every run that renders templates, these are the header of the workspace, the
/// addon, the signers of the three networks, and behind them one deployment for each program to
/// deploy: by the name of the program, and with the framework that the scaffold was started with.
pub proof fn law_programs_are_deployed_with_their_framework(
    scaffold: ScaffoldView,
    events: Seq<EventView>,
    k: int,
    i: int,
)
    requires
        crate::laws::starting(scaffold),
        crate::laws::accepted(scaffold, events),
        0 <= k < events.len(),
        crate::laws::turns(scaffold, events)[k].action is Render,
    ensures
        are_its_templates(
            crate::laws::turns(scaffold, events)[k].action->Render_0,
            ScaffoldView {
                keypair_path: scaffold.keypair_path,
                ..crate::laws::after(scaffold, events.take(k + 1))
            },
            scaffold.framework,
            i,
        ),
{
    lemma_turn_comes_of_its_step(scaffold, events, k);
    let before = crate::laws::after(scaffold, events.take(k));
    let now = crate::laws::after(scaffold, events.take(k + 1));
    law_settings_stay_through_a_run(scaffold, events.take(k));
    crate::laws::law_step_goes_further(before, events[k]);
    crate::laws::law_settings_stay(before, events[k]);
    lemma_rendered_templates_are_those_of_the_scaffold(before, events[k]);
    law_templates_of_a_scaffold(now, i);
}

/// A step that renders templates renders those of the scaffold that it leads to.
proof fn lemma_rendered_templates_are_those_of_the_scaffold(
    scaffold: ScaffoldView,
    event: EventView,
)
    requires
        scaffold.ready(),
        scaffold.accepts(event),
        scaffold.next(event).1.action is Render,
    ensures
        scaffold.next(event).0.manifest is Some,
        scaffold.next(event).1.action->Render_0 == scaffold.next(event).0.requests(),
{
}

/// The programs to deploy are those that the scaffold was started with, unless the user picked some:
/// then they are the ones that were picked, in that order.
pub proof fn law_programs_are_those_that_were_picked(
    scaffold: ScaffoldView,
    events: Seq<EventView>,
    j: int,
)
    requires
        crate::laws::starting(scaffold),
        crate::laws::accepted(scaffold, events),
    ensures
        ({
            let now = crate::laws::after(scaffold, events);
            &&& (forall|k: int| 0 <= k < events.len() ==> (#[trigger] events[k]) !is ProgramsSelected)
                ==> now.programs == scaffold.programs
            &&& 0 <= j < events.len() && events[j] is ProgramsSelected ==> picked(
                now.programs,
                scaffold.programs,
                events[j]->ProgramsSelected_0,
            )
        }),
    decreases events.len(),
{
    if events.len() > 0 {
        let before = events.drop_last();
        let was = crate::laws::after(scaffold, before);
        law_settings_stay_through_a_run(scaffold, before);
        law_programs_are_those_that_were_picked(scaffold, before, j);
        lemma_picking_comes_early(scaffold, before);
        crate::laws::law_settings_stay(was, events.last());
        assert((forall|k: int| 0 <= k < events.len() ==> (#[trigger] events[k]) !is ProgramsSelected)
            ==> forall|k: int| 0 <= k < before.len() ==> (#[trigger] before[k])
            !is ProgramsSelected) by {
            assert forall|k: int|
                0 <= k < before.len() && (forall|l: int|
                    0 <= l < events.len() ==> (#[trigger] events[l])
                        !is ProgramsSelected) implies (#[trigger] before[k])
                !is ProgramsSelected by {
                assert(before[k] == events[k]);
            }
        }
        if 0 <= j < events.len() && events[j] is ProgramsSelected && j == events.len() - 1 {
            let indices = events[j]->ProgramsSelected_0;
            assert(was.stage == Stage::SelectingPrograms);
            assert forall|i: int| 0 <= i < indices.len() implies #[trigger] crate::laws::after(
                scaffold,
                events,
            ).programs[i] == scaffold.programs[indices[i] as int] by {
                law_after_programs_were_picked(was, indices, i);
            }
            law_after_programs_were_picked(was, indices, 0);
        } else if 0 <= j < before.len() && events[j] is ProgramsSelected {
            assert(before[j] is ProgramsSelected);
            assert(events.last() !is ProgramsSelected);
        }
    }
}

/// Whether programs are those with the given indices among others, in the order of the indices.
pub open spec fn picked(
    programs: Seq<ProgramView>,
    all: Seq<ProgramView>,
    indices: Seq<usize>,
) -> bool {
    &&& programs.len() == indices.len()
    &&& forall|i: int| 0 <= i < indices.len() ==> #[trigger] programs[i] == all[indices[i] as int]
}

/// A scaffold that still waits for programs to be picked has had none picked, and has them all.
proof fn lemma_picking_comes_early(scaffold: ScaffoldView, events: Seq<EventView>)
    requires
        crate::laws::starting(scaffold),
        crate::laws::accepted(scaffold, events),
    ensures
        ({
            let now = crate::laws::after(scaffold, events);
            crate::layout::rank(now.stage) <= crate::layout::rank(Stage::SelectingPrograms) ==> {
                &&& now.programs == scaffold.programs
                &&& forall|k: int|
                    0 <= k < events.len() ==> (#[trigger] events[k]) !is ProgramsSelected
            }
        }),
    decreases events.len(),
{
    if events.len() > 0 {
        let before = events.drop_last();
        let was = crate::laws::after(scaffold, before);
        lemma_picking_comes_early(scaffold, before);
        law_settings_stay_through_a_run(scaffold, before);
        crate::laws::law_step_goes_further(was, events.last());
        crate::laws::law_settings_stay(was, events.last());
        assert forall|k: int|
            0 <= k < events.len() && crate::layout::rank(
                crate::laws::after(scaffold, events).stage,
            ) <= crate::layout::rank(Stage::SelectingPrograms) implies (#[trigger] events[k])
            !is ProgramsSelected by {
            if k < before.len() {
                assert(before[k] == events[k]);
            }
        }
    }
}

/// Whether a manifest is another one that took up the deployment and the networks, or is about to:
/// it has the same name, identifier and location, and all runbooks of the other in their places.
pub open spec fn keeps(manifest: ManifestView, read: ManifestView) -> bool {
    &&& manifest.name == read.name
    &&& manifest.id == read.id
    &&& manifest.location == read.location
    &&& manifest.runbooks.len() >= read.runbooks.len()
    &&& forall|i: int|
        0 <= i < read.runbooks.len() ==> #[trigger] manifest.runbooks[i] == read.runbooks[i]
    &&& manifest.environments.len() >= read.environments.len()
    &&& forall|i: int|
        0 <= i < read.environments.len() && (#[trigger] read.environments[i]).0 != "localnet"@
            && read.environments[i].0 != "devnet"@ ==> manifest.environments[i]
            == read.environments[i]
}

/// Whether a manifest lists a deployment, and has both networks as the scaffold sets them.
pub open spec fn took_up(
    manifest: ManifestView,
    rpc_api_url: Seq<char>,
    keypair_path: Seq<char>,
) -> bool {
    &&& exists|i: int|
        0 <= i < manifest.runbooks.len() && (#[trigger] manifest.runbooks[i]).name == "deployment"@
    &&& manifest.environments.contains(
        ("localnet"@, seq![("network_id"@, "localnet"@), ("rpc_api_url"@, rpc_api_url)]),
    )
    &&& manifest.environments.contains(
        (
            "devnet"@,
            seq![
                ("network_id"@, "devnet"@),
                ("rpc_api_url"@, "https://api.devnet.solana.com"@),
                ("payer_keypair_json"@, keypair_path),
                ("authority_keypair_json"@, keypair_path),
            ],
        ),
    )
}

/// A manifest that took up the deployment and the networks keeps all else.
proof fn lemma_taking_up_keeps(
    manifest: ManifestView,
    rpc_api_url: Seq<char>,
    keypair_path: Seq<char>,
)
    ensures
        keeps(manifest.deploying().networked(rpc_api_url, keypair_path), manifest),
        took_up(
            manifest.deploying().networked(rpc_api_url, keypair_path),
            rpc_api_url,
            keypair_path,
        ),
{
    let deploying = manifest.deploying();
    let after = deploying.networked(rpc_api_url, keypair_path);
    crate::manifest::law_deployment_is_taken_up(manifest);
    crate::manifest::law_networks_are_taken_up(deploying, rpc_api_url, keypair_path);
    crate::laws::law_deployment_is_listed_once(manifest);
    assert forall|i: int| 0 <= i < manifest.runbooks.len() implies #[trigger] after.runbooks[i]
        == manifest.runbooks[i] by {
        assert(deploying.runbooks[i] == manifest.runbooks[i]);
    }
    assert(exists|i: int|
        0 <= i < after.runbooks.len() && (#[trigger] after.runbooks[i]).name == "deployment"@);
}

/// The stages at which the manifest of a scaffold is complete.
pub open spec fn manifest_is_complete(stage: Stage) -> bool {
    crate::layout::rank(Stage::RenderingTemplates) < crate::layout::rank(stage)
        < crate::layout::rank(Stage::Finished)
}

/// In every run, whether or not the user is asked, a scaffold that read a manifest keeps it. No name
/// is wanted or asked for. All that the manifest holds stays: its name, its identifier, its location,
/// its runbooks and its other environments; and by the time that it is written it lists a deployment
/// and has both networks.
pub proof fn law_manifest_that_was_read_is_kept(
    scaffold: ScaffoldView,
    events: Seq<EventView>,
    read: ManifestView,
    k: int,
)
    requires
        crate::laws::starting(scaffold),
        crate::laws::accepted(scaffold, events),
        events.len() > 0,
        events[0] == EventView::ManifestLoaded(Some(read)),
    ensures
        0 <= k < events.len() ==> {
            &&& crate::laws::turns(scaffold, events)[k].action !is AskName
            &&& crate::laws::turns(scaffold, events)[k].action !is ReadDirectoryName
        },
        ({
            let now = crate::laws::after(scaffold, events);
            &&& now.manifest is Some
            &&& keeps(now.manifest->Some_0, read)
            &&& manifest_is_complete(now.stage) ==> took_up(
                now.manifest->Some_0,
                scaffold.rpc_api_url,
                scaffold.keypair_path,
            )
            &&& now.stage == Stage::SelectingPrograms || now.stage == Stage::RenderingTemplates
                ==> now.manifest->Some_0 == read
            &&& now.stage != Stage::LoadingManifest
            &&& now.stage != Stage::ReadingDirectoryName
            &&& now.stage != Stage::AskingName
        }),
    decreases events.len(),
{
    let before = events.drop_last();
    let was = crate::laws::after(scaffold, before);
    crate::laws::lemma_one_turn_per_event(scaffold, before);
    law_settings_stay_through_a_run(scaffold, before);
    crate::laws::law_step_goes_further(was, events.last());
    crate::laws::law_settings_stay(was, events.last());
    if before.len() > 0 {
        law_manifest_that_was_read_is_kept(scaffold, before, read, k);
        lemma_taking_up_keeps(read, scaffold.rpc_api_url, scaffold.keypair_path);
        lemma_manifest_is_kept_by_a_step(was, events.last(), read);
    } else {
        assert(was == scaffold);
        law_after_the_manifest_was_looked_for(scaffold, Some(read), 0);
    }
}

/// One step of a scaffold that keeps the manifest it read.
proof fn lemma_manifest_is_kept_by_a_step(
    scaffold: ScaffoldView,
    event: EventView,
    read: ManifestView,
)
    requires
        scaffold.ready(),
        scaffold.accepts(event),
        scaffold.manifest is Some,
        scaffold.stage != Stage::LoadingManifest,
        scaffold.stage != Stage::ReadingDirectoryName,
        scaffold.stage != Stage::AskingName,
        scaffold.stage == Stage::SelectingPrograms || scaffold.stage == Stage::RenderingTemplates
            ==> scaffold.manifest->Some_0 == read,
    ensures
        ({
            let (next, turn) = scaffold.next(event);
            &&& next.manifest is Some
            &&& turn.action !is AskName
            &&& turn.action !is ReadDirectoryName
            &&& next.stage != Stage::LoadingManifest
            &&& next.stage != Stage::SelectingPrograms
            &&& next.stage != Stage::ReadingDirectoryName
            &&& next.stage != Stage::AskingName
            &&& next.stage == Stage::RenderingTemplates ==> next.manifest->Some_0 == read
            &&& scaffold.stage != Stage::RenderingTemplates ==> next.manifest == scaffold.manifest
            &&& scaffold.stage == Stage::RenderingTemplates ==> next.manifest->Some_0
                == read.deploying().networked(scaffold.rpc_api_url, scaffold.keypair_path)
            &&& manifest_is_complete(next.stage) ==> scaffold.stage == Stage::RenderingTemplates
                || manifest_is_complete(scaffold.stage)
        }),
{
    crate::laws::law_step_goes_further(scaffold, event);
}

/// A scaffold that found no manifest makes a new one. It is called what the user entered, or, where
/// nothing is to be asked, what the working directory is called.
pub proof fn law_new_manifest_is_called_as_was_said(
    scaffold: ScaffoldView,
    events: Seq<EventView>,
    name: Seq<char>,
)
    requires
        crate::laws::starting(scaffold),
        crate::laws::accepted(scaffold, events),
        events.len() > 0,
        crate::laws::after(scaffold, events).stage == Stage::RenderingTemplates,
        events[0] == EventView::ManifestLoaded(None),
        events.last() == EventView::NameEntered(name) || scaffold.auto_generate_runbooks
            && events.last() == EventView::DirectoryName(Some(name)),
    ensures
        newly_named(crate::laws::after(scaffold, events).manifest, name),
{
    let before = crate::laws::after(scaffold, events.drop_last());
    law_settings_stay_through_a_run(scaffold, events.drop_last());
    law_new_workspace_gets_its_name(before, Some(name), name);
}

/// What every location displays as ends with its own name, wherever the project is.
pub proof fn law_files_have_their_names(locations: LocationsView)
    requires
        locations.are_named(),
    ensures
        "txtx.yml"@.is_suffix_of(locations.manifest.text),
        "runbooks"@.is_suffix_of(locations.runbooks.text),
        "README.md"@.is_suffix_of(locations.readme.text),
        "deployment"@.is_suffix_of(locations.deployment.text),
        "main.tx"@.is_suffix_of(locations.main.text),
        "signers.localnet.tx"@.is_suffix_of(locations.localnet.text),
        "signers.devnet.tx"@.is_suffix_of(locations.devnet.text),
        "signers.mainnet.tx"@.is_suffix_of(locations.mainnet.text),
{
}

/// The questions that go with the actions of a scaffold are worded as follows. A mere return
/// confirms.
pub proof fn law_questions_are_worded()
    ensures
        crate::layout::SELECT_PROMPT@ == "Select the programs to deploy (all by default):"@,
        crate::layout::NAME_PROMPT@ == "Enter the name of this workspace"@,
        crate::layout::CONFIRM_PROMPT@
            == "Review your deployment in 'runbooks/deployment/main.tx' and confirm to continue"@,
        crate::layout::CONFIRM_DEFAULT,
{
}

/// A scaffold is ready exactly if it has the manifest from the rendering of the templates on, and
/// the sources behind that, until it ends.
pub proof fn law_scaffold_is_ready_with_what_it_needs(scaffold: ScaffoldView)
    ensures
        scaffold.ready() <==> match scaffold.stage {
            Stage::LoadingManifest
            | Stage::SelectingPrograms
            | Stage::ReadingDirectoryName
            | Stage::AskingName
            | Stage::Finished => true,
            Stage::RenderingTemplates => scaffold.manifest is Some,
            _ => scaffold.manifest is Some && scaffold.sources is Some,
        },
{
}

/// A manifest that renders is written where it was read, or to its place in a new project, exactly
/// as it renders. One that does not ends the scaffold with what is wrong.
pub proof fn law_rendering_of_the_manifest_decides(
    scaffold: ScaffoldView,
    rendering: Result<Result<Seq<char>, Seq<char>>, Seq<char>>,
)
    requires
        scaffold.manifest is Some,
    ensures
        ({
            let (next, turn) = scaffold.recording(rendering);
            let location = scaffold.manifest->Some_0.location;
            &&& same_but_for_stage(next, scaffold)
            &&& rendering is Ok && rendering->Ok_0 is Ok ==> {
                &&& next.stage == Stage::WritingManifest
                &&& turn.notices.len() == 0
                &&& turn.action is WriteFile
                &&& turn.action->WriteFile_1 == rendering->Ok_0->Ok_0
                &&& location is Some ==> turn.action->WriteFile_0 == location->Some_0
                &&& location is None ==> turn.action->WriteFile_0 == scaffold.locations.manifest
            }
            &&& rendering is Ok && rendering->Ok_0 is Err ==> {
                &&& next.stage == Stage::Finished
                &&& fails_with(
                    turn,
                    "Failed to render Runbook manifest: "@ + rendering->Ok_0->Err_0,
                )
            }
            &&& rendering is Err ==> {
                &&& next.stage == Stage::Finished
                &&& fails_with(turn, "Failed to generate Runbook manifest: "@ + rendering->Err_0)
            }
        }),
{
}

} // verus!
