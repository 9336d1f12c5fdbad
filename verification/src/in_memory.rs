//! The deployment of a project that is scaffolded in memory, without writing a file.

use crate::framework::{Framework, ProgramMetadata, ProgramView};
use crate::manifest::{Manifest, ManifestView, RunbookView};
use crate::templates::{RequestView, TemplateRequest};
use txtx_core::kit::helpers::fs::FileLocation;
use txtx_core::types::RunbookSources;
use vstd::prelude::*;

verus! {

/// `RunbookSources`: the sources of a runbook, by the location of their file.
#[verifier::external_type_specification]
#[verifier::external_body]
pub struct ExRunbookSources(txtx_core::types::RunbookSources);

/// The sources that a collection of them holds: by what its location displays as, the name of the
/// runbook and the content.
pub uninterp spec fn sources_of(sources: RunbookSources) -> Map<
    Seq<char>,
    (Seq<char>, Seq<char>),
>;

/// A collection without sources.
pub open spec fn no_sources() -> Map<Seq<char>, (Seq<char>, Seq<char>)> {
    Map::empty()
}

/// `RunbookSources::new`: there are none.
pub assume_specification[ RunbookSources::new ]() -> (sources: RunbookSources)
    ensures
        sources_of(sources) == no_sources(),
;

/// `RunbookSources::add_source`, where there are no sources yet: the one that is added is then the
/// only one. Which locations count as the same one among several is not said.
pub assume_specification[ RunbookSources::add_source ](
    sources: &mut RunbookSources,
    name: String,
    location: FileLocation,
    content: String,
)
    ensures
        sources_of(*old(sources)) == no_sources() ==> sources_of(*final(sources)) == map![
            crate::location::location_text(location) => (name@, content@)
        ],
;

/// The entries of an optional list: none where there is no list.
pub open spec fn entries<T>(list: Option<Vec<T>>) -> Seq<T> {
    match list {
        Some(list) => list@,
        None => Seq::empty(),
    }
}

/// The source of a runbook in memory: its pieces, and the setup of the network if there is any.
pub open spec fn in_memory_source(pieces: Seq<Seq<char>>, setup: Option<Seq<char>>) -> Seq<char> {
    match setup {
        Some(setup) => crate::text::concatenation(pieces) + setup,
        None => crate::text::concatenation(pieces),
    }
}

/// Whether a manifest is that of a runbook in memory: it is named after that, lists the deployment
/// alone, and has the local network at `rpc_api_url` as its only environment.
pub open spec fn in_memory_manifest(manifest: ManifestView, rpc_api_url: Seq<char>) -> bool {
    &&& manifest.name == "memory"@
    &&& manifest.id == "memory"@
    &&& manifest.location is None
    &&& manifest.runbooks.len() == 1
    &&& manifest.runbooks[0].name == "deployment"@
    &&& manifest.runbooks[0].description == Some("Deploy programs"@)
    &&& manifest.runbooks[0].state is None
    &&& crate::manifest::runbook_path(
        manifest.runbooks[0].location,
        "deployment"@,
        "deployment"@,
    )
    &&& manifest.environments == seq![
        ("localnet"@, crate::environments::localnet_inputs(rpc_api_url)),
    ]
}

/// Whether `scaffold` is the deployment in memory with the given source: the name of the runbook,
/// its only source in the working directory, and its manifest.
pub open spec fn in_memory_scaffold(
    scaffold: (String, RunbookSources, Manifest),
    source: Seq<char>,
    rpc_api_url: Seq<char>,
) -> bool {
    &&& scaffold.0@ == "deployment"@
    &&& sources_of(scaffold.1) == map!["."@ => ("deployment"@, source)]
    &&& in_memory_manifest(scaffold.2@, rpc_api_url)
}

/// Whether the templates of a runbook render as `rendering` says.
pub open spec fn renders_as<F: Fn(&TemplateRequest) -> String>(
    render: F,
    rendering: spec_fn(RequestView) -> Seq<char>,
) -> bool {
    forall|request: &TemplateRequest, text: String| #[trigger]
        call_ensures(render, (request,), text) ==> text@ == rendering(request@)
}

/// Whether the setup of the network renders as `setup` says.
pub open spec fn sets_up_as<G, A, D, F: FnOnce(Framework, &[G], &[A], &[D]) -> Option<String>>(
    setup_surfnet: F,
    setup: spec_fn(Framework, Seq<G>, Seq<A>, Seq<D>) -> Option<Seq<char>>,
) -> bool {
    forall|framework: Framework, g: &[G], a: &[A], d: &[D], text: Option<String>| #[trigger]
        call_ensures(setup_surfnet, (framework, g, a, d), text) ==> crate::manifest::optional_text(
            text,
        ) == setup(framework, g@, a@, d@)
}

/// The source of the deployment of programs in memory, where the templates render as `rendering`
/// says and the setup of the network as `setup` says.
pub open spec fn in_memory_text<G, A, D>(
    framework: Framework,
    programs: Seq<ProgramView>,
    genesis_accounts: Option<Vec<G>>,
    accounts: Option<Vec<A>>,
    accounts_dir: Option<Vec<D>>,
    artifacts_path: Option<Seq<char>>,
    keypair_path: Seq<char>,
    rendering: spec_fn(RequestView) -> Seq<char>,
    setup: spec_fn(Framework, Seq<G>, Seq<A>, Seq<D>) -> Option<Seq<char>>,
) -> Seq<char> {
    in_memory_source(
        crate::templates::in_memory_pieces(
            framework,
            programs,
            artifacts_path,
            keypair_path,
        ).map_values(rendering),
        setup(framework, entries(genesis_accounts), entries(accounts), entries(accounts_dir)),
    )
}

/// Puts the deployment in memory together from its pieces and the setup of the network, as their
/// templates were rendered.
pub fn assemble_in_memory_iac(
    pieces: &Vec<String>,
    setup: Option<String>,
    network_host: &str,
    rpc_port: u16,
) -> (scaffold: (String, RunbookSources, Manifest))
    ensures
        in_memory_scaffold(
            scaffold,
            in_memory_source(
                crate::text::texts(pieces@),
                crate::manifest::optional_text(setup),
            ),
            crate::text::endpoint(network_host@, rpc_port),
        ),
{
    let ghost rendered = crate::text::texts(pieces@);
    let mut source = crate::text::append_all(String::new(), pieces, 0);
    proof {
        assert(rendered.skip(0) =~= rendered);
        assert(source@ =~= crate::text::concatenation(rendered));
    }
    match &setup {
        Some(setup) => {
            source.append(setup.as_str());
        },
        None => {},
    }
    proof {
        lemma_names();
    }
    let runbook_id = "deployment";
    let runbook = crate::manifest::new_runbook(
        runbook_id,
        runbook_id,
        Some("Deploy programs".to_string()),
    );
    let rpc_api_url = crate::text::endpoint_text(network_host, rpc_port);
    let manifest = Manifest::new("memory".to_string()).add_runbook(runbook).set_localnet(
        rpc_api_url.as_str(),
    );
    proof {
        assert(manifest@.environments =~= seq![
            ("localnet"@, crate::environments::localnet_inputs(rpc_api_url@)),
        ]);
    }
    let mut sources = RunbookSources::new();
    sources.add_source(runbook_id.to_string(), FileLocation::working_dir(), source);
    (runbook_id.to_string(), sources, manifest)
}

/// The deployment can be part of a path, and `memory` is its own identifier.
proof fn lemma_names()
    ensures
        crate::location::plain_name("deployment"@),
        crate::manifest::all_ascii("memory"@),
        crate::manifest::slug("memory"@) == "memory"@,
{
    reveal_strlit("deployment");
    reveal_strlit("memory");
    let name = "memory"@;
    assert(crate::manifest::slug(name) =~= name) by {
        reveal_with_fuel(crate::manifest::slug, 7);
        let n5 = name.drop_last();
        let n4 = n5.drop_last();
        let n3 = n4.drop_last();
        let n2 = n3.drop_last();
        let n1 = n2.drop_last();
        assert(n1.drop_last().len() == 0);
    }
}

/// Scaffolds the deployment of the programs of a project in memory. `render` writes a piece of the
/// runbook from its template, and `setup_surfnet` the setup of the network, if the framework has
/// any, from the accounts that the project wants in it. Programs without a `.so` file are skipped.
pub fn scaffold_in_memory_iac<G, A, D>(
    framework: Framework,
    programs: &[ProgramMetadata],
    genesis_accounts: &Option<Vec<G>>,
    accounts: &Option<Vec<A>>,
    accounts_dir: &Option<Vec<D>>,
    artifacts_path: Option<&str>,
    keypair_path: &str,
    network_host: &str,
    rpc_port: u16,
    render: impl Fn(&TemplateRequest) -> String,
    setup_surfnet: impl FnOnce(Framework, &[G], &[A], &[D]) -> Option<String>,
) -> (r: Result<(String, RunbookSources, Manifest), String>)
    requires
        forall|request: &TemplateRequest| call_requires(render, (request,)),
        forall|g: &[G], a: &[A], d: &[D]|
            #![trigger call_requires(setup_surfnet, (framework, g, a, d))]
            g@ == entries(*genesis_accounts) && a@ == entries(*accounts) && d@ == entries(
                *accounts_dir,
            ) ==> call_requires(setup_surfnet, (framework, g, a, d)),
    ensures
        r is Ok,
        exists|requests: Seq<TemplateRequest>, pieces: Seq<String>, setup: Option<String>|
            {
                &&& #[trigger] crate::templates::request_views(requests)
                    == crate::templates::in_memory_pieces(
                    framework,
                    crate::framework::program_views(programs@),
                    crate::templates::optional_slice(artifacts_path),
                    keypair_path@,
                )
                &&& pieces.len() == requests.len()
                &&& forall|i: int|
                    0 <= i < pieces.len() ==> call_ensures(
                        render,
                        (&requests[i],),
                        #[trigger] pieces[i],
                    )
                &&& exists|g: &[G], a: &[A], d: &[D]|
                    #![trigger call_ensures(setup_surfnet, (framework, g, a, d), setup)]
                    {
                        &&& g@ == entries(*genesis_accounts)
                        &&& a@ == entries(*accounts)
                        &&& d@ == entries(*accounts_dir)
                        &&& call_ensures(setup_surfnet, (framework, g, a, d), setup)
                    }
                &&& in_memory_scaffold(
                    r->Ok_0,
                    #[trigger] in_memory_source(
                        crate::text::texts(pieces),
                        crate::manifest::optional_text(setup),
                    ),
                    crate::text::endpoint(network_host@, rpc_port),
                )
            },
        forall|
            rendering: spec_fn(RequestView) -> Seq<char>,
            setup: spec_fn(Framework, Seq<G>, Seq<A>, Seq<D>) -> Option<Seq<char>>,
        |
            #[trigger] renders_as(render, rendering) && #[trigger] sets_up_as(setup_surfnet, setup)
                ==> in_memory_scaffold(
                r->Ok_0,
                in_memory_text(
                    framework,
                    crate::framework::program_views(programs@),
                    *genesis_accounts,
                    *accounts,
                    *accounts_dir,
                    crate::templates::optional_slice(artifacts_path),
                    keypair_path@,
                    rendering,
                    setup,
                ),
                crate::text::endpoint(network_host@, rpc_port),
            ),
{
    let requests = crate::templates::in_memory_requests(
        framework,
        programs,
        artifacts_path,
        keypair_path,
    );
    let mut pieces: Vec<String> = Vec::new();
    let mut i: usize = 0;
    while i < requests.len()
        invariant
            i <= requests.len(),
            pieces.len() == i,
            forall|request: &TemplateRequest| call_requires(render, (request,)),
            forall|j: int|
                0 <= j < pieces.len() ==> call_ensures(
                    render,
                    (&requests@[j],),
                    #[trigger] pieces@[j],
                ),
        decreases requests.len() - i,
    {
        let piece = render(&requests[i]);
        pieces.push(piece);
        i = i + 1;
    }
    let no_genesis: Vec<G> = Vec::new();
    let no_accounts: Vec<A> = Vec::new();
    let no_dirs: Vec<D> = Vec::new();
    let g: &[G] = match genesis_accounts {
        Some(list) => list.as_slice(),
        None => no_genesis.as_slice(),
    };
    let a: &[A] = match accounts {
        Some(list) => list.as_slice(),
        None => no_accounts.as_slice(),
    };
    let d: &[D] = match accounts_dir {
        Some(list) => list.as_slice(),
        None => no_dirs.as_slice(),
    };
    let setup = setup_surfnet(framework, g, a, d);
    let ghost rendered_setup = setup;
    let scaffold = assemble_in_memory_iac(&pieces, setup, network_host, rpc_port);
    proof {
        assert(call_ensures(setup_surfnet, (framework, g, a, d), rendered_setup));
        assert(crate::templates::request_views(requests@) == crate::templates::in_memory_pieces(
            framework,
            crate::framework::program_views(programs@),
            crate::templates::optional_slice(artifacts_path),
            keypair_path@,
        ));
        let views = crate::templates::request_views(requests@);
        assert forall|
            rendering: spec_fn(RequestView) -> Seq<char>,
            setup: spec_fn(Framework, Seq<G>, Seq<A>, Seq<D>) -> Option<Seq<char>>,
        |
            #[trigger] renders_as(render, rendering) && #[trigger] sets_up_as(
                setup_surfnet,
                setup,
            ) implies in_memory_scaffold(
            scaffold,
            in_memory_text(
                framework,
                crate::framework::program_views(programs@),
                *genesis_accounts,
                *accounts,
                *accounts_dir,
                crate::templates::optional_slice(artifacts_path),
                keypair_path@,
                rendering,
                setup,
            ),
            crate::text::endpoint(network_host@, rpc_port),
        ) by {
            assert(crate::text::texts(pieces@) =~= views.map_values(rendering)) by {
                assert forall|j: int| 0 <= j < pieces.len() implies #[trigger] pieces@[j]@
                    == rendering(views[j]) by {
                    assert(call_ensures(render, (&requests@[j],), pieces@[j]));
                }
            }
        }
    }
    Ok(scaffold)
}

/// Whether two texts are the same path, each with the path separator of some platform.
pub open spec fn same_path(first: Seq<char>, second: Seq<char>) -> bool {
    &&& first.len() == second.len()
    &&& forall|i: int|
        0 <= i < first.len() ==> {
            ||| #[trigger] first[i] == second[i]
            ||| (first[i] == '/' || first[i] == '\\') && (second[i] == '/' || second[i] == '\\')
        }
}

/// Whether two manifests are the same, but for the path separators in the locations of runbooks.
pub open spec fn same_manifest(first: ManifestView, second: ManifestView) -> bool {
    &&& first == (ManifestView { runbooks: first.runbooks, ..second })
    &&& first.runbooks.len() == second.runbooks.len()
    &&& forall|i: int|
        0 <= i < first.runbooks.len() ==> {
            &&& #[trigger] first.runbooks[i] == (RunbookView {
                location: first.runbooks[i].location,
                ..second.runbooks[i]
            })
            &&& same_path(first.runbooks[i].location, second.runbooks[i].location)
        }
}

/// Whether two deployments in memory are the same: the name of the runbook, its source and the
/// manifest, but for the path separator in the location of the runbook, which the platform gives.
pub open spec fn same_scaffold(
    first: (String, RunbookSources, Manifest),
    second: (String, RunbookSources, Manifest),
) -> bool {
    &&& first.0@ == second.0@
    &&& sources_of(first.1) == sources_of(second.1)
    &&& same_manifest(first.2@, second.2@)
}

/// Whether the location of the runbook in memory is written with the given path separator.
pub open spec fn separated_by(manifest: ManifestView, separator: char) -> bool {
    manifest.runbooks[0].location == crate::manifest::runbook_file(
        "deployment"@,
        "deployment"@,
        separator,
    )
}

/// Whether two manifests that are written with the same path separator, as they are on one
/// platform, are wholly the same.
pub open spec fn same_on_one_platform(first: ManifestView, second: ManifestView) -> bool {
    forall|separator: char|
        #[trigger] separated_by(first, separator) && #[trigger] separated_by(second, separator)
            ==> first == second
}

/// Whether two optional lists are the same, where a missing list is as good as an empty one.
pub open spec fn same_list<T>(first: Option<Vec<T>>, second: Option<Vec<T>>) -> bool {
    first == second || entries(first).len() == 0 && entries(second).len() == 0
}

/// The name of the runbook and the manifest of a deployment in memory depend on nothing but the
/// endpoint of the local network: any two deployments with the same one have the same.
pub proof fn law_manifest_in_memory_is_fixed(
    first: (String, RunbookSources, Manifest),
    second: (String, RunbookSources, Manifest),
    first_source: Seq<char>,
    second_source: Seq<char>,
    rpc_api_url: Seq<char>,
)
    requires
        in_memory_scaffold(first, first_source, rpc_api_url),
        in_memory_scaffold(second, second_source, rpc_api_url),
    ensures
        first.0@ == second.0@,
        same_manifest(first.2@, second.2@),
        same_on_one_platform(first.2@, second.2@),
        exists|separator: char| #[trigger] separated_by(first.2@, separator),
{
    assert forall|separator: char|
        #[trigger] separated_by(first.2@, separator) && #[trigger] separated_by(
            second.2@,
            separator,
        ) implies first.2@ == second.2@ by {
        assert(first.2@.runbooks =~= second.2@.runbooks);
    }
    let separator = choose|separator: char|
        (separator == '/' || separator == '\\') && first.2@.runbooks[0].location
            == #[trigger] crate::manifest::runbook_file("deployment"@, "deployment"@, separator);
    assert(separated_by(first.2@, separator));
}

/// Programs whose `.so` file was not found play no part: without them the deployment in memory is
/// the same.
pub proof fn law_unbuilt_programs_play_no_part<G, A, D>(
    first: (String, RunbookSources, Manifest),
    second: (String, RunbookSources, Manifest),
    framework: Framework,
    programs: Seq<ProgramView>,
    genesis_accounts: Option<Vec<G>>,
    accounts: Option<Vec<A>>,
    accounts_dir: Option<Vec<D>>,
    artifacts_path: Option<Seq<char>>,
    keypair_path: Seq<char>,
    rpc_api_url: Seq<char>,
    rendering: spec_fn(RequestView) -> Seq<char>,
    setup: spec_fn(Framework, Seq<G>, Seq<A>, Seq<D>) -> Option<Seq<char>>,
)
    requires
        in_memory_scaffold(
            first,
            in_memory_text(
                framework,
                programs,
                genesis_accounts,
                accounts,
                accounts_dir,
                artifacts_path,
                keypair_path,
                rendering,
                setup,
            ),
            rpc_api_url,
        ),
        in_memory_scaffold(
            second,
            in_memory_text(
                framework,
                crate::templates::built(programs),
                genesis_accounts,
                accounts,
                accounts_dir,
                artifacts_path,
                keypair_path,
                rendering,
                setup,
            ),
            rpc_api_url,
        ),
    ensures
        same_scaffold(first, second),
        same_on_one_platform(first.2@, second.2@),
{
    lemma_built_once(programs);
    law_manifest_in_memory_is_fixed(
        first,
        second,
        sources_of(first.1)["."@].1,
        sources_of(second.1)["."@].1,
        rpc_api_url,
    );
}

/// Of the programs whose `.so` file was found, all were found.
proof fn lemma_built_once(programs: Seq<ProgramView>)
    ensures
        crate::templates::built(crate::templates::built(programs)) == crate::templates::built(
            programs,
        ),
    decreases programs.len(),
{
    reveal(Seq::filter);
    if programs.len() > 0 {
        let before = crate::templates::built(programs.drop_last());
        lemma_built_once(programs.drop_last());
        assert(before.push(programs.last()).drop_last() =~= before);
    }
}

/// A missing list of accounts is as good as an empty one: the deployment in memory is the same.
pub proof fn law_missing_list_is_an_empty_one<G, A, D>(
    first: (String, RunbookSources, Manifest),
    second: (String, RunbookSources, Manifest),
    framework: Framework,
    programs: Seq<ProgramView>,
    first_lists: (Option<Vec<G>>, Option<Vec<A>>, Option<Vec<D>>),
    second_lists: (Option<Vec<G>>, Option<Vec<A>>, Option<Vec<D>>),
    artifacts_path: Option<Seq<char>>,
    keypair_path: Seq<char>,
    rpc_api_url: Seq<char>,
    rendering: spec_fn(RequestView) -> Seq<char>,
    setup: spec_fn(Framework, Seq<G>, Seq<A>, Seq<D>) -> Option<Seq<char>>,
)
    requires
        same_list(first_lists.0, second_lists.0),
        same_list(first_lists.1, second_lists.1),
        same_list(first_lists.2, second_lists.2),
        in_memory_scaffold(
            first,
            in_memory_text(
                framework,
                programs,
                first_lists.0,
                first_lists.1,
                first_lists.2,
                artifacts_path,
                keypair_path,
                rendering,
                setup,
            ),
            rpc_api_url,
        ),
        in_memory_scaffold(
            second,
            in_memory_text(
                framework,
                programs,
                second_lists.0,
                second_lists.1,
                second_lists.2,
                artifacts_path,
                keypair_path,
                rendering,
                setup,
            ),
            rpc_api_url,
        ),
    ensures
        same_scaffold(first, second),
        same_on_one_platform(first.2@, second.2@),
{
    assert(entries(first_lists.0) =~= entries(second_lists.0));
    assert(entries(first_lists.1) =~= entries(second_lists.1));
    assert(entries(first_lists.2) =~= entries(second_lists.2));
    law_manifest_in_memory_is_fixed(
        first,
        second,
        sources_of(first.1)["."@].1,
        sources_of(second.1)["."@].1,
        rpc_api_url,
    );
}

/// A list that is given has its entries, and a missing one none.
pub proof fn law_given_entries_are_kept<T>(list: Vec<T>)
    ensures
        entries(Some(list)) == list@,
        entries(None::<Vec<T>>).len() == 0,
{
}

/// The source in memory grows piece by piece at its end, and the setup of the network, if there is
/// any, comes behind all of them.
pub proof fn law_source_grows_at_its_end(
    pieces: Seq<Seq<char>>,
    piece: Seq<char>,
    setup: Seq<char>,
)
    ensures
        in_memory_source(Seq::empty(), None) == Seq::<char>::empty(),
        in_memory_source(pieces.push(piece), None) == in_memory_source(pieces, None) + piece,
        in_memory_source(pieces, Some(setup)) == in_memory_source(pieces, None) + setup,
{
    assert(pieces.push(piece).drop_last() =~= pieces);
}

/// The source of a deployment in memory is the rendered addon, the rendered signers of the local
/// network, the rendered deployment of each built program in order, each with the given framework
/// and the given path of the artifacts, and the setup that the network gets for that framework from
/// the accounts that were given.
pub proof fn law_source_in_memory_is_that_of_the_programs<G, A, D>(
    framework: Framework,
    programs: Seq<ProgramView>,
    genesis_accounts: Vec<G>,
    accounts: Vec<A>,
    accounts_dir: Vec<D>,
    artifacts_path: Option<Seq<char>>,
    keypair_path: Seq<char>,
    rendering: spec_fn(RequestView) -> Seq<char>,
    setup: spec_fn(Framework, Seq<G>, Seq<A>, Seq<D>) -> Option<Seq<char>>,
)
    ensures
        ({
            let built = crate::templates::built(programs);
            let addon = rendering(
                RequestView::Addon {
                    rpc_api_url: "input.rpc_api_url"@,
                    network_id: "input.network_id"@,
                },
            );
            let signer = rendering(
                RequestView::LocalnetSigner { keypair: seq!['"'] + keypair_path + seq!['"'] },
            );
            let deployments = Seq::new(
                built.len(),
                |i: int|
                    rendering(
                        RequestView::InMemoryProgram {
                            framework,
                            name: built[i].name,
                            artifacts_path,
                        },
                    ),
            );
            let network = match setup(framework, genesis_accounts@, accounts@, accounts_dir@) {
                Some(text) => text,
                None => Seq::empty(),
            };
            in_memory_text(
                framework,
                programs,
                Some(genesis_accounts),
                Some(accounts),
                Some(accounts_dir),
                artifacts_path,
                keypair_path,
                rendering,
                setup,
            ) == addon + signer + crate::text::concatenation(deployments) + network
        }),
{
    let built = crate::templates::built(programs);
    let pieces = crate::templates::in_memory_pieces(
        framework,
        programs,
        artifacts_path,
        keypair_path,
    );
    crate::templates::law_pieces_in_memory_are_those_of_the_programs(
        framework,
        programs,
        artifacts_path,
        keypair_path,
        0,
    );
    let rendered = pieces.map_values(rendering);
    let deployments = Seq::new(
        built.len(),
        |i: int|
            rendering(
                RequestView::InMemoryProgram { framework, name: built[i].name, artifacts_path },
            ),
    );
    let addon = rendered[0];
    let signer = rendered[1];
    assert forall|i: int| 0 <= i < built.len() implies rendered[i + 2] == deployments[i] by {
        crate::templates::law_pieces_in_memory_are_those_of_the_programs(
            framework,
            programs,
            artifacts_path,
            keypair_path,
            i,
        );
    }
    assert(rendered =~= seq![addon] + seq![signer] + deployments) by {
        assert forall|k: int| 0 <= k < rendered.len() implies rendered[k] == (seq![addon]
            + seq![signer] + deployments)[k] by {
            if k >= 2 {
                assert(rendered[(k - 2) + 2] == deployments[k - 2]);
            }
        }
    }
    crate::text::law_concatenation_keeps_the_order(seq![addon], seq![signer], addon);
    crate::text::law_concatenation_keeps_the_order(seq![addon], seq![signer], signer);
    crate::text::law_concatenation_keeps_the_order(
        seq![addon] + seq![signer],
        deployments,
        addon,
    );
    let text = in_memory_text(
        framework,
        programs,
        Some(genesis_accounts),
        Some(accounts),
        Some(accounts_dir),
        artifacts_path,
        keypair_path,
        rendering,
        setup,
    );
    let network = match setup(framework, genesis_accounts@, accounts@, accounts_dir@) {
        Some(text) => text,
        None => Seq::empty(),
    };
    assert(text =~= crate::text::concatenation(rendered) + network);
}

/// A deployment in memory is called `deployment`, its only source is in the working directory, and
/// its manifest lists that runbook alone and has the local network at the given endpoint as its only
/// environment.
pub proof fn law_deployment_in_memory_is_complete(
    scaffold: (String, RunbookSources, Manifest),
    source: Seq<char>,
    rpc_api_url: Seq<char>,
)
    requires
        in_memory_scaffold(scaffold, source, rpc_api_url),
    ensures
        scaffold.0@ == "deployment"@,
        forall|place: Seq<char>| #[trigger]
            sources_of(scaffold.1).contains_key(place) <==> place == "."@,
        sources_of(scaffold.1)["."@] == ("deployment"@, source),
        scaffold.2.name@ == "memory"@,
        scaffold.2.id@ == "memory"@,
        scaffold.2.location is None,
        scaffold.2.runbooks.len() == 1,
        scaffold.2.runbooks@[0].name@ == "deployment"@,
        scaffold.2.runbooks@[0].description is Some,
        scaffold.2.runbooks@[0].description->Some_0@ == "Deploy programs"@,
        scaffold.2.runbooks@[0].state is None,
        scaffold.2.runbooks@[0].location@ == "runbooks/deployment/deployment.tx"@
            || scaffold.2.runbooks@[0].location@ == "runbooks\\deployment\\deployment.tx"@,
        crate::environments::environments_of(scaffold.2.environments).len() == 1,
        crate::environments::environments_of(scaffold.2.environments)[0] == (
            "localnet"@,
            seq![("network_id"@, "localnet"@), ("rpc_api_url"@, rpc_api_url)],
        ),
{
    let runbook = scaffold.2.runbooks@[0];
    assert(scaffold.2@.runbooks[0] == runbook@);
    reveal_strlit("runbooks");
    reveal_strlit("deployment");
    reveal_strlit(".tx");
    reveal_strlit("runbooks/deployment/deployment.tx");
    reveal_strlit("runbooks\\deployment\\deployment.tx");
    let separator = choose|separator: char|
        (separator == '/' || separator == '\\') && runbook.location@
            == #[trigger] crate::manifest::runbook_file("deployment"@, "deployment"@, separator);
    let file = crate::manifest::runbook_file("deployment"@, "deployment"@, separator);
    if separator == '/' {
        assert(file =~= "runbooks/deployment/deployment.tx"@);
    } else {
        assert(file =~= "runbooks\\deployment\\deployment.tx"@);
    }
}

} // verus!
