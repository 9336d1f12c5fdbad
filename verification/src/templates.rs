//! The pieces of a runbook that are written from templates.

use crate::framework::{Framework, ProgramMetadata, ProgramView};
use vstd::prelude::*;

verus! {

/// A piece of a runbook, with all that its template needs. The texts stand in the runbook as
/// expressions: a literal among them carries its own quotes.
pub enum TemplateRequest {
    /// The comment at the top of a runbook.
    Header { description: String },
    /// The addon of the network, with the expressions for its endpoint and its identifier.
    Addon { rpc_api_url: String, network_id: String },
    /// The signers of the local network, with the expression for their keypair.
    LocalnetSigner { keypair: String },
    /// The signers of the development network.
    DevnetSigner,
    /// The signers of the main network, with the expression for their keypair.
    MainnetSigner { keypair: String },
    /// The deployment of a program.
    Program { framework: Framework, name: String },
    /// The deployment of a program by a runbook that is kept in memory.
    InMemoryProgram { framework: Framework, name: String, artifacts_path: Option<String> },
}

/// What the contracts read of a request.
pub enum RequestView {
    Header { description: Seq<char> },
    Addon { rpc_api_url: Seq<char>, network_id: Seq<char> },
    LocalnetSigner { keypair: Seq<char> },
    DevnetSigner,
    MainnetSigner { keypair: Seq<char> },
    Program { framework: Framework, name: Seq<char> },
    InMemoryProgram { framework: Framework, name: Seq<char>, artifacts_path: Option<Seq<char>> },
}

impl View for TemplateRequest {
    type V = RequestView;

    open spec fn view(&self) -> RequestView {
        match *self {
            TemplateRequest::Header { description } => RequestView::Header {
                description: description@,
            },
            TemplateRequest::Addon { rpc_api_url, network_id } => RequestView::Addon {
                rpc_api_url: rpc_api_url@,
                network_id: network_id@,
            },
            TemplateRequest::LocalnetSigner { keypair } => RequestView::LocalnetSigner {
                keypair: keypair@,
            },
            TemplateRequest::DevnetSigner => RequestView::DevnetSigner,
            TemplateRequest::MainnetSigner { keypair } => RequestView::MainnetSigner {
                keypair: keypair@,
            },
            TemplateRequest::Program { framework, name } => RequestView::Program {
                framework,
                name: name@,
            },
            TemplateRequest::InMemoryProgram { framework, name, artifacts_path } =>
                RequestView::InMemoryProgram {
                framework,
                name: name@,
                artifacts_path: crate::manifest::optional_text(artifacts_path),
            },
        }
    }
}

/// The views of a sequence of requests.
pub open spec fn request_views(requests: Seq<TemplateRequest>) -> Seq<RequestView> {
    requests.map_values(|request: TemplateRequest| request@)
}

/// The addon, with the inputs of the runbook for its endpoint and its identifier.
pub open spec fn addon() -> RequestView {
    RequestView::Addon { rpc_api_url: "input.rpc_api_url"@, network_id: "input.network_id"@ }
}

/// The signers of the local network, who use the keypair in the file at `keypair_path`.
pub open spec fn localnet_signer(keypair_path: Seq<char>) -> RequestView {
    RequestView::LocalnetSigner { keypair: crate::text::quoted(keypair_path) }
}

/// Makes the request for the addon.
pub fn addon_request() -> (request: TemplateRequest)
    ensures
        request@ == addon(),
{
    TemplateRequest::Addon {
        rpc_api_url: "input.rpc_api_url".to_string(),
        network_id: "input.network_id".to_string(),
    }
}

/// Makes the request for the signers of the local network.
pub fn localnet_signer_request(keypair_path: &str) -> (request: TemplateRequest)
    ensures
        request@ == localnet_signer(keypair_path@),
{
    TemplateRequest::LocalnetSigner { keypair: crate::text::quoted_text(keypair_path) }
}

/// The programs whose `.so` file was found, in order.
pub open spec fn built(programs: Seq<ProgramView>) -> Seq<ProgramView> {
    programs.filter(|program: ProgramView| program.so_exists)
}

/// The deployments of a runbook in memory: of each program whose `.so` file was found, in order.
pub open spec fn in_memory_deployments(
    framework: Framework,
    programs: Seq<ProgramView>,
    artifacts_path: Option<Seq<char>>,
) -> Seq<RequestView> {
    built(programs).map_values(
        |program: ProgramView|
            RequestView::InMemoryProgram { framework, name: program.name, artifacts_path },
    )
}

/// The pieces of a runbook in memory, but for the setup of the network.
pub open spec fn in_memory_pieces(
    framework: Framework,
    programs: Seq<ProgramView>,
    artifacts_path: Option<Seq<char>>,
    keypair_path: Seq<char>,
) -> Seq<RequestView> {
    seq![addon(), localnet_signer(keypair_path)] + in_memory_deployments(
        framework,
        programs,
        artifacts_path,
    )
}

/// The text of an optional string slice.
pub open spec fn optional_slice(text: Option<&str>) -> Option<Seq<char>> {
    match text {
        Some(text) => Some(text@),
        None => None,
    }
}

/// Lists the pieces of a runbook in memory, but for the setup of the network. Programs without a
/// `.so` file are skipped.
pub fn in_memory_requests(
    framework: Framework,
    programs: &[ProgramMetadata],
    artifacts_path: Option<&str>,
    keypair_path: &str,
) -> (requests: Vec<TemplateRequest>)
    ensures
        request_views(requests@) == in_memory_pieces(
            framework,
            crate::framework::program_views(programs@),
            optional_slice(artifacts_path),
            keypair_path@,
        ),
        forall|i: int|
            2 <= i < requests.len() ==> {
                &&& (#[trigger] requests@[i]) is InMemoryProgram
                &&& requests@[i]->InMemoryProgram_framework == framework
                &&& crate::manifest::optional_text(requests@[i]->artifacts_path) == optional_slice(
                    artifacts_path,
                )
            },
{
    let ghost views = crate::framework::program_views(programs@);
    let ghost path = optional_slice(artifacts_path);
    let mut requests: Vec<TemplateRequest> = Vec::new();
    requests.push(addon_request());
    requests.push(localnet_signer_request(keypair_path));
    let mut i: usize = 0;
    proof {
        reveal(Seq::filter);
        assert(views.take(0) =~= Seq::empty());
        assert(request_views(requests@) =~= in_memory_pieces(
            framework,
            views.take(0),
            path,
            keypair_path@,
        ));
    }
    while i < programs.len()
        invariant
            i <= programs.len(),
            views == crate::framework::program_views(programs@),
            path == optional_slice(artifacts_path),
            requests.len() >= 2,
            forall|j: int|
                2 <= j < requests.len() ==> {
                    &&& (#[trigger] requests@[j]) is InMemoryProgram
                    &&& requests@[j]->InMemoryProgram_framework == framework
                    &&& crate::manifest::optional_text(requests@[j]->artifacts_path) == path
                },
            request_views(requests@) == in_memory_pieces(
                framework,
                views.take(i as int),
                path,
                keypair_path@,
            ),
        decreases programs.len() - i,
    {
        let ghost before = request_views(requests@);
        if programs[i].so_exists {
            let copy = match artifacts_path {
                Some(text) => Some(text.to_string()),
                None => None,
            };
            requests.push(
                TemplateRequest::InMemoryProgram {
                    framework,
                    name: programs[i].name.clone(),
                    artifacts_path: copy,
                },
            );
            proof {
                assert(request_views(requests@) =~= before.push(requests@.last()@));
            }
        }
        proof {
            reveal(Seq::filter);
            let next = views.take(i + 1);
            assert(next.drop_last() =~= views.take(i as int));
            assert(next.last() == programs@[i as int]@);
            assert(request_views(requests@) =~= in_memory_pieces(
                framework,
                next,
                path,
                keypair_path@,
            ));
        }
        i = i + 1;
    }
    proof {
        assert(views.take(i as int) =~= views);
    }
    requests
}

/// The programs with a `.so` file are those of the first part and then those of the second; a
/// program alone is among them exactly if it has one.
pub proof fn law_built_programs_keep_their_order(
    first: Seq<ProgramView>,
    second: Seq<ProgramView>,
    program: ProgramView,
)
    ensures
        built(Seq::empty()).len() == 0,
        built(first + second) == built(first) + built(second),
        program.so_exists ==> built(seq![program]) == seq![program],
        !program.so_exists ==> built(seq![program]).len() == 0,
{
    reveal_with_fuel(Seq::filter, 2);
    Seq::filter_distributes_over_add(first, second, |program: ProgramView| program.so_exists);
    assert(seq![program].drop_last() =~= Seq::empty());
    assert(program.so_exists ==> built(seq![program]) =~= seq![program]);
}

/// A runbook in memory starts with the addon, on the inputs of the runbook, and the signers of the
/// local network, with the given keypair in quotes. Behind them there is one piece for each program
/// with a `.so` file, in order: its deployment, by its name, with the given framework and the given
/// path of the artifacts, whatever these are.
pub proof fn law_pieces_in_memory_are_those_of_the_programs(
    framework: Framework,
    programs: Seq<ProgramView>,
    artifacts_path: Option<Seq<char>>,
    keypair_path: Seq<char>,
    i: int,
)
    ensures
        ({
            let pieces = in_memory_pieces(framework, programs, artifacts_path, keypair_path);
            let n = built(programs).len();
            &&& pieces.len() == n + 2
            &&& pieces[0] is Addon
            &&& pieces[0]->rpc_api_url == "input.rpc_api_url"@
            &&& pieces[0]->network_id == "input.network_id"@
            &&& pieces[1] is LocalnetSigner
            &&& pieces[1]->LocalnetSigner_keypair == seq!['"'] + keypair_path + seq!['"']
            &&& 0 <= i < n ==> {
                &&& pieces[i + 2] is InMemoryProgram
                &&& pieces[i + 2]->InMemoryProgram_framework == framework
                &&& pieces[i + 2]->InMemoryProgram_name == built(programs)[i].name
                &&& pieces[i + 2]->artifacts_path == artifacts_path
            }
        }),
{
    reveal_strlit("\"");
    assert(crate::text::quoted(keypair_path) =~= seq!['"'] + keypair_path + seq!['"']);
}

} // verus!
