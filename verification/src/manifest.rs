//! The manifest of a workspace: its runbooks and its environments.

use crate::environments::Environments;
use crate::location::LocationView;
use txtx_core::kit::helpers::fs::FileLocation;
use txtx_core::manifest::{RunbookMetadata, RunbookStateLocation, WorkspaceManifest};
use vstd::prelude::*;

verus! {

/// A runbook that a manifest lists.
pub struct Runbook {
    pub location: String,
    pub description: Option<String>,
    pub name: String,
    /// Where the state of the runbook is kept.
    pub state: Option<FileLocation>,
}

/// What the contracts read of a runbook.
pub struct RunbookView {
    pub location: Seq<char>,
    pub description: Option<Seq<char>>,
    pub name: Seq<char>,
    pub state: Option<LocationView>,
}

/// The text of an optional string.
pub open spec fn optional_text(text: Option<String>) -> Option<Seq<char>> {
    match text {
        Some(text) => Some(text@),
        None => None,
    }
}

/// The view of an optional location.
pub open spec fn optional_location(location: Option<FileLocation>) -> Option<LocationView> {
    match location {
        Some(location) => Some(crate::location::location_view(location)),
        None => None,
    }
}

impl View for Runbook {
    type V = RunbookView;

    open spec fn view(&self) -> RunbookView {
        RunbookView {
            location: self.location@,
            description: optional_text(self.description),
            name: self.name@,
            state: optional_location(self.state),
        }
    }
}

impl Clone for Runbook {
    fn clone(&self) -> (copy: Self)
        ensures
            copy@ == self@,
    {
        let description = match &self.description {
            Some(text) => Some(text.clone()),
            None => None,
        };
        let state = match &self.state {
            Some(location) => Some(location.clone()),
            None => None,
        };
        Runbook { location: self.location.clone(), description, name: self.name.clone(), state }
    }
}

/// The views of a sequence of runbooks.
pub open spec fn runbook_views(runbooks: Seq<Runbook>) -> Seq<RunbookView> {
    runbooks.map_values(|runbook: Runbook| runbook@)
}

/// The manifest of a workspace.
pub struct Manifest {
    pub name: String,
    pub id: String,
    pub runbooks: Vec<Runbook>,
    pub environments: Environments,
    /// The file that the manifest was read from, if it was.
    pub location: Option<FileLocation>,
}

/// What the contracts read of a manifest.
pub struct ManifestView {
    pub name: Seq<char>,
    pub id: Seq<char>,
    pub runbooks: Seq<RunbookView>,
    pub environments: Seq<(Seq<char>, Seq<(Seq<char>, Seq<char>)>)>,
    pub location: Option<LocationView>,
}

impl View for Manifest {
    type V = ManifestView;

    open spec fn view(&self) -> ManifestView {
        ManifestView {
            name: self.name@,
            id: self.id@,
            runbooks: runbook_views(self.runbooks@),
            environments: crate::environments::environments_of(self.environments),
            location: optional_location(self.location),
        }
    }
}

impl Clone for Manifest {
    fn clone(&self) -> (copy: Self)
        ensures
            copy@ == self@,
    {
        let mut runbooks: Vec<Runbook> = Vec::new();
        let mut i: usize = 0;
        while i < self.runbooks.len()
            invariant
                i <= self.runbooks.len(),
                runbooks.len() == i,
                forall|j: int| 0 <= j < i ==> (#[trigger] runbooks@[j])@ == self.runbooks@[j]@,
            decreases self.runbooks.len() - i,
        {
            runbooks.push(self.runbooks[i].clone());
            i = i + 1;
        }
        proof {
            assert(runbook_views(runbooks@) =~= runbook_views(self.runbooks@));
        }
        let location = match &self.location {
            Some(location) => Some(location.clone()),
            None => None,
        };
        Manifest {
            name: self.name.clone(),
            id: self.id.clone(),
            runbooks,
            environments: crate::environments::copy_environments(&self.environments),
            location,
        }
    }
}

/// The identifier that `WorkspaceManifest::new` derives from the name of a workspace.
pub uninterp spec fn workspace_id_of(name: Seq<char>) -> Seq<char>;

/// What an ASCII character of a name becomes in the identifier: letters in lower case, digits and
/// dashes as they are, a space as a dash, and nothing otherwise.
pub open spec fn slug_of_char(c: char) -> Seq<char> {
    if 'A' <= c <= 'Z' {
        seq![((c as u32) + 32) as char]
    } else if 'a' <= c <= 'z' || '0' <= c <= '9' || c == '-' {
        seq![c]
    } else if c == ' ' {
        seq!['-']
    } else {
        Seq::empty()
    }
}

/// The identifier of a workspace with an ASCII name.
pub open spec fn slug(name: Seq<char>) -> Seq<char>
    decreases name.len(),
{
    if name.len() == 0 {
        Seq::empty()
    } else {
        slug(name.drop_last()) + slug_of_char(name.last())
    }
}

/// Whether a text holds ASCII characters only.
pub open spec fn all_ascii(text: Seq<char>) -> bool {
    forall|i: int| 0 <= i < text.len() ==> (#[trigger] text[i]) as u32 <= 127
}

/// `WorkspaceManifest::new`, of which the identifier is taken: it depends on the name alone, and
/// of an ASCII name it is the slug. How other letters are put in lower case is not said.
#[verifier::external_body]
pub(crate) fn workspace_id(name: &str) -> (id: String)
    ensures
        id@ == workspace_id_of(name@),
        all_ascii(name@) ==> id@ == slug(name@),
{
    WorkspaceManifest::new(name.to_string()).id
}

/// The file of the runbook `name` in the directory of `action`, with `separator` between the parts.
pub open spec fn runbook_file(action: Seq<char>, name: Seq<char>, separator: char) -> Seq<char> {
    "runbooks"@.push(separator) + action.push(separator) + name + ".tx"@
}

/// Whether `location` names the file of the runbook `name` in the directory of `action`, with the
/// path separator of the platform between the parts.
pub open spec fn runbook_path(location: Seq<char>, action: Seq<char>, name: Seq<char>) -> bool {
    exists|separator: char|
        (separator == '/' || separator == '\\') && location == #[trigger] runbook_file(
            action,
            name,
            separator,
        )
}

/// `RunbookMetadata::new`: the runbook has the given name and description and no state, and its
/// location is `runbooks`, the action and the file of the runbook, joined as paths are.
#[verifier::external_body]
pub(crate) fn new_runbook(action: &str, name: &str, description: Option<String>) -> (runbook:
    Runbook)
    requires
        crate::location::plain_name(action@),
        crate::location::plain_name(name@),
    ensures
        runbook_path(runbook@.location, action@, name@),
        runbook@.description == optional_text(description),
        runbook@.name == name@,
        runbook@.state is None,
{
    let metadata = RunbookMetadata::new(action, name, description);
    Runbook {
        location: metadata.location,
        description: metadata.description,
        name: metadata.name,
        state: metadata.state.map(|RunbookStateLocation::Location(location)| location),
    }
}

/// The name, description and location of each runbook.
pub open spec fn runbook_lines(runbooks: Seq<RunbookView>) -> Seq<
    (Seq<char>, Option<Seq<char>>, Seq<char>),
> {
    runbooks.map_values(
        |runbook: RunbookView| (runbook.name, runbook.description, runbook.location),
    )
}

/// What the manifest template renders to, for a manifest of the given name, identifier, runbooks
/// (each with its name, description and location) and environments: the text, or what is wrong
/// with the rendering, or what is wrong with the template.
pub uninterp spec fn manifest_rendering(
    name: Seq<char>,
    id: Seq<char>,
    runbooks: Seq<(Seq<char>, Option<Seq<char>>, Seq<char>)>,
    environments: Seq<(Seq<char>, Seq<(Seq<char>, Seq<char>)>)>,
) -> Result<Result<Seq<char>, Seq<char>>, Seq<char>>;

/// The texts of a rendering.
pub open spec fn rendering_view(rendering: Result<Result<String, String>, String>) -> Result<
    Result<Seq<char>, Seq<char>>,
    Seq<char>,
> {
    match rendering {
        Ok(Ok(text)) => Ok(Ok(text@)),
        Ok(Err(e)) => Ok(Err(e@)),
        Err(e) => Err(e@),
    }
}

/// `mustache::compile_str` on `TXTX_MANIFEST_TEMPLATE`, and `Template::render_data_to_string` of
/// what it gives on the `build_manifest_data` of the manifest. The template is fixed and refers to
/// no other file, so that the text depends on the manifest alone; where the manifest was read
/// from, and the states of its runbooks, play no part. The errors are those of the compilation,
/// outside, and of the rendering, inside, as they display.
#[verifier::external_body]
pub(crate) fn render_manifest(manifest: &Manifest) -> (rendering: Result<
    Result<String, String>,
    String,
>)
    ensures
        rendering_view(rendering) == manifest_rendering(
            manifest@.name,
            manifest@.id,
            runbook_lines(manifest@.runbooks),
            manifest@.environments,
        ),
{
    let line = |r: &Runbook| RunbookMetadata {
        location: r.location.clone(),
        description: r.description.clone(),
        name: r.name.clone(),
        state: None,
    };
    let mut workspace = WorkspaceManifest::new(manifest.name.clone());
    workspace.id = manifest.id.clone();
    workspace.runbooks = manifest.runbooks.iter().map(line).collect();
    workspace.environments = manifest.environments.clone();
    let template = mustache::compile_str(txtx_core::templates::TXTX_MANIFEST_TEMPLATE);
    let template = template.map_err(|e| e.to_string())?;
    let data = txtx_core::templates::build_manifest_data(&workspace);
    Ok(template.render_data_to_string(&data).map_err(|e| e.to_string()))
}

/// Whether some runbook has the given name.
pub open spec fn names_runbook(runbooks: Seq<RunbookView>, name: Seq<char>) -> bool {
    exists|i: int| 0 <= i < runbooks.len() && (#[trigger] runbooks[i]).name == name
}

/// The runbook that deploys programs, in a directory of its own.
pub open spec fn deployment_runbook() -> RunbookView {
    RunbookView {
        location: "runbooks/deployment"@,
        description: Some("Deploy programs"@),
        name: "deployment"@,
        state: None,
    }
}

/// The runbooks with the deployment added, unless one of that name is there.
pub open spec fn with_deployment(runbooks: Seq<RunbookView>) -> Seq<RunbookView> {
    if names_runbook(runbooks, "deployment"@) {
        runbooks
    } else {
        runbooks.push(deployment_runbook())
    }
}

impl ManifestView {
    /// A manifest of the given name, with no runbooks and no environments, and read from nowhere.
    pub open spec fn fresh(name: Seq<char>) -> ManifestView {
        ManifestView {
            name,
            id: workspace_id_of(name),
            runbooks: Seq::empty(),
            environments: Seq::empty(),
            location: None,
        }
    }

    /// The manifest with the deployment among its runbooks.
    pub open spec fn deploying(self) -> ManifestView {
        ManifestView { runbooks: with_deployment(self.runbooks), ..self }
    }

    /// The manifest with the inputs of the local network and of the development network.
    pub open spec fn networked(self, rpc_api_url: Seq<char>, keypair_path: Seq<char>)
        -> ManifestView {
        ManifestView {
            environments: crate::environments::with_entry(
                crate::environments::with_entry(
                    self.environments,
                    "localnet"@,
                    crate::environments::localnet_inputs(rpc_api_url),
                ),
                "devnet"@,
                crate::environments::devnet_inputs(keypair_path),
            ),
            ..self
        }
    }
}

impl Manifest {
    /// A manifest of the given name that lists nothing yet.
    pub fn new(name: String) -> (manifest: Self)
        ensures
            manifest@ == ManifestView::fresh(name@),
            manifest.name@ == name@,
            manifest.runbooks.len() == 0,
            manifest.location is None,
            all_ascii(name@) ==> manifest@.id == slug(name@),
    {
        let id = workspace_id(name.as_str());
        let manifest = Manifest {
            name,
            id,
            runbooks: Vec::new(),
            environments: crate::environments::no_environments(),
            location: None,
        };
        proof {
            assert(manifest@.runbooks =~= Seq::empty());
        }
        manifest
    }

    /// Whether the manifest lists a runbook of the given name.
    pub fn has_runbook(&self, name: &str) -> (found: bool)
        ensures
            found == names_runbook(self@.runbooks, name@),
            found <==> exists|i: int|
                0 <= i < self.runbooks.len() && (#[trigger] self.runbooks@[i]).name@ == name@,
    {
        let wanted = name.to_string();
        let mut i: usize = 0;
        while i < self.runbooks.len()
            invariant
                i <= self.runbooks.len(),
                wanted@ == name@,
                forall|j: int| 0 <= j < i ==> (#[trigger] self@.runbooks[j]).name != name@,
                forall|j: int| 0 <= j < i ==> (#[trigger] self.runbooks@[j]).name@ != name@,
            decreases self.runbooks.len() - i,
        {
            if self.runbooks[i].name == wanted {
                proof {
                    assert(self@.runbooks[i as int].name == name@);
                }
                return true;
            }
            i = i + 1;
        }
        false
    }

    /// Adds a runbook behind the others.
    pub fn add_runbook(self, runbook: Runbook) -> (manifest: Self)
        ensures
            manifest@ == (ManifestView { runbooks: self@.runbooks.push(runbook@), ..self@ }),
    {
        let mut manifest = self;
        manifest.runbooks.push(runbook);
        proof {
            assert(manifest@.runbooks =~= self@.runbooks.push(runbook@));
        }
        manifest
    }

    /// Adds the deployment to the runbooks. Where one of that name is there, it stays as it is.
    pub fn add_deployment(self) -> (manifest: Self)
        ensures
            manifest@ == self@.deploying(),
    {
        if self.has_runbook("deployment") {
            return self;
        }
        let runbook = Runbook {
            location: "runbooks/deployment".to_string(),
            description: Some("Deploy programs".to_string()),
            name: "deployment".to_string(),
            state: None,
        };
        self.add_runbook(runbook)
    }

    /// Sets the inputs of the local network.
    pub fn set_localnet(self, rpc_api_url: &str) -> (manifest: Self)
        ensures
            manifest@ == (ManifestView {
                environments: crate::environments::with_entry(
                    self@.environments,
                    "localnet"@,
                    crate::environments::localnet_inputs(rpc_api_url@),
                ),
                ..self@
            }),
    {
        let mut manifest = self;
        let inputs = crate::environments::make_localnet_inputs(rpc_api_url);
        crate::environments::insert_environment(
            &mut manifest.environments,
            "localnet".to_string(),
            inputs,
        );
        manifest
    }

    /// Sets the inputs of the local network and of the development network.
    pub fn set_networks(self, rpc_api_url: &str, keypair_path: &str) -> (manifest: Self)
        ensures
            manifest@ == self@.networked(rpc_api_url@, keypair_path@),
    {
        let mut manifest = self.set_localnet(rpc_api_url);
        let inputs = crate::environments::make_devnet_inputs(keypair_path);
        crate::environments::insert_environment(
            &mut manifest.environments,
            "devnet".to_string(),
            inputs,
        );
        manifest
    }
}

/// A new manifest has the name that was given and the identifier of that name, lists nothing, and
/// is from nowhere.
pub proof fn law_new_manifest_has_its_name_alone(name: Seq<char>)
    ensures
        ManifestView::fresh(name).name == name,
        ManifestView::fresh(name).id == workspace_id_of(name),
        ManifestView::fresh(name).runbooks.len() == 0,
        ManifestView::fresh(name).environments.len() == 0,
        ManifestView::fresh(name).location is None,
{
}

/// The deployment that a manifest takes up is found in `runbooks/deployment`, and has no state. It
/// is taken up exactly if no runbook is called `deployment`; all that the manifest holds stays.
pub proof fn law_deployment_is_taken_up(manifest: ManifestView)
    ensures
        ({
            let after = manifest.deploying();
            let n = manifest.runbooks.len() as int;
            let listed = exists|i: int| 0 <= i < n && (#[trigger] manifest.runbooks[i]).name
                == "deployment"@;
            &&& after.name == manifest.name
            &&& after.id == manifest.id
            &&& after.environments == manifest.environments
            &&& after.location == manifest.location
            &&& forall|i: int| 0 <= i < n ==> after.runbooks[i] == #[trigger] manifest.runbooks[i]
            &&& listed ==> after.runbooks.len() == n
            &&& !listed ==> {
                &&& after.runbooks.len() == n + 1
                &&& after.runbooks[n].name == "deployment"@
                &&& after.runbooks[n].location == "runbooks/deployment"@
                &&& after.runbooks[n].description == Some("Deploy programs"@)
                &&& after.runbooks[n].state is None
            }
        }),
{
}

/// The keys with one more behind them, unless it is among them.
pub open spec fn with_key(keys: Seq<Seq<char>>, key: Seq<char>) -> Seq<Seq<char>> {
    if keys.contains(key) {
        keys
    } else {
        keys.push(key)
    }
}

/// A manifest that takes up the networks has the given endpoint and keypair in them. All else of it
/// stays: its name, identifier, runbooks and location, and its environments of other names, in
/// their places. A network that is new goes behind all others, the local one first.
pub proof fn law_networks_are_taken_up(
    manifest: ManifestView,
    rpc_api_url: Seq<char>,
    keypair_path: Seq<char>,
)
    ensures
        ({
            let after = manifest.networked(rpc_api_url, keypair_path);
            &&& after.name == manifest.name
            &&& after.id == manifest.id
            &&& after.runbooks == manifest.runbooks
            &&& after.location == manifest.location
            &&& after.environments.contains(
                (
                    "localnet"@,
                    seq![("network_id"@, "localnet"@), ("rpc_api_url"@, rpc_api_url)],
                ),
            )
            &&& after.environments.contains(
                (
                    "devnet"@,
                    seq![
                        ("network_id"@, "devnet"@),
                        ("rpc_api_url"@, "https://api.devnet.solana.com"@),
                        ("payer_keypair_json"@, keypair_path),
                        ("authority_keypair_json"@, keypair_path),
                    ],
                ),
            )
            &&& manifest.environments.len() <= after.environments.len()
                <= manifest.environments.len() + 2
            &&& crate::environments::keys(after.environments) == with_key(
                with_key(crate::environments::keys(manifest.environments), "localnet"@),
                "devnet"@,
            )
            &&& forall|i: int|
                0 <= i < manifest.environments.len() && (#[trigger] manifest.environments[i]).0
                    != "localnet"@ && manifest.environments[i].0 != "devnet"@
                    ==> after.environments[i] == manifest.environments[i]
        }),
{
    reveal_strlit("localnet");
    reveal_strlit("devnet");
    assert("localnet"@.len() != "devnet"@.len());
    let local = crate::environments::localnet_inputs(rpc_api_url);
    let dev = crate::environments::devnet_inputs(keypair_path);
    let first = crate::environments::with_entry(manifest.environments, "localnet"@, local);
    let after = manifest.networked(rpc_api_url, keypair_path);
    crate::environments::law_set_entry_keeps_the_order(manifest.environments, "localnet"@, local);
    crate::environments::law_set_entry_keeps_the_order(first, "devnet"@, dev);
    assert(crate::environments::keys(first).len() == first.len());
    assert(crate::environments::keys(manifest.environments).len() == manifest.environments.len());
    assert(crate::environments::keys(after.environments).len() == after.environments.len());
    assert(local =~= seq![("network_id"@, "localnet"@), ("rpc_api_url"@, rpc_api_url)]);
    let j = first.index_of(("localnet"@, local));
    assert(first[j].0 == "localnet"@);
    assert(after.environments[j] == ("localnet"@, local));
    assert forall|i: int|
        0 <= i < manifest.environments.len() && (#[trigger] manifest.environments[i]).0
            != "localnet"@ && manifest.environments[i].0 != "devnet"@ implies after.environments[i]
        == manifest.environments[i] by {
        assert(first[i] == manifest.environments[i]);
    }
}

/// The data that a manifest is rendered from are the name, description and location of each of its
/// runbooks, in order.
pub proof fn law_each_runbook_is_rendered(runbooks: Seq<RunbookView>, i: int)
    requires
        0 <= i < runbooks.len(),
    ensures
        runbook_lines(runbooks).len() == runbooks.len(),
        runbook_lines(runbooks)[i].0 == runbooks[i].name,
        runbook_lines(runbooks)[i].1 == runbooks[i].description,
        runbook_lines(runbooks)[i].2 == runbooks[i].location,
{
}

} // verus!
