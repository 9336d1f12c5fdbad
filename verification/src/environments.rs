//! The environments of a manifest: named lists of inputs, in the order in which they were added.

use txtx_core::kit::indexmap::IndexMap;
use vstd::prelude::*;

verus! {

/// `IndexMap`: a hash map that keeps the order in which its keys were inserted.
#[verifier::external_type_specification]
#[verifier::external_body]
#[verifier::reject_recursive_types(K)]
#[verifier::reject_recursive_types(V)]
#[verifier::reject_recursive_types(S)]
pub struct ExIndexMap<K, V, S>(txtx_core::kit::indexmap::IndexMap<K, V, S>);

/// The inputs of one environment: keys and values.
pub type Inputs = IndexMap<String, String>;

/// The environments of a manifest, by name.
pub type Environments = IndexMap<String, IndexMap<String, String>>;

/// The keys and values that the inputs of an environment hold, in order.
pub uninterp spec fn inputs_of(inputs: IndexMap<String, String>) -> Seq<(Seq<char>, Seq<char>)>;

/// The names and inputs that a map of environments holds, in order.
pub uninterp spec fn environments_of(
    environments: IndexMap<String, IndexMap<String, String>>,
) -> Seq<(Seq<char>, Seq<(Seq<char>, Seq<char>)>)>;

/// The entries with `key` set to `value`: in its place where the key is there already, and as
/// the last entry otherwise.
pub open spec fn with_entry<V>(entries: Seq<(Seq<char>, V)>, key: Seq<char>, value: V) -> Seq<
    (Seq<char>, V),
>
    decreases entries.len(),
{
    if entries.len() == 0 {
        seq![(key, value)]
    } else if entries[0].0 == key {
        seq![(key, value)] + entries.drop_first()
    } else {
        seq![entries[0]] + with_entry(entries.drop_first(), key, value)
    }
}

/// `IndexMap::new`, for inputs: there are none.
#[verifier::external_body]
pub(crate) fn no_inputs() -> (inputs: Inputs)
    ensures
        inputs_of(inputs) == Seq::<(Seq<char>, Seq<char>)>::empty(),
{
    IndexMap::new()
}

/// `IndexMap::insert`, for inputs: a key that is there keeps its place and gets the new value, a
/// new one goes to the end. The value that was there before is dropped.
#[verifier::external_body]
pub(crate) fn insert_input(inputs: &mut Inputs, key: String, value: String)
    ensures
        inputs_of(*final(inputs)) == with_entry(inputs_of(*old(inputs)), key@, value@),
{
    inputs.insert(key, value);
}

/// `IndexMap::new`, for environments: there are none.
#[verifier::external_body]
pub(crate) fn no_environments() -> (environments: Environments)
    ensures
        environments_of(environments) == Seq::<(Seq<char>, Seq<(Seq<char>, Seq<char>)>)>::empty(),
{
    IndexMap::new()
}

/// `IndexMap::insert`, for environments: a name that is there keeps its place and gets the new
/// inputs, a new one goes to the end. The inputs that were there before are dropped.
#[verifier::external_body]
pub(crate) fn insert_environment(environments: &mut Environments, name: String, inputs: Inputs)
    ensures
        environments_of(*final(environments)) == with_entry(
            environments_of(*old(environments)),
            name@,
            inputs_of(inputs),
        ),
{
    environments.insert(name, inputs);
}

/// `IndexMap::clone`, for environments: the copy holds the same names and inputs, in order.
#[verifier::external_body]
pub(crate) fn copy_environments(environments: &Environments) -> (copy: Environments)
    ensures
        environments_of(copy) == environments_of(*environments),
{
    environments.clone()
}

/// The inputs of the local network: its name, and the address of its endpoint.
pub open spec fn localnet_inputs(rpc_api_url: Seq<char>) -> Seq<(Seq<char>, Seq<char>)> {
    seq![("network_id"@, "localnet"@), ("rpc_api_url"@, rpc_api_url)]
}

/// The inputs of the development network: its name, the address of its endpoint, and the keypair
/// that pays for and authorises deployments.
pub open spec fn devnet_inputs(keypair_path: Seq<char>) -> Seq<(Seq<char>, Seq<char>)> {
    seq![
        ("network_id"@, "devnet"@),
        ("rpc_api_url"@, "https://api.devnet.solana.com"@),
        ("payer_keypair_json"@, keypair_path),
        ("authority_keypair_json"@, keypair_path),
    ]
}

/// Adding a key that no entry has puts it behind the others.
pub proof fn lemma_new_entry_goes_last<V>(entries: Seq<(Seq<char>, V)>, key: Seq<char>, value: V)
    requires
        forall|i: int| 0 <= i < entries.len() ==> (#[trigger] entries[i]).0 != key,
    ensures
        with_entry(entries, key, value) == entries.push((key, value)),
    decreases entries.len(),
{
    if entries.len() > 0 {
        let rest = entries.drop_first();
        assert forall|i: int| 0 <= i < rest.len() implies (#[trigger] rest[i]).0 != key by {
            assert(rest[i] == entries[i + 1]);
        }
        lemma_new_entry_goes_last(rest, key, value);
        assert(seq![entries[0]] + rest.push((key, value)) == entries.push((key, value)));
    } else {
        assert(entries.push((key, value)) == seq![(key, value)]);
    }
}

/// Makes the inputs of the local network.
pub fn make_localnet_inputs(rpc_api_url: &str) -> (inputs: Inputs)
    ensures
        inputs_of(inputs) == localnet_inputs(rpc_api_url@),
{
    let mut inputs = no_inputs();
    insert_input(&mut inputs, "network_id".to_string(), "localnet".to_string());
    proof {
        lemma_input_names_differ();
        lemma_new_entry_goes_last(Seq::empty(), "network_id"@, "localnet"@);
        lemma_new_entry_goes_last(inputs_of(inputs), "rpc_api_url"@, rpc_api_url@);
    }
    insert_input(&mut inputs, "rpc_api_url".to_string(), rpc_api_url.to_string());
    proof {
        assert(inputs_of(inputs) =~= localnet_inputs(rpc_api_url@));
    }
    inputs
}

/// Makes the inputs of the development network.
pub fn make_devnet_inputs(keypair_path: &str) -> (inputs: Inputs)
    ensures
        inputs_of(inputs) == devnet_inputs(keypair_path@),
{
    let mut inputs = no_inputs();
    insert_input(&mut inputs, "network_id".to_string(), "devnet".to_string());
    proof {
        lemma_input_names_differ();
        lemma_new_entry_goes_last(Seq::empty(), "network_id"@, "devnet"@);
        lemma_new_entry_goes_last(
            inputs_of(inputs),
            "rpc_api_url"@,
            "https://api.devnet.solana.com"@,
        );
    }
    insert_input(
        &mut inputs,
        "rpc_api_url".to_string(),
        "https://api.devnet.solana.com".to_string(),
    );
    proof {
        lemma_new_entry_goes_last(inputs_of(inputs), "payer_keypair_json"@, keypair_path@);
    }
    insert_input(&mut inputs, "payer_keypair_json".to_string(), keypair_path.to_string());
    proof {
        lemma_new_entry_goes_last(inputs_of(inputs), "authority_keypair_json"@, keypair_path@);
    }
    insert_input(&mut inputs, "authority_keypair_json".to_string(), keypair_path.to_string());
    proof {
        assert(inputs_of(inputs) =~= devnet_inputs(keypair_path@));
    }
    inputs
}

/// No two names of inputs are alike: their lengths differ.
proof fn lemma_input_names_differ()
    ensures
        "network_id"@.len() == 10,
        "rpc_api_url"@.len() == 11,
        "payer_keypair_json"@.len() == 18,
        "authority_keypair_json"@.len() == 22,
{
    reveal_strlit("network_id");
    reveal_strlit("rpc_api_url");
    reveal_strlit("payer_keypair_json");
    reveal_strlit("authority_keypair_json");
}

/// The keys of entries, in order.
pub open spec fn keys<V>(entries: Seq<(Seq<char>, V)>) -> Seq<Seq<char>> {
    entries.map_values(|entry: (Seq<char>, V)| entry.0)
}

/// Setting an entry leaves all keys in their places, and adds its own key behind them if it is new.
/// Every entry but the first one of that key stays as it is.
pub proof fn law_set_entry_keeps_the_order<V>(
    entries: Seq<(Seq<char>, V)>,
    key: Seq<char>,
    value: V,
)
    ensures
        ({
            let set = with_entry(entries, key, value);
            &&& keys(entries).contains(key) ==> keys(set) == keys(entries)
            &&& !keys(entries).contains(key) ==> keys(set) == keys(entries).push(key)
            &&& set.contains((key, value))
            &&& forall|i: int|
                0 <= i < entries.len() && (#[trigger] entries[i]).0 != key ==> set[i] == entries[i]
        }),
    decreases entries.len(),
{
    let set = with_entry(entries, key, value);
    if entries.len() == 0 {
        assert(keys(set) =~= keys(entries).push(key));
        assert(set[0] == (key, value));
    } else if entries[0].0 == key {
        assert(keys(entries)[0] == key);
        assert(keys(set) =~= keys(entries));
        assert(set[0] == (key, value));
    } else {
        let rest = entries.drop_first();
        let rest_set = with_entry(rest, key, value);
        law_set_entry_keeps_the_order(rest, key, value);
        assert(keys(rest) =~= keys(entries).drop_first());
        assert(keys(set) =~= seq![entries[0].0] + keys(rest_set));
        if keys(rest).contains(key) {
            let j = keys(rest).index_of(key);
            assert(keys(entries)[j + 1] == key);
            assert(keys(set) =~= keys(entries));
        } else {
            assert(!keys(entries).contains(key)) by {
                if keys(entries).contains(key) {
                    let j = keys(entries).index_of(key);
                    assert(keys(rest)[j - 1] == key);
                }
            }
            assert(keys(set) =~= keys(entries).push(key));
        }
        let j = rest_set.index_of((key, value));
        assert(set[j + 1] == (key, value));
        assert forall|i: int|
            0 <= i < entries.len() && (#[trigger] entries[i]).0 != key implies set[i]
            == entries[i] by {
            if i > 0 {
                assert(rest[i - 1] == entries[i]);
            }
        }
    }
}

/// The local network has two inputs: its name and the endpoint that was given.
pub proof fn law_localnet_is_the_given_endpoint(rpc_api_url: Seq<char>)
    ensures
        localnet_inputs(rpc_api_url).len() == 2,
        localnet_inputs(rpc_api_url)[0] == ("network_id"@, "localnet"@),
        localnet_inputs(rpc_api_url)[1] == ("rpc_api_url"@, rpc_api_url),
{
}

/// The development network has four inputs: its name, its endpoint, and the keypair that was given,
/// once to pay and once to authorise.
pub proof fn law_devnet_uses_the_given_keypair(keypair_path: Seq<char>)
    ensures
        devnet_inputs(keypair_path).len() == 4,
        devnet_inputs(keypair_path)[0] == ("network_id"@, "devnet"@),
        devnet_inputs(keypair_path)[1] == ("rpc_api_url"@, "https://api.devnet.solana.com"@),
        devnet_inputs(keypair_path)[2] == ("payer_keypair_json"@, keypair_path),
        devnet_inputs(keypair_path)[3] == ("authority_keypair_json"@, keypair_path),
{
}

} // verus!
