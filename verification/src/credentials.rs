//! Gathers the secrets of all known providers into the bundle that the
//! worker expects when a task starts.

use vstd::prelude::*;
use crate::protocol::ApiKeys;
use crate::protocol::BedrockCredentials;
use crate::secure_storage::get_api_key;
use crate::secure_storage::get_bedrock_credentials;
use crate::secure_storage::is_lookup_report;
use crate::secure_storage::name_texts;
use crate::secure_storage::read_from_text;

verus! {

/// The providers whose secret is a single text, under the names by which
/// the keychain is asked for them, in the order of the bundle's fields.
pub open spec fn bundle_provider_names() -> Seq<Seq<char>> {
    seq![
        "anthropic"@,
        "openai"@,
        "google"@,
        "xai"@,
        "deepseek"@,
        "openrouter"@,
        "litellm"@,
        "ollama"@,
        "azureFoundry"@,
    ]
}

/// The providers whose secret is a single text, in the order of the
/// bundle's fields. The structured credentials are looked up apart.
pub fn bundle_providers() -> (out: Vec<&'static str>)
    ensures
        name_texts(out@) == bundle_provider_names(),
{
    let mut out: Vec<&'static str> = Vec::new();
    out.push("anthropic");
    out.push("openai");
    out.push("google");
    out.push("xai");
    out.push("deepseek");
    out.push("openrouter");
    out.push("litellm");
    out.push("ollama");
    out.push("azureFoundry");
    assert(name_texts(out@) =~= bundle_provider_names());
    out
}

/// The value that a lookup contributes to the bundle: what was found, and
/// nothing where nothing is stored or the keychain failed.
pub open spec fn found_in<T>(lookup: Result<Option<T>, String>) -> Option<T> {
    match lookup {
        Ok(Some(value)) => Some(value),
        _ => None,
    }
}

/// The value that the lookup at a place contributes to the bundle; nothing
/// where there is no lookup at that place.
pub open spec fn found_at(lookups: Seq<Result<Option<String>, String>>, place: int) -> Option<
    String,
> {
    if 0 <= place < lookups.len() {
        found_in(lookups[place])
    } else {
        None
    }
}

/// The value that a lookup contributes to the bundle.
pub fn found<T>(lookup: Result<Option<T>, String>) -> (r: Option<T>)
    ensures
        r == found_in(lookup),
{
    match lookup {
        Ok(Some(value)) => Some(value),
        _ => None,
    }
}

/// The value that the lookup at a place contributes to the bundle.
pub fn found_among(lookups: &Vec<Result<Option<String>, String>>, place: usize) -> (r: Option<
    String,
>)
    ensures
        r == found_at(lookups@, place as int),
{
    if place < lookups.len() {
        match &lookups[place] {
            Ok(Some(value)) => Some(value.clone()),
            _ => None,
        }
    } else {
        None
    }
}

/// Builds the bundle from what the keychain gave for the providers of
/// [`bundle_providers`], in that order, and for the structured credentials:
/// a provider is in the bundle exactly where a secret was found for it, and
/// a failed lookup leaves its provider out without failing the bundle.
pub fn assemble(
    lookups: &Vec<Result<Option<String>, String>>,
    bedrock: Result<Option<BedrockCredentials>, String>,
) -> (r: ApiKeys)
    ensures
        r.anthropic == found_at(lookups@, 0),
        r.openai == found_at(lookups@, 1),
        r.google == found_at(lookups@, 2),
        r.xai == found_at(lookups@, 3),
        r.deepseek == found_at(lookups@, 4),
        r.openrouter == found_at(lookups@, 5),
        r.litellm == found_at(lookups@, 6),
        r.ollama == found_at(lookups@, 7),
        r.azure_foundry == found_at(lookups@, 8),
        r.bedrock == found_in(bedrock),
{
    ApiKeys {
        anthropic: found_among(lookups, 0),
        openai: found_among(lookups, 1),
        google: found_among(lookups, 2),
        xai: found_among(lookups, 3),
        deepseek: found_among(lookups, 4),
        openrouter: found_among(lookups, 5),
        litellm: found_among(lookups, 6),
        ollama: found_among(lookups, 7),
        azure_foundry: found_among(lookups, 8),
        bedrock: found(bedrock),
    }
}

/// Whether a failed lookup of a secret reports what a call on the keychain
/// can report.
pub open spec fn reports_well<T>(lookup: Result<Option<T>, String>) -> bool {
    lookup matches Err(report) ==> is_lookup_report(report@, "Failed to get API key: "@)
}

/// Whether lookups are such as the keychain can give for a run of names:
/// one for each name, and every failure reported in the keychain's words.
pub open spec fn well_formed(
    lookups: Seq<Result<Option<String>, String>>,
    names: Seq<&'static str>,
) -> bool {
    &&& lookups.len() == names.len()
    &&& forall|i: int| 0 <= i < lookups.len() ==> reports_well(#[trigger] lookups[i])
}

/// Looks every name up in the keychain, once, in order.
fn look_up_all(names: &Vec<&'static str>) -> (r: Vec<Result<Option<String>, String>>)
    ensures
        well_formed(r@, names@),
{
    let mut lookups: Vec<Result<Option<String>, String>> = Vec::new();
    let mut i: usize = 0;
    while i < names.len()
        invariant
            i <= names.len(),
            lookups@.len() == i,
            forall|k: int| 0 <= k < i ==> reports_well(#[trigger] lookups@[k]),
        decreases names.len() - i,
    {
        lookups.push(get_api_key(names[i]));
        i = i + 1;
    }
    lookups
}

/// Gathers the secrets of all known providers from the keychain: it looks
/// up the providers of [`bundle_providers`] and the structured credentials,
/// each once, and builds the bundle from what it found as [`assemble`]
/// says. It never fails: a provider whose secret cannot be had is left out.
pub fn get_all_api_keys() -> (r: Result<ApiKeys, String>)
    ensures
        r is Ok,
        r matches Ok(keys) ==> (keys.bedrock matches Some(credentials) ==> read_from_text(
            credentials@,
        )),
{
    let names = bundle_providers();
    let lookups = look_up_all(&names);
    let bedrock = get_bedrock_credentials();
    Ok(assemble(&lookups, bedrock))
}

} // verus!
