//! The provider settings as the persistent store keeps them.

use vstd::prelude::*;
use crate::keyed::after_put;
use crate::keyed::distinct_names;
use crate::keyed::put;
use crate::text::str_eq;

verus! {

/// The provider settings as a whole.
#[derive(Debug)]
pub struct ProviderSettings {
    pub active_provider_id: Option<String>,
    /// The connected providers, each under its identifier. No identifier
    /// occurs twice: see [`ProviderSettings::well_formed`].
    pub connected_providers: Vec<(String, ConnectedProvider)>,
    pub debug_mode: bool,
}

/// A provider that has been connected.
#[derive(Debug)]
pub struct ConnectedProvider {
    pub provider_id: String,
    pub connection_status: String,
    pub selected_model_id: Option<String>,
    pub credentials: ProviderCredentials,
    pub last_connected_at: String,
    pub available_models: Option<Vec<AvailableModel>>,
}

/// How a provider is authenticated. The secret itself lies in the keychain.
#[derive(Debug)]
pub struct ProviderCredentials {
    pub credentials_type: String,
    pub key_prefix: Option<String>,
    pub server_url: Option<String>,
    pub api_key: Option<String>,
    /// Every further member of the stored document, under its name. No
    /// name occurs twice: see [`ProviderCredentials::well_formed`].
    pub extra: Vec<(String, serde_json::Value)>,
}

/// A model that a connected provider offers.
#[derive(Debug)]
pub struct AvailableModel {
    pub id: String,
    pub name: String,
}

impl ProviderSettings {
    /// No identifier occurs twice among the connected providers.
    pub open spec fn well_formed(self) -> bool {
        distinct_names(self.connected_providers@)
    }

    /// Settings without a connected provider.
    pub fn new(active_provider_id: Option<String>, debug_mode: bool) -> (r: ProviderSettings)
        ensures
            r.active_provider_id == active_provider_id,
            r.debug_mode == debug_mode,
            r.connected_providers@.len() == 0,
            r.well_formed(),
    {
        ProviderSettings { active_provider_id, connected_providers: Vec::new(), debug_mode }
    }

    /// Enters a connected provider under its identifier, in the place of
    /// the one that stood under it, or at the end where the identifier is
    /// new.
    pub fn connect(&mut self, provider: ConnectedProvider)
        ensures
            final(self).active_provider_id == old(self).active_provider_id,
            final(self).debug_mode == old(self).debug_mode,
            after_put(
                old(self).connected_providers@,
                final(self).connected_providers@,
                provider.provider_id,
                provider,
            ),
            old(self).well_formed() ==> final(self).well_formed(),
    {
        let id = provider.provider_id.clone();
        put(&mut self.connected_providers, id, provider);
    }
}

impl ProviderCredentials {
    /// No name occurs twice among the further members.
    pub open spec fn well_formed(self) -> bool {
        distinct_names(self.extra@)
    }

    /// Enters a further member under its name, in the place of the one that
    /// stood under it, or at the end where the name is new.
    pub fn set_extra(&mut self, name: String, value: serde_json::Value)
        ensures
            final(self).credentials_type == old(self).credentials_type,
            final(self).key_prefix == old(self).key_prefix,
            final(self).server_url == old(self).server_url,
            final(self).api_key == old(self).api_key,
            after_put(old(self).extra@, final(self).extra@, name, value),
            old(self).well_formed() ==> final(self).well_formed(),
    {
        put(&mut self.extra, name, value);
    }

    /// The credentials of a provider whose stored document is missing or
    /// unreadable: only the type is known.
    pub fn of_type(credentials_type: String) -> (r: ProviderCredentials)
        ensures
            r.credentials_type == credentials_type,
            r.key_prefix is None,
            r.server_url is None,
            r.api_key is None,
            r.extra@.len() == 0,
            r.well_formed(),
    {
        ProviderCredentials {
            credentials_type,
            key_prefix: None,
            server_url: None,
            api_key: None,
            extra: Vec::new(),
        }
    }

    /// The credentials read from the store, or those of the bare type where
    /// none could be read.
    pub fn or_of_type(read: Option<ProviderCredentials>, credentials_type: String) -> (r:
        ProviderCredentials)
        ensures
            match read {
                Some(credentials) => r == credentials,
                None => {
                    &&& r.credentials_type == credentials_type
                    &&& r.key_prefix is None
                    &&& r.server_url is None
                    &&& r.api_key is None
                    &&& r.extra@.len() == 0
                },
            },
    {
        match read {
            Some(credentials) => credentials,
            None => ProviderCredentials::of_type(credentials_type),
        }
    }
}

impl ConnectedProvider {
    /// Whether tasks can run with this provider: it is connected and a
    /// model is selected.
    pub open spec fn ready(self) -> bool {
        self.connection_status@ == "connected"@ && self.selected_model_id is Some
    }

    /// Whether tasks can run with this provider.
    pub fn is_ready(&self) -> (r: bool)
        ensures
            r == self.ready(),
    {
        str_eq(self.connection_status.as_str(), "connected") && self.selected_model_id.is_some()
    }
}

/// The time of the last connection: the stored one, or the present time
/// where none is stored.
pub fn connected_at_or(stored: Option<String>, now: String) -> (r: String)
    ensures
        r == (match stored {
            Some(at) => at,
            None => now,
        }),
{
    match stored {
        Some(at) => at,
        None => now,
    }
}

/// Whether a provider is the active one.
pub fn is_active(active: &Option<String>, provider_id: &str) -> (r: bool)
    ensures
        r == (active matches Some(id) && id@ == provider_id@),
{
    match active {
        Some(id) => str_eq(id.as_str(), provider_id),
        None => false,
    }
}

/// Whether tasks can run with any of the providers.
pub fn has_ready_provider(providers: &Vec<(String, ConnectedProvider)>) -> (r: bool)
    ensures
        r == exists|i: int| 0 <= i < providers@.len() && (#[trigger] providers@[i]).1.ready(),
{
    let mut i: usize = 0;
    while i < providers.len()
        invariant
            i <= providers.len(),
            forall|k: int| 0 <= k < i ==> !(#[trigger] providers@[k]).1.ready(),
        decreases providers.len() - i,
    {
        if providers[i].1.is_ready() {
            return true;
        }
        i = i + 1;
    }
    false
}

} // verus!
