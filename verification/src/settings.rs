//! The application settings as the persistent store keeps them.

use vstd::prelude::*;

verus! {

/// The row of application settings.
#[derive(Debug)]
pub struct AppSettings {
    pub debug_mode: bool,
    pub onboarding_complete: bool,
    pub selected_model: Option<SelectedModel>,
    pub ollama_config: Option<OllamaConfig>,
    pub litellm_config: Option<LiteLLMConfig>,
    pub azure_foundry_config: Option<AzureFoundryConfig>,
}

/// The model that tasks run with.
#[derive(Debug)]
pub struct SelectedModel {
    pub provider: String,
    pub model: String,
    pub base_url: Option<String>,
    pub deployment_name: Option<String>,
}

/// How a local Ollama server is reached, and what it offers.
#[derive(Debug)]
pub struct OllamaConfig {
    pub base_url: String,
    pub enabled: bool,
    pub last_validated: Option<u64>,
    pub models: Option<Vec<OllamaModel>>,
}

/// A model that an Ollama server offers.
#[derive(Debug)]
pub struct OllamaModel {
    pub id: String,
    pub display_name: String,
    pub size: u64,
}

/// How a LiteLLM proxy is reached, and what it offers.
#[derive(Debug)]
pub struct LiteLLMConfig {
    pub base_url: String,
    pub enabled: bool,
    pub last_validated: Option<u64>,
    pub models: Option<Vec<LiteLLMModel>>,
}

/// A model that a LiteLLM proxy offers.
#[derive(Debug)]
pub struct LiteLLMModel {
    pub id: String,
    pub name: String,
    pub provider: String,
    pub context_length: u64,
}

/// How an Azure Foundry deployment is reached.
#[derive(Debug)]
pub struct AzureFoundryConfig {
    pub base_url: String,
    pub deployment_name: String,
    pub auth_type: String,
    pub enabled: bool,
    pub last_validated: Option<u64>,
}

impl AppSettings {
    /// The settings of a store that holds none: every switch off, nothing
    /// configured.
    pub fn fallback() -> (r: AppSettings)
        ensures
            !r.debug_mode,
            !r.onboarding_complete,
            r.selected_model is None,
            r.ollama_config is None,
            r.litellm_config is None,
            r.azure_foundry_config is None,
    {
        AppSettings {
            debug_mode: false,
            onboarding_complete: false,
            selected_model: None,
            ollama_config: None,
            litellm_config: None,
            azure_foundry_config: None,
        }
    }
}

/// Whether a stored switch is on: the store keeps 1 for on, and anything
/// else counts as off.
pub fn flag_is_set(stored: i32) -> (r: bool)
    ensures
        r == (stored == 1),
{
    stored == 1
}

/// What the store keeps for a switch.
pub fn flag_value(on: bool) -> (r: i32)
    ensures
        r == (if on { 1i32 } else { 0i32 }),
        (r == 1) == on,
{
    if on {
        1
    } else {
        0
    }
}

} // verus!
