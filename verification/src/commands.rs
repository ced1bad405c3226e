//! The values that the UI exchanges with the bridge, and the decisions
//! behind the actions that the UI can take.

use vstd::prelude::*;
use vstd::string::StringExecFns;
use crate::json::JsonValue;
use crate::json::json_model;
use crate::json::value_clone;
use crate::keyed::after_put;
use crate::keyed::distinct_names;
use crate::keyed::put;
use crate::protocol::ApiKeys;
use crate::protocol::BedrockCredentials;
use crate::protocol::SendResponsePayload;
use crate::protocol::SidecarCommand;
use crate::protocol::StartTaskPayload;
use crate::protocol::credentials_reading;
use crate::protocol::is_record_of;
use crate::protocol::optional_payload;
use crate::protocol::optional_task_id;
use crate::supervisor::SidecarManager;
use crate::text::starts_with;
use crate::text::str_eq;
use crate::text::strip_prefix;
use crate::text::trim_trailing_slashes;
use crate::text::without_trailing_slashes;

verus! {

/// A task as the UI sees it.
#[derive(Debug)]
pub struct Task {
    pub id: String,
    pub prompt: String,
    pub status: String,
    pub messages: Vec<TaskMessage>,
    pub result: Option<TaskResult>,
    pub session_id: Option<String>,
    pub summary: Option<String>,
    pub created_at: String,
    pub updated_at: Option<String>,
    pub completed_at: Option<String>,
    pub started_at: Option<String>,
}

/// A message of a task as the UI sees it.
#[derive(Debug)]
pub struct TaskMessage {
    pub id: String,
    pub msg_type: String,
    pub content: String,
    pub timestamp: String,
    pub tool_name: Option<String>,
    pub tool_input: Option<serde_json::Value>,
    pub attachments: Option<Vec<TaskAttachment>>,
}

/// An attachment of a message as the UI sees it.
#[derive(Debug)]
pub struct TaskAttachment {
    pub att_type: String,
    pub data: String,
    pub label: Option<String>,
}

/// How a task ended.
#[derive(Debug)]
pub struct TaskResult {
    pub status: String,
    pub error: Option<String>,
    pub session_id: Option<String>,
}

/// What the UI gives to start a task.
#[derive(Debug)]
pub struct TaskConfig {
    pub prompt: String,
    pub task_id: Option<String>,
}

/// The user's answer to a permission prompt.
#[derive(Debug)]
pub struct PermissionResponse {
    pub task_id: String,
    pub allowed: bool,
}

/// A stored secret as the UI lists it.
#[derive(Debug)]
pub struct ApiKeyConfig {
    pub id: String,
    pub provider: String,
    pub label: Option<String>,
    pub created_at: String,
}

/// The switches of the application settings.
#[derive(Debug)]
pub struct AppSettingsResponse {
    pub debug_mode: bool,
    pub onboarding_complete: bool,
}

/// The model that tasks run with.
#[derive(Debug)]
pub struct SelectedModel {
    pub provider: String,
    pub model: String,
    pub base_url: Option<String>,
    pub deployment_name: Option<String>,
}

/// A model that an Ollama server offers.
#[derive(Debug)]
pub struct OllamaModel {
    pub id: String,
    pub display_name: String,
    pub size: u64,
}

/// How a local Ollama server is reached, and what it offers.
#[derive(Debug)]
pub struct OllamaConfig {
    pub base_url: String,
    pub enabled: bool,
    pub last_validated: Option<u64>,
    pub models: Option<Vec<OllamaModel>>,
}

/// How an Azure Foundry deployment is reached.
#[derive(Debug)]
pub struct AzureFoundryConfig {
    pub base_url: String,
    pub deployment_name: String,
    pub auth_type: String,
    pub enabled: bool,
    pub last_validated: Option<u64>,
}

/// An Azure Foundry deployment to try.
#[derive(Debug)]
pub struct AzureFoundryTestConfig {
    pub endpoint: String,
    pub deployment_name: String,
    pub auth_type: String,
    pub api_key: Option<String>,
}

/// A model reached through OpenRouter or a LiteLLM proxy.
#[derive(Debug)]
pub struct OpenRouterModel {
    pub id: String,
    pub name: String,
    pub provider: String,
    pub context_length: u64,
}

/// How a LiteLLM proxy is reached, and what it offers.
#[derive(Debug)]
pub struct LiteLLMConfig {
    pub base_url: String,
    pub enabled: bool,
    pub last_validated: Option<u64>,
    pub models: Option<Vec<OpenRouterModel>>,
}

/// A model that Bedrock offers.
#[derive(Debug)]
pub struct BedrockModel {
    pub id: String,
    pub name: String,
    pub provider: String,
}

/// The provider settings as the UI sees them.
#[derive(Debug)]
pub struct ProviderSettings {
    pub active_provider: Option<String>,
    /// The connected providers, each under its identifier. No identifier
    /// occurs twice: see [`ProviderSettings::well_formed`].
    pub connected_providers: Vec<(String, ConnectedProviderResponse)>,
    pub debug_mode: bool,
}

/// A connected provider as the UI sees it.
#[derive(Debug)]
pub struct ConnectedProviderResponse {
    pub id: String,
    pub selected_model: Option<String>,
    pub config: Option<serde_json::Value>,
}

/// A connected provider as the UI gives it.
#[derive(Debug)]
pub struct ConnectedProviderInput {
    pub id: String,
    pub selected_model: Option<String>,
    pub config: Option<serde_json::Value>,
}

/// Whether a secret is stored for a provider, and what is shown of it.
#[derive(Debug)]
pub struct ApiKeyStatus {
    pub exists: bool,
    pub prefix: Option<String>,
}

/// Whether the command-line tool is installed.
#[derive(Debug)]
pub struct ClaudeCliStatus {
    pub installed: bool,
    pub version: Option<String>,
    pub install_command: String,
}

/// The outcome of a validation.
#[derive(Debug)]
pub struct ValidationResult {
    pub valid: bool,
    pub error: Option<String>,
}

/// The outcome of trying an Ollama server.
#[derive(Debug)]
pub struct ConnectionResult {
    pub success: bool,
    pub models: Option<Vec<OllamaModel>>,
    pub error: Option<String>,
}

/// The outcome of asking OpenRouter or a LiteLLM proxy for its models.
#[derive(Debug)]
pub struct OpenRouterModelsResult {
    pub success: bool,
    pub models: Option<Vec<OpenRouterModel>>,
    pub error: Option<String>,
}

/// The outcome of asking Bedrock for its models.
#[derive(Debug)]
pub struct BedrockModelsResult {
    pub success: bool,
    pub models: Vec<BedrockModel>,
    pub error: Option<String>,
}

/// A line for the log, as the UI gives it.
#[derive(Debug)]
pub struct LogPayload {
    pub level: Option<String>,
    pub message: String,
    /// Further details, each under its name. No name occurs twice: see
    /// [`LogPayload::well_formed`].
    pub context: Option<Vec<(String, serde_json::Value)>>,
}

impl ProviderSettings {
    /// No identifier occurs twice among the connected providers.
    pub open spec fn well_formed(self) -> bool {
        distinct_names(self.connected_providers@)
    }

    /// Settings without a connected provider.
    pub fn new(active_provider: Option<String>, debug_mode: bool) -> (r: ProviderSettings)
        ensures
            r.active_provider == active_provider,
            r.debug_mode == debug_mode,
            r.connected_providers@.len() == 0,
            r.well_formed(),
    {
        ProviderSettings { active_provider, connected_providers: Vec::new(), debug_mode }
    }

    /// Enters a connected provider under an identifier, in the place of the
    /// one that stood under it, or at the end where the identifier is new.
    pub fn add(&mut self, id: String, provider: ConnectedProviderResponse)
        ensures
            final(self).active_provider == old(self).active_provider,
            final(self).debug_mode == old(self).debug_mode,
            after_put(
                old(self).connected_providers@,
                final(self).connected_providers@,
                id,
                provider,
            ),
            old(self).well_formed() ==> final(self).well_formed(),
    {
        put(&mut self.connected_providers, id, provider);
    }
}

impl LogPayload {
    /// No name occurs twice among the details.
    pub open spec fn well_formed(self) -> bool {
        match self.context {
            Some(details) => distinct_names(details@),
            None => true,
        }
    }

    /// A line for the log without details.
    pub fn new(level: Option<String>, message: String) -> (r: LogPayload)
        ensures
            r.level == level,
            r.message == message,
            r.context is None,
            r.well_formed(),
    {
        LogPayload { level, message, context: None }
    }

    /// Enters a detail under its name, in the place of the one that stood
    /// under it, or at the end where the name is new.
    pub fn add_detail(self, name: String, value: serde_json::Value) -> (r: LogPayload)
        ensures
            r.level == self.level,
            r.message == self.message,
            r.context matches Some(details) && after_put(
                match self.context {
                    Some(before) => before@,
                    None => Seq::empty(),
                },
                details@,
                name,
                value,
            ),
            self.well_formed() ==> r.well_formed(),
    {
        let mut details = match self.context {
            Some(details) => details,
            None => Vec::new(),
        };
        put(&mut details, name, value);
        LogPayload { level: self.level, message: self.message, context: Some(details) }
    }
}

impl ValidationResult {
    /// A validation that passed.
    pub fn passed() -> (r: ValidationResult)
        ensures
            r.valid,
            r.error is None,
    {
        ValidationResult { valid: true, error: None }
    }

    /// A validation that failed for a reason.
    pub fn failed(reason: String) -> (r: ValidationResult)
        ensures
            !r.valid,
            r.error == Some(reason),
    {
        ValidationResult { valid: false, error: Some(reason) }
    }
}

/// Whether a secret has the form that its provider gives to its secrets.
/// Of a provider without a known form only an empty secret is refused.
pub open spec fn key_format_ok(provider: Seq<char>, key: Seq<char>) -> bool {
    if provider == "anthropic"@ {
        "sk-ant-"@.is_prefix_of(key)
    } else if provider == "openai"@ {
        "sk-"@.is_prefix_of(key)
    } else if provider == "openrouter"@ {
        "sk-or-"@.is_prefix_of(key)
    } else {
        key.len() > 0
    }
}

/// Whether a secret has the form that its provider gives to its secrets.
pub fn has_key_format(provider: &str, key: &str) -> (r: bool)
    ensures
        r == key_format_ok(provider@, key@),
{
    if str_eq(provider, "anthropic") {
        starts_with(key, "sk-ant-")
    } else if str_eq(provider, "openai") {
        starts_with(key, "sk-")
    } else if str_eq(provider, "openrouter") {
        starts_with(key, "sk-or-")
    } else {
        key.unicode_len() > 0
    }
}

/// Validates the form of a secret for a provider.
pub fn validate_api_key_for_provider(provider: &str, key: &str) -> (r: ValidationResult)
    ensures
        r.valid == key_format_ok(provider@, key@),
        r.valid ==> r.error is None,
        !r.valid ==> (r.error matches Some(reason) && reason@
            == "Invalid API key format for provider: "@ + provider@),
{
    if has_key_format(provider, key) {
        ValidationResult::passed()
    } else {
        ValidationResult::failed(
            String::from_str("Invalid API key format for provider: ").concat(provider),
        )
    }
}

/// Validates a secret whose provider is not known: every secret passes.
pub fn validate_api_key(key: &str) -> (r: ValidationResult)
    ensures
        r.valid,
        r.error is None,
{
    ValidationResult::passed()
}

/// What the validation of structured credentials, given as JSON text,
/// finds: nothing where the text holds the three texts and none is empty;
/// else that a text is empty, or why the credentials cannot be read.
pub open spec fn credentials_fault(text: Seq<char>) -> Option<Seq<char>> {
    match credentials_reading(text) {
        Ok(model) => if model.access_key_id.len() == 0 || model.secret_access_key.len() == 0
            || model.region.len() == 0 {
            Some("All credential fields are required"@)
        } else {
            None
        },
        Err(reason) => Some("Invalid credentials format: "@ + reason),
    }
}

/// Validates structured credentials given as JSON text.
pub fn validate_bedrock_credentials(credentials: &str) -> (r: ValidationResult)
    ensures
        r.valid == credentials_fault(credentials@) is None,
        match credentials_fault(credentials@) {
            Some(fault) => r.error matches Some(reason) && reason@ == fault,
            None => r.error is None,
        },
{
    match BedrockCredentials::read_json_text(credentials) {
        Ok(found) => {
            if found.access_key_id.as_str().unicode_len() == 0
                || found.secret_access_key.as_str().unicode_len() == 0
                || found.region.as_str().unicode_len() == 0 {
                ValidationResult::failed(String::from_str("All credential fields are required"))
            } else {
                ValidationResult::passed()
            }
        },
        Err(reason) => ValidationResult::failed(
            String::from_str("Invalid credentials format: ").concat(reason.as_str()),
        ),
    }
}

/// Calls `uuid::Uuid::new_v4` and prints the identifier. Nothing is
/// promised of the text: it is drawn at random.
#[verifier::external_body]
fn fresh_uuid() -> (r: String) {
    uuid::Uuid::new_v4().to_string()
}

/// Calls `chrono::Utc::now` and `to_rfc3339` on it. Nothing is promised of
/// the text: it is the time of the call.
#[verifier::external_body]
fn now_rfc3339() -> (r: String) {
    chrono::Utc::now().to_rfc3339()
}

/// The identifier of a task that the caller did not name, made from a fresh
/// unique text.
pub fn task_id_from(unique: &str) -> (r: String)
    ensures
        r@ == "task_"@ + unique@,
{
    String::from_str("task_").concat(unique)
}

/// The identifier under which a task runs: the one that the caller gave,
/// or a fresh one.
pub fn resolve_task_id(given: Option<String>) -> (r: String)
    ensures
        match given {
            Some(id) => r == id,
            None => exists|unique: Seq<char>| r@ == "task_"@ + unique,
        },
{
    match given {
        Some(id) => id,
        None => {
            let unique = fresh_uuid();
            let r = task_id_from(unique.as_str());
            assert(r@ == "task_"@ + unique@);
            r
        },
    }
}

/// The command that starts a task, or resumes a session where one is
/// named. The task is named twice, in the record and in its payload; no
/// working directory and no model are given.
pub fn start_task_command(
    task_id: &str,
    prompt: &str,
    session_id: Option<String>,
    api_keys: ApiKeys,
) -> (r: SidecarCommand)
    ensures
        r matches SidecarCommand::StartTask { task_id: id, payload } && {
            &&& id@ == task_id@
            &&& payload.task_id@ == task_id@
            &&& payload.prompt@ == prompt@
            &&& payload.session_id == session_id
            &&& payload.api_keys == Some(api_keys)
            &&& payload.working_directory is None
            &&& payload.model_id is None
        },
{
    SidecarCommand::StartTask {
        task_id: String::from_str(task_id),
        payload: StartTaskPayload {
            task_id: String::from_str(task_id),
            prompt: String::from_str(prompt),
            session_id,
            api_keys: Some(api_keys),
            working_directory: None,
            model_id: None,
        },
    }
}

/// The task as it is handed to the UI when its command has been sent: it
/// is starting, and has neither messages nor a result yet.
pub fn starting_task(
    task_id: String,
    prompt: String,
    session_id: Option<String>,
    created_at: String,
    started_at: String,
) -> (r: Task)
    ensures
        r.id == task_id,
        r.prompt == prompt,
        r.status@ == "starting"@,
        r.messages@.len() == 0,
        r.result is None,
        r.session_id == session_id,
        r.summary is None,
        r.created_at == created_at,
        r.updated_at is None,
        r.completed_at is None,
        r.started_at == Some(started_at),
{
    Task {
        id: task_id,
        prompt,
        status: String::from_str("starting"),
        messages: Vec::new(),
        result: None,
        session_id,
        summary: None,
        created_at,
        updated_at: None,
        completed_at: None,
        started_at: Some(started_at),
    }
}

/// Prepares the start of a task, or the resumption of a session: the
/// command for the worker and the task for the UI, under one identifier.
pub fn prepare_task(
    config: TaskConfig,
    session_id: Option<String>,
    api_keys: ApiKeys,
) -> (r: (SidecarCommand, Task))
    ensures
        r.0 matches SidecarCommand::StartTask { task_id: id, payload } && {
            &&& id == r.1.id
            &&& payload.task_id == r.1.id
            &&& payload.prompt == config.prompt
            &&& payload.session_id == session_id
            &&& payload.api_keys == Some(api_keys)
            &&& payload.working_directory is None
            &&& payload.model_id is None
        },
        match config.task_id {
            Some(id) => r.1.id == id,
            None => exists|unique: Seq<char>| r.1.id@ == "task_"@ + unique,
        },
        r.1.prompt == config.prompt,
        r.1.status@ == "starting"@,
        r.1.messages@.len() == 0,
        r.1.result is None,
        r.1.session_id == session_id,
        r.1.summary is None,
        r.1.updated_at is None,
        r.1.started_at is Some,
        r.1.completed_at is None,
{
    let task_id = resolve_task_id(config.task_id);
    let command = SidecarCommand::StartTask {
        task_id: task_id.clone(),
        payload: StartTaskPayload {
            task_id: task_id.clone(),
            prompt: config.prompt.clone(),
            session_id: session_id.clone(),
            api_keys: Some(api_keys),
            working_directory: None,
            model_id: None,
        },
    };
    let created_at = now_rfc3339();
    let started_at = now_rfc3339();
    let task = starting_task(task_id, config.prompt, session_id, created_at, started_at);
    (command, task)
}

/// The text that answers a permission prompt.
pub fn permission_text(allowed: bool) -> (r: &'static str)
    ensures
        r@ == (if allowed { "yes"@ } else { "no"@ }),
{
    if allowed {
        "yes"
    } else {
        "no"
    }
}

/// The command that carries the user's answer to a permission prompt.
pub fn permission_command(response: PermissionResponse) -> (r: SidecarCommand)
    ensures
        r matches SidecarCommand::SendResponse { task_id, payload } && {
            &&& task_id == response.task_id
            &&& payload.response@ == (if response.allowed { "yes"@ } else { "no"@ })
        },
{
    SidecarCommand::SendResponse {
        task_id: response.task_id,
        payload: SendResponsePayload {
            response: String::from_str(permission_text(response.allowed)),
        },
    }
}

/// The command that cancels a task.
pub fn cancel_command(task_id: String) -> (r: SidecarCommand)
    ensures
        r == (SidecarCommand::CancelTask { task_id }),
{
    SidecarCommand::CancelTask { task_id }
}

/// The command that interrupts a task.
pub fn interrupt_command(task_id: String) -> (r: SidecarCommand)
    ensures
        r == (SidecarCommand::InterruptTask { task_id }),
{
    SidecarCommand::InterruptTask { task_id }
}

/// The line to write for a command that is sent only while a worker runs:
/// none without a worker, which is no failure.
pub fn line_if_running<H>(manager: &SidecarManager<H>, cmd: &SidecarCommand) -> (r: Option<String>)
    ensures
        manager.child() is None ==> r is None,
        manager.child() is Some ==> (r matches Some(line) && is_record_of(line@, cmd.json())),
{
    match manager.send_command(cmd) {
        Ok(line) => Some(line),
        Err(_) => None,
    }
}

/// Cancels a task: the line to write to the worker, and none where no
/// worker runs.
pub fn cancel_task<H>(manager: &SidecarManager<H>, task_id: String) -> (r: Option<String>)
    ensures
        manager.child() is None ==> r is None,
        manager.child() is Some ==> (r matches Some(line) && is_record_of(
            line@,
            (SidecarCommand::CancelTask { task_id }).json(),
        )),
{
    line_if_running(manager, &cancel_command(task_id))
}

/// Interrupts a task: the line to write to the worker, and none where no
/// worker runs.
pub fn interrupt_task<H>(manager: &SidecarManager<H>, task_id: String) -> (r: Option<String>)
    ensures
        manager.child() is None ==> r is None,
        manager.child() is Some ==> (r matches Some(line) && is_record_of(
            line@,
            (SidecarCommand::InterruptTask { task_id }).json(),
        )),
{
    line_if_running(manager, &interrupt_command(task_id))
}

/// The record that carries an answer to a permission prompt of a task.
pub open spec fn response_record(task_id: Seq<char>, answer: Seq<char>) -> JsonValue {
    JsonValue::Object(
        seq![("type"@, JsonValue::String("send_response"@))] + optional_task_id(Some(task_id))
            + optional_payload(
            Some(JsonValue::Object(seq![("response"@, JsonValue::String(answer))])),
        ),
    )
}

/// Answers a permission prompt: the line to write to the worker, and none
/// where no worker runs.
pub fn respond_to_permission<H>(manager: &SidecarManager<H>, response: PermissionResponse) -> (r:
    Option<String>)
    ensures
        manager.child() is None ==> r is None,
        manager.child() is Some ==> (r matches Some(line) && is_record_of(
            line@,
            response_record(
                response.task_id@,
                if response.allowed {
                    "yes"@
                } else {
                    "no"@
                },
            ),
        )),
{
    let cmd = permission_command(response);
    line_if_running(manager, &cmd)
}

/// The identifier under which the UI lists the secret of a provider.
pub fn api_key_id(provider: &str) -> (r: String)
    ensures
        r@ == "apikey-"@ + provider@,
{
    String::from_str("apikey-").concat(provider)
}

/// The provider that a listed secret belongs to: the identifier without its
/// prefix, and the identifier itself where it has none.
pub fn provider_of_key_id(id: &str) -> (r: String)
    ensures
        "apikey-"@.is_prefix_of(id@) ==> id@ == "apikey-"@ + r@,
        !"apikey-"@.is_prefix_of(id@) ==> r@ == id@,
{
    match strip_prefix(id, "apikey-") {
        Some(provider) => provider,
        None => String::from_str(id),
    }
}

/// The secret of a provider as the UI lists it.
pub fn api_key_config(provider: &str, label: Option<String>, created_at: String) -> (r:
    ApiKeyConfig)
    ensures
        r.id@ == "apikey-"@ + provider@,
        r.provider@ == provider@,
        r.label == label,
        r.created_at == created_at,
{
    ApiKeyConfig { id: api_key_id(provider), provider: String::from_str(provider), label, created_at }
}

/// The structured credentials as the UI lists them once they are saved.
pub fn bedrock_key_config(created_at: String) -> (r: ApiKeyConfig)
    ensures
        r.id@ == "apikey-bedrock"@,
        r.provider@ == "bedrock"@,
        r.label matches Some(label) && label@ == "AWS Bedrock"@,
        r.created_at == created_at,
{
    ApiKeyConfig {
        id: String::from_str("apikey-bedrock"),
        provider: String::from_str("bedrock"),
        label: Some(String::from_str("AWS Bedrock")),
        created_at,
    }
}

/// The providers of a survey for which a secret is stored, in the order of
/// the survey.
pub open spec fn stored_providers(statuses: Seq<(String, crate::secure_storage::ApiKeyStatus)>) -> Seq<
    Seq<char>,
>
    decreases statuses.len(),
{
    if statuses.len() == 0 {
        Seq::empty()
    } else {
        let earlier = stored_providers(statuses.drop_last());
        if statuses.last().1.exists {
            earlier.push(statuses.last().0@)
        } else {
            earlier
        }
    }
}

/// The stored secrets as the UI lists them: one entry for each provider of
/// the survey that has a secret, labelled with the provider.
pub fn listed_api_keys(
    statuses: &Vec<(String, crate::secure_storage::ApiKeyStatus)>,
    created_at: &str,
) -> (out: Vec<ApiKeyConfig>)
    ensures
        out@.len() == stored_providers(statuses@).len(),
        forall|i: int|
            0 <= i < out@.len() ==> {
                let provider = stored_providers(statuses@)[i];
                &&& (#[trigger] out@[i]).provider@ == provider
                &&& out@[i].id@ == "apikey-"@ + provider
                &&& out@[i].label matches Some(label) && label@ == provider
                &&& out@[i].created_at@ == created_at@
            },
{
    let mut out: Vec<ApiKeyConfig> = Vec::new();
    let mut i: usize = 0;
    assert(statuses@.subrange(0, 0) =~= Seq::empty());
    while i < statuses.len()
        invariant
            i <= statuses.len(),
            out@.len() == stored_providers(statuses@.subrange(0, i as int)).len(),
            forall|k: int|
                0 <= k < out@.len() ==> {
                    let provider = stored_providers(statuses@.subrange(0, i as int))[k];
                    &&& (#[trigger] out@[k]).provider@ == provider
                    &&& out@[k].id@ == "apikey-"@ + provider
                    &&& out@[k].label matches Some(label) && label@ == provider
                    &&& out@[k].created_at@ == created_at@
                },
        decreases statuses.len() - i,
    {
        let ghost seen = statuses@.subrange(0, i as int + 1);
        proof {
            assert(seen.drop_last() =~= statuses@.subrange(0, i as int));
            assert(seen.last() == statuses@[i as int]);
        }
        if statuses[i].1.exists {
            let provider = statuses[i].0.as_str();
            out.push(
                api_key_config(provider, Some(String::from_str(provider)), String::from_str(created_at)),
            );
        }
        i = i + 1;
    }
    assert(statuses@.subrange(0, i as int) =~= statuses@);
    out
}

/// The address at which an Ollama server lists its models.
pub fn ollama_tags_url(base_url: &str) -> (r: String)
    ensures
        r@ == without_trailing_slashes(base_url@) + "/api/tags"@,
{
    trim_trailing_slashes(base_url).concat("/api/tags")
}

/// The address at which a LiteLLM proxy lists its models.
pub fn litellm_models_url(base_url: &str) -> (r: String)
    ensures
        r@ == without_trailing_slashes(base_url@) + "/models"@,
{
    trim_trailing_slashes(base_url).concat("/models")
}

/// A model as an Ollama server lists it: it is shown under its name.
pub fn ollama_model(name: String, size: u64) -> (r: OllamaModel)
    ensures
        r.id == name,
        r.display_name == name,
        r.size == size,
{
    OllamaModel { id: name.clone(), display_name: name, size }
}

/// A model as a LiteLLM proxy lists it: it is shown under its identifier,
/// and the length of its context is not known.
pub fn litellm_model(id: String, owned_by: String) -> (r: OpenRouterModel)
    ensures
        r.id == id,
        r.name == id,
        r.provider == owned_by,
        r.context_length == 0,
{
    OpenRouterModel { id: id.clone(), name: id, provider: owned_by, context_length: 0 }
}

impl ConnectionResult {
    /// The server answered with its models.
    pub fn connected(models: Vec<OllamaModel>) -> (r: ConnectionResult)
        ensures
            r.success,
            r.models == Some(models),
            r.error is None,
    {
        ConnectionResult { success: true, models: Some(models), error: None }
    }

    /// The server could not be asked; `reason` says why, after `context`.
    pub fn failed(context: &str, reason: &str) -> (r: ConnectionResult)
        ensures
            !r.success,
            r.models is None,
            r.error matches Some(text) && text@ == context@ + reason@,
    {
        ConnectionResult {
            success: false,
            models: None,
            error: Some(String::from_str(context).concat(reason)),
        }
    }
}

impl OpenRouterModelsResult {
    /// The service answered with its models.
    pub fn listed(models: Vec<OpenRouterModel>) -> (r: OpenRouterModelsResult)
        ensures
            r.success,
            r.models == Some(models),
            r.error is None,
    {
        OpenRouterModelsResult { success: true, models: Some(models), error: None }
    }

    /// The service could not be asked; `reason` says why, after `context`.
    pub fn failed(context: &str, reason: &str) -> (r: OpenRouterModelsResult)
        ensures
            !r.success,
            r.models is None,
            r.error matches Some(text) && text@ == context@ + reason@,
    {
        OpenRouterModelsResult {
            success: false,
            models: None,
            error: Some(String::from_str(context).concat(reason)),
        }
    }
}

impl BedrockModelsResult {
    /// The listing of Bedrock's models is not available.
    pub fn unavailable() -> (r: BedrockModelsResult)
        ensures
            !r.success,
            r.models@.len() == 0,
            r.error matches Some(text) && text@ == "Bedrock not yet implemented"@,
    {
        BedrockModelsResult {
            success: false,
            models: Vec::new(),
            error: Some(String::from_str("Bedrock not yet implemented")),
        }
    }
}

impl ClaudeCliStatus {
    /// The status of the command-line tool, from whether it was found and
    /// from the version it reported.
    pub fn from_probe(found: bool, version: Option<String>) -> (r: ClaudeCliStatus)
        ensures
            r.installed == found,
            r.version == (if found { version } else { None }),
            r.install_command@ == "npm install -g opencode-ai"@,
    {
        ClaudeCliStatus {
            installed: found,
            version: if found { version } else { None },
            install_command: String::from_str("npm install -g opencode-ai"),
        }
    }
}

/// The line that the log shows for what the UI reported: the level, which
/// is `info` where none is given, and the message.
pub fn log_line(payload: &LogPayload) -> (r: String)
    ensures
        r@ == "["@ + (match payload.level {
            Some(level) => level@,
            None => "info"@,
        }) + "] "@ + payload.message@,
{
    let level = match &payload.level {
        Some(level) => level.as_str(),
        None => "info",
    };
    String::from_str("[").concat(level).concat("] ").concat(payload.message.as_str())
}

/// The selected model as the UI sees it.
pub fn selected_model_response(stored: &crate::settings::SelectedModel) -> (r: SelectedModel)
    ensures
        r.provider == stored.provider,
        r.model == stored.model,
        r.base_url == stored.base_url,
        r.deployment_name == stored.deployment_name,
{
    SelectedModel {
        provider: stored.provider.clone(),
        model: stored.model.clone(),
        base_url: stored.base_url.clone(),
        deployment_name: stored.deployment_name.clone(),
    }
}

/// The selected model as the store keeps it.
pub fn selected_model_to_store(shown: &SelectedModel) -> (r: crate::settings::SelectedModel)
    ensures
        r.provider == shown.provider,
        r.model == shown.model,
        r.base_url == shown.base_url,
        r.deployment_name == shown.deployment_name,
{
    crate::settings::SelectedModel {
        provider: shown.provider.clone(),
        model: shown.model.clone(),
        base_url: shown.base_url.clone(),
        deployment_name: shown.deployment_name.clone(),
    }
}

/// The Azure Foundry configuration as the UI sees it.
pub fn azure_foundry_response(stored: &crate::settings::AzureFoundryConfig) -> (r: AzureFoundryConfig)
    ensures
        r.base_url == stored.base_url,
        r.deployment_name == stored.deployment_name,
        r.auth_type == stored.auth_type,
        r.enabled == stored.enabled,
        r.last_validated == stored.last_validated,
{
    AzureFoundryConfig {
        base_url: stored.base_url.clone(),
        deployment_name: stored.deployment_name.clone(),
        auth_type: stored.auth_type.clone(),
        enabled: stored.enabled,
        last_validated: stored.last_validated,
    }
}

/// The Azure Foundry configuration as the store keeps it.
pub fn azure_foundry_to_store(shown: &AzureFoundryConfig) -> (r: crate::settings::AzureFoundryConfig)
    ensures
        r.base_url == shown.base_url,
        r.deployment_name == shown.deployment_name,
        r.auth_type == shown.auth_type,
        r.enabled == shown.enabled,
        r.last_validated == shown.last_validated,
{
    crate::settings::AzureFoundryConfig {
        base_url: shown.base_url.clone(),
        deployment_name: shown.deployment_name.clone(),
        auth_type: shown.auth_type.clone(),
        enabled: shown.enabled,
        last_validated: shown.last_validated,
    }
}

/// A model of an Ollama server as the UI sees it.
pub fn ollama_model_response(stored: &crate::settings::OllamaModel) -> (r: OllamaModel)
    ensures
        r.id == stored.id,
        r.display_name == stored.display_name,
        r.size == stored.size,
{
    OllamaModel {
        id: stored.id.clone(),
        display_name: stored.display_name.clone(),
        size: stored.size,
    }
}

/// A model of an Ollama server as the store keeps it.
pub fn ollama_model_to_store(shown: &OllamaModel) -> (r: crate::settings::OllamaModel)
    ensures
        r.id == shown.id,
        r.display_name == shown.display_name,
        r.size == shown.size,
{
    crate::settings::OllamaModel {
        id: shown.id.clone(),
        display_name: shown.display_name.clone(),
        size: shown.size,
    }
}

/// A model of a LiteLLM proxy as the UI sees it.
pub fn litellm_model_response(stored: &crate::settings::LiteLLMModel) -> (r: OpenRouterModel)
    ensures
        r.id == stored.id,
        r.name == stored.name,
        r.provider == stored.provider,
        r.context_length == stored.context_length,
{
    OpenRouterModel {
        id: stored.id.clone(),
        name: stored.name.clone(),
        provider: stored.provider.clone(),
        context_length: stored.context_length,
    }
}

/// A model of a LiteLLM proxy as the store keeps it.
pub fn litellm_model_to_store(shown: &OpenRouterModel) -> (r: crate::settings::LiteLLMModel)
    ensures
        r.id == shown.id,
        r.name == shown.name,
        r.provider == shown.provider,
        r.context_length == shown.context_length,
{
    crate::settings::LiteLLMModel {
        id: shown.id.clone(),
        name: shown.name.clone(),
        provider: shown.provider.clone(),
        context_length: shown.context_length,
    }
}

/// An attachment of the history as the UI sees it.
pub fn task_attachment(stored: &crate::tasks::StoredAttachment) -> (r: TaskAttachment)
    ensures
        r.att_type == stored.att_type,
        r.data == stored.data,
        r.label == stored.label,
{
    TaskAttachment {
        att_type: stored.att_type.clone(),
        data: stored.data.clone(),
        label: stored.label.clone(),
    }
}

/// The status of a secret as the UI sees it.
pub fn api_key_status_response(stored: &crate::secure_storage::ApiKeyStatus) -> (r: ApiKeyStatus)
    ensures
        r.exists == stored.exists,
        r.prefix == stored.prefix,
{
    ApiKeyStatus {
        exists: stored.exists,
        prefix: stored.prefix.clone(),
    }
}

/// The switches of the application settings as the UI sees them.
pub fn app_settings_response(stored: &crate::settings::AppSettings) -> (r: AppSettingsResponse)
    ensures
        r.debug_mode == stored.debug_mode,
        r.onboarding_complete == stored.onboarding_complete,
{
    AppSettingsResponse {
        debug_mode: stored.debug_mode,
        onboarding_complete: stored.onboarding_complete,
    }
}

/// Whether a model of an Ollama server is the same on both sides.
pub open spec fn same_ollama_model(a: OllamaModel, b: crate::settings::OllamaModel) -> bool {
    a.id == b.id && a.display_name == b.display_name && a.size == b.size
}

/// The models of an Ollama server as the UI sees them, in order.
pub fn ollama_models_response(stored: &Vec<crate::settings::OllamaModel>) -> (out: Vec<OllamaModel>)
    ensures
        out@.len() == stored@.len(),
        forall|i: int| 0 <= i < out@.len() ==> same_ollama_model(#[trigger] out@[i], stored@[i]),
{
    let mut out: Vec<OllamaModel> = Vec::new();
    let mut i: usize = 0;
    while i < stored.len()
        invariant
            i <= stored.len(),
            out@.len() == i,
            forall|k: int| 0 <= k < i ==> same_ollama_model(#[trigger] out@[k], stored@[k]),
        decreases stored.len() - i,
    {
        out.push(ollama_model_response(&stored[i]));
        i = i + 1;
    }
    out
}

/// Whether a list of models, or its absence, is the same on both sides.
pub open spec fn same_ollama_models(
    a: Option<Vec<OllamaModel>>,
    b: Option<Vec<crate::settings::OllamaModel>>,
) -> bool {
    match (a, b) {
        (Some(x), Some(y)) => x@.len() == y@.len() && forall|i: int|
            0 <= i < x@.len() ==> same_ollama_model(#[trigger] x@[i], y@[i]),
        (None, None) => true,
        _ => false,
    }
}

/// The Ollama configuration as the UI sees it.
pub fn ollama_config_response(stored: &crate::settings::OllamaConfig) -> (r: OllamaConfig)
    ensures
        r.base_url == stored.base_url,
        r.enabled == stored.enabled,
        r.last_validated == stored.last_validated,
        same_ollama_models(r.models, stored.models),
{
    OllamaConfig {
        base_url: stored.base_url.clone(),
        enabled: stored.enabled,
        last_validated: stored.last_validated,
        models: match &stored.models {
            Some(models) => Some(ollama_models_response(models)),
            None => None,
        },
    }
}

/// Whether a model of an Ollama server is kept as it was given.
pub open spec fn stored_ollama_model(a: crate::settings::OllamaModel, b: OllamaModel) -> bool {
    a.id == b.id && a.display_name == b.display_name && a.size == b.size
}

/// The models of an Ollama server as the store keeps them, in order.
pub fn ollama_models_to_store(shown: &Vec<OllamaModel>) -> (out: Vec<crate::settings::OllamaModel>)
    ensures
        out@.len() == shown@.len(),
        forall|i: int| 0 <= i < out@.len() ==> stored_ollama_model(#[trigger] out@[i], shown@[i]),
{
    let mut out: Vec<crate::settings::OllamaModel> = Vec::new();
    let mut i: usize = 0;
    while i < shown.len()
        invariant
            i <= shown.len(),
            out@.len() == i,
            forall|k: int| 0 <= k < i ==> stored_ollama_model(#[trigger] out@[k], shown@[k]),
        decreases shown.len() - i,
    {
        out.push(ollama_model_to_store(&shown[i]));
        i = i + 1;
    }
    out
}

/// Whether a list of models, or its absence, is kept as it was given.
pub open spec fn stored_ollama_models(
    a: Option<Vec<crate::settings::OllamaModel>>,
    b: Option<Vec<OllamaModel>>,
) -> bool {
    match (a, b) {
        (Some(x), Some(y)) => x@.len() == y@.len() && forall|i: int|
            0 <= i < x@.len() ==> stored_ollama_model(#[trigger] x@[i], y@[i]),
        (None, None) => true,
        _ => false,
    }
}

/// The Ollama configuration as the store keeps it.
pub fn ollama_config_to_store(shown: &OllamaConfig) -> (r: crate::settings::OllamaConfig)
    ensures
        r.base_url == shown.base_url,
        r.enabled == shown.enabled,
        r.last_validated == shown.last_validated,
        stored_ollama_models(r.models, shown.models),
{
    crate::settings::OllamaConfig {
        base_url: shown.base_url.clone(),
        enabled: shown.enabled,
        last_validated: shown.last_validated,
        models: match &shown.models {
            Some(models) => Some(ollama_models_to_store(models)),
            None => None,
        },
    }
}

/// Whether a model of a LiteLLM proxy is the same on both sides.
pub open spec fn same_litellm_model(a: OpenRouterModel, b: crate::settings::LiteLLMModel) -> bool {
    a.id == b.id && a.name == b.name && a.provider == b.provider && a.context_length == b.context_length
}

/// The models of a LiteLLM proxy as the UI sees them, in order.
pub fn litellm_models_response(
    stored: &Vec<crate::settings::LiteLLMModel>,
) -> (out: Vec<OpenRouterModel>)
    ensures
        out@.len() == stored@.len(),
        forall|i: int| 0 <= i < out@.len() ==> same_litellm_model(#[trigger] out@[i], stored@[i]),
{
    let mut out: Vec<OpenRouterModel> = Vec::new();
    let mut i: usize = 0;
    while i < stored.len()
        invariant
            i <= stored.len(),
            out@.len() == i,
            forall|k: int| 0 <= k < i ==> same_litellm_model(#[trigger] out@[k], stored@[k]),
        decreases stored.len() - i,
    {
        out.push(litellm_model_response(&stored[i]));
        i = i + 1;
    }
    out
}

/// Whether a list of models, or its absence, is the same on both sides.
pub open spec fn same_litellm_models(
    a: Option<Vec<OpenRouterModel>>,
    b: Option<Vec<crate::settings::LiteLLMModel>>,
) -> bool {
    match (a, b) {
        (Some(x), Some(y)) => x@.len() == y@.len() && forall|i: int|
            0 <= i < x@.len() ==> same_litellm_model(#[trigger] x@[i], y@[i]),
        (None, None) => true,
        _ => false,
    }
}

/// The LiteLLM configuration as the UI sees it.
pub fn litellm_config_response(stored: &crate::settings::LiteLLMConfig) -> (r: LiteLLMConfig)
    ensures
        r.base_url == stored.base_url,
        r.enabled == stored.enabled,
        r.last_validated == stored.last_validated,
        same_litellm_models(r.models, stored.models),
{
    LiteLLMConfig {
        base_url: stored.base_url.clone(),
        enabled: stored.enabled,
        last_validated: stored.last_validated,
        models: match &stored.models {
            Some(models) => Some(litellm_models_response(models)),
            None => None,
        },
    }
}

/// Whether a model of a LiteLLM proxy is kept as it was given.
pub open spec fn stored_litellm_model(a: crate::settings::LiteLLMModel, b: OpenRouterModel) -> bool {
    a.id == b.id && a.name == b.name && a.provider == b.provider && a.context_length == b.context_length
}

/// The models of a LiteLLM proxy as the store keeps them, in order.
pub fn litellm_models_to_store(
    shown: &Vec<OpenRouterModel>,
) -> (out: Vec<crate::settings::LiteLLMModel>)
    ensures
        out@.len() == shown@.len(),
        forall|i: int| 0 <= i < out@.len() ==> stored_litellm_model(#[trigger] out@[i], shown@[i]),
{
    let mut out: Vec<crate::settings::LiteLLMModel> = Vec::new();
    let mut i: usize = 0;
    while i < shown.len()
        invariant
            i <= shown.len(),
            out@.len() == i,
            forall|k: int| 0 <= k < i ==> stored_litellm_model(#[trigger] out@[k], shown@[k]),
        decreases shown.len() - i,
    {
        out.push(litellm_model_to_store(&shown[i]));
        i = i + 1;
    }
    out
}

/// Whether a list of models, or its absence, is kept as it was given.
pub open spec fn stored_litellm_models(
    a: Option<Vec<crate::settings::LiteLLMModel>>,
    b: Option<Vec<OpenRouterModel>>,
) -> bool {
    match (a, b) {
        (Some(x), Some(y)) => x@.len() == y@.len() && forall|i: int|
            0 <= i < x@.len() ==> stored_litellm_model(#[trigger] x@[i], y@[i]),
        (None, None) => true,
        _ => false,
    }
}

/// The LiteLLM configuration as the store keeps it.
pub fn litellm_config_to_store(shown: &LiteLLMConfig) -> (r: crate::settings::LiteLLMConfig)
    ensures
        r.base_url == shown.base_url,
        r.enabled == shown.enabled,
        r.last_validated == shown.last_validated,
        stored_litellm_models(r.models, shown.models),
{
    crate::settings::LiteLLMConfig {
        base_url: shown.base_url.clone(),
        enabled: shown.enabled,
        last_validated: shown.last_validated,
        models: match &shown.models {
            Some(models) => Some(litellm_models_to_store(models)),
            None => None,
        },
    }
}

/// Whether an attachment is the same on both sides.
pub open spec fn same_attachment(a: TaskAttachment, b: crate::tasks::StoredAttachment) -> bool {
    a.att_type == b.att_type && a.data == b.data && a.label == b.label
}

/// The attachments of a message as the UI sees them, in order.
pub fn task_attachments(stored: &Vec<crate::tasks::StoredAttachment>) -> (out: Vec<TaskAttachment>)
    ensures
        out@.len() == stored@.len(),
        forall|i: int| 0 <= i < out@.len() ==> same_attachment(#[trigger] out@[i], stored@[i]),
{
    let mut out: Vec<TaskAttachment> = Vec::new();
    let mut i: usize = 0;
    while i < stored.len()
        invariant
            i <= stored.len(),
            out@.len() == i,
            forall|k: int| 0 <= k < i ==> same_attachment(#[trigger] out@[k], stored@[k]),
        decreases stored.len() - i,
    {
        out.push(task_attachment(&stored[i]));
        i = i + 1;
    }
    out
}

/// Whether a list of attachments, or its absence, is the same on both sides.
pub open spec fn same_attachments(
    a: Option<Vec<TaskAttachment>>,
    b: Option<Vec<crate::tasks::StoredAttachment>>,
) -> bool {
    match (a, b) {
        (Some(x), Some(y)) => x@.len() == y@.len() && forall|i: int|
            0 <= i < x@.len() ==> same_attachment(#[trigger] x@[i], y@[i]),
        (None, None) => true,
        _ => false,
    }
}

/// Whether the input of a tool, or its absence, is the same document on
/// both sides.
pub open spec fn same_tool_input(a: Option<serde_json::Value>, b: Option<serde_json::Value>) -> bool {
    match (a, b) {
        (Some(x), Some(y)) => json_model(x) == json_model(y),
        (None, None) => true,
        _ => false,
    }
}

/// Whether a message is the same on both sides.
pub open spec fn same_message(a: TaskMessage, b: crate::tasks::StoredTaskMessage) -> bool {
    &&& a.id == b.id
    &&& a.msg_type == b.msg_type
    &&& a.content == b.content
    &&& a.timestamp == b.timestamp
    &&& a.tool_name == b.tool_name
    &&& same_tool_input(a.tool_input, b.tool_input)
    &&& same_attachments(a.attachments, b.attachments)
}

/// A message of the history as the UI sees it.
pub fn task_message(stored: &crate::tasks::StoredTaskMessage) -> (r: TaskMessage)
    ensures
        same_message(r, *stored),
{
    TaskMessage {
        id: stored.id.clone(),
        msg_type: stored.msg_type.clone(),
        content: stored.content.clone(),
        timestamp: stored.timestamp.clone(),
        tool_name: stored.tool_name.clone(),
        tool_input: match &stored.tool_input {
            Some(input) => Some(value_clone(input)),
            None => None,
        },
        attachments: match &stored.attachments {
            Some(attachments) => Some(task_attachments(attachments)),
            None => None,
        },
    }
}

/// The messages of a task as the UI sees them, in order.
pub fn task_messages(stored: &Vec<crate::tasks::StoredTaskMessage>) -> (out: Vec<TaskMessage>)
    ensures
        out@.len() == stored@.len(),
        forall|i: int| 0 <= i < out@.len() ==> same_message(#[trigger] out@[i], stored@[i]),
{
    let mut out: Vec<TaskMessage> = Vec::new();
    let mut i: usize = 0;
    while i < stored.len()
        invariant
            i <= stored.len(),
            out@.len() == i,
            forall|k: int| 0 <= k < i ==> same_message(#[trigger] out@[k], stored@[k]),
        decreases stored.len() - i,
    {
        out.push(task_message(&stored[i]));
        i = i + 1;
    }
    out
}

/// Whether a task is the same on both sides: with all that the store keeps
/// of it, without a result and without a time of change.
pub open spec fn same_task(a: Task, b: crate::tasks::StoredTask) -> bool {
    &&& a.id == b.id
    &&& a.prompt == b.prompt
    &&& a.status == b.status
    &&& a.messages@.len() == b.messages@.len()
    &&& forall|i: int|
        0 <= i < a.messages@.len() ==> same_message(#[trigger] a.messages@[i], b.messages@[i])
    &&& a.result is None
    &&& a.session_id == b.session_id
    &&& a.summary == b.summary
    &&& a.created_at == b.created_at
    &&& a.updated_at is None
    &&& a.completed_at == b.completed_at
    &&& a.started_at == b.started_at
}

/// A task of the history as the UI sees it.
pub fn task_from_stored(stored: &crate::tasks::StoredTask) -> (r: Task)
    ensures
        same_task(r, *stored),
{
    Task {
        id: stored.id.clone(),
        prompt: stored.prompt.clone(),
        status: stored.status.clone(),
        messages: task_messages(&stored.messages),
        result: None,
        session_id: stored.session_id.clone(),
        summary: stored.summary.clone(),
        created_at: stored.created_at.clone(),
        updated_at: None,
        completed_at: stored.completed_at.clone(),
        started_at: stored.started_at.clone(),
    }
}

/// The tasks of the history as the UI sees them, in order.
pub fn tasks_from_stored(stored: &Vec<crate::tasks::StoredTask>) -> (out: Vec<Task>)
    ensures
        out@.len() == stored@.len(),
        forall|i: int| 0 <= i < out@.len() ==> same_task(#[trigger] out@[i], stored@[i]),
{
    let mut out: Vec<Task> = Vec::new();
    let mut i: usize = 0;
    while i < stored.len()
        invariant
            i <= stored.len(),
            out@.len() == i,
            forall|k: int| 0 <= k < i ==> same_task(#[trigger] out@[k], stored@[k]),
        decreases stored.len() - i,
    {
        out.push(task_from_stored(&stored[i]));
        i = i + 1;
    }
    out
}

/// A connected provider as the UI sees it, with its credentials as a
/// document where they could be printed as one.
pub fn connected_provider_response(
    stored: &crate::providers::ConnectedProvider,
    config: Option<serde_json::Value>,
) -> (r: ConnectedProviderResponse)
    ensures
        r.id == stored.provider_id,
        r.selected_model == stored.selected_model_id,
        r.config == config,
{
    ConnectedProviderResponse {
        id: stored.provider_id.clone(),
        selected_model: stored.selected_model_id.clone(),
        config,
    }
}

/// The provider that the UI has connected, as the store keeps it: it is
/// connected as of `now`, authenticated by a key that the store does not
/// hold, and its models are not known.
pub fn connected_provider(input: ConnectedProviderInput, now: String) -> (r:
    crate::providers::ConnectedProvider)
    ensures
        r.provider_id == input.id,
        r.connection_status@ == "connected"@,
        r.selected_model_id == input.selected_model,
        r.credentials.credentials_type@ == "api_key"@,
        r.credentials.key_prefix is None,
        r.credentials.server_url is None,
        r.credentials.api_key is None,
        r.credentials.extra@.len() == 0,
        r.credentials.well_formed(),
        r.last_connected_at == now,
        r.available_models is None,
{
    crate::providers::ConnectedProvider {
        provider_id: input.id,
        connection_status: String::from_str("connected"),
        selected_model_id: input.selected_model,
        credentials: crate::providers::ProviderCredentials::of_type(String::from_str("api_key")),
        last_connected_at: now,
        available_models: None,
    }
}

} // verus!
