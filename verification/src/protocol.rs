//! The wire shape of the commands sent to the worker and of the events it
//! sends back: one JSON object per line.

use vstd::prelude::*;
use vstd::string::StringExecFns;
use crate::error::DecodeError;
use crate::error::SidecarError;
use crate::json::JsonValue;
use crate::json::json_model;
use crate::json::json_parse;
use crate::json::json_text;
use crate::json::lemma_ranked_distinct;
use crate::json::lemma_ranked_extend;
use crate::json::lookup;
use crate::json::members_model;
use crate::json::object_from_members;
use crate::json::optional_text;
use crate::json::parse_value;
use crate::json::push_member;
use crate::json::push_optional_text;
use crate::json::push_text;
use crate::json::value_as_string;
use crate::json::value_is_null;
use crate::json::value_member;
use crate::json::value_to_text;

verus! {

/// The structured credentials of the one provider that has three fields
/// instead of a single secret.
#[derive(Debug)]
pub struct BedrockCredentials {
    pub access_key_id: String,
    pub secret_access_key: String,
    pub region: String,
}

/// The mathematical model of the structured credentials.
pub ghost struct CredentialsModel {
    pub access_key_id: Seq<char>,
    pub secret_access_key: Seq<char>,
    pub region: Seq<char>,
}

impl View for BedrockCredentials {
    type V = CredentialsModel;

    open spec fn view(&self) -> CredentialsModel {
        CredentialsModel {
            access_key_id: self.access_key_id@,
            secret_access_key: self.secret_access_key@,
            region: self.region@,
        }
    }
}

/// The member `key` of an object, where it is a text.
pub open spec fn text_member(doc: JsonValue, key: Seq<char>) -> Option<Seq<char>> {
    match doc.member(key) {
        Some(JsonValue::String(text)) => Some(text),
        _ => None,
    }
}

/// The structured credentials that a document stands for: an object whose
/// three members of that name are texts.
pub open spec fn credentials_of_json(doc: JsonValue) -> Option<CredentialsModel> {
    match (
        text_member(doc, "accessKeyId"@),
        text_member(doc, "secretAccessKey"@),
        text_member(doc, "region"@),
    ) {
        (Some(access_key_id), Some(secret_access_key), Some(region)) => Some(
            CredentialsModel { access_key_id, secret_access_key, region },
        ),
        _ => None,
    }
}

/// The structured credentials that a JSON text stands for.
pub open spec fn credentials_of_text(text: Seq<char>) -> Option<CredentialsModel> {
    match json_parse(text) {
        Ok(doc) => credentials_of_json(doc),
        Err(_) => None,
    }
}

/// Why the member `key` of a document is no text: it is missing, or it is
/// something else than a text.
pub open spec fn field_fault(doc: JsonValue, key: Seq<char>) -> Seq<char> {
    match doc.member(key) {
        None => "missing field `"@ + key + "`"@,
        Some(_) => "invalid type for field `"@ + key + "`, expected a string"@,
    }
}

/// Why a document does not stand for structured credentials: the fault of
/// the first of the three members that is no text.
pub open spec fn credentials_fault_in(doc: JsonValue) -> Seq<char> {
    if text_member(doc, "accessKeyId"@) is None {
        field_fault(doc, "accessKeyId"@)
    } else if text_member(doc, "secretAccessKey"@) is None {
        field_fault(doc, "secretAccessKey"@)
    } else {
        field_fault(doc, "region"@)
    }
}

/// What reading structured credentials from a JSON text gives: the
/// credentials, or the reason why there are none, which is the parser's
/// where the text is no JSON.
pub open spec fn credentials_reading(text: Seq<char>) -> Result<CredentialsModel, Seq<char>> {
    match json_parse(text) {
        Ok(doc) => match credentials_of_json(doc) {
            Some(model) => Ok(model),
            None => Err(credentials_fault_in(doc)),
        },
        Err(reason) => Err(reason),
    }
}

/// Says why the member `key` of a parsed document is no text.
pub(crate) fn describe_field_fault(doc: &serde_json::Value, key: &str) -> (r: String)
    ensures
        r@ == field_fault(json_model(*doc), key@),
{
    match value_member(doc, key) {
        None => String::from_str("missing field `").concat(key).concat("`"),
        Some(_) => String::from_str("invalid type for field `").concat(key).concat(
            "`, expected a string",
        ),
    }
}

/// Reads the member `key` of a parsed object, where it is a text.
pub(crate) fn read_text_member(doc: &serde_json::Value, key: &str) -> (r: Option<String>)
    ensures
        match r {
            Some(text) => text_member(json_model(*doc), key@) == Some(text@),
            None => text_member(json_model(*doc), key@) is None,
        },
{
    match value_member(doc, key) {
        Some(member) => value_as_string(&member),
        None => None,
    }
}

impl BedrockCredentials {
    /// Reads structured credentials from a parsed document.
    pub fn from_value(doc: &serde_json::Value) -> (r: Option<BedrockCredentials>)
        ensures
            match credentials_of_json(json_model(*doc)) {
                Some(model) => r matches Some(credentials) && credentials@ == model,
                None => r is None,
            },
    {
        let access_key_id = read_text_member(doc, "accessKeyId");
        let secret_access_key = read_text_member(doc, "secretAccessKey");
        let region = read_text_member(doc, "region");
        match (access_key_id, secret_access_key, region) {
            (Some(access_key_id), Some(secret_access_key), Some(region)) => Some(
                BedrockCredentials { access_key_id, secret_access_key, region },
            ),
            _ => None,
        }
    }

    /// Reads structured credentials from JSON text; `None` for a text that
    /// is not JSON or lacks one of the three texts.
    pub fn from_json_text(text: &str) -> (r: Option<BedrockCredentials>)
        ensures
            match credentials_of_text(text@) {
                Some(model) => r matches Some(credentials) && credentials@ == model,
                None => r is None,
            },
    {
        match parse_value(text) {
            Ok(doc) => BedrockCredentials::from_value(&doc),
            Err(_) => None,
        }
    }

    /// Reads structured credentials from JSON text, and says why where
    /// there are none.
    pub fn read_json_text(text: &str) -> (r: Result<BedrockCredentials, String>)
        ensures
            match credentials_reading(text@) {
                Ok(model) => r matches Ok(credentials) && credentials@ == model,
                Err(reason) => r matches Err(given) && given@ == reason,
            },
    {
        let doc = match parse_value(text) {
            Ok(doc) => doc,
            Err(reason) => {
                return Err(reason);
            },
        };
        match BedrockCredentials::from_value(&doc) {
            Some(credentials) => Ok(credentials),
            None => {
                if read_text_member(&doc, "accessKeyId").is_none() {
                    Err(describe_field_fault(&doc, "accessKeyId"))
                } else if read_text_member(&doc, "secretAccessKey").is_none() {
                    Err(describe_field_fault(&doc, "secretAccessKey"))
                } else {
                    Err(describe_field_fault(&doc, "region"))
                }
            },
        }
    }

    /// The object that stands for these credentials on the wire.
    pub open spec fn json(self) -> JsonValue {
        JsonValue::Object(
            seq![
                ("accessKeyId"@, JsonValue::String(self.access_key_id@)),
                ("secretAccessKey"@, JsonValue::String(self.secret_access_key@)),
                ("region"@, JsonValue::String(self.region@)),
            ],
        )
    }

    /// Builds the object that stands for these credentials on the wire.
    pub fn to_value(&self) -> (r: serde_json::Value)
        ensures
            json_model(r) == self.json(),
    {
        let mut members: Vec<(String, serde_json::Value)> = Vec::new();
        assert(members_model(members@) =~= Seq::empty());
        push_text(&mut members, "accessKeyId", self.access_key_id.as_str());
        push_text(&mut members, "secretAccessKey", self.secret_access_key.as_str());
        push_text(&mut members, "region", self.region.as_str());
        proof {
            reveal_strlit("accessKeyId");
            reveal_strlit("secretAccessKey");
            reveal_strlit("region");
            assert(members_model(members@) =~= self.json()->Object_0);
            assert("accessKeyId"@.len() == 11);
            assert("secretAccessKey"@.len() == 15);
            assert("region"@.len() == 6);
        }
        object_from_members(members)
    }
}

/// The secrets handed to the worker when a task starts: one optional secret
/// for each known provider, and structured credentials for one of them.
#[derive(Debug)]
pub struct ApiKeys {
    pub anthropic: Option<String>,
    pub openai: Option<String>,
    pub google: Option<String>,
    pub xai: Option<String>,
    pub deepseek: Option<String>,
    pub openrouter: Option<String>,
    pub litellm: Option<String>,
    pub ollama: Option<String>,
    pub azure_foundry: Option<String>,
    pub bedrock: Option<BedrockCredentials>,
}

impl Default for ApiKeys {
    /// A bundle without any secret.
    fn default() -> (r: Self)
        ensures
            r.json() == JsonValue::Object(Seq::empty()),
            r.anthropic is None,
            r.openai is None,
            r.google is None,
            r.xai is None,
            r.deepseek is None,
            r.openrouter is None,
            r.litellm is None,
            r.ollama is None,
            r.azure_foundry is None,
            r.bedrock is None,
    {
        ApiKeys::new()
    }
}

/// The place of a provider's member in the bundle's object.
pub open spec fn api_key_rank(key: Seq<char>) -> int {
    if key == "anthropic"@ {
        0
    } else if key == "openai"@ {
        1
    } else if key == "google"@ {
        2
    } else if key == "xai"@ {
        3
    } else if key == "deepseek"@ {
        4
    } else if key == "openrouter"@ {
        5
    } else if key == "litellm"@ {
        6
    } else if key == "ollama"@ {
        7
    } else if key == "azureFoundry"@ {
        8
    } else if key == "bedrock"@ {
        9
    } else {
        10
    }
}

/// Each provider's member has a place of its own.
pub proof fn lemma_api_key_ranks()
    ensures
        api_key_rank("anthropic"@) == 0,
        api_key_rank("openai"@) == 1,
        api_key_rank("google"@) == 2,
        api_key_rank("xai"@) == 3,
        api_key_rank("deepseek"@) == 4,
        api_key_rank("openrouter"@) == 5,
        api_key_rank("litellm"@) == 6,
        api_key_rank("ollama"@) == 7,
        api_key_rank("azureFoundry"@) == 8,
        api_key_rank("bedrock"@) == 9,
{
    reveal_strlit("anthropic");
    reveal_strlit("openai");
    reveal_strlit("google");
    reveal_strlit("xai");
    reveal_strlit("deepseek");
    reveal_strlit("openrouter");
    reveal_strlit("litellm");
    reveal_strlit("ollama");
    reveal_strlit("azureFoundry");
    reveal_strlit("bedrock");
    assert("anthropic"@.len() == 9);
    assert("openai"@.len() == 6);
    assert("google"@.len() == 6);
    assert("xai"@.len() == 3);
    assert("deepseek"@.len() == 8);
    assert("openrouter"@.len() == 10);
    assert("litellm"@.len() == 7);
    assert("ollama"@.len() == 6);
    assert("azureFoundry"@.len() == 12);
    assert("bedrock"@.len() == 7);
    assert("openai"@[0] == 'o' && "openai"@[1] == 'p');
    assert("google"@[0] == 'g');
    assert("ollama"@[0] == 'o' && "ollama"@[1] == 'l');
    assert("litellm"@[0] == 'l');
    assert("bedrock"@[0] == 'b');
}

/// The member that the structured credentials contribute, where present.
pub open spec fn optional_bedrock(value: Option<BedrockCredentials>) -> Seq<(Seq<char>, JsonValue)> {
    match value {
        Some(b) => seq![("bedrock"@, b.json())],
        None => Seq::empty(),
    }
}

impl ApiKeys {
    /// A bundle without any secret.
    pub fn new() -> (r: Self)
        ensures
            r.json() == JsonValue::Object(Seq::empty()),
            r.anthropic is None,
            r.openai is None,
            r.google is None,
            r.xai is None,
            r.deepseek is None,
            r.openrouter is None,
            r.litellm is None,
            r.ollama is None,
            r.azure_foundry is None,
            r.bedrock is None,
    {
        let r = ApiKeys {
            anthropic: None,
            openai: None,
            google: None,
            xai: None,
            deepseek: None,
            openrouter: None,
            litellm: None,
            ollama: None,
            azure_foundry: None,
            bedrock: None,
        };
        assert(r.members() =~= Seq::empty());
        r
    }

    /// The members of the bundle's object: a provider without a secret has
    /// none.
    pub open spec fn members(self) -> Seq<(Seq<char>, JsonValue)> {
        optional_text("anthropic"@, self.anthropic)
                + optional_text("openai"@, self.openai)
                + optional_text("google"@, self.google)
                + optional_text("xai"@, self.xai)
                + optional_text("deepseek"@, self.deepseek)
                + optional_text("openrouter"@, self.openrouter)
                + optional_text("litellm"@, self.litellm)
                + optional_text("ollama"@, self.ollama)
                + optional_text("azureFoundry"@, self.azure_foundry)
                + optional_bedrock(self.bedrock)
    }

    /// The object that stands for the bundle on the wire.
    pub open spec fn json(self) -> JsonValue {
        JsonValue::Object(self.members())
    }

    /// Builds the object that stands for the bundle on the wire.
    pub fn to_value(&self) -> (r: serde_json::Value)
        ensures
            json_model(r) == self.json(),
    {
        let ghost rank = |key: Seq<char>| api_key_rank(key);
        let mut members: Vec<(String, serde_json::Value)> = Vec::new();
        proof {
            lemma_api_key_ranks();
            assert(members_model(members@) =~= Seq::empty());
        }
        let ghost before = members_model(members@);
        push_optional_text(&mut members, "anthropic", &self.anthropic);
        proof {
            lemma_ranked_extend(before, optional_text("anthropic"@, self.anthropic), rank, 0);
        }
        let ghost before = members_model(members@);
        push_optional_text(&mut members, "openai", &self.openai);
        proof {
            lemma_ranked_extend(before, optional_text("openai"@, self.openai), rank, 1);
        }
        let ghost before = members_model(members@);
        push_optional_text(&mut members, "google", &self.google);
        proof {
            lemma_ranked_extend(before, optional_text("google"@, self.google), rank, 2);
        }
        let ghost before = members_model(members@);
        push_optional_text(&mut members, "xai", &self.xai);
        proof {
            lemma_ranked_extend(before, optional_text("xai"@, self.xai), rank, 3);
        }
        let ghost before = members_model(members@);
        push_optional_text(&mut members, "deepseek", &self.deepseek);
        proof {
            lemma_ranked_extend(before, optional_text("deepseek"@, self.deepseek), rank, 4);
        }
        let ghost before = members_model(members@);
        push_optional_text(&mut members, "openrouter", &self.openrouter);
        proof {
            lemma_ranked_extend(before, optional_text("openrouter"@, self.openrouter), rank, 5);
        }
        let ghost before = members_model(members@);
        push_optional_text(&mut members, "litellm", &self.litellm);
        proof {
            lemma_ranked_extend(before, optional_text("litellm"@, self.litellm), rank, 6);
        }
        let ghost before = members_model(members@);
        push_optional_text(&mut members, "ollama", &self.ollama);
        proof {
            lemma_ranked_extend(before, optional_text("ollama"@, self.ollama), rank, 7);
        }
        let ghost before = members_model(members@);
        push_optional_text(&mut members, "azureFoundry", &self.azure_foundry);
        proof {
            lemma_ranked_extend(before, optional_text("azureFoundry"@, self.azure_foundry), rank, 8);
        }
        let ghost before = members_model(members@);
        match &self.bedrock {
            Some(b) => {
                push_member(&mut members, "bedrock", b.to_value());
                assert(members_model(members@) =~= before + optional_bedrock(self.bedrock));
            },
            None => {
                assert(members_model(members@) =~= before + optional_bedrock(self.bedrock));
            },
        }
        proof {
            lemma_ranked_extend(before, optional_bedrock(self.bedrock), rank, 9);
            lemma_ranked_distinct(members_model(members@), rank, 10);
        }
        object_from_members(members)
    }
}

/// What a `StartTask` command carries.
#[derive(Debug)]
pub struct StartTaskPayload {
    pub task_id: String,
    pub prompt: String,
    pub session_id: Option<String>,
    pub api_keys: Option<ApiKeys>,
    pub working_directory: Option<String>,
    pub model_id: Option<String>,
}

/// The place of a member in the object of a `StartTask` payload.
pub open spec fn start_task_rank(key: Seq<char>) -> int {
    if key == "taskId"@ {
        0
    } else if key == "prompt"@ {
        1
    } else if key == "sessionId"@ {
        2
    } else if key == "apiKeys"@ {
        3
    } else if key == "workingDirectory"@ {
        4
    } else if key == "modelId"@ {
        5
    } else {
        6
    }
}

/// Each member of a `StartTask` payload has a place of its own.
pub proof fn lemma_start_task_ranks()
    ensures
        start_task_rank("taskId"@) == 0,
        start_task_rank("prompt"@) == 1,
        start_task_rank("sessionId"@) == 2,
        start_task_rank("apiKeys"@) == 3,
        start_task_rank("workingDirectory"@) == 4,
        start_task_rank("modelId"@) == 5,
{
    reveal_strlit("taskId");
    reveal_strlit("prompt");
    reveal_strlit("sessionId");
    reveal_strlit("apiKeys");
    reveal_strlit("workingDirectory");
    reveal_strlit("modelId");
    assert("taskId"@.len() == 6 && "taskId"@[0] == 't');
    assert("prompt"@.len() == 6 && "prompt"@[0] == 'p');
    assert("sessionId"@.len() == 9);
    assert("apiKeys"@.len() == 7 && "apiKeys"@[0] == 'a');
    assert("workingDirectory"@.len() == 16);
    assert("modelId"@.len() == 7 && "modelId"@[0] == 'm');
}

/// The member that the bundle of secrets contributes, where present.
pub open spec fn optional_api_keys(value: Option<ApiKeys>) -> Seq<(Seq<char>, JsonValue)> {
    match value {
        Some(keys) => seq![("apiKeys"@, keys.json())],
        None => Seq::empty(),
    }
}

impl StartTaskPayload {
    /// The members of the payload's object: the two required texts, then
    /// each optional member that is present.
    pub open spec fn members(self) -> Seq<(Seq<char>, JsonValue)> {
        seq![
            ("taskId"@, JsonValue::String(self.task_id@)),
            ("prompt"@, JsonValue::String(self.prompt@)),
        ] + optional_text("sessionId"@, self.session_id) + optional_api_keys(self.api_keys)
            + optional_text("workingDirectory"@, self.working_directory) + optional_text(
            "modelId"@,
            self.model_id,
        )
    }

    /// The object that stands for the payload on the wire.
    pub open spec fn json(self) -> JsonValue {
        JsonValue::Object(self.members())
    }

    /// Builds the object that stands for the payload on the wire.
    pub fn to_value(&self) -> (r: serde_json::Value)
        ensures
            json_model(r) == self.json(),
    {
        let ghost rank = |key: Seq<char>| start_task_rank(key);
        let mut members: Vec<(String, serde_json::Value)> = Vec::new();
        proof {
            lemma_start_task_ranks();
            assert(members_model(members@) =~= Seq::empty());
        }
        let ghost before = members_model(members@);
        push_text(&mut members, "taskId", self.task_id.as_str());
        proof {
            let extra = seq![("taskId"@, JsonValue::String(self.task_id@))];
            assert(members_model(members@) =~= before + extra);
            lemma_ranked_extend(before, extra, rank, 0);
        }
        let ghost before = members_model(members@);
        push_text(&mut members, "prompt", self.prompt.as_str());
        proof {
            let extra = seq![("prompt"@, JsonValue::String(self.prompt@))];
            assert(members_model(members@) =~= before + extra);
            lemma_ranked_extend(before, extra, rank, 1);
            assert(members_model(members@) =~= seq![
                ("taskId"@, JsonValue::String(self.task_id@)),
                ("prompt"@, JsonValue::String(self.prompt@)),
            ]);
        }
        let ghost before = members_model(members@);
        push_optional_text(&mut members, "sessionId", &self.session_id);
        proof {
            lemma_ranked_extend(before, optional_text("sessionId"@, self.session_id), rank, 2);
        }
        let ghost before = members_model(members@);
        match &self.api_keys {
            Some(keys) => {
                push_member(&mut members, "apiKeys", keys.to_value());
                assert(members_model(members@) =~= before + optional_api_keys(self.api_keys));
            },
            None => {
                assert(members_model(members@) =~= before + optional_api_keys(self.api_keys));
            },
        }
        proof {
            lemma_ranked_extend(before, optional_api_keys(self.api_keys), rank, 3);
        }
        let ghost before = members_model(members@);
        push_optional_text(&mut members, "workingDirectory", &self.working_directory);
        proof {
            lemma_ranked_extend(
                before,
                optional_text("workingDirectory"@, self.working_directory),
                rank,
                4,
            );
        }
        let ghost before = members_model(members@);
        push_optional_text(&mut members, "modelId", &self.model_id);
        proof {
            lemma_ranked_extend(before, optional_text("modelId"@, self.model_id), rank, 5);
            lemma_ranked_distinct(members_model(members@), rank, 6);
        }
        object_from_members(members)
    }
}

/// What a `SendResponse` command carries.
#[derive(Debug)]
pub struct SendResponsePayload {
    pub response: String,
}

impl SendResponsePayload {
    /// The object that stands for the payload on the wire.
    pub open spec fn json(self) -> JsonValue {
        JsonValue::Object(seq![("response"@, JsonValue::String(self.response@))])
    }

    /// Builds the object that stands for the payload on the wire.
    pub fn to_value(&self) -> (r: serde_json::Value)
        ensures
            json_model(r) == self.json(),
    {
        let mut members: Vec<(String, serde_json::Value)> = Vec::new();
        assert(members_model(members@) =~= Seq::empty());
        push_text(&mut members, "response", self.response.as_str());
        assert(members_model(members@) =~= self.json()->Object_0);
        object_from_members(members)
    }
}

/// A command sent to the worker.
#[derive(Debug)]
#[allow(inconsistent_fields)]
pub enum SidecarCommand {
    StartTask { task_id: String, payload: StartTaskPayload },
    CancelTask { task_id: String },
    InterruptTask { task_id: String },
    SendResponse { task_id: String, payload: SendResponsePayload },
    Ping,
    CheckCli,
}

/// The member `taskId` of a record, where the record names a task.
pub open spec fn optional_task_id(task_id: Option<Seq<char>>) -> Seq<(Seq<char>, JsonValue)> {
    match task_id {
        Some(id) => seq![("taskId"@, JsonValue::String(id))],
        None => Seq::empty(),
    }
}

/// The member `payload` of a record, where the record has one.
pub open spec fn optional_payload(payload: Option<JsonValue>) -> Seq<(Seq<char>, JsonValue)> {
    match payload {
        Some(doc) => seq![("payload"@, doc)],
        None => Seq::empty(),
    }
}

/// The place of a member in a record.
pub open spec fn record_rank(key: Seq<char>) -> int {
    if key == "type"@ {
        0
    } else if key == "taskId"@ {
        1
    } else if key == "payload"@ {
        2
    } else {
        3
    }
}

/// Each member of a record has a place of its own.
pub proof fn lemma_record_ranks()
    ensures
        record_rank("type"@) == 0,
        record_rank("taskId"@) == 1,
        record_rank("payload"@) == 2,
{
    reveal_strlit("type");
    reveal_strlit("taskId");
    reveal_strlit("payload");
    assert("type"@.len() == 4);
    assert("taskId"@.len() == 6);
    assert("payload"@.len() == 7);
}

impl SidecarCommand {
    /// The tag that tells the variants apart on the wire.
    pub open spec fn tag(self) -> Seq<char> {
        match self {
            SidecarCommand::StartTask { .. } => "start_task"@,
            SidecarCommand::CancelTask { .. } => "cancel_task"@,
            SidecarCommand::InterruptTask { .. } => "interrupt_task"@,
            SidecarCommand::SendResponse { .. } => "send_response"@,
            SidecarCommand::Ping => "ping"@,
            SidecarCommand::CheckCli => "check_cli"@,
        }
    }

    /// The task that the command names, if it names one.
    pub open spec fn task(self) -> Option<Seq<char>> {
        match self {
            SidecarCommand::StartTask { task_id, .. } => Some(task_id@),
            SidecarCommand::CancelTask { task_id } => Some(task_id@),
            SidecarCommand::InterruptTask { task_id } => Some(task_id@),
            SidecarCommand::SendResponse { task_id, .. } => Some(task_id@),
            SidecarCommand::Ping => None,
            SidecarCommand::CheckCli => None,
        }
    }

    /// The payload that the command carries, if it carries one.
    pub open spec fn payload(self) -> Option<JsonValue> {
        match self {
            SidecarCommand::StartTask { payload, .. } => Some(payload.json()),
            SidecarCommand::SendResponse { payload, .. } => Some(payload.json()),
            _ => None,
        }
    }

    /// The record that stands for the command on the wire: the tag, then
    /// the task and the payload where the variant has them.
    pub open spec fn json(self) -> JsonValue {
        JsonValue::Object(
            seq![("type"@, JsonValue::String(self.tag()))] + optional_task_id(self.task())
                + optional_payload(self.payload()),
        )
    }

    /// The tag that tells the variants apart on the wire.
    pub fn command_type(&self) -> (r: &'static str)
        ensures
            r@ == self.tag(),
    {
        match self {
            SidecarCommand::StartTask { .. } => "start_task",
            SidecarCommand::CancelTask { .. } => "cancel_task",
            SidecarCommand::InterruptTask { .. } => "interrupt_task",
            SidecarCommand::SendResponse { .. } => "send_response",
            SidecarCommand::Ping => "ping",
            SidecarCommand::CheckCli => "check_cli",
        }
    }

    /// Builds the record that stands for the command on the wire.
    pub fn to_value(&self) -> (r: serde_json::Value)
        ensures
            json_model(r) == self.json(),
    {
        let ghost rank = |key: Seq<char>| record_rank(key);
        let mut members: Vec<(String, serde_json::Value)> = Vec::new();
        proof {
            lemma_record_ranks();
            assert(members_model(members@) =~= Seq::empty());
        }
        let ghost before = members_model(members@);
        push_text(&mut members, "type", self.command_type());
        proof {
            let extra = seq![("type"@, JsonValue::String(self.tag()))];
            assert(members_model(members@) =~= before + extra);
            assert(members_model(members@) =~= extra);
            lemma_ranked_extend(before, extra, rank, 0);
        }
        let ghost before = members_model(members@);
        match self {
            SidecarCommand::StartTask { task_id, .. } => {
                push_text(&mut members, "taskId", task_id.as_str());
            },
            SidecarCommand::CancelTask { task_id } => {
                push_text(&mut members, "taskId", task_id.as_str());
            },
            SidecarCommand::InterruptTask { task_id } => {
                push_text(&mut members, "taskId", task_id.as_str());
            },
            SidecarCommand::SendResponse { task_id, .. } => {
                push_text(&mut members, "taskId", task_id.as_str());
            },
            SidecarCommand::Ping => {},
            SidecarCommand::CheckCli => {},
        }
        proof {
            assert(members_model(members@) =~= before + optional_task_id(self.task()));
            lemma_ranked_extend(before, optional_task_id(self.task()), rank, 1);
        }
        let ghost before = members_model(members@);
        match self {
            SidecarCommand::StartTask { payload, .. } => {
                push_member(&mut members, "payload", payload.to_value());
            },
            SidecarCommand::SendResponse { payload, .. } => {
                push_member(&mut members, "payload", payload.to_value());
            },
            _ => {},
        }
        proof {
            assert(members_model(members@) =~= before + optional_payload(self.payload()));
            lemma_ranked_extend(before, optional_payload(self.payload()), rank, 2);
            lemma_ranked_distinct(members_model(members@), rank, 3);
        }
        object_from_members(members)
    }
}

/// Whether a text is one record on the wire for a document: the compact
/// text of the document, free of line breaks, and one line break after it.
pub open spec fn is_record_of(line: Seq<char>, doc: JsonValue) -> bool {
    &&& line == json_text(doc).push('\n')
    &&& !json_text(doc).contains('\n')
}

/// Ends the printed text of a record with a line break, and hands a
/// printer's failure on as an error.
pub fn frame_record(printed: Result<String, String>) -> (r: Result<String, SidecarError>)
    ensures
        match printed {
            Ok(text) => r matches Ok(line) && line@ == text@.push('\n'),
            Err(reason) => r matches Err(SidecarError::Serialize(why)) && why@ == reason@,
        },
{
    match printed {
        Ok(text) => {
            let line = text.concat("\n");
            proof {
                reveal_strlit("\n");
                assert("\n"@ =~= seq!['\n']);
                assert(line@ =~= text@.push('\n'));
            }
            Ok(line)
        },
        Err(reason) => Err(SidecarError::Serialize(reason)),
    }
}

/// Prints a command as one record on the wire. It succeeds on every
/// command.
pub fn encode(cmd: &SidecarCommand) -> (r: Result<String, SidecarError>)
    ensures
        r matches Ok(line) && is_record_of(line@, cmd.json()),
{
    let value = cmd.to_value();
    frame_record(value_to_text(&value))
}

/// An event received from the worker: one record of its output.
#[derive(Debug)]
pub struct SidecarEvent {
    pub event_type: String,
    pub task_id: Option<String>,
    pub payload: Option<serde_json::Value>,
}

/// The mathematical model of an event.
pub ghost struct EventModel {
    pub event_type: Seq<char>,
    pub task_id: Option<Seq<char>>,
    pub payload: Option<JsonValue>,
}

impl View for SidecarEvent {
    type V = EventModel;

    open spec fn view(&self) -> EventModel {
        EventModel {
            event_type: self.event_type@,
            task_id: match self.task_id {
                Some(id) => Some(id@),
                None => None,
            },
            payload: match self.payload {
                Some(doc) => Some(json_model(doc)),
                None => None,
            },
        }
    }
}

/// The payload of a record: its member `payload`, unless that is absent or
/// null.
pub open spec fn payload_of(doc: JsonValue) -> Option<JsonValue> {
    match doc.member("payload"@) {
        Some(JsonValue::Null) => None,
        other => other,
    }
}

/// The event that a document stands for. The document must be an object
/// whose member `type` is a text; its member `taskId` may be absent, null or
/// a text; every other member but `payload` is ignored.
pub open spec fn event_of_json(doc: JsonValue) -> Result<EventModel, DecodeError> {
    match doc.member("type"@) {
        Some(JsonValue::String(event_type)) => match doc.member("taskId"@) {
            None => Ok(EventModel { event_type, task_id: None, payload: payload_of(doc) }),
            Some(JsonValue::Null) => Ok(
                EventModel { event_type, task_id: None, payload: payload_of(doc) },
            ),
            Some(JsonValue::String(id)) => Ok(
                EventModel { event_type, task_id: Some(id), payload: payload_of(doc) },
            ),
            Some(_) => Err(DecodeError::InvalidTaskId),
        },
        _ => Err(DecodeError::MissingType),
    }
}

/// The event that one line of worker output stands for.
pub open spec fn decode_spec(line: Seq<char>) -> Result<EventModel, DecodeError> {
    match json_parse(line) {
        Ok(doc) => event_of_json(doc),
        Err(_) => Err(DecodeError::InvalidJson),
    }
}

/// Whether a result of decoding agrees with what the model asks for.
pub open spec fn decoded_as(
    r: Result<SidecarEvent, DecodeError>,
    expected: Result<EventModel, DecodeError>,
) -> bool {
    match expected {
        Ok(model) => r matches Ok(event) && event@ == model,
        Err(e) => r matches Err(got) && got == e,
    }
}

/// Reads an event from a parsed document.
pub fn event_from_value(doc: &serde_json::Value) -> (r: Result<SidecarEvent, DecodeError>)
    ensures
        decoded_as(r, event_of_json(json_model(*doc))),
{
    let event_type = match value_member(doc, "type") {
        Some(member) => match value_as_string(&member) {
            Some(text) => text,
            None => {
                return Err(DecodeError::MissingType);
            },
        },
        None => {
            return Err(DecodeError::MissingType);
        },
    };
    let task_id = match value_member(doc, "taskId") {
        Some(member) => {
            if value_is_null(&member) {
                None
            } else {
                match value_as_string(&member) {
                    Some(id) => Some(id),
                    None => {
                        return Err(DecodeError::InvalidTaskId);
                    },
                }
            }
        },
        None => None,
    };
    let payload = match value_member(doc, "payload") {
        Some(member) => {
            if value_is_null(&member) {
                None
            } else {
                Some(member)
            }
        },
        None => None,
    };
    Ok(SidecarEvent { event_type, task_id, payload })
}

/// Reads an event from one line of worker output. A line that is not a JSON
/// document, or whose document lacks a textual `type`, is an error and
/// nothing else: the caller drops the line.
pub fn decode(line: &str) -> (r: Result<SidecarEvent, DecodeError>)
    ensures
        decoded_as(r, decode_spec(line@)),
{
    match parse_value(line) {
        Ok(doc) => event_from_value(&doc),
        Err(_) => Err(DecodeError::InvalidJson),
    }
}

/// The members of a record are found under their names.
pub proof fn lemma_record_members(
    tag: Seq<char>,
    task_id: Option<Seq<char>>,
    payload: Option<JsonValue>,
)
    ensures
        ({
            let members = seq![("type"@, JsonValue::String(tag))] + optional_task_id(task_id)
                + optional_payload(payload);
            &&& lookup(members, "type"@) == Some(JsonValue::String(tag))
            &&& lookup(members, "taskId"@) == match task_id {
                Some(id) => Some(JsonValue::String(id)),
                None => None,
            }
            &&& lookup(members, "payload"@) == payload
        }),
{
    lemma_record_ranks();
    reveal_with_fuel(lookup, 4);
    let members = seq![("type"@, JsonValue::String(tag))] + optional_task_id(task_id)
        + optional_payload(payload);
    let rest = members.subrange(1, members.len() as int);
    assert(rest =~= optional_task_id(task_id) + optional_payload(payload));
    assert(members[0].0 == "type"@);
    match task_id {
        Some(id) => {
            assert(rest[0] == ("taskId"@, JsonValue::String(id)));
            let last = rest.subrange(1, rest.len() as int);
            assert(last =~= optional_payload(payload));
            match payload {
                Some(doc) => {
                    assert(last[0] == ("payload"@, doc));
                    assert(last.subrange(1, last.len() as int) =~= Seq::empty());
                },
                None => {},
            }
        },
        None => {
            assert(rest =~= optional_payload(payload));
            match payload {
                Some(doc) => {
                    assert(rest[0] == ("payload"@, doc));
                    assert(rest.subrange(1, rest.len() as int) =~= Seq::empty());
                },
                None => {},
            }
        },
    }
}

/// Round trip: the record of a command, read back the way events are read,
/// is an event with the command's tag, its task and its payload.
pub proof fn lemma_command_round_trip(cmd: SidecarCommand)
    ensures
        event_of_json(cmd.json()) == Ok::<EventModel, DecodeError>(
            EventModel { event_type: cmd.tag(), task_id: cmd.task(), payload: cmd.payload() },
        ),
{
    lemma_record_members(cmd.tag(), cmd.task(), cmd.payload());
}

/// Round trip through the text: wherever the JSON reader reads back the
/// document that the JSON printer wrote for a command, the text of the
/// command is read as an event with the command's tag, its task and its
/// payload.
pub proof fn lemma_command_round_trip_through_text(cmd: SidecarCommand)
    ensures
        json_parse(json_text(cmd.json())) == Ok::<JsonValue, Seq<char>>(cmd.json()) ==> decode_spec(
            json_text(cmd.json()),
        )
            == Ok::<EventModel, DecodeError>(
            EventModel { event_type: cmd.tag(), task_id: cmd.task(), payload: cmd.payload() },
        ),
{
    lemma_command_round_trip(cmd);
}

} // verus!
