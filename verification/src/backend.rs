//! The two inference backends: the request each one is sent and the answer
//! read from its reply.
//!
//! A backend fails when it is not configured, when no reply comes, when the
//! reply has no success status, or when its body is not JSON. A reply that
//! parses but lacks the expected field is no failure: a default text stands
//! in for the answer.

use vstd::prelude::*;
use vstd::string::StringExecFns;
use crate::config::{Config, ConfigView};
use crate::json::{
    document, item_views, lemma_array_view, lemma_object_view, member_views, parse, Json,
    JsonView,
};
use crate::outcome::{is_success, success, Outcome, OutcomeView};

verus! {

/// An inference backend.
#[derive(Clone, Copy, Debug, PartialEq, Eq, Structural)]
pub enum Backend {
    /// The self-hosted code model behind the tunnel.
    Code,
    /// The hosted general-purpose model.
    General,
}

/// Why a backend gave no answer.
#[derive(Clone, Copy, Debug, PartialEq, Eq, Structural)]
pub enum BackendError {
    /// The endpoint or the credentials of the backend are not configured.
    NotConfigured,
    /// No reply came: the connection failed or the call timed out.
    Unreachable,
    /// The backend replied with this status, which is no success.
    Rejected(u16),
    /// The body of the reply is not JSON.
    Unparseable,
}

/// The seconds after which a call of the code backend is given up.
pub const CODE_TIMEOUT_SECS: u64 = 120;

/// The seconds after which a call of the general backend is given up.
pub const GENERAL_TIMEOUT_SECS: u64 = 60;

/// The address of the hosted generative API, up to the key.
pub const GENERAL_ENDPOINT: &'static str =
    "https://generativelanguage.googleapis.com/v1beta/models/gemini-1.5-flash:generateContent?key=";

/// The path of the generating service below the tunnel's base URL.
pub const CODE_PATH: &'static str = "/api/generate";

/// The model that the code backend is asked for.
pub const CODE_MODEL: &'static str = "qwen2.5-coder:7b";

/// The sampling temperature that the general backend is asked for, as the
/// request writes it.
pub const TEMPERATURE: &'static str = "0.7";

/// The most tokens that the general backend may answer with, as the request
/// writes it.
pub const MAX_OUTPUT_TOKENS: &'static str = "2048";

/// The text that stands for the answer of the general backend where its
/// reply carries none.
pub const NO_ANSWER: &'static str = "No response generated";

/// A POST request to a backend: where it goes, and the task and context that
/// its prompt is made of.
#[derive(Clone, Debug, PartialEq, Eq)]
pub struct BackendCall {
    pub backend: Backend,
    pub url: String,
    pub task: String,
    pub context: String,
    pub timeout_secs: u64,
}

/// A backend call as plain text.
pub struct BackendCallView {
    pub backend: Backend,
    pub url: Seq<char>,
    pub task: Seq<char>,
    pub context: Seq<char>,
    pub timeout_secs: u64,
}

impl View for BackendCall {
    type V = BackendCallView;

    open spec fn view(&self) -> BackendCallView {
        BackendCallView {
            backend: self.backend,
            url: self.url@,
            task: self.task@,
            context: self.context@,
            timeout_secs: self.timeout_secs,
        }
    }
}

/// The prompt that a backend is sent for a task with its context.
pub open spec fn prompt_text(backend: Backend, task: Seq<char>, context: Seq<char>) -> Seq<char> {
    match backend {
        Backend::Code => "Context:\n"@ + context + "\n\nTask:\n"@ + task,
        Backend::General => "Context from web search:\n"@ + context + "\n\nUser request:\n"@
            + task,
    }
}

/// The URL that a backend is reached at, given its setting: the tunnel's
/// base URL for the code backend, the API key for the general one.
pub open spec fn endpoint_text(backend: Backend, setting: Seq<char>) -> Seq<char> {
    match backend {
        Backend::Code => setting + CODE_PATH@,
        Backend::General => GENERAL_ENDPOINT@ + setting,
    }
}

/// The seconds a backend is given to answer.
pub open spec fn timeout_of(backend: Backend) -> u64 {
    match backend {
        Backend::Code => CODE_TIMEOUT_SECS,
        Backend::General => GENERAL_TIMEOUT_SECS,
    }
}

/// The setting that a backend cannot do without.
pub open spec fn setting_of(backend: Backend, config: ConfigView) -> Option<Seq<char>> {
    match backend {
        Backend::Code => config.tunnel_url,
        Backend::General => config.generative_api_key,
    }
}

/// The call that puts a task to a backend, or `NotConfigured` where the
/// backend's setting is absent.
pub open spec fn planned_call(
    backend: Backend,
    config: ConfigView,
    task: Seq<char>,
    context: Seq<char>,
) -> Result<BackendCallView, BackendError> {
    match setting_of(backend, config) {
        Some(setting) => Ok(
            BackendCallView {
                backend,
                url: endpoint_text(backend, setting),
                task,
                context,
                timeout_secs: timeout_of(backend),
            },
        ),
        None => Err(BackendError::NotConfigured),
    }
}

/// Writes the prompt for a task with its context.
pub fn prompt_for(backend: Backend, task: &str, context: &str) -> (prompt: String)
    ensures
        prompt@ == prompt_text(backend, task@, context@),
{
    match backend {
        Backend::Code => {
            let mut prompt = String::from_str("Context:\n");
            prompt.append(context);
            prompt.append("\n\nTask:\n");
            prompt.append(task);
            prompt
        },
        Backend::General => {
            let mut prompt = String::from_str("Context from web search:\n");
            prompt.append(context);
            prompt.append("\n\nUser request:\n");
            prompt.append(task);
            prompt
        },
    }
}

/// Plans the call that puts a task to a backend. Fails with `NotConfigured`,
/// and with nothing else, exactly when the backend's setting is absent.
pub fn call_for(backend: Backend, config: &Config, task: &str, context: &str) -> (planned: Result<
    BackendCall,
    BackendError,
>)
    ensures
        planned matches Ok(call) ==> planned_call(backend, config@, task@, context@) == Ok::<
            BackendCallView,
            BackendError,
        >(call@),
        planned matches Err(error) ==> planned_call(backend, config@, task@, context@) == Err::<
            BackendCallView,
            BackendError,
        >(error),
        planned is Ok <==> setting_of(backend, config@) is Some,
{
    let configured = match backend {
        Backend::Code => &config.tunnel_url,
        Backend::General => &config.generative_api_key,
    };
    match configured {
        Some(setting) => {
            let url = match backend {
                Backend::Code => {
                    let mut url = setting.clone();
                    url.append(CODE_PATH);
                    url
                },
                Backend::General => {
                    let mut url = String::from_str(GENERAL_ENDPOINT);
                    url.append(setting.as_str());
                    url
                },
            };
            let timeout_secs = match backend {
                Backend::Code => CODE_TIMEOUT_SECS,
                Backend::General => GENERAL_TIMEOUT_SECS,
            };
            Ok(
                BackendCall {
                    backend,
                    url,
                    task: task.to_owned(),
                    context: context.to_owned(),
                    timeout_secs,
                },
            )
        },
        None => Err(BackendError::NotConfigured),
    }
}

/// The body of the request that puts `prompt` to a backend.
pub open spec fn body_of(backend: Backend, prompt: Seq<char>) -> JsonView {
    match backend {
        Backend::Code => JsonView::Object(
            seq![
                ("model"@, JsonView::Text(CODE_MODEL@)),
                ("prompt"@, JsonView::Text(prompt)),
                ("stream"@, JsonView::Bool(false)),
            ],
        ),
        Backend::General => JsonView::Object(
            seq![
                (
                    "contents"@,
                    JsonView::Array(
                        seq![
                            JsonView::Object(
                                seq![
                                    (
                                        "parts"@,
                                        JsonView::Array(
                                            seq![
                                                JsonView::Object(
                                                    seq![("text"@, JsonView::Text(prompt))],
                                                ),
                                            ],
                                        ),
                                    ),
                                ],
                            ),
                        ],
                    ),
                ),
                (
                    "generationConfig"@,
                    JsonView::Object(
                        seq![
                            ("temperature"@, JsonView::Number(TEMPERATURE@)),
                            ("maxOutputTokens"@, JsonView::Number(MAX_OUTPUT_TOKENS@)),
                        ],
                    ),
                ),
            ],
        ),
    }
}

/// An object with one member.
fn object1(name: &str, value: Json) -> (object: Json)
    ensures
        object@ == JsonView::Object(seq![(name@, value@)]),
{
    let mut members: Vec<(String, Json)> = Vec::new();
    members.push((name.to_owned(), value));
    proof {
        lemma_object_view(members);
    }
    assert(member_views(members@) =~= seq![(name@, value@)]);
    Json::Object(members)
}

/// An object with two members.
fn object2(name0: &str, value0: Json, name1: &str, value1: Json) -> (object: Json)
    ensures
        object@ == JsonView::Object(seq![(name0@, value0@), (name1@, value1@)]),
{
    let mut members: Vec<(String, Json)> = Vec::new();
    members.push((name0.to_owned(), value0));
    members.push((name1.to_owned(), value1));
    proof {
        lemma_object_view(members);
    }
    assert(member_views(members@) =~= seq![(name0@, value0@), (name1@, value1@)]);
    Json::Object(members)
}

/// An array with one element.
fn array1(item: Json) -> (array: Json)
    ensures
        array@ == JsonView::Array(seq![item@]),
{
    let mut items: Vec<Json> = Vec::new();
    items.push(item);
    proof {
        lemma_array_view(items);
    }
    assert(item_views(items@) =~= seq![item@]);
    Json::Array(items)
}

impl BackendCall {
    /// Writes the prompt of this call.
    pub fn prompt(&self) -> (prompt: String)
        ensures
            prompt@ == prompt_text(self.backend, self.task@, self.context@),
    {
        prompt_for(self.backend, self.task.as_str(), self.context.as_str())
    }

    /// Builds the JSON body of this call.
    pub fn body(&self) -> (body: Json)
        ensures
            body@ == body_of(self.backend, prompt_text(self.backend, self.task@, self.context@)),
    {
        let prompt = self.prompt();
        match self.backend {
            Backend::Code => {
                let mut members: Vec<(String, Json)> = Vec::new();
                members.push(("model".to_owned(), Json::Text(CODE_MODEL.to_owned())));
                members.push(("prompt".to_owned(), Json::Text(prompt)));
                members.push(("stream".to_owned(), Json::Bool(false)));
                proof {
                    lemma_object_view(members);
                }
                assert(member_views(members@) =~= seq![
                    ("model"@, JsonView::Text(CODE_MODEL@)),
                    ("prompt"@, JsonView::Text(prompt@)),
                    ("stream"@, JsonView::Bool(false)),
                ]);
                Json::Object(members)
            },
            Backend::General => {
                let part = object1("text", Json::Text(prompt));
                let content = object1("parts", array1(part));
                let settings = object2(
                    "temperature",
                    Json::Number(TEMPERATURE.to_owned()),
                    "maxOutputTokens",
                    Json::Number(MAX_OUTPUT_TOKENS.to_owned()),
                );
                object2("contents", array1(content), "generationConfig", settings)
            },
        }
    }
}

/// The member `name` of a value that may be absent.
pub open spec fn member_of(value: Option<JsonView>, name: Seq<char>) -> Option<JsonView> {
    match value {
        Some(value) => value.member(name),
        None => None,
    }
}

/// The first element of a value that may be absent.
pub open spec fn first_of(value: Option<JsonView>) -> Option<JsonView> {
    match value {
        Some(value) => value.element(0),
        None => None,
    }
}

/// The characters of a value that may be absent, where it is a string.
pub open spec fn text_of(value: Option<JsonView>) -> Option<Seq<char>> {
    match value {
        Some(value) => value.text(),
        None => None,
    }
}

/// The text that a reply of the code backend carries: the string under
/// `response`.
pub open spec fn code_text(reply: JsonView) -> Option<Seq<char>> {
    text_of(reply.member("response"@))
}

/// The text that a reply of the general backend carries: the string under
/// `text` in the first part of the content of the first candidate.
pub open spec fn general_text(reply: JsonView) -> Option<Seq<char>> {
    let candidate = first_of(reply.member("candidates"@));
    let part = first_of(member_of(member_of(candidate, "content"@), "parts"@));
    text_of(member_of(part, "text"@))
}

/// The answer read from a parsed reply: the text it carries, or the
/// backend's default where it carries none. The code backend's default is
/// the empty text.
pub open spec fn reply_text(backend: Backend, reply: JsonView) -> Seq<char> {
    match backend {
        Backend::Code => match code_text(reply) {
            Some(text) => text,
            None => Seq::empty(),
        },
        Backend::General => match general_text(reply) {
            Some(text) => text,
            None => NO_ANSWER@,
        },
    }
}

/// What a call of a backend comes to: the answer, or the reason there is
/// none.
pub open spec fn answer(backend: Backend, outcome: OutcomeView) -> Result<
    Seq<char>,
    BackendError,
> {
    match outcome {
        OutcomeView::Unreachable => Err(BackendError::Unreachable),
        OutcomeView::Reply { status, body } => if !success(status) {
            Err(BackendError::Rejected(status))
        } else {
            match document(body) {
                Some(reply) => Ok(reply_text(backend, reply)),
                None => Err(BackendError::Unparseable),
            }
        },
    }
}

/// Reads the answer out of a parsed reply of a backend.
pub fn text_in(backend: Backend, reply: &Json) -> (text: String)
    ensures
        text@ == reply_text(backend, reply@),
{
    match backend {
        Backend::Code => {
            let found = match reply.get("response") {
                Some(value) => value.as_text(),
                None => None,
            };
            match found {
                Some(text) => text.to_owned(),
                None => String::new(),
            }
        },
        Backend::General => {
            let candidate = match reply.get("candidates") {
                Some(list) => list.at(0),
                None => None,
            };
            let content = match candidate {
                Some(value) => value.get("content"),
                None => None,
            };
            let parts = match content {
                Some(value) => value.get("parts"),
                None => None,
            };
            let part = match parts {
                Some(list) => list.at(0),
                None => None,
            };
            let field = match part {
                Some(value) => value.get("text"),
                None => None,
            };
            let found = match field {
                Some(value) => value.as_text(),
                None => None,
            };
            match found {
                Some(text) => text.to_owned(),
                None => String::from_str(NO_ANSWER),
            }
        },
    }
}

/// Reads the answer of a backend out of the outcome of its call.
///
/// Succeeds exactly when a reply came, its status is a success and its body
/// is JSON. Otherwise the error says which of these failed first.
pub fn read_answer(backend: Backend, outcome: &Outcome) -> (read: Result<String, BackendError>)
    ensures
        read matches Ok(text) ==> answer(backend, outcome@) == Ok::<Seq<char>, BackendError>(
            text@,
        ),
        read matches Err(error) ==> answer(backend, outcome@) == Err::<Seq<char>, BackendError>(
            error,
        ),
        read is Ok <==> (*outcome matches Outcome::Reply { status, body } && success(status)
            && document(body@) is Some),
{
    match outcome {
        Outcome::Unreachable => Err(BackendError::Unreachable),
        Outcome::Reply { status, body } => {
            if !is_success(*status) {
                return Err(BackendError::Rejected(*status));
            }
            match parse(body.as_slice()) {
                Some(reply) => Ok(text_in(backend, &reply)),
                None => Err(BackendError::Unparseable),
            }
        },
    }
}

} // verus!
