use vstd::prelude::*;
use vstd::string::StringExecFns;

use crate::config::{OpenAIGPTModel, Task};
use crate::context::{build_context_request, context_text, Context};
use crate::prompts::{ASK_MODEL_TASK, EXPLAIN_MODEL_TASK};

verus! {

/// The chat completion endpoint requests are posted to.
pub const CHAT_COMPLETIONS_URL: &'static str = "https://api.openai.com/v1/chat/completions";

/// How long a request may take, in seconds.
pub const REQUEST_TIMEOUT_SECS: u64 = 60;

/// Why a request or its answer failed.
#[derive(Clone, Debug, PartialEq, Eq)]
pub enum OpenAIError {
    /// No usable credential: nothing was sent.
    Authentication(String),
    /// The HTTP client could not be set up.
    Client(String),
    /// The event stream broke off while the answer was arriving.
    Stream(String),
    /// A frame of the answer did not have the expected shape.
    Deserialization(String),
    /// Any other failure of the request, with its message.
    Unknown(String),
}

impl OpenAIError {
    /// The message shown to the user.
    pub open spec fn spec_message(&self) -> Seq<char> {
        match self {
            OpenAIError::Authentication(m) => m@,
            OpenAIError::Client(m) => "Client failed to initialize: "@ + m@,
            OpenAIError::Stream(m) => "Stream was interrupted: "@ + m@,
            OpenAIError::Deserialization(m) => "Failed to deserialize OpenAI model response: "@
                + m@,
            OpenAIError::Unknown(m) => "An unknown error happened: "@ + m@,
        }
    }

    pub fn to_string(&self) -> (r: String)
        ensures
            r@ == self.spec_message(),
    {
        match self {
            OpenAIError::Authentication(m) => m.clone(),
            OpenAIError::Client(m) => String::from_str("Client failed to initialize: ").concat(
                m.as_str(),
            ),
            OpenAIError::Stream(m) => String::from_str("Stream was interrupted: ").concat(
                m.as_str(),
            ),
            OpenAIError::Deserialization(m) => String::from_str(
                "Failed to deserialize OpenAI model response: ",
            ).concat(m.as_str()),
            OpenAIError::Unknown(m) => String::from_str("An unknown error happened: ").concat(
                m.as_str(),
            ),
        }
    }
}

/// The JSON string literal that stands for `s`: quoted, with quotes,
/// backslashes and control characters escaped.
pub uninterp spec fn json_quoted(s: Seq<char>) -> Seq<char>;

#[verifier::external_type_specification]
#[verifier::external_body]
pub struct ExJsonError(serde_json::Error);

/// Relies on `serde_json::to_string` on a `str`: the JSON string literal for
/// it. Serializing a `str` only writes into a `Vec<u8>`, which never fails.
#[verifier::external_body]
fn json_string(s: &str) -> (r: Result<String, serde_json::Error>)
    ensures
        r is Ok,
        r is Ok ==> r->Ok_0@ == json_quoted(s@),
{
    serde_json::to_string(s)
}

fn quoted(s: &str) -> (r: String)
    ensures
        r@ == json_quoted(s@),
{
    match json_string(s) {
        Ok(q) => q,
        Err(_) => String::new(),
    }
}

/// The system instruction for each task.
pub open spec fn system_prompt(task: Task) -> Seq<char> {
    match task {
        Task::GenerateCommand => ASK_MODEL_TASK@,
        Task::Explain => EXPLAIN_MODEL_TASK@,
    }
}

/// The body of a chat request: the model, a system message with the task's
/// instruction, a user message, temperature zero and the streaming flag.
pub open spec fn request_body_text(
    model: OpenAIGPTModel,
    task: Task,
    user: Seq<char>,
    streaming: bool,
) -> Seq<char> {
    "{\"model\":"@ + json_quoted(model.spec_api_name())
        + ",\"messages\":[{\"role\":\"system\",\"content\":"@ + json_quoted(system_prompt(task))
        + "},{\"role\":\"user\",\"content\":"@ + json_quoted(user) + "}],\"temperature\":0,\"stream\":"@
        + if streaming {
        "true"@
    } else {
        "false"@
    } + "}"@
}

/// The JSON body of a chat request whose user message is the context
/// followed by the tagged request.
pub fn request_body(
    model: OpenAIGPTModel,
    request: &str,
    context: Context,
    task: Task,
    streaming: bool,
) -> (r: String)
    ensures
        r@ == request_body_text(
            model,
            task,
            context_text(context) + "Here is your <task>: \n <task>"@ + request@ + "</task>"@,
            streaming,
        ),
{
    let user = build_context_request(request, context);
    let system = match task {
        Task::GenerateCommand => ASK_MODEL_TASK,
        Task::Explain => EXPLAIN_MODEL_TASK,
    };
    let name = model.api_name();
    let mut r = String::from_str("{\"model\":");
    r.append(quoted(name.as_str()).as_str());
    r.append(",\"messages\":[{\"role\":\"system\",\"content\":");
    r.append(quoted(system).as_str());
    r.append("},{\"role\":\"user\",\"content\":");
    r.append(quoted(user.as_str()).as_str());
    r.append("}],\"temperature\":0,\"stream\":");
    if streaming {
        r.append("true");
    } else {
        r.append("false");
    }
    r.append("}");
    r
}

/// The value of the authorization header for a credential, or the error
/// that stops the request when there is none.
pub fn bearer_value(api_key: Option<String>) -> (r: Result<String, OpenAIError>)
    ensures
        match api_key {
            Some(k) => r matches Ok(v) && v@ == "Bearer "@ + k@,
            None => r matches Err(OpenAIError::Authentication(m))
                && m@ == "You need to set OPENAI_API_KEY env variable to use this model"@,
        },
{
    match api_key {
        Some(k) => Ok(String::from_str("Bearer ").concat(k.as_str())),
        None => Err(
            OpenAIError::Authentication(
                String::from_str("You need to set OPENAI_API_KEY env variable to use this model"),
            ),
        ),
    }
}

#[verifier::external_type_specification]
#[verifier::external_body]
pub struct ExHeaderValue(reqwest::header::HeaderValue);

#[verifier::external_type_specification]
#[verifier::external_body]
pub struct ExInvalidHeaderValue(reqwest::header::InvalidHeaderValue);

/// A character that may stand in an HTTP header value: a tab, or anything
/// from the space on but the delete character.
pub open spec fn header_char_ok(c: char) -> bool {
    (c as u32 >= 32 && c as u32 != 127) || c == '\t'
}

/// Relies on `http::HeaderValue::from_str` (re-exported by reqwest): a value
/// is accepted exactly when each of its bytes is a tab, or at least 32 and not
/// 127. The bytes of a non-ASCII character are all at least 128.
pub assume_specification[ reqwest::header::HeaderValue::from_str ](src: &str) -> (r: Result<
    reqwest::header::HeaderValue,
    reqwest::header::InvalidHeaderValue,
>)
    ensures
        r is Ok <==> forall|i: int| 0 <= i < src@.len() ==> header_char_ok(#[trigger] src@[i]),
;

/// The authorization header for a credential. No credential, or one that
/// cannot stand in a header, stops the request before anything is sent.
pub fn authorization_header(api_key: Option<String>) -> (r: Result<
    reqwest::header::HeaderValue,
    OpenAIError,
>)
    ensures
        match api_key {
            None => r matches Err(OpenAIError::Authentication(m))
                && m@ == "You need to set OPENAI_API_KEY env variable to use this model"@,
            Some(k) => {
                &&& r is Ok <==> forall|i: int|
                    0 <= i < k@.len() ==> header_char_ok(#[trigger] k@[i])
                &&& r is Err ==> (r matches Err(OpenAIError::Authentication(m)) && m@
                    == "Failed to create authentication header: failed to parse header value"@)
            },
        },
{
    let ghost key = api_key;
    let bearer = match bearer_value(api_key) {
        Ok(b) => b,
        Err(e) => return Err(e),
    };
    let ghost prefix = "Bearer "@;
    proof {
        reveal_strlit("Bearer ");
        let b = bearer@;
        if let Some(k) = key {
            assert(b == prefix + k@);
            assert((forall|i: int| 0 <= i < b.len() ==> header_char_ok(#[trigger] b[i])) <==> (
            forall|i: int| 0 <= i < k@.len() ==> header_char_ok(#[trigger] k@[i]))) by {
                if forall|i: int| 0 <= i < k@.len() ==> header_char_ok(#[trigger] k@[i]) {
                    assert forall|i: int| 0 <= i < b.len() implies header_char_ok(
                        #[trigger] b[i],
                    ) by {
                        if i >= 7 {
                            assert(b[i] == k@[i - 7]);
                        }
                    }
                }
                if forall|i: int| 0 <= i < b.len() ==> header_char_ok(#[trigger] b[i]) {
                    assert forall|i: int| 0 <= i < k@.len() implies header_char_ok(
                        #[trigger] k@[i],
                    ) by {
                        assert(b[i + 7] == k@[i]);
                    }
                }
            }
        }
    }
    match reqwest::header::HeaderValue::from_str(bearer.as_str()) {
        Ok(v) => Ok(v),
        Err(_) => Err(
            OpenAIError::Authentication(
                String::from_str(
                    "Failed to create authentication header: failed to parse header value",
                ),
            ),
        ),
    }
}

/// The delta of the first choice of a stream frame.
#[derive(Clone, Debug, PartialEq, Eq)]
pub enum ChunkDelta {
    /// The preamble that names the speaker.
    Role(String),
    /// A piece of the answer.
    Content(String),
    /// The empty delta that ends the answer.
    Stop,
}

/// The data of the frame that ends a stream.
pub open spec fn done_marker() -> Seq<char> {
    "[DONE]"@
}

/// What one frame of the event stream contributes to the answer: a fragment,
/// or `None` for the end marker, after which no fragment follows. `event` is
/// the frame's data, or the transport's message where the stream broke off;
/// `parsed` is that data read as a chunk: the deltas of its choices in order,
/// or the reason it could not be read. Deltas other than content contribute
/// an empty fragment.
pub fn decode_frame(event: Result<String, String>, parsed: Result<Vec<ChunkDelta>, String>) -> (r:
    Result<Option<String>, OpenAIError>)
    ensures
        match event {
            Err(m) => r == Err::<Option<String>, OpenAIError>(OpenAIError::Stream(m)),
            Ok(data) => if data@ == done_marker() {
                r == Ok::<Option<String>, OpenAIError>(None)
            } else {
                match parsed {
                    Err(m) => r == Err::<Option<String>, OpenAIError>(
                        OpenAIError::Deserialization(m),
                    ),
                    Ok(ds) => if ds@.len() == 0 {
                        r matches Err(OpenAIError::Deserialization(m)) && m@ == "no choice in chunk"@
                    } else {
                        match ds@[0] {
                            ChunkDelta::Content(c) => r matches Ok(Some(s)) && s@ == c@,
                            _ => r matches Ok(Some(s)) && s@.len() == 0,
                        }
                    },
                }
            },
        },
{
    match event {
        Err(m) => Err(OpenAIError::Stream(m)),
        Ok(data) => {
            let done = String::from_str("[DONE]");
            if data.eq(&done) {
                Ok(None)
            } else {
                match parsed {
                    Err(m) => Err(OpenAIError::Deserialization(m)),
                    Ok(ds) => {
                        if ds.len() == 0 {
                            Err(OpenAIError::Deserialization(String::from_str("no choice in chunk")))
                        } else {
                            match &ds[0] {
                                ChunkDelta::Content(c) => Ok(Some(c.clone())),
                                _ => Ok(Some(String::new())),
                            }
                        }
                    },
                }
            }
        },
    }
}

/// The answer of a non-streaming request: the content of its first choice.
/// `parsed` is the response body read as a completion, the contents of its
/// choices in order, or the reason it could not be read.
pub fn completion_answer(parsed: Result<Vec<String>, String>) -> (r: Result<String, OpenAIError>)
    ensures
        match parsed {
            Err(m) => r == Err::<String, OpenAIError>(OpenAIError::Unknown(m)),
            Ok(cs) => if cs@.len() == 0 {
                r matches Err(OpenAIError::Unknown(m)) && m@ == "no choice in response"@
            } else {
                r matches Ok(s) && s@ == cs@[0]@
            },
        },
{
    match parsed {
        Err(m) => Err(OpenAIError::Unknown(m)),
        Ok(cs) => {
            if cs.len() == 0 {
                Err(OpenAIError::Unknown(String::from_str("no choice in response")))
            } else {
                Ok(cs[0].clone())
            }
        },
    }
}

} // verus!
