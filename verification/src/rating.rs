//! Asking for the rating: the configuration, the request to the inference
//! endpoint, and the rating that its answer holds.

use vstd::prelude::*;
use vstd::string::*;
use crate::error::RunError;
use crate::http::{Reply, require_body, required_body};
use crate::response::ApiResponse;

verus! {

/// The instruction sent as the system message of the conversation.
pub const SYSTEM_INSTRUCTION: &'static str =
    "You are a professional programmer grader. By default, you output to a terminal so do not use any markdown formatting.";

/// The cap on the length of the model's answer, in tokens.
pub const MAX_TOKENS: u32 = 2000;

/// The model's rating of a user.
#[derive(Debug)]
pub struct Rating {
    pub description: String,
}

impl Rating {
    /// A rating that holds `description`.
    pub fn new(description: String) -> (rating: Self)
        ensures
            rating.description@ == description@,
    {
        Rating { description }
    }

    /// The text of the rating.
    pub fn description(&self) -> (text: &str)
        ensures
            text@ == self.description@,
    {
        self.description.as_str()
    }

    /// The line that reports the rating.
    pub open spec fn output_text(self) -> Seq<char> {
        "Rating: "@ + self.description@
    }

    /// Builds the line that reports the rating.
    pub fn output_line(&self) -> (line: String)
        ensures
            line@ == self.output_text(),
    {
        String::from_str("Rating: ").concat(self.description.as_str())
    }
}

/// The credentials of the inference endpoint.
#[derive(Debug)]
pub struct Config {
    pub account_id: String,
    pub api_key: String,
}

impl Config {
    /// Takes the two configured values, each `None` where it is not set. The
    /// account identifier is looked at first.
    pub fn new(account_id: Option<String>, api_key: Option<String>) -> (res: Result<Config, RunError>)
        ensures
            match (account_id, api_key) {
                (None, _) => res == Err::<Config, RunError>(RunError::MissingAccountId),
                (Some(_), None) => res == Err::<Config, RunError>(RunError::MissingApiKey),
                (Some(id), Some(key)) => {
                    &&& res matches Ok(config)
                    &&& config.account_id@ == id@
                    &&& config.api_key@ == key@
                },
            },
    {
        match account_id {
            None => Err(RunError::MissingAccountId),
            Some(id) => match api_key {
                None => Err(RunError::MissingApiKey),
                Some(key) => Ok(Config { account_id: id, api_key: key }),
            },
        }
    }
}

/// One message of the conversation.
#[derive(Debug)]
pub struct Message {
    pub role: String,
    pub content: String,
}

/// The request to the inference endpoint: a POST of a JSON body that holds
/// `messages` and `max_tokens`.
#[derive(Debug)]
pub struct InferenceRequest {
    pub url: String,
    /// The value of the `Authorization` header.
    pub authorization: String,
    /// The value of the `Content-Type` header.
    pub content_type: String,
    pub messages: Vec<Message>,
    pub max_tokens: u32,
}

/// The address at which the model is run for the account.
pub open spec fn inference_url_text(account_id: Seq<char>) -> Seq<char> {
    "https://api.cloudflare.com/client/v4/accounts/"@ + account_id
        + "/ai/run/@cf/meta/llama-3.1-8b-instruct"@
}

/// The `Authorization` header for the key.
pub open spec fn bearer_text(api_key: Seq<char>) -> Seq<char> {
    "Bearer "@ + api_key
}

impl InferenceRequest {
    /// The request is the one that puts `prompt` to the model on behalf of the
    /// account: a conversation of the system instruction and the prompt as the
    /// user's message, with the cap on the answer's length.
    pub open spec fn asks(
        self,
        account_id: Seq<char>,
        api_key: Seq<char>,
        prompt: Seq<char>,
    ) -> bool {
        &&& self.url@ == inference_url_text(account_id)
        &&& self.authorization@ == bearer_text(api_key)
        &&& self.content_type@ == "application/json"@
        &&& self.messages@.len() == 2
        &&& self.messages@[0].role@ == "system"@
        &&& self.messages@[0].content@ == SYSTEM_INSTRUCTION@
        &&& self.messages@[1].role@ == "user"@
        &&& self.messages@[1].content@ == prompt
        &&& self.max_tokens == MAX_TOKENS
    }
}

/// Builds the request that puts `prompt` to the model.
pub fn inference_request(config: &Config, prompt: String) -> (request: InferenceRequest)
    ensures
        request.asks(config.account_id@, config.api_key@, prompt@),
{
    let mut url = String::from_str("https://api.cloudflare.com/client/v4/accounts/");
    url.append(config.account_id.as_str());
    url.append("/ai/run/@cf/meta/llama-3.1-8b-instruct");
    let authorization = String::from_str("Bearer ").concat(config.api_key.as_str());
    let mut messages: Vec<Message> = Vec::new();
    messages.push(
        Message {
            role: String::from_str("system"),
            content: String::from_str(SYSTEM_INSTRUCTION),
        },
    );
    messages.push(Message { role: String::from_str("user"), content: prompt });
    InferenceRequest {
        url,
        authorization,
        content_type: String::from_str("application/json"),
        messages,
        max_tokens: MAX_TOKENS,
    }
}

/// Takes the rating out of the reply of the inference endpoint. `body` is the
/// answer as parsed, `None` where it did not have the expected shape. Without
/// a well-formed 2xx answer there is no rating.
pub fn rate(reply: Reply<Option<ApiResponse>>) -> (res: Result<Rating, RunError>)
    ensures
        match required_body(reply) {
            Ok(answer) => res matches Ok(rating) && rating.description@
                == answer.result.response@,
            Err(e) => res == Err::<Rating, RunError>(RunError::Inference(e)),
        },
{
    match require_body(reply) {
        Ok(answer) => Ok(Rating::new(answer.result.response)),
        Err(e) => Err(RunError::Inference(e)),
    }
}

} // verus!
