//! The translation service's rules: its settings, the chat-completions
//! request it makes for a text, and the translation (or error) it draws from
//! the reply. Sending the request is left to the caller.

use vstd::prelude::*;

use crate::text::{prefixed, result_view, trim, trim_seq};

verus! {

/// The instruction sent as the system message of every request.
pub open spec fn system_prompt_text() -> Seq<char> {
    "You are a translator. Translate the following Chinese text to natural English. Output ONLY the translation, nothing else. Do not add quotes or explanations."@
}

/// The settings a translation uses, as plain sequences.
pub struct TranslatorSettings {
    pub api_key: Seq<char>,
    pub api_base_url: Seq<char>,
    pub model: Seq<char>,
}

/// Holds the API key, the API address and the model name that translations
/// use.
pub struct TranslateService {
    api_key: String,
    api_base_url: String,
    model: String,
}

impl View for TranslateService {
    type V = TranslatorSettings;

    closed spec fn view(&self) -> TranslatorSettings {
        TranslatorSettings {
            api_key: self.api_key@,
            api_base_url: self.api_base_url@,
            model: self.model@,
        }
    }
}

/// One chat-completions request: where it goes, its `Authorization` header,
/// the model, the system and user messages, and whether the reply is
/// streamed (never). It is sent at temperature 0.3.
#[derive(Debug, Clone)]
pub struct ChatRequestPlan {
    pub url: String,
    pub authorization: String,
    pub model: String,
    pub system_prompt: String,
    pub user_content: String,
    pub stream: bool,
}

/// How a request ended, as far as the translation is concerned.
#[derive(Debug, Clone)]
pub enum ChatReply {
    /// The request was cancelled before a reply came.
    Cancelled,
    /// The request could not be sent or no reply came.
    RequestFailed { error: String },
    /// The server answered with a status other than success.
    HttpError { status: String, body: String },
    /// The reply's body could not be read as a chat completion.
    Unparsable { error: String },
    /// The reply's choices, each by its message content, in order.
    Parsed { contents: Vec<String> },
}

/// The translation (or the error) that a reply gives.
pub open spec fn reply_outcome(reply: ChatReply) -> Result<Seq<char>, Seq<char>> {
    match reply {
        ChatReply::Cancelled => Err("Translation cancelled"@),
        ChatReply::RequestFailed { error } => Err("Request error: "@ + error@),
        ChatReply::HttpError { status, body } => Err("API error "@ + status@ + ": "@ + body@),
        ChatReply::Unparsable { error } => Err("Parse error: "@ + error@),
        ChatReply::Parsed { contents } => if contents@.len() > 0 {
            Ok(trim_seq(contents@[0]@))
        } else {
            Err("Empty response"@)
        },
    }
}

impl TranslateService {
    /// No API key, the default address and model.
    pub fn new() -> (r: Self)
        ensures
            r@.api_key == Seq::<char>::empty(),
            r@.api_base_url == crate::config::default_api_url(),
            r@.model == crate::config::flash_model(),
    {
        TranslateService {
            api_key: String::new(),
            api_base_url: crate::config::default_api_base_url(),
            model: crate::config::default_model(),
        }
    }

    /// Use `key` for the following translations.
    pub fn set_api_key(&mut self, key: String)
        ensures
            final(self)@ == (TranslatorSettings {
                api_key: key@,
                api_base_url: old(self)@.api_base_url,
                model: old(self)@.model,
            }),
    {
        self.api_key = key;
    }

    /// Send the following requests to `url`.
    pub fn set_api_base_url(&mut self, url: String)
        ensures
            final(self)@ == (TranslatorSettings {
                api_key: old(self)@.api_key,
                api_base_url: url@,
                model: old(self)@.model,
            }),
    {
        self.api_base_url = url;
    }

    /// Use `model` for the following translations.
    pub fn set_model(&mut self, model: String)
        ensures
            final(self)@ == (TranslatorSettings {
                api_key: old(self)@.api_key,
                api_base_url: old(self)@.api_base_url,
                model: model@,
            }),
    {
        self.model = model;
    }

    /// The request that translates `chinese_text`, or an error when no API
    /// key is set.
    pub fn request_for(&self, chinese_text: &str) -> (r: Result<ChatRequestPlan, String>)
        ensures
            r is Err <==> self@.api_key.len() == 0,
            r matches Err(e) ==> e@ == "API key not configured"@,
            r matches Ok(plan) ==> {
                &&& plan.url@ == self@.api_base_url
                &&& plan.authorization@ == "Bearer "@ + self@.api_key
                &&& plan.model@ == self@.model
                &&& plan.system_prompt@ == system_prompt_text()
                &&& plan.user_content@ == chinese_text@
                &&& !plan.stream
            },
    {
        if self.api_key.as_str().is_empty() {
            return Err(String::from_str("API key not configured"));
        }
        Ok(
            ChatRequestPlan {
                url: self.api_base_url.clone(),
                authorization: String::from_str("Bearer ").concat(self.api_key.as_str()),
                model: self.model.clone(),
                system_prompt: String::from_str(
                    "You are a translator. Translate the following Chinese text to natural English. Output ONLY the translation, nothing else. Do not add quotes or explanations.",
                ),
                user_content: String::from_str(chinese_text),
                stream: false,
            },
        )
    }
}

/// The translation a reply gives: the first choice's content, trimmed; or
/// the error that goes with how the request ended.
pub fn translation_from_reply(reply: ChatReply) -> (r: Result<String, String>)
    ensures
        result_view(r) == reply_outcome(reply),
{
    match reply {
        ChatReply::Cancelled => Err(String::from_str("Translation cancelled")),
        ChatReply::RequestFailed { error } => Err(
            prefixed("Request error: ", error.as_str()),
        ),
        ChatReply::HttpError { status, body } => Err(
            String::from_str("API error ").concat(status.as_str()).concat(": ").concat(
                body.as_str(),
            ),
        ),
        ChatReply::Unparsable { error } => Err(
            prefixed("Parse error: ", error.as_str()),
        ),
        ChatReply::Parsed { contents } => {
            if contents.len() > 0 {
                Ok(String::from_str(trim(contents[0].as_str())))
            } else {
                Err(String::from_str("Empty response"))
            }
        },
    }
}

/// A translation that comes back is never padded with whitespace: trimming
/// it again changes nothing.
pub proof fn law_translation_is_trimmed(reply: ChatReply)
    requires
        reply_outcome(reply) is Ok,
    ensures
        trim_seq(reply_outcome(reply)->Ok_0) == reply_outcome(reply)->Ok_0,
{
    if let ChatReply::Parsed { contents } = reply {
        crate::text::lemma_trim_idempotent(contents@[0]@);
    }
}

/// A parsed reply with at least one choice always gives a translation: the
/// first choice's content with surrounding whitespace removed. Only a reply
/// with no choice at all is the "Empty response" error.
pub proof fn law_first_choice_is_the_translation(contents: Vec<String>)
    ensures
        contents@.len() > 0 ==> reply_outcome(ChatReply::Parsed { contents })
            == Ok::<Seq<char>, Seq<char>>(trim_seq(contents@[0]@)),
        contents@.len() == 0 ==> reply_outcome(ChatReply::Parsed { contents })
            == Err::<Seq<char>, Seq<char>>("Empty response"@),
        reply_outcome(ChatReply::Parsed { contents }) is Err <==> contents@.len() == 0,
{
}

/// Only the first choice counts: two parsed replies whose first choices
/// have the same content give the same translation, whatever follows.
pub proof fn law_later_choices_ignored(a: Vec<String>, b: Vec<String>)
    requires
        a@.len() > 0,
        b@.len() > 0,
        a@[0]@ == b@[0]@,
    ensures
        reply_outcome(ChatReply::Parsed { contents: a }) == reply_outcome(
            ChatReply::Parsed { contents: b },
        ),
{
}

} // verus!
