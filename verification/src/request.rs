//! Building the translation request.
//!
//! One request carries the fixed model identifier and two ordered messages:
//! the system persona and the user prompt that embeds the target language and
//! the extracted text. The request is built fresh per call and handed to the
//! embedding application, which serialises and sends it.

use vstd::prelude::*;
use crate::config::ConfigValue;
use crate::config::TranslationConfig;
use crate::config::read_config;
use crate::errors::TranslateError;

verus! {

/// One role/content pair of the request body.
#[derive(Debug, PartialEq)]
pub struct ChatMessage {
    pub role: String,
    pub content: String,
}

/// The body of one call to the translation endpoint.
#[derive(Debug, PartialEq)]
pub struct TranslationRequest {
    pub model: String,
    pub messages: Vec<ChatMessage>,
}

/// The fixed model identifier sent with every request.
pub open spec fn spec_model_id() -> Seq<char> {
    "gpt-4o-mini-2024-07-18"@
}

/// The fixed system-role instruction: translator persona and layout directive.
pub open spec fn spec_system_instruction() -> Seq<char> {
    "You are a professional translator and document formatter. Preserve the original text layout as closely as possible in the translated output."@
}

/// The user prompt: the fixed instruction template around the target language
/// and the verbatim extracted text.
pub open spec fn spec_prompt(target_language: Seq<char>, text: Seq<char>) -> Seq<char> {
    "Translate the following text to "@ + target_language
        + ", preserving its original layout as closely as possible (including paragraph breaks, section titles, and lists):\n\n"@
        + text
}

/// The fixed address of the translation endpoint.
pub open spec fn spec_endpoint_url() -> Seq<char> {
    "https://api.openai.com/v1/chat/completions"@
}

/// The credential header value sent with every request.
pub open spec fn spec_bearer_header(credential: Seq<char>) -> Seq<char> {
    "Bearer "@ + credential
}

pub fn endpoint_url() -> (u: String)
    ensures
        u@ == spec_endpoint_url(),
{
    String::from_str("https://api.openai.com/v1/chat/completions")
}

pub fn bearer_header(credential: &str) -> (h: String)
    ensures
        h@ == spec_bearer_header(credential@),
{
    let mut h = String::from_str("Bearer ");
    h.append(credential);
    h
}

/// Readies the extracted text for the translation prompt; the text is taken
/// verbatim, with its line structure untouched.
pub fn prepare_text_for_openai(original_text: &str) -> (r: String)
    ensures
        r@ == original_text@,
{
    original_text.to_owned()
}

/// Builds the user prompt from the target language and the extracted text.
pub fn build_prompt(target_language: &str, text: &str) -> (p: String)
    ensures
        p@ == spec_prompt(target_language@, text@),
{
    let prepared = prepare_text_for_openai(text);
    let mut p = String::from_str("Translate the following text to ");
    p.append(target_language);
    p.append(
        ", preserving its original layout as closely as possible (including paragraph breaks, section titles, and lists):\n\n",
    );
    p.append(prepared.as_str());
    p
}

/// What [`build_request`] promises of its result.
pub open spec fn is_request_for(r: TranslationRequest, target_language: Seq<char>, text: Seq<char>) -> bool {
    &&& r.model@ == spec_model_id()
    &&& r.messages@.len() == 2
    &&& r.messages@[0].role@ == "system"@
    &&& r.messages@[0].content@ == spec_system_instruction()
    &&& r.messages@[1].role@ == "user"@
    &&& r.messages@[1].content@ == spec_prompt(target_language, text)
}

/// Builds the request body for one translation call: the fixed model
/// identifier, the system persona, and the user prompt.
pub fn build_request(config: &TranslationConfig, text: &str) -> (r: TranslationRequest)
    ensures
        is_request_for(r, config.target_language@, text@),
{
    let system = ChatMessage {
        role: String::from_str("system"),
        content: String::from_str(
            "You are a professional translator and document formatter. Preserve the original text layout as closely as possible in the translated output.",
        ),
    };
    let user = ChatMessage {
        role: String::from_str("user"),
        content: build_prompt(config.target_language.as_str(), text),
    };
    let mut messages: Vec<ChatMessage> = Vec::new();
    messages.push(system);
    messages.push(user);
    TranslationRequest { model: String::from_str("gpt-4o-mini-2024-07-18"), messages }
}

/// The decision part of the translation stage before the network call: reads
/// the configuration and builds the request. On success it returns the request
/// together with the credential for the request's authorization header; the
/// error cases are exactly those of [`read_config`].
pub fn prepare_translation(
    text: &str,
    target_language: Option<ConfigValue>,
    api_credential: Option<ConfigValue>,
) -> (r: Result<(TranslationRequest, String), TranslateError>)
    ensures
        target_language is None ==> (r matches Err(e) && e matches
            TranslateError::ConfigKeyMissing { key } && key@
            == crate::config::spec_target_language_key()),
        target_language matches Some(ConfigValue::Other) ==> (r matches Err(e) && e matches
            TranslateError::ConfigValueInvalid { key } && key@
            == crate::config::spec_target_language_key()),
        target_language matches Some(ConfigValue::Text(_)) ==> (api_credential is None ==> (
        r matches Err(e) && e matches TranslateError::ConfigKeyMissing { key } && key@
            == crate::config::spec_api_credential_key())),
        target_language matches Some(ConfigValue::Text(_)) ==> (api_credential matches Some(
            ConfigValue::Other,
        ) ==> (r matches Err(e) && e matches TranslateError::ConfigValueInvalid { key } && key@
            == crate::config::spec_api_credential_key())),
        target_language matches Some(ConfigValue::Text(lang)) ==> (api_credential matches Some(
            ConfigValue::Text(cred),
        ) ==> (r matches Ok(p) && is_request_for(p.0, lang@, text@) && p.1 == cred)),
{
    let config = match read_config(target_language, api_credential) {
        Ok(config) => config,
        Err(e) => {
            return Err(e);
        },
    };
    let request = build_request(&config, text);
    Ok((request, config.api_credential))
}

} // verus!
