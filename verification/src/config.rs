//! Configuration lookup for the translation stage.
//!
//! The configuration provider is an external key-value store; the embedding
//! application queries it under the two fixed keys and hands the raw outcomes
//! to [`read_config`], which decides whether a job has a usable configuration
//! and which error it fails with otherwise.

use vstd::prelude::*;
use crate::errors::TranslateError;

verus! {

/// One value as the configuration provider returns it: either a string, or a
/// value of some other shape, which the translation stage rejects.
#[derive(Debug, PartialEq)]
pub enum ConfigValue {
    Text(String),
    Other,
}

/// The read-only configuration of one job, fetched fresh from the provider.
#[derive(Debug, PartialEq)]
pub struct TranslationConfig {
    pub target_language: String,
    pub api_credential: String,
}

/// The provider key under which the target language is stored.
pub open spec fn spec_target_language_key() -> Seq<char> {
    "TRANSLATE_TO"@
}

/// The provider key under which the endpoint credential is stored.
pub open spec fn spec_api_credential_key() -> Seq<char> {
    "OPENAI_API_KEY"@
}

pub fn target_language_key() -> (k: String)
    ensures
        k@ == spec_target_language_key(),
{
    String::from_str("TRANSLATE_TO")
}

pub fn api_credential_key() -> (k: String)
    ensures
        k@ == spec_api_credential_key(),
{
    String::from_str("OPENAI_API_KEY")
}

/// Decides the configuration of one job from the provider's raw answers.
///
/// The target-language lookup is examined first, so its failure wins over a
/// failure of the credential lookup. A missing key and a non-string value are
/// distinct errors, each naming the key that failed.
pub fn read_config(target_language: Option<ConfigValue>, api_credential: Option<ConfigValue>) -> (r:
    Result<TranslationConfig, TranslateError>)
    ensures
        target_language is None ==> (r matches Err(e) && e matches
            TranslateError::ConfigKeyMissing { key } && key@ == spec_target_language_key()),
        target_language matches Some(ConfigValue::Other) ==> (r matches Err(e) && e matches
            TranslateError::ConfigValueInvalid { key } && key@ == spec_target_language_key()),
        target_language matches Some(ConfigValue::Text(_)) ==> (api_credential is None ==> (
        r matches Err(e) && e matches TranslateError::ConfigKeyMissing { key } && key@
            == spec_api_credential_key())),
        target_language matches Some(ConfigValue::Text(_)) ==> (api_credential matches Some(
            ConfigValue::Other,
        ) ==> (r matches Err(e) && e matches TranslateError::ConfigValueInvalid { key } && key@
            == spec_api_credential_key())),
        target_language matches Some(ConfigValue::Text(lang)) ==> (api_credential matches Some(
            ConfigValue::Text(cred),
        ) ==> (r matches Ok(c) && c.target_language == lang && c.api_credential == cred)),
{
    let lang = match target_language {
        None => {
            return Err(TranslateError::ConfigKeyMissing { key: target_language_key() });
        },
        Some(ConfigValue::Other) => {
            return Err(TranslateError::ConfigValueInvalid { key: target_language_key() });
        },
        Some(ConfigValue::Text(lang)) => lang,
    };
    let cred = match api_credential {
        None => {
            return Err(TranslateError::ConfigKeyMissing { key: api_credential_key() });
        },
        Some(ConfigValue::Other) => {
            return Err(TranslateError::ConfigValueInvalid { key: api_credential_key() });
        },
        Some(ConfigValue::Text(cred)) => cred,
    };
    Ok(TranslationConfig { target_language: lang, api_credential: cred })
}

} // verus!
