use pdf_translator::batch::collect_batch;
use pdf_translator::config::api_credential_key;
use pdf_translator::config::read_config;
use pdf_translator::config::target_language_key;
use pdf_translator::config::ConfigValue;
use pdf_translator::errors::TranslateError;

#[test]
fn keys_are_fixed() {
    assert_eq!(target_language_key(), "TRANSLATE_TO".to_string());
    assert_eq!(api_credential_key(), "OPENAI_API_KEY".to_string());
}

#[test]
fn missing_target_language_is_a_missing_key() {
    let r = read_config(None, Some(ConfigValue::Text("k".to_string())));
    let e = r.unwrap_err();
    assert_eq!(
        e,
        TranslateError::ConfigKeyMissing { key: "TRANSLATE_TO".to_string() }
    );
    assert_eq!(e.message(), "TRANSLATE_TO not found in store");
}

#[test]
fn non_string_target_language_is_invalid() {
    let r = read_config(Some(ConfigValue::Other), Some(ConfigValue::Text("k".to_string())));
    let e = r.unwrap_err();
    assert_eq!(
        e,
        TranslateError::ConfigValueInvalid { key: "TRANSLATE_TO".to_string() }
    );
    assert_eq!(e.message(), "TRANSLATE_TO is not a valid string");
}

#[test]
fn missing_credential_is_a_missing_key() {
    let r = read_config(Some(ConfigValue::Text("French".to_string())), None);
    let e = r.unwrap_err();
    assert_eq!(
        e,
        TranslateError::ConfigKeyMissing { key: "OPENAI_API_KEY".to_string() }
    );
    assert_eq!(e.message(), "OPENAI_API_KEY not found in store");
}

#[test]
fn non_string_credential_is_invalid() {
    let r = read_config(
        Some(ConfigValue::Text("French".to_string())),
        Some(ConfigValue::Other),
    );
    let e = r.unwrap_err();
    assert_eq!(
        e,
        TranslateError::ConfigValueInvalid { key: "OPENAI_API_KEY".to_string() }
    );
    assert_eq!(e.message(), "OPENAI_API_KEY is not a valid string");
}

#[test]
fn target_language_failure_wins_over_credential_failure() {
    let r = read_config(None, None);
    assert_eq!(
        r.unwrap_err(),
        TranslateError::ConfigKeyMissing { key: "TRANSLATE_TO".to_string() }
    );
}

#[test]
fn both_strings_make_a_config() {
    let c = read_config(
        Some(ConfigValue::Text("French".to_string())),
        Some(ConfigValue::Text("test-credential".to_string())),
    )
    .unwrap();
    assert_eq!(c.target_language, "French");
    assert_eq!(c.api_credential, "test-credential");
}

#[test]
fn missing_key_fails_the_whole_batch() {
    let e = read_config(None, Some(ConfigValue::Text("k".to_string()))).unwrap_err();
    let results = vec![
        Err(e.message()),
        Ok("b_out.pdf".to_string()),
    ];
    assert_eq!(
        collect_batch(results),
        Err("TRANSLATE_TO not found in store".to_string())
    );
}
