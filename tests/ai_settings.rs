use gim::ai::{get_validated_ai_config, mask_api_key, AiConfigError, AiField, AiSection};
use gim::output::{is_quiet, is_verbose, set_quiet, set_verbose, shows_normal, shows_verbose, OutputMode};

fn section() -> AiSection {
    AiSection {
        url: Some("https://h/v1".to_string()),
        model: Some("gpt-4".to_string()),
        apikey: Some("k".to_string()),
        language: Some("English".to_string()),
    }
}

#[test]
fn complete_settings_validate() {
    let c = get_validated_ai_config(Some(section())).ok().unwrap();
    assert_eq!((c.url.as_str(), c.model.as_str(), c.api_key.as_str(), c.language.as_str()), ("https://h/v1", "gpt-4", "k", "English"));
}

#[test]
fn first_missing_setting_is_reported() {
    let err = |s: Option<AiSection>| get_validated_ai_config(s).err().unwrap();
    assert_eq!(err(None), AiConfigError::NotConfigured);
    let mut s = section();
    s.url = None;
    s.apikey = None;
    assert_eq!(err(Some(s)), AiConfigError::Missing { field: AiField::Url });
    let mut s = section();
    s.model = None;
    assert_eq!(err(Some(s)), AiConfigError::Missing { field: AiField::Model });
    let mut s = section();
    s.apikey = None;
    assert_eq!(err(Some(s)), AiConfigError::Missing { field: AiField::ApiKey });
    let mut s = section();
    s.language = None;
    assert_eq!(err(Some(s)), AiConfigError::Missing { field: AiField::Language });
    assert_eq!(AiConfigError::Missing { field: AiField::ApiKey }.message(), "Error: Missing 'apikey' in AI config");
    assert_eq!(AiConfigError::NotConfigured.message(), "Error: ai section is not configured, abort");
}

#[test]
fn api_key_is_masked() {
    assert_eq!(mask_api_key("sk-1234567890"), "sk-12345***");
    assert_eq!(mask_api_key("12345678"), "***");
    assert_eq!(mask_api_key(""), "***");
}

#[test]
fn output_flags() {
    let mut m = OutputMode::new();
    assert!(!is_verbose(&m) && !is_quiet(&m));
    set_verbose(&mut m, true);
    assert!(is_verbose(&m) && shows_verbose(&m) && shows_normal(&m));
    set_quiet(&mut m, true);
    assert!(is_quiet(&m) && is_verbose(&m) && !shows_verbose(&m) && !shows_normal(&m));
}
