use vstd::prelude::*;
use vstd::string::StringSliceAdditionalSpecFns;
use vstd::utf8::{decode_utf8, encode_utf8_decode_utf8, encode_utf8_valid_utf8, is_char_boundary};

verus! {

/// The string settings found in the stored `ai` section, each `None` when
/// the key is absent or does not hold a string.
pub struct AiSection {
    pub url: Option<String>,
    pub model: Option<String>,
    pub apikey: Option<String>,
    pub language: Option<String>,
}

/// The settings a chat request needs, all present.
pub struct AiConfig {
    pub url: String,
    pub model: String,
    pub api_key: String,
    pub language: String,
}

/// A setting of the `ai` section.
#[derive(Debug, Clone, Copy, PartialEq, Eq, Structural)]
pub enum AiField {
    Url,
    Model,
    ApiKey,
    Language,
}

/// Why the stored settings cannot drive a chat request.
#[derive(Debug, Clone, Copy, PartialEq, Eq, Structural)]
pub enum AiConfigError {
    /// The configuration could not be read, or has no `ai` section.
    NotConfigured,
    /// The first setting, in checking order, that is missing.
    Missing { field: AiField },
}

/// The outcome of validation: the settings when all four are there, else
/// the first missing one in the order url, model, key, language.
pub open spec fn validated(section: Option<AiSection>) -> Result<(Seq<char>, Seq<char>, Seq<char>, Seq<char>), AiConfigError> {
    match section {
        None => Err(AiConfigError::NotConfigured),
        Some(s) => if s.url is None {
            Err(AiConfigError::Missing { field: AiField::Url })
        } else if s.model is None {
            Err(AiConfigError::Missing { field: AiField::Model })
        } else if s.apikey is None {
            Err(AiConfigError::Missing { field: AiField::ApiKey })
        } else if s.language is None {
            Err(AiConfigError::Missing { field: AiField::Language })
        } else {
            Ok((s.url->Some_0@, s.model->Some_0@, s.apikey->Some_0@, s.language->Some_0@))
        },
    }
}

/// The view of a validation result.
pub open spec fn config_view(r: Result<AiConfig, AiConfigError>) -> Result<(Seq<char>, Seq<char>, Seq<char>, Seq<char>), AiConfigError> {
    match r {
        Ok(c) => Ok((c.url@, c.model@, c.api_key@, c.language@)),
        Err(e) => Err(e),
    }
}

/// Checks that the `ai` section holds an endpoint, a model, a key and a
/// language, in that order, and stops at the first one missing.
pub fn get_validated_ai_config(section: Option<AiSection>) -> (r: Result<AiConfig, AiConfigError>)
    ensures
        config_view(r) == validated(section),
{
    match section {
        None => Err(AiConfigError::NotConfigured),
        Some(s) => {
            let url = match s.url {
                Some(v) => v,
                None => return Err(AiConfigError::Missing { field: AiField::Url }),
            };
            let model = match s.model {
                Some(v) => v,
                None => return Err(AiConfigError::Missing { field: AiField::Model }),
            };
            let api_key = match s.apikey {
                Some(v) => v,
                None => return Err(AiConfigError::Missing { field: AiField::ApiKey }),
            };
            let language = match s.language {
                Some(v) => v,
                None => return Err(AiConfigError::Missing { field: AiField::Language }),
            };
            Ok(AiConfig { url, model, api_key, language })
        },
    }
}

/// The text shown for a validation failure.
pub open spec fn config_error_text(e: AiConfigError) -> Seq<char> {
    match e {
        AiConfigError::NotConfigured => "Error: ai section is not configured, abort"@,
        AiConfigError::Missing { field: AiField::Url } => "Error: Missing 'url' in AI config"@,
        AiConfigError::Missing { field: AiField::Model } => "Error: Missing 'model' in AI config"@,
        AiConfigError::Missing { field: AiField::ApiKey } => "Error: Missing 'apikey' in AI config"@,
        AiConfigError::Missing { field: AiField::Language } => "Error: Missing 'language' in AI config"@,
    }
}

impl AiConfigError {
    /// The one-line message that names what is missing.
    pub fn message(&self) -> (r: String)
        ensures
            r@ == config_error_text(*self),
    {
        match self {
            AiConfigError::NotConfigured => "Error: ai section is not configured, abort".to_string(),
            AiConfigError::Missing { field: AiField::Url } => "Error: Missing 'url' in AI config".to_string(),
            AiConfigError::Missing { field: AiField::Model } => "Error: Missing 'model' in AI config".to_string(),
            AiConfigError::Missing { field: AiField::ApiKey } => "Error: Missing 'apikey' in AI config".to_string(),
            AiConfigError::Missing { field: AiField::Language } => "Error: Missing 'language' in AI config".to_string(),
        }
    }
}

/// Masks an API key for display: `***` for a key of at most eight bytes,
/// else its first eight bytes followed by `***`.
pub fn mask_api_key(api_key: &str) -> (r: String)
    requires
        api_key.spec_bytes().len() <= usize::MAX,
        api_key.spec_bytes().len() > 8 ==> is_char_boundary(api_key.spec_bytes(), 8),
    ensures
        api_key.spec_bytes().len() <= 8 ==> r@ == "***"@,
        api_key.spec_bytes().len() > 8 ==> r@ == decode_utf8(api_key.spec_bytes().subrange(0, 8))
            + "***"@,
{
    if api_key.len() <= 8 {
        "***".to_string()
    } else {
        let (head, _) = api_key.split_at(8);
        proof {
            encode_utf8_decode_utf8(head@);
            encode_utf8_valid_utf8(api_key@);
        }
        let mut r = head.to_string();
        r.append("***");
        r
    }
}

} // verus!
