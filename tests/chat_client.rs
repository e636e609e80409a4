use gim::client::{
    get_url_by_model, resolve_endpoint, DEEPSEEK_URL, DOUBAO_URL, GEMINI_URL, GLM_URL, GPT_URL,
    MOONSHOT_URL, QIANFAN_URL, QWEN_URL,
};
use gim::types::{check_status, interpret_response, ChatError, Choice, Message, Request, Response, ResponseError};

#[test]
fn known_model_prefixes() {
    assert_eq!(get_url_by_model("gpt-4"), Some(GPT_URL.to_string()));
    assert_eq!(get_url_by_model("qwen-max"), Some(QWEN_URL.to_string()));
    assert_eq!(get_url_by_model("unknown-model"), None);
    assert_eq!(get_url_by_model("moonshot-v1-8k"), Some(MOONSHOT_URL.to_string()));
    assert_eq!(get_url_by_model("gemini-2.0-flash"), Some(GEMINI_URL.to_string()));
    assert_eq!(get_url_by_model("doubao-pro"), Some(DOUBAO_URL.to_string()));
    assert_eq!(get_url_by_model("glm-4"), Some(GLM_URL.to_string()));
    assert_eq!(get_url_by_model("deepseek-chat"), Some(DEEPSEEK_URL.to_string()));
    assert_eq!(get_url_by_model("qianfan-x"), Some(QIANFAN_URL.to_string()));
    assert_eq!(get_url_by_model("GPT-4"), None);
    assert_eq!(get_url_by_model(""), None);
}

#[test]
fn endpoint_prefers_configured_address() {
    assert_eq!(resolve_endpoint("https://my.host/v1", "gpt-4"), Some("https://my.host/v1".to_string()));
    assert_eq!(resolve_endpoint("", "gpt-4"), Some(GPT_URL.to_string()));
    assert_eq!(resolve_endpoint("my.host", "other"), None);
}

#[test]
fn request_holds_user_then_system() {
    let r = Request::new("m".to_string(), Some("sys".to_string()), "usr".to_string());
    assert_eq!(r.model, "m");
    assert_eq!(r.messages.len(), 2);
    assert_eq!((r.messages[0].role.as_str(), r.messages[0].content.as_str()), ("user", "usr"));
    assert_eq!((r.messages[1].role.as_str(), r.messages[1].content.as_str()), ("system", "sys"));
    assert!(!r.stream && !r.extra_body.enable_thinking);
    let r = Request::new("m".to_string(), None, "u".to_string());
    assert_eq!(r.messages.len(), 1);
}

#[test]
fn status_from_400_fails() {
    assert!(check_status(200).is_ok());
    assert!(check_status(399).is_ok());
    assert!(matches!(check_status(400), Err(ChatError::Status { code: 400 })));
    assert!(matches!(check_status(503), Err(ChatError::Status { code: 503 })));
}

#[test]
fn response_content_or_error() {
    let ok = Response {
        choices: Some(vec![Choice {
            message: Message { role: "assistant".to_string(), content: "hi".to_string() },
            finish_reason: "stop".to_string(),
        }]),
        error: None,
    };
    assert_eq!(interpret_response(&ok).ok(), Some("hi".to_string()));
    let err = Response {
        choices: None,
        error: Some(ResponseError { message: "bad key".to_string(), error_type: None }),
    };
    match interpret_response(&err) {
        Err(ChatError::Api { message }) => assert_eq!(message, "bad key"),
        _ => panic!("expected an API error"),
    }
    let empty = Response {
        choices: Some(vec![]),
        error: Some(ResponseError { message: "ignored".to_string(), error_type: None }),
    };
    assert!(matches!(interpret_response(&empty), Err(ChatError::Unknown)));
    let none = Response { choices: None, error: None };
    assert!(matches!(interpret_response(&none), Err(ChatError::Unknown)));
}
