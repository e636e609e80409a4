use vstd::prelude::*;

use crate::text::{has_prefix, starts_with};

verus! {

pub const MOONSHOT_URL: &'static str = "https://api.moonshot.cn/v1/chat/completions";

pub const QWEN_URL: &'static str =
    "https://dashscope.aliyuncs.com/compatible-mode/v1/chat/completions";

pub const GPT_URL: &'static str = "https://api.openai.com/v1/chat/completions";

pub const GEMINI_URL: &'static str =
    "https://generativelanguage.googleapis.com/v1beta/openai/chat/completions";

pub const DOUBAO_URL: &'static str = "https://ark.cn-beijing.volces.com/api/v3/chat/completions";

pub const GLM_URL: &'static str = "https://open.bigmodel.cn/api/paas/v4/chat/completions";

pub const DEEPSEEK_URL: &'static str = "https://api.deepseek.com/chat/completions";

pub const QIANFAN_URL: &'static str = "https://qianfan.baidubce.com/v2/chat/completions";

/// The endpoint known for a model, by the first matching name prefix.
pub open spec fn url_for_model(model: Seq<char>) -> Option<Seq<char>> {
    if has_prefix(model, "moonshot"@) {
        Some(MOONSHOT_URL@)
    } else if has_prefix(model, "qwen"@) {
        Some(QWEN_URL@)
    } else if has_prefix(model, "gpt"@) {
        Some(GPT_URL@)
    } else if has_prefix(model, "gemini"@) {
        Some(GEMINI_URL@)
    } else if has_prefix(model, "doubao"@) {
        Some(DOUBAO_URL@)
    } else if has_prefix(model, "glm"@) {
        Some(GLM_URL@)
    } else if has_prefix(model, "deepseek"@) {
        Some(DEEPSEEK_URL@)
    } else if has_prefix(model, "qianfan"@) {
        Some(QIANFAN_URL@)
    } else {
        None
    }
}

/// The view of an optional string.
pub open spec fn opt_view(s: Option<String>) -> Option<Seq<char>> {
    match s {
        Some(t) => Some(t@),
        None => None,
    }
}

/// Returns the default endpoint for a model name, if its prefix is known.
pub fn get_url_by_model(model_name: &str) -> (r: Option<String>)
    ensures
        opt_view(r) == url_for_model(model_name@),
{
    if starts_with(model_name, "moonshot") {
        return Some(MOONSHOT_URL.to_string());
    }
    if starts_with(model_name, "qwen") {
        return Some(QWEN_URL.to_string());
    }
    if starts_with(model_name, "gpt") {
        return Some(GPT_URL.to_string());
    }
    if starts_with(model_name, "gemini") {
        return Some(GEMINI_URL.to_string());
    }
    if starts_with(model_name, "doubao") {
        return Some(DOUBAO_URL.to_string());
    }
    if starts_with(model_name, "glm") {
        return Some(GLM_URL.to_string());
    }
    if starts_with(model_name, "deepseek") {
        return Some(DEEPSEEK_URL.to_string());
    }
    if starts_with(model_name, "qianfan") {
        return Some(QIANFAN_URL.to_string());
    }
    None
}

/// The endpoint a request goes to: the configured one when it is an
/// absolute `http` address, else the one known for the model.
pub open spec fn endpoint_for(url: Seq<char>, model: Seq<char>) -> Option<Seq<char>> {
    if has_prefix(url, "http"@) {
        Some(url)
    } else {
        url_for_model(model)
    }
}

/// Resolves the endpoint of a chat request; `None` when the configured one
/// is not an address and the model is not known.
pub fn resolve_endpoint(url: &str, model_name: &str) -> (r: Option<String>)
    ensures
        opt_view(r) == endpoint_for(url@, model_name@),
{
    if starts_with(url, "http") {
        Some(url.to_string())
    } else {
        get_url_by_model(model_name)
    }
}

} // verus!
