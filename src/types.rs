use vstd::prelude::*;

verus! {

/// One message of a chat exchange.
pub struct Message {
    pub role: String,
    pub content: String,
}

/// Provider options sent with every request.
pub struct RequestExtraBody {
    pub enable_thinking: bool,
}

/// A chat request. Its sampling temperature is fixed and added where the
/// request is encoded.
pub struct Request {
    pub model: String,
    pub messages: Vec<Message>,
    pub stream: bool,
    pub extra_body: RequestExtraBody,
}

/// One answer of the service.
pub struct Choice {
    pub message: Message,
    pub finish_reason: String,
}

/// The error object the service may answer with.
pub struct ResponseError {
    pub message: String,
    pub error_type: Option<String>,
}

/// The answer of the service: a list of choices, or an error object.
pub struct Response {
    pub choices: Option<Vec<Choice>>,
    pub error: Option<ResponseError>,
}

/// Why a chat request gave no content.
pub enum ChatError {
    /// The service answered with an HTTP status of 400 or above.
    Status { code: u16 },
    /// The service answered with an error object.
    Api { message: String },
    /// The answer held neither choices nor an error object.
    Unknown,
    /// The request could not be sent, or its answer not read or decoded.
    Transport { message: String },
}

impl Request {
    /// A request to `model` holding the user message, followed by the
    /// system message when there is one; not streamed, without extended
    /// reasoning.
    pub fn new(model: String, system: Option<String>, user: String) -> (r: Request)
        ensures
            r.model@ == model@,
            !r.stream,
            !r.extra_body.enable_thinking,
            r.messages@.len() == if system is Some { 2int } else { 1int },
            r.messages@[0].role@ == "user"@,
            r.messages@[0].content@ == user@,
            system is Some ==> r.messages@[1].role@ == "system"@ && r.messages@[1].content@
                == system->Some_0@,
    {
        let mut messages: Vec<Message> = Vec::new();
        messages.push(Message { role: "user".to_string(), content: user });
        match system {
            Some(text) => {
                messages.push(Message { role: "system".to_string(), content: text });
            },
            None => {},
        }
        Request {
            model,
            messages,
            stream: false,
            extra_body: RequestExtraBody { enable_thinking: false },
        }
    }
}

/// Turns an HTTP status into a failure when it is 400 or above.
pub fn check_status(code: u16) -> (r: Result<(), ChatError>)
    ensures
        code < 400 <==> r is Ok,
        code >= 400 ==> (r matches Err(ChatError::Status { code: c }) && c == code),
{
    if code >= 400 {
        Err(ChatError::Status { code })
    } else {
        Ok(())
    }
}

/// Reads the content out of a decoded answer: the first choice's message
/// when there is one, else the error object's message when there are no
/// choices, else an unknown failure.
pub fn interpret_response(res: &Response) -> (r: Result<String, ChatError>)
    ensures
        res.choices is Some && res.choices->Some_0@.len() > 0 ==> r is Ok && r->Ok_0@
            == res.choices->Some_0@[0].message.content@,
        res.choices is Some && res.choices->Some_0@.len() == 0 ==> r matches Err(
            ChatError::Unknown,
        ),
        res.choices is None && res.error is Some ==> (r matches Err(ChatError::Api { message })
            && message@ == res.error->Some_0.message@),
        res.choices is None && res.error is None ==> r matches Err(ChatError::Unknown),
{
    match &res.choices {
        Some(choices) => {
            if choices.len() > 0 {
                Ok(choices[0].message.content.clone())
            } else {
                Err(ChatError::Unknown)
            }
        },
        None => match &res.error {
            Some(e) => Err(ChatError::Api { message: e.message.clone() }),
            None => Err(ChatError::Unknown),
        },
    }
}

} // verus!
