use vstd::prelude::*;
use vstd::string::*;

verus! {

/// What can go wrong in a session.
#[derive(Debug)]
pub enum ChatError {
    /// The API key is missing or empty.
    ConfigurationError,
    /// The server answered with a status outside 200..=299.
    RequestFailed { status: u16, body: String },
    /// The answer could not be read as a chat response.
    MalformedResponse,
    /// The request did not reach the server, or its answer was lost.
    TransportError(String),
}

/// The API key, when one is given and it is not empty.
pub fn check_api_key(key: Option<String>) -> (r: Result<String, ChatError>)
    ensures
        match key {
            Some(k) if k@.len() > 0 => r matches Ok(s) && s@ == k@,
            _ => r matches Err(ChatError::ConfigurationError),
        },
{
    match key {
        Some(k) => {
            if k.as_str().unicode_len() > 0 {
                Ok(k)
            } else {
                Err(ChatError::ConfigurationError)
            }
        },
        None => Err(ChatError::ConfigurationError),
    }
}

/// The one-line description of an error.
pub open spec fn description(e: ChatError) -> Seq<char> {
    match e {
        ChatError::ConfigurationError => "the API key is missing"@,
        ChatError::RequestFailed { body, .. } => "request failed: "@ + body@,
        ChatError::MalformedResponse => "the response could not be decoded"@,
        ChatError::TransportError(m) => "transport failure: "@ + m@,
    }
}

impl ChatError {
    /// A one-line description of the error for the person at the terminal.
    pub fn describe(&self) -> (r: String)
        ensures
            r@ == description(*self),
    {
        match self {
            ChatError::ConfigurationError => String::from_str("the API key is missing"),
            ChatError::RequestFailed { body, .. } => {
                String::from_str("request failed: ").concat(body.as_str())
            },
            ChatError::MalformedResponse => String::from_str("the response could not be decoded"),
            ChatError::TransportError(m) => String::from_str("transport failure: ").concat(m.as_str()),
        }
    }
}

} // verus!
