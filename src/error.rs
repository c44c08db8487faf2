use vstd::prelude::*;

verus! {

/// Failures that the gateway reports to its callers.
#[derive(Debug)]
pub enum AppError {
    WebError(String),
    JsonError(String),
    IoError(String),
    RedisError(String),
    SendError(String),
    /// The registry has handed out every connection id it can represent.
    IdsExhausted,
    /// No fresh token could be minted without colliding with a live one.
    TokenUnavailable,
    /// The registry did not answer a connection with its identity.
    AuthenticationFailed,
}

/// The text of an error's report, as a sequence of characters.
pub open spec fn error_text(e: AppError) -> Seq<char> {
    "[Error]: "@ + match e {
        AppError::WebError(m) => "WebError: "@ + m@,
        AppError::JsonError(m) => "JsonError: "@ + m@,
        AppError::IoError(m) => "IoError: "@ + m@,
        AppError::RedisError(m) => "RedisError: "@ + m@,
        AppError::SendError(m) => "SendError: "@ + m@,
        AppError::IdsExhausted => "IdsExhausted"@,
        AppError::TokenUnavailable => "TokenUnavailable"@,
        AppError::AuthenticationFailed => "AuthenticationFailed"@,
    }
}

impl AppError {
    /// Renders the error as `[Error]: <Kind>: <message>`.
    pub fn describe(&self) -> (r: String)
        ensures
            r@ == error_text(*self),
    {
        let mut out = String::new();
        out.append("[Error]: ");
        match self {
            AppError::WebError(m) => {
                out.append("WebError: ");
                out.append(m.as_str());
            },
            AppError::JsonError(m) => {
                out.append("JsonError: ");
                out.append(m.as_str());
            },
            AppError::IoError(m) => {
                out.append("IoError: ");
                out.append(m.as_str());
            },
            AppError::RedisError(m) => {
                out.append("RedisError: ");
                out.append(m.as_str());
            },
            AppError::SendError(m) => {
                out.append("SendError: ");
                out.append(m.as_str());
            },
            AppError::IdsExhausted => out.append("IdsExhausted"),
            AppError::TokenUnavailable => out.append("TokenUnavailable"),
            AppError::AuthenticationFailed => out.append("AuthenticationFailed"),
        }
        out
    }
}

} // verus!
