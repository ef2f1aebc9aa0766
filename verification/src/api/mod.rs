use vstd::prelude::*;

pub mod spotify;

pub use spotify::SpotifyApi;

verus! {

/// The error body of the widget endpoint: a stable code, a generic message,
/// and details that the handler's own error paths always leave empty, so that
/// upstream diagnostic text never reaches the public widget.
#[derive(Debug, PartialEq, Eq)]
pub struct ErrorResponse {
    pub code: String,
    pub message: String,
    pub details: Option<String>,
}

#[verifier::ext_equal]
pub struct ErrorResponseV {
    pub code: Seq<char>,
    pub message: Seq<char>,
    pub details: Option<Seq<char>>,
}

impl View for ErrorResponse {
    type V = ErrorResponseV;

    open spec fn view(&self) -> ErrorResponseV {
        ErrorResponseV {
            code: self.code@,
            message: self.message@,
            details: match self.details {
                Some(d) => Some(d@),
                None => None,
            },
        }
    }
}

} // verus!
