use vstd::prelude::*;

verus! {

/// An error met while talking to the outside services.
#[derive(Debug, Clone, PartialEq, Eq)]
pub enum Error {
    GitHubError(String),
    OctocrabError(String),
    TwitterError(String),
    Misc(String),
}

/// The message of an error: what failed, then the detail.
pub open spec fn error_message(e: Error) -> Seq<char> {
    match e {
        Error::GitHubError(d) => "GitHub error: "@ + d@,
        Error::OctocrabError(d) => "Octocrab error: "@ + d@,
        Error::TwitterError(d) => "Twitter error: "@ + d@,
        Error::Misc(d) => "Misc error: "@ + d@,
    }
}

impl Error {
    /// The message of the error.
    pub fn message(&self) -> (r: String)
        ensures
            r@ == error_message(*self),
    {
        let (mut text, detail) = match self {
            Error::GitHubError(d) => (String::from_str("GitHub error: "), d),
            Error::OctocrabError(d) => (String::from_str("Octocrab error: "), d),
            Error::TwitterError(d) => (String::from_str("Twitter error: "), d),
            Error::Misc(d) => (String::from_str("Misc error: "), d),
        };
        text.append(detail.as_str());
        text
    }
}

} // verus!
