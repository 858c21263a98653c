use vstd::prelude::*;
use vstd::string::StringExecFns;

verus! {

/// Every failure the request pipeline can report.
pub enum Error {
    Auth(String),
    Network(String),
    Api(String),
    StaticFile(String),
    Internal(String),
}

pub type Result<T> = core::result::Result<T, Error>;

/// The category word that leads the rendered message of each variant.
pub open spec fn category_spec(e: &Error) -> Seq<char> {
    match e {
        Error::Auth(_) => "Authentication"@,
        Error::Network(_) => "Network simulation"@,
        Error::Api(_) => "API"@,
        Error::StaticFile(_) => "Static file"@,
        Error::Internal(_) => "Internal"@,
    }
}

pub open spec fn message_spec(e: &Error) -> Seq<char> {
    match e {
        Error::Auth(m) => m@,
        Error::Network(m) => m@,
        Error::Api(m) => m@,
        Error::StaticFile(m) => m@,
        Error::Internal(m) => m@,
    }
}

/// The rendered form `"<Category> error: <message>"`.
pub open spec fn render_spec(e: &Error) -> Seq<char> {
    category_spec(e) + " error: "@ + message_spec(e)
}

impl Error {
    /// The descriptive message carried by the variant.
    pub fn message(&self) -> (r: &String)
        ensures
            r@ == message_spec(self),
    {
        match self {
            Error::Auth(m) => m,
            Error::Network(m) => m,
            Error::Api(m) => m,
            Error::StaticFile(m) => m,
            Error::Internal(m) => m,
        }
    }

    /// The human-readable, stable rendering of the error.
    pub fn to_string(&self) -> (r: String)
        ensures
            r@ == render_spec(self),
    {
        let category: &str = match self {
            Error::Auth(_) => "Authentication",
            Error::Network(_) => "Network simulation",
            Error::Api(_) => "API",
            Error::StaticFile(_) => "Static file",
            Error::Internal(_) => "Internal",
        };
        let mut r = String::from_str(category);
        r.append(" error: ");
        r.append(self.message().as_str());
        r
    }
}

} // verus!
