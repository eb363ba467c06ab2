use vstd::prelude::*;

verus! {

/// Ways in which an inbound request frame can be malformed.
#[derive(Debug, Clone, Copy, PartialEq, Eq, Structural)]
pub enum ErrorKind {
    /// The frame is empty: there is no username length byte.
    MissingInitialLength,
    /// The frame ends before the announced number of username bytes.
    UnexpectedElement,
    /// The username bytes are not well-formed UTF-8 text.
    InvalidUsername,
}

/// The closed set of failure categories that cross a component boundary.
#[derive(Debug, Clone, Copy, PartialEq, Eq, Structural)]
pub enum Category {
    /// Socket or handshake failures.
    Transport,
    /// Malformed request framing.
    Protocol,
    /// Invalid text encoding.
    Decode,
    /// Failure to spawn or talk to the console tool.
    Process,
    /// Anything else.
    Misc,
}

/// What an error says about itself.
#[derive(Debug)]
pub enum Detail {
    /// A framing error of the request codec.
    Kind(ErrorKind),
    /// A free-form description, e.g. of a transport or process failure.
    Text(String),
}

/// An error of any component, tagged with its category.
#[derive(Debug)]
pub struct Error {
    pub category: Category,
    pub detail: Detail,
}

impl ErrorKind {
    /// Human-readable description of the framing error.
    pub open spec fn message(self) -> Seq<char> {
        match self {
            ErrorKind::MissingInitialLength => "Missing initial length specifier"@,
            ErrorKind::UnexpectedElement => "Unexpected element found"@,
            ErrorKind::InvalidUsername => "Username is not valid UTF-8"@,
        }
    }

    /// The category that a framing error falls under.
    pub open spec fn category(self) -> Category {
        match self {
            ErrorKind::InvalidUsername => Category::Decode,
            _ => Category::Protocol,
        }
    }

    /// The description of the framing error, as text.
    pub fn to_string(&self) -> (r: String)
        ensures
            r@ == self.message(),
    {
        let s = match self {
            ErrorKind::MissingInitialLength => "Missing initial length specifier",
            ErrorKind::UnexpectedElement => "Unexpected element found",
            ErrorKind::InvalidUsername => "Username is not valid UTF-8",
        };
        s.to_owned()
    }
}

impl Error {
    /// Human-readable description of the error.
    pub open spec fn message(&self) -> Seq<char> {
        match self.detail {
            Detail::Kind(k) => k.message(),
            Detail::Text(s) => s@,
        }
    }

    /// An error of the given category with a free-form description.
    pub fn new(category: Category, message: String) -> (r: Error)
        ensures
            r.category == category,
            r.message() == message@,
    {
        Error { category, detail: Detail::Text(message) }
    }

    /// The description of the error, as text.
    pub fn to_string(&self) -> (r: String)
        ensures
            r@ == self.message(),
    {
        match &self.detail {
            Detail::Kind(k) => k.to_string(),
            Detail::Text(s) => s.clone(),
        }
    }
}

impl From<ErrorKind> for Error {
    fn from(value: ErrorKind) -> (r: Error)
        ensures
            r.category == value.category(),
            r.detail == Detail::Kind(value),
    {
        let category = match value {
            ErrorKind::InvalidUsername => Category::Decode,
            _ => Category::Protocol,
        };
        Error { category, detail: Detail::Kind(value) }
    }
}

impl vstd::std_specs::convert::FromSpecImpl<ErrorKind> for Error {
    open spec fn obeys_from_spec() -> bool {
        true
    }

    open spec fn from_spec(v: ErrorKind) -> Error {
        Error { category: v.category(), detail: Detail::Kind(v) }
    }
}

} // verus!
