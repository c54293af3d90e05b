use vstd::prelude::*;

verus! {

/// The kind of record that a lookup did not find.
#[derive(Debug, Clone, Copy, PartialEq, Eq, Structural)]
pub enum ItemType {
    Score,
    Variation,
    User,
}

/// The errors that a request can end in.
#[derive(Debug, Clone, PartialEq, Eq)]
pub enum Error {
    Internal(String),
    Unauthorized,
    InvalidWeapons,
    NotFound(ItemType),
    Conflict,
    UnvalidatedConstraints,
}

pub type Result<T> = std::result::Result<T, Error>;

/// What an answer to a request carries besides its status code.
#[derive(Debug, Clone, PartialEq, Eq)]
pub enum ReplyBody {
    /// `{"error": message}`
    Error(String),
    /// `{"status": message}`
    Status(String),
    /// `{"status": "high score", "id": id}`
    HighScore(i64),
    /// `{"id": id}`
    Created(i64),
}

/// An answer to a request: an HTTP status code and a body.
#[derive(Debug, Clone, PartialEq, Eq)]
pub struct Reply {
    pub status: u16,
    pub body: ReplyBody,
}

/// The name under which an item type is printed.
pub open spec fn item_type_name(t: ItemType) -> Seq<char> {
    match t {
        ItemType::Score => "Score"@,
        ItemType::Variation => "Variation"@,
        ItemType::User => "User"@,
    }
}

/// The text of an error, as users of the service read it.
pub open spec fn error_text(e: Error) -> Seq<char> {
    match e {
        Error::Internal(m) => "Internal error: "@ + m@,
        Error::Unauthorized => "Unauthorized access"@,
        Error::InvalidWeapons => "Provided weapons list is invalid"@,
        Error::NotFound(t) => item_type_name(t) + " not found"@,
        Error::Conflict => "Item already exists"@,
        Error::UnvalidatedConstraints => "Steam ID, score and progress must be positive"@,
    }
}

/// The HTTP status code that answers an error.
pub open spec fn error_status(e: Error) -> u16 {
    match e {
        Error::Internal(_) => 500,
        Error::Unauthorized => 401,
        Error::InvalidWeapons => 400,
        Error::NotFound(_) => 404,
        Error::Conflict => 409,
        Error::UnvalidatedConstraints => 400,
    }
}

/// The message that the body of the answer to an error carries: an internal
/// error shows its own message alone, every other error its full text.
pub open spec fn error_reply_message(e: Error) -> Seq<char> {
    match e {
        Error::Internal(m) => m@,
        _ => error_text(e),
    }
}

impl ItemType {
    /// The name under which this item type is printed.
    pub fn name(&self) -> (r: &'static str)
        ensures
            r@ == item_type_name(*self),
    {
        match self {
            ItemType::Score => "Score",
            ItemType::Variation => "Variation",
            ItemType::User => "User",
        }
    }
}

impl Error {
    /// The text of this error.
    pub fn message(&self) -> (r: String)
        ensures
            r@ == error_text(*self),
    {
        match self {
            Error::Internal(m) => {
                let mut s = String::from_str("Internal error: ");
                s.append(m.as_str());
                s
            },
            Error::Unauthorized => String::from_str("Unauthorized access"),
            Error::InvalidWeapons => String::from_str("Provided weapons list is invalid"),
            Error::NotFound(t) => {
                let mut s = String::from_str(t.name());
                s.append(" not found");
                s
            },
            Error::Conflict => String::from_str("Item already exists"),
            Error::UnvalidatedConstraints => String::from_str(
                "Steam ID, score and progress must be positive",
            ),
        }
    }

    /// The answer to a request that ended in this error.
    pub fn into_reply(self) -> (r: Reply)
        ensures
            r.status == error_status(self),
            r.body matches ReplyBody::Error(m) && m@ == error_reply_message(self),
    {
        let status: u16 = match &self {
            Error::Internal(_) => 500,
            Error::Unauthorized => 401,
            Error::InvalidWeapons => 400,
            Error::NotFound(_) => 404,
            Error::Conflict => 409,
            Error::UnvalidatedConstraints => 400,
        };
        let msg = match self {
            Error::Internal(m) => m,
            other => other.message(),
        };
        Reply { status, body: ReplyBody::Error(msg) }
    }
}

} // verus!
