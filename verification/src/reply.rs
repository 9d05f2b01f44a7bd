//! The replies of the user endpoints.
use vstd::prelude::*;

verus! {

/// An HTTP reply: a status with either the endpoint's JSON payload, which
/// the caller serialises, or a plain-text body.
#[derive(Debug)]
pub enum Reply {
    Json { status: u16 },
    Text { status: u16, body: String },
}

impl Reply {
    /// The status of the reply.
    pub open spec fn status_of(self) -> u16 {
        match self {
            Reply::Json { status } => status,
            Reply::Text { status, .. } => status,
        }
    }

    /// Whether the reply is plain text with the given status and body.
    pub open spec fn is_text(self, status: u16, body: Seq<char>) -> bool {
        match self {
            Reply::Json { .. } => false,
            Reply::Text { status: s, body: b } => s == status && b@ == body,
        }
    }

    /// Whether the reply is the JSON payload with the given status.
    pub open spec fn is_json(self, status: u16) -> bool {
        match self {
            Reply::Json { status: s } => s == status,
            Reply::Text { .. } => false,
        }
    }
}

/// The reply of the user listing: the users as JSON with status 200 when
/// they were fetched, else status 500 with `Error fetching users`.
pub fn user_listing_reply(fetched: bool) -> (r: Reply)
    ensures
        fetched ==> r.is_json(200),
        !fetched ==> r.is_text(500, "Error fetching users"@),
{
    if fetched {
        Reply::Json { status: 200 }
    } else {
        Reply::Text { status: 500, body: String::from_str("Error fetching users") }
    }
}

/// The reply of user creation: status 201 with `User created` when the row
/// was inserted, else status 500 with `Error creating user`.
pub fn user_creation_reply(inserted: bool) -> (r: Reply)
    ensures
        inserted ==> r.is_text(201, "User created"@),
        !inserted ==> r.is_text(500, "Error creating user"@),
{
    if inserted {
        Reply::Text { status: 201, body: String::from_str("User created") }
    } else {
        Reply::Text { status: 500, body: String::from_str("Error creating user") }
    }
}

} // verus!
