//! The lifecycle status of a record and its wire codes.

use vstd::prelude::*;
use crate::error::{CodecDomain, ModelError};
use crate::text::text_eq;

verus! {

/// Whether a record is live or marked for deletion.
#[derive(Debug, Clone, Copy, PartialEq, Eq, Hash, Structural)]
pub enum Status {
    Active,
    ToBeDeleted,
}

impl Status {
    /// The code that is written for the status.
    pub open spec fn code(self) -> Seq<char> {
        match self {
            Status::Active => "active"@,
            Status::ToBeDeleted => "tobedeleted"@,
        }
    }

    /// The status that `text` is read as, if it is a code. Besides the two
    /// codes that are written, the older `inactive` is read as
    /// [`Status::ToBeDeleted`].
    pub open spec fn decoded(text: Seq<char>) -> Option<Status> {
        if text == "active"@ {
            Some(Status::Active)
        } else if text == "tobedeleted"@ || text == "inactive"@ {
            Some(Status::ToBeDeleted)
        } else {
            None
        }
    }

    /// The wire code of the status.
    pub fn serialize(&self) -> (code: &'static str)
        ensures
            code@ == self.code(),
    {
        match self {
            Status::Active => "active",
            Status::ToBeDeleted => "tobedeleted",
        }
    }

    /// Reads a wire code.
    pub fn deserialize(text: &str) -> (r: Result<Status, ModelError>)
        ensures
            match r {
                Ok(status) => Status::decoded(text@) == Some(status),
                Err(e) => Status::decoded(text@) is None && e.is_unknown_code(
                    CodecDomain::Status,
                    text@,
                ),
            },
    {
        if text_eq(text, "active") {
            Ok(Status::Active)
        } else if text_eq(text, "tobedeleted") {
            Ok(Status::ToBeDeleted)
        } else if text_eq(text, "inactive") {
            Ok(Status::ToBeDeleted)
        } else {
            Err(ModelError::unknown_code(CodecDomain::Status, text))
        }
    }
}

/// Every status is read back from the code that is written for it.
pub proof fn lemma_status_code_round_trip(status: Status)
    ensures
        Status::decoded(status.code()) == Some(status),
{
    reveal_strlit("active");
    reveal_strlit("tobedeleted");
    assert("active"@.len() != "tobedeleted"@.len());
}

} // verus!
