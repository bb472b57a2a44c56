use vstd::prelude::*;
use vstd::string::StringExecFns;

verus! {

/// A typed outcome of a failed (or success-adjacent) service call, shaped
/// for the response envelope: an explanatory message, the HTTP status the
/// boundary layer should answer with, and the envelope's success flag.
#[derive(Debug)]
pub struct ServiceError {
    pub message: String,
    pub success: bool,
    pub status: u16,
}

impl ServiceError {
    /// A duplicate email on create: rejected as unprocessable.
    pub open spec fn is_conflict(&self) -> bool {
        &&& self.status == 422
        &&& !self.success
    }

    /// A referenced identifier that does not exist.
    pub open spec fn is_not_found(&self) -> bool {
        &&& self.status == 404
        &&& !self.success
    }

    /// The success-adjacent "already verified" condition, surfaced through
    /// the error channel with the success flag set.
    pub open spec fn is_already_verified(&self) -> bool {
        &&& self.status == 200
        &&& self.success
    }

    /// A collaborator failed; the call was not retried.
    pub open spec fn is_operational(&self) -> bool {
        &&& self.status == 500
        &&& !self.success
    }

    /// The error rendered as one line of text.
    pub fn describe(&self) -> (r: String)
        ensures
            r@ == "UserError: "@ + self.message@,
    {
        let mut text = String::from_str("UserError: ");
        text.append(self.message.as_str());
        text
    }
}

/// What a message that embeds one value between fixed pieces of text says.
pub open spec fn bracketed(prefix: Seq<char>, value: Seq<char>, suffix: Seq<char>) -> Seq<char> {
    prefix + value + suffix
}

/// Builds a message that embeds one value between fixed pieces of text.
pub fn bracketed_message(prefix: &str, value: &str, suffix: &str) -> (r: String)
    ensures
        r@ == bracketed(prefix@, value@, suffix@),
{
    let mut text = String::from_str(prefix);
    text.append(value);
    text.append(suffix);
    text
}

} // verus!
