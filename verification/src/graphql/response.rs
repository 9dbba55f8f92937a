//! The response envelope: an object with the data, and with the errors
//! where there are any.

use vstd::prelude::*;
use vstd::string::{StrSliceExecFns, StringExecFns};

verus! {

/// The member that says of a refused document that it has no data.
pub open spec fn null_data() -> Seq<char> {
    "\"data\":null"@
}

/// The body of a refused document, with the member that says that there
/// is no data put in front of its other members. A body that is no
/// object stays as it is.
pub open spec fn refused_body(body: Seq<char>) -> Seq<char> {
    if body.len() >= 2 && body[0] == '{' {
        if body[1] == '}' {
            "{"@ + null_data() + body.subrange(1, body.len() as int)
        } else {
            "{"@ + null_data() + ","@ + body.subrange(1, body.len() as int)
        }
    } else {
        body
    }
}

/// The body that answers a request. Where the document was executed, the
/// engine's body holds the data already and stays as it is. Where it was
/// refused, the body says so: its data is null.
pub open spec fn response_body(body: Seq<char>, executed: bool) -> Seq<char> {
    if executed {
        body
    } else {
        refused_body(body)
    }
}

/// Completes the body that the query engine wrote for a response:
/// `executed` says whether the engine executed the document, so that the
/// body holds its data, or refused it, so that the body holds errors
/// alone. Every body that leaves here holds the data, null for a refused
/// document.
pub fn complete_body(body: &str, executed: bool) -> (complete: String)
    ensures
        complete@ == response_body(body@, executed),
{
    if executed {
        return String::from_str(body);
    }
    let length = body.unicode_len();
    if length >= 2 && body.get_char(0) == '{' {
        let rest = body.substring_char(1, length);
        let front = String::from_str("{").concat("\"data\":null");
        if body.get_char(1) == '}' {
            front.concat(rest)
        } else {
            front.concat(",").concat(rest)
        }
    } else {
        String::from_str(body)
    }
}

} // verus!
