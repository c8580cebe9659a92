//! The action that an HTTP method asks to be allowed.

use vstd::prelude::*;
use vstd::string::StringExecFns;
use crate::error::Error;
use crate::text::str_eq;

verus! {

/// What a caller wants to do with a resource.
#[derive(Clone, Copy, Debug, PartialEq, Eq, Structural)]
pub enum Action {
    Read,
    Update,
    Delete,
}

/// The action of a method name, if it has one. Names are matched as written:
/// `get` is not `GET`.
pub open spec fn action_of(method: Seq<char>) -> Option<Action> {
    if method == "HEAD"@ || method == "GET"@ {
        Some(Action::Read)
    } else if method == "PUT"@ {
        Some(Action::Update)
    } else if method == "DELETE"@ {
        Some(Action::Delete)
    } else {
        None
    }
}

impl Action {
    /// The verb under which authorization providers know the action.
    pub open spec fn verb(self) -> Seq<char> {
        match self {
            Action::Read => "read"@,
            Action::Update => "update"@,
            Action::Delete => "delete"@,
        }
    }

    /// The verb under which authorization providers know the action.
    pub fn as_str(&self) -> (verb: &'static str)
        ensures
            verb@ == self.verb(),
    {
        match self {
            Action::Read => "read",
            Action::Update => "update",
            Action::Delete => "delete",
        }
    }
}

/// Maps an HTTP method to the action that must be authorized. `HEAD` and `GET`
/// read, `PUT` updates, `DELETE` deletes; any other method is refused and
/// handed back in the error.
pub fn parse_action(method: &str) -> (parsed: Result<Action, Error>)
    ensures
        match parsed {
            Ok(action) => action_of(method@) == Some(action),
            Err(Error::UnsupportedMethod { method: refused }) => action_of(method@) is None
                && refused@ == method@,
            Err(_) => false,
        },
{
    if str_eq(method, "HEAD") || str_eq(method, "GET") {
        Ok(Action::Read)
    } else if str_eq(method, "PUT") {
        Ok(Action::Update)
    } else if str_eq(method, "DELETE") {
        Ok(Action::Delete)
    } else {
        Err(Error::UnsupportedMethod { method: String::from_str(method) })
    }
}

} // verus!
