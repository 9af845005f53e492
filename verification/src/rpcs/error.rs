//! The generic string error used by configuration loading and the RPC
//! facades.
use vstd::prelude::*;
use vstd::string::StringExecFns;

verus! {

/// A plain error carrying a human-readable message.
#[derive(Debug)]
pub struct Error(pub String);

impl Error {
    /// The message, as `Display` shows it.
    pub fn to_string(&self) -> (s: String)
        ensures
            s@ == self.0@,
    {
        self.0.clone()
    }

    /// The error for an environment variable that could not be read;
    /// `detail` is the text of the variable error.
    pub fn missing_env_var(detail: &str) -> (e: Error)
        ensures
            e.0@ == "missing env var: "@ + detail@,
    {
        let mut s = "missing env var: ".to_owned();
        s.append(detail);
        Error(s)
    }
}

/// `prefix` followed by `msg`.
pub fn labelled(prefix: &str, msg: &str) -> (s: String)
    ensures
        s@ == prefix@ + msg@,
{
    let mut s = prefix.to_owned();
    s.append(msg);
    s
}

} // verus!
