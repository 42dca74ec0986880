//! The envelope of the HTTP API's replies and its login request.

use vstd::prelude::*;

verus! {

/// A reply: a status word (`"ok"` or `"error"`) and the contents.
#[derive(Debug)]
pub struct Resp<T> {
    pub status: String,
    pub contents: T,
}

/// Credentials sent to log in.
#[derive(Debug)]
pub struct UserLogin {
    pub username: String,
    pub password: String,
    pub persistent: bool,
}

impl<T> Resp<T> {
    /// A successful reply carrying `contents`.
    pub fn ok(contents: T) -> (r: Resp<T>)
        ensures
            r.status@ == "ok"@,
            r.contents == contents,
    {
        Resp { status: String::from_str("ok"), contents }
    }

    /// A failed reply carrying `contents`, which says what went wrong.
    pub fn error(contents: T) -> (r: Resp<T>)
        ensures
            r.status@ == "error"@,
            r.contents == contents,
    {
        Resp { status: String::from_str("error"), contents }
    }
}

} // verus!
