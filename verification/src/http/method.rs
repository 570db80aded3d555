use crate::cut::str_eq;
use vstd::prelude::*;

verus! {

/// An HTTP request method.
#[derive(Debug, PartialEq, Eq, Clone, Copy, Hash, Structural)]
pub enum Method {
    Get,
    Put,
    Head,
    Post,
    Patch,
    Trace,
    Delete,
    Connect,
    Options,
}

/// The method that a token of a request line names, if any. The tokens are
/// case-sensitive; the one for [`Method::Delete`] is `Delete`.
pub open spec fn method_named(token: Seq<char>) -> Result<Method, ()> {
    if token == "GET"@ {
        Ok(Method::Get)
    } else if token == "PUT"@ {
        Ok(Method::Put)
    } else if token == "HEAD"@ {
        Ok(Method::Head)
    } else if token == "POST"@ {
        Ok(Method::Post)
    } else if token == "PATCH"@ {
        Ok(Method::Patch)
    } else if token == "TRACE"@ {
        Ok(Method::Trace)
    } else if token == "Delete"@ {
        Ok(Method::Delete)
    } else if token == "CONNECT"@ {
        Ok(Method::Connect)
    } else if token == "OPTIONS"@ {
        Ok(Method::Options)
    } else {
        Err(())
    }
}

impl Method {
    /// Reads a method from the token of a request line.
    pub fn parse(s: &str) -> (r: Result<Method, ()>)
        ensures
            r == method_named(s@),
    {
        if str_eq(s, "GET") {
            Ok(Method::Get)
        } else if str_eq(s, "PUT") {
            Ok(Method::Put)
        } else if str_eq(s, "HEAD") {
            Ok(Method::Head)
        } else if str_eq(s, "POST") {
            Ok(Method::Post)
        } else if str_eq(s, "PATCH") {
            Ok(Method::Patch)
        } else if str_eq(s, "TRACE") {
            Ok(Method::Trace)
        } else if str_eq(s, "Delete") {
            Ok(Method::Delete)
        } else if str_eq(s, "CONNECT") {
            Ok(Method::Connect)
        } else if str_eq(s, "OPTIONS") {
            Ok(Method::Options)
        } else {
            Err(())
        }
    }
}

} // verus!
