//! Request methods.

use vstd::prelude::*;
use crate::text::{chars_of, same_text};

verus! {

/// The method of a request.
#[derive(Clone, Copy, Debug, PartialEq, Eq, Structural)]
pub enum Method {
    Get,
    Head,
    Post,
    Put,
    Delete,
    Connect,
    Options,
    Trace,
    Patch,
}

impl Method {
    /// The method that a name stands for; names are upper case.
    pub open spec fn named(name: Seq<char>) -> Option<Method> {
        if name == "GET"@ {
            Some(Method::Get)
        } else if name == "HEAD"@ {
            Some(Method::Head)
        } else if name == "POST"@ {
            Some(Method::Post)
        } else if name == "PUT"@ {
            Some(Method::Put)
        } else if name == "DELETE"@ {
            Some(Method::Delete)
        } else if name == "CONNECT"@ {
            Some(Method::Connect)
        } else if name == "OPTIONS"@ {
            Some(Method::Options)
        } else if name == "TRACE"@ {
            Some(Method::Trace)
        } else if name == "PATCH"@ {
            Some(Method::Patch)
        } else {
            None
        }
    }

    /// The method that a name stands for, or `None` for a name that is none
    /// of the nine.
    pub fn from_name(name: &str) -> (method: Option<Method>)
        ensures
            method == Method::named(name@),
    {
        let chars = chars_of(name);
        if same_text(&chars, &chars_of("GET")) {
            Some(Method::Get)
        } else if same_text(&chars, &chars_of("HEAD")) {
            Some(Method::Head)
        } else if same_text(&chars, &chars_of("POST")) {
            Some(Method::Post)
        } else if same_text(&chars, &chars_of("PUT")) {
            Some(Method::Put)
        } else if same_text(&chars, &chars_of("DELETE")) {
            Some(Method::Delete)
        } else if same_text(&chars, &chars_of("CONNECT")) {
            Some(Method::Connect)
        } else if same_text(&chars, &chars_of("OPTIONS")) {
            Some(Method::Options)
        } else if same_text(&chars, &chars_of("TRACE")) {
            Some(Method::Trace)
        } else if same_text(&chars, &chars_of("PATCH")) {
            Some(Method::Patch)
        } else {
            None
        }
    }
}

} // verus!
