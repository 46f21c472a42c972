//! The HTTP methods a request can use, and their canonical names.

use vstd::prelude::*;

use crate::text::str_eq;

verus! {

/// The method of an HTTP request.
#[derive(Debug, Clone, Copy, PartialEq, Eq, Structural)]
pub enum RequestType {
    GET,
    POST,
    DELETE,
    PUT,
    HEAD,
    PATCH,
    OPTIONS,
    CONNECT,
    TRACE,
}

/// The canonical, upper-case name of a method.
pub open spec fn method_name(method: RequestType) -> Seq<char> {
    match method {
        RequestType::CONNECT => "CONNECT"@,
        RequestType::DELETE => "DELETE"@,
        RequestType::GET => "GET"@,
        RequestType::HEAD => "HEAD"@,
        RequestType::OPTIONS => "OPTIONS"@,
        RequestType::PATCH => "PATCH"@,
        RequestType::POST => "POST"@,
        RequestType::PUT => "PUT"@,
        RequestType::TRACE => "TRACE"@,
    }
}

/// Whether `name` is the canonical name of some method.
pub open spec fn is_method_name(name: Seq<char>) -> bool {
    exists|method: RequestType| name == method_name(method)
}

/// The method that a name stands for: the method with that canonical name,
/// and `GET` for every other string.
pub open spec fn method_of_name(name: Seq<char>) -> RequestType {
    if is_method_name(name) {
        choose|method: RequestType| name == method_name(method)
    } else {
        RequestType::GET
    }
}

/// No two methods share a name.
pub proof fn lemma_method_names_distinct(a: RequestType, b: RequestType)
    requires
        method_name(a) == method_name(b),
    ensures
        a == b,
{
    reveal_strlit("CONNECT");
    reveal_strlit("DELETE");
    reveal_strlit("GET");
    reveal_strlit("HEAD");
    reveal_strlit("OPTIONS");
    reveal_strlit("PATCH");
    reveal_strlit("POST");
    reveal_strlit("PUT");
    reveal_strlit("TRACE");
    let x = method_name(a);
    let y = method_name(b);
    assert(x.len() == y.len());
    assert(x[0] == y[0]);
    assert(x[1] == y[1]);
}

/// Naming a method and reading the name back gives the method again.
pub proof fn lemma_name_round_trip(method: RequestType)
    ensures
        method_of_name(method_name(method)) == method,
{
    let name = method_name(method);
    assert(is_method_name(name));
    lemma_method_names_distinct(method_of_name(name), method);
}

/// A string that is no method's name is read as `GET`; reading it is
/// therefore never an error.
pub proof fn lemma_unknown_name_is_get(name: Seq<char>)
    requires
        forall|method: RequestType| name != #[trigger] method_name(method),
    ensures
        method_of_name(name) == RequestType::GET,
{
}

impl RequestType {
    /// The canonical name of a method.
    pub fn to_str(res_type: RequestType) -> (name: &'static str)
        ensures
            name@ == method_name(res_type),
    {
        match res_type {
            RequestType::CONNECT => "CONNECT",
            RequestType::DELETE => "DELETE",
            RequestType::GET => "GET",
            RequestType::HEAD => "HEAD",
            RequestType::OPTIONS => "OPTIONS",
            RequestType::PATCH => "PATCH",
            RequestType::POST => "POST",
            RequestType::PUT => "PUT",
            RequestType::TRACE => "TRACE",
        }
    }

    /// The method with the given canonical name; `GET` where the string
    /// names no method.
    pub fn to_res_type(res_type: &str) -> (method: RequestType)
        ensures
            method == method_of_name(res_type@),
    {
        let method = if str_eq(res_type, "CONNECT") {
            RequestType::CONNECT
        } else if str_eq(res_type, "DELETE") {
            RequestType::DELETE
        } else if str_eq(res_type, "GET") {
            RequestType::GET
        } else if str_eq(res_type, "HEAD") {
            RequestType::HEAD
        } else if str_eq(res_type, "OPTIONS") {
            RequestType::OPTIONS
        } else if str_eq(res_type, "PATCH") {
            RequestType::PATCH
        } else if str_eq(res_type, "POST") {
            RequestType::POST
        } else if str_eq(res_type, "PUT") {
            RequestType::PUT
        } else if str_eq(res_type, "TRACE") {
            RequestType::TRACE
        } else {
            proof {
                assert forall|m: RequestType| res_type@ != #[trigger] method_name(m) by {}
            }
            return RequestType::GET;
        };
        proof {
            assert(res_type@ == method_name(method));
            lemma_name_round_trip(method);
        }
        method
    }
}

} // verus!
