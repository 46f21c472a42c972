//! A minimal HTTP client front end: a request builder, URL splitting, and the
//! decision logic of one blocking HTTPS exchange over a native internet API.

use vstd::prelude::*;

pub mod error;
pub mod exchange;
pub mod headers;
pub mod method;
pub mod request;
pub mod text;
pub mod trace;
pub mod url;

verus! {

/// Adds two sizes.
pub fn add(left: usize, right: usize) -> (sum: usize)
    requires
        left + right <= usize::MAX,
    ensures
        sum == left + right,
{
    left + right
}

} // verus!
