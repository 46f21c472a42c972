//! Splitting a URL into the host to connect to and the path to request.
//!
//! The host is what stands between the first `://` and the first `/` after
//! it; the path is the rest of the URL, its leading `/` included. A URL
//! without `://`, or without a `/` after it, has no such parts.

use vstd::prelude::*;
use vstd::string::*;

use crate::request::Request;
use crate::text::chars_of;

verus! {

/// Whether the scheme separator `://` starts at index `i` of `s`.
pub open spec fn separator_at(s: Seq<char>, i: int) -> bool {
    &&& 0 <= i
    &&& i + 3 <= s.len()
    &&& s[i] == ':'
    &&& s[i + 1] == '/'
    &&& s[i + 2] == '/'
}

/// Whether the first scheme separator of `s` starts at `i` and the first
/// `/` after that separator stands at `j`.
pub open spec fn splits_at(s: Seq<char>, i: int, j: int) -> bool {
    &&& separator_at(s, i)
    &&& forall|k: int| 0 <= k < i ==> !separator_at(s, k)
    &&& i + 3 <= j < s.len()
    &&& s[j] == '/'
    &&& forall|k: int| i + 3 <= k < j ==> s[k] != '/'
}

/// The host and the path of a URL, where it has them.
pub open spec fn url_parts(s: Seq<char>) -> Option<(Seq<char>, Seq<char>)> {
    if exists|i: int, j: int| splits_at(s, i, j) {
        let (i, j) = choose|i: int, j: int| splits_at(s, i, j);
        Some((s.subrange(i + 3, j), s.subrange(j, s.len() as int)))
    } else {
        None
    }
}

/// A URL splits in at most one place.
pub proof fn lemma_split_unique(s: Seq<char>, i: int, j: int, i2: int, j2: int)
    requires
        splits_at(s, i, j),
        splits_at(s, i2, j2),
    ensures
        i == i2,
        j == j2,
{
    if i < i2 {
        assert(!separator_at(s, i));
    }
    if i2 < i {
        assert(!separator_at(s, i2));
    }
    if j < j2 {
        assert(s[j] != '/');
    }
    if j2 < j {
        assert(s[j2] != '/');
    }
}

/// Where a URL splits at `i` and `j`, its host is what stands between the
/// separator and `j`, and its path is what starts at `j`.
pub proof fn lemma_url_parts_at(s: Seq<char>, i: int, j: int)
    requires
        splits_at(s, i, j),
    ensures
        url_parts(s) == Some((s.subrange(i + 3, j), s.subrange(j, s.len() as int))),
{
    let (i2, j2) = choose|i2: int, j2: int| splits_at(s, i2, j2);
    lemma_split_unique(s, i, j, i2, j2);
}

/// The scheme separator.
pub open spec fn separator() -> Seq<char> {
    seq![':', '/', '/']
}

/// A URL made of a scheme, the separator, a host without `/` and a path
/// that begins with `/` has that host and that path, provided that the
/// separator after the scheme is the first in the URL.
pub proof fn lemma_parts_of_full_url(scheme: Seq<char>, host: Seq<char>, path: Seq<char>)
    requires
        forall|k: int|
            0 <= k < scheme.len() ==> !separator_at(scheme + separator() + host + path, k),
        forall|k: int| 0 <= k < host.len() ==> host[k] != '/',
        path.len() > 0,
        path[0] == '/',
    ensures
        url_parts(scheme + separator() + host + path) == Some((host, path)),
{
    let url = scheme + separator() + host + path;
    let i = scheme.len() as int;
    let j = i + 3 + host.len();
    assert(separator_at(url, i));
    assert(url[j] == path[0]);
    assert forall|k: int| i + 3 <= k < j implies url[k] != '/' by {
        assert(url[k] == host[k - i - 3]);
    }
    assert(splits_at(url, i, j));
    lemma_url_parts_at(url, i, j);
    assert(url.subrange(i + 3, j) =~= host);
    assert(url.subrange(j, url.len() as int) =~= path);
}

/// A URL that ends with its host, without any `/` after the separator, has
/// no parts: a bare domain is rejected.
pub proof fn lemma_no_path_no_parts(scheme: Seq<char>, host: Seq<char>)
    requires
        forall|k: int| 0 <= k < scheme.len() ==> !separator_at(scheme + separator() + host, k),
        forall|k: int| 0 <= k < host.len() ==> host[k] != '/',
    ensures
        url_parts(scheme + separator() + host) is None,
{
    let url = scheme + separator() + host;
    let first = scheme.len() as int;
    assert(separator_at(url, first));
    assert forall|i: int, j: int| !splits_at(url, i, j) by {
        if splits_at(url, i, j) {
            if first < i {
                assert(!separator_at(url, first));
            }
            assert(i == first);
            assert(url[j] == host[j - first - 3]);
        }
    }
}

/// A URL without the separator has no parts.
pub proof fn lemma_no_separator_no_parts(url: Seq<char>)
    requires
        forall|i: int| !separator_at(url, i),
    ensures
        url_parts(url) is None,
{
}

impl Request {
    /// Splits a URL into host and path, or fails with code 1 where the URL
    /// has no scheme separator or no `/` after it.
    pub fn parse_url(&self, url: &str) -> (parts: Result<(String, String), u32>)
        ensures
            match parts {
                Ok((host, path)) => url_parts(url@) == Some((host@, path@)),
                Err(code) => code == 1 && url_parts(url@) is None,
            },
    {
        let chars = chars_of(url);
        let n = chars.len();
        let ghost s = url@;
        if n < 3 {
            assert(forall|i: int, j: int| !splits_at(s, i, j));
            return Err(1);
        }
        let mut i: usize = 0;
        while i <= n - 3 && !(chars[i] == ':' && chars[i + 1] == '/' && chars[i + 2] == '/')
            invariant
                chars@ == s,
                n == s.len(),
                n >= 3,
                i <= n - 2,
                forall|k: int| 0 <= k < i ==> !separator_at(s, k),
            decreases n - i,
        {
            i += 1;
        }
        if i > n - 3 {
            assert(forall|a: int, b: int| !splits_at(s, a, b));
            return Err(1);
        }
        assert(separator_at(s, i as int));
        let start = i + 3;
        let mut j: usize = start;
        while j < n && chars[j] != '/'
            invariant
                chars@ == s,
                n == s.len(),
                start <= j <= n,
                forall|k: int| start <= k < j ==> s[k] != '/',
            decreases n - j,
        {
            j += 1;
        }
        if j >= n {
            assert forall|a: int, b: int| !splits_at(s, a, b) by {
                if splits_at(s, a, b) {
                    if a < i {
                        assert(!separator_at(s, a));
                    }
                    if i < a {
                        assert(!separator_at(s, i as int));
                    }
                    assert(s[b] != '/');
                }
            }
            return Err(1);
        }
        proof {
            lemma_url_parts_at(s, i as int, j as int);
        }
        let host = url.substring_char(start, j).to_owned();
        let path = url.substring_char(j, n).to_owned();
        Ok((host, path))
    }
}

} // verus!
