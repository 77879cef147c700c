//! The request methods that the tester sends.
use vstd::prelude::*;

verus! {

/// A supported request method.
#[derive(Clone, Copy, Debug, PartialEq, Eq)]
pub enum Method {
    Get,
    Post,
    Put,
    Patch,
    Delete,
}

/// The method that a name stands for: an exact, case-sensitive match.
pub open spec fn method_of(s: Seq<char>) -> Option<Method> {
    if s == seq!['G', 'E', 'T'] {
        Some(Method::Get)
    } else if s == seq!['P', 'O', 'S', 'T'] {
        Some(Method::Post)
    } else if s == seq!['P', 'U', 'T'] {
        Some(Method::Put)
    } else if s == seq!['P', 'A', 'T', 'C', 'H'] {
        Some(Method::Patch)
    } else if s == seq!['D', 'E', 'L', 'E', 'T', 'E'] {
        Some(Method::Delete)
    } else {
        None
    }
}

/// The name of a method.
pub open spec fn method_name(m: Method) -> Seq<char> {
    match m {
        Method::Get => seq!['G', 'E', 'T'],
        Method::Post => seq!['P', 'O', 'S', 'T'],
        Method::Put => seq!['P', 'U', 'T'],
        Method::Patch => seq!['P', 'A', 'T', 'C', 'H'],
        Method::Delete => seq!['D', 'E', 'L', 'E', 'T', 'E'],
    }
}

/// Whether two strings hold the same characters.
fn same_text(a: &str, b: &str) -> (r: bool)
    ensures
        r == (a@ == b@),
{
    let n = a.unicode_len();
    if n != b.unicode_len() {
        return false;
    }
    let mut i: usize = 0;
    while i < n
        invariant
            n == a@.len(),
            n == b@.len(),
            i <= n,
            forall|j: int| 0 <= j < i ==> a@[j] == b@[j],
        decreases n - i,
    {
        if a.get_char(i) != b.get_char(i) {
            return false;
        }
        i = i + 1;
    }
    assert(a@ =~= b@);
    true
}

impl Method {
    /// Reads a method name; `None` for any name but `GET`, `POST`, `PUT`,
    /// `PATCH` and `DELETE`, spelled in capitals.
    pub fn parse(s: &str) -> (r: Option<Method>)
        ensures
            r == method_of(s@),
    {
        proof {
            reveal_strlit("GET");
            reveal_strlit("POST");
            reveal_strlit("PUT");
            reveal_strlit("PATCH");
            reveal_strlit("DELETE");
        }
        if same_text(s, "GET") {
            assert("GET"@ =~= seq!['G', 'E', 'T']);
            Some(Method::Get)
        } else if same_text(s, "POST") {
            assert("POST"@ =~= seq!['P', 'O', 'S', 'T']);
            Some(Method::Post)
        } else if same_text(s, "PUT") {
            assert("PUT"@ =~= seq!['P', 'U', 'T']);
            Some(Method::Put)
        } else if same_text(s, "PATCH") {
            assert("PATCH"@ =~= seq!['P', 'A', 'T', 'C', 'H']);
            Some(Method::Patch)
        } else if same_text(s, "DELETE") {
            assert("DELETE"@ =~= seq!['D', 'E', 'L', 'E', 'T', 'E']);
            Some(Method::Delete)
        } else {
            assert("GET"@ =~= seq!['G', 'E', 'T']);
            assert("POST"@ =~= seq!['P', 'O', 'S', 'T']);
            assert("PUT"@ =~= seq!['P', 'U', 'T']);
            assert("PATCH"@ =~= seq!['P', 'A', 'T', 'C', 'H']);
            assert("DELETE"@ =~= seq!['D', 'E', 'L', 'E', 'T', 'E']);
            None
        }
    }

    /// The method's name, in capitals.
    pub fn as_str(&self) -> (r: &'static str)
        ensures
            r@ == method_name(*self),
            method_of(r@) == Some(*self),
    {
        proof {
            reveal_strlit("GET");
            reveal_strlit("POST");
            reveal_strlit("PUT");
            reveal_strlit("PATCH");
            reveal_strlit("DELETE");
        }
        match self {
            Method::Get => {
                assert("GET"@ =~= seq!['G', 'E', 'T']);
                "GET"
            },
            Method::Post => {
                assert("POST"@ =~= seq!['P', 'O', 'S', 'T']);
                "POST"
            },
            Method::Put => {
                assert("PUT"@ =~= seq!['P', 'U', 'T']);
                "PUT"
            },
            Method::Patch => {
                assert("PATCH"@ =~= seq!['P', 'A', 'T', 'C', 'H']);
                "PATCH"
            },
            Method::Delete => {
                assert("DELETE"@ =~= seq!['D', 'E', 'L', 'E', 'T', 'E']);
                "DELETE"
            },
        }
    }
}

} // verus!
