use vstd::prelude::*;
use vstd::string::*;

verus! {

/// The HTTP methods a stored request can carry.
#[derive(Debug, Copy, Clone, PartialEq, Eq, Structural)]
pub enum HttpMethod {
    Get,
    Post,
    Put,
    Patch,
    Delete,
}

/// The upper-case name under which a method is shown and parsed.
pub open spec fn method_name(m: HttpMethod) -> Seq<char> {
    match m {
        HttpMethod::Get => seq!['G', 'E', 'T'],
        HttpMethod::Post => seq!['P', 'O', 'S', 'T'],
        HttpMethod::Put => seq!['P', 'U', 'T'],
        HttpMethod::Patch => seq!['P', 'A', 'T', 'C', 'H'],
        HttpMethod::Delete => seq!['D', 'E', 'L', 'E', 'T', 'E'],
    }
}

/// The method whose name is `s`, if any.
pub open spec fn method_named(s: Seq<char>) -> Option<HttpMethod> {
    if s == method_name(HttpMethod::Get) {
        Some(HttpMethod::Get)
    } else if s == method_name(HttpMethod::Post) {
        Some(HttpMethod::Post)
    } else if s == method_name(HttpMethod::Put) {
        Some(HttpMethod::Put)
    } else if s == method_name(HttpMethod::Patch) {
        Some(HttpMethod::Patch)
    } else if s == method_name(HttpMethod::Delete) {
        Some(HttpMethod::Delete)
    } else {
        None
    }
}

/// The text that precedes the offending input in a parse error.
pub open spec fn unrecognized_prefix() -> Seq<char> {
    seq![
        'U', 'n', 'r', 'e', 'c', 'o', 'g', 'n', 'i', 'z', 'e', 'd', ' ',
        'H', 'T', 'T', 'P', ' ', 'm', 'e', 't', 'h', 'o', 'd', ':', ' ',
    ]
}

impl HttpMethod {
    /// The method that follows `self` in the editor's cycle
    /// GET, POST, PUT, PATCH, DELETE and back to GET.
    pub open spec fn spec_next(self) -> HttpMethod {
        match self {
            HttpMethod::Get => HttpMethod::Post,
            HttpMethod::Post => HttpMethod::Put,
            HttpMethod::Put => HttpMethod::Patch,
            HttpMethod::Patch => HttpMethod::Delete,
            HttpMethod::Delete => HttpMethod::Get,
        }
    }

    pub fn next(&self) -> (r: HttpMethod)
        ensures
            r == self.spec_next(),
    {
        match self {
            HttpMethod::Get => HttpMethod::Post,
            HttpMethod::Post => HttpMethod::Put,
            HttpMethod::Put => HttpMethod::Patch,
            HttpMethod::Patch => HttpMethod::Delete,
            HttpMethod::Delete => HttpMethod::Get,
        }
    }

    pub fn as_str(&self) -> (r: &'static str)
        ensures
            r@ == method_name(*self),
    {
        match self {
            HttpMethod::Get => {
                proof {
                    reveal_strlit("GET");
                }
                "GET"
            },
            HttpMethod::Post => {
                proof {
                    reveal_strlit("POST");
                }
                "POST"
            },
            HttpMethod::Put => {
                proof {
                    reveal_strlit("PUT");
                }
                "PUT"
            },
            HttpMethod::Patch => {
                proof {
                    reveal_strlit("PATCH");
                }
                "PATCH"
            },
            HttpMethod::Delete => {
                proof {
                    reveal_strlit("DELETE");
                }
                "DELETE"
            },
        }
    }

    /// The method's name as an owned string, as it is displayed.
    pub fn to_string(&self) -> (r: String)
        ensures
            r@ == method_name(*self),
    {
        String::from_str(self.as_str())
    }

    /// Reads a method from its upper-case name.
    pub fn parse(s: &str) -> (r: Result<HttpMethod, String>)
        ensures
            match r {
                Ok(m) => method_named(s@) == Some(m),
                Err(e) => method_named(s@) is None && e@ == unrecognized_prefix() + s@,
            },
    {
        let text = String::from_str(s);
        let candidates: [HttpMethod; 5] = [
            HttpMethod::Get,
            HttpMethod::Post,
            HttpMethod::Put,
            HttpMethod::Patch,
            HttpMethod::Delete,
        ];
        let mut i: usize = 0;
        while i < 5
            invariant
                text@ == s@,
                candidates@ == seq![
                    HttpMethod::Get,
                    HttpMethod::Post,
                    HttpMethod::Put,
                    HttpMethod::Patch,
                    HttpMethod::Delete,
                ],
                i <= 5,
                forall|k: int| 0 <= k < i ==> s@ != method_name(#[trigger] candidates@[k]),
            decreases 5 - i,
        {
            let m = candidates[i];
            let name = String::from_str(m.as_str());
            if text == name {
                return Ok(m);
            }
            i = i + 1;
        }
        proof {
            assert(s@ != method_name(candidates@[0]));
            assert(s@ != method_name(candidates@[1]));
            assert(s@ != method_name(candidates@[2]));
            assert(s@ != method_name(candidates@[3]));
            assert(s@ != method_name(candidates@[4]));
            reveal_strlit("Unrecognized HTTP method: ");
        }
        let mut e = String::from_str("Unrecognized HTTP method: ");
        e.append(s);
        Err(e)
    }
}

impl std::str::FromStr for HttpMethod {
    type Err = String;

    fn from_str(s: &str) -> Result<HttpMethod, String> {
        HttpMethod::parse(s)
    }
}

/// Forward cycling through the methods comes back to the start after five
/// steps, and the step after DELETE is GET.
pub proof fn lemma_method_cycle(m: HttpMethod)
    ensures
        m.spec_next().spec_next().spec_next().spec_next().spec_next() == m,
        HttpMethod::Delete.spec_next() == HttpMethod::Get,
{
}

} // verus!
