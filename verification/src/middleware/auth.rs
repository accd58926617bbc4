//! API-key checking for protected routes.
//!
//! The request handler hands over the configured key and the raw bytes of the
//! `x-api-key` header (when the request has one); the decision says whether
//! the request goes on or which error answers it.

use vstd::prelude::*;

use vstd::string::StringSliceAdditionalSpecFns;

use crate::api::headers::visible_header;

verus! {

/// The name of the request header that carries the API key.
pub const API_KEY_HEADER: &'static str = "x-api-key";

/// What happens to a request on a protected route.
#[derive(Debug, Clone, Copy, PartialEq, Eq, Structural)]
pub enum AuthDecision {
    /// The request goes on to its handler.
    Allow,
    /// Answered with 401: the key is missing or wrong.
    Unauthorized,
    /// Answered with 403: the header is not a visible ASCII text, or empty.
    Forbidden,
}

/// The decision for a configured key `expected` (its UTF-8 bytes) and the
/// raw bytes of the `x-api-key` header.
pub open spec fn auth_decision(expected: Option<Seq<u8>>, provided: Option<Seq<u8>>) -> AuthDecision {
    match expected {
        None => AuthDecision::Allow,
        Some(key) => match provided {
            None => AuthDecision::Unauthorized,
            Some(p) => if !visible_header(p) || p.len() == 0 {
                AuthDecision::Forbidden
            } else if p == key {
                AuthDecision::Allow
            } else {
                AuthDecision::Unauthorized
            },
        },
    }
}

/// A configured key admits exactly the requests whose header carries that
/// key, as long as the key is itself a non-empty visible ASCII text; with no
/// key configured every request is admitted.
pub proof fn law_key_admits_exactly_itself(key: Seq<u8>, provided: Option<Seq<u8>>)
    ensures
        auth_decision(None, provided) == AuthDecision::Allow,
        auth_decision(Some(key), provided) == AuthDecision::Allow <==> (provided == Some(key)
            && visible_header(key) && key.len() > 0),
{
}

impl AuthDecision {
    /// The HTTP status and error message that answer a refused request, or
    /// `None` when the request goes on.
    pub fn rejection(&self) -> (r: Option<(u16, &'static str)>)
        ensures
            match *self {
                AuthDecision::Allow => r is None,
                AuthDecision::Unauthorized => r matches Some(p) && p.0 == 401 && p.1@
                    == "Unauthorized: missing or invalid API key"@,
                AuthDecision::Forbidden => r matches Some(p) && p.0 == 403 && p.1@
                    == "Forbidden: invalid API key format"@,
            },
    {
        match self {
            AuthDecision::Allow => None,
            AuthDecision::Unauthorized => Some((401, "Unauthorized: missing or invalid API key")),
            AuthDecision::Forbidden => Some((403, "Forbidden: invalid API key format")),
        }
    }
}

/// The byte of `s` at `i`, or 0 past its end.
pub open spec fn byte_or_zero(s: Seq<u8>, i: int) -> u8 {
    if i < s.len() {
        s[i]
    } else {
        0
    }
}

proof fn lemma_or_zero(x: usize, y: usize)
    ensures
        (x | y == 0) <==> (x == 0 && y == 0),
{
    assert((x | y == 0) <==> (x == 0 && y == 0)) by (bit_vector);
}

proof fn lemma_xor_zero(x: usize, y: usize)
    ensures
        (x ^ y == 0) <==> (x == y),
{
    assert((x ^ y == 0) <==> (x == y)) by (bit_vector);
}

proof fn lemma_byte_xor_zero(x: u8, y: u8)
    ensures
        (((x ^ y) as usize) == 0) <==> (x == y),
{
    assert((((x ^ y) as usize) == 0) <==> (x == y)) by (bit_vector);
}

/// Constant-time byte comparison to avoid timing leaks on key checks: every
/// byte position up to the longer length is visited whatever the contents.
pub fn constant_time_eq(a: &[u8], b: &[u8]) -> (r: bool)
    ensures
        r == (a@ == b@),
{
    let max_len = if a.len() >= b.len() {
        a.len()
    } else {
        b.len()
    };
    let mut diff: usize = a.len() ^ b.len();
    proof {
        lemma_xor_zero(a.len(), b.len());
    }
    let mut i: usize = 0;
    while i < max_len
        invariant
            i <= max_len,
            max_len == if a.len() >= b.len() {
                a.len()
            } else {
                b.len()
            },
            (diff == 0) == (a.len() == b.len() && forall|j: int|
                0 <= j < i ==> byte_or_zero(a@, j) == byte_or_zero(b@, j)),
        decreases max_len - i,
    {
        let av: u8 = if i < a.len() {
            a[i]
        } else {
            0
        };
        let bv: u8 = if i < b.len() {
            b[i]
        } else {
            0
        };
        let x: usize = (av ^ bv) as usize;
        proof {
            lemma_byte_xor_zero(av, bv);
            lemma_or_zero(diff, x);
            assert(av == byte_or_zero(a@, i as int));
            assert(bv == byte_or_zero(b@, i as int));
        }
        diff = diff | x;
        i = i + 1;
        assert((diff == 0) == (a.len() == b.len() && forall|j: int|
            0 <= j < i ==> byte_or_zero(a@, j) == byte_or_zero(b@, j))) by {
            if a.len() == b.len() && forall|j: int|
                0 <= j < i - 1 ==> byte_or_zero(a@, j) == byte_or_zero(b@, j) {
                if av == bv {
                    assert forall|j: int| 0 <= j < i implies byte_or_zero(a@, j) == byte_or_zero(
                        b@,
                        j,
                    ) by {
                        if j < i - 1 {
                        } else {
                            assert(j == i - 1);
                        }
                    }
                }
            }
        }
    }
    if diff == 0 {
        assert forall|j: int| 0 <= j < a@.len() implies a@[j] == b@[j] by {
            assert(byte_or_zero(a@, j) == byte_or_zero(b@, j));
        }
        assert(a@ =~= b@);
    } else {
        assert(a@ != b@) by {
            if a@ =~= b@ {
                assert forall|j: int| 0 <= j < i implies byte_or_zero(a@, j) == byte_or_zero(
                    b@,
                    j,
                ) by {}
            }
        }
    }
    diff == 0
}

/// Decides a request on a protected route from the configured key and the
/// raw bytes of its `x-api-key` header.
pub fn check_api_key(expected_key: Option<&str>, provided: Option<&[u8]>) -> (d: AuthDecision)
    ensures
        d == auth_decision(
            match expected_key {
                Some(k) => Some(k.spec_bytes()),
                None => None,
            },
            match provided {
                Some(p) => Some(p@),
                None => None,
            },
        ),
{
    let expected = match expected_key {
        Some(k) => k,
        None => {
            return AuthDecision::Allow;
        },
    };
    let header = match provided {
        Some(h) => h,
        None => {
            return AuthDecision::Unauthorized;
        },
    };
    let mut i: usize = 0;
    while i < header.len()
        invariant
            i <= header.len(),
            provided == Some(header),
            expected_key == Some(expected),
            forall|j: int| 0 <= j < i ==> (32 <= #[trigger] header@[j] < 127 || header@[j] == 9),
        decreases header.len() - i,
    {
        let c = header[i];
        if !((32 <= c && c < 127) || c == 9) {
            assert(header@[i as int] == c);
            return AuthDecision::Forbidden;
        }
        i = i + 1;
    }
    if header.len() == 0 {
        return AuthDecision::Forbidden;
    }
    if !constant_time_eq(header, expected.as_bytes()) {
        return AuthDecision::Unauthorized;
    }
    AuthDecision::Allow
}

} // verus!
