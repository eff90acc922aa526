//! The two authentication gates, as pure decisions.
//!
//! The shell extracts the Authorization header and, for the role gate,
//! verifies the bearer token with the token library and hands in the role
//! claim it carries (or nothing, when the header is missing, malformed or
//! the signature invalid).  The decisions here are the gates' whole rule:
//! they either pass or refuse, with no state.

use base64::Engine;
use vstd::prelude::*;
use vstd::string::StringSliceAdditionalSpecFns;

use crate::errors::{ErrorResponse, UNAUTHORIZED};

verus! {

/// The error either gate refuses with: 401 and the gates' status word.
pub fn gate_refusal(message: &str) -> (r: ErrorResponse)
    ensures
        r.err_type == UNAUTHORIZED,
        r.message matches Some(m) && m@ == message@,
        r.status matches Some(s) && s@ == "Unauthorized"@,
{
    ErrorResponse::new(UNAUTHORIZED, Some(message.to_owned()), Some("Unauthorized".to_owned()))
}

/// What base64's standard-alphabet decoder returns: a pure function of the
/// input bytes, defined exactly on valid standard base64.
pub uninterp spec fn base64_standard_decoding(s: Seq<u8>) -> Option<Seq<u8>>;

/// Relies on base64's `Engine::decode` with the `STANDARD` engine: a pure
/// function of the input bytes that succeeds exactly on valid standard
/// base64 text.
#[verifier::external_body]
fn base64_decode(token: &[u8]) -> (r: Option<Vec<u8>>)
    ensures
        r is Some <==> base64_standard_decoding(token@) is Some,
        r matches Some(b) ==> base64_standard_decoding(token@) == Some(b@),
{
    base64::engine::general_purpose::STANDARD.decode(token).ok()
}

/// The number of colon bytes in `s`.
pub open spec fn colon_count(s: Seq<u8>) -> nat {
    s.filter(|x: u8| x == 58).len()
}

/// Basic-style credentials decode to username and password exactly when
/// the decoded bytes hold a single colon; the two parts surround it.
pub open spec fn credential_parts(d: Seq<u8>) -> Option<(Seq<u8>, Seq<u8>)> {
    if colon_count(d) == 1 {
        let k = choose|k: int| 0 <= k < d.len() && d[k] == 58;
        Some((d.subrange(0, k), d.subrange(k + 1, d.len() as int)))
    } else {
        None
    }
}

/// Counting colons is counting them in every prefix.
proof fn lemma_colon_count_step(prefix: Seq<u8>, x: u8)
    ensures
        colon_count(prefix.push(x)) == colon_count(prefix) + (if x == 58 {
            1nat
        } else {
            0nat
        }),
{
    crate::store::lemma_filter_push(prefix, x, |b: u8| b == 58);
}

/// The index of the single colon is the one the decomposition uses.
proof fn lemma_single_colon(d: Seq<u8>, k: int)
    requires
        colon_count(d) == 1,
        0 <= k < d.len(),
        d[k] == 58,
        forall|j: int| 0 <= j < d.len() && j != k ==> d[j] != 58,
    ensures
        credential_parts(d) == Some((d.subrange(0, k), d.subrange(k + 1, d.len() as int))),
{
    let chosen = choose|j: int| 0 <= j < d.len() && d[j] == 58;
    assert(0 <= chosen < d.len() && d[chosen] == 58);
    assert(chosen == k);
}

/// Splits a base64 basic-credentials token into username and password
/// bytes: the decoded text up to and past its single colon.  `None` when
/// the token is not valid base64 or the colon is missing or repeated.
pub fn decode_basic_auth_token(token: &str) -> (r: Option<(Vec<u8>, Vec<u8>)>)
    ensures
        r is Some <==> (base64_standard_decoding(token.spec_bytes()) matches Some(d)
            && colon_count(d) == 1),
        r matches Some(parts) ==> {
            let d = base64_standard_decoding(token.spec_bytes())->Some_0;
            credential_parts(d) == Some((parts.0@, parts.1@))
        },
{
    let decoded = match base64_decode(token.as_bytes()) {
        Some(d) => d,
        None => {
            return None;
        },
    };
    let n = decoded.len();
    let ghost d = decoded@;
    // find the single colon, refusing a second one
    let mut i: usize = 0;
    let mut colon: Option<usize> = None;
    while i < n
        invariant
            0 <= i <= n,
            n == d.len(),
            decoded@ == d,
            base64_standard_decoding(token.spec_bytes()) == Some(d),
            colon matches Some(k) ==> k < i && d[k as int] == 58 && colon_count(
                d.subrange(0, i as int),
            ) == 1 && (forall|j: int| 0 <= j < i && j != k ==> d[j] != 58),
            colon is None ==> colon_count(d.subrange(0, i as int)) == 0 && (forall|j: int|
                0 <= j < i ==> d[j] != 58),
        decreases n - i,
    {
        proof {
            assert(d.subrange(0, i as int + 1) =~= d.subrange(0, i as int).push(d[i as int]));
            lemma_colon_count_step(d.subrange(0, i as int), d[i as int]);
        }
        if decoded[i] == 58 {
            match colon {
                Some(_) => {
                    proof {
                        assert(d.subrange(0, n as int) =~= d);
                        lemma_colon_count_at_least(d, i as int);
                    }
                    return None;
                },
                None => {
                    colon = Some(i);
                },
            }
        }
        i = i + 1;
    }
    proof {
        assert(d.subrange(0, n as int) =~= d);
    }
    let k = match colon {
        Some(k) => k,
        None => {
            return None;
        },
    };
    // copy out the two parts
    let mut username: Vec<u8> = Vec::new();
    let mut j: usize = 0;
    while j < k
        invariant
            0 <= j <= k < n,
            n == d.len(),
            decoded@ == d,
            username@ == d.subrange(0, j as int),
        decreases k - j,
    {
        proof {
            assert(d.subrange(0, j as int + 1) =~= d.subrange(0, j as int).push(d[j as int]));
        }
        username.push(decoded[j]);
        j = j + 1;
    }
    let mut password: Vec<u8> = Vec::new();
    let mut j2: usize = k + 1;
    while j2 < n
        invariant
            k < j2 <= n || j2 == k + 1,
            k < n == d.len(),
            decoded@ == d,
            password@ == d.subrange(k + 1, j2 as int),
        decreases n - j2,
    {
        proof {
            assert(d.subrange(k + 1, j2 as int + 1) =~= d.subrange(k + 1, j2 as int).push(
                d[j2 as int],
            ));
        }
        password.push(decoded[j2]);
        j2 = j2 + 1;
    }
    proof {
        assert(username@ =~= d.subrange(0, k as int));
        assert(password@ =~= d.subrange(k as int + 1, d.len() as int));
        lemma_single_colon(d, k as int);
    }
    Some((username, password))
}

/// Two or more colons mean the count is not one.
proof fn lemma_colon_count_at_least(d: Seq<u8>, i: int)
    requires
        0 <= i < d.len(),
        colon_count(d.subrange(0, i)) == 1,
        d[i] == 58,
    ensures
        colon_count(d) != 1,
    decreases d.len() - i,
{
    if i + 1 == d.len() {
        assert(d.subrange(0, i + 1) =~= d);
        assert(d.subrange(0, i + 1) =~= d.subrange(0, i).push(d[i]));
        lemma_colon_count_step(d.subrange(0, i), d[i]);
    } else {
        assert(d.subrange(0, i + 1) =~= d.subrange(0, i).push(d[i]));
        lemma_colon_count_step(d.subrange(0, i), d[i]);
        lemma_colon_count_monotone(d, i + 1);
    }
}

/// Extending a prefix cannot lose colons.
proof fn lemma_colon_count_monotone(d: Seq<u8>, i: int)
    requires
        0 <= i <= d.len(),
    ensures
        colon_count(d) >= colon_count(d.subrange(0, i)),
    decreases d.len() - i,
{
    if i == d.len() {
        assert(d.subrange(0, i) =~= d);
    } else {
        assert(d.subrange(0, i + 1) =~= d.subrange(0, i).push(d[i]));
        lemma_colon_count_step(d.subrange(0, i), d[i]);
        lemma_colon_count_monotone(d, i + 1);
    }
}

/// The privileged gate's whole rule: the token must decode to exactly the
/// configured secret, with a single colon between username and password.
pub open spec fn basic_gate_allows(token: Seq<u8>, secret: Seq<u8>) -> bool {
    base64_standard_decoding(token) matches Some(d) && colon_count(d) == 1 && d == secret
}

/// Decides the privileged-credential gate: permits exactly when the token
/// decodes to `username:password` equal, byte for byte, to the configured
/// secret.
pub fn super_admin_allows(token: &str, expected_secret: &str) -> (r: bool)
    ensures
        r == basic_gate_allows(token.spec_bytes(), expected_secret.spec_bytes()),
{
    let decoded = match base64_decode(token.as_bytes()) {
        Some(d) => d,
        None => {
            return false;
        },
    };
    let n = decoded.len();
    let ghost d = decoded@;
    // exactly one colon
    let mut i: usize = 0;
    let mut colons: u64 = 0;
    while i < n
        invariant
            0 <= i <= n,
            n == d.len(),
            decoded@ == d,
            base64_standard_decoding(token.spec_bytes()) == Some(d),
            colons == colon_count(d.subrange(0, i as int)),
            colons <= i,
        decreases n - i,
    {
        proof {
            assert(d.subrange(0, i as int + 1) =~= d.subrange(0, i as int).push(d[i as int]));
            lemma_colon_count_step(d.subrange(0, i as int), d[i as int]);
        }
        if decoded[i] == 58 {
            colons = colons + 1;
        }
        i = i + 1;
    }
    proof {
        assert(d.subrange(0, n as int) =~= d);
    }
    if colons != 1 {
        return false;
    }
    // byte-for-byte comparison with the secret
    let secret = expected_secret.as_bytes();
    if secret.len() != n {
        proof {
            assert(d != expected_secret.spec_bytes());
        }
        return false;
    }
    let mut j: usize = 0;
    while j < n
        invariant
            0 <= j <= n,
            n == d.len() == secret@.len(),
            decoded@ == d,
            base64_standard_decoding(token.spec_bytes()) == Some(d),
            colon_count(d) == 1,
            secret@ == expected_secret.spec_bytes(),
            forall|m: int| 0 <= m < j ==> d[m] == secret@[m],
        decreases n - j,
    {
        if decoded[j] != secret[j] {
            proof {
                assert(d != expected_secret.spec_bytes());
            }
            return false;
        }
        j = j + 1;
    }
    proof {
        assert(d =~= expected_secret.spec_bytes());
    }
    true
}

/// The role gate's whole rule: a role claim must have been extracted from a
/// valid token and be one of the roles the route group allows.
pub open spec fn role_gate_spec(claim: Option<String>, allowed: Seq<String>) -> bool {
    claim matches Some(role) && exists|i: int| 0 <= i < allowed.len() && allowed[i]@ == role@
}

/// Decides the role gate, given the role claim of a verified bearer token
/// (or nothing when the header was missing or the token invalid) and the
/// route group's allow-list.
pub fn role_gate_allows(claim: &Option<String>, allowed_roles: &Vec<String>) -> (r: bool)
    ensures
        r == role_gate_spec(*claim, allowed_roles@),
{
    let role = match claim {
        Some(role) => role,
        None => {
            return false;
        },
    };
    let n = allowed_roles.len();
    let mut i: usize = 0;
    while i < n
        invariant
            0 <= i <= n,
            n == allowed_roles@.len(),
            *claim == Some(*role),
            forall|k: int| 0 <= k < i ==> (#[trigger] allowed_roles@[k])@ != role@,
        decreases n - i,
    {
        if allowed_roles[i] == *role {
            proof {
                assert(0 <= i < allowed_roles@.len() && allowed_roles@[i as int]@ == role@);
            }
            return true;
        }
        i = i + 1;
    }
    false
}

} // verus!
