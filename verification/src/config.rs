//! Shared runtime configuration, from settings named in the environment.

use vstd::prelude::*;

use crate::text::char_vec;

verus! {

broadcast use vstd::string::group_string_axioms;

/// Shared runtime configuration, loaded from environment variables so the
/// same binary works locally and on Cloud Run without code changes.
#[derive(Debug, Clone)]
pub struct Config {
    pub gcp_project: String,
    pub firestore_database_id: String,
    pub port: u16,
    pub rp_id: String,
    pub rp_origin: String,
    /// Base URL of the authorization service, used by any function that
    /// needs to check what a session is allowed to do.
    pub authorization_url: String,
}

/// `c` is an ASCII decimal digit.
pub open spec fn is_digit(c: char) -> bool {
    48 <= c as u32 <= 57
}

/// The value of the decimal digits `s`.
pub open spec fn digits_value(s: Seq<char>) -> int
    decreases s.len(),
{
    if s.len() == 0 {
        0
    } else {
        digits_value(s.drop_last()) * 10 + (s.last() as u32 - 48)
    }
}

/// The digits of a number text: without a leading `+`, if it has one.
pub open spec fn unsigned_digits(s: Seq<char>) -> Seq<char> {
    if s.len() > 0 && s[0] == '+' {
        s.drop_first()
    } else {
        s
    }
}

/// How `str::parse::<u16>` reads `s`: an optional `+`, then one or more
/// decimal digits whose value fits in 16 bits.
pub open spec fn parsed_u16(s: Seq<char>) -> Option<u16> {
    let d = unsigned_digits(s);
    if d.len() > 0 && (forall|i: int| 0 <= i < d.len() ==> is_digit(#[trigger] d[i])) && digits_value(d) <= 65535 {
        Some(digits_value(d) as u16)
    } else {
        None
    }
}

/// The value of a digit text is never negative.
proof fn lemma_digits_value_nonneg(s: Seq<char>)
    requires
        forall|i: int| 0 <= i < s.len() ==> is_digit(#[trigger] s[i]),
    ensures
        digits_value(s) >= 0,
    decreases s.len(),
{
    if s.len() > 0 {
        assert(is_digit(s[s.len() - 1]));
        lemma_digits_value_nonneg(s.drop_last());
    }
}

/// Reads a port number as `str::parse::<u16>` does.
pub fn parse_port(s: &str) -> (r: Option<u16>)
    ensures
        r == parsed_u16(s@),
{
    let c = char_vec(s);
    let n = c.len();
    let start: usize = if n > 0 && c[0] == '+' { 1 } else { 0 };
    let ghost d = unsigned_digits(s@);
    proof {
        if start == 1 {
            assert(d =~= s@.subrange(1, n as int));
        } else {
            assert(d =~= s@.subrange(0, n as int));
        }
    }
    if start == n {
        return None;
    }
    let mut value: u32 = 0;
    let mut i: usize = start;
    while i < n
        invariant
            c@ == s@,
            n == c@.len(),
            start <= i <= n,
            d == s@.subrange(start as int, n as int),
            d == unsigned_digits(s@),
            forall|k: int| start <= k < i ==> is_digit(#[trigger] s@[k]),
            value <= 65536,
            value == (if digits_value(s@.subrange(start as int, i as int)) > 65536 { 65536 } else {
                digits_value(s@.subrange(start as int, i as int))
            }),
        decreases n - i,
    {
        let ch = c[i];
        let code = ch as u32;
        if !(48 <= code && code <= 57) {
            assert(d[i - start] == ch);
            assert(!is_digit(d[i - start]));
            return None;
        }
        let ghost before = s@.subrange(start as int, i as int);
        let next = value * 10 + (code - 48);
        value = if next > 65536 { 65536 } else { next };
        proof {
            let after = s@.subrange(start as int, i + 1);
            assert(after.drop_last() =~= before);
            assert forall|k: int| 0 <= k < before.len() implies is_digit(#[trigger] before[k]) by {
                assert(before[k] == s@[start + k]);
            }
            lemma_digits_value_nonneg(before);
        }
        i = i + 1;
    }
    proof {
        assert(s@.subrange(start as int, n as int) == d);
        assert forall|k: int| 0 <= k < d.len() implies is_digit(#[trigger] d[k]) by {
            assert(d[k] == s@[start + k]);
        }
    }
    if value > 65535 {
        return None;
    }
    Some(value as u16)
}

/// The configuration from settings, each of which may be unset: the GCP
/// project is required; the others default to the `users-dev` database,
/// port 8081 (also when the port setting is not a port number), RP id
/// `localhost`, RP origin `http://localhost:8081` and authorization service
/// `http://localhost:8084`.
pub fn config_from_settings(
    gcp_project: String,
    firestore_database_id: Option<String>,
    port: Option<String>,
    rp_id: Option<String>,
    rp_origin: Option<String>,
    authorization_url: Option<String>,
) -> (r: Config)
    ensures
        r.gcp_project == gcp_project,
        r.firestore_database_id@ == (match firestore_database_id { Some(v) => v@, None => "users-dev"@ }),
        r.port == (match port {
            Some(p) => match parsed_u16(p@) { Some(n) => n, None => 8081u16 },
            None => 8081u16,
        }),
        r.rp_id@ == (match rp_id { Some(v) => v@, None => "localhost"@ }),
        r.rp_origin@ == (match rp_origin { Some(v) => v@, None => "http://localhost:8081"@ }),
        r.authorization_url@ == (match authorization_url { Some(v) => v@, None => "http://localhost:8084"@ }),
{
    let parsed = match &port {
        Some(p) => parse_port(p.as_str()),
        None => None,
    };
    Config {
        gcp_project,
        firestore_database_id: match firestore_database_id {
            Some(v) => v,
            None => String::from_str("users-dev"),
        },
        port: match parsed {
            Some(n) => n,
            None => 8081,
        },
        rp_id: match rp_id {
            Some(v) => v,
            None => String::from_str("localhost"),
        },
        rp_origin: match rp_origin {
            Some(v) => v,
            None => String::from_str("http://localhost:8081"),
        },
        authorization_url: match authorization_url {
            Some(v) => v,
            None => String::from_str("http://localhost:8084"),
        },
    }
}

} // verus!
