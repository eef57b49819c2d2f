//! Whether a session may call a function, and with which attributes.
//!
//! A user is granted a function through a group they belong to
//! (`functions/{function_id}/groups/{group_id}`) or directly
//! (`functions/{function_id}/users/{user_id}`); the direct grant's
//! attributes are merged over the group's.

use vstd::prelude::*;

use crate::attributes::Attributes;
use crate::session::{Session, SessionError};
use crate::store::{StoreError, UserId};

verus! {

broadcast use vstd::string::group_string_axioms;

/// The first present value of `s`.
pub open spec fn first_present<A>(s: Seq<Option<A>>) -> Option<A>
    decreases s.len(),
{
    if s.len() == 0 {
        None
    } else if s[0] is Some {
        s[0]
    } else {
        first_present(s.drop_first())
    }
}

/// The attribute map of an optional grant; no grant has none.
pub open spec fn grant_map<V>(g: Option<Attributes<V>>) -> Map<Seq<char>, V> {
    match g {
        Some(a) => a@,
        None => Map::empty(),
    }
}

/// The attributes a user is granted from a group grant `base` and a direct
/// grant `direct`: none if neither exists, else the direct grant's
/// attributes over the group's.
pub open spec fn resolved<V>(base: Option<Attributes<V>>, direct: Option<Attributes<V>>) -> Option<Map<Seq<char>, V>> {
    if base is None && direct is None {
        None
    } else {
        Some(grant_map(base).union_prefer_right(grant_map(direct)))
    }
}

/// The map of an optional set of attributes.
pub open spec fn opt_map<V>(a: Option<Attributes<V>>) -> Option<Map<Seq<char>, V>> {
    match a {
        Some(a) => Some(a@),
        None => None,
    }
}

/// The first group grant found, looking the user's groups up in order.
pub fn first_group_grant<V>(lookups: Vec<Option<Attributes<V>>>) -> (r: Option<Attributes<V>>)
    ensures
        r == first_present(lookups@),
{
    let ghost all = lookups@;
    let mut rest = lookups;
    while rest.len() > 0
        invariant
            all == lookups@,
            first_present(rest@) == first_present(all),
        decreases rest@.len(),
    {
        let ghost before = rest@;
        let head = rest.remove(0);
        if head.is_some() {
            assert(first_present(before) == head);
            return head;
        }
        assert(before.drop_first() =~= rest@);
    }
    None
}

/// Merges a user's direct grant over the first group grant found: `None` if
/// nothing grants the function at all.
pub fn merge_grants<V>(base: Option<Attributes<V>>, direct: Option<Attributes<V>>) -> (r: Option<Attributes<V>>)
    ensures
        opt_map(r) == resolved(base, direct),
{
    match (base, direct) {
        (None, None) => None,
        (base, Some(direct_attrs)) => {
            let mut merged = match base {
                Some(b) => b,
                None => Attributes::new(),
            };
            proof {
                assert(grant_map(Some(direct_attrs)) == direct_attrs@);
            }
            merged.extend(direct_attrs);
            Some(merged)
        },
        (Some(b), None) => {
            proof {
                assert(b@.union_prefer_right(Map::empty()) =~= b@);
            }
            Some(b)
        },
    }
}

/// Resolves what a user is granted for a function, from the group grant
/// lookups of the user's groups in membership order (a lookup list may end
/// at the first grant found) and the user's direct grant.
///
/// Base attributes come from the first of the user's groups that has a
/// grant (first match wins if a user is in more than one permitted group).
/// A direct grant, if present, has its keys merged **over** that base (or
/// stands alone if there's no permitted group at all).
pub fn resolve_grants<V>(group_lookups: Vec<Option<Attributes<V>>>, direct: Option<Attributes<V>>) -> (r: Option<Attributes<V>>)
    ensures
        opt_map(r) == resolved(first_present(group_lookups@), direct),
{
    let base = first_group_grant(group_lookups);
    merge_grants(base, direct)
}

/// Records the grant looked up for the next of a user's groups, and says
/// whether looking further is over: it is once a group grants access,
/// since only the first grant in membership order is used.
pub fn record_group_lookup<V>(lookups: &mut Vec<Option<Attributes<V>>>, found: Option<Attributes<V>>) -> (done: bool)
    ensures
        final(lookups)@ == old(lookups)@.push(found),
        done == (found is Some),
{
    let done = found.is_some();
    lookups.push(found);
    done
}

/// A direct grant's value for a key wins over the group's.
pub proof fn law_direct_grant_overrides_group<V>(base: Option<Attributes<V>>, direct: Attributes<V>, k: Seq<char>)
    requires
        direct@.contains_key(k),
    ensures
        resolved(base, Some(direct)) matches Some(m) && m.contains_key(k) && m[k] == direct@[k],
{
}

/// A group attribute that the direct grant does not set is kept.
pub proof fn law_group_attribute_kept<V>(base: Attributes<V>, direct: Option<Attributes<V>>, k: Seq<char>)
    requires
        base@.contains_key(k),
        !grant_map(direct).contains_key(k),
    ensures
        resolved(Some(base), direct) matches Some(m) && m.contains_key(k) && m[k] == base@[k],
{
}

/// The resolved attributes hold exactly the keys of the two grants.
pub proof fn law_resolved_keys<V>(base: Option<Attributes<V>>, direct: Option<Attributes<V>>, k: Seq<char>)
    requires
        resolved(base, direct) is Some,
    ensures
        resolved(base, direct).unwrap().contains_key(k) <==> grant_map(base).contains_key(k) || grant_map(direct).contains_key(k),
{
}

/// Access is granted exactly when some group grant or a direct grant exists.
pub proof fn law_access_needs_a_grant<V>(group_lookups: Seq<Option<Attributes<V>>>, direct: Option<Attributes<V>>)
    ensures
        resolved(first_present(group_lookups), direct) is Some <==>
            (direct is Some || exists|i: int| 0 <= i < group_lookups.len() && group_lookups[i] is Some),
    decreases group_lookups.len(),
{
    if group_lookups.len() > 0 {
        law_access_needs_a_grant(group_lookups.drop_first(), direct);
        if exists|i: int| 0 <= i < group_lookups.drop_first().len() && group_lookups.drop_first()[i] is Some {
            let i = choose|i: int| 0 <= i < group_lookups.drop_first().len() && group_lookups.drop_first()[i] is Some;
            assert(group_lookups[i + 1] is Some);
        }
        if exists|i: int| 0 <= i < group_lookups.len() && group_lookups[i] is Some {
            let i = choose|i: int| 0 <= i < group_lookups.len() && group_lookups[i] is Some;
            if i > 0 {
                assert(group_lookups.drop_first()[i - 1] is Some);
            }
        }
    }
}

/// The group grant used is the first one in membership order: lookups after
/// it do not matter.
pub proof fn law_first_group_wins<V>(group_lookups: Seq<Option<Attributes<V>>>, i: int)
    requires
        0 <= i < group_lookups.len(),
        group_lookups[i] is Some,
        forall|j: int| 0 <= j < i ==> group_lookups[j] is None,
    ensures
        first_present(group_lookups) == group_lookups[i],
    decreases i,
{
    if i > 0 {
        law_first_group_wins(group_lookups.drop_first(), i - 1);
    }
}

/// The answer to "may this session call this function?".
#[derive(Debug)]
pub struct AuthorizeResponse<V> {
    pub authorized: bool,
    pub user_id: Option<UserId>,
    pub attributes: Option<Attributes<V>>,
    pub reason: Option<String>,
}

impl<V> AuthorizeResponse<V> {
    /// A refusal, for `reason`.
    pub fn denied(reason: &str) -> (r: Self)
        ensures
            !r.authorized,
            r.user_id is None,
            r.attributes is None,
            has_reason(r.reason, reason@),
    {
        AuthorizeResponse {
            authorized: false,
            user_id: None,
            attributes: None,
            reason: Some(String::from_str(reason)),
        }
    }
}

/// `reason` is present and reads `text`.
pub open spec fn has_reason(reason: Option<String>, text: Seq<char>) -> bool {
    reason matches Some(s) && s@ == text
}

/// Why a session is refused when it cannot be loaded.
pub open spec fn reason_session() -> Seq<char> {
    "invalid or expired session"@
}

/// Why a session is refused when nothing grants the function.
pub open spec fn reason_not_granted() -> Seq<char> {
    "not authorized for this function"@
}

/// Why a session is refused when the grants could not be read.
pub open spec fn reason_internal() -> Seq<char> {
    "internal error"@
}

/// The answer for a session lookup and, if the session is active, the
/// grant lookup for its user. Always an answer, never an error: whether
/// the caller is authorized is what is being asked.
pub fn authorize_outcome<V>(
    session: Result<Session, SessionError>,
    access: Result<Option<Attributes<V>>, StoreError>,
) -> (r: AuthorizeResponse<V>)
    ensures
        r.authorized <==> (session is Ok && access matches Ok(Some(_))),
        r.authorized ==> r.reason is None && r.user_id == Some(session->Ok_0.user_id)
            && opt_map(r.attributes) == opt_map(access->Ok_0),
        !r.authorized ==> r.user_id is None && r.attributes is None,
        session is Err ==> has_reason(r.reason, reason_session()),
        (session is Ok && access == Ok::<Option<Attributes<V>>, StoreError>(None)) ==> has_reason(r.reason, reason_not_granted()),
        (session is Ok && access is Err) ==> has_reason(r.reason, reason_internal()),
{
    let session = match session {
        Ok(s) => s,
        Err(_) => return AuthorizeResponse::denied("invalid or expired session"),
    };
    match access {
        Ok(Some(attributes)) => AuthorizeResponse {
            authorized: true,
            user_id: Some(session.user_id),
            attributes: Some(attributes),
            reason: None,
        },
        Ok(None) => AuthorizeResponse::denied("not authorized for this function"),
        Err(_) => AuthorizeResponse::denied("internal error"),
    }
}

} // verus!
