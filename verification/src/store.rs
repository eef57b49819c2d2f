//! Names and values shared with the document store.

use vstd::prelude::*;

verus! {

pub const COLLECTION_USERNAMES: &'static str = "usernames";
pub const COLLECTION_USERS: &'static str = "users";
pub const COLLECTION_CREDENTIALS: &'static str = "credentials";
pub const COLLECTION_REGISTRATION_SESSIONS: &'static str = "registration_sessions";
pub const COLLECTION_AUTHENTICATION_SESSIONS: &'static str = "authentication_sessions";
pub const COLLECTION_SESSIONS: &'static str = "sessions";
pub const COLLECTION_FUNCTIONS: &'static str = "functions";
pub const COLLECTION_GROUPS: &'static str = "groups";
/// Under `groups/{group_id}`: one document per member, named by the user id.
pub const COLLECTION_MEMBERS: &'static str = "members";
pub const COLLECTION_DPOP_REPLAY: &'static str = "dpop_replay";

/// A failed store operation, by the text the store describes it with.
#[derive(Debug)]
pub struct StoreError {
    pub detail: String,
}

/// A user's identifier: the 128 bits of its UUID.
#[derive(Clone, Copy, Debug, PartialEq, Eq, Structural)]
pub struct UserId(pub u128);

/// The present values of `s`, in order.
pub open spec fn present<T>(s: Seq<Option<T>>) -> Seq<T>
    decreases s.len(),
{
    if s.len() == 0 {
        Seq::empty()
    } else {
        let before = present(s.drop_last());
        match s.last() {
            Some(x) => before.push(x),
            None => before,
        }
    }
}

/// The ids that documents carry, in listing order; documents without one
/// are skipped.
pub fn present_ids<T>(ids: Vec<Option<T>>) -> (r: Vec<T>)
    ensures
        r@ == present(ids@),
{
    let ghost all = ids@;
    let mut rest = ids;
    let mut out: Vec<T> = Vec::new();
    let ghost mut done: int = 0;
    proof {
        assert(all.subrange(0, 0) =~= Seq::<Option<T>>::empty());
        assert(rest@ =~= all.subrange(0, all.len() as int));
    }
    while rest.len() > 0
        invariant
            all == ids@,
            0 <= done <= all.len(),
            rest@ == all.subrange(done, all.len() as int),
            out@ == present(all.subrange(0, done)),
        decreases rest@.len(),
    {
        let head = rest.remove(0);
        proof {
            assert(all.subrange(0, done + 1).drop_last() =~= all.subrange(0, done));
            assert(all[done] == head);
        }
        match head {
            Some(x) => out.push(x),
            None => {},
        }
        proof {
            done = done + 1;
            assert(rest@ =~= all.subrange(done, all.len() as int));
        }
    }
    proof {
        assert(all.subrange(0, done) =~= all);
    }
    out
}

/// The entries of `s` whose value is present, with that value.
pub open spec fn found<K, A>(s: Seq<(K, Option<A>)>) -> Seq<(K, A)>
    decreases s.len(),
{
    if s.len() == 0 {
        Seq::empty()
    } else {
        let before = found(s.drop_last());
        match s.last().1 {
            Some(a) => before.push((s.last().0, a)),
            None => before,
        }
    }
}

/// The keyed lookups that found a document, in order, with what they found.
pub fn found_entries<K, A>(lookups: Vec<(K, Option<A>)>) -> (r: Vec<(K, A)>)
    ensures
        r@ == found(lookups@),
{
    let ghost all = lookups@;
    let mut rest = lookups;
    let mut out: Vec<(K, A)> = Vec::new();
    let ghost mut done: int = 0;
    proof {
        assert(all.subrange(0, 0) =~= Seq::<(K, Option<A>)>::empty());
        assert(rest@ =~= all.subrange(0, all.len() as int));
    }
    while rest.len() > 0
        invariant
            all == lookups@,
            0 <= done <= all.len(),
            rest@ == all.subrange(done, all.len() as int),
            out@ == found(all.subrange(0, done)),
        decreases rest@.len(),
    {
        let (key, value) = rest.remove(0);
        proof {
            assert(all.subrange(0, done + 1).drop_last() =~= all.subrange(0, done));
            assert(all[done] == (key, value));
        }
        match value {
            Some(a) => out.push((key, a)),
            None => {},
        }
        proof {
            done = done + 1;
            assert(rest@ =~= all.subrange(done, all.len() as int));
        }
    }
    proof {
        assert(all.subrange(0, done) =~= all);
    }
    out
}

} // verus!
