//! Listing the users of the directory: all of them or the enabled ones,
//! ordered by display name.

use vstd::prelude::*;
use vstd::utf8::encode_utf8;
use crate::users::User;

verus! {

/// Which users a listing shows.
#[derive(Clone, Copy, Debug, PartialEq, Eq, Structural)]
pub enum ListFilter {
    /// Every user.
    All,
    /// The enabled users only.
    EnabledOnly,
}

/// Whether a listing under `filter` shows `user`.
pub open spec fn selects(filter: ListFilter, user: User) -> bool {
    filter == ListFilter::All || user.enabled
}

/// The users that a listing under `filter` shows, as a predicate.
pub open spec fn selector(filter: ListFilter) -> spec_fn(User) -> bool {
    |user: User| selects(filter, user)
}

/// The first position at or after `from` where `a` and `b` differ or one
/// of them ends.
pub open spec fn common_prefix(a: Seq<u8>, b: Seq<u8>, from: int) -> int
    decreases a.len() - from,
{
    if 0 <= from < a.len() && from < b.len() && a[from] == b[from] {
        common_prefix(a, b, from + 1)
    } else {
        from
    }
}

/// Whether `a` comes before `b` or equals it, byte by byte: `a` ends where
/// they first differ, or has the smaller byte there.
pub open spec fn bytes_le(a: Seq<u8>, b: Seq<u8>) -> bool {
    let k = common_prefix(a, b, 0);
    k == a.len() || (k < b.len() && a[k] < b[k])
}

/// Whether a user with display name `a` is listed before one with display
/// name `b`, or either may come first: names go by their UTF-8 bytes, and
/// users without a name come last.
pub open spec fn name_le(a: Option<String>, b: Option<String>) -> bool {
    match (a, b) {
        (Some(x), Some(y)) => bytes_le(encode_utf8(x@), encode_utf8(y@)),
        (Some(_), None) => true,
        (None, Some(_)) => false,
        (None, None) => true,
    }
}

/// Whether `users` stand in the order of their display names.
pub open spec fn ordered(users: Seq<User>) -> bool {
    forall|i: int, j: int|
        0 <= i < j < users.len() ==> name_le(
            #[trigger] users[i].display_name,
            #[trigger] users[j].display_name,
        )
}

/// Up to their common prefix two texts agree, and right after it they
/// differ unless one has ended.
pub proof fn lemma_common_prefix(a: Seq<u8>, b: Seq<u8>, from: int)
    requires
        0 <= from <= a.len(),
        from <= b.len(),
    ensures
        from <= common_prefix(a, b, from) <= a.len(),
        common_prefix(a, b, from) <= b.len(),
        forall|i: int| from <= i < common_prefix(a, b, from) ==> a[i] == b[i],
        common_prefix(a, b, from) < a.len() && common_prefix(a, b, from) < b.len() ==> a[common_prefix(
            a,
            b,
            from,
        )] != b[common_prefix(a, b, from)],
    decreases a.len() - from,
{
    if from < a.len() && from < b.len() && a[from] == b[from] {
        lemma_common_prefix(a, b, from + 1);
    }
}

/// The common prefix ends at the one position up to which the texts agree
/// and at which they differ or one has ended.
pub proof fn lemma_common_prefix_unique(a: Seq<u8>, b: Seq<u8>, from: int, k: int)
    requires
        0 <= from <= k,
        k <= a.len(),
        k <= b.len(),
        forall|i: int| from <= i < k ==> a[i] == b[i],
        k < a.len() && k < b.len() ==> a[k] != b[k],
    ensures
        common_prefix(a, b, from) == k,
    decreases k - from,
{
    if from < k {
        lemma_common_prefix_unique(a, b, from + 1, k);
    }
}

/// Of two texts one comes before the other, or they are equal.
pub proof fn lemma_bytes_le_total(a: Seq<u8>, b: Seq<u8>)
    ensures
        bytes_le(a, b) || bytes_le(b, a),
{
    let k = common_prefix(a, b, 0);
    lemma_common_prefix(a, b, 0);
    lemma_common_prefix_unique(b, a, 0, k);
}

/// The order of texts is transitive.
pub proof fn lemma_bytes_le_transitive(a: Seq<u8>, b: Seq<u8>, c: Seq<u8>)
    requires
        bytes_le(a, b),
        bytes_le(b, c),
    ensures
        bytes_le(a, c),
{
    let k1 = common_prefix(a, b, 0);
    let k2 = common_prefix(b, c, 0);
    lemma_common_prefix(a, b, 0);
    lemma_common_prefix(b, c, 0);
    let k = if k1 <= k2 {
        k1
    } else {
        k2
    };
    lemma_common_prefix_unique(a, c, 0, k);
}

/// Of two display names one is listed before the other, or either may
/// come first.
pub proof fn lemma_name_le_total(a: Option<String>, b: Option<String>)
    ensures
        name_le(a, b) || name_le(b, a),
{
    if let (Some(x), Some(y)) = (a, b) {
        lemma_bytes_le_total(encode_utf8(x@), encode_utf8(y@));
    }
}

/// The order of display names is transitive.
pub proof fn lemma_name_le_transitive(a: Option<String>, b: Option<String>, c: Option<String>)
    requires
        name_le(a, b),
        name_le(b, c),
    ensures
        name_le(a, c),
{
    if let (Some(x), Some(y), Some(z)) = (a, b, c) {
        lemma_bytes_le_transitive(encode_utf8(x@), encode_utf8(y@), encode_utf8(z@));
    }
}

/// Inserting an element adds it to what a sequence holds and changes
/// nothing else.
pub proof fn lemma_insert_adds_one<A>(s: Seq<A>, k: int, x: A)
    requires
        0 <= k <= s.len(),
    ensures
        s.insert(k, x).to_multiset() =~= s.to_multiset().insert(x),
{
    let t = s.insert(k, x);
    assert(t.remove(k) =~= s);
    assert(t[k] == x);
    vstd::seq_lib::to_multiset_remove(t, k);
    t.to_multiset_ensures();
    assert(t.contains(x));
}

/// Decides [`bytes_le`].
pub fn bytes_before(a: &[u8], b: &[u8]) -> (le: bool)
    ensures
        le == bytes_le(a@, b@),
{
    let mut i: usize = 0;
    while i < a.len() && i < b.len() && a[i] == b[i]
        invariant
            i <= a@.len(),
            i <= b@.len(),
            common_prefix(a@, b@, 0) == common_prefix(a@, b@, i as int),
        decreases a@.len() - i,
    {
        i = i + 1;
    }
    i == a.len() || (i < b.len() && a[i] < b[i])
}

/// Decides [`name_le`].
pub fn name_before(a: &Option<String>, b: &Option<String>) -> (le: bool)
    ensures
        le == name_le(*a, *b),
{
    match a {
        Some(x) => match b {
            Some(y) => bytes_before(x.as_str().as_bytes(), y.as_str().as_bytes()),
            None => true,
        },
        None => match b {
            Some(_) => false,
            None => true,
        },
    }
}

/// Lists the users that `filter` selects, ordered by display name: exactly
/// the selected users, each as often as it was given.
pub fn list(users: &Vec<User>, filter: ListFilter) -> (listing: Vec<User>)
    ensures
        listing@.to_multiset() =~= users@.filter(selector(filter)).to_multiset(),
        ordered(listing@),
{
    let mut listing: Vec<User> = Vec::new();
    let mut i: usize = 0;
    assert(users@.subrange(0, 0).filter(selector(filter)) =~= Seq::<User>::empty()) by {
        reveal(Seq::filter);
    }
    while i < users.len()
        invariant
            i <= users@.len(),
            listing@.to_multiset() =~= users@.subrange(0, i as int).filter(
                selector(filter),
            ).to_multiset(),
            ordered(listing@),
        decreases users@.len() - i,
    {
        let ghost seen = users@.subrange(0, i as int);
        let ghost next = users@.subrange(0, i + 1);
        proof {
            reveal(Seq::filter);
            assert(next.drop_last() =~= seen);
            assert(next.last() == users@[i as int]);
        }
        let selected: bool = match filter {
            ListFilter::All => true,
            ListFilter::EnabledOnly => users[i].is_active(),
        };
        if selected {
            let user = users[i].clone();
            insert_ordered(&mut listing, user);
            proof {
                vstd::seq_lib::to_multiset_build(seen.filter(selector(filter)), users@[i as int]);
            }
        }
        i = i + 1;
    }
    assert(users@.subrange(0, users@.len() as int) =~= users@);
    listing
}

/// Puts `user` into an ordered listing, behind every user whose name is
/// not greater.
pub fn insert_ordered(listing: &mut Vec<User>, user: User)
    requires
        ordered(old(listing)@),
    ensures
        ordered(final(listing)@),
        final(listing)@.to_multiset() =~= old(listing)@.to_multiset().insert(user),
{
    let mut k: usize = 0;
    while k < listing.len() && name_before(&listing[k].display_name, &user.display_name)
        invariant
            k <= listing@.len(),
            listing@ == old(listing)@,
            forall|j: int|
                0 <= j < k ==> name_le(#[trigger] listing@[j].display_name, user.display_name),
        decreases listing@.len() - k,
    {
        k = k + 1;
    }
    let ghost before = listing@;
    proof {
        lemma_insert_adds_one(before, k as int, user);
        assert forall|i: int, j: int| 0 <= i < j < before.insert(k as int, user).len() implies name_le(
            #[trigger] before.insert(k as int, user)[i].display_name,
            #[trigger] before.insert(k as int, user)[j].display_name,
        ) by {
            let after = before.insert(k as int, user);
            if j < k {
                assert(after[i] == before[i] && after[j] == before[j]);
            } else if j == k {
                assert(after[i] == before[i]);
            } else if i == k {
                assert(after[j] == before[j - 1]);
                lemma_name_le_total(before[k as int].display_name, user.display_name);
                if j - 1 > k {
                    lemma_name_le_transitive(
                        user.display_name,
                        before[k as int].display_name,
                        before[j - 1].display_name,
                    );
                }
            } else if i < k {
                assert(after[i] == before[i] && after[j] == before[j - 1]);
            } else {
                assert(after[i] == before[i - 1] && after[j] == before[j - 1]);
            }
        }
    }
    listing.insert(k, user);
}

} // verus!
