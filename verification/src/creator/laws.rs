//! What holds of the union by identity and of the inclusion filter.

use vstd::prelude::*;

use super::merge::{merge_into, merged, position_of, retained, upsert};
use crate::config::FilterPolicy;
use crate::fanbox::Creator;

verus! {

/// The identities that occur in a listing.
pub open spec fn identities(listing: Seq<Creator>) -> Set<(Seq<char>, Seq<char>)> {
    Set::new(
        |k: (Seq<char>, Seq<char>)|
            exists|i: int| 0 <= i < listing.len() && (#[trigger] listing[i]).key() == k,
    )
}

/// No two entries of a listing denote the same creator.
pub open spec fn distinct(listing: Seq<Creator>) -> bool {
    forall|i: int, j: int|
        #![trigger listing[i], listing[j]]
        0 <= i < j < listing.len() ==> !listing[i].same_identity(&listing[j])
}

/// `position_of` finds the first entry with the identity of `c`.
pub proof fn lemma_position_of(acc: Seq<Creator>, c: Creator, from: int)
    requires
        0 <= from <= acc.len(),
    ensures
        from <= position_of(acc, c, from) <= acc.len(),
        position_of(acc, c, from) < acc.len() ==> acc[position_of(acc, c, from)].same_identity(&c),
        forall|j: int|
            from <= j < position_of(acc, c, from) ==> !(#[trigger] acc[j]).same_identity(&c),
    decreases acc.len() - from,
{
    if from < acc.len() && !acc[from].same_identity(&c) {
        lemma_position_of(acc, c, from + 1);
    }
}

proof fn lemma_identities_push(s: Seq<Creator>, c: Creator)
    ensures
        identities(s.push(c)) == identities(s).insert(c.key()),
{
    let t = s.push(c);
    assert forall|k: (Seq<char>, Seq<char>)|
        identities(t).contains(k) <==> identities(s).insert(c.key()).contains(k) by {
        if identities(t).contains(k) {
            let i = choose|i: int| 0 <= i < t.len() && (#[trigger] t[i]).key() == k;
            if i < s.len() {
                assert(s[i].key() == k);
            }
        }
        if identities(s).contains(k) {
            let i = choose|i: int| 0 <= i < s.len() && (#[trigger] s[i]).key() == k;
            assert(t[i].key() == k);
        }
        if k == c.key() {
            assert(t[s.len() as int].key() == k);
        }
    }
    assert(identities(t) =~= identities(s).insert(c.key()));
}

proof fn lemma_identities_update(s: Seq<Creator>, at: int, c: Creator)
    requires
        0 <= at < s.len(),
        s[at].key() == c.key(),
    ensures
        identities(s.update(at, c)) == identities(s),
{
    let t = s.update(at, c);
    assert forall|k: (Seq<char>, Seq<char>)| identities(t).contains(k) <==> identities(
        s,
    ).contains(k) by {
        if identities(t).contains(k) {
            let i = choose|i: int| 0 <= i < t.len() && (#[trigger] t[i]).key() == k;
            assert(s[i].key() == k);
        }
        if identities(s).contains(k) {
            let i = choose|i: int| 0 <= i < s.len() && (#[trigger] s[i]).key() == k;
            assert(t[i].key() == k);
        }
    }
    assert(identities(t) =~= identities(s));
}

/// A listing holds finitely many identities.
pub proof fn lemma_identities_finite(s: Seq<Creator>)
    ensures
        identities(s).finite(),
    decreases s.len(),
{
    if s.len() == 0 {
        assert(identities(s) =~= Set::empty());
    } else {
        lemma_identities_finite(s.drop_last());
        lemma_identities_push(s.drop_last(), s.last());
        assert(s.drop_last().push(s.last()) =~= s);
    }
}

/// Putting a creator in adds its identity and nothing else, keeps the
/// entries distinct, grows the listing only for a new identity, and leaves
/// the creator's own fields at its place.
pub proof fn lemma_upsert(acc: Seq<Creator>, c: Creator)
    ensures
        identities(upsert(acc, c)) == identities(acc).insert(c.key()),
        distinct(acc) ==> distinct(upsert(acc, c)),
        upsert(acc, c).len() == if identities(acc).contains(c.key()) {
            acc.len()
        } else {
            acc.len() + 1
        },
        0 <= position_of(acc, c, 0) < upsert(acc, c).len(),
        upsert(acc, c)[position_of(acc, c, 0)] == c,
{
    let at = position_of(acc, c, 0);
    let next = upsert(acc, c);
    lemma_position_of(acc, c, 0);
    if at < acc.len() {
        lemma_identities_update(acc, at, c);
        assert(acc[at].key() == c.key());
        assert(identities(acc).contains(c.key()));
        assert(identities(acc).insert(c.key()) =~= identities(acc));
        if distinct(acc) {
            assert forall|i: int, j: int|
                #![trigger next[i], next[j]]
                0 <= i < j < next.len() implies !next[i].same_identity(&next[j]) by {
                assert(next[i].key() == acc[i].key());
                assert(next[j].key() == acc[j].key());
                assert(!acc[i].same_identity(&acc[j]));
            }
        }
    } else {
        lemma_identities_push(acc, c);
        if identities(acc).contains(c.key()) {
            let i = choose|i: int| 0 <= i < acc.len() && (#[trigger] acc[i]).key() == c.key();
            assert(acc[i].same_identity(&c));
        }
        if distinct(acc) {
            assert forall|i: int, j: int|
                #![trigger next[i], next[j]]
                0 <= i < j < next.len() implies !next[i].same_identity(&next[j]) by {
                if j < acc.len() {
                    assert(!acc[i].same_identity(&acc[j]));
                } else {
                    assert(!acc[i].same_identity(&c));
                }
            }
        }
    }
}

/// Merging a listing into distinct entries gives distinct entries, one for
/// each identity of either.
pub proof fn lemma_merge_into(acc: Seq<Creator>, listing: Seq<Creator>)
    requires
        distinct(acc),
        acc.len() == identities(acc).len(),
    ensures
        distinct(merge_into(acc, listing)),
        identities(merge_into(acc, listing)) == identities(acc).union(identities(listing)),
        identities(merge_into(acc, listing)).finite(),
        merge_into(acc, listing).len() == identities(merge_into(acc, listing)).len(),
    decreases listing.len(),
{
    lemma_identities_finite(acc);
    lemma_identities_finite(listing);
    if listing.len() == 0 {
        assert(identities(listing) =~= Set::empty());
        assert(identities(acc).union(identities(listing)) =~= identities(acc));
    } else {
        let rest = listing.drop_last();
        let c = listing.last();
        let before = merge_into(acc, rest);
        lemma_merge_into(acc, rest);
        lemma_upsert(before, c);
        lemma_identities_push(rest, c);
        assert(rest.push(c) =~= listing);
        assert(identities(before).insert(c.key()) =~= identities(acc).union(identities(listing)));
    }
}

/// Merging two listings one after the other is merging their
/// concatenation.
pub proof fn lemma_merge_into_concat(acc: Seq<Creator>, first: Seq<Creator>, second: Seq<Creator>)
    ensures
        merge_into(merge_into(acc, first), second) == merge_into(acc, first + second),
    decreases second.len(),
{
    if second.len() == 0 {
        assert(first + second =~= first);
    } else {
        lemma_merge_into_concat(acc, first, second.drop_last());
        assert((first + second).drop_last() =~= first + second.drop_last());
        assert((first + second).last() == second.last());
    }
}

/// The union of two listings holds each creator once: its entries are
/// distinct by identity, and there are as many as there are identities in
/// either listing, however the two overlap.
pub proof fn lemma_union_counts_each_identity_once(
    following: Seq<Creator>,
    supporting: Seq<Creator>,
)
    ensures
        distinct(merged(following + supporting)),
        identities(following).finite(),
        identities(supporting).finite(),
        identities(merged(following + supporting)) == identities(following).union(
            identities(supporting),
        ),
        merged(following + supporting).len() == identities(following).union(
            identities(supporting),
        ).len(),
{
    let none = Seq::<Creator>::empty();
    assert(identities(none) =~= Set::empty());
    lemma_identities_finite(following);
    lemma_identities_finite(supporting);
    lemma_merge_into(none, following);
    lemma_merge_into(merge_into(none, following), supporting);
    lemma_merge_into_concat(none, following, supporting);
}

/// The union does not depend on which listing comes first: either order
/// gives the same identities, and as many entries.
pub proof fn lemma_union_commutes(following: Seq<Creator>, supporting: Seq<Creator>)
    ensures
        identities(merged(following + supporting)) == identities(merged(supporting + following)),
        merged(following + supporting).len() == merged(supporting + following).len(),
{
    lemma_union_counts_each_identity_once(following, supporting);
    lemma_union_counts_each_identity_once(supporting, following);
    assert(identities(following).union(identities(supporting)) =~= identities(supporting).union(
        identities(following),
    ));
}

/// A creator put in last is found in the union with its own fields: for
/// the display fields the last appearance wins.
pub proof fn lemma_last_appearance_wins(listing: Seq<Creator>, c: Creator)
    ensures
        0 <= position_of(merged(listing), c, 0) < merged(listing.push(c)).len(),
        merged(listing.push(c))[position_of(merged(listing), c, 0)] == c,
{
    assert(listing.push(c).drop_last() =~= listing);
    lemma_upsert(merged(listing), c);
}

/// The filter keeps only creators that the policy accepts, and no more
/// creators than it was given.
pub proof fn lemma_retained_accepted(policy: FilterPolicy, listing: Seq<Creator>)
    ensures
        retained(policy, listing).len() <= listing.len(),
        forall|i: int|
            0 <= i < retained(policy, listing).len() ==> policy.spec_accepts(
                #[trigger] retained(policy, listing)[i],
            ),
    decreases listing.len(),
{
    if listing.len() > 0 {
        lemma_retained_accepted(policy, listing.drop_last());
    }
}

/// The filter leaves a listing of accepted creators as it is.
pub proof fn lemma_retained_fixed(policy: FilterPolicy, listing: Seq<Creator>)
    requires
        forall|i: int| 0 <= i < listing.len() ==> policy.spec_accepts(#[trigger] listing[i]),
    ensures
        retained(policy, listing) == listing,
    decreases listing.len(),
{
    if listing.len() > 0 {
        lemma_retained_fixed(policy, listing.drop_last());
        assert(listing.drop_last().push(listing.last()) =~= listing);
    }
}

/// Filtering is idempotent: a filtered listing is a fixed point of the
/// same policy.
pub proof fn lemma_filter_idempotent(policy: FilterPolicy, listing: Seq<Creator>)
    ensures
        retained(policy, retained(policy, listing)) == retained(policy, listing),
{
    lemma_retained_accepted(policy, listing);
    lemma_retained_fixed(policy, retained(policy, listing));
}

/// A creator with a zero fee is excluded under `skip_free`, whatever the
/// lists name, and a creator on the deny-list is excluded even where the
/// allow-list names it.
pub proof fn lemma_exclusions_are_unconditional(policy: FilterPolicy, creator: Creator)
    ensures
        policy.skip_free && creator.fee == 0 ==> !policy.spec_accepts(creator),
        crate::config::id_listed(policy.blacklist@, creator.creator_id@) ==> !policy.spec_accepts(
            creator,
        ),
{
}

/// Without a listing there is no creator: the union of nothing is empty,
/// and so is what the filter keeps of it.
pub proof fn lemma_no_listing_no_creator(policy: FilterPolicy)
    ensures
        merged(Seq::empty()) == Seq::<Creator>::empty(),
        retained(policy, merged(Seq::empty())) == Seq::<Creator>::empty(),
{
}

/// Every entry of a merge comes from what was merged: it is an entry of
/// the listing merged into or of the listing merged in.
pub proof fn lemma_merge_into_members(acc: Seq<Creator>, listing: Seq<Creator>)
    ensures
        forall|i: int|
            0 <= i < merge_into(acc, listing).len() ==> acc.contains(
                #[trigger] merge_into(acc, listing)[i],
            ) || listing.contains(merge_into(acc, listing)[i]),
    decreases listing.len(),
{
    let m = merge_into(acc, listing);
    if listing.len() > 0 {
        let rest = listing.drop_last();
        let c = listing.last();
        let before = merge_into(acc, rest);
        lemma_merge_into_members(acc, rest);
        lemma_position_of(before, c, 0);
        assert forall|i: int| 0 <= i < m.len() implies acc.contains(#[trigger] m[i])
            || listing.contains(m[i]) by {
            if m[i] == c {
                assert(listing[listing.len() - 1] == c);
            } else {
                assert(m[i] == before[i]);
                if !acc.contains(before[i]) {
                    let j = choose|j: int| 0 <= j < rest.len() && rest[j] == before[i];
                    assert(listing[j] == before[i]);
                }
            }
        }
    } else {
        assert forall|i: int| 0 <= i < m.len() implies acc.contains(#[trigger] m[i])
            || listing.contains(m[i]) by {
            assert(acc[i] == m[i]);
        }
    }
}

/// What the filter keeps of distinct entries is distinct, and each kept
/// entry is one of the entries it was given.
pub proof fn lemma_retained_distinct(policy: FilterPolicy, listing: Seq<Creator>)
    requires
        distinct(listing),
    ensures
        distinct(retained(policy, listing)),
        forall|i: int|
            0 <= i < retained(policy, listing).len() ==> listing.contains(
                #[trigger] retained(policy, listing)[i],
            ),
    decreases listing.len(),
{
    let kept = retained(policy, listing);
    if listing.len() > 0 {
        let rest = listing.drop_last();
        let c = listing.last();
        let before = retained(policy, rest);
        assert(distinct(rest)) by {
            assert forall|i: int, j: int|
                #![trigger rest[i], rest[j]]
                0 <= i < j < rest.len() implies !rest[i].same_identity(&rest[j]) by {
                assert(!listing[i].same_identity(&listing[j]));
            }
        }
        lemma_retained_distinct(policy, rest);
        assert forall|i: int| 0 <= i < kept.len() implies listing.contains(#[trigger] kept[i]) by {
            if i < before.len() {
                let j = choose|j: int| 0 <= j < rest.len() && rest[j] == before[i];
                assert(listing[j] == kept[i]);
            } else {
                assert(listing[listing.len() - 1] == kept[i]);
            }
        }
        assert forall|i: int, j: int|
            #![trigger kept[i], kept[j]]
            0 <= i < j < kept.len() implies !kept[i].same_identity(&kept[j]) by {
            if j < before.len() {
                assert(!before[i].same_identity(&before[j]));
            } else {
                let k = choose|k: int| 0 <= k < rest.len() && rest[k] == before[i];
                assert(!listing[k].same_identity(&listing[listing.len() - 1]));
            }
        }
    }
}

/// The creators kept of two listings are distinct by identity, each is
/// accepted by the policy, and each is a candidate as one of the listings
/// holds it, field for field.
pub proof fn lemma_kept_are_distinct_candidates(
    policy: FilterPolicy,
    following: Seq<Creator>,
    supporting: Seq<Creator>,
)
    ensures
        distinct(retained(policy, merged(following + supporting))),
        forall|i: int|
            0 <= i < retained(policy, merged(following + supporting)).len() ==> {
                let c = #[trigger] retained(policy, merged(following + supporting))[i];
                &&& policy.spec_accepts(c)
                &&& (following.contains(c) || supporting.contains(c))
            },
{
    let all = following + supporting;
    let union = merged(all);
    let kept = retained(policy, union);
    lemma_union_counts_each_identity_once(following, supporting);
    lemma_retained_distinct(policy, union);
    lemma_retained_accepted(policy, union);
    lemma_merge_into_members(Seq::empty(), all);
    assert forall|i: int| 0 <= i < kept.len() implies following.contains(#[trigger] kept[i])
        || supporting.contains(kept[i]) by {
        let u = choose|u: int| 0 <= u < union.len() && union[u] == kept[i];
        assert(!Seq::<Creator>::empty().contains(union[u]));
        let j = choose|j: int| 0 <= j < all.len() && all[j] == union[u];
        if j < following.len() {
            assert(following[j] == kept[i]);
        } else {
            assert(supporting[j - following.len()] == kept[i]);
        }
    }
}

} // verus!
