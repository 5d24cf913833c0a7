//! Union of creator listings by identity, and the inclusion filter.

use vstd::prelude::*;

use crate::config::FilterPolicy;
use crate::fanbox::Creator;

verus! {

/// The position, from `from` on, of the first entry of `acc` that denotes
/// the same creator as `c`; the length of `acc` where there is none.
pub open spec fn position_of(acc: Seq<Creator>, c: Creator, from: int) -> int
    decreases acc.len() - from,
{
    if from < 0 || from >= acc.len() {
        acc.len() as int
    } else if acc[from].same_identity(&c) {
        from
    } else {
        position_of(acc, c, from + 1)
    }
}

/// `acc` with `c` put in: in place of the entry that denotes the same
/// creator, or at the end where there is none.
pub open spec fn upsert(acc: Seq<Creator>, c: Creator) -> Seq<Creator> {
    let at = position_of(acc, c, 0);
    if at < acc.len() {
        acc.update(at, c)
    } else {
        acc.push(c)
    }
}

/// `acc` after each creator of `listing` has been put in, in order.
pub open spec fn merge_into(acc: Seq<Creator>, listing: Seq<Creator>) -> Seq<Creator>
    decreases listing.len(),
{
    if listing.len() == 0 {
        acc
    } else {
        upsert(merge_into(acc, listing.drop_last()), listing.last())
    }
}

/// The union of a listing by identity: one entry per creator, at the place
/// where the creator first appeared, with the fields of its last appearance.
pub open spec fn merged(listing: Seq<Creator>) -> Seq<Creator> {
    merge_into(Seq::empty(), listing)
}

/// The creators of `listing` that the policy keeps, in order.
pub open spec fn retained(policy: FilterPolicy, listing: Seq<Creator>) -> Seq<Creator>
    decreases listing.len(),
{
    if listing.len() == 0 {
        Seq::empty()
    } else if policy.spec_accepts(listing.last()) {
        retained(policy, listing.drop_last()).push(listing.last())
    } else {
        retained(policy, listing.drop_last())
    }
}

/// Puts `c` into `acc`, replacing the entry that denotes the same creator.
pub fn put(acc: &mut Vec<Creator>, c: Creator)
    ensures
        final(acc)@ == upsert(old(acc)@, c),
{
    let mut i: usize = 0;
    while i < acc.len()
        invariant
            i <= acc@.len(),
            acc@ == old(acc)@,
            position_of(acc@, c, 0) == position_of(acc@, c, i as int),
        decreases acc@.len() - i,
    {
        if acc[i].is_same(&c) {
            acc.set(i, c);
            return ;
        }
        i = i + 1;
    }
    acc.push(c);
}

/// Puts every creator of `listing` into `acc`, in order.
pub fn absorb(acc: &mut Vec<Creator>, listing: &Vec<Creator>)
    ensures
        final(acc)@ == merge_into(old(acc)@, listing@),
{
    let mut i: usize = 0;
    while i < listing.len()
        invariant
            i <= listing@.len(),
            acc@ == merge_into(old(acc)@, listing@.take(i as int)),
        decreases listing@.len() - i,
    {
        proof {
            assert(listing@.take(i + 1).drop_last() =~= listing@.take(i as int));
        }
        put(acc, listing[i].duplicate());
        i = i + 1;
    }
    proof {
        assert(listing@.take(i as int) =~= listing@);
    }
}

/// Keeps the creators that the policy accepts, in order.
pub fn retain(policy: &FilterPolicy, listing: &Vec<Creator>) -> (kept: Vec<Creator>)
    ensures
        kept@ == retained(*policy, listing@),
{
    let mut kept: Vec<Creator> = Vec::new();
    let mut i: usize = 0;
    while i < listing.len()
        invariant
            i <= listing@.len(),
            kept@ == retained(*policy, listing@.take(i as int)),
        decreases listing@.len() - i,
    {
        proof {
            assert(listing@.take(i + 1).drop_last() =~= listing@.take(i as int));
        }
        if policy.accepts(&listing[i]) {
            kept.push(listing[i].duplicate());
        }
        i = i + 1;
    }
    proof {
        assert(listing@.take(i as int) =~= listing@);
    }
    kept
}

} // verus!
