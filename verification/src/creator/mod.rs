//! Reconciliation of creators gathered from several listings.

use vstd::prelude::*;

use crate::config::{Config, FilterPolicy};
use crate::fanbox::Creator;
use merge::{absorb, merge_into, merged, retain, retained};

pub mod display;
pub mod laws;
pub mod merge;
pub mod sync;

verus! {

/// The creators that the listings returned; a listing that was not queried
/// is `None`.
#[derive(Debug, Clone, Default)]
pub struct CreatorSources {
    pub following: Option<Vec<Creator>>,
    pub supporting: Option<Vec<Creator>>,
}

/// The creators of a listing, none for a listing that was not queried.
pub open spec fn listed(listing: Option<Vec<Creator>>) -> Seq<Creator> {
    match listing {
        Some(creators) => creators@,
        None => Seq::empty(),
    }
}

impl CreatorSources {
    /// Every candidate: the followed creators, then the supported ones.
    pub open spec fn candidates(&self) -> Seq<Creator> {
        listed(self.following) + listed(self.supporting)
    }

    /// The sources without the listings that `config` does not ask for.
    pub open spec fn enabled(&self, config: Config) -> CreatorSources {
        CreatorSources {
            following: if config.save.spec_accept_following() {
                self.following
            } else {
                None
            },
            supporting: if config.save.spec_accept_supporting() {
                self.supporting
            } else {
                None
            },
        }
    }
}

/// The outcome of an aggregation: the creators kept, and how many distinct
/// creators the listings held before the filter.
#[derive(Debug, Clone)]
pub struct CreatorSelection {
    pub creators: Vec<Creator>,
    pub total: usize,
}

impl CreatorSelection {
    /// How many creators the filter kept.
    pub fn included(&self) -> (count: usize)
        ensures
            count == self.creators@.len(),
    {
        self.creators.len()
    }

    /// How many creators the filter removed: the distinct creators before
    /// the filter less those kept.
    pub fn excluded(&self) -> (count: usize)
        ensures
            count == if self.creators@.len() <= self.total {
                self.total - self.creators@.len()
            } else {
                0
            },
    {
        if self.creators.len() <= self.total {
            self.total - self.creators.len()
        } else {
            0
        }
    }
}

/// Merges the listings by identity and keeps the creators that the policy
/// accepts: one entry per identity, with the fields of its last
/// appearance, in the order of first appearance. With no listing the
/// result is empty.
pub fn aggregate(sources: &CreatorSources, policy: &FilterPolicy) -> (kept: Vec<Creator>)
    ensures
        kept@ == retained(*policy, merged(sources.candidates())),
{
    let selection = select(sources, policy);
    selection.creators
}

/// Merges the two listings, each only where it is wanted, and filters the
/// union.
fn merge_and_filter(
    following: &Option<Vec<Creator>>,
    supporting: &Option<Vec<Creator>>,
    policy: &FilterPolicy,
) -> (selection: CreatorSelection)
    ensures
        selection.creators@ == retained(*policy, merged(listed(*following) + listed(*supporting))),
        selection.total == merged(listed(*following) + listed(*supporting)).len(),
        selection.creators@.len() <= selection.total,
{
    let mut union: Vec<Creator> = Vec::new();
    let ghost none = Seq::<Creator>::empty();
    if let Some(creators) = following {
        absorb(&mut union, creators);
    }
    assert(union@ == merge_into(none, listed(*following)));
    if let Some(creators) = supporting {
        absorb(&mut union, creators);
    }
    proof {
        laws::lemma_merge_into_concat(none, listed(*following), listed(*supporting));
        laws::lemma_retained_accepted(*policy, union@);
    }
    let creators = retain(policy, &union);
    CreatorSelection { creators, total: union.len() }
}

/// Merges and filters as `aggregate` does, and counts the distinct
/// creators before the filter.
pub fn select(sources: &CreatorSources, policy: &FilterPolicy) -> (selection: CreatorSelection)
    ensures
        selection.creators@ == retained(*policy, merged(sources.candidates())),
        selection.total == merged(sources.candidates()).len(),
        selection.creators@.len() <= selection.total,
{
    merge_and_filter(&sources.following, &sources.supporting, policy)
}

/// The creators of a run: the listings that the configuration asks for,
/// merged by identity and filtered by its policy. A listing that the
/// configuration does not ask for is left out even where it is supplied.
pub fn get_creators(config: &Config, sources: &CreatorSources) -> (selection: CreatorSelection)
    ensures
        selection.creators@ == retained(
            config.policy,
            merged(sources.enabled(*config).candidates()),
        ),
        selection.total == merged(sources.enabled(*config).candidates()).len(),
        selection.creators@.len() <= selection.total,
{
    let none: Option<Vec<Creator>> = None;
    let accepts = config.accepts();
    if accepts.accept_following() {
        if accepts.accept_supporting() {
            merge_and_filter(&sources.following, &sources.supporting, &config.policy)
        } else {
            merge_and_filter(&sources.following, &none, &config.policy)
        }
    } else if accepts.accept_supporting() {
        merge_and_filter(&none, &sources.supporting, &config.policy)
    } else {
        merge_and_filter(&none, &none, &config.policy)
    }
}

} // verus!
