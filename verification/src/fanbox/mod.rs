//! Values exchanged with the subscription platform.

use vstd::prelude::*;
use vstd::std_specs::cmp::PartialEqSpecImpl;

pub mod post;

verus! {

/// A creator's profile as a listing returns it.
#[derive(Debug, Clone, PartialEq, Eq, Hash)]
pub struct FollowingCreator {
    pub creator_id: String,
    pub user_id: String,
    pub name: String,
    pub fee: u32,
    pub description: String,
}

impl FollowingCreator {
    /// A copy that equals `self` in every field.
    pub fn duplicate(&self) -> (copy: Self)
        ensures
            copy == *self,
    {
        FollowingCreator {
            creator_id: self.creator_id.clone(),
            user_id: self.user_id.clone(),
            name: self.name.clone(),
            fee: self.fee,
            description: self.description.clone(),
        }
    }
}

/// The summary of a post as a listing returns it. Timestamps are
/// milliseconds since the Unix epoch, in UTC.
#[derive(Debug, Clone, PartialEq, Eq, Hash)]
pub struct PostListItem {
    pub id: String,
    pub title: String,
    pub fee_required: u32,
    pub published_millis: i64,
    pub updated_millis: i64,
    pub is_restricted: bool,
    pub creator_id: String,
    pub excerpt: String,
}

impl PostListItem {
    /// A copy that equals `self` in every field.
    pub fn duplicate(&self) -> (copy: Self)
        ensures
            copy == *self,
    {
        PostListItem {
            id: self.id.clone(),
            title: self.title.clone(),
            fee_required: self.fee_required,
            published_millis: self.published_millis,
            updated_millis: self.updated_millis,
            is_restricted: self.is_restricted,
            creator_id: self.creator_id.clone(),
            excerpt: self.excerpt.clone(),
        }
    }
}

/// A creator as seen through two linked identities: the identifier on the
/// subscription platform and the one on the underlying social platform.
/// The name and the fee are display fields and no part of the identity.
#[derive(Debug, Clone)]
pub struct Creator {
    pub creator_id: String,
    pub user_id: String,
    pub name: String,
    pub fee: u32,
}

impl Creator {
    /// The durable identity: the two platform identifiers.
    pub open spec fn key(&self) -> (Seq<char>, Seq<char>) {
        (self.creator_id@, self.user_id@)
    }

    /// Whether two values denote the same creator.
    pub open spec fn same_identity(&self, other: &Creator) -> bool {
        self.creator_id@ == other.creator_id@ && self.user_id@ == other.user_id@
    }

    /// A copy that equals `self` in every field.
    pub fn duplicate(&self) -> (copy: Self)
        ensures
            copy == *self,
    {
        Creator {
            creator_id: self.creator_id.clone(),
            user_id: self.user_id.clone(),
            name: self.name.clone(),
            fee: self.fee,
        }
    }

    /// Tests whether two values denote the same creator.
    pub fn is_same(&self, other: &Creator) -> (same: bool)
        ensures
            same == self.same_identity(other),
            same == (self.key() == other.key()),
    {
        self.creator_id == other.creator_id && self.user_id == other.user_id
    }
}

impl PartialEq for Creator {
    fn eq(&self, other: &Creator) -> (same: bool) {
        self.creator_id == other.creator_id && self.user_id == other.user_id
    }
}

impl PartialEqSpecImpl for Creator {
    open spec fn obeys_eq_spec() -> bool {
        true
    }

    open spec fn eq_spec(&self, other: &Creator) -> bool {
        self.creator_id@ == other.creator_id@ && self.user_id@ == other.user_id@
    }
}

impl Eq for Creator {

}

impl FollowingCreator {
    /// The creator that a listed profile denotes.
    pub fn to_creator(&self) -> (creator: Creator)
        ensures
            creator.creator_id == self.creator_id,
            creator.user_id == self.user_id,
            creator.name == self.name,
            creator.fee == self.fee,
    {
        Creator {
            creator_id: self.creator_id.clone(),
            user_id: self.user_id.clone(),
            name: self.name.clone(),
            fee: self.fee,
        }
    }
}

} // verus!
