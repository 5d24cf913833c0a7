//! Posts and their rich-content bodies.

use vstd::prelude::*;

use body::PostBody;

pub mod body;
pub mod resolve;
pub mod table;

verus! {

/// A user of the underlying social platform.
#[derive(Debug, Clone, PartialEq, Eq, Hash)]
pub struct User {
    pub user_id: String,
    pub name: String,
    pub icon_url: Option<String>,
}

/// The shape in which a post was written.
#[derive(Debug, Clone, Copy, PartialEq, Eq, Hash)]
pub enum PostType {
    Image,
    Text,
    File,
    Article,
    Video,
    Entry,
}

/// The short form of an adjacent post. The time is in milliseconds since
/// the Unix epoch, in UTC.
#[derive(Debug, Clone, PartialEq, Eq, Hash)]
pub struct PostShort {
    pub id: String,
    pub title: String,
    pub published_millis: i64,
}

/// One post. Timestamps are milliseconds since the Unix epoch, in UTC.
#[derive(Debug, Clone, PartialEq, Eq, Hash)]
pub struct Post {
    pub id: String,
    pub title: String,
    pub fee_required: u32,
    pub published_millis: i64,
    pub updated_millis: i64,
    pub tags: Vec<String>,
    pub is_liked: bool,
    pub like_count: u32,
    pub comment_count: u32,
    pub is_restricted: bool,
    pub user: User,
    pub creator_id: String,
    pub has_adult_content: bool,
    pub ty: PostType,
    pub cover_image_url: Option<String>,
    pub body: PostBody,
    pub excerpt: String,
    pub next_post: Option<PostShort>,
    pub prev_post: Option<PostShort>,
    pub image_for_share: String,
    pub is_pinned: bool,
}

impl Post {
    /// Resolves the post's body into its ordered sequence of nodes.
    pub fn resolve(&self) -> (nodes: Vec<resolve::ResolvedContentNode>)
        ensures
            resolve::nodes_view(nodes@) == self.body.resolved(),
    {
        resolve::resolve(&self.body)
    }
}

/// A comment with its replies. The time is in milliseconds since the Unix
/// epoch, in UTC.
#[derive(Debug)]
pub struct Comment {
    pub body: String,
    pub created_millis: i64,
    pub id: String,
    pub is_liked: bool,
    pub is_own: bool,
    pub like_count: u32,
    pub parent_comment_id: String,
    pub replies: Vec<Comment>,
    pub root_comment_id: String,
    pub user: User,
}

/// A page of comments.
#[derive(Debug)]
pub struct PostCommentList {
    pub items: Vec<Comment>,
    pub next_url: Option<String>,
}

/// The comments of a post as the platform delivers them.
#[derive(Debug)]
pub struct PostComments {
    pub view_mode: String,
    pub comment_list: Option<PostCommentList>,
}

/// A comment in the form the archive keeps: the author's name, the text
/// and the replies.
#[derive(Debug)]
pub struct ArchivedComment {
    pub user: String,
    pub text: String,
    pub replies: Vec<ArchivedComment>,
}

/// Whether `archived` is the archive's form of `comment`: the name of its
/// user, its body, and the forms of its replies in order.
pub open spec fn archives(archived: ArchivedComment, comment: Comment) -> bool
    decreases comment,
{
    &&& archived.user@ == comment.user.name@
    &&& archived.text@ == comment.body@
    &&& archived.replies@.len() == comment.replies@.len()
    &&& forall|i: int|
        0 <= i < comment.replies@.len() ==> archives(
            #[trigger] archived.replies@[i],
            comment.replies@[i],
        )
}

impl Comment {
    /// The archive's form of the comment and of its replies.
    pub fn archived(&self) -> (archived: ArchivedComment)
        ensures
            archives(archived, *self),
        decreases self,
    {
        let mut replies: Vec<ArchivedComment> = Vec::new();
        let mut i: usize = 0;
        while i < self.replies.len()
            invariant
                i <= self.replies@.len(),
                replies@.len() == i,
                forall|j: int|
                    0 <= j < i ==> archives(#[trigger] replies@[j], self.replies@[j]),
            decreases self.replies@.len() - i,
        {
            let reply = self.replies[i].archived();
            replies.push(reply);
            i = i + 1;
        }
        ArchivedComment { user: self.user.name.clone(), text: self.body.clone(), replies }
    }
}

} // verus!
