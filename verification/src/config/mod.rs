//! Run configuration: which listings to query and which creators and posts
//! to keep.

use vstd::prelude::*;
use vstd::string::*;

use crate::fanbox::{Creator, PostListItem};
use crate::text::{decimal, starts_with, to_decimal};

pub mod save_type;

use save_type::SaveType;

verus! {

/// Whether some entry of `list` is `id`.
pub open spec fn id_listed(list: Seq<String>, id: Seq<char>) -> bool {
    exists|i: int| 0 <= i < list.len() && (#[trigger] list[i])@ == id
}

/// Tests whether some entry of `list` is `id`.
pub fn list_contains(list: &Vec<String>, id: &String) -> (listed: bool)
    ensures
        listed == id_listed(list@, id@),
{
    let mut i: usize = 0;
    while i < list.len()
        invariant
            i <= list@.len(),
            forall|j: int| 0 <= j < i ==> (#[trigger] list@[j])@ != id@,
        decreases list@.len() - i,
    {
        if list[i] == *id {
            return true;
        }
        i = i + 1;
    }
    false
}

/// The inclusion policy for creators: an allow-list, a deny-list and the
/// exclusion of creators with a free tier.
#[derive(Debug, Clone, Default)]
pub struct FilterPolicy {
    pub skip_free: bool,
    pub whitelist: Vec<String>,
    pub blacklist: Vec<String>,
}

impl FilterPolicy {
    /// A creator is kept when it is not excluded for being free, the
    /// allow-list is empty or names it, and the deny-list does not name it.
    pub open spec fn spec_accepts(&self, creator: Creator) -> bool {
        &&& !(self.skip_free && creator.fee == 0)
        &&& (self.whitelist@.len() == 0 || id_listed(self.whitelist@, creator.creator_id@))
        &&& !id_listed(self.blacklist@, creator.creator_id@)
    }

    /// Decides whether a creator is kept.
    pub fn accepts(&self, creator: &Creator) -> (accept: bool)
        ensures
            accept == self.spec_accepts(*creator),
    {
        let paid = !(self.skip_free && creator.fee == 0);
        let allowed = self.whitelist.len() == 0 || list_contains(
            &self.whitelist,
            &creator.creator_id,
        );
        let denied = list_contains(&self.blacklist, &creator.creator_id);
        paid && allowed && !denied
    }
}

/// The name under which the session cookie is sent, with its equals sign.
pub open spec fn cookie_prefix() -> Seq<char> {
    "FANBOXSESSID="@
}

/// The browser identification made up for the second `secs` of the clock:
/// its version numbers vary with the time.
pub open spec fn user_agent_at(secs: nat) -> Seq<char> {
    let webkit = decimal(secs / 2 % 64);
    "Mozilla/"@ + decimal(secs % 2 + 4) + ".0 (Windows NT 10.0; Win64; x64) AppleWebKit/537."@
        + webkit + " (KHTML, like Gecko) Chrome/"@ + decimal(secs / 128 % 5 + 132)
        + ".0.0.0 Safari/537."@ + webkit
}

/// Makes up a browser identification from the clock, given in
/// milliseconds since the Unix epoch.
pub fn default_user_agent(millis: u64) -> (agent: String)
    ensures
        agent@ == user_agent_at((millis / 1000) as nat),
{
    let secs: u64 = millis / 1000;
    let major: u64 = secs % 2 + 4;
    let webkit: u64 = secs / 2 % 64;
    let chrome: u64 = secs / 128 % 5 + 132;
    let webkit_text = to_decimal(webkit);
    let mut agent = String::from_str("Mozilla/");
    agent.append(to_decimal(major).as_str());
    agent.append(".0 (Windows NT 10.0; Win64; x64) AppleWebKit/537.");
    agent.append(webkit_text.as_str());
    agent.append(" (KHTML, like Gecko) Chrome/");
    agent.append(to_decimal(chrome).as_str());
    agent.append(".0.0.0 Safari/537.");
    agent.append(webkit_text.as_str());
    agent
}

/// The configuration of a run.
#[derive(Debug, Clone, Default)]
pub struct Config {
    /// The session cookie, with or without its name.
    pub session: String,
    /// Where the archive is kept.
    pub output: String,
    /// Which listings to query.
    pub save: SaveType,
    /// Download again what the archive already holds.
    pub force: bool,
    /// Overwrite existing files.
    pub overwrite: bool,
    /// Which creators to keep.
    pub policy: FilterPolicy,
    /// How many downloads may run at once.
    pub limit: usize,
    /// The browser identification to send; empty until one is chosen.
    pub user_agent: String,
}

impl Config {
    /// The cookie to send: the session value under its name.
    pub open spec fn spec_session(&self) -> Seq<char> {
        if cookie_prefix().is_prefix_of(self.session@) {
            self.session@
        } else {
            cookie_prefix() + self.session@
        }
    }

    /// The session cookie, named `FANBOXSESSID` unless the configured value
    /// already carries the name.
    pub fn session(&self) -> (cookie: String)
        ensures
            cookie@ == self.spec_session(),
    {
        if starts_with(self.session.as_str(), "FANBOXSESSID=") {
            self.session.clone()
        } else {
            let mut cookie = String::from_str("FANBOXSESSID=");
            cookie.append(self.session.as_str());
            cookie
        }
    }

    /// Chooses a browser identification from the clock where none was
    /// configured.
    pub fn fill_user_agent(&mut self, millis: u64)
        ensures
            final(self).user_agent@ == if old(self).user_agent@.len() == 0 {
                user_agent_at((millis / 1000) as nat)
            } else {
                old(self).user_agent@
            },
            final(self).session == old(self).session,
            final(self).output == old(self).output,
            final(self).save == old(self).save,
            final(self).force == old(self).force,
            final(self).overwrite == old(self).overwrite,
            final(self).policy == old(self).policy,
            final(self).limit == old(self).limit,
    {
        if self.user_agent.as_str().unicode_len() == 0 {
            self.user_agent = default_user_agent(millis);
        }
    }

    /// The browser identification to send.
    pub fn user_agent(&self) -> (agent: String)
        ensures
            agent == self.user_agent,
    {
        self.user_agent.clone()
    }

    /// Whether existing files are overwritten.
    pub fn overwrite(&self) -> (overwrite: bool)
        ensures
            overwrite == self.overwrite,
    {
        self.overwrite
    }

    /// Which listings are queried.
    pub fn accepts(&self) -> (save: SaveType)
        ensures
            save == self.save,
    {
        self.save
    }

    /// Where the archive is kept.
    pub fn output(&self) -> (output: &String)
        ensures
            *output == self.output,
    {
        &self.output
    }

    /// How many downloads may run at once.
    pub fn limit(&self) -> (limit: usize)
        ensures
            limit == self.limit,
    {
        self.limit
    }

    /// Whether what the archive holds is downloaded again.
    pub fn force(&self) -> (force: bool)
        ensures
            force == self.force,
    {
        self.force
    }

    /// Decides whether a creator is kept: by the policy alone.
    pub fn filter_creator(&self, creator: &Creator) -> (accept: bool)
        ensures
            accept == self.policy.spec_accepts(*creator),
    {
        self.policy.accepts(creator)
    }

    /// A post is kept unless it is free while free posts are skipped, or
    /// is restricted to supporters.
    pub open spec fn spec_filter_post(&self, post: PostListItem) -> bool {
        !(self.policy.skip_free && post.fee_required == 0) && !post.is_restricted
    }

    /// Decides whether a post is kept.
    pub fn filter_post(&self, post: &PostListItem) -> (accept: bool)
        ensures
            accept == self.spec_filter_post(*post),
    {
        let paid = !(self.policy.skip_free && post.fee_required == 0);
        let open = !post.is_restricted;
        paid && open
    }
}

} // verus!
