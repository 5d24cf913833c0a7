//! Synchronisation of creators into the archive store, in one transaction.

use post_archiver::error::Error;
use post_archiver::importer::{UnsyncAlias, UnsyncAuthor};
use post_archiver::manager::PostArchiverManager;
use post_archiver::{AuthorId, PlatformId};
use rusqlite::{Connection, Transaction};
use vstd::prelude::*;
use vstd::string::*;

use crate::fanbox::Creator;

verus! {

/// `post_archiver::manager::PostArchiverManager`, the handle of the archive
/// store over a connection or a transaction. Opaque here.
#[verifier::external_type_specification]
#[verifier::external_body]
#[verifier::reject_recursive_types(C)]
pub struct ExPostArchiverManager<C>(PostArchiverManager<C>);

/// `rusqlite::Connection`, a connection to the store's database. Opaque
/// here.
#[verifier::external_type_specification]
#[verifier::external_body]
pub struct ExConnection(Connection);

/// `rusqlite::Transaction`, an open transaction; dropping it uncommitted
/// rolls it back. Opaque here.
#[verifier::external_type_specification]
#[verifier::external_body]
pub struct ExTransaction<'a>(Transaction<'a>);

/// `post_archiver::error::Error`, a refusal by the store. Opaque here.
#[verifier::external_type_specification]
#[verifier::external_body]
pub struct ExStoreError(Error);

/// An alias to bind: a platform handle, the identifier on that platform and
/// the profile URL.
#[derive(Debug, Clone, PartialEq, Eq)]
pub struct AliasPlan {
    pub platform: u32,
    pub source: String,
    pub link: String,
}

/// An author to create or merge: the display name and the aliases that
/// identify the author.
#[derive(Debug, Clone, PartialEq, Eq)]
pub struct AuthorPlan {
    pub name: String,
    pub aliases: Vec<AliasPlan>,
}

/// The author that a creator was synchronised to.
#[derive(Debug, Clone, PartialEq, Eq)]
pub struct AuthorSyncRecord {
    pub author_id: u32,
    pub source_creator_id: String,
}

/// Why a batch was not synchronised, by the step that the store refused.
#[derive(Debug)]
pub enum SyncError {
    Begin(Error),
    Platform(Error),
    Author { index: usize, cause: Error },
    Commit(Error),
}

/// The profile URL on the subscription platform.
pub open spec fn fanbox_link(creator_id: Seq<char>) -> Seq<char> {
    "https://"@ + creator_id + ".fanbox.cc/"@
}

/// The profile URL on the social platform.
pub open spec fn pixiv_link(user_id: Seq<char>) -> Seq<char> {
    "https://www.pixiv.net/users/"@ + user_id
}

/// The names under which the two platforms are registered: the
/// subscription platform's, then the social platform's.
pub fn platform_names() -> (names: (&'static str, &'static str))
    ensures
        names.0@ == "fanbox"@,
        names.1@ == "pixiv"@,
{
    ("fanbox", "pixiv")
}

/// Builds the request for one creator: the current name, and one alias per
/// platform with its profile URL.
pub fn author_plan(creator: &Creator, fanbox: u32, pixiv: u32) -> (plan: AuthorPlan)
    ensures
        plan.name@ == creator.name@,
        plan.aliases@.len() == 2,
        plan.aliases@[0].platform == fanbox,
        plan.aliases@[0].source@ == creator.creator_id@,
        plan.aliases@[0].link@ == fanbox_link(creator.creator_id@),
        plan.aliases@[1].platform == pixiv,
        plan.aliases@[1].source@ == creator.user_id@,
        plan.aliases@[1].link@ == pixiv_link(creator.user_id@),
{
    let mut first = String::from_str("https://");
    first.append(creator.creator_id.as_str());
    first.append(".fanbox.cc/");
    let mut second = String::from_str("https://www.pixiv.net/users/");
    second.append(creator.user_id.as_str());
    let mut aliases: Vec<AliasPlan> = Vec::new();
    aliases.push(AliasPlan { platform: fanbox, source: creator.creator_id.clone(), link: first });
    aliases.push(AliasPlan { platform: pixiv, source: creator.user_id.clone(), link: second });
    AuthorPlan { name: creator.name.clone(), aliases }
}

/// The record that ties an author handle to the creator it came from.
pub fn record_for(author_id: u32, creator: &Creator) -> (record: AuthorSyncRecord)
    ensures
        record.author_id == author_id,
        record.source_creator_id@ == creator.creator_id@,
{
    AuthorSyncRecord { author_id, source_creator_id: creator.creator_id.clone() }
}

/// Calls `PostArchiverManager::transaction`, which opens a transaction on
/// the store. Nothing is claimed of the outcome.
#[verifier::external_body]
fn begin<'a>(manager: &'a mut PostArchiverManager<Connection>) -> (opened: Result<
    PostArchiverManager<Transaction<'a>>,
    Error,
>) {
    manager.transaction()
}

/// Calls `PostArchiverManager::import_platform`, which finds or creates the
/// platform of that name. Nothing is claimed of the handle.
#[verifier::external_body]
fn register_platform(
    store: &PostArchiverManager<Transaction<'_>>,
    name: &str,
) -> (handle: Result<u32, Error>) {
    store.import_platform(name.to_string()).map(|id| id.0)
}

/// Calls `UnsyncAuthor::sync`, which finds the author bound to one of the
/// aliases or creates one, and binds the aliases. Nothing is claimed of the
/// handle.
#[verifier::external_body]
fn bind_author(store: &PostArchiverManager<Transaction<'_>>, plan: AuthorPlan) -> (handle: Result<
    u32,
    Error,
>) {
    let aliases = plan.aliases.into_iter().map(
        |alias| UnsyncAlias::new(PlatformId(alias.platform), alias.source).link(alias.link),
    ).collect();
    UnsyncAuthor::new(plan.name).aliases(aliases).sync(store).map(|id: AuthorId| id.0)
}

/// Calls `PostArchiverManager::commit`, which commits the transaction.
/// Nothing is claimed of the outcome.
#[verifier::external_body]
fn commit(store: PostArchiverManager<Transaction<'_>>) -> (done: Result<(), Error>) {
    store.commit()
}

/// Whether `records` pairs each creator of `creators`, in order, with an
/// author handle.
pub open spec fn records_match(records: Seq<AuthorSyncRecord>, creators: Seq<Creator>) -> bool {
    &&& records.len() == creators.len()
    &&& forall|i: int|
        0 <= i < records.len() ==> (#[trigger] records[i]).source_creator_id@
            == creators[i].creator_id@
}

/// Synchronises a batch of creators into the store inside one transaction.
///
/// Both platforms are registered once, under the names that
/// `platform_names` gives, then each creator in order is bound to an author
/// through the request that `author_plan` builds. The transaction is committed only
/// after the last creator; at the first refusal it is dropped uncommitted
/// and the refusal is returned with the step at which it came. The store
/// decides whether a step succeeds, so success is not promised; a
/// successful batch yields one record per creator, in the creators' order.
pub fn sync_creators(manager: &mut PostArchiverManager<Connection>, creators: Vec<Creator>) -> (outcome:
    Result<Vec<AuthorSyncRecord>, SyncError>)
    ensures
        match outcome {
            Ok(records) => records_match(records@, creators@),
            Err(SyncError::Author { index, .. }) => index < creators@.len(),
            Err(_) => true,
        },
{
    let store = match begin(manager) {
        Ok(store) => store,
        Err(cause) => {
            return Err(SyncError::Begin(cause));
        },
    };
    let names = platform_names();
    let fanbox = match register_platform(&store, names.0) {
        Ok(handle) => handle,
        Err(cause) => {
            return Err(SyncError::Platform(cause));
        },
    };
    let pixiv = match register_platform(&store, names.1) {
        Ok(handle) => handle,
        Err(cause) => {
            return Err(SyncError::Platform(cause));
        },
    };
    let mut records: Vec<AuthorSyncRecord> = Vec::new();
    let mut i: usize = 0;
    while i < creators.len()
        invariant
            i <= creators@.len(),
            records_match(records@, creators@.take(i as int)),
        decreases creators@.len() - i,
    {
        let plan = author_plan(&creators[i], fanbox, pixiv);
        match bind_author(&store, plan) {
            Ok(author_id) => {
                records.push(record_for(author_id, &creators[i]));
            },
            Err(cause) => {
                return Err(SyncError::Author { index: i, cause });
            },
        }
        i = i + 1;
    }
    match commit(store) {
        Ok(()) => {
            proof {
                assert(creators@.take(i as int) =~= creators@);
            }
            Ok(records)
        },
        Err(cause) => Err(SyncError::Commit(cause)),
    }
}

} // verus!
