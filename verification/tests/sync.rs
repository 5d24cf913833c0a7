use fanbox_archive::creator::sync::{
    author_plan, platform_names, record_for, sync_creators, AliasPlan, AuthorSyncRecord,
    SyncError,
};
use fanbox_archive::fanbox::Creator;
use post_archiver::manager::PostArchiverManager;

fn creator(creator_id: &str, user_id: &str, name: &str, fee: u32) -> Creator {
    Creator {
        creator_id: creator_id.to_string(),
        user_id: user_id.to_string(),
        name: name.to_string(),
        fee,
    }
}

#[test]
fn plan_names_both_aliases() {
    let plan = author_plan(&creator("abc", "123", "Alice", 500), 7, 9);
    assert_eq!(plan.name, "Alice");
    assert_eq!(
        plan.aliases,
        vec![
            AliasPlan {
                platform: 7,
                source: "abc".to_string(),
                link: "https://abc.fanbox.cc/".to_string()
            },
            AliasPlan {
                platform: 9,
                source: "123".to_string(),
                link: "https://www.pixiv.net/users/123".to_string()
            },
        ]
    );
}

#[test]
fn record_pairs_author_with_creator() {
    assert_eq!(
        record_for(42, &creator("abc", "123", "Alice", 500)),
        AuthorSyncRecord { author_id: 42, source_creator_id: "abc".to_string() }
    );
}

#[test]
fn synchronising_keeps_order() {
    let mut manager = PostArchiverManager::open_in_memory().unwrap();
    let creators =
        vec![creator("b", "2", "B", 1), creator("a", "1", "A", 2), creator("c", "3", "C", 3)];
    let records = sync_creators(&mut manager, creators).unwrap();
    let ids: Vec<String> = records.iter().map(|r| r.source_creator_id.clone()).collect();
    assert_eq!(ids, vec!["b", "a", "c"]);
    assert_ne!(records[0].author_id, records[1].author_id);
    assert_ne!(records[1].author_id, records[2].author_id);
    assert_ne!(records[0].author_id, records[2].author_id);
}

#[test]
fn synchronising_twice_gives_the_same_authors() {
    let mut manager = PostArchiverManager::open_in_memory().unwrap();
    let creators = vec![creator("abc", "123", "Alice", 500), creator("def", "456", "Bob", 0)];
    let first = sync_creators(&mut manager, creators.clone()).unwrap();
    let renamed = vec![creator("abc", "123", "Alice Renamed", 100), creator("def", "456", "Bob", 0)];
    let second = sync_creators(&mut manager, renamed).unwrap();
    assert_eq!(first, second);
    let platforms: u32 = manager
        .conn()
        .query_row("SELECT COUNT(*) FROM platforms WHERE name IN ('fanbox', 'pixiv')", [], |row| {
            row.get(0)
        })
        .unwrap();
    assert_eq!(platforms, 2);
    let authors: u32 = manager
        .conn()
        .query_row("SELECT COUNT(*) FROM authors", [], |row| row.get(0))
        .unwrap();
    assert_eq!(authors, 2);
}

#[test]
fn synchronising_nothing_succeeds() {
    let mut manager = PostArchiverManager::open_in_memory().unwrap();
    assert!(sync_creators(&mut manager, Vec::new()).unwrap().is_empty());
}

fn count(manager: &PostArchiverManager, table: &str) -> u32 {
    manager
        .conn()
        .query_row(&format!("SELECT COUNT(*) FROM {}", table), [], |row| row.get(0))
        .unwrap()
}

#[test]
fn refused_author_rolls_the_batch_back() {
    let mut manager = PostArchiverManager::open_in_memory().unwrap();
    manager
        .conn()
        .execute_batch(
            "CREATE TRIGGER refuse_author BEFORE INSERT ON authors WHEN NEW.name = 'bad' \
             BEGIN SELECT RAISE(ABORT, 'refused'); END;",
        )
        .unwrap();
    let creators = vec![creator("good", "1", "good", 1), creator("worse", "2", "bad", 2)];
    let outcome = sync_creators(&mut manager, creators);
    assert!(matches!(outcome, Err(SyncError::Author { index: 1, .. })));
    assert_eq!(count(&manager, "authors"), 0);
    assert_eq!(count(&manager, "author_aliases"), 0);
    assert_eq!(count(&manager, "platforms WHERE name IN ('fanbox', 'pixiv')"), 0);
}

#[test]
fn refused_platform_is_reported() {
    let mut manager = PostArchiverManager::open_in_memory().unwrap();
    manager
        .conn()
        .execute_batch(
            "CREATE TRIGGER refuse_platform BEFORE INSERT ON platforms \
             BEGIN SELECT RAISE(ABORT, 'refused'); END;",
        )
        .unwrap();
    let outcome = sync_creators(&mut manager, vec![creator("a", "1", "A", 1)]);
    assert!(matches!(outcome, Err(SyncError::Platform(_))));
    assert_eq!(count(&manager, "authors"), 0);
}

#[test]
fn same_alias_merges_into_one_author() {
    let mut manager = PostArchiverManager::open_in_memory().unwrap();
    let first = sync_creators(&mut manager, vec![creator("abc", "123", "Alice", 1)]).unwrap();
    let second = sync_creators(&mut manager, vec![creator("abc", "999", "Alice", 1)]).unwrap();
    assert_eq!(first[0].author_id, second[0].author_id);
    assert_eq!(count(&manager, "authors"), 1);
    assert_eq!(count(&manager, "author_aliases"), 3);
}

#[test]
fn open_transaction_refuses_the_batch() {
    let mut manager = PostArchiverManager::open_in_memory().unwrap();
    manager.conn().execute_batch("BEGIN").unwrap();
    let outcome = sync_creators(&mut manager, vec![creator("a", "1", "A", 1)]);
    assert!(matches!(outcome, Err(SyncError::Begin(_))));
    manager.conn().execute_batch("ROLLBACK").unwrap();
    assert_eq!(count(&manager, "authors"), 0);
}

#[test]
fn refused_commit_keeps_nothing() {
    let mut manager = PostArchiverManager::open_in_memory().unwrap();
    manager
        .conn()
        .execute_batch(
            "PRAGMA foreign_keys = ON; \
             CREATE TABLE keeper (id INTEGER PRIMARY KEY); \
             CREATE TABLE orphan (keeper INTEGER REFERENCES keeper (id) \
             DEFERRABLE INITIALLY DEFERRED); \
             CREATE TRIGGER make_orphan AFTER INSERT ON authors \
             BEGIN INSERT INTO orphan VALUES (12345); END;",
        )
        .unwrap();
    let outcome = sync_creators(&mut manager, vec![creator("a", "1", "A", 1)]);
    assert!(matches!(outcome, Err(SyncError::Commit(_))));
    assert_eq!(count(&manager, "authors"), 0);
    assert_eq!(count(&manager, "author_aliases"), 0);
}

#[test]
fn platforms_are_named_fanbox_and_pixiv() {
    assert_eq!(platform_names(), ("fanbox", "pixiv"));
    let mut manager = PostArchiverManager::open_in_memory().unwrap();
    sync_creators(&mut manager, vec![creator("abc", "123", "Alice", 1)]).unwrap();
    assert_eq!(count(&manager, "platforms WHERE name = 'fanbox'"), 1);
    assert_eq!(count(&manager, "platforms WHERE name = 'pixiv'"), 1);
    let fanbox_alias: String = manager
        .conn()
        .query_row(
            "SELECT a.source FROM author_aliases a JOIN platforms p ON a.platform = p.id \
             WHERE p.name = 'fanbox'",
            [],
            |row| row.get(0),
        )
        .unwrap();
    assert_eq!(fanbox_alias, "abc");
    sync_creators(&mut manager, vec![creator("def", "456", "Bob", 1)]).unwrap();
    assert_eq!(count(&manager, "platforms WHERE name IN ('fanbox', 'pixiv')"), 2);
}
