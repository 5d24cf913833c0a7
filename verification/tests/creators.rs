use fanbox_archive::config::save_type::SaveType;
use fanbox_archive::config::{list_contains, Config, FilterPolicy};
use fanbox_archive::creator::merge::{absorb, put, retain};
use fanbox_archive::creator::{aggregate, get_creators, select, CreatorSources};
use fanbox_archive::fanbox::{Creator, FollowingCreator, PostListItem};

fn creator(creator_id: &str, user_id: &str, name: &str, fee: u32) -> Creator {
    Creator {
        creator_id: creator_id.to_string(),
        user_id: user_id.to_string(),
        name: name.to_string(),
        fee,
    }
}

fn fields(c: &Creator) -> (String, String, String, u32) {
    (c.creator_id.clone(), c.user_id.clone(), c.name.clone(), c.fee)
}

fn all_fields(list: &[Creator]) -> Vec<(String, String, String, u32)> {
    list.iter().map(fields).collect()
}

fn policy(skip_free: bool, allow: &[&str], deny: &[&str]) -> FilterPolicy {
    FilterPolicy {
        skip_free,
        whitelist: allow.iter().map(|s| s.to_string()).collect(),
        blacklist: deny.iter().map(|s| s.to_string()).collect(),
    }
}

#[test]
fn creator_in_both_sources_appears_once() {
    let sources = CreatorSources {
        following: Some(vec![creator("abc", "123", "Alice", 500)]),
        supporting: Some(vec![creator("abc", "123", "Alice", 500)]),
    };
    let kept = aggregate(&sources, &FilterPolicy::default());
    assert_eq!(all_fields(&kept), vec![fields(&creator("abc", "123", "Alice", 500))]);
}

#[test]
fn union_counts_identities_not_entries() {
    let sources = CreatorSources {
        following: Some(vec![
            creator("a", "1", "A", 100),
            creator("b", "2", "B", 200),
            creator("c", "3", "C", 300),
        ]),
        supporting: Some(vec![
            creator("b", "2", "B", 200),
            creator("d", "4", "D", 400),
            creator("a", "1", "A", 100),
        ]),
    };
    let selection = select(&sources, &FilterPolicy::default());
    assert_eq!(selection.total, 4);
    assert_eq!(selection.included(), 4);
    assert_eq!(selection.excluded(), 0);
    let ids: Vec<String> = selection.creators.iter().map(|c| c.creator_id.clone()).collect();
    assert_eq!(ids, vec!["a", "b", "c", "d"]);
}

#[test]
fn identity_needs_both_identifiers() {
    let sources = CreatorSources {
        following: Some(vec![creator("a", "1", "A", 100)]),
        supporting: Some(vec![creator("a", "2", "A", 100), creator("b", "1", "A", 100)]),
    };
    assert_eq!(aggregate(&sources, &FilterPolicy::default()).len(), 3);
}

#[test]
fn last_appearance_wins_for_display_fields() {
    let sources = CreatorSources {
        following: Some(vec![creator("a", "1", "Old", 100), creator("b", "2", "B", 0)]),
        supporting: Some(vec![creator("a", "1", "New", 900)]),
    };
    let kept = aggregate(&sources, &FilterPolicy::default());
    assert_eq!(
        all_fields(&kept),
        vec![fields(&creator("a", "1", "New", 900)), fields(&creator("b", "2", "B", 0))]
    );
}

#[test]
fn put_replaces_or_appends() {
    let mut acc = vec![creator("a", "1", "A", 1), creator("b", "2", "B", 2)];
    put(&mut acc, creator("b", "2", "Bee", 20));
    put(&mut acc, creator("c", "3", "C", 3));
    assert_eq!(
        all_fields(&acc),
        vec![
            fields(&creator("a", "1", "A", 1)),
            fields(&creator("b", "2", "Bee", 20)),
            fields(&creator("c", "3", "C", 3)),
        ]
    );
    let mut other = Vec::new();
    absorb(&mut other, &acc);
    absorb(&mut other, &acc);
    assert_eq!(all_fields(&other), all_fields(&acc));
}

#[test]
fn no_source_gives_no_creator() {
    let sources = CreatorSources { following: None, supporting: None };
    let selection = select(&sources, &FilterPolicy::default());
    assert!(selection.creators.is_empty());
    assert_eq!(selection.total, 0);
    assert_eq!(selection.excluded(), 0);
}

#[test]
fn free_creator_is_excluded_even_if_allow_listed() {
    let free = creator("abc", "123", "Alice", 0);
    assert!(!policy(true, &["abc"], &[]).accepts(&free));
    assert!(!policy(true, &[], &[]).accepts(&free));
    assert!(policy(false, &["abc"], &[]).accepts(&free));
    assert!(policy(true, &["abc"], &[]).accepts(&creator("abc", "123", "Alice", 1)));
}

#[test]
fn allow_list_and_deny_list() {
    let a = creator("a", "1", "A", 100);
    let b = creator("b", "2", "B", 100);
    assert!(policy(false, &[], &[]).accepts(&a));
    assert!(policy(false, &["a"], &[]).accepts(&a));
    assert!(!policy(false, &["a"], &[]).accepts(&b));
    assert!(!policy(false, &[], &["a"]).accepts(&a));
    assert!(policy(false, &[], &["a"]).accepts(&b));
    assert!(!policy(false, &["a"], &["a"]).accepts(&a));
}

#[test]
fn list_contains_compares_whole_identifiers() {
    let list = vec!["abc".to_string(), "de".to_string()];
    assert!(list_contains(&list, &"de".to_string()));
    assert!(!list_contains(&list, &"d".to_string()));
    assert!(!list_contains(&Vec::new(), &"abc".to_string()));
}

#[test]
fn filtering_twice_changes_nothing() {
    let p = policy(true, &["a", "b", "c"], &["b"]);
    let listing = vec![
        creator("a", "1", "A", 100),
        creator("b", "2", "B", 100),
        creator("c", "3", "C", 0),
        creator("d", "4", "D", 100),
        creator("a", "9", "A2", 5),
    ];
    let once = retain(&p, &listing);
    let twice = retain(&p, &once);
    assert_eq!(
        all_fields(&once),
        vec![fields(&creator("a", "1", "A", 100)), fields(&creator("a", "9", "A2", 5))]
    );
    assert_eq!(all_fields(&twice), all_fields(&once));
}

#[test]
fn selection_counts_excluded() {
    let sources = CreatorSources {
        following: Some(vec![creator("a", "1", "A", 0), creator("b", "2", "B", 10)]),
        supporting: Some(vec![creator("c", "3", "C", 10), creator("b", "2", "B", 10)]),
    };
    let selection = select(&sources, &policy(true, &[], &["c"]));
    assert_eq!(selection.total, 3);
    assert_eq!(selection.included(), 1);
    assert_eq!(selection.excluded(), 2);
    assert_eq!(selection.creators[0].creator_id, "b");
}

#[test]
fn configuration_enables_sources() {
    let sources = CreatorSources {
        following: Some(vec![creator("f", "1", "F", 10)]),
        supporting: Some(vec![creator("s", "2", "S", 10)]),
    };
    let ids = |save: SaveType| -> Vec<String> {
        let config = Config { save, ..Config::default() };
        get_creators(&config, &sources).creators.iter().map(|c| c.creator_id.clone()).collect()
    };
    assert_eq!(ids(SaveType::All), vec!["f", "s"]);
    assert_eq!(ids(SaveType::Following), vec!["f"]);
    assert_eq!(ids(SaveType::Supporting), vec!["s"]);
    assert_eq!(SaveType::default(), SaveType::Supporting);
}

#[test]
fn creator_equality_is_identity() {
    assert_eq!(creator("a", "1", "A", 1), creator("a", "1", "Other", 99));
    assert_ne!(creator("a", "1", "A", 1), creator("a", "2", "A", 1));
    assert!(creator("a", "1", "A", 1).is_same(&creator("a", "1", "B", 2)));
    assert!(!creator("a", "1", "A", 1).is_same(&creator("b", "1", "A", 1)));
}

#[test]
fn profile_converts_to_creator() {
    let profile = FollowingCreator {
        creator_id: "abc".to_string(),
        user_id: "123".to_string(),
        name: "Alice".to_string(),
        fee: 500,
        description: "hello".to_string(),
    };
    assert_eq!(fields(&profile.to_creator()), fields(&creator("abc", "123", "Alice", 500)));
    assert_eq!(profile.duplicate(), profile);
}

#[test]
fn config_filters_creators_and_posts() {
    let config = Config { policy: policy(true, &[], &["x"]), ..Config::default() };
    assert!(config.filter_creator(&creator("a", "1", "A", 1)));
    assert!(!config.filter_creator(&creator("a", "1", "A", 0)));
    assert!(!config.filter_creator(&creator("x", "1", "A", 1)));
    let post = |fee_required: u32, is_restricted: bool| PostListItem {
        id: "1".to_string(),
        title: "t".to_string(),
        fee_required,
        published_millis: 0,
        updated_millis: 0,
        is_restricted,
        creator_id: "a".to_string(),
        excerpt: String::new(),
    };
    assert!(config.filter_post(&post(100, false)));
    assert!(!config.filter_post(&post(0, false)));
    assert!(!config.filter_post(&post(100, true)));
    let lenient = Config::default();
    assert!(lenient.filter_post(&post(0, false)));
    assert!(!lenient.filter_post(&post(0, true)));
}

#[test]
fn session_cookie_carries_its_name() {
    let with = |session: &str| Config { session: session.to_string(), ..Config::default() };
    assert_eq!(with("abc").session(), "FANBOXSESSID=abc");
    assert_eq!(with("FANBOXSESSID=abc").session(), "FANBOXSESSID=abc");
    assert_eq!(with("FANBOXSESSID").session(), "FANBOXSESSID=FANBOXSESSID");
    assert_eq!(with("").session(), "FANBOXSESSID=");
}

#[test]
fn user_agent_is_chosen_once() {
    let mut config = Config::default();
    config.fill_user_agent(1_700_000_131_999);
    assert_eq!(
        config.user_agent(),
        "Mozilla/5.0 (Windows NT 10.0; Win64; x64) AppleWebKit/537.1 (KHTML, like Gecko) Chrome/133.0.0.0 Safari/537.1"
    );
    config.fill_user_agent(0);
    assert_eq!(
        config.user_agent(),
        "Mozilla/5.0 (Windows NT 10.0; Win64; x64) AppleWebKit/537.1 (KHTML, like Gecko) Chrome/133.0.0.0 Safari/537.1"
    );
    let mut other = Config::default();
    other.fill_user_agent(999);
    assert_eq!(
        other.user_agent(),
        "Mozilla/4.0 (Windows NT 10.0; Win64; x64) AppleWebKit/537.0 (KHTML, like Gecko) Chrome/132.0.0.0 Safari/537.0"
    );
}

#[test]
fn config_getters_return_fields() {
    let config = Config {
        session: "s".to_string(),
        output: "./archive".to_string(),
        save: SaveType::All,
        force: true,
        overwrite: false,
        policy: FilterPolicy::default(),
        limit: 5,
        user_agent: "agent".to_string(),
    };
    assert_eq!(config.output(), "./archive");
    assert_eq!(config.accepts(), SaveType::All);
    assert!(config.force());
    assert!(!config.overwrite());
    assert_eq!(config.limit(), 5);
    assert_eq!(config.user_agent(), "agent");
}

#[test]
fn kept_creators_are_distinct_candidates() {
    let following = vec![creator("a", "1", "A", 10), creator("b", "2", "B", 0)];
    let supporting = vec![creator("a", "1", "A again", 20), creator("c", "3", "C", 30)];
    let sources =
        CreatorSources { following: Some(following.clone()), supporting: Some(supporting.clone()) };
    let kept = aggregate(&sources, &policy(true, &[], &[]));
    assert_eq!(
        all_fields(&kept),
        vec![fields(&creator("a", "1", "A again", 20)), fields(&creator("c", "3", "C", 30))]
    );
    for (i, one) in kept.iter().enumerate() {
        assert!(following.iter().chain(supporting.iter()).any(|c| fields(c) == fields(one)));
        for other in kept.iter().skip(i + 1) {
            assert!(!one.is_same(other));
        }
    }
}
