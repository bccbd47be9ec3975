use rust_trending::config::TwitterToken;
use rust_trending::denylist::{Blacklist, DenylistConfig};
use rust_trending::repo::Repo;

fn repo(author: &str, name: &str, description: &str, stars: usize) -> Repo {
    Repo {
        author: author.to_string(),
        name: name.to_string(),
        description: description.to_string(),
        stars,
    }
}

fn strings(items: &[&str]) -> Vec<String> {
    items.iter().map(|s| s.to_string()).collect()
}

#[test]
fn test_denylistconfig_contains() {
    assert!(!DenylistConfig {
        authors: vec![],
        names: vec![],
        descriptions: vec![]
    }
    .contains(&repo("foo", "bar", "somelongdescription", 0)));
    assert!(DenylistConfig {
        authors: vec!["foo".to_string()],
        names: vec![],
        descriptions: vec![]
    }
    .contains(&repo("foo", "bar", "somelongdescription", 0)));
    assert!(!DenylistConfig {
        authors: vec!["bar".to_string()],
        names: vec![],
        descriptions: vec![]
    }
    .contains(&repo("foo", "bar", "somelongdescription", 0)));
    assert!(DenylistConfig {
        authors: vec![],
        names: vec!["bar".to_string()],
        descriptions: vec![]
    }
    .contains(&repo("foo", "bar", "somelongdescription", 0)));
    assert!(!DenylistConfig {
        authors: vec![],
        names: vec!["foo".to_string()],
        descriptions: vec![]
    }
    .contains(&repo("foo", "bar", "somelongdescription", 0)));
    assert!(DenylistConfig {
        authors: vec![],
        names: vec![],
        descriptions: vec!["long".to_string()]
    }
    .contains(&repo("foo", "bar", "somelongdescription", 0)));
    assert!(!DenylistConfig {
        authors: vec![],
        names: vec![],
        descriptions: vec!["foo".to_string()]
    }
    .contains(&repo("foo", "bar", "somelongdescription", 0)));
    assert!(DenylistConfig {
        authors: vec![],
        names: vec![],
        descriptions: vec!["Long".to_string()]
    }
    .contains(&repo("foo", "bar", "someloNgdescription", 0)));
}

#[test]
fn each_rule_alone_excludes() {
    let r = repo("alice", "tool", "A Handy Tool", 3);
    let by_author = DenylistConfig { names: vec![], authors: strings(&["alice"]), descriptions: vec![] };
    let by_name = DenylistConfig { names: strings(&["tool"]), authors: vec![], descriptions: vec![] };
    let by_text = DenylistConfig { names: vec![], authors: vec![], descriptions: strings(&["HANDY"]) };
    let none = DenylistConfig {
        names: strings(&["other"]),
        authors: strings(&["bob"]),
        descriptions: strings(&["crypto"]),
    };
    assert!(by_author.contains(&r));
    assert!(by_name.contains(&r));
    assert!(by_text.contains(&r));
    assert!(!none.contains(&r));
}

#[test]
fn author_and_name_rules_are_case_sensitive() {
    let r = repo("Alice", "Tool", "", 0);
    let dl = DenylistConfig { names: strings(&["tool"]), authors: strings(&["alice"]), descriptions: vec![] };
    assert!(!dl.contains(&r));
}

#[test]
fn description_rule_lowercases_non_ascii() {
    let r = repo("a", "b", "Ein GRÜNES Werkzeug", 0);
    let dl = DenylistConfig { names: vec![], authors: vec![], descriptions: strings(&["grünes"]) };
    assert!(dl.contains(&r));
}

#[test]
fn empty_description_entry_matches_everything() {
    let r = repo("a", "b", "", 0);
    let dl = DenylistConfig { names: vec![], authors: vec![], descriptions: strings(&[""]) };
    assert!(dl.contains(&r));
}

#[test]
fn blacklist_checks_author_and_name() {
    let bl = Blacklist { names: strings(&["bar"]), authors: strings(&["foo"]) };
    assert!(bl.is_listed(&repo("foo", "x", "", 0)));
    assert!(bl.is_listed(&repo("x", "bar", "", 0)));
    assert!(!bl.is_listed(&repo("bar", "foo", "", 0)));
    let token = TwitterToken {
        consumer_key: "ck".to_string(),
        consumer_secret: "cs".to_string(),
        access_key: "ak".to_string(),
        access_secret: "as".to_string(),
    };
    assert_eq!(token.clone().access_key, "ak");
}
