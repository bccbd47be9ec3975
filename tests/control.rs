use rust_trending::config::{Config, IntervalConfig};
use rust_trending::control::{Action, Announcer, Event, Phase};
use rust_trending::denylist::DenylistConfig;
use rust_trending::format::Destination;
use rust_trending::repo::Repo;

fn repo(author: &str, name: &str, description: &str, stars: usize) -> Repo {
    Repo {
        author: author.to_string(),
        name: name.to_string(),
        description: description.to_string(),
        stars,
    }
}

fn config(authors: &[&str], destinations: Vec<Destination>) -> Config {
    Config {
        interval: IntervalConfig { post_ttl: 86400, fetch_interval: 600, post_interval: 30 },
        denylist: DenylistConfig {
            names: vec![],
            authors: authors.iter().map(|s| s.to_string()).collect(),
            descriptions: vec![],
        },
        destinations,
    }
}

fn expect_check(a: &Action, key: &str) {
    match a {
        Action::CheckSeen(k) => assert_eq!(k, key),
        other => panic!("expected a check of {key}, got {other:?}"),
    }
}

fn expect_publish(a: &Action, dest: Destination) -> String {
    match a {
        Action::Publish(d, text) => {
            assert_eq!(*d, dest);
            text.clone()
        }
        other => panic!("expected a post to {dest:?}, got {other:?}"),
    }
}

fn expect_mark(a: &Action, key: &str, ttl: u64) {
    match a {
        Action::Mark(k, t) => {
            assert_eq!(k, key);
            assert_eq!(*t, ttl);
        }
        other => panic!("expected a mark of {key}, got {other:?}"),
    }
}

fn expect_sleep(a: &Action, secs: u64) {
    match a {
        Action::Sleep(s) => assert_eq!(*s, secs),
        other => panic!("expected a wait of {secs}, got {other:?}"),
    }
}

#[test]
fn denylisted_item_is_never_checked_or_marked() {
    let mut loop_ = Announcer::new(config(&["foo"], vec![Destination::Mastodon]));
    assert_eq!(loop_.phase, Phase::Fetching);
    let a = loop_.step(Event::Fetched(vec![repo("foo", "bar", "", 0)]));
    expect_sleep(&a, 600);
    assert_eq!(loop_.phase, Phase::Resting);
    let a = loop_.step(Event::Slept);
    assert!(matches!(a, Action::Fetch));
}

#[test]
fn failed_destination_does_not_stop_the_next_one() {
    let mut loop_ = Announcer::new(config(&[], vec![Destination::Mastodon, Destination::Misskey]));
    let a = loop_.step(Event::Fetched(vec![repo("foo", "bar", "baz", 1)]));
    expect_check(&a, "foo/bar");
    let a = loop_.step(Event::Checked(false));
    let text = expect_publish(&a, Destination::Mastodon);
    assert_eq!(text, "foo / bar: baz \u{2605}1 https://github.com/foo/bar");
    let a = loop_.step(Event::PublishFailed);
    expect_publish(&a, Destination::Misskey);
    let a = loop_.step(Event::Published);
    expect_mark(&a, "foo/bar", 86400);
    let a = loop_.step(Event::Marked);
    expect_sleep(&a, 30);
    let a = loop_.step(Event::Slept);
    expect_sleep(&a, 600);
}

#[test]
fn whole_cycle_in_source_order() {
    let mut loop_ = Announcer::new(config(&["spam"], vec![Destination::Bluesky]));
    let batch = vec![
        repo("a", "one", "", 1),
        repo("spam", "two", "", 2),
        repo("c", "three", "", 3),
        repo("d", "four", "", 4),
    ];
    let a = loop_.step(Event::Fetched(batch));
    expect_check(&a, "a/one");
    let a = loop_.step(Event::Checked(true));
    expect_check(&a, "c/three");
    let a = loop_.step(Event::Checked(false));
    expect_publish(&a, Destination::Bluesky);
    assert_eq!(loop_.batch[loop_.index].name, "three");
    let a = loop_.step(Event::Published);
    expect_mark(&a, "c/three", 86400);
    let a = loop_.step(Event::Marked);
    expect_sleep(&a, 30);
    let a = loop_.step(Event::Slept);
    expect_check(&a, "d/four");
    let a = loop_.step(Event::StoreFailed);
    expect_sleep(&a, 600);
    assert!(loop_.batch.is_empty());
}

#[test]
fn failures_are_recovered() {
    let mut loop_ = Announcer::new(config(&[], vec![]));
    let a = loop_.step(Event::FetchFailed);
    expect_sleep(&a, 600);
    let a = loop_.step(Event::Slept);
    assert!(matches!(a, Action::Fetch));
    let a = loop_.step(Event::Fetched(vec![repo("a", "b", "", 0), repo("c", "d", "", 0)]));
    expect_check(&a, "a/b");
    let a = loop_.step(Event::StoreFailed);
    expect_check(&a, "c/d");
    let a = loop_.step(Event::Checked(false));
    expect_mark(&a, "c/d", 86400);
    let a = loop_.step(Event::StoreFailed);
    expect_sleep(&a, 30);
}

#[test]
fn destination_without_room_is_skipped() {
    let mut loop_ = Announcer::new(config(&[], vec![Destination::Twitter, Destination::Misskey]));
    let long_name = "n".repeat(300);
    let a = loop_.step(Event::Fetched(vec![repo("a", &long_name, "", 0)]));
    expect_check(&a, &format!("a/{long_name}"));
    let a = loop_.step(Event::Checked(false));
    expect_publish(&a, Destination::Misskey);
}

#[test]
fn unexpected_event_rests() {
    let mut loop_ = Announcer::new(config(&[], vec![]));
    let a = loop_.step(Event::Marked);
    expect_sleep(&a, 600);
    assert_eq!(loop_.phase, Phase::Resting);
}
