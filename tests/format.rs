use rust_trending::format::{
    make_bluesky_post, make_mastodon_post, make_misskey_post, make_post, make_post_description,
    make_post_stars, make_post_url, make_tweet, post_furniture_cost, post_fits, Destination,
};
use rust_trending::repo::{dedup_key, make_post_prefix, make_repo_title, repo_uri, Repo};
use rust_trending::text::{contains_chars, decimal, replace_mentions};
use unicode_segmentation::UnicodeSegmentation;

fn repo(author: &str, name: &str, description: &str, stars: usize) -> Repo {
    Repo {
        author: author.to_string(),
        name: name.to_string(),
        description: description.to_string(),
        stars,
    }
}

#[test]
fn prefix_when_author_differs() {
    let r = repo("timberio", "vector", "", 0);
    assert_eq!(make_repo_title(&r), "timberio / vector");
    assert_eq!(make_post_prefix(&r), "timberio / vector: ");
    assert!(make_mastodon_post(&r).starts_with("timberio / vector: "));
}

#[test]
fn prefix_when_author_is_name() {
    let r = repo("servo", "servo", "", 0);
    assert_eq!(make_repo_title(&r), "servo");
    assert_eq!(make_post_prefix(&r), "servo: ");
    assert!(make_misskey_post(&r).starts_with("servo: "));
}

#[test]
fn furniture_pieces() {
    let r = repo("rust-lang", "rust", "", 49626);
    assert_eq!(make_post_stars(&r), " \u{2605}49626");
    assert_eq!(make_post_url(&r), " https://github.com/rust-lang/rust");
    assert_eq!(repo_uri(&r), "https://github.com/rust-lang/rust");
    assert_eq!(dedup_key(&r), "rust-lang/rust");
}

#[test]
fn dedup_key_ignores_description_and_stars() {
    assert_eq!(dedup_key(&repo("a", "b", "one", 1)), dedup_key(&repo("a", "b", "two", 2)));
}

#[test]
fn decimal_digits() {
    assert_eq!(decimal(0), "0");
    assert_eq!(decimal(7), "7");
    assert_eq!(decimal(10), "10");
    assert_eq!(decimal(18622), "18622");
    assert_eq!(decimal(usize::MAX), usize::MAX.to_string());
}

#[test]
fn mentions_are_replaced() {
    assert_eq!(replace_mentions("by @wez and @@x"), "by \u{FE6B}wez and \u{FE6B}\u{FE6B}x");
    assert_eq!(replace_mentions(""), "");
}

#[test]
fn substring_search() {
    let hay: Vec<char> = "somelongdescription".chars().collect();
    assert!(contains_chars(&hay, &"long".chars().collect()));
    assert!(contains_chars(&hay, &vec![]));
    assert!(!contains_chars(&hay, &"lung".chars().collect()));
    assert!(!contains_chars(&vec!['a'], &"ab".chars().collect()));
}

#[test]
fn exact_mastodon_post() {
    let r = repo("foo", "bar", "desc", 5);
    assert_eq!(make_mastodon_post(&r), "foo / bar: desc \u{2605}5 https://github.com/foo/bar");
}

#[test]
fn wez_tweet_replaces_mention_without_truncating() {
    let r = repo(
        "wez",
        "wezterm",
        "A GPU-accelerated cross-platform terminal emulator and multiplexer written by @wez and implemented in Rust",
        5924,
    );
    let tweet = make_tweet(&r);
    assert_eq!(
        tweet,
        "wez / wezterm: A GPU-accelerated cross-platform terminal emulator and multiplexer written by \u{FE6B}wez and implemented in Rust \u{2605}5924 https://github.com/wez/wezterm"
    );
    assert!(!tweet.contains(" ..."));
    assert!(!tweet.contains('@'));
    assert!(tweet.graphemes(true).count() <= 280);
}

// On Twitter, "a / b: " (7) + " ★0" (5) + " https://github.com/a/b" (23) leave 245.
#[test]
fn truncation_boundary() {
    let kept = repo("a", "b", &"x".repeat(244), 0);
    assert_eq!(make_tweet(&kept), format!("a / b: {} \u{2605}0 https://github.com/a/b", "x".repeat(244)));
    let exact = repo("a", "b", &"x".repeat(245), 0);
    assert_eq!(make_tweet(&exact), format!("a / b: {} ... \u{2605}0 https://github.com/a/b", "x".repeat(241)));
    let longer = repo("a", "b", &"x".repeat(246), 0);
    assert_eq!(make_tweet(&longer), format!("a / b: {} ... \u{2605}0 https://github.com/a/b", "x".repeat(241)));
}

#[test]
fn flags_are_cut_whole() {
    let flag = "\u{1F1EF}\u{1F1F5}";
    let r = repo("a", "b", &flag.repeat(300), 0);
    let tweet = make_tweet(&r);
    assert_eq!(tweet, format!("a / b: {} ... \u{2605}0 https://github.com/a/b", flag.repeat(241)));
    assert!(tweet.graphemes(true).count() <= 280);
}

#[test]
fn description_sizing() {
    let r = repo("a", "b", "héllo wörld", 0);
    assert_eq!(make_post_description(&r, 12), "héllo wörld");
    assert_eq!(make_post_description(&r, 11), "héllo w ...");
    assert_eq!(make_post_description(&r, 4), " ...");
}

#[test]
fn budgets_per_destination() {
    let long = "y".repeat(5000);
    let r = repo("a", "b", &long, 1);
    let suffix = " \u{2605}1 https://github.com/a/b";
    let m = make_mastodon_post(&r);
    // 500 - ("a / b: " 7 + " ★1" 5 + 23) = 465, so 461 graphemes and " ...".
    assert_eq!(m, format!("a / b: {} ...{}", "y".repeat(461), suffix));
    let k = make_misskey_post(&r);
    assert_eq!(k, format!("a / b: {} ...{}", "y".repeat(3000 - 35 - 4), suffix));
    let b = make_bluesky_post(&r);
    assert_eq!(b, format!("a / b: {} ...{}", "y".repeat(300 - 35 - 4), suffix));
    for (d, budget) in [(Destination::Misskey, 3000), (Destination::Bluesky, 300), (Destination::Twitter, 280)] {
        assert!(make_post(&r, d).graphemes(true).count() <= budget);
    }
}

#[test]
fn furniture_cost_and_fit() {
    let r = repo("a", "b", "", 1);
    assert_eq!(post_furniture_cost(&r, Destination::Mastodon), Some(7 + 5 + 23));
    assert_eq!(post_furniture_cost(&r, Destination::Twitter), Some(35));
    assert!(post_fits(&r, Destination::Twitter));
    let huge = repo(&"n".repeat(300), "b", "", 1);
    assert!(!post_fits(&huge, Destination::Twitter));
    assert!(post_fits(&huge, Destination::Misskey));
}
