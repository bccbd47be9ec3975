use rust_trending::clock::now_ts;
use rust_trending::preview::{github_og_image_url, preview_url_with};
use rust_trending::repo::Repo;
use rust_trending::trending::{parse_count, parse_stars, repo_from_entry, trim};

#[test]
fn entry_with_spaced_heading() {
    let r = repo_from_entry("\n      servo /\n\n      servo\n    ", "\n  The Servo Browser Engine\n ", "\n 18,622\n").unwrap();
    assert_eq!(
        r,
        Repo {
            author: "servo".to_string(),
            description: "The Servo Browser Engine".to_string(),
            name: "servo".to_string(),
            stars: 18622,
        }
    );
}

#[test]
fn entry_without_description_or_stars() {
    let r = repo_from_entry("timberio / vector", "", "").unwrap();
    assert_eq!(r.author, "timberio");
    assert_eq!(r.name, "vector");
    assert_eq!(r.description, "");
    assert_eq!(r.stars, 0);
}

#[test]
fn entry_without_slash_is_skipped() {
    assert!(repo_from_entry("no slash here", "d", "1").is_none());
}

#[test]
fn entry_name_stops_at_second_slash() {
    let r = repo_from_entry("a / b / c", "", "").unwrap();
    assert_eq!(r.author, "a");
    assert_eq!(r.name, "b");
}

#[test]
fn trimming_unicode_white_space() {
    assert_eq!(trim("\u{3000}\t x y \u{A0}\n"), "x y");
    assert_eq!(trim("   "), "");
    assert_eq!(trim(""), "");
}

#[test]
fn star_counter_reading() {
    assert_eq!(parse_stars(" 1,234,567 "), 1234567);
    assert_eq!(parse_stars("+5"), 5);
    assert_eq!(parse_stars("5k"), 0);
    assert_eq!(parse_stars("-5"), 0);
    assert_eq!(parse_stars("+"), 0);
    assert_eq!(parse_stars("99999999999999999999999"), 0);
    assert_eq!(parse_stars(&usize::MAX.to_string()), usize::MAX);
    assert_eq!(parse_count(&"".chars().collect()), None);
    assert_eq!(parse_count(&"042".chars().collect()), Some(42));
}

#[test]
fn preview_address() {
    let r = Repo { author: "servo".to_string(), description: String::new(), name: "servo".to_string(), stars: 0 };
    assert_eq!(preview_url_with("t0k", &r), "https://opengraph.githubassets.com/t0k/servo/servo");
    let url = github_og_image_url(&r);
    let token = url
        .strip_prefix("https://opengraph.githubassets.com/")
        .unwrap()
        .strip_suffix("/servo/servo")
        .unwrap();
    assert_eq!(token.len(), 64);
    assert!(token.chars().all(|c| c.is_ascii_digit() || c.is_ascii_lowercase()));
}

#[test]
fn clock_is_past_the_epoch() {
    assert!(now_ts() > 1_600_000_000);
}
