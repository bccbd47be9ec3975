//! Sizing an announcement to a destination's length budget.
//!
//! Every post reads `prefix + description + stars + url`. The furniture
//! (prefix, stars, url) is counted by its UTF-8 length, or for the url by a
//! fixed cost where the platform shortens every link to one width. The
//! description, with its `'@'` replaced, is counted in grapheme clusters; if
//! it has fewer than the room left it is kept whole, else its first
//! `room - 4` graphemes are kept and `" ..."` is appended.
use vstd::prelude::*;
use vstd::string::StringExecFns;
use vstd::utf8::encode_utf8;
use crate::repo::{make_post_prefix, prefix_of, repo_uri, uri_of, Repo};
use crate::text::{
    concat_all, concat_first, decimal, decimal_of, graphemes, graphemes_of, lemma_concat_prefix,
    replace_mentions, unmentioned,
};

verus! {

/// Longest status accepted by a Mastodon instance.
pub const MASTODON_POST_LENGTH: usize = 500;

/// Longest note accepted by a Misskey instance.
pub const MISSKEY_POST_LENGTH: usize = 3000;

/// Longest post accepted by Bluesky.
pub const BLUESKY_POST_LENGTH: usize = 300;

/// Longest tweet.
pub const TWEET_LENGTH: usize = 280;

/// Width that Mastodon counts for any link, whatever its real length.
pub const MASTODON_FIXED_URL_LENGTH: usize = 23;

/// A platform that announcements are published to.
#[derive(Clone, Copy, Debug, PartialEq, Eq)]
pub enum Destination {
    Mastodon,
    Misskey,
    Bluesky,
    Twitter,
}

/// The longest post that `d` accepts.
pub open spec fn budget_of(d: Destination) -> nat {
    match d {
        Destination::Mastodon => MASTODON_POST_LENGTH as nat,
        Destination::Misskey => MISSKEY_POST_LENGTH as nat,
        Destination::Bluesky => BLUESKY_POST_LENGTH as nat,
        Destination::Twitter => TWEET_LENGTH as nat,
    }
}

/// The width that `d` counts for any link, where it shortens links to one.
pub open spec fn fixed_url_cost(d: Destination) -> Option<nat> {
    match d {
        Destination::Mastodon => Some(MASTODON_FIXED_URL_LENGTH as nat),
        _ => None,
    }
}

/// The length of `s` in UTF-8 bytes.
pub open spec fn byte_len(s: Seq<char>) -> nat {
    encode_utf8(s).len()
}

/// The stars suffix: `" ★{stars}"`.
pub open spec fn stars_of(stars: nat) -> Seq<char> {
    seq![' ', '\u{2605}'] + decimal_of(stars)
}

/// The url suffix: a space and the canonical address.
pub open spec fn url_suffix_of(author: Seq<char>, name: Seq<char>) -> Seq<char> {
    seq![' '] + uri_of(author, name)
}

/// What the url suffix costs on `d`.
pub open spec fn url_cost(repo: Repo, d: Destination) -> nat {
    match fixed_url_cost(d) {
        Some(c) => c,
        None => byte_len(url_suffix_of(repo.author@, repo.name@)),
    }
}

/// What the furniture of a post about `repo` costs on `d`.
pub open spec fn furniture_cost(repo: Repo, d: Destination) -> nat {
    byte_len(prefix_of(repo.author@, repo.name@)) + byte_len(stars_of(repo.stars as nat)) + url_cost(
        repo,
        d,
    )
}

/// The room that the furniture leaves for the description on `d`.
pub open spec fn room_of(repo: Repo, d: Destination) -> int {
    budget_of(d) - furniture_cost(repo, d)
}

/// A post about `repo` can be sized to `d`: after the furniture there is
/// room at least for the ellipsis.
pub open spec fn fits(repo: Repo, d: Destination) -> bool {
    furniture_cost(repo, d) + 4 <= budget_of(d)
}

/// `" ..."`, which marks a truncated description.
pub open spec fn ellipsis() -> Seq<char> {
    seq![' ', '.', '.', '.']
}

/// A description sized to `room` graphemes: the description with its
/// mentions replaced, kept whole when it has fewer graphemes than `room`,
/// else its first `room - 4` graphemes followed by `" ..."`.
pub open spec fn description_of(description: Seq<char>, room: nat) -> Seq<char> {
    let s = unmentioned(description);
    if graphemes_of(s).len() < room {
        s
    } else {
        concat_all(graphemes_of(s).take(room - 4)) + ellipsis()
    }
}

/// The post about `repo` on `d`.
pub open spec fn post_of(repo: Repo, d: Destination) -> Seq<char> {
    prefix_of(repo.author@, repo.name@) + description_of(
        repo.description@,
        room_of(repo, d) as nat,
    ) + stars_of(repo.stars as nat) + url_suffix_of(repo.author@, repo.name@)
}

fn byte_length(s: &String) -> (n: usize)
    ensures
        n == byte_len(s@),
{
    s.as_str().as_bytes().len()
}

/// Builds the stars suffix of a post about `repo` (see [`stars_of`]).
pub fn make_post_stars(repo: &Repo) -> (r: String)
    ensures
        r@ == stars_of(repo.stars as nat),
{
    let star = " \u{2605}";
    proof {
        reveal_strlit(" \u{2605}");
        assert(star@ =~= seq![' ', '\u{2605}']);
    }
    let mut r = String::from_str(star);
    let digits = decimal(repo.stars);
    r.append(digits.as_str());
    r
}

/// Builds the url suffix of a post about `repo` (see [`url_suffix_of`]).
pub fn make_post_url(repo: &Repo) -> (r: String)
    ensures
        r@ == url_suffix_of(repo.author@, repo.name@),
{
    let space = " ";
    proof {
        reveal_strlit(" ");
    }
    let mut r = String::from_str(space);
    let uri = repo_uri(repo);
    r.append(uri.as_str());
    r
}

/// Sizes the description of `repo` to `length_left` graphemes (see
/// [`description_of`]).
pub fn make_post_description(repo: &Repo, length_left: usize) -> (r: String)
    requires
        length_left >= 4,
    ensures
        r@ == description_of(repo.description@, length_left as nat),
        r@.len() >= 4 && graphemes_of(unmentioned(repo.description@)).len() >= length_left ==> r@.subrange(
            0,
            r@.len() - 4,
        ) == unmentioned(repo.description@).subrange(0, r@.len() - 4),
{
    let description = replace_mentions(repo.description.as_str());
    let pieces = graphemes(description.as_str());
    if pieces.len() < length_left {
        description
    } else {
        let mut r = concat_first(&pieces, length_left - 4);
        proof {
            lemma_concat_prefix(pieces@.map_values(|g: String| g@), length_left - 4);
        }
        let ghost kept = r@;
        let dots = " ...";
        proof {
            reveal_strlit(" ...");
            assert(dots@ =~= ellipsis());
        }
        r.append(dots);
        proof {
            assert(r@.subrange(0, r@.len() - 4) =~= kept);
        }
        r
    }
}

/// What the furniture of a post about `repo` costs on `d`, or `None` where
/// it exceeds what a `usize` holds.
pub fn post_furniture_cost(repo: &Repo, d: Destination) -> (r: Option<usize>)
    ensures
        r is Some <==> furniture_cost(*repo, d) <= usize::MAX,
        r matches Some(n) ==> n == furniture_cost(*repo, d),
{
    let prefix = make_post_prefix(repo);
    let stars = make_post_stars(repo);
    let url = match d {
        Destination::Mastodon => MASTODON_FIXED_URL_LENGTH,
        _ => byte_length(&make_post_url(repo)),
    };
    let total = byte_length(&prefix) as u128 + byte_length(&stars) as u128 + url as u128;
    if total <= usize::MAX as u128 {
        Some(total as usize)
    } else {
        None
    }
}

/// The longest post that `d` accepts.
pub fn post_budget(d: Destination) -> (r: usize)
    ensures
        r == budget_of(d),
{
    match d {
        Destination::Mastodon => MASTODON_POST_LENGTH,
        Destination::Misskey => MISSKEY_POST_LENGTH,
        Destination::Bluesky => BLUESKY_POST_LENGTH,
        Destination::Twitter => TWEET_LENGTH,
    }
}

/// Whether a post about `repo` can be sized to `d` (see [`fits`]).
pub fn post_fits(repo: &Repo, d: Destination) -> (r: bool)
    ensures
        r == fits(*repo, d),
{
    match post_furniture_cost(repo, d) {
        Some(n) => n <= post_budget(d) - 4,
        None => false,
    }
}

/// Builds the post about `repo` for `d` (see [`post_of`]).
pub fn make_post(repo: &Repo, d: Destination) -> (r: String)
    requires
        fits(*repo, d),
    ensures
        r@ == post_of(*repo, d),
{
    let prefix = make_post_prefix(repo);
    let stars = make_post_stars(repo);
    let url = make_post_url(repo);
    let url_len = match d {
        Destination::Mastodon => MASTODON_FIXED_URL_LENGTH,
        _ => byte_length(&url),
    };
    let furniture = byte_length(&prefix) + byte_length(&stars) + url_len;
    let length_left = post_budget(d) - furniture;
    let description = make_post_description(repo, length_left);
    let mut r = prefix;
    r.append(description.as_str());
    r.append(stars.as_str());
    r.append(url.as_str());
    r
}

/// Builds the status posted to Mastodon.
pub fn make_mastodon_post(repo: &Repo) -> (r: String)
    requires
        fits(*repo, Destination::Mastodon),
    ensures
        r@ == post_of(*repo, Destination::Mastodon),
{
    make_post(repo, Destination::Mastodon)
}

/// Builds the note posted to Misskey.
pub fn make_misskey_post(repo: &Repo) -> (r: String)
    requires
        fits(*repo, Destination::Misskey),
    ensures
        r@ == post_of(*repo, Destination::Misskey),
{
    make_post(repo, Destination::Misskey)
}

/// Builds the text of the post made on Bluesky.
pub fn make_bluesky_post(repo: &Repo) -> (r: String)
    requires
        fits(*repo, Destination::Bluesky),
    ensures
        r@ == post_of(*repo, Destination::Bluesky),
{
    make_post(repo, Destination::Bluesky)
}

/// Builds the tweet.
pub fn make_tweet(repo: &Repo) -> (r: String)
    requires
        fits(*repo, Destination::Twitter),
    ensures
        r@ == post_of(*repo, Destination::Twitter),
{
    make_post(repo, Destination::Twitter)
}

/// How many graphemes of the description a post sized to `room` keeps.
pub open spec fn kept_graphemes(description: Seq<char>, room: nat) -> nat {
    let n = graphemes_of(unmentioned(description)).len();
    if n < room {
        n
    } else {
        (room - 4) as nat
    }
}

/// Whether a description sized to `room` is cut short.
pub open spec fn is_truncated(description: Seq<char>, room: nat) -> bool {
    graphemes_of(unmentioned(description)).len() >= room
}

/// What the description costs in a post sized to `room`: the graphemes kept,
/// and the four characters of `" ..."` where it was cut short.
pub open spec fn description_cost(description: Seq<char>, room: nat) -> nat {
    kept_graphemes(description, room) + if is_truncated(description, room) {
        4nat
    } else {
        0nat
    }
}

/// A sequence of characters never has more characters than UTF-8 bytes.
pub proof fn lemma_chars_within_bytes(s: Seq<char>)
    ensures
        s.len() <= byte_len(s),
    decreases s.len(),
{
    if s.len() > 0 {
        lemma_chars_within_bytes(s.drop_first());
    }
}

/// Every post starts with its prefix: `"{name}: "` when the author and the
/// name are the same, else `"{author} / {name}: "`.
pub proof fn lemma_post_prefix(repo: Repo, d: Destination)
    ensures
        repo.author@ == repo.name@ ==> post_of(repo, d).subrange(0, repo.name@.len() + 2int)
            == repo.name@ + seq![':', ' '],
        repo.author@ != repo.name@ ==> post_of(repo, d).subrange(
            0,
            repo.author@.len() + repo.name@.len() + 5int,
        ) == repo.author@ + seq![' ', '/', ' '] + repo.name@ + seq![':', ' '],
{
    let p = prefix_of(repo.author@, repo.name@);
    let rest = description_of(repo.description@, room_of(repo, d) as nat) + stars_of(
        repo.stars as nat,
    ) + url_suffix_of(repo.author@, repo.name@);
    assert(post_of(repo, d) =~= p + rest);
    assert((p + rest).subrange(0, p.len() as int) =~= p);
}

/// A post stays within the budget of its destination, counted piece by
/// piece: the furniture by its UTF-8 length (or the fixed width of a
/// shortened link), which is never less than its number of characters, and
/// the description by the graphemes it keeps plus the ellipsis where it was
/// cut short, however many characters each grapheme holds.
pub proof fn lemma_post_within_budget(repo: Repo, d: Destination)
    requires
        fits(repo, d),
    ensures
        prefix_of(repo.author@, repo.name@).len() <= byte_len(prefix_of(repo.author@, repo.name@)),
        stars_of(repo.stars as nat).len() <= byte_len(stars_of(repo.stars as nat)),
        fixed_url_cost(d) is None ==> url_suffix_of(repo.author@, repo.name@).len() <= url_cost(
            repo,
            d,
        ),
        post_of(repo, d) == prefix_of(repo.author@, repo.name@) + description_of(
            repo.description@,
            room_of(repo, d) as nat,
        ) + stars_of(repo.stars as nat) + url_suffix_of(repo.author@, repo.name@),
        furniture_cost(repo, d) + description_cost(repo.description@, room_of(repo, d) as nat)
            <= budget_of(d),
{
    lemma_chars_within_bytes(prefix_of(repo.author@, repo.name@));
    lemma_chars_within_bytes(stars_of(repo.stars as nat));
    lemma_chars_within_bytes(url_suffix_of(repo.author@, repo.name@));
}

/// The cut falls exactly at the room left: a description with fewer
/// graphemes than the room is kept whole (with its mentions replaced), and
/// one with as many graphemes as the room, or more, keeps `room - 4` of them
/// and ends in `" ..."`.
pub proof fn lemma_truncation_boundary(description: Seq<char>, room: nat)
    requires
        room >= 4,
    ensures
        graphemes_of(unmentioned(description)).len() < room ==> description_of(description, room)
            == unmentioned(description),
        graphemes_of(unmentioned(description)).len() >= room ==> description_of(description, room)
            == concat_all(graphemes_of(unmentioned(description)).take(room - 4)) + ellipsis(),
        graphemes_of(unmentioned(description)).len() >= room ==> graphemes_of(
            unmentioned(description),
        ).take(room - 4).len() == room - 4,
{
}

} // verus!
