//! The address of the preview image that GitHub renders for a repository.
use vstd::prelude::*;
use vstd::string::StringExecFns;
use crate::repo::Repo;

verus! {

/// Characters of the cache-busting token in a preview address.
pub open spec fn token_charset() -> Seq<char> {
    seq![
        '0', '1', '2', '3', '4', '5', '6', '7', '8', '9', 'a', 'b', 'c', 'd', 'e', 'f', 'g', 'h',
        'i', 'j', 'k', 'l', 'm', 'n', 'o', 'p', 'q', 'r', 's', 't', 'u', 'v', 'w', 'x', 'y', 'z',
    ]
}

/// Length of the cache-busting token.
pub const TOKEN_LENGTH: usize = 64;

/// `"https://opengraph.githubassets.com/"`.
pub open spec fn preview_base() -> Seq<char> {
    seq![
        'h', 't', 't', 'p', 's', ':', '/', '/', 'o', 'p', 'e', 'n', 'g', 'r', 'a', 'p', 'h', '.',
        'g', 'i', 't', 'h', 'u', 'b', 'a', 's', 's', 'e', 't', 's', '.', 'c', 'o', 'm', '/',
    ]
}

/// `"https://opengraph.githubassets.com/{token}/{author}/{name}"`.
pub open spec fn preview_url_of(token: Seq<char>, author: Seq<char>, name: Seq<char>) -> Seq<
    char,
> {
    preview_base() + token + seq!['/'] + author + seq!['/'] + name
}

/// A token that a preview address may carry: `TOKEN_LENGTH` characters of
/// [`token_charset`].
pub open spec fn is_token(token: Seq<char>) -> bool {
    token.len() == TOKEN_LENGTH && forall|i: int|
        0 <= i < token.len() ==> token_charset().contains(#[trigger] token[i])
}

/// Relies on `random_string::generate`: `length` characters, each drawn
/// from `charset`; it panics on an empty charset.
#[verifier::external_body]
fn random_text(length: usize, charset: &str) -> (r: String)
    requires
        charset@.len() > 0,
    ensures
        r@.len() == length,
        forall|i: int| 0 <= i < r@.len() ==> charset@.contains(#[trigger] r@[i]),
{
    random_string::generate(length, charset)
}

/// The preview address of `repo` with the given token (see
/// [`preview_url_of`]).
pub fn preview_url_with(token: &str, repo: &Repo) -> (r: String)
    ensures
        r@ == preview_url_of(token@, repo.author@, repo.name@),
{
    let base = "https://opengraph.githubassets.com/";
    let slash = "/";
    proof {
        reveal_strlit("https://opengraph.githubassets.com/");
        reveal_strlit("/");
        assert(base@ =~= preview_base());
    }
    let mut r = String::from_str(base);
    r.append(token);
    r.append(slash);
    r.append(repo.author.as_str());
    r.append(slash);
    r.append(repo.name.as_str());
    r
}

/// The preview address of `repo` with a fresh random token, so that no cache
/// on the way serves an old image.
pub fn github_og_image_url(repo: &Repo) -> (r: String)
    ensures
        exists|token: Seq<char>|
            is_token(token) && r@ == preview_url_of(token, repo.author@, repo.name@),
{
    let charset = "0123456789abcdefghijklmnopqrstuvwxyz";
    proof {
        reveal_strlit("0123456789abcdefghijklmnopqrstuvwxyz");
        assert(charset@ =~= token_charset());
    }
    let token = random_text(TOKEN_LENGTH, charset);
    let r = preview_url_with(token.as_str(), repo);
    proof {
        assert(is_token(token@));
    }
    r
}

} // verus!
