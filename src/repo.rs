//! The unit of work: a discovered repository, and the text derived from its
//! identity (its title, its address, its key in the store of announcements).
use vstd::prelude::*;
use vstd::string::StringExecFns;

verus! {

/// A trending repository as discovered. Its identity is the pair
/// `(author, name)`; description and stars may change between observations.
#[derive(Clone, Debug, PartialEq, Eq)]
pub struct Repo {
    pub author: String,
    pub description: String,
    pub name: String,
    pub stars: usize,
}

/// `" / "`, the separator between author and name in a title.
pub open spec fn title_separator() -> Seq<char> {
    seq![' ', '/', ' ']
}

/// The title of a repository: `"{author} / {name}"`, or just `name` when the
/// author and the name are the same.
pub open spec fn title_of(author: Seq<char>, name: Seq<char>) -> Seq<char> {
    if author != name {
        author + title_separator() + name
    } else {
        name
    }
}

/// The prefix of every post: the title followed by `": "`.
pub open spec fn prefix_of(author: Seq<char>, name: Seq<char>) -> Seq<char> {
    title_of(author, name) + seq![':', ' ']
}

/// `"https://github.com/"`.
pub open spec fn github_base() -> Seq<char> {
    seq!['h', 't', 't', 'p', 's', ':', '/', '/', 'g', 'i', 't', 'h', 'u', 'b', '.', 'c', 'o', 'm', '/']
}

/// The canonical address of a repository: `"https://github.com/{author}/{name}"`.
pub open spec fn uri_of(author: Seq<char>, name: Seq<char>) -> Seq<char> {
    github_base() + author + seq!['/'] + name
}

/// The key under which the store remembers an announcement: `"{author}/{name}"`.
pub open spec fn key_of(author: Seq<char>, name: Seq<char>) -> Seq<char> {
    author + seq!['/'] + name
}

/// Builds the canonical address of `repo` (see [`uri_of`]).
pub fn repo_uri(repo: &Repo) -> (r: String)
    ensures
        r@ == uri_of(repo.author@, repo.name@),
{
    let base = "https://github.com/";
    proof {
        reveal_strlit("https://github.com/");
        assert(base@ =~= github_base());
    }
    let slash = "/";
    proof {
        reveal_strlit("/");
    }
    let mut r = String::from_str(base);
    r.append(repo.author.as_str());
    r.append(slash);
    r.append(repo.name.as_str());
    r
}

/// Builds the store key of `repo` (see [`key_of`]). It depends on the
/// identity alone, so every observation of a repository shares one key.
pub fn dedup_key(repo: &Repo) -> (r: String)
    ensures
        r@ == key_of(repo.author@, repo.name@),
{
    let slash = "/";
    proof {
        reveal_strlit("/");
    }
    let mut r = repo.author.clone();
    r.append(slash);
    r.append(repo.name.as_str());
    r
}

/// Builds the title of `repo` (see [`title_of`]).
pub fn make_repo_title(repo: &Repo) -> (r: String)
    ensures
        r@ == title_of(repo.author@, repo.name@),
{
    if repo.author != repo.name {
        let sep = " / ";
        proof {
            reveal_strlit(" / ");
        }
        let mut r = repo.author.clone();
        r.append(sep);
        r.append(repo.name.as_str());
        r
    } else {
        repo.name.clone()
    }
}

/// Builds the prefix of a post about `repo` (see [`prefix_of`]).
pub fn make_post_prefix(repo: &Repo) -> (r: String)
    ensures
        r@ == prefix_of(repo.author@, repo.name@),
{
    let mut r = make_repo_title(repo);
    let colon = ": ";
    proof {
        reveal_strlit(": ");
    }
    r.append(colon);
    r
}

} // verus!
