//! Exclusion rules: a repository is left out when any rule matches it.
use vstd::prelude::*;
use crate::repo::Repo;
use crate::text::{chars_of, contains_chars, is_infix, lower_of, lowercase};

verus! {

/// Exclusion rules by exact name, exact author, and case-insensitive
/// substring of the description.
#[derive(Clone, Debug)]
pub struct DenylistConfig {
    pub names: Vec<String>,
    pub authors: Vec<String>,
    pub descriptions: Vec<String>,
}

/// Exclusion rules of the older configuration shape: exact names and authors.
#[derive(Clone, Debug)]
pub struct Blacklist {
    pub names: Vec<String>,
    pub authors: Vec<String>,
}

/// `s` is one of the entries of `list`, exactly.
pub open spec fn listed(list: Seq<String>, s: Seq<char>) -> bool {
    exists|i: int| 0 <= i < list.len() && list[i]@ == s
}

/// The lowercase form of some entry of `entries` occurs in the lowercase
/// form of `description`.
pub open spec fn mentions_any(entries: Seq<String>, description: Seq<char>) -> bool {
    exists|i: int|
        0 <= i < entries.len() && is_infix(lower_of(#[trigger] entries[i]@), lower_of(description))
}

/// Whether the rules of `dl` exclude `repo`.
pub open spec fn denied(dl: DenylistConfig, repo: Repo) -> bool {
    listed(dl.names@, repo.name@) || listed(dl.authors@, repo.author@) || mentions_any(
        dl.descriptions@,
        repo.description@,
    )
}

/// Whether the rules of `bl` exclude `repo`.
pub open spec fn blacklisted(bl: Blacklist, repo: Repo) -> bool {
    listed(bl.authors@, repo.author@) || listed(bl.names@, repo.name@)
}

/// Whether `s` is one of the entries of `list`.
pub fn is_listed_in(list: &Vec<String>, s: &String) -> (r: bool)
    ensures
        r == listed(list@, s@),
{
    let mut i: usize = 0;
    while i < list.len()
        invariant
            i <= list@.len(),
            forall|k: int| 0 <= k < i ==> list@[k]@ != s@,
        decreases list@.len() - i,
    {
        if list[i] == *s {
            return true;
        }
        i = i + 1;
    }
    false
}

/// Whether some entry of `entries`, lowercased, occurs in `description`,
/// lowercased.
pub fn mentions_any_of(entries: &Vec<String>, description: &String) -> (r: bool)
    ensures
        r == mentions_any(entries@, description@),
{
    let lowered = lowercase(description.as_str());
    let hay = chars_of(lowered.as_str());
    let mut i: usize = 0;
    while i < entries.len()
        invariant
            i <= entries@.len(),
            hay@ == lower_of(description@),
            forall|k: int|
                0 <= k < i ==> !is_infix(lower_of(#[trigger] entries@[k]@), lower_of(description@)),
        decreases entries@.len() - i,
    {
        let entry = lowercase(entries[i].as_str());
        let needle = chars_of(entry.as_str());
        if contains_chars(&hay, &needle) {
            return true;
        }
        i = i + 1;
    }
    false
}

impl DenylistConfig {
    /// Whether any rule excludes `repo` (see [`denied`]).
    pub fn contains(&self, repo: &Repo) -> (r: bool)
        ensures
            r == denied(*self, *repo),
    {
        is_listed_in(&self.names, &repo.name) || is_listed_in(&self.authors, &repo.author)
            || mentions_any_of(&self.descriptions, &repo.description)
    }
}

impl Blacklist {
    /// Whether `repo`'s author or name is listed (see [`blacklisted`]).
    pub fn is_listed(&self, repo: &Repo) -> (r: bool)
        ensures
            r == blacklisted(*self, *repo),
    {
        is_listed_in(&self.authors, &repo.author) || is_listed_in(&self.names, &repo.name)
    }
}

/// The rules combine by "or": each of them alone excludes a repository it
/// matches, and a repository that no rule matches is kept.
pub proof fn lemma_any_rule_excludes(dl: DenylistConfig, repo: Repo)
    ensures
        listed(dl.names@, repo.name@) ==> denied(dl, repo),
        listed(dl.authors@, repo.author@) ==> denied(dl, repo),
        mentions_any(dl.descriptions@, repo.description@) ==> denied(dl, repo),
        !listed(dl.names@, repo.name@) && !listed(dl.authors@, repo.author@) && !mentions_any(
            dl.descriptions@,
            repo.description@,
        ) ==> !denied(dl, repo),
        dl.names@.len() == 0 && dl.authors@.len() == 0 && dl.descriptions@.len() == 0 ==> !denied(
            dl,
            repo,
        ),
{
}

/// Descriptions are matched without regard to case: the rule sees an entry
/// and a description only through their lowercase forms, so two descriptions
/// with one lowercase form are excluded alike, and an entry whose lowercase
/// form occurs in the lowercased description excludes it.
pub proof fn lemma_description_match_ignores_case(
    dl: DenylistConfig,
    repo: Repo,
    other: Repo,
    i: int,
)
    requires
        other.author@ == repo.author@,
        other.name@ == repo.name@,
        lower_of(other.description@) == lower_of(repo.description@),
    ensures
        denied(dl, other) == denied(dl, repo),
        0 <= i < dl.descriptions@.len() && is_infix(
            lower_of(dl.descriptions@[i]@),
            lower_of(repo.description@),
        ) ==> denied(dl, repo),
{
}

} // verus!
