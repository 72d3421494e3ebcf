//! Addresses of repositories on GitHub, and what fetching one comes to.

use crate::text::{
    append_literal, chars_of, index_of_char, is_literal, join, join_range, lemma_occurs_at_prefix,
    matches_at, opt_text, rows, slice_of, split, split_on, strip_suffixes, to_string,
    without_suffixes,
};
use vstd::prelude::*;

verus! {

/// Why an address names no repository.
#[derive(Clone, Copy, Debug, PartialEq, Eq, Structural)]
pub enum GithubUrlError {
    /// No part of the address is `github.com`.
    NotGithub,
    /// Owner or repository is missing after the host.
    InvalidFormat,
}

impl GithubUrlError {
    /// What is said of the error.
    pub open spec fn text(self) -> Seq<char> {
        match self {
            GithubUrlError::NotGithub => "Not a GitHub URL"@,
            GithubUrlError::InvalidFormat => "Invalid GitHub URL format"@,
        }
    }

    pub fn message(&self) -> (s: &'static str)
        ensures
            s@ == self.text(),
    {
        match self {
            GithubUrlError::NotGithub => "Not a GitHub URL",
            GithubUrlError::InvalidFormat => "Invalid GitHub URL format",
        }
    }
}

/// The branch that is taken where an address names none.
pub const DEFAULT_BRANCH: &'static str = "main";

/// The index of the first of `parts` at or after `from` that equals `word`;
/// the number of parts where there is none.
pub open spec fn first_equal(parts: Seq<Seq<char>>, from: int, word: Seq<char>) -> int
    decreases parts.len() - from,
{
    if from >= parts.len() {
        parts.len() as int
    } else if parts[from] == word {
        from
    } else {
        first_equal(parts, from + 1, word)
    }
}

/// Owner, repository, branch and directory that an address names.
///
/// The address is split at its slashes, a trailing `.git` left aside. Owner
/// and repository follow the part `github.com`. Where `tree` and a branch
/// follow them, the branch is that one and the directory is what follows it,
/// if anything; else the branch is the default one and there is no directory.
pub open spec fn parsed_url(url: Seq<char>) -> Result<
    (Seq<char>, Seq<char>, Seq<char>, Option<Seq<char>>),
    GithubUrlError,
> {
    let parts = split(strip_suffixes(url, ".git"@), '/');
    let host = first_equal(parts, 0, "github.com"@);
    if host >= parts.len() {
        Err(GithubUrlError::NotGithub)
    } else if parts.len() < host + 3 {
        Err(GithubUrlError::InvalidFormat)
    } else if parts.len() > host + 4 && parts[host + 3] == "tree"@ {
        Ok(
            (
                parts[host + 1],
                parts[host + 2],
                parts[host + 4],
                if parts.len() > host + 5 {
                    Some(join(parts.skip(host + 5), "/"@))
                } else {
                    None
                },
            ),
        )
    } else {
        Ok((parts[host + 1], parts[host + 2], DEFAULT_BRANCH@, None))
    }
}

/// The view of what `parse_github_url` gives.
pub open spec fn repo_view(r: Result<(String, String, String, Option<String>), GithubUrlError>)
    -> Result<(Seq<char>, Seq<char>, Seq<char>, Option<Seq<char>>), GithubUrlError> {
    match r {
        Ok((owner, repo, branch, subpath)) => Ok(
            (
                owner@,
                repo@,
                branch@,
                match subpath {
                    Some(p) => Some(p@),
                    None => None,
                },
            ),
        ),
        Err(e) => Err(e),
    }
}

fn find_part(parts: &Vec<Vec<char>>, word: &str) -> (i: usize)
    ensures
        i <= parts.len(),
        i == first_equal(rows(parts@), 0, word@),
{
    let mut i: usize = 0;
    assert(rows(parts@).len() == parts@.len());
    while i < parts.len()
        invariant
            i <= parts.len(),
            rows(parts@).len() == parts@.len(),
            first_equal(rows(parts@), 0, word@) == first_equal(rows(parts@), i as int, word@),
        decreases parts.len() - i,
    {
        assert(rows(parts@)[i as int] == parts@[i as int]@);
        if is_literal(&parts[i], word) {
            return i;
        }
        i += 1;
    }
    i
}

/// Owner, repository, branch and directory that an address names.
pub fn parse_github_url(url: &str) -> (r: Result<
    (String, String, String, Option<String>),
    GithubUrlError,
>)
    ensures
        repo_view(r) == parsed_url(url@),
{
    let chars = chars_of(url);
    let bare = without_suffixes(&chars, ".git");
    let parts = split_on(&bare, '/');
    let ghost all = rows(parts@);
    assert(all.len() == parts@.len());
    let host = find_part(&parts, "github.com");
    if host >= parts.len() {
        return Err(GithubUrlError::NotGithub);
    }
    if parts.len() - host < 3 {
        return Err(GithubUrlError::InvalidFormat);
    }
    assert(all[host + 1] == parts@[host + 1]@);
    assert(all[host + 2] == parts@[host + 2]@);
    let owner = to_string(&parts[host + 1]);
    let repo = to_string(&parts[host + 2]);
    if parts.len() - host > 4 && is_literal(&parts[host + 3], "tree") {
        assert(all[host + 3] == parts@[host + 3]@);
        assert(all[host + 4] == parts@[host + 4]@);
        let branch = to_string(&parts[host + 4]);
        let subpath = if parts.len() - host > 5 {
            let sep = chars_of("/");
            let joined = join_range(&parts, host + 5, parts.len(), &sep);
            assert(all.subrange(host + 5, parts.len() as int) == all.skip(host + 5));
            Some(to_string(&joined))
        } else {
            None
        };
        Ok((owner, repo, branch, subpath))
    } else {
        if parts.len() - host > 4 {
            assert(all[host + 3] == parts@[host + 3]@);
        }
        Ok((owner, repo, DEFAULT_BRANCH.to_owned(), None))
    }
}

/// The name under which a repository is installed: the last part of its
/// address, a trailing `.git` left aside.
pub open spec fn skill_name_of(url: Seq<char>) -> Seq<char> {
    strip_suffixes(split(url, '/').last(), ".git"@)
}

/// `split` gives at least one piece.
pub proof fn lemma_split_nonempty(s: Seq<char>, sep: char)
    ensures
        split(s, sep).len() >= 1,
    decreases s.len(),
{
    let n = index_of_char(s, sep) as int;
    if n < s.len() {
        lemma_split_nonempty(s.skip(n + 1), sep);
    }
}

/// The name under which a repository is installed.
pub fn skill_name_from_url(url: &str) -> (name: String)
    ensures
        name@ == skill_name_of(url@),
{
    let chars = chars_of(url);
    let parts = split_on(&chars, '/');
    proof {
        lemma_split_nonempty(url@, '/');
        assert(rows(parts@).len() == parts@.len());
        assert(rows(parts@).last() == parts@[parts@.len() - 1]@);
    }
    let last = &parts[parts.len() - 1];
    let bare = without_suffixes(last, ".git");
    to_string(&bare)
}

/// The address of the archive of one branch.
pub open spec fn archive_address(owner: Seq<char>, repo: Seq<char>, branch: Seq<char>) -> Seq<char> {
    "https://github.com/"@ + owner + "/"@ + repo + "/archive/refs/heads/"@ + branch + ".zip"@
}

/// The address from which a repository is cloned.
pub open spec fn clone_address(owner: Seq<char>, repo: Seq<char>) -> Seq<char> {
    "https://github.com/"@ + owner + "/"@ + repo + ".git"@
}

/// The directory that the archive of a branch holds everything in, and below
/// it the directory `subpath` where one is given; with the slash that ends it.
pub open spec fn archive_prefix(repo: Seq<char>, branch: Seq<char>, subpath: Option<Seq<char>>)
    -> Seq<char> {
    match subpath {
        Some(p) => repo + "-"@ + branch + "/"@ + p + "/"@,
        None => repo + "-"@ + branch + "/"@,
    }
}

/// Where an entry of the archive goes, below the directory that is filled:
/// what follows `prefix` in its name; `None` for an entry that is not below
/// `prefix`, and for the entry of `prefix` itself.
pub open spec fn entry_target(name: Seq<char>, prefix: Seq<char>) -> Option<Seq<char>> {
    if prefix.is_prefix_of(name) && name.len() > prefix.len() {
        Some(name.skip(prefix.len() as int))
    } else {
        None
    }
}

/// Whether an entry of an archive is a directory: its name ends in a slash.
pub fn is_directory_entry(name: &str) -> (b: bool)
    ensures
        b == (name@.len() > 0 && name@.last() == '/'),
{
    let n = chars_of(name);
    n.len() > 0 && n[n.len() - 1] == '/'
}

/// The address of the archive of one branch.
pub fn archive_url(owner: &str, repo: &str, branch: &str) -> (url: String)
    ensures
        url@ == archive_address(owner@, repo@, branch@),
{
    let mut v = chars_of("https://github.com/");
    append_literal(&mut v, owner);
    append_literal(&mut v, "/");
    append_literal(&mut v, repo);
    append_literal(&mut v, "/archive/refs/heads/");
    append_literal(&mut v, branch);
    append_literal(&mut v, ".zip");
    to_string(&v)
}

/// The address from which a repository is cloned.
pub fn clone_url(owner: &str, repo: &str) -> (url: String)
    ensures
        url@ == clone_address(owner@, repo@),
{
    let mut v = chars_of("https://github.com/");
    append_literal(&mut v, owner);
    append_literal(&mut v, "/");
    append_literal(&mut v, repo);
    append_literal(&mut v, ".git");
    to_string(&v)
}

/// The directory of the archive from which entries are taken.
pub fn archive_root(repo: &str, branch: &str, subpath: Option<&str>) -> (prefix: String)
    ensures
        prefix@ == archive_prefix(
            repo@,
            branch@,
            match subpath {
                Some(p) => Some(p@),
                None => None,
            },
        ),
{
    let mut v = chars_of(repo);
    append_literal(&mut v, "-");
    append_literal(&mut v, branch);
    append_literal(&mut v, "/");
    match subpath {
        Some(p) => {
            append_literal(&mut v, p);
            append_literal(&mut v, "/");
        },
        None => {},
    }
    to_string(&v)
}

/// Where an entry of the archive goes, below the directory that is filled.
pub fn entry_destination(name: &str, prefix: &str) -> (r: Option<String>)
    ensures
        opt_text(r) == entry_target(name@, prefix@),
{
    let n = chars_of(name);
    let p = chars_of(prefix);
    proof {
        lemma_occurs_at_prefix(n@, p@, 0);
        assert(n@.skip(0) == n@);
    }
    if matches_at(&n, 0, &p) && n.len() > p.len() {
        let rest = slice_of(&n, p.len(), n.len());
        assert(n@.subrange(p.len() as int, n.len() as int) == n@.skip(p.len() as int));
        Some(to_string(&rest))
    } else {
        None
    }
}

} // verus!
