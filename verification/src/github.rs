//! A user's repositories: the data, the addresses they are fetched from, and
//! the policy by which a fetched README is stored.

use vstd::prelude::*;
use vstd::string::*;
use crate::http::{Get, GetView};

verus! {

/// The identifier sent as `User-Agent` with the repository list request.
pub const USER_AGENT: &'static str = "rust-github-client";

/// The number of seconds after which a README request is given up.
pub const README_TIMEOUT_SECS: u64 = 10;

/// The number of characters of a README that are kept.
pub const README_LIMIT: usize = 500;

/// The text appended to a README that was cut short.
pub const TRUNCATION_MARKER: &'static str = "... Shortened for AI to read";

/// A repository and the README text stored for it, if any.
#[derive(Debug)]
pub struct Repo {
    pub name: String,
    pub readme: Option<String>,
}

/// A repository as its contracts see it.
pub struct RepoView {
    pub name: Seq<char>,
    pub readme: Option<Seq<char>>,
}

impl View for Repo {
    type V = RepoView;

    open spec fn view(&self) -> RepoView {
        RepoView {
            name: self.name@,
            readme: match self.readme {
                Some(text) => Some(text@),
                None => None,
            },
        }
    }
}

impl Clone for Repo {
    fn clone(&self) -> (copy: Self)
        ensures
            copy@ == self@,
    {
        Repo {
            name: self.name.clone(),
            readme: match &self.readme {
                Some(text) => Some(text.clone()),
                None => None,
            },
        }
    }
}

impl Repo {
    /// The stored README text, if there is one.
    pub fn readme(&self) -> (text: Option<&str>)
        ensures
            match text {
                Some(t) => self@.readme == Some(t@),
                None => self@.readme is None,
            },
    {
        match &self.readme {
            Some(t) => Some(t.as_str()),
            None => None,
        }
    }
}

/// A user with the repositories collected for them, in the order in which
/// the repository list gave them.
#[derive(Debug)]
pub struct GithubUser {
    pub username: String,
    pub repos: Vec<Repo>,
}

/// A user as its contracts see it.
pub struct GithubUserView {
    pub username: Seq<char>,
    pub repos: Seq<RepoView>,
}

impl View for GithubUser {
    type V = GithubUserView;

    open spec fn view(&self) -> GithubUserView {
        GithubUserView {
            username: self.username@,
            repos: self.repos@.map_values(|r: Repo| r@),
        }
    }
}

/// The names of the listed repositories, in order.
pub open spec fn names_of(listed: Seq<Repo>) -> Seq<Seq<char>> {
    listed.map_values(|r: Repo| r.name@)
}

/// The README text that is stored for a text that was fetched: the text
/// itself up to 500 characters, else its first 500 characters followed by the
/// truncation marker.
pub open spec fn stored_readme(text: Seq<char>) -> Seq<char> {
    if text.len() > README_LIMIT {
        text.subrange(0, README_LIMIT as int) + TRUNCATION_MARKER@
    } else {
        text
    }
}

/// Applies the truncation policy to a fetched README.
pub fn shorten_readme(text: String) -> (stored: String)
    ensures
        stored@ == stored_readme(text@),
        text@.len() > README_LIMIT ==> stored@.len() == README_LIMIT + TRUNCATION_MARKER@.len(),
        stored@.len() <= README_LIMIT + TRUNCATION_MARKER@.len(),
{
    if text.as_str().unicode_len() > README_LIMIT {
        let head = text.as_str().substring_char(0, README_LIMIT);
        let mut stored = String::from_str(head);
        stored.append(TRUNCATION_MARKER);
        stored
    } else {
        text
    }
}

/// The file names under which a README is looked for.
#[derive(Clone, Copy, Debug, PartialEq, Eq)]
pub enum ReadmeFile {
    /// `README.md`
    Primary,
    /// `README`
    Fallback,
}

/// The address of the repository list of `username`, most recently updated
/// first.
pub open spec fn repos_url_text(username: Seq<char>) -> Seq<char> {
    "https://api.github.com/users/"@ + username + "/repos?sort=updated"@
}

/// Builds the address of the repository list of `username`.
pub fn repos_url(username: &str) -> (url: String)
    ensures
        url@ == repos_url_text(username@),
{
    let mut url = String::from_str("https://api.github.com/users/");
    url.append(username);
    url.append("/repos?sort=updated");
    url
}

/// The request for the repository list of `username`: it carries the
/// `User-Agent` identifier and has no ceiling on its time.
pub open spec fn list_get(username: Seq<char>) -> GetView {
    GetView {
        url: repos_url_text(username),
        user_agent: Some(USER_AGENT@),
        timeout_secs: None,
    }
}

/// Builds the request for the repository list of `username`.
pub fn list_request(username: &str) -> (get: Get)
    ensures
        get@ == list_get(username@),
{
    Get {
        url: repos_url(username),
        user_agent: Some(String::from_str(USER_AGENT)),
        timeout_secs: None,
    }
}

/// The path below a repository at which a README file is looked for.
pub open spec fn readme_path_text(file: ReadmeFile) -> Seq<char> {
    match file {
        ReadmeFile::Primary => "/master/README.md"@,
        ReadmeFile::Fallback => "/master/README"@,
    }
}

/// The address of a README file of repository `repo` of `username`.
pub open spec fn readme_url_text(
    username: Seq<char>,
    repo: Seq<char>,
    file: ReadmeFile,
) -> Seq<char> {
    "https://raw.githubusercontent.com/"@ + username + "/"@ + repo + readme_path_text(file)
}

/// Builds the address of a README file of repository `repo` of `username`.
pub fn readme_url(username: &str, repo: &str, file: ReadmeFile) -> (url: String)
    ensures
        url@ == readme_url_text(username@, repo@, file),
{
    let mut url = String::from_str("https://raw.githubusercontent.com/");
    url.append(username);
    url.append("/");
    url.append(repo);
    match file {
        ReadmeFile::Primary => url.append("/master/README.md"),
        ReadmeFile::Fallback => url.append("/master/README"),
    }
    url
}

/// The request for a README file of repository `repo` of `username`: it
/// carries no header of its own and is given up after ten seconds.
pub open spec fn readme_get(username: Seq<char>, repo: Seq<char>, file: ReadmeFile) -> GetView {
    GetView {
        url: readme_url_text(username, repo, file),
        user_agent: None,
        timeout_secs: Some(README_TIMEOUT_SECS),
    }
}

/// Builds the request for a README file of repository `repo` of `username`.
pub fn readme_request(username: &str, repo: &str, file: ReadmeFile) -> (get: Get)
    ensures
        get@ == readme_get(username@, repo@, file),
{
    Get {
        url: readme_url(username, repo, file),
        user_agent: None,
        timeout_secs: Some(README_TIMEOUT_SECS),
    }
}

} // verus!
