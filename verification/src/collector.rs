//! Collecting a user's repositories and their README files.
//!
//! The collector is a state machine. It names the next request, takes the
//! reply to it, and moves on: a README is asked for under its primary file
//! name, then under the fallback name, and is absent where both fail.

use vstd::prelude::*;
use vstd::string::*;
use crate::error::RunError;
use crate::github::{
    GithubUser, GithubUserView, README_LIMIT, ReadmeFile, Repo, RepoView, TRUNCATION_MARKER,
    names_of, readme_get, readme_request, readme_url_text, shorten_readme, stored_readme,
};
use crate::http::{Get, GetView, Reply, is_success_status, require_body, required_body, status_ok};

verus! {

/// A collection that still has a README to ask for, as its contracts see it.
pub struct CollectorView {
    pub username: Seq<char>,
    /// The names of all listed repositories, in the order of the list.
    pub names: Seq<Seq<char>>,
    /// The repositories whose README is settled, in the order of the list.
    pub resolved: Seq<RepoView>,
    /// The file name under which the next repository's README is asked for.
    pub file: ReadmeFile,
}

/// Where a collection stands, as its contracts see it.
pub enum ProgressView {
    /// A README request is to be made.
    Pending(CollectorView),
    /// Every repository is settled.
    Complete(GithubUserView),
}

impl CollectorView {
    /// The settled repositories are a proper prefix of the list, name by name.
    pub open spec fn wf(self) -> bool {
        &&& self.resolved.len() < self.names.len()
        &&& forall|i: int|
            0 <= i < self.resolved.len() ==> (#[trigger] self.resolved[i]).name == self.names[i]
    }

    /// The name of the repository whose README is being asked for.
    pub open spec fn current(self) -> Seq<char> {
        self.names[self.resolved.len() as int]
    }

    /// The request to be made next.
    pub open spec fn request(self) -> GetView {
        readme_get(self.username, self.current(), self.file)
    }

    /// The address of the request to be made next.
    pub open spec fn request_url(self) -> Seq<char> {
        readme_url_text(self.username, self.current(), self.file)
    }

    /// The collection after the current repository got `readme`: complete
    /// when it was the last one, else at the primary file of the next.
    pub open spec fn settle(self, readme: Option<Seq<char>>) -> ProgressView {
        let resolved = self.resolved.push(RepoView { name: self.current(), readme });
        if resolved.len() == self.names.len() {
            ProgressView::Complete(GithubUserView { username: self.username, repos: resolved })
        } else {
            ProgressView::Pending(
                CollectorView { resolved, file: ReadmeFile::Primary, ..self },
            )
        }
    }

    /// The collection after `reply` came back for the pending request. A 2xx
    /// answer settles the repository with the stored form of its body.
    /// Anything else moves from the primary file to the fallback, and after
    /// the fallback settles the repository without a README.
    pub open spec fn step(self, reply: Reply<Seq<char>>) -> ProgressView {
        match reply {
            Reply::Answered { status, body } if status_ok(status) => self.settle(
                Some(stored_readme(body)),
            ),
            _ => match self.file {
                ReadmeFile::Primary => ProgressView::Pending(
                    CollectorView { file: ReadmeFile::Fallback, ..self },
                ),
                ReadmeFile::Fallback => self.settle(None),
            },
        }
    }
}

/// Where a collection stands once the list of `names` has arrived: complete
/// for an empty list, else at the primary file of the first repository.
pub open spec fn start(username: Seq<char>, names: Seq<Seq<char>>) -> ProgressView {
    if names.len() == 0 {
        ProgressView::Complete(GithubUserView { username, repos: Seq::empty() })
    } else {
        ProgressView::Pending(
            CollectorView { username, names, resolved: Seq::empty(), file: ReadmeFile::Primary },
        )
    }
}

impl ProgressView {
    /// A pending collection is well formed; a complete one needs nothing.
    pub open spec fn wf(self) -> bool {
        match self {
            ProgressView::Pending(c) => c.wf(),
            ProgressView::Complete(_) => true,
        }
    }

    /// The repositories that are settled, in the order of the list.
    pub open spec fn settled(self) -> Seq<RepoView> {
        match self {
            ProgressView::Pending(c) => c.resolved,
            ProgressView::Complete(user) => user.repos,
        }
    }

    /// The collection after `reply`: a complete one stays as it is.
    pub open spec fn after(self, reply: Reply<Seq<char>>) -> ProgressView {
        match self {
            ProgressView::Pending(c) => c.step(reply),
            ProgressView::Complete(_) => self,
        }
    }

    /// The number of README requests that may at most still be made: two for
    /// each repository that is not settled, less the one already made for the
    /// current repository.
    pub open spec fn requests_left(self) -> nat {
        match self {
            ProgressView::Pending(c) => {
                let open_repos = c.names.len() - c.resolved.len();
                match c.file {
                    ReadmeFile::Primary => (2 * open_repos) as nat,
                    ReadmeFile::Fallback => (2 * open_repos - 1) as nat,
                }
            },
            ProgressView::Complete(_) => 0,
        }
    }
}

/// The README that is stored for a repository whose primary request is
/// answered by `primary` and whose fallback request would be answered by
/// `fallback`: the first of the two that succeeded, in its stored form.
pub open spec fn resolved_readme(
    primary: Reply<Seq<char>>,
    fallback: Reply<Seq<char>>,
) -> Option<Seq<char>> {
    if primary.succeeded() {
        Some(stored_readme(primary->body))
    } else if fallback.succeeded() {
        Some(stored_readme(fallback->body))
    } else {
        None
    }
}

/// The repository `name` of `username` as collected where each address is
/// answered by `web`.
pub open spec fn collected_repo(
    username: Seq<char>,
    name: Seq<char>,
    web: spec_fn(Seq<char>) -> Reply<Seq<char>>,
) -> RepoView {
    RepoView {
        name,
        readme: resolved_readme(
            web(readme_url_text(username, name, ReadmeFile::Primary)),
            web(readme_url_text(username, name, ReadmeFile::Fallback)),
        ),
    }
}

/// The user as collected from the list of `names` where each address is
/// answered by `web`: one repository for each name, in the order of the list.
pub open spec fn collected_user(
    username: Seq<char>,
    names: Seq<Seq<char>>,
    web: spec_fn(Seq<char>) -> Reply<Seq<char>>,
) -> GithubUserView {
    GithubUserView {
        username,
        repos: names.map_values(|name: Seq<char>| collected_repo(username, name, web)),
    }
}

/// The user that a collection ends with when each request that it names is
/// answered by `web`.
pub open spec fn outcome(
    progress: ProgressView,
    web: spec_fn(Seq<char>) -> Reply<Seq<char>>,
) -> GithubUserView
    decreases progress.requests_left(),
{
    match progress {
        ProgressView::Complete(user) => user,
        ProgressView::Pending(c) => {
            if c.wf() {
                outcome(c.step(web(c.request_url())), web)
            } else {
                GithubUserView { username: c.username, repos: c.resolved }
            }
        },
    }
}

/// Each reply uses up at least one of the requests that are left and leaves
/// the collection well formed, with the same user and the same list. What was
/// settled stays settled, and a reply settles at most the current
/// repository, under its listed name.
pub proof fn lemma_step_progress(c: CollectorView, reply: Reply<Seq<char>>)
    requires
        c.wf(),
    ensures
        c.step(reply).wf(),
        c.step(reply).requests_left() < ProgressView::Pending(c).requests_left(),
        match c.step(reply) {
            ProgressView::Pending(next) => next.username == c.username && next.names == c.names,
            ProgressView::Complete(user) => user.username == c.username && user.repos.len()
                == c.names.len(),
        },
        c.resolved.len() <= c.step(reply).settled().len() <= c.resolved.len() + 1,
        c.step(reply).settled().take(c.resolved.len() as int) == c.resolved,
        forall|i: int|
            0 <= i < c.step(reply).settled().len() ==> (#[trigger] c.step(reply).settled()[i]).name
                == c.names[i],
{
    assert(c.step(reply).settled().take(c.resolved.len() as int) =~= c.resolved);
}

/// A collection starts with two requests left for each listed repository.
pub proof fn lemma_start_budget(username: Seq<char>, names: Seq<Seq<char>>)
    ensures
        start(username, names).wf(),
        start(username, names).requests_left() == 2 * names.len(),
        start(username, names).settled() == Seq::<RepoView>::empty(),
{
}

/// A repository whose primary and fallback requests both fail, by a status
/// outside 2xx or without any answer, is settled without a README, and the
/// collection goes on with the next repository or is complete.
pub proof fn lemma_unresolved_readme_is_absent(
    c: CollectorView,
    primary: Reply<Seq<char>>,
    fallback: Reply<Seq<char>>,
)
    requires
        c.wf(),
        c.file == ReadmeFile::Primary,
        !primary.succeeded(),
        !fallback.succeeded(),
    ensures
        resolved_readme(primary, fallback) is None,
        c.step(primary) == ProgressView::Pending(
            CollectorView { file: ReadmeFile::Fallback, ..c },
        ),
        c.step(primary).after(fallback) == c.settle(None),
        c.step(primary).after(fallback).settled() == c.resolved.push(
            RepoView { name: c.current(), readme: None },
        ),
{
}

/// The outcome of a collection that has come as far as `c` in agreement with
/// what `web` answers.
proof fn lemma_outcome_from(c: CollectorView, web: spec_fn(Seq<char>) -> Reply<Seq<char>>)
    requires
        c.wf(),
        c.resolved == collected_user(c.username, c.names, web).repos.take(c.resolved.len() as int),
        c.file == ReadmeFile::Fallback ==> !web(
            readme_url_text(c.username, c.current(), ReadmeFile::Primary),
        ).succeeded(),
    ensures
        outcome(ProgressView::Pending(c), web) == collected_user(c.username, c.names, web),
    decreases ProgressView::Pending(c).requests_left(),
{
    let expected = collected_user(c.username, c.names, web);
    let k = c.resolved.len() as int;
    let next = c.step(web(c.request_url()));
    lemma_step_progress(c, web(c.request_url()));
    assert(expected.repos[k] == collected_repo(c.username, c.names[k], web));
    match next {
        ProgressView::Complete(user) => {
            assert(user.repos =~= expected.repos);
            assert(outcome(next, web) == user);
        },
        ProgressView::Pending(n) => {
            if n.resolved.len() > k {
                assert(n.resolved =~= expected.repos.take(k + 1));
            }
            lemma_outcome_from(n, web);
        },
    }
}

/// A collection whose requests are answered by `web` ends with exactly the
/// user that `collected_user` describes: the listed repositories in the order
/// of the list, each with the README that its two addresses resolve to.
pub proof fn lemma_collection_outcome(
    username: Seq<char>,
    names: Seq<Seq<char>>,
    web: spec_fn(Seq<char>) -> Reply<Seq<char>>,
)
    ensures
        outcome(start(username, names), web) == collected_user(username, names, web),
{
    let expected = collected_user(username, names, web);
    match start(username, names) {
        ProgressView::Complete(user) => {
            assert(user.repos =~= expected.repos);
        },
        ProgressView::Pending(c) => {
            assert(c.resolved =~= expected.repos.take(0));
            lemma_outcome_from(c, web);
        },
    }
}

/// A collected user has one repository for each listed name, in the order of
/// the list, and each README that is present is at most 500 characters and
/// the truncation marker long.
pub proof fn lemma_collected_user_shape(
    username: Seq<char>,
    names: Seq<Seq<char>>,
    web: spec_fn(Seq<char>) -> Reply<Seq<char>>,
)
    ensures
        collected_user(username, names, web).username == username,
        collected_user(username, names, web).repos.len() == names.len(),
        forall|i: int|
            0 <= i < names.len() ==> (#[trigger] collected_user(username, names, web).repos[i]).name
                == names[i],
        forall|i: int|
            0 <= i < names.len() ==> match (#[trigger] collected_user(
                username,
                names,
                web,
            ).repos[i]).readme {
                Some(text) => text.len() <= README_LIMIT + TRUNCATION_MARKER@.len(),
                None => true,
            },
{
}

/// A collection that still has a README to ask for.
#[derive(Debug)]
pub struct Collector {
    username: String,
    listed: Vec<Repo>,
    resolved: Vec<Repo>,
    file: ReadmeFile,
}

/// Where a collection stands.
#[derive(Debug)]
pub enum Progress {
    /// The request named by `Collector::request` is to be made, and its reply
    /// handed to `Collector::advance`.
    Pending(Collector),
    /// Every repository is settled.
    Complete(GithubUser),
}

impl View for Collector {
    type V = CollectorView;

    closed spec fn view(&self) -> CollectorView {
        CollectorView {
            username: self.username@,
            names: names_of(self.listed@),
            resolved: self.resolved@.map_values(|r: Repo| r@),
            file: self.file,
        }
    }
}

impl View for Progress {
    type V = ProgressView;

    open spec fn view(&self) -> ProgressView {
        match self {
            Progress::Pending(collector) => ProgressView::Pending(collector@),
            Progress::Complete(user) => ProgressView::Complete(user@),
        }
    }
}

/// Starts a collection from the reply to the repository list request.
/// `body` is the list as parsed, `None` where it was not a list of
/// repository records. Without a well-formed 2xx answer the collection fails.
pub fn begin(username: &str, reply: Reply<Option<Vec<Repo>>>) -> (res: Result<Progress, RunError>)
    ensures
        match required_body(reply) {
            Ok(listed) => res matches Ok(progress) && progress@ == start(
                username@,
                names_of(listed@),
            ),
            Err(e) => res == Err::<Progress, RunError>(RunError::RepositoryList(e)),
        },
{
    match require_body(reply) {
        Err(e) => Err(RunError::RepositoryList(e)),
        Ok(listed) => {
            let username = String::from_str(username);
            if listed.len() == 0 {
                let user = GithubUser { username, repos: Vec::new() };
                assert(user@.repos =~= Seq::empty());
                Ok(Progress::Complete(user))
            } else {
                let collector = Collector {
                    username,
                    listed,
                    resolved: Vec::new(),
                    file: ReadmeFile::Primary,
                };
                assert(collector@.resolved =~= Seq::empty());
                Ok(Progress::Pending(collector))
            }
        },
    }
}

impl Collector {
    /// Every collector has a repository left to settle, and what it has
    /// settled follows the list.
    #[verifier::type_invariant]
    spec fn inv(self) -> bool {
        self@.wf()
    }

    /// The request to be made next. A collector always has a repository to
    /// settle.
    pub fn request(&self) -> (get: Get)
        ensures
            self@.wf(),
            get@ == self@.request(),
    {
        proof {
            use_type_invariant(self);
        }
        let k = self.resolved.len();
        readme_request(self.username.as_str(), self.listed[k].name.as_str(), self.file)
    }

    /// The name of the repository whose README is being asked for.
    pub fn repository(&self) -> (name: &str)
        ensures
            name@ == self@.current(),
    {
        proof {
            use_type_invariant(self);
        }
        let k = self.resolved.len();
        self.listed[k].name.as_str()
    }

    /// The file name under which the README is being asked for.
    pub fn file(&self) -> (file: ReadmeFile)
        ensures
            file == self@.file,
    {
        self.file
    }

    /// Settles the current repository with `readme`.
    fn settle(self, readme: Option<String>) -> (next: Progress)
        ensures
            next@ == self@.settle(
                match readme {
                    Some(text) => Some(text@),
                    None => None,
                },
            ),
    {
        proof {
            use_type_invariant(&self);
        }
        let Collector { username, listed, resolved, file: _ } = self;
        let mut resolved = resolved;
        let k = resolved.len();
        let repo = Repo { name: listed[k].name.clone(), readme };
        let ghost before = resolved@.map_values(|r: Repo| r@);
        resolved.push(repo);
        assert(resolved@.map_values(|r: Repo| r@) =~= before.push(repo@));
        if resolved.len() == listed.len() {
            Progress::Complete(GithubUser { username, repos: resolved })
        } else {
            Progress::Pending(Collector { username, listed, resolved, file: ReadmeFile::Primary })
        }
    }

    /// Takes the reply to the pending request and moves on.
    pub fn advance(self, reply: Reply<String>) -> (next: Progress)
        ensures
            next@ == self@.step(reply@),
    {
        proof {
            use_type_invariant(&self);
        }
        match reply {
            Reply::Answered { status, body } if is_success_status(status) => {
                self.settle(Some(shorten_readme(body)))
            },
            _ => match self.file {
                ReadmeFile::Primary => {
                    let Collector { username, listed, resolved, file: _ } = self;
                    Progress::Pending(
                        Collector { username, listed, resolved, file: ReadmeFile::Fallback },
                    )
                },
                ReadmeFile::Fallback => self.settle(None),
            },
        }
    }
}

} // verus!
