//! The two stages together: from the repository list and the answers to the
//! README requests to the prompt.

use vstd::prelude::*;
use crate::collector::{collected_user, lemma_collection_outcome, outcome, start};
use crate::error::RunError;
use crate::github::{ReadmeFile, list_get, list_request, readme_url_text};
use crate::http::{Get, Reply};
use crate::prompt::prompt_text;
use crate::rating::Config;

verus! {

/// What a run starts with once its configuration is complete.
#[derive(Debug)]
pub struct Prepared {
    pub config: Config,
    /// The request to make first: the repository list.
    pub first: Get,
}

/// Checks the configuration and names the first request of the run. Each of
/// the two configured values is `None` where it is not set. Where one is
/// missing no request is named: the run ends before anything is sent.
pub fn prepare(
    username: &str,
    account_id: Option<String>,
    api_key: Option<String>,
) -> (res: Result<Prepared, RunError>)
    ensures
        match (account_id, api_key) {
            (None, _) => res == Err::<Prepared, RunError>(RunError::MissingAccountId),
            (Some(_), None) => res == Err::<Prepared, RunError>(RunError::MissingApiKey),
            (Some(id), Some(key)) => {
                &&& res matches Ok(prepared)
                &&& prepared.config.account_id@ == id@
                &&& prepared.config.api_key@ == key@
                &&& prepared.first@ == list_get(username@)
            },
        },
{
    match Config::new(account_id, api_key) {
        Err(e) => Err(e),
        Ok(config) => Ok(Prepared { config, first: list_request(username) }),
    }
}

/// The prompt that a run builds for `username` when the repository list
/// gives `names` and each README request is answered by `web`.
pub open spec fn run_prompt(
    username: Seq<char>,
    names: Seq<Seq<char>>,
    web: spec_fn(Seq<char>) -> Reply<Seq<char>>,
    instructions: Seq<char>,
) -> Seq<char> {
    prompt_text(outcome(start(username, names), web), instructions)
}

/// The prompt is fixed, character by character, by the user name, the
/// instructions, the repository list and the answers at the README addresses
/// of the listed repositories: it is the prompt of the user that
/// `collected_user` describes, and two runs that agree on those answers build
/// the same prompt.
pub proof fn lemma_prompt_fixed_by_responses(
    username: Seq<char>,
    names: Seq<Seq<char>>,
    web: spec_fn(Seq<char>) -> Reply<Seq<char>>,
    other: spec_fn(Seq<char>) -> Reply<Seq<char>>,
    instructions: Seq<char>,
)
    requires
        forall|i: int, file: ReadmeFile|
            0 <= i < names.len() ==> web(#[trigger] readme_url_text(username, names[i], file))
                == other(readme_url_text(username, names[i], file)),
    ensures
        run_prompt(username, names, web, instructions) == prompt_text(
            collected_user(username, names, web),
            instructions,
        ),
        run_prompt(username, names, web, instructions) == run_prompt(
            username,
            names,
            other,
            instructions,
        ),
{
    lemma_collection_outcome(username, names, web);
    lemma_collection_outcome(username, names, other);
    let a = collected_user(username, names, web);
    let b = collected_user(username, names, other);
    assert forall|i: int| 0 <= i < names.len() implies a.repos[i] == b.repos[i] by {
        let primary = readme_url_text(username, names[i], ReadmeFile::Primary);
        let fallback = readme_url_text(username, names[i], ReadmeFile::Fallback);
        assert(web(primary) == other(primary));
        assert(web(fallback) == other(fallback));
    }
    assert(a.repos =~= b.repos);
}

} // verus!
