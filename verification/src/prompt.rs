//! The prompt that presents a collected user to the model.

use vstd::prelude::*;
use vstd::string::*;
use crate::github::{GithubUser, GithubUserView, Repo, RepoView};

verus! {

/// What stands in the prompt in place of a README that is absent.
pub const NO_README: &'static str = "No README available";

/// The opening of the prompt: it names the user and carries the grading
/// instructions.
pub open spec fn preamble_text(username: Seq<char>, instructions: Seq<char>) -> Seq<char> {
    "You are a professional programmer grader, currently reviewing the user \""@ + username
        + "\". "@ + instructions + " \n\n"@
}

/// The README text of a block: the stored text, or the placeholder.
pub open spec fn readme_text(readme: Option<Seq<char>>) -> Seq<char> {
    match readme {
        Some(text) => text,
        None => NO_README@,
    }
}

/// The block of one repository: its name and its README text.
pub open spec fn block_text(repo: RepoView) -> Seq<char> {
    "Repository: "@ + repo.name + " \nREADME: "@ + readme_text(repo.readme) + " \n\n"@
}

/// The blocks of `repos`, one after the other in the order of the sequence.
pub open spec fn blocks_text(repos: Seq<RepoView>) -> Seq<char>
    decreases repos.len(),
{
    if repos.len() == 0 {
        Seq::empty()
    } else {
        blocks_text(repos.drop_last()) + block_text(repos.last())
    }
}

/// The whole prompt: the preamble, then one block for each repository.
pub open spec fn prompt_text(user: GithubUserView, instructions: Seq<char>) -> Seq<char> {
    preamble_text(user.username, instructions) + blocks_text(user.repos)
}

/// For a user without repositories the prompt is the preamble and nothing
/// else.
pub proof fn lemma_prompt_without_repositories(user: GithubUserView, instructions: Seq<char>)
    requires
        user.repos.len() == 0,
    ensures
        prompt_text(user, instructions) == preamble_text(user.username, instructions),
{
}

/// The blocks of two sequences joined are the blocks of the first followed by
/// the blocks of the second.
pub proof fn lemma_blocks_concat(first: Seq<RepoView>, second: Seq<RepoView>)
    ensures
        blocks_text(first + second) == blocks_text(first) + blocks_text(second),
    decreases second.len(),
{
    if second.len() == 0 {
        assert(first + second =~= first);
    } else {
        lemma_blocks_concat(first, second.drop_last());
        assert((first + second).drop_last() =~= first + second.drop_last());
        assert((first + second).last() == second.last());
    }
}

/// The prompt holds the block of every repository, and the blocks stand in
/// the order of the repositories: before the block of repository `i` stand
/// the preamble and the blocks of the repositories before it, after it the
/// blocks of those that follow.
pub proof fn lemma_prompt_holds_block(user: GithubUserView, instructions: Seq<char>, i: int)
    requires
        0 <= i < user.repos.len(),
    ensures
        prompt_text(user, instructions) == preamble_text(user.username, instructions)
            + blocks_text(user.repos.take(i)) + block_text(user.repos[i]) + blocks_text(
            user.repos.skip(i + 1),
        ),
{
    let before = user.repos.take(i);
    let at = user.repos.subrange(i, i + 1);
    let after = user.repos.skip(i + 1);
    assert(user.repos =~= before + at + after);
    lemma_blocks_concat(before + at, after);
    lemma_blocks_concat(before, at);
    assert(blocks_text(at) =~= block_text(user.repos[i])) by {
        assert(at.drop_last() =~= Seq::<RepoView>::empty());
        assert(blocks_text(at.drop_last()) =~= Seq::<char>::empty());
        assert(at.last() == user.repos[i]);
    }
    assert(prompt_text(user, instructions) =~= preamble_text(user.username, instructions)
        + blocks_text(before) + block_text(user.repos[i]) + blocks_text(after));
}

/// Appends the block of `repo` to `prompt`.
fn push_block(prompt: &mut String, repo: &Repo)
    ensures
        final(prompt)@ == old(prompt)@ + block_text(repo@),
{
    prompt.append("Repository: ");
    prompt.append(repo.name.as_str());
    prompt.append(" \nREADME: ");
    match &repo.readme {
        Some(text) => prompt.append(text.as_str()),
        None => prompt.append(NO_README),
    }
    prompt.append(" \n\n");
}

/// Builds the prompt for `user`, with `instructions` as the grading
/// instructions of the preamble. The user is consumed.
pub fn build_prompt(user: GithubUser, instructions: &str) -> (prompt: String)
    ensures
        prompt@ == prompt_text(user@, instructions@),
{
    let mut prompt = String::from_str(
        "You are a professional programmer grader, currently reviewing the user \"",
    );
    prompt.append(user.username.as_str());
    prompt.append("\". ");
    prompt.append(instructions);
    prompt.append(" \n\n");
    let mut i: usize = 0;
    while i < user.repos.len()
        invariant
            i <= user.repos.len(),
            prompt@ == preamble_text(user.username@, instructions@) + blocks_text(
                user@.repos.take(i as int),
            ),
        decreases user.repos.len() - i,
    {
        proof {
            let done = user@.repos.take(i as int);
            let next = user@.repos.take(i + 1);
            assert(next.drop_last() =~= done);
            assert(next.last() == user.repos[i as int]@);
        }
        push_block(&mut prompt, &user.repos[i]);
        i += 1;
    }
    proof {
        assert(user@.repos.take(i as int) =~= user@.repos);
    }
    prompt
}

} // verus!
