use github_rater::github::{
    list_request, readme_request, readme_url, repos_url, shorten_readme, GithubUser, ReadmeFile,
    Repo, README_LIMIT, README_TIMEOUT_SECS, TRUNCATION_MARKER, USER_AGENT,
};

const TEST_USERNAME: &str = "ofluffydev";

fn dummy_repo(name: &str, readme: Option<&str>) -> Repo {
    Repo {
        name: name.to_string(),
        readme: readme.map(|s| s.to_string()),
    }
}

fn dummy_user() -> GithubUser {
    GithubUser {
        username: TEST_USERNAME.to_string(),
        repos: vec![
            dummy_repo("Hello-World", Some("# Hello")),
            dummy_repo("Spoon-Knife", None),
        ],
    }
}

#[test]
fn test_repo_name() {
    let repo = dummy_repo("example-repo", Some("README"));
    assert_eq!(repo.name, "example-repo");
}

#[test]
fn test_repo_readme_some() {
    let repo = dummy_repo("example-repo", Some("This is a README"));
    assert_eq!(repo.readme(), Some("This is a README"));
}

#[test]
fn test_repo_readme_none() {
    let repo = dummy_repo("example-repo", None);
    assert_eq!(repo.readme(), None);
}

#[test]
fn test_github_user_username() {
    let user = dummy_user();
    assert_eq!(user.username, TEST_USERNAME);
}

#[test]
fn test_github_user_repos_len() {
    let user = dummy_user();
    assert_eq!(user.repos.len(), 2);
}

#[test]
fn test_github_user_keeps_order() {
    let user = dummy_user();
    assert_eq!(user.repos[0].name, "Hello-World");
    assert_eq!(user.repos[1].name, "Spoon-Knife");
}

#[test]
fn test_repo_clone_keeps_fields() {
    let repo = dummy_repo("example-repo", Some("This is a README"));
    let copy = repo.clone();
    assert_eq!(copy.name, "example-repo");
    assert_eq!(copy.readme(), Some("This is a README"));
    let bare = dummy_repo("bare", None).clone();
    assert_eq!(bare.name, "bare");
    assert_eq!(bare.readme(), None);
}

#[test]
fn test_constants() {
    assert_eq!(USER_AGENT, "rust-github-client");
    assert_eq!(README_LIMIT, 500);
    assert_eq!(README_TIMEOUT_SECS, 10);
    assert_eq!(TRUNCATION_MARKER, "... Shortened for AI to read");
    assert_eq!(TRUNCATION_MARKER.chars().count(), 28);
}

#[test]
fn test_shorten_readme_keeps_short_text() {
    assert_eq!(shorten_readme(String::new()), "");
    assert_eq!(shorten_readme("# Hello".to_string()), "# Hello");
}

#[test]
fn test_shorten_readme_keeps_text_at_the_limit() {
    let text = "a".repeat(500);
    assert_eq!(shorten_readme(text.clone()), text);
}

#[test]
fn test_shorten_readme_cuts_one_over_the_limit() {
    let text = format!("{}b", "a".repeat(500));
    let stored = shorten_readme(text);
    assert_eq!(
        stored,
        format!("{}... Shortened for AI to read", "a".repeat(500))
    );
    assert_eq!(stored.chars().count(), 528);
}

#[test]
fn test_shorten_readme_cuts_long_text() {
    let mut text = String::new();
    for i in 0..2000 {
        text.push(char::from(b'a' + (i % 26) as u8));
    }
    let stored = shorten_readme(text.clone());
    assert_eq!(&stored[..500], &text[..500]);
    assert_eq!(&stored[500..], TRUNCATION_MARKER);
    assert_eq!(stored.len(), 500 + TRUNCATION_MARKER.len());
}

#[test]
fn test_shorten_readme_counts_characters() {
    // 500 two-byte characters are within the limit, although 1000 bytes long.
    let at_limit = "é".repeat(500);
    assert_eq!(shorten_readme(at_limit.clone()), at_limit);
    // One more is cut after the 500th character, not inside one.
    let over = "é".repeat(501);
    let stored = shorten_readme(over);
    assert_eq!(stored, format!("{}{}", "é".repeat(500), TRUNCATION_MARKER));
    assert_eq!(stored.chars().count(), 528);
}

#[test]
fn test_repos_url() {
    assert_eq!(
        repos_url("octocat"),
        "https://api.github.com/users/octocat/repos?sort=updated"
    );
    assert_eq!(
        repos_url(""),
        "https://api.github.com/users//repos?sort=updated"
    );
}

#[test]
fn test_readme_url_primary() {
    assert_eq!(
        readme_url("octocat", "Hello-World", ReadmeFile::Primary),
        "https://raw.githubusercontent.com/octocat/Hello-World/master/README.md"
    );
}

#[test]
fn test_readme_url_fallback() {
    assert_eq!(
        readme_url("octocat", "Hello-World", ReadmeFile::Fallback),
        "https://raw.githubusercontent.com/octocat/Hello-World/master/README"
    );
}

#[test]
fn test_list_request() {
    let get = list_request("octocat");
    assert_eq!(
        get.url,
        "https://api.github.com/users/octocat/repos?sort=updated"
    );
    assert_eq!(get.user_agent.as_deref(), Some("rust-github-client"));
    assert_eq!(get.timeout_secs, None);
}

#[test]
fn test_readme_request() {
    let get = readme_request("octocat", "Spoon-Knife", ReadmeFile::Fallback);
    assert_eq!(
        get.url,
        "https://raw.githubusercontent.com/octocat/Spoon-Knife/master/README"
    );
    assert_eq!(get.user_agent, None);
    assert_eq!(get.timeout_secs, Some(10));
    let get = readme_request("octocat", "Spoon-Knife", ReadmeFile::Primary);
    assert_eq!(
        get.url,
        "https://raw.githubusercontent.com/octocat/Spoon-Knife/master/README.md"
    );
    assert_eq!(get.user_agent, None);
    assert_eq!(get.timeout_secs, Some(10));
}
