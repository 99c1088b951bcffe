use github_rater::error::{FetchError, RunError};
use github_rater::http::{is_success_status, require_body, Reply};

#[test]
fn test_is_success_status_range() {
    assert!(!is_success_status(0));
    assert!(!is_success_status(100));
    assert!(!is_success_status(199));
    assert!(is_success_status(200));
    assert!(is_success_status(201));
    assert!(is_success_status(299));
    assert!(!is_success_status(300));
    assert!(!is_success_status(404));
    assert!(!is_success_status(u16::MAX));
}

#[test]
fn test_reply_is_success() {
    assert!(!Reply::<String>::Failed.is_success());
    assert!(Reply::Answered { status: 200, body: () }.is_success());
    assert!(Reply::Answered { status: 299, body: () }.is_success());
    assert!(!Reply::Answered { status: 301, body: () }.is_success());
    assert!(!Reply::Answered { status: 199, body: () }.is_success());
}

#[test]
fn test_require_body_ok() {
    let reply = Reply::Answered {
        status: 200,
        body: Some(7u32),
    };
    assert_eq!(require_body(reply), Ok(7));
}

#[test]
fn test_require_body_transport() {
    assert_eq!(
        require_body(Reply::<Option<u32>>::Failed),
        Err(FetchError::Transport)
    );
}

#[test]
fn test_require_body_status_comes_before_shape() {
    let reply: Reply<Option<u32>> = Reply::Answered {
        status: 500,
        body: None,
    };
    assert_eq!(require_body(reply), Err(FetchError::Status(500)));
    let reply = Reply::Answered {
        status: 302,
        body: Some(1u32),
    };
    assert_eq!(require_body(reply), Err(FetchError::Status(302)));
}

#[test]
fn test_require_body_malformed() {
    let reply: Reply<Option<u32>> = Reply::Answered {
        status: 200,
        body: None,
    };
    assert_eq!(require_body(reply), Err(FetchError::Malformed));
}

#[test]
fn test_fetch_error_messages() {
    assert_eq!(FetchError::Transport.message(), "Failed to send request");
    assert_eq!(
        FetchError::Status(503).message(),
        "Unexpected response status"
    );
    assert_eq!(FetchError::Malformed.message(), "Failed to parse response");
}

#[test]
fn test_run_error_messages() {
    assert_eq!(RunError::MissingAccountId.message(), "ACCOUNT_ID not set");
    assert_eq!(RunError::MissingApiKey.message(), "API_KEY not set");
    assert_eq!(
        RunError::RepositoryList(FetchError::Transport).message(),
        "repository list: Failed to send request"
    );
    assert_eq!(
        RunError::RepositoryList(FetchError::Malformed).message(),
        "repository list: Failed to parse response"
    );
    assert_eq!(
        RunError::RepositoryList(FetchError::Status(404)).message(),
        "repository list: Unexpected response status"
    );
    assert_eq!(
        RunError::Inference(FetchError::Transport).message(),
        "inference: Failed to send request"
    );
    assert_eq!(
        RunError::Inference(FetchError::Status(401)).message(),
        "inference: Unexpected response status"
    );
    assert_eq!(
        RunError::Inference(FetchError::Malformed).message(),
        "inference: Failed to parse response"
    );
}
