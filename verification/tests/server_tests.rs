use orpheusdl_tray::config::Config;
use orpheusdl_tray::queue::{Queue, Step};
use orpheusdl_tray::server::{DownloadStatus, QueueServerState};

fn state(token: &str) -> QueueServerState {
    let mut c = Config::defaults();
    c.token = token.to_string();
    let queue = Queue::new(Config::defaults());
    QueueServerState::new(queue, c)
}

#[test]
fn bearer_token_queues_the_url() {
    let mut s = state("s3cret");
    assert_eq!(s.expected_authorization(), "Bearer s3cret");
    let status = s.download(Some("Bearer s3cret"), "https://example.com/t".to_string());
    assert_eq!(status, DownloadStatus::Accepted);
    assert_eq!(status.code(), 202);
    match s.next_step() {
        Step::Run(job) => assert_eq!(job.url, "https://example.com/t"),
        _ => panic!("the accepted URL should be queued"),
    }
    assert!(matches!(s.next_step(), Step::Sleep(1)));
}

#[test]
fn accepted_urls_are_taken_in_arrival_order() {
    let mut s = state("k");
    assert_eq!(s.download(Some("Bearer k"), "first".to_string()), DownloadStatus::Accepted);
    assert_eq!(s.download(Some("Bearer k"), "second".to_string()), DownloadStatus::Accepted);
    assert_eq!(s.download(Some("Bearer x"), "refused".to_string()), DownloadStatus::Unauthorized);
    for expected in ["first", "second"] {
        match s.next_step() {
            Step::Run(job) => assert_eq!(job.url, expected),
            _ => panic!("accepted URLs should be queued"),
        }
    }
    assert!(matches!(s.next_step(), Step::Sleep(_)));
}

#[test]
fn wrong_or_missing_token_is_refused() {
    let mut s = state("s3cret");
    for auth in [
        None,
        Some("s3cret"),
        Some("Bearer wrong"),
        Some("bearer s3cret"),
        Some("Bearer s3cret "),
        Some(""),
    ] {
        let status = s.download(auth, "https://example.com/t".to_string());
        assert_eq!(status, DownloadStatus::Unauthorized);
        assert_eq!(status.code(), 401);
    }
    assert!(matches!(s.next_step(), Step::Sleep(_)));
}

#[test]
fn token_of_the_server_config_is_used() {
    // the queue was built from a config with the default token, the server
    // state from one with another token: the server's token decides
    let mut s = state("other");
    assert_eq!(
        s.download(Some("Bearer change_me"), "u".to_string()),
        DownloadStatus::Unauthorized
    );
    assert_eq!(
        s.download(Some("Bearer other"), "u".to_string()),
        DownloadStatus::Accepted
    );
}
