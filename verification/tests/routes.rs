use triagebot_server::routes::{find_page, Page};

fn pulls(path: &str) -> Option<(String, String)> {
    match find_page(path) {
        Some(Page::Pulls { owner, repo }) => Some((owner, repo)),
        _ => None,
    }
}

fn log(path: &str) -> Option<(String, String, String)> {
    match find_page(path) {
        Some(Page::GhaLogs { owner, repo, log_id }) => Some((owner, repo, log_id)),
        _ => None,
    }
}

#[test]
fn triage_index_page() {
    assert!(matches!(find_page("/triage"), Some(Page::Index)));
    assert!(matches!(find_page("triage"), Some(Page::Index)));
}

#[test]
fn pulls_page_takes_owner_and_repo() {
    assert_eq!(
        pulls("/triage/rust-lang/rust"),
        Some(("rust-lang".to_string(), "rust".to_string()))
    );
    assert_eq!(pulls("/triage/a.b/c%2Fd"), Some(("a.b".to_string(), "c%2Fd".to_string())));
    assert_eq!(pulls("/triage/ö/日本"), Some(("ö".to_string(), "日本".to_string())));
}

#[test]
fn log_page_takes_owner_repo_and_id() {
    assert_eq!(
        log("/gha-logs/rust-lang/rust/12345"),
        Some(("rust-lang".to_string(), "rust".to_string(), "12345".to_string()))
    );
}

#[test]
fn parameters_are_not_empty() {
    assert!(find_page("/triage/").is_none());
    assert!(find_page("/triage//rust").is_none());
    assert!(find_page("/triage/rust-lang/").is_none());
    assert!(find_page("/gha-logs/rust-lang/rust/").is_none());
}

#[test]
fn segments_are_counted() {
    assert!(find_page("").is_none());
    assert!(find_page("/").is_none());
    assert!(find_page("//triage").is_none());
    assert!(find_page("/triage/rust-lang").is_none());
    assert!(find_page("/triage/rust-lang/rust/").is_none());
    assert!(find_page("/triage/rust-lang/rust/1").is_none());
    assert!(find_page("/gha-logs/rust-lang/rust").is_none());
    assert!(find_page("/gha-logs/rust-lang/rust/1/2").is_none());
}

#[test]
fn fixed_segments_are_matched_exactly() {
    assert!(find_page("/Triage").is_none());
    assert!(find_page("/triages").is_none());
    assert!(find_page("/triag").is_none());
    assert!(find_page("/gha_logs/a/b/c").is_none());
}

#[test]
fn endpoints_are_no_pages() {
    for path in [
        "/",
        "/agenda",
        "/agenda/lang/triage",
        "/agenda/lang/planning",
        "/agenda/types/planning",
        "/bors-commit-list",
        "/notifications",
        "/zulip-hook",
        "/github-hook",
    ] {
        assert!(find_page(path).is_none());
    }
}
