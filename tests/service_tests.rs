use url_shortener::errors::ShortenError;
use url_shortener::models::CreateLinkRequest;
use url_shortener::policy::ResolutionOutcome;
use url_shortener::service::{check_request, resolve, shorten, DEFAULT_MAX_ATTEMPTS};
use url_shortener::store::MemoryStore;

const NOW: i64 = 1_700_000_000;

fn is_alnum_code(code: &str) -> bool {
    code.chars().all(|c| c.is_ascii_alphanumeric())
}

fn request(url: &str) -> CreateLinkRequest {
    CreateLinkRequest::plain(url)
}

#[test]
fn shorten_example_page_then_resolve() {
    let mut store = MemoryStore::new();
    let link = shorten(&mut store, &request("https://example.com/page"), NOW, DEFAULT_MAX_ATTEMPTS)
        .unwrap();
    assert_eq!(link.short_code.len(), 6);
    assert!(is_alnum_code(&link.short_code));
    assert_eq!(
        resolve(&mut store, &link.short_code, None, NOW),
        ResolutionOutcome::Found("https://example.com/page".to_string())
    );
}

#[test]
fn round_trip_for_several_urls() {
    let mut store = MemoryStore::new();
    let urls = [
        "https://www.rust-lang.org",
        "http://localhost:8080/a/b?c=d",
        "ftp://files.example.org/x.txt",
    ];
    for url in urls {
        let link = shorten(&mut store, &request(url), NOW, DEFAULT_MAX_ATTEMPTS).unwrap();
        assert_eq!(link.original_url, url);
        assert!(link.is_active);
        assert_eq!(link.created_at, NOW);
        assert_eq!(link.password_hash, None);
        assert_eq!(
            resolve(&mut store, &link.short_code, None, NOW),
            ResolutionOutcome::Found(url.to_string())
        );
    }
    assert_eq!(store.len(), 3);
}

#[test]
fn unknown_code_is_not_found() {
    let mut store = MemoryStore::new();
    assert_eq!(resolve(&mut store, "abc123", None, NOW), ResolutionOutcome::NotFound);
    shorten(&mut store, &request("https://example.com"), NOW, DEFAULT_MAX_ATTEMPTS).unwrap();
    assert_eq!(resolve(&mut store, "not-a-code", None, NOW), ResolutionOutcome::NotFound);
    assert_eq!(store.len(), 1);
}

#[test]
fn many_generated_codes_are_distinct() {
    let mut store = MemoryStore::new();
    let mut seen = std::collections::HashSet::new();
    for i in 0..2000 {
        let url = format!("https://example.com/item/{}", i);
        let link = shorten(&mut store, &request(&url), NOW, DEFAULT_MAX_ATTEMPTS).unwrap();
        assert!(seen.insert(link.short_code.clone()));
    }
    assert_eq!(store.len(), 2000);
}

#[test]
fn past_expiry_yields_expired() {
    let mut store = MemoryStore::new();
    let mut req = request("https://example.com/soon");
    req.expires_at = Some(NOW + 10);
    let link = shorten(&mut store, &req, NOW, DEFAULT_MAX_ATTEMPTS).unwrap();
    assert_eq!(link.expires_at, Some(NOW + 10));
    assert_eq!(
        resolve(&mut store, &link.short_code, None, NOW + 5),
        ResolutionOutcome::Found("https://example.com/soon".to_string())
    );
    assert_eq!(
        resolve(&mut store, &link.short_code, None, NOW + 10),
        ResolutionOutcome::Found("https://example.com/soon".to_string())
    );
    assert_eq!(resolve(&mut store, &link.short_code, None, NOW + 11), ResolutionOutcome::Expired);
    assert_eq!(resolve(&mut store, &link.short_code, None, NOW + 1000), ResolutionOutcome::Expired);
}

#[test]
fn click_limit_of_one_resolves_once() {
    let mut store = MemoryStore::new();
    let mut req = request("https://example.com/once");
    req.click_limit = Some(1);
    let link = shorten(&mut store, &req, NOW, DEFAULT_MAX_ATTEMPTS).unwrap();
    assert_eq!(
        resolve(&mut store, &link.short_code, None, NOW),
        ResolutionOutcome::Found("https://example.com/once".to_string())
    );
    let after = store.get(&link.short_code).unwrap();
    assert_eq!(after.click_limit, Some(0));
    assert!(!after.is_active);
    assert_eq!(
        resolve(&mut store, &link.short_code, None, NOW),
        ResolutionOutcome::LimitExhausted
    );
}

#[test]
fn click_limit_counts_down() {
    let mut store = MemoryStore::new();
    let mut req = request("https://example.com/thrice");
    req.click_limit = Some(3);
    let link = shorten(&mut store, &req, NOW, DEFAULT_MAX_ATTEMPTS).unwrap();
    for left in [2, 1, 0] {
        assert_eq!(
            resolve(&mut store, &link.short_code, None, NOW),
            ResolutionOutcome::Found("https://example.com/thrice".to_string())
        );
        assert_eq!(store.get(&link.short_code).unwrap().click_limit, Some(left));
    }
    assert_eq!(
        resolve(&mut store, &link.short_code, None, NOW),
        ResolutionOutcome::LimitExhausted
    );
}

#[test]
fn click_limit_of_zero_is_exhausted() {
    let mut store = MemoryStore::new();
    let mut req = request("https://example.com/never");
    req.click_limit = Some(0);
    let link = shorten(&mut store, &req, NOW, DEFAULT_MAX_ATTEMPTS).unwrap();
    assert_eq!(
        resolve(&mut store, &link.short_code, None, NOW),
        ResolutionOutcome::LimitExhausted
    );
    assert_eq!(
        resolve(&mut store, &link.short_code, None, NOW),
        ResolutionOutcome::LimitExhausted
    );
}

#[test]
fn password_gate() {
    let mut store = MemoryStore::new();
    let mut req = request("https://example.com/secret");
    req.password = Some("hunter2".to_string());
    let link = shorten(&mut store, &req, NOW, DEFAULT_MAX_ATTEMPTS).unwrap();
    let hash = link.password_hash.clone().unwrap();
    assert_ne!(hash, "hunter2");
    assert!(hash.starts_with("$argon2"));
    assert_eq!(
        resolve(&mut store, &link.short_code, None, NOW),
        ResolutionOutcome::PasswordRequired
    );
    assert_eq!(
        resolve(&mut store, &link.short_code, Some("hunter3"), NOW),
        ResolutionOutcome::PasswordMismatch
    );
    assert_eq!(
        resolve(&mut store, &link.short_code, Some("hunter2"), NOW),
        ResolutionOutcome::Found("https://example.com/secret".to_string())
    );
}

#[test]
fn custom_alias_collision() {
    let mut store = MemoryStore::new();
    let mut first = request("https://example.com/first");
    first.custom_alias = Some("abc".to_string());
    let link = shorten(&mut store, &first, NOW, DEFAULT_MAX_ATTEMPTS).unwrap();
    assert_eq!(link.short_code, "abc");
    let mut second = request("https://example.com/second");
    second.custom_alias = Some("abc".to_string());
    assert_eq!(
        shorten(&mut store, &second, NOW, DEFAULT_MAX_ATTEMPTS),
        Err(ShortenError::AliasTaken)
    );
    assert_eq!(store.len(), 1);
    assert_eq!(store.get(&"abc".to_string()).unwrap(), link);
    assert_eq!(
        resolve(&mut store, "abc", None, NOW),
        ResolutionOutcome::Found("https://example.com/first".to_string())
    );
}

#[test]
fn invalid_url_is_refused() {
    let mut store = MemoryStore::new();
    for url in ["not a url", "", "example.com/page", "/relative/path"] {
        assert_eq!(
            shorten(&mut store, &request(url), NOW, DEFAULT_MAX_ATTEMPTS),
            Err(ShortenError::InvalidUrl)
        );
    }
    assert_eq!(store.len(), 0);
}

#[test]
fn expiry_not_after_creation_is_refused() {
    let mut store = MemoryStore::new();
    let mut req = request("https://example.com");
    req.expires_at = Some(NOW);
    assert_eq!(
        shorten(&mut store, &req, NOW, DEFAULT_MAX_ATTEMPTS),
        Err(ShortenError::InvalidExpiry)
    );
    req.expires_at = Some(NOW - 100);
    assert_eq!(
        shorten(&mut store, &req, NOW, DEFAULT_MAX_ATTEMPTS),
        Err(ShortenError::InvalidExpiry)
    );
    assert_eq!(store.len(), 0);
}

#[test]
fn negative_click_limit_is_refused() {
    let mut store = MemoryStore::new();
    let mut req = request("https://example.com");
    req.click_limit = Some(-1);
    assert_eq!(
        shorten(&mut store, &req, NOW, DEFAULT_MAX_ATTEMPTS),
        Err(ShortenError::InvalidClickLimit)
    );
    assert_eq!(store.len(), 0);
}

#[test]
fn url_is_checked_before_alias() {
    let mut store = MemoryStore::new();
    let mut first = request("https://example.com");
    first.custom_alias = Some("taken".to_string());
    shorten(&mut store, &first, NOW, DEFAULT_MAX_ATTEMPTS).unwrap();
    let mut second = request("no url");
    second.custom_alias = Some("taken".to_string());
    assert_eq!(
        shorten(&mut store, &second, NOW, DEFAULT_MAX_ATTEMPTS),
        Err(ShortenError::InvalidUrl)
    );
}

#[test]
fn zero_attempts_exhaust_allocation() {
    let mut store = MemoryStore::new();
    assert_eq!(
        shorten(&mut store, &request("https://example.com"), NOW, 0),
        Err(ShortenError::AllocationExhausted)
    );
    assert_eq!(store.len(), 0);
}

#[test]
fn error_status_codes() {
    assert_eq!(ShortenError::InvalidUrl.status_code(), 400);
    assert_eq!(ShortenError::InvalidExpiry.status_code(), 400);
    assert_eq!(ShortenError::InvalidClickLimit.status_code(), 400);
    assert_eq!(ShortenError::AliasTaken.status_code(), 400);
    assert_eq!(ShortenError::AllocationExhausted.status_code(), 500);
    assert_eq!(ShortenError::StorageError.status_code(), 500);
}

#[test]
fn request_checks_come_in_order() {
    let mut req = request("https://example.com");
    assert_eq!(check_request(&req, NOW), Ok(()));
    req.click_limit = Some(-5);
    assert_eq!(check_request(&req, NOW), Err(ShortenError::InvalidClickLimit));
    req.expires_at = Some(NOW - 1);
    assert_eq!(check_request(&req, NOW), Err(ShortenError::InvalidExpiry));
    req.original_url = "nope".to_string();
    assert_eq!(check_request(&req, NOW), Err(ShortenError::InvalidUrl));
}
