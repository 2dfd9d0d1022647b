use presign_proxy::Config;
use presign_proxy::Credential;
use presign_proxy::respond;

fn test_config() -> Config {
    Config::new(
        8080,
        String::from("localhost"),
        String::from("us-east-1"),
        String::from("my-bucket"),
    )
}

fn test_credential() -> Credential {
    Credential {
        access_key: String::from("AKIDEXAMPLE"),
        secret_key: String::from("example-secret-key"),
        session_token: None,
        expiry: None,
    }
}

#[test]
fn scenario_get_photos_cat_png_redirects_to_signed_url() {
    let config = test_config();
    let cred = test_credential();
    let plan = respond(&config, Ok(&cred), "/photos/cat.png");
    assert_eq!(plan.status, 302);
    assert_eq!(plan.body, "");
    let location = plan.location.expect("success carries a Location header");
    assert!(!location.is_empty());
    assert!(location.starts_with("https://"));
    assert!(location.contains("my-bucket"));
    assert!(location.contains("us-east-1"));
    assert!(location.contains("photos/cat.png"));
    assert!(location.contains("X-Amz-Expires=86400"));
}

#[test]
fn credential_failure_yields_500_with_the_underlying_error() {
    let config = test_config();
    let plan = respond(&config, Err(String::from("simulated source outage")), "/photos/cat.png");
    assert_eq!(plan.status, 500);
    assert!(plan.location.is_none());
    assert!(plan.body.contains("simulated source outage"));
}

#[test]
fn serving_continues_normally_after_a_failure() {
    let config = test_config();
    let failed = respond(&config, Err(String::from("boom")), "/a");
    assert_eq!(failed.status, 500);
    let cred = test_credential();
    let ok = respond(&config, Ok(&cred), "/a");
    assert_eq!(ok.status, 302);
    assert!(ok.location.is_some());
}

#[test]
fn the_only_outcomes_are_302_and_500() {
    let config = test_config();
    let cred = test_credential();
    let success = respond(&config, Ok(&cred), "/missing/object");
    // existence is never checked: an unknown key still yields a redirect
    assert_eq!(success.status, 302);
    let failure = respond(&config, Err(String::from("no credentials")), "/missing/object");
    assert_eq!(failure.status, 500);
}
