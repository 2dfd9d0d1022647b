use presign_proxy::Credential;
use presign_proxy::sign;

fn test_credential(token: Option<String>) -> Credential {
    Credential {
        access_key: String::from("AKIDEXAMPLE"),
        secret_key: String::from("example-secret-key"),
        session_token: token,
        expiry: None,
    }
}

fn static_part(url: &str) -> &str {
    url.split('?').next().unwrap()
}

#[test]
fn signed_url_is_absolute_and_names_the_object() {
    let c = test_credential(None);
    let url = sign("my-bucket", "us-east-1", "photos/cat.png", &c, 86400);
    assert!(url.starts_with("https://"));
    assert!(url.contains("us-east-1"));
    assert!(url.contains("my-bucket"));
    assert!(url.contains("/my-bucket/photos/cat.png"));
    assert!(url.contains("X-Amz-Expires=86400"));
    assert!(url.contains("X-Amz-Algorithm=AWS4-HMAC-SHA256"));
}

#[test]
fn expiry_parameter_is_exactly_the_requested_seconds() {
    let c = test_credential(None);
    let url = sign("my-bucket", "eu-west-1", "a.txt", &c, 3600);
    assert!(url.contains("X-Amz-Expires=3600&"));
    assert!(!url.contains("X-Amz-Expires=86400"));
}

#[test]
fn signing_twice_keeps_time_independent_components_identical() {
    let c = test_credential(None);
    let u1 = sign("my-bucket", "us-west-2", "some/key.bin", &c, 86400);
    let u2 = sign("my-bucket", "us-west-2", "some/key.bin", &c, 86400);
    // scheme, host, bucket, key and algorithm agree; only the
    // time-dependent query parameters may differ between the two calls
    assert_eq!(static_part(&u1), static_part(&u2));
    assert!(u1.contains("X-Amz-Algorithm=AWS4-HMAC-SHA256"));
    assert!(u2.contains("X-Amz-Algorithm=AWS4-HMAC-SHA256"));
}

#[test]
fn session_token_is_carried_into_the_url() {
    let c = test_credential(Some(String::from("example-session-token")));
    let url = sign("my-bucket", "us-east-1", "k", &c, 86400);
    assert!(url.contains("X-Amz-Security-Token="));
}

#[test]
fn china_regions_sign_under_their_own_domain() {
    let c = test_credential(None);
    let url = sign("my-bucket", "cn-north-1", "k", &c, 86400);
    assert!(url.starts_with("https://s3.cn-north-1.amazonaws.com.cn/my-bucket/k?"));
}

#[test]
fn unsafe_key_characters_are_percent_encoded() {
    let c = test_credential(None);
    let url = sign("my-bucket", "us-east-1", "a b", &c, 86400);
    assert!(url.contains("/my-bucket/a%20b?"));
}
