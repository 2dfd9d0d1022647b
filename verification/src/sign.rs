//! Computing the presigned URL for one object read.
//!
//! The query-parameter presigning scheme itself (canonical request,
//! credential scope, HMAC signature) is a trusted external primitive; what
//! is stated and proved here is the shape of the URL it yields: scheme and
//! host determined by the region, the percent-encoded `/bucket/key` path,
//! and a query string that names the signing algorithm and carries the
//! requested expiry in seconds.

use vstd::prelude::*;
use vstd::utf8::encode_scalar;
use crate::credential::Credential;
use crate::text::dec_str;
use crate::text::has_substring;
use crate::text::starts_with;
use crate::text::lemma_concat_contains_middle;
use rusoto_core::Region;
use rusoto_core::credential::AwsCredentials;
use rusoto_s3::GetObjectRequest;
use rusoto_s3::util::PreSignedRequest;
use rusoto_s3::util::PreSignedRequestOption;
use std::str::FromStr;
use std::time::Duration;

verus! {

/// The canonical (lower-case, dashed) names of the storage regions the
/// signer recognizes; any other region identifier is rejected at startup,
/// before a request can reach the signer.
pub open spec fn is_known_region_name(r: Seq<char>) -> bool {
    ||| r == "ap-east-1"@
    ||| r == "ap-northeast-1"@
    ||| r == "ap-northeast-2"@
    ||| r == "ap-northeast-3"@
    ||| r == "ap-south-1"@
    ||| r == "ap-southeast-1"@
    ||| r == "ap-southeast-2"@
    ||| r == "ap-southeast-3"@
    ||| r == "ca-central-1"@
    ||| r == "eu-central-1"@
    ||| r == "eu-west-1"@
    ||| r == "eu-west-2"@
    ||| r == "eu-west-3"@
    ||| r == "eu-north-1"@
    ||| r == "eu-south-1"@
    ||| r == "me-south-1"@
    ||| r == "sa-east-1"@
    ||| r == "us-east-1"@
    ||| r == "us-east-2"@
    ||| r == "us-west-1"@
    ||| r == "us-west-2"@
    ||| r == "us-gov-east-1"@
    ||| r == "us-gov-west-1"@
    ||| r == "cn-north-1"@
    ||| r == "cn-northwest-1"@
    ||| r == "af-south-1"@
}

/// The bucket endpoint host for a region: the China partition lives under
/// its own top-level domain, every other known region under the usual one.
pub open spec fn s3_host(region: Seq<char>) -> Seq<char> {
    if region == "cn-north-1"@ || region == "cn-northwest-1"@ {
        "s3."@ + region + ".amazonaws.com.cn"@
    } else {
        "s3."@ + region + ".amazonaws.com"@
    }
}

/// The request path naming the object: `/bucket/key`.
pub open spec fn object_path(bucket: Seq<char>, key: Seq<char>) -> Seq<char> {
    seq!['/'] + bucket + seq!['/'] + key
}

/// A character the path encoding leaves untouched: the RFC 3986 unreserved
/// characters, plus the path separator.
pub open spec fn is_path_safe_char(c: char) -> bool {
    let v = c as u32;
    ||| (0x41 <= v && v <= 0x5a)
    ||| (0x61 <= v && v <= 0x7a)
    ||| (0x30 <= v && v <= 0x39)
    ||| v == 0x2d
    ||| v == 0x2e
    ||| v == 0x5f
    ||| v == 0x7e
    ||| v == 0x2f
}

/// The upper-case hexadecimal digit for a value below sixteen.
pub open spec fn hex_digit_char(v: u8) -> char
    recommends
        v < 16,
{
    if v == 0 {
        '0'
    } else if v == 1 {
        '1'
    } else if v == 2 {
        '2'
    } else if v == 3 {
        '3'
    } else if v == 4 {
        '4'
    } else if v == 5 {
        '5'
    } else if v == 6 {
        '6'
    } else if v == 7 {
        '7'
    } else if v == 8 {
        '8'
    } else if v == 9 {
        '9'
    } else if v == 10 {
        'A'
    } else if v == 11 {
        'B'
    } else if v == 12 {
        'C'
    } else if v == 13 {
        'D'
    } else if v == 14 {
        'E'
    } else {
        'F'
    }
}

/// The percent-escape of one byte, upper-case hex.
pub open spec fn pct_byte(b: u8) -> Seq<char> {
    seq!['%', hex_digit_char(b / 16), hex_digit_char(b % 16)]
}

/// The percent-escapes of a whole byte sequence.
pub open spec fn pct_bytes(bs: Seq<u8>) -> Seq<char>
    decreases bs.len(),
{
    if bs.len() == 0 {
        Seq::empty()
    } else {
        pct_byte(bs[0]) + pct_bytes(bs.drop_first())
    }
}

/// The path encoding of one character: kept as it is when safe, otherwise
/// every byte of its UTF-8 encoding percent-escaped.
pub open spec fn uri_encode_char(c: char) -> Seq<char> {
    if is_path_safe_char(c) {
        seq![c]
    } else {
        pct_bytes(encode_scalar(c as u32))
    }
}

/// The path encoding of a whole path, character by character.
pub open spec fn uri_encode_path(p: Seq<char>) -> Seq<char>
    decreases p.len(),
{
    if p.len() == 0 {
        Seq::empty()
    } else {
        uri_encode_char(p[0]) + uri_encode_path(p.drop_first())
    }
}

/// A path of safe characters is its own encoding.
pub proof fn lemma_uri_encode_safe_path_identity(p: Seq<char>)
    requires
        forall|i: int| 0 <= i < p.len() ==> is_path_safe_char(#[trigger] p[i]),
    ensures
        uri_encode_path(p) =~= p,
    decreases p.len(),
{
    if p.len() > 0 {
        lemma_uri_encode_safe_path_identity(p.drop_first());
    }
}

/// Everything in a signed URL that does not depend on the moment of
/// signing: scheme, host, encoded object path, and the query separator.
pub open spec fn spec_static_prefix(region: Seq<char>, bucket: Seq<char>, key: Seq<char>) -> Seq<
    char,
> {
    "https://"@ + s3_host(region) + uri_encode_path(object_path(bucket, key)) + "?"@
}

/// The expiry query parameter for a validity window of `secs` seconds.
pub open spec fn expires_param(secs: u64) -> Seq<char> {
    "X-Amz-Expires="@ + dec_str(secs as nat)
}

/// What is known of the query string of a signed URL: it opens with the
/// signing algorithm parameter and carries the expiry parameter, in
/// seconds, delimited on both sides.
pub open spec fn spec_query_ok(q: Seq<char>, expires_secs: u64) -> bool {
    &&& starts_with(q, "X-Amz-Algorithm=AWS4-HMAC-SHA256&"@)
    &&& has_substring(q, "&"@ + expires_param(expires_secs) + "&"@)
}

/// The shape of every URL the signer can return for the given inputs: the
/// static prefix determined by region, bucket and key, followed by some
/// query string that is well-formed for the requested expiry.
pub open spec fn presigned_url_shape(
    u: Seq<char>,
    region: Seq<char>,
    bucket: Seq<char>,
    key: Seq<char>,
    expires_secs: u64,
) -> bool {
    exists|q: Seq<char>|
        u == spec_static_prefix(region, bucket, key) + q && #[trigger] spec_query_ok(
            q,
            expires_secs,
        )
}

/// Relies on rusoto_s3's `PreSignedRequest::get_presigned_url` for
/// `GetObjectRequest` (the standard query-parameter presigning scheme),
/// with `Region::from_str` and `AwsCredentials::new` converting the
/// arguments. For a known region name the URL it builds is
/// `https://` + host + encoded path + `?` + query: the host comes from its
/// `build_hostname` for the `s3` service, the path is `/bucket/key` run
/// through its RFC 3986 path encoding (unreserved characters and `/` kept,
/// every other byte percent-escaped in upper-case hex), and the sorted
/// query opens with `X-Amz-Algorithm=AWS4-HMAC-SHA256` and carries
/// `X-Amz-Expires` equal to the requested seconds, followed by further
/// parameters.
#[verifier::external_body]
fn presign_get_object(
    bucket: &str,
    region_name: &str,
    key: &str,
    cred: &Credential,
    expires_secs: u64,
) -> (r: String)
    requires
        is_known_region_name(region_name@),
    ensures
        presigned_url_shape(r@, region_name@, bucket@, key@, expires_secs),
{
    let region = Region::from_str(region_name).unwrap();
    let creds = AwsCredentials::new(
        cred.access_key.as_str(),
        cred.secret_key.as_str(),
        cred.session_token.clone(),
        None,
    );
    let mut request = GetObjectRequest::default();
    request.bucket = bucket.to_string();
    request.key = key.to_string();
    let option = PreSignedRequestOption { expires_in: Duration::from_secs(expires_secs) };
    request.get_presigned_url(&region, &creds, &option)
}

/// Signs one object read: a pure computation over its inputs (plus the
/// moment of signing) yielding a URL that grants read access to exactly
/// `bucket`/`key` for `ttl_secs` seconds. Key normalization — stripping
/// the leading path separator — is the caller's responsibility.
pub fn sign(bucket: &str, region: &str, key: &str, credential: &Credential, ttl_secs: u64) -> (url:
    String)
    requires
        is_known_region_name(region@),
    ensures
        presigned_url_shape(url@, region@, bucket@, key@, ttl_secs),
{
    presign_get_object(bucket, region, key, credential, ttl_secs)
}

/// What every signed URL guarantees: it is non-empty, absolute under
/// `https`, names the region in its host, and carries an expiry parameter
/// equal to the requested validity window.
pub proof fn lemma_signed_url_properties(
    u: Seq<char>,
    region: Seq<char>,
    bucket: Seq<char>,
    key: Seq<char>,
    expires_secs: u64,
)
    requires
        presigned_url_shape(u, region, bucket, key, expires_secs),
    ensures
        u.len() > 0,
        starts_with(u, "https://"@),
        has_substring(u, region),
        has_substring(u, expires_param(expires_secs)),
{
    let q = choose|q: Seq<char>|
        u == spec_static_prefix(region, bucket, key) + q && #[trigger] spec_query_ok(
            q,
            expires_secs,
        );
    let host = s3_host(region);
    let enc = uri_encode_path(object_path(bucket, key));
    reveal_strlit("https://");
    assert(u.len() > 0);
    assert(u.subrange(0, 8) =~= "https://"@);
    // the host names the region
    let tail_of_host = if region == "cn-north-1"@ || region == "cn-northwest-1"@ {
        ".amazonaws.com.cn"@
    } else {
        ".amazonaws.com"@
    };
    assert(u =~= ("https://"@ + "s3."@) + region + (tail_of_host + enc + "?"@ + q));
    lemma_concat_contains_middle("https://"@ + "s3."@, region, tail_of_host + enc + "?"@ + q);
    // the query carries the expiry, delimited; drop the delimiters
    let expires = expires_param(expires_secs);
    let sub = "&"@ + expires + "&"@;
    let i = choose|i: int|
        0 <= i && i + sub.len() <= q.len() && #[trigger] q.subrange(i, i + sub.len() as int)
            == sub;
    reveal_strlit("&");
    let pre = spec_static_prefix(region, bucket, key);
    let j = pre.len() + i + 1;
    assert forall|k: int| 0 <= k < expires.len() implies u[j + k] == expires[k] by {
        assert(q.subrange(i, i + sub.len() as int)[k + 1] == sub[k + 1]);
        assert(sub[k + 1] == expires[k]);
        assert(u[j + k] == q[i + 1 + k]);
    }
    assert(u.subrange(j, j + expires.len() as int) =~= expires);
}

/// When bucket and key consist of characters the path encoding keeps —
/// as every real bucket name does — the signed URL names the object in
/// the clear: it contains `/bucket/key` verbatim.
pub proof fn lemma_signed_url_names_object(
    u: Seq<char>,
    region: Seq<char>,
    bucket: Seq<char>,
    key: Seq<char>,
    expires_secs: u64,
)
    requires
        presigned_url_shape(u, region, bucket, key, expires_secs),
        forall|i: int| 0 <= i < bucket.len() ==> is_path_safe_char(#[trigger] bucket[i]),
        forall|i: int| 0 <= i < key.len() ==> is_path_safe_char(#[trigger] key[i]),
    ensures
        has_substring(u, object_path(bucket, key)),
{
    let q = choose|q: Seq<char>|
        u == spec_static_prefix(region, bucket, key) + q && #[trigger] spec_query_ok(
            q,
            expires_secs,
        );
    let objpath = object_path(bucket, key);
    assert('/' as u32 == 0x2f);
    assert forall|i: int| 0 <= i < objpath.len() implies is_path_safe_char(
        #[trigger] objpath[i],
    ) by {
        if i == 0 {
            assert(objpath[i] == '/');
        } else if i <= bucket.len() {
            assert(objpath[i] == bucket[i - 1]);
        } else if i == bucket.len() + 1 {
            assert(objpath[i] == '/');
        } else {
            assert(objpath[i] == key[i - bucket.len() - 2]);
        }
    }
    lemma_uri_encode_safe_path_identity(objpath);
    assert(u =~= ("https://"@ + s3_host(region)) + objpath + ("?"@ + q));
    lemma_concat_contains_middle("https://"@ + s3_host(region), objpath, "?"@ + q);
}

/// Two URLs signed for the same bucket, region, key and validity window
/// agree on all their time-independent components: both extend the same
/// static prefix — scheme, host, encoded object path — and both name the
/// same signing algorithm; only their remaining query parameters (date,
/// credential scope, signature) may differ between the two instants of
/// signing.
pub proof fn lemma_signing_is_stable(
    u1: Seq<char>,
    u2: Seq<char>,
    region: Seq<char>,
    bucket: Seq<char>,
    key: Seq<char>,
    expires_secs: u64,
)
    requires
        presigned_url_shape(u1, region, bucket, key, expires_secs),
        presigned_url_shape(u2, region, bucket, key, expires_secs),
    ensures
        starts_with(u1, spec_static_prefix(region, bucket, key)),
        starts_with(u2, spec_static_prefix(region, bucket, key)),
        starts_with(
            u1,
            spec_static_prefix(region, bucket, key) + "X-Amz-Algorithm=AWS4-HMAC-SHA256&"@,
        ),
        starts_with(
            u2,
            spec_static_prefix(region, bucket, key) + "X-Amz-Algorithm=AWS4-HMAC-SHA256&"@,
        ),
{
    lemma_shape_starts_with_algorithm(u1, region, bucket, key, expires_secs);
    lemma_shape_starts_with_algorithm(u2, region, bucket, key, expires_secs);
}

proof fn lemma_shape_starts_with_algorithm(
    u: Seq<char>,
    region: Seq<char>,
    bucket: Seq<char>,
    key: Seq<char>,
    expires_secs: u64,
)
    requires
        presigned_url_shape(u, region, bucket, key, expires_secs),
    ensures
        starts_with(u, spec_static_prefix(region, bucket, key)),
        starts_with(
            u,
            spec_static_prefix(region, bucket, key) + "X-Amz-Algorithm=AWS4-HMAC-SHA256&"@,
        ),
{
    let q = choose|q: Seq<char>|
        u == spec_static_prefix(region, bucket, key) + q && #[trigger] spec_query_ok(
            q,
            expires_secs,
        );
    let pre = spec_static_prefix(region, bucket, key);
    let algo = "X-Amz-Algorithm=AWS4-HMAC-SHA256&"@;
    assert(u.subrange(0, pre.len() as int) =~= pre);
    assert(u.subrange(0, (pre + algo).len() as int) =~= pre + algo);
}

} // verus!
