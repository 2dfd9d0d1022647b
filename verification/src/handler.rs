//! Per-request orchestration: from the derived object key and the
//! credential manager's verdict to the terminal response.

use vstd::prelude::*;
use crate::config::Config;
use crate::credential::Credential;
use crate::object_key::object_key_of_path;
use crate::object_key::spec_object_key;
use crate::response::ResponsePlan;
use crate::response::auth_error_body;
use crate::response::auth_error_response;
use crate::response::redirect_response;
use crate::sign::presigned_url_shape;
use crate::sign::sign;

verus! {

/// How long a signed URL stays valid, counted from the moment of signing:
/// twenty-four hours, in whole seconds.
pub const SIGNED_URL_TTL_SECONDS: u64 = 24 * 60 * 60;

/// Handles one request once the credential manager has spoken. On a
/// credential, the response is the terminal success: `302`, `Location`
/// holding a URL signed for the key derived from the path, an empty body.
/// On a credential-source failure, the terminal failure: `500` with the
/// diagnostic body. There are no other outcomes.
pub fn respond(config: &Config, creds: Result<&Credential, String>, path: &str) -> (p:
    ResponsePlan)
    requires
        config.wf(),
        path@.len() > 0,
        path@[0] == '/',
    ensures
        match creds {
            Ok(_) => {
                &&& p.status == 302
                &&& p.location.is_some()
                &&& presigned_url_shape(
                    p.location.unwrap()@,
                    config.region@,
                    config.bucket@,
                    spec_object_key(path@),
                    SIGNED_URL_TTL_SECONDS,
                )
                &&& p.body@.len() == 0
            },
            Err(e) => {
                &&& p.status == 500
                &&& p.location.is_none()
                &&& p.body@ == auth_error_body(e@)
            },
        },
{
    match creds {
        Ok(c) => {
            let key = object_key_of_path(path);
            let url = sign(
                config.bucket.as_str(),
                config.region.as_str(),
                key.as_str(),
                c,
                SIGNED_URL_TTL_SECONDS,
            );
            redirect_response(url)
        },
        Err(e) => auth_error_response(e.as_str()),
    }
}

} // verus!
