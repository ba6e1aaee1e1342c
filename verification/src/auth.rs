//! Request signing for Kite Connect API.
//!
//! Once authentication is complete, every request is signed with an
//! `Authorization` header whose value is the `token` scheme followed by a
//! space and the `api_key:access_token` combination. The value is computed
//! here; attaching it to a concrete header map is left to the transport
//! layer.

use vstd::prelude::*;

verus! {

/// The value of the `Authorization` header for the given API key and access
/// token: `token api_key:access_token`, exactly.
pub open spec fn spec_auth_header_value(api_key: Seq<char>, access_token: Seq<char>) -> Seq<char> {
    "token "@ + api_key + ":"@ + access_token
}

/// Renders the `Authorization` header value that signs a request with the
/// given API key and access token.
pub fn auth_header_value(api_key: &str, access_token: &str) -> (v: String)
    ensures
        v@ == spec_auth_header_value(api_key@, access_token@),
{
    let mut v = String::from_str("token ");
    v.append(api_key);
    v.append(":");
    v.append(access_token);
    assert(v@ =~= spec_auth_header_value(api_key@, access_token@));
    v
}

} // verus!
