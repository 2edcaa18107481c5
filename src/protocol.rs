//! The fixed vocabulary of the OpenID 2.0 exchange with Steam: field names and
//! the values that this relying party always sends.
use vstd::prelude::*;

verus! {

/// The provider's login endpoint: requests to start a sign-in and to check an
/// assertion both go here.
pub const STEAM_URL: &'static str = "https://steamcommunity.com/openid/login";

/// The OpenID 2.0 protocol namespace.
pub const OPENID_NS: &'static str = "http://specs.openid.net/auth/2.0";

/// Asks the provider to let the user pick the identity to sign in with.
pub const IDENTIFIER_SELECT: &'static str = "http://specs.openid.net/auth/2.0/identifier_select";

/// The mode of a sign-in request.
pub const MODE_CHECKID_SETUP: &'static str = "checkid_setup";

/// The mode of a request that asks the provider to confirm its own assertion.
pub const MODE_CHECK_AUTHENTICATION: &'static str = "check_authentication";

/// The content type of a form-encoded request body.
pub const FORM_CONTENT_TYPE: &'static str = "application/x-www-form-urlencoded";

/// The names of the fields of sign-in requests and authentication responses.
pub const KEY_NS: &'static str = "openid.ns";

pub const KEY_MODE: &'static str = "openid.mode";

pub const KEY_OP_ENDPOINT: &'static str = "openid.op_endpoint";

pub const KEY_CLAIMED_ID: &'static str = "openid.claimed_id";

pub const KEY_IDENTITY: &'static str = "openid.identity";

pub const KEY_RETURN_TO: &'static str = "openid.return_to";

pub const KEY_RESPONSE_NONCE: &'static str = "openid.response_nonce";

pub const KEY_INVALIDATE_HANDLE: &'static str = "openid.invalidate_handle";

pub const KEY_ASSOC_HANDLE: &'static str = "openid.assoc_handle";

pub const KEY_SIGNED: &'static str = "openid.signed";

pub const KEY_SIG: &'static str = "openid.sig";

pub const KEY_REALM: &'static str = "openid.realm";

/// How many fields an authentication response has.
pub const RESPONSE_FIELDS: usize = 11;

/// Positions of the response fields, in the order in which they are encoded.
pub const FIELD_NS: usize = 0;

pub const FIELD_MODE: usize = 1;

pub const FIELD_OP_ENDPOINT: usize = 2;

pub const FIELD_CLAIMED_ID: usize = 3;

pub const FIELD_IDENTITY: usize = 4;

pub const FIELD_RETURN_TO: usize = 5;

pub const FIELD_RESPONSE_NONCE: usize = 6;

pub const FIELD_INVALIDATE_HANDLE: usize = 7;

pub const FIELD_ASSOC_HANDLE: usize = 8;

pub const FIELD_SIGNED: usize = 9;

pub const FIELD_SIG: usize = 10;

/// The name of response field `i`.
pub open spec fn field_key(i: int) -> Seq<char> {
    if i == FIELD_NS {
        KEY_NS@
    } else if i == FIELD_MODE {
        KEY_MODE@
    } else if i == FIELD_OP_ENDPOINT {
        KEY_OP_ENDPOINT@
    } else if i == FIELD_CLAIMED_ID {
        KEY_CLAIMED_ID@
    } else if i == FIELD_IDENTITY {
        KEY_IDENTITY@
    } else if i == FIELD_RETURN_TO {
        KEY_RETURN_TO@
    } else if i == FIELD_RESPONSE_NONCE {
        KEY_RESPONSE_NONCE@
    } else if i == FIELD_INVALIDATE_HANDLE {
        KEY_INVALIDATE_HANDLE@
    } else if i == FIELD_ASSOC_HANDLE {
        KEY_ASSOC_HANDLE@
    } else if i == FIELD_SIGNED {
        KEY_SIGNED@
    } else {
        KEY_SIG@
    }
}

/// Whether response field `i` may be absent.
pub open spec fn field_optional(i: int) -> bool {
    i == FIELD_IDENTITY || i == FIELD_INVALIDATE_HANDLE
}

/// No two response fields share a name.
pub proof fn lemma_field_keys_distinct()
    ensures
        forall|i: int, j: int|
            0 <= i < RESPONSE_FIELDS && 0 <= j < RESPONSE_FIELDS && i != j ==> #[trigger] field_key(i)
                != #[trigger] field_key(j),
{
    reveal_strlit("openid.ns");
    reveal_strlit("openid.mode");
    reveal_strlit("openid.op_endpoint");
    reveal_strlit("openid.claimed_id");
    reveal_strlit("openid.identity");
    reveal_strlit("openid.return_to");
    reveal_strlit("openid.response_nonce");
    reveal_strlit("openid.invalidate_handle");
    reveal_strlit("openid.assoc_handle");
    reveal_strlit("openid.signed");
    reveal_strlit("openid.sig");
    assert(KEY_NS@.len() == 9);
    assert(KEY_MODE@.len() == 11);
    assert(KEY_OP_ENDPOINT@.len() == 18);
    assert(KEY_CLAIMED_ID@.len() == 17);
    assert(KEY_IDENTITY@.len() == 15);
    assert(KEY_RETURN_TO@.len() == 16);
    assert(KEY_RESPONSE_NONCE@.len() == 21);
    assert(KEY_INVALIDATE_HANDLE@.len() == 24);
    assert(KEY_ASSOC_HANDLE@.len() == 19);
    assert(KEY_SIGNED@.len() == 13);
    assert(KEY_SIG@.len() == 10);
}

/// The name of response field `i`.
pub fn field_key_str(i: usize) -> (r: &'static str)
    requires
        i < RESPONSE_FIELDS,
    ensures
        r@ == field_key(i as int),
{
    if i == FIELD_NS {
        KEY_NS
    } else if i == FIELD_MODE {
        KEY_MODE
    } else if i == FIELD_OP_ENDPOINT {
        KEY_OP_ENDPOINT
    } else if i == FIELD_CLAIMED_ID {
        KEY_CLAIMED_ID
    } else if i == FIELD_IDENTITY {
        KEY_IDENTITY
    } else if i == FIELD_RETURN_TO {
        KEY_RETURN_TO
    } else if i == FIELD_RESPONSE_NONCE {
        KEY_RESPONSE_NONCE
    } else if i == FIELD_INVALIDATE_HANDLE {
        KEY_INVALIDATE_HANDLE
    } else if i == FIELD_ASSOC_HANDLE {
        KEY_ASSOC_HANDLE
    } else if i == FIELD_SIGNED {
        KEY_SIGNED
    } else {
        KEY_SIG
    }
}

} // verus!
