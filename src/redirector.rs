//! The first phase of a sign-in: the URL to which a user is sent.
use vstd::prelude::*;

use crate::codec::{
    encode_form, form_decoded, form_encoded, found_response, join_url, joined_url, pairs_view,
    printable_ascii, response_header, response_status, set_url_query,
};
use crate::error::AuthError;
use crate::protocol::{
    IDENTIFIER_SELECT, KEY_CLAIMED_ID, KEY_IDENTITY, KEY_MODE, KEY_NS, KEY_REALM, KEY_RETURN_TO,
    MODE_CHECKID_SETUP, OPENID_NS, STEAM_URL,
};

verus! {

/// The fields of a sign-in request.
pub struct SteamAuthRequest {
    pub ns: String,
    pub identity: String,
    pub claimed_id: String,
    pub mode: String,
    pub return_to: String,
    pub realm: String,
}

impl View for SteamAuthRequest {
    type V = Seq<(Seq<char>, Seq<char>)>;

    /// The request's fields by name, in the order in which they are encoded.
    open spec fn view(&self) -> Seq<(Seq<char>, Seq<char>)> {
        seq![
            (KEY_NS@, self.ns@),
            (KEY_IDENTITY@, self.identity@),
            (KEY_CLAIMED_ID@, self.claimed_id@),
            (KEY_MODE@, self.mode@),
            (KEY_RETURN_TO@, self.return_to@),
            (KEY_REALM@, self.realm@),
        ]
    }
}

/// The sign-in request of a site whose base URL is `realm` and whose callback is
/// `return_to`: the protocol namespace, "identifier_select" as identity and
/// claimed identity, mode "checkid_setup", then the two URLs.
pub open spec fn request_pairs(realm: Seq<char>, return_to: Seq<char>) -> Seq<
    (Seq<char>, Seq<char>),
> {
    seq![
        (KEY_NS@, OPENID_NS@),
        (KEY_IDENTITY@, IDENTIFIER_SELECT@),
        (KEY_CLAIMED_ID@, IDENTIFIER_SELECT@),
        (KEY_MODE@, MODE_CHECKID_SETUP@),
        (KEY_RETURN_TO@, return_to),
        (KEY_REALM@, realm),
    ]
}

impl SteamAuthRequest {
    /// The sign-in request of the site at `site_url`, whose callback is at
    /// `return_to_joined`.
    pub fn new(site_url: &str, return_to_joined: &str) -> (r: Self)
        ensures
            r@ == request_pairs(site_url@, return_to_joined@),
    {
        SteamAuthRequest {
            ns: OPENID_NS.to_owned(),
            identity: IDENTIFIER_SELECT.to_owned(),
            claimed_id: IDENTIFIER_SELECT.to_owned(),
            mode: MODE_CHECKID_SETUP.to_owned(),
            return_to: return_to_joined.to_owned(),
            realm: site_url.to_owned(),
        }
    }

    /// The request's fields by name, in the order in which they are encoded.
    pub fn pairs(&self) -> (r: Vec<(String, String)>)
        ensures
            pairs_view(r@) == self@,
    {
        let mut v: Vec<(String, String)> = Vec::new();
        v.push((KEY_NS.to_owned(), self.ns.clone()));
        v.push((KEY_IDENTITY.to_owned(), self.identity.clone()));
        v.push((KEY_CLAIMED_ID.to_owned(), self.claimed_id.clone()));
        v.push((KEY_MODE.to_owned(), self.mode.clone()));
        v.push((KEY_RETURN_TO.to_owned(), self.return_to.clone()));
        v.push((KEY_REALM.to_owned(), self.realm.clone()));
        assert(pairs_view(v@) =~= self@);
        v
    }
}

/// Holds the URL to which users are sent to sign in.
#[derive(Debug)]
pub struct Redirector {
    url: String,
}

impl View for Redirector {
    type V = Seq<char>;

    /// The URL, serialised.
    closed spec fn view(&self) -> Seq<char> {
        self.url@
    }
}

impl Clone for Redirector {
    fn clone(&self) -> (r: Self)
        ensures
            r@ == self@,
    {
        proof {
            use_type_invariant(&*self);
        }
        Redirector { url: self.url.clone() }
    }
}

impl Redirector {
    /// The URL is percent-encoded ASCII, so it can stand in a header.
    #[verifier::type_invariant]
    closed spec fn printable(self) -> bool {
        printable_ascii(self.url@)
    }

    /// Builds the sign-in URL of the site at `site_url`, whose callback is at
    /// `return_url` (resolved against `site_url`): the provider's login endpoint,
    /// with the encoded sign-in request as its query.
    pub fn new(site_url: &str, return_url: &str) -> (r: Result<Redirector, AuthError>)
        ensures
            joined_url(site_url@, return_url@) is None ==> r matches Err(AuthError::BadUrl(_)),
            joined_url(site_url@, return_url@) matches Some(joined) ==> (r matches Ok(x) && x@
                == STEAM_URL@ + seq!['?'] + form_encoded(request_pairs(site_url@, joined))),
            joined_url(site_url@, return_url@) matches Some(joined) ==> form_decoded(
                form_encoded(request_pairs(site_url@, joined)),
            ) == Some(request_pairs(site_url@, joined)),
    {
        let joined = match join_url(site_url, return_url) {
            Ok(j) => j,
            Err(e) => {
                return Err(AuthError::BadUrl(e));
            },
        };
        let openid = SteamAuthRequest::new(site_url, joined.as_str());
        let query = match encode_form(&openid.pairs()) {
            Ok(q) => q,
            Err(e) => {
                return Err(AuthError::ParseQueryString(e));
            },
        };
        match set_url_query(STEAM_URL, query.as_str()) {
            Ok(url) => Ok(Redirector { url }),
            Err(e) => Err(AuthError::BadUrl(e)),
        }
    }

    /// A `302 Found` response that sends the user to the URL, in its `Location`
    /// header.
    pub fn create_response(&self) -> (r: Result<http::Response<()>, AuthError>)
        ensures
            r is Ok,
            r matches Ok(p) ==> response_status(p) == 302,
            r matches Ok(p) ==> response_header(p, "Location"@) == Some(self@),
    {
        proof {
            use_type_invariant(&*self);
            reveal_strlit("Location");
        }
        match found_response("Location", self.url.as_str()) {
            Ok(response) => Ok(response),
            Err(e) => Err(AuthError::BuildHttpStruct(e)),
        }
    }

    /// The URL to which users are sent to sign in.
    pub fn url(&self) -> (r: &str)
        ensures
            r@ == self@,
    {
        self.url.as_str()
    }
}

} // verus!
