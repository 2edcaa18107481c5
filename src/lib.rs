//! Sign-in through Steam's OpenID 2.0 endpoint, for the relying party.
//!
//! `Redirector` builds the URL that starts the sign-in; `Verifier` checks what the
//! provider sends back to the callback and yields the user's 64-bit Steam ID.
mod codec;
mod error;
mod protocol;
mod redirector;
mod text;
mod verification;

pub use codec::{
    form_decoded, form_encoded, form_text, header_name_ok, header_ok, header_value_ok,
    is_form_char, is_token_char, joined_url, pairs_view, printable_ascii, request_body_text,
    request_builds, request_header, request_method, request_uri, response_header,
    response_status, uri_ok, url_last_segment, url_with_query,
};
pub use error::AuthError;
pub use protocol::STEAM_URL;
pub use redirector::{request_pairs, Redirector, SteamAuthRequest};
pub use text::{
    confirms, join_lines, lemma_confirms_lines, lemma_confirms_order, lemma_confirms_split,
    parse_u64, reply_confirms, same_text, u64_of, valid_line,
};
pub use verification::{
    callback_fields, candidate_id, check_pairs, fields_complete, fields_of, fields_ok, key_count,
    key_value, lemma_check_mode, lemma_fields_round_trip, opt_view, response_pairs, steam_id,
    steam_id_of, SteamAuthResponse, Verifier,
};
