//! The second phase of a sign-in: checking what the provider sent back.
use vstd::prelude::*;

use crate::codec::{
    decode_form, duplicate_field_error, encode_form, form_decoded, form_encoded,
    last_path_segment, missing_field_error, pairs_view, post_request, request_body_text, request_header, request_method, request_uri,
    url_last_segment,
};
use crate::error::AuthError;
use crate::protocol::{
    FIELD_ASSOC_HANDLE, FIELD_NS, FIELD_OP_ENDPOINT, FIELD_RESPONSE_NONCE, FIELD_RETURN_TO,
    FIELD_SIGNED, field_key, field_key_str, field_optional, lemma_field_keys_distinct, FIELD_CLAIMED_ID,
    FIELD_IDENTITY, FIELD_INVALIDATE_HANDLE, FIELD_MODE, FORM_CONTENT_TYPE, KEY_MODE,
    MODE_CHECK_AUTHENTICATION, RESPONSE_FIELDS, STEAM_URL,
};
use crate::text::{confirms, parse_u64, reply_confirms, same_text, u64_of};

verus! {

/// The characters of an optional text.
pub open spec fn opt_view(o: Option<String>) -> Option<Seq<char>> {
    match o {
        Some(s) => Some(s@),
        None => None,
    }
}

/// How many of the fields `ps` are named `k`.
pub open spec fn key_count(ps: Seq<(Seq<char>, Seq<char>)>, k: Seq<char>) -> nat
    decreases ps.len(),
{
    if ps.len() == 0 {
        0
    } else {
        key_count(ps.drop_last(), k) + if ps.last().0 == k {
            1nat
        } else {
            0nat
        }
    }
}

/// The value of the last of the fields `ps` named `k`, if any is.
pub open spec fn key_value(ps: Seq<(Seq<char>, Seq<char>)>, k: Seq<char>) -> Option<Seq<char>>
    decreases ps.len(),
{
    if ps.len() == 0 {
        None
    } else if ps.last().0 == k {
        Some(ps.last().1)
    } else {
        key_value(ps.drop_last(), k)
    }
}

/// Whether the fields `ps` make an authentication response: no response field is
/// given twice and each required one is given. Other names are ignored.
pub open spec fn fields_ok(ps: Seq<(Seq<char>, Seq<char>)>) -> bool {
    forall|i: int|
        0 <= i < RESPONSE_FIELDS ==> key_count(ps, #[trigger] field_key(i)) <= 1 && (
        !field_optional(i) ==> key_count(ps, field_key(i)) == 1)
}

/// The response fields, by position, that the fields `ps` give.
pub open spec fn fields_of(ps: Seq<(Seq<char>, Seq<char>)>) -> Seq<Option<Seq<char>>> {
    Seq::new(RESPONSE_FIELDS as nat, |i: int| key_value(ps, field_key(i)))
}

/// Whether `f` is a full set of response fields: one entry for each, and a value
/// for each required one.
pub open spec fn fields_complete(f: Seq<Option<Seq<char>>>) -> bool {
    f.len() == RESPONSE_FIELDS && forall|i: int|
        0 <= i < RESPONSE_FIELDS && !field_optional(i) ==> (#[trigger] f[i]) is Some
}

/// The response fields that the callback query `query` carries, if it decodes to
/// an authentication response.
pub open spec fn callback_fields(query: Seq<char>) -> Option<Seq<Option<Seq<char>>>> {
    match form_decoded(query) {
        Some(ps) => if fields_ok(ps) {
            Some(fields_of(ps))
        } else {
            None
        },
        None => None,
    }
}

/// The first `n` response fields of `f` that have a value, by name, in order.
pub open spec fn fields_pairs(f: Seq<Option<Seq<char>>>, n: int) -> Seq<(Seq<char>, Seq<char>)>
    decreases n,
{
    if n <= 0 {
        seq![]
    } else {
        let rest = fields_pairs(f, n - 1);
        match f[n - 1] {
            Some(v) => rest.push((field_key(n - 1), v)),
            None => rest,
        }
    }
}

/// The fields, by name and in order, that encode the response fields `f`; an
/// absent optional field is left out.
pub open spec fn response_pairs(f: Seq<Option<Seq<char>>>) -> Seq<(Seq<char>, Seq<char>)> {
    fields_pairs(f, RESPONSE_FIELDS as int)
}

/// The fields sent back to the provider to have it confirm its assertion: those
/// of the callback, with the mode set to "check_authentication".
pub open spec fn check_pairs(f: Seq<Option<Seq<char>>>) -> Seq<(Seq<char>, Seq<char>)> {
    response_pairs(f.update(FIELD_MODE as int, Some(MODE_CHECK_AUTHENTICATION@)))
}

/// The Steam ID that a claimed identity names: the last segment of its URL path,
/// read as an unsigned 64-bit decimal numeral.
pub open spec fn steam_id_of(claimed_id: Seq<char>) -> Option<u64> {
    match url_last_segment(claimed_id) {
        Some(segment) => u64_of(segment),
        None => None,
    }
}

/// The Steam ID that the response fields `f` claim.
pub open spec fn candidate_id(f: Seq<Option<Seq<char>>>) -> Option<u64> {
    steam_id_of(f[FIELD_CLAIMED_ID as int]->Some_0)
}

/// Counting and looking up over one more field of `ps`.
proof fn lemma_take_step(ps: Seq<(Seq<char>, Seq<char>)>, j: int)
    requires
        0 <= j < ps.len(),
    ensures
        forall|k: Seq<char>|
            #[trigger] key_count(ps.take(j + 1), k) == key_count(ps.take(j), k) + if ps[j].0 == k {
                1nat
            } else {
                0nat
            },
        forall|k: Seq<char>|
            #[trigger] key_value(ps.take(j + 1), k) == if ps[j].0 == k {
                Some(ps[j].1)
            } else {
                key_value(ps.take(j), k)
            },
{
    assert(ps.take(j + 1).drop_last() =~= ps.take(j));
}

/// A prefix of `ps` names `k` no more often than `ps` does.
proof fn lemma_count_prefix(ps: Seq<(Seq<char>, Seq<char>)>, j: int, k: Seq<char>)
    requires
        0 <= j <= ps.len(),
    ensures
        key_count(ps.take(j), k) <= key_count(ps, k),
    decreases ps.len(),
{
    if j == ps.len() {
        assert(ps.take(j) =~= ps);
    } else {
        lemma_count_prefix(ps.drop_last(), j, k);
        assert(ps.drop_last().take(j) =~= ps.take(j));
    }
}

/// How often, and with what value, the first `n` fields of `f` are named.
proof fn lemma_fields_pairs(f: Seq<Option<Seq<char>>>, n: int)
    requires
        0 <= n <= RESPONSE_FIELDS,
        f.len() == RESPONSE_FIELDS,
    ensures
        forall|i: int|
            0 <= i < RESPONSE_FIELDS ==> key_count(fields_pairs(f, n), #[trigger] field_key(i)) == (
            if i < n && f[i] is Some {
                1nat
            } else {
                0nat
            }) && key_value(fields_pairs(f, n), field_key(i)) == (if i < n {
                f[i]
            } else {
                None
            }),
    decreases n,
{
    lemma_field_keys_distinct();
    if n > 0 {
        lemma_fields_pairs(f, n - 1);
        let rest = fields_pairs(f, n - 1);
        match f[n - 1] {
            Some(v) => {
                assert(rest.push((field_key(n - 1), v)).drop_last() =~= rest);
            },
            None => {},
        }
    }
}

/// Encoding a full set of response fields as a list of named fields, and reading
/// that list back, gives the same response fields.
pub proof fn lemma_fields_round_trip(f: Seq<Option<Seq<char>>>)
    requires
        fields_complete(f),
    ensures
        fields_ok(response_pairs(f)),
        fields_of(response_pairs(f)) == f,
{
    lemma_fields_pairs(f, RESPONSE_FIELDS as int);
    assert(fields_of(response_pairs(f)) =~= f);
}

/// The request sent back to the provider names the mode exactly once, as
/// "check_authentication", whatever mode the callback carried.
pub proof fn lemma_check_mode(f: Seq<Option<Seq<char>>>, inbound_mode: Seq<char>)
    requires
        fields_complete(f),
    ensures
        key_count(check_pairs(f), KEY_MODE@) == 1,
        key_value(check_pairs(f), KEY_MODE@) == Some(MODE_CHECK_AUTHENTICATION@),
        check_pairs(f.update(FIELD_MODE as int, Some(inbound_mode))) == check_pairs(f),
{
    let g = f.update(FIELD_MODE as int, Some(MODE_CHECK_AUTHENTICATION@));
    lemma_fields_pairs(g, RESPONSE_FIELDS as int);
    assert(field_key(FIELD_MODE as int) == KEY_MODE@);
    assert(f.update(FIELD_MODE as int, Some(inbound_mode)).update(
        FIELD_MODE as int,
        Some(MODE_CHECK_AUTHENTICATION@),
    ) =~= g);
}

/// The fields of the data that the provider sends to the callback.
#[derive(Clone, Debug)]
pub struct SteamAuthResponse {
    pub ns: String,
    pub mode: String,
    pub op_endpoint: String,
    pub claimed_id: String,
    pub identity: Option<String>,
    pub return_to: String,
    pub response_nonce: String,
    pub invalidate_handle: Option<String>,
    pub assoc_handle: String,
    pub signed: String,
    pub sig: String,
}

impl View for SteamAuthResponse {
    type V = Seq<Option<Seq<char>>>;

    /// The fields, by position: the order in which they are encoded.
    open spec fn view(&self) -> Seq<Option<Seq<char>>> {
        seq![
            Some(self.ns@),
            Some(self.mode@),
            Some(self.op_endpoint@),
            Some(self.claimed_id@),
            opt_view(self.identity),
            Some(self.return_to@),
            Some(self.response_nonce@),
            opt_view(self.invalidate_handle),
            Some(self.assoc_handle@),
            Some(self.signed@),
            Some(self.sig@),
        ]
    }
}

/// Removes and returns the last entry of a non-empty list.
fn take_last(slots: &mut Vec<Option<String>>) -> (r: Option<String>)
    requires
        old(slots)@.len() > 0,
    ensures
        r == old(slots)@.last(),
        final(slots)@ == old(slots)@.drop_last(),
{
    match slots.pop() {
        Some(slot) => slot,
        None => None,
    }
}

/// The position of the response field named `key`, if one is.
fn field_index(key: &str) -> (r: Option<usize>)
    ensures
        r matches Some(i) ==> i < RESPONSE_FIELDS && key@ == field_key(i as int),
        r is None ==> forall|i: int| 0 <= i < RESPONSE_FIELDS ==> key@ != #[trigger] field_key(i),
{
    let mut i: usize = 0;
    while i < RESPONSE_FIELDS
        invariant
            i <= RESPONSE_FIELDS,
            forall|m: int| 0 <= m < i ==> key@ != #[trigger] field_key(m),
        decreases RESPONSE_FIELDS - i,
    {
        if same_text(key, field_key_str(i)) {
            return Some(i);
        }
        i += 1;
    }
    None
}

impl SteamAuthResponse {
    /// The field at position `i`.
    fn field(&self, i: usize) -> (r: Option<&String>)
        requires
            i < RESPONSE_FIELDS,
        ensures
            r matches Some(s) ==> self@[i as int] == Some(s@),
            r is None ==> self@[i as int] is None,
    {
        if i == FIELD_NS {
            Some(&self.ns)
        } else if i == FIELD_MODE {
            Some(&self.mode)
        } else if i == FIELD_OP_ENDPOINT {
            Some(&self.op_endpoint)
        } else if i == FIELD_CLAIMED_ID {
            Some(&self.claimed_id)
        } else if i == FIELD_IDENTITY {
            self.identity.as_ref()
        } else if i == FIELD_RETURN_TO {
            Some(&self.return_to)
        } else if i == FIELD_RESPONSE_NONCE {
            Some(&self.response_nonce)
        } else if i == FIELD_INVALIDATE_HANDLE {
            self.invalidate_handle.as_ref()
        } else if i == FIELD_ASSOC_HANDLE {
            Some(&self.assoc_handle)
        } else if i == FIELD_SIGNED {
            Some(&self.signed)
        } else {
            Some(&self.sig)
        }
    }

    /// The fields by name, in order, leaving out absent optional ones.
    pub fn to_pairs(&self) -> (r: Vec<(String, String)>)
        ensures
            pairs_view(r@) == response_pairs(self@),
    {
        let mut pairs: Vec<(String, String)> = Vec::new();
        let mut i: usize = 0;
        while i < RESPONSE_FIELDS
            invariant
                i <= RESPONSE_FIELDS,
                pairs_view(pairs@) == fields_pairs(self@, i as int),
            decreases RESPONSE_FIELDS - i,
        {
            match self.field(i) {
                Some(value) => {
                    let ghost before = pairs@;
                    pairs.push((field_key_str(i).to_owned(), value.clone()));
                    assert(pairs_view(pairs@) =~= pairs_view(before).push(
                        (field_key(i as int), value@),
                    ));
                },
                None => {},
            }
            i += 1;
        }
        pairs
    }

    /// Reads an authentication response from a list of named fields. Fails where
    /// a response field is given twice or a required one is missing; fields of
    /// other names are ignored.
    pub fn from_pairs(pairs: &Vec<(String, String)>) -> (r: Result<
        SteamAuthResponse,
        serde_urlencoded::de::Error,
    >)
        ensures
            r is Ok <==> fields_ok(pairs_view(pairs@)),
            r matches Ok(x) ==> x@ == fields_of(pairs_view(pairs@)),
    {
        let ghost ps = pairs_view(pairs@);
        let mut slots: Vec<Option<String>> = Vec::new();
        let mut i: usize = 0;
        while i < RESPONSE_FIELDS
            invariant
                i <= RESPONSE_FIELDS,
                slots@.len() == i,
                forall|m: int| 0 <= m < i ==> slots@[m] is None,
            decreases RESPONSE_FIELDS - i,
        {
            slots.push(None);
            i += 1;
        }
        proof {
            lemma_field_keys_distinct();
            assert(ps.take(0) =~= seq![]);
        }
        let mut j: usize = 0;
        while j < pairs.len()
            invariant
                ps == pairs_view(pairs@),
                j <= pairs@.len(),
                slots@.len() == RESPONSE_FIELDS,
                forall|m: int|
                    0 <= m < RESPONSE_FIELDS ==> key_count(ps.take(j as int), #[trigger] field_key(m))
                        <= 1 && (key_count(ps.take(j as int), field_key(m)) == 0 <==> slots@[m] is None)
                        && opt_view(slots@[m]) == key_value(ps.take(j as int), field_key(m)),
                forall|a: int, b: int|
                    0 <= a < RESPONSE_FIELDS && 0 <= b < RESPONSE_FIELDS && a != b ==> #[trigger] field_key(a)
                        != #[trigger] field_key(b),
            decreases pairs@.len() - j,
        {
            proof {
                lemma_take_step(ps, j as int);
            }
            let key = pairs[j].0.as_str();
            let value = &pairs[j].1;
            assert(ps[j as int] == (key@, value@));
            match field_index(key) {
                Some(m) => {
                    if slots[m].is_some() {
                        proof {
                            lemma_count_prefix(ps, j + 1, field_key(m as int));
                        }
                        return Err(duplicate_field_error(field_key_str(m)));
                    }
                    slots.set(m, Some(value.clone()));
                },
                None => {},
            }
            j += 1;
        }
        assert(ps.take(j as int) =~= ps);
        let mut m: usize = 0;
        while m < RESPONSE_FIELDS
            invariant
                ps == pairs_view(pairs@),
                ps.take(pairs@.len() as int) == ps,
                m <= RESPONSE_FIELDS,
                slots@.len() == RESPONSE_FIELDS,
                forall|n: int|
                    0 <= n < RESPONSE_FIELDS ==> key_count(ps, #[trigger] field_key(n)) <= 1 && (
                    key_count(ps, field_key(n)) == 0 <==> slots@[n] is None) && opt_view(slots@[n])
                        == key_value(ps, field_key(n)),
                forall|n: int| 0 <= n < m && !field_optional(n) ==> (#[trigger] slots@[n]) is Some,
            decreases RESPONSE_FIELDS - m,
        {
            if m != FIELD_IDENTITY && m != FIELD_INVALIDATE_HANDLE && slots[m].is_none() {
                assert(key_count(ps, field_key(m as int)) == 0);
                return Err(missing_field_error(field_key_str(m)));
            }
            m += 1;
        }
        let ghost full = slots@;
        let sig = take_last(&mut slots).unwrap();
        let signed = take_last(&mut slots).unwrap();
        let assoc_handle = take_last(&mut slots).unwrap();
        let invalidate_handle = take_last(&mut slots);
        let response_nonce = take_last(&mut slots).unwrap();
        let return_to = take_last(&mut slots).unwrap();
        let identity = take_last(&mut slots);
        let claimed_id = take_last(&mut slots).unwrap();
        let op_endpoint = take_last(&mut slots).unwrap();
        let mode = take_last(&mut slots).unwrap();
        let ns = take_last(&mut slots).unwrap();
        let response = SteamAuthResponse {
            ns,
            mode,
            op_endpoint,
            claimed_id,
            identity,
            return_to,
            response_nonce,
            invalidate_handle,
            assoc_handle,
            signed,
            sig,
        };
        assert(response@ =~= fields_of(ps));
        Ok(response)
    }
}

impl SteamAuthResponse {
    /// Reads the data that the provider sends to the callback from its query
    /// string.
    pub fn from_querystring(query: &str) -> (r: Result<SteamAuthResponse, AuthError>)
        ensures
            r is Ok <==> callback_fields(query@) is Some,
            r matches Ok(x) ==> callback_fields(query@) == Some(x@),
            r is Err ==> r matches Err(AuthError::Deserialize(_)),
    {
        let pairs = match decode_form(query) {
            Ok(pairs) => pairs,
            Err(e) => {
                return Err(AuthError::Deserialize(e));
            },
        };
        match SteamAuthResponse::from_pairs(&pairs) {
            Ok(response) => Ok(response),
            Err(e) => Err(AuthError::Deserialize(e)),
        }
    }

    /// Form-encodes the fields, in order, leaving out absent optional ones.
    pub fn to_querystring(&self) -> (r: Result<String, AuthError>)
        ensures
            r is Ok,
            r matches Ok(t) ==> t@ == form_encoded(response_pairs(self@)),
            r matches Ok(t) ==> callback_fields(t@) == Some(self@),
    {
        proof {
            lemma_fields_round_trip(self@);
        }
        match encode_form(&self.to_pairs()) {
            Ok(text) => Ok(text),
            Err(e) => Err(AuthError::Serialize(e)),
        }
    }
}

/// The Steam ID that a claimed identity names: the last segment of its URL path,
/// read as an unsigned 64-bit decimal numeral.
pub fn steam_id(claimed_id: &str) -> (r: Option<u64>)
    ensures
        r == steam_id_of(claimed_id@),
{
    match last_path_segment(claimed_id) {
        Some(segment) => parse_u64(segment.as_str()),
        None => None,
    }
}

/// A Steam ID that the provider has asserted and not yet confirmed. It is used up
/// by `verify_response`, which confirms or rejects it.
#[derive(Debug)]
pub struct Verifier {
    claimed_id: u64,
}

impl View for Verifier {
    type V = u64;

    /// The candidate Steam ID.
    closed spec fn view(&self) -> u64 {
        self.claimed_id
    }
}

impl Verifier {
    /// The Steam ID awaiting confirmation.
    pub fn claimed_id(&self) -> (r: u64)
        ensures
            r == self@,
    {
        self.claimed_id
    }

    /// Reads the callback's query string and prepares the request that asks the
    /// provider to confirm its assertion: the callback's fields, form-encoded, with
    /// the mode set to "check_authentication". Returns that body with a verifier
    /// that holds the Steam ID the assertion claims.
    pub fn verification_form(query: &str) -> (r: Result<(String, Verifier), AuthError>)
        ensures
            callback_fields(query@) is None ==> r matches Err(AuthError::Deserialize(_)),
            callback_fields(query@) matches Some(f) ==> match candidate_id(f) {
                None => r matches Err(AuthError::ParseSteamId),
                Some(id) => r matches Ok((b, v)) && b@ == form_encoded(check_pairs(f)) && v@ == id
                    && callback_fields(b@) == Some(
                    f.update(FIELD_MODE as int, Some(MODE_CHECK_AUTHENTICATION@)),
                ),
            },
    {
        let mut form = match SteamAuthResponse::from_querystring(query) {
            Ok(form) => form,
            Err(e) => {
                return Err(e);
            },
        };
        let ghost f = form@;
        form.mode = MODE_CHECK_AUTHENTICATION.to_owned();
        assert(form@ =~= f.update(FIELD_MODE as int, Some(MODE_CHECK_AUTHENTICATION@)));
        let claimed_id = match steam_id(form.claimed_id.as_str()) {
            Some(id) => id,
            None => {
                return Err(AuthError::ParseSteamId);
            },
        };
        match form.to_querystring() {
            Ok(body) => Ok((body, Verifier { claimed_id })),
            Err(e) => Err(e),
        }
    }

    /// Reads the callback's query string and builds the request that asks the
    /// provider to confirm its assertion: a POST of the form that
    /// `verification_form` gives to the login endpoint, as
    /// `application/x-www-form-urlencoded`. Returns it with a verifier that holds
    /// the Steam ID the assertion claims.
    pub fn from_querystring(query: &str) -> (r: Result<(http::Request<Vec<u8>>, Verifier), AuthError>)
        ensures
            callback_fields(query@) is None ==> r matches Err(AuthError::Deserialize(_)),
            callback_fields(query@) matches Some(f) ==> match candidate_id(f) {
                None => r matches Err(AuthError::ParseSteamId),
                Some(id) => r matches Ok((q, v)) && v@ == id && request_method(q) == seq![
                    'P',
                    'O',
                    'S',
                    'T',
                ] && request_uri(q) == STEAM_URL@ && request_header(q, "Content-Type"@) == Some(
                    FORM_CONTENT_TYPE@,
                ) && request_body_text(q) == form_encoded(check_pairs(f)),
            },
            r matches Ok((_, v)) ==> (callback_fields(query@) matches Some(f) && candidate_id(f)
                == Some(v@)),
    {
        let (body, verifier) = match Verifier::verification_form(query) {
            Ok(prepared) => prepared,
            Err(e) => {
                return Err(e);
            },
        };
        proof {
            reveal_strlit("Content-Type");
            reveal_strlit("application/x-www-form-urlencoded");
        }
        match post_request(STEAM_URL, "Content-Type", FORM_CONTENT_TYPE, body.as_str()) {
            Ok(request) => Ok((request, verifier)),
            Err(e) => Err(AuthError::BuildHttpStruct(e)),
        }
    }

    /// Reads the provider's reply to the confirmation request: `\n`-separated
    /// `key:value` lines, each split at its first `:`. Gives the Steam ID if a line
    /// has the key `is_valid` and the value `true`, and fails otherwise. The
    /// verifier is used up either way.
    pub fn verify_response(self, response_body: &str) -> (r: Result<u64, AuthError>)
        ensures
            confirms(response_body@) ==> (r matches Ok(id) && id == self@),
            !confirms(response_body@) ==> r matches Err(AuthError::AuthenticationFailed),
    {
        if reply_confirms(response_body) {
            Ok(self.claimed_id)
        } else {
            Err(AuthError::AuthenticationFailed)
        }
    }
}

} // verus!
