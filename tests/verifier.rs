use steam_auth::{steam_id, AuthError, SteamAuthResponse, Verifier, STEAM_URL};

const CALLBACK: &str = "openid.ns=http%3A%2F%2Fspecs.openid.net%2Fauth%2F2.0&openid.mode=id_res&openid.op_endpoint=https%3A%2F%2Fsteamcommunity.com%2Fopenid%2Flogin&openid.claimed_id=https%3A%2F%2Fsteamcommunity.com%2Fopenid%2Fid%2F92345666790633291&openid.identity=https%3A%2F%2Fsteamcommunity.com%2Fopenid%2Fid%2F12333456789000000&openid.return_to=http%3A%2F%2Flocalhost%3A8080%2Fcallback&openid.response_nonce=2019-06-15T00%3A36%3A00Z7nVIS5lDAcZe%2FT0gT4%2BQNQyexyA%3D&openid.assoc_handle=1234567890&openid.signed=signed%2Cop_endpoint%2Cclaimed_id%2Cidentity%2Creturn_to%2Cresponse_nonce%2Cassoc_handle&openid.sig=BK0zC%2F%2FKzERs7N%2BNlDO0aL06%2BBA%3D";

fn callback_with(claimed_id: &str, mode: &str) -> String {
    let fields = vec![
        ("openid.ns", "http://specs.openid.net/auth/2.0"),
        ("openid.mode", mode),
        ("openid.op_endpoint", "https://steamcommunity.com/openid/login"),
        ("openid.claimed_id", claimed_id),
        ("openid.return_to", "http://localhost:8080/callback"),
        ("openid.response_nonce", "2019-06-15T00:36:00Z7nVIS5lDAcZe/T0gT4+QNQyexyA="),
        ("openid.assoc_handle", "1234567890"),
        ("openid.signed", "signed,op_endpoint,claimed_id,return_to"),
        ("openid.sig", "BK0zC//KzERs7N+NlDO0aL06+BA="),
    ];
    serde_urlencoded::to_string(&fields).unwrap()
}

fn sample_response() -> SteamAuthResponse {
    SteamAuthResponse {
        ns: "http://specs.openid.net/auth/2.0".to_string(),
        mode: "id_res".to_string(),
        op_endpoint: "https://steamcommunity.com/openid/login".to_string(),
        claimed_id: "https://steamcommunity.com/openid/id/76561197960435530".to_string(),
        identity: Some("https://steamcommunity.com/openid/id/76561197960435530".to_string()),
        return_to: "http://localhost:8080/callback?a=b&c=d".to_string(),
        response_nonce: "2019-06-15T00:36:00Z7nVIS5lDAcZe/T0gT4+QNQyexyA=".to_string(),
        invalidate_handle: None,
        assoc_handle: "1234567890".to_string(),
        signed: "signed,op_endpoint,claimed_id,identity,return_to".to_string(),
        sig: "BK0zC//KzERs7N+NlDO0aL06+BA= é&=%".to_string(),
    }
}

fn same_fields(a: &SteamAuthResponse, b: &SteamAuthResponse) -> bool {
    a.ns == b.ns
        && a.mode == b.mode
        && a.op_endpoint == b.op_endpoint
        && a.claimed_id == b.claimed_id
        && a.identity == b.identity
        && a.return_to == b.return_to
        && a.response_nonce == b.response_nonce
        && a.invalidate_handle == b.invalidate_handle
        && a.assoc_handle == b.assoc_handle
        && a.signed == b.signed
        && a.sig == b.sig
}

fn body_pairs(request: &http::Request<Vec<u8>>) -> Vec<(String, String)> {
    serde_urlencoded::from_bytes(request.body()).unwrap()
}

// Sends the confirmation request through `send` and reads the reply, as an
// HTTP client collaborator would.
fn verify_with<F: FnOnce(&http::Request<Vec<u8>>) -> String>(
    query: &str,
    send: F,
) -> Result<u64, AuthError> {
    let (request, verifier) = Verifier::from_querystring(query)?;
    let body = send(&request);
    verifier.verify_response(body.as_str())
}

#[test]
fn response_round_trips_through_a_query_string() {
    let response = sample_response();
    let query = response.to_querystring().unwrap();
    let back = SteamAuthResponse::from_querystring(&query).unwrap();
    assert!(same_fields(&response, &back));
}

#[test]
fn response_round_trip_keeps_optional_fields() {
    let mut response = sample_response();
    response.identity = None;
    response.invalidate_handle = Some("old handle".to_string());
    let query = response.to_querystring().unwrap();
    assert!(!query.contains("openid.identity"));
    let back = SteamAuthResponse::from_querystring(&query).unwrap();
    assert!(same_fields(&response, &back));
    assert_eq!(back.identity, None);
    assert_eq!(back.invalidate_handle, Some("old handle".to_string()));
}

#[test]
fn response_encodes_fields_in_order() {
    let response = sample_response();
    let names: Vec<String> = response.to_pairs().into_iter().map(|p| p.0).collect();
    assert_eq!(
        names,
        vec![
            "openid.ns",
            "openid.mode",
            "openid.op_endpoint",
            "openid.claimed_id",
            "openid.identity",
            "openid.return_to",
            "openid.response_nonce",
            "openid.assoc_handle",
            "openid.signed",
            "openid.sig"
        ]
    );
}

#[test]
fn response_reads_the_documented_callback() {
    let response = SteamAuthResponse::from_querystring(CALLBACK).unwrap();
    assert_eq!(response.mode, "id_res");
    assert_eq!(response.claimed_id, "https://steamcommunity.com/openid/id/92345666790633291");
    assert_eq!(
        response.identity,
        Some("https://steamcommunity.com/openid/id/12333456789000000".to_string())
    );
    assert_eq!(response.invalidate_handle, None);
    assert_eq!(response.sig, "BK0zC//KzERs7N+NlDO0aL06+BA=");
}

#[test]
fn response_ignores_unknown_fields() {
    let query = format!("{}&openid.extra=1&other=2", callback_with("https://x/id/5", "id_res"));
    let response = SteamAuthResponse::from_querystring(&query).unwrap();
    assert_eq!(response.claimed_id, "https://x/id/5");
}

#[test]
fn missing_field_is_a_deserialize_error() {
    let query = "openid.ns=a&openid.mode=b";
    assert!(matches!(
        SteamAuthResponse::from_querystring(query),
        Err(AuthError::Deserialize(_))
    ));
    assert!(matches!(Verifier::from_querystring(""), Err(AuthError::Deserialize(_))));
    assert!(matches!(Verifier::from_querystring(query), Err(AuthError::Deserialize(_))));
}

#[test]
fn duplicate_field_is_a_deserialize_error() {
    let query = format!("{}&openid.sig=again", callback_with("https://x/id/5", "id_res"));
    assert!(matches!(
        SteamAuthResponse::from_querystring(&query),
        Err(AuthError::Deserialize(_))
    ));
}

#[test]
fn claimed_id_yields_the_candidate_steam_id() {
    let query = callback_with("https://example.com/openid/id/76561197960435530", "id_res");
    let (_, verifier) = Verifier::from_querystring(&query).unwrap();
    assert_eq!(verifier.claimed_id(), 76561197960435530);
    let (_, verifier) = Verifier::from_querystring(CALLBACK).unwrap();
    assert_eq!(verifier.claimed_id(), 92345666790633291);
}

#[test]
fn non_numeric_claimed_id_is_rejected() {
    let query = callback_with("https://example.com/openid/id/abc", "id_res");
    assert!(matches!(Verifier::from_querystring(&query), Err(AuthError::ParseSteamId)));
    let query = callback_with("not a url", "id_res");
    assert!(matches!(Verifier::from_querystring(&query), Err(AuthError::ParseSteamId)));
    let query = callback_with("https://example.com/openid/id/", "id_res");
    assert!(matches!(Verifier::from_querystring(&query), Err(AuthError::ParseSteamId)));
    let query = callback_with("mailto:someone@example.com", "id_res");
    assert!(matches!(Verifier::from_querystring(&query), Err(AuthError::ParseSteamId)));
    let query = callback_with("https://example.com/id/18446744073709551616", "id_res");
    assert!(matches!(Verifier::from_querystring(&query), Err(AuthError::ParseSteamId)));
}

#[test]
fn steam_id_reads_the_last_path_segment() {
    assert_eq!(steam_id("https://example.com/openid/id/76561197960435530"), Some(76561197960435530));
    assert_eq!(steam_id("https://example.com/7?x=9"), Some(7));
    assert_eq!(steam_id("https://example.com/id/18446744073709551615"), Some(u64::MAX));
    assert_eq!(steam_id("https://example.com/id/abc"), None);
    assert_eq!(steam_id("76561197960435530"), None);
}

#[test]
fn verification_request_is_a_form_post_to_the_provider() {
    let (request, _) = Verifier::from_querystring(CALLBACK).unwrap();
    assert_eq!(request.method(), http::Method::POST);
    assert_eq!(request.uri().to_string(), STEAM_URL);
    assert_eq!(
        request.headers()["Content-Type"],
        "application/x-www-form-urlencoded"
    );
    let pairs = body_pairs(&request);
    assert_eq!(pairs.len(), 10);
    assert_eq!(pairs[3].1, "https://steamcommunity.com/openid/id/92345666790633291");
}

#[test]
fn verification_request_sets_check_authentication_mode() {
    for mode in ["id_res", "cancel", "check_authentication", ""] {
        let query = callback_with("https://example.com/id/42", mode);
        let (request, _) = Verifier::from_querystring(&query).unwrap();
        let modes: Vec<String> = body_pairs(&request)
            .into_iter()
            .filter(|p| p.0 == "openid.mode")
            .map(|p| p.1)
            .collect();
        assert_eq!(modes, vec!["check_authentication".to_string()]);
        let (body, verifier) = Verifier::verification_form(&query).unwrap();
        assert_eq!(body.into_bytes(), request.body().clone());
        assert_eq!(verifier.claimed_id(), 42);
    }
}

#[test]
fn reply_with_valid_line_first_confirms() {
    let (_, verifier) = Verifier::from_querystring(CALLBACK).unwrap();
    assert_eq!(verifier.verify_response("is_valid:true\nns:foo").unwrap(), 92345666790633291);
}

#[test]
fn reply_with_valid_line_later_confirms() {
    let (_, verifier) = Verifier::from_querystring(CALLBACK).unwrap();
    assert_eq!(verifier.verify_response("ns:foo\n\nis_valid:true\n\n").unwrap(), 92345666790633291);
}

#[test]
fn reply_with_colons_in_values_confirms() {
    let (_, verifier) = Verifier::from_querystring(CALLBACK).unwrap();
    assert_eq!(verifier.verify_response("is_valid:true\nextra:a:b:c").unwrap(), 92345666790633291);
}

#[test]
fn reply_that_denies_fails() {
    let (_, verifier) = Verifier::from_querystring(CALLBACK).unwrap();
    assert!(matches!(verifier.verify_response("is_valid:false"), Err(AuthError::AuthenticationFailed)));
}

#[test]
fn empty_reply_fails() {
    let (_, verifier) = Verifier::from_querystring(CALLBACK).unwrap();
    assert!(matches!(verifier.verify_response(""), Err(AuthError::AuthenticationFailed)));
}

#[test]
fn reply_without_is_valid_fails() {
    for body in [
        "ns:http://specs.openid.net/auth/2.0\nmode:id_res",
        "is_valid",
        "is_valid true",
        " is_valid:true",
        "is_valid:true ",
        "is_valid:trueish",
        "xis_valid:true",
        "is_valid:true\r\n",
        "is_valid::true",
    ] {
        let (_, verifier) = Verifier::from_querystring(CALLBACK).unwrap();
        assert!(
            matches!(verifier.verify_response(body), Err(AuthError::AuthenticationFailed)),
            "{:?}",
            body
        );
    }
}

#[test]
fn sign_in_confirmed_end_to_end() {
    let result = verify_with(CALLBACK, |_| "ns:http://specs.openid.net/auth/2.0\nis_valid:true\n".to_string());
    assert_eq!(result.unwrap(), 92345666790633291);
}

#[test]
fn sign_in_denied_end_to_end() {
    let result = verify_with(CALLBACK, |_| "is_valid:false\n".to_string());
    assert!(matches!(result, Err(AuthError::AuthenticationFailed)));
}
