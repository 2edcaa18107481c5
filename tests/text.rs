use steam_auth::{parse_u64, reply_confirms, same_text};

#[test]
fn parses_decimal_numerals() {
    assert_eq!(parse_u64("0"), Some(0));
    assert_eq!(parse_u64("76561197960435530"), Some(76561197960435530));
    assert_eq!(parse_u64("+12"), Some(12));
    assert_eq!(parse_u64("007"), Some(7));
    assert_eq!(parse_u64("18446744073709551615"), Some(u64::MAX));
}

#[test]
fn rejects_what_is_no_unsigned_numeral() {
    assert_eq!(parse_u64(""), None);
    assert_eq!(parse_u64("+"), None);
    assert_eq!(parse_u64("-1"), None);
    assert_eq!(parse_u64("12a"), None);
    assert_eq!(parse_u64(" 1"), None);
    assert_eq!(parse_u64("++1"), None);
    assert_eq!(parse_u64("18446744073709551616"), None);
    assert_eq!(parse_u64("99999999999999999999"), None);
}

#[test]
fn agrees_with_std_parsing() {
    for s in ["", "+", "0", "+0", "-0", "1x", "٣", "12345678901234567890", "18446744073709551615"] {
        assert_eq!(parse_u64(s), s.parse::<u64>().ok(), "{:?}", s);
    }
}

#[test]
fn compares_texts() {
    assert!(same_text("openid.ns", "openid.ns"));
    assert!(same_text("", ""));
    assert!(!same_text("openid.ns", "openid.n"));
    assert!(!same_text("openid.ns", "openid.nS"));
    assert!(same_text("é", "é"));
}

#[test]
fn reply_lines_are_independent_of_order() {
    assert!(reply_confirms("a:b\nis_valid:true"));
    assert!(reply_confirms("is_valid:true\na:b"));
    assert!(reply_confirms("is_valid:true"));
    assert!(!reply_confirms("a:b\nis_valid:false"));
    assert!(!reply_confirms("is_valid:true:"));
}

#[test]
fn reply_lines_in_any_order_with_blank_lines() {
    let lines = ["ns:http://specs.openid.net/auth/2.0", "is_valid:true", "mode:id_res"];
    let orders = [[0, 1, 2], [0, 2, 1], [1, 0, 2], [1, 2, 0], [2, 0, 1], [2, 1, 0]];
    for order in orders {
        let body = order.iter().map(|&i| lines[i]).collect::<Vec<_>>().join("\n\n");
        assert!(reply_confirms(&body), "{:?}", body);
        let denied = body.replace("is_valid:true", "is_valid:false");
        assert!(!reply_confirms(&denied), "{:?}", denied);
    }
}
