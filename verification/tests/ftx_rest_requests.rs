use redwood::ftx::FtxApiDetails;
use redwood::ftx_rest::{is_header_value, FtxApiResponse, FtxRestConnector, RequestError};

fn pairs(v: &[(&str, &str)]) -> Vec<(String, String)> {
    v.iter().map(|(k, val)| (k.to_string(), val.to_string())).collect()
}

fn connector_with_secret(secret: &str) -> FtxRestConnector {
    FtxRestConnector::new(Some(FtxApiDetails::from_values("key-1", secret, "algo_trading")))
}

#[test]
fn orders_url_carries_market_query() {
    let c = FtxRestConnector::new(None);
    let params = pairs(&[("market", "BTC-PERP")]);
    let url = c.build_api_url("/orders", Some(&params)).unwrap();
    assert_eq!(url.href, "https://ftx.com/api/orders?market=BTC-PERP");
    assert_eq!(url.path, "/api/orders");
    assert_eq!(url.query, Some("market=BTC-PERP".to_string()));
    assert_eq!(c.get_full_path(&url), "/api/orders?market=BTC-PERP");
}

#[test]
fn markets_url_has_no_query() {
    let c = FtxRestConnector::new(None);
    let url = c.build_api_url("/markets", None).unwrap();
    assert_eq!(url.href, "https://ftx.com/api/markets");
    assert_eq!(url.path, "/api/markets");
    assert_eq!(url.query, None);
    assert_eq!(c.get_full_path(&url), "/api/markets");
}

#[test]
fn query_parameters_are_form_encoded() {
    let c = FtxRestConnector::new(None);
    let params = pairs(&[("market", "BTC/USD"), ("note", "a b&c")]);
    let url = c.build_api_url("/orders", Some(&params)).unwrap();
    assert_eq!(url.query, Some("market=BTC%2FUSD&note=a+b%26c".to_string()));
    assert_eq!(c.get_full_path(&url), "/api/orders?market=BTC%2FUSD&note=a+b%26c");
}

#[test]
fn empty_parameter_list_leaves_an_empty_query() {
    let c = FtxRestConnector::new(None);
    let params: Vec<(String, String)> = Vec::new();
    let url = c.build_api_url("/orders", Some(&params)).unwrap();
    assert_eq!(url.query, Some(String::new()));
    assert_eq!(c.get_full_path(&url), "/api/orders?");
}

#[test]
fn request_error_is_comparable() {
    assert_eq!(RequestError::InvalidUrl, RequestError::InvalidUrl);
}

#[test]
fn no_credentials_no_headers() {
    let c = FtxRestConnector::new(None);
    assert!(c.auth_header("GET", "/api/markets", 1234).is_empty());
}

#[test]
fn signed_headers_in_order() {
    let c = connector_with_secret("secret");
    let h = c.auth_header("GET", "/api/orders?market=BTC-PERP", 1234);
    let expected = vec![
        ("FTX-SUBACCOUNT".to_string(), "algo_trading".to_string()),
        ("FTX-KEY".to_string(), "key-1".to_string()),
        (
            "FTX-SIGN".to_string(),
            "4a5914cd41797b5d45966191d484469dfe4e47c09f633a496c30602909d56869".to_string(),
        ),
        ("FTX-TS".to_string(), "1234".to_string()),
    ];
    assert_eq!(h, expected);
}

#[test]
fn signature_keys_with_utf8_of_secret() {
    let c = connector_with_secret("sécret");
    let h = c.auth_header("GET", "/api/markets", 1_700_000_000_000);
    assert_eq!(h[2].1, "f54551f7ad316fdbaf5ea5193362d0507715ce5324a1e32f167633e61c5abecf");
    assert_eq!(h[3].1, "1700000000000");
}

#[test]
fn signature_depends_on_method_path_and_time() {
    let c = connector_with_secret("secret");
    let base = c.auth_header("GET", "/api/markets", 1000);
    assert_ne!(base[2].1, c.auth_header("POST", "/api/markets", 1000)[2].1);
    assert_ne!(base[2].1, c.auth_header("GET", "/api/orders", 1000)[2].1);
    assert_ne!(base[2].1, c.auth_header("GET", "/api/markets", 1001)[2].1);
    assert_eq!(base, c.auth_header("GET", "/api/markets", 1000));
}

#[test]
fn signature_is_lowercase_hex_of_32_bytes() {
    let c = connector_with_secret("another secret");
    let h = c.auth_header("DELETE", "/api/orders/42", 0);
    assert_eq!(h[2].1.len(), 64);
    assert!(h[2].1.chars().all(|ch| ch.is_ascii_digit() || ('a'..='f').contains(&ch)));
    assert_eq!(h[3].1, "0");
}

#[test]
fn reply_result_and_error() {
    let ok: FtxApiResponse<i32> = FtxApiResponse::Result { success: true, result: 7 };
    assert_eq!(ok.into_result(), Ok(7));
    let err: FtxApiResponse<&str> = FtxApiResponse::Error { success: false, error: "Not logged in" };
    assert_eq!(err.into_result(), Err("Not logged in"));
}

#[test]
fn prepared_get_signs_the_full_path_of_its_url() {
    let c = connector_with_secret("secret");
    let params = pairs(&[("market", "BTC-PERP")]);
    let req = c.prepare_get("/orders", Some(&params), 1234).unwrap();
    assert_eq!(req.url.href, "https://ftx.com/api/orders?market=BTC-PERP");
    assert_eq!(req.headers, c.auth_header("GET", "/api/orders?market=BTC-PERP", 1234));
    assert_eq!(req.headers[2].1, "4a5914cd41797b5d45966191d484469dfe4e47c09f633a496c30602909d56869");
}

#[test]
fn prepared_get_without_credentials_has_no_headers() {
    let c = FtxRestConnector::new(None);
    let req = c.prepare_get("/markets", None, 99).unwrap();
    assert_eq!(req.url.path, "/api/markets");
    assert!(req.headers.is_empty());
}

#[test]
fn header_values_refuse_control_bytes() {
    assert!(is_header_value("algo_trading"));
    assert!(is_header_value("tab\tis fine"));
    assert!(is_header_value("sécret"));
    assert!(is_header_value(""));
    assert!(!is_header_value("line\nbreak"));
    assert!(!is_header_value("del\u{7f}"));
    assert!(!is_header_value("\u{0}"));
}

#[test]
fn credentials_fit_headers() {
    assert!(FtxRestConnector::new(None).credentials_fit());
    assert!(connector_with_secret("secret\nmay hold anything").credentials_fit());
    let bad_key = FtxRestConnector::new(Some(FtxApiDetails::from_values("k\r", "s", "sub")));
    assert!(!bad_key.credentials_fit());
    let bad_sub = FtxRestConnector::new(Some(FtxApiDetails::from_values("k", "s", "sub\u{1}")));
    assert!(!bad_sub.credentials_fit());
}
