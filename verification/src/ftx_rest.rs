//! The FTX REST connector: request URLs, the path that is signed, the
//! authentication headers, and the reading of the exchange's reply.

use vstd::prelude::*;
use vstd::utf8::encode_utf8;
use crate::ftx::{opt_details, FtxApiDetails};
use crate::signing::{hmac_sha256, hmac_sha256_tag};
use crate::text::{pairs_are, pairs_text, decimal, decimal_round_trip, decimal_text, decimal_value, hex_encode, lower_hex, lower_hex_length};
use crate::weburl::{parsed_url, parsed_url_with_params, url_parse, url_parse_with_params, ApiUrl};

verus! {

/// The base of every FTX REST URL.
pub const FTX_REST_ENDPOINT: &'static str = "https://ftx.com/api";

/// The reply of the FTX REST API: a result, or an error.
pub enum FtxApiResponse<V> {
    Result { success: bool, result: V },
    Error { success: bool, error: V },
}

impl<V> FtxApiResponse<V> {
    /// The result of a successful reply, or the error of a failed one.
    pub fn into_result(self) -> (r: Result<V, V>)
        ensures
            match self {
                FtxApiResponse::Result { result, .. } => r == Ok::<V, V>(result),
                FtxApiResponse::Error { error, .. } => r == Err::<V, V>(error),
            },
    {
        match self {
            FtxApiResponse::Result { success: _, result } => Ok(result),
            FtxApiResponse::Error { success: _, error } => Err(error),
        }
    }
}

/// Why a request could not be built.
#[derive(Debug, Clone, Copy, PartialEq, Eq, Structural)]
pub enum RequestError {
    /// The endpoint followed by the API path is no absolute URL.
    InvalidUrl,
}

/// The view of an optional list of query parameters.
pub open spec fn opt_pairs(p: Option<&Vec<(String, String)>>) -> Option<Seq<(Seq<char>, Seq<char>)>> {
    match p {
        Some(v) => Some(pairs_text(v@)),
        None => None,
    }
}

/// The URL of a request: the endpoint followed by the API path, parsed, with
/// the query parameters appended where there are any.
pub open spec fn spec_api_url(
    api_path: Seq<char>,
    params: Option<Seq<(Seq<char>, Seq<char>)>>,
) -> Option<(Seq<char>, Seq<char>, Option<Seq<char>>)> {
    match params {
        Some(p) => parsed_url_with_params(FTX_REST_ENDPOINT@ + api_path, p),
        None => parsed_url(FTX_REST_ENDPOINT@ + api_path),
    }
}

/// The path and query of a URL as they are signed: `path?query`, or the path
/// alone where there is no query.
pub open spec fn spec_full_path(path: Seq<char>, query: Option<Seq<char>>) -> Seq<char> {
    match query {
        Some(q) => path + "?"@ + q,
        None => path,
    }
}

/// The text that a request's signature covers: the timestamp in
/// milliseconds, in decimal, then the method, then the full path.
pub open spec fn signature_payload(now_in_millis: nat, method: Seq<char>, full_path: Seq<char>) -> Seq<char> {
    decimal(now_in_millis) + method + full_path
}

/// The signature of a request: the lowercase hex of the HMAC-SHA256, keyed
/// with the UTF-8 of the API secret, of the UTF-8 of the payload.
pub open spec fn request_signature(secret: Seq<char>, now_in_millis: nat, method: Seq<char>, full_path: Seq<char>) -> Seq<char> {
    lower_hex(hmac_sha256(encode_utf8(secret), encode_utf8(signature_payload(now_in_millis, method, full_path))))
}

/// The authentication headers of a request, in order: none without
/// credentials; with them the subaccount, the key, the signature and the
/// timestamp.
pub open spec fn spec_auth_headers(
    api_details: Option<(Seq<char>, Seq<char>, Seq<char>)>,
    method: Seq<char>,
    full_path: Seq<char>,
    now_in_millis: nat,
) -> Seq<(Seq<char>, Seq<char>)> {
    match api_details {
        None => Seq::empty(),
        Some((key, secret, subaccount)) => seq![
            ("FTX-SUBACCOUNT"@, subaccount),
            ("FTX-KEY"@, key),
            ("FTX-SIGN"@, request_signature(secret, now_in_millis, method, full_path)),
            ("FTX-TS"@, decimal(now_in_millis)),
        ],
    }
}

/// Whether a byte may stand in an HTTP header value: a tab, or any byte from
/// the space on other than DEL.
pub open spec fn header_byte(b: u8) -> bool {
    (b >= 32 && b != 127) || b == 9
}

/// Whether bytes may form an HTTP header value.
pub open spec fn header_value_bytes(bytes: Seq<u8>) -> bool {
    forall|i: int| 0 <= i < bytes.len() ==> header_byte(#[trigger] bytes[i])
}

/// Whether the key and subaccount of the credentials, if any, may be sent as
/// HTTP header values (in UTF-8).
pub open spec fn credentials_fit_headers(api_details: Option<(Seq<char>, Seq<char>, Seq<char>)>) -> bool {
    match api_details {
        Some((key, _, subaccount)) => header_value_bytes(encode_utf8(key)) && header_value_bytes(encode_utf8(subaccount)),
        None => true,
    }
}

/// Whether the UTF-8 of `text` may form an HTTP header value.
pub fn is_header_value(text: &str) -> (r: bool)
    ensures
        r == header_value_bytes(encode_utf8(text@)),
{
    let bytes = text.as_bytes();
    let n = bytes.len();
    for i in 0..n
        invariant
            n == bytes@.len(),
            bytes@ == encode_utf8(text@),
            forall|j: int| 0 <= j < i ==> header_byte(#[trigger] bytes@[j]),
    {
        let b = bytes[i];
        if !((b >= 32 && b != 127) || b == 9) {
            assert(!header_byte(bytes@[i as int]));
            return false;
        }
    }
    true
}

/// The view of an optional parsed URL.
pub open spec fn opt_url(u: Result<ApiUrl, RequestError>) -> Option<(Seq<char>, Seq<char>, Option<Seq<char>>)> {
    match u {
        Ok(u) => Some(u@),
        Err(_) => None,
    }
}

/// A GET request ready to send: its URL and its authentication headers.
pub struct SignedRequest {
    pub url: ApiUrl,
    pub headers: Vec<(String, String)>,
}

/// Builds and signs requests to the FTX REST API, with the credentials of
/// one account if it has any.
pub struct FtxRestConnector {
    pub api_details: Option<FtxApiDetails>,
}

impl FtxRestConnector {
    /// A connector that signs with `api_details`, if given.
    pub fn new(api_details: Option<FtxApiDetails>) -> (c: Self)
        ensures
            c.api_details == api_details,
    {
        FtxRestConnector { api_details }
    }

    /// Whether the key and subaccount, if any, may be sent as HTTP header
    /// values: see `credentials_fit_headers`.
    pub fn credentials_fit(&self) -> (r: bool)
        ensures
            r == credentials_fit_headers(opt_details(self.api_details)),
    {
        match &self.api_details {
            Some(d) => is_header_value(d.api_key()) && is_header_value(d.api_subaccount()),
            None => true,
        }
    }

    /// The URL of a request to `api_path` with `query_params`: see
    /// `spec_api_url`. An input that is no absolute URL is refused.
    pub fn build_api_url(&self, api_path: &str, query_params: Option<&Vec<(String, String)>>) -> (u: Result<ApiUrl, RequestError>)
        ensures
            opt_url(u) == spec_api_url(api_path@, opt_pairs(query_params)),
    {
        let mut input = String::from_str(FTX_REST_ENDPOINT);
        input.append(api_path);
        let parsed = match query_params {
            Some(qps) => url_parse_with_params(input.as_str(), qps),
            None => url_parse(input.as_str()),
        };
        match parsed {
            Ok(url) => Ok(url),
            Err(_) => Err(RequestError::InvalidUrl),
        }
    }

    /// The path and query of `api_url` as they are signed: see
    /// `spec_full_path`.
    pub fn get_full_path(&self, api_url: &ApiUrl) -> (p: String)
        ensures
            p@ == spec_full_path(api_url.path@, api_url@.2),
            api_url.query matches Some(q) ==> p@ == api_url.path@ + "?"@ + q@,
            api_url.query is None ==> p@ == api_url.path@,
    {
        match &api_url.query {
            Some(qps_str) => {
                let mut p = api_url.path.clone();
                p.append("?");
                p.append(qps_str.as_str());
                p
            },
            None => api_url.path.clone(),
        }
    }

    /// The authentication headers, as name/value pairs in order, of a request
    /// with method `req_method` to `full_req_path` made at `now_in_millis`
    /// milliseconds since the Unix epoch: see `spec_auth_headers`.
    /// The key and subaccount must fit in header values.
    pub fn auth_header(&self, req_method: &str, full_req_path: &str, now_in_millis: u128) -> (headers: Vec<(String, String)>)
        requires
            credentials_fit_headers(opt_details(self.api_details)),
        ensures
            pairs_are(headers@, spec_auth_headers(opt_details(self.api_details), req_method@, full_req_path@, now_in_millis as nat)),
            self.api_details is Some ==> headers@[2].1@.len() == 64,
            self.api_details is Some ==> decimal_value(headers@[3].1@) == now_in_millis,
    {
        let mut headers: Vec<(String, String)> = Vec::new();
        match &self.api_details {
            Some(api_details) => {
                let mut payload = decimal_text(now_in_millis);
                payload.append(req_method);
                payload.append(full_req_path);
                let tag = hmac_sha256_tag(api_details.api_secret().as_bytes(), payload.as_str().as_bytes());
                let signature = hex_encode(tag.as_slice());
                proof {
                    lower_hex_length(tag@);
                    decimal_round_trip(now_in_millis as nat);
                }
                headers.push((String::from_str("FTX-SUBACCOUNT"), String::from_str(api_details.api_subaccount())));
                headers.push((String::from_str("FTX-KEY"), String::from_str(api_details.api_key())));
                headers.push((String::from_str("FTX-SIGN"), signature));
                headers.push((String::from_str("FTX-TS"), decimal_text(now_in_millis)));
            },
            None => {},
        }
        headers
    }

    /// The GET request to `api_path` with `query_params`, signed at
    /// `now_in_millis`: the URL of `build_api_url`, and the headers of
    /// `auth_header` for method `GET` and the full path of that very URL.
    /// An input that is no absolute URL is refused. The key and subaccount
    /// must fit in header values.
    pub fn prepare_get(&self, api_path: &str, query_params: Option<&Vec<(String, String)>>, now_in_millis: u128) -> (r: Result<SignedRequest, RequestError>)
        requires
            credentials_fit_headers(opt_details(self.api_details)),
        ensures
            r is Ok <==> spec_api_url(api_path@, opt_pairs(query_params)) is Some,
            r matches Ok(req) ==> {
                &&& Some(req.url@) == spec_api_url(api_path@, opt_pairs(query_params))
                &&& pairs_are(req.headers@, spec_auth_headers(
                    opt_details(self.api_details),
                    "GET"@,
                    spec_full_path(req.url.path@, req.url@.2),
                    now_in_millis as nat,
                ))
            },
    {
        match self.build_api_url(api_path, query_params) {
            Ok(url) => {
                let full_path = self.get_full_path(&url);
                let headers = self.auth_header("GET", full_path.as_str(), now_in_millis);
                Ok(SignedRequest { url, headers })
            },
            Err(e) => Err(e),
        }
    }
}

/// The exchange can check a signed request from what it receives: the
/// signature header is the lowercase hex of the HMAC-SHA256, under the
/// account's secret, of the timestamp header followed by the method and the
/// full path, and the timestamp header reads back as the time of signing.
pub proof fn signature_checkable_from_headers(
    api_details: (Seq<char>, Seq<char>, Seq<char>),
    method: Seq<char>,
    full_path: Seq<char>,
    now_in_millis: nat,
)
    ensures
        ({
            let h = spec_auth_headers(Some(api_details), method, full_path, now_in_millis);
            &&& h.len() == 4
            &&& h[0] == ("FTX-SUBACCOUNT"@, api_details.2)
            &&& h[1] == ("FTX-KEY"@, api_details.0)
            &&& h[2].0 == "FTX-SIGN"@
            &&& h[3].0 == "FTX-TS"@
            &&& h[2].1 == lower_hex(hmac_sha256(encode_utf8(api_details.1), encode_utf8(h[3].1 + method + full_path)))
            &&& decimal_value(h[3].1) == now_in_millis
        }),
{
    decimal_round_trip(now_in_millis);
}

/// The signed path of a URL is its path, followed, where it has a query, by
/// `?` and the whole query.
pub proof fn full_path_keeps_the_query(path: Seq<char>, query: Seq<char>)
    ensures
        spec_full_path(path, Some(query)) == path + "?"@ + query,
        spec_full_path(path, None) == path,
        spec_full_path(path, Some(query)).len() == path.len() + 1 + query.len(),
        spec_full_path(path, Some(query)).subrange(path.len() + 1 as int, path.len() + 1 + query.len() as int) == query,
{
    reveal_strlit("?");
    let full = path + "?"@ + query;
    assert(full.subrange(path.len() + 1 as int, path.len() + 1 + query.len() as int) =~= query);
}

/// A request URL is the FTX endpoint `https://ftx.com/api` followed by the API
/// path, parsed with every given query parameter, in the order given, or
/// parsed alone where no parameters are given.
pub proof fn api_url_takes_every_parameter(api_path: Seq<char>, params: Seq<(Seq<char>, Seq<char>)>)
    ensures
        spec_api_url(api_path, Some(params)) == parsed_url_with_params("https://ftx.com/api"@ + api_path, params),
        spec_api_url(api_path, None) == parsed_url("https://ftx.com/api"@ + api_path),
{
}

/// The URL that `build_api_url` gives for parameters is the parse of the
/// endpoint and path with exactly those parameters.
pub proof fn built_url_uses_all_parameters(
    api_path: Seq<char>,
    params: Seq<(Seq<char>, Seq<char>)>,
    u: Result<ApiUrl, RequestError>,
)
    requires
        opt_url(u) == spec_api_url(api_path, Some(params)),
    ensures
        u matches Ok(url) ==> parsed_url_with_params("https://ftx.com/api"@ + api_path, params) == Some(url@),
        u is Err ==> parsed_url_with_params("https://ftx.com/api"@ + api_path, params) is None,
{
}

} // verus!
