//! Assembly of authenticated REST requests: the text that is signed, and the URL.
use vstd::prelude::*;

verus! {

/// The text that is signed: timestamp, method, path with query, and body, run together.
pub open spec fn sign_payload_of(
    timestamp: Seq<char>,
    method: Seq<char>,
    path_and_query: Seq<char>,
    body: Seq<char>,
) -> Seq<char> {
    timestamp + method + path_and_query + body
}

/// Builds the text that is signed (see `sign_payload_of`).
pub fn sign_payload(timestamp: &str, method: &str, path_and_query: &str, body: &str) -> (r: String)
    ensures
        r@ == sign_payload_of(timestamp@, method@, path_and_query@, body@),
{
    let mut s = String::from_str(timestamp);
    s.append(method);
    s.append(path_and_query);
    s.append(body);
    s
}

/// The HMAC-SHA256 tag of a message under a key.
pub uninterp spec fn hmac_sha256_of(key: Seq<u8>, message: Seq<u8>) -> Seq<u8>;

/// Relies on `hmac::Hmac<sha2::Sha256>`: `new_from_slice` accepts a key of any length (a long
/// one is hashed first, `get_der_key`), and the finalized tag is the 32 bytes of SHA-256.
#[verifier::external_body]
fn hmac_sha256(key: &[u8], message: &[u8]) -> (r: Vec<u8>)
    ensures
        r@ == hmac_sha256_of(key@, message@),
        r@.len() == 32,
{
    let mut mac = <hmac::Hmac<sha2::Sha256> as hmac::Mac>::new_from_slice(key).unwrap();
    hmac::Mac::update(&mut mac, message);
    hmac::Mac::finalize(mac).into_bytes().to_vec()
}

/// The standard, padded base64 text of some bytes.
pub uninterp spec fn base64_of(bytes: Seq<u8>) -> Seq<char>;

/// Relies on `base64`'s `STANDARD` engine: standard alphabet, padded, so every started group
/// of three bytes gives four characters.
#[verifier::external_body]
fn base64_encode(bytes: &[u8]) -> (r: String)
    ensures
        r@ == base64_of(bytes@),
        r@.len() == 4 * ((bytes@.len() + 2) / 3),
{
    base64::Engine::encode(&base64::engine::general_purpose::STANDARD, bytes)
}

/// The request signature: the base64 text of the HMAC-SHA256 tag, under the secret key, of
/// the UTF-8 bytes of the signed text (see `sign_payload_of`).
pub fn signature(secret: &[u8], timestamp: &str, method: &str, path_and_query: &str, body: &str) -> (r: String)
    ensures
        r@ == base64_of(
            hmac_sha256_of(
                secret@,
                vstd::utf8::encode_utf8(sign_payload_of(timestamp@, method@, path_and_query@, body@)),
            ),
        ),
{
    let payload = sign_payload(timestamp, method, path_and_query, body);
    let tag = hmac_sha256(secret, payload.as_str().as_bytes());
    base64_encode(tag.as_slice())
}

/// A header built from a name and a text value.
fn header(name: &str, value: &str) -> (r: (String, String))
    ensures
        r.0@ == name@,
        r.1@ == value@,
{
    (String::from_str(name), String::from_str(value))
}

/// The headers that authenticate a request, in order: API key, passphrase, signature and
/// timestamp, then, on the testnet, the simulated-trading marker `1`.
pub fn auth_headers(api_key: &str, passphrase: &str, sign: &str, timestamp: &str, testnet: bool) -> (r: Vec<(String, String)>)
    ensures
        r@.len() == (if testnet { 5int } else { 4int }),
        r@[0].0@ == "ok-access-key"@ && r@[0].1@ == api_key@,
        r@[1].0@ == "ok-access-passphrase"@ && r@[1].1@ == passphrase@,
        r@[2].0@ == "ok-access-sign"@ && r@[2].1@ == sign@,
        r@[3].0@ == "ok-access-timestamp"@ && r@[3].1@ == timestamp@,
        testnet ==> r@[4].0@ == "x-simulated-trading"@ && r@[4].1@ == "1"@,
{
    let mut r: Vec<(String, String)> = Vec::new();
    r.push(header("ok-access-key", api_key));
    r.push(header("ok-access-passphrase", passphrase));
    r.push(header("ok-access-sign", sign));
    r.push(header("ok-access-timestamp", timestamp));
    if testnet {
        r.push(header("x-simulated-trading", "1"));
    }
    r
}

/// The request URL: base and path, then, when there are any, `?` and the parameters joined
/// by `&`: the simulated-trading broker parameter first on the testnet, then the encoded
/// query.
pub open spec fn url_of(base: Seq<char>, path: Seq<char>, testnet: bool, query: Option<Seq<char>>) -> Seq<char> {
    let broker = "brokerId=9999"@;
    match (testnet, query) {
        (false, None) => base + path,
        (true, None) => base + path + "?"@ + broker,
        (false, Some(q)) => base + path + "?"@ + q,
        (true, Some(q)) => base + path + "?"@ + broker + "&"@ + q,
    }
}

/// Builds the URL of a request (see `url_of`).
pub fn request_url(base: &str, path: &str, testnet: bool, query: Option<&str>) -> (r: String)
    ensures
        r@ == url_of(base@, path@, testnet, match query {
            Some(q) => Some(q@),
            None => None,
        }),
{
    proof {
        reveal_strlit("brokerId=9999");
        reveal_strlit("?");
        reveal_strlit("&");
    }
    let mut url = String::from_str(base);
    url.append(path);
    if testnet {
        url.append("?");
        url.append("brokerId=9999");
        match query {
            Some(q) => {
                url.append("&");
                url.append(q);
            },
            None => {},
        }
    } else {
        match query {
            Some(q) => {
                url.append("?");
                url.append(q);
            },
            None => {},
        }
    }
    url
}

} // verus!
