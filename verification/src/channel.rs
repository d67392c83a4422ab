//! Push channels: the request that carries a message to the endpoint of a
//! key, and the fan-out of one message over all keys.
//!
//! Nothing is sent from here. A request is described in full, and the caller
//! posts it.

use crate::text::{starts_with, text_of};
use vstd::prelude::*;

verus! {

/// The error of the regex crate for a pattern that it does not accept.
/// Nothing is read from it.
#[verifier::external_type_specification]
#[verifier::external_body]
pub struct ExPatternError(regex::Error);

/// The error of serde_urlencoded for a value that it cannot encode. Nothing
/// is read from it.
#[verifier::external_type_specification]
#[verifier::external_body]
pub struct ExFormError(serde_urlencoded::ser::Error);

/// Why no request could be made for a key.
#[derive(Clone, Copy, Debug, PartialEq, Eq, Structural)]
pub enum SendError {
    /// The message could not be encoded as a form.
    Encoding,
    /// The pattern that reads keys was not accepted.
    Pattern,
    /// The key begins with `sctp` and holds no run of digits followed by `t`
    /// after an `sctp`.
    Format,
}

/// A POST request, ready to be sent.
#[derive(Debug, PartialEq, Eq)]
pub struct PushRequest {
    pub url: String,
    /// Value of the `Content-Type` header.
    pub content_type: String,
    /// Value of the `Content-Length` header: the bytes of `body`.
    pub content_length: u64,
    pub body: String,
}

/// A request by its characters and numbers.
pub struct RequestView {
    pub url: Seq<char>,
    pub content_type: Seq<char>,
    pub content_length: int,
    pub body: Seq<char>,
}

impl View for PushRequest {
    type V = RequestView;

    open spec fn view(&self) -> RequestView {
        RequestView {
            url: self.url@,
            content_type: self.content_type@,
            content_length: self.content_length as int,
            body: self.body@,
        }
    }
}

/// What is to be done for one key.
#[derive(Debug, PartialEq, Eq)]
pub enum Delivery {
    /// The key is empty: nothing is sent.
    Skipped,
    /// This request is to be posted.
    Post(PushRequest),
    /// No request could be made; the key is given up for this message.
    Failed(SendError),
}

/// A delivery by its characters and numbers.
pub enum DeliveryView {
    Skipped,
    Post(RequestView),
    Failed(SendError),
}

impl View for Delivery {
    type V = DeliveryView;

    open spec fn view(&self) -> DeliveryView {
        match self {
            Delivery::Skipped => DeliveryView::Skipped,
            Delivery::Post(request) => DeliveryView::Post(request@),
            Delivery::Failed(error) => DeliveryView::Failed(*error),
        }
    }
}

/// The form encoding that serde_urlencoded gives two fields in this order, or
/// `None` where it reports an error.
pub uninterp spec fn form_encoding(
    first_name: Seq<char>,
    first_value: Seq<char>,
    second_name: Seq<char>,
    second_value: Seq<char>,
) -> Option<Seq<char>>;

/// Whether the regex crate accepts `pattern`.
pub uninterp spec fn pattern_compiles(pattern: Seq<char>) -> bool;

/// What group `group` of `pattern` holds in the leftmost match of the pattern
/// in `text`, as the regex crate finds it; `None` where the pattern does not
/// match or the group took no part.
pub uninterp spec fn captured_group(pattern: Seq<char>, text: Seq<char>, group: int) -> Option<
    Seq<char>,
>;

/// `serde_urlencoded::to_string` on the two pairs: the fields encoded as
/// `application/x-www-form-urlencoded`, in the order given.
#[verifier::external_body]
fn form_encode(first_name: &str, first_value: &str, second_name: &str, second_value: &str) -> (encoded:
    Result<String, serde_urlencoded::ser::Error>)
    ensures
        match encoded {
            Ok(body) => form_encoding(first_name@, first_value@, second_name@, second_value@)
                == Some(body@),
            Err(_) => form_encoding(first_name@, first_value@, second_name@, second_value@)
                is None,
        },
{
    serde_urlencoded::to_string([(first_name, first_value), (second_name, second_value)])
}

/// `regex::Regex::new` on `pattern`, then `Regex::captures` on `text` and
/// `Captures::get` for `group`. A pattern that is not accepted gives the
/// crate's error; otherwise the text of the group comes back, if there is one.
#[verifier::external_body]
fn capture(pattern: &str, text: &str, group: usize) -> (found: Result<Option<String>, regex::Error>)
    ensures
        found is Ok <==> pattern_compiles(pattern@),
        found matches Ok(Some(part)) ==> captured_group(pattern@, text@, group as int) == Some(
            part@,
        ),
        found matches Ok(None) ==> captured_group(pattern@, text@, group as int) is None,
{
    match regex::Regex::new(pattern) {
        Err(error) => Err(error),
        Ok(compiled) => Ok(
            match compiled.captures(text) {
                None => None,
                Some(groups) => groups.get(group).map(|part| part.as_str().to_string()),
            },
        ),
    }
}

/// A key that names its own host begins with this.
pub open spec fn is_numbered_key(key: Seq<char>) -> bool {
    "sctp"@.is_prefix_of(key)
}

/// The endpoint of a key that names no host.
pub open spec fn shared_url(key: Seq<char>) -> Seq<char> {
    "https://sctapi.ftqq.com/"@ + key + ".send"@
}

/// The endpoint of a key that names the host `digits`.
pub open spec fn numbered_url(digits: Seq<char>, key: Seq<char>) -> Seq<char> {
    "https://"@ + digits + ".push.ft07.com/send/"@ + key + ".send"@
}

/// The endpoint of `key`, given the digits that were read from it.
pub open spec fn url_from_digits(key: Seq<char>, digits: Option<Seq<char>>) -> Result<
    Seq<char>,
    SendError,
> {
    if !is_numbered_key(key) {
        Ok(shared_url(key))
    } else {
        match digits {
            Some(digits) => Ok(numbered_url(digits, key)),
            None => Err(SendError::Format),
        }
    }
}

/// The endpoint of `key`. A key that begins with `sctp` is read with the
/// pattern `sctp(\d+)t`; the first group gives the host.
pub open spec fn url_of(key: Seq<char>) -> Result<Seq<char>, SendError> {
    if is_numbered_key(key) && !pattern_compiles("sctp(\\d+)t"@) {
        Err(SendError::Pattern)
    } else {
        url_from_digits(key, captured_group("sctp(\\d+)t"@, key, 1))
    }
}

/// The characters of a URL or the error in its place.
pub open spec fn url_view(url: Result<String, SendError>) -> Result<Seq<char>, SendError> {
    match url {
        Ok(url) => Ok(url@),
        Err(error) => Err(error),
    }
}

/// The request that carries the form `body` to `url`.
pub open spec fn request_to(url: Seq<char>, body: Seq<char>) -> RequestView {
    RequestView {
        url,
        content_type: "application/x-www-form-urlencoded"@,
        content_length: vstd::utf8::encode_utf8(body).len() as int,
        body,
    }
}

/// What is to be done to bring `text` and `desp` to `key`. The form is encoded
/// first, then the endpoint is found; the first failure decides.
pub open spec fn request_of(text: Seq<char>, desp: Seq<char>, key: Seq<char>) -> Result<
    RequestView,
    SendError,
> {
    match form_encoding("text"@, text, "desp"@, desp) {
        None => Err(SendError::Encoding),
        Some(body) => match url_of(key) {
            Err(error) => Err(error),
            Ok(url) => Ok(request_to(url, body)),
        },
    }
}

/// What is to be done for `key`: nothing for an empty key, else the request
/// or the failure.
pub open spec fn delivery_of(text: Seq<char>, desp: Seq<char>, key: Seq<char>) -> DeliveryView {
    if key.len() == 0 {
        DeliveryView::Skipped
    } else {
        match request_of(text, desp, key) {
            Ok(request) => DeliveryView::Post(request),
            Err(error) => DeliveryView::Failed(error),
        }
    }
}

/// Builds the endpoint of `key` from the digits that were read from it. A key
/// that does not begin with `sctp` goes to the shared host, whatever `digits`
/// holds. A key that does needs its digits: without them it is malformed.
pub fn endpoint_from_digits(key: &str, digits: &Option<String>) -> (url: Result<String, SendError>)
    ensures
        url_view(url) == url_from_digits(key@, text_of(*digits)),
{
    if !starts_with(key, "sctp") {
        let mut url = String::from_str("https://sctapi.ftqq.com/");
        url.append(key);
        url.append(".send");
        Ok(url)
    } else {
        match digits {
            Some(digits) => {
                let mut url = String::from_str("https://");
                url.append(digits.as_str());
                url.append(".push.ft07.com/send/");
                url.append(key);
                url.append(".send");
                Ok(url)
            },
            None => Err(SendError::Format),
        }
    }
}

/// Finds the endpoint of `key`.
pub fn endpoint(key: &str) -> (url: Result<String, SendError>)
    ensures
        url_view(url) == url_of(key@),
{
    if starts_with(key, "sctp") {
        match capture("sctp(\\d+)t", key, 1) {
            Err(_) => Err(SendError::Pattern),
            Ok(digits) => endpoint_from_digits(key, &digits),
        }
    } else {
        endpoint_from_digits(key, &None)
    }
}

/// Wraps an encoded form into the request for `url`.
pub fn request_with(url: String, body: String) -> (request: PushRequest)
    ensures
        request@ == request_to(url@, body@),
{
    let content_length = body.as_str().as_bytes().len() as u64;
    PushRequest {
        url,
        content_type: String::from_str("application/x-www-form-urlencoded"),
        content_length,
        body,
    }
}

/// Prepares the delivery of one message to one key: the form of the two
/// fields `text` and `desp`, and the POST request that carries it.
pub fn sc_send(text: &str, desp: &str, key: &str) -> (request: Result<PushRequest, SendError>)
    ensures
        match request {
            Ok(request) => request_of(text@, desp@, key@) == Ok::<RequestView, SendError>(request@),
            Err(error) => request_of(text@, desp@, key@) == Err::<RequestView, SendError>(error),
        },
{
    match form_encode("text", text, "desp", desp) {
        Err(_) => Err(SendError::Encoding),
        Ok(body) => match endpoint(key) {
            Err(error) => Err(error),
            Ok(url) => Ok(request_with(url, body)),
        },
    }
}

/// Prepares the delivery of one message to every key, in the order of the
/// keys. Each key is handled by itself: what is done for one key depends on
/// no other key, and a key that fails stops none that follows.
pub fn send_to_all_keys(text: &str, desp: &str, keys: &Vec<String>) -> (deliveries: Vec<Delivery>)
    ensures
        deliveries.len() == keys.len(),
        forall|i: int|
            0 <= i < keys.len() ==> (#[trigger] deliveries[i])@ == delivery_of(
                text@,
                desp@,
                keys[i]@,
            ),
{
    let mut deliveries: Vec<Delivery> = Vec::new();
    let mut i: usize = 0;
    while i < keys.len()
        invariant
            i <= keys.len(),
            deliveries.len() == i,
            forall|j: int|
                0 <= j < i ==> (#[trigger] deliveries[j])@ == delivery_of(text@, desp@, keys[j]@),
        decreases keys.len() - i,
    {
        let key = keys[i].as_str();
        let delivery = if key.is_empty() {
            Delivery::Skipped
        } else {
            match sc_send(text, desp, key) {
                Ok(request) => Delivery::Post(request),
                Err(error) => Delivery::Failed(error),
            }
        };
        deliveries.push(delivery);
        i = i + 1;
    }
    deliveries
}

} // verus!
