//! Requests to the bridge and its raw answers, as plain values.
//!
//! The client does not open connections itself. It describes each request,
//! the caller sends it over HTTPS, and the client reads what came back.

use vstd::prelude::*;
use vstd::string::StringExecFns;
use crate::error::{HttpMethod, HueError, HueErrorModel, UsageFault, result_model};
use crate::json::{Json, JsonMember};

verus! {

/// The address of the bridge: an IP address or a host name.
#[derive(Clone, Debug, PartialEq)]
pub struct BridgeIp(pub String);

impl View for BridgeIp {
    type V = Seq<char>;

    open spec fn view(&self) -> Seq<char> {
        self.0@
    }
}

/// What a given address makes: the bridge's address, unless none or an
/// empty one was given.
pub open spec fn bridge_address(address: Option<Seq<char>>) -> Result<Seq<char>, HueErrorModel> {
    match address {
        Some(text) if text.len() > 0 => Ok(text),
        _ => Err(HueErrorModel::Usage(UsageFault::MissingBridge)),
    }
}

impl BridgeIp {
    /// Takes the address that the user gave. It must be there and not be
    /// empty; nothing else is asked of it.
    pub fn new(address: Option<&str>) -> (r: Result<BridgeIp, HueError>)
        ensures
            result_model(r) == bridge_address(
                match address {
                    Some(text) => Some(text@),
                    None => None,
                },
            ),
    {
        match address {
            Some(text) => {
                if text.is_empty() {
                    Err(HueError::Usage(UsageFault::MissingBridge))
                } else {
                    Ok(BridgeIp(text.to_owned()))
                }
            },
            None => Err(HueError::Usage(UsageFault::MissingBridge)),
        }
    }
}

/// The application key that the bridge issued; it goes with every request
/// but the one that creates it.
#[derive(Clone, Debug, PartialEq)]
pub struct AppKey(pub String);

impl From<&AppKey> for String {
    fn from(key: &AppKey) -> (r: String) {
        key.0.clone()
    }
}

impl vstd::std_specs::convert::FromSpecImpl<&AppKey> for String {
    open spec fn obeys_from_spec() -> bool {
        true
    }

    open spec fn from_spec(key: &AppKey) -> String {
        key.0
    }
}

/// The body for the endpoint that creates a key.
#[derive(Clone, Debug, PartialEq)]
pub struct CreateUserRequestBody {
    pub device_type: String,
}

/// The on/off part of a light's state.
#[derive(Clone, Copy, Debug, PartialEq)]
pub struct LightOnOffState {
    pub on: bool,
}

/// The dimming part of a light's state: a brightness in percent.
#[derive(Clone, Copy, Debug, PartialEq)]
pub struct LightDimmingState {
    pub brightness: u8,
}

/// The body for the endpoint that sets a light's state. Without `dimming`
/// the request leaves the brightness as it is.
#[derive(Clone, Copy, Debug, PartialEq)]
pub struct LightControlRequestBody {
    pub on: LightOnOffState,
    pub dimming: Option<LightDimmingState>,
}

impl LightControlRequestBody {
    /// The brightness, where there is one, is a percentage: at most 100.
    pub open spec fn in_range(self) -> bool {
        self.dimming matches Some(dimming) ==> dimming.brightness <= 100
    }
}

/// The body of a request.
#[derive(Clone, Debug, PartialEq)]
pub enum RequestBody {
    Empty,
    CreateUser(CreateUserRequestBody),
    LightControl(LightControlRequestBody),
}

/// The mathematical value of a [`RequestBody`].
pub enum BodyModel {
    Empty,
    CreateUser(Seq<char>),
    LightControl(LightControlRequestBody),
}

impl View for RequestBody {
    type V = BodyModel;

    open spec fn view(&self) -> BodyModel {
        match self {
            RequestBody::Empty => BodyModel::Empty,
            RequestBody::CreateUser(body) => BodyModel::CreateUser(body.device_type@),
            RequestBody::LightControl(body) => BodyModel::LightControl(*body),
        }
    }
}

/// One header of a request.
#[derive(Clone, Debug, PartialEq)]
pub struct Header {
    pub name: String,
    pub value: String,
}

/// A request to the bridge.
#[derive(Clone, Debug, PartialEq)]
pub struct HueRequest {
    pub method: HttpMethod,
    pub url: String,
    pub headers: Vec<Header>,
    pub body: RequestBody,
}

/// The mathematical value of a [`HueRequest`].
pub struct RequestModel {
    pub method: HttpMethod,
    pub url: Seq<char>,
    pub headers: Seq<(Seq<char>, Seq<char>)>,
    pub body: BodyModel,
}

impl View for HueRequest {
    type V = RequestModel;

    open spec fn view(&self) -> RequestModel {
        RequestModel {
            method: self.method,
            url: self.url@,
            headers: self.headers@.map_values(|h: Header| (h.name@, h.value@)),
            body: self.body@,
        }
    }
}

/// The address of a resource of the bridge.
pub open spec fn url_of(bridge_ip: Seq<char>, path: Seq<char>) -> Seq<char> {
    "https://"@ + bridge_ip + path
}

/// The header that asks for a JSON answer.
pub open spec fn accept_header() -> (Seq<char>, Seq<char>) {
    ("Accept"@, "application/json"@)
}

/// The header that carries the application key.
pub open spec fn key_header(app_key: Seq<char>) -> (Seq<char>, Seq<char>) {
    ("hue-application-key"@, app_key)
}

/// Builds the address of a resource of the bridge.
pub fn request_url(bridge_ip: &BridgeIp, path: &str) -> (r: String)
    ensures
        r@ == url_of(bridge_ip.0@, path@),
{
    let mut url = "https://".to_owned();
    url.append(bridge_ip.0.as_str());
    url.append(path);
    url
}

fn accept_json() -> (r: Header)
    ensures
        (r.name@, r.value@) == accept_header(),
{
    Header { name: "Accept".to_owned(), value: "application/json".to_owned() }
}

fn application_key(app_key: &AppKey) -> (r: Header)
    ensures
        (r.name@, r.value@) == key_header(app_key.0@),
{
    Header { name: "hue-application-key".to_owned(), value: String::from(app_key) }
}

/// Describes a GET of `path` with the application key.
pub fn get_request(bridge_ip: &BridgeIp, app_key: &AppKey, path: &str) -> (r: HueRequest)
    ensures
        r@ == (RequestModel {
            method: HttpMethod::Get,
            url: url_of(bridge_ip.0@, path@),
            headers: seq![accept_header(), key_header(app_key.0@)],
            body: BodyModel::Empty,
        }),
{
    let mut headers: Vec<Header> = Vec::new();
    headers.push(accept_json());
    headers.push(application_key(app_key));
    let r = HueRequest {
        method: HttpMethod::Get,
        url: request_url(bridge_ip, path),
        headers,
        body: RequestBody::Empty,
    };
    assert(r@.headers =~= seq![accept_header(), key_header(app_key.0@)]);
    r
}

/// Describes a POST of `body` to `path`, without an application key.
pub fn post_request(bridge_ip: &BridgeIp, path: &str, body: CreateUserRequestBody) -> (r:
    HueRequest)
    ensures
        r@ == (RequestModel {
            method: HttpMethod::Post,
            url: url_of(bridge_ip.0@, path@),
            headers: seq![accept_header()],
            body: BodyModel::CreateUser(body.device_type@),
        }),
{
    let mut headers: Vec<Header> = Vec::new();
    headers.push(accept_json());
    let r = HueRequest {
        method: HttpMethod::Post,
        url: request_url(bridge_ip, path),
        headers,
        body: RequestBody::CreateUser(body),
    };
    assert(r@.headers =~= seq![accept_header()]);
    r
}

/// Describes a PUT of `body` to `path` with the application key.
pub fn put_request(
    bridge_ip: &BridgeIp,
    app_key: &AppKey,
    path: &str,
    body: LightControlRequestBody,
) -> (r: HueRequest)
    ensures
        r@ == (RequestModel {
            method: HttpMethod::Put,
            url: url_of(bridge_ip.0@, path@),
            headers: seq![accept_header(), key_header(app_key.0@)],
            body: BodyModel::LightControl(body),
        }),
{
    let mut headers: Vec<Header> = Vec::new();
    headers.push(accept_json());
    headers.push(application_key(app_key));
    let r = HueRequest {
        method: HttpMethod::Put,
        url: request_url(bridge_ip, path),
        headers,
        body: RequestBody::LightControl(body),
    };
    assert(r@.headers =~= seq![accept_header(), key_header(app_key.0@)]);
    r
}

/// What came back for a request.
#[derive(Clone, Debug, PartialEq)]
pub enum TransportReply {
    /// The request could not be sent, or no answer came; the text says why.
    Failed(String),
    /// The bridge answered with this status and these bytes as the body.
    Received(u16, Vec<u8>),
}

/// The JSON document that the bytes hold: the `serde_json::Value` that
/// `serde_json::from_slice` reads from them, copied into a [`Json`]; `None`
/// where `from_slice` reports an error.
pub uninterp spec fn json_of_bytes(bytes: Seq<u8>) -> Option<Json>;

/// `serde_json::Value`, which is only passed on: nothing is read from it
/// here but by [`json_from_value`].
#[verifier::external_type_specification]
#[verifier::external_body]
pub struct ExValue(serde_json::Value);

/// Copies a `serde_json::Value` into a [`Json`], variant by variant. A number
/// keeps what `serde_json::Number::as_i64` gives for it, and the members of
/// an object come in the order in which `serde_json::Map::iter` yields them.
#[verifier::external_body]
fn json_from_value(value: &serde_json::Value) -> Json {
    match value {
        serde_json::Value::Null => Json::Null,
        serde_json::Value::Bool(b) => Json::Bool(*b),
        serde_json::Value::Number(n) => Json::Number(n.as_i64()),
        serde_json::Value::String(s) => Json::Text(s.clone()),
        serde_json::Value::Array(items) => Json::Array(items.iter().map(json_from_value).collect()),
        serde_json::Value::Object(members) => Json::Object(
            members.iter().map(|(k, v)| JsonMember { key: k.clone(), value: json_from_value(v) }).collect(),
        ),
    }
}

/// Calls `serde_json::from_slice` for a `serde_json::Value`. Trusted: the
/// result is a function of the bytes alone, and it is `None` exactly where
/// `from_slice` returns an error.
#[verifier::external_body]
fn parse_json(bytes: &Vec<u8>) -> (r: Option<Json>)
    ensures
        r == json_of_bytes(bytes@),
{
    match serde_json::from_slice::<serde_json::Value>(bytes.as_slice()) {
        Ok(value) => Some(json_from_value(&value)),
        Err(_) => None,
    }
}

/// The status says that the request succeeded.
pub open spec fn is_success(status: u16) -> bool {
    200 <= status < 300
}

/// What a raw answer gives: the JSON document of its body, or the reason
/// why there is none.
pub open spec fn response_outcome(method: HttpMethod, reply: TransportReply) -> Result<
    Json,
    HueErrorModel,
> {
    match reply {
        TransportReply::Failed(cause) => Err(HueErrorModel::Network(cause@)),
        TransportReply::Received(status, body) => if !is_success(status) {
            Err(HueErrorModel::Status(method, status))
        } else {
            match json_of_bytes(body@) {
                Some(json) => Ok(json),
                None => Err(HueErrorModel::NotJson),
            }
        },
    }
}

/// What a status and a body that was read as JSON give.
pub open spec fn body_outcome(method: HttpMethod, status: u16, body: Option<Json>) -> Result<
    Json,
    HueErrorModel,
> {
    if !is_success(status) {
        Err(HueErrorModel::Status(method, status))
    } else {
        match body {
            Some(json) => Ok(json),
            None => Err(HueErrorModel::NotJson),
        }
    }
}

/// Judges an answer by its status and by what its body was read as: a
/// status outside 200..=299 fails whatever the body holds, and a body that
/// is not JSON fails otherwise.
pub fn check_response(method: HttpMethod, status: u16, body: Option<Json>) -> (r: Result<
    Json,
    HueError,
>)
    ensures
        result_model(r) == body_outcome(method, status, body),
{
    if status < 200 || status >= 300 {
        Err(HueError::Status(method, status))
    } else {
        match body {
            Some(json) => Ok(json),
            None => Err(HueError::NotJson),
        }
    }
}

/// Reads the raw answer to a request that was sent with `method`.
///
/// A failure to send is reported with its cause. An answer with a status
/// outside 200..=299 is reported with the method and the status, and its
/// body is not read. Otherwise the body must be JSON.
pub fn decode_response(method: HttpMethod, reply: TransportReply) -> (r: Result<Json, HueError>)
    ensures
        result_model(r) == response_outcome(method, reply),
{
    match reply {
        TransportReply::Failed(cause) => Err(HueError::Network(cause)),
        TransportReply::Received(status, body) => {
            if status < 200 || status >= 300 {
                Err(HueError::Status(method, status))
            } else {
                check_response(method, status, parse_json(&body))
            }
        },
    }
}

} // verus!
