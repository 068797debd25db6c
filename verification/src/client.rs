//! The three operations of the client: creating an application key, listing
//! the devices, and setting the state of a light. Each one is a request to
//! send and a reading of the answer.

use vstd::prelude::*;
use vstd::string::StringExecFns;
use crate::device::{DeviceModel, HueDevice, LightId};
use crate::envelope::{create_key_outcome, device_list_outcome, law_reported_error_fails_light_state, light_state_outcome, listing_model, parse_control_light_response, parse_create_key_response, parse_list_devices_response};
use crate::error::{HttpMethod, HueError, HueErrorModel, UsageFault, result_model};
use crate::json::Json;
use crate::resolver::{find_light_by_id_or_name, resolution};
use crate::transport::{AppKey, BodyModel, BridgeIp, CreateUserRequestBody, HueRequest, LightControlRequestBody, LightDimmingState, LightOnOffState, RequestModel, TransportReply, accept_header, decode_response, get_request, key_header, post_request, put_request, response_outcome, url_of};

verus! {

/// The name under which the client registers with the bridge.
pub const HUE_API_APP_NAME: &'static str = "philips_hue_lab";

/// The user name under which the client registers with the bridge.
pub const HUE_API_USER_NAME: &'static str = "hue_lab_user";

/// The key material that the bridge issued.
#[derive(Clone, Debug, PartialEq)]
pub struct BridgeKey {
    pub user_name: String,
    pub client_key: String,
}

/// The mathematical value of a [`BridgeKey`].
pub struct BridgeKeyModel {
    pub user_name: Seq<char>,
    pub client_key: Seq<char>,
}

impl View for BridgeKey {
    type V = BridgeKeyModel;

    open spec fn view(&self) -> BridgeKeyModel {
        BridgeKeyModel { user_name: self.user_name@, client_key: self.client_key@ }
    }
}

/// The device type that a registration names: the application, `#`, and the
/// user.
pub open spec fn device_type_of(app_name: Seq<char>, user_name: Seq<char>) -> Seq<char> {
    app_name + "#"@ + user_name
}

impl CreateUserRequestBody {
    /// The body that registers `user_name` of `app_name`.
    pub fn from(app_name: &str, user_name: &str) -> (r: Self)
        ensures
            r.device_type@ == device_type_of(app_name@, user_name@),
    {
        let mut device_type = app_name.to_owned();
        device_type.append("#");
        device_type.append(user_name);
        CreateUserRequestBody { device_type }
    }
}

/// The request that asks the bridge for a new application key.
pub fn create_key_request(bridge_ip: &BridgeIp) -> (r: HueRequest)
    ensures
        r@ == (RequestModel {
            method: HttpMethod::Post,
            url: url_of(bridge_ip.0@, "/api"@),
            headers: seq![accept_header()],
            body: BodyModel::CreateUser(device_type_of(HUE_API_APP_NAME@, HUE_API_USER_NAME@)),
        }),
{
    let body = CreateUserRequestBody::from(HUE_API_APP_NAME, HUE_API_USER_NAME);
    post_request(bridge_ip, "/api", body)
}

/// What the answer to a key creation gives.
pub open spec fn create_key_result(reply: TransportReply) -> Result<BridgeKeyModel, HueErrorModel> {
    match response_outcome(HttpMethod::Post, reply) {
        Err(e) => Err(e),
        Ok(json) => match create_key_outcome(json) {
            Err(e) => Err(e),
            Ok(user_name) => Ok(
                BridgeKeyModel { user_name: HUE_API_USER_NAME@, client_key: user_name },
            ),
        },
    }
}

/// Reads the answer to [`create_key_request`]. The key of the result is the
/// `username` that the bridge issued.
pub fn create_key(reply: TransportReply) -> (r: Result<BridgeKey, HueError>)
    ensures
        result_model(r) == create_key_result(reply),
{
    let response = match decode_response(HttpMethod::Post, reply) {
        Ok(response) => response,
        Err(e) => { return Err(e); },
    };
    match parse_create_key_response(&response) {
        Ok(parsed) => Ok(
            BridgeKey { user_name: HUE_API_USER_NAME.to_owned(), client_key: parsed.user_name },
        ),
        Err(e) => Err(e),
    }
}

/// The request that asks the bridge for its devices.
pub fn list_devices_request(bridge_ip: &BridgeIp, api_key: &AppKey) -> (r: HueRequest)
    ensures
        r@ == (RequestModel {
            method: HttpMethod::Get,
            url: url_of(bridge_ip.0@, "/clip/v2/resource/device"@),
            headers: seq![accept_header(), key_header(api_key.0@)],
            body: BodyModel::Empty,
        }),
{
    get_request(bridge_ip, api_key, "/clip/v2/resource/device")
}

/// What the answer to a device listing gives.
pub open spec fn list_devices_result(reply: TransportReply) -> Result<
    Seq<DeviceModel>,
    HueErrorModel,
> {
    match response_outcome(HttpMethod::Get, reply) {
        Err(e) => Err(e),
        Ok(json) => device_list_outcome(json),
    }
}

/// Reads the answer to [`list_devices_request`]: all the devices, or a
/// failure and no device at all.
pub fn list_devices(reply: TransportReply) -> (r: Result<Vec<HueDevice>, HueError>)
    ensures
        listing_model(r) == list_devices_result(reply),
{
    match decode_response(HttpMethod::Get, reply) {
        Ok(response) => parse_list_devices_response(&response),
        Err(e) => Err(e),
    }
}

/// The same answer gives the same devices: listing twice, with nothing
/// changed on the bridge in between, gives equal results.
pub proof fn law_listing_is_repeatable(first: TransportReply, second: TransportReply)
    requires
        first == second,
    ensures
        list_devices_result(first) == list_devices_result(second),
{
}

/// A brightness in percent, held to the range 0..=100.
pub open spec fn clamped(level: u8) -> u8 {
    if level > 100 {
        100
    } else {
        level
    }
}

/// The body that sets a light's state: `dimming` is there exactly where a
/// level was asked for, and holds the level clamped to 100.
pub open spec fn light_body(on: bool, dimming_level: Option<u8>) -> LightControlRequestBody {
    LightControlRequestBody {
        on: LightOnOffState { on },
        dimming: match dimming_level {
            Some(level) => Some(LightDimmingState { brightness: clamped(level) }),
            None => None,
        },
    }
}

/// The path of a light's resource.
pub open spec fn light_path(light_id: Seq<char>) -> Seq<char> {
    "/clip/v2/resource/light/"@ + light_id
}

/// The request that switches a light on or off and, where a level is given,
/// dims it. Without a level the body has no `dimming`, so that the light
/// keeps its brightness.
pub fn control_light_request(
    bridge_ip: &BridgeIp,
    api_key: &AppKey,
    light_id: &LightId,
    on: bool,
    dimming_level: Option<u8>,
) -> (r: HueRequest)
    ensures
        r@ == (RequestModel {
            method: HttpMethod::Put,
            url: url_of(bridge_ip.0@, light_path(light_id@)),
            headers: seq![accept_header(), key_header(api_key.0@)],
            body: BodyModel::LightControl(light_body(on, dimming_level)),
        }),
{
    let dimming = match dimming_level {
        Some(level) => Some(LightDimmingState { brightness: if level > 100 { 100 } else { level } }),
        None => None,
    };
    let body = LightControlRequestBody { on: LightOnOffState { on }, dimming };
    let mut path = "/clip/v2/resource/light/".to_owned();
    path.append(String::from(light_id).as_str());
    put_request(bridge_ip, api_key, path.as_str(), body)
}

/// The brightness that is sent never exceeds 100, and a request without a
/// level carries no `dimming` at all.
pub proof fn law_brightness_is_clamped(on: bool, dimming_level: Option<u8>)
    ensures
        light_body(on, dimming_level).in_range(),
        light_body(on, dimming_level).on.on == on,
        dimming_level is None <==> light_body(on, dimming_level).dimming is None,
        dimming_level matches Some(level) ==> {
            let sent = light_body(on, dimming_level).dimming->0.brightness;
            &&& sent <= 100
            &&& level <= 100 ==> sent == level
            &&& level > 100 ==> sent == 100
        },
{
}

/// What the answer to a change of a light's state gives.
pub open spec fn control_light_result(reply: TransportReply) -> Result<(), HueErrorModel> {
    match response_outcome(HttpMethod::Put, reply) {
        Err(e) => Err(e),
        Ok(json) => light_state_outcome(json),
    }
}

/// Reads the answer to [`control_light_request`]: the light's state was
/// changed, or the reason why it was not. An answer that reports an error
/// is a failure, whatever its status.
pub fn control_light(reply: TransportReply) -> (r: Result<(), HueError>)
    ensures
        result_model(r) == control_light_result(reply),
{
    match decode_response(HttpMethod::Put, reply) {
        Ok(response) => parse_control_light_response(&response),
        Err(e) => Err(e),
    }
}

/// An answer to a change of a light's state that reports an error is a
/// failure, whatever its status among 200..=299 and whatever its `data`.
pub proof fn law_reported_error_fails_light_change(reply: TransportReply, response: Json)
    requires
        response_outcome(HttpMethod::Put, reply) == Ok::<Json, HueErrorModel>(response),
        response.member("errors"@) matches Some(Json::Array(errors)) && errors@.len() > 0,
    ensures
        control_light_result(reply) is Err,
{
    law_reported_error_fails_light_state(response);
}

/// What a token resolves to, given the answer to a device listing: the
/// failure of the listing, or what the token stands for among its devices.
pub open spec fn resolve_light_result(reply: TransportReply, token: Seq<char>) -> Result<
    Seq<char>,
    HueErrorModel,
> {
    match list_devices_result(reply) {
        Err(e) => Err(e),
        Ok(devices) => resolution(devices, token),
    }
}

/// Resolves the light that `id_or_name` stands for from the answer to
/// [`list_devices_request`]. A listing that failed is handed on as it is,
/// and nothing is resolved from it.
pub fn resolve_light(reply: TransportReply, id_or_name: &str) -> (r: Result<LightId, HueError>)
    ensures
        result_model(r) == resolve_light_result(reply, id_or_name@),
{
    match list_devices(reply) {
        Ok(devices) => find_light_by_id_or_name(&devices, id_or_name),
        Err(e) => Err(e),
    }
}

/// Whether the light is to be on, from the two flags of the command line.
pub open spec fn power_choice(on: bool, off: bool) -> Result<bool, HueErrorModel> {
    if on && !off {
        Ok(true)
    } else if off && !on {
        Ok(false)
    } else {
        Err(HueErrorModel::Usage(UsageFault::PowerState))
    }
}

/// Decides whether the light is to be on: exactly one of the two flags must
/// be set.
pub fn select_power(on: bool, off: bool) -> (r: Result<bool, HueError>)
    ensures
        result_model(r) == power_choice(on, off),
{
    match (on, off) {
        (true, false) => Ok(true),
        (false, true) => Ok(false),
        _ => Err(HueError::Usage(UsageFault::PowerState)),
    }
}

} // verus!
