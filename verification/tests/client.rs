use philips_hue_lab::client::{
    control_light, control_light_request, create_key, create_key_request, list_devices,
    list_devices_request, resolve_light, select_power, BridgeKey, HUE_API_APP_NAME,
    HUE_API_USER_NAME,
};
use philips_hue_lab::device::{DeviceInfo, HueDevice, LightId};
use philips_hue_lab::error::{
    ErrorKind, HttpMethod, HueApiErrorMessage, HueError, Operation, Shape, UsageFault,
};
use philips_hue_lab::json::Json;
use philips_hue_lab::transport::{
    check_response, decode_response, get_request, post_request, put_request, request_url, AppKey,
    BridgeIp, CreateUserRequestBody, Header, HueRequest, LightControlRequestBody,
    LightDimmingState, LightOnOffState, RequestBody, TransportReply,
};

fn bridge() -> BridgeIp {
    BridgeIp("192.168.1.10".to_string())
}

fn key() -> AppKey {
    AppKey("secret-key".to_string())
}

fn received(status: u16, body: &str) -> TransportReply {
    TransportReply::Received(status, body.as_bytes().to_vec())
}

fn header(name: &str, value: &str) -> Header {
    Header {
        name: name.to_string(),
        value: value.to_string(),
    }
}

#[test]
fn the_device_type_joins_application_and_user() {
    assert_eq!(
        CreateUserRequestBody::from("philips_hue_lab", "hue_lab_user").device_type,
        "philips_hue_lab#hue_lab_user"
    );
    assert_eq!(CreateUserRequestBody::from("", "").device_type, "#");
    assert_eq!(HUE_API_APP_NAME, "philips_hue_lab");
    assert_eq!(HUE_API_USER_NAME, "hue_lab_user");
}

#[test]
fn the_key_request_is_an_unauthenticated_post() {
    assert_eq!(
        create_key_request(&bridge()),
        HueRequest {
            method: HttpMethod::Post,
            url: "https://192.168.1.10/api".to_string(),
            headers: vec![header("Accept", "application/json")],
            body: RequestBody::CreateUser(CreateUserRequestBody {
                device_type: "philips_hue_lab#hue_lab_user".to_string()
            }),
        }
    );
}

#[test]
fn the_listing_request_is_an_authenticated_get() {
    assert_eq!(
        list_devices_request(&bridge(), &key()),
        HueRequest {
            method: HttpMethod::Get,
            url: "https://192.168.1.10/clip/v2/resource/device".to_string(),
            headers: vec![
                header("Accept", "application/json"),
                header("hue-application-key", "secret-key"),
            ],
            body: RequestBody::Empty,
        }
    );
}

#[test]
fn a_brightness_of_150_is_sent_as_100() {
    let request = control_light_request(
        &bridge(),
        &key(),
        &LightId("L1".to_string()),
        true,
        Some(150),
    );
    assert_eq!(
        request,
        HueRequest {
            method: HttpMethod::Put,
            url: "https://192.168.1.10/clip/v2/resource/light/L1".to_string(),
            headers: vec![
                header("Accept", "application/json"),
                header("hue-application-key", "secret-key"),
            ],
            body: RequestBody::LightControl(LightControlRequestBody {
                on: LightOnOffState { on: true },
                dimming: Some(LightDimmingState { brightness: 100 }),
            }),
        }
    );
}

#[test]
fn brightness_within_the_range_is_kept() {
    for (asked, sent) in [(0u8, 0u8), (1, 1), (42, 42), (100, 100), (101, 100), (255, 100)] {
        let request = control_light_request(
            &bridge(),
            &key(),
            &LightId("L1".to_string()),
            true,
            Some(asked),
        );
        assert_eq!(
            request.body,
            RequestBody::LightControl(LightControlRequestBody {
                on: LightOnOffState { on: true },
                dimming: Some(LightDimmingState { brightness: sent }),
            })
        );
    }
}

#[test]
fn without_a_level_the_body_has_no_dimming() {
    let request = control_light_request(
        &bridge(),
        &key(),
        &LightId("L1".to_string()),
        false,
        None,
    );
    assert_eq!(
        request.body,
        RequestBody::LightControl(LightControlRequestBody {
            on: LightOnOffState { on: false },
            dimming: None,
        })
    );
}

#[test]
fn requests_carry_method_address_headers_and_body() {
    assert_eq!(request_url(&bridge(), "/x/y"), "https://192.168.1.10/x/y");
    assert_eq!(request_url(&BridgeIp("".to_string()), ""), "https://");
    let get = get_request(&bridge(), &key(), "/a");
    assert_eq!(get.method, HttpMethod::Get);
    assert_eq!(get.url, "https://192.168.1.10/a");
    assert_eq!(get.body, RequestBody::Empty);
    let body = CreateUserRequestBody {
        device_type: "a#b".to_string(),
    };
    let post = post_request(&bridge(), "/api", body.clone());
    assert_eq!(post.method, HttpMethod::Post);
    assert_eq!(post.headers, vec![header("Accept", "application/json")]);
    assert_eq!(post.body, RequestBody::CreateUser(body));
    let light = LightControlRequestBody {
        on: LightOnOffState { on: true },
        dimming: None,
    };
    let put = put_request(&bridge(), &key(), "/l", light);
    assert_eq!(put.method, HttpMethod::Put);
    assert_eq!(put.headers.len(), 2);
    assert_eq!(put.body, RequestBody::LightControl(light));
}

#[test]
fn a_created_key_is_the_username_of_the_answer() {
    let reply = received(200, r#"[{"success": {"username": "1234567890"}}]"#);
    assert_eq!(
        create_key(reply),
        Ok(BridgeKey {
            user_name: "hue_lab_user".to_string(),
            client_key: "1234567890".to_string(),
        })
    );
}

#[test]
fn the_link_button_error_is_passed_on() {
    let reply = received(
        200,
        r#"[{"error": {"type": 101, "address": "/", "description": "link button not pressed"}}]"#,
    );
    let actual = create_key(reply);
    assert_eq!(
        actual,
        Err(HueError::Api(
            Operation::CreateKey,
            HueApiErrorMessage {
                type_value: 101,
                address: "/".to_string(),
                description: "link button not pressed".to_string(),
            }
        ))
    );
}

#[test]
fn transport_failures_are_told_apart() {
    let failed = TransportReply::Failed("connection refused".to_string());
    assert_eq!(
        create_key(failed.clone()),
        Err(HueError::Network("connection refused".to_string()))
    );
    assert_eq!(
        list_devices(failed.clone()),
        Err(HueError::Network("connection refused".to_string()))
    );
    assert_eq!(
        control_light(failed),
        Err(HueError::Network("connection refused".to_string()))
    );
    assert_eq!(
        create_key(received(403, "[]")),
        Err(HueError::Status(HttpMethod::Post, 403))
    );
    assert_eq!(
        list_devices(received(199, r#"{"errors": [], "data": []}"#)),
        Err(HueError::Status(HttpMethod::Get, 199))
    );
    assert_eq!(
        control_light(received(300, r#"{"errors": [], "data": []}"#)),
        Err(HueError::Status(HttpMethod::Put, 300))
    );
    assert_eq!(list_devices(received(200, "<html>")), Err(HueError::NotJson));
    assert_eq!(control_light(received(204, "")), Err(HueError::NotJson));
    assert_eq!(
        list_devices(TransportReply::Received(200, vec![0xff, 0xfe])),
        Err(HueError::NotJson)
    );
    assert_eq!(HueError::NotJson.kind(), ErrorKind::Transport);
    assert_eq!(
        HueError::Status(HttpMethod::Get, 500).kind(),
        ErrorKind::Transport
    );
    assert_eq!(
        HueError::Network("x".to_string()).kind(),
        ErrorKind::Transport
    );
}

#[test]
fn a_light_change_that_reports_an_error_fails() {
    let reply = received(
        200,
        r#"{"errors":[{"type":3,"address":"/light/L1","description":"resource not available"}],"data":[]}"#,
    );
    let actual = control_light(reply);
    assert_eq!(
        actual,
        Err(HueError::Api(
            Operation::SetLightState,
            HueApiErrorMessage {
                type_value: 3,
                address: "/light/L1".to_string(),
                description: "resource not available".to_string(),
            }
        ))
    );
    assert_eq!(actual.unwrap_err().kind(), ErrorKind::Api);
    let with_data = received(
        207,
        r#"{"errors":[{"type":7,"address":"/a","description":"first"},
                      {"type":8,"address":"/b","description":"second"}],
            "data":[{"rid":"L1","rtype":"light"}]}"#,
    );
    assert_eq!(
        control_light(with_data),
        Err(HueError::Api(
            Operation::SetLightState,
            HueApiErrorMessage {
                type_value: 7,
                address: "/a".to_string(),
                description: "first".to_string(),
            }
        ))
    );
}

#[test]
fn a_light_change_needs_the_envelope_of_errors_and_data() {
    let envelope = Err(HueError::Malformed(Shape::LightEnvelope));
    assert_eq!(control_light(received(200, "{}")), envelope);
    assert_eq!(control_light(received(299, "[]")), envelope);
    assert_eq!(control_light(received(200, r#"{"errors": []}"#)), envelope);
    assert_eq!(control_light(received(200, r#"{"data": []}"#)), envelope);
    assert_eq!(
        control_light(received(200, r#"{"errors": {}, "data": []}"#)),
        envelope
    );
    assert_eq!(
        control_light(received(200, r#"{"errors": [], "data": "none"}"#)),
        envelope
    );
    assert_eq!(
        control_light(received(207, r#"{"errors": [{"description": "short"}], "data": []}"#)),
        Err(HueError::Malformed(Shape::ErrorDetails))
    );
    assert_eq!(
        control_light(received(200, "{}")).unwrap_err().kind(),
        ErrorKind::Protocol
    );
}

#[test]
fn every_status_from_200_to_299_is_success() {
    assert_eq!(
        control_light(received(200, r#"{"errors": [], "data": []}"#)),
        Ok(())
    );
    assert_eq!(
        control_light(received(
            299,
            r#"{"data": [{"rid": "L1", "rtype": "light"}], "errors": []}"#
        )),
        Ok(())
    );
    assert_eq!(
        check_response(HttpMethod::Put, 200, Some(Json::Null)),
        Ok(Json::Null)
    );
    assert_eq!(
        check_response(HttpMethod::Put, 200, None),
        Err(HueError::NotJson)
    );
    assert_eq!(
        check_response(HttpMethod::Put, 404, Some(Json::Null)),
        Err(HueError::Status(HttpMethod::Put, 404))
    );
    assert_eq!(
        check_response(HttpMethod::Get, 404, None),
        Err(HueError::Status(HttpMethod::Get, 404))
    );
}

#[test]
fn a_body_is_read_as_a_json_document() {
    let reply = received(
        200,
        r#" {"b": [1, -2, 2.5, 18446744073709551615, true, null, "t"], "a": {"x": "y"}} "#,
    );
    let json = decode_response(HttpMethod::Get, reply).unwrap();
    assert_eq!(
        json.get("b"),
        Some(&Json::Array(vec![
            Json::Number(Some(1)),
            Json::Number(Some(-2)),
            Json::Number(None),
            Json::Number(None),
            Json::Bool(true),
            Json::Null,
            Json::Text("t".to_string()),
        ]))
    );
    assert_eq!(json.get("a").unwrap().get_text("x"), Some("y".to_string()));
    assert_eq!(json.as_array(), None);
    assert_eq!(json.get("b").unwrap().as_array().unwrap().len(), 7);
    assert_eq!(Json::Number(Some(5)).as_i64(), Some(5));
    assert_eq!(Json::Text("s".to_string()).as_str(), Some(&"s".to_string()));
    assert_eq!(
        decode_response(HttpMethod::Get, received(200, "[1, 2] x")),
        Err(HueError::NotJson)
    );
}

#[test]
fn listing_twice_gives_equal_devices() {
    let body = r#"{"errors": [], "data": [
        {"id": "D1", "metadata": {"name": "Space light 1"},
         "product_data": {"model_id": "M", "product_name": "Space Light"},
         "services": [{"rid": "L1", "rtype": "light"}]}]}"#;
    let first = list_devices(received(200, body));
    let second = list_devices(received(200, body));
    assert_eq!(first, second);
    assert_eq!(
        first,
        Ok(vec![HueDevice(DeviceInfo {
            id: "D1".to_string(),
            name: "Space light 1".to_string(),
            product_name: "Space Light".to_string(),
            light_id: Some(LightId("L1".to_string())),
        })])
    );
}

#[test]
fn a_light_is_resolved_from_the_answer_to_a_listing() {
    let body = r#"{"errors": [], "data": [
        {"id": "D1", "metadata": {"name": "Kitchen Left"},
         "product_data": {"model_id": "M", "product_name": "P"},
         "services": [{"rid": "L1", "rtype": "light"}]},
        {"id": "D2", "metadata": {"name": "Kitchen Right"},
         "product_data": {"model_id": "M", "product_name": "P"},
         "services": [{"rid": "L2", "rtype": "light"}]},
        {"id": "D3", "metadata": {"name": "Hall"},
         "product_data": {"model_id": "M", "product_name": "P"},
         "services": [{"rid": "L3", "rtype": "light"}]}]}"#;
    assert_eq!(
        resolve_light(received(200, body), "L2"),
        Ok(LightId("L2".to_string()))
    );
    assert_eq!(
        resolve_light(received(200, body), "hall"),
        Ok(LightId("L3".to_string()))
    );
    assert_eq!(
        resolve_light(received(200, body), "attic"),
        Err(HueError::LightNotFound("attic".to_string()))
    );
    assert_eq!(
        resolve_light(received(200, body), "kitchen")
            .unwrap_err()
            .kind(),
        ErrorKind::Resolution
    );
}

#[test]
fn a_failed_listing_is_handed_on_by_the_resolver() {
    assert_eq!(
        resolve_light(TransportReply::Failed("timed out".to_string()), "L1"),
        Err(HueError::Network("timed out".to_string()))
    );
    assert_eq!(
        resolve_light(received(401, "{}"), "L1"),
        Err(HueError::Status(HttpMethod::Get, 401))
    );
    assert_eq!(resolve_light(received(200, "L1"), "L1"), Err(HueError::NotJson));
    assert_eq!(
        resolve_light(received(200, r#"["L1"]"#), "L1"),
        Err(HueError::Malformed(Shape::DeviceEnvelope))
    );
    assert_eq!(
        resolve_light(
            received(
                200,
                r#"{"errors": [{"type": 1, "address": "/", "description": "denied"}], "data": []}"#
            ),
            "L1"
        ),
        Err(HueError::Api(
            Operation::ListDevices,
            HueApiErrorMessage {
                type_value: 1,
                address: "/".to_string(),
                description: "denied".to_string(),
            }
        ))
    );
}

#[test]
fn a_listing_with_a_wrong_shape_is_a_protocol_error() {
    let actual = list_devices(received(200, "[]"));
    assert_eq!(actual, Err(HueError::Malformed(Shape::DeviceEnvelope)));
    assert_eq!(actual.unwrap_err().kind(), ErrorKind::Protocol);
}

#[test]
fn the_bridge_address_must_be_given_and_not_empty() {
    assert_eq!(BridgeIp::new(Some("192.168.1.10")), Ok(bridge()));
    assert_eq!(
        BridgeIp::new(Some("hue.local")),
        Ok(BridgeIp("hue.local".to_string()))
    );
    assert_eq!(
        BridgeIp::new(Some("")),
        Err(HueError::Usage(UsageFault::MissingBridge))
    );
    assert_eq!(
        BridgeIp::new(None),
        Err(HueError::Usage(UsageFault::MissingBridge))
    );
}

#[test]
fn exactly_one_of_on_and_off_is_needed() {
    assert_eq!(select_power(true, false), Ok(true));
    assert_eq!(select_power(false, true), Ok(false));
    assert_eq!(
        select_power(true, true),
        Err(HueError::Usage(UsageFault::PowerState))
    );
    assert_eq!(
        select_power(false, false),
        Err(HueError::Usage(UsageFault::PowerState))
    );
    assert_eq!(
        HueError::Usage(UsageFault::PowerState).kind(),
        ErrorKind::Usage
    );
}
