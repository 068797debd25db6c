use philips_hue_lab::device::LightId;
use philips_hue_lab::error::{
    HttpMethod, HueApiErrorMessage, HueError, LightCandidate, Operation, Shape, UsageFault,
};
use philips_hue_lab::message::candidates_message;
use philips_hue_lab::transport::AppKey;

fn candidate(name: &str, device_id: &str, light_id: &str) -> LightCandidate {
    LightCandidate {
        name: name.to_string(),
        device_id: device_id.to_string(),
        light_id: LightId(light_id.to_string()),
    }
}

fn link_button() -> HueApiErrorMessage {
    HueApiErrorMessage {
        type_value: 101,
        address: "/".to_string(),
        description: "link button not pressed".to_string(),
    }
}

#[test]
fn a_reported_error_shows_its_three_fields() {
    assert_eq!(
        link_button().message(),
        "HueApiErrorMessage { type_value: 101, address: \"/\", description: \"link button not pressed\" }"
    );
    let odd = HueApiErrorMessage {
        type_value: -7,
        address: "a\"b".to_string(),
        description: "line\nbreak\\".to_string(),
    };
    assert_eq!(
        odd.message(),
        "HueApiErrorMessage { type_value: -7, address: \"a\\\"b\", description: \"line\\nbreak\\\\\" }"
    );
    let least = HueApiErrorMessage {
        type_value: i64::MIN,
        address: String::new(),
        description: String::new(),
    };
    assert_eq!(
        least.message(),
        "HueApiErrorMessage { type_value: -9223372036854775808, address: \"\", description: \"\" }"
    );
}

#[test]
fn the_cause_follows_the_text_of_an_api_failure() {
    assert_eq!(
        HueError::Api(Operation::CreateKey, link_button()).message(),
        "Could not create key. :: HueApiErrorMessage { type_value: 101, address: \"/\", description: \"link button not pressed\" }"
    );
    assert_eq!(
        HueError::Api(Operation::SetLightState, link_button()).message(),
        "Could not set light state. :: HueApiErrorMessage { type_value: 101, address: \"/\", description: \"link button not pressed\" }"
    );
    assert_eq!(
        HueError::Api(Operation::ListDevices, link_button()).message(),
        "Response has errors :: HueApiErrorMessage { type_value: 101, address: \"/\", description: \"link button not pressed\" }"
    );
}

#[test]
fn a_status_failure_names_method_and_status() {
    assert_eq!(
        HueError::Status(HttpMethod::Get, 404).message(),
        "Failed to send GET request to Hue Bridge: 404"
    );
    assert_eq!(
        HueError::Status(HttpMethod::Post, 0).message(),
        "Failed to send POST request to Hue Bridge: 0"
    );
    assert_eq!(
        HueError::Status(HttpMethod::Put, 65535).message(),
        "Failed to send PUT request to Hue Bridge: 65535"
    );
    assert_eq!(
        HueError::Network("connection refused".to_string()).message(),
        "connection refused"
    );
    assert_eq!(
        HueError::NotJson.message(),
        "The response of the Hue Bridge is not JSON."
    );
}

#[test]
fn a_resolution_failure_names_the_token() {
    assert_eq!(
        HueError::LightNotFound("bedroom".to_string()).message(),
        "No light found with ID or name matching 'bedroom'"
    );
    assert_eq!(
        HueError::AmbiguousLight(
            "kitchen".to_string(),
            vec![
                candidate("Kitchen Left", "D1", "L1"),
                candidate("Kitchen Right", "D2", "L2"),
            ]
        )
        .message(),
        "Multiple lights found matching 'kitchen'. Please be more specific or use the light ID directly: Kitchen Left (D1), Kitchen Right (D2)"
    );
}

#[test]
fn candidates_are_joined_with_commas() {
    assert_eq!(candidates_message(&vec![]), "");
    assert_eq!(candidates_message(&vec![candidate("A", "1", "x")]), "A (1)");
    assert_eq!(
        candidates_message(&vec![
            candidate("A", "1", "x"),
            candidate("B", "2", "y"),
            candidate("C", "3", "z"),
        ]),
        "A (1), B (2), C (3)"
    );
}

#[test]
fn shapes_and_usage_faults_have_their_texts() {
    assert_eq!(
        HueError::Malformed(Shape::SuccessMissing).message(),
        "Could not create key. success element not found in response array."
    );
    assert_eq!(
        HueError::Malformed(Shape::ErrorDetails).message(),
        "Could not read the details of an error in the response."
    );
    assert_eq!(
        HueError::Malformed(Shape::SuccessEnvelope).message(),
        "Could not create key. The response is not an array of one object."
    );
    assert_eq!(
        HueError::Malformed(Shape::SuccessDetails).message(),
        "Could not create key. username not found in success element."
    );
    assert_eq!(
        HueError::Malformed(Shape::DeviceEnvelope).message(),
        "Could not list devices. The response is not an object with errors and data."
    );
    assert_eq!(
        HueError::Malformed(Shape::LightEnvelope).message(),
        "Could not set light state. The response is not an object with errors and data."
    );
    assert_eq!(
        HueError::Malformed(Shape::DeviceEntry).message(),
        "Could not list devices. A device in the response cannot be read."
    );
    assert_eq!(
        HueError::Usage(UsageFault::MissingBridge).message(),
        "No Hue Bridge IP address provided."
    );
    assert_eq!(
        HueError::Usage(UsageFault::MissingSubcommand).message(),
        "No subcommand provided. Please provide a subcommand."
    );
    assert_eq!(
        HueError::Usage(UsageFault::PowerState).message(),
        "Must specify either --on or --off"
    );
}

#[test]
fn keys_and_light_identifiers_convert_to_text() {
    assert_eq!(String::from(&AppKey("secret".to_string())), "secret");
    assert_eq!(String::from(&LightId("L1".to_string())), "L1");
}
