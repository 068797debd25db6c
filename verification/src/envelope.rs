//! The two envelopes in which the bridge answers: an array of `success` and
//! `error` objects, and an object with the arrays `errors` and `data`.

use vstd::prelude::*;
use crate::device::{DeviceInfo, DeviceModel, HueDevice, LightId, device_models};
use crate::error::{ApiErrorModel, HueApiErrorMessage, HueError, HueErrorModel, Operation, Shape, result_model};
use crate::json::{Json, decode_all, option_model};
use crate::seq_laws::{lemma_filter_map_none, lemma_filter_map_position};

verus! {

/// The values of a sequence of reported errors.
pub open spec fn error_models(errors: Seq<HueApiErrorMessage>) -> Seq<ApiErrorModel> {
    errors.map_values(|e: HueApiErrorMessage| e@)
}

/// The error that the details under an `error` key describe: an object
/// with an integer `type` and the strings `address` and `description`.
pub open spec fn api_error_of(details: Json) -> Option<ApiErrorModel> {
    match (
        details.member_int("type"@),
        details.member_text("address"@),
        details.member_text("description"@),
    ) {
        (Some(type_value), Some(address), Some(description)) => Some(
            ApiErrorModel { type_value, address, description },
        ),
        _ => None,
    }
}

/// [`api_error_of`] as a function value.
pub open spec fn api_error_fn() -> spec_fn(Json) -> Option<ApiErrorModel> {
    |details: Json| api_error_of(details)
}

/// The element is an object with an `error` key.
pub open spec fn bears_error(element: Json) -> bool {
    element.member("error"@) is Some
}

/// The error that an element of the array envelope reports, if it bears one.
pub open spec fn error_entry(element: Json) -> Option<ApiErrorModel> {
    match element.member("error"@) {
        Some(details) => api_error_of(details),
        None => None,
    }
}

/// [`error_entry`] as a function value.
pub open spec fn error_entry_fn() -> spec_fn(Json) -> Option<ApiErrorModel> {
    |element: Json| error_entry(element)
}

/// Each element that bears an error has details that can be decoded.
pub open spec fn entries_decodable(items: Seq<Json>) -> bool {
    forall|i: int| 0 <= i < items.len() && bears_error(#[trigger] items[i]) ==> error_entry(
        items[i],
    ) is Some
}

/// The errors that the elements of an array envelope report, in input order.
pub open spec fn legacy_errors(items: Seq<Json>) -> Seq<ApiErrorModel> {
    items.filter_map(error_entry_fn())
}

/// The response is no array, or each of its elements that bears an error
/// has details that can be decoded.
pub open spec fn errors_decodable(response: Json) -> bool {
    match response.items() {
        Some(items) => entries_decodable(items),
        None => true,
    }
}

/// The errors that a response in the array envelope reports. A response that
/// is no array reports none.
pub open spec fn api_errors_of(response: Json) -> Seq<ApiErrorModel> {
    match response.items() {
        Some(items) => legacy_errors(items),
        None => Seq::empty(),
    }
}

/// Decodes the details under an `error` key.
pub fn decode_api_error(details: &Json) -> (r: Option<HueApiErrorMessage>)
    ensures
        option_model(r) == api_error_of(*details),
{
    let type_value = details.get_int("type");
    let address = details.get_text("address");
    let description = details.get_text("description");
    match (type_value, address, description) {
        (Some(type_value), Some(address), Some(description)) => Some(
            HueApiErrorMessage { type_value, address, description },
        ),
        _ => None,
    }
}

/// Extracts the errors of a response in the array envelope, or `None` where
/// the details of one of them cannot be decoded.
pub fn checked_api_response_errors(response: &Json) -> (r: Option<Vec<HueApiErrorMessage>>)
    ensures
        r is Some <==> errors_decodable(*response),
        r matches Some(errors) ==> error_models(errors@) == api_errors_of(*response),
{
    let mut errors: Vec<HueApiErrorMessage> = Vec::new();
    if let Some(items) = response.as_array() {
        let mut i: usize = 0;
        while i < items.len()
            invariant
                i <= items.len(),
                response.items() == Some(items@),
                entries_decodable(items@.take(i as int)),
                error_models(errors@) == legacy_errors(items@.take(i as int)),
            decreases items.len() - i,
        {
            proof {
                assert(items@.take(i + 1).drop_last() =~= items@.take(i as int));
                assert(items@.take(i + 1).last() == items@[i as int]);
            }
            let ghost before = errors@;
            if let Some(details) = items[i].get("error") {
                match decode_api_error(details) {
                    Some(error) => {
                        errors.push(error);
                        assert(error_models(errors@) =~= error_models(before) + seq![error@]);
                    },
                    None => {
                        assert(bears_error(items@[i as int]) && error_entry(items@[i as int]) is None);
                        return None;
                    },
                }
            }
            assert forall|j: int|
                0 <= j < i + 1 && bears_error(#[trigger] items@.take(i + 1)[j]) implies error_entry(
                items@.take(i + 1)[j],
            ) is Some by {
                if j < i {
                    assert(items@.take(i as int)[j] == items@.take(i + 1)[j]);
                }
            }
            i += 1;
        }
        assert(items@.take(items.len() as int) =~= items@);
    }
    Some(errors)
}

/// Extracts the errors of a response in the array envelope.
///
/// Each element of the array that is an object with an `error` key gives one
/// error, in input order; every other element gives nothing. A response that
/// is no array gives no error.
pub fn parse_api_response_errors(response: &Json) -> (r: Vec<HueApiErrorMessage>)
    requires
        errors_decodable(*response),
    ensures
        error_models(r@) == api_errors_of(*response),
{
    match checked_api_response_errors(response) {
        Some(errors) => errors,
        None => vstd::pervasive::unreached(),
    }
}

/// The details of a created key, in the wire format `{"username": ..}`.
#[derive(Clone, Debug, PartialEq)]
pub struct HueApiCreateKeySuccessDetails {
    pub user_name: String,
}

impl View for HueApiCreateKeySuccessDetails {
    type V = Seq<char>;

    open spec fn view(&self) -> Seq<char> {
        self.user_name@
    }
}

/// What the single element of an error-free answer to a key creation gives:
/// the `username` under its `success` key.
pub open spec fn success_entry(element: Json) -> Result<Seq<char>, HueErrorModel> {
    if !(element is Object) {
        Err(HueErrorModel::Malformed(Shape::SuccessEnvelope))
    } else {
        match element.member("success"@) {
            None => Err(HueErrorModel::Malformed(Shape::SuccessMissing)),
            Some(details) => match details.member_text("username"@) {
                Some(user_name) => Ok(user_name),
                None => Err(HueErrorModel::Malformed(Shape::SuccessDetails)),
            },
        }
    }
}

/// What an answer to a key creation gives. A reported error makes it fail,
/// whatever else the answer holds; the first one is the cause.
pub open spec fn create_key_outcome(response: Json) -> Result<Seq<char>, HueErrorModel> {
    if !errors_decodable(response) {
        Err(HueErrorModel::Malformed(Shape::ErrorDetails))
    } else if api_errors_of(response).len() > 0 {
        Err(HueErrorModel::Api(Operation::CreateKey, api_errors_of(response)[0]))
    } else {
        match response.items() {
            Some(items) if items.len() == 1 => success_entry(items[0]),
            _ => Err(HueErrorModel::Malformed(Shape::SuccessEnvelope)),
        }
    }
}

/// Interprets the answer to a key creation.
///
/// An answer that reports errors fails with the first of them. Otherwise
/// the answer must be an array of exactly one object, whose `success` key
/// holds the `username` that is returned.
pub fn parse_create_key_response(response: &Json) -> (r: Result<
    HueApiCreateKeySuccessDetails,
    HueError,
>)
    ensures
        result_model(r) == create_key_outcome(*response),
{
    let mut errors = match checked_api_response_errors(response) {
        Some(errors) => errors,
        None => { return Err(HueError::Malformed(Shape::ErrorDetails)); },
    };
    if errors.len() > 0 {
        let first = errors.swap_remove(0);
        return Err(HueError::Api(Operation::CreateKey, first));
    }
    match response.as_array() {
        Some(items) => {
            if items.len() != 1 {
                return Err(HueError::Malformed(Shape::SuccessEnvelope));
            }
            match &items[0] {
                Json::Object(_) => match items[0].get("success") {
                    None => Err(HueError::Malformed(Shape::SuccessMissing)),
                    Some(details) => match details.get_text("username") {
                        Some(user_name) => Ok(HueApiCreateKeySuccessDetails { user_name }),
                        None => Err(HueError::Malformed(Shape::SuccessDetails)),
                    },
                },
                _ => Err(HueError::Malformed(Shape::SuccessEnvelope)),
            }
        },
        None => Err(HueError::Malformed(Shape::SuccessEnvelope)),
    }
}

/// One service of a device, in the wire format `{"rid": .., "rtype": ..}`.
pub struct ServiceModel {
    pub rid: Seq<char>,
    pub rtype: Seq<char>,
}

/// The service that an entry of a device's `services` describes.
pub open spec fn service_of(entry: Json) -> Option<ServiceModel> {
    match (entry.member_text("rid"@), entry.member_text("rtype"@)) {
        (Some(rid), Some(rtype)) => Some(ServiceModel { rid, rtype }),
        _ => None,
    }
}

/// [`service_of`] as a function value.
pub open spec fn service_fn() -> spec_fn(Json) -> Option<ServiceModel> {
    |entry: Json| service_of(entry)
}

/// The identifier of the first service of type `light`, if there is one.
pub open spec fn light_service_of(services: Seq<ServiceModel>) -> Option<Seq<char>>
    decreases services.len(),
{
    if services.len() == 0 {
        None
    } else {
        match light_service_of(services.drop_last()) {
            Some(rid) => Some(rid),
            None => if services.last().rtype == "light"@ {
                Some(services.last().rid)
            } else {
                None
            },
        }
    }
}

/// The services of a device, from the array under its `services` key.
pub open spec fn services_of(entry: Json) -> Option<Seq<ServiceModel>> {
    match entry.member("services"@) {
        Some(Json::Array(services)) => decode_all(services@, service_fn()),
        _ => None,
    }
}

/// The device that an entry of `data` describes: an object with the string
/// `id`, the strings `model_id` and `product_name` under `product_data`, the
/// string `name` under `metadata`, and the array `services`.
pub open spec fn device_of(entry: Json) -> Option<DeviceModel> {
    match (
        entry.member_text("id"@),
        entry.member("product_data"@),
        entry.member("metadata"@),
        services_of(entry),
    ) {
        (Some(id), Some(product_data), Some(metadata), Some(services)) => match (
            product_data.member_text("model_id"@),
            product_data.member_text("product_name"@),
            metadata.member_text("name"@),
        ) {
            (Some(_), Some(product_name), Some(name)) => Some(
                DeviceModel { id, name, product_name, light_id: light_service_of(services) },
            ),
            _ => None,
        },
        _ => None,
    }
}

/// The value of the result of a listing: the values of the devices, or that
/// of the failure.
pub open spec fn listing_model(r: Result<Vec<HueDevice>, HueError>) -> Result<
    Seq<DeviceModel>,
    HueErrorModel,
> {
    match r {
        Ok(devices) => Ok(device_models(devices@)),
        Err(e) => Err(e@),
    }
}

/// [`device_of`] as a function value.
pub open spec fn device_fn() -> spec_fn(Json) -> Option<DeviceModel> {
    |entry: Json| device_of(entry)
}

/// What an answer to a device listing gives. A reported error makes it
/// fail, whatever `data` holds; the first one is the cause.
pub open spec fn device_list_outcome(response: Json) -> Result<Seq<DeviceModel>, HueErrorModel> {
    match (response.member("errors"@), response.member("data"@)) {
        (Some(Json::Array(errors)), Some(Json::Array(data))) => match decode_all(
            errors@,
            api_error_fn(),
        ) {
            None => Err(HueErrorModel::Malformed(Shape::ErrorDetails)),
            Some(reported) => if reported.len() > 0 {
                Err(HueErrorModel::Api(Operation::ListDevices, reported[0]))
            } else {
                match decode_all(data@, device_fn()) {
                    Some(devices) => Ok(devices),
                    None => Err(HueErrorModel::Malformed(Shape::DeviceEntry)),
                }
            },
        },
        _ => Err(HueErrorModel::Malformed(Shape::DeviceEnvelope)),
    }
}

/// Decodes every entry of the `errors` array of an answer.
fn decode_errors(entries: &Vec<Json>) -> (r: Option<Vec<HueApiErrorMessage>>)
    ensures
        match r {
            Some(errors) => decode_all(entries@, api_error_fn()) == Some(error_models(errors@)),
            None => decode_all(entries@, api_error_fn()) is None,
        },
{
    let mut errors: Vec<HueApiErrorMessage> = Vec::new();
    let mut i: usize = 0;
    while i < entries.len()
        invariant
            i <= entries.len(),
            errors@.len() == i,
            forall|j: int| 0 <= j < i ==> #[trigger] api_error_fn()(entries@[j]) == Some(errors@[j]@),
        decreases entries.len() - i,
    {
        match decode_api_error(&entries[i]) {
            Some(error) => errors.push(error),
            None => {
                assert(api_error_fn()(entries@[i as int]) is None);
                return None;
            },
        }
        i += 1;
    }
    assert(entries@.map_values(|item: Json| api_error_fn()(item)->0) =~= error_models(errors@));
    Some(errors)
}

/// Decodes the `services` of a device and picks the first light among them.
/// The outer `None` says that the services cannot be decoded.
fn decode_light_service(entry: &Json) -> (r: Option<Option<LightId>>)
    ensures
        match r {
            Some(Some(light_id)) => services_of(*entry) is Some && light_service_of(
                services_of(*entry)->0,
            ) == Some(light_id@),
            Some(None) => services_of(*entry) is Some && light_service_of(
                services_of(*entry)->0,
            ) is None,
            None => services_of(*entry) is None,
        },
{
    let services = match entry.get("services") {
        Some(Json::Array(services)) => services,
        _ => { return None; },
    };
    let light = "light".to_owned();
    let mut found: Option<LightId> = None;
    let ghost mut seen: Seq<ServiceModel> = Seq::empty();
    let mut i: usize = 0;
    while i < services.len()
        invariant
            i <= services.len(),
            light@ == "light"@,
            services_of(*entry) == decode_all(services@, service_fn()),
            seen.len() == i,
            forall|j: int| 0 <= j < i ==> #[trigger] service_fn()(services@[j]) == Some(seen[j]),
            match found {
                Some(light_id) => light_service_of(seen) == Some(light_id@),
                None => light_service_of(seen) is None,
            },
        decreases services.len() - i,
    {
        let rid = services[i].get_text("rid");
        let rtype = services[i].get_text("rtype");
        match (rid, rtype) {
            (Some(rid), Some(rtype)) => {
                proof {
                    let service = ServiceModel { rid: rid@, rtype: rtype@ };
                    assert(seen.push(service).drop_last() =~= seen);
                    seen = seen.push(service);
                }
                if found.is_none() && rtype == light {
                    found = Some(LightId(rid));
                }
            },
            _ => {
                assert(service_fn()(services@[i as int]) is None);
                return None;
            },
        }
        i += 1;
    }
    assert(services@.map_values(|item: Json| service_fn()(item)->0) =~= seen);
    Some(found)
}

/// Decodes one entry of the `data` array of a device listing.
pub fn decode_device(entry: &Json) -> (r: Option<HueDevice>)
    ensures
        option_model(r) == device_of(*entry),
{
    let id = entry.get_text("id");
    let product_data = entry.get("product_data");
    let metadata = entry.get("metadata");
    let light = decode_light_service(entry);
    match (id, product_data, metadata, light) {
        (Some(id), Some(product_data), Some(metadata), Some(light_id)) => {
            let model_id = product_data.get_text("model_id");
            let product_name = product_data.get_text("product_name");
            let name = metadata.get_text("name");
            match (model_id, product_name, name) {
                (Some(_), Some(product_name), Some(name)) => Some(
                    HueDevice(DeviceInfo { id, name, product_name, light_id }),
                ),
                _ => None,
            }
        },
        _ => None,
    }
}

/// Decodes every entry of the `data` array of a device listing.
fn decode_devices(entries: &Vec<Json>) -> (r: Option<Vec<HueDevice>>)
    ensures
        match r {
            Some(devices) => decode_all(entries@, device_fn()) == Some(device_models(devices@)),
            None => decode_all(entries@, device_fn()) is None,
        },
{
    let mut devices: Vec<HueDevice> = Vec::new();
    let mut i: usize = 0;
    while i < entries.len()
        invariant
            i <= entries.len(),
            devices@.len() == i,
            forall|j: int| 0 <= j < i ==> #[trigger] device_fn()(entries@[j]) == Some(devices@[j]@),
        decreases entries.len() - i,
    {
        match decode_device(&entries[i]) {
            Some(device) => devices.push(device),
            None => {
                assert(device_fn()(entries@[i as int]) is None);
                return None;
            },
        }
        i += 1;
    }
    assert(entries@.map_values(|item: Json| device_fn()(item)->0) =~= device_models(devices@));
    Some(devices)
}

/// Interprets the answer to a device listing.
///
/// The answer must be an object with the arrays `errors` and `data`. If it
/// reports errors it fails with the first of them and `data` is not looked
/// at. Otherwise each entry of `data` gives one device, in input order, with
/// the first of its services of type `light` as its light.
pub fn parse_list_devices_response(json_response: &Json) -> (r: Result<Vec<HueDevice>, HueError>)
    ensures
        listing_model(r) == device_list_outcome(*json_response),
{
    match (json_response.get("errors"), json_response.get("data")) {
        (Some(Json::Array(errors)), Some(Json::Array(data))) => {
            let mut reported = match decode_errors(errors) {
                Some(reported) => reported,
                None => { return Err(HueError::Malformed(Shape::ErrorDetails)); },
            };
            if reported.len() > 0 {
                let first = reported.swap_remove(0);
                return Err(HueError::Api(Operation::ListDevices, first));
            }
            match decode_devices(data) {
                Some(devices) => Ok(devices),
                None => Err(HueError::Malformed(Shape::DeviceEntry)),
            }
        },
        _ => Err(HueError::Malformed(Shape::DeviceEnvelope)),
    }
}

/// What an answer to a change of a light's state gives. A reported error
/// makes it fail, whatever `data` holds; the first one is the cause.
pub open spec fn light_state_outcome(response: Json) -> Result<(), HueErrorModel> {
    match (response.member("errors"@), response.member("data"@)) {
        (Some(Json::Array(errors)), Some(Json::Array(_))) => match decode_all(
            errors@,
            api_error_fn(),
        ) {
            None => Err(HueErrorModel::Malformed(Shape::ErrorDetails)),
            Some(reported) => if reported.len() > 0 {
                Err(HueErrorModel::Api(Operation::SetLightState, reported[0]))
            } else {
                Ok(())
            },
        },
        _ => Err(HueErrorModel::Malformed(Shape::LightEnvelope)),
    }
}

/// Interprets the answer to a change of a light's state.
///
/// The answer must be an object with the arrays `errors` and `data`. If it
/// reports errors it fails with the first of them; otherwise the change
/// was made. What `data` holds is not looked at.
pub fn parse_control_light_response(json_response: &Json) -> (r: Result<(), HueError>)
    ensures
        result_model(r) == light_state_outcome(*json_response),
{
    match (json_response.get("errors"), json_response.get("data")) {
        (Some(Json::Array(errors)), Some(Json::Array(_))) => {
            let mut reported = match decode_errors(errors) {
                Some(reported) => reported,
                None => { return Err(HueError::Malformed(Shape::ErrorDetails)); },
            };
            if reported.len() > 0 {
                let first = reported.swap_remove(0);
                return Err(HueError::Api(Operation::SetLightState, first));
            }
            Ok(())
        },
        _ => Err(HueError::Malformed(Shape::LightEnvelope)),
    }
}

/// [`bears_error`] as a function value.
pub open spec fn bears_error_fn() -> spec_fn(Json) -> bool {
    |element: Json| bears_error(element)
}

/// A response that is no array reports no error.
pub proof fn law_non_array_reports_nothing(response: Json)
    requires
        response.items() is None,
    ensures
        errors_decodable(response),
        api_errors_of(response) == Seq::<ApiErrorModel>::empty(),
{
}

/// An element that bears an error gives that error, and it stands behind
/// the errors of the elements before it: the errors keep the input order.
pub proof fn law_errors_keep_input_order(items: Seq<Json>, i: int)
    requires
        0 <= i < items.len(),
        error_entry(items[i]) is Some,
    ensures
        ({
            let before = legacy_errors(items.take(i)).len() as int;
            &&& before < legacy_errors(items).len()
            &&& legacy_errors(items)[before] == error_entry(items[i])->0
            &&& legacy_errors(items.take(i + 1)).len() == before + 1
        }),
{
    lemma_filter_map_position(items, error_entry_fn(), i);
}

/// An element without an `error` key gives nothing.
pub proof fn law_other_elements_give_nothing(items: Seq<Json>, element: Json)
    requires
        !bears_error(element),
    ensures
        legacy_errors(items.push(element)) == legacy_errors(items),
{
    assert(items.push(element).drop_last() =~= items);
}

/// Elements of which none bears an error give no error at all.
pub proof fn law_no_bearer_no_error(items: Seq<Json>)
    requires
        forall|i: int| 0 <= i < items.len() ==> !bears_error(#[trigger] items[i]),
    ensures
        legacy_errors(items) == Seq::<ApiErrorModel>::empty(),
{
    assert forall|i: int| 0 <= i < items.len() implies error_entry_fn()(#[trigger] items[i])
        is None by {
        assert(!bears_error(items[i]));
    }
    lemma_filter_map_none(items, error_entry_fn());
    assert(legacy_errors(items) =~= Seq::<ApiErrorModel>::empty());
}

/// There is one error for each element that bears one.
pub proof fn law_one_error_per_bearer(items: Seq<Json>)
    requires
        entries_decodable(items),
    ensures
        legacy_errors(items).len() == items.filter(bears_error_fn()).len(),
    decreases items.len(),
{
    reveal(Seq::filter);
    if items.len() > 0 {
        let rest = items.drop_last();
        assert forall|i: int| 0 <= i < rest.len() && bears_error(#[trigger] rest[i]) implies error_entry(
            rest[i],
        ) is Some by {
            assert(rest[i] == items[i]);
        }
        law_one_error_per_bearer(rest);
        if bears_error(items.last()) {
            assert(error_entry(items[items.len() - 1]) is Some);
        }
    }
}

/// An answer to a key creation that reports an error fails with the first
/// one, whatever else it holds.
pub proof fn law_reported_error_fails_key_creation(response: Json)
    requires
        errors_decodable(response),
        api_errors_of(response).len() > 0,
    ensures
        create_key_outcome(response) == Err::<Seq<char>, HueErrorModel>(
            HueErrorModel::Api(Operation::CreateKey, api_errors_of(response)[0]),
        ),
{
}

/// An answer to a device listing whose `errors` array is not empty fails,
/// whatever stands under `data`.
pub proof fn law_reported_error_fails_listing(response: Json)
    requires
        response.member("errors"@) matches Some(Json::Array(errors)) && errors@.len() > 0,
    ensures
        device_list_outcome(response) is Err,
{
    if let Some(Json::Array(errors)) = response.member("errors"@) {
        if let Some(reported) = decode_all(errors@, api_error_fn()) {
            assert(reported.len() == errors@.len());
        }
    }
}

/// An answer to a change of a light's state whose `errors` array is not
/// empty fails, whatever stands under `data`.
pub proof fn law_reported_error_fails_light_state(response: Json)
    requires
        response.member("errors"@) matches Some(Json::Array(errors)) && errors@.len() > 0,
    ensures
        light_state_outcome(response) is Err,
{
    if let Some(Json::Array(errors)) = response.member("errors"@) {
        if let Some(reported) = decode_all(errors@, api_error_fn()) {
            assert(reported.len() == errors@.len());
        }
    }
}

/// The light of a device is its first service of type `light`.
pub proof fn law_first_light_service_wins(services: Seq<ServiceModel>, i: int)
    requires
        0 <= i < services.len(),
        services[i].rtype == "light"@,
        forall|j: int| 0 <= j < i ==> (#[trigger] services[j]).rtype != "light"@,
    ensures
        light_service_of(services) == Some(services[i].rid),
    decreases services.len(),
{
    if i == services.len() - 1 {
        law_no_light_service(services.drop_last());
    } else {
        law_first_light_service_wins(services.drop_last(), i);
    }
}

/// A device without a service of type `light` has no light.
pub proof fn law_no_light_service(services: Seq<ServiceModel>)
    requires
        forall|j: int| 0 <= j < services.len() ==> (#[trigger] services[j]).rtype != "light"@,
    ensures
        light_service_of(services) is None,
    decreases services.len(),
{
    if services.len() > 0 {
        law_no_light_service(services.drop_last());
    }
}

} // verus!
