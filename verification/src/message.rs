//! The one-line text of a failure, for a person to read.

use vstd::prelude::*;
use vstd::string::StringExecFns;
use crate::error::{ApiErrorModel, CandidateModel, HttpMethod, HueApiErrorMessage, HueError, HueErrorModel, LightCandidate, Operation, Shape, UsageFault, candidate_models};

verus! {

/// The character of a decimal digit.
pub open spec fn digit_char(d: nat) -> char
    recommends
        d < 10,
{
    "0123456789"@[d as int]
}

/// The decimal digits of a natural number, without leading zeros.
pub open spec fn digits_of(n: nat) -> Seq<char>
    decreases n,
{
    if n < 10 {
        seq![digit_char(n)]
    } else {
        digits_of(n / 10).push(digit_char(n % 10))
    }
}

/// An integer in decimal, with `-` before a negative one.
pub open spec fn decimal_of(n: int) -> Seq<char> {
    if n < 0 {
        seq!['-'] + digits_of((-n) as nat)
    } else {
        digits_of(n as nat)
    }
}

/// A text as the `Debug` form of `str` shows it: between double quotes, with
/// the characters escaped that `char::escape_debug` escapes.
pub uninterp spec fn debug_form_of(text: Seq<char>) -> Seq<char>;

/// Calls `i64::to_string`. Trusted: the result is the number in decimal.
#[verifier::external_body]
fn decimal_text(n: i64) -> (r: String)
    ensures
        r@ == decimal_of(n as int),
{
    n.to_string()
}

/// Formats a `str` with `{:?}`. Trusted: the result is the `Debug` form of
/// the text, a function of its characters alone.
#[verifier::external_body]
fn debug_text(text: &str) -> (r: String)
    ensures
        r@ == debug_form_of(text@),
{
    format!("{:?}", text)
}

/// The name of a method as it goes over the wire.
pub open spec fn method_name(method: HttpMethod) -> Seq<char> {
    match method {
        HttpMethod::Get => "GET"@,
        HttpMethod::Post => "POST"@,
        HttpMethod::Put => "PUT"@,
    }
}

/// What is said of a part of an answer that has a wrong shape.
pub open spec fn shape_text(shape: Shape) -> Seq<char> {
    match shape {
        Shape::ErrorDetails => "Could not read the details of an error in the response."@,
        Shape::SuccessEnvelope => "Could not create key. The response is not an array of one object."@,
        Shape::SuccessMissing => "Could not create key. success element not found in response array."@,
        Shape::SuccessDetails => "Could not create key. username not found in success element."@,
        Shape::DeviceEnvelope => "Could not list devices. The response is not an object with errors and data."@,
        Shape::DeviceEntry => "Could not list devices. A device in the response cannot be read."@,
        Shape::LightEnvelope => "Could not set light state. The response is not an object with errors and data."@,
    }
}

/// What is said of an operation that the bridge answered with an error.
pub open spec fn operation_text(operation: Operation) -> Seq<char> {
    match operation {
        Operation::CreateKey => "Could not create key."@,
        Operation::ListDevices => "Response has errors"@,
        Operation::SetLightState => "Could not set light state."@,
    }
}

/// What is said of a wrong invocation.
pub open spec fn usage_text(fault: UsageFault) -> Seq<char> {
    match fault {
        UsageFault::MissingBridge => "No Hue Bridge IP address provided."@,
        UsageFault::MissingSubcommand => "No subcommand provided. Please provide a subcommand."@,
        UsageFault::PowerState => "Must specify either --on or --off"@,
    }
}

/// An error of the bridge with its three fields.
pub open spec fn api_error_text(error: ApiErrorModel) -> Seq<char> {
    "HueApiErrorMessage { type_value: "@ + decimal_of(error.type_value as int) + ", address: "@
        + debug_form_of(error.address) + ", description: "@ + debug_form_of(error.description)
        + " }"@
}

/// A candidate as `name (device identifier)`.
pub open spec fn candidate_text(candidate: CandidateModel) -> Seq<char> {
    candidate.name + " ("@ + candidate.device_id + ")"@
}

/// The candidates, each as [`candidate_text`], with `, ` between them.
pub open spec fn candidates_text(candidates: Seq<CandidateModel>) -> Seq<char>
    decreases candidates.len(),
{
    if candidates.len() == 0 {
        Seq::empty()
    } else if candidates.len() == 1 {
        candidate_text(candidates[0])
    } else {
        candidates_text(candidates.drop_last()) + ", "@ + candidate_text(candidates.last())
    }
}

/// The text of a failure. Where the bridge reported an error, the error
/// follows the text behind ` :: `.
pub open spec fn message_of(error: HueErrorModel) -> Seq<char> {
    match error {
        HueErrorModel::Network(cause) => cause,
        HueErrorModel::Status(method, status) => "Failed to send "@ + method_name(method)
            + " request to Hue Bridge: "@ + decimal_of(status as int),
        HueErrorModel::NotJson => "The response of the Hue Bridge is not JSON."@,
        HueErrorModel::Malformed(shape) => shape_text(shape),
        HueErrorModel::Api(operation, error) => operation_text(operation) + " :: "@
            + api_error_text(error),
        HueErrorModel::LightNotFound(token) => "No light found with ID or name matching '"@ + token
            + "'"@,
        HueErrorModel::AmbiguousLight(token, candidates) => "Multiple lights found matching '"@
            + token + "'. Please be more specific or use the light ID directly: "@
            + candidates_text(candidates),
        HueErrorModel::Usage(fault) => usage_text(fault),
    }
}

impl HueApiErrorMessage {
    /// The error with its three fields, as text.
    pub fn message(&self) -> (r: String)
        ensures
            r@ == api_error_text(self@),
    {
        let mut out = "HueApiErrorMessage { type_value: ".to_owned();
        out.append(decimal_text(self.type_value).as_str());
        out.append(", address: ");
        out.append(debug_text(self.address.as_str()).as_str());
        out.append(", description: ");
        out.append(debug_text(self.description.as_str()).as_str());
        out.append(" }");
        out
    }
}

fn method_text(method: HttpMethod) -> (r: &'static str)
    ensures
        r@ == method_name(method),
{
    match method {
        HttpMethod::Get => "GET",
        HttpMethod::Post => "POST",
        HttpMethod::Put => "PUT",
    }
}

fn shape_message(shape: Shape) -> (r: &'static str)
    ensures
        r@ == shape_text(shape),
{
    match shape {
        Shape::ErrorDetails => "Could not read the details of an error in the response.",
        Shape::SuccessEnvelope => "Could not create key. The response is not an array of one object.",
        Shape::SuccessMissing => "Could not create key. success element not found in response array.",
        Shape::SuccessDetails => "Could not create key. username not found in success element.",
        Shape::DeviceEnvelope => "Could not list devices. The response is not an object with errors and data.",
        Shape::DeviceEntry => "Could not list devices. A device in the response cannot be read.",
        Shape::LightEnvelope => "Could not set light state. The response is not an object with errors and data.",
    }
}

fn operation_message(operation: Operation) -> (r: &'static str)
    ensures
        r@ == operation_text(operation),
{
    match operation {
        Operation::CreateKey => "Could not create key.",
        Operation::ListDevices => "Response has errors",
        Operation::SetLightState => "Could not set light state.",
    }
}

fn usage_message(fault: UsageFault) -> (r: &'static str)
    ensures
        r@ == usage_text(fault),
{
    match fault {
        UsageFault::MissingBridge => "No Hue Bridge IP address provided.",
        UsageFault::MissingSubcommand => "No subcommand provided. Please provide a subcommand.",
        UsageFault::PowerState => "Must specify either --on or --off",
    }
}

/// Lists the candidates as `name (device identifier)`, with `, ` between
/// them.
pub fn candidates_message(candidates: &Vec<LightCandidate>) -> (r: String)
    ensures
        r@ == candidates_text(candidate_models(candidates@)),
{
    let mut out = String::new();
    let mut i: usize = 0;
    while i < candidates.len()
        invariant
            i <= candidates.len(),
            out@ == candidates_text(candidate_models(candidates@).take(i as int)),
        decreases candidates.len() - i,
    {
        let ghost models = candidate_models(candidates@);
        let ghost before = out@;
        proof {
            assert(models.take(i + 1).drop_last() =~= models.take(i as int));
            assert(models.take(i + 1).last() == candidates@[i as int]@);
        }
        if i > 0 {
            out.append(", ");
        }
        out.append(candidates[i].name.as_str());
        out.append(" (");
        out.append(candidates[i].device_id.as_str());
        out.append(")");
        proof {
            let one = candidate_text(candidates@[i as int]@);
            if i > 0 {
                assert(out@ =~= before + ", "@ + one);
            } else {
                assert(before =~= Seq::<char>::empty());
                assert(out@ =~= one);
            }
        }
        i += 1;
    }
    assert(candidate_models(candidates@).take(candidates.len() as int) =~= candidate_models(
        candidates@,
    ));
    out
}

impl HueError {
    /// The failure as one line of text.
    pub fn message(&self) -> (r: String)
        ensures
            r@ == message_of(self@),
    {
        match self {
            HueError::Network(cause) => cause.clone(),
            HueError::Status(method, status) => {
                let mut out = "Failed to send ".to_owned();
                out.append(method_text(*method));
                out.append(" request to Hue Bridge: ");
                out.append(decimal_text(*status as i64).as_str());
                out
            },
            HueError::NotJson => "The response of the Hue Bridge is not JSON.".to_owned(),
            HueError::Malformed(shape) => shape_message(*shape).to_owned(),
            HueError::Api(operation, error) => {
                let mut out = operation_message(*operation).to_owned();
                out.append(" :: ");
                out.append(error.message().as_str());
                out
            },
            HueError::LightNotFound(token) => {
                let mut out = "No light found with ID or name matching '".to_owned();
                out.append(token.as_str());
                out.append("'");
                out
            },
            HueError::AmbiguousLight(token, candidates) => {
                let mut out = "Multiple lights found matching '".to_owned();
                out.append(token.as_str());
                out.append("'. Please be more specific or use the light ID directly: ");
                out.append(candidates_message(candidates).as_str());
                out
            },
            HueError::Usage(fault) => usage_message(*fault).to_owned(),
        }
    }
}

} // verus!
