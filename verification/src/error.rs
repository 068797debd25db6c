//! The errors of the client, as a closed set of kinds with structured fields.

use vstd::prelude::*;
use crate::device::LightId;

verus! {

/// The HTTP methods that the client uses.
#[derive(Clone, Copy, Debug, PartialEq, Eq, Structural)]
pub enum HttpMethod {
    Get,
    Post,
    Put,
}

/// The operations of the client that the bridge can answer with errors.
#[derive(Clone, Copy, Debug, PartialEq, Eq, Structural)]
pub enum Operation {
    CreateKey,
    ListDevices,
    SetLightState,
}

/// The part of a response that did not have the expected shape.
#[derive(Clone, Copy, Debug, PartialEq, Eq, Structural)]
pub enum Shape {
    /// The details under an `error` key.
    ErrorDetails,
    /// The answer to a key creation is not an array of exactly one object.
    SuccessEnvelope,
    /// The single object of the answer to a key creation has no `success` key.
    SuccessMissing,
    /// The details under a `success` key.
    SuccessDetails,
    /// The answer to a device listing is not an object with the arrays
    /// `errors` and `data`.
    DeviceEnvelope,
    /// An entry of the `data` array of a device listing.
    DeviceEntry,
    /// The answer to a change of a light's state is not an object with the
    /// arrays `errors` and `data`.
    LightEnvelope,
}

/// What was wrong with the way the program was invoked.
#[derive(Clone, Copy, Debug, PartialEq, Eq, Structural)]
pub enum UsageFault {
    /// No bridge address was given.
    MissingBridge,
    /// No subcommand was given.
    MissingSubcommand,
    /// Not exactly one of "on" and "off" was asked for.
    PowerState,
}

/// The five kinds of failure.
#[derive(Clone, Copy, Debug, PartialEq, Eq, Structural)]
pub enum ErrorKind {
    Transport,
    Protocol,
    Api,
    Resolution,
    Usage,
}

/// An error as the bridge reports it, in the wire format
/// `{"type": .., "address": .., "description": ..}`.
#[derive(Clone, Debug, PartialEq)]
pub struct HueApiErrorMessage {
    pub type_value: i64,
    pub address: String,
    pub description: String,
}

/// The mathematical value of a [`HueApiErrorMessage`].
pub struct ApiErrorModel {
    pub type_value: i64,
    pub address: Seq<char>,
    pub description: Seq<char>,
}

impl View for HueApiErrorMessage {
    type V = ApiErrorModel;

    open spec fn view(&self) -> ApiErrorModel {
        ApiErrorModel {
            type_value: self.type_value,
            address: self.address@,
            description: self.description@,
        }
    }
}

/// A device whose name matched the text that a light was asked for by.
#[derive(Clone, Debug, PartialEq)]
pub struct LightCandidate {
    pub name: String,
    pub device_id: String,
    pub light_id: LightId,
}

/// The mathematical value of a [`LightCandidate`].
pub struct CandidateModel {
    pub name: Seq<char>,
    pub device_id: Seq<char>,
    pub light_id: Seq<char>,
}

impl View for LightCandidate {
    type V = CandidateModel;

    open spec fn view(&self) -> CandidateModel {
        CandidateModel { name: self.name@, device_id: self.device_id@, light_id: self.light_id@ }
    }
}

/// The values of a sequence of candidates.
pub open spec fn candidate_models(candidates: Seq<LightCandidate>) -> Seq<CandidateModel> {
    candidates.map_values(|c: LightCandidate| c@)
}

/// A failure of the client.
#[derive(Clone, Debug, PartialEq)]
pub enum HueError {
    /// The request could not be sent or no answer came; the text says why.
    Network(String),
    /// The bridge answered with a status outside 200..=299.
    Status(HttpMethod, u16),
    /// The body of the answer is not JSON.
    NotJson,
    /// A part of the answer does not have the expected shape.
    Malformed(Shape),
    /// The bridge reported an error; this is the first one it listed.
    Api(Operation, HueApiErrorMessage),
    /// No light has the given text as its identifier or in its name.
    LightNotFound(String),
    /// Several lights have the given text in their names.
    AmbiguousLight(String, Vec<LightCandidate>),
    /// The program was invoked wrongly.
    Usage(UsageFault),
}

/// The mathematical value of a [`HueError`].
pub enum HueErrorModel {
    Network(Seq<char>),
    Status(HttpMethod, u16),
    NotJson,
    Malformed(Shape),
    Api(Operation, ApiErrorModel),
    LightNotFound(Seq<char>),
    AmbiguousLight(Seq<char>, Seq<CandidateModel>),
    Usage(UsageFault),
}

impl View for HueError {
    type V = HueErrorModel;

    open spec fn view(&self) -> HueErrorModel {
        match self {
            HueError::Network(cause) => HueErrorModel::Network(cause@),
            HueError::Status(method, status) => HueErrorModel::Status(*method, *status),
            HueError::NotJson => HueErrorModel::NotJson,
            HueError::Malformed(shape) => HueErrorModel::Malformed(*shape),
            HueError::Api(operation, error) => HueErrorModel::Api(*operation, error@),
            HueError::LightNotFound(token) => HueErrorModel::LightNotFound(token@),
            HueError::AmbiguousLight(token, candidates) => HueErrorModel::AmbiguousLight(
                token@,
                candidate_models(candidates@),
            ),
            HueError::Usage(fault) => HueErrorModel::Usage(*fault),
        }
    }
}

/// The value of a result: that of what was returned, or that of the failure.
pub open spec fn result_model<T: View>(r: Result<T, HueError>) -> Result<T::V, HueErrorModel> {
    match r {
        Ok(value) => Ok(value@),
        Err(e) => Err(e@),
    }
}

/// The kind of a failure.
pub open spec fn kind_of(error: HueErrorModel) -> ErrorKind {
    match error {
        HueErrorModel::Network(_) => ErrorKind::Transport,
        HueErrorModel::Status(_, _) => ErrorKind::Transport,
        HueErrorModel::NotJson => ErrorKind::Transport,
        HueErrorModel::Malformed(_) => ErrorKind::Protocol,
        HueErrorModel::Api(_, _) => ErrorKind::Api,
        HueErrorModel::LightNotFound(_) => ErrorKind::Resolution,
        HueErrorModel::AmbiguousLight(_, _) => ErrorKind::Resolution,
        HueErrorModel::Usage(_) => ErrorKind::Usage,
    }
}

impl HueError {
    /// The kind of this failure, for callers that branch on it.
    pub fn kind(&self) -> (r: ErrorKind)
        ensures
            r == kind_of(self@),
    {
        match self {
            HueError::Network(_) => ErrorKind::Transport,
            HueError::Status(_, _) => ErrorKind::Transport,
            HueError::NotJson => ErrorKind::Transport,
            HueError::Malformed(_) => ErrorKind::Protocol,
            HueError::Api(_, _) => ErrorKind::Api,
            HueError::LightNotFound(_) => ErrorKind::Resolution,
            HueError::AmbiguousLight(_, _) => ErrorKind::Resolution,
            HueError::Usage(_) => ErrorKind::Usage,
        }
    }
}

} // verus!
