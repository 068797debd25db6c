//! Resolving a light from what the user typed: its identifier, or a part of
//! the name of its device.

use vstd::prelude::*;
use crate::device::{DeviceModel, HueDevice, LightId, device_models};
use crate::error::{CandidateModel, HueError, HueErrorModel, LightCandidate, candidate_models, result_model};
use crate::seq_laws::{lemma_filter_map_none, lemma_filter_map_order, lemma_filter_map_position};
use crate::text::{contains, is_substring, lowercase_of, to_lowercase};

verus! {

/// Some device's light has exactly the identifier `id`.
pub open spec fn has_light(devices: Seq<DeviceModel>, id: Seq<char>) -> bool {
    exists|i: int| 0 <= i < devices.len() && #[trigger] devices[i].light_id == Some(id)
}

/// `token` occurs in `name`, letter case aside.
pub open spec fn name_matches(name: Seq<char>, token: Seq<char>) -> bool {
    is_substring(lowercase_of(token), lowercase_of(name))
}

/// The candidate that a device is for `token`: it has a light and its name
/// matches. A device without a light is never a candidate.
pub open spec fn candidate_for(device: DeviceModel, token: Seq<char>) -> Option<CandidateModel> {
    match device.light_id {
        Some(light_id) if name_matches(device.name, token) => Some(
            CandidateModel { name: device.name, device_id: device.id, light_id },
        ),
        _ => None,
    }
}

/// [`candidate_for`] as a function of the device alone.
pub open spec fn candidate_fn(token: Seq<char>) -> spec_fn(DeviceModel) -> Option<CandidateModel> {
    |d: DeviceModel| candidate_for(d, token)
}

/// The candidates among `devices` for `token`, in the order of the listing.
pub open spec fn candidates_of(devices: Seq<DeviceModel>, token: Seq<char>) -> Seq<
    CandidateModel,
> {
    devices.filter_map(candidate_fn(token))
}

/// What a list of candidates resolves to: nothing found, the one light, or
/// an ambiguity that lists them all.
pub open spec fn selection(token: Seq<char>, candidates: Seq<CandidateModel>) -> Result<
    Seq<char>,
    HueErrorModel,
> {
    if candidates.len() == 0 {
        Err(HueErrorModel::LightNotFound(token))
    } else if candidates.len() == 1 {
        Ok(candidates[0].light_id)
    } else {
        Err(HueErrorModel::AmbiguousLight(token, candidates))
    }
}

/// The light that `token` stands for among `devices`. A light whose
/// identifier is `token` wins over every match by name.
pub open spec fn resolution(devices: Seq<DeviceModel>, token: Seq<char>) -> Result<
    Seq<char>,
    HueErrorModel,
> {
    if has_light(devices, token) {
        Ok(token)
    } else {
        selection(token, candidates_of(devices, token))
    }
}

/// The light among `devices` whose identifier is `token`, if there is one.
pub fn exact_light(devices: &Vec<HueDevice>, token: &str) -> (r: Option<LightId>)
    ensures
        r is Some <==> has_light(device_models(devices@), token@),
        r matches Some(id) ==> id@ == token@,
{
    let wanted = token.to_owned();
    let mut i: usize = 0;
    while i < devices.len()
        invariant
            i <= devices.len(),
            wanted@ == token@,
            forall|j: int| 0 <= j < i ==> device_models(devices@)[j].light_id != Some(token@),
        decreases devices.len() - i,
    {
        if let Some(light_id) = &devices[i].0.light_id {
            if light_id.0 == wanted {
                assert(device_models(devices@)[i as int].light_id == Some(token@));
                return Some(LightId(light_id.0.clone()));
            }
        }
        i += 1;
    }
    None
}

/// The devices with a light whose name contains `token`, letter case aside,
/// in the order of the listing.
pub fn name_candidates(devices: &Vec<HueDevice>, token: &str) -> (r: Vec<LightCandidate>)
    ensures
        candidate_models(r@) == candidates_of(device_models(devices@), token@),
{
    let name_query = to_lowercase(token);
    let mut matches: Vec<LightCandidate> = Vec::new();
    let mut i: usize = 0;
    while i < devices.len()
        invariant
            i <= devices.len(),
            name_query@ == lowercase_of(token@),
            candidate_models(matches@) == candidates_of(
                device_models(devices@).take(i as int),
                token@,
            ),
        decreases devices.len() - i,
    {
        let info = &devices[i].0;
        proof {
            let models = device_models(devices@);
            assert(models.take(i + 1).drop_last() =~= models.take(i as int));
            assert(models.take(i + 1).last() == info@);
        }
        let ghost before = matches@;
        if let Some(light_id) = &info.light_id {
            let name = to_lowercase(info.name.as_str());
            if contains(name.as_str(), name_query.as_str()) {
                let found = LightCandidate {
                    name: info.name.clone(),
                    device_id: info.id.clone(),
                    light_id: LightId(light_id.0.clone()),
                };
                matches.push(found);
                assert(candidate_models(matches@) =~= candidate_models(before) + seq![found@]);
            }
        }
        i += 1;
    }
    assert(device_models(devices@).take(devices.len() as int) =~= device_models(devices@));
    matches
}

/// Decides among the candidates for `token`: none is a failure, one is the
/// light, and several are a failure that names them all. Several candidates
/// never resolve to one of them.
pub fn select_candidate(token: &str, candidates: Vec<LightCandidate>) -> (r: Result<
    LightId,
    HueError,
>)
    ensures
        result_model(r) == selection(token@, candidate_models(candidates@)),
{
    if candidates.len() == 0 {
        Err(HueError::LightNotFound(token.to_owned()))
    } else if candidates.len() == 1 {
        Ok(LightId(candidates[0].light_id.0.clone()))
    } else {
        Err(HueError::AmbiguousLight(token.to_owned(), candidates))
    }
}

/// Finds the light that `id_or_name` stands for among the devices of one
/// listing.
///
/// A light whose identifier is `id_or_name` is returned at once. Otherwise
/// the devices with a light whose name contains `id_or_name`, letter case
/// aside, are the candidates: exactly one gives its light, none gives
/// `LightNotFound`, and several give `AmbiguousLight` with all of them.
pub fn find_light_by_id_or_name(devices: &Vec<HueDevice>, id_or_name: &str) -> (r: Result<
    LightId,
    HueError,
>)
    ensures
        result_model(r) == resolution(device_models(devices@), id_or_name@),
{
    match exact_light(devices, id_or_name) {
        Some(light_id) => Ok(light_id),
        None => select_candidate(id_or_name, name_candidates(devices, id_or_name)),
    }
}

/// A light whose identifier is the token is what the token resolves to,
/// whichever names contain the token.
pub proof fn law_exact_identifier_wins(devices: Seq<DeviceModel>, token: Seq<char>)
    requires
        has_light(devices, token),
    ensures
        resolution(devices, token) == Ok::<Seq<char>, HueErrorModel>(token),
{
}

/// The light that a token resolves to is the light of a listed device: it is
/// never made up.
pub proof fn law_resolved_light_is_listed(devices: Seq<DeviceModel>, token: Seq<char>)
    ensures
        resolution(devices, token) matches Ok(id) ==> has_light(devices, id),
{
    let found = candidates_of(devices, token);
    if !has_light(devices, token) && found.len() == 1 {
        assert(found.contains(found[0]));
        devices.lemma_filter_map_contains(candidate_fn(token), found[0]);
        let d = choose|d: DeviceModel| #[trigger]
            devices.contains(d) && candidate_fn(token)(d) == Some(found[0]);
        let i = choose|i: int| 0 <= i < devices.len() && devices[i] == d;
        assert(devices[i].light_id == Some(found[0].light_id));
    }
}

/// A device without a light is no candidate, whatever its name.
pub proof fn law_device_without_light_is_no_candidate(device: DeviceModel, token: Seq<char>)
    requires
        device.light_id is None,
    ensures
        candidate_for(device, token) is None,
{
}

/// Where no light has the token as its identifier and no device with a light
/// has it in its name, the token is not found, and the failure names it.
pub proof fn law_no_match_is_not_found(devices: Seq<DeviceModel>, token: Seq<char>)
    requires
        !has_light(devices, token),
        forall|i: int| 0 <= i < devices.len() ==> candidate_for(#[trigger] devices[i], token) is None,
    ensures
        resolution(devices, token) == Err::<Seq<char>, HueErrorModel>(
            HueErrorModel::LightNotFound(token),
        ),
{
    lemma_filter_map_none(devices, candidate_fn(token));
}

/// Where no light has the token as its identifier and two listed devices are
/// candidates, the token resolves to neither: the failure lists all the
/// candidates, these two among them, in the order of the listing.
pub proof fn law_several_matches_are_ambiguous(
    devices: Seq<DeviceModel>,
    token: Seq<char>,
    i: int,
    j: int,
)
    requires
        !has_light(devices, token),
        0 <= i < j < devices.len(),
        candidate_for(devices[i], token) is Some,
        candidate_for(devices[j], token) is Some,
    ensures
        resolution(devices, token) == Err::<Seq<char>, HueErrorModel>(
            HueErrorModel::AmbiguousLight(token, candidates_of(devices, token)),
        ),
        ({
            let found = candidates_of(devices, token);
            let before_i = candidates_of(devices.take(i), token).len() as int;
            let before_j = candidates_of(devices.take(j), token).len() as int;
            &&& before_i < before_j < found.len()
            &&& found[before_i] == candidate_for(devices[i], token)->0
            &&& found[before_j] == candidate_for(devices[j], token)->0
        }),
{
    lemma_filter_map_position(devices, candidate_fn(token), i);
    lemma_filter_map_position(devices, candidate_fn(token), j);
    lemma_filter_map_order(devices, candidate_fn(token), i, j);
}

} // verus!
