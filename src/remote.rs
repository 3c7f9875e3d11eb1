use vstd::prelude::*;
use crate::model::{catalog_view, default_count, ModelPreset, ModelPresetView};

verus! {

/// The backend parameter block of one registry record.
#[derive(Clone, Debug)]
pub struct ModelInfoLiteLLMParams {
    /// Backend model slug; required.
    pub model: Option<String>,
}

/// The descriptive block of one registry record.
#[derive(Clone, Debug)]
pub struct ModelInfoParams {
    /// Human description; optional.
    pub description: Option<String>,
}

/// One model record of the registry's answer, as decoded, before the required
/// fields are checked.
#[derive(Clone, Debug)]
pub struct ModelInfo {
    /// Optional.
    pub model_info: Option<ModelInfoParams>,
    /// The record's display name; required.
    pub model_name: Option<String>,
    /// Required.
    pub litellm_params: Option<ModelInfoLiteLLMParams>,
}

/// The registry's answer as decoded, before the required fields are checked.
#[derive(Clone, Debug)]
pub struct ModelInfoResponse {
    /// The model records, in order; required.
    pub data: Option<Vec<ModelInfo>>,
}

/// The registry's answer did not have the expected shape.
#[derive(Clone, Copy, Debug, PartialEq, Eq, Structural)]
pub enum ParseError {
    Malformed,
}

/// Why a remote catalog could not be had.
#[derive(Clone, Copy, Debug, PartialEq, Eq, Structural)]
pub enum FetchError {
    /// The registry answered with this non-success status.
    Http(u16),
    /// The registry's body did not have the expected shape.
    Malformed,
}

/// The path of the registry's model listing, below its base URL.
pub open spec fn model_info_path() -> Seq<char> {
    "/v1/model/info"@
}

/// A record carries its required fields: a model name and a backend slug.
pub open spec fn record_complete(record: ModelInfo) -> bool {
    &&& record.model_name is Some
    &&& record.litellm_params is Some
    &&& record.litellm_params->Some_0.model is Some
}

/// An answer carries its record list, and each record its required fields.
pub open spec fn response_complete(response: ModelInfoResponse) -> bool {
    &&& response.data is Some
    &&& forall|i: int|
        0 <= i < response.data->Some_0@.len() ==> #[trigger] record_complete(
            response.data->Some_0@[i],
        )
}

/// The backend slug of a complete record.
pub open spec fn record_slug(record: ModelInfo) -> Seq<char> {
    record.litellm_params->Some_0.model->Some_0@
}

/// The preset that one registry record becomes; `first` marks the record that
/// comes first in the answer.
pub open spec fn remote_preset_view(record: ModelInfo, first: bool) -> ModelPresetView {
    ModelPresetView {
        id: record_slug(record),
        model: record_slug(record),
        display_name: record.model_name->Some_0@,
        description: match record.model_info {
            Some(info) => match info.description {
                Some(d) => d@,
                None => Seq::empty(),
            },
            None => Seq::empty(),
        },
        default_reasoning_effort: None,
        supported_reasoning_efforts: Seq::empty(),
        is_default: first,
    }
}

/// The catalog that a registry answer becomes: one preset per record, in order,
/// the first one default.
pub open spec fn remote_catalog(records: Seq<ModelInfo>) -> Seq<ModelPresetView> {
    Seq::new(records.len(), |i: int| remote_preset_view(records[i], i == 0))
}

/// `s` without the `'/'` characters at its end.
pub open spec fn trim_trailing_slashes(s: Seq<char>) -> Seq<char>
    decreases s.len(),
{
    if s.len() > 0 && s.last() == '/' {
        trim_trailing_slashes(s.drop_last())
    } else {
        s
    }
}

/// The URL of the registry's model listing below `base_url`.
pub open spec fn model_info_url_view(base_url: Seq<char>) -> Seq<char> {
    trim_trailing_slashes(base_url) + model_info_path()
}

/// A status of the success class, 2xx.
pub open spec fn is_success_status(status: u16) -> bool {
    200 <= status <= 299
}

/// A registry answer of N records maps to N presets in the same order: preset
/// `i` carries record `i`'s slug and name, and only preset 0 is default.
pub proof fn lemma_remote_catalog_order(records: Seq<ModelInfo>)
    ensures
        remote_catalog(records).len() == records.len(),
        forall|i: int|
            0 <= i < records.len() ==> {
                let p = #[trigger] remote_catalog(records)[i];
                &&& p.id == record_slug(records[i])
                &&& p.display_name == records[i].model_name->Some_0@
                &&& p.is_default == (i == 0)
            },
{
}

/// A catalog mapped from a registry answer with at least one record has exactly
/// one default preset, and it is the first.
pub proof fn lemma_remote_single_default(records: Seq<ModelInfo>)
    requires
        records.len() > 0,
    ensures
        default_count(remote_catalog(records)) == 1,
        remote_catalog(records)[0].is_default,
    decreases records.len(),
{
    let c = remote_catalog(records);
    if records.len() == 1 {
        assert(c.drop_last() =~= Seq::<ModelPresetView>::empty());
        reveal_with_fuel(default_count, 2);
    } else {
        lemma_remote_single_default(records.drop_last());
        assert(c.drop_last() =~= remote_catalog(records.drop_last()));
    }
}

/// The preset of one record, or `None` where a required field is absent.
fn record_preset(record: &ModelInfo, first: bool) -> (r: Option<ModelPreset>)
    ensures
        r is Some <==> record_complete(*record),
        r is Some ==> r->Some_0@ == remote_preset_view(*record, first),
{
    let display_name = match &record.model_name {
        Some(name) => name.clone(),
        None => return None,
    };
    let slug = match &record.litellm_params {
        Some(params) => match &params.model {
            Some(model) => model,
            None => return None,
        },
        None => return None,
    };
    let description = match &record.model_info {
        Some(info) => match &info.description {
            Some(d) => d.clone(),
            None => String::new(),
        },
        None => String::new(),
    };
    let preset = ModelPreset {
        id: slug.clone(),
        model: slug.clone(),
        display_name,
        description,
        default_reasoning_effort: None,
        supported_reasoning_efforts: Vec::new(),
        is_default: first,
    };
    proof {
        assert(preset@.supported_reasoning_efforts =~= Seq::empty());
    }
    Some(preset)
}

/// The presets of a registry answer, or `ParseError::Malformed` where the
/// record list, or a record's name or backend slug, is absent. `id` and `model`
/// take the backend slug, `display_name` the record's name, `description` its
/// description or nothing; no effort metadata; the first preset alone is default.
pub fn parse_and_map(response: &ModelInfoResponse) -> (r: Result<Vec<ModelPreset>, ParseError>)
    ensures
        r is Ok <==> response_complete(*response),
        r is Err ==> r == Err::<Vec<ModelPreset>, ParseError>(ParseError::Malformed),
        r is Ok ==> catalog_view(r->Ok_0@) == remote_catalog(response.data->Some_0@),
{
    let records = match &response.data {
        Some(records) => records,
        None => return Err(ParseError::Malformed),
    };
    let mut presets: Vec<ModelPreset> = Vec::new();
    let mut i: usize = 0;
    while i < records.len()
        invariant
            response.data == Some(*records),
            i <= records@.len(),
            presets@.len() == i,
            forall|j: int| 0 <= j < i ==> #[trigger] record_complete(records@[j]),
            forall|j: int|
                0 <= j < i ==> #[trigger] presets@[j]@ == remote_preset_view(records@[j], j == 0),
        decreases records@.len() - i,
    {
        let preset = match record_preset(&records[i], i == 0) {
            Some(preset) => preset,
            None => {
                proof {
                    assert(!record_complete(response.data->Some_0@[i as int]));
                }
                return Err(ParseError::Malformed);
            },
        };
        presets.push(preset);
        i = i + 1;
    }
    proof {
        assert(catalog_view(presets@) =~= remote_catalog(records@));
    }
    Ok(presets)
}

/// The URL of the registry's model listing: `base_url` without its trailing
/// slashes, then the listing's path.
pub fn model_info_url(base_url: &str) -> (r: String)
    ensures
        r@ == model_info_url_view(base_url@),
{
    let mut end: usize = base_url.unicode_len();
    proof {
        assert(base_url@.subrange(0, end as int) =~= base_url@);
    }
    while end > 0 && base_url.get_char(end - 1) == '/'
        invariant
            end <= base_url@.len(),
            trim_trailing_slashes(base_url@) == trim_trailing_slashes(
                base_url@.subrange(0, end as int),
            ),
        decreases end,
    {
        proof {
            assert(base_url@.subrange(0, end as int).drop_last() =~= base_url@.subrange(
                0,
                end - 1,
            ));
        }
        end = end - 1;
    }
    let trimmed = String::from_str(base_url.substring_char(0, end));
    trimmed.concat("/v1/model/info")
}

/// What a registry status allows: a success status lets the body be read, any
/// other ends the fetch with that status, before the body is read.
pub fn check_status(status: u16) -> (r: Result<(), FetchError>)
    ensures
        is_success_status(status) ==> r == Ok::<(), FetchError>(()),
        !is_success_status(status) ==> r == Err::<(), FetchError>(FetchError::Http(status)),
{
    if 200 <= status && status <= 299 {
        Ok(())
    } else {
        Err(FetchError::Http(status))
    }
}

/// The remote catalog from the outcome of decoding the registry's body: a
/// decoding failure, or an answer without its required fields, becomes
/// `FetchError::Malformed`; a complete answer becomes its presets.
pub fn finish_fetch(decoded: Result<ModelInfoResponse, ParseError>) -> (r: Result<
    Vec<ModelPreset>,
    FetchError,
>)
    ensures
        r is Ok <==> decoded is Ok && response_complete(decoded->Ok_0),
        r is Err ==> r == Err::<Vec<ModelPreset>, FetchError>(FetchError::Malformed),
        r is Ok ==> catalog_view(r->Ok_0@) == remote_catalog(decoded->Ok_0.data->Some_0@),
{
    match decoded {
        Ok(response) => match parse_and_map(&response) {
            Ok(presets) => Ok(presets),
            Err(_) => Err(FetchError::Malformed),
        },
        Err(_) => Err(FetchError::Malformed),
    }
}

} // verus!
