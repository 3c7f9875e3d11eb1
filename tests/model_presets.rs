use model_presets::{
    builtin_model_presets_sync, builtin_presets, check_status, finish_fetch, finish_resolution,
    parse_and_map, model_info_url, plan_resolution, AuthMode, CatalogPlan, FetchError,
    ModelInfo, ModelInfoLiteLLMParams, ModelInfoParams, ModelInfoResponse, ModelPreset,
    ParseError, ReasoningEffort, ResolutionError,
};

fn record(name: &str, slug: &str, description: Option<&str>) -> ModelInfo {
    ModelInfo {
        model_info: Some(ModelInfoParams { description: description.map(|d| d.to_string()) }),
        model_name: Some(name.to_string()),
        litellm_params: Some(ModelInfoLiteLLMParams { model: Some(slug.to_string()) }),
    }
}

fn same_preset(a: &ModelPreset, b: &ModelPreset) -> bool {
    a.id == b.id
        && a.model == b.model
        && a.display_name == b.display_name
        && a.description == b.description
        && a.default_reasoning_effort == b.default_reasoning_effort
        && a.is_default == b.is_default
        && a.supported_reasoning_efforts.len() == b.supported_reasoning_efforts.len()
        && a
            .supported_reasoning_efforts
            .iter()
            .zip(b.supported_reasoning_efforts.iter())
            .all(|(x, y)| x.effort == y.effort && x.description == y.description)
}

fn same_catalog(a: &[ModelPreset], b: &[ModelPreset]) -> bool {
    a.len() == b.len() && a.iter().zip(b.iter()).all(|(x, y)| same_preset(x, y))
}

#[test]
fn only_one_default_model_is_configured() {
    let default_models = builtin_presets().iter().filter(|preset| preset.is_default).count();
    assert!(default_models == 1);
}

#[test]
fn builtin_default_efforts_are_supported() {
    for preset in builtin_presets() {
        if let Some(effort) = preset.default_reasoning_effort {
            assert!(preset.supported_reasoning_efforts.iter().any(|e| e.effort == effort));
        }
    }
}

#[test]
fn builtin_catalog_contents() {
    let presets = builtin_presets();
    assert_eq!(presets.len(), 2);
    assert_eq!(presets[0].id, "gpt-5-codex");
    assert_eq!(presets[0].model, "gpt-5-codex");
    assert!(presets[0].is_default);
    assert_eq!(presets[0].default_reasoning_effort, Some(ReasoningEffort::Medium));
    let codex: Vec<ReasoningEffort> =
        presets[0].supported_reasoning_efforts.iter().map(|e| e.effort).collect();
    assert_eq!(codex, vec![ReasoningEffort::Low, ReasoningEffort::Medium, ReasoningEffort::High]);
    assert_eq!(presets[1].id, "gpt-5");
    assert_eq!(presets[1].description, "Broad world knowledge with strong general reasoning.");
    assert!(!presets[1].is_default);
    let general: Vec<ReasoningEffort> =
        presets[1].supported_reasoning_efforts.iter().map(|e| e.effort).collect();
    assert_eq!(
        general,
        vec![
            ReasoningEffort::Minimal,
            ReasoningEffort::Low,
            ReasoningEffort::Medium,
            ReasoningEffort::High
        ]
    );
}

#[test]
fn builtin_catalog_is_stable_across_calls() {
    assert!(same_catalog(&builtin_presets(), &builtin_presets()));
}

#[test]
fn sync_resolution_returns_builtin_catalog() {
    let expected = builtin_presets();
    assert!(same_catalog(&builtin_model_presets_sync(None), &expected));
    assert!(same_catalog(&builtin_model_presets_sync(Some(AuthMode::ApiKey)), &expected));
    assert!(same_catalog(&builtin_model_presets_sync(Some(AuthMode::ChatGPT)), &expected));
}

#[test]
fn first_party_plan_is_builtin_catalog() {
    let expected = builtin_presets();
    for mode in [None, Some(AuthMode::ApiKey), Some(AuthMode::ChatGPT)] {
        match plan_resolution(mode, Some("https://registry.example"), Some("token")) {
            CatalogPlan::Ready(presets) => assert!(same_catalog(&presets, &expected)),
            CatalogPlan::Fetch { .. } => panic!("first-party mode must not fetch"),
        }
    }
}

#[test]
fn remote_plan_builds_listing_url() {
    match plan_resolution(Some(AuthMode::OCA), Some("https://registry.example/api//"), Some("tok")) {
        CatalogPlan::Fetch { url, access_token } => {
            assert_eq!(url, "https://registry.example/api/v1/model/info");
            assert_eq!(access_token, "tok");
        }
        CatalogPlan::Ready(_) => panic!("remote mode must fetch"),
    }
}

#[test]
fn remote_plan_reads_absent_values_as_empty() {
    match plan_resolution(Some(AuthMode::OCA), None, None) {
        CatalogPlan::Fetch { url, access_token } => {
            assert_eq!(url, "/v1/model/info");
            assert_eq!(access_token, "");
        }
        CatalogPlan::Ready(_) => panic!("remote mode must fetch"),
    }
}

#[test]
fn listing_url_trims_trailing_slashes() {
    assert_eq!(model_info_url("http://h:4000"), "http://h:4000/v1/model/info");
    assert_eq!(model_info_url("http://h:4000/"), "http://h:4000/v1/model/info");
    assert_eq!(model_info_url("http://h:4000///"), "http://h:4000/v1/model/info");
    assert_eq!(model_info_url("///"), "/v1/model/info");
    assert_eq!(model_info_url(""), "/v1/model/info");
}

#[test]
fn records_map_in_order_with_first_default() {
    let response = ModelInfoResponse {
        data: Some(vec![
            record("A", "a-backend", Some("first")),
            record("B", "b-backend", None),
            record("C", "c-backend", Some("third")),
        ]),
    };
    let presets = parse_and_map(&response).unwrap();
    assert_eq!(presets.len(), 3);
    let ids: Vec<&str> = presets.iter().map(|p| p.id.as_str()).collect();
    assert_eq!(ids, vec!["a-backend", "b-backend", "c-backend"]);
    let defaults: Vec<bool> = presets.iter().map(|p| p.is_default).collect();
    assert_eq!(defaults, vec![true, false, false]);
    assert_eq!(presets[1].description, "");
    assert_eq!(presets[2].display_name, "C");
    assert_eq!(presets.iter().filter(|p| p.is_default).count(), 1);
}

#[test]
fn single_record_round_trip() {
    let response = ModelInfoResponse { data: Some(vec![record("foo", "foo-backend", Some("bar"))]) };
    let presets = parse_and_map(&response).unwrap();
    assert_eq!(presets.len(), 1);
    assert_eq!(presets[0].id, "foo-backend");
    assert_eq!(presets[0].model, "foo-backend");
    assert_eq!(presets[0].display_name, "foo");
    assert_eq!(presets[0].description, "bar");
    assert!(presets[0].is_default);
    assert!(presets[0].supported_reasoning_efforts.is_empty());
    assert_eq!(presets[0].default_reasoning_effort, None);
}

#[test]
fn empty_registry_answer_maps_to_empty_catalog() {
    let presets = parse_and_map(&ModelInfoResponse { data: Some(vec![]) }).unwrap();
    assert!(presets.is_empty());
}

#[test]
fn unauthorized_status_is_http_error() {
    assert_eq!(check_status(401), Err(FetchError::Http(401)));
}

#[test]
fn status_classes() {
    assert_eq!(check_status(200), Ok(()));
    assert_eq!(check_status(299), Ok(()));
    assert_eq!(check_status(199), Err(FetchError::Http(199)));
    assert_eq!(check_status(300), Err(FetchError::Http(300)));
    assert_eq!(check_status(500), Err(FetchError::Http(500)));
}

#[test]
fn malformed_body_is_malformed_fetch_error() {
    assert_eq!(finish_fetch(Err(ParseError::Malformed)).unwrap_err(), FetchError::Malformed);
}

#[test]
fn decoded_body_becomes_catalog() {
    let response = ModelInfoResponse { data: Some(vec![record("foo", "foo-backend", Some("bar"))]) };
    let presets = finish_fetch(Ok(response)).unwrap();
    assert_eq!(presets.len(), 1);
    assert_eq!(presets[0].id, "foo-backend");
    assert!(presets[0].is_default);
}

#[test]
fn fetch_errors_become_remote_resolution_errors() {
    assert_eq!(
        finish_resolution(Err(FetchError::Http(401))).unwrap_err(),
        ResolutionError::Remote(FetchError::Http(401))
    );
    assert_eq!(
        finish_resolution(Err(FetchError::Malformed)).unwrap_err(),
        ResolutionError::Remote(FetchError::Malformed)
    );
    let kept = finish_resolution(Ok(builtin_presets())).unwrap();
    assert!(same_catalog(&kept, &builtin_presets()));
}

#[test]
fn missing_data_is_malformed() {
    let response = ModelInfoResponse { data: None };
    assert_eq!(parse_and_map(&response).unwrap_err(), ParseError::Malformed);
    assert_eq!(finish_fetch(Ok(response)).unwrap_err(), FetchError::Malformed);
}

#[test]
fn record_without_required_field_is_malformed() {
    let mut no_name = record("foo", "foo-backend", None);
    no_name.model_name = None;
    let mut no_slug = record("foo", "foo-backend", None);
    no_slug.litellm_params = Some(ModelInfoLiteLLMParams { model: None });
    let mut no_params = record("foo", "foo-backend", None);
    no_params.litellm_params = None;
    for bad in [no_name, no_slug, no_params] {
        let response = ModelInfoResponse { data: Some(vec![record("ok", "ok-backend", None), bad]) };
        assert_eq!(parse_and_map(&response).unwrap_err(), ParseError::Malformed);
    }
}

#[test]
fn absent_info_block_gives_empty_description() {
    let mut bare = record("foo", "foo-backend", Some("ignored"));
    bare.model_info = None;
    let presets = parse_and_map(&ModelInfoResponse { data: Some(vec![bare]) }).unwrap();
    assert_eq!(presets[0].description, "");
    assert_eq!(presets[0].display_name, "foo");
}
