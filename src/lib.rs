pub mod catalog;
pub mod model;
pub mod remote;
pub mod resolve;

pub use catalog::builtin_presets;
pub use model::{ModelPreset, ReasoningEffort, ReasoningEffortPreset};
pub use remote::{
    check_status, finish_fetch, parse_and_map, model_info_url, FetchError, ModelInfo,
    ModelInfoLiteLLMParams, ModelInfoParams, ModelInfoResponse, ParseError,
};
pub use resolve::{
    builtin_model_presets_sync, finish_resolution, plan_resolution, AuthMode, CatalogPlan,
    ResolutionError,
};
