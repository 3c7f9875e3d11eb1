use vstd::prelude::*;

verus! {

/// How much internal deliberation a model performs before it answers.
#[derive(Clone, Copy, Debug, PartialEq, Eq, Structural)]
pub enum ReasoningEffort {
    Minimal,
    Low,
    Medium,
    High,
}

/// A reasoning effort option that can be surfaced for a model.
#[derive(Clone, Debug)]
pub struct ReasoningEffortPreset {
    /// Effort level that the model supports.
    pub effort: ReasoningEffort,
    /// Short human description shown next to the effort in UIs.
    pub description: String,
}

/// The mathematical value of a [`ReasoningEffortPreset`].
pub struct ReasoningEffortPresetView {
    pub effort: ReasoningEffort,
    pub description: Seq<char>,
}

impl View for ReasoningEffortPreset {
    type V = ReasoningEffortPresetView;

    open spec fn view(&self) -> ReasoningEffortPresetView {
        ReasoningEffortPresetView { effort: self.effort, description: self.description@ }
    }
}

/// Metadata describing one selectable model configuration.
#[derive(Clone, Debug)]
pub struct ModelPreset {
    /// Stable identifier for the preset.
    pub id: String,
    /// Model slug sent to the inference backend.
    pub model: String,
    /// Display name shown in UIs.
    pub display_name: String,
    /// Short human description shown in UIs.
    pub description: String,
    /// Reasoning effort applied when none is explicitly chosen.
    pub default_reasoning_effort: Option<ReasoningEffort>,
    /// Supported reasoning effort options, in display order.
    pub supported_reasoning_efforts: Vec<ReasoningEffortPreset>,
    /// Whether this is the default model for new users.
    pub is_default: bool,
}

/// The mathematical value of a [`ModelPreset`].
pub struct ModelPresetView {
    pub id: Seq<char>,
    pub model: Seq<char>,
    pub display_name: Seq<char>,
    pub description: Seq<char>,
    pub default_reasoning_effort: Option<ReasoningEffort>,
    pub supported_reasoning_efforts: Seq<ReasoningEffortPresetView>,
    pub is_default: bool,
}

impl View for ModelPreset {
    type V = ModelPresetView;

    open spec fn view(&self) -> ModelPresetView {
        ModelPresetView {
            id: self.id@,
            model: self.model@,
            display_name: self.display_name@,
            description: self.description@,
            default_reasoning_effort: self.default_reasoning_effort,
            supported_reasoning_efforts: self.supported_reasoning_efforts@.map_values(
                |e: ReasoningEffortPreset| e@,
            ),
            is_default: self.is_default,
        }
    }
}

/// The value of a whole catalog: the view of each preset, in order.
pub open spec fn catalog_view(presets: Seq<ModelPreset>) -> Seq<ModelPresetView> {
    presets.map_values(|p: ModelPreset| p@)
}

/// The number of presets in `catalog` that are marked default.
pub open spec fn default_count(catalog: Seq<ModelPresetView>) -> nat
    decreases catalog.len(),
{
    if catalog.len() == 0 {
        0
    } else {
        default_count(catalog.drop_last()) + if catalog.last().is_default {
            1nat
        } else {
            0nat
        }
    }
}

/// A default effort, where one is set, is among the supported efforts.
pub open spec fn default_effort_supported(p: ModelPresetView) -> bool {
    match p.default_reasoning_effort {
        Some(e) => exists|i: int|
            0 <= i < p.supported_reasoning_efforts.len()
                && #[trigger] p.supported_reasoning_efforts[i].effort == e,
        None => true,
    }
}

} // verus!
