use vstd::prelude::*;
use crate::model::{
    catalog_view, default_count, default_effort_supported, ModelPreset, ModelPresetView,
    ReasoningEffort, ReasoningEffortPreset, ReasoningEffortPresetView,
};

verus! {

pub open spec fn effort_option_view(effort: ReasoningEffort, description: Seq<char>) -> ReasoningEffortPresetView {
    ReasoningEffortPresetView { effort, description }
}

/// The built-in catalog offered to first-party authentication, in order.
pub open spec fn builtin_catalog() -> Seq<ModelPresetView> {
    seq![
        ModelPresetView {
            id: "gpt-5-codex"@,
            model: "gpt-5-codex"@,
            display_name: "gpt-5-codex"@,
            description: "Optimized for coding tasks with many tools."@,
            default_reasoning_effort: Some(ReasoningEffort::Medium),
            supported_reasoning_efforts: seq![
                effort_option_view(ReasoningEffort::Low, "Fastest responses with limited reasoning"@),
                effort_option_view(
                    ReasoningEffort::Medium,
                    "Dynamically adjusts reasoning based on the task"@,
                ),
                effort_option_view(
                    ReasoningEffort::High,
                    "Maximizes reasoning depth for complex or ambiguous problems"@,
                ),
            ],
            is_default: true,
        },
        ModelPresetView {
            id: "gpt-5"@,
            model: "gpt-5"@,
            display_name: "gpt-5"@,
            description: "Broad world knowledge with strong general reasoning."@,
            default_reasoning_effort: Some(ReasoningEffort::Medium),
            supported_reasoning_efforts: seq![
                effort_option_view(ReasoningEffort::Minimal, "Fastest responses with little reasoning"@),
                effort_option_view(
                    ReasoningEffort::Low,
                    "Balances speed with some reasoning; useful for straightforward queries and short explanations"@,
                ),
                effort_option_view(
                    ReasoningEffort::Medium,
                    "Provides a solid balance of reasoning depth and latency for general-purpose tasks"@,
                ),
                effort_option_view(
                    ReasoningEffort::High,
                    "Maximizes reasoning depth for complex or ambiguous problems"@,
                ),
            ],
            is_default: false,
        },
    ]
}

/// Exactly one preset of the built-in catalog is marked default.
pub proof fn lemma_builtin_single_default()
    ensures
        default_count(builtin_catalog()) == 1,
{
    let c = builtin_catalog();
    assert(c.drop_last() =~= seq![c[0]]);
    assert(c.drop_last().drop_last() =~= Seq::<ModelPresetView>::empty());
    reveal_with_fuel(default_count, 3);
}

/// Every preset of the built-in catalog that names a default effort lists that
/// effort among its supported ones.
pub proof fn lemma_builtin_default_efforts_supported()
    ensures
        forall|i: int|
            0 <= i < builtin_catalog().len() ==> #[trigger] default_effort_supported(
                builtin_catalog()[i],
            ),
{
    let c = builtin_catalog();
    assert(c[0].supported_reasoning_efforts[1].effort == ReasoningEffort::Medium);
    assert(c[1].supported_reasoning_efforts[2].effort == ReasoningEffort::Medium);
}

fn effort_option(effort: ReasoningEffort, description: &str) -> (r: ReasoningEffortPreset)
    ensures
        r@ == effort_option_view(effort, description@),
{
    ReasoningEffortPreset { effort, description: String::from_str(description) }
}

/// The built-in catalog: the same ordered presets on every call, exactly one of
/// them marked default.
pub fn builtin_presets() -> (r: Vec<ModelPreset>)
    ensures
        catalog_view(r@) == builtin_catalog(),
        default_count(catalog_view(r@)) == 1,
        forall|i: int|
            0 <= i < r@.len() ==> #[trigger] default_effort_supported(catalog_view(r@)[i]),
{
    let mut codex_efforts: Vec<ReasoningEffortPreset> = Vec::new();
    codex_efforts.push(effort_option(ReasoningEffort::Low, "Fastest responses with limited reasoning"));
    codex_efforts.push(
        effort_option(ReasoningEffort::Medium, "Dynamically adjusts reasoning based on the task"),
    );
    codex_efforts.push(
        effort_option(
            ReasoningEffort::High,
            "Maximizes reasoning depth for complex or ambiguous problems",
        ),
    );
    let codex = ModelPreset {
        id: String::from_str("gpt-5-codex"),
        model: String::from_str("gpt-5-codex"),
        display_name: String::from_str("gpt-5-codex"),
        description: String::from_str("Optimized for coding tasks with many tools."),
        default_reasoning_effort: Some(ReasoningEffort::Medium),
        supported_reasoning_efforts: codex_efforts,
        is_default: true,
    };

    let mut general_efforts: Vec<ReasoningEffortPreset> = Vec::new();
    general_efforts.push(
        effort_option(ReasoningEffort::Minimal, "Fastest responses with little reasoning"),
    );
    general_efforts.push(
        effort_option(
            ReasoningEffort::Low,
            "Balances speed with some reasoning; useful for straightforward queries and short explanations",
        ),
    );
    general_efforts.push(
        effort_option(
            ReasoningEffort::Medium,
            "Provides a solid balance of reasoning depth and latency for general-purpose tasks",
        ),
    );
    general_efforts.push(
        effort_option(
            ReasoningEffort::High,
            "Maximizes reasoning depth for complex or ambiguous problems",
        ),
    );
    let general = ModelPreset {
        id: String::from_str("gpt-5"),
        model: String::from_str("gpt-5"),
        display_name: String::from_str("gpt-5"),
        description: String::from_str("Broad world knowledge with strong general reasoning."),
        default_reasoning_effort: Some(ReasoningEffort::Medium),
        supported_reasoning_efforts: general_efforts,
        is_default: false,
    };

    let mut presets: Vec<ModelPreset> = Vec::new();
    presets.push(codex);
    presets.push(general);
    proof {
        let c = builtin_catalog();
        assert(codex@.supported_reasoning_efforts =~= c[0].supported_reasoning_efforts);
        assert(general@.supported_reasoning_efforts =~= c[1].supported_reasoning_efforts);
        assert(catalog_view(presets@) =~= c);
        lemma_builtin_single_default();
        lemma_builtin_default_efforts_supported();
    }
    presets
}

} // verus!
