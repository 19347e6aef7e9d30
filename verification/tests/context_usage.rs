//! The context-window fill indicator.

use client_ui_common::{ContextFillLevel, ContextUsageView};
fn usage(used: u64, budget: u64, compaction: bool) -> ContextUsageView {
    ContextUsageView {
        used_tokens: used,
        budget_tokens: budget,
        compaction_active: compaction,
    }
}

#[test]
fn readout_formats_used_over_budget_with_percent() {
    assert_eq!(usage(12_000, 32_000, false).readout(), "12k / 32k (38%)");
    assert_eq!(usage(500, 8_000, false).readout(), "500 / 8k (6%)");
}

#[test]
fn readout_marks_active_compaction() {
    assert!(usage(30_000, 32_000, true).readout().ends_with(" ⟳"));
    assert!(!usage(30_000, 32_000, false).readout().contains('⟳'));
}

#[test]
fn zero_used_at_turn_start_is_green_zero_percent() {
    let u = usage(0, 32_000, false);
    assert_eq!(u.level(), ContextFillLevel::Green);
    assert_eq!(u.readout(), "0 / 32k (0%)");
}

#[test]
fn below_threshold_is_green() {
    assert_eq!(
        usage(26_880, 32_000, false).level(),
        ContextFillLevel::Green
    );
}

#[test]
fn exactly_at_0_85_is_amber_inclusive() {
    // 0.85 * 32_000 == 27_200.
    assert_eq!(
        usage(27_200, 32_000, false).level(),
        ContextFillLevel::Amber
    );
}

#[test]
fn between_threshold_and_budget_is_amber() {
    assert_eq!(
        usage(30_000, 32_000, false).level(),
        ContextFillLevel::Amber
    );
}

#[test]
fn at_budget_is_red() {
    assert_eq!(usage(32_000, 32_000, false).level(), ContextFillLevel::Red);
}

#[test]
fn over_budget_overflow_is_red() {
    let u = usage(40_000, 32_000, false);
    assert_eq!(u.level(), ContextFillLevel::Red);
    assert_eq!(u.readout(), "40k / 32k (125%)");
}

#[test]
fn zero_budget_renders_neutrally_without_panic() {
    let u = usage(5_000, 0, false);
    assert_eq!(u.level(), ContextFillLevel::Green);
    assert_eq!(u.readout(), "5k / 0 (0%)");
}
