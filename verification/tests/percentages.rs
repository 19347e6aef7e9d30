//! The percentage of the fill readout agrees with double-precision arithmetic.

use client_ui_common::context_usage::abbrev_tokens;
use client_ui_common::{ContextFillLevel, ContextUsageView};

fn usage(used_tokens: u64, budget_tokens: u64) -> ContextUsageView {
    ContextUsageView {
        used_tokens,
        budget_tokens,
        compaction_active: false,
    }
}

fn expected(used: u64, budget: u64) -> String {
    let fraction = if budget == 0 {
        0.0
    } else {
        used as f64 / budget as f64
    };
    let percent = (fraction * 100.0).round() as u64;
    format!(
        "{} / {} ({percent}%)",
        abbrev_tokens(used),
        abbrev_tokens(budget)
    )
}

#[test]
fn exact_percentages() {
    // 14.5 is not representable as a hundredfold of a rounded quotient.
    assert_eq!(usage(29_000, 200_000).readout(), "29k / 200k (14%)");
    assert_eq!(usage(1, 200).readout(), "1 / 200 (1%)");
    assert_eq!(usage(1, 3).readout(), "1 / 3 (33%)");
    assert_eq!(usage(2, 3).readout(), "2 / 3 (67%)");
    assert_eq!(
        usage(u64::MAX, 1).readout(),
        format!("{}k / 1 ({}%)", u64::MAX / 1000, u64::MAX)
    );
}

#[test]
fn small_counts_agree_with_double_precision() {
    for budget in 0..220u64 {
        for used in 0..450u64 {
            assert_eq!(usage(used, budget).readout(), expected(used, budget));
        }
    }
}

#[test]
fn halves_agree_with_double_precision() {
    for budget in [200u64, 2_000, 20_000, 200_000, 3_200, 128_000, 1_000_000] {
        for k in 0..600u64 {
            let used = budget / 200 * (2 * k + 1);
            assert_eq!(usage(used, budget).readout(), expected(used, budget));
        }
    }
}

#[test]
fn large_counts_agree_with_double_precision() {
    let mut x: u64 = 0x9e37_79b9_7f4a_7c15;
    for _ in 0..4_000 {
        x ^= x << 13;
        x ^= x >> 7;
        x ^= x << 17;
        let used = x >> (x % 60);
        let budget = x.rotate_left(29) >> (x.rotate_left(7) % 60);
        assert_eq!(usage(used, budget).readout(), expected(used, budget));
    }
}

#[test]
fn levels_change_exactly_at_their_lines() {
    assert_eq!(usage(84, 100).level(), ContextFillLevel::Green);
    assert_eq!(usage(85, 100).level(), ContextFillLevel::Amber);
    assert_eq!(usage(99, 100).level(), ContextFillLevel::Amber);
    assert_eq!(usage(100, 100).level(), ContextFillLevel::Red);
    assert_eq!(usage(u64::MAX - 1, u64::MAX).level(), ContextFillLevel::Amber);
    assert_eq!(usage(u64::MAX, 0).level(), ContextFillLevel::Green);
}

#[test]
fn classes_name_their_levels() {
    let all = ContextFillLevel::all_classes();
    assert_eq!(all[0], ContextFillLevel::Green.css_class());
    assert_eq!(all[1], ContextFillLevel::Amber.css_class());
    assert_eq!(all[2], ContextFillLevel::Red.css_class());
    assert_eq!(all, ["context-fill-green", "context-fill-amber", "context-fill-red"]);
}

#[test]
fn thousands_are_cut_off() {
    assert_eq!(abbrev_tokens(512), "512");
    assert_eq!(abbrev_tokens(999), "999");
    assert_eq!(abbrev_tokens(1_000), "1k");
    assert_eq!(abbrev_tokens(12_999), "12k");
}

#[test]
fn the_percentage_is_a_nearest_whole_number() {
    for budget in [1u64, 2, 3, 7, 8, 200, 1_023, 32_768, 200_000, (1 << 53) - 1] {
        for used in [0u64, 1, 2, 5, 29, 500, 29_000, 170_001, (1 << 43) - 1] {
            let percent = client_ui_common::context_usage::percentage::percent_of(used, budget);
            let off = (percent as i128) * (budget as i128) - 100 * (used as i128);
            assert!(2 * off.abs() <= budget as i128, "{used} / {budget}: {percent}");
        }
    }
}
