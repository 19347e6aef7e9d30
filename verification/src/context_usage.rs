//! The context-window fill indicator.
//!
//! The daemon reports token counts; this module turns them into a compact
//! `used / budget (pct%)` readout and a colour bucket keyed to the line at which
//! the daemon compacts. It never recomputes a budget.

pub mod percentage;

use vstd::prelude::*;

use crate::text;

verus! {

/// Colour bucket of the fill indicator: green below 0.85 of the budget, amber
/// from there up to the budget, red at or over it.
#[derive(Clone, Copy, Debug, PartialEq, Eq, Structural)]
pub enum ContextFillLevel {
    Green,
    Amber,
    Red,
}

impl ContextFillLevel {
    /// The CSS class of this level.
    pub open spec fn class(self) -> Seq<char> {
        match self {
            ContextFillLevel::Green => "context-fill-green"@,
            ContextFillLevel::Amber => "context-fill-amber"@,
            ContextFillLevel::Red => "context-fill-red"@,
        }
    }

    /// The CSS class applied to the indicator label for this level.
    pub fn css_class(self) -> (r: &'static str)
        ensures
            r@ == self.class(),
    {
        match self {
            ContextFillLevel::Green => "context-fill-green",
            ContextFillLevel::Amber => "context-fill-amber",
            ContextFillLevel::Red => "context-fill-red",
        }
    }

    /// Every class, so that a view can clear the others before adding one.
    pub fn all_classes() -> (r: [&'static str; 3])
        ensures
            r@[0]@ == ContextFillLevel::Green.class(),
            r@[1]@ == ContextFillLevel::Amber.class(),
            r@[2]@ == ContextFillLevel::Red.class(),
    {
        ["context-fill-green", "context-fill-amber", "context-fill-red"]
    }
}

/// The three levels have three different classes.
pub proof fn classes_are_distinct(a: ContextFillLevel, b: ContextFillLevel)
    ensures
        a.class() == b.class() ==> a == b,
{
    reveal_strlit("context-fill-green");
    reveal_strlit("context-fill-amber");
    reveal_strlit("context-fill-red");
    assert(ContextFillLevel::Green.class()[13] == 'g');
    assert(ContextFillLevel::Amber.class()[13] == 'a');
    assert(ContextFillLevel::Red.class()[13] == 'r');
}

/// Per-conversation context-window fill, in tokens.
#[derive(Clone, Copy, Debug, PartialEq, Eq, Structural)]
pub struct ContextUsageView {
    pub used_tokens: u64,
    pub budget_tokens: u64,
    pub compaction_active: bool,
}

// ---------------------------------------------------------------------------
// The readout
// ---------------------------------------------------------------------------

/// A token count, abbreviated: thousands are cut off and marked with a `k`.
pub open spec fn abbreviated(n: nat) -> Seq<char> {
    if n >= 1000 {
        text::decimal(n / 1000) + "k"@
    } else {
        text::decimal(n)
    }
}

/// Abbreviate a token count for a narrow status bar (see [`abbreviated`]).
pub fn abbrev_tokens(n: u64) -> (r: String)
    ensures
        r@ == abbreviated(n as nat),
{
    if n >= 1_000 {
        let mut s = text::decimal_text(n / 1_000);
        s.append("k");
        s
    } else {
        text::decimal_text(n)
    }
}

impl ContextUsageView {
    /// The colour bucket.
    pub open spec fn level_spec(self) -> ContextFillLevel {
        if self.budget_tokens != 0 && self.used_tokens >= self.budget_tokens {
            ContextFillLevel::Red
        } else if self.budget_tokens != 0 && 100 * self.used_tokens >= 85 * self.budget_tokens {
            ContextFillLevel::Amber
        } else {
            ContextFillLevel::Green
        }
    }

    /// The readout.
    pub open spec fn readout_spec(self) -> Seq<char> {
        abbreviated(self.used_tokens as nat) + " / "@ + abbreviated(self.budget_tokens as nat)
            + " ("@ + text::decimal(percentage::percent(self.used_tokens as nat, self.budget_tokens as nat))
            + "%)"@ + (if self.compaction_active {
            " ⟳"@
        } else {
            Seq::empty()
        })
    }

    /// The colour bucket. An unknown (zero) budget is green; the amber line is
    /// inclusive, because at the line is the moment to warn.
    pub fn level(&self) -> (r: ContextFillLevel)
        ensures
            r == self.level_spec(),
    {
        let used: u128 = self.used_tokens as u128;
        let budget: u128 = self.budget_tokens as u128;
        if budget == 0 {
            ContextFillLevel::Green
        } else if used >= budget {
            ContextFillLevel::Red
        } else if 100 * used >= 85 * budget {
            ContextFillLevel::Amber
        } else {
            ContextFillLevel::Green
        }
    }

    /// A compact readout, such as `12k / 32k (38%)`; a trailing `⟳` marks an
    /// active compaction pass.
    pub fn readout(&self) -> (r: String)
        ensures
            r@ == self.readout_spec(),
    {
        let mut s = abbrev_tokens(self.used_tokens);
        s.append(" / ");
        s.append(abbrev_tokens(self.budget_tokens).as_str());
        s.append(" (");
        s.append(
            text::decimal_text(percentage::percent_of(self.used_tokens, self.budget_tokens)).as_str(),
        );
        s.append("%)");
        if self.compaction_active {
            s.append(" ⟳");
        }
        assert(s@ =~= self.readout_spec());
        s
    }
}

/// More use of the same budget never gives a calmer colour.
pub proof fn levels_rise_with_use(a: ContextUsageView, b: ContextUsageView)
    requires
        a.budget_tokens == b.budget_tokens,
        a.used_tokens <= b.used_tokens,
    ensures
        a.level_spec() == ContextFillLevel::Red ==> b.level_spec() == ContextFillLevel::Red,
        a.level_spec() == ContextFillLevel::Amber ==> b.level_spec() != ContextFillLevel::Green,
{
}

/// An unknown budget is drawn neutrally, whatever was used.
pub proof fn an_unknown_budget_is_neutral(u: ContextUsageView)
    requires
        u.budget_tokens == 0,
    ensures
        u.level_spec() == ContextFillLevel::Green,
        percentage::percent(u.used_tokens as nat, 0) == 0,
{
}

/// The colour goes by the part of a known budget that is used: red from the whole of
/// it on, amber from 85 hundredths up to the whole, green below.
pub proof fn the_colour_goes_by_the_part_used(u: ContextUsageView)
    ensures
        u.level_spec() == ContextFillLevel::Red <==> 0 < u.budget_tokens <= u.used_tokens,
        u.level_spec() == ContextFillLevel::Amber <==> 85 * u.budget_tokens <= 100 * u.used_tokens
            && u.used_tokens < u.budget_tokens,
        u.level_spec() == ContextFillLevel::Green <==> u.budget_tokens == 0 || 100 * u.used_tokens
            < 85 * u.budget_tokens,
{
}

/// Counts in the same proportion have the same colour, whatever their size, and
/// whether or not a compaction is under way.
pub proof fn the_colour_keeps_under_scaling(a: ContextUsageView, b: ContextUsageView)
    requires
        a.used_tokens * b.budget_tokens == b.used_tokens * a.budget_tokens,
        a.budget_tokens > 0,
        b.budget_tokens > 0,
    ensures
        a.level_spec() == b.level_spec(),
{
    let (ua, ga, ub, gb) = (
        a.used_tokens as int,
        a.budget_tokens as int,
        b.used_tokens as int,
        b.budget_tokens as int,
    );
    assert(ua >= ga <==> ub >= gb) by (nonlinear_arith)
        requires
            ua * gb == ub * ga,
            ga > 0,
            gb > 0,
    ;
    assert(100 * ua >= 85 * ga <==> 100 * ub >= 85 * gb) by (nonlinear_arith)
        requires
            ua * gb == ub * ga,
            ga > 0,
            gb > 0,
    ;
}

/// A count below a thousand is printed as it is; any other is cut down to whole
/// thousands, and marked.
pub proof fn a_count_is_printed_in_thousands(n: nat)
    ensures
        n < 1000 ==> text::number_of(abbreviated(n)) == n && abbreviated(n) == text::decimal(n),
        n >= 1000 ==> {
            &&& abbreviated(n).last() == 'k'
            &&& text::number_of(abbreviated(n).drop_last()) == n / 1000
            &&& abbreviated(n).drop_last() == text::decimal(n / 1000)
        },
{
    reveal_strlit("k");
    text::decimals_are_read_back(n);
    text::decimals_are_read_back(n / 1000);
    if n >= 1000 {
        assert(abbreviated(n).drop_last() =~= text::decimal(n / 1000));
    }
}

/// The readout tells the count used, the budget and the percentage, in that order,
/// and a compaction under way is marked behind them.
pub proof fn the_readout_tells_all_three(u: ContextUsageView, v: ContextUsageView)
    requires
        !u.compaction_active,
        v == (ContextUsageView { compaction_active: true, ..u }),
    ensures
        u.readout_spec() == abbreviated(u.used_tokens as nat) + " / "@ + abbreviated(
            u.budget_tokens as nat,
        ) + " ("@ + text::decimal(
            percentage::percent(u.used_tokens as nat, u.budget_tokens as nat),
        ) + "%)"@,
        v.readout_spec() == u.readout_spec() + " ⟳"@,
{
    assert(u.readout_spec() + Seq::<char>::empty() =~= u.readout_spec());
    assert(u.readout_spec() =~= abbreviated(u.used_tokens as nat) + " / "@ + abbreviated(
        u.budget_tokens as nat,
    ) + " ("@ + text::decimal(percentage::percent(u.used_tokens as nat, u.budget_tokens as nat))
        + "%)"@);
}

/// Each colour has its own class.
pub proof fn each_colour_has_its_class()
    ensures
        ContextFillLevel::Green.class() == "context-fill-green"@,
        ContextFillLevel::Amber.class() == "context-fill-amber"@,
        ContextFillLevel::Red.class() == "context-fill-red"@,
{
}

} // verus!
