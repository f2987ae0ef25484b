//! The fleet-facing data model: per-function analysis results with their
//! detected patterns, the configured ecological thresholds, the findings the
//! evaluator emits, and the efficiency-rating scale.

use vstd::prelude::*;
use crate::metrics::{Carbon, Duration, Energy};
use crate::text::{dec_rep, fixed2_rep, rounded_div, slug_rep};

verus! {

/// Severity of a detected code pattern, on the crate's own four-level scale.
#[derive(Clone, Copy, PartialEq, Eq, Structural, Debug)]
pub enum PatternSeverity {
    /// Significant ecological impact.
    High,
    /// Moderate impact.
    Medium,
    /// Minor impact.
    Low,
    /// Informational.
    Info,
}

/// A detected code pattern with ecological impact.
pub struct Pattern {
    pub name: String,
    pub description: String,
    pub severity: PatternSeverity,
    pub estimated_impact: String,
}

/// The mathematical view of a [`Pattern`].
pub ghost struct PatternView {
    pub name: Seq<char>,
    pub description: Seq<char>,
    pub severity: PatternSeverity,
    pub estimated_impact: Seq<char>,
}

impl View for Pattern {
    type V = PatternView;

    open spec fn view(&self) -> PatternView {
        PatternView {
            name: self.name@,
            description: self.description@,
            severity: self.severity,
            estimated_impact: self.estimated_impact@,
        }
    }
}

/// One function's analysis result as published to the fleet.
pub struct AnalysisResult {
    pub function_name: String,
    pub file_path: String,
    pub energy: Energy,
    pub carbon: Carbon,
    pub duration: Duration,
    pub patterns: Vec<Pattern>,
}

/// The mathematical view of an [`AnalysisResult`].
pub ghost struct AnalysisResultView {
    pub function_name: Seq<char>,
    pub file_path: Seq<char>,
    pub energy: Energy,
    pub carbon: Carbon,
    pub duration: Duration,
    pub patterns: Seq<PatternView>,
}

impl View for AnalysisResult {
    type V = AnalysisResultView;

    open spec fn view(&self) -> AnalysisResultView {
        AnalysisResultView {
            function_name: self.function_name@,
            file_path: self.file_path@,
            energy: self.energy,
            carbon: self.carbon,
            duration: self.duration,
            patterns: self.patterns@.map_values(|p: Pattern| p@),
        }
    }
}

/// The views of a sequence of analysis results.
pub open spec fn res_views(s: Seq<AnalysisResult>) -> Seq<AnalysisResultView> {
    s.map_values(|r: AnalysisResult| r@)
}

/// The identity of the bot a finding originates from. This crate publishes
/// only as itself and embeds no assumptions about the rest of the fleet.
#[derive(Clone, Copy, PartialEq, Eq, Structural, Debug)]
pub enum BotId {
    Sustainabot,
}

/// Severity of a published finding, on the fleet's coarser two-level scale.
#[derive(Clone, Copy, PartialEq, Eq, Structural, Debug)]
pub enum Severity {
    Warning,
    Info,
}

/// A finding as handed to the shared fleet context: originating bot, a
/// stable identifier, a severity and a human-readable message.
pub struct Finding {
    pub bot: BotId,
    pub id: String,
    pub severity: Severity,
    pub message: String,
}

/// The mathematical view of a [`Finding`].
pub ghost struct FindingView {
    pub bot: BotId,
    pub id: Seq<char>,
    pub severity: Severity,
    pub message: Seq<char>,
}

impl View for Finding {
    type V = FindingView;

    open spec fn view(&self) -> FindingView {
        FindingView { bot: self.bot, id: self.id@, severity: self.severity, message: self.message@ }
    }
}

/// The views of a sequence of findings.
pub open spec fn finding_views(s: Seq<Finding>) -> Seq<FindingView> {
    s.map_values(|f: Finding| f@)
}

/// The identifiers of a sequence of findings, in emission order.
pub open spec fn finding_ids(s: Seq<FindingView>) -> Seq<Seq<char>> {
    s.map_values(|f: FindingView| f.id)
}

/// Ecological thresholds for reporting, immutable for one run. All three
/// are held in exact sub-units: millijoules and micrograms.
#[derive(Clone, Copy, PartialEq, Eq, Structural, Debug)]
pub struct EcologicalThresholds {
    /// Total energy threshold, in millijoules.
    pub total_energy_threshold_millijoules: u64,
    /// Total carbon threshold, in micrograms of CO2-equivalent.
    pub total_carbon_threshold_micrograms: u64,
    /// Per-function energy threshold, in millijoules.
    pub energy_per_function_millijoules: u64,
}

impl Default for EcologicalThresholds {
    /// The default thresholds: 10 kJ total energy, 2 g CO2-equivalent total
    /// carbon, 100 J per function.
    fn default() -> (r: Self)
        ensures
            r.total_energy_threshold_millijoules == 10_000_000,
            r.total_carbon_threshold_micrograms == 2_000_000,
            r.energy_per_function_millijoules == 100_000,
    {
        EcologicalThresholds {
            total_energy_threshold_millijoules: 10_000_000,
            total_carbon_threshold_micrograms: 2_000_000,
            energy_per_function_millijoules: 100_000,
        }
    }
}

/// The fleet severity each pattern severity maps to. The mapping is lossy
/// by design: the fleet taxonomy is coarser than the pattern taxonomy.
pub open spec fn severity_map(s: PatternSeverity) -> Severity {
    match s {
        PatternSeverity::High => Severity::Warning,
        PatternSeverity::Medium => Severity::Warning,
        PatternSeverity::Low => Severity::Info,
        PatternSeverity::Info => Severity::Info,
    }
}

/// Map a pattern severity to the fleet severity it publishes as.
pub fn map_severity(s: PatternSeverity) -> (r: Severity)
    ensures
        r == severity_map(s),
{
    match s {
        PatternSeverity::High => Severity::Warning,
        PatternSeverity::Medium => Severity::Warning,
        PatternSeverity::Low => Severity::Info,
        PatternSeverity::Info => Severity::Info,
    }
}

/// Sum of the energy figures of a result sequence, in millijoules.
pub open spec fn res_sum_energy_mj(s: Seq<AnalysisResultView>) -> int
    decreases s.len(),
{
    if s.len() == 0 {
        0
    } else {
        res_sum_energy_mj(s.drop_last()) + s.last().energy.millijoules
    }
}

/// Sum of the carbon figures of a result sequence, in micrograms.
pub open spec fn res_sum_carbon_ug(s: Seq<AnalysisResultView>) -> int
    decreases s.len(),
{
    if s.len() == 0 {
        0
    } else {
        res_sum_carbon_ug(s.drop_last()) + s.last().carbon.micrograms
    }
}

/// The letter rating of a result sequence, classified by the mean energy
/// per function against the fixed boundaries 10, 50, 100, 200 and 500 J
/// (ascending, half-open bands: a mean of exactly 10 J is already B).
///
/// With the sum held in millijoules, `mean < bound` is exactly
/// `sum < bound_mj * n`, so the classification needs no division. An empty
/// sequence has no mean and rates as the explicit "N/A" marker.
pub open spec fn rating_label(rs: Seq<AnalysisResultView>) -> Seq<char> {
    let sum = res_sum_energy_mj(rs);
    let n = rs.len() as int;
    if n == 0 {
        "N/A"@
    } else if sum < 10_000 * n {
        "A (Excellent)"@
    } else if sum < 50_000 * n {
        "B (Good)"@
    } else if sum < 100_000 * n {
        "C (Average)"@
    } else if sum < 200_000 * n {
        "D (Below Average)"@
    } else if sum < 500_000 * n {
        "E (Poor)"@
    } else {
        "F (Very Poor)"@
    }
}

/// Calculate the efficiency rating of a result sequence on the A-F scale.
///
/// The thresholds parameter is accepted for call-signature stability but
/// deliberately unread: the boundaries of the rating bands are fixed.
pub fn calculate_efficiency_rating(
    results: &Vec<AnalysisResult>,
    _thresholds: &EcologicalThresholds,
) -> (r: String)
    ensures
        r@ == rating_label(res_views(results@)),
{
    let ghost s = res_views(results@);
    if results.len() == 0 {
        return "N/A".to_owned();
    }
    let mut energy: u128 = 0;
    let mut i: usize = 0;
    proof {
        assert(s.take(0) =~= Seq::<AnalysisResultView>::empty());
    }
    while i < results.len()
        invariant
            i <= results.len(),
            s == res_views(results@),
            s.len() == results@.len(),
            energy == res_sum_energy_mj(s.take(i as int)),
            energy <= i * 0xFFFF_FFFF_FFFF_FFFFu64,
        decreases results.len() - i,
    {
        proof {
            assert(s[i as int] == results@[i as int]@);
            assert(s.take(i + 1).drop_last() =~= s.take(i as int));
            assert(s.take(i + 1).last() == s[i as int]);
            assert(usize::MAX as int <= 0xFFFF_FFFF_FFFF_FFFFu64 as int);
            assert((i + 1) * 0xFFFF_FFFF_FFFF_FFFFu64 == i * 0xFFFF_FFFF_FFFF_FFFFu64
                + 0xFFFF_FFFF_FFFF_FFFFu64);
            assert((i + 1) * 0xFFFF_FFFF_FFFF_FFFFu64 <= 0xFFFF_FFFF_FFFF_FFFFu64
                * 0xFFFF_FFFF_FFFF_FFFFu64);
        }
        energy = energy + results[i].energy.millijoules as u128;
        i = i + 1;
    }
    proof {
        assert(s.take(results@.len() as int) =~= s);
    }
    let n = results.len() as u128;
    if energy < 10_000 * n {
        "A (Excellent)".to_owned()
    } else if energy < 50_000 * n {
        "B (Good)".to_owned()
    } else if energy < 100_000 * n {
        "C (Average)".to_owned()
    } else if energy < 200_000 * n {
        "D (Below Average)".to_owned()
    } else if energy < 500_000 * n {
        "E (Poor)".to_owned()
    } else {
        "F (Very Poor)".to_owned()
    }
}

/// The rating is a function of the mean alone: two non-empty result
/// sequences with the same mean energy (stated cross-multiplied, so no
/// division is involved) receive the same letter.
pub proof fn lemma_rating_depends_on_mean(a: Seq<AnalysisResultView>, b: Seq<AnalysisResultView>)
    requires
        a.len() > 0,
        b.len() > 0,
        res_sum_energy_mj(a) * b.len() == res_sum_energy_mj(b) * a.len(),
    ensures
        rating_label(a) == rating_label(b),
{
    let sa = res_sum_energy_mj(a);
    let na = a.len() as int;
    let sb = res_sum_energy_mj(b);
    let nb = b.len() as int;
    lemma_band_same_mean(sa, na, sb, nb, 10_000);
    lemma_band_same_mean(sa, na, sb, nb, 50_000);
    lemma_band_same_mean(sa, na, sb, nb, 100_000);
    lemma_band_same_mean(sa, na, sb, nb, 200_000);
    lemma_band_same_mean(sa, na, sb, nb, 500_000);
}

/// Two sums with the same mean fall on the same side of every band
/// boundary.
proof fn lemma_band_same_mean(sa: int, na: int, sb: int, nb: int, bound: int)
    requires
        na > 0,
        nb > 0,
        sa * nb == sb * na,
    ensures
        (sa < bound * na) == (sb < bound * nb),
{
    assert((sa < bound * na) == (sb < bound * nb)) by (nonlinear_arith)
        requires
            na > 0,
            nb > 0,
            sa * nb == sb * na,
    ;
}

} // verus!
