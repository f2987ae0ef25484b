//! The fleet publication path: evaluating a batch of analysis results
//! against the configured thresholds and emitting the ordered sequence of
//! findings the shared context is to receive.
//!
//! The whole batch is a pure function of the result sequence and the
//! thresholds, stated by [`findings_of`]: per-pattern findings in discovery
//! order, then the total-energy and total-carbon threshold findings, then
//! the high-impact-function digest, and always one efficiency-rating
//! finding last.

use vstd::prelude::*;
use vstd::string::StringExecFns;
use crate::fleet::{
    res_views, res_sum_energy_mj, res_sum_carbon_ug, rating_label, severity_map, finding_views,
    finding_ids, AnalysisResult, AnalysisResultView, BotId, EcologicalThresholds, Finding,
    FindingView, PatternView, Severity, calculate_efficiency_rating, map_severity,
};
use crate::text::{dec_rep, fixed2_rep, rounded_div, slug_rep, slug, fmt_fixed2, fmt_u128,
    round_div};

verus! {

/// The finding published for one detected pattern of one function: a
/// deterministic identifier built from the pattern-name slug and the
/// function name, the mapped severity, and a message combining pattern
/// name, function name, description and estimated impact.
pub open spec fn pattern_finding(fname: Seq<char>, p: PatternView) -> FindingView {
    FindingView {
        bot: BotId::Sustainabot,
        id: "SUSTAIN-PATTERN-"@ + slug_rep(p.name) + "-"@ + fname,
        severity: severity_map(p.severity),
        message: p.name + " in "@ + fname + ": "@ + p.description + ". Estimated impact: "@
            + p.estimated_impact,
    }
}

/// The pattern findings of one result, in pattern order.
pub open spec fn result_pattern_findings(r: AnalysisResultView) -> Seq<FindingView> {
    r.patterns.map_values(|p: PatternView| pattern_finding(r.function_name, p))
}

/// The pattern findings of a result sequence, in discovery order.
pub open spec fn pattern_findings(rs: Seq<AnalysisResultView>) -> Seq<FindingView>
    decreases rs.len(),
{
    if rs.len() == 0 {
        Seq::empty()
    } else {
        pattern_findings(rs.drop_last()) + result_pattern_findings(rs.last())
    }
}

/// The functions whose energy strictly exceeds the per-function threshold,
/// with their energies, in encounter order.
pub open spec fn high_impact(rs: Seq<AnalysisResultView>, t: EcologicalThresholds) -> Seq<
    (Seq<char>, u64),
>
    decreases rs.len(),
{
    if rs.len() == 0 {
        Seq::empty()
    } else {
        high_impact(rs.drop_last(), t) + if rs.last().energy.millijoules
            > t.energy_per_function_millijoules {
            seq![(rs.last().function_name, rs.last().energy.millijoules)]
        } else {
            Seq::empty()
        }
    }
}

/// One entry of the high-impact digest: the function name with its energy
/// in joules to two decimal places.
pub open spec fn impact_entry_rep(e: (Seq<char>, u64)) -> Seq<char> {
    e.0 + " ("@ + fixed2_rep(rounded_div(e.1 as nat, 10)) + "J)"@
}

/// The comma-joined high-impact entries, in collection order.
pub open spec fn impact_list_rep(s: Seq<(Seq<char>, u64)>) -> Seq<char>
    decreases s.len(),
{
    if s.len() == 0 {
        Seq::empty()
    } else if s.len() == 1 {
        impact_entry_rep(s[0])
    } else {
        impact_list_rep(s.drop_last()) + ", "@ + impact_entry_rep(s.last())
    }
}

/// The warning emitted when the total energy exceeds its threshold, with
/// both values in kilojoules to two decimal places.
pub open spec fn energy_finding(total_mj: int, t: EcologicalThresholds) -> FindingView {
    FindingView {
        bot: BotId::Sustainabot,
        id: "SUSTAIN-HIGH-ENERGY"@,
        severity: Severity::Warning,
        message: "High total energy consumption: "@ + fixed2_rep(
            rounded_div(total_mj as nat, 10000),
        ) + " kJ (threshold: "@ + fixed2_rep(
            rounded_div(t.total_energy_threshold_millijoules as nat, 10000),
        ) + " kJ)"@,
    }
}

/// The warning emitted when the total carbon exceeds its threshold, with
/// both values in grams to two decimal places.
pub open spec fn carbon_finding(total_ug: int, t: EcologicalThresholds) -> FindingView {
    FindingView {
        bot: BotId::Sustainabot,
        id: "SUSTAIN-HIGH-CARBON"@,
        severity: Severity::Warning,
        message: "High carbon footprint: "@ + fixed2_rep(rounded_div(total_ug as nat, 10000))
            + "g CO₂ (threshold: "@ + fixed2_rep(
            rounded_div(t.total_carbon_threshold_micrograms as nat, 10000),
        ) + "g)"@,
    }
}

/// The informational digest of the high-impact functions: their count and
/// the comma-joined entries.
pub open spec fn impact_finding(hi: Seq<(Seq<char>, u64)>) -> FindingView {
    FindingView {
        bot: BotId::Sustainabot,
        id: "SUSTAIN-HIGH-IMPACT-FUNCTIONS"@,
        severity: Severity::Info,
        message: dec_rep(hi.len()) + " function(s) exceed per-function energy threshold: "@
            + impact_list_rep(hi),
    }
}

/// The efficiency-rating finding, emitted on every run, empty input
/// included.
pub open spec fn rating_finding(rs: Seq<AnalysisResultView>) -> FindingView {
    FindingView {
        bot: BotId::Sustainabot,
        id: "SUSTAIN-EFFICIENCY-RATING"@,
        severity: Severity::Info,
        message: "Ecological efficiency rating: "@ + rating_label(rs),
    }
}

/// The threshold-gated findings: total energy, total carbon, high-impact
/// digest. Each appears exactly when its threshold is strictly exceeded
/// (for the digest: when any function exceeded the per-function threshold).
pub open spec fn threshold_findings(rs: Seq<AnalysisResultView>, t: EcologicalThresholds) -> Seq<
    FindingView,
> {
    (if res_sum_energy_mj(rs) > t.total_energy_threshold_millijoules {
        seq![energy_finding(res_sum_energy_mj(rs), t)]
    } else {
        Seq::empty()
    }) + (if res_sum_carbon_ug(rs) > t.total_carbon_threshold_micrograms {
        seq![carbon_finding(res_sum_carbon_ug(rs), t)]
    } else {
        Seq::empty()
    }) + (if high_impact(rs, t).len() > 0 {
        seq![impact_finding(high_impact(rs, t))]
    } else {
        Seq::empty()
    })
}

/// Everything one publication run emits, in order: the per-pattern
/// findings, the threshold findings, and the rating finding.
pub open spec fn findings_of(rs: Seq<AnalysisResultView>, t: EcologicalThresholds) -> Seq<
    FindingView,
> {
    pattern_findings(rs) + threshold_findings(rs, t) + seq![rating_finding(rs)]
}

/// The views of string/energy pairs.
pub open spec fn pair_views(s: Seq<(String, u64)>) -> Seq<(Seq<char>, u64)> {
    s.map_values(|p: (String, u64)| (p.0@, p.1))
}

/// Evaluate a batch of analysis results against the thresholds and return
/// the ordered findings to publish to the shared context, exactly as
/// [`findings_of`] states them.
pub fn publish_findings(results: &Vec<AnalysisResult>, thresholds: &EcologicalThresholds) -> (out:
    Vec<Finding>)
    ensures
        finding_views(out@) == findings_of(res_views(results@), *thresholds),
{
    let ghost s = res_views(results@);
    let ghost t = *thresholds;
    let mut findings: Vec<Finding> = Vec::new();
    let mut total_energy: u128 = 0;
    let mut total_carbon: u128 = 0;
    let mut high_impact_functions: Vec<(String, u64)> = Vec::new();
    let mut i: usize = 0;
    proof {
        assert(s.take(0) =~= Seq::<AnalysisResultView>::empty());
        assert(finding_views(findings@) =~= pattern_findings(s.take(0)));
        assert(pair_views(high_impact_functions@) =~= high_impact(s.take(0), t));
    }
    while i < results.len()
        invariant
            i <= results.len(),
            s == res_views(results@),
            t == *thresholds,
            s.len() == results@.len(),
            total_energy == res_sum_energy_mj(s.take(i as int)),
            total_carbon == res_sum_carbon_ug(s.take(i as int)),
            total_energy <= i * 0xFFFF_FFFF_FFFF_FFFFu64,
            total_carbon <= i * 0xFFFF_FFFF_FFFF_FFFFu64,
            pair_views(high_impact_functions@) == high_impact(s.take(i as int), t),
            finding_views(findings@) == pattern_findings(s.take(i as int)),
        decreases results.len() - i,
    {
        let result = &results[i];
        let ghost rv = s[i as int];
        proof {
            assert(rv == results@[i as int]@);
            assert(s.take(i + 1).drop_last() =~= s.take(i as int));
            assert(s.take(i + 1).last() == rv);
            assert(usize::MAX as int <= 0xFFFF_FFFF_FFFF_FFFFu64 as int);
            assert((i + 1) * 0xFFFF_FFFF_FFFF_FFFFu64 == i * 0xFFFF_FFFF_FFFF_FFFFu64
                + 0xFFFF_FFFF_FFFF_FFFFu64);
            assert((i + 1) * 0xFFFF_FFFF_FFFF_FFFFu64 <= 0xFFFF_FFFF_FFFF_FFFFu64
                * 0xFFFF_FFFF_FFFF_FFFFu64);
        }
        total_energy = total_energy + result.energy.millijoules as u128;
        total_carbon = total_carbon + result.carbon.micrograms as u128;
        if result.energy.millijoules > thresholds.energy_per_function_millijoules {
            high_impact_functions.push((result.function_name.clone(), result.energy.millijoules));
            proof {
                assert(pair_views(high_impact_functions@) =~= high_impact(s.take(i as int), t)
                    + seq![(rv.function_name, rv.energy.millijoules)]);
                assert(pair_views(high_impact_functions@) =~= high_impact(s.take(i + 1), t));
            }
        } else {
            proof {
                assert(high_impact(s.take(i + 1), t) =~= high_impact(s.take(i as int), t));
            }
        }
        let ghost fname = rv.function_name;
        let mut j: usize = 0;
        proof {
            assert(rv.patterns.len() == result.patterns@.len());
            assert(result_pattern_findings(rv).take(0) =~= Seq::<FindingView>::empty());
            assert(finding_views(findings@) =~= pattern_findings(s.take(i as int))
                + result_pattern_findings(rv).take(0));
        }
        while j < result.patterns.len()
            invariant
                j <= result.patterns.len(),
                i < results.len(),
                s == res_views(results@),
                s.len() == results@.len(),
                rv == results@[i as int]@,
                result == &results[i as int],
                fname == rv.function_name,
                rv.patterns.len() == result.patterns@.len(),
                finding_views(findings@) == pattern_findings(s.take(i as int))
                    + result_pattern_findings(rv).take(j as int),
            decreases result.patterns.len() - j,
        {
            let p = &result.patterns[j];
            let ghost pv = rv.patterns[j as int];
            proof {
                assert(pv == result.patterns@[j as int]@);
            }
            let mut id = "SUSTAIN-PATTERN-".to_owned();
            let sl = slug(p.name.as_str());
            id.append(sl.as_str());
            id.append("-");
            id.append(result.function_name.as_str());
            let mut message = p.name.clone();
            message.append(" in ");
            message.append(result.function_name.as_str());
            message.append(": ");
            message.append(p.description.as_str());
            message.append(". Estimated impact: ");
            message.append(p.estimated_impact.as_str());
            let f = Finding {
                bot: BotId::Sustainabot,
                id,
                severity: map_severity(p.severity),
                message,
            };
            proof {
                assert(f@ == pattern_finding(fname, pv));
                assert(result_pattern_findings(rv)[j as int] == pattern_finding(fname, pv));
            }
            findings.push(f);
            proof {
                assert(finding_views(findings@) =~= pattern_findings(s.take(i as int))
                    + result_pattern_findings(rv).take(j as int) + seq![pattern_finding(fname, pv)]);
                assert(result_pattern_findings(rv).take(j + 1) =~= result_pattern_findings(
                    rv,
                ).take(j as int) + seq![pattern_finding(fname, pv)]);
                assert(finding_views(findings@) =~= pattern_findings(s.take(i as int))
                    + result_pattern_findings(rv).take(j + 1));
            }
            j = j + 1;
        }
        proof {
            assert(result_pattern_findings(rv).take(rv.patterns.len() as int)
                =~= result_pattern_findings(rv));
            assert(finding_views(findings@) =~= pattern_findings(s.take(i + 1)));
        }
        i = i + 1;
    }
    proof {
        assert(s.take(results@.len() as int) =~= s);
        assert((results@.len() as int) * 0xFFFF_FFFF_FFFF_FFFFu64 <= 0xFFFF_FFFF_FFFF_FFFFu64
            * 0xFFFF_FFFF_FFFF_FFFFu64);
    }
    let ghost base = pattern_findings(s);
    if total_energy > thresholds.total_energy_threshold_millijoules as u128 {
        let mut message = "High total energy consumption: ".to_owned();
        let observed = fmt_fixed2(round_div(total_energy, 10000));
        message.append(observed.as_str());
        message.append(" kJ (threshold: ");
        let limit = fmt_fixed2(
            round_div(thresholds.total_energy_threshold_millijoules as u128, 10000),
        );
        message.append(limit.as_str());
        message.append(" kJ)");
        let f = Finding {
            bot: BotId::Sustainabot,
            id: "SUSTAIN-HIGH-ENERGY".to_owned(),
            severity: Severity::Warning,
            message,
        };
        proof {
            assert(f@ == energy_finding(res_sum_energy_mj(s), t));
        }
        findings.push(f);
    }
    proof {
        assert(finding_views(findings@) =~= base + (
        if res_sum_energy_mj(s) > t.total_energy_threshold_millijoules {
            seq![energy_finding(res_sum_energy_mj(s), t)]
        } else {
            Seq::<FindingView>::empty()
        }));
    }
    let ghost with_energy = finding_views(findings@);
    if total_carbon > thresholds.total_carbon_threshold_micrograms as u128 {
        let mut message = "High carbon footprint: ".to_owned();
        let observed = fmt_fixed2(round_div(total_carbon, 10000));
        message.append(observed.as_str());
        message.append("g CO₂ (threshold: ");
        let limit = fmt_fixed2(
            round_div(thresholds.total_carbon_threshold_micrograms as u128, 10000),
        );
        message.append(limit.as_str());
        message.append("g)");
        let f = Finding {
            bot: BotId::Sustainabot,
            id: "SUSTAIN-HIGH-CARBON".to_owned(),
            severity: Severity::Warning,
            message,
        };
        proof {
            assert(f@ == carbon_finding(res_sum_carbon_ug(s), t));
        }
        findings.push(f);
    }
    proof {
        assert(finding_views(findings@) =~= with_energy + (
        if res_sum_carbon_ug(s) > t.total_carbon_threshold_micrograms {
            seq![carbon_finding(res_sum_carbon_ug(s), t)]
        } else {
            Seq::<FindingView>::empty()
        }));
    }
    let ghost with_carbon = finding_views(findings@);
    let ghost hi = high_impact(s, t);
    if high_impact_functions.len() > 0 {
        let mut list = String::new();
        let mut k: usize = 0;
        proof {
            assert(hi.len() == high_impact_functions@.len());
            assert(list@ =~= impact_list_rep(hi.take(0)));
        }
        while k < high_impact_functions.len()
            invariant
                k <= high_impact_functions.len(),
                pair_views(high_impact_functions@) == hi,
                hi.len() == high_impact_functions@.len(),
                list@ == impact_list_rep(hi.take(k as int)),
            decreases high_impact_functions.len() - k,
        {
            proof {
                assert(hi[k as int] == (high_impact_functions@[k as int].0@,
                high_impact_functions@[k as int].1));
                assert(hi.take(k + 1).drop_last() =~= hi.take(k as int));
                assert(hi.take(k + 1).last() == hi[k as int]);
            }
            if k > 0 {
                list.append(", ");
            }
            let name = high_impact_functions[k].0.clone();
            let mj = high_impact_functions[k].1;
            let mut entry = name;
            entry.append(" (");
            let joules = fmt_fixed2(round_div(mj as u128, 10));
            entry.append(joules.as_str());
            entry.append("J)");
            proof {
                assert(entry@ == impact_entry_rep(hi[k as int]));
            }
            list.append(entry.as_str());
            proof {
                if k == 0 {
                    assert(hi.take(1).len() == 1);
                    assert(hi.take(1)[0] == hi[0]);
                    assert(list@ =~= impact_list_rep(hi.take(1)));
                } else {
                    assert(list@ =~= impact_list_rep(hi.take(k + 1)));
                }
            }
            k = k + 1;
        }
        proof {
            assert(hi.take(hi.len() as int) =~= hi);
        }
        let mut message = fmt_u128(high_impact_functions.len() as u128);
        message.append(" function(s) exceed per-function energy threshold: ");
        message.append(list.as_str());
        let f = Finding {
            bot: BotId::Sustainabot,
            id: "SUSTAIN-HIGH-IMPACT-FUNCTIONS".to_owned(),
            severity: Severity::Info,
            message,
        };
        proof {
            assert(f@ == impact_finding(hi));
        }
        findings.push(f);
    }
    proof {
        assert(finding_views(findings@) =~= with_carbon + (if hi.len() > 0 {
            seq![impact_finding(hi)]
        } else {
            Seq::<FindingView>::empty()
        }));
        assert(finding_views(findings@) =~= base + threshold_findings(s, t));
    }
    let rating = calculate_efficiency_rating(results, thresholds);
    let mut message = "Ecological efficiency rating: ".to_owned();
    message.append(rating.as_str());
    let f = Finding {
        bot: BotId::Sustainabot,
        id: "SUSTAIN-EFFICIENCY-RATING".to_owned(),
        severity: Severity::Info,
        message,
    };
    proof {
        assert(f@ == rating_finding(s));
    }
    findings.push(f);
    proof {
        assert(finding_views(findings@) =~= base + threshold_findings(s, t) + seq![
            rating_finding(s),
        ]);
        assert(finding_views(findings@) =~= findings_of(s, t));
    }
    findings
}

/// The emitted finding identifiers are deterministic: equal result
/// sequences evaluated against equal thresholds yield identifier for
/// identifier the same sequence, in the same order.
pub proof fn lemma_finding_ids_deterministic(
    r1: Seq<AnalysisResultView>,
    r2: Seq<AnalysisResultView>,
    t1: EcologicalThresholds,
    t2: EcologicalThresholds,
)
    requires
        r1 == r2,
        t1 == t2,
    ensures
        finding_ids(findings_of(r1, t1)) == finding_ids(findings_of(r2, t2)),
{
}

} // verus!
