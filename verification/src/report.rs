//! The human-readable reports: the per-function analysis text and the
//! directory-check report with its PASS/FAIL verdict.
//!
//! Both are pure functions of the record sequence; every rendered figure is
//! the exact fixed-point value with the unit's fixed precision.

use vstd::prelude::*;
use vstd::string::StringExecFns;
use crate::aggregate::{
    count_below, lemma_sums_bounded, mean_tenths, rec_views,
    sum_carbon_ug, sum_eco_tenths, sum_energy_mj, sum_overall_tenths, Summary,
};
use crate::record::{FunctionRecord, FunctionRecordView};
use crate::text::{
    dec_rep, fixed1_rep, fixed2_rep, fixed4_rep, fmt_fixed1, fmt_fixed2, fmt_fixed4, fmt_plain1,
    fmt_u128, plain1_rep, round_div, rounded_div,
};

verus! {

/// A function name, or the analysis-report marker for an anonymous one.
pub open spec fn name_or_anonymous(name: Option<Seq<char>>) -> Seq<char> {
    match name {
        Option::Some(n) => n,
        Option::None => "<anonymous>"@,
    }
}

/// A function name, or the directory-check marker for an anonymous one.
pub open spec fn name_or_anon(name: Option<Seq<char>>) -> Seq<char> {
    match name {
        Option::Some(n) => n,
        Option::None => "<anon>"@,
    }
}

/// The bullet list of one record's recommendations, one line each.
pub open spec fn recommendations_rep(recs: Seq<Seq<char>>) -> Seq<char>
    decreases recs.len(),
{
    if recs.len() == 0 {
        Seq::empty()
    } else {
        recommendations_rep(recs.drop_last()) + "     • "@ + recs.last() + "\n"@
    }
}

/// The report block of one record: identity, the four resource figures with
/// their fixed precision (energy and time to two decimals, carbon to four,
/// memory in whole bytes), the four health scores to one decimal, and the
/// recommendations when there are any.
pub open spec fn record_block_rep(r: FunctionRecordView) -> Seq<char> {
    "\n📍 Function: "@ + name_or_anonymous(r.name) + "\n"@ + "   Location: "@ + dec_rep(
        r.line as nat,
    ) + ":"@ + dec_rep(r.column as nat) + "\n"@ + "\n   Resources:\n"@ + "     Energy:   "@
        + fixed2_rep(rounded_div(r.resources.energy.millijoules as nat, 10)) + " J\n"@
        + "     Time:     "@ + fixed2_rep(rounded_div(r.resources.duration.microseconds as nat, 10))
        + " ms\n"@ + "     Carbon:   "@ + fixed4_rep(
        rounded_div(r.resources.carbon.micrograms as nat, 100),
    ) + " gCO2e\n"@ + "     Memory:   "@ + dec_rep(r.resources.memory.bytes as nat) + " bytes\n"@
        + "\n   Health Index:\n"@ + "     Eco:      "@ + fixed1_rep(r.health.eco_tenths as nat)
        + "/100\n"@ + "     Econ:     "@ + fixed1_rep(r.health.econ_tenths as nat) + "/100\n"@
        + "     Quality:  "@ + fixed1_rep(r.health.quality_tenths as nat) + "/100\n"@
        + "     Overall:  "@ + fixed1_rep(r.health.overall_tenths as nat) + "/100\n"@ + (
    if recs_nonempty(r) {
        "\n   Recommendations:\n"@ + recommendations_rep(r.recommendations)
    } else {
        Seq::empty()
    })
}

/// Whether a record carries recommendations.
pub open spec fn recs_nonempty(r: FunctionRecordView) -> bool {
    r.recommendations.len() > 0
}

/// The report blocks of a record sequence, in order.
pub open spec fn record_blocks_rep(s: Seq<FunctionRecordView>) -> Seq<char>
    decreases s.len(),
{
    if s.len() == 0 {
        Seq::empty()
    } else {
        record_blocks_rep(s.drop_last()) + record_block_rep(s.last())
    }
}

/// The full analysis report of a record sequence.
pub open spec fn results_text_rep(s: Seq<FunctionRecordView>) -> Seq<char> {
    record_blocks_rep(s) + "\n✅ Analysis complete\n"@
}

/// One below-threshold line of the directory check: file, function, the
/// eco score to one decimal, and the configured threshold.
pub open spec fn below_line_rep(r: FunctionRecordView, threshold_tenths: nat) -> Seq<char> {
    "  BELOW THRESHOLD: "@ + r.file_path + " :: "@ + name_or_anon(r.name) + " (eco: "@
        + fixed1_rep(r.health.eco_tenths as nat) + ", threshold: "@ + plain1_rep(threshold_tenths)
        + ")\n"@
}

/// The below-threshold lines of a scan, in discovery order: one line for
/// each record whose eco score lies strictly below the threshold.
pub open spec fn below_lines_rep(s: Seq<FunctionRecordView>, threshold_tenths: nat) -> Seq<char>
    decreases s.len(),
{
    if s.len() == 0 {
        Seq::empty()
    } else {
        below_lines_rep(s.drop_last(), threshold_tenths) + (
        if s.last().health.eco_tenths < threshold_tenths {
            below_line_rep(s.last(), threshold_tenths)
        } else {
            Seq::empty()
        })
    }
}

/// The averaged and summed figures of the summary block. Skipped entirely
/// for an empty scan: no "N/A", no fabricated zero.
pub open spec fn averages_rep(s: Seq<FunctionRecordView>) -> Seq<char> {
    if s.len() == 0 {
        Seq::empty()
    } else {
        "Avg eco score:         "@ + fixed1_rep(
            mean_tenths(sum_eco_tenths(s), s.len() as int) as nat,
        ) + "/100\n"@ + "Avg overall health:    "@ + fixed1_rep(
            mean_tenths(sum_overall_tenths(s), s.len() as int) as nat,
        ) + "/100\n"@ + "Total est. energy:     "@ + fixed2_rep(
            rounded_div(sum_energy_mj(s) as nat, 10),
        ) + " J\n"@ + "Total est. carbon:     "@ + fixed4_rep(
            rounded_div(sum_carbon_ug(s) as nat, 100),
        ) + " gCO2e\n"@
    }
}

/// The final verdict line: FAIL when at least one record fell below the
/// threshold, PASS otherwise (an empty scan passes).
pub open spec fn verdict_rep(s: Seq<FunctionRecordView>, threshold_tenths: nat) -> Seq<char> {
    if count_below(s, threshold_tenths as int) > 0 {
        "\nResult: FAIL ("@ + dec_rep(count_below(s, threshold_tenths as int) as nat)
            + " functions below eco threshold "@ + plain1_rep(threshold_tenths) + ")\n"@
    } else {
        "\nResult: PASS (all functions meet eco threshold "@ + plain1_rep(threshold_tenths)
            + ")\n"@
    }
}

/// The summary block of the directory check.
pub open spec fn summary_rep(
    s: Seq<FunctionRecordView>,
    total_files: u32,
    threshold_tenths: nat,
) -> Seq<char> {
    "\n--- Summary ---\n"@ + "Files analyzed:        "@ + dec_rep(total_files as nat) + "\n"@
        + "Functions found:       "@ + dec_rep(s.len()) + "\n"@ + "Below threshold:       "@
        + dec_rep(count_below(s, threshold_tenths as int) as nat) + "\n"@ + averages_rep(s)
        + verdict_rep(s, threshold_tenths)
}

/// The whole directory-check report.
pub open spec fn check_report_rep(
    s: Seq<FunctionRecordView>,
    total_files: u32,
    threshold_tenths: nat,
) -> Seq<char> {
    below_lines_rep(s, threshold_tenths) + summary_rep(s, total_files, threshold_tenths)
}

/// The outcome of one directory check: the rendered report and the
/// pass/fail verdict the process result must reflect.
pub struct CheckOutcome {
    pub report: String,
    pub below_threshold: usize,
    pub pass: bool,
}

/// Render the full analysis report of a record sequence.
pub fn render_results_text(records: &Vec<FunctionRecord>) -> (r: String)
    ensures
        r@ == results_text_rep(rec_views(records@)),
{
    let ghost s = rec_views(records@);
    let mut out = String::new();
    let mut i: usize = 0;
    proof {
        assert(s.take(0) =~= Seq::<FunctionRecordView>::empty());
        assert(out@ =~= record_blocks_rep(s.take(0)));
    }
    while i < records.len()
        invariant
            i <= records.len(),
            s == rec_views(records@),
            s.len() == records@.len(),
            out@ == record_blocks_rep(s.take(i as int)),
        decreases records.len() - i,
    {
        let ghost rv = s[i as int];
        proof {
            assert(rv == records@[i as int]@);
            assert(s.take(i + 1).drop_last() =~= s.take(i as int));
            assert(s.take(i + 1).last() == rv);
        }
        let rec = &records[i];
        let mut block = "\n📍 Function: ".to_owned();
        let name: &str = match &rec.name {
            Option::Some(n) => n.as_str(),
            Option::None => "<anonymous>",
        };
        block.append(name);
        block.append("\n");
        block.append("   Location: ");
        let line_s = fmt_u128(rec.line as u128);
        block.append(line_s.as_str());
        block.append(":");
        let col_s = fmt_u128(rec.column as u128);
        block.append(col_s.as_str());
        block.append("\n");
        block.append("\n   Resources:\n");
        block.append("     Energy:   ");
        let energy_s = fmt_fixed2(round_div(rec.resources.energy.millijoules as u128, 10));
        block.append(energy_s.as_str());
        block.append(" J\n");
        block.append("     Time:     ");
        let time_s = fmt_fixed2(round_div(rec.resources.duration.microseconds as u128, 10));
        block.append(time_s.as_str());
        block.append(" ms\n");
        block.append("     Carbon:   ");
        let carbon_s = fmt_fixed4(round_div(rec.resources.carbon.micrograms as u128, 100));
        block.append(carbon_s.as_str());
        block.append(" gCO2e\n");
        block.append("     Memory:   ");
        let mem_s = fmt_u128(rec.resources.memory.bytes as u128);
        block.append(mem_s.as_str());
        block.append(" bytes\n");
        block.append("\n   Health Index:\n");
        block.append("     Eco:      ");
        let eco_s = fmt_fixed1(rec.health.eco_tenths as u128);
        block.append(eco_s.as_str());
        block.append("/100\n");
        block.append("     Econ:     ");
        let econ_s = fmt_fixed1(rec.health.econ_tenths as u128);
        block.append(econ_s.as_str());
        block.append("/100\n");
        block.append("     Quality:  ");
        let quality_s = fmt_fixed1(rec.health.quality_tenths as u128);
        block.append(quality_s.as_str());
        block.append("/100\n");
        block.append("     Overall:  ");
        let overall_s = fmt_fixed1(rec.health.overall_tenths as u128);
        block.append(overall_s.as_str());
        block.append("/100\n");
        let ghost head = block@;
        if rec.recommendations.len() > 0 {
            block.append("\n   Recommendations:\n");
            let mut k: usize = 0;
            proof {
                assert(rv.recommendations.len() == rec.recommendations@.len());
                assert(rv.recommendations.take(0) =~= Seq::<Seq<char>>::empty());
                assert(recommendations_rep(rv.recommendations.take(0)) =~= Seq::<char>::empty());
                assert(block@ =~= head + "\n   Recommendations:\n"@ + recommendations_rep(
                    rv.recommendations.take(0),
                ));
            }
            while k < rec.recommendations.len()
                invariant
                    k <= rec.recommendations.len(),
                    i < records.len(),
                    s == rec_views(records@),
                    s.len() == records@.len(),
                    rv == records@[i as int]@,
                    rec == &records[i as int],
                    rv.recommendations.len() == rec.recommendations@.len(),
                    block@ == head + "\n   Recommendations:\n"@ + recommendations_rep(
                        rv.recommendations.take(k as int),
                    ),
                decreases rec.recommendations.len() - k,
            {
                proof {
                    assert(rv.recommendations[k as int] == rec.recommendations@[k as int]@);
                    assert(rv.recommendations.take(k + 1).drop_last() =~= rv.recommendations.take(
                        k as int,
                    ));
                    assert(rv.recommendations.take(k + 1).last() == rv.recommendations[k as int]);
                }
                block.append("     • ");
                block.append(rec.recommendations[k].as_str());
                block.append("\n");
                proof {
                    assert(block@ =~= head + "\n   Recommendations:\n"@ + recommendations_rep(
                        rv.recommendations.take(k + 1),
                    ));
                }
                k = k + 1;
            }
            proof {
                assert(rv.recommendations.take(rv.recommendations.len() as int)
                    =~= rv.recommendations);
            }
        }
        proof {
            assert(block@ =~= record_block_rep(rv));
        }
        out.append(block.as_str());
        proof {
            assert(out@ =~= record_blocks_rep(s.take(i + 1)));
        }
        i = i + 1;
    }
    proof {
        assert(s.take(records@.len() as int) =~= s);
    }
    out.append("\n✅ Analysis complete\n");
    out
}

/// The below-threshold lines of one scan, with the below count.
fn render_below_lines(records: &Vec<FunctionRecord>, eco_threshold_tenths: u32) -> (r: (
    String,
    usize,
))
    ensures
        r.0@ == below_lines_rep(rec_views(records@), eco_threshold_tenths as nat),
        r.1 == count_below(rec_views(records@), eco_threshold_tenths as int),
{
    let ghost s = rec_views(records@);
    let ghost t = eco_threshold_tenths as nat;
    let mut out = String::new();
    let mut below: usize = 0;
    let mut i: usize = 0;
    proof {
        assert(s.take(0) =~= Seq::<FunctionRecordView>::empty());
        assert(out@ =~= below_lines_rep(s.take(0), t));
    }
    while i < records.len()
        invariant
            i <= records.len(),
            s == rec_views(records@),
            t == eco_threshold_tenths as nat,
            s.len() == records@.len(),
            out@ == below_lines_rep(s.take(i as int), t),
            below == count_below(s.take(i as int), eco_threshold_tenths as int),
            below <= i,
        decreases records.len() - i,
    {
        let ghost rv = s[i as int];
        proof {
            assert(rv == records@[i as int]@);
            assert(s.take(i + 1).drop_last() =~= s.take(i as int));
            assert(s.take(i + 1).last() == rv);
        }
        let rec = &records[i];
        if rec.health.eco_tenths < eco_threshold_tenths {
            let mut line = "  BELOW THRESHOLD: ".to_owned();
            line.append(rec.file_path.as_str());
            line.append(" :: ");
            let name: &str = match &rec.name {
                Option::Some(n) => n.as_str(),
                Option::None => "<anon>",
            };
            line.append(name);
            line.append(" (eco: ");
            let eco_s = fmt_fixed1(rec.health.eco_tenths as u128);
            line.append(eco_s.as_str());
            line.append(", threshold: ");
            let thr_s = fmt_plain1(eco_threshold_tenths as u128);
            line.append(thr_s.as_str());
            line.append(")\n");
            proof {
                assert(line@ =~= below_line_rep(rv, t));
            }
            out.append(line.as_str());
            below = below + 1;
        }
        proof {
            assert(out@ =~= below_lines_rep(s.take(i + 1), t));
        }
        i = i + 1;
    }
    proof {
        assert(s.take(records@.len() as int) =~= s);
    }
    (out, below)
}

/// The averaged and summed figures of one scan, empty for an empty scan.
fn render_averages(records: &Vec<FunctionRecord>) -> (r: String)
    ensures
        r@ == averages_rep(rec_views(records@)),
{
    let ghost s = rec_views(records@);
    let mut out = String::new();
    if records.len() > 0 {
        let summary = Summary::aggregate(records, 0, 0);
        proof {
            lemma_sums_bounded(s);
            assert((s.len() as int) * 0xFFFF_FFFF_FFFF_FFFFu64 <= 0xFFFF_FFFF_FFFF_FFFFu64
                * 0xFFFF_FFFF_FFFF_FFFFu64);
        }
        out.append("Avg eco score:         ");
        let avg_eco = match summary.avg_eco_tenths {
            Option::Some(v) => v,
            Option::None => 0,
        };
        let avg_eco_s = fmt_fixed1(avg_eco);
        out.append(avg_eco_s.as_str());
        out.append("/100\n");
        out.append("Avg overall health:    ");
        let avg_overall = match summary.avg_overall_tenths {
            Option::Some(v) => v,
            Option::None => 0,
        };
        let avg_overall_s = fmt_fixed1(avg_overall);
        out.append(avg_overall_s.as_str());
        out.append("/100\n");
        out.append("Total est. energy:     ");
        let energy_s = fmt_fixed2(round_div(summary.total_energy_millijoules, 10));
        out.append(energy_s.as_str());
        out.append(" J\n");
        out.append("Total est. carbon:     ");
        let carbon_s = fmt_fixed4(round_div(summary.total_carbon_micrograms, 100));
        out.append(carbon_s.as_str());
        out.append(" gCO2e\n");
        proof {
            assert(out@ =~= averages_rep(s));
        }
    } else {
        proof {
            assert(out@ =~= averages_rep(s));
        }
    }
    out
}

/// The verdict line of one scan.
fn render_verdict(records: &Vec<FunctionRecord>, below: usize, eco_threshold_tenths: u32) -> (r:
    String)
    requires
        below == count_below(rec_views(records@), eco_threshold_tenths as int),
    ensures
        r@ == verdict_rep(rec_views(records@), eco_threshold_tenths as nat),
{
    let ghost s = rec_views(records@);
    let ghost t = eco_threshold_tenths as nat;
    let mut out = String::new();
    if below > 0 {
        out.append("\nResult: FAIL (");
        let count_s = fmt_u128(below as u128);
        out.append(count_s.as_str());
        out.append(" functions below eco threshold ");
        let thr_s = fmt_plain1(eco_threshold_tenths as u128);
        out.append(thr_s.as_str());
        out.append(")\n");
    } else {
        out.append("\nResult: PASS (all functions meet eco threshold ");
        let thr_s = fmt_plain1(eco_threshold_tenths as u128);
        out.append(thr_s.as_str());
        out.append(")\n");
    }
    proof {
        assert(out@ =~= verdict_rep(s, t));
    }
    out
}

/// Run the directory-check evaluation: one below-threshold line per failing
/// record in discovery order, the summary block (averages only when records
/// exist), and the PASS/FAIL verdict. The scan fails exactly when at least
/// one record's eco score lies strictly below the threshold, so an empty
/// scan always passes.
pub fn run_directory_check(
    records: &Vec<FunctionRecord>,
    total_files: u32,
    eco_threshold_tenths: u32,
) -> (o: CheckOutcome)
    ensures
        o.report@ == check_report_rep(
            rec_views(records@),
            total_files,
            eco_threshold_tenths as nat,
        ),
        o.below_threshold == count_below(rec_views(records@), eco_threshold_tenths as int),
        o.pass == (count_below(rec_views(records@), eco_threshold_tenths as int) == 0),
{
    let ghost s = rec_views(records@);
    let ghost t = eco_threshold_tenths as nat;
    let (lines, below) = render_below_lines(records, eco_threshold_tenths);
    let mut out = lines;
    out.append("\n--- Summary ---\n");
    out.append("Files analyzed:        ");
    let files_s = fmt_u128(total_files as u128);
    out.append(files_s.as_str());
    out.append("\n");
    out.append("Functions found:       ");
    let fns_s = fmt_u128(records.len() as u128);
    out.append(fns_s.as_str());
    out.append("\n");
    out.append("Below threshold:       ");
    let below_s = fmt_u128(below as u128);
    out.append(below_s.as_str());
    out.append("\n");
    let averages = render_averages(records);
    out.append(averages.as_str());
    let verdict = render_verdict(records, below, eco_threshold_tenths);
    out.append(verdict.as_str());
    let pass = below == 0;
    proof {
        assert(out@ =~= check_report_rep(s, total_files, t));
    }
    CheckOutcome { report: out, below_threshold: below, pass }
}

} // verus!
