use sustainabot::aggregate::{below_threshold, Summary};
use sustainabot::metrics::{Carbon, Duration, Energy, HealthScores, Memory, ResourceUsage};
use sustainabot::record::FunctionRecord;
use sustainabot::report::{render_results_text, run_directory_check};
use sustainabot::text::{fmt_fixed1, fmt_fixed2, fmt_fixed4, fmt_plain1, fmt_u128};

fn record(name: Option<&str>, eco_tenths: u32, energy_mj: u64) -> FunctionRecord {
    FunctionRecord {
        name: name.map(|n| n.to_string()),
        file_path: "src/sample.rs".to_string(),
        line: 3,
        column: 1,
        resources: ResourceUsage {
            energy: Energy::millijoules(energy_mj),
            duration: Duration::microseconds(10_000),
            carbon: Carbon::micrograms(100_000),
            memory: Memory::bytes(1024),
        },
        health: HealthScores {
            eco_tenths,
            econ_tenths: 700,
            quality_tenths: 900,
            overall_tenths: 750,
        },
        recommendations: vec![],
    }
}

#[test]
fn aggregate_of_three_records_matches_the_mean_and_sums() {
    let records = vec![
        record(Some("a"), 400, 1_000),
        record(Some("b"), 600, 2_000),
        record(Some("c"), 800, 3_000),
    ];
    let summary = Summary::aggregate(&records, 1, 500);
    assert_eq!(summary.total_functions, 3);
    assert_eq!(summary.below_threshold, 1);
    assert_eq!(summary.avg_eco_tenths, Some(600));
    assert_eq!(summary.avg_overall_tenths, Some(750));
    assert_eq!(summary.total_energy_millijoules, 6_000);
    assert_eq!(summary.total_carbon_micrograms, 300_000);
}

#[test]
fn aggregate_is_order_independent() {
    let forward = vec![
        record(Some("a"), 400, 1_000),
        record(Some("b"), 600, 2_000),
        record(Some("c"), 800, 3_000),
    ];
    let backward = vec![
        record(Some("c"), 800, 3_000),
        record(Some("a"), 400, 1_000),
        record(Some("b"), 600, 2_000),
    ];
    let s1 = Summary::aggregate(&forward, 1, 500);
    let s2 = Summary::aggregate(&backward, 1, 500);
    assert_eq!(s1.total_energy_millijoules, s2.total_energy_millijoules);
    assert_eq!(s1.total_carbon_micrograms, s2.total_carbon_micrograms);
    assert_eq!(s1.avg_eco_tenths, s2.avg_eco_tenths);
    assert_eq!(s1.below_threshold, s2.below_threshold);
}

#[test]
fn empty_aggregate_signals_no_data_rather_than_zero() {
    let records: Vec<FunctionRecord> = vec![];
    let summary = Summary::aggregate(&records, 0, 500);
    assert_eq!(summary.total_functions, 0);
    assert_eq!(summary.below_threshold, 0);
    assert_eq!(summary.avg_eco_tenths, None);
    assert_eq!(summary.avg_overall_tenths, None);
    assert_eq!(summary.total_energy_millijoules, 0);
    assert_eq!(summary.total_carbon_micrograms, 0);
}

#[test]
fn below_threshold_count_is_monotone_in_the_threshold() {
    let records = vec![
        record(Some("a"), 400, 0),
        record(Some("b"), 600, 0),
        record(Some("c"), 800, 0),
    ];
    let low = below_threshold(&records, 400);
    let mid = below_threshold(&records, 500);
    let high = below_threshold(&records, 700);
    assert!(low <= mid && mid <= high);
    assert_eq!(low, 0);
    assert_eq!(mid, 1);
    assert_eq!(high, 2);
}

#[test]
fn exact_threshold_passes() {
    let records = vec![record(Some("edge"), 500, 0)];
    assert_eq!(below_threshold(&records, 500), 0);
    assert_eq!(below_threshold(&records, 501), 1);
}

#[test]
fn directory_check_of_three_records_fails_with_one_below() {
    let records = vec![
        record(Some("a"), 400, 1_000),
        record(Some("b"), 600, 2_000),
        record(Some("c"), 800, 3_000),
    ];
    let outcome = run_directory_check(&records, 1, 500);
    assert!(!outcome.pass);
    assert_eq!(outcome.below_threshold, 1);
    assert!(outcome.report.contains(
        "  BELOW THRESHOLD: src/sample.rs :: a (eco: 40.0, threshold: 50)\n"
    ));
    assert!(outcome.report.contains("Avg eco score:         60.0/100"));
    assert!(outcome.report.contains("Avg overall health:    75.0/100"));
    assert!(outcome.report.contains("Total est. energy:     6.00 J"));
    assert!(outcome.report.contains("Total est. carbon:     0.3000 gCO2e"));
    assert!(outcome
        .report
        .contains("Result: FAIL (1 functions below eco threshold 50)"));
}

#[test]
fn empty_directory_check_passes_without_averages() {
    let records: Vec<FunctionRecord> = vec![];
    let outcome = run_directory_check(&records, 0, 500);
    assert!(outcome.pass);
    assert_eq!(outcome.below_threshold, 0);
    assert!(outcome.report.contains("Files analyzed:        0"));
    assert!(outcome.report.contains("Functions found:       0"));
    assert!(!outcome.report.contains("Avg eco score"));
    assert!(!outcome.report.contains("N/A"));
    assert!(outcome
        .report
        .contains("Result: PASS (all functions meet eco threshold 50)"));
}

#[test]
fn anonymous_functions_are_marked_in_the_check() {
    let records = vec![record(None, 100, 0)];
    let outcome = run_directory_check(&records, 1, 500);
    assert!(outcome.report.contains(":: <anon> (eco: 10.0, threshold: 50)"));
}

#[test]
fn results_text_renders_every_figure_with_its_precision() {
    let mut rec = record(Some("fast_fn"), 850, 5_000);
    rec.recommendations = vec!["Use an iterator".to_string()];
    let text = render_results_text(&vec![rec]);
    assert!(text.contains("📍 Function: fast_fn"));
    assert!(text.contains("   Location: 3:1"));
    assert!(text.contains("     Energy:   5.00 J"));
    assert!(text.contains("     Time:     10.00 ms"));
    assert!(text.contains("     Carbon:   0.1000 gCO2e"));
    assert!(text.contains("     Memory:   1024 bytes"));
    assert!(text.contains("     Eco:      85.0/100"));
    assert!(text.contains("     Econ:     70.0/100"));
    assert!(text.contains("     Quality:  90.0/100"));
    assert!(text.contains("     Overall:  75.0/100"));
    assert!(text.contains("     • Use an iterator"));
    assert!(text.ends_with("\n✅ Analysis complete\n"));
}

#[test]
fn anonymous_functions_are_marked_in_the_results_text() {
    let text = render_results_text(&vec![record(None, 500, 0)]);
    assert!(text.contains("📍 Function: <anonymous>"));
    assert!(!text.contains("Recommendations"));
}

#[test]
fn fixed_point_rendering_is_exact() {
    assert_eq!(fmt_u128(0), "0");
    assert_eq!(fmt_u128(905), "905");
    assert_eq!(fmt_fixed1(1000), "100.0");
    assert_eq!(fmt_fixed1(7), "0.7");
    assert_eq!(fmt_fixed2(1234), "12.34");
    assert_eq!(fmt_fixed2(1200), "12.00");
    assert_eq!(fmt_fixed2(5), "0.05");
    assert_eq!(fmt_fixed4(5), "0.0005");
    assert_eq!(fmt_fixed4(123_456), "12.3456");
    assert_eq!(fmt_plain1(500), "50");
    assert_eq!(fmt_plain1(505), "50.5");
}
