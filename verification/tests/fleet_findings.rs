use sustainabot::fleet::{
    calculate_efficiency_rating, map_severity, AnalysisResult, EcologicalThresholds,
    PatternSeverity, Pattern, Severity,
};
use sustainabot::metrics::{Carbon, Duration, Energy};
use sustainabot::publish::publish_findings;

fn result(name: &str, energy_mj: u64, carbon_ug: u64, patterns: Vec<Pattern>) -> AnalysisResult {
    AnalysisResult {
        function_name: name.to_string(),
        file_path: "test.rs".to_string(),
        energy: Energy::millijoules(energy_mj),
        carbon: Carbon::micrograms(carbon_ug),
        duration: Duration::microseconds(10_000),
        patterns,
    }
}

#[test]
fn test_efficiency_rating() {
    let thresholds = EcologicalThresholds::default();

    // Excellent rating: energy 5.0 J, carbon 0.1 g, duration 10 ms.
    let results = vec![AnalysisResult {
        function_name: "fast_fn".to_string(),
        file_path: "test.rs".to_string(),
        energy: Energy::millijoules(5_000),
        carbon: Carbon::micrograms(100_000),
        duration: Duration::microseconds(10_000),
        patterns: vec![],
    }];

    let rating = calculate_efficiency_rating(&results, &thresholds);
    assert!(rating.starts_with('A'));
}

#[test]
fn single_fast_function_rates_excellent() {
    let thresholds = EcologicalThresholds::default();
    let results = vec![result("fast_fn", 5_000, 100_000, vec![])];
    let rating = calculate_efficiency_rating(&results, &thresholds);
    assert_eq!(rating, "A (Excellent)");
}

#[test]
fn mean_energy_exactly_ten_joules_rates_b() {
    let thresholds = EcologicalThresholds::default();
    let results = vec![result("edge", 10_000, 0, vec![])];
    assert_eq!(calculate_efficiency_rating(&results, &thresholds), "B (Good)");
}

#[test]
fn rating_bands_cover_every_boundary() {
    let thresholds = EcologicalThresholds::default();
    let cases: Vec<(u64, &str)> = vec![
        (9_999, "A (Excellent)"),
        (10_000, "B (Good)"),
        (49_999, "B (Good)"),
        (50_000, "C (Average)"),
        (99_999, "C (Average)"),
        (100_000, "D (Below Average)"),
        (199_999, "D (Below Average)"),
        (200_000, "E (Poor)"),
        (499_999, "E (Poor)"),
        (500_000, "F (Very Poor)"),
    ];
    for (mj, expected) in cases {
        let results = vec![result("f", mj, 0, vec![])];
        assert_eq!(calculate_efficiency_rating(&results, &thresholds), expected);
    }
}

#[test]
fn empty_results_rate_not_applicable() {
    let thresholds = EcologicalThresholds::default();
    let results: Vec<AnalysisResult> = vec![];
    assert_eq!(calculate_efficiency_rating(&results, &thresholds), "N/A");
}

#[test]
fn severity_mapping_is_the_fixed_table() {
    assert_eq!(map_severity(PatternSeverity::High), Severity::Warning);
    assert_eq!(map_severity(PatternSeverity::Medium), Severity::Warning);
    assert_eq!(map_severity(PatternSeverity::Low), Severity::Info);
    assert_eq!(map_severity(PatternSeverity::Info), Severity::Info);
}

#[test]
fn default_thresholds_are_ten_kj_two_grams_hundred_joules() {
    let t = EcologicalThresholds::default();
    assert_eq!(t.total_energy_threshold_millijoules, 10_000_000);
    assert_eq!(t.total_carbon_threshold_micrograms, 2_000_000);
    assert_eq!(t.energy_per_function_millijoules, 100_000);
}

#[test]
fn pattern_finding_identifier_upper_cases_and_hyphenates() {
    let thresholds = EcologicalThresholds::default();
    let pattern = Pattern {
        name: "Nested Loop".to_string(),
        description: "loop inside a loop".to_string(),
        severity: PatternSeverity::High,
        estimated_impact: "2x energy".to_string(),
    };
    let results = vec![result("compute", 1_000, 0, vec![pattern])];
    let findings = publish_findings(&results, &thresholds);
    assert_eq!(findings[0].id, "SUSTAIN-PATTERN-NESTED-LOOP-compute");
    assert_eq!(findings[0].severity, Severity::Warning);
    assert_eq!(
        findings[0].message,
        "Nested Loop in compute: loop inside a loop. Estimated impact: 2x energy"
    );
}

#[test]
fn high_total_energy_emits_warning_with_both_values() {
    let thresholds = EcologicalThresholds::default();
    // 12 kJ in total, against the default 10 kJ threshold.
    let results = vec![
        result("a", 6_000_000, 0, vec![]),
        result("b", 6_000_000, 0, vec![]),
    ];
    let findings = publish_findings(&results, &thresholds);
    let energy = findings
        .iter()
        .find(|f| f.id == "SUSTAIN-HIGH-ENERGY")
        .expect("high-energy finding");
    assert_eq!(energy.severity, Severity::Warning);
    assert!(energy.message.contains("12.00 kJ"));
    assert!(energy.message.contains("10.00 kJ"));
    assert_eq!(
        energy.message,
        "High total energy consumption: 12.00 kJ (threshold: 10.00 kJ)"
    );
}

#[test]
fn high_total_carbon_emits_warning_with_both_values() {
    let thresholds = EcologicalThresholds::default();
    // 2.5 g CO2e in total, against the default 2 g threshold.
    let results = vec![result("a", 0, 2_500_000, vec![])];
    let findings = publish_findings(&results, &thresholds);
    let carbon = findings
        .iter()
        .find(|f| f.id == "SUSTAIN-HIGH-CARBON")
        .expect("high-carbon finding");
    assert_eq!(carbon.severity, Severity::Warning);
    assert_eq!(
        carbon.message,
        "High carbon footprint: 2.50g CO₂ (threshold: 2.00g)"
    );
}

#[test]
fn high_impact_functions_are_listed_in_order() {
    let thresholds = EcologicalThresholds::default();
    // 150 J and 101 J both exceed the 100 J per-function threshold;
    // 100 J exactly does not.
    let results = vec![
        result("hot", 150_000, 0, vec![]),
        result("warm", 100_000, 0, vec![]),
        result("hotter", 101_000, 0, vec![]),
    ];
    let findings = publish_findings(&results, &thresholds);
    let impact = findings
        .iter()
        .find(|f| f.id == "SUSTAIN-HIGH-IMPACT-FUNCTIONS")
        .expect("high-impact finding");
    assert_eq!(impact.severity, Severity::Info);
    assert_eq!(
        impact.message,
        "2 function(s) exceed per-function energy threshold: hot (150.00J), hotter (101.00J)"
    );
}

#[test]
fn rating_finding_is_always_emitted_last() {
    let thresholds = EcologicalThresholds::default();
    let empty: Vec<AnalysisResult> = vec![];
    let findings = publish_findings(&empty, &thresholds);
    assert_eq!(findings.len(), 1);
    assert_eq!(findings[0].id, "SUSTAIN-EFFICIENCY-RATING");
    assert_eq!(findings[0].severity, Severity::Info);
    assert_eq!(findings[0].message, "Ecological efficiency rating: N/A");

    let results = vec![result("fast_fn", 5_000, 100_000, vec![])];
    let findings = publish_findings(&results, &thresholds);
    let last = findings.last().expect("at least the rating finding");
    assert_eq!(last.id, "SUSTAIN-EFFICIENCY-RATING");
    assert_eq!(last.message, "Ecological efficiency rating: A (Excellent)");
}

#[test]
fn finding_identifiers_are_deterministic() {
    let thresholds = EcologicalThresholds::default();
    let make = || {
        vec![
            result(
                "compute",
                150_000,
                2_500_000,
                vec![Pattern {
                    name: "Nested Loop".to_string(),
                    description: "loop inside a loop".to_string(),
                    severity: PatternSeverity::Medium,
                    estimated_impact: "2x energy".to_string(),
                }],
            ),
            result("io_bound", 12_000_000, 0, vec![]),
        ]
    };
    let first: Vec<String> = publish_findings(&make(), &thresholds)
        .into_iter()
        .map(|f| f.id)
        .collect();
    let second: Vec<String> = publish_findings(&make(), &thresholds)
        .into_iter()
        .map(|f| f.id)
        .collect();
    assert_eq!(first, second);
    assert_eq!(
        first,
        vec![
            "SUSTAIN-PATTERN-NESTED-LOOP-compute".to_string(),
            "SUSTAIN-HIGH-ENERGY".to_string(),
            "SUSTAIN-HIGH-CARBON".to_string(),
            "SUSTAIN-HIGH-IMPACT-FUNCTIONS".to_string(),
            "SUSTAIN-EFFICIENCY-RATING".to_string(),
        ]
    );
}

#[test]
fn slug_changes_case_and_spaces() {
    assert_eq!(sustainabot::text::slug("Nested Loop"), "NESTED-LOOP");
    assert_eq!(sustainabot::text::slug("already-upper"), "ALREADY-UPPER");
    assert_eq!(sustainabot::text::slug(""), "");
}

#[test]
fn metric_addition_is_exact() {
    let e = Energy::millijoules(1_500).add(Energy::millijoules(2_500));
    assert_eq!(e.millijoules, 4_000);
    let c = Carbon::micrograms(100).add(Carbon::micrograms(23));
    assert_eq!(c.micrograms, 123);
}
