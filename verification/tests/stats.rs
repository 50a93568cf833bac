use solana_bench_tps_rate::stats::StatsReport;

#[test]
fn test_stats_report() {
    let report = StatsReport::new(100, 95);
    assert_eq!(report.sent, 100);
    assert_eq!(report.confirmed, 95);
}
