use chapaty_template::crash::{crash_log_path, object_key};
use chapaty_template::runner::{
    cloud_report_destination, grid_search_limit, leaderboard_size, subset, ActiveAgent,
};
use chapaty_template::text::{join, parse_usize, same_text, trim_end_char};

#[test]
fn leaderboard_size_is_a_tenth_clamped() {
    assert_eq!(leaderboard_size(0), 10);
    assert_eq!(leaderboard_size(100), 10);
    assert_eq!(leaderboard_size(109), 10);
    assert_eq!(leaderboard_size(400), 40);
    assert_eq!(leaderboard_size(1000), 100);
    assert_eq!(leaderboard_size(1009), 100);
    assert_eq!(leaderboard_size(usize::MAX), 100);
}

#[test]
fn grid_search_limit_reads_a_trimmed_count() {
    assert_eq!(grid_search_limit(None), 100);
    assert_eq!(grid_search_limit(Some("400")), 400);
    assert_eq!(grid_search_limit(Some("  250\n")), 250);
    assert_eq!(grid_search_limit(Some("+7")), 7);
    assert_eq!(grid_search_limit(Some("-1")), 100);
    assert_eq!(grid_search_limit(Some("12a")), 100);
    assert_eq!(grid_search_limit(Some("")), 100);
    assert_eq!(grid_search_limit(Some("1_000")), 100);
    assert_eq!(grid_search_limit(Some("99999999999999999999999")), 100);
    assert_eq!(grid_search_limit(Some("\u{3000}64\u{a0}")), 64);
    assert_eq!(grid_search_limit(Some("\u{200b}64")), 100);
}

#[test]
fn parse_usize_reads_as_std_does() {
    let max = usize::MAX.to_string();
    let over = format!("{}0", max);
    let cases = [
        "", "+", "-", "0", "+0", "-0", "007", "+42", "42", "4 2", " 42", "42 ", "1_000", "x1", "1x",
        "++1", "+-1", "9", "18446744073709551615", "18446744073709551616", max.as_str(), over.as_str(),
        "\u{0661}", "12345678901234567890123",
    ];
    for case in cases {
        assert_eq!(parse_usize(case), case.parse::<usize>().ok(), "input {case:?}");
    }
}

#[test]
fn active_agent_names() {
    assert_eq!(ActiveAgent::Demo.as_str(), "demo");
    assert_eq!(ActiveAgent::Template.as_str(), "template");
    assert_eq!(ActiveAgent::from_name("demo"), Some(ActiveAgent::Demo));
    assert_eq!(ActiveAgent::from_name("template"), Some(ActiveAgent::Template));
    assert_eq!(ActiveAgent::from_name("Template"), None);
    assert_eq!(ActiveAgent::from_name("demo2"), None);
    assert_eq!(ActiveAgent::from_config(None), ActiveAgent::Demo);
    assert_eq!(ActiveAgent::from_config(Some(" template\t")), ActiveAgent::Template);
    assert_eq!(ActiveAgent::from_config(Some("nope")), ActiveAgent::Demo);
}

#[test]
fn subset_keeps_at_most_the_limit() {
    let grid: Vec<(usize, char)> = (0..50).map(|i| (i, (b'a' + (i % 26) as u8) as char)).collect();
    let chosen = subset(grid.clone(), 10);
    assert_eq!(chosen.len(), 10);
    for item in &chosen {
        assert!(grid.contains(item));
    }
    let mut uids: Vec<usize> = chosen.iter().map(|(u, _)| *u).collect();
    uids.sort();
    uids.dedup();
    assert_eq!(uids.len(), 10);
    let all = subset(grid.clone(), 100);
    let mut sorted = all.clone();
    sorted.sort();
    assert_eq!(sorted, grid);
    assert!(subset(grid, 0).is_empty());
}

#[test]
fn join_collapses_trailing_slashes() {
    assert_eq!(join("gs://bucket/results", "demo/journal.csv"), "gs://bucket/results/demo/journal.csv");
    assert_eq!(join("gs://bucket/results///", "x.csv"), "gs://bucket/results/x.csv");
    assert_eq!(join("", "x"), "/x");
    assert_eq!(trim_end_char("a//b//", '/'), "a//b");
    assert!(same_text("abc", "abc"));
    assert!(!same_text("abc", "abd"));
    assert!(!same_text("abc", "ab"));
}

#[test]
fn cloud_report_destination_formats_the_path() {
    assert_eq!(
        cloud_report_destination("gs://r/out/", ActiveAgent::Template, "trade_statistics"),
        "gs://r/out/template/trade_statistics.csv"
    );
    assert_eq!(
        cloud_report_destination("s3://x", ActiveAgent::Demo, "journal"),
        "s3://x/demo/journal.csv"
    );
}

#[test]
fn crash_paths() {
    assert_eq!(crash_log_path("gs://internal/logs/run-1/"), "gs://internal/logs/run-1/execution_stderr.txt");
    assert_eq!(crash_log_path("logs"), "logs/execution_stderr.txt");
    assert_eq!(object_key("gs://internal/logs/a.txt", "internal"), "logs/a.txt");
    assert_eq!(object_key("gs://other/logs/a.txt", "internal"), "gs://other/logs/a.txt");
    assert_eq!(object_key("logs/a.txt", "internal"), "logs/a.txt");
    assert_eq!(object_key("gs://internal/", "internal"), "");
    assert_eq!(object_key("gs://internal", "internal"), "gs://internal");
}
