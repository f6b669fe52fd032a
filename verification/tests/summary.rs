use pyg::summary::{can_summarize, tool_summary, TOOL_SUMMARY_MAX_LEN};

#[test]
fn tool_summary_truncates_long_text_and_collapses_newlines() {
    assert_eq!(tool_summary("a\nb\nc"), "a b c");
    let long = "x".repeat(TOOL_SUMMARY_MAX_LEN + 50);
    let summary = tool_summary(&long);
    assert_eq!(summary.len(), TOOL_SUMMARY_MAX_LEN + 3);
    assert!(summary.ends_with("..."));
}

#[test]
fn a_result_of_exactly_the_limit_is_its_own_summary() {
    let exact = "y".repeat(120);
    assert_eq!(tool_summary(&exact), exact);
    let over = "y".repeat(121);
    assert_eq!(tool_summary(&over), format!("{}...", exact));
}

#[test]
fn a_summary_has_no_line_feed_and_keeps_other_characters() {
    assert_eq!(tool_summary("\n\n"), "  ");
    assert_eq!(tool_summary("a\r\n\tb"), "a\r \tb");
    assert_eq!(tool_summary(""), "");
    let lines = "z\n".repeat(100);
    assert!(!tool_summary(&lines).contains('\n'));
    assert_eq!(tool_summary(&lines), format!("{}...", "z ".repeat(60)));
}

#[test]
fn the_limit_counts_bytes() {
    let wide = "é".repeat(60);
    assert!(can_summarize(&wide));
    assert_eq!(tool_summary(&wide), wide);
    let wider = "é".repeat(61);
    assert!(can_summarize(&wider));
    assert_eq!(tool_summary(&wider), format!("{}...", wide));
}

#[test]
fn a_character_across_the_cut_cannot_be_summarized() {
    let across = format!("{}é", "x".repeat(119));
    assert_eq!(across.len(), 121);
    assert!(!can_summarize(&across));
    let before = format!("{}é", "x".repeat(118));
    assert!(can_summarize(&before));
    assert!(can_summarize(&"x".repeat(500)));
}
