use codex_acp::reasoning::ReasoningAggregator;

#[test]
fn take_text_joins_sections_with_blank_line() {
    let mut agg = ReasoningAggregator::new();
    agg.append_delta("first ");
    agg.append_delta("section");
    agg.section_break();
    agg.append_delta("second section");
    let text = agg.take_text();
    assert_eq!(text, Some(String::from("first section\n\nsecond section")));
}

#[test]
fn take_text_trims_trailing_whitespace_per_section() {
    let mut agg = ReasoningAggregator::new();
    agg.append_delta("alpha  \t");
    agg.section_break();
    agg.append_delta("beta\n");
    let text = agg.take_text();
    assert_eq!(text, Some(String::from("alpha\n\nbeta")));
}

#[test]
fn take_text_drops_blank_sections() {
    let mut agg = ReasoningAggregator::new();
    agg.append_delta("   \n\t ");
    agg.section_break();
    agg.append_delta("kept");
    agg.section_break();
    agg.append_delta("  ");
    let text = agg.take_text();
    assert_eq!(text, Some(String::from("kept")));
}

#[test]
fn take_text_returns_none_when_everything_is_blank() {
    let mut agg = ReasoningAggregator::new();
    agg.append_delta("  ");
    agg.section_break();
    agg.append_delta("\t\n");
    assert_eq!(agg.take_text(), None);
}

#[test]
fn take_text_twice_yields_none_the_second_time() {
    let mut agg = ReasoningAggregator::new();
    agg.append_delta("one");
    agg.section_break();
    agg.append_delta("two");
    assert_eq!(agg.take_text(), Some(String::from("one\n\ntwo")));
    assert_eq!(agg.take_text(), None);
}

#[test]
fn section_break_on_empty_buffer_is_a_no_op() {
    let mut agg = ReasoningAggregator::new();
    agg.section_break();
    agg.section_break();
    agg.append_delta("only");
    agg.section_break();
    agg.section_break();
    assert_eq!(agg.take_text(), Some(String::from("only")));
}

#[test]
fn reset_drops_everything() {
    let mut agg = ReasoningAggregator::new();
    agg.append_delta("gone");
    agg.section_break();
    agg.append_delta("also gone");
    agg.reset();
    assert_eq!(agg.take_text(), None);
}

#[test]
fn choose_final_text_prefers_longer_trimmed_final() {
    let mut agg = ReasoningAggregator::new();
    agg.append_delta("short");
    let chosen = agg.choose_final_text(Some(String::from("a longer final text")));
    assert_eq!(chosen, Some(String::from("a longer final text")));
}

#[test]
fn choose_final_text_prefers_longer_aggregated() {
    let mut agg = ReasoningAggregator::new();
    agg.append_delta("quite a long aggregated text");
    let chosen = agg.choose_final_text(Some(String::from("tiny")));
    assert_eq!(chosen, Some(String::from("quite a long aggregated text")));
}

#[test]
fn choose_final_text_keeps_aggregated_on_tie() {
    let mut agg = ReasoningAggregator::new();
    agg.append_delta("abcde");
    let chosen = agg.choose_final_text(Some(String::from("vwxyz")));
    assert_eq!(chosen, Some(String::from("abcde")));
}

#[test]
fn choose_final_text_compares_by_trimmed_length() {
    let mut agg = ReasoningAggregator::new();
    // Five characters once trimmed, padded with whitespace.
    agg.append_delta("  abcde   ");
    // Four characters once trimmed, but longer untrimmed. The aggregated
    // side wins; only its trailing whitespace was trimmed on draining.
    let chosen = agg.choose_final_text(Some(String::from("   wxyz        ")));
    assert_eq!(chosen, Some(String::from("  abcde")));
}

#[test]
fn choose_final_text_returns_other_when_one_side_is_missing() {
    let mut agg = ReasoningAggregator::new();
    agg.append_delta("aggregated");
    assert_eq!(agg.choose_final_text(None), Some(String::from("aggregated")));

    let mut empty = ReasoningAggregator::new();
    assert_eq!(
        empty.choose_final_text(Some(String::from("the final"))),
        Some(String::from("the final"))
    );
}

#[test]
fn choose_final_text_returns_none_when_both_are_missing() {
    let mut agg = ReasoningAggregator::new();
    assert_eq!(agg.choose_final_text(None), None);
}

#[test]
fn unicode_whitespace_counts_as_blank() {
    // A non-breaking-space-only section is blank and dropped.
    let mut agg = ReasoningAggregator::new();
    agg.append_delta("\u{00A0}\u{2003}");
    agg.section_break();
    agg.append_delta("kept\u{00A0}");
    let text = agg.take_text();
    assert_eq!(text, Some(String::from("kept")));
}
