use bsreceiver::presenter::{prints_summary, PrintPolicy};

fn policy(main_header: bool, data_header: bool, metadata: bool, data_values: bool) -> PrintPolicy {
    PrintPolicy { main_header, data_header, metadata, data_values }
}

#[test]
fn level_zero_prints_nothing_of_a_message() {
    assert_eq!(PrintPolicy::for_level(0), policy(false, false, false, false));
}

#[test]
fn level_one_prints_nothing_of_a_message() {
    assert_eq!(PrintPolicy::for_level(1), policy(false, false, false, false));
}

#[test]
fn level_two_prints_metadata_and_no_values() {
    let shown = PrintPolicy::for_level(2);
    assert!(shown.metadata);
    assert!(!shown.data_values);
    assert_eq!(shown, policy(false, false, true, false));
}

#[test]
fn level_three_prints_values_without_headers_or_metadata() {
    let shown = PrintPolicy::for_level(3);
    assert!(shown.data_values);
    assert!(!shown.main_header);
    assert!(!shown.data_header);
    assert!(!shown.metadata);
}

#[test]
fn level_four_prints_headers_and_values() {
    let shown = PrintPolicy::for_level(4);
    assert!(shown.main_header);
    assert!(shown.data_header);
    assert!(shown.data_values);
    assert_eq!(shown, policy(true, true, false, true));
}

#[test]
fn levels_above_four_print_as_level_four() {
    assert_eq!(PrintPolicy::for_level(5), PrintPolicy::for_level(4));
    assert_eq!(PrintPolicy::for_level(u64::MAX), PrintPolicy::for_level(4));
}

#[test]
fn summary_is_printed_above_level_zero_only() {
    assert!(!prints_summary(0));
    assert!(prints_summary(1));
    assert!(prints_summary(3));
    assert!(prints_summary(u64::MAX));
}
