use laundry_control::discovery::{
    broadcast_address, collect_replies, discovery_probe, parse_reply, REPLY_BUFFER_BYTES,
    REPLY_WINDOW_MS,
};
use laundry_control::text::split_fields;

#[test]
fn probe_and_address_are_the_fixed_wire_strings() {
    assert_eq!(discovery_probe(), "WS2020_ROTONDI_DISCOVERY");
    assert_eq!(broadcast_address(), "255.255.255.255:4040");
    assert_eq!(REPLY_BUFFER_BYTES, 32);
    assert_eq!(REPLY_WINDOW_MS, 2_000);
}

#[test]
fn no_replies_yield_an_empty_list_not_an_error() {
    let replies: Vec<String> = Vec::new();
    assert_eq!(collect_replies(&replies), Vec::new());
}

#[test]
fn reply_with_empty_wifi_field_yields_one_entry() {
    let entries = parse_reply("WS2020|10.0.0.5||NODE1");
    assert_eq!(entries, vec![(String::from("10.0.0.5"), String::from("NODE1"))]);
}

#[test]
fn reply_with_both_addresses_yields_two_entries() {
    let entries = parse_reply("WS2020|10.0.0.5|10.0.0.6|NODE1");
    assert_eq!(
        entries,
        vec![
            (String::from("10.0.0.5"), String::from("NODE1")),
            (String::from("10.0.0.6"), String::from("NODE1")),
        ]
    );
}

#[test]
fn reply_with_wrong_magic_is_skipped() {
    assert!(parse_reply("WS2021|10.0.0.5||NODE1").is_empty());
}

#[test]
fn reply_with_too_few_fields_is_skipped() {
    assert!(parse_reply("WS2020|10.0.0.5|NODE1").is_empty());
    assert!(parse_reply("").is_empty());
}

#[test]
fn reply_with_no_addresses_yields_nothing() {
    assert!(parse_reply("WS2020|||NODE1").is_empty());
}

#[test]
fn replies_accumulate_in_arrival_order_without_dedup() {
    let replies = vec![
        String::from("WS2020|10.0.0.5||NODE1"),
        String::from("garbage"),
        String::from("WS2020|10.0.0.5|10.0.0.6|NODE2"),
        String::from("WS2020|10.0.0.5||NODE1"),
    ];
    let entries = collect_replies(&replies);
    assert_eq!(
        entries,
        vec![
            (String::from("10.0.0.5"), String::from("NODE1")),
            (String::from("10.0.0.5"), String::from("NODE2")),
            (String::from("10.0.0.6"), String::from("NODE2")),
            (String::from("10.0.0.5"), String::from("NODE1")),
        ]
    );
}

#[test]
fn splitting_keeps_empty_fields_and_order() {
    assert_eq!(
        split_fields("a||b|", '|'),
        vec![String::from("a"), String::from(""), String::from("b"), String::from("")]
    );
    assert_eq!(split_fields("", '|'), vec![String::from("")]);
}
