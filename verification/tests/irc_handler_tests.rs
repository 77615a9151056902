use kovi_plugin_irc_gateway::irc_handler::{rvs_parse_join_channels, rvs_plan_join_effects};

#[test]
fn test_20260418_parse_join_channels_single() {
    let channels = rvs_parse_join_channels("#12345");
    assert_eq!(channels.len(), 1);
    assert_eq!(channels[0].raw, "#12345");
    assert_eq!(channels[0].group_id, Some(12345));
}

#[test]
fn test_20260418_parse_join_channels_multiple() {
    let channels = rvs_parse_join_channels("#12345,#67890");
    assert_eq!(channels.len(), 2);
    assert_eq!(channels[0].group_id, Some(12345));
    assert_eq!(channels[1].group_id, Some(67890));
}

#[test]
fn test_20260418_parse_join_channels_invalid() {
    let channels = rvs_parse_join_channels("#abc,#12345");
    assert_eq!(channels.len(), 2);
    assert_eq!(channels[0].group_id, None);
    assert_eq!(channels[0].raw, "#abc");
    assert_eq!(channels[1].group_id, Some(12345));
}

#[test]
fn test_20260418_parse_join_channels_empty() {
    let channels = rvs_parse_join_channels("");
    assert!(channels.is_empty());
    let channels = rvs_parse_join_channels(",,,");
    assert!(channels.is_empty());
}

#[test]
fn test_20260418_parse_join_channels_no_hash() {
    let channels = rvs_parse_join_channels("12345");
    assert_eq!(channels.len(), 1);
    assert_eq!(channels[0].group_id, Some(12345));
    assert_eq!(channels[0].raw, "12345");
}

#[test]
fn test_20260418_plan_join_effects_all_valid() {
    let channels = rvs_parse_join_channels("#111,#222");
    let (replies, lookups) = rvs_plan_join_effects(&channels, "nick");
    assert!(replies.is_empty());
    assert_eq!(lookups.len(), 2);
    assert_eq!(lookups[0], ("#111".to_owned(), 111));
    assert_eq!(lookups[1], ("#222".to_owned(), 222));
}

#[test]
fn test_20260418_plan_join_effects_mixed() {
    let channels = rvs_parse_join_channels("#abc,#123");
    let (replies, lookups) = rvs_plan_join_effects(&channels, "nick");
    assert_eq!(replies.len(), 1);
    assert_eq!(lookups.len(), 1);
    assert_eq!(lookups[0].1, 123);
}

#[test]
fn test_20260418_plan_join_effects_all_invalid() {
    let channels = rvs_parse_join_channels("#foo,#bar");
    let (replies, lookups) = rvs_plan_join_effects(&channels, "nick");
    assert_eq!(replies.len(), 2);
    assert!(lookups.is_empty());
}

#[test]
fn test_20260418_plan_join_effects_empty() {
    let channels = rvs_parse_join_channels("");
    let (replies, lookups) = rvs_plan_join_effects(&channels, "nick");
    assert!(replies.is_empty());
    assert!(lookups.is_empty());
}
