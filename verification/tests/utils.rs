use ss14_discord_bot::utils::{
    capitalize_key, format_extra_data, gen_random_color, now_unix, parse_duration_secs,
    red_color, sponsor_roles, trim, unix_secs_from, Color, ExtraField, ExtraValue,
    SponsorRoleEntry,
};

#[test]
fn parse_duration_single_units() {
    assert_eq!(parse_duration_secs("90s"), Some(90));
    assert_eq!(parse_duration_secs("5m"), Some(300));
    assert_eq!(parse_duration_secs("12h"), Some(43_200));
    assert_eq!(parse_duration_secs("30d"), Some(2_592_000));
    assert_eq!(parse_duration_secs("1w"), Some(604_800));
    assert_eq!(parse_duration_secs("0s"), Some(0));
    assert_eq!(parse_duration_secs("00001s"), Some(1));
}

#[test]
fn parse_duration_units_ignore_case() {
    assert_eq!(parse_duration_secs("2M"), Some(120));
    assert_eq!(parse_duration_secs("1H30M"), Some(5_400));
    assert_eq!(parse_duration_secs("1W"), Some(604_800));
}

#[test]
fn parse_duration_combined_segments() {
    assert_eq!(parse_duration_secs("1h30m"), Some(5_400));
    assert_eq!(parse_duration_secs("1w3d12h"), Some(604_800 + 3 * 86_400 + 12 * 3_600));
    assert_eq!(parse_duration_secs("1s1s1s"), Some(3));
    assert_eq!(parse_duration_secs("2d2d"), Some(4 * 86_400));
}

#[test]
fn parse_duration_rejects_malformed_input() {
    assert_eq!(parse_duration_secs(""), None);
    assert_eq!(parse_duration_secs("10"), None);
    assert_eq!(parse_duration_secs("1w1"), None);
    assert_eq!(parse_duration_secs("h"), None);
    assert_eq!(parse_duration_secs("1hh"), None);
    assert_eq!(parse_duration_secs("1x"), None);
    assert_eq!(parse_duration_secs("1h 30m"), None);
    assert_eq!(parse_duration_secs(" 1h"), None);
    assert_eq!(parse_duration_secs("-1h"), None);
    assert_eq!(parse_duration_secs("+1h"), None);
    assert_eq!(parse_duration_secs("1.5h"), None);
    assert_eq!(parse_duration_secs("１h"), None);
}

#[test]
fn parse_duration_rejects_totals_beyond_i64() {
    assert_eq!(parse_duration_secs("9223372036854775807s"), Some(i64::MAX));
    assert_eq!(parse_duration_secs("9223372036854775808s"), None);
    assert_eq!(parse_duration_secs("9223372036854775807s1s"), None);
    assert_eq!(parse_duration_secs("100000000000000000000000s"), None);
    assert_eq!(parse_duration_secs("15250284452471w"), Some(15_250_284_452_471 * 604_800));
    assert_eq!(parse_duration_secs("15250284452472w"), None);
}

#[test]
fn parse_duration_concatenation_adds() {
    let a = parse_duration_secs("1w").unwrap();
    let b = parse_duration_secs("3d12h").unwrap();
    assert_eq!(parse_duration_secs("1w3d12h"), Some(a + b));
    let c = parse_duration_secs("45m").unwrap();
    assert_eq!(parse_duration_secs("3d12h45m"), Some(b + c));
}

#[test]
fn trim_removes_surrounding_whitespace_only() {
    assert_eq!(trim("  30d \t"), "30d");
    assert_eq!(trim("\n1h 30m\r\n"), "1h 30m");
    assert_eq!(trim("   "), "");
    assert_eq!(trim(""), "");
    assert_eq!(trim("\u{a0}1w\u{3000}"), "1w");
    assert_eq!(trim("x"), "x");
}

#[test]
fn unix_secs_from_clock_reading() {
    assert_eq!(unix_secs_from(Some(1_725_029_869)), 1_725_029_869);
    assert_eq!(unix_secs_from(None), 0);
    assert_eq!(unix_secs_from(Some(u64::MAX)), -1);
}

#[test]
fn now_unix_is_after_2020() {
    assert!(now_unix() > 1_577_836_800);
}

fn entry(name: Option<&str>, id: Option<&str>) -> SponsorRoleEntry {
    SponsorRoleEntry { name: name.map(|s| s.to_string()), id: id.map(|s| s.to_string()) }
}

#[test]
fn sponsor_roles_keeps_well_formed_entries_in_order() {
    let entries = vec![
        entry(Some("Gold"), Some("111")),
        entry(None, Some("222")),
        entry(Some("Silver"), None),
        entry(Some("Broken"), Some("12ab")),
        entry(Some("Bronze"), Some("333")),
        entry(None, None),
    ];
    let roles = sponsor_roles(&entries);
    assert_eq!(roles, vec![("Gold".to_string(), 111), ("Bronze".to_string(), 333)]);
    assert!(sponsor_roles(&vec![]).is_empty());
}

#[test]
fn colours_pack_components() {
    assert_eq!(Color::from_rgb(255, 0, 0).value, 0xFF0000);
    assert_eq!(Color::from_rgb(0x12, 0x34, 0x56).value, 0x123456);
    assert_eq!(red_color().value, 0xFF0000);
    for _ in 0..20 {
        assert!(gen_random_color().value <= 0xFF_FFFF);
    }
}

#[test]
fn capitalize_key_capitalizes_every_part() {
    assert_eq!(capitalize_key("play_time"), "Play Time");
    assert_eq!(capitalize_key("discord"), "Discord");
    assert_eq!(capitalize_key("a__b"), "A  B");
    assert_eq!(capitalize_key("_x"), " X");
    assert_eq!(capitalize_key("x_"), "X ");
    assert_eq!(capitalize_key(""), "");
    assert_eq!(capitalize_key("élan_vital"), "Élan Vital");
    assert_eq!(capitalize_key("straße_ß"), "Straße SS");
    assert_eq!(capitalize_key("2fa_on"), "2fa On");
}

#[test]
fn format_extra_data_lists_strings_and_integers() {
    let fields = vec![
        ExtraField { key: "first_seen".to_string(), value: ExtraValue::Text("today".to_string()) },
        ExtraField { key: "hours".to_string(), value: ExtraValue::Unsigned(42) },
        ExtraField { key: "ratio".to_string(), value: ExtraValue::Other },
        ExtraField { key: "balance".to_string(), value: ExtraValue::Signed(-3) },
    ];
    assert_eq!(
        format_extra_data(Some(&fields)),
        "First Seen: today\nHours: 42\nBalance: -3\n"
    );
}

#[test]
fn format_extra_data_without_shown_entries() {
    assert_eq!(format_extra_data(None), "No extra data found.");
    assert_eq!(format_extra_data(Some(&vec![])), "No extra data found.");
    let hidden = vec![ExtraField { key: "nested".to_string(), value: ExtraValue::Other }];
    assert_eq!(format_extra_data(Some(&hidden)), "No extra data found.");
}
