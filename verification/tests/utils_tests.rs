use anime_downloader::utils::{
    bytes_to_human_readable, filenamify, format_episode_number, format_percent,
};

#[test]
fn filenamify_drops_reserved_characters() {
    assert_eq!(filenamify("a/b:c"), "abc");
    assert_eq!(filenamify("Re: Zero <S2>?"), "Re Zero S2");
    assert_eq!(filenamify("tab\there"), "tabhere");
    assert_eq!(filenamify("back\\slash|pipe*star"), "backslashpipestar");
}

#[test]
fn filenamify_strips_outer_periods() {
    assert_eq!(filenamify("..name.."), "name");
    assert_eq!(filenamify("...."), "");
    assert_eq!(filenamify("a.b"), "a.b");
    assert_eq!(filenamify(".hidden"), "hidden");
}

#[test]
fn byte_rates_render_with_two_decimals() {
    assert_eq!(bytes_to_human_readable(512), "512.00 B/sec");
    assert_eq!(bytes_to_human_readable(0), "0.00 B/sec");
    assert_eq!(bytes_to_human_readable(1024), "1.00 KB/sec");
    assert_eq!(bytes_to_human_readable(1536), "1.50 KB/sec");
    assert_eq!(bytes_to_human_readable(3 * 1048576), "3.00 MB/sec");
    assert_eq!(bytes_to_human_readable(2048 * 1048576), "2048.00 MB/sec");
}

#[test]
fn percentages_truncate_to_two_decimals() {
    assert_eq!(format_percent(50, 200), "25.00");
    assert_eq!(format_percent(1, 3), "33.33");
    assert_eq!(format_percent(200, 200), "100.00");
    assert_eq!(format_percent(0, 7), "0.00");
}

#[test]
fn episode_numbers_render_singly_or_as_ranges() {
    assert_eq!(format_episode_number(12, 0), "12");
    assert_eq!(format_episode_number(12, 13), "12 - 13");
    assert_eq!(format_episode_number(0, 0), "0");
}
