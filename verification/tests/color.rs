use surface_handoff::parse_legacy_color;
use surface_handoff::LegacyColor;

fn rgb(red: u8, green: u8, blue: u8) -> LegacyColor {
    LegacyColor { red, green, blue, alpha: 255 }
}

#[test]
fn empty_and_whitespace_have_no_colour() {
    assert_eq!(parse_legacy_color(""), Err(()));
    assert_eq!(parse_legacy_color("   "), Err(()));
}

#[test]
fn transparent_is_rejected_whatever_its_case() {
    assert_eq!(parse_legacy_color("transparent"), Err(()));
    assert_eq!(parse_legacy_color("  TRANSPARENT "), Err(()));
    assert_eq!(parse_legacy_color("TrAnSpArEnT"), Err(()));
}

#[test]
fn named_colours_come_from_the_keyword_table() {
    assert_eq!(parse_legacy_color("red"), Ok(rgb(255, 0, 0)));
    assert_eq!(parse_legacy_color("Lime"), Ok(rgb(0, 255, 0)));
    assert_eq!(parse_legacy_color(" navy "), Ok(rgb(0, 0, 128)));
    assert_eq!(parse_legacy_color("rebeccapurple"), Ok(rgb(102, 51, 153)));
}

#[test]
fn three_digit_hex_doubles_each_digit() {
    assert_eq!(parse_legacy_color("#abc"), Ok(rgb(0xaa, 0xbb, 0xcc)));
    assert_eq!(parse_legacy_color("#F00"), Ok(rgb(255, 0, 0)));
    assert_eq!(parse_legacy_color("#000"), Ok(rgb(0, 0, 0)));
}

#[test]
fn six_digit_hex_parses_through_the_pipeline() {
    assert_eq!(parse_legacy_color("#FF0000"), Ok(rgb(255, 0, 0)));
    assert_eq!(parse_legacy_color("336699"), Ok(rgb(0x33, 0x66, 0x99)));
}

#[test]
fn arbitrary_text_resolves_forgivingly() {
    // The famously forgiving rule: every non-hex letter becomes a zero
    // digit and the text is split into three channels.
    assert_eq!(parse_legacy_color("chucknorris"), Ok(rgb(0xc0, 0, 0)));
    assert_eq!(parse_legacy_color("grass"), Ok(rgb(0, 0xa0, 0)));
}

#[test]
fn single_characters_pad_out_to_a_colour() {
    // "x" sanitizes to "0", pads to "000": one digit per channel.
    assert_eq!(parse_legacy_color("x"), Ok(rgb(0, 0, 0)));
    assert_eq!(parse_legacy_color("f"), Ok(rgb(15, 0, 0)));
}

#[test]
fn long_components_keep_their_last_eight_digits() {
    // 30 digits: each ten-digit component keeps its last eight, and
    // the channel reads the first two of those.
    let input = "112233445566778899aabbccddeeff";
    assert_eq!(parse_legacy_color(input), Ok(rgb(0x22, 0x77, 0xcc)));
}

#[test]
fn leading_zeros_common_to_all_channels_are_dropped() {
    assert_eq!(parse_legacy_color("#000102030405"), Ok(rgb(0x00, 0x20, 0x40)));
}
