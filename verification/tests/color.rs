use deskhud_egui::color::{brightest_text_color, format_hex_color, hex_color_input, parse_hex_color};

#[test]
fn parses_hash_and_bare_colours_in_either_case() {
    assert_eq!(parse_hex_color("#FFA0b1"), Some([0xff, 0xa0, 0xb1]));
    assert_eq!(parse_hex_color("0a0B0c"), Some([10, 11, 12]));
    assert_eq!(parse_hex_color("  #102030\t\n"), Some([0x10, 0x20, 0x30]));
    assert_eq!(parse_hex_color("\u{3000}#000000\u{a0}"), Some([0, 0, 0]));
}

#[test]
fn rejects_values_that_are_not_six_hex_digits() {
    assert_eq!(parse_hex_color(""), None);
    assert_eq!(parse_hex_color("#"), None);
    assert_eq!(parse_hex_color("#12345"), None);
    assert_eq!(parse_hex_color("#1234567"), None);
    assert_eq!(parse_hex_color("##123456"), None);
    assert_eq!(parse_hex_color("#12345g"), None);
    assert_eq!(parse_hex_color("#12é45"), None);
    assert_eq!(parse_hex_color("12 456"), None);
    assert_eq!(parse_hex_color("-1-1-1"), None);
}

#[test]
fn a_sign_is_not_a_hexadecimal_digit() {
    assert_eq!(parse_hex_color("#+F+F+F"), None);
    assert_eq!(parse_hex_color("#-10000"), None);
    assert_eq!(parse_hex_color("#GG0000"), None);
    assert_eq!(parse_hex_color("#F+0000"), None);
    assert_eq!(parse_hex_color("++0000"), None);
}

#[test]
fn canonical_text_is_upper_case_and_round_trips() {
    assert_eq!(format_hex_color([0xab, 0x05, 0xf0]), "#AB05F0");
    assert_eq!(format_hex_color([0, 0, 0]), "#000000");
    for color in [[0u8, 0, 0], [255, 255, 255], [1, 128, 254], [0x7f, 0x80, 0x0a]] {
        assert_eq!(parse_hex_color(&format_hex_color(color)), Some(color));
    }
}

#[test]
fn editing_applies_valid_text_and_resets_invalid_text_on_blur() {
    let edit = hex_color_input([1, 2, 3], "#a0b0c0".to_string(), true, false);
    assert_eq!(edit.color, [0xa0, 0xb0, 0xc0]);
    assert!(edit.changed);
    assert_eq!(edit.input, "#a0b0c0");

    let edit = hex_color_input([1, 2, 3], "#a0b".to_string(), true, false);
    assert_eq!(edit.color, [1, 2, 3]);
    assert!(!edit.changed);
    assert_eq!(edit.input, "#a0b");

    let edit = hex_color_input([1, 2, 3], "#a0b".to_string(), false, true);
    assert_eq!(edit.color, [1, 2, 3]);
    assert!(!edit.changed);
    assert_eq!(edit.input, "#010203");

    let edit = hex_color_input([1, 2, 3], "ffffff".to_string(), false, true);
    assert_eq!(edit.color, [1, 2, 3]);
    assert_eq!(edit.input, "ffffff");
}

#[test]
fn default_text_colour_is_the_brightest_and_last_of_ties() {
    assert_eq!(brightest_text_color(&Vec::new()), [255, 255, 255]);
    assert_eq!(brightest_text_color(&vec![[10, 10, 10], [200, 0, 0], [0, 100, 100], [0, 0, 5]]), [0, 100, 100]);
    assert_eq!(brightest_text_color(&vec![[100, 0, 0], [0, 100, 0], [0, 0, 50]]), [0, 100, 0]);
}
