use deskhud_egui::text::{shorten_to_fit, ELLIPSIS};

#[test]
fn a_fitting_text_is_kept_whole() {
    assert_eq!(shorten_to_fit("Clock", true, &vec![true; 5]), "Clock");
}

#[test]
fn a_long_text_keeps_its_longest_fitting_prefix() {
    assert_eq!(ELLIPSIS, "\u{2026}");
    assert_eq!(shorten_to_fit("Weather", false, &vec![true, true, true, false, true, true, true]), "Wea\u{2026}");
    assert_eq!(shorten_to_fit("时钟插件", false, &vec![true, false, false, false]), "时\u{2026}");
}

#[test]
fn nothing_fitting_leaves_the_ellipsis_alone() {
    assert_eq!(shorten_to_fit("Weather", false, &vec![false; 7]), "\u{2026}");
    assert_eq!(shorten_to_fit("", false, &Vec::new()), "\u{2026}");
}
