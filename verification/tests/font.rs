use deskhud_egui::font::{
    font_for_locale, font_signature_changed, is_regular_face, preferred_default_face, FontChoice,
    FontFace, FontFamily,
};

fn face(style: &str, normalized: &str) -> FontFace {
    FontFace {
        style: style.to_string(),
        normalized: normalized.to_string(),
    }
}

fn family(key: &str, faces: Vec<FontFace>) -> FontFamily {
    FontFamily {
        key: key.to_string(),
        faces,
    }
}

#[test]
fn regular_faces_are_recognised_by_name() {
    assert!(is_regular_face(" Regular ", "x"));
    assert!(is_regular_face("BOOK", "x"));
    assert!(is_regular_face("Ro man", "x"));
    assert!(is_regular_face("Bold", "Regular"));
    assert!(!is_regular_face("Bold", "Bold"));
    assert!(!is_regular_face("Regular Italic", "Italic"));
}

#[test]
fn default_face_is_the_first_regular_one_else_the_first() {
    let f = family("Inter", vec![face("Bold", "Bold"), face("Normal", "x"), face("Book", "x")]);
    assert_eq!(preferred_default_face(&f), Some(1));
    let f = family("Inter", vec![face("Bold", "Bold"), face("Light", "Light")]);
    assert_eq!(preferred_default_face(&f), Some(0));
    assert_eq!(preferred_default_face(&family("Empty", Vec::new())), None);
}

#[test]
fn font_is_kept_or_replaced_to_suit_the_language() {
    let families = vec![
        family("Inter", vec![face("Bold", "Bold"), face("Regular", "Regular")]),
        family("Noto", vec![face("Regular", "Regular")]),
    ];
    assert_eq!(font_for_locale(&families, "Noto", "Regular", false), None);
    assert_eq!(
        font_for_locale(&families, "Noto", "Regular", true),
        Some(FontChoice { family: 1, face: Some(0) })
    );
    assert_eq!(
        font_for_locale(&families, "Inter", "Thin", false),
        Some(FontChoice { family: 0, face: Some(1) })
    );
    assert_eq!(
        font_for_locale(&families, "Missing", "Regular", false),
        Some(FontChoice { family: 0, face: Some(1) })
    );
    assert_eq!(font_for_locale(&Vec::new(), "Inter", "Regular", true), None);
}

#[test]
fn fonts_are_configured_again_only_when_the_signature_changes() {
    let mut last: Option<(String, u32)> = None;
    let size = 14.0f32.to_bits();
    assert!(font_signature_changed(&mut last, &"noto".to_string(), size));
    assert!(!font_signature_changed(&mut last, &"noto".to_string(), size));
    assert!(font_signature_changed(&mut last, &"noto".to_string(), 15.0f32.to_bits()));
    assert!(font_signature_changed(&mut last, &"inter".to_string(), 15.0f32.to_bits()));
    assert_eq!(last, Some(("inter".to_string(), 15.0f32.to_bits())));
}
