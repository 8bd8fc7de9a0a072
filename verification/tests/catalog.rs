use deskhud_egui::catalog::{catalog_fallback, catalog_key, contains_char};

#[test]
fn catalog_keys_join_item_and_field() {
    assert_eq!(catalog_key("pet.deskhud.mochi", "name"), "pet.deskhud.mochi.name");
}

#[test]
fn message_ids_fall_back_to_the_full_key() {
    let key = "pet.deskhud.mochi.name";
    assert_eq!(catalog_fallback(key, "name", "name"), key);
    assert_eq!(catalog_fallback(key, "name", "pet.name"), key);
    assert_eq!(catalog_fallback(key, "name", "Mochi"), "Mochi");
    assert!(contains_char("a.b", '.'));
    assert!(!contains_char("ab", '.'));
}
