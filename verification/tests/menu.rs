use deskhud_egui::menu::{
    canvas_context_menu_keys, definition, group_context_menu_keys, hud_context_menu_keys,
    parse_action, window_layer, LayerPreference, MessageKey, PetMenu, PetMenuAction, WindowLayer,
};

#[test]
fn context_menus_keep_the_requested_actions_and_order() {
    assert_eq!(
        canvas_context_menu_keys(),
        vec![
            MessageKey::HudLayoutInformationTree,
            MessageKey::HudLayoutActiveTree,
            MessageKey::HudAdjustSnapGrid,
            MessageKey::HudAdjustLockRatio,
            MessageKey::HudGroupCreate,
            MessageKey::HudLayoutDone,
            MessageKey::HudLayoutCancel,
        ]
    );
    assert_eq!(
        group_context_menu_keys(),
        vec![
            MessageKey::HudAdjustSnapGrid,
            MessageKey::HudAdjustLockRatio,
            MessageKey::HudAdjustResetPosition,
            MessageKey::HudAdjustResetSize,
            MessageKey::HudGroupDelete,
        ]
    );
    assert_eq!(
        hud_context_menu_keys(),
        vec![
            MessageKey::HudAdjustSnapGrid,
            MessageKey::HudAdjustLockRatio,
            MessageKey::HudAdjustResetPosition,
            MessageKey::HudAdjustResetSize,
            MessageKey::HudLayoutCloseInformation,
        ]
    );
}

#[test]
fn pet_menu_keeps_product_order_and_states() {
    let menu = definition(WindowLayer::AlwaysOnTop, WindowLayer::Normal, false);
    let labels = menu.items.iter().map(|item| item.label).collect::<Vec<_>>();
    assert_eq!(
        labels,
        vec![
            MessageKey::MenuSettings,
            MessageKey::SettingsPetLayer,
            MessageKey::SettingsNavHud,
            MessageKey::MenuPluginLayer,
            MessageKey::MenuHudLayout,
            MessageKey::MenuQuit,
        ]
    );
    assert!(menu.items[1].submenu.is_some());
    assert!(!menu.items[2].checked);
    assert!(menu.items[2].separator_before);
    assert!(!menu.items[3].enabled);
    assert!(!menu.items[4].enabled);
    assert!(menu.items[5].separator_before);
    assert_eq!(menu.items[0].icon, Some("brightness"));
    assert_eq!(menu.items[1].icon, Some("layers-subtract"));
    assert_eq!(menu.items[2].icon, Some("puzzle"));
    assert_eq!(menu.items[3].icon, Some("layers-subtract"));
    assert_eq!(menu.items[4].icon, Some("window"));
    assert_eq!(menu.items[5].icon, Some("close"));

    let pet_layer_items = &menu.items[1].submenu.as_ref().expect("pet layer submenu").items;
    assert!(pet_layer_items[0].checked);
    assert!(!pet_layer_items[1].checked);

    let layer_items = &menu.items[3].submenu.as_ref().expect("plugin layer submenu").items;
    assert_eq!(
        layer_items.iter().map(|item| item.label).collect::<Vec<_>>(),
        vec![
            MessageKey::MenuLayerTop,
            MessageKey::MenuLayerNormal,
            MessageKey::MenuLayerBottom,
        ]
    );
    assert!(layer_items[1].checked);
}

#[test]
fn enabled_hud_enables_its_entries() {
    let menu = definition(WindowLayer::Normal, WindowLayer::AlwaysOnBottom, true);
    assert!(menu.items[2].checked);
    assert!(menu.items[3].enabled);
    assert!(menu.items[4].enabled);
    let pet = &menu.items[1].submenu.as_ref().unwrap().items;
    assert_eq!(pet.iter().map(|i| i.checked).collect::<Vec<_>>(), vec![false, true, false]);
    let hud = &menu.items[3].submenu.as_ref().unwrap().items;
    assert_eq!(hud.iter().map(|i| i.checked).collect::<Vec<_>>(), vec![false, false, true]);
}

#[test]
fn every_menu_identifier_maps_to_its_action() {
    let menu = definition(WindowLayer::Normal, WindowLayer::Normal, true);
    let top: Vec<_> = menu.items.iter().map(|item| parse_action(item.id)).collect();
    assert_eq!(
        top,
        vec![
            Some(PetMenuAction::OpenSettings),
            None,
            Some(PetMenuAction::OpenHud),
            None,
            Some(PetMenuAction::HudLayout),
            Some(PetMenuAction::ExitApplication),
        ]
    );
    let pet: Vec<_> = menu.items[1]
        .submenu
        .as_ref()
        .unwrap()
        .items
        .iter()
        .map(|item| parse_action(item.id))
        .collect();
    assert_eq!(
        pet,
        vec![
            Some(PetMenuAction::SetPetLayer(WindowLayer::AlwaysOnTop)),
            Some(PetMenuAction::SetPetLayer(WindowLayer::Normal)),
            Some(PetMenuAction::SetPetLayer(WindowLayer::AlwaysOnBottom)),
        ]
    );
    assert_eq!(
        parse_action("pet.hud_layer.bottom"),
        Some(PetMenuAction::SetHudLayer(WindowLayer::AlwaysOnBottom))
    );
    assert_eq!(parse_action("pet.layer"), None);
    assert_eq!(parse_action("pet.layer.top "), None);
    assert_eq!(parse_action(""), None);
}

#[test]
fn layer_preferences_map_to_window_layers() {
    assert_eq!(window_layer(LayerPreference::Top), WindowLayer::AlwaysOnTop);
    assert_eq!(window_layer(LayerPreference::Normal), WindowLayer::Normal);
    assert_eq!(window_layer(LayerPreference::Bottom), WindowLayer::AlwaysOnBottom);
}

#[test]
fn pet_menu_session_opens_renders_and_closes() {
    let mut menu = PetMenu::new();
    assert!(!menu.is_visible());
    let items = menu.open([10, 20], WindowLayer::Normal, WindowLayer::Normal, true);
    assert_eq!(items.items.len(), 6);
    assert!(menu.is_visible());
    assert_eq!(menu.render(None, false), (None, false));
    assert!(menu.is_visible());
    assert_eq!(
        menu.render(Some("pet.open_hud"), true),
        (Some(PetMenuAction::OpenHud), true)
    );
    assert!(!menu.is_visible());
    menu.open([0, 0], WindowLayer::Normal, WindowLayer::Normal, false);
    menu.close();
    assert!(!menu.is_visible());
    menu.open([0, 0], WindowLayer::Normal, WindowLayer::Normal, false);
    menu.destroy();
    assert!(!menu.is_visible());
}
